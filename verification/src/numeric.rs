//! Exact numbers for values that travel as text: base-unit amounts and
//! fixed-point decimals.

use vstd::arithmetic::div_mod::{
    lemma_div_multiples_vanish_quotient,
    lemma_fundamental_div_mod,
    lemma_fundamental_div_mod_converse,
};
use vstd::prelude::*;
use vstd::string::*;

verus! {

/// True for the ten ASCII decimal digits.
pub open spec fn is_digit(c: char) -> bool {
    '0' <= c && c <= '9'
}

/// The number a decimal digit stands for.
pub open spec fn digit_value(c: char) -> nat {
    (c as u32 - 48) as nat
}

/// True when every character of `s` is a decimal digit.
pub open spec fn all_digits(s: Seq<char>) -> bool {
    forall|i: int| 0 <= i < s.len() ==> is_digit(#[trigger] s[i])
}

/// The number written by a sequence of decimal digits, most significant first.
pub open spec fn digits_value(s: Seq<char>) -> nat
    decreases s.len(),
{
    if s.len() == 0 {
        0
    } else {
        digits_value(s.drop_last()) * 10 + digit_value(s.last())
    }
}

/// The digits of an amount once an optional leading `+` is set aside.
pub open spec fn amount_digits(s: Seq<char>) -> Seq<char> {
    if s.len() > 0 && s[0] == '+' {
        s.subrange(1, s.len() as int)
    } else {
        s
    }
}

/// The base-unit amount that `s` writes, if it writes one: an optional `+`,
/// then one or more decimal digits whose value fits in 64 bits.
pub open spec fn amount_value(s: Seq<char>) -> Option<u64> {
    let d = amount_digits(s);
    if d.len() > 0 && all_digits(d) && digits_value(d) <= u64::MAX {
        Some(digits_value(d) as u64)
    } else {
        None
    }
}

/// A prefix of a digit string never writes a larger number than the whole.
pub proof fn lemma_digits_prefix_le(s: Seq<char>, k: int)
    requires
        0 <= k <= s.len(),
    ensures
        digits_value(s.subrange(0, k)) <= digits_value(s),
    decreases s.len(),
{
    if k == s.len() {
        assert(s.subrange(0, k) =~= s);
    } else {
        lemma_digits_prefix_le(s.drop_last(), k);
        assert(s.drop_last().subrange(0, k) =~= s.subrange(0, k));
    }
}

/// Reads a base-unit amount from its decimal text.
pub fn parse_amount(s: &str) -> (r: Option<u64>)
    ensures
        r == amount_value(s@),
{
    if !s.is_ascii() {
        proof {
            let i = choose|i: int| 0 <= i < s@.len() && !('\0' <= #[trigger] s@[i] <= '\u{7f}');
            let d = amount_digits(s@);
            if i == 0 {
                assert(s@[0] != '+');
                assert(d[0] == s@[0]);
                assert(!is_digit(d[0]));
            } else if s@[0] == '+' {
                assert(d[i - 1] == s@[i]);
                assert(!is_digit(d[i - 1]));
            } else {
                assert(!is_digit(d[i]));
            }
        }
        return None;
    }
    let bytes = s.as_bytes();
    let n = bytes.len();
    proof {
        is_ascii_spec_bytes(s);
    }
    let start: usize = if n > 0 && bytes[0] == 43 { 1 } else { 0 };
    let ghost d = amount_digits(s@);
    assert(d =~= s@.subrange(start as int, n as int));
    if start == n {
        return None;
    }
    let mut acc: u64 = 0;
    let mut i: usize = start;
    while i < n
        invariant
            start <= i <= n,
            n == bytes@.len(),
            n == s@.len(),
            d == amount_digits(s@),
            d == s@.subrange(start as int, n as int),
            forall|j: int| 0 <= j < n ==> bytes@[j] == s@[j] as u8,
            forall|j: int| 0 <= j < n ==> '\0' <= #[trigger] s@[j] <= '\u{7f}',
            all_digits(d.subrange(0, i - start)),
            acc as nat == digits_value(d.subrange(0, i - start)),
        decreases n - i,
    {
        let b = bytes[i];
        let ghost c = s@[i as int];
        assert(d[i - start] == c);
        if b < 48 || b > 57 {
            assert(!is_digit(c));
            return None;
        }
        assert(is_digit(c));
        let digit: u64 = (b - 48) as u64;
        assert(digit as nat == digit_value(c));
        let ghost next = d.subrange(0, i - start + 1);
        assert(next.drop_last() =~= d.subrange(0, i - start));
        assert(next.last() == c);
        assert(all_digits(next)) by {
            assert forall|j: int| 0 <= j < next.len() implies is_digit(#[trigger] next[j]) by {
                if j < i - start {
                    assert(d.subrange(0, i - start)[j] == next[j]);
                }
            }
        }
        if acc > (u64::MAX - digit) / 10 {
            proof {
                lemma_digits_prefix_le(d, i - start + 1);
            }
            return None;
        }
        acc = acc * 10 + digit;
        i = i + 1;
    }
    assert(d.subrange(0, i - start) =~= d);
    Some(acc)
}

/// The character that writes a number below ten.
pub open spec fn digit_char(d: nat) -> char
    recommends
        d < 10,
{
    if d == 0 {
        '0'
    } else if d == 1 {
        '1'
    } else if d == 2 {
        '2'
    } else if d == 3 {
        '3'
    } else if d == 4 {
        '4'
    } else if d == 5 {
        '5'
    } else if d == 6 {
        '6'
    } else if d == 7 {
        '7'
    } else if d == 8 {
        '8'
    } else {
        '9'
    }
}

/// The shortest decimal text of a number: no sign, no leading zero but for
/// zero itself.
pub open spec fn decimal_text(n: nat) -> Seq<char>
    decreases n,
{
    if n < 10 {
        seq![digit_char(n)]
    } else {
        decimal_text(n / 10).push(digit_char(n % 10))
    }
}

fn digit_str(d: u64) -> (r: &'static str)
    requires
        d < 10,
    ensures
        r@ == seq![digit_char(d as nat)],
{
    proof {
        reveal_strlit("0");
        reveal_strlit("1");
        reveal_strlit("2");
        reveal_strlit("3");
        reveal_strlit("4");
        reveal_strlit("5");
        reveal_strlit("6");
        reveal_strlit("7");
        reveal_strlit("8");
        reveal_strlit("9");
    }
    let r = if d == 0 {
        "0"
    } else if d == 1 {
        "1"
    } else if d == 2 {
        "2"
    } else if d == 3 {
        "3"
    } else if d == 4 {
        "4"
    } else if d == 5 {
        "5"
    } else if d == 6 {
        "6"
    } else if d == 7 {
        "7"
    } else if d == 8 {
        "8"
    } else {
        "9"
    };
    assert(r@ =~= seq![digit_char(d as nat)]);
    r
}

/// Writes a number as its shortest decimal text.
pub fn format_amount(n: u64) -> (r: String)
    ensures
        r@ == decimal_text(n as nat),
    decreases n,
{
    if n < 10 {
        digit_str(n).to_owned()
    } else {
        let mut r = format_amount(n / 10);
        r.append(digit_str(n % 10));
        assert(r@ =~= decimal_text(n as nat));
        r
    }
}

/// Decimal text is made of digits and writes the number it was made from.
pub proof fn lemma_decimal_text_digits(n: nat)
    ensures
        decimal_text(n).len() > 0,
        all_digits(decimal_text(n)),
        digits_value(decimal_text(n)) == n,
    decreases n,
{
    if n < 10 {
        let t = decimal_text(n);
        assert(t.drop_last() =~= Seq::<char>::empty());
        assert(digits_value(t.drop_last()) == 0);
    } else {
        lemma_decimal_text_digits(n / 10);
        let t = decimal_text(n);
        assert(t.drop_last() =~= decimal_text(n / 10));
        assert(t.last() == digit_char(n % 10));
    }
}

/// Writing an amount and reading it back gives the same amount.
pub proof fn lemma_amount_round_trip(n: u64)
    ensures
        amount_value(decimal_text(n as nat)) == Some(n),
{
    lemma_decimal_text_digits(n as nat);
    let t = decimal_text(n as nat);
    assert(is_digit(t[0]));
    assert(amount_digits(t) == t);
}

/// Ten to the power `n`.
pub open spec fn pow10(n: nat) -> nat
    decreases n,
{
    if n == 0 {
        1
    } else {
        10 * pow10((n - 1) as nat)
    }
}

/// An exact decimal number: `units / 10^scale`, negated when `negative`.
///
/// It stands wherever a quantity has a fractional part: percentages, prices,
/// latencies, fees in the native unit.
#[derive(Clone, Copy, Debug, PartialEq, Eq, Structural)]
pub struct Decimal {
    pub negative: bool,
    pub units: u128,
    pub scale: u8,
}

impl Decimal {
    /// The numerator of the number as a fraction over `denominator()`.
    pub open spec fn numerator(self) -> int {
        if self.negative {
            -(self.units as int)
        } else {
            self.units as int
        }
    }

    /// The denominator of the number: a power of ten, never zero.
    pub open spec fn denominator(self) -> int {
        pow10(self.scale as nat) as int
    }

    /// The number zero.
    pub open spec fn zero() -> Decimal {
        Decimal { negative: false, units: 0, scale: 0 }
    }

    /// Makes the number zero.
    pub fn new_zero() -> (r: Decimal)
        ensures
            r == Decimal::zero(),
    {
        Decimal { negative: false, units: 0, scale: 0 }
    }

    /// True when `self` and `other` differ by at most one hundredth.
    pub open spec fn within_hundredth(self, other: Decimal) -> bool {
        let diff = self.numerator() * other.denominator() - other.numerator() * self.denominator();
        let bound = self.denominator() * other.denominator();
        -bound <= 100 * diff <= bound
    }
}

/// Where the decimal point of `s` stands: the index of its first `.`, or the
/// length of `s` if it has none.
pub open spec fn dot_position(s: Seq<char>) -> nat
    decreases s.len(),
{
    if s.len() == 0 || s[0] == '.' {
        0
    } else {
        1 + dot_position(s.drop_first())
    }
}

/// How many characters of `s` a leading sign takes: one or none.
pub open spec fn sign_len(s: Seq<char>) -> int {
    if s.len() > 0 && (s[0] == '+' || s[0] == '-') {
        1
    } else {
        0
    }
}

/// What stands between the sign and the decimal point of `s`.
pub open spec fn integer_digits(s: Seq<char>) -> Seq<char> {
    let body = s.subrange(sign_len(s), s.len() as int);
    body.subrange(0, dot_position(body) as int)
}

/// What stands after the decimal point of `s`; nothing if it has no point.
pub open spec fn fraction_digits(s: Seq<char>) -> Seq<char> {
    let body = s.subrange(sign_len(s), s.len() as int);
    let k = dot_position(body) as int;
    if k < body.len() {
        body.subrange(k + 1, body.len() as int)
    } else {
        Seq::empty()
    }
}

/// The decimal number that `s` writes, if it writes one: an optional sign,
/// then digits with at most one decimal point among them. There must be at
/// least one digit, at most 255 after the point, and the digits read as one
/// number must fit in 128 bits.
pub open spec fn decimal_value(s: Seq<char>) -> Option<Decimal> {
    let whole = integer_digits(s);
    let frac = fraction_digits(s);
    let digits = whole + frac;
    if digits.len() > 0 && all_digits(digits) && frac.len() <= 255 && digits_value(digits)
        <= u128::MAX {
        Some(
            Decimal {
                negative: s[0] == '-',
                units: digits_value(digits) as u128,
                scale: frac.len() as u8,
            },
        )
    } else {
        None
    }
}

/// The decimal point stands at the first `.` and nowhere before it.
pub proof fn lemma_dot_position(s: Seq<char>)
    ensures
        dot_position(s) <= s.len(),
        forall|j: int| 0 <= j < dot_position(s) ==> s[j] != '.',
        dot_position(s) < s.len() ==> s[dot_position(s) as int] == '.',
    decreases s.len(),
{
    if s.len() == 0 || s[0] == '.' {
    } else {
        let t = s.drop_first();
        lemma_dot_position(t);
        assert forall|j: int| 0 <= j < dot_position(s) implies s[j] != '.' by {
            if j > 0 {
                assert(t[j - 1] == s[j]);
            }
        }
        if dot_position(s) < s.len() {
            assert(t[dot_position(t) as int] == s[dot_position(s) as int]);
        }
    }
}

/// Reads an exact decimal number from its text.
pub fn parse_decimal(s: &str) -> (r: Option<Decimal>)
    ensures
        r == decimal_value(s@),
{
    let ghost text = s@;
    let ghost sign = sign_len(text);
    let ghost body = text.subrange(sign, text.len() as int);
    let ghost k = dot_position(body) as int;
    let ghost whole = integer_digits(text);
    let ghost frac = fraction_digits(text);
    let ghost digits = whole + frac;
    proof {
        lemma_dot_position(body);
    }
    if !s.is_ascii() {
        proof {
            let i = choose|i: int| 0 <= i < text.len() && !('\0' <= #[trigger] text[i] <= '\u{7f}');
            let c = text[i];
            let j = i - sign;
            assert(body[j] == c);
            if j < k {
                assert(whole[j] == c);
                assert(digits[j] == c);
            } else {
                assert(j > k);
                assert(frac[j - k - 1] == c);
                assert(digits[whole.len() + j - k - 1] == c);
            }
            assert(!is_digit(c));
        }
        return None;
    }
    let bytes = s.as_bytes();
    let n = bytes.len();
    proof {
        is_ascii_spec_bytes(s);
    }
    let start: usize = if n > 0 && (bytes[0] == 43 || bytes[0] == 45) {
        1
    } else {
        0
    };
    let negative = n > 0 && bytes[0] == 45;
    assert(start == sign);
    let mut acc: u128 = 0;
    let mut i: usize = start;
    let mut seen_dot = false;
    let mut count: usize = 0;
    let mut frac_len: usize = 0;
    let ghost mut dot: int = 0;
    while i < n
        invariant
            start <= i <= n,
            start == sign,
            n == bytes@.len(),
            n == text.len(),
            text == s@,
            body == text.subrange(sign, text.len() as int),
            k == dot_position(body),
            k <= body.len(),
            forall|j: int| 0 <= j < k ==> body[j] != '.',
            k < body.len() ==> body[k] == '.',
            whole == integer_digits(text),
            frac == fraction_digits(text),
            whole == body.subrange(0, k),
            k < body.len() ==> frac == body.subrange(k + 1, body.len() as int),
            k == body.len() ==> frac == Seq::<char>::empty(),
            digits == whole + frac,
            negative == (text.len() > 0 && text[0] == '-'),
            forall|j: int| 0 <= j < n ==> bytes@[j] == text[j] as u8,
            forall|j: int| 0 <= j < n ==> '\0' <= #[trigger] text[j] <= '\u{7f}',
            !seen_dot ==> i - start <= k && count == i - start && frac_len == 0,
            seen_dot ==> dot == k && k < i - start && count == i - start - 1 && frac_len == i
                - start - k - 1,
            frac_len <= 255,
            count <= digits.len(),
            all_digits(digits.subrange(0, count as int)),
            acc as nat == digits_value(digits.subrange(0, count as int)),
        decreases n - i,
    {
        let b = bytes[i];
        let ghost c = text[i as int];
        let ghost j = i - start;
        assert(body[j] == c);
        if b == 46 {
            assert(c == '.');
            if seen_dot {
                assert(frac[j - k - 1] == c);
                assert(digits[whole.len() + j - k - 1] == c);
                assert(!is_digit(c));
                return None;
            }
            assert(j == k);
            seen_dot = true;
            proof {
                dot = j;
            }
        } else {
            proof {
                if seen_dot {
                    assert(frac[j - k - 1] == c);
                    assert(digits[count as int] == c);
                } else {
                    assert(j < k);
                    assert(whole[j] == c);
                    assert(digits[count as int] == c);
                }
            }
            if b < 48 || b > 57 {
                assert(!is_digit(c));
                return None;
            }
            assert(is_digit(c));
            let digit: u128 = (b - 48) as u128;
            assert(digit as nat == digit_value(c));
            let ghost next = digits.subrange(0, count + 1);
            assert(next.drop_last() =~= digits.subrange(0, count as int));
            assert(next.last() == c);
            assert(all_digits(next)) by {
                assert forall|m: int| 0 <= m < next.len() implies is_digit(#[trigger] next[m]) by {
                    if m < count {
                        assert(digits.subrange(0, count as int)[m] == next[m]);
                    }
                }
            }
            if seen_dot {
                if frac_len >= 255 {
                    assert(frac.len() > 255);
                    return None;
                }
                frac_len = frac_len + 1;
            }
            if acc > (u128::MAX - digit) / 10 {
                proof {
                    lemma_digits_prefix_le(digits, count + 1);
                }
                return None;
            }
            acc = acc * 10 + digit;
            count = count + 1;
        }
        i = i + 1;
    }
    assert(digits.len() == count);
    assert(digits.subrange(0, count as int) =~= digits);
    if count == 0 {
        return None;
    }
    assert(frac.len() == frac_len);
    Some(Decimal { negative, units: acc, scale: frac_len as u8 })
}

/// The fraction `num / den` rounded to the nearest integer, halves upward.
pub open spec fn round_half_up(num: int, den: int) -> int {
    (2 * num + den) / (2 * den)
}

/// The basis points of a slippage percentage: the percentage times one
/// hundred, rounded to the nearest integer, and held within what a request
/// can carry (zero for a negative percentage, 65535 at most).
pub open spec fn slippage_bps(percent: Decimal) -> int {
    if percent.negative {
        0
    } else {
        let exact = round_half_up(100 * percent.units, percent.denominator());
        if exact > 65535 {
            65535
        } else {
            exact
        }
    }
}

/// The percentage that a number of basis points stands for: a hundredth of it.
pub open spec fn bps_percent(bps: u16) -> Decimal {
    Decimal { negative: false, units: bps as u128, scale: 2 }
}

/// A fee in the native unit: the fee in the smallest unit over ten to the ninth.
pub open spec fn native_amount(smallest: u64) -> Decimal {
    Decimal { negative: false, units: smallest as u128, scale: 9 }
}

/// Powers of ten grow with the exponent.
pub proof fn lemma_pow10_monotonic(a: nat, b: nat)
    requires
        a <= b,
    ensures
        0 < pow10(a) <= pow10(b),
    decreases b,
{
    if b == 0 {
    } else if a == b {
        lemma_pow10_monotonic((a - 1) as nat, (b - 1) as nat);
    } else {
        lemma_pow10_monotonic(a, (b - 1) as nat);
    }
}

proof fn lemma_pow10_38()
    ensures
        pow10(38) == 100000000000000000000000000000000000000,
        pow10(41) == 100000000000000000000000000000000000000000,
{
    reveal_with_fuel(pow10, 20);
    assert(pow10(19) == 10000000000000000000);
    assert(pow10(38) == 100000000000000000000000000000000000000);
    assert(pow10(41) == 1000 * pow10(38));
}

/// Rounding to nearest is the quotient, plus one when twice the remainder
/// reaches the divisor.
pub proof fn lemma_round_half_up(num: int, den: int)
    requires
        0 <= num,
        0 < den,
    ensures
        round_half_up(num, den) == num / den + if 2 * (num % den) >= den {
            1int
        } else {
            0int
        },
{
    let q = num / den;
    let r = num % den;
    lemma_fundamental_div_mod(num, den);
    assert(num == den * q + r);
    assert(0 <= r < den);
    if 2 * r >= den {
        assert(2 * num + den == (q + 1) * (2 * den) + (2 * r - den)) by (nonlinear_arith)
            requires
                num == den * q + r,
        ;
        lemma_fundamental_div_mod_converse(2 * num + den, 2 * den, q + 1, 2 * r - den);
    } else {
        assert(2 * num + den == q * (2 * den) + (2 * r + den)) by (nonlinear_arith)
            requires
                num == den * q + r,
        ;
        lemma_fundamental_div_mod_converse(2 * num + den, 2 * den, q, 2 * r + den);
    }
}

proof fn lemma_round_small_scale(u: int, scale: nat)
    requires
        0 <= u,
        scale <= 2,
    ensures
        scale == 0 ==> round_half_up(100 * u, pow10(scale) as int) == 100 * u,
        scale == 1 ==> round_half_up(100 * u, pow10(scale) as int) == 10 * u,
        scale == 2 ==> round_half_up(100 * u, pow10(scale) as int) == u,
{
    reveal_with_fuel(pow10, 3);
    if scale == 0 {
        lemma_fundamental_div_mod_converse(200 * u + 1, 2, 100 * u, 1);
    } else if scale == 1 {
        lemma_fundamental_div_mod_converse(200 * u + 10, 20, 10 * u, 10);
    } else {
        lemma_fundamental_div_mod_converse(200 * u + 100, 200, u, 100);
    }
}

fn pow10_u128(e: u8) -> (r: u128)
    requires
        e <= 38,
    ensures
        r == pow10(e as nat),
        r > 0,
{
    let mut r: u128 = 1;
    let mut i: u8 = 0;
    while i < e
        invariant
            i <= e <= 38,
            r == pow10(i as nat),
            r > 0,
        decreases e - i,
    {
        proof {
            lemma_pow10_monotonic((i + 1) as nat, 38);
            lemma_pow10_38();
        }
        r = r * 10;
        i = i + 1;
    }
    r
}

/// Converts a slippage percentage to basis points.
pub fn percent_to_bps(percent: Decimal) -> (bps: u16)
    ensures
        bps == slippage_bps(percent),
{
    if percent.negative {
        return 0;
    }
    let u = percent.units;
    let ghost den = percent.denominator();
    let ghost exact = round_half_up(100 * u, den);
    if percent.scale <= 2 {
        let mult: u128 = if percent.scale == 0 {
            100
        } else if percent.scale == 1 {
            10
        } else {
            1
        };
        proof {
            lemma_round_small_scale(u as int, percent.scale as nat);
        }
        if u > 65535 {
            return 65535;
        }
        let x = u * mult;
        if x > 65535 {
            65535
        } else {
            x as u16
        }
    } else {
        let e = percent.scale - 2;
        proof {
            reveal_with_fuel(pow10, 3);
            assert(den == 100 * pow10(e as nat));
        }
        if e > 38 {
            proof {
                lemma_pow10_38();
                lemma_pow10_monotonic(41, percent.scale as nat);
                assert(200 * u < den);
                lemma_fundamental_div_mod_converse(200 * u + den, 2 * den, 0, 200 * u + den);
            }
            return 0;
        }
        let d = pow10_u128(e);
        let q = u / d;
        let r = u % d;
        let up: u128 = if r >= d - r {
            1
        } else {
            0
        };
        proof {
            lemma_div_multiples_vanish_quotient(100, 2 * u + d, 2 * d);
            assert(100 * (2 * u + d) == 2 * (100 * u) + den);
            assert(100 * (2 * d) == 2 * den);
            assert(exact == round_half_up(u as int, d as int));
            lemma_round_half_up(u as int, d as int);
            assert(exact == q + up);
        }
        if q >= 65535 {
            65535
        } else {
            (q + up) as u16
        }
    }
}

/// Converts basis points to the percentage they stand for.
pub fn bps_to_percent(bps: u16) -> (percent: Decimal)
    ensures
        percent == bps_percent(bps),
{
    Decimal { negative: false, units: bps as u128, scale: 2 }
}

/// Converts a fee in the smallest unit to the native unit.
pub fn lamports_to_sol(lamports: u64) -> (sol: Decimal)
    ensures
        sol == native_amount(lamports),
{
    Decimal { negative: false, units: lamports as u128, scale: 9 }
}

/// Converting a percentage between zero and one hundred to basis points and
/// back gives a percentage within one hundredth of the first; in fact within
/// half of that.
pub proof fn lemma_slippage_round_trip(percent: Decimal)
    requires
        !percent.negative,
        percent.units <= 100 * pow10(percent.scale as nat),
    ensures
        0 <= slippage_bps(percent) <= 10000,
        bps_percent(slippage_bps(percent) as u16).within_hundredth(percent),
        ({
            let back = bps_percent(slippage_bps(percent) as u16);
            let diff = back.numerator() * percent.denominator() - percent.numerator()
                * back.denominator();
            -percent.denominator() <= 2 * diff <= percent.denominator()
        }),
{
    let u = percent.units as int;
    let den = percent.denominator();
    lemma_pow10_monotonic(0, percent.scale as nat);
    let exact = round_half_up(100 * u, den);
    lemma_fundamental_div_mod(200 * u + den, 2 * den);
    let rem = (200 * u + den) % (2 * den);
    assert(0 <= rem < 2 * den);
    assert(200 * u + den == (2 * den) * exact + rem);
    assert(2 * (den * exact) == (2 * den) * exact) by (nonlinear_arith);
    assert(0 <= exact <= 10000) by (nonlinear_arith)
        requires
            200 * u + den == 2 * (den * exact) + rem,
            0 <= rem < 2 * den,
            0 <= u <= 100 * den,
            0 < den,
    ;
    reveal_with_fuel(pow10, 3);
    let back = bps_percent(exact as u16);
    assert(back.denominator() == 100);
    assert(back.numerator() == exact);
    let diff = back.numerator() * den - percent.numerator() * back.denominator();
    assert(diff == exact * den - u * 100);
    assert(exact * den == den * exact) by (nonlinear_arith);
    assert(-den <= 2 * diff <= den);
    assert(back.denominator() * percent.denominator() == 100 * den);
    assert(back.within_hundredth(percent)) by (nonlinear_arith)
        requires
            -den <= 2 * diff <= den,
            0 < den,
            back.numerator() * percent.denominator() - percent.numerator() * back.denominator()
                == diff,
            back.denominator() * percent.denominator() == 100 * den,
            back.within_hundredth(percent) == ({
                let b = back.denominator() * percent.denominator();
                -b <= 100 * diff <= b
            }),
    ;
}

/// Basis points turned into a percentage and back are the same basis points.
pub proof fn lemma_bps_round_trip(bps: u16)
    ensures
        slippage_bps(bps_percent(bps)) == bps,
{
    lemma_round_small_scale(bps as int, 2);
}

} // verus!
