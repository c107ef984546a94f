//! HTTP header maps: what the transport's own map type does, stated over a
//! plain model, and the checks the client makes before filling one.

use vstd::prelude::*;
use vstd::string::*;
use vstd::utf8::*;
use reqwest::header::{HeaderMap, HeaderValue, InvalidHeaderValue, ToStrError};

verus! {

/// The transport library's header map, taken as it is. What it holds is
/// spoken of through `header_entries`.
#[verifier::external_type_specification]
#[verifier::external_body]
#[verifier::reject_recursive_types(T)]
pub struct ExHeaderMap<T>(reqwest::header::HeaderMap<T>);

/// The transport library's header value, taken as it is. What it holds is
/// spoken of through `header_value_bytes`.
#[verifier::external_type_specification]
#[verifier::external_body]
pub struct ExHeaderValue(reqwest::header::HeaderValue);

/// The error with which the transport library refuses to make a header
/// value. It carries nothing.
#[verifier::external_type_specification]
#[verifier::external_body]
pub struct ExInvalidHeaderValue(reqwest::header::InvalidHeaderValue);

/// The error with which the transport library refuses to give a header
/// value as a string. It carries nothing.
#[verifier::external_type_specification]
#[verifier::external_body]
pub struct ExToStrError(reqwest::header::ToStrError);

/// What a header map holds: for each header name in it, written in lower
/// case, the bytes of the first value stored under that name.
pub uninterp spec fn header_entries(map: HeaderMap) -> Map<Seq<char>, Seq<u8>>;

/// What a header value holds: its bytes, in order.
pub uninterp spec fn header_value_bytes(value: HeaderValue) -> Seq<u8>;

/// A byte that may stand in a header value: anything from the space upward
/// except DEL, or a tab.
pub open spec fn is_value_byte(b: u8) -> bool {
    (b >= 32 && b != 127) || b == 9
}

/// A byte of printable ASCII text, or a tab.
pub open spec fn is_text_byte(b: u8) -> bool {
    (b >= 32 && b < 127) || b == 9
}

/// True when every byte may stand in a header value.
pub open spec fn all_value_bytes(bytes: Seq<u8>) -> bool {
    forall|i: int| 0 <= i < bytes.len() ==> is_value_byte(#[trigger] bytes[i])
}

/// True when every byte is printable ASCII text or a tab.
pub open spec fn all_text_bytes(bytes: Seq<u8>) -> bool {
    forall|i: int| 0 <= i < bytes.len() ==> is_text_byte(#[trigger] bytes[i])
}

/// A character of a header name as this crate writes them: a lower-case
/// letter, a digit or a hyphen.
pub open spec fn is_name_char(c: char) -> bool {
    ('a' <= c && c <= 'z') || ('0' <= c && c <= '9') || c == '-'
}

/// A header name as this crate writes them: between 1 and 64 name characters.
pub open spec fn is_header_name(name: Seq<char>) -> bool {
    &&& 1 <= name.len() <= 64
    &&& forall|i: int| 0 <= i < name.len() ==> is_name_char(#[trigger] name[i])
}

/// The contents of a header map that holds nothing.
pub open spec fn no_headers() -> Map<Seq<char>, Seq<u8>> {
    Map::empty()
}

/// A number of names below which a header map is certain to take one more:
/// a map refuses to grow only far above it.
pub const HEADER_ROOM: usize = 1024;

/// `HeaderValue::from_str`: a string is accepted exactly when each of its
/// bytes may stand in a header value, and the value made then holds the
/// bytes of the string.
pub assume_specification[ reqwest::header::HeaderValue::from_str ](src: &str) -> (r: Result<
    HeaderValue,
    InvalidHeaderValue,
>)
    ensures
        r is Ok <==> all_value_bytes(src.spec_bytes()),
        r matches Ok(v) ==> header_value_bytes(v) == src.spec_bytes(),
;

/// `HeaderValue::to_str`: the value is given as a string exactly when each
/// of its bytes is printable ASCII or a tab, and the string then has the
/// bytes of the value.
pub assume_specification<'a>[ reqwest::header::HeaderValue::to_str ](value: &'a HeaderValue) -> (r:
    Result<&'a str, ToStrError>)
    ensures
        r is Ok <==> all_text_bytes(header_value_bytes(*value)),
        r matches Ok(s) ==> s.spec_bytes() == header_value_bytes(*value),
;

/// `HeaderMap::new`: a map that holds nothing.
#[verifier::external_body]
fn header_map_new() -> (headers: HeaderMap)
    ensures
        header_entries(headers) == no_headers(),
{
    HeaderMap::new()
}

/// `HeaderMap::insert` with the name given as a string: the value becomes
/// the only one under that name, and what stands under other names stays.
/// The call panics on a string that is no header name and on a map that
/// cannot grow, so the name must be one as this crate writes them, which
/// the map takes as it is, and the map must hold fewer than `HEADER_ROOM`
/// names.
#[verifier::external_body]
fn header_map_insert(map: &mut HeaderMap, name: &'static str, value: HeaderValue)
    requires
        is_header_name(name@),
        header_entries(*old(map)).dom().finite(),
        header_entries(*old(map)).dom().len() < HEADER_ROOM,
    ensures
        header_entries(*final(map)) == header_entries(*old(map)).insert(
            name@,
            header_value_bytes(value),
        ),
{
    map.insert(name, value);
}

/// `HeaderMap::get` with the name given as a string: the first value stored
/// under that name, if there is one. The name is one as this crate writes
/// them, which the map looks up as it is.
#[verifier::external_body]
fn header_map_get<'a>(map: &'a HeaderMap, name: &str) -> (r: Option<&'a HeaderValue>)
    requires
        is_header_name(name@),
    ensures
        r is Some <==> header_entries(*map).dom().contains(name@),
        r matches Some(v) ==> header_value_bytes(*v) == header_entries(*map)[name@],
{
    map.get(name)
}

/// `Clone::clone` of a header map: a second map that holds the same.
#[verifier::external_body]
pub(crate) fn header_map_clone(map: &HeaderMap) -> (copy: HeaderMap)
    ensures
        header_entries(copy) == header_entries(*map),
{
    map.clone()
}

/// A character of printable ASCII text, or a tab.
pub open spec fn is_text_char(c: char) -> bool {
    (' ' <= c && c <= '~') || c == '\t'
}

/// Text that a header value can carry and give back as a string: printable
/// ASCII and tabs only.
pub open spec fn is_text(s: Seq<char>) -> bool {
    forall|i: int| 0 <= i < s.len() ==> is_text_char(#[trigger] s[i])
}

/// What a header map gives back as a string under `name`: the first value
/// stored there, if there is one and it is text.
pub open spec fn header_text(entries: Map<Seq<char>, Seq<u8>>, name: Seq<char>) -> Option<
    Seq<char>,
> {
    if is_header_name(name) && entries.dom().contains(name) && all_text_bytes(entries[name]) {
        Some(decode_utf8(entries[name]))
    } else {
        None
    }
}

/// The view of an optional string.
pub open spec fn text_of(s: Option<String>) -> Option<Seq<char>> {
    match s {
        Some(s) => Some(s@),
        None => None,
    }
}

/// Text is encoded byte for character, and every byte of it may stand in a
/// header value and come back out as a string.
pub proof fn lemma_text_bytes(s: Seq<char>)
    requires
        is_text(s),
    ensures
        all_text_bytes(encode_utf8(s)),
        all_value_bytes(encode_utf8(s)),
        decode_utf8(encode_utf8(s)) == s,
{
    assert(is_ascii_chars(s)) by {
        assert forall|i: int| 0 <= i < s.len() implies '\0' <= #[trigger] s[i] <= '\u{7f}' by {
            assert(is_text_char(s[i]));
        }
    }
    is_ascii_chars_encode_utf8(s);
    let bytes = encode_utf8(s);
    assert forall|i: int| 0 <= i < bytes.len() implies is_text_byte(#[trigger] bytes[i]) by {
        assert(is_text_char(s[i]));
        assert(bytes[i] == s[i] as u8);
    }
    encode_utf8_decode_utf8(s);
}

/// Tells whether a string can be carried by a header value and read back.
pub fn is_header_text(s: &str) -> (ok: bool)
    ensures
        ok == is_text(s@),
{
    if !s.is_ascii() {
        proof {
            let i = choose|i: int| 0 <= i < s@.len() && !('\0' <= #[trigger] s@[i] <= '\u{7f}');
            assert(!is_text_char(s@[i]));
        }
        return false;
    }
    let bytes = s.as_bytes();
    let n = bytes.len();
    proof {
        is_ascii_spec_bytes(s);
    }
    let mut i: usize = 0;
    while i < n
        invariant
            i <= n,
            n == bytes@.len(),
            n == s@.len(),
            forall|j: int| 0 <= j < n ==> bytes@[j] == s@[j] as u8,
            forall|j: int| 0 <= j < n ==> '\0' <= #[trigger] s@[j] <= '\u{7f}',
            forall|j: int| 0 <= j < i ==> is_text_char(#[trigger] s@[j]),
        decreases n - i,
    {
        let b = bytes[i];
        if !((b >= 32 && b < 127) || b == 9) {
            assert(!is_text_char(s@[i as int]));
            return false;
        }
        assert(is_text_char(s@[i as int]));
        i = i + 1;
    }
    true
}

/// Tells whether a string is a header name as this crate writes them.
pub fn is_valid_name(name: &str) -> (ok: bool)
    ensures
        ok == is_header_name(name@),
{
    if !name.is_ascii() {
        proof {
            let i = choose|i: int|
                0 <= i < name@.len() && !('\0' <= #[trigger] name@[i] <= '\u{7f}');
            assert(!is_name_char(name@[i]));
        }
        return false;
    }
    let bytes = name.as_bytes();
    let n = bytes.len();
    proof {
        is_ascii_spec_bytes(name);
    }
    if n < 1 || n > 64 {
        return false;
    }
    let mut i: usize = 0;
    while i < n
        invariant
            i <= n,
            n == bytes@.len(),
            n == name@.len(),
            forall|j: int| 0 <= j < n ==> bytes@[j] == name@[j] as u8,
            forall|j: int| 0 <= j < n ==> '\0' <= #[trigger] name@[j] <= '\u{7f}',
            forall|j: int| 0 <= j < i ==> is_name_char(#[trigger] name@[j]),
        decreases n - i,
    {
        let b = bytes[i];
        if !((b >= 97 && b <= 122) || (b >= 48 && b <= 57) || b == 45) {
            assert(!is_name_char(name@[i as int]));
            return false;
        }
        assert(is_name_char(name@[i as int]));
        i = i + 1;
    }
    true
}

/// Makes an empty header map.
pub(crate) fn new_headers() -> (headers: HeaderMap)
    ensures
        header_entries(headers) == no_headers(),
        header_entries(headers).dom().finite(),
        header_entries(headers).dom().len() == 0,
{
    header_map_new()
}

/// Stores `text` under `name` if `text` can be a header value, and says
/// whether it could.
pub(crate) fn put_header(headers: &mut HeaderMap, name: &'static str, text: &str) -> (ok: bool)
    requires
        is_header_name(name@),
        header_entries(*old(headers)).dom().finite(),
        header_entries(*old(headers)).dom().len() < HEADER_ROOM,
    ensures
        ok == is_text(text@),
        ok ==> header_entries(*final(headers)) == header_entries(*old(headers)).insert(
            name@,
            encode_utf8(text@),
        ),
        !ok ==> header_entries(*final(headers)) == header_entries(*old(headers)),
        header_entries(*final(headers)).dom().finite(),
        header_entries(*final(headers)).dom().len() <= header_entries(*old(headers)).dom().len()
            + 1,
{
    if !is_header_text(text) {
        return false;
    }
    proof {
        lemma_text_bytes(text@);
    }
    match HeaderValue::from_str(text) {
        Ok(value) => {
            header_map_insert(headers, name, value);
            true
        },
        Err(_) => false,
    }
}

/// Reads the header `name` as a string: the first value stored under that
/// name, if there is one and it is text. A name that is not written as this
/// crate writes them finds nothing.
pub fn read_header(headers: &HeaderMap, name: &str) -> (r: Option<String>)
    ensures
        text_of(r) == header_text(header_entries(*headers), name@),
{
    if !is_valid_name(name) {
        return None;
    }
    match header_map_get(headers, name) {
        Some(value) => match value.to_str() {
            Ok(s) => {
                proof {
                    encode_utf8_decode_utf8(s@);
                }
                Some(s.to_owned())
            },
            Err(_) => None,
        },
        None => None,
    }
}

} // verus!
