//! From a quote as it came to a quote with its numbers read: the one place
//! where the amounts of every quoting tier are parsed and its route checked.

use crate::error::{AmountField, DecodeError, JupiterError};
use crate::jupiter_client::JupiterQuoteResponse;
use crate::numeric::{amount_value, decimal_value, parse_amount, parse_decimal, Decimal};
use crate::types::{JupiterQuote, RoutePlan};
use vstd::prelude::*;

verus! {

/// The shares of the hops of a route, added up.
pub open spec fn percent_total(route: Seq<RoutePlan>) -> nat
    decreases route.len(),
{
    if route.len() == 0 {
        0
    } else {
        percent_total(route.drop_last()) + route.last().percent as nat
    }
}

/// The total of a route is at least the total of any of its beginnings.
pub proof fn lemma_percent_total_grows(route: Seq<RoutePlan>, k: int)
    requires
        0 <= k <= route.len(),
    ensures
        percent_total(route.subrange(0, k)) <= percent_total(route),
    decreases route.len(),
{
    if k == route.len() {
        assert(route.subrange(0, k) =~= route);
    } else {
        lemma_percent_total_grows(route.drop_last(), k);
        assert(route.drop_last().subrange(0, k) =~= route.subrange(0, k));
    }
}

/// Tells whether the hops of a route share out exactly one hundred percent.
pub fn route_is_whole(route: &Vec<RoutePlan>) -> (ok: bool)
    ensures
        ok == (percent_total(route@) == 100),
{
    let n = route.len();
    let mut total: u64 = 0;
    let mut i: usize = 0;
    while i < n
        invariant
            i <= n,
            n == route@.len(),
            total <= 100,
            total == percent_total(route@.subrange(0, i as int)),
        decreases n - i,
    {
        let ghost before = route@.subrange(0, i as int);
        let ghost after = route@.subrange(0, i + 1);
        assert(after.drop_last() =~= before);
        assert(after.last() == route@[i as int]);
        let share = route[i].percent as u64;
        if total + share > 100 {
            proof {
                lemma_percent_total_grows(route@, i + 1);
            }
            return false;
        }
        total = total + share;
        i = i + 1;
    }
    assert(route@.subrange(0, n as int) =~= route@);
    total == 100
}

/// What can be wrong with a quote that did decode.
#[derive(Debug, Clone, Copy, PartialEq, Eq, Structural)]
pub enum QuoteDefect {
    /// A number written as text cannot be read.
    Amount(AmountField),
    /// The route has no hop.
    EmptyRoute,
    /// The shares of the hops do not add up to one hundred.
    RoutePercentages,
}

/// The numbers of a quote, read from its text.
#[derive(Debug, Clone, Copy, PartialEq, Eq, Structural)]
pub struct QuoteNumbers {
    pub in_amount: u64,
    pub out_amount: u64,
    pub price_impact_pct: Decimal,
}

/// The numbers of a quote, or the first thing that is wrong with it: the
/// amount that goes in, the amount that comes out and the price impact
/// must be readable, the route must have a hop, and under strict validation
/// its shares must add up to one hundred.
pub open spec fn quote_numbers(response: JupiterQuoteResponse, strict: bool) -> Result<
    QuoteNumbers,
    QuoteDefect,
> {
    if amount_value(response.in_amount@) is None {
        Err(QuoteDefect::Amount(AmountField::InAmount))
    } else if amount_value(response.out_amount@) is None {
        Err(QuoteDefect::Amount(AmountField::OutAmount))
    } else if decimal_value(response.price_impact_pct@) is None {
        Err(QuoteDefect::Amount(AmountField::PriceImpact))
    } else if response.route_plan@.len() == 0 {
        Err(QuoteDefect::EmptyRoute)
    } else if strict && percent_total(response.route_plan@) != 100 {
        Err(QuoteDefect::RoutePercentages)
    } else {
        Ok(
            QuoteNumbers {
                in_amount: amount_value(response.in_amount@)->0,
                out_amount: amount_value(response.out_amount@)->0,
                price_impact_pct: decimal_value(response.price_impact_pct@)->0,
            },
        )
    }
}

/// The failure that a defect of a quote amounts to. A number that cannot
/// be read is reported with the text that stood in its place.
pub open spec fn defect_error(response: JupiterQuoteResponse, defect: QuoteDefect) -> JupiterError {
    match defect {
        QuoteDefect::Amount(AmountField::InAmount) => JupiterError::MalformedAmount {
            field: AmountField::InAmount,
            text: response.in_amount,
        },
        QuoteDefect::Amount(AmountField::OutAmount) => JupiterError::MalformedAmount {
            field: AmountField::OutAmount,
            text: response.out_amount,
        },
        QuoteDefect::Amount(AmountField::PriceImpact) => JupiterError::MalformedAmount {
            field: AmountField::PriceImpact,
            text: response.price_impact_pct,
        },
        QuoteDefect::EmptyRoute => JupiterError::Decode(DecodeError::EmptyRoute),
        QuoteDefect::RoutePercentages => JupiterError::Decode(DecodeError::RoutePercentages),
    }
}

/// The quote that a response and its numbers make: everything but the
/// numbers is taken over as it came.
pub open spec fn quote_with(response: JupiterQuoteResponse, numbers: QuoteNumbers) -> JupiterQuote {
    JupiterQuote {
        input_mint: response.input_mint,
        in_amount: numbers.in_amount,
        output_mint: response.output_mint,
        out_amount: numbers.out_amount,
        price_impact_pct: numbers.price_impact_pct,
        route_plan: response.route_plan,
        context_slot: response.context_slot,
        time_taken: response.time_taken,
        slippage_bps: response.slippage_bps,
    }
}

/// The quote that a response stands for, or the failure that it amounts to.
pub open spec fn quote_of(response: JupiterQuoteResponse, strict: bool) -> Result<
    JupiterQuote,
    JupiterError,
> {
    match quote_numbers(response, strict) {
        Ok(numbers) => Ok(quote_with(response, numbers)),
        Err(defect) => Err(defect_error(response, defect)),
    }
}

/// Reads the numbers of a quote and checks its route.
pub fn read_quote(response: &JupiterQuoteResponse, strict: bool) -> (r: Result<
    QuoteNumbers,
    QuoteDefect,
>)
    ensures
        r == quote_numbers(*response, strict),
{
    let in_amount = match parse_amount(response.in_amount.as_str()) {
        Some(n) => n,
        None => {
            return Err(QuoteDefect::Amount(AmountField::InAmount));
        },
    };
    let out_amount = match parse_amount(response.out_amount.as_str()) {
        Some(n) => n,
        None => {
            return Err(QuoteDefect::Amount(AmountField::OutAmount));
        },
    };
    let price_impact_pct = match parse_decimal(response.price_impact_pct.as_str()) {
        Some(d) => d,
        None => {
            return Err(QuoteDefect::Amount(AmountField::PriceImpact));
        },
    };
    if response.route_plan.len() == 0 {
        return Err(QuoteDefect::EmptyRoute);
    }
    if strict && !route_is_whole(&response.route_plan) {
        return Err(QuoteDefect::RoutePercentages);
    }
    Ok(QuoteNumbers { in_amount, out_amount, price_impact_pct })
}

/// Turns a defect of a quote into the failure it amounts to.
pub fn reject_quote(response: JupiterQuoteResponse, defect: QuoteDefect) -> (e: JupiterError)
    ensures
        e == defect_error(response, defect),
{
    match defect {
        QuoteDefect::Amount(AmountField::InAmount) => JupiterError::MalformedAmount {
            field: AmountField::InAmount,
            text: response.in_amount,
        },
        QuoteDefect::Amount(AmountField::OutAmount) => JupiterError::MalformedAmount {
            field: AmountField::OutAmount,
            text: response.out_amount,
        },
        QuoteDefect::Amount(AmountField::PriceImpact) => JupiterError::MalformedAmount {
            field: AmountField::PriceImpact,
            text: response.price_impact_pct,
        },
        QuoteDefect::EmptyRoute => JupiterError::Decode(DecodeError::EmptyRoute),
        QuoteDefect::RoutePercentages => JupiterError::Decode(DecodeError::RoutePercentages),
    }
}

/// Puts a response and its numbers together into a quote.
pub fn assemble_quote(response: JupiterQuoteResponse, numbers: QuoteNumbers) -> (quote:
    JupiterQuote)
    ensures
        quote == quote_with(response, numbers),
{
    JupiterQuote {
        input_mint: response.input_mint,
        in_amount: numbers.in_amount,
        output_mint: response.output_mint,
        out_amount: numbers.out_amount,
        price_impact_pct: numbers.price_impact_pct,
        route_plan: response.route_plan,
        context_slot: response.context_slot,
        time_taken: response.time_taken,
        slippage_bps: response.slippage_bps,
    }
}

/// Turns a quote as it came into a quote with its numbers read, or into
/// the failure that it amounts to.
pub fn normalize_quote(response: JupiterQuoteResponse, strict: bool) -> (r: Result<
    JupiterQuote,
    JupiterError,
>)
    ensures
        r == quote_of(response, strict),
{
    match read_quote(&response, strict) {
        Ok(numbers) => Ok(assemble_quote(response, numbers)),
        Err(defect) => Err(reject_quote(response, defect)),
    }
}

/// An accepted quote has the route of the response, with at least one hop;
/// under strict validation the shares of its hops add up to exactly one
/// hundred.
pub proof fn lemma_accepted_route(response: JupiterQuoteResponse, strict: bool)
    requires
        quote_of(response, strict) is Ok,
    ensures
        quote_of(response, strict)->Ok_0.route_plan == response.route_plan,
        quote_of(response, strict)->Ok_0.route_plan@.len() > 0,
        strict ==> percent_total(quote_of(response, strict)->Ok_0.route_plan@) == 100,
{
}

/// Under strict validation a response whose shares do not add up to one
/// hundred is never accepted.
pub proof fn lemma_strict_rejects(response: JupiterQuoteResponse)
    requires
        percent_total(response.route_plan@) != 100,
    ensures
        quote_of(response, true) is Err,
{
}

} // verus!
