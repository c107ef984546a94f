//! Executing a swap: a quote, then a transaction built from that quote.
//!
//! The two calls are made by the caller. What is decided between them is
//! decided here: a swap that waits for its quote becomes, on an accepted
//! quote and on nothing else, a swap that waits for its transaction, and
//! only that one has a build request to send.

use crate::error::JupiterError;
use crate::exchange::{is_success_status, settle, Endpoint, HttpReply};
use crate::jupiter_client::{
    swap_of,
    JupiterClient,
    JupiterQuoteRequest,
    JupiterQuoteResponse,
    JupiterSwapRequest,
    JupiterSwapResponse,
};
use crate::numeric::{
    lamports_to_sol,
    native_amount,
    percent_to_bps,
    slippage_bps,
    Decimal,
};
use crate::quote::{
    assemble_quote,
    defect_error,
    quote_numbers,
    quote_with,
    read_quote,
    reject_quote,
    QuoteNumbers,
};
use crate::types::{JupiterQuote, SwapRequest, SwapResponse};
use vstd::prelude::*;
use vstd::string::*;

verus! {

/// The most accounts a quoted route may touch.
pub const MAX_ACCOUNTS: u8 = 64;

/// True when `request` is the quote request that a swap request calls
/// for: its mints, amount and venue lists as they are, its slippage turned
/// from percent into basis points, the amount taken as the exact input, no
/// platform fee, and the fixed cap on accounts.
pub open spec fn is_quote_request_for(request: JupiterQuoteRequest, intent: SwapRequest) -> bool {
    &&& request.input_mint == intent.input_mint
    &&& request.output_mint == intent.output_mint
    &&& request.amount == intent.amount
    &&& request.slippage_bps == slippage_bps(intent.slippage)
    &&& request.swap_mode matches Some(mode) && mode@ == "ExactIn"@
    &&& request.dexes == intent.allowed_dexes
    &&& request.exclude_dexes == intent.excluded_dexes
    &&& request.platform_fee_bps == None::<u16>
    &&& request.max_accounts == Some(MAX_ACCOUNTS)
}

/// The build request for a quote: the quote as it came, the signer, and
/// the fixed policy: compute limit found dynamically, the given priority
/// fee, a versioned transaction and not a legacy one, shared accounts, no
/// fee account and no tracking account.
pub open spec fn build_request_for(
    response: JupiterQuoteResponse,
    user_public_key: String,
    priority_fee: u64,
) -> JupiterSwapRequest {
    JupiterSwapRequest {
        quote_response: response,
        user_public_key,
        dynamic_compute_unit_limit: Some(true),
        prioritization_fee_lamports: Some(priority_fee),
        as_legacy_transaction: Some(false),
        use_shared_accounts: Some(true),
        fee_account: None,
        tracking_account: None,
        compute_unit_price_micro_lamports: None,
        as_versioned_transaction: Some(true),
    }
}

/// True when `outcome` is what a built transaction and the quote it was
/// built from amount to: the transaction as it came, success, the fee in
/// the native unit, the quote, and nothing yet of what only settlement
/// can tell.
pub open spec fn is_outcome_of(
    outcome: SwapResponse,
    built: JupiterSwapResponse,
    quote: JupiterQuote,
) -> bool {
    &&& outcome.transaction == built.swap_transaction
    &&& outcome.success
    &&& outcome.error_message@ == Seq::<char>::empty()
    &&& outcome.actual_profit == Decimal::zero()
    &&& outcome.gas_used == native_amount(built.prioritization_fee_lamports)
    &&& outcome.execution_time == 0
    &&& outcome.bundle_id@ == Seq::<char>::empty()
    &&& outcome.quote == Some(quote)
}

/// A swap that waits for its quote.
#[derive(Debug)]
pub struct SwapAwaitingQuote {
    request: JupiterQuoteRequest,
    user_public_key: String,
    priority_fee: u64,
    strict: bool,
}

/// A swap that waits for its transaction. It holds the build request, and
/// the numbers that were read from the quote in it.
#[derive(Debug)]
pub struct SwapAwaitingTransaction {
    request: JupiterSwapRequest,
    numbers: QuoteNumbers,
}

impl JupiterClient {
    /// Begins a swap: derives the quote request from what is asked for.
    pub fn execute_swap(&self, swap_request: SwapRequest) -> (pending: SwapAwaitingQuote)
        ensures
            is_quote_request_for(pending.request(), swap_request),
            pending.user_public_key() == swap_request.user_public_key,
            pending.priority_fee() == swap_request.priority_fee,
            pending.strict() == self@.strict_routes,
    {
        let request = JupiterQuoteRequest {
            input_mint: swap_request.input_mint,
            output_mint: swap_request.output_mint,
            amount: swap_request.amount,
            slippage_bps: percent_to_bps(swap_request.slippage),
            swap_mode: Some("ExactIn".to_owned()),
            dexes: swap_request.allowed_dexes,
            exclude_dexes: swap_request.excluded_dexes,
            platform_fee_bps: None,
            max_accounts: Some(MAX_ACCOUNTS),
        };
        SwapAwaitingQuote {
            request,
            user_public_key: swap_request.user_public_key,
            priority_fee: swap_request.priority_fee,
            strict: self.strict_validation(),
        }
    }
}

impl SwapAwaitingQuote {
    /// The quote request of this swap.
    pub closed spec fn request(self) -> JupiterQuoteRequest {
        self.request
    }

    /// The signer of this swap.
    pub closed spec fn user_public_key(self) -> String {
        self.user_public_key
    }

    /// The priority fee of this swap.
    pub closed spec fn priority_fee(self) -> u64 {
        self.priority_fee
    }

    /// Whether the quote of this swap is validated strictly.
    pub closed spec fn strict(self) -> bool {
        self.strict
    }

    /// The quote request to send.
    pub fn quote_request(&self) -> (r: &JupiterQuoteRequest)
        ensures
            *r == self.request(),
    {
        &self.request
    }

    /// Takes the reply to the quote request.
    ///
    /// The swap goes on exactly when the reply is a success, decodes, and
    /// holds a quote without defect; the build request then embeds that
    /// quote as it came. On any failure of the quote the swap ends with
    /// that failure, and no build request comes to be.
    pub fn on_quote(self, reply: HttpReply<JupiterQuoteResponse>) -> (r: Result<
        SwapAwaitingTransaction,
        JupiterError,
    >)
        ensures
            r is Ok <==> quote_accepted(reply, self.strict()),
            !is_success_status(reply.status) ==> reply.is_failure(Endpoint::Quote, r),
            is_success_status(reply.status) ==> (match reply.decoded {
                Ok(response) => match quote_numbers(response, self.strict()) {
                    Ok(numbers) => r matches Ok(next) && next.request() == build_request_for(
                        response,
                        self.user_public_key(),
                        self.priority_fee(),
                    ) && next.numbers() == numbers,
                    Err(defect) => r == Err::<SwapAwaitingTransaction, JupiterError>(
                        defect_error(response, defect),
                    ),
                },
                Err(reason) => reply.is_undecodable(reason, r),
            }),
    {
        let response = match settle(Endpoint::Quote, reply) {
            Ok(response) => response,
            Err(e) => {
                return Err(e);
            },
        };
        match read_quote(&response, self.strict) {
            Ok(numbers) => Ok(
                SwapAwaitingTransaction {
                    request: JupiterSwapRequest {
                        quote_response: response,
                        user_public_key: self.user_public_key,
                        dynamic_compute_unit_limit: Some(true),
                        prioritization_fee_lamports: Some(self.priority_fee),
                        as_legacy_transaction: Some(false),
                        use_shared_accounts: Some(true),
                        fee_account: None,
                        tracking_account: None,
                        compute_unit_price_micro_lamports: None,
                        as_versioned_transaction: Some(true),
                    },
                    numbers,
                },
            ),
            Err(defect) => Err(reject_quote(response, defect)),
        }
    }
}

/// True when a reply to a quote request holds a quote that is accepted: the
/// status is a success, the payload decoded, and the quote has no defect.
pub open spec fn quote_accepted(reply: HttpReply<JupiterQuoteResponse>, strict: bool) -> bool {
    &&& is_success_status(reply.status)
    &&& reply.decoded matches Ok(response) && quote_numbers(response, strict) is Ok
}

impl SwapAwaitingTransaction {
    /// The build request of this swap.
    pub closed spec fn request(self) -> JupiterSwapRequest {
        self.request
    }

    /// The numbers read from the quote of this swap.
    pub closed spec fn numbers(self) -> QuoteNumbers {
        self.numbers
    }

    /// The build request to send.
    pub fn swap_request(&self) -> (r: &JupiterSwapRequest)
        ensures
            *r == self.request(),
    {
        &self.request
    }

    /// Takes the reply to the build request and ends the swap: with the
    /// outcome if the reply is a success and decodes, with the failure
    /// otherwise. The quote is part of the outcome and of nothing else.
    pub fn on_transaction(self, reply: HttpReply<JupiterSwapResponse>) -> (r: Result<
        SwapResponse,
        JupiterError,
    >)
        ensures
            !is_success_status(reply.status) ==> reply.is_failure(Endpoint::Swap, r),
            is_success_status(reply.status) ==> (match reply.decoded {
                Ok(built) => r matches Ok(outcome) && is_outcome_of(
                    outcome,
                    built,
                    quote_with(self.request().quote_response, self.numbers()),
                ),
                Err(reason) => reply.is_undecodable(reason, r),
            }),
    {
        let built = match settle(Endpoint::Swap, reply) {
            Ok(built) => built,
            Err(e) => {
                return Err(e);
            },
        };
        let quote = assemble_quote(self.request.quote_response, self.numbers);
        Ok(
            SwapResponse {
                transaction: built.swap_transaction,
                success: true,
                error_message: String::new(),
                actual_profit: Decimal::new_zero(),
                gas_used: lamports_to_sol(built.prioritization_fee_lamports),
                execution_time: 0,
                bundle_id: String::new(),
                quote: Some(quote),
            },
        )
    }
}

} // verus!
