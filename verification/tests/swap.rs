use reqwest::header::{HeaderMap, HeaderValue};
use solana_arbitrage_bot::error::{AmountField, DecodeError, ErrorCategory, JupiterError};
use solana_arbitrage_bot::exchange::{Endpoint, HttpMethod, HttpReply};
use solana_arbitrage_bot::jupiter_client::{
    JupiterClient, JupiterQuoteResponse, JupiterSwapResponse, PlatformFee, RoutePlan, SwapInfo,
};
use solana_arbitrage_bot::numeric::Decimal;
use solana_arbitrage_bot::swap::MAX_ACCOUNTS;
use solana_arbitrage_bot::types::SwapRequest;

fn dec(units: u128, scale: u8) -> Decimal {
    Decimal { negative: false, units, scale }
}

fn as_f64(d: Decimal) -> f64 {
    let magnitude = d.units as f64 / 10f64.powi(d.scale as i32);
    if d.negative {
        -magnitude
    } else {
        magnitude
    }
}

fn intent() -> SwapRequest {
    SwapRequest {
        input_mint: String::from("MintA"),
        output_mint: String::from("MintB"),
        amount: 1_000_000,
        user_public_key: String::from("Signer111"),
        slippage: dec(5, 1),
        priority_fee: 5000,
        allowed_dexes: Some(vec![String::from("Orca"), String::from("Raydium")]),
        excluded_dexes: None,
        use_jupiter: true,
    }
}

fn hop(label: &str, amm: &str, percent: u8, amount_in: &str, amount_out: &str) -> RoutePlan {
    RoutePlan {
        swap_info: SwapInfo {
            amm_key: String::from(amm),
            label: String::from(label),
            input_mint: String::from("MintA"),
            in_amount: String::from(amount_in),
            output_mint: String::from("MintB"),
            out_amount: String::from(amount_out),
            fee_amount: String::from("150"),
            fee_mint: String::from("MintA"),
        },
        percent,
    }
}

fn two_hop_quote() -> JupiterQuoteResponse {
    JupiterQuoteResponse {
        input_mint: String::from("MintA"),
        in_amount: String::from("1000000"),
        output_mint: String::from("MintB"),
        out_amount: String::from("1987654"),
        other_amount_threshold: String::from("1977715"),
        swap_mode: String::from("ExactIn"),
        slippage_bps: 50,
        platform_fee: Some(PlatformFee { amount: String::from("12"), fee_bps: 3 }),
        price_impact_pct: String::from("0.0012"),
        route_plan: vec![
            hop("Orca", "amm-1", 60, "600000", "1192592"),
            hop("Raydium", "amm-2", 40, "400000", "795062"),
        ],
        context_slot: 254_000_111,
        time_taken: dec(42, 3),
    }
}

fn built(fee: u64) -> JupiterSwapResponse {
    JupiterSwapResponse {
        swap_transaction: String::from("AQAAAAbase64payload=="),
        last_valid_block_height: 254_000_300,
        prioritization_fee_lamports: fee,
        compute_unit_limit: 200_000,
        prioritization_fee_lamports_per_cu: 10,
    }
}

fn ok<T>(payload: T) -> HttpReply<T> {
    HttpReply { status: 200, headers: HeaderMap::new(), body: String::from("{}"), decoded: Ok(payload) }
}

fn failed<T>(status: u16, body: &str) -> HttpReply<T> {
    HttpReply {
        status,
        headers: HeaderMap::new(),
        body: String::from(body),
        decoded: Err(String::from("not decoded")),
    }
}

fn client() -> JupiterClient {
    JupiterClient::new(String::from("https://agg.example/v6"), None).unwrap()
}

#[test]
fn swap_from_intent_to_outcome() {
    let client = client();

    let pending = client.execute_swap(intent());
    let request = pending.quote_request();
    assert_eq!(request.input_mint, "MintA");
    assert_eq!(request.output_mint, "MintB");
    assert_eq!(request.amount, 1_000_000);
    assert_eq!(request.slippage_bps, 50);
    assert_eq!(request.swap_mode.as_deref(), Some("ExactIn"));
    assert_eq!(request.dexes, Some(vec![String::from("Orca"), String::from("Raydium")]));
    assert_eq!(request.exclude_dexes, None);
    assert_eq!(request.platform_fee_bps, None);
    assert_eq!(request.max_accounts, Some(64));

    let call = client.prepare_quote(request);
    assert_eq!(call.method, HttpMethod::Get);
    assert_eq!(call.url, "https://agg.example/v6/quote");
    assert!(call.query.contains(&(String::from("slippage_bps"), String::from("50"))));
    assert!(call.query.contains(&(String::from("amount"), String::from("1000000"))));

    let pending = pending.on_quote(ok(two_hop_quote())).unwrap();
    let build = pending.swap_request();
    let sent = two_hop_quote();
    let embedded = &build.quote_response;
    assert_eq!(embedded.input_mint, sent.input_mint);
    assert_eq!(embedded.in_amount, sent.in_amount);
    assert_eq!(embedded.output_mint, sent.output_mint);
    assert_eq!(embedded.out_amount, sent.out_amount);
    assert_eq!(embedded.other_amount_threshold, sent.other_amount_threshold);
    assert_eq!(embedded.swap_mode, sent.swap_mode);
    assert_eq!(embedded.slippage_bps, sent.slippage_bps);
    assert_eq!(embedded.platform_fee.as_ref().unwrap().amount, "12");
    assert_eq!(embedded.platform_fee.as_ref().unwrap().fee_bps, 3);
    assert_eq!(embedded.price_impact_pct, sent.price_impact_pct);
    assert_eq!(embedded.context_slot, sent.context_slot);
    assert_eq!(embedded.time_taken, sent.time_taken);
    assert_eq!(embedded.route_plan.len(), 2);
    for (got, want) in embedded.route_plan.iter().zip(sent.route_plan.iter()) {
        assert_eq!(got.percent, want.percent);
        assert_eq!(got.swap_info.amm_key, want.swap_info.amm_key);
        assert_eq!(got.swap_info.label, want.swap_info.label);
        assert_eq!(got.swap_info.input_mint, want.swap_info.input_mint);
        assert_eq!(got.swap_info.in_amount, want.swap_info.in_amount);
        assert_eq!(got.swap_info.output_mint, want.swap_info.output_mint);
        assert_eq!(got.swap_info.out_amount, want.swap_info.out_amount);
        assert_eq!(got.swap_info.fee_amount, want.swap_info.fee_amount);
        assert_eq!(got.swap_info.fee_mint, want.swap_info.fee_mint);
    }
    assert_eq!(build.user_public_key, "Signer111");
    assert_eq!(build.dynamic_compute_unit_limit, Some(true));
    assert_eq!(build.prioritization_fee_lamports, Some(5000));
    assert_eq!(build.as_legacy_transaction, Some(false));
    assert_eq!(build.use_shared_accounts, Some(true));
    assert_eq!(build.fee_account, None);
    assert_eq!(build.tracking_account, None);
    assert_eq!(build.compute_unit_price_micro_lamports, None);
    assert_eq!(build.as_versioned_transaction, Some(true));

    let call = client.prepare_swap_transaction();
    assert_eq!(call.method, HttpMethod::Post);
    assert_eq!(call.url, "https://agg.example/v6/swap");

    let outcome = pending.on_transaction(ok(built(2_000_000))).unwrap();
    assert_eq!(outcome.transaction, "AQAAAAbase64payload==");
    assert!(outcome.success);
    assert_eq!(outcome.error_message, "");
    assert_eq!(outcome.gas_used, dec(2_000_000, 9));
    assert!((as_f64(outcome.gas_used) - 0.002).abs() < 1e-15);
    assert_eq!(outcome.actual_profit, dec(0, 0));
    assert_eq!(outcome.execution_time, 0);
    assert_eq!(outcome.bundle_id, "");
    let quote = outcome.quote.unwrap();
    assert_eq!(quote.input_mint, "MintA");
    assert_eq!(quote.in_amount, 1_000_000);
    assert_eq!(quote.output_mint, "MintB");
    assert_eq!(quote.out_amount, 1_987_654);
    assert_eq!(quote.price_impact_pct, dec(12, 4));
    assert_eq!(quote.slippage_bps, 50);
    assert_eq!(quote.context_slot, 254_000_111);
    assert_eq!(quote.time_taken, dec(42, 3));
    assert_eq!(quote.route_plan.len(), 2);
    assert_eq!(quote.route_plan[0].percent, 60);
    assert_eq!(quote.route_plan[1].percent, 40);
    assert_eq!(quote.route_plan[0].swap_info.label, "Orca");
    assert_eq!(quote.route_plan[1].swap_info.label, "Raydium");
}

#[test]
fn a_failed_quote_ends_the_swap_before_any_build_request() {
    let pending = client().execute_swap(intent());
    match pending.on_quote(failed(500, "boom")) {
        Err(JupiterError::RemoteApi(e)) => {
            assert_eq!(e.endpoint, Endpoint::Quote);
            assert_eq!(e.category, ErrorCategory::UpstreamFailure);
            assert_eq!(e.body, "boom");
        }
        Err(other) => panic!("another failure: {:?}", other),
        Ok(next) => panic!("a build request came to be: {:?}", next.swap_request()),
    }
}

#[test]
fn a_quote_failure_status_wins_over_a_decoded_payload() {
    let mut headers = HeaderMap::new();
    headers.insert("retry-after", HeaderValue::from_static("3"));
    let reply = HttpReply {
        status: 429,
        headers,
        body: String::from("wait"),
        decoded: Ok(two_hop_quote()),
    };
    match client().execute_swap(intent()).on_quote(reply) {
        Err(JupiterError::RemoteApi(e)) => {
            assert_eq!(e.category, ErrorCategory::RateLimited);
            assert_eq!(e.retry_after.as_deref(), Some("3"));
        }
        other => panic!("not a remote failure: {:?}", other.map(|_| ())),
    }
}

#[test]
fn a_quote_that_did_not_decode_ends_the_swap() {
    let reply: HttpReply<JupiterQuoteResponse> = HttpReply {
        status: 200,
        headers: HeaderMap::new(),
        body: String::from("{}"),
        decoded: Err(String::from("missing field `in_amount`")),
    };
    match client().execute_swap(intent()).on_quote(reply) {
        Err(JupiterError::Decode(DecodeError::Payload { reason, payload })) => {
            assert_eq!(reason, "missing field `in_amount`");
            assert_eq!(payload, "{}");
        }
        other => panic!("not a decode failure: {:?}", other.map(|_| ())),
    }
}

#[test]
fn a_malformed_amount_ends_the_swap() {
    let mut quote = two_hop_quote();
    quote.in_amount = String::from("12x3");
    match client().execute_swap(intent()).on_quote(ok(quote)) {
        Err(JupiterError::MalformedAmount { field, text }) => {
            assert_eq!(field, AmountField::InAmount);
            assert_eq!(text, "12x3");
        }
        other => panic!("not a malformed amount: {:?}", other.map(|_| ())),
    }

    let mut quote = two_hop_quote();
    quote.price_impact_pct = String::from("n/a");
    assert!(matches!(
        client().execute_swap(intent()).on_quote(ok(quote)),
        Err(JupiterError::MalformedAmount { field: AmountField::PriceImpact, .. })
    ));
}

#[test]
fn a_route_defect_ends_the_swap() {
    let mut quote = two_hop_quote();
    quote.route_plan.clear();
    assert!(matches!(
        client().execute_swap(intent()).on_quote(ok(quote)),
        Err(JupiterError::Decode(DecodeError::EmptyRoute))
    ));

    let strict = client().with_strict_validation(true);
    let mut quote = two_hop_quote();
    quote.route_plan[1].percent = 39;
    assert!(matches!(
        strict.execute_swap(intent()).on_quote(ok(quote)),
        Err(JupiterError::Decode(DecodeError::RoutePercentages))
    ));
    assert!(strict.execute_swap(intent()).on_quote(ok(two_hop_quote())).is_ok());

    let mut quote = two_hop_quote();
    quote.route_plan[1].percent = 39;
    assert!(client().execute_swap(intent()).on_quote(ok(quote)).is_ok());
}

#[test]
fn a_failed_build_ends_the_swap_and_discards_the_quote() {
    let pending = client().execute_swap(intent()).on_quote(ok(two_hop_quote())).unwrap();
    match pending.on_transaction(failed(400, "stale quote")) {
        Err(JupiterError::RemoteApi(e)) => {
            assert_eq!(e.endpoint, Endpoint::Swap);
            assert_eq!(e.category, ErrorCategory::MalformedInput);
            assert_eq!(e.body, "stale quote");
        }
        other => panic!("not a remote failure: {:?}", other),
    }

    let pending = client().execute_swap(intent()).on_quote(ok(two_hop_quote())).unwrap();
    let reply: HttpReply<JupiterSwapResponse> = HttpReply {
        status: 200,
        headers: HeaderMap::new(),
        body: String::from("[]"),
        decoded: Err(String::from("invalid type")),
    };
    assert!(matches!(
        pending.on_transaction(reply),
        Err(JupiterError::Decode(DecodeError::Payload { .. }))
    ));
}

#[test]
fn slippage_of_the_intent_becomes_basis_points() {
    let mut request = intent();
    request.slippage = dec(1, 0);
    assert_eq!(client().execute_swap(request).quote_request().slippage_bps, 100);

    let mut request = intent();
    request.slippage = dec(125, 3);
    assert_eq!(client().execute_swap(request).quote_request().slippage_bps, 13);

    let mut request = intent();
    request.slippage = Decimal { negative: true, units: 1, scale: 0 };
    assert_eq!(client().execute_swap(request).quote_request().slippage_bps, 0);

    let mut request = intent();
    request.slippage = dec(1000, 0);
    assert_eq!(client().execute_swap(request).quote_request().slippage_bps, 65535);
}

#[test]
fn venue_lists_pass_through() {
    let mut request = intent();
    request.allowed_dexes = None;
    request.excluded_dexes = Some(vec![String::from("Aldrin")]);
    let pending = client().execute_swap(request);
    assert_eq!(pending.quote_request().dexes, None);
    assert_eq!(pending.quote_request().exclude_dexes, Some(vec![String::from("Aldrin")]));
}

#[test]
fn the_cap_on_accounts_is_sixty_four() {
    assert_eq!(MAX_ACCOUNTS, 64);
}

#[test]
fn fee_in_native_unit_is_exact() {
    let pending = client().execute_swap(intent()).on_quote(ok(two_hop_quote())).unwrap();
    let outcome = pending.on_transaction(ok(built(1))).unwrap();
    assert_eq!(outcome.gas_used, dec(1, 9));

    let pending = client().execute_swap(intent()).on_quote(ok(two_hop_quote())).unwrap();
    let outcome = pending.on_transaction(ok(built(u64::MAX))).unwrap();
    assert_eq!(outcome.gas_used, dec(u64::MAX as u128, 9));
}
