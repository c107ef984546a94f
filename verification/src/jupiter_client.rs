//! The client: a transport profile fixed at construction, and one operation
//! per route of the aggregator.

use crate::error::{ConfiguredHeader, JupiterError};
use crate::exchange::{
    is_success_status,
    join_commas,
    joined,
    one_param,
    push_param,
    query_model,
    settle,
    Endpoint,
    HttpReply,
    HttpRequest,
};
use crate::headers::{header_entries, header_map_clone, is_text, read_header, text_of};
use crate::numeric::{decimal_text, format_amount, Decimal};
use crate::profile::{
    build_headers,
    fee_model,
    feed_model,
    lemma_headers_read_back,
    profile_of,
    TransportProfile,
};
use crate::quote::{normalize_quote, quote_of};
use crate::types::{
    ApiInfo,
    HealthStatus,
    JupiterQuote,
    JupiterSwap,
    MetisQuote,
    MetisQuoteResponse,
    UltraQuote,
    UltraQuoteResponse,
};
pub use crate::types::{JupiterApiType, PlatformFee, RoutePlan, SwapInfo};
use reqwest::header::HeaderMap;
use std::collections::HashMap;
use vstd::prelude::*;
use vstd::string::*;

verus! {

/// The seconds after which a request is given up.
pub const REQUEST_TIMEOUT_SECS: u64 = 30;

/// An integrator fee: the fee in basis points and the account it goes to.
#[derive(Debug, Clone)]
pub struct IntegratorFee {
    pub fee_bps: u16,
    pub fee_account: String,
}

/// A low-latency feed: where it is, and the token that opens it.
#[derive(Debug, Clone)]
pub struct YellowstoneConfig {
    pub grpc_endpoint: String,
    pub x_token: String,
}

/// What is asked of the quote route.
#[derive(Debug, Clone)]
pub struct JupiterQuoteRequest {
    pub input_mint: String,
    pub output_mint: String,
    pub amount: u64,
    pub slippage_bps: u16,
    pub swap_mode: Option<String>,
    pub dexes: Option<Vec<String>>,
    pub exclude_dexes: Option<Vec<String>>,
    pub platform_fee_bps: Option<u16>,
    pub max_accounts: Option<u8>,
}

/// A quote as the aggregator sends it: amounts and price impact are text.
#[derive(Debug, Clone)]
pub struct JupiterQuoteResponse {
    pub input_mint: String,
    pub in_amount: String,
    pub output_mint: String,
    pub out_amount: String,
    pub other_amount_threshold: String,
    pub swap_mode: String,
    pub slippage_bps: u16,
    pub platform_fee: Option<PlatformFee>,
    pub price_impact_pct: String,
    pub route_plan: Vec<RoutePlan>,
    pub context_slot: u64,
    pub time_taken: Decimal,
}

/// What is asked of the route that builds a transaction: the quote as it
/// came, the signer, and how the transaction is to be made.
#[derive(Debug, Clone)]
pub struct JupiterSwapRequest {
    pub quote_response: JupiterQuoteResponse,
    pub user_public_key: String,
    pub dynamic_compute_unit_limit: Option<bool>,
    pub prioritization_fee_lamports: Option<u64>,
    pub as_legacy_transaction: Option<bool>,
    pub use_shared_accounts: Option<bool>,
    pub fee_account: Option<String>,
    pub tracking_account: Option<String>,
    pub compute_unit_price_micro_lamports: Option<u64>,
    pub as_versioned_transaction: Option<bool>,
}

/// A built transaction as the aggregator sends it.
#[derive(Debug, Clone)]
pub struct JupiterSwapResponse {
    pub swap_transaction: String,
    pub last_valid_block_height: u64,
    pub prioritization_fee_lamports: u64,
    pub compute_unit_limit: u32,
    pub prioritization_fee_lamports_per_cu: u64,
}

/// What the token list says of one token.
#[derive(Debug, Clone)]
pub struct TokenInfo {
    pub address: String,
    pub chain_id: u16,
    pub decimals: u8,
    pub name: String,
    pub symbol: String,
    pub logo_uri: Option<String>,
    pub tags: Vec<String>,
    pub extensions: Option<serde_json::Value>,
}

/// What the price route says of one asset.
#[derive(Debug, Clone)]
pub struct PriceData {
    pub id: String,
    pub mint_symbol: String,
    pub vs_token: String,
    pub vs_token_symbol: String,
    pub price: Decimal,
}

/// A client of the aggregator: a transport profile that is fixed when the
/// client is made, and whose headers go with every request.
#[derive(Debug)]
pub struct JupiterClient {
    base_url: String,
    api_key: Option<String>,
    api_type: JupiterApiType,
    integrator_fee: Option<IntegratorFee>,
    yellowstone_config: Option<YellowstoneConfig>,
    strict_routes: bool,
    headers: HeaderMap,
}

impl View for JupiterClient {
    type V = TransportProfile;

    closed spec fn view(&self) -> TransportProfile {
        TransportProfile {
            base_url: self.base_url@,
            credential: text_of(self.api_key),
            tier: self.api_type,
            integrator_fee: fee_model(self.integrator_fee),
            feed: feed_model(self.yellowstone_config),
            strict_routes: self.strict_routes,
        }
    }
}

impl Clone for JupiterClient {
    /// A second client of the same profile.
    fn clone(&self) -> (r: JupiterClient)
        ensures
            r@ == self@,
    {
        proof {
            use_type_invariant(self);
        }
        let api_key = match &self.api_key {
            Some(key) => Some(key.clone()),
            None => None,
        };
        let integrator_fee = match &self.integrator_fee {
            Some(fee) => Some(
                IntegratorFee { fee_bps: fee.fee_bps, fee_account: fee.fee_account.clone() },
            ),
            None => None,
        };
        let yellowstone_config = match &self.yellowstone_config {
            Some(feed) => Some(
                YellowstoneConfig {
                    grpc_endpoint: feed.grpc_endpoint.clone(),
                    x_token: feed.x_token.clone(),
                },
            ),
            None => None,
        };
        JupiterClient {
            base_url: self.base_url.clone(),
            api_key,
            api_type: self.api_type,
            integrator_fee,
            yellowstone_config,
            strict_routes: self.strict_routes,
            headers: header_map_clone(&self.headers),
        }
    }
}

impl JupiterClient {
    /// The headers held are those of the profile, and every configured
    /// value of the profile can be sent.
    #[verifier::type_invariant]
    spec fn consistent(self) -> bool {
        &&& self@.first_unfit() is None
        &&& header_entries(self.headers) == self@.headers()
    }

    /// Makes a client of the public tier for `base_url`, with a bearer
    /// credential if `api_key` holds one.
    pub fn new(base_url: String, api_key: Option<String>) -> (r: Result<JupiterClient, JupiterError>)
        ensures
            ({
                let profile = profile_of(base_url, api_key, JupiterApiType::Public, None, None);
                match r {
                    Ok(client) => client@ == profile && profile.first_unfit() is None,
                    Err(e) => profile.first_unfit() matches Some(unfit) && e
                        == JupiterError::Configuration(unfit),
                }
            }),
    {
        JupiterClient::new_with_config(base_url, api_key, JupiterApiType::Public, None, None)
    }

    /// Makes a client from a tier and the optional parts of a profile.
    ///
    /// Fails exactly when a configured value cannot be sent as a header,
    /// and then names the first such value.
    pub fn new_with_config(
        base_url: String,
        api_key: Option<String>,
        api_type: JupiterApiType,
        integrator_fee: Option<IntegratorFee>,
        yellowstone_config: Option<YellowstoneConfig>,
    ) -> (r: Result<JupiterClient, JupiterError>)
        ensures
            ({
                let profile = profile_of(
                    base_url,
                    api_key,
                    api_type,
                    integrator_fee,
                    yellowstone_config,
                );
                match r {
                    Ok(client) => client@ == profile && profile.first_unfit() is None,
                    Err(e) => profile.first_unfit() matches Some(unfit) && e
                        == JupiterError::Configuration(unfit),
                }
            }),
    {
        match build_headers(&base_url, &api_key, api_type, &integrator_fee, &yellowstone_config) {
            Ok(headers) => Ok(
                JupiterClient {
                    base_url,
                    api_key,
                    api_type,
                    integrator_fee,
                    yellowstone_config,
                    strict_routes: false,
                    headers,
                },
            ),
            Err(unfit) => Err(JupiterError::Configuration(unfit)),
        }
    }

    /// Makes a client of the open, public endpoint.
    pub fn new_public() -> (client: JupiterClient)
        ensures
            client@ == (TransportProfile {
                base_url: "https://quote-api.jup.ag/v6"@,
                credential: None,
                tier: JupiterApiType::Public,
                integrator_fee: None,
                feed: None,
                strict_routes: false,
            }),
    {
        match JupiterClient::new("https://quote-api.jup.ag/v6".to_owned(), None) {
            Ok(client) => client,
            Err(_) => unreached(),
        }
    }

    /// Makes a client of the professional tier, which needs a credential.
    pub fn new_pro(api_key: String) -> (r: Result<JupiterClient, JupiterError>)
        ensures
            ({
                let profile = TransportProfile {
                    base_url: "https://api.jup.ag/v6"@,
                    credential: Some(api_key@),
                    tier: JupiterApiType::Pro,
                    integrator_fee: None,
                    feed: None,
                    strict_routes: false,
                };
                match r {
                    Ok(client) => client@ == profile && is_text(api_key@),
                    Err(e) => !is_text(api_key@) && e == JupiterError::Configuration(
                        ConfiguredHeader::Authorization,
                    ),
                }
            }),
    {
        JupiterClient::new_with_config(
            "https://api.jup.ag/v6".to_owned(),
            Some(api_key),
            JupiterApiType::Pro,
            None,
            None,
        )
    }

    /// Makes a client of the reduced tier.
    pub fn new_lite() -> (client: JupiterClient)
        ensures
            client@ == (TransportProfile {
                base_url: "https://lite-api.jup.ag/v6"@,
                credential: None,
                tier: JupiterApiType::Lite,
                integrator_fee: None,
                feed: None,
                strict_routes: false,
            }),
    {
        match JupiterClient::new_with_config(
            "https://lite-api.jup.ag/v6".to_owned(),
            None,
            JupiterApiType::Lite,
            None,
            None,
        ) {
            Ok(client) => client,
            Err(_) => unreached(),
        }
    }

    /// Makes a client of the premium tier, which needs a credential.
    pub fn new_ultra(api_key: String) -> (r: Result<JupiterClient, JupiterError>)
        ensures
            ({
                let profile = TransportProfile {
                    base_url: "https://ultra-api.jup.ag/v6"@,
                    credential: Some(api_key@),
                    tier: JupiterApiType::Ultra,
                    integrator_fee: None,
                    feed: None,
                    strict_routes: false,
                };
                match r {
                    Ok(client) => client@ == profile && is_text(api_key@),
                    Err(e) => !is_text(api_key@) && e == JupiterError::Configuration(
                        ConfiguredHeader::Authorization,
                    ),
                }
            }),
    {
        JupiterClient::new_with_config(
            "https://ultra-api.jup.ag/v6".to_owned(),
            Some(api_key),
            JupiterApiType::Ultra,
            None,
            None,
        )
    }

    /// Makes a client of a self-hosted aggregator, which needs a feed and
    /// may take an integrator fee.
    pub fn new_self_hosted(
        base_url: String,
        yellowstone_config: YellowstoneConfig,
        integrator_fee: Option<IntegratorFee>,
    ) -> (r: Result<JupiterClient, JupiterError>)
        ensures
            ({
                let profile = profile_of(
                    base_url,
                    None,
                    JupiterApiType::SelfHosted,
                    integrator_fee,
                    Some(yellowstone_config),
                );
                match r {
                    Ok(client) => client@ == profile && profile.first_unfit() is None,
                    Err(e) => profile.first_unfit() matches Some(unfit) && e
                        == JupiterError::Configuration(unfit),
                }
            }),
    {
        JupiterClient::new_with_config(
            base_url,
            None,
            JupiterApiType::SelfHosted,
            integrator_fee,
            Some(yellowstone_config),
        )
    }

    /// Turns strict route validation on or off: with it on, a quote whose
    /// hops do not share out exactly one hundred percent is refused.
    pub fn with_strict_validation(self, strict: bool) -> (client: JupiterClient)
        ensures
            client@ == (TransportProfile { strict_routes: strict, ..self@ }),
    {
        proof {
            use_type_invariant(&self);
            let changed = TransportProfile { strict_routes: strict, ..self@ };
            assert forall|name: Seq<char>| changed.header(name) == self@.header(name) by {}
            assert(changed.headers() =~= self@.headers());
        }
        JupiterClient {
            base_url: self.base_url,
            api_key: self.api_key,
            api_type: self.api_type,
            integrator_fee: self.integrator_fee,
            yellowstone_config: self.yellowstone_config,
            strict_routes: strict,
            headers: self.headers,
        }
    }

    /// The base URL that every route is appended to.
    pub fn base_url(&self) -> (r: &String)
        ensures
            r@ == self@.base_url,
    {
        &self.base_url
    }

    /// The bearer credential, if the client has one.
    pub fn api_key(&self) -> (r: &Option<String>)
        ensures
            text_of(*r) == self@.credential,
    {
        &self.api_key
    }

    /// The tier of the client.
    pub fn api_type(&self) -> (r: JupiterApiType)
        ensures
            r == self@.tier,
    {
        self.api_type
    }

    /// The integrator fee, if the client has one.
    pub fn integrator_fee(&self) -> (r: &Option<IntegratorFee>)
        ensures
            fee_model(*r) == self@.integrator_fee,
    {
        &self.integrator_fee
    }

    /// The feed configuration, if the client has one.
    pub fn yellowstone_config(&self) -> (r: &Option<YellowstoneConfig>)
        ensures
            feed_model(*r) == self@.feed,
    {
        &self.yellowstone_config
    }

    /// Whether strict route validation is on.
    pub fn strict_validation(&self) -> (r: bool)
        ensures
            r == self@.strict_routes,
    {
        self.strict_routes
    }

    /// The seconds after which a request of this client is given up.
    pub fn timeout_secs(&self) -> (r: u64)
        ensures
            r == REQUEST_TIMEOUT_SECS,
    {
        REQUEST_TIMEOUT_SECS
    }

    /// The headers that go with every request: exactly those of the profile.
    pub fn headers(&self) -> (r: &HeaderMap)
        ensures
            header_entries(*r) == self@.headers(),
            self@.first_unfit() is None,
    {
        proof {
            use_type_invariant(self);
        }
        &self.headers
    }

    /// The value of the header `name` on every request, if the client
    /// sends that header.
    pub fn header(&self, name: &str) -> (r: Option<String>)
        ensures
            text_of(r) == self@.header(name@),
    {
        proof {
            use_type_invariant(self);
            lemma_headers_read_back(self@, name@);
        }
        read_header(&self.headers, name)
    }
}

/// A list written with commas between its items, where there is a list.
pub open spec fn joined_list(items: Option<Vec<String>>) -> Option<Seq<char>> {
    match items {
        Some(items) => Some(joined(items@)),
        None => None,
    }
}

/// The query parameters of a quote request: the two mints, the amount and
/// the slippage always, each optional field only where it has a value.
pub open spec fn quote_query(request: JupiterQuoteRequest) -> Seq<(Seq<char>, Seq<char>)> {
    seq![
        ("input_mint"@, request.input_mint@),
        ("output_mint"@, request.output_mint@),
        ("amount"@, decimal_text(request.amount as nat)),
        ("slippage_bps"@, decimal_text(request.slippage_bps as nat)),
    ] + one_param("swap_mode"@, text_of(request.swap_mode)) + one_param(
        "dexes"@,
        joined_list(request.dexes),
    ) + one_param("exclude_dexes"@, joined_list(request.exclude_dexes)) + one_param(
        "platform_fee_bps"@,
        match request.platform_fee_bps {
            Some(n) => Some(decimal_text(n as nat)),
            None => None,
        },
    ) + one_param(
        "max_accounts"@,
        match request.max_accounts {
            Some(n) => Some(decimal_text(n as nat)),
            None => None,
        },
    )
}

/// The query parameters of a price request: the identifiers as one list.
pub open spec fn price_query(ids: Seq<String>) -> Seq<(Seq<char>, Seq<char>)> {
    seq![("ids"@, joined(ids))]
}

impl HttpRequest {
    /// True when `self` is the call of `endpoint` below `base_url` with
    /// exactly the query parameters `query`.
    pub open spec fn calls(
        self,
        base_url: Seq<char>,
        endpoint: Endpoint,
        query: Seq<(Seq<char>, Seq<char>)>,
    ) -> bool {
        &&& self.endpoint == endpoint
        &&& self.method == endpoint.method_of()
        &&& self.url@ == base_url + endpoint.path_text()
        &&& query_model(self.query@) == query
    }
}

impl JupiterClient {
    fn call(&self, endpoint: Endpoint, query: Vec<(String, String)>) -> (r: HttpRequest)
        ensures
            r.calls(self@.base_url, endpoint, query_model(query@)),
    {
        let mut url = self.base_url.clone();
        url.append(endpoint.path());
        HttpRequest { endpoint, method: endpoint.method(), url, query }
    }

    /// The request that asks for a quote.
    pub fn prepare_quote(&self, request: &JupiterQuoteRequest) -> (r: HttpRequest)
        ensures
            r.calls(self@.base_url, Endpoint::Quote, quote_query(*request)),
    {
        let mut query: Vec<(String, String)> = Vec::new();
        assert(query_model(query@) =~= Seq::empty());
        push_param(&mut query, "input_mint", request.input_mint.clone());
        push_param(&mut query, "output_mint", request.output_mint.clone());
        push_param(&mut query, "amount", format_amount(request.amount));
        push_param(&mut query, "slippage_bps", format_amount(request.slippage_bps as u64));
        if let Some(mode) = &request.swap_mode {
            push_param(&mut query, "swap_mode", mode.clone());
        }
        if let Some(dexes) = &request.dexes {
            push_param(&mut query, "dexes", join_commas(dexes.as_slice()));
        }
        if let Some(dexes) = &request.exclude_dexes {
            push_param(&mut query, "exclude_dexes", join_commas(dexes.as_slice()));
        }
        if let Some(bps) = request.platform_fee_bps {
            push_param(&mut query, "platform_fee_bps", format_amount(bps as u64));
        }
        if let Some(cap) = request.max_accounts {
            push_param(&mut query, "max_accounts", format_amount(cap as u64));
        }
        assert(query_model(query@) =~= quote_query(*request));
        self.call(Endpoint::Quote, query)
    }

    /// What the reply to a quote request amounts to: the quote with its
    /// numbers read, or the failure.
    pub fn get_quote(&self, reply: HttpReply<JupiterQuoteResponse>) -> (r: Result<
        JupiterQuote,
        JupiterError,
    >)
        ensures
            !is_success_status(reply.status) ==> reply.is_failure(Endpoint::Quote, r),
            is_success_status(reply.status) ==> (match reply.decoded {
                Ok(response) => r == quote_of(response, self@.strict_routes),
                Err(reason) => reply.is_undecodable(reason, r),
            }),
    {
        match settle(Endpoint::Quote, reply) {
            Ok(response) => normalize_quote(response, self.strict_routes),
            Err(e) => Err(e),
        }
    }

    /// The request that asks for a transaction to be built. The
    /// `JupiterSwapRequest` travels as its body.
    pub fn prepare_swap_transaction(&self) -> (r: HttpRequest)
        ensures
            r.calls(self@.base_url, Endpoint::Swap, Seq::empty()),
    {
        let query: Vec<(String, String)> = Vec::new();
        assert(query_model(query@) =~= Seq::empty());
        self.call(Endpoint::Swap, query)
    }

    /// What the reply to a build request amounts to: the transaction, or
    /// the failure.
    pub fn get_swap_transaction(&self, reply: HttpReply<JupiterSwapResponse>) -> (r: Result<
        JupiterSwap,
        JupiterError,
    >)
        ensures
            !is_success_status(reply.status) ==> reply.is_failure(Endpoint::Swap, r),
            is_success_status(reply.status) ==> (match reply.decoded {
                Ok(response) => r == Ok::<JupiterSwap, JupiterError>(swap_of(response)),
                Err(reason) => reply.is_undecodable(reason, r),
            }),
    {
        match settle(Endpoint::Swap, reply) {
            Ok(response) => Ok(
                JupiterSwap {
                    swap_transaction: response.swap_transaction,
                    last_valid_block_height: response.last_valid_block_height,
                    prioritization_fee_lamports: response.prioritization_fee_lamports,
                    compute_unit_limit: response.compute_unit_limit,
                },
            ),
            Err(e) => Err(e),
        }
    }

    /// The request that asks for the token list.
    pub fn prepare_tokens(&self) -> (r: HttpRequest)
        ensures
            r.calls(self@.base_url, Endpoint::Tokens, Seq::empty()),
    {
        let query: Vec<(String, String)> = Vec::new();
        assert(query_model(query@) =~= Seq::empty());
        self.call(Endpoint::Tokens, query)
    }

    /// What the reply to a token list request amounts to: the tokens by
    /// their identifiers, as they came, or the failure.
    pub fn get_tokens(&self, reply: HttpReply<HashMap<String, TokenInfo>>) -> (r: Result<
        HashMap<String, TokenInfo>,
        JupiterError,
    >)
        ensures
            !is_success_status(reply.status) ==> reply.is_failure(Endpoint::Tokens, r),
            is_success_status(reply.status) ==> (match reply.decoded {
                Ok(tokens) => r == Ok::<HashMap<String, TokenInfo>, JupiterError>(tokens),
                Err(reason) => reply.is_undecodable(reason, r),
            }),
    {
        settle(Endpoint::Tokens, reply)
    }

    /// The request that asks for the prices of a list of assets.
    pub fn prepare_price(&self, ids: &[String]) -> (r: HttpRequest)
        ensures
            r.calls(self@.base_url, Endpoint::Price, price_query(ids@)),
    {
        let mut query: Vec<(String, String)> = Vec::new();
        assert(query_model(query@) =~= Seq::empty());
        push_param(&mut query, "ids", join_commas(ids));
        assert(query_model(query@) =~= price_query(ids@));
        self.call(Endpoint::Price, query)
    }

    /// What the reply to a price request amounts to: for each asset of the
    /// reply, in the order of the reply, its identifier and its price; or
    /// the failure.
    pub fn get_price(&self, reply: HttpReply<Vec<(String, PriceData)>>) -> (r: Result<
        Vec<(String, Decimal)>,
        JupiterError,
    >)
        ensures
            !is_success_status(reply.status) ==> reply.is_failure(Endpoint::Price, r),
            is_success_status(reply.status) ==> (match reply.decoded {
                Ok(entries) => r matches Ok(prices) && is_price_table(prices@, entries@),
                Err(reason) => reply.is_undecodable(reason, r),
            }),
    {
        match settle(Endpoint::Price, reply) {
            Ok(entries) => Ok(price_table(entries)),
            Err(e) => Err(e),
        }
    }

    /// The request that asks the optimisation tier for a quote. The
    /// `MetisQuoteRequest` travels as its body.
    pub fn prepare_metis_quote(&self) -> (r: HttpRequest)
        ensures
            r.calls(self@.base_url, Endpoint::MetisQuote, Seq::empty()),
    {
        let query: Vec<(String, String)> = Vec::new();
        assert(query_model(query@) =~= Seq::empty());
        self.call(Endpoint::MetisQuote, query)
    }

    /// What the reply of the optimisation tier amounts to: the quote with
    /// its numbers read and the tier's blocks as they came, or the failure.
    pub fn get_metis_quote(&self, reply: HttpReply<MetisQuoteResponse>) -> (r: Result<
        MetisQuote,
        JupiterError,
    >)
        ensures
            !is_success_status(reply.status) ==> reply.is_failure(Endpoint::MetisQuote, r),
            is_success_status(reply.status) ==> (match reply.decoded {
                Ok(response) => r == metis_quote_of(response, self@.strict_routes),
                Err(reason) => reply.is_undecodable(reason, r),
            }),
    {
        match settle(Endpoint::MetisQuote, reply) {
            Ok(response) => match normalize_quote(response.quote, self.strict_routes) {
                Ok(quote) => Ok(
                    MetisQuote {
                        quote,
                        metis_optimization: response.metis_optimization,
                        cross_app_state: response.cross_app_state,
                    },
                ),
                Err(e) => Err(e),
            },
            Err(e) => Err(e),
        }
    }

    /// The request that asks the feature-enhanced tier for a quote. The
    /// `UltraQuoteRequest` travels as its body.
    pub fn prepare_ultra_quote(&self) -> (r: HttpRequest)
        ensures
            r.calls(self@.base_url, Endpoint::UltraQuote, Seq::empty()),
    {
        let query: Vec<(String, String)> = Vec::new();
        assert(query_model(query@) =~= Seq::empty());
        self.call(Endpoint::UltraQuote, query)
    }

    /// What the reply of the feature-enhanced tier amounts to: the quote
    /// with its numbers read and the tier's blocks as they came, or the
    /// failure.
    pub fn get_ultra_quote(&self, reply: HttpReply<UltraQuoteResponse>) -> (r: Result<
        UltraQuote,
        JupiterError,
    >)
        ensures
            !is_success_status(reply.status) ==> reply.is_failure(Endpoint::UltraQuote, r),
            is_success_status(reply.status) ==> (match reply.decoded {
                Ok(response) => r == ultra_quote_of(response, self@.strict_routes),
                Err(reason) => reply.is_undecodable(reason, r),
            }),
    {
        match settle(Endpoint::UltraQuote, reply) {
            Ok(response) => match normalize_quote(response.quote, self.strict_routes) {
                Ok(quote) => Ok(
                    UltraQuote {
                        quote,
                        ultra_features: response.ultra_features,
                        slippage_protection: response.slippage_protection,
                    },
                ),
                Err(e) => Err(e),
            },
            Err(e) => Err(e),
        }
    }

    /// The request that asks how the aggregator is doing.
    pub fn prepare_health_status(&self) -> (r: HttpRequest)
        ensures
            r.calls(self@.base_url, Endpoint::Health, Seq::empty()),
    {
        let query: Vec<(String, String)> = Vec::new();
        assert(query_model(query@) =~= Seq::empty());
        self.call(Endpoint::Health, query)
    }

    /// What the reply to a health request amounts to: the snapshot as it
    /// came, or the failure.
    pub fn get_health_status(&self, reply: HttpReply<HealthStatus>) -> (r: Result<
        HealthStatus,
        JupiterError,
    >)
        ensures
            !is_success_status(reply.status) ==> reply.is_failure(Endpoint::Health, r),
            is_success_status(reply.status) ==> (match reply.decoded {
                Ok(health) => r == Ok::<HealthStatus, JupiterError>(health),
                Err(reason) => reply.is_undecodable(reason, r),
            }),
    {
        settle(Endpoint::Health, reply)
    }

    /// The request that asks what the aggregator offers.
    pub fn prepare_api_info(&self) -> (r: HttpRequest)
        ensures
            r.calls(self@.base_url, Endpoint::Info, Seq::empty()),
    {
        let query: Vec<(String, String)> = Vec::new();
        assert(query_model(query@) =~= Seq::empty());
        self.call(Endpoint::Info, query)
    }

    /// What the reply to an information request amounts to: the
    /// information as it came, or the failure.
    pub fn get_api_info(&self, reply: HttpReply<ApiInfo>) -> (r: Result<ApiInfo, JupiterError>)
        ensures
            !is_success_status(reply.status) ==> reply.is_failure(Endpoint::Info, r),
            is_success_status(reply.status) ==> (match reply.decoded {
                Ok(info) => r == Ok::<ApiInfo, JupiterError>(info),
                Err(reason) => reply.is_undecodable(reason, r),
            }),
    {
        settle(Endpoint::Info, reply)
    }
}

/// The transaction that a response of the build route stands for.
pub open spec fn swap_of(response: JupiterSwapResponse) -> JupiterSwap {
    JupiterSwap {
        swap_transaction: response.swap_transaction,
        last_valid_block_height: response.last_valid_block_height,
        prioritization_fee_lamports: response.prioritization_fee_lamports,
        compute_unit_limit: response.compute_unit_limit,
    }
}

/// The quote that a response of the optimisation tier stands for, or the
/// failure that it amounts to.
pub open spec fn metis_quote_of(response: MetisQuoteResponse, strict: bool) -> Result<
    MetisQuote,
    JupiterError,
> {
    match quote_of(response.quote, strict) {
        Ok(quote) => Ok(
            MetisQuote {
                quote,
                metis_optimization: response.metis_optimization,
                cross_app_state: response.cross_app_state,
            },
        ),
        Err(e) => Err(e),
    }
}

/// The quote that a response of the feature-enhanced tier stands for, or
/// the failure that it amounts to.
pub open spec fn ultra_quote_of(response: UltraQuoteResponse, strict: bool) -> Result<
    UltraQuote,
    JupiterError,
> {
    match quote_of(response.quote, strict) {
        Ok(quote) => Ok(
            UltraQuote {
                quote,
                ultra_features: response.ultra_features,
                slippage_protection: response.slippage_protection,
            },
        ),
        Err(e) => Err(e),
    }
}

/// True when `prices` lists, in the order of `entries`, each identifier of
/// `entries` with the price that stands under it.
pub open spec fn is_price_table(
    prices: Seq<(String, Decimal)>,
    entries: Seq<(String, PriceData)>,
) -> bool {
    &&& prices.len() == entries.len()
    &&& forall|i: int|
        0 <= i < entries.len() ==> (#[trigger] prices[i]).0 == entries[i].0 && prices[i].1
            == entries[i].1.price
}

/// Lists each identifier with the price that stands under it.
pub fn price_table(entries: Vec<(String, PriceData)>) -> (prices: Vec<(String, Decimal)>)
    ensures
        is_price_table(prices@, entries@),
{
    let mut entries = entries;
    let ghost all = entries@;
    let mut reversed: Vec<(String, Decimal)> = Vec::new();
    while entries.len() > 0
        invariant
            entries@.len() <= all.len(),
            entries@ == all.subrange(0, entries@.len() as int),
            reversed@.len() == all.len() - entries@.len(),
            forall|j: int|
                0 <= j < reversed@.len() ==> (#[trigger] reversed@[j]).0 == all[all.len() - 1
                    - j].0 && reversed@[j].1 == all[all.len() - 1 - j].1.price,
        decreases entries.len(),
    {
        let ghost before = entries@;
        match entries.pop() {
            Some(entry) => {
                assert(entry == before[before.len() - 1]);
                reversed.push((entry.0, entry.1.price));
                assert(entries@ =~= all.subrange(0, entries@.len() as int));
            },
            None => {},
        }
    }
    let mut prices: Vec<(String, Decimal)> = Vec::new();
    while reversed.len() > 0
        invariant
            reversed@.len() <= all.len(),
            prices@.len() == all.len() - reversed@.len(),
            forall|j: int|
                0 <= j < reversed@.len() ==> (#[trigger] reversed@[j]).0 == all[all.len() - 1
                    - j].0 && reversed@[j].1 == all[all.len() - 1 - j].1.price,
            forall|j: int|
                0 <= j < prices@.len() ==> (#[trigger] prices@[j]).0 == all[j].0 && prices@[j].1
                    == all[j].1.price,
        decreases reversed.len(),
    {
        let ghost before = reversed@;
        match reversed.pop() {
            Some(pair) => {
                assert(pair == before[before.len() - 1]);
                prices.push(pair);
            },
            None => {},
        }
    }
    prices
}

} // verus!
