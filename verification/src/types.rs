//! The records that cross the boundary between the trading system and the
//! aggregator client. Quantities with a fractional part are exact decimals.

use crate::jupiter_client::{JupiterQuoteRequest, JupiterQuoteResponse};
use crate::numeric::Decimal;
use vstd::prelude::*;
use vstd::string::*;

verus! {

/// A JSON value of any shape, carried as it came and never looked into.
#[verifier::external_type_specification]
#[verifier::external_body]
pub struct ExJsonValue(serde_json::Value);

/// `Clone::clone` of a JSON value, which the derived `Clone` of the
/// records that carry one calls. Nothing is said of the result.
pub assume_specification[ <serde_json::Value as Clone>::clone ](value: &serde_json::Value) -> (r:
    serde_json::Value)
;

/// A price observed on one trading venue.
#[derive(Debug, Clone)]
pub struct PriceData {
    pub dex_name: String,
    pub token_pair: String,
    pub base_token: String,
    pub quote_token: String,
    pub price: Decimal,
    pub volume_24h: Decimal,
    pub liquidity: Decimal,
    pub timestamp: i64,
    pub pool_address: String,
    pub price_impact: Decimal,
}

/// A price difference between two venues that may be worth trading.
#[derive(Debug, Clone)]
pub struct ArbitrageOpportunity {
    pub id: String,
    pub token_pair: String,
    pub buy_dex: String,
    pub sell_dex: String,
    pub buy_price: Decimal,
    pub sell_price: Decimal,
    pub profit_percentage: Decimal,
    pub estimated_profit: Decimal,
    pub max_amount: Decimal,
    pub gas_cost: Decimal,
    pub timestamp: i64,
    pub buy_pool: String,
    pub sell_pool: String,
    pub slippage: Decimal,
    pub is_profitable: bool,
}

/// A request to trade on an opportunity.
#[derive(Debug, Clone)]
pub struct TradeRequest {
    pub opportunity_id: String,
    pub amount: Decimal,
    pub private_key: String,
    pub max_slippage: Decimal,
    pub priority_fee: i32,
    pub use_jito: bool,
    pub jito_tip: String,
}

/// The outcome of a trade.
#[derive(Debug, Clone)]
pub struct TradeResponse {
    pub transaction_id: String,
    pub success: bool,
    pub error_message: String,
    pub actual_profit: Decimal,
    pub gas_used: Decimal,
    pub execution_time: i64,
    pub bundle_id: String,
}

/// One hop of a route: the venue and what goes in and comes out of it.
/// Amounts are kept as the aggregator wrote them.
#[derive(Debug, Clone)]
pub struct SwapInfo {
    pub amm_key: String,
    pub label: String,
    pub input_mint: String,
    pub in_amount: String,
    pub output_mint: String,
    pub out_amount: String,
    pub fee_amount: String,
    pub fee_mint: String,
}

/// One hop of a route and the share of the whole trade that takes it.
#[derive(Debug, Clone)]
pub struct RoutePlan {
    pub swap_info: SwapInfo,
    pub percent: u8,
}

/// A platform fee as the aggregator reports it.
#[derive(Debug, Clone)]
pub struct PlatformFee {
    pub amount: String,
    pub fee_bps: u16,
}

/// A quote with its amounts read as numbers.
#[derive(Debug, Clone)]
pub struct JupiterQuote {
    pub input_mint: String,
    pub in_amount: u64,
    pub output_mint: String,
    pub out_amount: u64,
    pub price_impact_pct: Decimal,
    pub route_plan: Vec<RoutePlan>,
    pub context_slot: u64,
    pub time_taken: Decimal,
    pub slippage_bps: u16,
}

/// A transaction the aggregator built, still unsigned and undecoded.
#[derive(Debug, Clone)]
pub struct JupiterSwap {
    pub swap_transaction: String,
    pub last_valid_block_height: u64,
    pub prioritization_fee_lamports: u64,
    pub compute_unit_limit: u32,
}

/// What the trading system asks for: a swap of `amount` base units with a
/// slippage given in percent.
#[derive(Debug, Clone)]
pub struct SwapRequest {
    pub input_mint: String,
    pub output_mint: String,
    pub amount: u64,
    pub user_public_key: String,
    pub slippage: Decimal,
    pub priority_fee: u64,
    pub allowed_dexes: Option<Vec<String>>,
    pub excluded_dexes: Option<Vec<String>>,
    pub use_jupiter: bool,
}

/// What the trading system gets back. Profit, execution time and bundle id
/// are filled in later by whoever settles the transaction.
#[derive(Debug, Clone)]
pub struct SwapResponse {
    pub transaction: String,
    pub success: bool,
    pub error_message: String,
    pub actual_profit: Decimal,
    pub gas_used: Decimal,
    pub execution_time: i64,
    pub bundle_id: String,
    pub quote: Option<JupiterQuote>,
}

/// The price of one asset against another.
#[derive(Debug, Clone)]
pub struct JupiterPriceData {
    pub id: String,
    pub mint_symbol: String,
    pub vs_token: String,
    pub vs_token_symbol: String,
    pub price: Decimal,
}

/// What the aggregator knows of one token.
#[derive(Debug, Clone)]
pub struct JupiterTokenInfo {
    pub address: String,
    pub chain_id: u16,
    pub decimals: u8,
    pub name: String,
    pub symbol: String,
    pub logo_uri: Option<String>,
    pub tags: Vec<String>,
    pub extensions: Option<serde_json::Value>,
}

/// A price on one venue, for comparison with the aggregator's.
#[derive(Debug, Clone)]
pub struct DexPrice {
    pub dex_name: String,
    pub price: Decimal,
    pub liquidity: Decimal,
    pub pool_address: String,
    pub price_impact: Decimal,
}

/// How an opportunity is to be executed.
#[derive(Debug, Clone)]
pub enum ExecutionMethod {
    Jupiter,
    DirectDex,
    Hybrid,
}

/// An opportunity together with the aggregator's quote for it.
#[derive(Debug, Clone)]
pub struct EnhancedArbitrageOpportunity {
    pub id: String,
    pub token_pair: String,
    pub input_mint: String,
    pub output_mint: String,
    pub jupiter_quote: Option<JupiterQuote>,
    pub direct_dex_prices: Vec<DexPrice>,
    pub best_jupiter_price: Decimal,
    pub best_direct_price: Decimal,
    pub profit_percentage: Decimal,
    pub estimated_profit: Decimal,
    pub max_amount: Decimal,
    pub gas_cost: Decimal,
    pub timestamp: i64,
    pub slippage: Decimal,
    pub is_profitable: bool,
    pub execution_method: ExecutionMethod,
}

/// The balance of one token in a wallet.
#[derive(Debug, Clone)]
pub struct TokenBalance {
    pub token_mint: String,
    pub symbol: String,
    pub amount: Decimal,
    pub value_usd: Decimal,
    pub price: Decimal,
}

/// A wallet and what it holds.
#[derive(Debug, Clone)]
pub struct Portfolio {
    pub wallet_address: String,
    pub balances: Vec<TokenBalance>,
    pub total_value_usd: Decimal,
    pub available_balance: Decimal,
    pub last_updated: i64,
}

/// The limits within which the trading system may act.
#[derive(Debug, Clone)]
pub struct RiskSettings {
    pub max_position_size: Decimal,
    pub max_daily_loss: Decimal,
    pub max_slippage: Decimal,
    pub min_profit_threshold: Decimal,
    pub max_trades_per_hour: u32,
    pub enable_stop_loss: bool,
    pub stop_loss_percentage: Decimal,
    pub max_gas_price: u64,
    pub min_liquidity: Decimal,
    pub use_jupiter_for_execution: bool,
    pub jupiter_slippage_bps: u16,
    pub max_price_impact_pct: Decimal,
}

/// Running totals of what was traded.
#[derive(Debug, Clone)]
pub struct TradingStats {
    pub total_profit: Decimal,
    pub total_trades: u32,
    pub successful_trades: u32,
    pub win_rate: Decimal,
    pub avg_profit_per_trade: Decimal,
    pub max_drawdown: Decimal,
    pub sharpe_ratio: Decimal,
    pub jupiter_trades: u32,
    pub direct_dex_trades: u32,
    pub hybrid_trades: u32,
}

/// Averages that describe how well execution went.
#[derive(Debug, Clone)]
pub struct PerformanceMetrics {
    pub execution_time_avg: Decimal,
    pub price_impact_avg: Decimal,
    pub slippage_avg: Decimal,
    pub gas_efficiency: Decimal,
    pub jupiter_success_rate: Decimal,
    pub direct_dex_success_rate: Decimal,
}

/// The tier of the aggregator that a client talks to.
#[derive(Debug, Clone, Copy, PartialEq, Eq, Structural)]
pub enum JupiterApiType {
    Public,
    Pro,
    Lite,
    SelfHosted,
    Ultra,
}

/// An integrator fee as configuration files hold it.
#[derive(Debug, Clone)]
pub struct IntegratorFeeConfig {
    pub fee_bps: u16,
    pub fee_account: String,
    pub enabled: bool,
}

/// A low-latency feed as configuration files hold it.
#[derive(Debug, Clone)]
pub struct YellowstoneConfig {
    pub grpc_endpoint: String,
    pub x_token: String,
    pub enabled: bool,
}

/// Settings for sharing state between applications.
#[derive(Debug, Clone)]
pub struct CrossAppStateConfig {
    pub enabled: bool,
    pub sync_interval_ms: u64,
    pub state_key: String,
}

/// Everything a configuration file says about the aggregator.
#[derive(Debug, Clone)]
pub struct JupiterConfig {
    pub enabled: bool,
    pub api_url: String,
    pub api_key: Option<String>,
    pub api_type: JupiterApiType,
    pub timeout_ms: u64,
    pub retry_attempts: u32,
    pub default_slippage_bps: u16,
    pub max_price_impact_pct: Decimal,
    pub preferred_dexes: Vec<String>,
    pub excluded_dexes: Vec<String>,
    pub use_shared_accounts: bool,
    pub dynamic_compute_unit_limit: bool,
    pub prioritization_fee_lamports: u64,
    pub integrator_fee: Option<IntegratorFeeConfig>,
    pub yellowstone_config: Option<YellowstoneConfig>,
    pub enable_metis: bool,
    pub enable_ultra: bool,
    pub enable_health_checks: bool,
    pub cross_app_state: Option<CrossAppStateConfig>,
}

/// The optimisation block of the optimisation tier.
#[derive(Debug, Clone)]
pub struct MetisOptimization {
    pub enabled: bool,
    pub optimization_level: u8,
    pub max_iterations: u32,
    pub convergence_threshold: Decimal,
}

/// State shared with another application, carried as the aggregator gave it.
#[derive(Debug, Clone)]
pub struct CrossAppState {
    pub app_id: String,
    pub state_data: serde_json::Value,
    pub sync_required: bool,
}

/// The feature flags of the feature-enhanced tier.
#[derive(Debug, Clone)]
pub struct UltraFeatures {
    pub enabled: bool,
    pub advanced_routing: bool,
    pub mev_protection: bool,
    pub gas_optimization: bool,
    pub price_impact_optimization: bool,
}

/// The slippage protection block of the feature-enhanced tier.
#[derive(Debug, Clone)]
pub struct SlippageProtection {
    pub enabled: bool,
    pub max_slippage_bps: u16,
    pub price_impact_threshold: Decimal,
    pub dynamic_slippage: bool,
}

/// What is asked of the optimisation tier: a quote request and the tier's
/// own blocks.
#[derive(Debug, Clone)]
pub struct MetisQuoteRequest {
    pub quote: JupiterQuoteRequest,
    pub metis_optimization: Option<MetisOptimization>,
    pub cross_app_state: Option<CrossAppState>,
}

/// A quote of the optimisation tier as the aggregator sends it.
#[derive(Debug, Clone)]
pub struct MetisQuoteResponse {
    pub quote: JupiterQuoteResponse,
    pub metis_optimization: Option<MetisOptimization>,
    pub cross_app_state: Option<CrossAppState>,
}

/// What is asked of the feature-enhanced tier: a quote request and the
/// tier's own blocks.
#[derive(Debug, Clone)]
pub struct UltraQuoteRequest {
    pub quote: JupiterQuoteRequest,
    pub ultra_features: Option<UltraFeatures>,
    pub slippage_protection: Option<SlippageProtection>,
}

/// A quote of the feature-enhanced tier as the aggregator sends it.
#[derive(Debug, Clone)]
pub struct UltraQuoteResponse {
    pub quote: JupiterQuoteResponse,
    pub ultra_features: Option<UltraFeatures>,
    pub slippage_protection: Option<SlippageProtection>,
}

/// A quote of the optimisation tier: a quote and the tier's own blocks.
#[derive(Debug, Clone)]
pub struct MetisQuote {
    pub quote: JupiterQuote,
    pub metis_optimization: Option<MetisOptimization>,
    pub cross_app_state: Option<CrossAppState>,
}

/// A quote of the feature-enhanced tier: a quote and the tier's own blocks.
#[derive(Debug, Clone)]
pub struct UltraQuote {
    pub quote: JupiterQuote,
    pub ultra_features: Option<UltraFeatures>,
    pub slippage_protection: Option<SlippageProtection>,
}

/// How the aggregator says it is doing.
#[derive(Debug, Clone, Copy, PartialEq, Eq, Structural)]
pub enum HealthStatusType {
    Healthy,
    Degraded,
    Unhealthy,
    Maintenance,
}

/// How much of a rate limit is left.
#[derive(Debug, Clone)]
pub struct RateLimitStatus {
    pub remaining: u32,
    pub reset_time: i64,
    pub limit: u32,
}

/// A snapshot of the aggregator's health.
#[derive(Debug, Clone)]
pub struct HealthStatus {
    pub status: HealthStatusType,
    pub timestamp: i64,
    pub version: String,
    pub uptime: u64,
    pub last_error: Option<String>,
    pub rate_limit_status: Option<RateLimitStatus>,
}

/// The rate limits of a tier.
#[derive(Debug, Clone)]
pub struct RateLimitInfo {
    pub requests_per_minute: u32,
    pub requests_per_hour: u32,
    pub requests_per_day: u32,
}

/// One endpoint that the aggregator offers.
#[derive(Debug, Clone)]
pub struct EndpointInfo {
    pub name: String,
    pub path: String,
    pub method: String,
    pub rate_limit: u32,
}

/// What the aggregator says about itself.
#[derive(Debug, Clone)]
pub struct ApiInfo {
    pub version: String,
    pub api_type: String,
    pub supported_features: Vec<String>,
    pub rate_limits: RateLimitInfo,
    pub endpoints: Vec<EndpointInfo>,
}

/// What can go wrong anywhere in the trading system.
#[derive(Debug, Clone)]
pub enum ArbitrageError {
    JupiterApiError(String),
    DexApiError(String),
    InsufficientLiquidity,
    PriceImpactTooHigh,
    SlippageExceeded,
    GasPriceTooHigh,
    RiskCheckFailed,
    TransactionFailed(String),
    NetworkError(String),
}

impl ArbitrageError {
    /// The text that `to_string` gives for this error.
    pub open spec fn message(self) -> Seq<char> {
        match self {
            ArbitrageError::JupiterApiError(msg) => "Jupiter API Error: "@ + msg@,
            ArbitrageError::DexApiError(msg) => "DEX API Error: "@ + msg@,
            ArbitrageError::InsufficientLiquidity => "Insufficient liquidity"@,
            ArbitrageError::PriceImpactTooHigh => "Price impact too high"@,
            ArbitrageError::SlippageExceeded => "Slippage exceeded"@,
            ArbitrageError::GasPriceTooHigh => "Gas price too high"@,
            ArbitrageError::RiskCheckFailed => "Risk check failed"@,
            ArbitrageError::TransactionFailed(msg) => "Transaction failed: "@ + msg@,
            ArbitrageError::NetworkError(msg) => "Network error: "@ + msg@,
        }
    }

    /// Describes the error in words.
    pub fn to_string(&self) -> (r: String)
        ensures
            r@ == self.message(),
    {
        match self {
            ArbitrageError::JupiterApiError(msg) => "Jupiter API Error: ".to_owned().concat(
                msg.as_str(),
            ),
            ArbitrageError::DexApiError(msg) => "DEX API Error: ".to_owned().concat(msg.as_str()),
            ArbitrageError::InsufficientLiquidity => "Insufficient liquidity".to_owned(),
            ArbitrageError::PriceImpactTooHigh => "Price impact too high".to_owned(),
            ArbitrageError::SlippageExceeded => "Slippage exceeded".to_owned(),
            ArbitrageError::GasPriceTooHigh => "Gas price too high".to_owned(),
            ArbitrageError::RiskCheckFailed => "Risk check failed".to_owned(),
            ArbitrageError::TransactionFailed(msg) => "Transaction failed: ".to_owned().concat(
                msg.as_str(),
            ),
            ArbitrageError::NetworkError(msg) => "Network error: ".to_owned().concat(msg.as_str()),
        }
    }
}

} // verus!
