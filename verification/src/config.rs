//! Configuration of the arbitrage system. All sizes, rates and thresholds
//! are fixed-point amounts scaled by [`crate::amounts::SCALE`].

pub mod settings;

use vstd::prelude::*;

use crate::amounts::{MAX_AMT, SCALE, valid_amt, valid_rate};
use crate::ArbitrageError;

verus! {

/// Strategy parameters.
#[derive(Debug, Clone)]
pub struct StrategyConfig {
    /// Trading symbol.
    pub symbol: String,
    /// Minimum spread in whole basis points.
    pub min_spread_bps: u32,
    /// Maximum position size per venue, scaled.
    pub max_position_size: u64,
    /// Rebalance threshold, scaled fraction.
    pub rebalance_threshold: u64,
    /// Minimum profit threshold in quote currency, scaled.
    pub min_profit_usd: u64,
    /// Maximum concurrent positions.
    pub max_concurrent_positions: u32,
}

/// Risk-management parameters. Loaded and validated; enforcement beyond
/// the position-size check is reserved.
#[derive(Debug, Clone)]
pub struct RiskConfig {
    /// Maximum drawdown, scaled fraction strictly between 0 and 1.
    pub max_drawdown: u64,
    /// Stop loss in whole basis points.
    pub stop_loss_bps: u32,
    /// Position limit per venue, scaled.
    pub position_limit: u64,
    /// Daily loss limit in quote currency, scaled.
    pub daily_loss_limit: u64,
    /// Volatility threshold, scaled fraction.
    pub volatility_threshold: u64,
}

/// Execution parameters.
#[derive(Debug, Clone)]
pub struct ExecutionConfig {
    /// Order timeout in milliseconds.
    pub order_timeout_ms: u64,
    /// Slippage tolerance, scaled fraction of one.
    pub slippage_tolerance: u64,
    /// Minimum order size, scaled.
    pub min_order_size: u64,
    /// Fraction of available size used per order, scaled.
    pub order_size_fraction: u64,
    /// Whether partial fills are allowed.
    pub allow_partial_fills: bool,
    /// Maximum retry attempts for order placement.
    pub max_retry_attempts: u32,
}

/// Monitoring toggles and intervals.
#[derive(Debug, Clone)]
pub struct MonitoringConfig {
    /// Whether metrics collection is on.
    pub enable_metrics: bool,
    /// Metrics update interval in seconds.
    pub metrics_interval_secs: u64,
    /// Whether trade logging is on.
    pub enable_trade_logging: bool,
    /// Log rotation size in megabytes.
    pub log_rotation_size_mb: u64,
    /// Health check interval in seconds.
    pub health_check_interval_secs: u64,
}

/// The set of venues the strategy runs on.
#[derive(Debug, Clone)]
pub struct ExchangeListConfig {
    /// Enabled venue names.
    pub enabled: Vec<String>,
    /// Primary venue for reference pricing.
    pub primary_exchange: String,
}

/// Connection endpoints and retry policy of one venue.
#[derive(Debug, Clone)]
pub struct ConnectionConfig {
    /// WebSocket URL.
    pub websocket_url: String,
    /// REST API URL.
    pub rest_api_url: String,
    /// Connection timeout in seconds.
    pub connection_timeout_secs: u64,
    /// Maximum reconnection attempts.
    pub max_reconnect_attempts: u32,
    /// Reconnection delay in seconds.
    pub reconnect_delay_secs: u64,
}

/// Venue credentials.
#[derive(Debug, Clone)]
pub struct AuthConfig {
    /// API key.
    pub api_key: String,
    /// Secret key.
    pub secret_key: String,
    /// Whether the testnet endpoints are used.
    pub testnet: bool,
    /// Testnet WebSocket URL.
    pub testnet_websocket_url: Option<String>,
    /// Testnet REST API URL.
    pub testnet_rest_api_url: Option<String>,
}

/// Venue trading defaults.
#[derive(Debug, Clone)]
pub struct TradingConfig {
    /// Default order type name.
    pub default_order_type: String,
    /// Default time-in-force name.
    pub default_time_in_force: String,
}

/// Venue fee schedule. A negative maker fee is a rebate.
#[derive(Debug, Clone)]
pub struct FeeConfig {
    /// Maker fee, scaled fraction, negative for a rebate.
    pub maker_fee: i64,
    /// Taker fee, scaled fraction.
    pub taker_fee: i64,
    /// Fee currency.
    pub fee_currency: String,
}

/// Venue rate limits and per-symbol constraints.
#[derive(Debug, Clone)]
pub struct LimitsConfig {
    /// Order rate limit, requests per minute.
    pub order_rate_limit: u32,
    /// Market-data rate limit, requests per minute.
    pub market_data_rate_limit: u32,
    /// Minimum order sizes by symbol, scaled.
    pub min_order_sizes: Vec<(String, u64)>,
    /// Tick sizes by symbol, scaled.
    pub tick_sizes: Vec<(String, u64)>,
}

/// Venue market-data subscription settings.
#[derive(Debug, Clone)]
pub struct MarketDataConfig {
    /// Subscription streams.
    pub streams: Vec<String>,
    /// Subscription topics.
    pub topics: Vec<String>,
    /// Order-book depth levels.
    pub depth_levels: u32,
}

/// Per-venue configuration.
#[derive(Debug, Clone)]
pub struct ExchangeConfig {
    /// Connection settings.
    pub connection: ConnectionConfig,
    /// Credentials.
    pub auth: AuthConfig,
    /// Trading defaults.
    pub trading: TradingConfig,
    /// Fee schedule.
    pub fees: FeeConfig,
    /// Rate limits and constraints.
    pub limits: LimitsConfig,
    /// Market-data settings.
    pub market_data: MarketDataConfig,
    /// Monitoring settings.
    pub monitoring: MonitoringConfig,
}

/// Top-level configuration.
#[derive(Debug, Clone)]
pub struct ArbitrageConfig {
    /// Strategy parameters.
    pub strategy: StrategyConfig,
    /// Risk-management parameters.
    pub risk: RiskConfig,
    /// Execution parameters.
    pub execution: ExecutionConfig,
    /// Monitoring settings.
    pub monitoring: MonitoringConfig,
    /// Venue list.
    pub exchanges: ExchangeListConfig,
}

impl ArbitrageConfig {
    /// Machine bounds that every usable configuration satisfies: sizes
    /// are valid market amounts, rates are fractions of one, and the
    /// order timeout fits within a day.
    pub open spec fn spec_bounds_ok(&self) -> bool {
        valid_amt(self.strategy.max_position_size) && valid_amt(self.execution.min_order_size)
            && valid_rate(self.execution.slippage_tolerance) && self.execution.order_timeout_ms
            <= 86_400_000
    }

    /// A configuration that validation accepts: non-empty symbol, positive
    /// minimum spread, positive maximum position, drawdown strictly
    /// between zero and one, positive order timeout, at least two venues,
    /// and the machine bounds.
    pub open spec fn spec_valid(&self) -> bool {
        self.strategy.symbol@.len() > 0 && self.strategy.min_spread_bps > 0
            && self.strategy.max_position_size > 0 && 0 < self.risk.max_drawdown < SCALE
            && self.execution.order_timeout_ms > 0 && self.exchanges.enabled@.len() >= 2
            && self.spec_bounds_ok()
    }

    /// Validates the configuration: succeeds exactly on configurations
    /// that [`ArbitrageConfig::spec_valid`] admits; every failure is a
    /// configuration error.
    pub fn validate(&self) -> (r: Result<(), ArbitrageError>)
        ensures
            (r is Ok) == self.spec_valid(),
            r matches Err(e) ==> e is Config,
    {
        if self.strategy.symbol.as_str().is_empty() {
            return Err(ArbitrageError::Config("Symbol cannot be empty".to_owned()));
        }
        if self.strategy.min_spread_bps == 0 {
            return Err(
                ArbitrageError::Config("Minimum spread must be greater than 0".to_owned()),
            );
        }
        if self.strategy.max_position_size == 0 {
            return Err(
                ArbitrageError::Config("Maximum position size must be positive".to_owned()),
            );
        }
        if self.risk.max_drawdown == 0 || self.risk.max_drawdown >= SCALE {
            return Err(
                ArbitrageError::Config("Max drawdown must be between 0 and 1".to_owned()),
            );
        }
        if self.execution.order_timeout_ms == 0 {
            return Err(
                ArbitrageError::Config("Order timeout must be greater than 0".to_owned()),
            );
        }
        if self.exchanges.enabled.len() == 0 {
            return Err(
                ArbitrageError::Config("At least one exchange must be enabled".to_owned()),
            );
        }
        if self.exchanges.enabled.len() < 2 {
            return Err(
                ArbitrageError::Config("At least two exchanges required for arbitrage".to_owned()),
            );
        }
        if self.strategy.max_position_size > MAX_AMT || self.execution.min_order_size > MAX_AMT
            || self.execution.slippage_tolerance > SCALE || self.execution.order_timeout_ms
            > 86_400_000 {
            return Err(
                ArbitrageError::Config("Configuration value out of supported range".to_owned()),
            );
        }
        Ok(())
    }
}

impl Default for ArbitrageConfig {
    /// The stock configuration: BTCUSDT across Binance and Bybit with
    /// conservative sizes and limits.
    fn default() -> (r: Self)
        ensures
            r.strategy.symbol@ == "BTCUSDT"@,
            r.strategy.min_spread_bps == 10,
            r.strategy.max_position_size == SCALE,
            r.strategy.rebalance_threshold == SCALE / 10,
            r.strategy.min_profit_usd == 5 * SCALE,
            r.strategy.max_concurrent_positions == 3,
            r.risk.max_drawdown == SCALE / 20,
            r.risk.stop_loss_bps == 50,
            r.risk.position_limit == 10 * SCALE,
            r.risk.daily_loss_limit == 1000 * SCALE,
            r.risk.volatility_threshold == SCALE / 10,
            r.execution.order_timeout_ms == 5000,
            r.execution.slippage_tolerance == SCALE / 1000,
            r.execution.min_order_size == SCALE / 1000,
            r.execution.order_size_fraction == SCALE / 10,
            r.execution.allow_partial_fills == true,
            r.execution.max_retry_attempts == 3,
            r.monitoring.enable_metrics == true,
            r.monitoring.metrics_interval_secs == 60,
            r.monitoring.enable_trade_logging == true,
            r.monitoring.log_rotation_size_mb == 100,
            r.monitoring.health_check_interval_secs == 30,
            r.exchanges.enabled@.len() == 2,
            r.exchanges.enabled@[0]@ == "binance"@,
            r.exchanges.enabled@[1]@ == "bybit"@,
            r.exchanges.primary_exchange@ == "binance"@,
            r.spec_valid(),
    {
        let mut enabled: Vec<String> = Vec::new();
        enabled.push(String::from_str("binance"));
        enabled.push(String::from_str("bybit"));
        let r = ArbitrageConfig {
            strategy: StrategyConfig {
                symbol: String::from_str("BTCUSDT"),
                min_spread_bps: 10,
                max_position_size: SCALE,
                rebalance_threshold: SCALE / 10,
                min_profit_usd: 5 * SCALE,
                max_concurrent_positions: 3,
            },
            risk: RiskConfig {
                max_drawdown: SCALE / 20,
                stop_loss_bps: 50,
                position_limit: 10 * SCALE,
                daily_loss_limit: 1000 * SCALE,
                volatility_threshold: SCALE / 10,
            },
            execution: ExecutionConfig {
                order_timeout_ms: 5000,
                slippage_tolerance: SCALE / 1000,
                min_order_size: SCALE / 1000,
                order_size_fraction: SCALE / 10,
                allow_partial_fills: true,
                max_retry_attempts: 3,
            },
            monitoring: MonitoringConfig {
                enable_metrics: true,
                metrics_interval_secs: 60,
                enable_trade_logging: true,
                log_rotation_size_mb: 100,
                health_check_interval_secs: 30,
            },
            exchanges: ExchangeListConfig {
                enabled,
                primary_exchange: String::from_str("binance"),
            },
        };
        proof {
            reveal_strlit("BTCUSDT");
        }
        r
    }
}

} // verus!
