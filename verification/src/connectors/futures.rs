//! Futures contract, position and order types, and the futures connector
//! capability interface. All prices, quantities and rates are fixed-point
//! amounts scaled by [`crate::amounts::SCALE`].

use vstd::prelude::*;

use crate::connectors::Exchange;
use crate::connectors::traits::OrderSide;
use crate::ArbitrageError;

verus! {

/// Contract type.
#[derive(Debug, Clone, Copy, PartialEq, Eq, Structural)]
pub enum ContractType {
    /// Perpetual contract.
    Perpetual,
    /// Quarterly contract.
    Quarterly,
    /// Bi-quarterly contract.
    BiQuarterly,
}

/// Futures contract specification.
#[derive(Debug, Clone)]
pub struct FuturesContract {
    /// Contract symbol.
    pub symbol: String,
    /// Base asset.
    pub base_asset: String,
    /// Quote asset.
    pub quote_asset: String,
    /// Contract type.
    pub contract_type: ContractType,
    /// Minimum order size, scaled.
    pub min_order_size: u64,
    /// Price precision in decimal digits.
    pub price_precision: u8,
    /// Quantity precision in decimal digits.
    pub quantity_precision: u8,
    /// Tick size, scaled.
    pub tick_size: u64,
    /// Lot size, scaled.
    pub lot_size: u64,
    /// Maker fee rate, scaled, negative for a rebate.
    pub maker_fee: i64,
    /// Taker fee rate, scaled.
    pub taker_fee: i64,
}

/// Position side.
#[derive(Debug, Clone, Copy, PartialEq, Eq, Structural)]
pub enum PositionSide {
    /// Long position.
    Long,
    /// Short position.
    Short,
    /// Both sides, for hedge mode.
    Both,
}

impl PositionSide {
    /// The upper-case side name.
    pub fn as_str(&self) -> (r: &'static str)
        ensures
            *self is Long ==> r@ == "LONG"@,
            *self is Short ==> r@ == "SHORT"@,
            *self is Both ==> r@ == "BOTH"@,
    {
        match self {
            PositionSide::Long => "LONG",
            PositionSide::Short => "SHORT",
            PositionSide::Both => "BOTH",
        }
    }
}

/// Futures position.
#[derive(Debug, Clone)]
pub struct FuturesPosition {
    /// Symbol.
    pub symbol: String,
    /// Position side.
    pub side: PositionSide,
    /// Position size, scaled.
    pub size: u64,
    /// Entry price, scaled.
    pub entry_price: u64,
    /// Mark price, scaled.
    pub mark_price: u64,
    /// Unrealized profit and loss, scaled, signed.
    pub unrealized_pnl: i64,
    /// Realized profit and loss, scaled, signed.
    pub realized_pnl: i64,
    /// Margin, scaled.
    pub margin: u64,
    /// Leverage, scaled.
    pub leverage: u64,
    /// Last update time, milliseconds.
    pub update_time: i64,
}

/// Futures order type.
#[derive(Debug, Clone, Copy, PartialEq, Eq, Structural)]
pub enum FuturesOrderType {
    /// Market order.
    Market,
    /// Limit order.
    Limit,
    /// Stop market order.
    StopMarket,
    /// Stop limit order.
    StopLimit,
    /// Take-profit market order.
    TakeProfitMarket,
    /// Take-profit limit order.
    TakeProfitLimit,
}

impl FuturesOrderType {
    /// The upper-case order-type name.
    pub fn as_str(&self) -> (r: &'static str)
        ensures
            *self is Market ==> r@ == "MARKET"@,
            *self is Limit ==> r@ == "LIMIT"@,
            *self is StopMarket ==> r@ == "STOP_MARKET"@,
            *self is StopLimit ==> r@ == "STOP_LIMIT"@,
            *self is TakeProfitMarket ==> r@ == "TAKE_PROFIT_MARKET"@,
            *self is TakeProfitLimit ==> r@ == "TAKE_PROFIT_LIMIT"@,
    {
        match self {
            FuturesOrderType::Market => "MARKET",
            FuturesOrderType::Limit => "LIMIT",
            FuturesOrderType::StopMarket => "STOP_MARKET",
            FuturesOrderType::StopLimit => "STOP_LIMIT",
            FuturesOrderType::TakeProfitMarket => "TAKE_PROFIT_MARKET",
            FuturesOrderType::TakeProfitLimit => "TAKE_PROFIT_LIMIT",
        }
    }
}

/// Futures time in force.
#[derive(Debug, Clone, Copy, PartialEq, Eq, Structural)]
pub enum FuturesTimeInForce {
    /// Good till canceled.
    GTC,
    /// Immediate or cancel.
    IOC,
    /// Fill or kill.
    FOK,
    /// Good till crossing: post-only.
    GTX,
}

impl FuturesTimeInForce {
    /// The upper-case name.
    pub fn as_str(&self) -> (r: &'static str)
        ensures
            *self is GTC ==> r@ == "GTC"@,
            *self is IOC ==> r@ == "IOC"@,
            *self is FOK ==> r@ == "FOK"@,
            *self is GTX ==> r@ == "GTX"@,
    {
        match self {
            FuturesTimeInForce::GTC => "GTC",
            FuturesTimeInForce::IOC => "IOC",
            FuturesTimeInForce::FOK => "FOK",
            FuturesTimeInForce::GTX => "GTX",
        }
    }
}

/// Futures order request.
#[derive(Debug, Clone)]
pub struct FuturesOrder {
    /// Symbol.
    pub symbol: String,
    /// Order side.
    pub side: OrderSide,
    /// Position side, for hedge mode.
    pub position_side: Option<PositionSide>,
    /// Order type.
    pub order_type: FuturesOrderType,
    /// Quantity, scaled.
    pub quantity: u64,
    /// Price, scaled, for limit orders.
    pub price: Option<u64>,
    /// Stop price, scaled, for stop orders.
    pub stop_price: Option<u64>,
    /// Time in force.
    pub time_in_force: FuturesTimeInForce,
    /// Reduce-only flag.
    pub reduce_only: bool,
    /// Close-position flag.
    pub close_position: bool,
    /// Client order id.
    pub client_order_id: Option<String>,
}

/// Futures order status.
#[derive(Debug, Clone, Copy, PartialEq, Eq, Structural)]
pub enum FuturesOrderStatus {
    /// New order.
    New,
    /// Partially filled.
    PartiallyFilled,
    /// Filled.
    Filled,
    /// Canceled.
    Canceled,
    /// Rejected.
    Rejected,
    /// Expired.
    Expired,
}

/// Futures order response.
#[derive(Debug, Clone)]
pub struct FuturesOrderResponse {
    /// Venue order id.
    pub order_id: String,
    /// Client order id.
    pub client_order_id: Option<String>,
    /// Symbol.
    pub symbol: String,
    /// Order side.
    pub side: OrderSide,
    /// Position side.
    pub position_side: Option<PositionSide>,
    /// Order type.
    pub order_type: FuturesOrderType,
    /// Quantity, scaled.
    pub quantity: u64,
    /// Price, scaled.
    pub price: Option<u64>,
    /// Order status.
    pub status: FuturesOrderStatus,
    /// Filled quantity, scaled.
    pub filled_quantity: u64,
    /// Average fill price, scaled.
    pub average_price: Option<u64>,
    /// Commission, scaled.
    pub commission: u64,
    /// Commission asset.
    pub commission_asset: String,
    /// Timestamp, milliseconds.
    pub timestamp: i64,
}

/// Funding rate information.
#[derive(Debug, Clone)]
pub struct FundingRate {
    /// Symbol.
    pub symbol: String,
    /// Funding rate, scaled, signed.
    pub funding_rate: i64,
    /// Funding time, milliseconds.
    pub funding_time: i64,
    /// Next funding time, milliseconds.
    pub next_funding_time: i64,
}

/// Mark price information.
#[derive(Debug, Clone)]
pub struct MarkPrice {
    /// Symbol.
    pub symbol: String,
    /// Mark price, scaled.
    pub mark_price: u64,
    /// Index price, scaled.
    pub index_price: u64,
    /// Estimated settle price, scaled.
    pub estimated_settle_price: Option<u64>,
    /// Last funding rate, scaled, signed.
    pub last_funding_rate: i64,
    /// Next funding time, milliseconds.
    pub next_funding_time: i64,
    /// Interest rate, scaled, signed.
    pub interest_rate: i64,
    /// Timestamp, milliseconds.
    pub timestamp: i64,
}

/// Futures balance of one asset.
#[derive(Debug, Clone)]
pub struct FuturesBalance {
    /// Asset.
    pub asset: String,
    /// Wallet balance, scaled.
    pub wallet_balance: u64,
    /// Unrealized profit and loss, scaled, signed.
    pub unrealized_pnl: i64,
    /// Margin balance, scaled.
    pub margin_balance: u64,
    /// Maintenance margin, scaled.
    pub maint_margin: u64,
    /// Initial margin, scaled.
    pub initial_margin: u64,
    /// Position initial margin, scaled.
    pub position_initial_margin: u64,
    /// Order initial margin, scaled.
    pub order_initial_margin: u64,
    /// Available balance, scaled.
    pub available_balance: u64,
    /// Maximum withdraw amount, scaled.
    pub max_withdraw_amount: u64,
    /// Whether margin is available.
    pub margin_available: bool,
    /// Update time, milliseconds.
    pub update_time: i64,
}

/// Futures account information.
#[derive(Debug, Clone)]
pub struct FuturesAccountInfo {
    /// Total wallet balance, scaled.
    pub total_wallet_balance: u64,
    /// Total unrealized profit and loss, scaled, signed.
    pub total_unrealized_pnl: i64,
    /// Total margin balance, scaled.
    pub total_margin_balance: u64,
    /// Total position initial margin, scaled.
    pub total_position_initial_margin: u64,
    /// Total order initial margin, scaled.
    pub total_order_initial_margin: u64,
    /// Available balance, scaled.
    pub available_balance: u64,
    /// Maximum withdraw amount, scaled.
    pub max_withdraw_amount: u64,
    /// Margin ratio, scaled.
    pub margin_ratio: Option<u64>,
    /// Update time, milliseconds.
    pub update_time: i64,
    /// Asset balances.
    pub balances: Vec<FuturesBalance>,
    /// Positions.
    pub positions: Vec<FuturesPosition>,
}

/// Capability interface of one futures venue link, implemented by live
/// venue adapters outside this crate and by test doubles.
pub trait FuturesConnector {
    /// Contract specifications by symbol.
    fn get_exchange_info(&self) -> Result<Vec<(String, FuturesContract)>, ArbitrageError>;

    /// Account information.
    fn get_account_info(&self) -> Result<FuturesAccountInfo, ArbitrageError>;

    /// Open positions.
    fn get_positions(&self) -> Result<Vec<FuturesPosition>, ArbitrageError>;

    /// Places an order.
    fn place_order(&mut self, order: &FuturesOrder) -> Result<FuturesOrderResponse, ArbitrageError>;

    /// Cancels an order.
    fn cancel_order(&mut self, symbol: &str, order_id: &str) -> Result<
        FuturesOrderResponse,
        ArbitrageError,
    >;

    /// Status of an order.
    fn get_order_status(&self, symbol: &str, order_id: &str) -> Result<
        FuturesOrderResponse,
        ArbitrageError,
    >;

    /// Current funding rate.
    fn get_funding_rate(&self, symbol: &str) -> Result<FundingRate, ArbitrageError>;

    /// Current mark price.
    fn get_mark_price(&self, symbol: &str) -> Result<MarkPrice, ArbitrageError>;

    /// Subscribes to order-book updates.
    fn subscribe_orderbook(&mut self, symbol: &str) -> Result<(), ArbitrageError>;

    /// Subscribes to trade updates.
    fn subscribe_trades(&mut self, symbol: &str) -> Result<(), ArbitrageError>;

    /// Subscribes to mark-price updates.
    fn subscribe_mark_price(&mut self, symbol: &str) -> Result<(), ArbitrageError>;

    /// Subscribes to funding-rate updates.
    fn subscribe_funding_rate(&mut self, symbol: &str) -> Result<(), ArbitrageError>;

    /// Whether the link is up.
    fn is_connected(&self) -> bool;

    /// Establishes the link.
    fn connect(&mut self) -> Result<(), ArbitrageError>;

    /// Tears the link down.
    fn disconnect(&mut self) -> Result<(), ArbitrageError>;
}

} // verus!
