//! Order and balance types shared with venues, and the connector
//! capability interface that live venue adapters implement.
//!
//! All prices and quantities are fixed-point amounts scaled by
//! [`crate::amounts::SCALE`].

use vstd::prelude::*;

use crate::amounts::valid_amt;
use crate::data::OrderBook;
use crate::ArbitrageError;

verus! {

/// Account balance of one asset.
#[derive(Debug, Clone)]
pub struct Balance {
    /// Asset symbol.
    pub asset: String,
    /// Available amount, scaled.
    pub free: u64,
    /// Amount locked in orders, scaled.
    pub locked: u64,
}

impl Balance {
    /// Total balance: free plus locked.
    pub fn total(&self) -> (r: u64)
        requires
            self.free + self.locked <= u64::MAX,
        ensures
            r == self.free + self.locked,
    {
        self.free + self.locked
    }
}

/// Order side.
#[derive(Debug, Clone, Copy, PartialEq, Eq, Structural)]
pub enum OrderSide {
    /// A buy order.
    Buy,
    /// A sell order.
    Sell,
}

impl OrderSide {
    /// The upper-case side name.
    pub fn as_str(&self) -> (r: &'static str)
        ensures
            *self is Buy ==> r@ == "BUY"@,
            *self is Sell ==> r@ == "SELL"@,
    {
        match self {
            OrderSide::Buy => "BUY",
            OrderSide::Sell => "SELL",
        }
    }
}

/// Time in force of an order.
#[derive(Debug, Clone, Copy, PartialEq, Eq, Structural)]
pub enum TimeInForce {
    /// Good till canceled.
    GTC,
    /// Immediate or cancel.
    IOC,
    /// Fill or kill.
    FOK,
    /// Good till crossing: post-only, rests as a maker order or is rejected.
    GTX,
}

impl TimeInForce {
    /// The upper-case name.
    pub fn as_str(&self) -> (r: &'static str)
        ensures
            *self is GTC ==> r@ == "GTC"@,
            *self is IOC ==> r@ == "IOC"@,
            *self is FOK ==> r@ == "FOK"@,
            *self is GTX ==> r@ == "GTX"@,
    {
        match self {
            TimeInForce::GTC => "GTC",
            TimeInForce::IOC => "IOC",
            TimeInForce::FOK => "FOK",
            TimeInForce::GTX => "GTX",
        }
    }
}

/// Status of an order at a venue.
#[derive(Debug, Clone, Copy, PartialEq, Eq, Structural)]
pub enum OrderStatus {
    /// Accepted, nothing filled yet.
    New,
    /// Partially filled.
    PartiallyFilled,
    /// Fully filled.
    Filled,
    /// Canceled.
    Canceled,
    /// Rejected.
    Rejected,
    /// Expired.
    Expired,
}

impl OrderStatus {
    /// The upper-case status name.
    pub fn as_str(&self) -> (r: &'static str)
        ensures
            *self is New ==> r@ == "NEW"@,
            *self is PartiallyFilled ==> r@ == "PARTIALLY_FILLED"@,
            *self is Filled ==> r@ == "FILLED"@,
            *self is Canceled ==> r@ == "CANCELED"@,
            *self is Rejected ==> r@ == "REJECTED"@,
            *self is Expired ==> r@ == "EXPIRED"@,
    {
        match self {
            OrderStatus::New => "NEW",
            OrderStatus::PartiallyFilled => "PARTIALLY_FILLED",
            OrderStatus::Filled => "FILLED",
            OrderStatus::Canceled => "CANCELED",
            OrderStatus::Rejected => "REJECTED",
            OrderStatus::Expired => "EXPIRED",
        }
    }
}

/// A limit order request.
#[derive(Debug, Clone)]
pub struct LimitOrder {
    /// Trading symbol.
    pub symbol: String,
    /// Order side.
    pub side: OrderSide,
    /// Order quantity, scaled.
    pub quantity: u64,
    /// Limit price, scaled.
    pub price: u64,
    /// Time in force.
    pub time_in_force: TimeInForce,
    /// Optional client order id.
    pub client_order_id: Option<String>,
}

impl LimitOrder {
    /// A well-formed order: price and quantity are valid market amounts
    /// and the price is not zero.
    pub open spec fn valid(&self) -> bool {
        valid_amt(self.quantity) && valid_amt(self.price) && self.price >= 1
    }

    /// A fieldwise copy of the order.
    pub fn clone_order(&self) -> (c: LimitOrder)
        ensures
            c == *self,
    {
        let client_order_id: Option<String> = match &self.client_order_id {
            Some(cid) => Some(cid.clone()),
            None => None,
        };
        LimitOrder {
            symbol: self.symbol.clone(),
            side: self.side,
            quantity: self.quantity,
            price: self.price,
            time_in_force: self.time_in_force,
            client_order_id,
        }
    }

    /// Runtime check matching [`LimitOrder::valid`].
    pub fn check_valid(&self) -> (r: bool)
        ensures
            r == self.valid(),
    {
        self.quantity <= crate::amounts::MAX_AMT && self.price <= crate::amounts::MAX_AMT
            && self.price >= 1
    }
}

/// A venue's reply to an order request.
#[derive(Debug, Clone)]
pub struct OrderResponse {
    /// Venue order id.
    pub order_id: String,
    /// Client order id, if one was sent.
    pub client_order_id: Option<String>,
    /// Trading symbol.
    pub symbol: String,
    /// Order side.
    pub side: OrderSide,
    /// Requested quantity, scaled.
    pub quantity: u64,
    /// Limit price, scaled.
    pub price: u64,
    /// Order status.
    pub status: OrderStatus,
    /// Filled quantity, scaled.
    pub filled_quantity: u64,
    /// Average fill price, scaled, when anything filled.
    pub average_price: Option<u64>,
    /// Venue timestamp, nanoseconds.
    pub timestamp: i64,
}

impl Default for OrderResponse {
    /// The empty response used where a venue call failed before a reply.
    fn default() -> (r: Self)
        ensures
            r.order_id@ == Seq::<char>::empty(),
            r.client_order_id is None,
            r.symbol@ == Seq::<char>::empty(),
            r.side is Buy,
            r.quantity == 0,
            r.price == 0,
            r.status is New,
            r.filled_quantity == 0,
            r.average_price is None,
            r.timestamp == 0,
    {
        OrderResponse {
            order_id: String::new(),
            client_order_id: None,
            symbol: String::new(),
            side: OrderSide::Buy,
            quantity: 0,
            price: 0,
            status: OrderStatus::New,
            filled_quantity: 0,
            average_price: None,
            timestamp: 0,
        }
    }
}

/// A market-data message from a venue feed.
#[derive(Debug)]
pub enum MarketDataUpdate {
    /// A replacement order-book snapshot.
    OrderBook {
        /// Venue name as sent on the feed.
        exchange: String,
        /// Trading symbol.
        symbol: String,
        /// The order book.
        orderbook: OrderBook,
        /// Feed timestamp, nanoseconds.
        timestamp: i64,
    },
    /// A trade print.
    Trade {
        /// Venue name as sent on the feed.
        exchange: String,
        /// Trading symbol.
        symbol: String,
        /// Trade price, scaled.
        price: u64,
        /// Trade quantity, scaled.
        quantity: u64,
        /// Taker side.
        side: OrderSide,
        /// Feed timestamp, nanoseconds.
        timestamp: i64,
    },
    /// A ticker summary.
    Ticker {
        /// Venue name as sent on the feed.
        exchange: String,
        /// Trading symbol.
        symbol: String,
        /// Best bid price, scaled.
        bid_price: u64,
        /// Best ask price, scaled.
        ask_price: u64,
        /// Day volume, scaled.
        volume_24h: u64,
        /// Day price change, scaled, signed.
        price_change_24h: i64,
        /// Feed timestamp, nanoseconds.
        timestamp: i64,
    },
}

/// An order-state change reported by a venue.
#[derive(Debug, Clone)]
pub struct OrderUpdate {
    /// Venue name as sent on the feed.
    pub exchange: String,
    /// The order state.
    pub order: OrderResponse,
    /// Feed timestamp, nanoseconds.
    pub timestamp: i64,
}

/// Capability interface of one venue link, implemented by live venue
/// adapters outside this crate and by test doubles. The coordinator's
/// own bookkeeping is verified against its results, whatever they are.
pub trait ExchangeConnector {
    /// Establishes the link.
    fn connect(&mut self) -> Result<(), ArbitrageError>;

    /// Tears the link down.
    fn disconnect(&mut self) -> Result<(), ArbitrageError>;

    /// Whether the link is up.
    fn is_connected(&self) -> bool;

    /// Current connection status.
    fn connection_status(&self) -> crate::connectors::ConnectionStatus;

    /// Subscribes to order-book updates for a symbol.
    fn subscribe_orderbook(&mut self, symbol: &str) -> Result<(), ArbitrageError>;

    /// Subscribes to trade updates for a symbol.
    fn subscribe_trades(&mut self, symbol: &str) -> Result<(), ArbitrageError>;

    /// Current order-book snapshot for a symbol.
    fn get_orderbook(&self, symbol: &str) -> Result<OrderBook, ArbitrageError>;

    /// Account balances by asset.
    fn get_balances(&self) -> Result<Vec<Balance>, ArbitrageError>;

    /// Places a limit order.
    fn place_limit_order(&mut self, order: &LimitOrder) -> Result<OrderResponse, ArbitrageError>;

    /// Cancels an order.
    fn cancel_order(&mut self, symbol: &str, order_id: &str) -> Result<
        OrderResponse,
        ArbitrageError,
    >;

    /// Status of an order.
    fn get_order_status(&self, symbol: &str, order_id: &str) -> Result<
        OrderStatus,
        ArbitrageError,
    >;

    /// Waits before the next retry attempt; live adapters sleep here,
    /// test doubles return at once.
    fn wait_for_retry(&mut self, delay_ms: u64);
}

} // verus!
