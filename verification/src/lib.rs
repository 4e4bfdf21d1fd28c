//! Cross-exchange arbitrage core: per-venue order books, a market-data
//! aggregator, cross-venue opportunity detection, an execution simulator
//! with portfolio and performance tracking, and the safety envelope of a
//! live-execution coordinator.
//!
//! Every price, quantity, fee, rate and ratio in this crate is a fixed-point
//! integer scaled by [`amounts::SCALE`]: the stored value `1_500_000` stands
//! for 1.5 units.

use vstd::prelude::*;

pub mod amounts;
pub mod text;
pub mod runtime;
pub mod data;
pub mod config;
pub mod connectors;
pub mod strategy;
pub mod trading;

verus! {

/// Library version string.
pub const VERSION: &'static str = "0.1.0";

/// Library name string.
pub const APP_NAME: &'static str = "cross_exchange_arbitrage";

/// Common error taxonomy for the arbitrage system.
#[derive(Debug, Clone)]
pub enum ArbitrageError {
    /// Configuration error: fatal at startup, never retried.
    Config(String),
    /// Connection error: a venue is unreachable or a handshake failed.
    Connection(String),
    /// Data parsing error: a malformed market-data message.
    DataParsing(String),
    /// Parse error in user-supplied input.
    ParseError(String),
    /// An operation that is not implemented.
    NotImplemented(String),
    /// Trading error: an order was rejected by simulation or a venue.
    Trading(String),
    /// Risk management error: an order violates position or size limits.
    RiskManagement(String),
    /// Timeout error: a call exceeded its deadline.
    Timeout(String),
}

impl ArbitrageError {
    /// True exactly on the configuration variant.
    pub fn is_config(&self) -> (r: bool)
        ensures
            r == (self is Config),
    {
        match self {
            ArbitrageError::Config(_) => true,
            _ => false,
        }
    }

    /// True exactly on the risk-management variant.
    pub fn is_risk_management(&self) -> (r: bool)
        ensures
            r == (self is RiskManagement),
    {
        match self {
            ArbitrageError::RiskManagement(_) => true,
            _ => false,
        }
    }

    /// True exactly on the trading variant.
    pub fn is_trading(&self) -> (r: bool)
        ensures
            r == (self is Trading),
    {
        match self {
            ArbitrageError::Trading(_) => true,
            _ => false,
        }
    }

    /// True exactly on the connection variant.
    pub fn is_connection(&self) -> (r: bool)
        ensures
            r == (self is Connection),
    {
        match self {
            ArbitrageError::Connection(_) => true,
            _ => false,
        }
    }

    /// The detail message the error was built with.
    pub fn detail(&self) -> (r: &String)
        ensures
            r == self.spec_detail(),
    {
        match self {
            ArbitrageError::Config(m) => m,
            ArbitrageError::Connection(m) => m,
            ArbitrageError::DataParsing(m) => m,
            ArbitrageError::ParseError(m) => m,
            ArbitrageError::NotImplemented(m) => m,
            ArbitrageError::Trading(m) => m,
            ArbitrageError::RiskManagement(m) => m,
            ArbitrageError::Timeout(m) => m,
        }
    }

    /// The detail message, as a specification-level value.
    pub open spec fn spec_detail(&self) -> &String {
        match self {
            ArbitrageError::Config(m) => m,
            ArbitrageError::Connection(m) => m,
            ArbitrageError::DataParsing(m) => m,
            ArbitrageError::ParseError(m) => m,
            ArbitrageError::NotImplemented(m) => m,
            ArbitrageError::Trading(m) => m,
            ArbitrageError::RiskManagement(m) => m,
            ArbitrageError::Timeout(m) => m,
        }
    }
}

} // verus!
