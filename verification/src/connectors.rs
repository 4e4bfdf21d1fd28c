//! Venue identifiers, connection state and the connector interfaces that
//! live venues implement.

use vstd::prelude::*;

pub mod traits;
pub mod futures;

use crate::text::str_eq_ci;
use crate::text::seq_eq_ci;
use crate::ArbitrageError;

verus! {

/// Supported venues.
#[derive(Debug, Clone, Copy, PartialEq, Eq, Hash, Structural)]
pub enum Exchange {
    /// The Binance venue.
    Binance,
    /// The Bybit venue.
    Bybit,
}

impl Exchange {
    /// The lower-case venue name.
    pub fn as_str(&self) -> (r: &'static str)
        ensures
            *self is Binance ==> r@ == "binance"@,
            *self is Bybit ==> r@ == "bybit"@,
    {
        match self {
            Exchange::Binance => "binance",
            Exchange::Bybit => "bybit",
        }
    }

    /// Parses a venue name, ignoring ASCII case; anything but the two
    /// supported names is a configuration error.
    pub fn parse(s: &str) -> (r: Result<Exchange, ArbitrageError>)
        ensures
            seq_eq_ci(s@, "binance"@) ==> (r matches Ok(e) && e is Binance),
            !seq_eq_ci(s@, "binance"@) && seq_eq_ci(s@, "bybit"@) ==> (r matches Ok(e)
                && e is Bybit),
            !seq_eq_ci(s@, "binance"@) && !seq_eq_ci(s@, "bybit"@) ==> (r matches Err(e)
                && e is Config),
    {
        if str_eq_ci(s, "binance") {
            Ok(Exchange::Binance)
        } else if str_eq_ci(s, "bybit") {
            Ok(Exchange::Bybit)
        } else {
            Err(ArbitrageError::Config("unknown exchange".to_owned()))
        }
    }
}

impl core::str::FromStr for Exchange {
    type Err = ArbitrageError;

    fn from_str(s: &str) -> Result<Exchange, ArbitrageError> {
        Exchange::parse(s)
    }
}

/// Connection health of one venue link.
#[derive(Debug, Clone, Copy, PartialEq, Eq, Structural)]
pub enum ConnectionStatus {
    /// No link.
    Disconnected,
    /// A link is being established.
    Connecting,
    /// The link is up.
    Connected,
    /// The link is being re-established after a failure.
    Reconnecting,
    /// The link failed.
    Error,
}

impl ConnectionStatus {
    /// The lower-case status name.
    pub fn as_str(&self) -> (r: &'static str)
        ensures
            *self is Disconnected ==> r@ == "disconnected"@,
            *self is Connecting ==> r@ == "connecting"@,
            *self is Connected ==> r@ == "connected"@,
            *self is Reconnecting ==> r@ == "reconnecting"@,
            *self is Error ==> r@ == "error"@,
    {
        match self {
            ConnectionStatus::Disconnected => "disconnected",
            ConnectionStatus::Connecting => "connecting",
            ConnectionStatus::Connected => "connected",
            ConnectionStatus::Reconnecting => "reconnecting",
            ConnectionStatus::Error => "error",
        }
    }
}

/// Events a venue link can report.
#[derive(Debug, Clone)]
pub enum ConnectionEvent {
    /// The link came up.
    Connected,
    /// The link went down.
    Disconnected,
    /// A reconnection attempt started.
    Reconnecting,
    /// The link failed with a message.
    Error(String),
}

} // verus!
