//! Strategy layer: cross-venue opportunity detection and the strategy
//! loops that drive it.

pub mod arbitrage;
pub mod futures_arbitrage;
