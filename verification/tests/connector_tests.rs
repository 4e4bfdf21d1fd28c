//! Venue identifier, order type and order book tests.

use cross_exchange_arbitrage::amounts::SCALE;
use cross_exchange_arbitrage::connectors::traits::{Balance, OrderSide, OrderStatus, TimeInForce};
use cross_exchange_arbitrage::connectors::{ConnectionStatus, Exchange};
use cross_exchange_arbitrage::data::{MarketDataManager, OrderBook};
use cross_exchange_arbitrage::{APP_NAME, VERSION};

#[test]
fn test_exchange_from_str() {
    assert_eq!("binance".parse::<Exchange>().unwrap(), Exchange::Binance);
    assert_eq!("bybit".parse::<Exchange>().unwrap(), Exchange::Bybit);
    assert_eq!("BINANCE".parse::<Exchange>().unwrap(), Exchange::Binance);
    assert!("unknown".parse::<Exchange>().is_err());
}

#[test]
fn test_exchange_display() {
    assert_eq!(Exchange::Binance.as_str(), "binance");
    assert_eq!(Exchange::Bybit.as_str(), "bybit");
}

#[test]
fn test_connection_status_display() {
    assert_eq!(ConnectionStatus::Connected.as_str(), "connected");
    assert_eq!(ConnectionStatus::Disconnected.as_str(), "disconnected");
}

#[test]
fn test_order_side_display() {
    assert_eq!(OrderSide::Buy.as_str(), "BUY");
    assert_eq!(OrderSide::Sell.as_str(), "SELL");
}

#[test]
fn test_time_in_force_display() {
    assert_eq!(TimeInForce::GTC.as_str(), "GTC");
    assert_eq!(TimeInForce::IOC.as_str(), "IOC");
    assert_eq!(TimeInForce::FOK.as_str(), "FOK");
    assert_eq!(TimeInForce::GTX.as_str(), "GTX");
}

#[test]
fn test_order_status_display() {
    assert_eq!(OrderStatus::New.as_str(), "NEW");
    assert_eq!(OrderStatus::Filled.as_str(), "FILLED");
    assert_eq!(OrderStatus::Canceled.as_str(), "CANCELED");
}

#[test]
fn test_balance_total() {
    let balance = Balance { asset: "BTC".to_string(), free: SCALE, locked: SCALE / 2 };
    assert_eq!(balance.total(), SCALE + SCALE / 2);
}

#[test]
fn test_version_info() {
    assert!(!VERSION.is_empty());
    assert!(!APP_NAME.is_empty());
}

#[test]
fn test_orderbook_best_prices() {
    let mut book = OrderBook::new("BTCUSDT".to_string(), Exchange::Binance);
    assert_eq!(book.best_bid(), None);
    assert_eq!(book.best_ask(), None);

    book.update_bid(50_000 * SCALE, SCALE);
    book.update_bid(49_990 * SCALE, 2 * SCALE);
    book.update_ask(50_010 * SCALE, SCALE);
    book.update_ask(50_020 * SCALE, 3 * SCALE);

    // best bid strictly below best ask in a non-crossed book
    let bid = book.best_bid().unwrap();
    let ask = book.best_ask().unwrap();
    assert_eq!(bid, 50_000 * SCALE);
    assert_eq!(ask, 50_010 * SCALE);
    assert!(bid < ask);
    assert_eq!(book.best_bid_quantity().unwrap(), SCALE);
    assert_eq!(book.best_ask_quantity().unwrap(), SCALE);
    assert_eq!(book.mid_price().unwrap(), 50_005 * SCALE);
}

#[test]
fn test_orderbook_zero_quantity_removes_level() {
    let mut book = OrderBook::new("BTCUSDT".to_string(), Exchange::Binance);
    book.update_bid(50_000 * SCALE, SCALE);
    book.update_bid(49_990 * SCALE, SCALE);
    assert_eq!(book.best_bid().unwrap(), 50_000 * SCALE);

    // a zero-quantity update removes the price level entirely
    book.update_bid(50_000 * SCALE, 0);
    assert_eq!(book.best_bid().unwrap(), 49_990 * SCALE);
    book.update_bid(49_990 * SCALE, 0);
    assert_eq!(book.best_bid(), None);
}

#[test]
fn test_orderbook_replaces_quantity() {
    let mut book = OrderBook::new("ETHUSDT".to_string(), Exchange::Bybit);
    book.update_ask(3_000 * SCALE, SCALE);
    book.update_ask(3_000 * SCALE, 5 * SCALE);
    assert_eq!(book.best_ask_quantity().unwrap(), 5 * SCALE);
}

#[test]
fn test_market_data_manager_replaces_snapshot() {
    let mut manager = MarketDataManager::new(4);
    assert!(manager.get_orderbook(Exchange::Binance, "BTCUSDT").is_none());

    let mut book = OrderBook::new("BTCUSDT".to_string(), Exchange::Binance);
    book.update_bid(50_000 * SCALE, SCALE);
    manager.update_book(book);

    let got = manager.get_orderbook(Exchange::Binance, "BTCUSDT").unwrap();
    assert_eq!(got.best_bid().unwrap(), 50_000 * SCALE);
    assert!(manager.get_orderbook(Exchange::Bybit, "BTCUSDT").is_none());

    let mut newer = OrderBook::new("BTCUSDT".to_string(), Exchange::Binance);
    newer.update_bid(50_100 * SCALE, SCALE);
    manager.update_book(newer);
    let got2 = manager.get_orderbook(Exchange::Binance, "BTCUSDT").unwrap();
    assert_eq!(got2.best_bid().unwrap(), 50_100 * SCALE);
}
