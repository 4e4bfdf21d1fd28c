//! Live coordinator tests with a scripted venue connector.

use cross_exchange_arbitrage::amounts::SCALE;
use cross_exchange_arbitrage::config::ArbitrageConfig;
use cross_exchange_arbitrage::connectors::traits::{
    Balance, ExchangeConnector, LimitOrder, OrderResponse, OrderSide, OrderStatus, TimeInForce,
};
use cross_exchange_arbitrage::connectors::{ConnectionStatus, Exchange};
use cross_exchange_arbitrage::data::OrderBook;
use cross_exchange_arbitrage::trading::live_trading::{LiveTradingExecutor, Position};
use cross_exchange_arbitrage::ArbitrageError;

/// A scripted venue link: answers from fixed data and counts calls.
struct MockConnector {
    connected: bool,
    fail_place: bool,
    fail_cancel_order_id: Option<String>,
    place_calls: u32,
    cancel_calls: u32,
    wait_calls: u32,
    next_order_id: u64,
}

impl MockConnector {
    fn new() -> MockConnector {
        MockConnector {
            connected: false,
            fail_place: false,
            fail_cancel_order_id: None,
            place_calls: 0,
            cancel_calls: 0,
            wait_calls: 0,
            next_order_id: 1,
        }
    }
}

impl ExchangeConnector for MockConnector {
    fn connect(&mut self) -> Result<(), ArbitrageError> {
        self.connected = true;
        Ok(())
    }

    fn disconnect(&mut self) -> Result<(), ArbitrageError> {
        self.connected = false;
        Ok(())
    }

    fn is_connected(&self) -> bool {
        self.connected
    }

    fn connection_status(&self) -> ConnectionStatus {
        if self.connected {
            ConnectionStatus::Connected
        } else {
            ConnectionStatus::Disconnected
        }
    }

    fn subscribe_orderbook(&mut self, _symbol: &str) -> Result<(), ArbitrageError> {
        Ok(())
    }

    fn subscribe_trades(&mut self, _symbol: &str) -> Result<(), ArbitrageError> {
        Ok(())
    }

    fn get_orderbook(&self, symbol: &str) -> Result<OrderBook, ArbitrageError> {
        Ok(OrderBook::new(symbol.to_string(), Exchange::Binance))
    }

    fn get_balances(&self) -> Result<Vec<Balance>, ArbitrageError> {
        Ok(vec![Balance { asset: "USDT".to_string(), free: 1000 * SCALE, locked: 0 }])
    }

    fn place_limit_order(&mut self, order: &LimitOrder) -> Result<OrderResponse, ArbitrageError> {
        self.place_calls += 1;
        if self.fail_place {
            return Err(ArbitrageError::Connection("venue unavailable".to_string()));
        }
        let id = format!("mock-{}", self.next_order_id);
        self.next_order_id += 1;
        Ok(OrderResponse {
            order_id: id,
            client_order_id: order.client_order_id.clone(),
            symbol: order.symbol.clone(),
            side: order.side,
            quantity: order.quantity,
            price: order.price,
            status: OrderStatus::New,
            filled_quantity: 0,
            average_price: None,
            timestamp: 0,
        })
    }

    fn cancel_order(&mut self, symbol: &str, order_id: &str) -> Result<
        OrderResponse,
        ArbitrageError,
    > {
        self.cancel_calls += 1;
        if let Some(bad) = &self.fail_cancel_order_id {
            if bad == order_id {
                return Err(ArbitrageError::Trading("cancel refused".to_string()));
            }
        }
        Ok(OrderResponse {
            order_id: order_id.to_string(),
            client_order_id: None,
            symbol: symbol.to_string(),
            side: OrderSide::Buy,
            quantity: 0,
            price: 0,
            status: OrderStatus::Canceled,
            filled_quantity: 0,
            average_price: None,
            timestamp: 0,
        })
    }

    fn get_order_status(&self, _symbol: &str, _order_id: &str) -> Result<
        OrderStatus,
        ArbitrageError,
    > {
        Ok(OrderStatus::New)
    }

    fn wait_for_retry(&mut self, _delay_ms: u64) {
        self.wait_calls += 1;
    }
}

fn create_test_config() -> ArbitrageConfig {
    ArbitrageConfig::default()
}

fn test_order(quantity: u64) -> LimitOrder {
    LimitOrder {
        symbol: "BTCUSDT".to_string(),
        side: OrderSide::Buy,
        quantity,
        price: 50_000 * SCALE,
        time_in_force: TimeInForce::GTC,
        client_order_id: None,
    }
}

#[test]
fn test_live_trading_executor_creation() {
    let config = create_test_config();
    let executor: LiveTradingExecutor<MockConnector> = LiveTradingExecutor::new(config).unwrap();

    assert!(!executor.is_connected());
    assert_eq!(executor.get_connected_exchanges().len(), 0);
}

#[test]
fn test_config_validation() {
    let mut config = create_test_config();
    config.strategy.max_position_size = 0;

    let result: Result<LiveTradingExecutor<MockConnector>, ArbitrageError> =
        LiveTradingExecutor::new(config);
    match result {
        Err(e) => assert!(e.is_config()),
        Ok(_) => panic!("a zero position limit must be rejected"),
    }
}

#[test]
fn test_health_status() {
    let config = create_test_config();
    let mut executor: LiveTradingExecutor<MockConnector> =
        LiveTradingExecutor::new(config).unwrap();

    let health = executor.get_health_status().unwrap();
    assert!(!health.is_healthy);
    assert_eq!(health.active_orders, 0);
}

#[test]
fn test_execution_statistics() {
    let config = create_test_config();
    let executor: LiveTradingExecutor<MockConnector> = LiveTradingExecutor::new(config).unwrap();

    let stats = executor.get_execution_statistics().unwrap();
    assert_eq!(stats.total_orders, 0);
    assert_eq!(stats.success_rate, 0);
}

#[test]
fn test_connect_and_connectivity() {
    let config = create_test_config();
    let mut executor: LiveTradingExecutor<MockConnector> =
        LiveTradingExecutor::new(config).unwrap();
    executor.add_connector(Exchange::Binance, MockConnector::new());
    executor.add_connector(Exchange::Bybit, MockConnector::new());

    executor.connect_to_exchanges().unwrap();
    assert!(executor.is_connected());
    assert!(executor.check_connectivity().is_ok());
    assert_eq!(executor.get_connected_exchanges().len(), 2);
}

#[test]
fn test_connect_without_connectors_fails() {
    let config = create_test_config();
    let mut executor: LiveTradingExecutor<MockConnector> =
        LiveTradingExecutor::new(config).unwrap();
    let result = executor.connect_to_exchanges();
    assert!(result.is_err());
    assert!(!executor.is_connected());
}

#[test]
fn test_order_placement_and_tracking() {
    let config = create_test_config();
    let mut executor: LiveTradingExecutor<MockConnector> =
        LiveTradingExecutor::new(config).unwrap();
    executor.add_connector(Exchange::Binance, MockConnector::new());

    let response = executor.place_order(Exchange::Binance, test_order(SCALE / 10)).unwrap();
    assert_eq!(response.symbol, "BTCUSDT");
    let stats = executor.get_execution_statistics().unwrap();
    assert_eq!(stats.total_orders, 1);
    assert_eq!(stats.successful_orders, 1);
    assert_eq!(stats.success_rate, 100 * SCALE);

    let health = executor.get_health_status().unwrap();
    assert_eq!(health.active_orders, 1);

    executor.cancel_order(Exchange::Binance, "BTCUSDT", response.order_id.as_str()).unwrap();
    let health2 = executor.get_health_status().unwrap();
    assert_eq!(health2.active_orders, 0);
}

#[test]
fn test_risk_management() {
    // a request pushing the net position from 0.05 to 1.05 against a
    // maximum of 1.0 is rejected before any venue call
    let config = create_test_config();
    let mut executor: LiveTradingExecutor<MockConnector> =
        LiveTradingExecutor::new(config).unwrap();
    executor.add_connector(Exchange::Binance, MockConnector::new());

    executor.update_position(Position {
        exchange: Exchange::Binance,
        symbol: "BTCUSDT".to_string(),
        size: (SCALE / 20) as i64,
        avg_price: 50_000 * SCALE,
        unrealized_pnl: 0,
        last_update: 0,
    });

    let order = test_order(SCALE);
    let check = executor.check_risk_limits(&order);
    assert!(check.is_err());
    assert!(check.unwrap_err().is_risk_management());

    let placed = executor.place_order(Exchange::Binance, order);
    assert!(placed.is_err());
    assert!(placed.unwrap_err().is_risk_management());

    // a smaller order passes
    assert!(executor.check_risk_limits(&test_order(SCALE / 2)).is_ok());
}

#[test]
fn test_risk_minimum_order_size() {
    let config = create_test_config();
    let executor: LiveTradingExecutor<MockConnector> = LiveTradingExecutor::new(config).unwrap();
    // below the configured minimum of 0.001
    let order = test_order(SCALE / 2000);
    let check = executor.check_risk_limits(&order);
    assert!(check.is_err());
    assert!(check.unwrap_err().is_risk_management());
}

#[test]
fn test_retry_mechanism() {
    let config = create_test_config();
    let mut executor: LiveTradingExecutor<MockConnector> =
        LiveTradingExecutor::new(config).unwrap();
    let mut conn = MockConnector::new();
    conn.fail_place = true;
    executor.add_connector(Exchange::Binance, conn);

    let result = executor.place_order_with_retry(Exchange::Binance, test_order(SCALE / 10));
    assert!(result.is_err());
    let stats = executor.get_execution_statistics().unwrap();
    // three attempts, all failed, with a pause between attempts
    assert_eq!(stats.total_orders, 3);
    assert_eq!(stats.failed_orders, 3);
}

#[test]
fn test_emergency_shutdown() {
    // one venue's cancel refusal must not stop the sweep: the shutdown
    // still succeeds and the other order's cancel is still attempted
    let config = create_test_config();
    let mut executor: LiveTradingExecutor<MockConnector> =
        LiveTradingExecutor::new(config).unwrap();
    executor.add_connector(Exchange::Binance, MockConnector::new());

    let r1 = executor.place_order(Exchange::Binance, test_order(SCALE / 10)).unwrap();
    let _r2 = executor.place_order(Exchange::Binance, test_order(SCALE / 10)).unwrap();
    let health = executor.get_health_status().unwrap();
    assert_eq!(health.active_orders, 2);

    // refuse the first order's cancel
    let mut failing = MockConnector::new();
    failing.fail_cancel_order_id = Some(r1.order_id.clone());
    let mut executor2: LiveTradingExecutor<MockConnector> =
        LiveTradingExecutor::new(create_test_config()).unwrap();
    executor2.add_connector(Exchange::Binance, failing);
    let ra = executor2.place_order(Exchange::Binance, test_order(SCALE / 10)).unwrap();
    let _rb = executor2.place_order(Exchange::Binance, test_order(SCALE / 10)).unwrap();
    // make the first tracked order the refused one
    assert_eq!(ra.order_id, "mock-1");

    let result = executor2.emergency_shutdown();
    assert!(result.is_ok());
    assert!(executor2.is_emergency_shutdown());
    // the refused order stays tracked, the other was cancelled
    let health2 = executor2.get_health_status().unwrap();
    assert_eq!(health2.active_orders, 1);

    // no further orders are accepted
    let after = executor2.place_order(Exchange::Binance, test_order(SCALE / 10));
    assert!(after.is_err());
    assert!(after.unwrap_err().is_trading());
}

#[test]
fn test_handle_connection_error() {
    let config = create_test_config();
    let mut executor: LiveTradingExecutor<MockConnector> =
        LiveTradingExecutor::new(config).unwrap();
    executor.add_connector(Exchange::Binance, MockConnector::new());
    executor.connect_to_exchanges().unwrap();

    let result = executor.handle_connection_error(Exchange::Binance);
    assert!(result.is_ok());
    assert!(executor.is_connected());
}

#[test]
fn test_balance_checking() {
    let config = create_test_config();
    let mut executor: LiveTradingExecutor<MockConnector> =
        LiveTradingExecutor::new(config).unwrap();
    executor.add_connector(Exchange::Binance, MockConnector::new());

    let balances = executor.check_balances().unwrap();
    assert_eq!(balances.len(), 1);
    assert_eq!(balances[0].1[0].asset, "USDT");
}

#[test]
fn test_market_data_processing() {
    let config = create_test_config();
    let mut executor: LiveTradingExecutor<MockConnector> =
        LiveTradingExecutor::new(config).unwrap();
    let mut book = OrderBook::new("BTCUSDT".to_string(), Exchange::Binance);
    book.update_bid(50_000 * SCALE, SCALE);
    assert!(executor.process_market_data(Exchange::Binance, book).is_ok());
}

#[test]
fn test_get_exchange_info() {
    let config = create_test_config();
    let executor: LiveTradingExecutor<MockConnector> = LiveTradingExecutor::new(config).unwrap();
    let info = executor.get_exchange_info(Exchange::Binance).unwrap();
    assert_eq!(info.exchange, Exchange::Binance);
    assert_eq!(info.symbols.len(), 2);
}
