//! Simulator tests: execution, portfolio tracking, fees, partial fills,
//! rejection, metrics, and reset.

use cross_exchange_arbitrage::amounts::SCALE;
use cross_exchange_arbitrage::config::ArbitrageConfig;
use cross_exchange_arbitrage::connectors::traits::{LimitOrder, OrderSide, TimeInForce};
use cross_exchange_arbitrage::connectors::Exchange;
use cross_exchange_arbitrage::data::OrderBook;
use cross_exchange_arbitrage::trading::dry_run::{DryRunExecutor, ExecutionConfig, SimDraws};

fn create_test_config() -> ArbitrageConfig {
    ArbitrageConfig::default()
}

fn create_test_order() -> LimitOrder {
    LimitOrder {
        symbol: "BTCUSDT".to_string(),
        side: OrderSide::Buy,
        quantity: SCALE / 10,
        price: 50_000 * SCALE,
        time_in_force: TimeInForce::GTC,
        client_order_id: Some("test_order".to_string()),
    }
}

fn zero_draws(order: &LimitOrder) -> SimDraws {
    SimDraws {
        rejection: 0,
        slippage: 0,
        partial_select: 0,
        fill_quantity: order.quantity,
        delay_jitter: SCALE,
    }
}

#[test]
fn test_dry_run_executor_creation() {
    let config = create_test_config();
    let executor = DryRunExecutor::new(config).unwrap();

    let results = executor.get_results();
    assert_eq!(results.total_trades, 0);
    assert_eq!(results.total_pnl, 0);
}

#[test]
fn test_order_execution() {
    let config = create_test_config();
    let mut executor = DryRunExecutor::new(config).unwrap();

    let order = create_test_order();
    let result = executor.execute_order(order).unwrap();

    assert_eq!(result.symbol, "BTCUSDT");
    assert_eq!(result.side, OrderSide::Buy);
    assert_eq!(result.quantity, SCALE / 10);
    assert!(result.filled_quantity > 0);
    // the fresh order id has the 36-character hyphenated form
    assert_eq!(result.order_id.len(), 36);
}

#[test]
fn test_portfolio_update() {
    let config = create_test_config();
    let mut executor = DryRunExecutor::new(config).unwrap();

    let order = create_test_order();
    executor.execute_order(order).unwrap();

    let portfolio = executor.get_portfolio();
    assert!(portfolio.get_position("BTCUSDT") > 0);
    assert!(portfolio.get_balance("USDT") < (100_000 * SCALE) as i128);
}

#[test]
fn test_reset_functionality() {
    let config = create_test_config();
    let mut executor = DryRunExecutor::new(config).unwrap();

    let order = create_test_order();
    executor.execute_order(order).unwrap();

    let results_before = executor.get_results();
    assert!(results_before.total_trades > 0);

    executor.reset().unwrap();

    let results_after = executor.get_results();
    assert_eq!(results_after.total_trades, 0);
    assert_eq!(results_after.total_pnl, 0);
}

#[test]
fn test_dry_run_reset_idempotent() {
    let config = create_test_config();
    let mut executor = DryRunExecutor::new(config).unwrap();
    executor.execute_order(create_test_order()).unwrap();

    executor.reset().unwrap();
    let results_once = executor.get_results();
    let portfolio_once = executor.get_portfolio();
    let metrics_once = executor.get_performance_metrics();

    executor.reset().unwrap();
    let results_twice = executor.get_results();
    let portfolio_twice = executor.get_portfolio();
    let metrics_twice = executor.get_performance_metrics();

    assert_eq!(results_once.total_trades, results_twice.total_trades);
    assert_eq!(results_once.total_pnl, results_twice.total_pnl);
    assert_eq!(portfolio_once.get_balance("USDT"), portfolio_twice.get_balance("USDT"));
    assert_eq!(portfolio_once.get_position("BTCUSDT"), portfolio_twice.get_position("BTCUSDT"));
    assert_eq!(metrics_once.total_orders, metrics_twice.total_orders);
    assert_eq!(metrics_once.total_fees, metrics_twice.total_fees);
}

#[test]
fn test_dry_run_round_trip_profit() {
    let mut config = create_test_config();
    config.execution.slippage_tolerance = 0;
    let mut executor = DryRunExecutor::new(config).unwrap();
    let mut exec_config = ExecutionConfig::default();
    exec_config.enable_fees = false;
    executor.set_execution_config(exec_config);

    let buy = LimitOrder {
        symbol: "BTCUSDT".to_string(),
        side: OrderSide::Buy,
        quantity: SCALE,
        price: 50_000 * SCALE,
        time_in_force: TimeInForce::GTC,
        client_order_id: None,
    };
    let sell = LimitOrder {
        symbol: "BTCUSDT".to_string(),
        side: OrderSide::Sell,
        quantity: SCALE,
        price: 50_100 * SCALE,
        time_in_force: TimeInForce::GTC,
        client_order_id: None,
    };
    let d1 = zero_draws(&buy);
    let d2 = zero_draws(&sell);
    executor.execute_order_with_draws(&buy, d1, "buy-1".to_string(), 1).unwrap();
    executor.execute_order_with_draws(&sell, d2, "sell-1".to_string(), 2).unwrap();

    let portfolio = executor.get_portfolio();
    assert_eq!(portfolio.get_position("BTCUSDT"), 0);
    let results = executor.get_results();
    assert!(results.total_pnl > 0);
    assert_eq!(results.total_pnl, (100 * SCALE) as i128);
}

#[test]
fn test_dry_run_fee_simulation() {
    let config = create_test_config();
    let mut executor = DryRunExecutor::new(config).unwrap();
    executor.execute_order(create_test_order()).unwrap();
    // default taker fee is 0.1% of the notional
    assert!(executor.get_total_fees() > 0);
}

#[test]
fn test_dry_run_fee_amount_exact() {
    let mut config = create_test_config();
    config.execution.slippage_tolerance = 0;
    let mut executor = DryRunExecutor::new(config).unwrap();
    let order = create_test_order();
    let draws = zero_draws(&order);
    executor.execute_order_with_draws(&order, draws, "fee-1".to_string(), 1).unwrap();
    // notional 5000 units, taker fee 0.1% -> 5 units
    assert_eq!(executor.get_total_fees(), (5 * SCALE) as i128);
}

#[test]
fn test_dry_run_order_rejection() {
    let config = create_test_config();
    let mut executor = DryRunExecutor::new(config).unwrap();
    let mut exec_config = ExecutionConfig::default();
    exec_config.rejection_probability = SCALE;
    executor.set_execution_config(exec_config);

    let result = executor.execute_order(create_test_order());
    assert!(result.is_err());
    assert!(result.unwrap_err().is_trading());

    let mut exec_config2 = ExecutionConfig::default();
    exec_config2.rejection_probability = 0;
    executor.set_execution_config(exec_config2);
    assert!(executor.execute_order(create_test_order()).is_ok());
}

#[test]
fn test_dry_run_partial_fills() {
    let config = create_test_config();
    let mut executor = DryRunExecutor::new(config).unwrap();
    let mut exec_config = ExecutionConfig::default();
    exec_config.allow_partial_fills = true;
    exec_config.partial_fill_probability = SCALE - 1;
    exec_config.min_fill_ratio = SCALE / 2;
    executor.set_execution_config(exec_config);

    let order = create_test_order();
    let result = executor.execute_order(order).unwrap();
    // the fill stays between half the order and the full order
    assert!(result.filled_quantity >= SCALE / 20);
    assert!(result.filled_quantity <= SCALE / 10);
}

#[test]
fn test_dry_run_slippage_simulation() {
    let config = create_test_config();
    let mut executor = DryRunExecutor::new(config).unwrap();
    let order = create_test_order();
    let result = executor.execute_order(order).unwrap();
    let px = result.average_price.unwrap();
    // a buy pays its limit or worse, within the 0.1% tolerance
    assert!(px >= 50_000 * SCALE);
    assert!(px <= 50_050 * SCALE + SCALE);
}

#[test]
fn test_dry_run_market_impact() {
    let mut config = create_test_config();
    config.execution.slippage_tolerance = 0;
    let mut executor = DryRunExecutor::new(config).unwrap();
    let mut exec_config = ExecutionConfig::default();
    exec_config.simulate_market_impact = true;
    exec_config.market_impact_factor = SCALE / 10_000;
    executor.set_execution_config(exec_config);

    let order = LimitOrder {
        symbol: "BTCUSDT".to_string(),
        side: OrderSide::Buy,
        quantity: SCALE,
        price: 50_000 * SCALE,
        time_in_force: TimeInForce::GTC,
        client_order_id: None,
    };
    let draws = zero_draws(&order);
    let result = executor.execute_order_with_draws(&order, draws, "imp-1".to_string(), 1).unwrap();
    // impact of one unit at 0.01% per unit moves the buy up by 5 units
    assert_eq!(result.average_price.unwrap(), 50_005 * SCALE);
}

#[test]
fn test_dry_run_with_market_data() {
    let mut config = create_test_config();
    config.execution.slippage_tolerance = 0;
    let mut executor = DryRunExecutor::new(config).unwrap();
    let mut exec_config = ExecutionConfig::default();
    exec_config.enable_fees = false;
    executor.set_execution_config(exec_config);

    let mut book = OrderBook::new("BTCUSDT".to_string(), Exchange::Binance);
    book.update_bid(50_000 * SCALE, SCALE);
    book.update_ask(50_010 * SCALE, SCALE);
    executor.update_market_data(Exchange::Binance, book).unwrap();

    // a buy below the best ask is clamped up to the ask
    let order = LimitOrder {
        symbol: "BTCUSDT".to_string(),
        side: OrderSide::Buy,
        quantity: SCALE / 10,
        price: 49_000 * SCALE,
        time_in_force: TimeInForce::GTC,
        client_order_id: None,
    };
    let draws = zero_draws(&order);
    let result = executor.execute_order_with_draws(&order, draws, "mkt-1".to_string(), 1).unwrap();
    assert_eq!(result.average_price.unwrap(), 50_010 * SCALE);
}

#[test]
fn test_dry_run_performance_metrics() {
    let mut config = create_test_config();
    config.execution.slippage_tolerance = 0;
    let mut executor = DryRunExecutor::new(config).unwrap();

    let order = create_test_order();
    let d = zero_draws(&order);
    executor.execute_order_with_draws(&order, d, "m-1".to_string(), 1).unwrap();
    let order2 = create_test_order();
    let d2 = zero_draws(&order2);
    executor.execute_order_with_draws(&order2, d2, "m-2".to_string(), 2).unwrap();

    let metrics = executor.get_performance_metrics();
    assert_eq!(metrics.total_orders, 2);
    // both orders filled in full: the success rate is one, scaled
    assert_eq!(metrics.success_rate, SCALE);
    // volume: two fills of 0.1 at 50000 -> 10000 units
    assert_eq!(metrics.total_volume, (10_000 * SCALE) as i128);
}

#[test]
fn test_dry_run_post_only_uses_maker_fee() {
    let mut config = create_test_config();
    config.execution.slippage_tolerance = 0;
    let mut executor = DryRunExecutor::new(config).unwrap();
    let mut exec_config = ExecutionConfig::default();
    exec_config.maker_fee = SCALE / 2000;
    exec_config.taker_fee = SCALE / 1000;
    executor.set_execution_config(exec_config);

    let order = LimitOrder {
        symbol: "BTCUSDT".to_string(),
        side: OrderSide::Buy,
        quantity: SCALE / 10,
        price: 50_000 * SCALE,
        time_in_force: TimeInForce::GTX,
        client_order_id: None,
    };
    let draws = zero_draws(&order);
    executor.execute_order_with_draws(&order, draws, "po-1".to_string(), 1).unwrap();
    // notional 5000 units at the 0.05% maker rate -> 2.5 units
    assert_eq!(executor.get_total_fees(), (2 * SCALE + SCALE / 2) as i128);
}
