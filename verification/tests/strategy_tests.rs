//! Strategy tests: detection scenarios, state management, risk scoring
//! and the strategy loop against the simulator.

use cross_exchange_arbitrage::amounts::SCALE;
use cross_exchange_arbitrage::config::ArbitrageConfig;
use cross_exchange_arbitrage::connectors::Exchange;
use cross_exchange_arbitrage::data::OrderBook;
use cross_exchange_arbitrage::strategy::arbitrage::{ArbitrageStrategy, StrategyState};
use cross_exchange_arbitrage::strategy::futures_arbitrage::{
    FuturesArbitrageStrategy, FuturesStrategyState,
};
use cross_exchange_arbitrage::trading::dry_run::DryRunExecutor;

fn create_test_config() -> ArbitrageConfig {
    let mut config = ArbitrageConfig::default();
    config.strategy.symbol = "BTCUSDT".to_string();
    config.strategy.min_spread_bps = 5;
    config.strategy.max_position_size = SCALE;
    config.execution.min_order_size = SCALE / 1000;
    config
}

fn book(exchange: Exchange, bid: Option<(u64, u64)>, ask: Option<(u64, u64)>) -> OrderBook {
    let mut b = OrderBook::new("BTCUSDT".to_string(), exchange);
    if let Some((price, qty)) = bid {
        b.update_bid(price, qty);
    }
    if let Some((price, qty)) = ask {
        b.update_ask(price, qty);
    }
    b
}

#[test]
fn test_arbitrage_strategy_creation() {
    let config = create_test_config();
    let strategy = ArbitrageStrategy::new(config).unwrap();

    assert_eq!(strategy.get_state(), StrategyState::Stopped);

    let stats = strategy.get_statistics();
    assert_eq!(stats.opportunities_detected, 0);
    assert_eq!(stats.opportunities_executed, 0);
}

#[test]
fn arbitrage_test_strategy_state_management() {
    let config = create_test_config();
    let mut strategy = ArbitrageStrategy::new(config).unwrap();

    assert_eq!(strategy.get_state(), StrategyState::Stopped);

    strategy.pause();
    assert_eq!(strategy.get_state(), StrategyState::Paused);

    strategy.resume();
    assert_eq!(strategy.get_state(), StrategyState::Running);

    strategy.stop();
    assert_eq!(strategy.get_state(), StrategyState::Stopped);
}

#[test]
fn test_no_false_positive_when_uncrossed() {
    // book A bid 50000 / ask 50100, book B bid 49900 / ask 50000:
    // neither direction crosses profitably, so nothing is emitted
    let config = create_test_config();
    let mut strategy = ArbitrageStrategy::new(config).unwrap();

    let a = book(
        Exchange::Binance,
        Some((50_000 * SCALE, SCALE)),
        Some((50_100 * SCALE, SCALE)),
    );
    let b = book(
        Exchange::Bybit,
        Some((49_900 * SCALE, SCALE)),
        Some((50_000 * SCALE, SCALE)),
    );
    strategy.update_orderbook(a).unwrap();
    strategy.update_orderbook(b).unwrap();

    let batch = strategy.detect_opportunities().unwrap();
    assert_eq!(batch.len(), 0);
    assert_eq!(strategy.get_statistics().opportunities_detected, 0);
}

#[test]
fn test_single_opportunity_exact_numbers() {
    // book A bid 50100 (one unit), book B ask 50000 (one unit): exactly
    // one opportunity, twenty basis points, one unit, one hundred profit
    let config = create_test_config();
    let mut strategy = ArbitrageStrategy::new(config).unwrap();

    let a = book(Exchange::Binance, Some((50_100 * SCALE, SCALE)), None);
    let b = book(Exchange::Bybit, None, Some((50_000 * SCALE, SCALE)));
    strategy.update_orderbook(a).unwrap();
    strategy.update_orderbook(b).unwrap();

    let batch = strategy.detect_opportunities().unwrap();
    assert_eq!(batch.len(), 1);
    let opp = &batch[0];
    assert_eq!(opp.buy_exchange, Exchange::Bybit);
    assert_eq!(opp.sell_exchange, Exchange::Binance);
    assert_eq!(opp.buy_price, 50_000 * SCALE);
    assert_eq!(opp.sell_price, 50_100 * SCALE);
    assert_eq!(opp.spread_bps, 20);
    assert_eq!(opp.quantity, SCALE);
    assert_eq!(opp.expected_profit, 100 * SCALE);
    assert!(opp.sell_price > opp.buy_price);
    assert_eq!(strategy.get_statistics().opportunities_detected, 1);
    assert_eq!(strategy.get_current_opportunities().len(), 1);
}

#[test]
fn test_min_order_size_boundary() {
    // the raw spread qualifies, but the top-of-book quantity sits below
    // the minimum order size: nothing may be emitted
    let config = create_test_config();
    let mut strategy = ArbitrageStrategy::new(config).unwrap();

    let a = book(Exchange::Binance, Some((50_100 * SCALE, SCALE / 2000)), None);
    let b = book(Exchange::Bybit, None, Some((50_000 * SCALE, SCALE)));
    strategy.update_orderbook(a).unwrap();
    strategy.update_orderbook(b).unwrap();

    let batch = strategy.detect_opportunities().unwrap();
    assert_eq!(batch.len(), 0);
}

#[test]
fn test_quantity_capped_by_position_size() {
    // five units rest on both sides, but the configured maximum is one
    let config = create_test_config();
    let mut strategy = ArbitrageStrategy::new(config).unwrap();

    let a = book(Exchange::Binance, Some((50_100 * SCALE, 5 * SCALE)), None);
    let b = book(Exchange::Bybit, None, Some((50_000 * SCALE, 5 * SCALE)));
    strategy.update_orderbook(a).unwrap();
    strategy.update_orderbook(b).unwrap();

    let batch = strategy.detect_opportunities().unwrap();
    assert_eq!(batch.len(), 1);
    assert_eq!(batch[0].quantity, SCALE);
}

#[test]
fn test_spread_below_minimum_not_emitted() {
    // two basis points of spread against a five-point minimum
    let config = create_test_config();
    let mut strategy = ArbitrageStrategy::new(config).unwrap();

    let a = book(Exchange::Binance, Some((50_010 * SCALE, SCALE)), None);
    let b = book(Exchange::Bybit, None, Some((50_000 * SCALE, SCALE)));
    strategy.update_orderbook(a).unwrap();
    strategy.update_orderbook(b).unwrap();

    let batch = strategy.detect_opportunities().unwrap();
    assert_eq!(batch.len(), 0);
}

#[test]
fn test_execute_opportunity_updates_statistics() {
    let config = create_test_config();
    let mut strategy = ArbitrageStrategy::new(config.clone()).unwrap();
    let mut executor = DryRunExecutor::new(config).unwrap();

    let a = book(Exchange::Binance, Some((50_100 * SCALE, SCALE)), None);
    let b = book(Exchange::Bybit, None, Some((50_000 * SCALE, SCALE)));
    strategy.update_orderbook(a).unwrap();
    strategy.update_orderbook(b).unwrap();

    let batch = strategy.detect_opportunities().unwrap();
    assert_eq!(batch.len(), 1);
    strategy.execute_opportunity(&mut executor, &batch[0]).unwrap();

    let stats = strategy.get_statistics();
    assert_eq!(stats.opportunities_executed, 1);
    assert_eq!(stats.opportunities_detected, 1);
    assert_eq!(stats.total_pnl, (100 * SCALE) as i128);
    assert_eq!(stats.avg_spread_bps, 20);
    assert_eq!(stats.success_rate, 100 * SCALE);
    // both legs reached the simulator
    assert_eq!(executor.get_performance_metrics().total_orders, 2);
}

#[test]
fn test_run_with_executor_stops() {
    let config = create_test_config();
    let mut strategy = ArbitrageStrategy::new(config.clone()).unwrap();
    let mut executor = DryRunExecutor::new(config).unwrap();

    strategy.run_with_executor(&mut executor).unwrap();
    assert_eq!(strategy.get_state(), StrategyState::Stopped);
}

#[test]
fn test_futures_strategy_creation() {
    let config = create_test_config();
    let symbols = vec!["BTCUSDT".to_string(), "ETHUSDT".to_string()];
    let strategy = FuturesArbitrageStrategy::new(config, symbols.clone()).unwrap();

    assert_eq!(strategy.get_state(), FuturesStrategyState::Stopped);
    assert_eq!(strategy.get_active_symbols(), &symbols);
}

#[test]
fn futures_arbitrage_test_strategy_state_management() {
    let config = create_test_config();
    let symbols = vec!["BTCUSDT".to_string()];
    let mut strategy = FuturesArbitrageStrategy::new(config, symbols).unwrap();

    assert_eq!(strategy.get_state(), FuturesStrategyState::Stopped);

    strategy.start().unwrap();
    assert_eq!(strategy.get_state(), FuturesStrategyState::Running);

    strategy.stop().unwrap();
    assert_eq!(strategy.get_state(), FuturesStrategyState::Stopped);
}

#[test]
fn test_risk_score_calculation() {
    let config = create_test_config();
    let symbols = vec!["BTCUSDT".to_string()];
    let strategy = FuturesArbitrageStrategy::new(config, symbols).unwrap();

    // low spread, high quantity: high risk
    let high_risk = strategy.calculate_risk_score(5, 2 * SCALE);
    assert!(high_risk > 50);
    assert_eq!(high_risk, 60);

    // high spread, low quantity: low risk
    let low_risk = strategy.calculate_risk_score(25, SCALE / 10);
    assert!(low_risk < 30);
    assert_eq!(low_risk, 10);
}

#[test]
fn test_futures_detection_maker_sell() {
    // Bybit bid above the Binance ask: the maker sells at Bybit, the
    // taker buys at Binance
    let config = create_test_config();
    let symbols = vec!["BTCUSDT".to_string()];
    let mut strategy = FuturesArbitrageStrategy::new(config, symbols).unwrap();

    let bybit = book(Exchange::Bybit, Some((50_100 * SCALE, SCALE)), None);
    let binance = book(Exchange::Binance, None, Some((50_000 * SCALE, SCALE)));
    strategy.update_orderbook(Exchange::Bybit, bybit).unwrap();
    strategy.update_orderbook(Exchange::Binance, binance).unwrap();

    let batch = strategy.detect_opportunities().unwrap();
    assert_eq!(batch.len(), 1);
    let opp = &batch[0];
    assert_eq!(opp.maker_exchange, Exchange::Bybit);
    assert_eq!(opp.taker_exchange, Exchange::Binance);
    assert_eq!(opp.maker_price, 50_100 * SCALE);
    assert_eq!(opp.taker_price, 50_000 * SCALE);
    assert_eq!(opp.spread_bps, 20);
    assert_eq!(opp.quantity, SCALE);
    assert!(opp.expected_profit > 0);
    assert!(opp.risk_score <= 100);
    // spread 100, rebate 0.025% of 50100, cost 0.04% of 50000:
    // 100 + 12.525 - 20 = 92.525 units
    assert_eq!(opp.expected_profit, 92 * SCALE + 525_000);
}

#[test]
fn test_futures_detection_empty_without_books() {
    let config = create_test_config();
    let symbols = vec!["BTCUSDT".to_string()];
    let mut strategy = FuturesArbitrageStrategy::new(config, symbols).unwrap();
    let batch = strategy.detect_opportunities().unwrap();
    assert_eq!(batch.len(), 0);
}
