//! Cross-venue spot arbitrage: opportunity detection over the aggregated
//! books, execution of both legs through an order executor, and the
//! strategy state machine with its statistics.

use vstd::prelude::*;
use vstd::string::StringExecFns;

use crate::amounts::{
    AMT_LIMIT, MAX_AMT, SCALE, clamp_ledger, in_ledger_range, ledger_add, ledger_clamp, mul_scale,
    spec_mul_scale, spec_spread_bps, spread_bps,
};
use crate::config::ArbitrageConfig;
use crate::connectors::Exchange;
use crate::connectors::traits::{LimitOrder, OrderResponse, OrderSide, TimeInForce};
use crate::data::{MarketDataManager, OrderBook};
use crate::ArbitrageError;

verus! {

/// A detected arbitrage opportunity: buy at one venue, sell at the other.
#[derive(Debug)]
pub struct ArbitrageOpportunity {
    /// Symbol being arbitraged.
    pub symbol: String,
    /// Venue to buy at.
    pub buy_exchange: Exchange,
    /// Venue to sell at.
    pub sell_exchange: Exchange,
    /// Buy price, scaled: the buy venue's best ask.
    pub buy_price: u64,
    /// Sell price, scaled: the sell venue's best bid.
    pub sell_price: u64,
    /// Tradable quantity, scaled.
    pub quantity: u64,
    /// Spread in whole basis points, rounded.
    pub spread_bps: u64,
    /// Expected profit, scaled.
    pub expected_profit: u64,
    /// Detection timestamp, nanoseconds.
    pub timestamp: i64,
}

impl ArbitrageOpportunity {
    /// Prices and quantity are valid market amounts.
    pub open spec fn valid(&self) -> bool {
        1 <= self.buy_price <= MAX_AMT && 1 <= self.sell_price <= MAX_AMT && self.quantity
            <= MAX_AMT
    }

    /// A fieldwise copy.
    pub fn clone_opportunity(&self) -> (c: ArbitrageOpportunity)
        ensures
            c == *self,
    {
        ArbitrageOpportunity {
            symbol: self.symbol.clone(),
            buy_exchange: self.buy_exchange,
            sell_exchange: self.sell_exchange,
            buy_price: self.buy_price,
            sell_price: self.sell_price,
            quantity: self.quantity,
            spread_bps: self.spread_bps,
            expected_profit: self.expected_profit,
            timestamp: self.timestamp,
        }
    }
}

/// Strategy state machine: stopped, running, paused or failed.
#[derive(Debug, Clone, Copy, PartialEq, Eq, Structural)]
pub enum StrategyState {
    /// The strategy is stopped.
    Stopped,
    /// The strategy is running.
    Running,
    /// The strategy is paused.
    Paused,
    /// The strategy failed.
    Error,
}

/// Running statistics of one strategy instance.
#[derive(Debug, Clone, Copy)]
pub struct StrategyStatistics {
    /// Opportunities detected in total.
    pub opportunities_detected: u64,
    /// Opportunities executed in total.
    pub opportunities_executed: u64,
    /// Accumulated expected profit, scaled, saturating.
    pub total_pnl: i128,
    /// Executed over detected, in percent, scaled; zero before any
    /// detection.
    pub success_rate: u64,
    /// Average captured spread in whole basis points, a truncated
    /// running mean.
    pub avg_spread_bps: u64,
    /// Total volume traded, scaled, saturating.
    pub total_volume: i128,
    /// Uptime in seconds.
    pub uptime_seconds: u64,
    /// Timestamp of the last execution, seconds.
    pub last_execution: Option<i64>,
}

impl Default for StrategyStatistics {
    /// All counters zero.
    fn default() -> (r: Self)
        ensures
            r.opportunities_detected == 0,
            r.opportunities_executed == 0,
            r.total_pnl == 0,
            r.success_rate == 0,
            r.avg_spread_bps == 0,
            r.total_volume == 0,
            r.uptime_seconds == 0,
            r.last_execution is None,
    {
        StrategyStatistics {
            opportunities_detected: 0,
            opportunities_executed: 0,
            total_pnl: 0,
            success_rate: 0,
            avg_spread_bps: 0,
            total_volume: 0,
            uptime_seconds: 0,
            last_execution: None,
        }
    }
}

/// The smaller of two scaled amounts.
pub open spec fn spec_min3(a: u64, b: u64, c: u64) -> u64 {
    if a <= b && a <= c {
        a
    } else if b <= c {
        b
    } else {
        c
    }
}

/// What one direction of detection yields, when it yields: buy price,
/// sell price, quantity, rounded spread in basis points, and expected
/// profit, all scaled. Emitted exactly when the sell venue's best bid
/// exceeds the buy venue's best ask, the rounded spread reaches the
/// configured minimum, the tradable quantity (the smaller top-of-book
/// quantity, capped by the maximum position size) reaches the minimum
/// order size, and the expected profit is positive.
pub open spec fn spec_opportunity(
    buy_book: OrderBook,
    sell_book: OrderBook,
    min_spread_bps: u32,
    max_position: u64,
    min_order: u64,
) -> Option<(u64, u64, u64, u64, u64)> {
    match (buy_book.spec_best_ask(), sell_book.spec_best_bid()) {
        (Some(ask), Some(bid)) => {
            if bid > ask {
                let bps = spec_spread_bps(ask as int, bid as int);
                if bps >= min_spread_bps {
                    let qty = spec_min3(
                        buy_book.spec_asks()[0].1,
                        sell_book.spec_bids()[0].1,
                        max_position,
                    );
                    if qty >= min_order {
                        let profit = spec_mul_scale((bid - ask) as int, qty as int);
                        if profit > 0 {
                            Some((ask, bid, qty, bps as u64, profit as u64))
                        } else {
                            None
                        }
                    } else {
                        None
                    }
                } else {
                    None
                }
            } else {
                None
            }
        },
        _ => None,
    }
}

/// Every emitted opportunity sells above its buy price, and its spread
/// field is exactly the rounded basis-point spread of the two prices.
pub proof fn lemma_opportunity_prices(
    buy_book: OrderBook,
    sell_book: OrderBook,
    min_spread_bps: u32,
    max_position: u64,
    min_order: u64,
)
    requires
        buy_book.wf(),
        sell_book.wf(),
    ensures
        spec_opportunity(buy_book, sell_book, min_spread_bps, max_position, min_order) matches Some(
            t,
        ) ==> t.1 > t.0 && t.3 == spec_spread_bps(t.0 as int, t.1 as int) && t.3
            >= min_spread_bps,
{
    if spec_opportunity(buy_book, sell_book, min_spread_bps, max_position, min_order) is Some {
        let ask = buy_book.spec_best_ask()->Some_0;
        let bid = sell_book.spec_best_bid()->Some_0;
        assert(1 <= buy_book.spec_asks()[0].0 <= MAX_AMT);
        assert(1 <= sell_book.spec_bids()[0].0 <= MAX_AMT);
        assert(bid > ask);
        assert(spec_spread_bps(ask as int, bid as int) >= 0) by {
            assert(((bid - ask) * 20_000 + ask) >= 0) by (nonlinear_arith)
                requires
                    bid > ask >= 0,
            ;
            assert(((bid - ask) * 20_000 + ask) / (2 * ask) >= 0) by (nonlinear_arith)
                requires
                    ((bid - ask) * 20_000 + ask) >= 0,
                    ask >= 1,
            ;
        }
        assert(spec_spread_bps(ask as int, bid as int) <= u64::MAX) by {
            assert(((bid - ask) * 20_000 + ask) <= 20_001 * (MAX_AMT as int)) by (nonlinear_arith)
                requires
                    0 <= bid - ask <= MAX_AMT as int,
                    0 <= ask <= MAX_AMT as int,
            ;
            assert(((bid - ask) * 20_000 + ask) / (2 * ask) <= ((bid - ask) * 20_000 + ask)) by (
            nonlinear_arith)
                requires
                    ((bid - ask) * 20_000 + ask) >= 0,
                    ask >= 1,
            ;
        }
    }
}

/// Every emitted opportunity trades at least the minimum order size and
/// at most the maximum position size.
pub proof fn lemma_opportunity_quantity(
    buy_book: OrderBook,
    sell_book: OrderBook,
    min_spread_bps: u32,
    max_position: u64,
    min_order: u64,
)
    ensures
        spec_opportunity(buy_book, sell_book, min_spread_bps, max_position, min_order) matches Some(
            t,
        ) ==> min_order <= t.2 <= max_position,
{
}

/// Detects one direction: buy at the ask of `buy_book`, sell at the bid
/// of `sell_book`.
fn detect_direction(
    buy_book: &OrderBook,
    sell_book: &OrderBook,
    buy_exchange: Exchange,
    sell_exchange: Exchange,
    symbol: &String,
    min_spread_bps: u32,
    max_position: u64,
    min_order: u64,
    timestamp: i64,
) -> (r: Option<ArbitrageOpportunity>)
    requires
        max_position <= MAX_AMT,
    ensures
        (r is Some) == (spec_opportunity(
            *buy_book,
            *sell_book,
            min_spread_bps,
            max_position,
            min_order,
        ) is Some),
        r matches Some(o) ==> (spec_opportunity(
            *buy_book,
            *sell_book,
            min_spread_bps,
            max_position,
            min_order,
        ) matches Some(t) && o.buy_price == t.0 && o.sell_price == t.1 && o.quantity == t.2
            && o.spread_bps == t.3 && o.expected_profit == t.4 && o.symbol@ == symbol@
            && o.buy_exchange == buy_exchange && o.sell_exchange == sell_exchange && o.timestamp
            == timestamp && o.valid()),
{
    let ask_opt = buy_book.best_ask();
    let bid_opt = sell_book.best_bid();
    let ask: u64 = match ask_opt {
        Some(a) => a,
        None => {
            return None;
        },
    };
    let bid: u64 = match bid_opt {
        Some(b) => b,
        None => {
            return None;
        },
    };
    if bid <= ask {
        return None;
    }
    let bps: u64 = spread_bps(ask, bid);
    if bps < (min_spread_bps as u64) {
        proof {
            assert(spec_spread_bps(ask as int, bid as int) < min_spread_bps);
        }
        return None;
    }
    let ask_qty: u64 = match buy_book.best_ask_quantity() {
        Some(q) => q,
        None => 0,
    };
    let bid_qty: u64 = match sell_book.best_bid_quantity() {
        Some(q) => q,
        None => 0,
    };
    let qty: u64 = if ask_qty <= bid_qty && ask_qty <= max_position {
        ask_qty
    } else if bid_qty <= max_position {
        bid_qty
    } else {
        max_position
    };
    if qty < min_order {
        return None;
    }
    proof {
        assert(0 <= ((bid - ask) as int) * (qty as int) <= (MAX_AMT as int) * (MAX_AMT as int))
            by (nonlinear_arith)
            requires
                0 <= (bid - ask) as int <= MAX_AMT as int,
                0 <= qty <= MAX_AMT as int,
        ;
        assert(0 <= ((bid - ask) as int) * (qty as int) / (SCALE as int) <= (MAX_AMT as int) * (
        MAX_AMT as int) / (SCALE as int)) by (nonlinear_arith)
            requires
                0 <= ((bid - ask) as int) * (qty as int) <= (MAX_AMT as int) * (MAX_AMT as int),
                SCALE as int >= 1,
        ;
    }
    let profit: u64 = mul_scale(bid - ask, qty);
    if profit == 0 {
        return None;
    }
    Some(
        ArbitrageOpportunity {
            symbol: symbol.clone(),
            buy_exchange,
            sell_exchange,
            buy_price: ask,
            sell_price: bid,
            quantity: qty,
            spread_bps: bps,
            expected_profit: profit,
            timestamp,
        },
    )
}


/// The statistics movement one executed opportunity causes: the executed
/// count steps (saturating), the detected count is lifted to it if ever
/// behind, the expected profit and the buy-side notional are accumulated
/// with saturation, the average captured spread folds in as a truncated
/// running mean, the success rate is executed over detected in scaled
/// percent, and a last-execution timestamp is recorded.
pub open spec fn spec_executed_stats(
    post: StrategyStatistics,
    pre: StrategyStatistics,
    o: ArbitrageOpportunity,
) -> bool {
    let executed: int = if pre.opportunities_executed < u64::MAX {
        pre.opportunities_executed + 1
    } else {
        u64::MAX as int
    };
    let detected: int = if pre.opportunities_detected >= executed {
        pre.opportunities_detected as int
    } else {
        executed
    };
    &&& post.opportunities_executed == executed
    &&& post.opportunities_detected == detected
    &&& post.total_pnl == clamp_ledger(
        pre.total_pnl + clamp_ledger(o.expected_profit as int),
    )
    &&& post.total_volume == clamp_ledger(
        pre.total_volume + spec_mul_scale(o.quantity as int, o.buy_price as int),
    )
    &&& post.last_execution is Some
    &&& post.avg_spread_bps == crate::amounts::spec_running_mean(
        pre.avg_spread_bps as int,
        o.spread_bps as int,
        executed,
    )
    &&& post.success_rate == executed * 100 * (SCALE as int) / detected
    &&& post.uptime_seconds == pre.uptime_seconds
}

/// An order executor a strategy can drive: the dry-run simulator or the
/// live coordinator.
pub trait StrategyExecutor {
    /// The executor's own well-formedness, preserved by execution.
    spec fn exec_wf(&self) -> bool;

    /// Executes one order at a venue.
    fn execute_order(&mut self, exchange: Exchange, order: LimitOrder) -> (r: Result<
        OrderResponse,
        ArbitrageError,
    >)
        requires
            old(self).exec_wf(),
            order.valid(),
        ensures
            final(self).exec_wf(),
    ;
}

impl StrategyExecutor for crate::trading::dry_run::DryRunExecutor {
    /// The simulator's well-formedness.
    open spec fn exec_wf(&self) -> bool {
        self.wf()
    }

    /// Simulated execution; the venue is implicit in the simulation.
    fn execute_order(&mut self, exchange: Exchange, order: LimitOrder) -> (r: Result<
        OrderResponse,
        ArbitrageError,
    >) {
        let _ = exchange;
        crate::trading::dry_run::DryRunExecutor::execute_order(self, order)
    }
}

impl<C: crate::connectors::traits::ExchangeConnector> StrategyExecutor
    for crate::trading::live_trading::LiveTradingExecutor<C> {
    /// The coordinator's well-formedness.
    open spec fn exec_wf(&self) -> bool {
        self.wf()
    }

    /// Live placement through the venue link, behind the risk check.
    fn execute_order(&mut self, exchange: Exchange, order: LimitOrder) -> (r: Result<
        OrderResponse,
        ArbitrageError,
    >) {
        self.place_order(exchange, order)
    }
}

/// The cross-venue spot arbitrage strategy: owns the market-data
/// aggregator, the current opportunity list, the state machine and the
/// statistics.
pub struct ArbitrageStrategy {
    config: ArbitrageConfig,
    market_data: MarketDataManager,
    state: StrategyState,
    statistics: StrategyStatistics,
    opportunities: Vec<ArbitrageOpportunity>,
    start_time_secs: i64,
}

impl ArbitrageStrategy {
    /// Well-formedness: configuration in range and statistics consistent.
    pub open spec fn wf(&self) -> bool {
        self.spec_config().spec_bounds_ok() && self.spec_statistics().opportunities_executed
            <= self.spec_statistics().opportunities_detected && in_ledger_range(
            self.spec_statistics().total_pnl,
        ) && in_ledger_range(self.spec_statistics().total_volume)
            && self.spec_statistics().success_rate <= 100 * SCALE
    }

    /// The configuration, as a specification value.
    pub closed spec fn spec_config(&self) -> ArbitrageConfig {
        self.config
    }

    /// The aggregated books, as a specification value.
    pub closed spec fn spec_market(&self) -> MarketDataManager {
        self.market_data
    }

    /// The strategy state.
    pub closed spec fn spec_state(&self) -> StrategyState {
        self.state
    }

    /// The statistics, as a specification value.
    pub closed spec fn spec_statistics(&self) -> StrategyStatistics {
        self.statistics
    }

    /// The current opportunity list, as a specification value.
    pub closed spec fn spec_opportunities(&self) -> Seq<ArbitrageOpportunity> {
        self.opportunities@
    }

    /// A fresh, stopped strategy with empty books and zeroed statistics.
    pub fn new(config: ArbitrageConfig) -> (r: Result<ArbitrageStrategy, ArbitrageError>)
        requires
            config.spec_bounds_ok(),
        ensures
            r is Ok,
            r matches Ok(s) ==> s.wf() && s.spec_config() == config && s.spec_state()
                is Stopped && s.spec_statistics().opportunities_detected == 0 && s
                .spec_statistics().opportunities_executed == 0 && s.spec_opportunities() == Seq::<
                ArbitrageOpportunity,
            >::empty(),
    {
        let s = ArbitrageStrategy {
            config,
            market_data: MarketDataManager::new(16),
            state: StrategyState::Stopped,
            statistics: StrategyStatistics::default(),
            opportunities: Vec::new(),
            start_time_secs: crate::runtime::now_secs(),
        };
        proof {
            assert(s.spec_opportunities() =~= Seq::<ArbitrageOpportunity>::empty());
        }
        Ok(s)
    }

    /// Ingests a fresh pair of demonstration books around a randomly
    /// drawn base price: the Binance ask sits below the Bybit bid, so a
    /// detection pass can find work.
    pub fn update_market_data(&mut self) -> (r: Result<(), ArbitrageError>)
        requires
            old(self).wf(),
        ensures
            final(self).wf(),
            r is Ok,
            final(self).spec_config() == old(self).spec_config(),
            final(self).spec_state() == old(self).spec_state(),
            final(self).spec_statistics() == old(self).spec_statistics(),
            final(self).spec_opportunities() == old(self).spec_opportunities(),
            final(self).spec_market().spec_get(
                Exchange::Binance,
                old(self).spec_config().strategy.symbol@,
            ) is Some,
            final(self).spec_market().spec_get(
                Exchange::Bybit,
                old(self).spec_config().strategy.symbol@,
            ) is Some,
    {
        let base: u64 = crate::runtime::rand_between(49_500 * SCALE, 50_500 * SCALE);
        let symbol: String = self.config.strategy.symbol.clone();
        let now: i64 = crate::runtime::now_nanos();

        let mut binance_book = OrderBook::new(symbol.clone(), Exchange::Binance);
        binance_book.update_bid(base - 10 * SCALE, SCALE);
        binance_book.update_ask(base + 5 * SCALE, SCALE);
        binance_book.set_timestamp(now);

        let mut bybit_book = OrderBook::new(symbol.clone(), Exchange::Bybit);
        bybit_book.update_bid(base + 15 * SCALE, SCALE);
        bybit_book.update_ask(base + 25 * SCALE, SCALE);
        bybit_book.set_timestamp(now);

        self.market_data.update_book(binance_book);
        self.market_data.update_book(bybit_book);
        Ok(())
    }

    /// Caches a fresh order book in the aggregator, replacing the stored
    /// book for its key.
    pub fn update_orderbook(&mut self, orderbook: OrderBook) -> (r: Result<(), ArbitrageError>)
        requires
            old(self).wf(),
        ensures
            final(self).wf(),
            r is Ok,
            final(self).spec_config() == old(self).spec_config(),
            final(self).spec_state() == old(self).spec_state(),
            final(self).spec_statistics() == old(self).spec_statistics(),
            final(self).spec_opportunities() == old(self).spec_opportunities(),
            final(self).spec_market().spec_get(
                orderbook.spec_exchange(),
                orderbook.spec_symbol(),
            ) == Some(orderbook),
            forall|ex: Exchange, sym: Seq<char>|
                !(ex == orderbook.spec_exchange() && sym == orderbook.spec_symbol())
                    ==> #[trigger] final(self).spec_market().spec_get(ex, sym) == old(
                    self,
                ).spec_market().spec_get(ex, sym),
    {
        self.market_data.update_book(orderbook);
        Ok(())
    }

    /// One detection pass over the configured symbol: evaluates both
    /// directions independently, replaces the current opportunity list
    /// with the fresh batch, and counts the batch as detected.
    pub fn detect_opportunities(&mut self) -> (r: Result<Vec<ArbitrageOpportunity>, ArbitrageError>)
        requires
            old(self).wf(),
        ensures
            final(self).wf(),
            r is Ok,
            final(self).spec_config() == old(self).spec_config(),
            final(self).spec_state() == old(self).spec_state(),
            final(self).spec_market() == old(self).spec_market(),
            final(self).spec_statistics().opportunities_executed == old(
                self,
            ).spec_statistics().opportunities_executed,
            final(self).spec_statistics().total_pnl == old(self).spec_statistics().total_pnl,
            final(self).spec_statistics().total_volume == old(
                self,
            ).spec_statistics().total_volume,
            final(self).spec_statistics().success_rate == old(
                self,
            ).spec_statistics().success_rate,
            final(self).spec_statistics().avg_spread_bps == old(
                self,
            ).spec_statistics().avg_spread_bps,
            final(self).spec_statistics().uptime_seconds == old(
                self,
            ).spec_statistics().uptime_seconds,
            final(self).spec_statistics().last_execution == old(
                self,
            ).spec_statistics().last_execution,
            r matches Ok(batch) ==> {
                let sym = old(self).spec_config().strategy.symbol@;
                let b1 = old(self).spec_market().spec_get(Exchange::Binance, sym);
                let b2 = old(self).spec_market().spec_get(Exchange::Bybit, sym);
                let cfg = old(self).spec_config();
                &&& batch@.len() <= 2
                &&& final(self).spec_opportunities().len() == batch@.len()
                &&& (forall|k: int|
                    0 <= k < batch@.len() ==> #[trigger] final(self).spec_opportunities()[k]
                        == batch@[k])
                &&& (b1 is None || b2 is None ==> batch@.len() == 0)
                &&& (b1 matches Some(bin) ==> b2 matches Some(byb) ==> {
                    let d1 = spec_opportunity(
                        bin,
                        byb,
                        cfg.strategy.min_spread_bps,
                        cfg.strategy.max_position_size,
                        cfg.execution.min_order_size,
                    );
                    let d2 = spec_opportunity(
                        byb,
                        bin,
                        cfg.strategy.min_spread_bps,
                        cfg.strategy.max_position_size,
                        cfg.execution.min_order_size,
                    );
                    &&& batch@.len() == (if d1 is Some { 1int } else { 0int }) + (if d2 is Some {
                        1int
                    } else {
                        0int
                    })
                    &&& (d1 matches Some(t) ==> batch@[0].buy_exchange is Binance && batch@[0]
                        .sell_exchange is Bybit && batch@[0].buy_price == t.0 && batch@[0]
                        .sell_price == t.1 && batch@[0].quantity == t.2 && batch@[0].spread_bps
                        == t.3 && batch@[0].expected_profit == t.4 && batch@[0].symbol@ == sym
                        && batch@[0].valid())
                    &&& (d2 matches Some(t) ==> {
                        let k = if d1 is Some { 1int } else { 0int };
                        batch@[k].buy_exchange is Bybit && batch@[k].sell_exchange is Binance
                            && batch@[k].buy_price == t.0 && batch@[k].sell_price == t.1
                            && batch@[k].quantity == t.2 && batch@[k].spread_bps == t.3
                            && batch@[k].expected_profit == t.4 && batch@[k].symbol@ == sym
                            && batch@[k].valid()
                    })
                })
                &&& final(self).spec_statistics().opportunities_detected == (if old(
                    self,
                ).spec_statistics().opportunities_detected + batch@.len() <= u64::MAX {
                    old(self).spec_statistics().opportunities_detected + batch@.len()
                } else {
                    u64::MAX as int
                })
            },
    {
        let symbol: String = self.config.strategy.symbol.clone();
        let binance_book = self.market_data.get_orderbook(Exchange::Binance, symbol.as_str());
        let bybit_book = self.market_data.get_orderbook(Exchange::Bybit, symbol.as_str());
        let mut batch: Vec<ArbitrageOpportunity> = Vec::new();
        match (binance_book, bybit_book) {
            (Some(bin), Some(byb)) => {
                proof {
                    let c1 = self.market_data.spec_get(Exchange::Binance, symbol@)->Some_0;
                    let c2 = self.market_data.spec_get(Exchange::Bybit, symbol@)->Some_0;
                    let m = self.config.strategy.min_spread_bps;
                    let mx = self.config.strategy.max_position_size;
                    let mn = self.config.execution.min_order_size;
                    assert(spec_opportunity(bin, byb, m, mx, mn) == spec_opportunity(
                        c1,
                        c2,
                        m,
                        mx,
                        mn,
                    ));
                    assert(spec_opportunity(byb, bin, m, mx, mn) == spec_opportunity(
                        c2,
                        c1,
                        m,
                        mx,
                        mn,
                    ));
                }
                let now: i64 = crate::runtime::now_nanos();
                let d1 = detect_direction(
                    &bin,
                    &byb,
                    Exchange::Binance,
                    Exchange::Bybit,
                    &symbol,
                    self.config.strategy.min_spread_bps,
                    self.config.strategy.max_position_size,
                    self.config.execution.min_order_size,
                    now,
                );
                match d1 {
                    Some(o) => {
                        batch.push(o);
                    },
                    None => {},
                }
                let d2 = detect_direction(
                    &byb,
                    &bin,
                    Exchange::Bybit,
                    Exchange::Binance,
                    &symbol,
                    self.config.strategy.min_spread_bps,
                    self.config.strategy.max_position_size,
                    self.config.execution.min_order_size,
                    now,
                );
                match d2 {
                    Some(o) => {
                        batch.push(o);
                    },
                    None => {},
                }
            },
            _ => {},
        }
        // count the batch and replace the current list
        let batch_len: u64 = batch.len() as u64;
        let detected: u64 = if self.statistics.opportunities_detected
            <= u64::MAX - batch_len {
            self.statistics.opportunities_detected + batch_len
        } else {
            u64::MAX
        };
        self.statistics.opportunities_detected = detected;
        let mut stored: Vec<ArbitrageOpportunity> = Vec::new();
        let n: usize = batch.len();
        let mut i: usize = 0;
        while i < n
            invariant
                i <= n,
                n == batch@.len(),
                stored@.len() == i,
                forall|k: int| 0 <= k < i ==> #[trigger] stored@[k] == batch@[k],
            decreases n - i,
        {
            stored.push(batch[i].clone_opportunity());
            i = i + 1;
        }
        self.opportunities = stored;
        Ok(batch)
    }

    /// Executes both legs of an opportunity through the executor: the buy
    /// leg at the buy venue, the sell leg at the sell venue. A failed leg
    /// is surfaced by which leg failed; a success updates the execution
    /// statistics.
    pub fn execute_opportunity<T: StrategyExecutor>(
        &mut self,
        executor: &mut T,
        opportunity: &ArbitrageOpportunity,
    ) -> (r: Result<(), ArbitrageError>)
        requires
            old(self).wf(),
            old(executor).exec_wf(),
            opportunity.valid(),
        ensures
            final(self).wf(),
            final(executor).exec_wf(),
            final(self).spec_config() == old(self).spec_config(),
            final(self).spec_state() == old(self).spec_state(),
            final(self).spec_opportunities() == old(self).spec_opportunities(),
            r is Err ==> final(self).spec_statistics() == old(self).spec_statistics(),
            r is Ok ==> spec_executed_stats(
                final(self).spec_statistics(),
                old(self).spec_statistics(),
                *opportunity,
            ),
    {
        let buy_id: String = String::from_str("arb_buy_").concat(
            crate::runtime::fresh_order_id().as_str(),
        );
        let sell_id: String = String::from_str("arb_sell_").concat(
            crate::runtime::fresh_order_id().as_str(),
        );
        let buy_order = LimitOrder {
            symbol: opportunity.symbol.clone(),
            side: OrderSide::Buy,
            quantity: opportunity.quantity,
            price: opportunity.buy_price,
            time_in_force: TimeInForce::GTC,
            client_order_id: Some(buy_id),
        };
        let sell_order = LimitOrder {
            symbol: opportunity.symbol.clone(),
            side: OrderSide::Sell,
            quantity: opportunity.quantity,
            price: opportunity.sell_price,
            time_in_force: TimeInForce::GTC,
            client_order_id: Some(sell_id),
        };
        let buy_result = executor.execute_order(opportunity.buy_exchange, buy_order);
        let sell_result = executor.execute_order(opportunity.sell_exchange, sell_order);
        match (buy_result, sell_result) {
            (Ok(_), Ok(_)) => {
                self.record_success(opportunity);
                Ok(())
            },
            (Err(buy_error), Ok(_)) => Err(buy_error),
            (Ok(_), Err(sell_error)) => Err(sell_error),
            (Err(buy_error), Err(_)) => Err(buy_error),
        }
    }

    /// Folds one executed opportunity into the statistics.
    fn record_success(&mut self, opportunity: &ArbitrageOpportunity)
        requires
            old(self).wf(),
            opportunity.valid(),
        ensures
            final(self).wf(),
            final(self).spec_config() == old(self).spec_config(),
            final(self).spec_state() == old(self).spec_state(),
            final(self).spec_opportunities() == old(self).spec_opportunities(),
            spec_executed_stats(
                final(self).spec_statistics(),
                old(self).spec_statistics(),
                *opportunity,
            ),
    {
        let executed: u64 = if self.statistics.opportunities_executed < u64::MAX {
            self.statistics.opportunities_executed + 1
        } else {
            u64::MAX
        };
        let detected: u64 = if self.statistics.opportunities_detected >= executed {
            self.statistics.opportunities_detected
        } else {
            executed
        };
        self.statistics.opportunities_executed = executed;
        self.statistics.opportunities_detected = detected;
        self.statistics.total_pnl = ledger_add(
            self.statistics.total_pnl,
            ledger_clamp(opportunity.expected_profit as i128),
        );
        proof {
            assert(0 <= (opportunity.quantity as int) * (opportunity.buy_price as int) <= (
            MAX_AMT as int) * (MAX_AMT as int)) by (nonlinear_arith)
                requires
                    0 <= opportunity.quantity <= MAX_AMT as int,
                    0 <= opportunity.buy_price <= MAX_AMT as int,
            ;
            assert(0 <= (opportunity.quantity as int) * (opportunity.buy_price as int) / (
            SCALE as int) <= (MAX_AMT as int) * (MAX_AMT as int) / (SCALE as int)) by (
            nonlinear_arith)
                requires
                    0 <= (opportunity.quantity as int) * (opportunity.buy_price as int) <= (
                    MAX_AMT as int) * (MAX_AMT as int),
                    SCALE as int >= 1,
            ;
        }
        let notional: u64 = mul_scale(opportunity.quantity, opportunity.buy_price);
        self.statistics.total_volume = ledger_add(
            self.statistics.total_volume,
            notional as i128,
        );
        self.statistics.last_execution = Some(crate::runtime::now_secs());
        self.statistics.avg_spread_bps = crate::amounts::running_mean(
            self.statistics.avg_spread_bps,
            opportunity.spread_bps,
            executed,
        );
        let succ: u64 = executed;
        let den: u64 = detected;
        proof {
            assert((succ as int) * 100 * (SCALE as int) >= 0 && (succ as int) * 100 * (
            SCALE as int) <= (den as int) * 100 * (SCALE as int)) by (nonlinear_arith)
                requires
                    0 <= succ <= den as int,
                    SCALE as int >= 1,
            ;
            assert(0 <= (succ as int) * 100 * (SCALE as int) / (den as int) <= (den as int) * 100
                * (SCALE as int) / (den as int)) by (nonlinear_arith)
                requires
                    0 <= (succ as int) * 100 * (SCALE as int) <= (den as int) * 100 * (
                    SCALE as int),
                    den as int >= 1,
            ;
            assert((den as int) * 100 * (SCALE as int) / (den as int) == 100 * (SCALE as int)) by (
            nonlinear_arith)
                requires
                    den as int >= 1,
            ;
        }
        let num: u128 = (succ as u128) * 100u128 * (SCALE as u128);
        self.statistics.success_rate = (num / (den as u128)) as u64;
    }

    /// Whether the strategy is running.
    pub fn is_running(&self) -> (r: bool)
        ensures
            r == (self.spec_state() is Running),
    {
        match self.state {
            StrategyState::Running => true,
            _ => false,
        }
    }

    /// Runs the strategy loop against an executor: while running, each
    /// tick ingests fresh market data, detects opportunities and attempts
    /// both legs of every one; a failed leg is tolerated. The
    /// demonstration loop stops itself after ten ticks.
    pub fn run_with_executor<T: StrategyExecutor>(&mut self, executor: &mut T) -> (r: Result<
        (),
        ArbitrageError,
    >)
        requires
            old(self).wf(),
            old(executor).exec_wf(),
        ensures
            final(self).wf(),
            final(executor).exec_wf(),
            r is Ok,
            final(self).spec_state() is Stopped,
            final(self).spec_config() == old(self).spec_config(),
    {
        self.state = StrategyState::Running;
        let mut iteration: u64 = 0;
        while iteration < 10 && self.is_running_internal()
            invariant
                iteration <= 10,
                self.wf(),
                executor.exec_wf(),
                self.spec_config() == old(self).spec_config(),
            decreases 10 - iteration,
        {
            iteration = iteration + 1;
            let _ = self.update_market_data();
            let batch = match self.detect_opportunities() {
                Ok(batch) => batch,
                Err(_) => Vec::new(),
            };
            let n: usize = batch.len();
            let mut i: usize = 0;
            while i < n
                invariant
                    i <= n,
                    n == batch@.len(),
                    self.wf(),
                    executor.exec_wf(),
                    self.spec_config() == old(self).spec_config(),
                decreases n - i,
            {
                if batch[i].check_valid_opportunity() {
                    let _ = self.execute_opportunity(executor, &batch[i]);
                }
                i = i + 1;
            }
            self.update_statistics();
        }
        self.state = StrategyState::Stopped;
        Ok(())
    }

    /// Whether the strategy is running; private twin used by the loop.
    fn is_running_internal(&self) -> (r: bool)
        ensures
            r == (self.spec_state() is Running),
    {
        match self.state {
            StrategyState::Running => true,
            _ => false,
        }
    }

    /// Refreshes the uptime.
    fn update_statistics(&mut self)
        requires
            old(self).wf(),
        ensures
            final(self).wf(),
            final(self).spec_config() == old(self).spec_config(),
            final(self).spec_state() == old(self).spec_state(),
            final(self).spec_opportunities() == old(self).spec_opportunities(),
    {
        let now: i64 = crate::runtime::now_secs();
        let diff: i128 = (now as i128) - (self.start_time_secs as i128);
        let uptime: u64 = if 0 < diff && diff <= (u64::MAX as i128) {
            diff as u64
        } else {
            0
        };
        self.statistics.uptime_seconds = uptime;
    }

    /// The statistics.
    pub fn get_statistics(&self) -> (r: StrategyStatistics)
        ensures
            r == self.spec_statistics(),
    {
        self.statistics
    }

    /// The current opportunity list, as a copy.
    pub fn get_current_opportunities(&self) -> (r: Vec<ArbitrageOpportunity>)
        ensures
            r@.len() == self.spec_opportunities().len(),
            forall|k: int|
                0 <= k < r@.len() ==> #[trigger] r@[k] == self.spec_opportunities()[k],
    {
        let n: usize = self.opportunities.len();
        let mut out: Vec<ArbitrageOpportunity> = Vec::new();
        let mut i: usize = 0;
        while i < n
            invariant
                i <= n,
                n == self.opportunities@.len(),
                out@.len() == i,
                forall|k: int| 0 <= k < i ==> #[trigger] out@[k] == self.opportunities@[k],
            decreases n - i,
        {
            out.push(self.opportunities[i].clone_opportunity());
            i = i + 1;
        }
        out
    }

    /// Stops the strategy.
    pub fn stop(&mut self)
        ensures
            final(self).spec_state() is Stopped,
            final(self).spec_config() == old(self).spec_config(),
            final(self).spec_statistics() == old(self).spec_statistics(),
            final(self).wf() == old(self).wf(),
    {
        self.state = StrategyState::Stopped;
    }

    /// Pauses the strategy.
    pub fn pause(&mut self)
        ensures
            final(self).spec_state() is Paused,
            final(self).spec_config() == old(self).spec_config(),
            final(self).spec_statistics() == old(self).spec_statistics(),
            final(self).wf() == old(self).wf(),
    {
        self.state = StrategyState::Paused;
    }

    /// Resumes the strategy.
    pub fn resume(&mut self)
        ensures
            final(self).spec_state() is Running,
            final(self).spec_config() == old(self).spec_config(),
            final(self).spec_statistics() == old(self).spec_statistics(),
            final(self).wf() == old(self).wf(),
    {
        self.state = StrategyState::Running;
    }

    /// The strategy state.
    pub fn get_state(&self) -> (r: StrategyState)
        ensures
            r == self.spec_state(),
    {
        self.state
    }
}

impl ArbitrageOpportunity {
    /// Runtime check matching [`ArbitrageOpportunity::valid`].
    pub fn check_valid_opportunity(&self) -> (r: bool)
        ensures
            r == self.valid(),
    {
        1 <= self.buy_price && self.buy_price <= MAX_AMT && 1 <= self.sell_price
            && self.sell_price <= MAX_AMT && self.quantity <= MAX_AMT
    }
}

} // verus!
