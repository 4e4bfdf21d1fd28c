//! Maker/taker futures arbitrage: rest a post-only maker order at one
//! venue and hedge at once with a taker order at the other, earning the
//! maker rebate on top of the captured spread.

use vstd::prelude::*;
use vstd::string::StringExecFns;

use crate::amounts::{
    AMT_LIMIT, MAX_AMT, SCALE, clamp_ledger, in_ledger_range, ledger_add, ledger_clamp, mul_scale,
    spec_mul_scale, spec_spread_bps, spread_bps,
};
use crate::config::ArbitrageConfig;
use crate::connectors::Exchange;
use crate::connectors::futures::{
    FuturesConnector, FuturesOrder, FuturesOrderType, FuturesTimeInForce, MarkPrice, PositionSide,
};
use crate::connectors::traits::OrderSide;
use crate::data::{MarketDataManager, OrderBook};
use crate::ArbitrageError;

verus! {

/// The maker rebate earned at the maker venue, scaled: a negative fee.
pub const MAKER_FEE_RATE: i64 = -250;

/// The taker fee paid at the taker venue, scaled.
pub const TAKER_FEE_RATE: i64 = 400;

/// A detected maker/taker futures opportunity.
#[derive(Debug)]
pub struct FuturesArbitrageOpportunity {
    /// Symbol.
    pub symbol: String,
    /// Venue taking the maker side.
    pub maker_exchange: Exchange,
    /// Venue taking the taker side.
    pub taker_exchange: Exchange,
    /// What the maker leg does.
    pub maker_side: OrderSide,
    /// What the taker leg does.
    pub taker_side: OrderSide,
    /// Maker limit price, scaled.
    pub maker_price: u64,
    /// Taker price, scaled.
    pub taker_price: u64,
    /// Tradable quantity, scaled.
    pub quantity: u64,
    /// Spread in whole basis points, rounded.
    pub spread_bps: u64,
    /// Expected profit including fees, scaled.
    pub expected_profit: u64,
    /// Maker fee rate, scaled, negative: a rebate.
    pub maker_fee: i64,
    /// Taker fee rate, scaled.
    pub taker_fee: i64,
    /// Risk score between zero and one hundred.
    pub risk_score: u64,
    /// Detection timestamp, nanoseconds.
    pub timestamp: i64,
}

impl FuturesArbitrageOpportunity {
    /// Prices and quantity are valid market amounts.
    pub open spec fn valid(&self) -> bool {
        1 <= self.maker_price <= MAX_AMT && 1 <= self.taker_price <= MAX_AMT && self.quantity
            <= MAX_AMT
    }

    /// A fieldwise copy.
    pub fn clone_opportunity(&self) -> (c: FuturesArbitrageOpportunity)
        ensures
            c == *self,
    {
        FuturesArbitrageOpportunity {
            symbol: self.symbol.clone(),
            maker_exchange: self.maker_exchange,
            taker_exchange: self.taker_exchange,
            maker_side: self.maker_side,
            taker_side: self.taker_side,
            maker_price: self.maker_price,
            taker_price: self.taker_price,
            quantity: self.quantity,
            spread_bps: self.spread_bps,
            expected_profit: self.expected_profit,
            maker_fee: self.maker_fee,
            taker_fee: self.taker_fee,
            risk_score: self.risk_score,
            timestamp: self.timestamp,
        }
    }
}

/// Futures strategy state machine.
#[derive(Debug, Clone, Copy, PartialEq, Eq, Structural)]
pub enum FuturesStrategyState {
    /// Stopped.
    Stopped,
    /// Running.
    Running,
    /// Paused.
    Paused,
    /// Failed.
    Error,
}

/// Running statistics of the futures strategy.
#[derive(Debug, Clone, Copy)]
pub struct FuturesArbitrageStats {
    /// Opportunities detected in total.
    pub opportunities_detected: u64,
    /// Opportunities executed in total.
    pub opportunities_executed: u64,
    /// Accumulated expected profit, scaled, saturating.
    pub total_pnl: i128,
    /// Maker rebates earned, scaled, saturating.
    pub total_maker_rebates: i128,
    /// Taker fees paid, scaled, saturating.
    pub total_taker_fees: i128,
    /// Executed over detected, in percent, scaled.
    pub success_rate: u64,
    /// Average captured spread in whole basis points, a truncated
    /// running mean.
    pub avg_spread_bps: u64,
    /// Total volume traded, scaled, saturating.
    pub total_volume: i128,
    /// Uptime in seconds.
    pub uptime_seconds: u64,
    /// Timestamp of the last execution, seconds.
    pub last_execution: Option<i64>,
}

impl Default for FuturesArbitrageStats {
    /// All counters zero.
    fn default() -> (r: Self)
        ensures
            r.opportunities_detected == 0,
            r.opportunities_executed == 0,
            r.total_pnl == 0,
            r.total_maker_rebates == 0,
            r.total_taker_fees == 0,
            r.success_rate == 0,
            r.avg_spread_bps == 0,
            r.total_volume == 0,
            r.uptime_seconds == 0,
            r.last_execution is None,
    {
        FuturesArbitrageStats {
            opportunities_detected: 0,
            opportunities_executed: 0,
            total_pnl: 0,
            total_maker_rebates: 0,
            total_taker_fees: 0,
            success_rate: 0,
            avg_spread_bps: 0,
            total_volume: 0,
            uptime_seconds: 0,
            last_execution: None,
        }
    }
}

/// The risk score of an opportunity: a penalty of thirty for a spread
/// under ten basis points or fifteen under twenty, a penalty of twenty
/// for a quantity above one unit or ten above half a unit, and a fixed
/// volatility penalty of ten, clamped to one hundred.
pub open spec fn spec_risk_score(bps: int, quantity: int) -> int {
    let spread_penalty: int = if bps < 10 {
        30
    } else if bps < 20 {
        15
    } else {
        0
    };
    let size_penalty: int = if quantity > SCALE {
        20
    } else if quantity > SCALE / 2 {
        10
    } else {
        0
    };
    let raw = spread_penalty + size_penalty + 10;
    if raw > 100 {
        100
    } else {
        raw
    }
}

/// An emitted futures opportunity is sound against a configuration: its
/// two prices cross in the maker side's favour, its spread field is the
/// rounded spread of the two prices and reaches the configured minimum,
/// its quantity sits between the minimum order size and the maximum
/// position size, its expected profit is positive and its risk score is
/// at most one hundred.
pub open spec fn spec_futures_opp_sound(
    o: FuturesArbitrageOpportunity,
    min_spread_bps: u32,
    max_position: u64,
    min_order: u64,
) -> bool {
    let low: u64 = if o.maker_side is Sell {
        o.taker_price
    } else {
        o.maker_price
    };
    let high: u64 = if o.maker_side is Sell {
        o.maker_price
    } else {
        o.taker_price
    };
    &&& high > low
    &&& o.spread_bps == spec_spread_bps(low as int, high as int)
    &&& o.spread_bps >= min_spread_bps
    &&& min_order <= o.quantity <= max_position
    &&& o.expected_profit > 0
    &&& o.expected_profit as int == spec_mul_scale((high - low) as int, o.quantity as int)
        + spec_mul_scale(spec_mul_scale(o.maker_price as int, o.quantity as int), 250)
        - spec_mul_scale(spec_mul_scale(o.taker_price as int, o.quantity as int), 400)
    &&& o.risk_score == spec_risk_score(o.spread_bps as int, o.quantity as int)
    &&& o.risk_score <= 100
    &&& (o.maker_side is Sell <==> o.taker_side is Buy)
    &&& o.maker_fee == MAKER_FEE_RATE
    &&& o.taker_fee == TAKER_FEE_RATE
    &&& o.valid()
}



/// The symbol is one of the monitored symbols.
pub open spec fn spec_symbol_monitored(sym: Seq<char>, symbols: Seq<String>) -> bool {
    exists|si: int| 0 <= si < symbols.len() && #[trigger] symbols[si]@ == sym
}

/// The statistics movement one executed futures opportunity causes: the
/// executed count steps (saturating), the detected count is lifted to it
/// if ever behind, the expected profit, the maker rebate, the taker fee
/// and the maker-side notional are accumulated with saturation, the
/// average captured spread folds in as a truncated running mean, the
/// success rate is executed over detected in scaled percent, and a
/// last-execution timestamp is recorded.
pub open spec fn spec_futures_executed_stats(
    post: FuturesArbitrageStats,
    pre: FuturesArbitrageStats,
    o: FuturesArbitrageOpportunity,
) -> bool {
    let executed: int = if pre.opportunities_executed < u64::MAX {
        pre.opportunities_executed + 1
    } else {
        u64::MAX as int
    };
    let detected: int = if pre.opportunities_detected >= executed {
        pre.opportunities_detected as int
    } else {
        executed
    };
    let maker_notional: int = spec_mul_scale(o.maker_price as int, o.quantity as int);
    let taker_notional: int = spec_mul_scale(o.taker_price as int, o.quantity as int);
    &&& post.opportunities_executed == executed
    &&& post.opportunities_detected == detected
    &&& post.total_pnl == clamp_ledger(pre.total_pnl + clamp_ledger(o.expected_profit as int))
    &&& post.total_maker_rebates == clamp_ledger(
        pre.total_maker_rebates + spec_mul_scale(maker_notional, 250),
    )
    &&& post.total_taker_fees == clamp_ledger(
        pre.total_taker_fees + spec_mul_scale(taker_notional, 400),
    )
    &&& post.total_volume == clamp_ledger(pre.total_volume + maker_notional)
    &&& post.last_execution is Some
    &&& post.avg_spread_bps == crate::amounts::spec_running_mean(
        pre.avg_spread_bps as int,
        o.spread_bps as int,
        executed,
    )
    &&& post.success_rate == executed * 100 * (SCALE as int) / detected
    &&& post.uptime_seconds == pre.uptime_seconds
}

/// What one maker/taker direction yields, when it yields: maker price,
/// taker price, quantity, rounded spread in basis points, fee-adjusted
/// profit, and risk score, all scaled. Emitted exactly when the two
/// prices cross in the maker side's favour, the rounded spread reaches
/// the configured minimum, the tradable quantity (the smaller top-of-book
/// quantity, capped by the maximum position size) reaches the minimum
/// order size, and the profit net of the maker rebate and taker fee is
/// positive.
pub open spec fn spec_futures_opportunity(
    maker_book: OrderBook,
    taker_book: OrderBook,
    maker_sell: bool,
    min_spread_bps: u32,
    max_position: u64,
    min_order: u64,
) -> Option<(u64, u64, u64, u64, u64, u64)> {
    let mp = if maker_sell {
        maker_book.spec_best_bid()
    } else {
        maker_book.spec_best_ask()
    };
    let tp = if maker_sell {
        taker_book.spec_best_ask()
    } else {
        taker_book.spec_best_bid()
    };
    match (mp, tp) {
        (Some(m), Some(t)) => {
            let low: u64 = if maker_sell {
                t
            } else {
                m
            };
            let high: u64 = if maker_sell {
                m
            } else {
                t
            };
            if high > low {
                let bps = spec_spread_bps(low as int, high as int);
                if bps >= min_spread_bps {
                    let mq: u64 = if maker_sell {
                        maker_book.spec_bids()[0].1
                    } else {
                        maker_book.spec_asks()[0].1
                    };
                    let tq: u64 = if maker_sell {
                        taker_book.spec_asks()[0].1
                    } else {
                        taker_book.spec_bids()[0].1
                    };
                    let qty = crate::strategy::arbitrage::spec_min3(mq, tq, max_position);
                    if qty >= min_order {
                        let gross = spec_mul_scale((high - low) as int, qty as int);
                        let rebate = spec_mul_scale(
                            spec_mul_scale(m as int, qty as int),
                            250,
                        );
                        let cost = spec_mul_scale(spec_mul_scale(t as int, qty as int), 400);
                        let profit = gross + rebate - cost;
                        if profit > 0 {
                            Some(
                                (
                                    m,
                                    t,
                                    qty,
                                    bps as u64,
                                    profit as u64,
                                    spec_risk_score(bps, qty as int) as u64,
                                ),
                            )
                        } else {
                            None
                        }
                    } else {
                        None
                    }
                } else {
                    None
                }
            } else {
                None
            }
        },
        _ => None,
    }
}

/// Analyzes one maker/taker direction. With `maker_sell` the maker leg
/// sells at the maker venue's best bid and the taker leg buys at the
/// taker venue's best ask; otherwise the maker leg buys at the maker
/// venue's best ask and the taker leg sells at the taker venue's best
/// bid. An opportunity is emitted exactly when the prices cross, the
/// rounded spread reaches the minimum, the tradable quantity reaches the
/// minimum order size, and the fee-adjusted profit is positive.
fn analyze_direction(
    maker_book: &OrderBook,
    taker_book: &OrderBook,
    symbol: &String,
    maker_sell: bool,
    min_spread_bps: u32,
    max_position: u64,
    min_order: u64,
    timestamp: i64,
) -> (r: Option<FuturesArbitrageOpportunity>)
    requires
        max_position <= MAX_AMT,
    ensures
        (r is Some) == (spec_futures_opportunity(
            *maker_book,
            *taker_book,
            maker_sell,
            min_spread_bps,
            max_position,
            min_order,
        ) is Some),
        r matches Some(o) ==> (spec_futures_opportunity(
            *maker_book,
            *taker_book,
            maker_sell,
            min_spread_bps,
            max_position,
            min_order,
        ) matches Some(t) && o.maker_price == t.0 && o.taker_price == t.1 && o.quantity == t.2
            && o.spread_bps == t.3 && o.expected_profit == t.4 && o.risk_score == t.5),
        r matches Some(o) ==> spec_futures_opp_sound(o, min_spread_bps, max_position, min_order)
            && o.symbol@ == symbol@ && o.maker_exchange is Bybit && o.taker_exchange is Binance
            && o.timestamp == timestamp && (o.maker_side is Sell <==> maker_sell),
{
    let maker_price_opt: Option<u64> = if maker_sell {
        maker_book.best_bid()
    } else {
        maker_book.best_ask()
    };
    let taker_price_opt: Option<u64> = if maker_sell {
        taker_book.best_ask()
    } else {
        taker_book.best_bid()
    };
    let maker_price: u64 = match maker_price_opt {
        Some(p) => p,
        None => {
            return None;
        },
    };
    let taker_price: u64 = match taker_price_opt {
        Some(p) => p,
        None => {
            return None;
        },
    };
    let low: u64 = if maker_sell {
        taker_price
    } else {
        maker_price
    };
    let high: u64 = if maker_sell {
        maker_price
    } else {
        taker_price
    };
    if high <= low {
        return None;
    }
    let bps: u64 = spread_bps(low, high);
    if bps < (min_spread_bps as u64) {
        return None;
    }
    let maker_qty: u64 = match (if maker_sell {
        maker_book.best_bid_quantity()
    } else {
        maker_book.best_ask_quantity()
    }) {
        Some(q) => q,
        None => 0,
    };
    let taker_qty: u64 = match (if maker_sell {
        taker_book.best_ask_quantity()
    } else {
        taker_book.best_bid_quantity()
    }) {
        Some(q) => q,
        None => 0,
    };
    let qty: u64 = if maker_qty <= taker_qty && maker_qty <= max_position {
        maker_qty
    } else if taker_qty <= max_position {
        taker_qty
    } else {
        max_position
    };
    if qty < min_order {
        return None;
    }
    // fee-adjusted profit, scaled
    proof {
        assert(0 <= ((high - low) as int) * (qty as int) <= (MAX_AMT as int) * (MAX_AMT as int))
            by (nonlinear_arith)
            requires
                0 <= (high - low) as int <= MAX_AMT as int,
                0 <= qty <= MAX_AMT as int,
        ;
        assert(0 <= ((high - low) as int) * (qty as int) / (SCALE as int) <= (MAX_AMT as int) * (
        MAX_AMT as int) / (SCALE as int)) by (nonlinear_arith)
            requires
                0 <= ((high - low) as int) * (qty as int) <= (MAX_AMT as int) * (MAX_AMT as int),
                SCALE as int >= 1,
        ;
        assert(0 <= (maker_price as int) * (qty as int) <= (MAX_AMT as int) * (MAX_AMT as int))
            by (nonlinear_arith)
            requires
                0 <= maker_price <= MAX_AMT as int,
                0 <= qty <= MAX_AMT as int,
        ;
        assert(0 <= (maker_price as int) * (qty as int) / (SCALE as int) <= (MAX_AMT as int) * (
        MAX_AMT as int) / (SCALE as int)) by (nonlinear_arith)
            requires
                0 <= (maker_price as int) * (qty as int) <= (MAX_AMT as int) * (MAX_AMT as int),
                SCALE as int >= 1,
        ;
        assert(0 <= (taker_price as int) * (qty as int) <= (MAX_AMT as int) * (MAX_AMT as int))
            by (nonlinear_arith)
            requires
                0 <= taker_price <= MAX_AMT as int,
                0 <= qty <= MAX_AMT as int,
        ;
        assert(0 <= (taker_price as int) * (qty as int) / (SCALE as int) <= (MAX_AMT as int) * (
        MAX_AMT as int) / (SCALE as int)) by (nonlinear_arith)
            requires
                0 <= (taker_price as int) * (qty as int) <= (MAX_AMT as int) * (MAX_AMT as int),
                SCALE as int >= 1,
        ;
    }
    let gross: u64 = mul_scale(high - low, qty);
    let maker_notional: u64 = mul_scale(maker_price, qty);
    let taker_notional: u64 = mul_scale(taker_price, qty);
    proof {
        assert(0 <= (maker_notional as int) * 250 / (SCALE as int) <= maker_notional as int) by (
        nonlinear_arith)
            requires
                maker_notional >= 0,
                SCALE as int >= 250,
        ;
        assert(0 <= (taker_notional as int) * 400 / (SCALE as int) <= taker_notional as int) by (
        nonlinear_arith)
            requires
                taker_notional >= 0,
                SCALE as int >= 400,
        ;
    }
    let rebate: u64 = mul_scale(maker_notional, 250);
    let cost: u64 = mul_scale(taker_notional, 400);
    let profit_i: i128 = (gross as i128) + (rebate as i128) - (cost as i128);
    if profit_i <= 0 {
        return None;
    }
    let profit: u64 = profit_i as u64;
    let risk: u64 = risk_score_of(bps, qty);
    Some(
        FuturesArbitrageOpportunity {
            symbol: symbol.clone(),
            maker_exchange: Exchange::Bybit,
            taker_exchange: Exchange::Binance,
            maker_side: if maker_sell {
                OrderSide::Sell
            } else {
                OrderSide::Buy
            },
            taker_side: if maker_sell {
                OrderSide::Buy
            } else {
                OrderSide::Sell
            },
            maker_price,
            taker_price,
            quantity: qty,
            spread_bps: bps,
            expected_profit: profit,
            maker_fee: MAKER_FEE_RATE,
            taker_fee: TAKER_FEE_RATE,
            risk_score: risk,
            timestamp,
        },
    )
}

/// Computes the risk score of a spread and quantity.
fn risk_score_of(spread_bps: u64, quantity: u64) -> (r: u64)
    ensures
        r == spec_risk_score(spread_bps as int, quantity as int),
        r <= 100,
{
    let mut score: u64 = 0;
    if spread_bps < 10 {
        score = score + 30;
    } else if spread_bps < 20 {
        score = score + 15;
    }
    if quantity > SCALE {
        score = score + 20;
    } else if quantity > SCALE / 2 {
        score = score + 10;
    }
    score = score + 10;
    if score > 100 {
        100
    } else {
        score
    }
}


/// The exact content of a single-symbol detection pass: with books at
/// both venues the batch holds the maker-sell direction's opportunity
/// first and the maker-buy direction's second, each present exactly when
/// its direction yields; without both books the batch is empty.
pub open spec fn spec_single_pass_ok(
    batch: Seq<FuturesArbitrageOpportunity>,
    s: FuturesArbitrageStrategy,
) -> bool {
    let sym = s.spec_active_symbols()[0]@;
    let cfg = s.spec_config();
    let b1 = s.spec_market().spec_get(Exchange::Bybit, sym);
    let b2 = s.spec_market().spec_get(Exchange::Binance, sym);
    if b1 is Some && b2 is Some {
        let byb = b1->Some_0;
        let bin = b2->Some_0;
        let d1 = spec_futures_opportunity(
            byb,
            bin,
            true,
            cfg.strategy.min_spread_bps,
            cfg.strategy.max_position_size,
            cfg.execution.min_order_size,
        );
        let d2 = spec_futures_opportunity(
            byb,
            bin,
            false,
            cfg.strategy.min_spread_bps,
            cfg.strategy.max_position_size,
            cfg.execution.min_order_size,
        );
        &&& batch.len() == (if d1 is Some {
            1int
        } else {
            0int
        }) + (if d2 is Some {
            1int
        } else {
            0int
        })
        &&& (d1 matches Some(t) ==> batch[0].maker_side is Sell && batch[0].maker_price == t.0
            && batch[0].taker_price == t.1 && batch[0].quantity == t.2 && batch[0].spread_bps
            == t.3 && batch[0].expected_profit == t.4 && batch[0].risk_score == t.5 && batch[0]
            .symbol@ == sym)
        &&& (d2 matches Some(t) ==> {
            let k = if d1 is Some {
                1int
            } else {
                0int
            };
            batch[k].maker_side is Buy && batch[k].maker_price == t.0 && batch[k].taker_price
                == t.1 && batch[k].quantity == t.2 && batch[k].spread_bps == t.3
                && batch[k].expected_profit == t.4 && batch[k].risk_score == t.5
                && batch[k].symbol@ == sym
        })
    } else {
        batch.len() == 0
    }
}

/// The maker/taker futures arbitrage strategy: Bybit makes, Binance
/// takes.
pub struct FuturesArbitrageStrategy {
    config: ArbitrageConfig,
    state: FuturesStrategyState,
    statistics: FuturesArbitrageStats,
    opportunities: Vec<FuturesArbitrageOpportunity>,
    market_data: MarketDataManager,
    mark_prices: Vec<(Exchange, String, MarkPrice)>,
    active_symbols: Vec<String>,
    start_time_secs: i64,
}

impl FuturesArbitrageStrategy {
    /// Well-formedness: configuration in range and statistics consistent.
    pub open spec fn wf(&self) -> bool {
        self.spec_config().spec_bounds_ok() && self.spec_statistics().opportunities_executed
            <= self.spec_statistics().opportunities_detected && in_ledger_range(
            self.spec_statistics().total_pnl,
        ) && in_ledger_range(self.spec_statistics().total_maker_rebates) && in_ledger_range(
            self.spec_statistics().total_taker_fees,
        ) && in_ledger_range(self.spec_statistics().total_volume)
            && self.spec_statistics().success_rate <= 100 * SCALE
    }

    /// The configuration, as a specification value.
    pub closed spec fn spec_config(&self) -> ArbitrageConfig {
        self.config
    }

    /// The strategy state.
    pub closed spec fn spec_state(&self) -> FuturesStrategyState {
        self.state
    }

    /// The statistics, as a specification value.
    pub closed spec fn spec_statistics(&self) -> FuturesArbitrageStats {
        self.statistics
    }

    /// The current opportunity list, as a specification value.
    pub closed spec fn spec_opportunities(&self) -> Seq<FuturesArbitrageOpportunity> {
        self.opportunities@
    }

    /// The monitored symbols, as a specification value.
    pub closed spec fn spec_active_symbols(&self) -> Seq<String> {
        self.active_symbols@
    }

    /// The aggregated books, as a specification value.
    pub closed spec fn spec_market(&self) -> MarketDataManager {
        self.market_data
    }

    /// A fresh, stopped strategy over the given symbols.
    pub fn new(config: ArbitrageConfig, symbols: Vec<String>) -> (r: Result<
        FuturesArbitrageStrategy,
        ArbitrageError,
    >)
        requires
            config.spec_bounds_ok(),
        ensures
            r is Ok,
            r matches Ok(s) ==> s.wf() && s.spec_config() == config && s.spec_state()
                is Stopped && s.spec_active_symbols() == symbols@ && s.spec_opportunities()
                == Seq::<FuturesArbitrageOpportunity>::empty()
                && s.spec_statistics().opportunities_detected == 0,
    {
        let s = FuturesArbitrageStrategy {
            config,
            state: FuturesStrategyState::Stopped,
            statistics: FuturesArbitrageStats::default(),
            opportunities: Vec::new(),
            market_data: MarketDataManager::new(16),
            mark_prices: Vec::new(),
            active_symbols: symbols,
            start_time_secs: crate::runtime::now_secs(),
        };
        proof {
            assert(s.spec_opportunities() =~= Seq::<FuturesArbitrageOpportunity>::empty());
        }
        Ok(s)
    }

    /// Starts the strategy.
    pub fn start(&mut self) -> (r: Result<(), ArbitrageError>)
        ensures
            r is Ok,
            final(self).spec_state() is Running,
            final(self).spec_config() == old(self).spec_config(),
            final(self).spec_statistics() == old(self).spec_statistics(),
            final(self).wf() == old(self).wf(),
    {
        self.state = FuturesStrategyState::Running;
        Ok(())
    }

    /// Stops the strategy.
    pub fn stop(&mut self) -> (r: Result<(), ArbitrageError>)
        ensures
            r is Ok,
            final(self).spec_state() is Stopped,
            final(self).spec_config() == old(self).spec_config(),
            final(self).spec_statistics() == old(self).spec_statistics(),
            final(self).wf() == old(self).wf(),
    {
        self.state = FuturesStrategyState::Stopped;
        Ok(())
    }

    /// Caches a fresh order book and, when the strategy is running, runs
    /// a detection pass over every monitored symbol.
    pub fn update_orderbook(&mut self, exchange: Exchange, orderbook: OrderBook) -> (r: Result<
        (),
        ArbitrageError,
    >)
        requires
            old(self).wf(),
        ensures
            final(self).wf(),
            r is Ok,
            final(self).spec_config() == old(self).spec_config(),
            final(self).spec_state() == old(self).spec_state(),
            final(self).spec_market().spec_get(
                orderbook.spec_exchange(),
                orderbook.spec_symbol(),
            ) == Some(orderbook),
            forall|ex: Exchange, sym: Seq<char>|
                !(ex == orderbook.spec_exchange() && sym == orderbook.spec_symbol())
                    ==> #[trigger] final(self).spec_market().spec_get(ex, sym) == old(
                    self,
                ).spec_market().spec_get(ex, sym),
            !(old(self).spec_state() is Running) ==> final(self).spec_opportunities() == old(
                self,
            ).spec_opportunities() && final(self).spec_statistics() == old(
                self,
            ).spec_statistics(),
            old(self).spec_state() is Running ==> forall|k: int|
                0 <= k < final(self).spec_opportunities().len() ==> spec_futures_opp_sound(
                    #[trigger] final(self).spec_opportunities()[k],
                    old(self).spec_config().strategy.min_spread_bps,
                    old(self).spec_config().strategy.max_position_size,
                    old(self).spec_config().execution.min_order_size,
                ),
    {
        let _ = exchange;
        self.market_data.update_book(orderbook);
        let running: bool = match self.state {
            FuturesStrategyState::Running => true,
            _ => false,
        };
        if running {
            let _ = self.detect_opportunities();
        }
        Ok(())
    }

    /// Caches a fresh mark price for its venue and symbol.
    pub fn update_mark_price(&mut self, exchange: Exchange, mark_price: MarkPrice) -> (r: Result<
        (),
        ArbitrageError,
    >)
        requires
            old(self).wf(),
        ensures
            final(self).wf(),
            r is Ok,
            final(self).spec_config() == old(self).spec_config(),
            final(self).spec_state() == old(self).spec_state(),
            final(self).spec_statistics() == old(self).spec_statistics(),
    {
        let symbol: String = mark_price.symbol.clone();
        let n: usize = self.mark_prices.len();
        let mut i: usize = 0;
        while i < n
            invariant
                i <= n,
                n == self.mark_prices@.len(),
                *self == *old(self),
                self.wf(),
            decreases n - i,
        {
            let same_ex: bool = self.mark_prices[i].0 == exchange;
            let same_sym: bool = crate::text::str_eq(
                self.mark_prices[i].1.as_str(),
                symbol.as_str(),
            );
            if same_ex && same_sym {
                self.mark_prices[i] = (exchange, symbol, mark_price);
                return Ok(());
            }
            i = i + 1;
        }
        self.mark_prices.push((exchange, symbol, mark_price));
        Ok(())
    }

    /// One detection pass: for every monitored symbol with books at both
    /// venues, evaluates the two maker/taker scenarios; the fresh batch
    /// replaces the current list and is counted as detected. Every
    /// emitted opportunity is sound against the configuration.
    pub fn detect_opportunities(&mut self) -> (r: Result<
        Vec<FuturesArbitrageOpportunity>,
        ArbitrageError,
    >)
        requires
            old(self).wf(),
        ensures
            final(self).wf(),
            r is Ok,
            final(self).spec_config() == old(self).spec_config(),
            final(self).spec_state() == old(self).spec_state(),
            final(self).spec_market() == old(self).spec_market(),
            final(self).spec_active_symbols() == old(self).spec_active_symbols(),
            final(self).spec_statistics().opportunities_executed == old(
                self,
            ).spec_statistics().opportunities_executed,
            final(self).spec_statistics().total_pnl == old(self).spec_statistics().total_pnl,
            final(self).spec_statistics().total_maker_rebates == old(
                self,
            ).spec_statistics().total_maker_rebates,
            final(self).spec_statistics().total_taker_fees == old(
                self,
            ).spec_statistics().total_taker_fees,
            final(self).spec_statistics().total_volume == old(
                self,
            ).spec_statistics().total_volume,
            final(self).spec_statistics().success_rate == old(
                self,
            ).spec_statistics().success_rate,
            final(self).spec_statistics().avg_spread_bps == old(
                self,
            ).spec_statistics().avg_spread_bps,
            final(self).spec_statistics().last_execution == old(
                self,
            ).spec_statistics().last_execution,
            r matches Ok(batch) ==> {
                let cfg = old(self).spec_config();
                &&& batch@.len() <= 2 * old(self).spec_active_symbols().len()
                &&& (forall|k: int|
                    0 <= k < batch@.len() ==> spec_futures_opp_sound(
                        #[trigger] batch@[k],
                        cfg.strategy.min_spread_bps,
                        cfg.strategy.max_position_size,
                        cfg.execution.min_order_size,
                    ) && spec_symbol_monitored(
                        batch@[k].symbol@,
                        old(self).spec_active_symbols(),
                    ))
                &&& final(self).spec_opportunities().len() == batch@.len()
                &&& (forall|k: int|
                    0 <= k < batch@.len() ==> #[trigger] final(self).spec_opportunities()[k]
                        == batch@[k])
                &&& final(self).spec_statistics().opportunities_detected == (if old(
                    self,
                ).spec_statistics().opportunities_detected + batch@.len() <= u64::MAX {
                    old(self).spec_statistics().opportunities_detected + batch@.len()
                } else {
                    u64::MAX as int
                })
            },
            old(self).spec_active_symbols().len() == 1 ==> (r matches Ok(batch)
                ==> spec_single_pass_ok(batch@, *old(self))),
    {
        let mut batch: Vec<FuturesArbitrageOpportunity> = Vec::new();
        let ns: usize = self.active_symbols.len();
        let mut si: usize = 0;
        let now: i64 = crate::runtime::now_nanos();
        while si < ns
            invariant
                si <= ns,
                ns == self.active_symbols@.len(),
                self.wf(),
                *self == *old(self),
                batch@.len() <= 2 * si,
                forall|k: int|
                    0 <= k < batch@.len() ==> spec_futures_opp_sound(
                        #[trigger] batch@[k],
                        old(self).spec_config().strategy.min_spread_bps,
                        old(self).spec_config().strategy.max_position_size,
                        old(self).spec_config().execution.min_order_size,
                    ) && spec_symbol_monitored(
                        batch@[k].symbol@,
                        old(self).spec_active_symbols(),
                    ),
                ns == 1 && si == 1 ==> spec_single_pass_ok(batch@, *old(self)),
            decreases ns - si,
        {
            let symbol: String = self.active_symbols[si].clone();
            let bybit_book = self.market_data.get_orderbook(Exchange::Bybit, symbol.as_str());
            let binance_book = self.market_data.get_orderbook(
                Exchange::Binance,
                symbol.as_str(),
            );
            match (bybit_book, binance_book) {
                (Some(byb), Some(bin)) => {
                    proof {
                        let c1 = self.market_data.spec_get(Exchange::Bybit, symbol@)->Some_0;
                        let c2 = self.market_data.spec_get(Exchange::Binance, symbol@)->Some_0;
                        let m = self.config.strategy.min_spread_bps;
                        let mx = self.config.strategy.max_position_size;
                        let mn = self.config.execution.min_order_size;
                        assert(spec_futures_opportunity(byb, bin, true, m, mx, mn)
                            == spec_futures_opportunity(c1, c2, true, m, mx, mn));
                        assert(spec_futures_opportunity(byb, bin, false, m, mx, mn)
                            == spec_futures_opportunity(c1, c2, false, m, mx, mn));
                    }
                    let d1 = analyze_direction(
                        &byb,
                        &bin,
                        &symbol,
                        true,
                        self.config.strategy.min_spread_bps,
                        self.config.strategy.max_position_size,
                        self.config.execution.min_order_size,
                        now,
                    );
                    match d1 {
                        Some(o) => {
                            batch.push(o);
                            proof {
                                assert(self.active_symbols@[si as int]@ == symbol@);
                                assert(spec_symbol_monitored(
                                    symbol@,
                                    old(self).spec_active_symbols(),
                                ));
                            }
                        },
                        None => {},
                    }
                    let d2 = analyze_direction(
                        &byb,
                        &bin,
                        &symbol,
                        false,
                        self.config.strategy.min_spread_bps,
                        self.config.strategy.max_position_size,
                        self.config.execution.min_order_size,
                        now,
                    );
                    match d2 {
                        Some(o) => {
                            batch.push(o);
                            proof {
                                assert(self.active_symbols@[si as int]@ == symbol@);
                                assert(spec_symbol_monitored(
                                    symbol@,
                                    old(self).spec_active_symbols(),
                                ));
                            }
                        },
                        None => {},
                    }
                },
                _ => {},
            }
            si = si + 1;
        }
        let batch_len: u64 = batch.len() as u64;
        let detected: u64 = if self.statistics.opportunities_detected <= u64::MAX - batch_len {
            self.statistics.opportunities_detected + batch_len
        } else {
            u64::MAX
        };
        self.statistics.opportunities_detected = detected;
        let mut stored: Vec<FuturesArbitrageOpportunity> = Vec::new();
        let n: usize = batch.len();
        let mut i: usize = 0;
        while i < n
            invariant
                i <= n,
                n == batch@.len(),
                stored@.len() == i,
                forall|k: int| 0 <= k < i ==> #[trigger] stored@[k] == batch@[k],
            decreases n - i,
        {
            stored.push(batch[i].clone_opportunity());
            i = i + 1;
        }
        self.opportunities = stored;
        Ok(batch)
    }

    /// Computes the risk score of a spread and quantity.
    pub fn calculate_risk_score(&self, spread_bps: u64, quantity: u64) -> (r: u64)
        ensures
            r == spec_risk_score(spread_bps as int, quantity as int),
            r <= 100,
    {
        risk_score_of(spread_bps, quantity)
    }

    /// Executes an opportunity: the post-only maker leg at the maker
    /// venue first, then at once the taker hedge at the taker venue. A
    /// failed taker leg leaves the maker order to be cancelled by the
    /// caller and surfaces the taker error.
    pub fn execute_opportunity<B: FuturesConnector, N: FuturesConnector>(
        &mut self,
        opportunity: &FuturesArbitrageOpportunity,
        bybit_connector: &mut B,
        binance_connector: &mut N,
    ) -> (r: Result<(), ArbitrageError>)
        requires
            old(self).wf(),
            opportunity.valid(),
        ensures
            final(self).wf(),
            final(self).spec_config() == old(self).spec_config(),
            final(self).spec_state() == old(self).spec_state(),
            r is Err ==> final(self).spec_statistics() == old(self).spec_statistics(),
            r is Ok ==> spec_futures_executed_stats(
                final(self).spec_statistics(),
                old(self).spec_statistics(),
                *opportunity,
            ),
    {
        let maker_id: String = String::from_str("maker_").concat(
            crate::runtime::fresh_order_id().as_str(),
        );
        let maker_order = FuturesOrder {
            symbol: opportunity.symbol.clone(),
            side: opportunity.maker_side,
            position_side: Some(PositionSide::Both),
            order_type: FuturesOrderType::Limit,
            quantity: opportunity.quantity,
            price: Some(opportunity.maker_price),
            stop_price: None,
            time_in_force: FuturesTimeInForce::GTX,
            reduce_only: false,
            close_position: false,
            client_order_id: Some(maker_id),
        };
        match bybit_connector.place_order(&maker_order) {
            Err(e) => Err(e),
            Ok(_maker_response) => {
                let taker_id: String = String::from_str("taker_").concat(
                    crate::runtime::fresh_order_id().as_str(),
                );
                let taker_order = FuturesOrder {
                    symbol: opportunity.symbol.clone(),
                    side: opportunity.taker_side,
                    position_side: Some(PositionSide::Both),
                    order_type: FuturesOrderType::Market,
                    quantity: opportunity.quantity,
                    price: None,
                    stop_price: None,
                    time_in_force: FuturesTimeInForce::IOC,
                    reduce_only: false,
                    close_position: false,
                    client_order_id: Some(taker_id),
                };
                match binance_connector.place_order(&taker_order) {
                    Err(e) => Err(e),
                    Ok(_taker_response) => {
                        self.record_execution(opportunity);
                        Ok(())
                    },
                }
            },
        }
    }

    /// Folds one executed opportunity into the statistics.
    fn record_execution(&mut self, opportunity: &FuturesArbitrageOpportunity)
        requires
            old(self).wf(),
            opportunity.valid(),
        ensures
            final(self).wf(),
            final(self).spec_config() == old(self).spec_config(),
            final(self).spec_state() == old(self).spec_state(),
            spec_futures_executed_stats(
                final(self).spec_statistics(),
                old(self).spec_statistics(),
                *opportunity,
            ),
    {
        let executed: u64 = if self.statistics.opportunities_executed < u64::MAX {
            self.statistics.opportunities_executed + 1
        } else {
            u64::MAX
        };
        let detected: u64 = if self.statistics.opportunities_detected >= executed {
            self.statistics.opportunities_detected
        } else {
            executed
        };
        self.statistics.opportunities_executed = executed;
        self.statistics.opportunities_detected = detected;
        self.statistics.total_pnl = ledger_add(
            self.statistics.total_pnl,
            ledger_clamp(opportunity.expected_profit as i128),
        );
        proof {
            assert(0 <= (opportunity.maker_price as int) * (opportunity.quantity as int) <= (
            MAX_AMT as int) * (MAX_AMT as int)) by (nonlinear_arith)
                requires
                    0 <= opportunity.maker_price <= MAX_AMT as int,
                    0 <= opportunity.quantity <= MAX_AMT as int,
            ;
            assert(0 <= (opportunity.maker_price as int) * (opportunity.quantity as int) / (
            SCALE as int) <= (MAX_AMT as int) * (MAX_AMT as int) / (SCALE as int)) by (
            nonlinear_arith)
                requires
                    0 <= (opportunity.maker_price as int) * (opportunity.quantity as int) <= (
                    MAX_AMT as int) * (MAX_AMT as int),
                    SCALE as int >= 1,
            ;
            assert(0 <= (opportunity.taker_price as int) * (opportunity.quantity as int) <= (
            MAX_AMT as int) * (MAX_AMT as int)) by (nonlinear_arith)
                requires
                    0 <= opportunity.taker_price <= MAX_AMT as int,
                    0 <= opportunity.quantity <= MAX_AMT as int,
            ;
            assert(0 <= (opportunity.taker_price as int) * (opportunity.quantity as int) / (
            SCALE as int) <= (MAX_AMT as int) * (MAX_AMT as int) / (SCALE as int)) by (
            nonlinear_arith)
                requires
                    0 <= (opportunity.taker_price as int) * (opportunity.quantity as int) <= (
                    MAX_AMT as int) * (MAX_AMT as int),
                    SCALE as int >= 1,
            ;
        }
        let maker_notional: u64 = mul_scale(opportunity.maker_price, opportunity.quantity);
        let taker_notional: u64 = mul_scale(opportunity.taker_price, opportunity.quantity);
        proof {
            assert(0 <= (maker_notional as int) * 250 / (SCALE as int) <= maker_notional as int)
                by (nonlinear_arith)
                requires
                    maker_notional >= 0,
                    SCALE as int >= 250,
            ;
            assert(0 <= (taker_notional as int) * 400 / (SCALE as int) <= taker_notional as int)
                by (nonlinear_arith)
                requires
                    taker_notional >= 0,
                    SCALE as int >= 400,
            ;
        }
        let rebate: u64 = mul_scale(maker_notional, 250);
        let cost: u64 = mul_scale(taker_notional, 400);
        self.statistics.total_maker_rebates = ledger_add(
            self.statistics.total_maker_rebates,
            rebate as i128,
        );
        self.statistics.total_taker_fees = ledger_add(
            self.statistics.total_taker_fees,
            cost as i128,
        );
        self.statistics.total_volume = ledger_add(
            self.statistics.total_volume,
            maker_notional as i128,
        );
        self.statistics.last_execution = Some(crate::runtime::now_secs());
        self.statistics.avg_spread_bps = crate::amounts::running_mean(
            self.statistics.avg_spread_bps,
            if opportunity.spread_bps > u64::MAX {
                u64::MAX
            } else {
                opportunity.spread_bps
            },
            executed,
        );
        let succ: u64 = executed;
        let den: u64 = detected;
        proof {
            assert((succ as int) * 100 * (SCALE as int) >= 0 && (succ as int) * 100 * (
            SCALE as int) <= (den as int) * 100 * (SCALE as int)) by (nonlinear_arith)
                requires
                    0 <= succ <= den as int,
                    SCALE as int >= 1,
            ;
            assert(0 <= (succ as int) * 100 * (SCALE as int) / (den as int) <= (den as int) * 100
                * (SCALE as int) / (den as int)) by (nonlinear_arith)
                requires
                    0 <= (succ as int) * 100 * (SCALE as int) <= (den as int) * 100 * (
                    SCALE as int),
                    den as int >= 1,
            ;
            assert((den as int) * 100 * (SCALE as int) / (den as int) == 100 * (SCALE as int)) by (
            nonlinear_arith)
                requires
                    den as int >= 1,
            ;
        }
        let num: u128 = (succ as u128) * 100u128 * (SCALE as u128);
        self.statistics.success_rate = (num / (den as u128)) as u64;
    }

    /// The statistics, with a fresh uptime.
    pub fn get_statistics(&self) -> (r: FuturesArbitrageStats)
        ensures
            r.opportunities_detected == self.spec_statistics().opportunities_detected,
            r.opportunities_executed == self.spec_statistics().opportunities_executed,
            r.total_pnl == self.spec_statistics().total_pnl,
            r.success_rate == self.spec_statistics().success_rate,
            r.avg_spread_bps == self.spec_statistics().avg_spread_bps,
            r.last_execution == self.spec_statistics().last_execution,
    {
        let now: i64 = crate::runtime::now_secs();
        let diff: i128 = (now as i128) - (self.start_time_secs as i128);
        let uptime: u64 = if 0 < diff && diff <= (u64::MAX as i128) {
            diff as u64
        } else {
            0
        };
        let mut stats = self.statistics;
        stats.uptime_seconds = uptime;
        stats
    }

    /// The current opportunity list, as a copy.
    pub fn get_current_opportunities(&self) -> (r: Vec<FuturesArbitrageOpportunity>)
        ensures
            r@.len() == self.spec_opportunities().len(),
            forall|k: int|
                0 <= k < r@.len() ==> #[trigger] r@[k] == self.spec_opportunities()[k],
    {
        let n: usize = self.opportunities.len();
        let mut out: Vec<FuturesArbitrageOpportunity> = Vec::new();
        let mut i: usize = 0;
        while i < n
            invariant
                i <= n,
                n == self.opportunities@.len(),
                out@.len() == i,
                forall|k: int| 0 <= k < i ==> #[trigger] out@[k] == self.opportunities@[k],
            decreases n - i,
        {
            out.push(self.opportunities[i].clone_opportunity());
            i = i + 1;
        }
        out
    }

    /// The strategy state.
    pub fn get_state(&self) -> (r: FuturesStrategyState)
        ensures
            r == self.spec_state(),
    {
        self.state
    }

    /// The monitored symbols.
    pub fn get_active_symbols(&self) -> (r: &Vec<String>)
        ensures
            r@ == self.spec_active_symbols(),
    {
        &self.active_symbols
    }
}

} // verus!
