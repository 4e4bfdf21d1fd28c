//! Live execution coordination: risk checks before every order, retry
//! with linear backoff, connection-health tracking, and an emergency
//! shutdown that sweeps every tracked order and link, best effort.

use vstd::prelude::*;
use vstd::string::StringExecFns;

use crate::amounts::{AMT_LIMIT, MAX_AMT, SCALE, clamp_ledger, in_ledger_range, ledger_add,
    ledger_clamp, spec_mul_scale};
use crate::config::ArbitrageConfig;
use crate::connectors::Exchange;
use crate::connectors::traits::{
    Balance, ExchangeConnector, LimitOrder, OrderResponse, OrderSide, OrderStatus,
};
use crate::data::{MarketDataManager, OrderBook};
use crate::ArbitrageError;

verus! {

/// Health of the live trading system.
#[derive(Debug)]
pub struct HealthStatus {
    /// Whether every tracked venue link is up.
    pub is_healthy: bool,
    /// Link state per venue.
    pub exchange_connections: Vec<(Exchange, bool)>,
    /// Last heartbeat timestamp, seconds.
    pub last_heartbeat: i64,
    /// Number of tracked active orders.
    pub active_orders: u64,
    /// Errors seen recently.
    pub recent_errors: u64,
    /// Uptime in seconds.
    pub uptime_seconds: u64,
}

/// Running statistics over live order placement.
#[derive(Debug, Clone, Copy)]
pub struct ExecutionStatistics {
    /// Orders placed.
    pub total_orders: u64,
    /// Orders the venue accepted.
    pub successful_orders: u64,
    /// Orders that failed.
    pub failed_orders: u64,
    /// Average placement latency in milliseconds, a truncated running mean.
    pub avg_execution_time_ms: u64,
    /// Total volume placed, scaled, saturating.
    pub total_volume: i128,
    /// Total fees paid, scaled, saturating.
    pub total_fees: i128,
    /// Share of successful orders in percent, scaled.
    pub success_rate: u64,
    /// Timestamp of the last successful placement, seconds.
    pub last_execution: Option<i64>,
}

impl Default for ExecutionStatistics {
    /// All counters zero.
    fn default() -> (r: Self)
        ensures
            r.total_orders == 0,
            r.successful_orders == 0,
            r.failed_orders == 0,
            r.avg_execution_time_ms == 0,
            r.total_volume == 0,
            r.total_fees == 0,
            r.success_rate == 0,
            r.last_execution is None,
    {
        ExecutionStatistics {
            total_orders: 0,
            successful_orders: 0,
            failed_orders: 0,
            avg_execution_time_ms: 0,
            total_volume: 0,
            total_fees: 0,
            success_rate: 0,
            last_execution: None,
        }
    }
}

/// The success rate in percent, scaled: accepted over placed.
pub open spec fn spec_success_percent(successful: int, total: int) -> int {
    successful * 100 * (SCALE as int) / total
}

/// A held position at one venue.
#[derive(Debug)]
pub struct Position {
    /// Venue holding the position.
    pub exchange: Exchange,
    /// Symbol.
    pub symbol: String,
    /// Signed size, scaled: positive long, negative short.
    pub size: i64,
    /// Average entry price, scaled.
    pub avg_price: u64,
    /// Unrealized profit and loss, scaled, signed.
    pub unrealized_pnl: i64,
    /// Last update timestamp, seconds.
    pub last_update: i64,
}

/// Static information about a venue.
#[derive(Debug)]
pub struct ExchangeInfo {
    /// The venue.
    pub exchange: Exchange,
    /// Available symbols.
    pub symbols: Vec<String>,
    /// Trading fees by symbol, scaled.
    pub fees: Vec<(String, u64)>,
    /// Minimum order sizes by symbol, scaled.
    pub min_order_sizes: Vec<(String, u64)>,
    /// Tick sizes by symbol, scaled.
    pub tick_sizes: Vec<(String, u64)>,
    /// Venue server time, seconds.
    pub server_time: i64,
}

/// The first tracked position for a symbol, if any.
pub open spec fn spec_find_position(s: Seq<(String, Position)>, sym: Seq<char>) -> Option<
    Position,
>
    decreases s.len(),
{
    if s.len() == 0 {
        None
    } else if s[0].0@ == sym {
        Some(s[0].1)
    } else {
        spec_find_position(s.drop_first(), sym)
    }
}

/// The signed size of the tracked position for a symbol, zero when none.
pub open spec fn spec_position_size(s: Seq<(String, Position)>, sym: Seq<char>) -> int {
    match spec_find_position(s, sym) {
        Some(p) => p.size as int,
        None => 0,
    }
}

/// The active-orders table without the first entry for an order id.
pub open spec fn spec_remove_order(
    s: Seq<(String, Exchange, OrderResponse)>,
    order_id: Seq<char>,
) -> Seq<(String, Exchange, OrderResponse)>
    decreases s.len(),
{
    if s.len() == 0 {
        s
    } else if s[0].0@ == order_id {
        s.drop_first()
    } else {
        seq![s[0]] + spec_remove_order(s.drop_first(), order_id)
    }
}


/// Every recorded link flag is up.
pub open spec fn all_flags_up(s: Seq<(Exchange, bool)>) -> bool {
    forall|j: int| 0 <= j < s.len() ==> #[trigger] s[j].1
}

/// The first recorded link flag for a venue, if any.
pub open spec fn spec_flag_of(s: Seq<(Exchange, bool)>, exchange: Exchange) -> Option<bool>
    decreases s.len(),
{
    if s.len() == 0 {
        None
    } else if s[0].0 == exchange {
        Some(s[0].1)
    } else {
        spec_flag_of(s.drop_first(), exchange)
    }
}

/// The flag lookup finds the entry at the first position holding its venue.
proof fn lemma_flag_of_at(s: Seq<(Exchange, bool)>, exchange: Exchange, i: int)
    requires
        0 <= i < s.len(),
        s[i].0 == exchange,
        forall|j: int| 0 <= j < i ==> #[trigger] s[j].0 != exchange,
    ensures
        spec_flag_of(s, exchange) == Some(s[i].1),
    decreases s.len(),
{
    if i == 0 {
    } else {
        assert(s.drop_first()[i - 1] == s[i]);
        assert forall|j: int| 0 <= j < i - 1 implies #[trigger] s.drop_first()[j].0 != exchange by {
            assert(s.drop_first()[j] == s[j + 1]);
        }
        lemma_flag_of_at(s.drop_first(), exchange, i - 1);
    }
}

/// Replacing the flag at one position leaves lookups of other venues
/// unchanged.
proof fn lemma_flag_of_update(
    s1: Seq<(Exchange, bool)>,
    s2: Seq<(Exchange, bool)>,
    i: int,
    exchange: Exchange,
)
    requires
        0 <= i < s1.len(),
        s2 == s1.update(i, s2[i]),
        s1[i].0 == s2[i].0,
        s2[i].0 != exchange,
    ensures
        spec_flag_of(s2, exchange) == spec_flag_of(s1, exchange),
    decreases s1.len(),
{
    if s1.len() == 0 {
    } else if i == 0 {
        assert(s2.drop_first() =~= s1.drop_first());
    } else {
        assert(s2[0] == s1[0]);
        if s1[0].0 == exchange {
        } else {
            assert(s2.drop_first() =~= s1.drop_first().update(i - 1, s2[i]));
            assert(s2.drop_first()[i - 1] == s2[i]);
            assert(s1.drop_first()[i - 1] == s1[i]);
            lemma_flag_of_update(s1.drop_first(), s2.drop_first(), i - 1, exchange);
        }
    }
}

/// Appending a flag leaves lookups of other venues unchanged.
proof fn lemma_flag_of_append(s: Seq<(Exchange, bool)>, entry: (Exchange, bool), exchange: Exchange)
    requires
        entry.0 != exchange,
    ensures
        spec_flag_of(s + seq![entry], exchange) == spec_flag_of(s, exchange),
    decreases s.len(),
{
    if s.len() == 0 {
        assert((s + seq![entry])[0] == entry);
        assert((s + seq![entry]).drop_first() =~= Seq::<(Exchange, bool)>::empty());
        assert(spec_flag_of(Seq::<(Exchange, bool)>::empty(), exchange) is None);
    } else {
        assert((s + seq![entry])[0] == s[0]);
        if s[0].0 == exchange {
        } else {
            assert((s + seq![entry]).drop_first() =~= s.drop_first() + seq![entry]);
            lemma_flag_of_append(s.drop_first(), entry, exchange);
        }
    }
}

/// The live trading executor: wraps venue connectors with a risk check
/// before every order, an active-orders table, health tracking, and an
/// emergency shutdown path.
pub struct LiveTradingExecutor<C: ExchangeConnector> {
    config: ArbitrageConfig,
    connectors: Vec<(Exchange, C)>,
    active_orders: Vec<(String, Exchange, OrderResponse)>,
    positions: Vec<(String, Position)>,
    statistics: ExecutionStatistics,
    health: HealthStatus,
    market_data: MarketDataManager,
    start_time_secs: i64,
    emergency_shutdown: bool,
}

impl<C: ExchangeConnector> LiveTradingExecutor<C> {
    /// Well-formedness: configuration in range and statistics consistent.
    pub open spec fn wf(&self) -> bool {
        self.spec_config().spec_bounds_ok() && self.spec_config().strategy.max_position_size > 0
            && self.spec_config().execution.min_order_size > 0
            && self.spec_statistics().total_orders == self.spec_statistics().successful_orders
            + self.spec_statistics().failed_orders && in_ledger_range(
            self.spec_statistics().total_volume,
        ) && in_ledger_range(self.spec_statistics().total_fees)
            && self.spec_statistics().success_rate <= 100 * SCALE
    }

    /// The configuration, as a specification value.
    pub closed spec fn spec_config(&self) -> ArbitrageConfig {
        self.config
    }

    /// The number of attached venue links.
    pub closed spec fn spec_connector_count(&self) -> int {
        self.connectors@.len() as int
    }

    /// The attached venue links, as a specification value.
    pub closed spec fn spec_connectors(&self) -> Seq<(Exchange, C)> {
        self.connectors@
    }

    /// Whether a link is attached for a venue.
    pub closed spec fn spec_has_connector(&self, exchange: Exchange) -> bool {
        exists|j: int|
            0 <= j < self.connectors@.len() && #[trigger] self.connectors@[j].0 == exchange
    }

    /// The active-orders table, as a specification value.
    pub closed spec fn spec_active_orders(&self) -> Seq<(String, Exchange, OrderResponse)> {
        self.active_orders@
    }

    /// The risk check's acceptance condition: the order leaves the net
    /// position for its symbol within the configured maximum, and its
    /// quantity reaches the configured minimum.
    pub open spec fn spec_order_within_limits(&self, order: LimitOrder) -> bool {
        &&& spec_new_position(
            spec_position_size(self.spec_positions(), order.symbol@),
            order.side,
            order.quantity as int,
        ) <= self.spec_config().strategy.max_position_size
        &&& -(spec_new_position(
            spec_position_size(self.spec_positions(), order.symbol@),
            order.side,
            order.quantity as int,
        )) <= self.spec_config().strategy.max_position_size
        &&& order.quantity >= self.spec_config().execution.min_order_size
    }

    /// The tracked positions, as a specification value.
    pub closed spec fn spec_positions(&self) -> Seq<(String, Position)> {
        self.positions@
    }

    /// The statistics, as a specification value.
    pub closed spec fn spec_statistics(&self) -> ExecutionStatistics {
        self.statistics
    }

    /// Whether the system is marked healthy.
    pub closed spec fn spec_is_healthy(&self) -> bool {
        self.health.is_healthy
    }

    /// The per-venue link flags, as a specification value.
    pub closed spec fn spec_connection_flags(&self) -> Seq<(Exchange, bool)> {
        self.health.exchange_connections@
    }

    /// The recent error count.
    pub closed spec fn spec_recent_errors(&self) -> u64 {
        self.health.recent_errors
    }

    /// The cached market books, as a specification value.
    pub closed spec fn spec_books(&self) -> Seq<OrderBook> {
        self.market_data.spec_books()
    }

    /// Whether the emergency-shutdown flag is set.
    pub closed spec fn spec_emergency_shutdown(&self) -> bool {
        self.emergency_shutdown
    }

    /// A fresh executor with no venue links. Fails closed on a
    /// configuration whose position or order-size limits are not
    /// positive.
    pub fn new(config: ArbitrageConfig) -> (r: Result<LiveTradingExecutor<C>, ArbitrageError>)
        requires
            config.spec_bounds_ok(),
        ensures
            (r is Ok) == (config.strategy.max_position_size > 0
                && config.execution.min_order_size > 0),
            r matches Err(e) ==> e is Config,
            r matches Ok(ex) ==> ex.wf() && ex.spec_config() == config && !ex
                .spec_emergency_shutdown() && ex.spec_active_orders() == Seq::<
                (String, Exchange, OrderResponse),
            >::empty() && ex.spec_positions() == Seq::<(String, Position)>::empty() && ex
                .spec_connector_count() == 0 && !ex.spec_is_healthy()
                && ex.spec_statistics().total_orders == 0
                && ex.spec_statistics().successful_orders == 0
                && ex.spec_statistics().failed_orders == 0
                && ex.spec_statistics().success_rate == 0
                && ex.spec_connection_flags() == Seq::<(Exchange, bool)>::empty(),
    {
        if config.strategy.max_position_size == 0 {
            return Err(ArbitrageError::Config("Invalid max_position_size".to_owned()));
        }
        if config.execution.min_order_size == 0 {
            return Err(ArbitrageError::Config("Invalid min_order_size".to_owned()));
        }
        let now: i64 = crate::runtime::now_secs();
        let health = HealthStatus {
            is_healthy: false,
            exchange_connections: Vec::new(),
            last_heartbeat: now,
            active_orders: 0,
            recent_errors: 0,
            uptime_seconds: 0,
        };
        let ex = LiveTradingExecutor {
            config,
            connectors: Vec::new(),
            active_orders: Vec::new(),
            positions: Vec::new(),
            statistics: ExecutionStatistics::default(),
            health,
            market_data: MarketDataManager::new(8),
            start_time_secs: now,
            emergency_shutdown: false,
        };
        proof {
            assert(ex.spec_active_orders() =~= Seq::<(String, Exchange, OrderResponse)>::empty());
            assert(ex.spec_positions() =~= Seq::<(String, Position)>::empty());
            assert(ex.spec_connection_flags() =~= Seq::<(Exchange, bool)>::empty());
        }
        Ok(ex)
    }

    /// Attaches a venue link.
    pub fn add_connector(&mut self, exchange: Exchange, connector: C)
        requires
            old(self).wf(),
        ensures
            final(self).wf(),
            final(self).spec_connector_count() == old(self).spec_connector_count() + 1,
            final(self).spec_active_orders() == old(self).spec_active_orders(),
            final(self).spec_positions() == old(self).spec_positions(),
            final(self).spec_statistics() == old(self).spec_statistics(),
            final(self).spec_config() == old(self).spec_config(),
            final(self).spec_emergency_shutdown() == old(self).spec_emergency_shutdown(),
    {
        self.connectors.push((exchange, connector));
    }

    /// Connects every attached venue link; the first failure marks that
    /// venue unhealthy and aborts. With every link up the system is
    /// healthy; with no link attached it stays unhealthy and fails.
    pub fn connect_to_exchanges(&mut self) -> (r: Result<(), ArbitrageError>)
        requires
            old(self).wf(),
        ensures
            final(self).wf(),
            final(self).spec_config() == old(self).spec_config(),
            r is Ok ==> final(self).spec_is_healthy() && final(self).spec_connection_flags().len() == old(self).spec_connector_count() && all_flags_up(
                final(self).spec_connection_flags(),
            ),
            old(self).spec_connector_count() == 0 ==> (r matches Err(e) && e is Config),
    {
        let n: usize = self.connectors.len();
        if n == 0 {
            self.health.is_healthy = false;
            return Err(
                ArbitrageError::Config(
                    "Cannot create connector without API keys".to_owned(),
                ),
            );
        }
        let mut i: usize = 0;
        let mut flags: Vec<(Exchange, bool)> = Vec::new();
        while i < n
            invariant
                i <= n,
                1 <= n == self.connectors@.len(),
                self.connectors@.len() == old(self).spec_connector_count(),
                self.wf(),
                self.spec_config() == old(self).spec_config(),
                flags@.len() == i,
                forall|j: int| 0 <= j < i ==> #[trigger] flags@[j].1 == true,
            decreases n - i,
        {
            let ex: Exchange = self.connectors[i].0;
            let result = self.connectors[i].1.connect();
            match result {
                Ok(()) => {
                    flags.push((ex, true));
                },
                Err(e) => {
                    flags.push((ex, false));
                    self.health.exchange_connections = flags;
                    self.health.is_healthy = false;
                    return Err(e);
                },
            }
            i = i + 1;
        }
        self.health.exchange_connections = flags;
        self.health.is_healthy = true;
        Ok(())
    }

    /// Whether the system is marked healthy.
    pub fn is_connected(&self) -> (r: bool)
        ensures
            r == self.spec_is_healthy(),
    {
        self.health.is_healthy
    }

    /// The venues whose link flag is up.
    pub fn get_connected_exchanges(&self) -> (r: Vec<Exchange>)
        ensures
            r@.len() <= self.spec_connection_flags().len(),
    {
        let flags = &self.health.exchange_connections;
        let n: usize = flags.len();
        let mut out: Vec<Exchange> = Vec::new();
        let mut i: usize = 0;
        while i < n
            invariant
                i <= n,
                n == flags@.len(),
                out@.len() <= i,
            decreases n - i,
        {
            if flags[i].1 {
                out.push(flags[i].0);
            }
            i = i + 1;
        }
        out
    }

    /// Account balances per attached venue; the first failing venue
    /// aborts the sweep.
    pub fn check_balances(&self) -> (r: Result<Vec<(Exchange, Vec<Balance>)>, ArbitrageError>)
        ensures
            r matches Ok(b) ==> b@.len() == self.spec_connector_count(),
    {
        let n: usize = self.connectors.len();
        let mut out: Vec<(Exchange, Vec<Balance>)> = Vec::new();
        let mut i: usize = 0;
        while i < n
            invariant
                i <= n,
                n == self.connectors@.len(),
                out@.len() == i,
            decreases n - i,
        {
            match self.connectors[i].1.get_balances() {
                Ok(balances) => {
                    out.push((self.connectors[i].0, balances));
                },
                Err(e) => {
                    return Err(e);
                },
            }
            i = i + 1;
        }
        Ok(out)
    }

    /// Polls each link's liveness flag, refreshes the per-venue health
    /// table and the heartbeat, and fails when any venue is down.
    pub fn check_connectivity(&mut self) -> (r: Result<(), ArbitrageError>)
        requires
            old(self).wf(),
        ensures
            final(self).wf(),
            final(self).spec_config() == old(self).spec_config(),
            final(self).spec_active_orders() == old(self).spec_active_orders(),
            final(self).spec_statistics() == old(self).spec_statistics(),
            (r is Ok) == final(self).spec_is_healthy(),
            r matches Err(e) ==> e is Connection,
            final(self).spec_connection_flags().len() == old(self).spec_connector_count(),
            final(self).spec_is_healthy() == all_flags_up(final(self).spec_connection_flags()),
    {
        let n: usize = self.connectors.len();
        let mut flags: Vec<(Exchange, bool)> = Vec::new();
        let mut i: usize = 0;
        while i < n
            invariant
                i <= n,
                n == self.connectors@.len(),
                flags@.len() == i,
            decreases n - i,
        {
            let up: bool = self.connectors[i].1.is_connected();
            flags.push((self.connectors[i].0, up));
            i = i + 1;
        }
        self.health.exchange_connections = flags;
        self.recompute_health();
        self.health.last_heartbeat = crate::runtime::now_secs();
        if !self.health.is_healthy {
            return Err(ArbitrageError::Connection("Not all exchanges are connected".to_owned()));
        }
        Ok(())
    }

    /// Rejects an order that would push the absolute net position for its
    /// symbol beyond the configured maximum, or whose quantity is below
    /// the configured minimum; accepts exactly the rest.
    pub fn check_risk_limits(&self, order: &LimitOrder) -> (r: Result<(), ArbitrageError>)
        requires
            self.wf(),
            order.valid(),
        ensures
            (r is Ok) == self.spec_order_within_limits(*order),
            r matches Err(e) ==> e is RiskManagement,
    {
        let current: i64 = self.find_position_size(order.symbol.as_str());
        let new_position: i128 = match order.side {
            OrderSide::Buy => (current as i128) + (order.quantity as i128),
            OrderSide::Sell => (current as i128) - (order.quantity as i128),
        };
        let abs_new: i128 = if new_position < 0 {
            -new_position
        } else {
            new_position
        };
        if abs_new > (self.config.strategy.max_position_size as i128) {
            return Err(ArbitrageError::RiskManagement("Position size exceeds limit".to_owned()));
        }
        if order.quantity < self.config.execution.min_order_size {
            return Err(ArbitrageError::RiskManagement("Order size below minimum".to_owned()));
        }
        Ok(())
    }

    /// The tracked signed position size for a symbol.
    fn find_position_size(&self, symbol: &str) -> (r: i64)
        ensures
            r == spec_position_size(self.spec_positions(), symbol@),
    {
        let n: usize = self.positions.len();
        let mut i: usize = 0;
        proof {
            assert(self.positions@.subrange(0, n as int) =~= self.positions@);
        }
        while i < n
            invariant
                i <= n,
                n == self.positions@.len(),
                spec_find_position(self.positions@, symbol@) == spec_find_position(
                    self.positions@.subrange(i as int, n as int),
                    symbol@,
                ),
            decreases n - i,
        {
            proof {
                assert(self.positions@.subrange(i as int, n as int)[0] == self.positions@[
                    i as int]);
                assert(self.positions@.subrange(i as int, n as int).drop_first() =~= self
                    .positions@.subrange(i + 1 as int, n as int));
            }
            if crate::text::str_eq(self.positions[i].0.as_str(), symbol) {
                return self.positions[i].1.size;
            }
            i = i + 1;
        }
        proof {
            assert(self.positions@.subrange(n as int, n as int) =~= Seq::<
                (String, Position),
            >::empty());
        }
        0
    }

    /// Records a tracked position for its symbol, replacing any previous
    /// one.
    pub fn update_position(&mut self, position: Position)
        requires
            old(self).wf(),
        ensures
            final(self).wf(),
            final(self).spec_config() == old(self).spec_config(),
            final(self).spec_statistics() == old(self).spec_statistics(),
            final(self).spec_active_orders() == old(self).spec_active_orders(),
            spec_find_position(final(self).spec_positions(), position.symbol@) matches Some(p)
                && p.size == position.size,
    {
        let key: String = position.symbol.clone();
        let ghost sym = position.symbol@;
        let n: usize = self.positions.len();
        let mut i: usize = 0;
        while i < n
            invariant
                i <= n,
                n == self.positions@.len(),
                *self == *old(self),
                self.wf(),
                key@ == sym,
                sym == position.symbol@,
                forall|j: int| 0 <= j < i ==> #[trigger] self.positions@[j].0@ != sym,
            decreases n - i,
        {
            if crate::text::str_eq(self.positions[i].0.as_str(), key.as_str()) {
                self.positions[i] = (key, position);
                proof {
                    lemma_find_position_first(self.positions@, sym, i as int);
                }
                return ;
            }
            i = i + 1;
        }
        self.positions.push((key, position));
        proof {
            lemma_find_position_first(self.positions@, sym, self.positions@.len() - 1);
        }
    }

    /// Places an order: fails at once under emergency shutdown, then runs
    /// the risk check, then delegates to the venue link, tracking the
    /// order and the statistics either way.
    pub fn place_order(&mut self, exchange: Exchange, order: LimitOrder) -> (r: Result<
        OrderResponse,
        ArbitrageError,
    >)
        requires
            old(self).wf(),
            order.valid(),
        ensures
            final(self).wf(),
            final(self).spec_config() == old(self).spec_config(),
            final(self).spec_emergency_shutdown() == old(self).spec_emergency_shutdown(),
            final(self).spec_positions() == old(self).spec_positions(),
            old(self).spec_emergency_shutdown() ==> (r matches Err(e) && e is Trading) && final(self).spec_active_orders() == old(self).spec_active_orders() && final(self).spec_statistics() == old(self).spec_statistics(),
            !old(self).spec_emergency_shutdown() && !old(self).spec_order_within_limits(order)
                ==> (r matches Err(e) && e is RiskManagement) && final(self).spec_active_orders()
                == old(self).spec_active_orders() && final(self).spec_statistics() == old(self).spec_statistics(),
            !old(self).spec_emergency_shutdown() && old(self).spec_order_within_limits(order)
                && !old(self).spec_has_connector(exchange) ==> (r matches Err(e) && e is Trading)
                && final(self).spec_active_orders() == old(self).spec_active_orders() && final(self).spec_statistics() == old(self).spec_statistics(),
            !old(self).spec_emergency_shutdown() && old(self).spec_order_within_limits(order)
                && old(self).spec_has_connector(exchange) && r is Err ==> final(self).spec_active_orders() == old(self).spec_active_orders() && (old(self).spec_statistics().total_orders < u64::MAX ==> final(self).spec_statistics().total_orders == old(self).spec_statistics().total_orders + 1
                && final(self).spec_statistics().failed_orders == old(self).spec_statistics().failed_orders + 1 && final(self).spec_statistics()
                .successful_orders == old(self).spec_statistics().successful_orders),
            r matches Ok(resp) ==> final(self).spec_active_orders() == old(self).spec_active_orders().push((resp.order_id, exchange, resp)) && (old(self).spec_statistics().total_orders < u64::MAX ==> {
                let stat_qty: u64 = if resp.quantity > MAX_AMT {
                    MAX_AMT
                } else {
                    resp.quantity
                };
                let stat_price: u64 = if resp.price > MAX_AMT {
                    MAX_AMT
                } else {
                    resp.price
                };
                &&& final(self).spec_statistics().total_orders == old(self).spec_statistics().total_orders + 1
                &&& final(self).spec_statistics().successful_orders == old(self).spec_statistics().successful_orders + 1
                &&& final(self).spec_statistics().failed_orders == old(self).spec_statistics().failed_orders
                &&& final(self).spec_statistics().total_volume == clamp_ledger(
                    old(self).spec_statistics().total_volume + spec_mul_scale(
                        stat_qty as int,
                        stat_price as int,
                    ),
                )
                &&& final(self).spec_statistics().last_execution is Some
                &&& final(self).spec_statistics().success_rate == spec_success_percent(
                    final(self).spec_statistics().successful_orders as int,
                    final(self).spec_statistics().total_orders as int,
                )
            }),
    {
        if self.emergency_shutdown {
            return Err(ArbitrageError::Trading("System in emergency shutdown".to_owned()));
        }
        match self.check_risk_limits(&order) {
            Err(e) => {
                return Err(e);
            },
            Ok(()) => {},
        }
        let started_ms: i64 = crate::runtime::now_millis();
        let idx = self.find_connector(exchange);
        let i: usize = match idx {
            Some(i) => i,
            None => {
                return Err(ArbitrageError::Trading("No connector for exchange".to_owned()));
            },
        };
        let result = self.connectors[i].1.place_limit_order(&order);
        let ended_ms: i64 = crate::runtime::now_millis();
        let diff_ms: i128 = (ended_ms as i128) - (started_ms as i128);
        let elapsed_ms: u64 = if 0 < diff_ms && diff_ms <= (u64::MAX as i128) {
            diff_ms as u64
        } else {
            0
        };
        match result {
            Ok(resp) => {
                let resp_copy = clone_live_response(&resp);
                let id_copy: String = resp.order_id.clone();
                let stat_qty: u64 = if resp.quantity > MAX_AMT {
                    MAX_AMT
                } else {
                    resp.quantity
                };
                let stat_price: u64 = if resp.price > MAX_AMT {
                    MAX_AMT
                } else {
                    resp.price
                };
                self.active_orders.push((id_copy, exchange, resp));
                self.record_order_outcome(true, elapsed_ms, stat_qty, stat_price);
                proof {
                    assert(final(self).spec_active_orders() =~= old(self).spec_active_orders()
                        .push(
                        (resp_copy.order_id, exchange, resp_copy),
                    ));
                }
                Ok(resp_copy)
            },
            Err(e) => {
                self.record_order_outcome(false, elapsed_ms, 0, 0);
                Err(e)
            },
        }
    }

    /// Folds one placement outcome into the statistics. A counter at its
    /// ceiling leaves the statistics untouched.
    fn record_order_outcome(&mut self, success: bool, elapsed_ms: u64, quantity: u64, price: u64)
        requires
            old(self).wf(),
            quantity <= MAX_AMT,
            price <= MAX_AMT,
        ensures
            final(self).wf(),
            final(self).spec_config() == old(self).spec_config(),
            final(self).spec_active_orders() == old(self).spec_active_orders(),
            final(self).spec_positions() == old(self).spec_positions(),
            final(self).spec_emergency_shutdown() == old(self).spec_emergency_shutdown(),
            old(self).spec_statistics().total_orders == u64::MAX ==> final(self).spec_statistics()
                == old(self).spec_statistics(),
            old(self).spec_statistics().total_orders < u64::MAX ==> {
                &&& final(self).spec_statistics().total_orders == old(self).spec_statistics().total_orders + 1
                &&& (success ==> final(self).spec_statistics().successful_orders == old(self).spec_statistics().successful_orders + 1 && final(self).spec_statistics()
                    .failed_orders == old(self).spec_statistics().failed_orders)
                &&& (!success ==> final(self).spec_statistics().failed_orders == old(self).spec_statistics().failed_orders + 1 && final(self).spec_statistics()
                    .successful_orders == old(self).spec_statistics().successful_orders
                    && final(self).spec_statistics().total_volume == old(self).spec_statistics().total_volume && final(self).spec_statistics().last_execution
                    == old(self).spec_statistics().last_execution)
                &&& (success ==> final(self).spec_statistics().total_volume == clamp_ledger(
                    old(self).spec_statistics().total_volume + spec_mul_scale(
                        quantity as int,
                        price as int,
                    ),
                ) && final(self).spec_statistics().last_execution is Some)
                &&& final(self).spec_statistics().success_rate == spec_success_percent(
                    final(self).spec_statistics().successful_orders as int,
                    final(self).spec_statistics().total_orders as int,
                )
            },
    {
        if self.statistics.total_orders == u64::MAX {
            return ;
        }
        let n: u64 = self.statistics.total_orders + 1;
        self.statistics.total_orders = n;
        if success {
            self.statistics.successful_orders = self.statistics.successful_orders + 1;
            proof {
                assert(0 <= (quantity as int) * (price as int) <= (MAX_AMT as int) * (
                MAX_AMT as int)) by (nonlinear_arith)
                    requires
                        0 <= quantity <= MAX_AMT as int,
                        0 <= price <= MAX_AMT as int,
                ;
                assert(0 <= (quantity as int) * (price as int) / (SCALE as int) <= (MAX_AMT as int)
                    * (MAX_AMT as int) / (SCALE as int)) by (nonlinear_arith)
                    requires
                        0 <= (quantity as int) * (price as int) <= (MAX_AMT as int) * (
                        MAX_AMT as int),
                        SCALE as int >= 1,
                ;
            }
            let notional: u64 = crate::amounts::mul_scale(quantity, price);
            self.statistics.total_volume = ledger_add(
                self.statistics.total_volume,
                notional as i128,
            );
            self.statistics.last_execution = Some(crate::runtime::now_secs());
        } else {
            self.statistics.failed_orders = self.statistics.failed_orders + 1;
        }
        self.statistics.avg_execution_time_ms = crate::amounts::running_mean(
            self.statistics.avg_execution_time_ms,
            elapsed_ms,
            n,
        );
        let succ: u64 = self.statistics.successful_orders;
        proof {
            assert((succ as int) * 100 * (SCALE as int) >= 0 && (succ as int) * 100 * (
            SCALE as int) <= (n as int) * 100 * (SCALE as int)) by (nonlinear_arith)
                requires
                    0 <= succ <= n as int,
                    SCALE as int >= 1,
            ;
            assert(0 <= (succ as int) * 100 * (SCALE as int) / (n as int) <= (n as int) * 100 * (
            SCALE as int) / (n as int)) by (nonlinear_arith)
                requires
                    0 <= (succ as int) * 100 * (SCALE as int) <= (n as int) * 100 * (SCALE as int),
                    n as int >= 1,
            ;
            assert((n as int) * 100 * (SCALE as int) / (n as int) == 100 * (SCALE as int)) by (
            nonlinear_arith)
                requires
                    n as int >= 1,
            ;
        }
        let num: u128 = (succ as u128) * 100u128 * (SCALE as u128);
        let rate: u64 = (num / (n as u128)) as u64;
        self.statistics.success_rate = rate;
    }

    /// The index of the link for a venue.
    fn find_connector(&self, exchange: Exchange) -> (r: Option<usize>)
        ensures
            r matches Some(i) ==> i < self.spec_connector_count(),
            (r is Some) == self.spec_has_connector(exchange),
    {
        let n: usize = self.connectors.len();
        let mut i: usize = 0;
        while i < n
            invariant
                i <= n,
                n == self.connectors@.len(),
                forall|j: int| 0 <= j < i ==> #[trigger] self.connectors@[j].0 != exchange,
            decreases n - i,
        {
            if self.connectors[i].0 == exchange {
                proof {
                    assert(self.connectors@[i as int].0 == exchange);
                }
                return Some(i);
            }
            i = i + 1;
        }
        None
    }

    /// Places an order with up to the configured number of attempts,
    /// waiting one second times the attempt number between attempts, and
    /// returns the last error when every attempt failed.
    pub fn place_order_with_retry(&mut self, exchange: Exchange, order: LimitOrder) -> (r: Result<
        OrderResponse,
        ArbitrageError,
    >)
        requires
            old(self).wf(),
            order.valid(),
            old(self).spec_config().execution.max_retry_attempts >= 1,
        ensures
            final(self).wf(),
            final(self).spec_config() == old(self).spec_config(),
            old(self).spec_emergency_shutdown() ==> r is Err,
    {
        let max_retries: u32 = self.config.execution.max_retry_attempts;
        let mut attempt: u32 = 1;
        loop
            invariant
                1 <= attempt <= max_retries,
                max_retries == self.spec_config().execution.max_retry_attempts,
                self.wf(),
                order.valid(),
                self.spec_config() == old(self).spec_config(),
                self.spec_emergency_shutdown() == old(self).spec_emergency_shutdown(),
            decreases max_retries - attempt,
        {
            let result = self.place_order(exchange, order.clone_order());
            match result {
                Ok(resp) => {
                    return Ok(resp);
                },
                Err(e) => {
                    if attempt >= max_retries {
                        return Err(e);
                    }
                    let delay_ms: u64 = 1000 * (attempt as u64);
                    match self.find_connector(exchange) {
                        Some(i) => {
                            self.connectors[i].1.wait_for_retry(delay_ms);
                        },
                        None => {},
                    }
                    attempt = attempt + 1;
                },
            }
        }
    }

    /// Cancels an order at its venue and, on success, drops its first
    /// entry from the active-orders table.
    pub fn cancel_order(&mut self, exchange: Exchange, symbol: &str, order_id: &str) -> (r: Result<
        OrderResponse,
        ArbitrageError,
    >)
        requires
            old(self).wf(),
        ensures
            final(self).wf(),
            final(self).spec_config() == old(self).spec_config(),
            final(self).spec_statistics() == old(self).spec_statistics(),
            final(self).spec_emergency_shutdown() == old(self).spec_emergency_shutdown(),
            r is Ok ==> final(self).spec_active_orders() == spec_remove_order(
                old(self).spec_active_orders(),
                order_id@,
            ),
            r is Err ==> final(self).spec_active_orders() == old(self).spec_active_orders(),
    {
        let idx = self.find_connector(exchange);
        let i: usize = match idx {
            Some(i) => i,
            None => {
                return Err(ArbitrageError::Trading("No connector for exchange".to_owned()));
            },
        };
        let result = self.connectors[i].1.cancel_order(symbol, order_id);
        match result {
            Ok(resp) => {
                self.remove_active_order(order_id);
                Ok(resp)
            },
            Err(e) => Err(e),
        }
    }

    /// Drops the first active-orders entry for an order id.
    fn remove_active_order(&mut self, order_id: &str)
        ensures
            final(self).spec_active_orders() == spec_remove_order(
                old(self).spec_active_orders(),
                order_id@,
            ),
            final(self).spec_config() == old(self).spec_config(),
            final(self).spec_statistics() == old(self).spec_statistics(),
            final(self).spec_positions() == old(self).spec_positions(),
            final(self).spec_emergency_shutdown() == old(self).spec_emergency_shutdown(),
            final(self).wf() == old(self).wf(),
    {
        let n: usize = self.active_orders.len();
        let mut i: usize = 0;
        let mut found: Option<usize> = None;
        while i < n && found.is_none()
            invariant
                i <= n,
                n == self.active_orders@.len(),
                self.active_orders@ == old(self).spec_active_orders(),
                found is None ==> forall|j: int|
                    0 <= j < i ==> #[trigger] self.active_orders@[j].0@ != order_id@,
                found matches Some(f) ==> f < n && self.active_orders@[f as int].0@ == order_id@
                    && (forall|j: int|
                    0 <= j < f ==> #[trigger] self.active_orders@[j].0@ != order_id@),
            decreases n - i,
        {
            if crate::text::str_eq(self.active_orders[i].0.as_str(), order_id) {
                found = Some(i);
            }
            i = i + 1;
        }
        match found {
            Some(f) => {
                self.active_orders.remove(f);
                proof {
                    lemma_remove_order_at(old(self).spec_active_orders(), order_id@, f as int);
                }
            },
            None => {
                proof {
                    lemma_remove_order_absent(old(self).spec_active_orders(), order_id@);
                }
            },
        }
    }

    /// The status of an order at its venue.
    pub fn get_order_status(&self, exchange: Exchange, symbol: &str, order_id: &str) -> (r: Result<
        OrderStatus,
        ArbitrageError,
    >) {
        let idx = self.find_connector(exchange);
        match idx {
            Some(i) => self.connectors[i].1.get_order_status(symbol, order_id),
            None => Err(ArbitrageError::Trading("No connector for exchange".to_owned())),
        }
    }

    /// The tracked positions, as a copy.
    pub fn get_positions(&self) -> (r: Result<Vec<(String, Position)>, ArbitrageError>)
        ensures
            r matches Ok(v) ==> v@.len() == self.spec_positions().len() && (forall|k: int|
                0 <= k < v@.len() ==> #[trigger] v@[k].0@ == self.spec_positions()[k].0@
                    && v@[k].1.size == self.spec_positions()[k].1.size),
    {
        let n: usize = self.positions.len();
        let mut out: Vec<(String, Position)> = Vec::new();
        let mut i: usize = 0;
        while i < n
            invariant
                i <= n,
                n == self.positions@.len(),
                out@.len() == i,
                forall|k: int|
                    0 <= k < i ==> #[trigger] out@[k].0@ == self.positions@[k].0@ && out@[k].1.size
                        == self.positions@[k].1.size,
            decreases n - i,
        {
            let key: String = self.positions[i].0.clone();
            let p = &self.positions[i].1;
            let copy = Position {
                exchange: p.exchange,
                symbol: p.symbol.clone(),
                size: p.size,
                avg_price: p.avg_price,
                unrealized_pnl: p.unrealized_pnl,
                last_update: p.last_update,
            };
            out.push((key, copy));
            i = i + 1;
        }
        Ok(out)
    }

    /// Subscribes to order-book and trade updates for a symbol at a venue.
    pub fn subscribe_market_data(&mut self, exchange: Exchange, symbol: &str) -> (r: Result<
        (),
        ArbitrageError,
    >)
        requires
            old(self).wf(),
        ensures
            final(self).wf(),
            final(self).spec_config() == old(self).spec_config(),
    {
        let idx = self.find_connector(exchange);
        let i: usize = match idx {
            Some(i) => i,
            None => {
                return Err(ArbitrageError::Trading("No connector for exchange".to_owned()));
            },
        };
        match self.connectors[i].1.subscribe_orderbook(symbol) {
            Err(e) => {
                return Err(e);
            },
            Ok(()) => {},
        }
        match self.connectors[i].1.subscribe_trades(symbol) {
            Err(e) => {
                return Err(e);
            },
            Ok(()) => {},
        }
        Ok(())
    }

    /// Caches an incoming order-book snapshot.
    pub fn process_market_data(&mut self, exchange: Exchange, orderbook: OrderBook) -> (r: Result<
        (),
        ArbitrageError,
    >)
        requires
            old(self).wf(),
        ensures
            final(self).wf(),
            r is Ok,
            final(self).spec_config() == old(self).spec_config(),
            final(self).spec_statistics() == old(self).spec_statistics(),
            crate::data::spec_find_book(
                final(self).spec_books(),
                orderbook.spec_exchange(),
                orderbook.spec_symbol(),
            ) == Some(orderbook),
    {
        let _ = exchange;
        self.market_data.update_book(orderbook);
        Ok(())
    }

    /// Marks a venue unhealthy after a connection error, counts the
    /// error, and attempts one reconnection; a successful reconnection
    /// restores the venue's flag, a failed one propagates its error.
    pub fn handle_connection_error(&mut self, exchange: Exchange) -> (r: Result<
        (),
        ArbitrageError,
    >)
        requires
            old(self).wf(),
        ensures
            final(self).wf(),
            final(self).spec_config() == old(self).spec_config(),
            final(self).spec_recent_errors() == (if old(self).spec_recent_errors() < u64::MAX {
                old(self).spec_recent_errors() + 1
            } else {
                old(self).spec_recent_errors() as int
            }),
            r is Err ==> !final(self).spec_is_healthy() && spec_flag_of(
                final(self).spec_connection_flags(),
                exchange,
            ) == Some(false),
            !old(self).spec_has_connector(exchange) ==> r is Ok && !final(self).spec_is_healthy()
                && spec_flag_of(final(self).spec_connection_flags(), exchange) == Some(false),
            old(self).spec_has_connector(exchange) && r is Ok ==> spec_flag_of(
                final(self).spec_connection_flags(),
                exchange,
            ) == Some(true) && final(self).spec_is_healthy() == all_flags_up(
                final(self).spec_connection_flags(),
            ),
    {
        self.set_connection_flag(exchange, false);
        proof {
            assert(self.connectors@ == old(self).spec_connectors());
        }
        self.health.is_healthy = false;
        if self.health.recent_errors < u64::MAX {
            self.health.recent_errors = self.health.recent_errors + 1;
        }
        let idx = self.find_connector(exchange);
        proof {
            if old(self).spec_has_connector(exchange) {
                let j = choose|j: int|
                    0 <= j < old(self).connectors@.len() && #[trigger] old(self).connectors@[j].0
                        == exchange;
                assert(self.connectors@[j].0 == exchange);
            }
            if self.spec_has_connector(exchange) {
                let j = choose|j: int|
                    0 <= j < self.connectors@.len() && #[trigger] self.connectors@[j].0
                        == exchange;
                assert(old(self).connectors@[j].0 == exchange);
            }
            assert(self.spec_has_connector(exchange) == old(self).spec_has_connector(exchange));
        }
        match idx {
            None => Ok(()),
            Some(i) => {
                match self.connectors[i].1.connect() {
                    Ok(()) => {
                        self.set_connection_flag(exchange, true);
                        proof {
                            assert(spec_flag_of(
                                self.health.exchange_connections@,
                                exchange,
                            ) == Some(true));
                        }
                        self.recompute_health();
                        Ok(())
                    },
                    Err(e) => Err(e),
                }
            },
        }
    }

    /// Sets the link flag for a venue, adding the entry if absent; every
    /// other venue keeps its flag.
    fn set_connection_flag(&mut self, exchange: Exchange, up: bool)
        ensures
            final(self).spec_config() == old(self).spec_config(),
            final(self).spec_statistics() == old(self).spec_statistics(),
            final(self).spec_active_orders() == old(self).spec_active_orders(),
            final(self).spec_positions() == old(self).spec_positions(),
            final(self).spec_emergency_shutdown() == old(self).spec_emergency_shutdown(),
            final(self).spec_recent_errors() == old(self).spec_recent_errors(),
            final(self).spec_is_healthy() == old(self).spec_is_healthy(),
            final(self).spec_connectors() == old(self).spec_connectors(),
            final(self).wf() == old(self).wf(),
            spec_flag_of(final(self).spec_connection_flags(), exchange) == Some(up),
            forall|e: Exchange|
                e != exchange ==> #[trigger] spec_flag_of(final(self).spec_connection_flags(), e)
                    == spec_flag_of(old(self).spec_connection_flags(), e),
    {
        let ghost old_flags = self.health.exchange_connections@;
        let n: usize = self.health.exchange_connections.len();
        let mut i: usize = 0;
        while i < n
            invariant
                i <= n,
                n == self.health.exchange_connections@.len(),
                self == old(self),
                old_flags == old(self).spec_connection_flags(),
                forall|j: int|
                    0 <= j < i ==> #[trigger] self.health.exchange_connections@[j].0 != exchange,
            decreases n - i,
        {
            if self.health.exchange_connections[i].0 == exchange {
                self.health.exchange_connections[i] = (exchange, up);
                proof {
                    let flags = self.health.exchange_connections@;
                    assert(flags == old_flags.update(i as int, flags[i as int]));
                    lemma_flag_of_at(flags, exchange, i as int);
                    assert forall|e: Exchange| e != exchange implies #[trigger] spec_flag_of(
                        flags,
                        e,
                    ) == spec_flag_of(old_flags, e) by {
                        lemma_flag_of_update(old_flags, flags, i as int, e);
                    }
                }
                return ;
            }
            i = i + 1;
        }
        self.health.exchange_connections.push((exchange, up));
        proof {
            let flags = self.health.exchange_connections@;
            assert(flags =~= old_flags + seq![flags[flags.len() - 1]]);
            lemma_flag_of_at(flags, exchange, flags.len() - 1);
            assert forall|e: Exchange| e != exchange implies #[trigger] spec_flag_of(flags, e)
                == spec_flag_of(old_flags, e) by {
                lemma_flag_of_append(old_flags, flags[flags.len() - 1], e);
            }
        }
    }

    /// Recomputes overall health as the conjunction of the per-venue
    /// flags.
    fn recompute_health(&mut self)
        ensures
            final(self).spec_config() == old(self).spec_config(),
            final(self).spec_statistics() == old(self).spec_statistics(),
            final(self).spec_active_orders() == old(self).spec_active_orders(),
            final(self).spec_positions() == old(self).spec_positions(),
            final(self).spec_emergency_shutdown() == old(self).spec_emergency_shutdown(),
            final(self).spec_recent_errors() == old(self).spec_recent_errors(),
            final(self).spec_connectors() == old(self).spec_connectors(),
            final(self).wf() == old(self).wf(),
            final(self).spec_connection_flags() == old(self).spec_connection_flags(),
            final(self).spec_is_healthy() == all_flags_up(old(self).spec_connection_flags()),
    {
        let n: usize = self.health.exchange_connections.len();
        let mut all_up: bool = true;
        let mut i: usize = 0;
        while i < n
            invariant
                i <= n,
                n == self.health.exchange_connections@.len(),
                self == old(self),
                all_up ==> forall|j: int|
                    0 <= j < i ==> #[trigger] self.health.exchange_connections@[j].1,
                !all_up ==> exists|j: int|
                    0 <= j < i && !(#[trigger] self.health.exchange_connections@[j].1),
            decreases n - i,
        {
            if !self.health.exchange_connections[i].1 {
                all_up = false;
                proof {
                    assert(!self.health.exchange_connections@[i as int].1);
                }
            }
            i = i + 1;
        }
        self.health.is_healthy = all_up;
        proof {
            if !all_up {
                assert(!all_flags_up(final(self).spec_connection_flags()));
            }
        }
    }

    /// Emergency shutdown: sets the shutdown flag, attempts to cancel
    /// every tracked active order and to disconnect every link, best
    /// effort throughout, and always completes successfully.
    pub fn emergency_shutdown(&mut self) -> (r: Result<(), ArbitrageError>)
        requires
            old(self).wf(),
        ensures
            final(self).wf(),
            r is Ok,
            final(self).spec_emergency_shutdown(),
            final(self).spec_config() == old(self).spec_config(),
    {
        self.emergency_shutdown = true;
        // best-effort cancel of every tracked order
        let mut worklist: Vec<(String, Exchange, String)> = Vec::new();
        let n: usize = self.active_orders.len();
        let mut i: usize = 0;
        while i < n
            invariant
                i <= n,
                n == self.active_orders@.len(),
                self.wf(),
                self.spec_config() == old(self).spec_config(),
                self.spec_emergency_shutdown(),
            decreases n - i,
        {
            let id: String = self.active_orders[i].0.clone();
            let ex: Exchange = self.active_orders[i].1;
            let sym: String = self.active_orders[i].2.symbol.clone();
            worklist.push((id, ex, sym));
            i = i + 1;
        }
        let m: usize = worklist.len();
        let mut w: usize = 0;
        while w < m
            invariant
                w <= m,
                m == worklist@.len(),
                self.wf(),
                self.spec_config() == old(self).spec_config(),
                self.spec_emergency_shutdown(),
            decreases m - w,
        {
            let _ = self.cancel_order(
                worklist[w].1,
                worklist[w].2.as_str(),
                worklist[w].0.as_str(),
            );
            w = w + 1;
        }
        // best-effort disconnect of every link
        let cn: usize = self.connectors.len();
        let mut c: usize = 0;
        while c < cn
            invariant
                c <= cn,
                cn == self.connectors@.len(),
                self.wf(),
                self.spec_config() == old(self).spec_config(),
                self.spec_emergency_shutdown(),
            decreases cn - c,
        {
            let _ = self.connectors[c].1.disconnect();
            c = c + 1;
        }
        Ok(())
    }

    /// The current health snapshot, with a fresh uptime and active-order
    /// count.
    pub fn get_health_status(&mut self) -> (r: Result<HealthStatus, ArbitrageError>)
        requires
            old(self).wf(),
        ensures
            final(self).wf(),
            final(self).spec_config() == old(self).spec_config(),
            final(self).spec_statistics() == old(self).spec_statistics(),
            final(self).spec_active_orders() == old(self).spec_active_orders(),
            r matches Ok(h) ==> h.is_healthy == old(self).spec_is_healthy() && h.active_orders
                == old(self).spec_active_orders().len() && h.recent_errors == old(self).spec_recent_errors(),
    {
        let now: i64 = crate::runtime::now_secs();
        let diff_secs: i128 = (now as i128) - (self.start_time_secs as i128);
        let uptime: u64 = if 0 < diff_secs && diff_secs <= (u64::MAX as i128) {
            diff_secs as u64
        } else {
            0
        };
        self.health.uptime_seconds = uptime;
        self.health.active_orders = self.active_orders.len() as u64;
        let flags = &self.health.exchange_connections;
        let fn_: usize = flags.len();
        let mut flags_copy: Vec<(Exchange, bool)> = Vec::new();
        let mut i: usize = 0;
        while i < fn_
            invariant
                i <= fn_,
                fn_ == flags@.len(),
                flags_copy@.len() == i,
            decreases fn_ - i,
        {
            flags_copy.push(flags[i]);
            i = i + 1;
        }
        Ok(
            HealthStatus {
                is_healthy: self.health.is_healthy,
                exchange_connections: flags_copy,
                last_heartbeat: self.health.last_heartbeat,
                active_orders: self.health.active_orders,
                recent_errors: self.health.recent_errors,
                uptime_seconds: self.health.uptime_seconds,
            },
        )
    }

    /// Whether the emergency-shutdown flag is set.
    pub fn is_emergency_shutdown(&self) -> (r: bool)
        ensures
            r == self.spec_emergency_shutdown(),
    {
        self.emergency_shutdown
    }

    /// The execution statistics.
    pub fn get_execution_statistics(&self) -> (r: Result<ExecutionStatistics, ArbitrageError>)
        ensures
            r matches Ok(s) && s == self.spec_statistics(),
    {
        Ok(self.statistics)
    }

    /// Static venue information; symbols only, until a venue adapter
    /// supplies the rest.
    pub fn get_exchange_info(&self, exchange: Exchange) -> (r: Result<
        ExchangeInfo,
        ArbitrageError,
    >)
        ensures
            r matches Ok(info) && info.exchange == exchange && info.symbols@.len() == 2,
    {
        let mut symbols: Vec<String> = Vec::new();
        symbols.push(String::from_str("BTCUSDT"));
        symbols.push(String::from_str("ETHUSDT"));
        Ok(
            ExchangeInfo {
                exchange,
                symbols,
                fees: Vec::new(),
                min_order_sizes: Vec::new(),
                tick_sizes: Vec::new(),
                server_time: crate::runtime::now_secs(),
            },
        )
    }
}

/// The net position an order would leave: the current position moved by
/// the order quantity in the order's direction.
pub open spec fn spec_new_position(current: int, side: OrderSide, quantity: int) -> int {
    if side is Buy {
        current + quantity
    } else {
        current - quantity
    }
}

/// The find for a symbol lands on the entry at the first position
/// holding it.
proof fn lemma_find_position_first(s: Seq<(String, Position)>, sym: Seq<char>, i: int)
    requires
        0 <= i < s.len(),
        s[i].0@ == sym,
        forall|j: int| 0 <= j < i ==> #[trigger] s[j].0@ != sym,
    ensures
        spec_find_position(s, sym) == Some(s[i].1),
    decreases s.len(),
{
    if i == 0 {
    } else {
        assert(s.drop_first()[i - 1] == s[i]);
        assert forall|j: int| 0 <= j < i - 1 implies #[trigger] s.drop_first()[j].0@ != sym by {
            assert(s.drop_first()[j] == s[j + 1]);
        }
        lemma_find_position_first(s.drop_first(), sym, i - 1);
    }
}

/// Removing at the first position holding an id is the specification's
/// removal.
proof fn lemma_remove_order_at(s: Seq<(String, Exchange, OrderResponse)>, id: Seq<char>, f: int)
    requires
        0 <= f < s.len(),
        s[f].0@ == id,
        forall|j: int| 0 <= j < f ==> #[trigger] s[j].0@ != id,
    ensures
        s.remove(f) == spec_remove_order(s, id),
    decreases s.len(),
{
    if f == 0 {
        assert(s.remove(0) =~= s.drop_first());
    } else {
        assert(s.drop_first()[f - 1] == s[f]);
        assert forall|j: int| 0 <= j < f - 1 implies #[trigger] s.drop_first()[j].0@ != id by {
            assert(s.drop_first()[j] == s[j + 1]);
        }
        lemma_remove_order_at(s.drop_first(), id, f - 1);
        assert(s.remove(f) =~= seq![s[0]] + s.drop_first().remove(f - 1));
    }
}

/// Removing an absent id changes nothing.
proof fn lemma_remove_order_absent(s: Seq<(String, Exchange, OrderResponse)>, id: Seq<char>)
    requires
        forall|j: int| 0 <= j < s.len() ==> #[trigger] s[j].0@ != id,
    ensures
        spec_remove_order(s, id) == s,
    decreases s.len(),
{
    if s.len() > 0 {
        assert forall|j: int| 0 <= j < s.drop_first().len() implies #[trigger] s.drop_first()[j].0@
            != id by {
            assert(s.drop_first()[j] == s[j + 1]);
        }
        lemma_remove_order_absent(s.drop_first(), id);
        assert(seq![s[0]] + s.drop_first() =~= s);
    }
}

/// A fieldwise copy of an order response.
fn clone_live_response(r: &OrderResponse) -> (c: OrderResponse)
    ensures
        c == *r,
{
    let client_order_id: Option<String> = match &r.client_order_id {
        Some(cid) => Some(cid.clone()),
        None => None,
    };
    OrderResponse {
        order_id: r.order_id.clone(),
        client_order_id,
        symbol: r.symbol.clone(),
        side: r.side,
        quantity: r.quantity,
        price: r.price,
        status: r.status,
        filled_quantity: r.filled_quantity,
        average_price: r.average_price,
        timestamp: r.timestamp,
    }
}

} // verus!
