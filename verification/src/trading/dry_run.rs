//! Execution simulation: a portfolio ledger, performance metrics, and a
//! dry-run executor that models slippage, market impact, partial fills,
//! rejection and fees.

use vstd::prelude::*;
use vstd::string::StringExecFns;

use crate::amounts::{
    AMT_LIMIT, MAX_AMT, SCALE, clamp_ledger, in_ledger_range, ledger_add, ledger_clamp,
    spec_adjust_up, spec_adjust_down, spec_mul_scale,
};
use crate::config::ArbitrageConfig;
use crate::connectors::Exchange;
use crate::connectors::traits::{LimitOrder, OrderResponse, OrderSide, OrderStatus, TimeInForce};
use crate::data::{MarketDataManager, OrderBook, spec_first_for_symbol};
use crate::trading::ExecutionResults;
use crate::ArbitrageError;

verus! {

/// The first amount bound to a key, if any.
pub open spec fn spec_lookup_amt(s: Seq<(String, i128)>, key: Seq<char>) -> Option<i128>
    decreases s.len(),
{
    if s.len() == 0 {
        None
    } else if s[0].0@ == key {
        Some(s[0].1)
    } else {
        spec_lookup_amt(s.drop_first(), key)
    }
}

/// The amount bound to a key, or zero.
pub open spec fn spec_amount(s: Seq<(String, i128)>, key: Seq<char>) -> int {
    match spec_lookup_amt(s, key) {
        Some(v) => v as int,
        None => 0,
    }
}

/// No two entries share a key.
pub open spec fn amt_keys_unique(s: Seq<(String, i128)>) -> bool {
    forall|i: int, j: int|
        0 <= i < j < s.len() ==> #[trigger] s[i].0@ != #[trigger] s[j].0@
}

/// Every amount lies in the ledger range.
pub open spec fn amts_in_range(s: Seq<(String, i128)>) -> bool {
    forall|i: int| 0 <= i < s.len() ==> in_ledger_range(#[trigger] s[i].1)
}

/// In a key-unique ledger, the entry at a position holding a key is the
/// entry the lookup finds.
proof fn lemma_lookup_amt_at(s: Seq<(String, i128)>, key: Seq<char>, i: int)
    requires
        0 <= i < s.len(),
        s[i].0@ == key,
        amt_keys_unique(s),
    ensures
        spec_lookup_amt(s, key) == Some(s[i].1),
    decreases s.len(),
{
    if i == 0 {
    } else {
        assert(s[0].0@ != s[i].0@);
        assert(amt_keys_unique(s.drop_first())) by {
            assert forall|x: int, y: int|
                0 <= x < y < s.drop_first().len() implies #[trigger] s.drop_first()[x].0@
                != #[trigger] s.drop_first()[y].0@ by {
                assert(s.drop_first()[x] == s[x + 1]);
                assert(s.drop_first()[y] == s[y + 1]);
            }
        }
        assert(s.drop_first()[i - 1] == s[i]);
        lemma_lookup_amt_at(s.drop_first(), key, i - 1);
    }
}

/// A key no position holds is not found.
proof fn lemma_lookup_amt_none(s: Seq<(String, i128)>, key: Seq<char>)
    requires
        forall|j: int| 0 <= j < s.len() ==> #[trigger] s[j].0@ != key,
    ensures
        spec_lookup_amt(s, key) is None,
    decreases s.len(),
{
    if s.len() > 0 {
        assert forall|j: int| 0 <= j < s.drop_first().len() implies #[trigger] s.drop_first()[j].0@
            != key by {
            assert(s.drop_first()[j] == s[j + 1]);
        }
        lemma_lookup_amt_none(s.drop_first(), key);
    }
}

/// Replacing the amount at one position leaves lookups of every other
/// key unchanged.
proof fn lemma_lookup_amt_update(
    s1: Seq<(String, i128)>,
    s2: Seq<(String, i128)>,
    i: int,
    key: Seq<char>,
)
    requires
        0 <= i < s1.len(),
        s2 == s1.update(i, s2[i]),
        s1[i].0@ == s2[i].0@,
        s2[i].0@ != key,
    ensures
        spec_lookup_amt(s2, key) == spec_lookup_amt(s1, key),
    decreases s1.len(),
{
    if s1.len() == 0 {
    } else if i == 0 {
        assert(s2.drop_first() =~= s1.drop_first());
    } else {
        assert(s2[0] == s1[0]);
        if s1[0].0@ == key {
        } else {
            assert(s2.drop_first() =~= s1.drop_first().update(i - 1, s2[i]));
            assert(s2.drop_first()[i - 1] == s2[i]);
            assert(s1.drop_first()[i - 1] == s1[i]);
            lemma_lookup_amt_update(s1.drop_first(), s2.drop_first(), i - 1, key);
        }
    }
}

/// Appending an entry leaves lookups of every other key unchanged.
proof fn lemma_lookup_amt_append(s: Seq<(String, i128)>, entry: (String, i128), key: Seq<char>)
    requires
        entry.0@ != key,
    ensures
        spec_lookup_amt(s + seq![entry], key) == spec_lookup_amt(s, key),
    decreases s.len(),
{
    if s.len() == 0 {
        assert((s + seq![entry])[0] == entry);
        assert((s + seq![entry]).drop_first() =~= Seq::<(String, i128)>::empty());
        assert(spec_lookup_amt(Seq::<(String, i128)>::empty(), key) is None);
    } else {
        assert((s + seq![entry])[0] == s[0]);
        if s[0].0@ == key {
        } else {
            assert((s + seq![entry]).drop_first() =~= s.drop_first() + seq![entry]);
            lemma_lookup_amt_append(s.drop_first(), entry, key);
        }
    }
}

/// Reads the amount bound to a key, or zero.
fn amt_get(v: &Vec<(String, i128)>, key: &str) -> (r: i128)
    requires
        amt_keys_unique(v@),
        amts_in_range(v@),
    ensures
        r == spec_amount(v@, key@),
        in_ledger_range(r),
{
    let n: usize = v.len();
    let mut i: usize = 0;
    while i < n
        invariant
            i <= n,
            n == v@.len(),
            amt_keys_unique(v@),
            amts_in_range(v@),
            forall|j: int| 0 <= j < i ==> #[trigger] v@[j].0@ != key@,
        decreases n - i,
    {
        if crate::text::str_eq(v[i].0.as_str(), key) {
            proof {
                lemma_lookup_amt_at(v@, key@, i as int);
                assert(in_ledger_range(v@[i as int].1));
            }
            return v[i].1;
        }
        i = i + 1;
    }
    proof {
        lemma_lookup_amt_none(v@, key@);
    }
    0
}

/// Adds a delta to the amount bound to a key, saturating at the ledger
/// bound; an absent key counts as zero.
fn amt_add(v: &mut Vec<(String, i128)>, key: &str, delta: i128)
    requires
        amt_keys_unique(old(v)@),
        amts_in_range(old(v)@),
        -(AMT_LIMIT as int) * 2 <= delta <= (AMT_LIMIT as int) * 2,
    ensures
        amt_keys_unique(final(v)@),
        amts_in_range(final(v)@),
        spec_amount(final(v)@, key@) == clamp_ledger(spec_amount(old(v)@, key@) + delta),
        forall|k: Seq<char>|
            k != key@ ==> #[trigger] spec_lookup_amt(final(v)@, k) == spec_lookup_amt(old(v)@, k),
{
    let ghost old_v = v@;
    let n: usize = v.len();
    let mut i: usize = 0;
    while i < n
        invariant
            i <= n,
            n == v@.len(),
            v@ == old_v,
            old_v == old(v)@,
            amt_keys_unique(v@),
            amts_in_range(v@),
            -(AMT_LIMIT as int) * 2 <= delta <= (AMT_LIMIT as int) * 2,
            forall|j: int| 0 <= j < i ==> #[trigger] v@[j].0@ != key@,
        decreases n - i,
    {
        if crate::text::str_eq(v[i].0.as_str(), key) {
            proof {
                lemma_lookup_amt_at(v@, key@, i as int);
                assert(in_ledger_range(v@[i as int].1));
            }
            let updated: i128 = ledger_add(v[i].1, delta);
            let name: String = v[i].0.clone();
            v[i] = (name, updated);
            proof {
                assert(v@ == old_v.update(i as int, v@[i as int]));
                assert forall|x: int, y: int|
                    0 <= x < y < v@.len() implies #[trigger] v@[x].0@ != #[trigger] v@[y].0@ by {
                    assert(old_v[x].0@ != old_v[y].0@);
                }
                assert forall|x: int| 0 <= x < v@.len() implies in_ledger_range(
                    #[trigger] v@[x].1,
                ) by {
                    if x != i as int {
                        assert(v@[x] == old_v[x]);
                    }
                }
                lemma_lookup_amt_at(v@, key@, i as int);
                assert forall|k: Seq<char>| k != key@ implies #[trigger] spec_lookup_amt(v@, k)
                    == spec_lookup_amt(old_v, k) by {
                    lemma_lookup_amt_update(old_v, v@, i as int, k);
                }
            }
            return ;
        }
        i = i + 1;
    }
    proof {
        lemma_lookup_amt_none(old_v, key@);
    }
    let entry: (String, i128) = (String::from_str(key), ledger_add(0, delta));
    v.push(entry);
    proof {
        assert(v@ =~= old_v + seq![v@[v@.len() - 1]]);
        assert(v@[v@.len() - 1].0@ == key@);
        assert forall|x: int, y: int|
            0 <= x < y < v@.len() implies #[trigger] v@[x].0@ != #[trigger] v@[y].0@ by {
            if y < old_v.len() {
                assert(old_v[x].0@ != old_v[y].0@);
            } else {
                assert(v@[y].0@ == key@);
                assert(v@[x].0@ != key@);
            }
        }
        assert forall|x: int| 0 <= x < v@.len() implies in_ledger_range(#[trigger] v@[x].1) by {
            if x < old_v.len() {
                assert(v@[x] == old_v[x]);
            }
        }
        lemma_lookup_amt_at(v@, key@, v@.len() - 1);
        assert forall|k: Seq<char>| k != key@ implies #[trigger] spec_lookup_amt(v@, k)
            == spec_lookup_amt(old_v, k) by {
            lemma_lookup_amt_append(old_v, v@[v@.len() - 1], k);
        }
    }
}

/// An equal copy of a ledger vector.
fn amt_clone(v: &Vec<(String, i128)>) -> (r: Vec<(String, i128)>)
    ensures
        r@.len() == v@.len(),
        forall|k: int| 0 <= k < v@.len() ==> #[trigger] r@[k] == v@[k],
        r@ == v@,
{
    let n: usize = v.len();
    let mut out: Vec<(String, i128)> = Vec::new();
    let mut i: usize = 0;
    while i < n
        invariant
            i <= n,
            n == v@.len(),
            out@.len() == i,
            forall|k: int| 0 <= k < i ==> #[trigger] out@[k] == v@[k],
        decreases n - i,
    {
        let name: String = v[i].0.clone();
        let amt: i128 = v[i].1;
        out.push((name, amt));
        i = i + 1;
    }
    proof {
        assert(out@ =~= v@);
    }
    out
}


/// Portfolio state of the simulator: signed positions by symbol, cash
/// balances by currency, and the initial balances kept as the profit
/// baseline. All entries saturate at the ledger bound.
#[derive(Debug)]
pub struct Portfolio {
    positions: Vec<(String, i128)>,
    balances: Vec<(String, i128)>,
    initial_balances: Vec<(String, i128)>,
}

impl Portfolio {
    /// Keys unique and every amount within the ledger range.
    #[verifier::type_invariant]
    pub open spec fn wf(self) -> bool {
        amt_keys_unique(self.spec_positions()) && amts_in_range(self.spec_positions())
            && amt_keys_unique(self.spec_balances()) && amts_in_range(self.spec_balances())
            && amt_keys_unique(self.spec_initial_balances()) && amts_in_range(
            self.spec_initial_balances(),
        )
    }

    /// The positions ledger, as a specification value.
    pub closed spec fn spec_positions(self) -> Seq<(String, i128)> {
        self.positions@
    }

    /// The balances ledger, as a specification value.
    pub closed spec fn spec_balances(self) -> Seq<(String, i128)> {
        self.balances@
    }

    /// The initial balances, as a specification value.
    pub closed spec fn spec_initial_balances(self) -> Seq<(String, i128)> {
        self.initial_balances@
    }

    /// The signed position held in a symbol, zero when untouched.
    pub open spec fn spec_position(self, symbol: Seq<char>) -> int {
        spec_amount(self.spec_positions(), symbol)
    }

    /// The cash balance held in a currency, zero when untouched.
    pub open spec fn spec_balance(self, currency: Seq<char>) -> int {
        spec_amount(self.spec_balances(), currency)
    }

    /// A fresh portfolio: no positions, balances equal to the initial
    /// balances.
    pub fn new(initial_balances: Vec<(String, i128)>) -> (r: Portfolio)
        requires
            amt_keys_unique(initial_balances@),
            amts_in_range(initial_balances@),
        ensures
            r.spec_positions() == Seq::<(String, i128)>::empty(),
            r.spec_balances() == initial_balances@,
            r.spec_initial_balances() == initial_balances@,
    {
        let balances = amt_clone(&initial_balances);
        let r = Portfolio { positions: Vec::new(), balances, initial_balances };
        proof {
            assert(r.spec_positions() =~= Seq::<(String, i128)>::empty());
        }
        r
    }

    /// The signed position held in a symbol.
    pub fn get_position(&self, symbol: &str) -> (r: i128)
        ensures
            r == self.spec_position(symbol@),
    {
        proof {
            use_type_invariant(&*self);
        }
        amt_get(&self.positions, symbol)
    }

    /// The cash balance held in a currency.
    pub fn get_balance(&self, currency: &str) -> (r: i128)
        ensures
            r == self.spec_balance(currency@),
    {
        proof {
            use_type_invariant(&*self);
        }
        amt_get(&self.balances, currency)
    }

    /// Adds a signed delta to the position in a symbol, saturating at
    /// the ledger bound; every other entry is untouched.
    pub fn update_position(&mut self, symbol: &str, delta: i128)
        requires
            -(AMT_LIMIT as int) * 2 <= delta <= (AMT_LIMIT as int) * 2,
        ensures
            final(self).spec_position(symbol@) == clamp_ledger(
                old(self).spec_position(symbol@) + delta,
            ),
            forall|k: Seq<char>|
                k != symbol@ ==> #[trigger] spec_lookup_amt(final(self).spec_positions(), k)
                    == spec_lookup_amt(old(self).spec_positions(), k),
            final(self).spec_balances() == old(self).spec_balances(),
            final(self).spec_initial_balances() == old(self).spec_initial_balances(),
    {
        proof {
            use_type_invariant(&*self);
        }
        let mut positions: Vec<(String, i128)> = Vec::new();
        core::mem::swap(&mut positions, &mut self.positions);
        amt_add(&mut positions, symbol, delta);
        core::mem::swap(&mut positions, &mut self.positions);
    }

    /// Adds a signed delta to the balance of a currency, saturating at
    /// the ledger bound; every other entry is untouched.
    pub fn update_balance(&mut self, currency: &str, delta: i128)
        requires
            -(AMT_LIMIT as int) * 2 <= delta <= (AMT_LIMIT as int) * 2,
        ensures
            final(self).spec_balance(currency@) == clamp_ledger(
                old(self).spec_balance(currency@) + delta,
            ),
            forall|k: Seq<char>|
                k != currency@ ==> #[trigger] spec_lookup_amt(final(self).spec_balances(), k)
                    == spec_lookup_amt(old(self).spec_balances(), k),
            final(self).spec_positions() == old(self).spec_positions(),
            final(self).spec_initial_balances() == old(self).spec_initial_balances(),
    {
        proof {
            use_type_invariant(&*self);
        }
        let mut balances: Vec<(String, i128)> = Vec::new();
        core::mem::swap(&mut balances, &mut self.balances);
        amt_add(&mut balances, currency, delta);
        core::mem::swap(&mut balances, &mut self.balances);
    }

    /// Clears every position and restores the balances to the initial
    /// balances.
    pub fn reset(&mut self)
        ensures
            final(self).spec_positions() == Seq::<(String, i128)>::empty(),
            final(self).spec_balances() == old(self).spec_initial_balances(),
            final(self).spec_initial_balances() == old(self).spec_initial_balances(),
    {
        proof {
            use_type_invariant(&*self);
        }
        self.positions = Vec::new();
        let balances = amt_clone(&self.initial_balances);
        self.balances = balances;
        proof {
            assert(final(self).spec_positions() =~= Seq::<(String, i128)>::empty());
        }
    }

    /// A copy with equal positions, balances and initial balances.
    pub fn snapshot(&self) -> (r: Portfolio)
        ensures
            r.spec_positions() == self.spec_positions(),
            r.spec_balances() == self.spec_balances(),
            r.spec_initial_balances() == self.spec_initial_balances(),
    {
        proof {
            use_type_invariant(&*self);
        }
        Portfolio {
            positions: amt_clone(&self.positions),
            balances: amt_clone(&self.balances),
            initial_balances: amt_clone(&self.initial_balances),
        }
    }

    /// Total profit and loss against the given mid prices: each position
    /// valued at its price, plus the cash moved in the dollar currencies
    /// since the start; every step saturates at the ledger bound.
    pub fn calculate_pnl(&self, current_prices: &Vec<(String, u64)>) -> (r: i128)
        requires
            prices_ok(current_prices@),
        ensures
            r == spec_pnl(
                self.spec_positions(),
                self.spec_balances(),
                self.spec_initial_balances(),
                current_prices@,
            ),
            in_ledger_range(r),
    {
        proof {
            use_type_invariant(&*self);
        }
        let mut acc: i128 = 0;
        let n: usize = self.positions.len();
        let mut i: usize = 0;
        proof {
            assert(self.positions@.subrange(0, n as int) =~= self.positions@);
        }
        while i < n
            invariant
                i <= n,
                n == self.positions@.len(),
                amts_in_range(self.positions@),
                prices_ok(current_prices@),
                in_ledger_range(acc),
                spec_pnl_positions(self.positions@, current_prices@, 0) == spec_pnl_positions(
                    self.positions@.subrange(i as int, n as int),
                    current_prices@,
                    acc as int,
                ),
            decreases n - i,
        {
            proof {
                assert(self.positions@.subrange(i as int, n as int)[0] == self.positions@[
                    i as int]);
                assert(self.positions@.subrange(i as int, n as int).drop_first() =~= self
                    .positions@.subrange(i + 1 as int, n as int));
                assert(in_ledger_range(self.positions@[i as int].1));
            }
            let pv: i128 = self.positions[i].1;
            proof {
                lemma_price_lookup_in_range(current_prices@, self.positions@[i as int].0@);
            }
            match price_get(current_prices, self.positions[i].0.as_str()) {
                None => {},
                Some(p) => {
                    let d: i128;
                    if pv >= 0 {
                        proof {
                            assert((pv as int) * (p as int) >= 0 && (pv as int) * (p as int) <= (
                            AMT_LIMIT as int) * (MAX_AMT as int)) by (nonlinear_arith)
                                requires
                                    0 <= pv <= AMT_LIMIT as int,
                                    0 <= p <= MAX_AMT as int,
                            ;
                            assert(0 <= (pv as int) * (p as int) / (SCALE as int) <= (pv as int) * (
                            p as int)) by (nonlinear_arith)
                                requires
                                    (pv as int) * (p as int) >= 0,
                            ;
                        }
                        let m: u128 = (pv as u128) * (p as u128) / (SCALE as u128);
                        d = m as i128;
                    } else {
                        let neg: i128 = -pv;
                        proof {
                            assert((neg as int) * (p as int) >= 0 && (neg as int) * (p as int) <= (
                            AMT_LIMIT as int) * (MAX_AMT as int)) by (nonlinear_arith)
                                requires
                                    0 <= neg <= AMT_LIMIT as int,
                                    0 <= p <= MAX_AMT as int,
                            ;
                            assert(0 <= (neg as int) * (p as int) / (SCALE as int) <= (neg as int)
                                * (p as int)) by (nonlinear_arith)
                                requires
                                    (neg as int) * (p as int) >= 0,
                            ;
                        }
                        let m: u128 = (neg as u128) * (p as u128) / (SCALE as u128);
                        d = -(m as i128);
                    }
                    let dc: i128 = ledger_clamp(d);
                    acc = ledger_add(acc, dc);
                },
            }
            i = i + 1;
        }
        proof {
            assert(self.positions@.subrange(n as int, n as int) =~= Seq::<(String, i128)>::empty());
        }
        let bn: usize = self.balances.len();
        let mut b: usize = 0;
        proof {
            assert(self.balances@.subrange(0, bn as int) =~= self.balances@);
        }
        while b < bn
            invariant
                b <= bn,
                bn == self.balances@.len(),
                amts_in_range(self.balances@),
                amt_keys_unique(self.initial_balances@),
                amts_in_range(self.initial_balances@),
                in_ledger_range(acc),
                spec_pnl_balances(
                    self.balances@,
                    self.initial_balances@,
                    spec_pnl_positions(self.positions@, current_prices@, 0),
                ) == spec_pnl_balances(
                    self.balances@.subrange(b as int, bn as int),
                    self.initial_balances@,
                    acc as int,
                ),
            decreases bn - b,
        {
            proof {
                assert(self.balances@.subrange(b as int, bn as int)[0] == self.balances@[b as int]);
                assert(self.balances@.subrange(b as int, bn as int).drop_first() =~= self.balances@
                    .subrange(b + 1 as int, bn as int));
                assert(in_ledger_range(self.balances@[b as int].1));
            }
            let is_cash: bool = crate::text::str_eq(self.balances[b].0.as_str(), "USDT")
                || crate::text::str_eq(self.balances[b].0.as_str(), "USD");
            if is_cash {
                let init: i128 = amt_get(&self.initial_balances, self.balances[b].0.as_str());
                let bal: i128 = self.balances[b].1;
                acc = ledger_add(acc, bal - init);
            }
            b = b + 1;
        }
        proof {
            assert(self.balances@.subrange(bn as int, bn as int) =~= Seq::<(String, i128)>::empty());
        }
        acc
    }
}

/// Every price value is a valid market amount.
pub open spec fn prices_ok(s: Seq<(String, u64)>) -> bool {
    forall|i: int| 0 <= i < s.len() ==> #[trigger] s[i].1 <= MAX_AMT
}

/// The first price bound to a symbol, if any.
pub open spec fn spec_price_lookup(s: Seq<(String, u64)>, key: Seq<char>) -> Option<u64>
    decreases s.len(),
{
    if s.len() == 0 {
        None
    } else if s[0].0@ == key {
        Some(s[0].1)
    } else {
        spec_price_lookup(s.drop_first(), key)
    }
}

/// A signed position valued at a price, truncating towards zero.
pub open spec fn spec_scaled_value(pos: int, price: int) -> int {
    if pos >= 0 {
        pos * price / (SCALE as int)
    } else {
        -((-pos) * price / (SCALE as int))
    }
}

/// Folds the valued positions into the profit accumulator, step by step,
/// saturating at the ledger bound.
pub open spec fn spec_pnl_positions(
    pos: Seq<(String, i128)>,
    prices: Seq<(String, u64)>,
    acc: int,
) -> int
    decreases pos.len(),
{
    if pos.len() == 0 {
        acc
    } else {
        let step = match spec_price_lookup(prices, pos[0].0@) {
            Some(p) => clamp_ledger(acc + clamp_ledger(spec_scaled_value(pos[0].1 as int, p as int))),
            None => acc,
        };
        spec_pnl_positions(pos.drop_first(), prices, step)
    }
}

/// Folds the dollar-cash movements into the profit accumulator, step by
/// step, saturating at the ledger bound.
pub open spec fn spec_pnl_balances(
    bal: Seq<(String, i128)>,
    init: Seq<(String, i128)>,
    acc: int,
) -> int
    decreases bal.len(),
{
    if bal.len() == 0 {
        acc
    } else {
        let step = if bal[0].0@ == "USDT"@ || bal[0].0@ == "USD"@ {
            clamp_ledger(acc + (bal[0].1 - spec_amount(init, bal[0].0@)))
        } else {
            acc
        };
        spec_pnl_balances(bal.drop_first(), init, step)
    }
}

/// Total profit and loss of a portfolio against the given prices.
pub open spec fn spec_pnl(
    positions: Seq<(String, i128)>,
    balances: Seq<(String, i128)>,
    initial: Seq<(String, i128)>,
    prices: Seq<(String, u64)>,
) -> int {
    spec_pnl_balances(balances, initial, spec_pnl_positions(positions, prices, 0))
}

/// A looked-up price inherits the range bound of the price list.
proof fn lemma_price_lookup_in_range(s: Seq<(String, u64)>, key: Seq<char>)
    requires
        prices_ok(s),
    ensures
        spec_price_lookup(s, key) matches Some(p) ==> p <= MAX_AMT,
    decreases s.len(),
{
    if s.len() > 0 {
        assert(s[0].1 <= MAX_AMT);
        assert(prices_ok(s.drop_first())) by {
            assert forall|i: int| 0 <= i < s.drop_first().len() implies #[trigger] s.drop_first()[
                i].1 <= MAX_AMT by {
                assert(s.drop_first()[i] == s[i + 1]);
            }
        }
        lemma_price_lookup_in_range(s.drop_first(), key);
    }
}

/// Reads the first price bound to a symbol.
fn price_get(v: &Vec<(String, u64)>, key: &str) -> (r: Option<u64>)
    ensures
        r == spec_price_lookup(v@, key@),
{
    let n: usize = v.len();
    let mut i: usize = 0;
    proof {
        assert(v@.subrange(0, n as int) =~= v@);
    }
    while i < n
        invariant
            i <= n,
            n == v@.len(),
            spec_price_lookup(v@, key@) == spec_price_lookup(
                v@.subrange(i as int, n as int),
                key@,
            ),
        decreases n - i,
    {
        proof {
            assert(v@.subrange(i as int, n as int)[0] == v@[i as int]);
            assert(v@.subrange(i as int, n as int).drop_first() =~= v@.subrange(
                i + 1 as int,
                n as int,
            ));
        }
        if crate::text::str_eq(v[i].0.as_str(), key) {
            return Some(v[i].1);
        }
        i = i + 1;
    }
    proof {
        assert(v@.subrange(n as int, n as int) =~= Seq::<(String, u64)>::empty());
    }
    None
}


/// Running aggregates over simulated executions.
#[derive(Debug, Clone, Copy)]
pub struct PerformanceMetrics {
    /// Total number of orders executed.
    pub total_orders: u64,
    /// Total traded volume in quote currency, scaled, saturating.
    pub total_volume: i128,
    /// Average execution latency in milliseconds, a truncated running mean.
    pub average_execution_time_ms: u64,
    /// Fraction of orders with any fill, scaled, a truncated running mean.
    pub success_rate: u64,
    /// Total fees paid, scaled, saturating.
    pub total_fees: i128,
    /// Sharpe ratio, scaled; reserved, never set by the simulator.
    pub sharpe_ratio: Option<i64>,
    /// Maximum drawdown, scaled; reserved, never set by the simulator.
    pub max_drawdown: u64,
}

impl Default for PerformanceMetrics {
    /// All aggregates zero.
    fn default() -> (r: Self)
        ensures
            r.total_orders == 0,
            r.total_volume == 0,
            r.average_execution_time_ms == 0,
            r.success_rate == 0,
            r.total_fees == 0,
            r.sharpe_ratio is None,
            r.max_drawdown == 0,
    {
        PerformanceMetrics {
            total_orders: 0,
            total_volume: 0,
            average_execution_time_ms: 0,
            success_rate: 0,
            total_fees: 0,
            sharpe_ratio: None,
            max_drawdown: 0,
        }
    }
}

/// Knobs of the execution model. Every probability, ratio and fee is a
/// scaled fraction of one.
#[derive(Debug, Clone, Copy)]
pub struct ExecutionConfig {
    /// Whether fees are charged.
    pub enable_fees: bool,
    /// Maker fee rate, scaled.
    pub maker_fee: u64,
    /// Taker fee rate, scaled.
    pub taker_fee: u64,
    /// Whether execution delays are modeled.
    pub simulate_delays: bool,
    /// Whether market impact is modeled.
    pub simulate_market_impact: bool,
    /// Price impact per unit of quantity, scaled.
    pub market_impact_factor: u64,
    /// Whether partial fills may occur.
    pub allow_partial_fills: bool,
    /// Probability of a partial fill, scaled.
    pub partial_fill_probability: u64,
    /// Probability of an order rejection, scaled.
    pub rejection_probability: u64,
    /// Smallest fraction of an order a partial fill leaves filled, scaled.
    pub min_fill_ratio: u64,
}

impl ExecutionConfig {
    /// Every rate and probability is a fraction of one.
    pub open spec fn wf(&self) -> bool {
        self.maker_fee <= SCALE && self.taker_fee <= SCALE && self.market_impact_factor <= SCALE
            && self.partial_fill_probability <= SCALE && self.rejection_probability <= SCALE
            && self.min_fill_ratio <= SCALE
    }
}

impl Default for ExecutionConfig {
    /// Fees on at 0.1%, no delays, no impact, no partial fills, no
    /// rejections.
    fn default() -> (r: Self)
        ensures
            r.enable_fees == true,
            r.maker_fee == SCALE / 1000,
            r.taker_fee == SCALE / 1000,
            r.simulate_delays == false,
            r.simulate_market_impact == false,
            r.market_impact_factor == SCALE / 10000,
            r.allow_partial_fills == false,
            r.partial_fill_probability == 0,
            r.rejection_probability == 0,
            r.min_fill_ratio == SCALE / 10,
            r.wf(),
    {
        ExecutionConfig {
            enable_fees: true,
            maker_fee: SCALE / 1000,
            taker_fee: SCALE / 1000,
            simulate_delays: false,
            simulate_market_impact: false,
            market_impact_factor: SCALE / 10000,
            allow_partial_fills: false,
            partial_fill_probability: 0,
            rejection_probability: 0,
            min_fill_ratio: SCALE / 10,
        }
    }
}

/// The random draws one simulated execution consumes. Passing them
/// explicitly makes the rest of the execution a function of its inputs.
#[derive(Debug, Clone, Copy)]
pub struct SimDraws {
    /// Rejection draw, uniform below one.
    pub rejection: u64,
    /// Slippage fraction drawn below the slippage tolerance.
    pub slippage: u64,
    /// Partial-fill selection draw, uniform below one.
    pub partial_select: u64,
    /// Drawn fill quantity, between the minimum fill and the order size.
    pub fill_quantity: u64,
    /// Delay jitter, between half and one-and-a-half, scaled.
    pub delay_jitter: u64,
}

impl SimDraws {
    /// Draw bounds relative to a configuration and an order.
    pub open spec fn valid_for(
        &self,
        cfg: ExecutionConfig,
        slippage_tolerance: u64,
        order: LimitOrder,
    ) -> bool {
        self.rejection < SCALE && self.slippage <= slippage_tolerance && (slippage_tolerance == 0
            ==> self.slippage == 0) && self.partial_select < SCALE && spec_mul_scale(
            order.quantity as int,
            cfg.min_fill_ratio as int,
        ) <= self.fill_quantity <= order.quantity && SCALE / 2 <= self.delay_jitter <= SCALE + SCALE
            / 2
    }
}

/// The quantity one execution fills.
pub open spec fn spec_fill_qty(cfg: ExecutionConfig, order: LimitOrder, d: SimDraws) -> u64 {
    if cfg.allow_partial_fills && d.partial_select < cfg.partial_fill_probability {
        d.fill_quantity
    } else {
        order.quantity
    }
}

/// The order status a fill quantity yields.
pub open spec fn spec_status_for(fill: u64, qty: u64) -> OrderStatus {
    if fill == qty {
        OrderStatus::Filled
    } else if fill > 0 {
        OrderStatus::PartiallyFilled
    } else {
        OrderStatus::New
    }
}

/// The execution price before clamping against the book: the limit price
/// moved against the order side by the slippage draw and, when modeled,
/// by the market impact of the order's own size.
pub open spec fn spec_raw_price(
    order: LimitOrder,
    slippage_tolerance: u64,
    cfg: ExecutionConfig,
    d: SimDraws,
) -> int {
    let slip: int = if slippage_tolerance > 0 {
        d.slippage as int
    } else {
        0
    };
    let p1: int = if order.side is Buy {
        spec_adjust_up(order.price as int, slip)
    } else {
        spec_adjust_down(order.price as int, slip)
    };
    if cfg.simulate_market_impact {
        let impact: int = spec_mul_scale(
            order.quantity as int,
            cfg.market_impact_factor as int,
        );
        if order.side is Buy {
            spec_adjust_up(p1, impact)
        } else {
            spec_adjust_down(p1, impact)
        }
    } else {
        p1
    }
}

/// The execution price: the raw price clamped against the best opposing
/// level of the first cached book for the symbol, when one exists. Buys
/// cannot execute below the best ask, sells not above the best bid.
pub open spec fn spec_execution_price(
    books: Seq<OrderBook>,
    order: LimitOrder,
    slippage_tolerance: u64,
    cfg: ExecutionConfig,
    d: SimDraws,
) -> int {
    let p: int = spec_raw_price(order, slippage_tolerance, cfg, d);
    match spec_first_for_symbol(books, order.symbol@) {
        None => p,
        Some(b) => if order.side is Buy {
            match b.spec_best_ask() {
                Some(a) => if a as int > p {
                    a as int
                } else {
                    p
                },
                None => p,
            }
        } else {
            match b.spec_best_bid() {
                Some(bd) => if (bd as int) < p {
                    bd as int
                } else {
                    p
                },
                None => p,
            }
        },
    }
}

/// The fee one execution pays: the filled notional times the maker rate
/// for post-only orders, the taker rate otherwise; zero with fees off.
pub open spec fn spec_fee(cfg: ExecutionConfig, order: LimitOrder, fill: int, px: int) -> int {
    if cfg.enable_fees {
        let rate: int = if order.time_in_force is GTX {
            cfg.maker_fee as int
        } else {
            cfg.taker_fee as int
        };
        spec_mul_scale(spec_mul_scale(fill, px), rate)
    } else {
        0
    }
}

/// The simulated delay sample in milliseconds: a tenth of the order
/// timeout, jittered; zero when delays are not modeled.
pub open spec fn spec_delay_ms(order_timeout_ms: u64, cfg: ExecutionConfig, d: SimDraws) -> int {
    if cfg.simulate_delays {
        spec_mul_scale((order_timeout_ms / 10) as int, d.delay_jitter as int)
    } else {
        0
    }
}

/// The dry-run executor: simulates order execution against cached market
/// data, tracks the portfolio it trades, and accumulates performance
/// metrics and an execution history.
#[derive(Debug)]
pub struct DryRunExecutor {
    config: ArbitrageConfig,
    exec_config: ExecutionConfig,
    portfolio: Portfolio,
    market_data: MarketDataManager,
    execution_history: Vec<OrderResponse>,
    metrics: PerformanceMetrics,
    current_prices: Vec<(String, u64)>,
}

impl DryRunExecutor {
    /// Well-formedness: the configurations are in range, the order count
    /// equals the history length, the success rate is a fraction of one,
    /// the fee and volume totals are ledger values and cached prices are
    /// valid amounts.
    pub open spec fn wf(&self) -> bool {
        self.spec_config().spec_bounds_ok() && self.spec_exec_config().wf()
            && self.spec_metrics().total_orders == self.spec_history().len()
            && self.spec_metrics().success_rate <= SCALE && in_ledger_range(
            self.spec_metrics().total_volume,
        ) && in_ledger_range(self.spec_metrics().total_fees) && prices_ok(self.spec_prices())
    }

    /// The strategy configuration, as a specification value.
    pub closed spec fn spec_config(&self) -> ArbitrageConfig {
        self.config
    }

    /// The execution-model configuration, as a specification value.
    pub closed spec fn spec_exec_config(&self) -> ExecutionConfig {
        self.exec_config
    }

    /// The portfolio, as a specification value.
    pub closed spec fn spec_portfolio(&self) -> Portfolio {
        self.portfolio
    }

    /// The cached market books, as a specification value.
    pub closed spec fn spec_books(&self) -> Seq<OrderBook> {
        self.market_data.spec_books()
    }

    /// The execution history, as a specification value.
    pub closed spec fn spec_history(&self) -> Seq<OrderResponse> {
        self.execution_history@
    }

    /// The performance metrics, as a specification value.
    pub closed spec fn spec_metrics(&self) -> PerformanceMetrics {
        self.metrics
    }

    /// The cached mid prices, as a specification value.
    pub closed spec fn spec_prices(&self) -> Seq<(String, u64)> {
        self.current_prices@
    }

    /// A fresh executor over the given configuration, with the stock
    /// initial balances: one hundred thousand USDT and no coins.
    pub fn new(config: ArbitrageConfig) -> (r: Result<DryRunExecutor, ArbitrageError>)
        requires
            config.spec_bounds_ok(),
        ensures
            r is Ok,
            r matches Ok(ex) ==> ex.wf() && ex.spec_config() == config
                && ex.spec_exec_config().rejection_probability == 0
                && ex.spec_exec_config().allow_partial_fills == false
                && ex.spec_exec_config().simulate_delays == false
                && ex.spec_exec_config().simulate_market_impact == false
                && ex.spec_exec_config().enable_fees == true
                && ex.spec_exec_config().maker_fee == SCALE / 1000
                && ex.spec_exec_config().taker_fee == SCALE / 1000
                && ex.spec_exec_config().min_fill_ratio == SCALE / 10
                && ex.spec_history() == Seq::<OrderResponse>::empty()
                && ex.spec_metrics().total_orders == 0 && ex.spec_metrics().total_volume == 0
                && ex.spec_metrics().total_fees == 0 && ex.spec_metrics().success_rate == 0
                && ex.spec_books() == Seq::<OrderBook>::empty()
                && ex.spec_prices() == Seq::<(String, u64)>::empty()
                && ex.spec_portfolio().spec_positions() == Seq::<(String, i128)>::empty()
                && ex.spec_portfolio().spec_balance("USDT"@) == 100_000 * SCALE
                && ex.spec_portfolio().spec_balance("BTC"@) == 0
                && ex.spec_portfolio().spec_balance("ETH"@) == 0
                && ex.spec_portfolio().spec_balances()
                == ex.spec_portfolio().spec_initial_balances(),
    {
        let mut initial_balances: Vec<(String, i128)> = Vec::new();
        initial_balances.push((String::from_str("USDT"), 100_000 * (SCALE as i128)));
        initial_balances.push((String::from_str("BTC"), 0));
        initial_balances.push((String::from_str("ETH"), 0));
        proof {
            reveal_strlit("USDT");
            reveal_strlit("BTC");
            reveal_strlit("ETH");
            assert(initial_balances@.len() == 3);
            assert(initial_balances@[0].0@ == "USDT"@);
            assert(initial_balances@[1].0@ == "BTC"@);
            assert(initial_balances@[2].0@ == "ETH"@);
            assert("USDT"@.len() == 4 && "BTC"@.len() == 3 && "ETH"@.len() == 3);
            assert("BTC"@[0] == 'B' && "ETH"@[0] == 'E');
            assert(amt_keys_unique(initial_balances@)) by {
                assert forall|i: int, j: int|
                    0 <= i < j < initial_balances@.len() implies #[trigger] initial_balances@[i].0@
                    != #[trigger] initial_balances@[j].0@ by {
                }
            }
            assert(amts_in_range(initial_balances@)) by {
                assert forall|i: int|
                    0 <= i < initial_balances@.len() implies in_ledger_range(
                    #[trigger] initial_balances@[i].1,
                ) by {
                }
            }
        }
        let ghost init_view = initial_balances@;
        let portfolio = Portfolio::new(initial_balances);
        proof {
            lemma_lookup_amt_at(init_view, "USDT"@, 0);
            lemma_lookup_amt_at(init_view, "BTC"@, 1);
            lemma_lookup_amt_at(init_view, "ETH"@, 2);
        }
        let ex = DryRunExecutor {
            config,
            exec_config: ExecutionConfig::default(),
            portfolio,
            market_data: MarketDataManager::new(8),
            execution_history: Vec::new(),
            metrics: PerformanceMetrics::default(),
            current_prices: Vec::new(),
        };
        proof {
            assert(ex.spec_history() =~= Seq::<OrderResponse>::empty());
            assert(ex.spec_prices() =~= Seq::<(String, u64)>::empty());
        }
        Ok(ex)
    }

    /// Replaces the execution-model configuration.
    pub fn set_execution_config(&mut self, exec_config: ExecutionConfig)
        requires
            old(self).wf(),
            exec_config.wf(),
        ensures
            final(self).wf(),
            final(self).spec_exec_config() == exec_config,
            final(self).spec_config() == old(self).spec_config(),
            final(self).spec_portfolio() == old(self).spec_portfolio(),
            final(self).spec_books() == old(self).spec_books(),
            final(self).spec_history() == old(self).spec_history(),
            final(self).spec_metrics() == old(self).spec_metrics(),
            final(self).spec_prices() == old(self).spec_prices(),
    {
        self.exec_config = exec_config;
    }

    /// The execution-model configuration.
    pub fn get_execution_config(&self) -> (r: ExecutionConfig)
        ensures
            r == self.spec_exec_config(),
    {
        self.exec_config
    }

    /// Caches a market-data snapshot for reference pricing: the book
    /// replaces the stored book for its key, and the book's mid price,
    /// when it has one, becomes the cached price for the symbol.
    pub fn update_market_data(&mut self, exchange: Exchange, orderbook: OrderBook) -> (r: Result<
        (),
        ArbitrageError,
    >)
        requires
            old(self).wf(),
        ensures
            final(self).wf(),
            r is Ok,
            final(self).spec_config() == old(self).spec_config(),
            final(self).spec_exec_config() == old(self).spec_exec_config(),
            final(self).spec_portfolio() == old(self).spec_portfolio(),
            final(self).spec_history() == old(self).spec_history(),
            final(self).spec_metrics() == old(self).spec_metrics(),
            crate::data::spec_find_book(
                final(self).spec_books(),
                orderbook.spec_exchange(),
                orderbook.spec_symbol(),
            ) == Some(orderbook),
            forall|ex: Exchange, sym: Seq<char>|
                !(ex == orderbook.spec_exchange() && sym == orderbook.spec_symbol())
                    ==> #[trigger] crate::data::spec_find_book(final(self).spec_books(), ex, sym)
                    == crate::data::spec_find_book(old(self).spec_books(), ex, sym),
            orderbook.spec_mid_price() matches Some(m) ==> spec_price_lookup(
                final(self).spec_prices(),
                orderbook.spec_symbol(),
            ) == Some(m),
            orderbook.spec_mid_price() is Some ==> forall|sym: Seq<char>|
                sym != orderbook.spec_symbol() ==> #[trigger] spec_price_lookup(
                    final(self).spec_prices(),
                    sym,
                ) == spec_price_lookup(old(self).spec_prices(), sym),
            orderbook.spec_mid_price() is None ==> final(self).spec_prices() == old(
                self,
            ).spec_prices(),
    {
        let _ = exchange;
        let mid = orderbook.mid_price();
        let symbol: String = orderbook.symbol().clone();
        self.market_data.update_book(orderbook);
        match mid {
            Some(m) => {
                let mut prices: Vec<(String, u64)> = Vec::new();
                core::mem::swap(&mut prices, &mut self.current_prices);
                price_set(&mut prices, symbol.as_str(), m);
                core::mem::swap(&mut prices, &mut self.current_prices);
            },
            None => {},
        }
        proof {
            assert forall|ex: Exchange, sym: Seq<char>|
                !(ex == orderbook.spec_exchange() && sym == orderbook.spec_symbol())
                    implies #[trigger] crate::data::spec_find_book(
                    final(self).spec_books(),
                    ex,
                    sym,
                ) == crate::data::spec_find_book(old(self).spec_books(), ex, sym) by {
                assert(self.market_data.spec_get(ex, sym) == crate::data::spec_find_book(
                    self.market_data.spec_books(),
                    ex,
                    sym,
                ));
            }
        }
        Ok(())
    }

    /// The run summary: the number of executed trades and the portfolio's
    /// profit and loss against the cached prices.
    pub fn get_results(&self) -> (r: ExecutionResults)
        requires
            self.wf(),
        ensures
            r.total_trades == self.spec_history().len(),
            r.total_pnl == spec_pnl(
                self.spec_portfolio().spec_positions(),
                self.spec_portfolio().spec_balances(),
                self.spec_portfolio().spec_initial_balances(),
                self.spec_prices(),
            ),
    {
        let total_trades: u64 = self.execution_history.len() as u64;
        let total_pnl: i128 = self.portfolio.calculate_pnl(&self.current_prices);
        ExecutionResults { total_trades, total_pnl }
    }

    /// A copy of the portfolio.
    pub fn get_portfolio(&self) -> (r: Portfolio)
        ensures
            r.spec_positions() == self.spec_portfolio().spec_positions(),
            r.spec_balances() == self.spec_portfolio().spec_balances(),
            r.spec_initial_balances() == self.spec_portfolio().spec_initial_balances(),
    {
        self.portfolio.snapshot()
    }

    /// Total fees paid so far, scaled.
    pub fn get_total_fees(&self) -> (r: i128)
        ensures
            r == self.spec_metrics().total_fees,
    {
        self.metrics.total_fees
    }

    /// The performance metrics.
    pub fn get_performance_metrics(&self) -> (r: PerformanceMetrics)
        ensures
            r == self.spec_metrics(),
    {
        self.metrics
    }

    /// Resets the executor: the portfolio returns to its initial
    /// balances, and the history, metrics, market data and cached prices
    /// are cleared, all together.
    pub fn reset(&mut self) -> (r: Result<(), ArbitrageError>)
        requires
            old(self).wf(),
        ensures
            final(self).wf(),
            r is Ok,
            final(self).spec_config() == old(self).spec_config(),
            final(self).spec_exec_config() == old(self).spec_exec_config(),
            final(self).spec_portfolio().spec_positions() == Seq::<(String, i128)>::empty(),
            final(self).spec_portfolio().spec_balances() == old(
                self,
            ).spec_portfolio().spec_initial_balances(),
            final(self).spec_portfolio().spec_initial_balances() == old(
                self,
            ).spec_portfolio().spec_initial_balances(),
            final(self).spec_history() == Seq::<OrderResponse>::empty(),
            final(self).spec_metrics().total_orders == 0,
            final(self).spec_metrics().total_volume == 0,
            final(self).spec_metrics().average_execution_time_ms == 0,
            final(self).spec_metrics().success_rate == 0,
            final(self).spec_metrics().total_fees == 0,
            final(self).spec_metrics().sharpe_ratio is None,
            final(self).spec_metrics().max_drawdown == 0,
            final(self).spec_books() == Seq::<OrderBook>::empty(),
            final(self).spec_prices() == Seq::<(String, u64)>::empty(),
            spec_is_reset_of(*final(self), *old(self)),
    {
        self.portfolio.reset();
        self.execution_history = Vec::new();
        self.metrics = PerformanceMetrics::default();
        self.market_data = MarketDataManager::new(8);
        self.current_prices = Vec::new();
        proof {
            assert(final(self).spec_history() =~= Seq::<OrderResponse>::empty());
            assert(final(self).spec_prices() =~= Seq::<(String, u64)>::empty());
        }
        Ok(())
    }

    /// Executes one order as a function of the given draws, identifier
    /// and timestamp: rejection first, then the execution price from
    /// slippage, impact and the book clamp, then the fill quantity, fees,
    /// the portfolio application and the metrics update.
    pub fn execute_order_with_draws(
        &mut self,
        order: &LimitOrder,
        draws: SimDraws,
        order_id: String,
        timestamp: i64,
    ) -> (r: Result<OrderResponse, ArbitrageError>)
        requires
            old(self).wf(),
            order.valid(),
            draws.valid_for(
                old(self).spec_exec_config(),
                old(self).spec_config().execution.slippage_tolerance,
                *order,
            ),
        ensures
            final(self).wf(),
            final(self).spec_config() == old(self).spec_config(),
            final(self).spec_exec_config() == old(self).spec_exec_config(),
            final(self).spec_books() == old(self).spec_books(),
            final(self).spec_prices() == old(self).spec_prices(),
            (r is Err) == (old(self).spec_exec_config().rejection_probability > 0
                && draws.rejection < old(self).spec_exec_config().rejection_probability),
            r matches Err(e) ==> e is Trading && final(self).spec_history() == old(self).spec_history() && final(self).spec_metrics() == old(self).spec_metrics() && final(self).spec_portfolio() == old(self).spec_portfolio(),
            r matches Ok(resp) ==> {
                let cfg = old(self).spec_exec_config();
                let slip_tol = old(self).spec_config().execution.slippage_tolerance;
                let fill = spec_fill_qty(cfg, *order, draws);
                let px = spec_execution_price(old(self).spec_books(), *order, slip_tol, cfg, draws);
                let notional = spec_mul_scale(fill as int, px);
                let fee = spec_fee(cfg, *order, fill as int, px);
                let sample = spec_delay_ms(
                    old(self).spec_config().execution.order_timeout_ms,
                    cfg,
                    draws,
                );
                let n = old(self).spec_metrics().total_orders + 1;
                &&& resp.order_id == order_id
                &&& resp.client_order_id == order.client_order_id
                &&& resp.symbol == order.symbol
                &&& resp.side == order.side
                &&& resp.quantity == order.quantity
                &&& resp.price == order.price
                &&& resp.status == spec_status_for(fill, order.quantity)
                &&& resp.filled_quantity == fill
                &&& 0 <= px <= u64::MAX
                &&& resp.average_price == (if fill > 0 { Some(px as u64) } else { None::<u64> })
                &&& resp.timestamp == timestamp
                &&& final(self).spec_history() == old(self).spec_history().push(resp)
                &&& final(self).spec_metrics().total_orders == n
                &&& final(self).spec_metrics().total_volume == clamp_ledger(
                    old(self).spec_metrics().total_volume + spec_mul_scale(
                        fill as int,
                        order.price as int,
                    ),
                )
                &&& final(self).spec_metrics().total_fees == clamp_ledger(
                    old(self).spec_metrics().total_fees + clamp_ledger(fee),
                )
                &&& final(self).spec_metrics().average_execution_time_ms
                    == crate::amounts::spec_running_mean(
                    old(self).spec_metrics().average_execution_time_ms as int,
                    sample,
                    n as int,
                )
                &&& final(self).spec_metrics().success_rate == crate::amounts::spec_running_mean(
                    old(self).spec_metrics().success_rate as int,
                    if fill > 0 { SCALE as int } else { 0 },
                    n as int,
                )
                &&& final(self).spec_metrics().sharpe_ratio == old(self).spec_metrics().sharpe_ratio
                &&& final(self).spec_metrics().max_drawdown == old(self).spec_metrics().max_drawdown
                &&& final(self).spec_portfolio().spec_initial_balances() == old(self).spec_portfolio().spec_initial_balances()
                &&& (order.side is Buy ==> final(self).spec_portfolio().spec_position(
                    order.symbol@,
                ) == clamp_ledger(old(self).spec_portfolio().spec_position(order.symbol@) + fill)
                    && final(self).spec_portfolio().spec_balance("USDT"@) == clamp_ledger(
                    old(self).spec_portfolio().spec_balance("USDT"@) + clamp_ledger(
                        -(notional + fee),
                    ),
                ))
                &&& (order.side is Sell ==> final(self).spec_portfolio().spec_position(
                    order.symbol@,
                ) == clamp_ledger(old(self).spec_portfolio().spec_position(order.symbol@) - fill)
                    && final(self).spec_portfolio().spec_balance("USDT"@) == clamp_ledger(
                    old(self).spec_portfolio().spec_balance("USDT"@) + clamp_ledger(
                        notional - fee,
                    ),
                ))
                &&& (forall|k: Seq<char>|
                    k != order.symbol@ ==> #[trigger] spec_lookup_amt(
                        final(self).spec_portfolio().spec_positions(),
                        k,
                    ) == spec_lookup_amt(old(self).spec_portfolio().spec_positions(), k))
                &&& (forall|k: Seq<char>|
                    k != "USDT"@ ==> #[trigger] spec_lookup_amt(
                        final(self).spec_portfolio().spec_balances(),
                        k,
                    ) == spec_lookup_amt(old(self).spec_portfolio().spec_balances(), k))
            },
    {
        if self.exec_config.rejection_probability > 0 && draws.rejection
            < self.exec_config.rejection_probability {
            return Err(ArbitrageError::Trading("Order rejected in simulation".to_owned()));
        }
        // simulated latency sample
        let slot: u64 = self.config.execution.order_timeout_ms / 10;
        proof {
            assert(spec_mul_scale(slot as int, draws.delay_jitter as int) <= u64::MAX as int
                && spec_mul_scale(slot as int, draws.delay_jitter as int) >= 0) by (
            nonlinear_arith)
                requires
                    0 <= slot <= 8_640_000,
                    0 <= draws.delay_jitter <= 2 * SCALE as int,
                    SCALE as int >= 1,
            ;
        }
        let sample_ms: u64 = if self.exec_config.simulate_delays {
            crate::amounts::mul_scale(slot, draws.delay_jitter)
        } else {
            0
        };
        // execution price
        let slip_tol: u64 = self.config.execution.slippage_tolerance;
        let slip: u64 = if slip_tol > 0 {
            draws.slippage
        } else {
            0
        };
        let p1: u64 = match order.side {
            OrderSide::Buy => crate::amounts::adjust_up(order.price, slip),
            OrderSide::Sell => crate::amounts::adjust_down(order.price, slip),
        };
        let p2: u64 = if self.exec_config.simulate_market_impact {
            proof {
                assert(spec_mul_scale(
                    order.quantity as int,
                    self.exec_config.market_impact_factor as int,
                ) <= MAX_AMT as int && spec_mul_scale(
                    order.quantity as int,
                    self.exec_config.market_impact_factor as int,
                ) >= 0) by (nonlinear_arith)
                    requires
                        0 <= order.quantity <= MAX_AMT as int,
                        0 <= self.exec_config.market_impact_factor <= SCALE as int,
                        SCALE as int >= 1,
                ;
            }
            let impact: u64 = crate::amounts::mul_scale(
                order.quantity,
                self.exec_config.market_impact_factor,
            );
            match order.side {
                OrderSide::Buy => crate::amounts::adjust_up(p1, impact),
                OrderSide::Sell => crate::amounts::adjust_down(p1, impact),
            }
        } else {
            p1
        };
        let book = self.market_data.first_book_for_symbol(order.symbol.as_str());
        let px: u64 = match &book {
            Some(b) => {
                match order.side {
                    OrderSide::Buy => {
                        match b.best_ask() {
                            Some(a) => if a > p2 {
                                a
                            } else {
                                p2
                            },
                            None => p2,
                        }
                    },
                    OrderSide::Sell => {
                        match b.best_bid() {
                            Some(bd) => if bd < p2 {
                                bd
                            } else {
                                p2
                            },
                            None => p2,
                        }
                    },
                }
            },
            None => p2,
        };
        proof {
            assert(px as int == spec_execution_price(
                self.spec_books(),
                *order,
                slip_tol,
                self.spec_exec_config(),
                draws,
            ));
        }
        // fill quantity
        let fill: u64 = if self.exec_config.allow_partial_fills && draws.partial_select
            < self.exec_config.partial_fill_probability {
            draws.fill_quantity
        } else {
            order.quantity
        };
        // notional and fees
        proof {
            assert((fill as int) * (px as int) >= 0 && (fill as int) * (px as int) <= (
            MAX_AMT as int) * (u64::MAX as int)) by (nonlinear_arith)
                requires
                    0 <= fill <= MAX_AMT as int,
                    0 <= px <= u64::MAX as int,
            ;
            assert(0 <= (fill as int) * (px as int) / (SCALE as int) <= (fill as int) * (
            px as int)) by (nonlinear_arith)
                requires
                    (fill as int) * (px as int) >= 0,
            ;
        }
        let notional128: u128 = (fill as u128) * (px as u128) / (SCALE as u128);
        let rate: u64 = if self.exec_config.enable_fees {
            match order.time_in_force {
                TimeInForce::GTX => self.exec_config.maker_fee,
                _ => self.exec_config.taker_fee,
            }
        } else {
            0
        };
        proof {
            assert((notional128 as int) * (rate as int) >= 0 && (notional128 as int) * (
            rate as int) <= (notional128 as int) * (SCALE as int)) by (nonlinear_arith)
                requires
                    notional128 as int >= 0,
                    0 <= rate <= SCALE as int,
            ;
            assert(0 <= (notional128 as int) * (rate as int) / (SCALE as int) <= (
            notional128 as int) * (rate as int)) by (nonlinear_arith)
                requires
                    (notional128 as int) * (rate as int) >= 0,
            ;
            assert((notional128 as int) * (SCALE as int) <= (MAX_AMT as int) * (u64::MAX as int)
                * (SCALE as int)) by (nonlinear_arith)
                requires
                    0 <= notional128 as int <= (MAX_AMT as int) * (u64::MAX as int),
                    SCALE as int >= 1,
            ;
        }
        let fee128: u128 = notional128 * (rate as u128) / (SCALE as u128);
        let notional_i: i128 = notional128 as i128;
        let fee_i: i128 = fee128 as i128;
        proof {
            assert(fee_i as int == spec_fee(
                self.spec_exec_config(),
                *order,
                fill as int,
                px as int,
            ));
        }
        // apply the fill to the portfolio
        match order.side {
            OrderSide::Buy => {
                self.portfolio.update_position(order.symbol.as_str(), fill as i128);
                let delta: i128 = ledger_clamp(-notional_i - fee_i);
                self.portfolio.update_balance("USDT", delta);
                proof {
                    assert(delta as int == clamp_ledger(
                        -(notional_i as int + fee_i as int),
                    ));
                }
            },
            OrderSide::Sell => {
                self.portfolio.update_position(order.symbol.as_str(), -(fill as i128));
                let delta: i128 = ledger_clamp(notional_i - fee_i);
                self.portfolio.update_balance("USDT", delta);
            },
        }
        // response
        let status: OrderStatus = if fill == order.quantity {
            OrderStatus::Filled
        } else if fill > 0 {
            OrderStatus::PartiallyFilled
        } else {
            OrderStatus::New
        };
        let client_order_id: Option<String> = match &order.client_order_id {
            Some(cid) => Some(cid.clone()),
            None => None,
        };
        let average_price: Option<u64> = if fill > 0 {
            Some(px)
        } else {
            None
        };
        let resp = OrderResponse {
            order_id,
            client_order_id,
            symbol: order.symbol.clone(),
            side: order.side,
            quantity: order.quantity,
            price: order.price,
            status,
            filled_quantity: fill,
            average_price,
            timestamp,
        };
        let resp_copy = clone_response(&resp);
        self.execution_history.push(resp);
        // metrics
        let hist_len: usize = self.execution_history.len();
        let n_orders: u64 = hist_len as u64;
        self.metrics.total_orders = n_orders;
        proof {
            assert(0 <= (fill as int) * (order.price as int) <= (MAX_AMT as int) * (
            MAX_AMT as int)) by (nonlinear_arith)
                requires
                    0 <= fill <= MAX_AMT as int,
                    0 <= order.price <= MAX_AMT as int,
            ;
            assert(0 <= (fill as int) * (order.price as int) / (SCALE as int) <= (MAX_AMT as int)
                * (MAX_AMT as int) / (SCALE as int)) by (nonlinear_arith)
                requires
                    0 <= (fill as int) * (order.price as int) <= (MAX_AMT as int) * (
                    MAX_AMT as int),
                    SCALE as int >= 1,
            ;
        }
        let volume_sample: u64 = crate::amounts::mul_scale(fill, order.price);
        self.metrics.total_volume = ledger_add(self.metrics.total_volume, volume_sample as i128);
        self.metrics.total_fees = ledger_add(self.metrics.total_fees, ledger_clamp(fee_i));
        self.metrics.average_execution_time_ms = crate::amounts::running_mean(
            self.metrics.average_execution_time_ms,
            sample_ms,
            n_orders,
        );
        let fill_indicator: u64 = if fill > 0 {
            SCALE
        } else {
            0
        };
        self.metrics.success_rate = crate::amounts::running_mean(
            self.metrics.success_rate,
            fill_indicator,
            n_orders,
        );
        Ok(resp_copy)
    }

    /// Executes one order, drawing the simulation randomness. A rejection
    /// can come only from a configured rejection probability; when it is
    /// zero, execution succeeds, and on success the fill, price and
    /// portfolio movement stay within the modeled bounds whatever was
    /// drawn.
    pub fn execute_order(&mut self, order: LimitOrder) -> (r: Result<
        OrderResponse,
        ArbitrageError,
    >)
        requires
            old(self).wf(),
            order.valid(),
        ensures
            final(self).wf(),
            final(self).spec_config() == old(self).spec_config(),
            final(self).spec_exec_config() == old(self).spec_exec_config(),
            final(self).spec_books() == old(self).spec_books(),
            final(self).spec_prices() == old(self).spec_prices(),
            old(self).spec_exec_config().rejection_probability == 0 ==> r is Ok,
            r matches Err(e) ==> e is Trading && old(self).spec_exec_config().rejection_probability > 0 && final(self).spec_history() == old(self).spec_history() && final(self).spec_metrics() == old(self).spec_metrics() && final(self).spec_portfolio() == old(self).spec_portfolio(),
            r matches Ok(resp) ==> {
                &&& resp.symbol == order.symbol
                &&& resp.side == order.side
                &&& resp.quantity == order.quantity
                &&& resp.price == order.price
                &&& spec_mul_scale(
                    order.quantity as int,
                    old(self).spec_exec_config().min_fill_ratio as int,
                ) <= resp.filled_quantity <= order.quantity
                &&& (old(self).spec_exec_config().allow_partial_fills == false
                    ==> resp.filled_quantity == order.quantity)
                &&& resp.status == spec_status_for(resp.filled_quantity, order.quantity)
                &&& (resp.filled_quantity > 0 ==> resp.average_price is Some)
                &&& (resp.average_price matches Some(px) ==> (order.side is Buy ==> px
                    >= order.price) && (order.side is Sell ==> px <= order.price))
                &&& final(self).spec_history() == old(self).spec_history().push(resp)
                &&& final(self).spec_metrics().total_orders == old(self).spec_metrics().total_orders + 1
            },
    {
        proof {
            let ratio = old(self).spec_exec_config().min_fill_ratio;
            assert(spec_mul_scale(order.quantity as int, ratio as int) <= order.quantity as int
                && spec_mul_scale(order.quantity as int, ratio as int) >= 0) by (nonlinear_arith)
                requires
                    0 <= order.quantity,
                    0 <= ratio <= SCALE as int,
                    SCALE as int >= 1,
            ;
        }
        let rejection: u64 = crate::runtime::rand_below(SCALE);
        let slip_tol: u64 = self.config.execution.slippage_tolerance;
        let slippage: u64 = if slip_tol > 0 {
            crate::runtime::rand_below(slip_tol)
        } else {
            0
        };
        let partial_select: u64 = crate::runtime::rand_below(SCALE);
        let min_fill: u64 = crate::amounts::mul_scale(
            order.quantity,
            self.exec_config.min_fill_ratio,
        );
        let fill_quantity: u64 = crate::runtime::rand_between(min_fill, order.quantity);
        let delay_jitter: u64 = crate::runtime::rand_between(SCALE / 2, SCALE + SCALE / 2);
        let draws = SimDraws { rejection, slippage, partial_select, fill_quantity, delay_jitter };
        let order_id: String = crate::runtime::fresh_order_id();
        let timestamp: i64 = crate::runtime::now_nanos();
        let result = self.execute_order_with_draws(&order, draws, order_id, timestamp);
        proof {
            if result is Ok {
                let cfg = old(self).spec_exec_config();
                let slip: int = if slip_tol > 0 {
                    draws.slippage as int
                } else {
                    0
                };
                let impact: int = spec_mul_scale(
                    order.quantity as int,
                    cfg.market_impact_factor as int,
                );
                let fq: int = order.quantity as int;
                let ff: int = cfg.market_impact_factor as int;
                assert(fq * ff >= 0) by (nonlinear_arith)
                    requires
                        fq >= 0,
                        ff >= 0,
                ;
                assert(fq * ff / (SCALE as int) >= 0) by (nonlinear_arith)
                    requires
                        fq * ff >= 0,
                ;
                if order.side is Buy {
                    crate::amounts::lemma_adjust_up_ge(order.price as int, slip);
                    if cfg.simulate_market_impact {
                        crate::amounts::lemma_adjust_up_ge(
                            spec_adjust_up(order.price as int, slip),
                            impact,
                        );
                    }
                } else {
                    crate::amounts::lemma_adjust_down_le(order.price as int, slip);
                    if cfg.simulate_market_impact {
                        crate::amounts::lemma_adjust_down_le(
                            spec_adjust_down(order.price as int, slip),
                            impact,
                        );
                    }
                }
            }
        }
        result
    }
}


/// Writes a price for a symbol: replaces the first entry with the key or
/// appends a new one; every other key keeps its price.
fn price_set(v: &mut Vec<(String, u64)>, key: &str, value: u64)
    requires
        prices_ok(old(v)@),
        value <= MAX_AMT,
    ensures
        prices_ok(final(v)@),
        spec_price_lookup(final(v)@, key@) == Some(value),
        forall|k: Seq<char>|
            k != key@ ==> #[trigger] spec_price_lookup(final(v)@, k) == spec_price_lookup(
                old(v)@,
                k,
            ),
{
    let ghost old_v = v@;
    let n: usize = v.len();
    let mut i: usize = 0;
    while i < n
        invariant
            i <= n,
            n == v@.len(),
            v@ == old_v,
            old_v == old(v)@,
            prices_ok(v@),
            value <= MAX_AMT,
            forall|j: int| 0 <= j < i ==> #[trigger] v@[j].0@ != key@,
        decreases n - i,
    {
        if crate::text::str_eq(v[i].0.as_str(), key) {
            let name: String = v[i].0.clone();
            v[i] = (name, value);
            proof {
                assert(v@ == old_v.update(i as int, v@[i as int]));
                assert forall|x: int| 0 <= x < v@.len() implies #[trigger] v@[x].1 <= MAX_AMT by {
                    if x != i as int {
                        assert(v@[x] == old_v[x]);
                    }
                }
                lemma_price_lookup_first(v@, key@, i as int, value);
                assert forall|k: Seq<char>| k != key@ implies #[trigger] spec_price_lookup(v@, k)
                    == spec_price_lookup(old_v, k) by {
                    lemma_price_lookup_update(old_v, v@, i as int, k);
                }
            }
            return ;
        }
        i = i + 1;
    }
    let entry: (String, u64) = (String::from_str(key), value);
    v.push(entry);
    proof {
        assert(v@ =~= old_v + seq![v@[v@.len() - 1]]);
        assert forall|x: int| 0 <= x < v@.len() implies #[trigger] v@[x].1 <= MAX_AMT by {
            if x < old_v.len() {
                assert(v@[x] == old_v[x]);
            }
        }
        lemma_price_lookup_first(v@, key@, v@.len() - 1, value);
        assert forall|k: Seq<char>| k != key@ implies #[trigger] spec_price_lookup(v@, k)
            == spec_price_lookup(old_v, k) by {
            lemma_price_lookup_append(old_v, v@[v@.len() - 1], k);
        }
    }
}

/// The lookup finds the entry at the first position holding its key.
proof fn lemma_price_lookup_first(s: Seq<(String, u64)>, key: Seq<char>, i: int, value: u64)
    requires
        0 <= i < s.len(),
        s[i].0@ == key,
        s[i].1 == value,
        forall|j: int| 0 <= j < i ==> #[trigger] s[j].0@ != key,
    ensures
        spec_price_lookup(s, key) == Some(value),
    decreases s.len(),
{
    if i == 0 {
    } else {
        assert(s.drop_first()[i - 1] == s[i]);
        assert forall|j: int| 0 <= j < i - 1 implies #[trigger] s.drop_first()[j].0@ != key by {
            assert(s.drop_first()[j] == s[j + 1]);
        }
        lemma_price_lookup_first(s.drop_first(), key, i - 1, value);
    }
}

/// Replacing the entry at one position leaves lookups of other keys
/// unchanged.
proof fn lemma_price_lookup_update(
    s1: Seq<(String, u64)>,
    s2: Seq<(String, u64)>,
    i: int,
    key: Seq<char>,
)
    requires
        0 <= i < s1.len(),
        s2 == s1.update(i, s2[i]),
        s1[i].0@ == s2[i].0@,
        s2[i].0@ != key,
    ensures
        spec_price_lookup(s2, key) == spec_price_lookup(s1, key),
    decreases s1.len(),
{
    if s1.len() == 0 {
    } else if i == 0 {
        assert(s2.drop_first() =~= s1.drop_first());
    } else {
        assert(s2[0] == s1[0]);
        if s1[0].0@ == key {
        } else {
            assert(s2.drop_first() =~= s1.drop_first().update(i - 1, s2[i]));
            assert(s2.drop_first()[i - 1] == s2[i]);
            assert(s1.drop_first()[i - 1] == s1[i]);
            lemma_price_lookup_update(s1.drop_first(), s2.drop_first(), i - 1, key);
        }
    }
}

/// Appending an entry leaves lookups of other keys unchanged.
proof fn lemma_price_lookup_append(s: Seq<(String, u64)>, entry: (String, u64), key: Seq<char>)
    requires
        entry.0@ != key,
    ensures
        spec_price_lookup(s + seq![entry], key) == spec_price_lookup(s, key),
    decreases s.len(),
{
    if s.len() == 0 {
        assert((s + seq![entry])[0] == entry);
        assert((s + seq![entry]).drop_first() =~= Seq::<(String, u64)>::empty());
        assert(spec_price_lookup(Seq::<(String, u64)>::empty(), key) is None);
    } else {
        assert((s + seq![entry])[0] == s[0]);
        if s[0].0@ == key {
        } else {
            assert((s + seq![entry]).drop_first() =~= s.drop_first() + seq![entry]);
            lemma_price_lookup_append(s.drop_first(), entry, key);
        }
    }
}


/// The state reset leaves behind, as a relation between the executor
/// before and after: configurations kept, portfolio back to its initial
/// balances with no positions, and history, metrics, books and prices
/// cleared.
pub open spec fn spec_is_reset_of(post: DryRunExecutor, pre: DryRunExecutor) -> bool {
    &&& post.spec_config() == pre.spec_config()
    &&& post.spec_exec_config() == pre.spec_exec_config()
    &&& post.spec_portfolio().spec_positions() == Seq::<(String, i128)>::empty()
    &&& post.spec_portfolio().spec_balances() == pre.spec_portfolio().spec_initial_balances()
    &&& post.spec_portfolio().spec_initial_balances() == pre.spec_portfolio()
        .spec_initial_balances()
    &&& post.spec_history() == Seq::<OrderResponse>::empty()
    &&& post.spec_metrics().total_orders == 0
    &&& post.spec_metrics().total_volume == 0
    &&& post.spec_metrics().average_execution_time_ms == 0
    &&& post.spec_metrics().success_rate == 0
    &&& post.spec_metrics().total_fees == 0
    &&& post.spec_metrics().sharpe_ratio is None
    &&& post.spec_metrics().max_drawdown == 0
    &&& post.spec_books() == Seq::<OrderBook>::empty()
    &&& post.spec_prices() == Seq::<(String, u64)>::empty()
}

/// Resetting the simulator is idempotent: resetting a second time yields
/// exactly the zeroed state the first reset left, because a reset keeps
/// the initial balances that the next reset restores.
pub proof fn lemma_reset_idempotent(e0: DryRunExecutor, e1: DryRunExecutor, e2: DryRunExecutor)
    requires
        spec_is_reset_of(e1, e0),
        spec_is_reset_of(e2, e1),
    ensures
        e2.spec_config() == e1.spec_config(),
        e2.spec_exec_config() == e1.spec_exec_config(),
        e2.spec_portfolio().spec_positions() == e1.spec_portfolio().spec_positions(),
        e2.spec_portfolio().spec_balances() == e1.spec_portfolio().spec_balances(),
        e2.spec_portfolio().spec_initial_balances() == e1.spec_portfolio()
            .spec_initial_balances(),
        e2.spec_history() == e1.spec_history(),
        e2.spec_metrics().total_orders == e1.spec_metrics().total_orders,
        e2.spec_metrics().total_volume == e1.spec_metrics().total_volume,
        e2.spec_metrics().total_fees == e1.spec_metrics().total_fees,
        e2.spec_metrics().success_rate == e1.spec_metrics().success_rate,
        e2.spec_books() == e1.spec_books(),
        e2.spec_prices() == e1.spec_prices(),
{
}


/// Valuing positions that are all zero moves the accumulator nowhere.
proof fn lemma_pnl_positions_zero(s: Seq<(String, i128)>, prices: Seq<(String, u64)>, acc: int)
    requires
        forall|i: int| 0 <= i < s.len() ==> #[trigger] s[i].1 == 0,
        -(AMT_LIMIT as int) <= acc <= AMT_LIMIT as int,
    ensures
        spec_pnl_positions(s, prices, acc) == acc,
    decreases s.len(),
{
    if s.len() > 0 {
        assert(s[0].1 == 0);
        assert(spec_scaled_value(0, spec_price_lookup(prices, s[0].0@)->Some_0 as int) == 0) by {
            assert(0int * (spec_price_lookup(prices, s[0].0@)->Some_0 as int) == 0)
                by (nonlinear_arith);
        }
        assert forall|i: int| 0 <= i < s.drop_first().len() implies #[trigger] s.drop_first()[
            i].1 == 0 by {
            assert(s.drop_first()[i] == s[i + 1]);
        }
        lemma_pnl_positions_zero(s.drop_first(), prices, acc);
    }
}

/// Folding balances whose every dollar entry equals its initial value,
/// except one USDT entry moved by `delta`, adds exactly `delta`.
proof fn lemma_pnl_balances_usdt_delta(
    bal: Seq<(String, i128)>,
    init: Seq<(String, i128)>,
    acc: int,
    delta: int,
)
    requires
        forall|i: int|
            0 <= i < bal.len() && #[trigger] bal[i].0@ != "USDT"@ ==> bal[i].1 == spec_amount(
                init,
                bal[i].0@,
            ),
        forall|i: int|
            0 <= i < bal.len() && #[trigger] bal[i].0@ == "USDT"@ ==> bal[i].1 == spec_amount(
                init,
                "USDT"@,
            ) + delta,
        exists|i: int| 0 <= i < bal.len() && #[trigger] bal[i].0@ == "USDT"@,
        amt_keys_unique(bal),
        -(AMT_LIMIT as int) <= acc <= AMT_LIMIT as int,
        -(AMT_LIMIT as int) <= acc + delta <= AMT_LIMIT as int,
    ensures
        spec_pnl_balances(bal, init, acc) == acc + delta,
    decreases bal.len(),
{
    let w = choose|i: int| 0 <= i < bal.len() && #[trigger] bal[i].0@ == "USDT"@;
    if bal[0].0@ == "USDT"@ {
        assert(bal[0].1 == spec_amount(init, "USDT"@) + delta);
        assert(clamp_ledger(acc + (bal[0].1 - spec_amount(init, bal[0].0@))) == acc + delta);
        assert forall|i: int| 0 <= i < bal.drop_first().len() implies !(#[trigger] bal
            .drop_first()[i].0@ == "USDT"@) by {
            assert(bal.drop_first()[i] == bal[i + 1]);
            assert(bal[0].0@ != bal[i + 1].0@);
        }
        assert forall|i: int|
            0 <= i < bal.drop_first().len() && #[trigger] bal.drop_first()[i].0@ != "USDT"@
                implies bal.drop_first()[i].1 == spec_amount(init, bal.drop_first()[i].0@) by {
            assert(bal.drop_first()[i] == bal[i + 1]);
        }
        lemma_pnl_balances_unchanged(bal.drop_first(), init, acc + delta);
    } else {
        assert(w >= 1);
        let step: int = if bal[0].0@ == "USDT"@ || bal[0].0@ == "USD"@ {
            clamp_ledger(acc + (bal[0].1 - spec_amount(init, bal[0].0@)))
        } else {
            acc
        };
        assert(step == acc) by {
            if bal[0].0@ == "USD"@ {
                assert(bal[0].1 == spec_amount(init, bal[0].0@));
            }
        }
        assert(amt_keys_unique(bal.drop_first())) by {
            assert forall|x: int, y: int|
                0 <= x < y < bal.drop_first().len() implies #[trigger] bal.drop_first()[x].0@
                != #[trigger] bal.drop_first()[y].0@ by {
                assert(bal.drop_first()[x] == bal[x + 1]);
                assert(bal.drop_first()[y] == bal[y + 1]);
            }
        }
        assert(bal.drop_first()[w - 1].0@ == "USDT"@);
        assert forall|i: int|
            0 <= i < bal.drop_first().len() && #[trigger] bal.drop_first()[i].0@ != "USDT"@
                implies bal.drop_first()[i].1 == spec_amount(init, bal.drop_first()[i].0@) by {
            assert(bal.drop_first()[i] == bal[i + 1]);
        }
        assert forall|i: int|
            0 <= i < bal.drop_first().len() && #[trigger] bal.drop_first()[i].0@ == "USDT"@
                implies bal.drop_first()[i].1 == spec_amount(init, "USDT"@) + delta by {
            assert(bal.drop_first()[i] == bal[i + 1]);
        }
        lemma_pnl_balances_usdt_delta(bal.drop_first(), init, acc, delta);
    }
}

/// Folding balances whose every dollar entry equals its initial value
/// moves the accumulator nowhere.
proof fn lemma_pnl_balances_unchanged(bal: Seq<(String, i128)>, init: Seq<(String, i128)>, acc: int)
    requires
        forall|i: int|
            0 <= i < bal.len() && (#[trigger] bal[i].0@ == "USDT"@ || bal[i].0@ == "USD"@)
                ==> bal[i].1 == spec_amount(init, bal[i].0@),
        -(AMT_LIMIT as int) <= acc <= AMT_LIMIT as int,
    ensures
        spec_pnl_balances(bal, init, acc) == acc,
    decreases bal.len(),
{
    if bal.len() > 0 {
        assert forall|i: int|
            0 <= i < bal.drop_first().len() && (#[trigger] bal.drop_first()[i].0@ == "USDT"@
                || bal.drop_first()[i].0@ == "USD"@) implies bal.drop_first()[i].1 == spec_amount(
            init,
            bal.drop_first()[i].0@,
        ) by {
            assert(bal.drop_first()[i] == bal[i + 1]);
        }
        lemma_pnl_balances_unchanged(bal.drop_first(), init, acc);
    }
}

/// A buy fill and a following equal-quantity sell fill at a strictly
/// better price leave the symbol flat and the portfolio in profit: after
/// the round trip the position is zero and the profit and loss against
/// any prices is positive. Stated of fills whose fees are zero, whose
/// notional difference is at least one ledger atom, and whose amounts
/// stay far from the saturation bound.
pub proof fn lemma_round_trip_profit(
    e0: DryRunExecutor,
    e1: DryRunExecutor,
    e2: DryRunExecutor,
    prices: Seq<(String, u64)>,
    sym: Seq<char>,
    qty: u64,
    buy_px: u64,
    sell_px: u64,
)
    requires
        e0.spec_portfolio().wf(),
        e1.spec_portfolio().wf(),
        e2.spec_portfolio().wf(),
        prices_ok(prices),
        // a fresh portfolio: no positions, balances at their baseline
        e0.spec_portfolio().spec_positions() == Seq::<(String, i128)>::empty(),
        e0.spec_portfolio().spec_balances() == e0.spec_portfolio().spec_initial_balances(),
        // valid amounts and a strictly profitable pair of prices
        1 <= qty <= MAX_AMT,
        1 <= buy_px <= MAX_AMT,
        1 <= sell_px <= MAX_AMT,
        buy_px < sell_px,
        spec_mul_scale(qty as int, sell_px as int) - spec_mul_scale(qty as int, buy_px as int)
            >= 1,
        -(AMT_LIMIT as int) / 2 <= spec_amount(
            e0.spec_portfolio().spec_initial_balances(),
            "USDT"@,
        ) <= (AMT_LIMIT as int) / 2,
        sym != "USDT"@,
        // the buy fill: position up by the quantity, cash down by the
        // notional, fees zero, everything else untouched
        e1.spec_portfolio().spec_position(sym) == clamp_ledger(
            e0.spec_portfolio().spec_position(sym) + qty,
        ),
        e1.spec_portfolio().spec_balance("USDT"@) == clamp_ledger(
            e0.spec_portfolio().spec_balance("USDT"@) + clamp_ledger(
                -spec_mul_scale(qty as int, buy_px as int),
            ),
        ),
        forall|k: Seq<char>|
            k != sym ==> #[trigger] spec_lookup_amt(e1.spec_portfolio().spec_positions(), k)
                == spec_lookup_amt(e0.spec_portfolio().spec_positions(), k),
        forall|k: Seq<char>|
            k != "USDT"@ ==> #[trigger] spec_lookup_amt(e1.spec_portfolio().spec_balances(), k)
                == spec_lookup_amt(e0.spec_portfolio().spec_balances(), k),
        e1.spec_portfolio().spec_initial_balances() == e0.spec_portfolio()
            .spec_initial_balances(),
        // the sell fill: position back down, cash up by the notional
        e2.spec_portfolio().spec_position(sym) == clamp_ledger(
            e1.spec_portfolio().spec_position(sym) - qty,
        ),
        e2.spec_portfolio().spec_balance("USDT"@) == clamp_ledger(
            e1.spec_portfolio().spec_balance("USDT"@) + clamp_ledger(
                spec_mul_scale(qty as int, sell_px as int),
            ),
        ),
        forall|k: Seq<char>|
            k != sym ==> #[trigger] spec_lookup_amt(e2.spec_portfolio().spec_positions(), k)
                == spec_lookup_amt(e1.spec_portfolio().spec_positions(), k),
        forall|k: Seq<char>|
            k != "USDT"@ ==> #[trigger] spec_lookup_amt(e2.spec_portfolio().spec_balances(), k)
                == spec_lookup_amt(e1.spec_portfolio().spec_balances(), k),
        e2.spec_portfolio().spec_initial_balances() == e1.spec_portfolio()
            .spec_initial_balances(),
        // the cash account exists after the round trip
        spec_lookup_amt(e2.spec_portfolio().spec_balances(), "USDT"@) is Some,
    ensures
        e2.spec_portfolio().spec_position(sym) == 0,
        spec_pnl(
            e2.spec_portfolio().spec_positions(),
            e2.spec_portfolio().spec_balances(),
            e2.spec_portfolio().spec_initial_balances(),
            prices,
        ) > 0,
{
    let p0 = e0.spec_portfolio();
    let p1 = e1.spec_portfolio();
    let p2 = e2.spec_portfolio();
    let init = p0.spec_initial_balances();
    let notional_b = spec_mul_scale(qty as int, buy_px as int);
    let notional_s = spec_mul_scale(qty as int, sell_px as int);
    let delta = notional_s - notional_b;
    // notional bounds
    assert(0 <= (qty as int) * (buy_px as int) <= (MAX_AMT as int) * (MAX_AMT as int))
        by (nonlinear_arith)
        requires
            0 <= qty <= MAX_AMT as int,
            0 <= buy_px <= MAX_AMT as int,
    ;
    assert(0 <= (qty as int) * (buy_px as int) / (SCALE as int) <= (MAX_AMT as int) * (
    MAX_AMT as int) / (SCALE as int)) by (nonlinear_arith)
        requires
            0 <= (qty as int) * (buy_px as int) <= (MAX_AMT as int) * (MAX_AMT as int),
            SCALE as int >= 1,
    ;
    assert(0 <= (qty as int) * (sell_px as int) <= (MAX_AMT as int) * (MAX_AMT as int))
        by (nonlinear_arith)
        requires
            0 <= qty <= MAX_AMT as int,
            0 <= sell_px <= MAX_AMT as int,
    ;
    assert(0 <= (qty as int) * (sell_px as int) / (SCALE as int) <= (MAX_AMT as int) * (
    MAX_AMT as int) / (SCALE as int)) by (nonlinear_arith)
        requires
            0 <= (qty as int) * (sell_px as int) <= (MAX_AMT as int) * (MAX_AMT as int),
            SCALE as int >= 1,
    ;
    // the position is flat
    assert(spec_lookup_amt(p0.spec_positions(), sym) is None) by {
        lemma_lookup_amt_none(p0.spec_positions(), sym);
    }
    assert(p0.spec_position(sym) == 0);
    assert(p1.spec_position(sym) == qty);
    assert(p2.spec_position(sym) == 0);
    // every position entry after the round trip is zero
    assert forall|i: int| 0 <= i < p2.spec_positions().len() implies #[trigger] p2
        .spec_positions()[i].1 == 0 by {
        lemma_lookup_amt_at(p2.spec_positions(), p2.spec_positions()[i].0@, i);
        if p2.spec_positions()[i].0@ != sym {
            lemma_lookup_amt_none(p0.spec_positions(), p2.spec_positions()[i].0@);
        }
    }
    lemma_pnl_positions_zero(p2.spec_positions(), prices, 0);
    // the cash account moved by exactly the notional difference
    let init_usdt = spec_amount(init, "USDT"@);
    assert(p0.spec_balance("USDT"@) == init_usdt);
    assert(p1.spec_balance("USDT"@) == init_usdt - notional_b);
    assert(p2.spec_balance("USDT"@) == init_usdt - notional_b + notional_s);
    // every other balance entry still equals its baseline
    assert forall|i: int|
        0 <= i < p2.spec_balances().len() && #[trigger] p2.spec_balances()[i].0@ != "USDT"@
            implies p2.spec_balances()[i].1 == spec_amount(init, p2.spec_balances()[i].0@) by {
        lemma_lookup_amt_at(p2.spec_balances(), p2.spec_balances()[i].0@, i);
    }
    assert forall|i: int|
        0 <= i < p2.spec_balances().len() && #[trigger] p2.spec_balances()[i].0@ == "USDT"@
            implies p2.spec_balances()[i].1 == spec_amount(init, "USDT"@) + delta by {
        lemma_lookup_amt_at(p2.spec_balances(), p2.spec_balances()[i].0@, i);
    }
    assert(exists|i: int| 0 <= i < p2.spec_balances().len() && #[trigger] p2.spec_balances()[
        i].0@ == "USDT"@) by {
        let v = spec_lookup_amt(p2.spec_balances(), "USDT"@);
        lemma_lookup_amt_some_has_key(p2.spec_balances(), "USDT"@);
    }
    lemma_pnl_balances_usdt_delta(p2.spec_balances(), init, 0, delta);
}

/// A successful lookup means some entry holds the key.
proof fn lemma_lookup_amt_some_has_key(s: Seq<(String, i128)>, key: Seq<char>)
    requires
        spec_lookup_amt(s, key) is Some,
    ensures
        exists|i: int| 0 <= i < s.len() && #[trigger] s[i].0@ == key,
    decreases s.len(),
{
    if s.len() > 0 {
        if s[0].0@ == key {
            assert(s[0].0@ == key);
        } else {
            lemma_lookup_amt_some_has_key(s.drop_first(), key);
            let w = choose|i: int| 0 <= i < s.drop_first().len() && #[trigger] s.drop_first()[
                i].0@ == key;
            assert(s[w + 1].0@ == key);
        }
    }
}

/// A fieldwise copy of an order response.
fn clone_response(r: &OrderResponse) -> (c: OrderResponse)
    ensures
        c == *r,
{
    let client_order_id: Option<String> = match &r.client_order_id {
        Some(cid) => Some(cid.clone()),
        None => None,
    };
    let average_price: Option<u64> = match &r.average_price {
        Some(p) => Some(*p),
        None => None,
    };
    OrderResponse {
        order_id: r.order_id.clone(),
        client_order_id,
        symbol: r.symbol.clone(),
        side: r.side,
        quantity: r.quantity,
        price: r.price,
        status: r.status,
        filled_quantity: r.filled_quantity,
        average_price,
        timestamp: r.timestamp,
    }
}

} // verus!
