//! Per-venue order books and the market-data aggregator that owns the
//! latest book per (venue, symbol) key.

use vstd::prelude::*;

use crate::amounts::MAX_AMT;
use crate::connectors::Exchange;
use crate::connectors::traits::MarketDataUpdate;

verus! {

/// Price levels strictly descending by price (a bid side).
pub open spec fn desc_sorted(s: Seq<(u64, u64)>) -> bool {
    forall|i: int, j: int| 0 <= i < j < s.len() ==> s[i].0 > s[j].0
}

/// Price levels strictly ascending by price (an ask side).
pub open spec fn asc_sorted(s: Seq<(u64, u64)>) -> bool {
    forall|i: int, j: int| 0 <= i < j < s.len() ==> s[i].0 < s[j].0
}

/// Every level holds a valid non-zero price and a valid non-zero quantity.
pub open spec fn levels_ok(s: Seq<(u64, u64)>) -> bool {
    forall|i: int|
        0 <= i < s.len() ==> 1 <= #[trigger] s[i].0 <= MAX_AMT && 1 <= s[i].1 <= MAX_AMT
}

/// The level `(price, qty)` is present.
pub open spec fn has_level(s: Seq<(u64, u64)>, price: u64, qty: u64) -> bool {
    exists|i: int| 0 <= i < s.len() && s[i] == (price, qty)
}

/// Some level with this price is present.
pub open spec fn has_price(s: Seq<(u64, u64)>, price: u64) -> bool {
    exists|i: int| 0 <= i < s.len() && #[trigger] s[i].0 == price
}

/// The element a rebuilt side holds at output position `w`, by region:
/// kept prefix, the written level, then the kept suffix.
spec fn region_elem(
    s: Seq<(u64, u64)>,
    prefix_len: int,
    blen: int,
    k: int,
    price: u64,
    qty: u64,
    w: int,
) -> (u64, u64) {
    if w < prefix_len {
        s[w]
    } else if w < prefix_len + blen {
        (price, qty)
    } else {
        s[w - prefix_len - blen + k]
    }
}

/// Writes one level into a descending side: drops the old level at
/// `price` and, when `qty >= 1`, places `(price, qty)` at its position.
#[verifier::rlimit(100)]
fn set_level_desc(levels: &Vec<(u64, u64)>, price: u64, qty: u64) -> (out: Vec<(u64, u64)>)
    requires
        desc_sorted(levels@),
        levels_ok(levels@),
        1 <= price <= MAX_AMT,
        qty <= MAX_AMT,
    ensures
        desc_sorted(out@),
        levels_ok(out@),
        qty == 0 ==> !has_price(out@, price),
        qty >= 1 ==> has_level(out@, price, qty),
        forall|p: u64, q: u64|
            p != price ==> (#[trigger] has_level(out@, p, q) == has_level(levels@, p, q)),
{
    let n: usize = levels.len();
    let mut out: Vec<(u64, u64)> = Vec::new();
    let mut i: usize = 0;
    while i < n && levels[i].0 > price
        invariant
            i <= n,
            n == levels@.len(),
            desc_sorted(levels@),
            levels_ok(levels@),
            out@.len() == i,
            forall|m: int| 0 <= m < i ==> out@[m] == levels@[m],
            forall|j: int| 0 <= j < i ==> levels@[j].0 > price,
        decreases n - i,
    {
        out.push(levels[i]);
        i = i + 1;
    }
    let ghost prefix_len: int = i as int;
    if qty >= 1 {
        out.push((price, qty));
    }
    let ghost mid: Seq<(u64, u64)> = out@;
    proof {
        assert(mid.len() == i + (if qty >= 1 { 1int } else { 0int }));
    }
    let start: usize = if i < n && levels[i].0 == price {
        i + 1
    } else {
        i
    };
    let ghost k: int = start as int;
    let mut j: usize = start;
    while j < n
        invariant
            k <= j <= n,
            n == levels@.len(),
            out@.len() == mid.len() + (j - k),
            forall|m: int| 0 <= m < mid.len() ==> out@[m] == mid[m],
            forall|m: int| k <= m < j ==> out@[mid.len() + (m - k)] == levels@[m],
        decreases n - j,
    {
        out.push(levels[j]);
        j = j + 1;
    }
    proof {
        let s = levels@;
        let o = out@;
        let blen: int = if qty >= 1 { 1int } else { 0int };
        // every kept suffix level sits strictly below `price`
        assert forall|m: int| k <= m < n implies s[m].0 < price by {
            if prefix_len < n && s[prefix_len].0 == price {
                assert(s[prefix_len].0 > s[m].0);
            } else {
                if prefix_len < n {
                    assert(s[prefix_len].0 <= price);
                    if m > prefix_len {
                        assert(s[prefix_len].0 > s[m].0);
                    }
                }
            }
        }
        // shape of the output by region
        assert forall|w: int| 0 <= w < o.len() implies #[trigger] o[w] == region_elem(
            s,
            prefix_len,
            blen,
            k,
            price,
            qty,
            w,
        ) by {
            if w < prefix_len {
                assert(o[w] == mid[w]);
                assert(mid[w] == s[w]);
            } else if w < prefix_len + blen {
                assert(o[w] == mid[w]);
            } else {
                assert(o[w] == s[w - prefix_len - blen + k]);
            }
        }
        assert(o.len() == prefix_len + blen + (n - k));
        assert(desc_sorted(o)) by {
            assert forall|x: int, y: int| 0 <= x < y < o.len() implies o[x].0 > o[y].0 by {
                assert(o[x] == region_elem(s, prefix_len, blen, k, price, qty, x));
                assert(o[y] == region_elem(s, prefix_len, blen, k, price, qty, y));
            }
        }
        assert(levels_ok(o)) by {
            assert forall|x: int| 0 <= x < o.len() implies 1 <= #[trigger] o[x].0 <= MAX_AMT && 1
                <= o[x].1 <= MAX_AMT by {
                assert(o[x] == region_elem(s, prefix_len, blen, k, price, qty, x));
            }
        }
        if qty == 0 {
            assert forall|w: int| 0 <= w < o.len() implies #[trigger] o[w].0 != price by {
                assert(o[w] == region_elem(s, prefix_len, blen, k, price, qty, w));
            }
        }
        if qty >= 1 {
            assert(o[prefix_len] == (price, qty));
        }
        assert forall|p: u64, q: u64| p != price implies (#[trigger] has_level(o, p, q)
            == has_level(s, p, q)) by {
            if has_level(o, p, q) {
                let w = choose|w: int| 0 <= w < o.len() && o[w] == (p, q);
                assert(o[w] == region_elem(s, prefix_len, blen, k, price, qty, w));
                if w < prefix_len {
                    assert(s[w] == (p, q));
                } else if w < prefix_len + blen {
                    assert(false);
                } else {
                    assert(s[w - prefix_len - blen + k] == (p, q));
                }
            }
            if has_level(s, p, q) {
                let w = choose|w: int| 0 <= w < s.len() && s[w] == (p, q);
                if w < prefix_len {
                    assert(o[w] == region_elem(s, prefix_len, blen, k, price, qty, w));
                    assert(o[w] == (p, q));
                } else {
                    assert(w >= k) by {
                        if w < k {
                            assert(s[w].0 == price);
                        }
                    }
                    let w2 = w - k + prefix_len + blen;
                    assert(o[w2] == region_elem(s, prefix_len, blen, k, price, qty, w2));
                    assert(o[w2] == (p, q));
                }
            }
        }
    }
    out
}

/// Writes one level into an ascending side: drops the old level at
/// `price` and, when `qty >= 1`, places `(price, qty)` at its position.
#[verifier::rlimit(100)]
fn set_level_asc(levels: &Vec<(u64, u64)>, price: u64, qty: u64) -> (out: Vec<(u64, u64)>)
    requires
        asc_sorted(levels@),
        levels_ok(levels@),
        1 <= price <= MAX_AMT,
        qty <= MAX_AMT,
    ensures
        asc_sorted(out@),
        levels_ok(out@),
        qty == 0 ==> !has_price(out@, price),
        qty >= 1 ==> has_level(out@, price, qty),
        forall|p: u64, q: u64|
            p != price ==> (#[trigger] has_level(out@, p, q) == has_level(levels@, p, q)),
{
    let n: usize = levels.len();
    let mut out: Vec<(u64, u64)> = Vec::new();
    let mut i: usize = 0;
    while i < n && levels[i].0 < price
        invariant
            i <= n,
            n == levels@.len(),
            asc_sorted(levels@),
            levels_ok(levels@),
            out@.len() == i,
            forall|m: int| 0 <= m < i ==> out@[m] == levels@[m],
            forall|j: int| 0 <= j < i ==> levels@[j].0 < price,
        decreases n - i,
    {
        out.push(levels[i]);
        i = i + 1;
    }
    let ghost prefix_len: int = i as int;
    if qty >= 1 {
        out.push((price, qty));
    }
    let ghost mid: Seq<(u64, u64)> = out@;
    proof {
        assert(mid.len() == i + (if qty >= 1 { 1int } else { 0int }));
    }
    let start: usize = if i < n && levels[i].0 == price {
        i + 1
    } else {
        i
    };
    let ghost k: int = start as int;
    let mut j: usize = start;
    while j < n
        invariant
            k <= j <= n,
            n == levels@.len(),
            out@.len() == mid.len() + (j - k),
            forall|m: int| 0 <= m < mid.len() ==> out@[m] == mid[m],
            forall|m: int| k <= m < j ==> out@[mid.len() + (m - k)] == levels@[m],
        decreases n - j,
    {
        out.push(levels[j]);
        j = j + 1;
    }
    proof {
        let s = levels@;
        let o = out@;
        let blen: int = if qty >= 1 { 1int } else { 0int };
        assert forall|m: int| k <= m < n implies s[m].0 > price by {
            if prefix_len < n && s[prefix_len].0 == price {
                assert(s[prefix_len].0 < s[m].0);
            } else {
                if prefix_len < n {
                    assert(s[prefix_len].0 >= price);
                    if m > prefix_len {
                        assert(s[prefix_len].0 < s[m].0);
                    }
                }
            }
        }
        assert forall|w: int| 0 <= w < o.len() implies #[trigger] o[w] == region_elem(
            s,
            prefix_len,
            blen,
            k,
            price,
            qty,
            w,
        ) by {
            if w < prefix_len {
                assert(o[w] == mid[w]);
                assert(mid[w] == s[w]);
            } else if w < prefix_len + blen {
                assert(o[w] == mid[w]);
            } else {
                assert(o[w] == s[w - prefix_len - blen + k]);
            }
        }
        assert(o.len() == prefix_len + blen + (n - k));
        assert(asc_sorted(o)) by {
            assert forall|x: int, y: int| 0 <= x < y < o.len() implies o[x].0 < o[y].0 by {
                assert(o[x] == region_elem(s, prefix_len, blen, k, price, qty, x));
                assert(o[y] == region_elem(s, prefix_len, blen, k, price, qty, y));
            }
        }
        assert(levels_ok(o)) by {
            assert forall|x: int| 0 <= x < o.len() implies 1 <= #[trigger] o[x].0 <= MAX_AMT && 1
                <= o[x].1 <= MAX_AMT by {
                assert(o[x] == region_elem(s, prefix_len, blen, k, price, qty, x));
            }
        }
        if qty == 0 {
            assert forall|w: int| 0 <= w < o.len() implies #[trigger] o[w].0 != price by {
                assert(o[w] == region_elem(s, prefix_len, blen, k, price, qty, w));
            }
        }
        if qty >= 1 {
            assert(o[prefix_len] == (price, qty));
        }
        assert forall|p: u64, q: u64| p != price implies (#[trigger] has_level(o, p, q)
            == has_level(s, p, q)) by {
            if has_level(o, p, q) {
                let w = choose|w: int| 0 <= w < o.len() && o[w] == (p, q);
                assert(o[w] == region_elem(s, prefix_len, blen, k, price, qty, w));
                if w < prefix_len {
                    assert(s[w] == (p, q));
                } else if w < prefix_len + blen {
                    assert(false);
                } else {
                    assert(s[w - prefix_len - blen + k] == (p, q));
                }
            }
            if has_level(s, p, q) {
                let w = choose|w: int| 0 <= w < s.len() && s[w] == (p, q);
                if w < prefix_len {
                    assert(o[w] == region_elem(s, prefix_len, blen, k, price, qty, w));
                    assert(o[w] == (p, q));
                } else {
                    assert(w >= k) by {
                        if w < k {
                            assert(s[w].0 == price);
                        }
                    }
                    let w2 = w - k + prefix_len + blen;
                    assert(o[w2] == region_elem(s, prefix_len, blen, k, price, qty, w2));
                    assert(o[w2] == (p, q));
                }
            }
        }
    }
    out
}

/// A per-symbol, per-venue order book: bids descending, asks ascending,
/// and the nanosecond timestamp of the last update.
#[derive(Debug)]
pub struct OrderBook {
    symbol: String,
    exchange: Exchange,
    bids: Vec<(u64, u64)>,
    asks: Vec<(u64, u64)>,
    timestamp: i64,
}

impl OrderBook {
    /// Well-formedness: bids strictly descending, asks strictly
    /// ascending, and every level a valid non-zero price and quantity.
    /// Books are built only through this module, so every book satisfies
    /// it; `use_type_invariant` recovers it where a proof needs it.
    #[verifier::type_invariant]
    pub open spec fn wf(self) -> bool {
        desc_sorted(self.spec_bids()) && asc_sorted(self.spec_asks()) && levels_ok(
            self.spec_bids(),
        ) && levels_ok(self.spec_asks())
    }

    /// The trading symbol, as a specification value.
    pub closed spec fn spec_symbol(self) -> Seq<char> {
        self.symbol@
    }

    /// The owning venue, as a specification value.
    pub closed spec fn spec_exchange(self) -> Exchange {
        self.exchange
    }

    /// The bid side, best first.
    pub closed spec fn spec_bids(self) -> Seq<(u64, u64)> {
        self.bids@
    }

    /// The ask side, best first.
    pub closed spec fn spec_asks(self) -> Seq<(u64, u64)> {
        self.asks@
    }

    /// The last-update timestamp in nanoseconds.
    pub closed spec fn spec_timestamp(self) -> i64 {
        self.timestamp
    }

    /// The best bid price, when the bid side is non-empty.
    pub open spec fn spec_best_bid(self) -> Option<u64> {
        if self.spec_bids().len() == 0 {
            None
        } else {
            Some(self.spec_bids()[0].0)
        }
    }

    /// The best ask price, when the ask side is non-empty.
    pub open spec fn spec_best_ask(self) -> Option<u64> {
        if self.spec_asks().len() == 0 {
            None
        } else {
            Some(self.spec_asks()[0].0)
        }
    }

    /// The midpoint of the best bid and ask, when both sides are non-empty.
    pub open spec fn spec_mid_price(self) -> Option<u64> {
        if self.spec_bids().len() > 0 && self.spec_asks().len() > 0 {
            Some((((self.spec_bids()[0].0 + self.spec_asks()[0].0) / 2) as u64))
        } else {
            None
        }
    }

    /// An empty book for one symbol at one venue.
    pub fn new(symbol: String, exchange: Exchange) -> (r: OrderBook)
        ensures
            r.spec_symbol() == symbol@,
            r.spec_exchange() == exchange,
            r.spec_bids() == Seq::<(u64, u64)>::empty(),
            r.spec_asks() == Seq::<(u64, u64)>::empty(),
            r.spec_timestamp() == 0,
    {
        let r = OrderBook {
            symbol,
            exchange,
            bids: Vec::new(),
            asks: Vec::new(),
            timestamp: 0,
        };
        proof {
            assert(r.spec_bids() =~= Seq::<(u64, u64)>::empty());
            assert(r.spec_asks() =~= Seq::<(u64, u64)>::empty());
        }
        r
    }

    /// The trading symbol.
    pub fn symbol(&self) -> (r: &String)
        ensures
            r@ == self.spec_symbol(),
    {
        &self.symbol
    }

    /// The owning venue.
    pub fn exchange(&self) -> (r: Exchange)
        ensures
            r == self.spec_exchange(),
    {
        self.exchange
    }

    /// The last-update timestamp in nanoseconds.
    pub fn timestamp(&self) -> (r: i64)
        ensures
            r == self.spec_timestamp(),
    {
        self.timestamp
    }

    /// Stamps the book with a feed timestamp.
    pub fn set_timestamp(&mut self, timestamp: i64)
        ensures
            final(self).spec_timestamp() == timestamp,
            final(self).spec_symbol() == old(self).spec_symbol(),
            final(self).spec_exchange() == old(self).spec_exchange(),
            final(self).spec_bids() == old(self).spec_bids(),
            final(self).spec_asks() == old(self).spec_asks(),
    {
        proof {
            use_type_invariant(&*self);
        }
        self.timestamp = timestamp;
    }

    /// Sets the bid quantity at a price; a zero quantity removes the level.
    pub fn update_bid(&mut self, price: u64, quantity: u64)
        requires
            1 <= price <= MAX_AMT,
            quantity <= MAX_AMT,
        ensures
            final(self).spec_symbol() == old(self).spec_symbol(),
            final(self).spec_exchange() == old(self).spec_exchange(),
            final(self).spec_asks() == old(self).spec_asks(),
            final(self).spec_timestamp() == old(self).spec_timestamp(),
            quantity == 0 ==> !has_price(final(self).spec_bids(), price),
            quantity >= 1 ==> has_level(final(self).spec_bids(), price, quantity),
            forall|p: u64, q: u64|
                p != price ==> (#[trigger] has_level(final(self).spec_bids(), p, q) == has_level(
                    old(self).spec_bids(),
                    p,
                    q,
                )),
    {
        proof {
            use_type_invariant(&*self);
        }
        let new_bids = set_level_desc(&self.bids, price, quantity);
        self.bids = new_bids;
    }

    /// Sets the ask quantity at a price; a zero quantity removes the level.
    pub fn update_ask(&mut self, price: u64, quantity: u64)
        requires
            1 <= price <= MAX_AMT,
            quantity <= MAX_AMT,
        ensures
            final(self).spec_symbol() == old(self).spec_symbol(),
            final(self).spec_exchange() == old(self).spec_exchange(),
            final(self).spec_bids() == old(self).spec_bids(),
            final(self).spec_timestamp() == old(self).spec_timestamp(),
            quantity == 0 ==> !has_price(final(self).spec_asks(), price),
            quantity >= 1 ==> has_level(final(self).spec_asks(), price, quantity),
            forall|p: u64, q: u64|
                p != price ==> (#[trigger] has_level(final(self).spec_asks(), p, q) == has_level(
                    old(self).spec_asks(),
                    p,
                    q,
                )),
    {
        proof {
            use_type_invariant(&*self);
        }
        let new_asks = set_level_asc(&self.asks, price, quantity);
        self.asks = new_asks;
    }

    /// The best (highest) bid price.
    pub fn best_bid(&self) -> (r: Option<u64>)
        ensures
            r == self.spec_best_bid(),
            r matches Some(p) ==> 1 <= p <= MAX_AMT,
    {
        proof {
            use_type_invariant(&*self);
            if self.bids@.len() > 0 {
                assert(1 <= self.bids@[0].0 <= MAX_AMT);
            }
        }
        if self.bids.len() == 0 {
            None
        } else {
            Some(self.bids[0].0)
        }
    }

    /// The best (lowest) ask price.
    pub fn best_ask(&self) -> (r: Option<u64>)
        ensures
            r == self.spec_best_ask(),
            r matches Some(p) ==> 1 <= p <= MAX_AMT,
    {
        proof {
            use_type_invariant(&*self);
            if self.asks@.len() > 0 {
                assert(1 <= self.asks@[0].0 <= MAX_AMT);
            }
        }
        if self.asks.len() == 0 {
            None
        } else {
            Some(self.asks[0].0)
        }
    }

    /// The quantity resting at the best bid.
    pub fn best_bid_quantity(&self) -> (r: Option<u64>)
        ensures
            self.spec_bids().len() == 0 ==> r is None,
            self.spec_bids().len() > 0 ==> r == Some(self.spec_bids()[0].1),
            r matches Some(q) ==> 1 <= q <= MAX_AMT,
    {
        proof {
            use_type_invariant(&*self);
            if self.bids@.len() > 0 {
                assert(1 <= self.bids@[0].0 <= MAX_AMT);
                assert(1 <= self.bids@[0].1 <= MAX_AMT);
            }
        }
        if self.bids.len() == 0 {
            None
        } else {
            Some(self.bids[0].1)
        }
    }

    /// The quantity resting at the best ask.
    pub fn best_ask_quantity(&self) -> (r: Option<u64>)
        ensures
            self.spec_asks().len() == 0 ==> r is None,
            self.spec_asks().len() > 0 ==> r == Some(self.spec_asks()[0].1),
            r matches Some(q) ==> 1 <= q <= MAX_AMT,
    {
        proof {
            use_type_invariant(&*self);
            if self.asks@.len() > 0 {
                assert(1 <= self.asks@[0].0 <= MAX_AMT);
                assert(1 <= self.asks@[0].1 <= MAX_AMT);
            }
        }
        if self.asks.len() == 0 {
            None
        } else {
            Some(self.asks[0].1)
        }
    }

    /// The midpoint of the best bid and ask, when both sides are non-empty.
    pub fn mid_price(&self) -> (r: Option<u64>)
        ensures
            r == self.spec_mid_price(),
            r matches Some(m) ==> m <= MAX_AMT,
    {
        proof {
            use_type_invariant(&*self);
            if self.bids@.len() > 0 && self.asks@.len() > 0 {
                assert(1 <= self.bids@[0].0 <= MAX_AMT);
                assert(1 <= self.asks@[0].0 <= MAX_AMT);
            }
        }
        if self.bids.len() >= 1 && self.asks.len() >= 1 {
            let b: u64 = self.bids[0].0;
            let a: u64 = self.asks[0].0;
            Some((b + a) / 2)
        } else {
            None
        }
    }

    /// A copy of the book: equal symbol, venue, sides and timestamp.
    pub fn snapshot(&self) -> (r: OrderBook)
        ensures
            same_book(r, *self),
    {
        proof {
            use_type_invariant(&*self);
        }
        let mut bids: Vec<(u64, u64)> = Vec::new();
        proof {
            assert(bids@ =~= self.bids@.subrange(0, 0));
        }
        let mut i: usize = 0;
        while i < self.bids.len()
            invariant
                i <= self.bids@.len(),
                bids@ == self.bids@.subrange(0, i as int),
            decreases self.bids@.len() - i,
        {
            bids.push(self.bids[i]);
            proof {
                assert(self.bids@.subrange(0, i + 1 as int) =~= self.bids@.subrange(
                    0,
                    i as int,
                ).push(self.bids@[i as int]));
                assert(bids@ =~= self.bids@.subrange(0, i + 1 as int));
            }
            i = i + 1;
        }
        let mut asks: Vec<(u64, u64)> = Vec::new();
        proof {
            assert(asks@ =~= self.asks@.subrange(0, 0));
        }
        let mut j: usize = 0;
        while j < self.asks.len()
            invariant
                j <= self.asks@.len(),
                asks@ == self.asks@.subrange(0, j as int),
            decreases self.asks@.len() - j,
        {
            asks.push(self.asks[j]);
            proof {
                assert(self.asks@.subrange(0, j + 1 as int) =~= self.asks@.subrange(
                    0,
                    j as int,
                ).push(self.asks@[j as int]));
                assert(asks@ =~= self.asks@.subrange(0, j + 1 as int));
            }
            j = j + 1;
        }
        proof {
            assert(bids@ =~= self.bids@);
            assert(asks@ =~= self.asks@);
        }
        OrderBook {
            symbol: self.symbol.clone(),
            exchange: self.exchange,
            bids,
            asks,
            timestamp: self.timestamp,
        }
    }

    /// In a book whose every bid price sits strictly below every ask
    /// price, the best bid sits strictly below the best ask whenever both
    /// sides are non-empty.
    pub proof fn lemma_uncrossed_best(self)
        requires
            self.wf(),
            forall|pb: u64, qb: u64, pa: u64, qa: u64|
                has_level(self.spec_bids(), pb, qb) && has_level(self.spec_asks(), pa, qa)
                    ==> pb < pa,
            self.spec_bids().len() > 0,
            self.spec_asks().len() > 0,
        ensures
            self.spec_best_bid() matches Some(b) && self.spec_best_ask() matches Some(a) && b < a,
    {
        let b = self.spec_bids()[0];
        let a = self.spec_asks()[0];
        assert(has_level(self.spec_bids(), b.0, b.1));
        assert(has_level(self.spec_asks(), a.0, a.1));
    }

    /// The best bid is the highest bid: no bid level sits above it.
    pub proof fn lemma_best_bid_is_max(self)
        requires
            self.wf(),
            self.spec_bids().len() > 0,
        ensures
            forall|p: u64, q: u64|
                has_level(self.spec_bids(), p, q) ==> p <= self.spec_bids()[0].0,
    {
        assert forall|p: u64, q: u64|
            has_level(self.spec_bids(), p, q) implies p <= self.spec_bids()[0].0 by {
            let w = choose|w: int|
                0 <= w < self.spec_bids().len() && self.spec_bids()[w] == (p, q);
            if w > 0 {
                assert(self.spec_bids()[0].0 > self.spec_bids()[w].0);
            }
        }
    }

    /// The best ask is the lowest ask: no ask level sits below it.
    pub proof fn lemma_best_ask_is_min(self)
        requires
            self.wf(),
            self.spec_asks().len() > 0,
        ensures
            forall|p: u64, q: u64|
                has_level(self.spec_asks(), p, q) ==> p >= self.spec_asks()[0].0,
    {
        assert forall|p: u64, q: u64|
            has_level(self.spec_asks(), p, q) implies p >= self.spec_asks()[0].0 by {
            let w = choose|w: int|
                0 <= w < self.spec_asks().len() && self.spec_asks()[w] == (p, q);
            if w > 0 {
                assert(self.spec_asks()[0].0 < self.spec_asks()[w].0);
            }
        }
    }
}

/// Two books agree on symbol, venue, both sides and timestamp.
pub open spec fn same_book(a: OrderBook, b: OrderBook) -> bool {
    a.spec_symbol() == b.spec_symbol() && a.spec_exchange() == b.spec_exchange()
        && a.spec_bids() == b.spec_bids() && a.spec_asks() == b.spec_asks() && a.spec_timestamp()
        == b.spec_timestamp()
}

/// Two books carry the same (venue, symbol) key.
pub open spec fn same_key(a: OrderBook, b: OrderBook) -> bool {
    a.spec_exchange() == b.spec_exchange() && a.spec_symbol() == b.spec_symbol()
}

/// No two stored books share a key.
pub open spec fn books_unique(s: Seq<OrderBook>) -> bool {
    forall|i: int, j: int| 0 <= i < j < s.len() ==> !#[trigger] same_key(s[i], s[j])
}

/// Finds the first stored book carrying a symbol, at any venue.
pub open spec fn spec_first_for_symbol(s: Seq<OrderBook>, sym: Seq<char>) -> Option<OrderBook>
    decreases s.len(),
{
    if s.len() == 0 {
        None
    } else if s[0].spec_symbol() == sym {
        Some(s[0])
    } else {
        spec_first_for_symbol(s.drop_first(), sym)
    }
}

/// Finds the first book for a (venue, symbol) key.
pub open spec fn spec_find_book(s: Seq<OrderBook>, ex: Exchange, sym: Seq<char>) -> Option<
    OrderBook,
>
    decreases s.len(),
{
    if s.len() == 0 {
        None
    } else if s[0].spec_exchange() == ex && s[0].spec_symbol() == sym {
        Some(s[0])
    } else {
        spec_find_book(s.drop_first(), ex, sym)
    }
}

/// Owns the latest order book per (venue, symbol) key; an update replaces
/// the stored book for its key and leaves every other key untouched.
#[derive(Debug)]
pub struct MarketDataManager {
    books: Vec<OrderBook>,
}

impl MarketDataManager {
    /// Each (venue, symbol) key appears at most once.
    #[verifier::type_invariant]
    spec fn inv(self) -> bool {
        books_unique(self.books@)
    }

    /// The stored books, as a specification value.
    pub closed spec fn spec_books(self) -> Seq<OrderBook> {
        self.books@
    }

    /// The stored book for a key.
    pub open spec fn spec_get(self, ex: Exchange, sym: Seq<char>) -> Option<OrderBook> {
        spec_find_book(self.spec_books(), ex, sym)
    }

    /// An empty aggregator. The argument is a capacity hint for the
    /// expected number of (venue, symbol) keys.
    pub fn new(capacity: usize) -> (r: MarketDataManager)
        ensures
            r.spec_books() == Seq::<OrderBook>::empty(),
    {
        let r = MarketDataManager { books: Vec::with_capacity(capacity) };
        proof {
            assert(r.spec_books() =~= Seq::<OrderBook>::empty());
        }
        r
    }

    /// Atomically replaces the stored book for the new book's key.
    pub fn update_book(&mut self, book: OrderBook)
        ensures
            final(self).spec_get(book.spec_exchange(), book.spec_symbol()) == Some(book),
            forall|ex: Exchange, sym: Seq<char>|
                !(ex == book.spec_exchange() && sym == book.spec_symbol())
                    ==> #[trigger] final(self).spec_get(ex, sym) == old(self).spec_get(ex, sym),
    {
        proof {
            use_type_invariant(&*self);
        }
        let ghost old_books = self.books@;
        let mut books: Vec<OrderBook> = Vec::new();
        core::mem::swap(&mut books, &mut self.books);
        let n: usize = books.len();
        let mut i: usize = 0;
        let mut found: bool = false;
        while i < n && !found
            invariant
                i <= n,
                n == books@.len(),
                books@ == old_books,
                !found ==> forall|j: int| 0 <= j < i ==> !same_key(#[trigger] books@[j], book),
                found ==> i >= 1 && i - 1 < n && same_key(books@[i - 1], book),
            decreases n - i,
        {
            let same_ex: bool = books[i].exchange() == book.exchange();
            let same_sym: bool = crate::text::str_eq(
                books[i].symbol().as_str(),
                book.symbol().as_str(),
            );
            if same_ex && same_sym {
                found = true;
            }
            i = i + 1;
        }
        let ghost target: int = if found { i - 1 as int } else { n as int };
        if found {
            let idx: usize = i - 1;
            books[idx] = book;
            proof {
                assert(books@ == old_books.update(idx as int, book));
                assert forall|x: int, y: int| 0 <= x < y < books@.len() implies !#[trigger]
                    same_key(books@[x], books@[y]) by {
                    assert(!same_key(old_books[x], old_books[y]));
                }
                lemma_find_book_update(old_books, books@, idx as int);
            }
        } else {
            books.push(book);
            proof {
                assert(books@ =~= old_books + seq![book]);
                assert forall|x: int, y: int| 0 <= x < y < books@.len() implies !#[trigger]
                    same_key(books@[x], books@[y]) by {
                    if y < old_books.len() {
                        assert(!same_key(old_books[x], old_books[y]));
                    } else {
                        assert(books@[y] == book);
                        assert(!same_key(books@[x], book));
                    }
                }
                lemma_find_book_append(old_books, book);
            }
        }
        core::mem::swap(&mut books, &mut self.books);
        proof {
            assert(books_unique(self.books@));
            assert(self.books@[target] == book);
            lemma_find_book_at(self.books@, book.spec_exchange(), book.spec_symbol(), target);
        }
    }

    /// The most recent snapshot for a key, as a copy.
    pub fn get_orderbook(&self, exchange: Exchange, symbol: &str) -> (r: Option<OrderBook>)
        ensures
            (r is Some) == (self.spec_get(exchange, symbol@) is Some),
            r matches Some(b) ==> (self.spec_get(exchange, symbol@) matches Some(c) && same_book(
                b,
                c,
            )),
    {
        proof {
            use_type_invariant(&*self);
        }
        let n: usize = self.books.len();
        let mut i: usize = 0;
        while i < n
            invariant
                i <= n,
                n == self.books@.len(),
                books_unique(self.books@),
                forall|j: int|
                    0 <= j < i ==> !(#[trigger] self.books@[j].spec_exchange() == exchange
                        && self.books@[j].spec_symbol() == symbol@),
            decreases n - i,
        {
            let same_ex: bool = self.books[i].exchange() == exchange;
            let same_sym: bool = crate::text::str_eq(self.books[i].symbol().as_str(), symbol);
            if same_ex && same_sym {
                proof {
                    lemma_find_book_at(self.books@, exchange, symbol@, i as int);
                }
                return Some(self.books[i].snapshot());
            }
            i = i + 1;
        }
        proof {
            lemma_find_book_none(self.books@, exchange, symbol@);
        }
        None
    }

    /// The first stored book carrying a symbol, at any venue, as a copy.
    pub fn first_book_for_symbol(&self, symbol: &str) -> (r: Option<OrderBook>)
        ensures
            (r is Some) == (spec_first_for_symbol(self.spec_books(), symbol@) is Some),
            r matches Some(b) ==> (spec_first_for_symbol(self.spec_books(), symbol@) matches Some(
                c,
            ) && same_book(b, c)),
    {
        let n: usize = self.books.len();
        let mut i: usize = 0;
        proof {
            assert(self.books@.subrange(0, n as int) =~= self.books@);
        }
        while i < n
            invariant
                i <= n,
                n == self.books@.len(),
                spec_first_for_symbol(self.books@, symbol@) == spec_first_for_symbol(
                    self.books@.subrange(i as int, n as int),
                    symbol@,
                ),
            decreases n - i,
        {
            proof {
                assert(self.books@.subrange(i as int, n as int)[0] == self.books@[i as int]);
                assert(self.books@.subrange(i as int, n as int).drop_first() =~= self.books@
                    .subrange(i + 1 as int, n as int));
            }
            if crate::text::str_eq(self.books[i].symbol().as_str(), symbol) {
                return Some(self.books[i].snapshot());
            }
            i = i + 1;
        }
        proof {
            assert(self.books@.subrange(n as int, n as int) =~= Seq::<OrderBook>::empty());
            assert(spec_first_for_symbol(Seq::<OrderBook>::empty(), symbol@) is None);
        }
        None
    }

    /// Ingests one feed message: an order-book message replaces the book
    /// for its key; trade prints and tickers leave the books unchanged.
    pub fn process_update(&mut self, update: MarketDataUpdate)
        ensures
            update matches MarketDataUpdate::OrderBook { orderbook, .. }
                ==> final(self).spec_get(orderbook.spec_exchange(), orderbook.spec_symbol())
                == Some(orderbook)
                && (forall|ex: Exchange, sym: Seq<char>|
                !(ex == orderbook.spec_exchange() && sym == orderbook.spec_symbol())
                    ==> #[trigger] final(self).spec_get(ex, sym) == old(self).spec_get(ex, sym)),
            !(update matches MarketDataUpdate::OrderBook { .. }) ==> final(self).spec_books()
                == old(self).spec_books(),
    {
        match update {
            MarketDataUpdate::OrderBook { orderbook, .. } => {
                self.update_book(orderbook);
            },
            _ => {},
        }
    }
}

/// In a key-unique book list, the book found for a key that position `i`
/// holds is the book at position `i`.
proof fn lemma_find_book_at(s: Seq<OrderBook>, ex: Exchange, sym: Seq<char>, i: int)
    requires
        0 <= i < s.len(),
        s[i].spec_exchange() == ex,
        s[i].spec_symbol() == sym,
        books_unique(s),
    ensures
        spec_find_book(s, ex, sym) == Some(s[i]),
    decreases s.len(),
{
    if i == 0 {
    } else {
        assert(!same_key(s[0], s[i]));
        assert(books_unique(s.drop_first())) by {
            assert forall|x: int, y: int| 0 <= x < y < s.drop_first().len() implies !#[trigger]
                same_key(s.drop_first()[x], s.drop_first()[y]) by {
                assert(s.drop_first()[x] == s[x + 1]);
                assert(s.drop_first()[y] == s[y + 1]);
                assert(!same_key(s[x + 1], s[y + 1]));
            }
        }
        assert(s.drop_first()[i - 1] == s[i]);
        lemma_find_book_at(s.drop_first(), ex, sym, i - 1);
    }
}

/// A key no position holds is not found.
proof fn lemma_find_book_none(s: Seq<OrderBook>, ex: Exchange, sym: Seq<char>)
    requires
        forall|j: int|
            0 <= j < s.len() ==> !(#[trigger] s[j].spec_exchange() == ex && s[j].spec_symbol()
                == sym),
    ensures
        spec_find_book(s, ex, sym) is None,
    decreases s.len(),
{
    if s.len() > 0 {
        assert forall|j: int| 0 <= j < s.drop_first().len() implies !(#[trigger] s.drop_first()[j]
            .spec_exchange() == ex && s.drop_first()[j].spec_symbol() == sym) by {
            assert(s.drop_first()[j] == s[j + 1]);
        }
        lemma_find_book_none(s.drop_first(), ex, sym);
    }
}

/// Replacing the book at one position with a book of the same key leaves
/// lookups of every other key unchanged.
proof fn lemma_find_book_update(s1: Seq<OrderBook>, s2: Seq<OrderBook>, i: int)
    requires
        0 <= i < s1.len(),
        s2 == s1.update(i, s2[i]),
        same_key(s1[i], s2[i]),
    ensures
        forall|ex: Exchange, sym: Seq<char>|
            !(ex == s1[i].spec_exchange() && sym == s1[i].spec_symbol())
                ==> #[trigger] spec_find_book(s2, ex, sym) == spec_find_book(s1, ex, sym),
{
    assert forall|ex: Exchange, sym: Seq<char>|
        !(ex == s1[i].spec_exchange() && sym == s1[i].spec_symbol())
            implies #[trigger] spec_find_book(s2, ex, sym) == spec_find_book(s1, ex, sym) by {
        lemma_find_book_update_one(s1, s2, i, ex, sym);
    }
}

proof fn lemma_find_book_update_one(
    s1: Seq<OrderBook>,
    s2: Seq<OrderBook>,
    i: int,
    ex: Exchange,
    sym: Seq<char>,
)
    requires
        0 <= i < s1.len(),
        s2 == s1.update(i, s2[i]),
        same_key(s1[i], s2[i]),
        !(ex == s1[i].spec_exchange() && sym == s1[i].spec_symbol()),
    ensures
        spec_find_book(s2, ex, sym) == spec_find_book(s1, ex, sym),
    decreases s1.len(),
{
    if s1.len() == 0 {
    } else if i == 0 {
        assert(s2.drop_first() =~= s1.drop_first());
    } else {
        assert(s2[0] == s1[0]);
        if s1[0].spec_exchange() == ex && s1[0].spec_symbol() == sym {
        } else {
            assert(s2.drop_first() =~= s1.drop_first().update(i - 1, s2[i]));
            assert(s2.drop_first()[i - 1] == s2[i]);
            assert(s1.drop_first()[i - 1] == s1[i]);
            lemma_find_book_update_one(s1.drop_first(), s2.drop_first(), i - 1, ex, sym);
        }
    }
}

/// Appending a book leaves lookups of every other key unchanged.
proof fn lemma_find_book_append(s: Seq<OrderBook>, book: OrderBook)
    ensures
        forall|ex: Exchange, sym: Seq<char>|
            !(ex == book.spec_exchange() && sym == book.spec_symbol())
                ==> #[trigger] spec_find_book(s + seq![book], ex, sym) == spec_find_book(
                s,
                ex,
                sym,
            ),
{
    assert forall|ex: Exchange, sym: Seq<char>|
        !(ex == book.spec_exchange() && sym == book.spec_symbol())
            implies #[trigger] spec_find_book(s + seq![book], ex, sym) == spec_find_book(
            s,
            ex,
            sym,
        ) by {
        lemma_find_book_append_one(s, book, ex, sym);
    }
}

proof fn lemma_find_book_append_one(
    s: Seq<OrderBook>,
    book: OrderBook,
    ex: Exchange,
    sym: Seq<char>,
)
    requires
        !(ex == book.spec_exchange() && sym == book.spec_symbol()),
    ensures
        spec_find_book(s + seq![book], ex, sym) == spec_find_book(s, ex, sym),
    decreases s.len(),
{
    if s.len() == 0 {
        assert((s + seq![book])[0] == book);
        assert((s + seq![book]).drop_first() =~= Seq::<OrderBook>::empty());
        assert(spec_find_book(Seq::<OrderBook>::empty(), ex, sym) is None);
    } else {
        assert((s + seq![book])[0] == s[0]);
        if s[0].spec_exchange() == ex && s[0].spec_symbol() == sym {
        } else {
            assert((s + seq![book]).drop_first() =~= s.drop_first() + seq![book]);
            lemma_find_book_append_one(s.drop_first(), book, ex, sym);
        }
    }
}

} // verus!
