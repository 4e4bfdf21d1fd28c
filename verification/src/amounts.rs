//! Fixed-point arithmetic for prices, quantities, fees and ratios.
//!
//! A scaled amount is an integer equal to the real value times [`SCALE`].
//! Valid market amounts (prices, quantities, sizes from configuration) are
//! bounded by [`MAX_AMT`]; ledger values (balances, positions, profit) are
//! signed and saturate at [`AMT_LIMIT`], far beyond any balance a valid
//! sequence of fills of realistic length can reach.

use vstd::prelude::*;

verus! {

/// Scale factor: one real unit is stored as `SCALE`.
pub const SCALE: u64 = 1_000_000;

/// Largest valid scaled price or quantity (one million real units).
pub const MAX_AMT: u64 = 1_000_000_000_000;

/// Saturation bound for signed ledger values (balances, positions, PnL).
pub const AMT_LIMIT: i128 = 10_000_000_000_000_000_000_000;

/// A valid market amount: a scaled price, quantity or configured size.
pub open spec fn valid_amt(a: u64) -> bool {
    a <= MAX_AMT
}

/// A valid rate or ratio: a scaled fraction of one.
pub open spec fn valid_rate(r: u64) -> bool {
    r <= SCALE
}

/// A ledger value within the saturation bound.
pub open spec fn in_ledger_range(v: i128) -> bool {
    -(AMT_LIMIT as int) <= v <= AMT_LIMIT as int
}

/// Clamps a mathematical integer into the ledger range.
pub open spec fn clamp_ledger(v: int) -> int {
    if v > AMT_LIMIT as int {
        AMT_LIMIT as int
    } else if v < -(AMT_LIMIT as int) {
        -(AMT_LIMIT as int)
    } else {
        v
    }
}

/// The scaled product of two scaled amounts: `a * b / SCALE`, truncated.
pub open spec fn spec_mul_scale(a: int, b: int) -> int {
    a * b / (SCALE as int)
}

/// Multiplies two scaled amounts into a scaled amount, exactly.
pub fn mul_scale(a: u64, b: u64) -> (r: u64)
    requires
        spec_mul_scale(a as int, b as int) <= u64::MAX,
    ensures
        r == spec_mul_scale(a as int, b as int),
{
    proof {
        assert((a as int) * (b as int) >= 0 && (a as int) * (b as int) <= (u64::MAX as int) * (
        u64::MAX as int)) by (nonlinear_arith)
            requires
                0 <= a <= u64::MAX,
                0 <= b <= u64::MAX,
        ;
        assert((a as int) * (b as int) / (SCALE as int) >= 0) by (nonlinear_arith)
            requires
                (a as int) * (b as int) >= 0,
        ;
    }
    let p: u128 = (a as u128) * (b as u128);
    (p / (SCALE as u128)) as u64
}

/// The spread in whole basis points, rounded to the nearest integer
/// (halves away from zero): `round((sell - buy) / buy * 10_000)`.
pub open spec fn spec_spread_bps(buy: int, sell: int) -> int
    recommends
        buy >= 1,
        sell >= buy,
{
    ((sell - buy) * 20_000 + buy) / (2 * buy)
}

/// Computes the rounded spread in basis points between a buy price and a
/// sell price at least as high.
pub fn spread_bps(buy: u64, sell: u64) -> (r: u64)
    requires
        buy >= 1,
        sell >= buy,
        valid_amt(buy),
        valid_amt(sell),
    ensures
        r == spec_spread_bps(buy as int, sell as int),
{
    let spread: u64 = sell - buy;
    let num: u128 = (spread as u128) * 20_000u128 + (buy as u128);
    let den: u128 = 2u128 * (buy as u128);
    proof {
        assert(0 <= (num as int) / (den as int) <= num as int) by (nonlinear_arith)
            requires
                num as int >= 0,
                den as int >= 1,
        ;
    }
    (num / den) as u64
}

/// Saturating addition on ledger values: the exact sum, clamped into
/// `[-AMT_LIMIT, AMT_LIMIT]`.
pub fn ledger_add(a: i128, b: i128) -> (r: i128)
    requires
        in_ledger_range(a),
        -(AMT_LIMIT as int) * 2 <= b <= (AMT_LIMIT as int) * 2,
    ensures
        r == clamp_ledger(a + b),
        in_ledger_range(r),
{
    let s: i128 = a + b;
    if s > AMT_LIMIT {
        AMT_LIMIT
    } else if s < -AMT_LIMIT {
        -AMT_LIMIT
    } else {
        s
    }
}

/// Clamps a ledger value into `[-AMT_LIMIT, AMT_LIMIT]`.
pub fn ledger_clamp(v: i128) -> (r: i128)
    ensures
        r == clamp_ledger(v as int),
        in_ledger_range(r),
{
    if v > AMT_LIMIT {
        AMT_LIMIT
    } else if v < -AMT_LIMIT {
        -AMT_LIMIT
    } else {
        v
    }
}

/// A price adjusted upwards by a scaled rate: `price * (SCALE + rate) / SCALE`.
pub open spec fn spec_adjust_up(price: int, rate: int) -> int {
    price * (SCALE + rate) / (SCALE as int)
}

/// A price adjusted downwards by a scaled rate, floored at zero.
pub open spec fn spec_adjust_down(price: int, rate: int) -> int {
    if rate >= SCALE {
        0
    } else {
        price * (SCALE - rate) / (SCALE as int)
    }
}

/// Moves a price up by a scaled rate.
pub fn adjust_up(price: u64, rate: u64) -> (r: u64)
    requires
        price <= 2 * MAX_AMT,
        rate <= MAX_AMT,
    ensures
        r == spec_adjust_up(price as int, rate as int),
        price <= MAX_AMT && rate <= SCALE ==> r <= 2 * MAX_AMT,
{
    proof {
        if price <= MAX_AMT && rate <= SCALE {
            assert((price as int) * ((SCALE + rate) as int) <= (MAX_AMT as int) * (2 * SCALE
                as int)) by (nonlinear_arith)
                requires
                    0 <= price <= MAX_AMT as int,
                    0 <= (SCALE + rate) as int <= 2 * SCALE as int,
            ;
            assert((MAX_AMT as int) * (2 * SCALE as int) / (SCALE as int) == 2 * MAX_AMT as int);
            assert((price as int) * ((SCALE + rate) as int) / (SCALE as int) <= (MAX_AMT as int)
                * (2 * SCALE as int) / (SCALE as int)) by (nonlinear_arith)
                requires
                    0 <= (price as int) * ((SCALE + rate) as int) <= (MAX_AMT as int) * (2 * SCALE
                        as int),
                    SCALE as int >= 1,
            ;
        }
    }
    proof {
        assert((price as int) * ((SCALE + rate) as int) <= (2 * MAX_AMT as int) * ((SCALE
            + MAX_AMT) as int)) by (nonlinear_arith)
            requires
                0 <= price <= 2 * MAX_AMT as int,
                0 <= SCALE + rate <= (SCALE + MAX_AMT) as int,
        ;
        assert(0 <= (price as int) * ((SCALE + rate) as int)) by (nonlinear_arith)
            requires
                price >= 0,
                SCALE + rate >= 0,
        ;
        assert(0 <= (price as int) * ((SCALE + rate) as int) / (SCALE as int) <= (price as int) * (
        (SCALE + rate) as int)) by (nonlinear_arith)
            requires
                (price as int) * ((SCALE + rate) as int) >= 0,
        ;
    }
    let num: u128 = (price as u128) * ((SCALE + rate) as u128);
    (num / (SCALE as u128)) as u64
}

/// Moves a price down by a scaled rate, flooring at zero.
pub fn adjust_down(price: u64, rate: u64) -> (r: u64)
    requires
        price <= 2 * MAX_AMT,
        rate <= MAX_AMT,
    ensures
        r == spec_adjust_down(price as int, rate as int),
        r <= price,
{
    if rate >= SCALE {
        return 0;
    }
    proof {
        assert((price as int) * ((SCALE - rate) as int) <= (price as int) * (SCALE as int))
            by (nonlinear_arith)
            requires
                price >= 0,
                0 <= (SCALE - rate) as int <= SCALE as int,
        ;
        assert(0 <= (price as int) * ((SCALE - rate) as int)) by (nonlinear_arith)
            requires
                price >= 0,
                (SCALE - rate) as int >= 0,
        ;
        assert((price as int) * (SCALE as int) / (SCALE as int) == price as int)
            by (nonlinear_arith)
            requires
                SCALE as int >= 1,
        ;
        assert((price as int) * ((SCALE - rate) as int) / (SCALE as int) <= (price as int) * (
        SCALE as int) / (SCALE as int)) by (nonlinear_arith)
            requires
                0 <= (price as int) * ((SCALE - rate) as int) <= (price as int) * (SCALE as int),
                SCALE as int >= 1,
        ;
    }
    let num: u128 = (price as u128) * ((SCALE - rate) as u128);
    (num / (SCALE as u128)) as u64
}

/// An upwards price adjustment never lowers the price.
pub proof fn lemma_adjust_up_ge(price: int, rate: int)
    requires
        price >= 0,
        rate >= 0,
    ensures
        spec_adjust_up(price, rate) >= price,
{
    assert(price * (SCALE + rate) >= price * (SCALE as int)) by (nonlinear_arith)
        requires
            price >= 0,
            rate >= 0,
    ;
    assert(price * (SCALE as int) / (SCALE as int) == price) by (nonlinear_arith);
    assert(price * (SCALE + rate) / (SCALE as int) >= price * (SCALE as int) / (SCALE as int))
        by (nonlinear_arith)
        requires
            price * (SCALE + rate) >= price * (SCALE as int) >= 0,
            SCALE as int >= 1,
    ;
}

/// A downwards price adjustment never raises the price, and never goes
/// below zero.
pub proof fn lemma_adjust_down_le(price: int, rate: int)
    requires
        price >= 0,
        rate >= 0,
    ensures
        0 <= spec_adjust_down(price, rate) <= price,
{
    if rate < SCALE {
        assert(0 <= price * (SCALE - rate) <= price * (SCALE as int)) by (nonlinear_arith)
            requires
                price >= 0,
                0 <= SCALE - rate <= SCALE as int,
        ;
        assert(price * (SCALE as int) / (SCALE as int) == price) by (nonlinear_arith);
        assert(0 <= price * (SCALE - rate) / (SCALE as int) <= price * (SCALE as int) / (
        SCALE as int)) by (nonlinear_arith)
            requires
                0 <= price * (SCALE - rate) <= price * (SCALE as int),
                SCALE as int >= 1,
        ;
    }
}

/// The running mean after one more sample: `(avg * (n - 1) + sample) / n`,
/// truncated. `n` counts all samples including the new one.
pub open spec fn spec_running_mean(avg: int, sample: int, n: int) -> int
    recommends
        n >= 1,
{
    (avg * (n - 1) + sample) / n
}

/// Folds one more sample into a running mean.
pub fn running_mean(avg: u64, sample: u64, n: u64) -> (r: u64)
    requires
        n >= 1,
    ensures
        r == spec_running_mean(avg as int, sample as int, n as int),
        r <= avg || r <= sample,
{
    let nm1: u64 = n - 1;
    proof {
        assert((avg as int) * (nm1 as int) >= 0 && (avg as int) * (nm1 as int) <= (
        u64::MAX as int) * (u64::MAX as int)) by (nonlinear_arith)
            requires
                0 <= avg <= u64::MAX,
                0 <= nm1 <= u64::MAX,
        ;
        lemma_running_mean_bounded(avg as int, sample as int, n as int);
    }
    let num: u128 = (avg as u128) * (nm1 as u128) + (sample as u128);
    (num / (n as u128)) as u64
}

proof fn lemma_running_mean_bounded(avg: int, sample: int, n: int)
    requires
        avg >= 0,
        sample >= 0,
        n >= 1,
    ensures
        0 <= spec_running_mean(avg, sample, n),
        spec_running_mean(avg, sample, n) <= avg || spec_running_mean(avg, sample, n) <= sample,
{
    let m = if avg >= sample { avg } else { sample };
    assert(avg * (n - 1) + sample <= m * n) by (nonlinear_arith)
        requires
            0 <= avg <= m,
            0 <= sample <= m,
            n >= 1,
    ;
    assert(avg * (n - 1) + sample >= 0) by (nonlinear_arith)
        requires
            avg >= 0,
            sample >= 0,
            n >= 1,
    ;
    assert((avg * (n - 1) + sample) / n <= m && 0 <= (avg * (n - 1) + sample) / n) by (
    nonlinear_arith)
        requires
            0 <= avg * (n - 1) + sample <= m * n,
            n >= 1,
    ;
}

} // verus!
