//! Fixed-point amounts.
//!
//! Prices, quantities, notionals, percentages and basis points are all held
//! as `i64` counts of 1/100_000_000 of a unit, so `1.0` is [`SCALE`] and a
//! rate of `50 bps` is `50 * SCALE`. Intermediate products are taken in
//! `i128`, where the product of two `i64` always fits; a result that leaves
//! the `i64` range is pinned to the nearest bound.

use vstd::prelude::*;
use vstd::arithmetic::div_mod::lemma_fundamental_div_mod_converse;
use vstd::arithmetic::div_mod::lemma_fundamental_div_mod;
use vstd::arithmetic::div_mod::lemma_remainder_lower;
use vstd::arithmetic::div_mod::lemma_remainder_upper;

verus! {

/// Number of stored units in one whole unit.
pub const SCALE: i64 = 100_000_000;

/// Basis points in one whole (100%).
pub const BPS_PER_UNIT: i64 = 10_000;

/// Percentage points in one whole (100%).
pub const PERCENT_PER_UNIT: i64 = 100;

/// A mathematical integer pinned into the `i64` range.
pub open spec fn saturated(x: int) -> int {
    if x < i64::MIN {
        i64::MIN as int
    } else if x > i64::MAX {
        i64::MAX as int
    } else {
        x
    }
}

/// Pins a wide intermediate value into the `i64` range.
pub fn saturate(x: i128) -> (r: i64)
    ensures
        r == saturated(x as int),
{
    if x < i64::MIN as i128 {
        i64::MIN
    } else if x > i64::MAX as i128 {
        i64::MAX
    } else {
        x as i64
    }
}

/// Floor division of any numerator by a positive divisor.
pub fn div_floor(n: i128, d: i128) -> (q: i128)
    requires
        d > 0,
        n > i128::MIN,
    ensures
        q == n as int / d as int,
{
    if n >= 0 {
        n / d
    } else {
        let m: i128 = -n;
        let q0: i128 = m / d;
        let r0: i128 = m % d;
        proof {
            lemma_fundamental_div_mod(m as int, d as int);
            lemma_remainder_lower(m as int, d as int);
            lemma_remainder_upper(m as int, d as int);
            assert((d as int) * (q0 as int) == (q0 as int) * (d as int)) by (nonlinear_arith);
            if r0 == 0 {
                assert(n as int == (-(q0 as int)) * (d as int) + 0) by (nonlinear_arith)
                    requires
                        n as int == -(m as int),
                        m as int == (q0 as int) * (d as int),
                ;
                lemma_fundamental_div_mod_converse(n as int, d as int, -(q0 as int), 0);
            } else {
                assert(n as int == (-(q0 as int) - 1) * (d as int) + (d as int - r0 as int))
                    by (nonlinear_arith)
                    requires
                        n as int == -(m as int),
                        m as int == (q0 as int) * (d as int) + r0 as int,
                ;
                lemma_fundamental_div_mod_converse(
                    n as int,
                    d as int,
                    -(q0 as int) - 1,
                    d as int - r0 as int,
                );
            }
        }
        if r0 == 0 {
            -q0
        } else {
            -q0 - 1
        }
    }
}

/// The product of two `i64` values stays well inside `i128`.
pub proof fn lemma_product_fits(a: int, b: int)
    requires
        i64::MIN <= a <= i64::MAX,
        i64::MIN <= b <= i64::MAX,
    ensures
        -0x4000_0000_0000_0000_0000_0000_0000_0000 <= a * b
            <= 0x4000_0000_0000_0000_0000_0000_0000_0000,
{
    assert(-0x4000_0000_0000_0000_0000_0000_0000_0000 <= a * b
        <= 0x4000_0000_0000_0000_0000_0000_0000_0000) by (nonlinear_arith)
        requires
            -0x8000_0000_0000_0000 <= a <= 0x8000_0000_0000_0000,
            -0x8000_0000_0000_0000 <= b <= 0x8000_0000_0000_0000,
    ;
}

/// `a * b` as a wide integer.
pub fn wide_mul(a: i64, b: i64) -> (p: i128)
    ensures
        p == a as int * b as int,
{
    proof {
        lemma_product_fits(a as int, b as int);
    }
    (a as i128) * (b as i128)
}

/// `floor(a * b / d)` for a positive divisor, without intermediate overflow.
pub fn mul_div(a: i64, b: i64, d: i64) -> (q: i128)
    requires
        d > 0,
    ensures
        q == (a as int * b as int) / (d as int),
{
    let p: i128 = wide_mul(a, b);
    proof {
        lemma_product_fits(a as int, b as int);
    }
    div_floor(p, d as i128)
}

/// The midpoint of a bid and an ask, rounded down.
pub open spec fn spec_midpoint(bid: int, ask: int) -> int {
    (bid + ask) / 2
}

/// The midpoint of a bid and an ask, rounded down.
pub fn midpoint(bid: i64, ask: i64) -> (mid: i64)
    ensures
        mid == spec_midpoint(bid as int, ask as int),
{
    let sum: i128 = bid as i128 + ask as i128;
    let half: i128 = div_floor(sum, 2);
    half as i64
}

/// The share `rate / denom` of `amount`, rounded down: `amount * rate / (denom * SCALE)`.
/// `denom` is the number of rate points in one whole (100 for percent,
/// 10_000 for basis points, 1 for a plain fraction).
pub open spec fn spec_share(amount: int, rate: int, denom: int) -> int {
    (amount * rate) / (denom * SCALE)
}

/// The share `rate / denom` of `amount`, rounded down.
pub fn share(amount: i64, rate: i64, denom: i64) -> (s: i128)
    requires
        0 < denom <= BPS_PER_UNIT,
    ensures
        s == spec_share(amount as int, rate as int, denom as int),
{
    let d: i64 = denom * SCALE;
    mul_div(amount, rate, d)
}

/// `price * (1 + rate/denom)`, pinned into `i64`.
pub open spec fn spec_raised(price: int, rate: int, denom: int) -> int {
    saturated(price + spec_share(price, rate, denom))
}

/// `price * (1 - rate/denom)`, pinned into `i64`.
pub open spec fn spec_lowered(price: int, rate: int, denom: int) -> int {
    saturated(price - spec_share(price, rate, denom))
}

/// `price * (1 + pct/100)`.
pub fn add_pct(price: i64, pct: i64) -> (r: i64)
    ensures
        r == spec_raised(price as int, pct as int, PERCENT_PER_UNIT as int),
{
    let s: i128 = share(price, pct, PERCENT_PER_UNIT);
    proof {
        lemma_share_fits(price as int, pct as int, PERCENT_PER_UNIT as int);
    }
    saturate(price as i128 + s)
}

/// `price * (1 - pct/100)`.
pub fn sub_pct(price: i64, pct: i64) -> (r: i64)
    ensures
        r == spec_lowered(price as int, pct as int, PERCENT_PER_UNIT as int),
{
    let s: i128 = share(price, pct, PERCENT_PER_UNIT);
    proof {
        lemma_share_fits(price as int, pct as int, PERCENT_PER_UNIT as int);
    }
    saturate(price as i128 - s)
}

/// `price * (1 + bps/10_000)`.
pub fn add_bps(price: i64, bps: i64) -> (r: i64)
    ensures
        r == spec_raised(price as int, bps as int, BPS_PER_UNIT as int),
{
    let s: i128 = share(price, bps, BPS_PER_UNIT);
    proof {
        lemma_share_fits(price as int, bps as int, BPS_PER_UNIT as int);
    }
    saturate(price as i128 + s)
}

/// `price * (1 - bps/10_000)`.
pub fn sub_bps(price: i64, bps: i64) -> (r: i64)
    ensures
        r == spec_lowered(price as int, bps as int, BPS_PER_UNIT as int),
{
    let s: i128 = share(price, bps, BPS_PER_UNIT);
    proof {
        lemma_share_fits(price as int, bps as int, BPS_PER_UNIT as int);
    }
    saturate(price as i128 - s)
}

/// Whether `num / den`, taken in basis points, reaches `bps`:
/// `num / den * 10_000 >= bps / SCALE`, compared exactly by cross-multiplying.
/// Meant for a positive `den`.
pub open spec fn spec_bps_at_least(num: int, den: int, bps: int) -> bool {
    num * (BPS_PER_UNIT * SCALE) >= bps * den
}

/// Whether `(hi - lo) / den` in basis points reaches `bps`.
pub fn bps_at_least(hi: i64, lo: i64, den: i64, bps: i64) -> (r: bool)
    ensures
        r == spec_bps_at_least(hi as int - lo as int, den as int, bps as int),
{
    let diff: i128 = hi as i128 - lo as i128;
    let lhs: i128 = diff * 1_000_000_000_000i128;
    let rhs: i128 = wide_mul(bps, den);
    lhs >= rhs
}

/// Whether `(hi - lo) / den` in basis points exceeds `bps`.
pub fn bps_above(hi: i64, lo: i64, den: i64, bps: i64) -> (r: bool)
    ensures
        r == ((hi as int - lo as int) * (BPS_PER_UNIT * SCALE) > bps as int * den as int),
{
    let diff: i128 = hi as i128 - lo as i128;
    let lhs: i128 = diff * 1_000_000_000_000i128;
    let rhs: i128 = wide_mul(bps, den);
    lhs > rhs
}

/// A share of an `i64` amount at an `i64` rate is far from the ends of `i128`.
pub proof fn lemma_share_fits(amount: int, rate: int, denom: int)
    requires
        i64::MIN <= amount <= i64::MAX,
        i64::MIN <= rate <= i64::MAX,
        0 < denom,
    ensures
        -0x4000_0000_0000_0000_0000_0000_0000_0000 <= spec_share(amount, rate, denom)
            <= 0x4000_0000_0000_0000_0000_0000_0000_0000,
{
    lemma_product_fits(amount, rate);
    let d: int = denom * SCALE;
    let p: int = amount * rate;
    lemma_fundamental_div_mod(p, d);
    assert(0 <= p % d < d);
    let q: int = p / d;
    assert(d * q <= p < d * q + d);
    assert(-0x4000_0000_0000_0000_0000_0000_0000_0000 <= q
        <= 0x4000_0000_0000_0000_0000_0000_0000_0000) by (nonlinear_arith)
        requires
            d >= 1,
            d * q <= p < d * q + d,
            -0x4000_0000_0000_0000_0000_0000_0000_0000 <= p
                <= 0x4000_0000_0000_0000_0000_0000_0000_0000,
    ;
}

/// A price raised by a rate is the exact product `price * (1 + rate/denom)`
/// rounded down to a stored unit: it is never above the exact value and less
/// than one unit below it.
pub proof fn lemma_raised_within_one_unit(price: int, rate: int, denom: int)
    requires
        0 < denom,
    ensures
        ({
            let exact_num: int = price * (denom * SCALE + rate);
            let r: int = price + spec_share(price, rate, denom);
            r * (denom * SCALE) <= exact_num < (r + 1) * (denom * SCALE)
        }),
{
    let d: int = denom * SCALE;
    let p: int = price * rate;
    lemma_fundamental_div_mod(p, d);
    let q: int = p / d;
    assert(d * q <= p < d * q + d);
    assert((price + q) * d <= price * (d + rate) < (price + q + 1) * d) by (nonlinear_arith)
        requires
            d * q <= p < d * q + d,
            p == price * rate,
    ;
}

/// A price lowered by a rate is the exact product `price * (1 - rate/denom)`
/// rounded up to a stored unit: never below the exact value and less than one
/// unit above it.
pub proof fn lemma_lowered_within_one_unit(price: int, rate: int, denom: int)
    requires
        0 < denom,
    ensures
        ({
            let exact_num: int = price * (denom * SCALE - rate);
            let r: int = price - spec_share(price, rate, denom);
            (r - 1) * (denom * SCALE) < exact_num <= r * (denom * SCALE)
        }),
{
    let d: int = denom * SCALE;
    let p: int = price * rate;
    lemma_fundamental_div_mod(p, d);
    let q: int = p / d;
    assert(d * q <= p < d * q + d);
    assert((price - q - 1) * d < price * (d - rate) <= (price - q) * d) by (nonlinear_arith)
        requires
            d * q <= p < d * q + d,
            p == price * rate,
    ;
}

/// For a non-negative price and rate the share is non-negative and no more
/// than the exact product allows.
pub proof fn lemma_share_nonnegative(amount: int, rate: int, denom: int)
    requires
        0 <= amount,
        0 <= rate,
        0 < denom,
    ensures
        0 <= spec_share(amount, rate, denom),
{
    assert(0 <= amount * rate) by (nonlinear_arith)
        requires
            0 <= amount,
            0 <= rate,
    ;
    vstd::arithmetic::div_mod::lemma_div_pos_is_pos(amount * rate, denom * SCALE);
}

} // verus!
