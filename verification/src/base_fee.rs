//! Forecast of the next block's base fee from its parent block (EIP-1559).

use vstd::prelude::*;

verus! {

/// How much the base fee may move per block: at most one eighth.
pub const BASE_FEE_CHANGE_DENOMINATOR: u64 = 8;

/// The gas target is the gas limit divided by this multiplier.
pub const ELASTICITY_MULTIPLIER: u64 = 2;

/// What the forecast reads of the parent block.
#[derive(Clone, Copy, Debug)]
pub struct ParentBlock {
    pub base_fee_per_gas: u64,
    pub gas_used: u64,
    pub gas_limit: u64,
}

/// The parent's gas target.
pub open spec fn gas_target(gas_limit: int) -> int {
    gas_limit / (ELASTICITY_MULTIPLIER as int)
}

/// The next base fee, in unbounded arithmetic.
pub open spec fn spec_next_base_fee(base_fee: int, gas_used: int, gas_limit: int) -> int {
    let target = gas_target(gas_limit);
    if gas_used == target {
        base_fee
    } else if gas_used > target {
        let delta = base_fee * (gas_used - target) / target / (BASE_FEE_CHANGE_DENOMINATOR as int);
        base_fee + if delta > 1 { delta } else { 1 }
    } else {
        base_fee - base_fee * (target - gas_used) / target / (BASE_FEE_CHANGE_DENOMINATOR as int)
    }
}

impl ParentBlock {
    pub open spec fn next_base_fee_spec(self) -> int {
        spec_next_base_fee(
            self.base_fee_per_gas as int,
            self.gas_used as int,
            self.gas_limit as int,
        )
    }

    /// The forecast is defined: the gas target is not zero unless the block
    /// used exactly the target, and the result fits in 64 bits.
    pub open spec fn forecast_defined(self) -> bool {
        &&& (self.gas_used as int == gas_target(self.gas_limit as int)
            || gas_target(self.gas_limit as int) > 0)
        &&& self.next_base_fee_spec() <= u64::MAX
    }
}

proof fn lemma_u64_product_fits(a: u64, b: u64)
    ensures
        (a as int) * (b as int) <= u128::MAX,
{
    assert((a as int) * (b as int) <= (u64::MAX as int) * (u64::MAX as int)) by (nonlinear_arith)
        requires
            a <= u64::MAX,
            b <= u64::MAX,
    ;
}

/// Scaling by a fraction no larger than one, then dividing further, never exceeds the start.
proof fn lemma_scaled_share_le(x: int, num: int, den: int, d: int)
    requires
        x >= 0,
        0 <= num <= den,
        den > 0,
        d > 0,
    ensures
        0 <= x * num / den / d <= x,
        x * num / den / d <= x / d,
{
    assert(0 <= x * num <= x * den) by (nonlinear_arith)
        requires x >= 0, 0 <= num <= den;
    assert(x * num / den <= x * den / den) by {
        vstd::arithmetic::div_mod::lemma_div_is_ordered(x * num, x * den, den);
    }
    vstd::arithmetic::div_mod::lemma_div_multiples_vanish(x, den);
    assert(x * den == den * x) by (nonlinear_arith);
    vstd::arithmetic::div_mod::lemma_div_is_ordered(x * num / den, x, d);
    vstd::arithmetic::div_mod::lemma_div_pos_is_pos(x * num, den);
    vstd::arithmetic::div_mod::lemma_div_pos_is_pos(x * num / den, d);
    vstd::arithmetic::div_mod::lemma_div_is_ordered_by_denominator(x, 1, d);
}

/// The forecast in 128-bit arithmetic, where it cannot overflow.
fn next_base_fee_wide(parent: &ParentBlock) -> (fee: u128)
    requires
        parent.gas_used as int == gas_target(parent.gas_limit as int) || gas_target(
            parent.gas_limit as int,
        ) > 0,
    ensures
        fee as int == parent.next_base_fee_spec(),
{
    let base_fee_change_denominator: u64 = BASE_FEE_CHANGE_DENOMINATOR;
    let elasticity_multiplier: u64 = ELASTICITY_MULTIPLIER;
    let parent_base_fee: u64 = parent.base_fee_per_gas;
    let parent_gas_used: u64 = parent.gas_used;
    let parent_gas_target: u64 = parent.gas_limit / elasticity_multiplier;

    if parent_gas_used == parent_gas_target {
        parent_base_fee as u128
    } else if parent_gas_used > parent_gas_target {
        let gas_used_delta: u64 = parent_gas_used - parent_gas_target;
        proof {
            lemma_u64_product_fits(parent_base_fee, gas_used_delta);
            vstd::arithmetic::div_mod::lemma_div_is_ordered_by_denominator(
                (parent_base_fee as int) * (gas_used_delta as int),
                1,
                parent_gas_target as int,
            );
        }
        let product: u128 = (parent_base_fee as u128) * (gas_used_delta as u128);
        let quotient: u128 = product / (parent_gas_target as u128) / (base_fee_change_denominator as u128);
        let base_fee_delta: u128 = if quotient > 1 { quotient } else { 1 };
        (parent_base_fee as u128) + base_fee_delta
    } else {
        let gas_used_delta: u64 = parent_gas_target - parent_gas_used;
        proof {
            lemma_u64_product_fits(parent_base_fee, gas_used_delta);
            lemma_scaled_share_le(parent_base_fee as int, gas_used_delta as int, parent_gas_target as int, 8);
        }
        let product: u128 = (parent_base_fee as u128) * (gas_used_delta as u128);
        let base_fee_delta: u128 = product / (parent_gas_target as u128) / (base_fee_change_denominator as u128);
        (parent_base_fee as u128) - base_fee_delta
    }
}

/// The base fee of the block that follows `parent`.
pub fn next_base_fee(parent: &ParentBlock) -> (fee: u64)
    requires
        parent.forecast_defined(),
    ensures
        fee as int == parent.next_base_fee_spec(),
{
    next_base_fee_wide(parent) as u64
}

/// The forecast, or `None` where it is not defined (a zero gas target that
/// the parent missed, or a result beyond 64 bits).
pub fn try_next_base_fee(parent: &ParentBlock) -> (fee: Option<u64>)
    ensures
        fee is Some <==> parent.forecast_defined(),
        fee matches Some(f) ==> f as int == parent.next_base_fee_spec(),
{
    let target: u64 = parent.gas_limit / ELASTICITY_MULTIPLIER;
    if parent.gas_used != target && target == 0 {
        return None;
    }
    let wide: u128 = next_base_fee_wide(parent);
    if wide > u64::MAX as u128 {
        None
    } else {
        Some(wide as u64)
    }
}

/// A parent block that used exactly its gas target leaves the base fee unchanged.
pub proof fn lemma_fee_unchanged_at_target(parent: ParentBlock)
    requires
        parent.gas_used as int == gas_target(parent.gas_limit as int),
    ensures
        parent.next_base_fee_spec() == parent.base_fee_per_gas as int,
{
}

/// A parent block that used more than its gas target raises the base fee by at
/// least one unit, and, while it used no more than twice its target, by at most
/// one eighth of the fee (or that one unit, when an eighth is smaller).
pub proof fn lemma_fee_rises_above_target(parent: ParentBlock)
    requires
        parent.gas_used as int > gas_target(parent.gas_limit as int),
        gas_target(parent.gas_limit as int) > 0,
    ensures
        parent.next_base_fee_spec() >= parent.base_fee_per_gas as int + 1,
        parent.gas_used as int <= 2 * gas_target(parent.gas_limit as int) ==> parent.next_base_fee_spec()
            <= parent.base_fee_per_gas as int + if parent.base_fee_per_gas as int / 8 > 1 {
            parent.base_fee_per_gas as int / 8
        } else {
            1
        },
{
    let t = gas_target(parent.gas_limit as int);
    let bf = parent.base_fee_per_gas as int;
    let g = parent.gas_used as int;
    if g <= 2 * t {
        lemma_scaled_share_le(bf, g - t, t, 8);
    }
    vstd::arithmetic::div_mod::lemma_div_pos_is_pos(bf * (g - t), t);
}

/// A parent block that used less than its gas target lowers the base fee, by
/// at most one eighth of it.
pub proof fn lemma_fee_falls_below_target(parent: ParentBlock)
    requires
        (parent.gas_used as int) < gas_target(parent.gas_limit as int),
    ensures
        parent.next_base_fee_spec() <= parent.base_fee_per_gas as int,
        parent.next_base_fee_spec() >= parent.base_fee_per_gas as int - parent.base_fee_per_gas as int
            / 8,
{
    let t = gas_target(parent.gas_limit as int);
    let bf = parent.base_fee_per_gas as int;
    let g = parent.gas_used as int;
    lemma_scaled_share_le(bf, t - g, t, 8);
}

/// Under a fixed parent base fee and gas limit, the forecast never decreases
/// as the parent's gas use grows.
pub proof fn lemma_fee_monotone_in_gas_used(base_fee: u64, gas_limit: u64, used_low: u64, used_high: u64)
    requires
        gas_target(gas_limit as int) > 0,
        used_low <= used_high,
    ensures
        spec_next_base_fee(base_fee as int, used_low as int, gas_limit as int) <= spec_next_base_fee(
            base_fee as int,
            used_high as int,
            gas_limit as int,
        ),
{
    let t = gas_target(gas_limit as int);
    let bf = base_fee as int;
    let lo = used_low as int;
    let hi = used_high as int;
    if hi <= t {
        // both at or below target: the reduction shrinks as gas use grows
        lemma_scaled_share_monotone(bf, t - hi, t - lo, t);
        if lo < t {
            lemma_scaled_share_le(bf, t - lo, t, 8);
        }
        if hi < t {
            lemma_scaled_share_le(bf, t - hi, t, 8);
        }
    } else if lo >= t {
        // both at or above target: the increase grows with gas use
        if lo > t {
            lemma_scaled_share_monotone(bf, lo - t, hi - t, t);
        }
        vstd::arithmetic::div_mod::lemma_div_pos_is_pos(bf * (hi - t), t);
    } else {
        // low below target, high above it
        lemma_scaled_share_le(bf, t - lo, t, 8);
        vstd::arithmetic::div_mod::lemma_div_pos_is_pos(bf * (hi - t), t);
    }
}

/// A larger share of a non-negative amount, divided the same way, is no smaller.
proof fn lemma_scaled_share_monotone(x: int, num_small: int, num_large: int, den: int)
    requires
        x >= 0,
        den > 0,
    ensures
        0 <= num_small <= num_large ==> x * num_small / den / 8 <= x * num_large / den / 8,
{
    if 0 <= num_small <= num_large {
        assert(x * num_small <= x * num_large) by (nonlinear_arith)
            requires x >= 0, 0 <= num_small <= num_large;
        vstd::arithmetic::div_mod::lemma_div_is_ordered(x * num_small, x * num_large, den);
        vstd::arithmetic::div_mod::lemma_div_is_ordered(x * num_small / den, x * num_large / den, 8);
    }
}

/// Dividing by `den` keeps two amounts at most `k` apart when they were at
/// most `k * den` apart.
proof fn lemma_div_gap(a: int, b: int, k: int, den: int)
    requires
        den > 0,
        k >= 0,
        a <= b <= a + k * den,
    ensures
        a / den <= b / den <= a / den + k,
{
    vstd::arithmetic::div_mod::lemma_div_is_ordered(a, b, den);
    vstd::arithmetic::div_mod::lemma_div_is_ordered(b, a + k * den, den);
    vstd::arithmetic::div_mod::lemma_hoist_over_denominator(a, k, den as nat);
}

/// Under a fixed gas use and gas limit, a higher parent base fee never gives
/// a lower forecast.
pub proof fn lemma_fee_monotone_in_base_fee(fee_low: u64, fee_high: u64, gas_used: u64, gas_limit: u64)
    requires
        fee_low <= fee_high,
        gas_used as int == gas_target(gas_limit as int) || gas_target(gas_limit as int) > 0,
    ensures
        spec_next_base_fee(fee_low as int, gas_used as int, gas_limit as int) <= spec_next_base_fee(
            fee_high as int,
            gas_used as int,
            gas_limit as int,
        ),
{
    let t = gas_target(gas_limit as int);
    let g = gas_used as int;
    let lo = fee_low as int;
    let hi = fee_high as int;
    if g > t {
        lemma_scaled_share_monotone_in_amount(lo, hi, g - t, t);
    } else if g < t {
        // the reduction grows by no more than the fee does
        let d = t - g;
        let k = hi - lo;
        assert(lo * d <= hi * d <= lo * d + k * t) by (nonlinear_arith)
            requires
                0 <= lo <= hi,
                k == hi - lo,
                0 < d <= t,
        ;
        lemma_div_gap(lo * d, hi * d, k, t);
        assert(lo * d / t <= hi * d / t <= lo * d / t + k * 8) by (nonlinear_arith)
            requires
                lo * d / t <= hi * d / t <= lo * d / t + k,
                k >= 0,
        ;
        lemma_div_gap(lo * d / t, hi * d / t, k, 8);
    }
}

/// A share of a larger non-negative amount, divided the same way, is no smaller.
proof fn lemma_scaled_share_monotone_in_amount(x_small: int, x_large: int, num: int, den: int)
    requires
        0 <= x_small <= x_large,
        num >= 0,
        den > 0,
    ensures
        x_small * num / den / 8 <= x_large * num / den / 8,
{
    assert(x_small * num <= x_large * num) by (nonlinear_arith)
        requires
            0 <= x_small <= x_large,
            num >= 0,
    ;
    vstd::arithmetic::div_mod::lemma_div_is_ordered(x_small * num, x_large * num, den);
    vstd::arithmetic::div_mod::lemma_div_is_ordered(x_small * num / den, x_large * num / den, 8);
}

/// A share `x * d / t / 8` taken in two truncating divisions lies within
/// one `8 * t`-step below the exact product: `8 t q <= x d < 8 t q + 8 t`.
proof fn lemma_share_bounds(x: int, d: int, t: int)
    requires
        x >= 0,
        d >= 0,
        t > 0,
    ensures
        8 * t * (x * d / t / 8) <= x * d,
        x * d < 8 * t * (x * d / t / 8) + 8 * t,
{
    let p = x * d;
    let q1 = p / t;
    let q2 = q1 / 8;
    assert(p >= 0) by (nonlinear_arith)
        requires p == x * d, x >= 0, d >= 0;
    vstd::arithmetic::div_mod::lemma_fundamental_div_mod(p, t);
    vstd::arithmetic::div_mod::lemma_mod_pos_bound(p, t);
    vstd::arithmetic::div_mod::lemma_fundamental_div_mod(q1, 8);
    vstd::arithmetic::div_mod::lemma_mod_pos_bound(q1, 8);
    assert(8 * t * q2 <= p && p < 8 * t * q2 + 8 * t) by (nonlinear_arith)
        requires
            t > 0,
            p == t * q1 + p % t,
            0 <= p % t < t,
            q1 == 8 * q2 + q1 % 8,
            0 <= q1 % 8 < 8,
    ;
}

/// The change of the base fee is proportional to how far the parent's gas use
/// is from its target: below the target the fee falls by
/// `base_fee * (target - gas_used) / (8 * target)`, above it the fee rises by
/// `base_fee * (gas_used - target) / (8 * target)` (and by at least one),
/// each up to the rounding of whole units.
pub proof fn lemma_fee_change_proportional(parent: ParentBlock)
    requires
        gas_target(parent.gas_limit as int) > 0,
    ensures
        ({
            let t = gas_target(parent.gas_limit as int);
            let g = parent.gas_used as int;
            let bf = parent.base_fee_per_gas as int;
            let next = parent.next_base_fee_spec();
            &&& g < t ==> 8 * t * (bf - next) <= bf * (t - g) && bf * (t - g) < 8 * t * (bf - next) + 8 * t
            &&& g > t ==> next - bf >= 1 && (next - bf == 1 || 8 * t * (next - bf) <= bf * (g - t))
                && bf * (g - t) < 8 * t * (next - bf) + 8 * t
        }),
{
    let t = gas_target(parent.gas_limit as int);
    let g = parent.gas_used as int;
    let bf = parent.base_fee_per_gas as int;
    let next = parent.next_base_fee_spec();
    if g < t {
        let q = bf * (t - g) / t / 8;
        lemma_share_bounds(bf, t - g, t);
        assert(next == bf - q);
    } else if g > t {
        let q = bf * (g - t) / t / 8;
        lemma_share_bounds(bf, g - t, t);
        vstd::arithmetic::div_mod::lemma_div_pos_is_pos(bf * (g - t), t);
        vstd::arithmetic::div_mod::lemma_div_pos_is_pos(bf * (g - t) / t, 8);
        if q > 1 {
            assert(next - bf == q);
        } else {
            assert(next - bf == 1);
            assert(8 * t * q <= 8 * t * 1) by (nonlinear_arith)
                requires q <= 1, t > 0;
        }
    }
}

} // verus!
