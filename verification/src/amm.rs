//! The constant-product pool (Uniswap V2) as the sandwich arithmetic sees it:
//! a victim buys tokens with ETH, and the sandwich buys before and sells after.

use vstd::prelude::*;

verus! {

/// Whether a mathematical integer is a value of `i64`.
pub open spec fn fits_i64(x: int) -> bool {
    i64::MIN <= x <= i64::MAX
}

pub open spec fn abs(a: int) -> int {
    if a >= 0 {
        a
    } else {
        -a
    }
}

/// Integer division rounding toward zero, as Rust's `/` on signed integers.
pub open spec fn trunc_div(a: int, b: int) -> int {
    let q = abs(a) / abs(b);
    if (a >= 0) == (b > 0) {
        q
    } else {
        -q
    }
}

/// `a / b` on `i64`, which rounds toward zero.
fn div_toward_zero(a: i64, b: i64) -> (q: i64)
    requires
        b != 0,
        !(a == i64::MIN && b == -1),
    ensures
        q as int == trunc_div(a as int, b as int),
{
    if b > 0 {
        a / b
    } else if b == i64::MIN {
        proof {
            if a != i64::MIN {
                vstd::arithmetic::div_mod::lemma_basic_div(abs(a as int), abs(b as int));
            } else {
                vstd::arithmetic::div_mod::lemma_div_by_self(abs(b as int));
            }
        }
        if a == i64::MIN {
            1
        } else {
            0
        }
    } else {
        let nb: i64 = -b;
        let q: i64 = a / nb;
        proof {
            let m = abs(a as int) / (nb as int);
            vstd::arithmetic::div_mod::lemma_div_is_ordered_by_denominator(abs(a as int), 1, nb as int);
            vstd::arithmetic::div_mod::lemma_div_pos_is_pos(abs(a as int), nb as int);
            if nb == 1 {
                assert(a != i64::MIN);
            } else {
                vstd::arithmetic::div_mod::lemma_div_is_ordered_by_denominator(abs(a as int), 2, nb as int);
                assert(abs(a as int) / 2 <= 0x4000_0000_0000_0000) by {
                    vstd::arithmetic::div_mod::lemma_div_is_ordered(abs(a as int), 0x8000_0000_0000_0000, 2);
                }
            }
            assert(m <= i64::MAX);
            assert(q as int == if a >= 0 { m } else { -m });
        }
        -q
    }
}

/// The fee taken from an input of `input`, with fee factor `fee` applied per mille.
pub open spec fn swap_fee_spec(fee: int, input: int) -> int {
    trunc_div(input * fee, 1000)
}

/// One swap through a pool holding `reserve_in` of the input asset and
/// `reserve_out` of the output asset: (amount out, new input reserve, new
/// output reserve).
pub open spec fn swap_spec(fee: int, input: int, reserve_in: int, reserve_out: int) -> (int, int, int) {
    let product = reserve_in * reserve_out;
    let reserve_in_after = reserve_in + input;
    let reserve_out_after = trunc_div(product, reserve_in_after - swap_fee_spec(fee, input));
    (reserve_out - reserve_out_after, reserve_in_after, reserve_out_after)
}

/// Every step of the swap stays within `i64` and divides by a non-zero amount.
pub open spec fn swap_defined(fee: int, input: int, reserve_in: int, reserve_out: int) -> bool {
    let fee_amount = swap_fee_spec(fee, input);
    let product = reserve_in * reserve_out;
    let reserve_in_after = reserve_in + input;
    let denominator = reserve_in_after - fee_amount;
    &&& fits_i64(input * fee)
    &&& fits_i64(product)
    &&& fits_i64(reserve_in_after)
    &&& fits_i64(denominator)
    &&& denominator != 0
    &&& !(product == i64::MIN && denominator == -1)
    &&& fits_i64(reserve_out - trunc_div(product, denominator))
}

/// A pool before a victim's ETH-for-token swap.
#[derive(Clone, Copy, Debug)]
pub struct V2AMM {
    pub initial_reserves_eth: i64,
    pub initial_reserves_token: i64,
    /// ETH the victim puts in.
    pub swap_eth_in: i64,
    /// Tokens the victim expects out.
    pub swap_token_out: i64,
    /// Fee factor per mille, taken as an integer from the pool's fee rate.
    pub fee: i64,
}

impl V2AMM {
    /// The three swaps of a sandwich of size `delta_sand`: buy, victim, sell.
    pub open spec fn front_run(self, delta_sand: int) -> (int, int, int) {
        swap_spec(
            self.fee as int,
            delta_sand,
            self.initial_reserves_eth as int,
            self.initial_reserves_token as int,
        )
    }

    pub open spec fn victim_swap(self, delta_sand: int) -> (int, int, int) {
        let front = self.front_run(delta_sand);
        swap_spec(self.fee as int, self.swap_eth_in as int, front.1, front.2)
    }

    pub open spec fn back_run(self, delta_sand: int) -> (int, int, int) {
        let front = self.front_run(delta_sand);
        let victim = self.victim_swap(delta_sand);
        swap_spec(self.fee as int, front.0, victim.2, victim.1)
    }

    /// ETH the sandwich ends with, less the ETH it put in.
    pub open spec fn abstract_profits_spec(self, delta_sand: int) -> int {
        self.back_run(delta_sand).0 - delta_sand
    }

    pub open spec fn abstract_profits_defined(self, delta_sand: int) -> bool {
        let front = self.front_run(delta_sand);
        let victim = self.victim_swap(delta_sand);
        &&& swap_defined(
            self.fee as int,
            delta_sand,
            self.initial_reserves_eth as int,
            self.initial_reserves_token as int,
        )
        &&& swap_defined(self.fee as int, self.swap_eth_in as int, front.1, front.2)
        &&& swap_defined(self.fee as int, front.0, victim.2, victim.1)
        &&& fits_i64(self.abstract_profits_spec(delta_sand))
    }

    /// Tokens the victim receives beyond what it asked for, after the front run.
    pub open spec fn slippage_spec(self, delta_sand: int) -> int {
        self.victim_swap(delta_sand).0 - self.swap_token_out
    }

    pub open spec fn slippage_defined(self, delta_sand: int) -> bool {
        let front = self.front_run(delta_sand);
        &&& swap_defined(
            self.fee as int,
            delta_sand,
            self.initial_reserves_eth as int,
            self.initial_reserves_token as int,
        )
        &&& swap_defined(self.fee as int, self.swap_eth_in as int, front.1, front.2)
        &&& fits_i64(self.slippage_spec(delta_sand))
    }

    /// A pool model with the fee rate of Uniswap V2 (0.3%), whose integer part is 0.
    pub fn new(reserves_eth: i64, reserves_token: i64, swap_eth_in: i64, swap_token_out: i64) -> (amm: Self)
        ensures
            amm.initial_reserves_eth == reserves_eth,
            amm.initial_reserves_token == reserves_token,
            amm.swap_eth_in == swap_eth_in,
            amm.swap_token_out == swap_token_out,
            amm.fee == 0,
    {
        V2AMM {
            initial_reserves_eth: reserves_eth,
            initial_reserves_token: reserves_token,
            swap_eth_in,
            swap_token_out,
            fee: 0,
        }
    }

    /// Swaps `input_token` into a pool; returns (amount out, new input
    /// reserve, new output reserve).
    pub fn swap(&self, input_token: i64, input_reserves_in: i64, output_reserves_in: i64) -> (out: (
        i64,
        i64,
        i64,
    ))
        requires
            swap_defined(self.fee as int, input_token as int, input_reserves_in as int, output_reserves_in as int),
        ensures
            (out.0 as int, out.1 as int, out.2 as int) == swap_spec(
                self.fee as int,
                input_token as int,
                input_reserves_in as int,
                output_reserves_in as int,
            ),
    {
        let swap_fee: i64 = div_toward_zero(input_token * self.fee, 1000);
        let product: i64 = input_reserves_in * output_reserves_in;
        let input_reserves_out: i64 = input_reserves_in + input_token;
        let output_reserves_out: i64 = div_toward_zero(product, input_reserves_out - swap_fee);
        let output_token: i64 = output_reserves_in - output_reserves_out;
        (output_token, input_reserves_out, output_reserves_out)
    }

    /// The swap, or `None` where one of its steps leaves `i64` or divides by zero.
    pub fn checked_swap(&self, input_token: i64, input_reserves_in: i64, output_reserves_in: i64) -> (out:
        Option<(i64, i64, i64)>)
        ensures
            out is Some <==> swap_defined(
                self.fee as int,
                input_token as int,
                input_reserves_in as int,
                output_reserves_in as int,
            ),
            out matches Some(o) ==> (o.0 as int, o.1 as int, o.2 as int) == swap_spec(
                self.fee as int,
                input_token as int,
                input_reserves_in as int,
                output_reserves_in as int,
            ),
    {
        let scaled: i64 = match input_token.checked_mul(self.fee) {
            Some(v) => v,
            None => return None,
        };
        let swap_fee: i64 = div_toward_zero(scaled, 1000);
        let product: i64 = match input_reserves_in.checked_mul(output_reserves_in) {
            Some(v) => v,
            None => return None,
        };
        let input_reserves_out: i64 = match input_reserves_in.checked_add(input_token) {
            Some(v) => v,
            None => return None,
        };
        let denominator: i64 = match input_reserves_out.checked_sub(swap_fee) {
            Some(v) => v,
            None => return None,
        };
        if denominator == 0 || (product == i64::MIN && denominator == -1) {
            return None;
        }
        let output_reserves_out: i64 = div_toward_zero(product, denominator);
        match output_reserves_in.checked_sub(output_reserves_out) {
            Some(output_token) => Some((output_token, input_reserves_out, output_reserves_out)),
            None => None,
        }
    }

    /// Profit of a sandwich of size `delta_sand` around the victim's swap.
    pub fn abstract_profits(&self, delta_sand: i64) -> (profit: i64)
        requires
            self.abstract_profits_defined(delta_sand as int),
        ensures
            profit as int == self.abstract_profits_spec(delta_sand as int),
    {
        let (delta_token, reserves_eth, reserves_token) = self.swap(
            delta_sand,
            self.initial_reserves_eth,
            self.initial_reserves_token,
        );
        let (_swap_token, reserves_eth, reserves_token) = self.swap(self.swap_eth_in, reserves_eth, reserves_token);
        let (eth_out, _reserves_token, _reserves_eth) = self.swap(delta_token, reserves_token, reserves_eth);
        eth_out - delta_sand
    }

    /// The profit, or `None` where the computation leaves `i64` or divides by zero.
    pub fn try_abstract_profits(&self, delta_sand: i64) -> (profit: Option<i64>)
        ensures
            profit is Some <==> self.abstract_profits_defined(delta_sand as int),
            profit matches Some(p) ==> p as int == self.abstract_profits_spec(delta_sand as int),
    {
        let (delta_token, reserves_eth, reserves_token) = match self.checked_swap(
            delta_sand,
            self.initial_reserves_eth,
            self.initial_reserves_token,
        ) {
            Some(o) => o,
            None => return None,
        };
        let (_swap_token, reserves_eth, reserves_token) = match self.checked_swap(
            self.swap_eth_in,
            reserves_eth,
            reserves_token,
        ) {
            Some(o) => o,
            None => return None,
        };
        let (eth_out, _reserves_token, _reserves_eth) = match self.checked_swap(
            delta_token,
            reserves_token,
            reserves_eth,
        ) {
            Some(o) => o,
            None => return None,
        };
        eth_out.checked_sub(delta_sand)
    }

    /// Slippage the victim sees after a front run of size `delta_sand`.
    pub fn slip_and_res(&self, delta_sand: i64) -> (slippage: i64)
        requires
            self.slippage_defined(delta_sand as int),
        ensures
            slippage as int == self.slippage_spec(delta_sand as int),
    {
        let (_token_sand, reserves_eth, reserves_token) = self.swap(
            delta_sand,
            self.initial_reserves_eth,
            self.initial_reserves_token,
        );
        let (token_out, _reserves_eth, _reserves_token) = self.swap(self.swap_eth_in, reserves_eth, reserves_token);
        token_out - self.swap_token_out
    }
}

/// Swapping nothing into a pool gives nothing out and leaves its reserves as they were.
pub proof fn lemma_swap_of_nothing(fee: int, reserve_in: int, reserve_out: int)
    requires
        reserve_in != 0,
    ensures
        swap_spec(fee, 0, reserve_in, reserve_out) == (0int, reserve_in, reserve_out),
{
    assert(abs(reserve_in * reserve_out) == abs(reserve_out) * abs(reserve_in)) by (nonlinear_arith);
    vstd::arithmetic::div_mod::lemma_div_multiples_vanish(abs(reserve_out), abs(reserve_in));
    assert(abs(reserve_in) * abs(reserve_out) == abs(reserve_out) * abs(reserve_in)) by (nonlinear_arith);
    assert(reserve_out > 0 ==> ((reserve_in * reserve_out >= 0) == (reserve_in > 0))) by (nonlinear_arith)
        requires reserve_in != 0;
    assert(reserve_out < 0 ==> ((reserve_in * reserve_out >= 0) != (reserve_in > 0))) by (nonlinear_arith)
        requires reserve_in != 0;
    assert(reserve_out == 0 ==> reserve_in * reserve_out == 0) by (nonlinear_arith);
}

/// A sandwich of size zero earns exactly nothing.
pub proof fn lemma_no_sandwich_no_profit(amm: V2AMM)
    requires
        amm.abstract_profits_defined(0),
    ensures
        amm.abstract_profits_spec(0) == 0,
{
    lemma_swap_of_nothing(amm.fee as int, amm.initial_reserves_eth as int, amm.initial_reserves_token as int);
    let front = amm.front_run(0);
    let victim = amm.victim_swap(0);
    assert(front.0 == 0);
    lemma_swap_of_nothing(amm.fee as int, victim.2, victim.1);
}

/// With a fee factor between 0 and 1000 per mille, a non-negative input into a
/// pool with positive input reserve and non-negative output reserve yields an
/// amount between zero and the whole output reserve, and the reserves after the
/// swap, the input one net of the fee, hold a product no larger than before.
pub proof fn lemma_swap_bounds(fee: int, input: int, reserve_in: int, reserve_out: int)
    requires
        0 <= fee <= 1000,
        input >= 0,
        reserve_in > 0,
        reserve_out >= 0,
    ensures
        0 <= swap_spec(fee, input, reserve_in, reserve_out).0 <= reserve_out,
        swap_spec(fee, input, reserve_in, reserve_out).1 == reserve_in + input,
        (reserve_in + input - swap_fee_spec(fee, input)) * swap_spec(fee, input, reserve_in, reserve_out).2
            <= reserve_in * reserve_out,
{
    lemma_fee_share(fee, input);
    let d = reserve_in + input - swap_fee_spec(fee, input);
    let k = reserve_in * reserve_out;
    assert(k >= 0) by (nonlinear_arith)
        requires reserve_in > 0, reserve_out >= 0, k == reserve_in * reserve_out;
    assert(d >= reserve_in);
    vstd::arithmetic::div_mod::lemma_div_is_ordered_by_denominator(k, reserve_in, d);
    vstd::arithmetic::div_mod::lemma_div_multiples_vanish(reserve_out, reserve_in);
    assert(reserve_in * reserve_out == k);
    vstd::arithmetic::div_mod::lemma_div_pos_is_pos(k, d);
    vstd::arithmetic::div_mod::lemma_fundamental_div_mod(k, d);
    vstd::arithmetic::div_mod::lemma_mod_pos_bound(k, d);
    assert(d * (k / d) <= k);
}

/// The fee on a non-negative input is between zero and the input itself.
proof fn lemma_fee_share(fee: int, input: int)
    requires
        0 <= fee <= 1000,
        input >= 0,
    ensures
        0 <= swap_fee_spec(fee, input) <= input,
{
    assert(0 <= input * fee <= input * 1000) by (nonlinear_arith)
        requires 0 <= fee <= 1000, input >= 0;
    vstd::arithmetic::div_mod::lemma_div_is_ordered(input * fee, input * 1000, 1000);
    vstd::arithmetic::div_mod::lemma_div_multiples_vanish(input, 1000);
    assert(input * 1000 == 1000 * input) by (nonlinear_arith);
    vstd::arithmetic::div_mod::lemma_div_pos_is_pos(input * fee, 1000);
}

/// With a fee factor of at most 1000 per mille (a negative one pays a
/// rebate), putting more into a pool never gets less out.
pub proof fn lemma_swap_monotone(fee: int, input_low: int, input_high: int, reserve_in: int, reserve_out: int)
    requires
        fee <= 1000,
        0 <= input_low <= input_high,
        reserve_in > 0,
        reserve_out >= 0,
    ensures
        swap_spec(fee, input_low, reserve_in, reserve_out).0 <= swap_spec(
            fee,
            input_high,
            reserve_in,
            reserve_out,
        ).0,
{
    let f_lo = swap_fee_spec(fee, input_low);
    let f_hi = swap_fee_spec(fee, input_high);
    if fee >= 0 {
        lemma_fee_share(fee, input_low);
        lemma_fee_share(fee, input_high);
        // the fee grows no faster than the input
        assert(f_hi - f_lo <= input_high - input_low) by {
            let gap = input_high - input_low;
            assert(input_high * fee == input_low * fee + gap * fee) by (nonlinear_arith)
                requires gap == input_high - input_low;
            assert(0 <= gap * fee <= gap * 1000) by (nonlinear_arith)
                requires 0 <= fee <= 1000, gap >= 0;
            vstd::arithmetic::div_mod::lemma_fundamental_div_mod(input_low * fee, 1000);
            vstd::arithmetic::div_mod::lemma_fundamental_div_mod(input_high * fee, 1000);
            vstd::arithmetic::div_mod::lemma_mod_pos_bound(input_low * fee, 1000);
            vstd::arithmetic::div_mod::lemma_mod_pos_bound(input_high * fee, 1000);
            assert(input_low * fee >= 0) by (nonlinear_arith)
                requires input_low >= 0, fee >= 0;
        }
    } else {
        // a rebate: it is never negative in the pool's favour, and grows with the input
        let rate = -fee;
        assert(input_low * fee == -(input_low * rate) && input_high * fee == -(input_high * rate)) by (nonlinear_arith)
            requires rate == -fee;
        assert(0 <= input_low * rate <= input_high * rate) by (nonlinear_arith)
            requires rate > 0, 0 <= input_low <= input_high;
        vstd::arithmetic::div_mod::lemma_div_is_ordered(input_low * rate, input_high * rate, 1000);
        vstd::arithmetic::div_mod::lemma_div_pos_is_pos(input_low * rate, 1000);
        assert(f_lo == -((input_low * rate) / 1000));
        assert(f_hi == -((input_high * rate) / 1000));
    }
    let d_lo = reserve_in + input_low - f_lo;
    let d_hi = reserve_in + input_high - f_hi;
    let k = reserve_in * reserve_out;
    assert(k >= 0) by (nonlinear_arith)
        requires reserve_in > 0, reserve_out >= 0, k == reserve_in * reserve_out;
    vstd::arithmetic::div_mod::lemma_div_is_ordered_by_denominator(k, d_lo, d_hi);
}

} // verus!
