//! The constant-product pricing curve with an input-leg fee.
//!
//! The fee, in basis points, is taken on the input amount before the curve
//! computation; the output is then priced against the fee-retained input so
//! that the product of the reserves never decreases:
//!
//! ```text
//! retained = amount_in * (10000 - fee_bps) / 10000        (floor)
//! out      = reserve_out * retained / (reserve_in + retained)   (floor)
//! ```
//!
//! Both divisions round down, which rounds the trader's output down and
//! therefore rounds the pool's invariant up: a successful swap satisfies
//! `(reserve_in + amount_in) * (reserve_out - out) >= reserve_in * reserve_out`,
//! strictly so when the fee is positive.

use vstd::prelude::*;

use crate::errors::AmmError;
use vstd::arithmetic::div_mod::lemma_div_by_multiple;
use vstd::arithmetic::div_mod::lemma_div_is_ordered;
use vstd::arithmetic::div_mod::lemma_div_multiples_vanish_fancy;
use vstd::arithmetic::div_mod::lemma_div_pos_is_pos;
use vstd::arithmetic::div_mod::lemma_fundamental_div_mod;
use vstd::arithmetic::div_mod::lemma_mod_division_less_than_divisor;
use vstd::arithmetic::div_mod::lemma_multiply_divide_lt;
use vstd::arithmetic::mul::lemma_mul_is_commutative;
use vstd::arithmetic::mul::lemma_mul_is_distributive_add_other_way;
use vstd::arithmetic::mul::lemma_mul_is_distributive_sub;
use vstd::arithmetic::mul::lemma_mul_inequality;
use vstd::arithmetic::mul::lemma_mul_left_inequality;
use vstd::arithmetic::mul::lemma_mul_nonnegative;
use vstd::arithmetic::mul::lemma_mul_strict_inequality;
use vstd::arithmetic::mul::lemma_mul_strictly_positive;
use vstd::arithmetic::mul::lemma_mul_upper_bound;

verus! {

/// Basis points in one whole; the fee scale.
pub const FEE_SCALE: u16 = 10000;

/// The part of the input amount that reaches the curve after the fee is
/// taken, rounded down.
pub open spec fn fee_retained(amount_in: int, fee_bps: int) -> int {
    amount_in * (10000 - fee_bps) / 10000
}

/// The curve-computed output for a swap of `amount_in` against reserves
/// `(reserve_in, reserve_out)`, rounded down.
pub open spec fn curve_output(reserve_in: int, reserve_out: int, amount_in: int, fee_bps: int) -> int {
    reserve_out * fee_retained(amount_in, fee_bps) / (reserve_in + fee_retained(
        amount_in,
        fee_bps,
    ))
}

/// The fee-retained input never exceeds the input, and loses at least one
/// unit to a positive fee.
pub proof fn lemma_fee_retained_bounds(amount_in: int, fee_bps: int)
    requires
        1 <= amount_in,
        0 <= fee_bps <= 10000,
    ensures
        0 <= fee_retained(amount_in, fee_bps) <= amount_in,
        1 <= fee_bps ==> fee_retained(amount_in, fee_bps) <= amount_in - 1,
{
    let n = amount_in * (10000 - fee_bps);
    lemma_mul_nonnegative(amount_in, 10000 - fee_bps);
    lemma_div_pos_is_pos(n, 10000);
    lemma_mul_left_inequality(amount_in, 10000 - fee_bps, 10000);
    lemma_div_is_ordered(n, amount_in * 10000, 10000);
    lemma_div_by_multiple(amount_in, 10000);
    if 1 <= fee_bps {
        lemma_mul_left_inequality(amount_in, 10000 - fee_bps, 9999);
        assert(amount_in * 9999 == amount_in * 10000 - amount_in);
        lemma_div_is_ordered(n, amount_in * 10000 - 1, 10000);
        lemma_div_multiples_vanish_fancy(amount_in - 1, 9999, 10000);
        assert(10000 * (amount_in - 1) + 9999 == amount_in * 10000 - 1);
    }
}

/// The curve output is non-negative and strictly below the outgoing reserve,
/// so the withdraw leg can never drain the vault.
pub proof fn lemma_curve_output_bounds(
    reserve_in: int,
    reserve_out: int,
    amount_in: int,
    fee_bps: int,
)
    requires
        1 <= reserve_in,
        1 <= reserve_out,
        1 <= amount_in,
        0 <= fee_bps <= 10000,
    ensures
        0 <= curve_output(reserve_in, reserve_out, amount_in, fee_bps) < reserve_out,
{
    let f = fee_retained(amount_in, fee_bps);
    lemma_fee_retained_bounds(amount_in, fee_bps);
    let num = reserve_out * f;
    let den = reserve_in + f;
    lemma_mul_nonnegative(reserve_out, f);
    lemma_div_pos_is_pos(num, den);
    lemma_mul_is_distributive_add_other_way(reserve_out, reserve_in, f);
    lemma_mul_strictly_positive(reserve_in, reserve_out);
    lemma_mul_is_commutative(reserve_in, reserve_out);
    lemma_mul_is_commutative(reserve_in + f, reserve_out);
    assert(num < den * reserve_out);
    lemma_multiply_divide_lt(num, den, reserve_out);
}

/// The defining invariant of the pool: pricing the output against the
/// fee-retained input while depositing the whole input keeps the product of
/// the reserves from decreasing, and any positive fee strictly increases it.
pub proof fn lemma_product_not_decreased(
    reserve_in: int,
    reserve_out: int,
    amount_in: int,
    fee_bps: int,
)
    requires
        1 <= reserve_in,
        1 <= reserve_out,
        1 <= amount_in,
        0 <= fee_bps <= 10000,
    ensures
        (reserve_in + amount_in) * (reserve_out - curve_output(
            reserve_in,
            reserve_out,
            amount_in,
            fee_bps,
        )) >= reserve_in * reserve_out,
        1 <= fee_bps ==> (reserve_in + amount_in) * (reserve_out - curve_output(
            reserve_in,
            reserve_out,
            amount_in,
            fee_bps,
        )) > reserve_in * reserve_out,
{
    let f = fee_retained(amount_in, fee_bps);
    let out = curve_output(reserve_in, reserve_out, amount_in, fee_bps);
    let num = reserve_out * f;
    let den = reserve_in + f;
    lemma_fee_retained_bounds(amount_in, fee_bps);
    lemma_curve_output_bounds(reserve_in, reserve_out, amount_in, fee_bps);
    // Flooring the quotient keeps `den * out` at or below the numerator.
    lemma_fundamental_div_mod(num, den);
    lemma_mod_division_less_than_divisor(num, den);
    assert(den * out <= num);
    // den * (reserve_out - out) >= den * reserve_out - num = reserve_in * reserve_out.
    lemma_mul_is_distributive_sub(den, reserve_out, out);
    lemma_mul_is_distributive_add_other_way(reserve_out, reserve_in, f);
    lemma_mul_is_commutative(den, reserve_out);
    lemma_mul_is_commutative(reserve_in, reserve_out);
    lemma_mul_is_commutative(f, reserve_out);
    assert(den * (reserve_out - out) >= reserve_in * reserve_out);
    // Depositing the whole input only widens the incoming reserve further.
    lemma_mul_inequality(den, reserve_in + amount_in, reserve_out - out);
    if 1 <= fee_bps {
        lemma_mul_strict_inequality(den, reserve_in + amount_in, reserve_out - out);
    }
}

/// Evaluates the curve for one swap: the fee-retained input and the output
/// it buys. Refuses degenerate reserves and a fee over the whole scale.
pub fn swap_output(reserve_in: u64, reserve_out: u64, amount_in: u64, fee_bps: u16) -> (r: Result<
    u64,
    AmmError,
>)
    requires
        amount_in >= 1,
    ensures
        r is Ok <==> (reserve_in >= 1 && reserve_out >= 1 && fee_bps <= 10000),
        r matches Ok(out) ==> out == curve_output(
            reserve_in as int,
            reserve_out as int,
            amount_in as int,
            fee_bps as int,
        ) && out < reserve_out,
        r is Err ==> r == Err::<u64, AmmError>(AmmError::CurveError),
{
    if reserve_in == 0 || reserve_out == 0 || fee_bps > FEE_SCALE {
        return Err(AmmError::CurveError);
    }
    proof {
        lemma_fee_retained_bounds(amount_in as int, fee_bps as int);
        lemma_curve_output_bounds(
            reserve_in as int,
            reserve_out as int,
            amount_in as int,
            fee_bps as int,
        );
        lemma_mul_upper_bound(amount_in as int, u64::MAX as int, (10000 - fee_bps) as int, 10000);
    }
    let retained: u128 = (amount_in as u128) * ((FEE_SCALE - fee_bps) as u128) / (FEE_SCALE as u128);
    proof {
        lemma_mul_upper_bound(reserve_out as int, u64::MAX as int, retained as int, u64::MAX as int);
    }
    let numerator: u128 = (reserve_out as u128) * retained;
    let denominator: u128 = (reserve_in as u128) + retained;
    let out: u128 = numerator / denominator;
    Ok(out as u64)
}

} // verus!
