//! The constant-product bonding curve: given current reserves and a
//! hypothetical trade, compute the post-trade reserves.
//!
//! Rounding rule, chosen once and applied in every direction: the new quote
//! reserve is the floor of `k / new_base_reserve`. The post-trade product
//! therefore never exceeds `k`, and falls short of it by less than one
//! quote unit per unit of the new base reserve (see
//! [`lemma_swap_output_preserves_invariant`]).

use vstd::arithmetic::div_mod::{
    lemma_div_is_ordered, lemma_div_is_ordered_by_denominator, lemma_div_multiples_vanish,
    lemma_fundamental_div_mod, lemma_mod_bound,
};
use vstd::arithmetic::mul::lemma_mul_is_commutative;
use vstd::prelude::*;

use crate::direction::SwapDirection;
use crate::error::MathError;
use crate::snapshot::invariant_k;

verus! {

/// The post-trade base reserve as an unbounded integer: the trade magnitude
/// added to or removed from the current reserve.
pub open spec fn new_base_reserve(
    trade_magnitude: u128,
    current_base_reserve: u128,
    direction: SwapDirection,
) -> int {
    match direction {
        SwapDirection::Add => current_base_reserve + trade_magnitude,
        SwapDirection::Remove => current_base_reserve - trade_magnitude,
    }
}

/// Exactly what [`calculate_swap_output`] returns: the post-trade
/// `(quote_reserve, base_reserve)` pair, or the first error the checked
/// evaluation meets. The error order mirrors the evaluation order: a zero
/// `sqrt_k`, then overflow of `k = sqrt_k^2`, then overflow or underflow of
/// the new base reserve, then a degenerate (zero) new base reserve.
pub open spec fn swap_output_spec(
    trade_magnitude: u128,
    current_base_reserve: u128,
    direction: SwapDirection,
    sqrt_k: u128,
) -> Result<(u128, u128), MathError> {
    let k = invariant_k(sqrt_k);
    let nb = new_base_reserve(trade_magnitude, current_base_reserve, direction);
    if sqrt_k == 0 {
        Err(MathError::InvalidInvariant)
    } else if k > u128::MAX {
        Err(MathError::ArithmeticOverflow)
    } else if nb > u128::MAX {
        Err(MathError::ArithmeticOverflow)
    } else if nb < 0 {
        Err(MathError::ArithmeticUnderflow)
    } else if nb == 0 {
        Err(MathError::InvalidInvariant)
    } else {
        Ok(((k / nb) as u128, nb as u128))
    }
}

/// Evaluates the curve for a hypothetical trade of `trade_magnitude` base
/// units in `direction`, returning the post-trade
/// `(new_quote_reserve, new_base_reserve)`.
///
/// Fails with `InvalidInvariant` if `sqrt_k` is zero or the new base reserve
/// would be zero, with `ArithmeticOverflow` if `sqrt_k^2` or the new base
/// reserve exceeds the 128-bit range, and with `ArithmeticUnderflow` if a
/// `Remove` trade exceeds the current base reserve. The quote reserve is the
/// floor of `k / new_base_reserve`; underflow is an error, never saturation.
pub fn calculate_swap_output(
    trade_magnitude: u128,
    current_base_reserve: u128,
    direction: SwapDirection,
    sqrt_k: u128,
) -> (result: Result<(u128, u128), MathError>)
    ensures
        result == swap_output_spec(trade_magnitude, current_base_reserve, direction, sqrt_k),
{
    if sqrt_k == 0 {
        return Err(MathError::InvalidInvariant);
    }
    let k = match sqrt_k.checked_mul(sqrt_k) {
        Some(product) => product,
        None => return Err(MathError::ArithmeticOverflow),
    };
    let new_base = match direction {
        SwapDirection::Add => match current_base_reserve.checked_add(trade_magnitude) {
            Some(reserve) => reserve,
            None => return Err(MathError::ArithmeticOverflow),
        },
        SwapDirection::Remove => match current_base_reserve.checked_sub(trade_magnitude) {
            Some(reserve) => reserve,
            None => return Err(MathError::ArithmeticUnderflow),
        },
    };
    if new_base == 0 {
        return Err(MathError::InvalidInvariant);
    }
    let new_quote = k / new_base;
    Ok((new_quote, new_base))
}

/// Invariant preservation. For a snapshot whose reserves sit exactly on the
/// invariant and a trade strictly smaller than the base reserve (with the
/// machine-range side conditions under which the evaluation can succeed at
/// all), the swap succeeds, and the floor rounding leaves the post-trade
/// product at most `k`, short of it by less than one unit of the new base
/// reserve: the rounding deficit is under one curve unit.
pub proof fn lemma_swap_output_preserves_invariant(
    trade_magnitude: u128,
    base_reserve: u128,
    quote_reserve: u128,
    direction: SwapDirection,
    sqrt_k: u128,
)
    requires
        base_reserve > 0,
        quote_reserve > 0,
        sqrt_k > 0,
        (base_reserve as int) * (quote_reserve as int) == invariant_k(sqrt_k),
        0 < trade_magnitude < base_reserve,
        invariant_k(sqrt_k) <= u128::MAX,
        direction == SwapDirection::Add ==> base_reserve + trade_magnitude <= u128::MAX,
    ensures
        swap_output_spec(trade_magnitude, base_reserve, direction, sqrt_k) is Ok,
        ({
            let (new_quote, new_base) = swap_output_spec(
                trade_magnitude,
                base_reserve,
                direction,
                sqrt_k,
            )->Ok_0;
            &&& (new_base as int) * (new_quote as int) <= invariant_k(sqrt_k)
            &&& invariant_k(sqrt_k) - (new_base as int) * (new_quote as int) < new_base as int
        }),
{
    let k = invariant_k(sqrt_k);
    let nb = new_base_reserve(trade_magnitude, base_reserve, direction);
    assert(nb > 0);
    lemma_fundamental_div_mod(k, nb);
    lemma_mod_bound(k, nb);
}

/// Monotonicity of the post-trade quote reserve in the trade magnitude, for
/// a fixed `sqrt_k` and the `Add` direction: a larger trade never yields a
/// larger quote reserve. (Strict decrease can fail when floor rounding
/// collapses two neighbouring quotients; see
/// [`lemma_swap_output_quote_strictly_decreasing_add`] for a condition under
/// which it holds.)
pub proof fn lemma_swap_output_quote_decreasing_add(
    magnitude_small: u128,
    magnitude_large: u128,
    current_base_reserve: u128,
    sqrt_k: u128,
    quote_small: u128,
    quote_large: u128,
    base_small: u128,
    base_large: u128,
)
    requires
        magnitude_small < magnitude_large,
        swap_output_spec(magnitude_small, current_base_reserve, SwapDirection::Add, sqrt_k)
            == Ok::<(u128, u128), MathError>((quote_small, base_small)),
        swap_output_spec(magnitude_large, current_base_reserve, SwapDirection::Add, sqrt_k)
            == Ok::<(u128, u128), MathError>((quote_large, base_large)),
    ensures
        quote_large <= quote_small,
{
    let k = invariant_k(sqrt_k);
    lemma_div_is_ordered_by_denominator(k, base_small as int, base_large as int);
}

/// Monotonicity of the post-trade quote reserve in the trade magnitude, for
/// a fixed `sqrt_k` and the `Remove` direction: a larger trade never yields
/// a smaller quote reserve.
pub proof fn lemma_swap_output_quote_increasing_remove(
    magnitude_small: u128,
    magnitude_large: u128,
    current_base_reserve: u128,
    sqrt_k: u128,
    quote_small: u128,
    quote_large: u128,
    base_small: u128,
    base_large: u128,
)
    requires
        magnitude_small < magnitude_large,
        swap_output_spec(magnitude_small, current_base_reserve, SwapDirection::Remove, sqrt_k)
            == Ok::<(u128, u128), MathError>((quote_small, base_small)),
        swap_output_spec(magnitude_large, current_base_reserve, SwapDirection::Remove, sqrt_k)
            == Ok::<(u128, u128), MathError>((quote_large, base_large)),
    ensures
        quote_small <= quote_large,
{
    let k = invariant_k(sqrt_k);
    lemma_div_is_ordered_by_denominator(k, base_large as int, base_small as int);
}

/// Strict monotonicity for `Add`, on the inputs where it holds: when the
/// invariant product is at least the product of the two post-trade base
/// reserves (the curve is deep relative to both trades), floor rounding
/// cannot collapse the two quotients, and the larger trade yields a strictly
/// smaller quote reserve.
pub proof fn lemma_swap_output_quote_strictly_decreasing_add(
    magnitude_small: u128,
    magnitude_large: u128,
    current_base_reserve: u128,
    sqrt_k: u128,
    quote_small: u128,
    quote_large: u128,
    base_small: u128,
    base_large: u128,
)
    requires
        magnitude_small < magnitude_large,
        swap_output_spec(magnitude_small, current_base_reserve, SwapDirection::Add, sqrt_k)
            == Ok::<(u128, u128), MathError>((quote_small, base_small)),
        swap_output_spec(magnitude_large, current_base_reserve, SwapDirection::Add, sqrt_k)
            == Ok::<(u128, u128), MathError>((quote_large, base_large)),
        (base_small as int) * (base_large as int) <= invariant_k(sqrt_k),
    ensures
        quote_large < quote_small,
{
    let k = invariant_k(sqrt_k);
    let nb1 = base_small as int;
    let nb2 = base_large as int;
    let q2 = k / nb2;
    // The larger denominator's quotient is at least nb1, because nb1 * nb2 <= k.
    lemma_div_is_ordered(nb1 * nb2, k, nb2);
    lemma_mul_is_commutative(nb1, nb2);
    lemma_div_multiples_vanish(nb1, nb2);
    assert(q2 >= nb1);
    // k is at least nb1 * (q2 + 1), so the smaller denominator's quotient exceeds q2.
    lemma_fundamental_div_mod(k, nb2);
    lemma_mod_bound(k, nb2);
    assert(nb2 * q2 <= k);
    assert(nb1 * (q2 + 1) <= k) by (nonlinear_arith)
        requires
            0 < nb1 < nb2,
            nb1 <= q2,
            nb2 * q2 <= k,
    ;
    lemma_div_is_ordered(nb1 * (q2 + 1), k, nb1);
    lemma_div_multiples_vanish(q2 + 1, nb1);
    assert(k / nb1 >= q2 + 1);
}

} // verus!
