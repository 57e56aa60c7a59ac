//! The position valuator: composes direction resolution, the bonding curve
//! and the precision scaler into the closing value and signed PnL of a
//! position, with every checked step's failure propagated as a typed error.

use vstd::arithmetic::div_mod::{lemma_div_basics, lemma_div_multiples_vanish};
use vstd::arithmetic::mul::lemma_mul_is_commutative;
use vstd::prelude::*;

use crate::amm::{calculate_swap_output, swap_output_spec};
use crate::direction::{close_direction, swap_direction_to_close_position, SwapDirection};
use crate::error::MathError;
use crate::quote_asset::{
    peg_quote_asset_amount, peg_quote_asset_amount_spec, scale_from_amm_precision,
    scale_from_amm_precision_spec,
};
use crate::snapshot::{config_wf, curve_wf, invariant_k, CurveSnapshot, PositionSnapshot,
    PrecisionConfig};

verus! {

/// The magnitude of a signed position size, as an unbounded integer.
pub open spec fn magnitude_of(base_asset_amount: i128) -> int {
    if base_asset_amount >= 0 {
        base_asset_amount as int
    } else {
        -(base_asset_amount as int)
    }
}

/// The quote-reserve delta realized by the closing swap: how much the quote
/// reserve fell (`Add`) or rose (`Remove`). A delta of the wrong sign means
/// the snapshot was inconsistent with the curve invariant and is
/// `InvalidInvariant`, never a silent clamp.
pub open spec fn quote_delta_spec(
    quote_reserve: u128,
    new_quote_reserve: u128,
    direction: SwapDirection,
) -> Result<u128, MathError> {
    match direction {
        SwapDirection::Add => if new_quote_reserve <= quote_reserve {
            Ok((quote_reserve - new_quote_reserve) as u128)
        } else {
            Err(MathError::InvalidInvariant)
        },
        SwapDirection::Remove => if quote_reserve <= new_quote_reserve {
            Ok((new_quote_reserve - quote_reserve) as u128)
        } else {
            Err(MathError::InvalidInvariant)
        },
    }
}

/// The signed PnL of a close realizing `settlement_value` against a recorded
/// cost basis: value minus basis for an `Add` (short) close, basis minus
/// value for a `Remove` (long) close. Either quantity above `i128::MAX` is
/// `ArithmeticOverflow`; within that range the difference always fits.
pub open spec fn pnl_spec(
    settlement_value: u128,
    quote_asset_amount: u128,
    direction: SwapDirection,
) -> Result<i128, MathError> {
    if (settlement_value as int) > i128::MAX as int {
        Err(MathError::ArithmeticOverflow)
    } else if (quote_asset_amount as int) > i128::MAX as int {
        Err(MathError::ArithmeticOverflow)
    } else {
        match direction {
            SwapDirection::Add => Ok(
                ((settlement_value as int) - (quote_asset_amount as int)) as i128,
            ),
            SwapDirection::Remove => Ok(
                ((quote_asset_amount as int) - (settlement_value as int)) as i128,
            ),
        }
    }
}

/// Exactly what [`_calculate_base_asset_value_and_pnl`] returns: the
/// settlement-precision closing value and signed PnL of a position of the
/// given size and cost basis against the given curve, or the first error of
/// the pipeline (closing swap, quote delta, peg-precision scaling,
/// settlement scaling, signed subtraction — in that order).
pub open spec fn base_asset_value_and_pnl_spec(
    base_asset_amount: i128,
    quote_asset_amount: u128,
    curve: CurveSnapshot,
    config: PrecisionConfig,
) -> Result<(u128, i128), MathError> {
    let direction = close_direction(base_asset_amount);
    match swap_output_spec(
        magnitude_of(base_asset_amount) as u128,
        curve.base_reserve,
        direction,
        curve.sqrt_k,
    ) {
        Err(e) => Err(e),
        Ok((new_quote_reserve, _new_base_reserve)) => match quote_delta_spec(
            curve.quote_reserve,
            new_quote_reserve,
            direction,
        ) {
            Err(e) => Err(e),
            Ok(raw_delta) => match scale_from_amm_precision_spec(raw_delta, config) {
                Err(e) => Err(e),
                Ok(peg_amount) => match peg_quote_asset_amount_spec(
                    peg_amount,
                    curve.peg_multiplier,
                    config,
                ) {
                    Err(e) => Err(e),
                    Ok(settlement_value) => match pnl_spec(
                        settlement_value,
                        quote_asset_amount,
                        direction,
                    ) {
                        Err(e) => Err(e),
                        Ok(pnl) => Ok((settlement_value, pnl)),
                    },
                },
            },
        },
    }
}

/// Exactly what [`calculate_base_asset_value`] returns: the narrower "quick
/// mark" pipeline, which applies the settlement scaling directly to the raw
/// curve-space delta and skips the peg-precision step.
pub open spec fn base_asset_value_spec(
    base_asset_amount: i128,
    base_asset_reserve: u128,
    quote_asset_reserve: u128,
    sqrt_k: u128,
    peg_multiplier: u128,
    config: PrecisionConfig,
) -> Result<u128, MathError> {
    let direction = close_direction(base_asset_amount);
    match swap_output_spec(
        magnitude_of(base_asset_amount) as u128,
        base_asset_reserve,
        direction,
        sqrt_k,
    ) {
        Err(e) => Err(e),
        Ok((new_quote_reserve, _new_base_reserve)) => match quote_delta_spec(
            quote_asset_reserve,
            new_quote_reserve,
            direction,
        ) {
            Err(e) => Err(e),
            Ok(raw_delta) => peg_quote_asset_amount_spec(raw_delta, peg_multiplier, config),
        },
    }
}

/// The magnitude of a signed position size as a `u128`; total, also at
/// `i128::MIN`.
pub fn unsigned_magnitude(base_asset_amount: i128) -> (magnitude: u128)
    ensures
        magnitude as int == magnitude_of(base_asset_amount),
{
    if base_asset_amount >= 0 {
        base_asset_amount as u128
    } else {
        ((-(base_asset_amount + 1)) as u128) + 1
    }
}

/// Closing value and signed PnL of a position snapshot against a curve
/// snapshot: the settlement-precision quote value a full close would realize
/// right now, and that value measured against the recorded cost basis. Pure
/// and single-pass; any checked-arithmetic failure aborts the whole
/// computation with its typed error and no partial result.
pub fn calculate_base_asset_value_and_pnl(
    market_position: &PositionSnapshot,
    amm: &CurveSnapshot,
    config: &PrecisionConfig,
) -> (result: Result<(u128, i128), MathError>)
    ensures
        result == base_asset_value_and_pnl_spec(
            market_position.base_asset_amount,
            market_position.quote_asset_amount,
            *amm,
            *config,
        ),
{
    _calculate_base_asset_value_and_pnl(
        market_position.base_asset_amount,
        market_position.quote_asset_amount,
        amm,
        config,
    )
}

/// As [`calculate_base_asset_value_and_pnl`], taking the position's fields
/// directly.
pub fn _calculate_base_asset_value_and_pnl(
    base_asset_amount: i128,
    quote_asset_amount: u128,
    amm: &CurveSnapshot,
    config: &PrecisionConfig,
) -> (result: Result<(u128, i128), MathError>)
    ensures
        result == base_asset_value_and_pnl_spec(base_asset_amount, quote_asset_amount, *amm, *config),
{
    let swap_direction = swap_direction_to_close_position(base_asset_amount);

    let (new_quote_asset_reserve, _new_base_asset_reserve) = match calculate_swap_output(
        unsigned_magnitude(base_asset_amount),
        amm.base_reserve,
        swap_direction,
        amm.sqrt_k,
    ) {
        Ok(reserves) => reserves,
        Err(e) => return Err(e),
    };

    let scaled_unpegged_quote_asset_amount = match swap_direction {
        SwapDirection::Add => match amm.quote_reserve.checked_sub(new_quote_asset_reserve) {
            Some(delta) => delta,
            None => return Err(MathError::InvalidInvariant),
        },
        SwapDirection::Remove => match new_quote_asset_reserve.checked_sub(amm.quote_reserve) {
            Some(delta) => delta,
            None => return Err(MathError::InvalidInvariant),
        },
    };

    let scaled_quote_asset_amount = match scale_from_amm_precision(
        scaled_unpegged_quote_asset_amount,
        config,
    ) {
        Ok(amount) => amount,
        Err(e) => return Err(e),
    };
    let pegged_quote_asset_amount = match peg_quote_asset_amount(
        scaled_quote_asset_amount,
        amm.peg_multiplier,
        config,
    ) {
        Ok(amount) => amount,
        Err(e) => return Err(e),
    };

    if pegged_quote_asset_amount > (i128::MAX as u128) {
        return Err(MathError::ArithmeticOverflow);
    }
    if quote_asset_amount > (i128::MAX as u128) {
        return Err(MathError::ArithmeticOverflow);
    }
    let pnl: i128 = match swap_direction {
        SwapDirection::Add => (pegged_quote_asset_amount as i128) - (quote_asset_amount as i128),
        SwapDirection::Remove => (quote_asset_amount as i128) - (pegged_quote_asset_amount as i128),
    };

    Ok((pegged_quote_asset_amount, pnl))
}

/// The "quick mark" closing value of a position: the closing swap's raw
/// curve-space quote delta rescaled to settlement precision in one step
/// (peg multiply, mantissa divide), skipping the peg-precision conversion
/// that [`_calculate_base_asset_value_and_pnl`] applies. An intentionally
/// distinct, narrower value semantics than the PnL pipeline's.
pub fn calculate_base_asset_value(
    base_asset_amount: i128,
    base_asset_reserve: u128,
    quote_asset_reserve: u128,
    sqrt_k: u128,
    peg_multiplier: u128,
    config: &PrecisionConfig,
) -> (result: Result<u128, MathError>)
    ensures
        result == base_asset_value_spec(
            base_asset_amount,
            base_asset_reserve,
            quote_asset_reserve,
            sqrt_k,
            peg_multiplier,
            *config,
        ),
{
    let swap_direction = swap_direction_to_close_position(base_asset_amount);

    let (new_quote_asset_amount, _new_base_asset_amount) = match calculate_swap_output(
        unsigned_magnitude(base_asset_amount),
        base_asset_reserve,
        swap_direction,
        sqrt_k,
    ) {
        Ok(reserves) => reserves,
        Err(e) => return Err(e),
    };

    let quote_asset_acquired = match swap_direction {
        SwapDirection::Add => match quote_asset_reserve.checked_sub(new_quote_asset_amount) {
            Some(delta) => delta,
            None => return Err(MathError::InvalidInvariant),
        },
        SwapDirection::Remove => match new_quote_asset_amount.checked_sub(quote_asset_reserve) {
            Some(delta) => delta,
            None => return Err(MathError::InvalidInvariant),
        },
    };

    peg_quote_asset_amount(quote_asset_acquired, peg_multiplier, config)
}

/// PnL sign law. Whenever the PnL pipeline succeeds: for a short-classified
/// position (positive base amount) the PnL is positive exactly when the
/// settlement value exceeds the cost basis, and for a long-classified one
/// exactly when the cost basis exceeds the settlement value.
pub proof fn lemma_pnl_sign(
    base_asset_amount: i128,
    quote_asset_amount: u128,
    curve: CurveSnapshot,
    config: PrecisionConfig,
    settlement_value: u128,
    pnl: i128,
)
    requires
        base_asset_value_and_pnl_spec(base_asset_amount, quote_asset_amount, curve, config)
            == Ok::<(u128, i128), MathError>((settlement_value, pnl)),
    ensures
        base_asset_amount > 0 ==> (pnl > 0 <==> settlement_value > quote_asset_amount),
        base_asset_amount <= 0 ==> (pnl > 0 <==> quote_asset_amount > settlement_value),
{
}

/// Zero-size boundary. Closing a flat position (base amount zero) against a
/// well-formed curve, with usable precision divisors and a representable
/// cost basis, realizes a settlement value of zero; by the long-side
/// (`Remove`) sign rule of the PnL step, the PnL is then the cost basis
/// itself.
pub proof fn lemma_zero_size_position(
    quote_asset_amount: u128,
    curve: CurveSnapshot,
    config: PrecisionConfig,
)
    requires
        curve_wf(curve),
        invariant_k(curve.sqrt_k) <= u128::MAX,
        config_wf(config),
        quote_asset_amount <= i128::MAX as u128,
    ensures
        base_asset_value_and_pnl_spec(0, quote_asset_amount, curve, config)
            == Ok::<(u128, i128), MathError>((0u128, quote_asset_amount as i128)),
{
    let k = invariant_k(curve.sqrt_k);
    let base = curve.base_reserve as int;
    let quote = curve.quote_reserve as int;
    // Removing a zero magnitude leaves the base reserve, and an exact
    // invariant makes the floored quotient reproduce the quote reserve.
    lemma_mul_is_commutative(base, quote);
    lemma_div_multiples_vanish(quote, base);
    assert(k / base == quote);
    // A zero delta stays zero through both truncating scaling steps.
    lemma_div_basics(config.asset_amount_precision_ratio as int);
    lemma_div_basics(config.mark_price_mantissa as int);
    // The closing swap of a zero magnitude reproduces the resting reserves.
    assert(swap_output_spec(0u128, curve.base_reserve, SwapDirection::Remove, curve.sqrt_k)
        == Ok::<(u128, u128), MathError>((curve.quote_reserve, curve.base_reserve)));
}

} // verus!
