//! Unit conversions from curve-native quote amounts to peg precision and on
//! to settlement precision: each a checked multiply-then-divide against the
//! immutable precision configuration.

use vstd::prelude::*;

use crate::error::MathError;
use crate::snapshot::PrecisionConfig;

verus! {

/// Exactly what [`scale_from_amm_precision`] returns: the amount divided
/// (truncating) by the configured asset-amount precision ratio, or
/// `DivisionByZero` when that ratio is zero.
pub open spec fn scale_from_amm_precision_spec(
    raw_amount: u128,
    config: PrecisionConfig,
) -> Result<u128, MathError> {
    if config.asset_amount_precision_ratio == 0 {
        Err(MathError::DivisionByZero)
    } else {
        Ok(((raw_amount as int) / (config.asset_amount_precision_ratio as int)) as u128)
    }
}

/// Exactly what [`peg_quote_asset_amount`] returns: the amount multiplied by
/// the peg multiplier and divided (truncating) by the mark-price mantissa.
/// The multiply is checked first, so an oversized product is
/// `ArithmeticOverflow` even when the mantissa is zero; a zero mantissa is
/// `DivisionByZero`.
pub open spec fn peg_quote_asset_amount_spec(
    quote_asset_amount: u128,
    peg_multiplier: u128,
    config: PrecisionConfig,
) -> Result<u128, MathError> {
    let product = (quote_asset_amount as int) * (peg_multiplier as int);
    if product > u128::MAX {
        Err(MathError::ArithmeticOverflow)
    } else if config.mark_price_mantissa == 0 {
        Err(MathError::DivisionByZero)
    } else {
        Ok((product / (config.mark_price_mantissa as int)) as u128)
    }
}

/// Converts a curve-native quote amount to peg precision by dividing out the
/// configured asset-amount precision ratio (truncating integer division).
pub fn scale_from_amm_precision(
    raw_amount: u128,
    config: &PrecisionConfig,
) -> (result: Result<u128, MathError>)
    ensures
        result == scale_from_amm_precision_spec(raw_amount, *config),
{
    match raw_amount.checked_div(config.asset_amount_precision_ratio) {
        Some(scaled) => Ok(scaled),
        None => Err(MathError::DivisionByZero),
    }
}

/// Converts a peg-precision quote amount to settlement precision: multiply
/// by the market's peg multiplier, divide by the configured mark-price
/// mantissa. Fails with `ArithmeticOverflow` rather than wrapping when the
/// intermediate product leaves the 128-bit range, and with `DivisionByZero`
/// on a zero mantissa.
pub fn peg_quote_asset_amount(
    quote_asset_amount: u128,
    peg_multiplier: u128,
    config: &PrecisionConfig,
) -> (result: Result<u128, MathError>)
    ensures
        result == peg_quote_asset_amount_spec(quote_asset_amount, peg_multiplier, *config),
{
    let product = match quote_asset_amount.checked_mul(peg_multiplier) {
        Some(product) => product,
        None => return Err(MathError::ArithmeticOverflow),
    };
    match product.checked_div(config.mark_price_mantissa) {
        Some(pegged) => Ok(pegged),
        None => Err(MathError::DivisionByZero),
    }
}

} // verus!
