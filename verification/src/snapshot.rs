//! Read-only snapshots of the market curve and of a position, and the
//! immutable precision configuration threaded into every unit conversion.

use vstd::prelude::*;

verus! {

/// Point-in-time state of a constant-product bonding curve. Owned and
/// validated by an external market-state collaborator; this crate only reads
/// it. At rest a well-formed snapshot satisfies
/// `base_reserve * quote_reserve == sqrt_k * sqrt_k` with all fields positive.
#[derive(Clone, Copy, Debug, PartialEq, Eq, Structural)]
pub struct CurveSnapshot {
    /// Virtual base-asset reserve, in curve-native fixed-point units.
    pub base_reserve: u128,
    /// Virtual quote-asset reserve, in curve-native fixed-point units.
    pub quote_reserve: u128,
    /// Stored square root of the invariant product `k`.
    pub sqrt_k: u128,
    /// Scale factor from curve-native price units to peg price units.
    pub peg_multiplier: u128,
}

/// Point-in-time state of one open position, owned externally.
#[derive(Clone, Copy, Debug, PartialEq, Eq, Structural)]
pub struct PositionSnapshot {
    /// Signed size: positive is a short, negative a long, zero is flat.
    pub base_asset_amount: i128,
    /// Recorded cost basis, in settlement precision.
    pub quote_asset_amount: u128,
}

/// Process-wide unit-conversion constants, grouped into one immutable record
/// and passed explicitly into every scaling call so the conversions stay
/// auditable. Never mutated at runtime.
#[derive(Clone, Copy, Debug, PartialEq, Eq, Structural)]
pub struct PrecisionConfig {
    /// Ratio between curve-native asset-amount precision and peg precision;
    /// dividing by it converts a curve-space quote amount to peg precision.
    pub asset_amount_precision_ratio: u128,
    /// Fixed-point mantissa of the mark price; dividing a peg-multiplied
    /// amount by it yields settlement precision.
    pub mark_price_mantissa: u128,
}

/// The invariant product `k` that the curve maintains, recomputed from its
/// stored square root.
pub open spec fn invariant_k(sqrt_k: u128) -> int {
    (sqrt_k as int) * (sqrt_k as int)
}

/// A curve snapshot as external collaborators promise to hand it over: all
/// fields strictly positive and the reserves exactly on the invariant.
pub open spec fn curve_wf(curve: CurveSnapshot) -> bool {
    &&& curve.base_reserve > 0
    &&& curve.quote_reserve > 0
    &&& curve.sqrt_k > 0
    &&& curve.peg_multiplier > 0
    &&& (curve.base_reserve as int) * (curve.quote_reserve as int) == invariant_k(curve.sqrt_k)
}

/// A usable configuration: both divisors nonzero. A zero divisor is not
/// rejected up front but surfaces as `DivisionByZero` from the scaling step
/// that meets it.
pub open spec fn config_wf(config: PrecisionConfig) -> bool {
    &&& config.asset_amount_precision_ratio > 0
    &&& config.mark_price_mantissa > 0
}

} // verus!
