use clearing_house::error::MathError;
use clearing_house::position::{
    calculate_base_asset_value, calculate_base_asset_value_and_pnl,
    _calculate_base_asset_value_and_pnl,
};
use clearing_house::snapshot::{CurveSnapshot, PositionSnapshot, PrecisionConfig};

const MANTISSA: u128 = 10_000_000_000;

fn unit_config() -> PrecisionConfig {
    PrecisionConfig {
        asset_amount_precision_ratio: 1,
        mark_price_mantissa: MANTISSA,
    }
}

fn million_curve() -> CurveSnapshot {
    CurveSnapshot {
        base_reserve: 1_000_000,
        quote_reserve: 1_000_000,
        sqrt_k: 1_000_000,
        peg_multiplier: MANTISSA,
    }
}

#[test]
fn close_long_against_million_curve() {
    // A long of 100_000 base units closes with direction Remove: the base
    // reserve falls to 900_000, the quote reserve rises to the floor of
    // 10^12 / 900_000 = 1_111_111, a raw delta of 111_111. With a unit peg
    // ratio the settlement value is 111_111, and the Remove-side sign rule
    // makes the PnL the cost basis (zero) minus that value.
    let result = _calculate_base_asset_value_and_pnl(-100_000, 0, &million_curve(), &unit_config());
    assert_eq!(result, Ok((111_111, -111_111)));
}

#[test]
fn snapshot_entry_point_reads_the_position_fields() {
    let position = PositionSnapshot {
        base_asset_amount: -100_000,
        quote_asset_amount: 0,
    };
    let by_snapshot = calculate_base_asset_value_and_pnl(&position, &million_curve(), &unit_config());
    let by_fields = _calculate_base_asset_value_and_pnl(-100_000, 0, &million_curve(), &unit_config());
    assert_eq!(by_snapshot, by_fields);
}

#[test]
fn zero_size_position_has_zero_value() {
    // Flat position against a consistent curve: nothing to close, value 0,
    // PnL equal to the recorded cost basis by the Remove-side sign rule.
    let result = _calculate_base_asset_value_and_pnl(0, 5, &million_curve(), &unit_config());
    assert_eq!(result, Ok((0, 5)));
}

#[test]
fn short_pnl_sign_follows_settlement_vs_basis() {
    // Closing a short of 100_000 adds to the base reserve: settlement value
    // 1_000_000 - floor(10^12 / 1_100_000) = 90_910. The PnL is positive
    // exactly when that value exceeds the cost basis.
    let losing = _calculate_base_asset_value_and_pnl(100_000, 100_000, &million_curve(), &unit_config());
    assert_eq!(losing, Ok((90_910, -9_090)));
    let winning = _calculate_base_asset_value_and_pnl(100_000, 50_000, &million_curve(), &unit_config());
    assert_eq!(winning, Ok((90_910, 40_910)));
}

#[test]
fn long_pnl_sign_follows_basis_vs_settlement() {
    // Closing the long realizes 111_111; the PnL is positive exactly when
    // the cost basis exceeds that.
    let winning = _calculate_base_asset_value_and_pnl(-100_000, 200_000, &million_curve(), &unit_config());
    assert_eq!(winning, Ok((111_111, 88_889)));
    let losing = _calculate_base_asset_value_and_pnl(-100_000, 100_000, &million_curve(), &unit_config());
    assert_eq!(losing, Ok((111_111, -11_111)));
}

#[test]
fn precision_ratio_divides_only_the_pnl_pipeline() {
    // With a precision ratio of 100 the PnL pipeline scales the raw delta of
    // 111_111 down to 1_111 before pegging, while the quick-mark value
    // pipeline pegs the raw delta itself: two intentionally distinct
    // semantics.
    let config = PrecisionConfig {
        asset_amount_precision_ratio: 100,
        mark_price_mantissa: MANTISSA,
    };
    let curve = million_curve();
    let with_pnl = _calculate_base_asset_value_and_pnl(-100_000, 0, &curve, &config);
    assert_eq!(with_pnl, Ok((1_111, -1_111)));
    let value_only = calculate_base_asset_value(
        -100_000,
        curve.base_reserve,
        curve.quote_reserve,
        curve.sqrt_k,
        curve.peg_multiplier,
        &config,
    );
    assert_eq!(value_only, Ok(111_111));
}

#[test]
fn peg_multiplier_rescales_the_settlement_value() {
    // Doubling the peg multiplier against the same mantissa doubles the
    // settlement value: 111_111 * 2 * MANTISSA / MANTISSA.
    let curve = CurveSnapshot {
        peg_multiplier: 2 * MANTISSA,
        ..million_curve()
    };
    let result = _calculate_base_asset_value_and_pnl(-100_000, 0, &curve, &unit_config());
    assert_eq!(result, Ok((222_222, -222_222)));
}

#[test]
fn near_max_sqrt_k_overflows() {
    // A sqrt_k near the 128-bit maximum makes k = sqrt_k^2 overflow: the
    // whole valuation is declined, never wrapped.
    let curve = CurveSnapshot {
        base_reserve: u128::MAX,
        quote_reserve: u128::MAX,
        sqrt_k: u128::MAX,
        peg_multiplier: MANTISSA,
    };
    let result = _calculate_base_asset_value_and_pnl(1, 0, &curve, &unit_config());
    assert_eq!(result, Err(MathError::ArithmeticOverflow));
}

#[test]
fn near_max_peg_multiplier_overflows() {
    // The peg multiply of the settlement step overflows on a near-max
    // multiplier.
    let curve = CurveSnapshot {
        peg_multiplier: u128::MAX,
        ..million_curve()
    };
    let result = _calculate_base_asset_value_and_pnl(-100_000, 0, &curve, &unit_config());
    assert_eq!(result, Err(MathError::ArithmeticOverflow));
}

#[test]
fn settlement_value_beyond_i128_overflows_in_pnl() {
    // A settlement value above i128::MAX cannot enter the signed PnL
    // subtraction: the PnL pipeline declines where the value-only pipeline
    // still succeeds.
    let curve = CurveSnapshot {
        base_reserve: 2,
        quote_reserve: 1,
        sqrt_k: u64::MAX as u128,
        peg_multiplier: 1,
    };
    let config = PrecisionConfig {
        asset_amount_precision_ratio: 1,
        mark_price_mantissa: 1,
    };
    let result = _calculate_base_asset_value_and_pnl(-1, 0, &curve, &config);
    assert_eq!(result, Err(MathError::ArithmeticOverflow));
    let value_only = calculate_base_asset_value(-1, 2, 1, u64::MAX as u128, 1, &config);
    let k = (u64::MAX as u128) * (u64::MAX as u128);
    assert_eq!(value_only, Ok(k - 1));
}

#[test]
fn cost_basis_beyond_i128_overflows_in_pnl() {
    let result =
        _calculate_base_asset_value_and_pnl(-100_000, u128::MAX, &million_curve(), &unit_config());
    assert_eq!(result, Err(MathError::ArithmeticOverflow));
}

#[test]
fn oversized_close_underflows_the_base_reserve() {
    // A long larger than the whole base reserve cannot be closed: the
    // Remove subtraction underflows.
    let result =
        _calculate_base_asset_value_and_pnl(-2_000_000, 0, &million_curve(), &unit_config());
    assert_eq!(result, Err(MathError::ArithmeticUnderflow));
}

#[test]
fn inconsistent_snapshot_is_invalid_invariant() {
    // A quote reserve far above the invariant makes the Add-side delta
    // negative: the snapshot is inconsistent and the close is declined.
    let curve = CurveSnapshot {
        base_reserve: 1_000,
        quote_reserve: 1,
        sqrt_k: 1_000,
        peg_multiplier: MANTISSA,
    };
    let result = _calculate_base_asset_value_and_pnl(100, 0, &curve, &unit_config());
    assert_eq!(result, Err(MathError::InvalidInvariant));
}

#[test]
fn zero_precision_ratio_is_division_by_zero() {
    let config = PrecisionConfig {
        asset_amount_precision_ratio: 0,
        mark_price_mantissa: MANTISSA,
    };
    let result = _calculate_base_asset_value_and_pnl(-100_000, 0, &million_curve(), &config);
    assert_eq!(result, Err(MathError::DivisionByZero));
}

#[test]
fn zero_mantissa_is_division_by_zero() {
    let config = PrecisionConfig {
        asset_amount_precision_ratio: 1,
        mark_price_mantissa: 0,
    };
    let result = _calculate_base_asset_value_and_pnl(-100_000, 0, &million_curve(), &config);
    assert_eq!(result, Err(MathError::DivisionByZero));
}
