//! Pure classification of a signed position size into the trade direction
//! that closes it and the human-facing long/short label.

use vstd::prelude::*;

verus! {

/// Which way a hypothetical trade moves the base reserve.
#[derive(Clone, Copy, Debug, PartialEq, Eq, Structural)]
pub enum SwapDirection {
    /// The trade increases the base reserve.
    Add,
    /// The trade decreases the base reserve.
    Remove,
}

/// Human-facing label of a position, derived purely from the sign of its
/// base-asset amount.
#[derive(Clone, Copy, Debug, PartialEq, Eq, Structural)]
pub enum PositionDirection {
    Long,
    Short,
}

/// The direction of the swap that fully closes a position of the given
/// signed size: `Add` for a positive amount, `Remove` otherwise (zero counts
/// as `Remove` by convention).
pub open spec fn close_direction(base_asset_amount: i128) -> SwapDirection {
    if base_asset_amount > 0 {
        SwapDirection::Add
    } else {
        SwapDirection::Remove
    }
}

/// The long/short label of a position of the given signed size: `Short` for
/// a positive amount, `Long` otherwise (zero counts as `Long` by convention).
pub open spec fn position_direction(base_asset_amount: i128) -> PositionDirection {
    if base_asset_amount > 0 {
        PositionDirection::Short
    } else {
        PositionDirection::Long
    }
}

/// Long/short label of the position; total and pure.
pub fn direction_to_close_position(base_asset_amount: i128) -> (direction: PositionDirection)
    ensures
        direction == position_direction(base_asset_amount),
{
    if base_asset_amount > 0 {
        PositionDirection::Short
    } else {
        PositionDirection::Long
    }
}

/// Swap direction that closes the position; total and pure.
pub fn swap_direction_to_close_position(base_asset_amount: i128) -> (direction: SwapDirection)
    ensures
        direction == close_direction(base_asset_amount),
{
    if base_asset_amount > 0 {
        SwapDirection::Add
    } else {
        SwapDirection::Remove
    }
}

} // verus!
