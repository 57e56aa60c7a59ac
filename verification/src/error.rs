//! The arithmetic-error taxonomy shared by every fallible entry point.

use vstd::prelude::*;

verus! {

/// Why a valuation step was declined. Every checked arithmetic step returns
/// the first failure it meets; no entry point ever panics or wraps.
#[derive(Clone, Copy, Debug, PartialEq, Eq, Structural)]
pub enum MathError {
    /// An intermediate product or sum exceeded the 128-bit range, or a value
    /// did not fit the signed range needed for PnL.
    ArithmeticOverflow,
    /// A checked subtraction of reserve magnitudes would have gone below zero.
    ArithmeticUnderflow,
    /// A degenerate curve: zero `sqrt_k`, a post-trade base reserve of zero,
    /// or a quote delta whose sign contradicts the trade direction (which
    /// signals a snapshot that does not satisfy the curve invariant).
    InvalidInvariant,
    /// A configured precision divisor was zero.
    DivisionByZero,
}

} // verus!
