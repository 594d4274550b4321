//! Exact fractions and the errors of divisions by zero.
use vstd::prelude::*;

verus! {

/// An exact fraction `numer / denom`. Every fraction this library returns has a
/// non-zero denominator; it is not reduced, and its denominator may be negative.
#[derive(Debug, Clone, Copy, PartialEq, Eq, Structural)]
pub struct Ratio {
    pub numer: i128,
    pub denom: i128,
}

/// Why a derived figure has no value.
#[derive(Debug, Clone, Copy, PartialEq, Eq, Structural)]
pub enum DomainError {
    /// A per-unit figure was asked of a cost object with zero units.
    ZeroUnits,
    /// A ratio to the price was asked of a cost object whose price is zero.
    ZeroPrice,
    /// The selling price equals the variable cost, so nothing covers fixed costs.
    ZeroMargin,
    /// The contribution margin per unit is zero or negative, so no volume breaks even.
    NonPositiveMargin,
    /// An exact intermediate value does not fit in 128 bits.
    Overflow,
}

/// Whether an integer can be held in an `i128`.
pub open spec fn fits_i128(x: int) -> bool {
    i128::MIN <= x <= i128::MAX
}

} // verus!
