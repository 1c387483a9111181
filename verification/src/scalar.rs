//! The abstract arithmetic that the whole library is written over.

use vstd::prelude::*;

verus! {

/// A field-like scalar with the elementary functions the frame solver and
/// the optimizers need.
///
/// The library never fixes which arithmetic this is: consumers implement the
/// trait (typically on a thin wrapper around an IEEE double, with `atan2`,
/// `sin` and `cos` taken from a math library) and every algorithm here is
/// verified for any implementation. No law is assumed about the operations:
/// rounding, overflow to infinity and NaN behaviour stay whatever the
/// implementation makes them, so no contract in this crate claims anything
/// about the numeric value of a computed result. Comparisons return plain
/// `bool`s and may order the operands however the implementation does; a
/// partial order (as on doubles, where a NaN compares false to everything)
/// is acceptable everywhere.
pub trait Scalar: Sized + Copy {
    /// The additive identity of the implementation.
    fn zero() -> Self;

    /// The multiplicative identity of the implementation.
    fn one() -> Self;

    /// The scalar standing for the integer `v`.
    fn from_i64(v: i64) -> Self;

    /// The scalar standing for the integer `v`.
    fn from_usize(v: usize) -> Self;

    /// The quotient `num / den`, for spelling non-integer constants.
    fn ratio(num: i64, den: i64) -> Self;

    /// Addition.
    fn plus(self, other: Self) -> Self;

    /// Subtraction, `self - other`.
    fn minus(self, other: Self) -> Self;

    /// Multiplication.
    fn times(self, other: Self) -> Self;

    /// Division, `self / other`; must be total (a division by zero may
    /// answer with whatever the arithmetic uses for it, but may not panic).
    fn over(self, other: Self) -> Self;

    /// Additive inverse.
    fn neg(self) -> Self;

    /// Absolute value.
    fn abs(self) -> Self;

    /// Square root; must be total.
    fn sqrt(self) -> Self;

    /// Sine, argument in radians.
    fn sin(self) -> Self;

    /// Cosine, argument in radians.
    fn cos(self) -> Self;

    /// The angle of the vector `(other, self)`, i.e. `atan2(self, other)`
    /// with `self` the ordinate and `other` the abscissa.
    fn atan2(self, other: Self) -> Self;

    /// Strict comparison, `self < other`.
    fn lt(self, other: Self) -> bool;

    /// Non-strict comparison, `self <= other`.
    fn le(self, other: Self) -> bool;

    /// Value equality as the arithmetic sees it, `self == other`.
    fn eq_val(self, other: Self) -> bool;

    /// The index this scalar selects, rounding down; saturating at the
    /// bounds of `usize`, never panicking.
    fn floor_to_usize(self) -> usize;
}

} // verus!
