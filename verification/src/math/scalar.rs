//! What a matrix needs of its elements: a zero, and three operations that
//! are functions of their operands.

use vstd::prelude::*;

verus! {

/// An element type for matrices.
///
/// Each operation is a function of its operands alone, named by a
/// specification function, and addition does not depend on the order of its
/// operands. Nothing else is asked: addition need not be associative, and
/// subtraction need not undo it, so that rounding arithmetic qualifies.
pub trait Scalar: Copy + Sized {
    /// The additive zero.
    spec fn zero_value() -> Self;

    /// The sum of `self` and `rhs`.
    spec fn sum(self, rhs: Self) -> Self;

    /// `self` less `rhs`.
    spec fn difference(self, rhs: Self) -> Self;

    /// The product of `self` and `rhs`.
    spec fn product(self, rhs: Self) -> Self;

    /// Addition is commutative.
    proof fn sum_commutes(a: Self, b: Self)
        ensures
            a.sum(b) == b.sum(a),
    ;

    /// Returns the additive zero.
    fn zero() -> (z: Self)
        ensures
            z == Self::zero_value(),
    ;

    /// Adds `rhs` to `self`.
    fn add(self, rhs: Self) -> (r: Self)
        ensures
            r == self.sum(rhs),
    ;

    /// Takes `rhs` from `self`.
    fn sub(self, rhs: Self) -> (r: Self)
        ensures
            r == self.difference(rhs),
    ;

    /// Multiplies `self` by `rhs`.
    fn mul(self, rhs: Self) -> (r: Self)
        ensures
            r == self.product(rhs),
    ;
}

/// 64-bit integers under wrapping arithmetic.
impl Scalar for i64 {
    open spec fn zero_value() -> i64 {
        0
    }

    open spec fn sum(self, rhs: i64) -> i64 {
        self.wrapping_add(rhs)
    }

    open spec fn difference(self, rhs: i64) -> i64 {
        self.wrapping_sub(rhs)
    }

    open spec fn product(self, rhs: i64) -> i64 {
        self.wrapping_mul(rhs)
    }

    proof fn sum_commutes(a: i64, b: i64) {
    }

    fn zero() -> (z: i64) {
        0
    }

    fn add(self, rhs: i64) -> (r: i64) {
        self.wrapping_add(rhs)
    }

    fn sub(self, rhs: i64) -> (r: i64) {
        self.wrapping_sub(rhs)
    }

    fn mul(self, rhs: i64) -> (r: i64) {
        self.wrapping_mul(rhs)
    }
}

} // verus!
