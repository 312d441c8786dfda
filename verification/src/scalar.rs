//! The number type that the kernel computes with.

use vstd::prelude::*;

verus! {

/// A number type with negation, the four arithmetic operations and a square
/// root.
///
/// Each operation is a function of its operands: the same operands give the
/// same result. Nothing else is asked of it, so an implementation may round,
/// saturate or hand on a sentinel for an undefined result.
///
/// The first seven functions name the results of the seven operations, so
/// that the contracts of the kernel can say which composition of operations
/// a function returns. In a compiled program they are never called; an
/// implementation that is not verified gives each the body of the operation
/// that it names.
pub trait Scalar: Sized + Copy {
    /// The scalar that `from_int` gives for `n`.
    spec fn of_int(n: i32) -> Self;

    /// The scalar that `neg` gives.
    spec fn negation(self) -> Self;

    /// The scalar that `add` gives.
    spec fn sum(self, rhs: Self) -> Self;

    /// The scalar that `sub` gives.
    spec fn difference(self, rhs: Self) -> Self;

    /// The scalar that `mul` gives.
    spec fn product(self, rhs: Self) -> Self;

    /// The scalar that `div` gives.
    spec fn quotient(self, rhs: Self) -> Self;

    /// The scalar that `sqrt` gives.
    spec fn root(self) -> Self;

    /// The scalar for a whole number.
    fn from_int(n: i32) -> (r: Self)
        ensures
            r == Self::of_int(n),
    ;

    /// `-self`.
    fn neg(self) -> (r: Self)
        ensures
            r == self.negation(),
    ;

    /// `self + rhs`.
    fn add(self, rhs: Self) -> (r: Self)
        ensures
            r == self.sum(rhs),
    ;

    /// `self - rhs`.
    fn sub(self, rhs: Self) -> (r: Self)
        ensures
            r == self.difference(rhs),
    ;

    /// `self * rhs`.
    fn mul(self, rhs: Self) -> (r: Self)
        ensures
            r == self.product(rhs),
    ;

    /// `self / rhs`.
    fn div(self, rhs: Self) -> (r: Self)
        ensures
            r == self.quotient(rhs),
    ;

    /// The square root of `self`.
    fn sqrt(self) -> (r: Self)
        ensures
            r == self.root(),
    ;
}

/// A scalar that stands for a real number.
///
/// An operation is *exact* on given operands when the value of its result is
/// the real result on the values of the operands.
pub trait Measured: Scalar {
    /// The real number that this scalar stands for.
    spec fn value(self) -> real;
}

/// The scalar for `n` stands for `n`.
pub open spec fn exact_int<S: Measured>(n: i32) -> bool {
    S::of_int(n).value() == n as real
}

/// Negating `a` does not round.
pub open spec fn exact_negation<S: Measured>(a: S) -> bool {
    a.negation().value() == -a.value()
}

/// Adding `b` to `a` does not round.
pub open spec fn exact_sum<S: Measured>(a: S, b: S) -> bool {
    a.sum(b).value() == a.value() + b.value()
}

/// Subtracting `b` from `a` does not round.
pub open spec fn exact_difference<S: Measured>(a: S, b: S) -> bool {
    a.difference(b).value() == a.value() - b.value()
}

/// Multiplying `a` by `b` does not round.
pub open spec fn exact_product<S: Measured>(a: S, b: S) -> bool {
    a.product(b).value() == a.value() * b.value()
}

/// `b` is not zero, and dividing `a` by it does not round.
pub open spec fn exact_quotient<S: Measured>(a: S, b: S) -> bool {
    &&& b.value() != 0real
    &&& a.quotient(b).value() * b.value() == a.value()
}

/// `a` is not negative, and its square root is the exact, non-negative one.
pub open spec fn exact_root<S: Measured>(a: S) -> bool {
    &&& a.root().value() >= 0real
    &&& a.root().value() * a.root().value() == a.value()
}

} // verus!
