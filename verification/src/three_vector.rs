//! Vectors of three scalars.

use crate::real_vector::RealVector;
use crate::reals::{mul_cancels, square_is_nonnegative};
use crate::scalar::{
    exact_difference, exact_product, exact_quotient, exact_root, exact_sum, Measured, Scalar,
};
use vstd::prelude::*;

verus! {

/// A vector in space, or a proper velocity: three scalars.
#[derive(Clone, Copy, Debug)]
pub struct ThreeVector<S>(pub S, pub S, pub S);

impl<S: Measured> View for ThreeVector<S> {
    type V = RealVector;

    /// The real vector that the three components stand for.
    open spec fn view(&self) -> RealVector {
        RealVector { x: self.0.value(), y: self.1.value(), z: self.2.value() }
    }
}

impl<S: Scalar> ThreeVector<S> {
    /// The component-wise sum.
    pub open spec fn spec_add(self, b: Self) -> Self {
        ThreeVector(self.0.sum(b.0), self.1.sum(b.1), self.2.sum(b.2))
    }

    /// The component-wise difference.
    pub open spec fn spec_sub(self, b: Self) -> Self {
        ThreeVector(self.0.difference(b.0), self.1.difference(b.1), self.2.difference(b.2))
    }

    /// Each component multiplied by `k`.
    pub open spec fn spec_mul(self, k: S) -> Self {
        ThreeVector(self.0.product(k), self.1.product(k), self.2.product(k))
    }

    /// Each component divided by `k`.
    pub open spec fn spec_div(self, k: S) -> Self {
        ThreeVector(self.0.quotient(k), self.1.quotient(k), self.2.quotient(k))
    }

    /// The inner product, summed from the first component on.
    pub open spec fn spec_dot(self, b: Self) -> S {
        self.0.product(b.0).sum(self.1.product(b.1)).sum(self.2.product(b.2))
    }

    /// The right-handed cross product.
    pub open spec fn spec_cross(self, b: Self) -> Self {
        ThreeVector(
            self.1.product(b.2).difference(self.2.product(b.1)),
            self.2.product(b.0).difference(self.0.product(b.2)),
            self.0.product(b.1).difference(self.1.product(b.0)),
        )
    }

    /// The inner product of the vector with itself.
    pub open spec fn spec_squared(self) -> S {
        self.spec_dot(self)
    }

    /// The length: the square root of `spec_squared`.
    pub open spec fn spec_norm(self) -> S {
        self.spec_squared().root()
    }

    /// The cosine of the angle to `b`: the inner product over the product of
    /// the lengths.
    pub open spec fn spec_cosine(self, b: Self) -> S {
        self.spec_dot(b).quotient(self.spec_norm().product(b.spec_norm()))
    }

    /// The sine of the angle to `b`: the length of the cross product over the
    /// product of the lengths.
    pub open spec fn spec_sine(self, b: Self) -> S {
        self.spec_cross(b).spec_norm().quotient(self.spec_norm().product(b.spec_norm()))
    }
}

impl<S: Measured> ThreeVector<S> {
    /// No operation of `spec_add` rounds.
    pub open spec fn exact_add(self, b: Self) -> bool {
        &&& exact_sum(self.0, b.0)
        &&& exact_sum(self.1, b.1)
        &&& exact_sum(self.2, b.2)
    }

    /// No operation of `spec_sub` rounds.
    pub open spec fn exact_sub(self, b: Self) -> bool {
        &&& exact_difference(self.0, b.0)
        &&& exact_difference(self.1, b.1)
        &&& exact_difference(self.2, b.2)
    }

    /// No operation of `spec_mul` rounds.
    pub open spec fn exact_mul(self, k: S) -> bool {
        &&& exact_product(self.0, k)
        &&& exact_product(self.1, k)
        &&& exact_product(self.2, k)
    }

    /// `k` is not zero, and no operation of `spec_div` rounds.
    pub open spec fn exact_div(self, k: S) -> bool {
        &&& exact_quotient(self.0, k)
        &&& exact_quotient(self.1, k)
        &&& exact_quotient(self.2, k)
    }

    /// No operation of `spec_dot` rounds.
    pub open spec fn exact_dot(self, b: Self) -> bool {
        &&& exact_product(self.0, b.0)
        &&& exact_product(self.1, b.1)
        &&& exact_product(self.2, b.2)
        &&& exact_sum(self.0.product(b.0), self.1.product(b.1))
        &&& exact_sum(self.0.product(b.0).sum(self.1.product(b.1)), self.2.product(b.2))
    }

    /// No operation of `spec_cross` rounds.
    pub open spec fn exact_cross(self, b: Self) -> bool {
        &&& exact_product(self.1, b.2)
        &&& exact_product(self.2, b.1)
        &&& exact_product(self.2, b.0)
        &&& exact_product(self.0, b.2)
        &&& exact_product(self.0, b.1)
        &&& exact_product(self.1, b.0)
        &&& exact_difference(self.1.product(b.2), self.2.product(b.1))
        &&& exact_difference(self.2.product(b.0), self.0.product(b.2))
        &&& exact_difference(self.0.product(b.1), self.1.product(b.0))
    }

    /// No operation of `spec_norm` rounds.
    pub open spec fn exact_norm(self) -> bool {
        &&& self.exact_dot(self)
        &&& exact_root(self.spec_squared())
    }

    /// Neither length is zero, and no operation of `spec_cosine` rounds.
    pub open spec fn exact_cosine(self, b: Self) -> bool {
        &&& self.exact_dot(b)
        &&& self.exact_norm()
        &&& b.exact_norm()
        &&& exact_product(self.spec_norm(), b.spec_norm())
        &&& exact_quotient(self.spec_dot(b), self.spec_norm().product(b.spec_norm()))
    }
}

impl<S: Scalar> ThreeVector<S> {
    /// The right-handed cross product of `self` and `b`.
    pub fn cross(&self, b: &ThreeVector<S>) -> (r: Self)
        ensures
            r == self.spec_cross(*b),
    {
        ThreeVector(
            self.1.mul(b.2).sub(self.2.mul(b.1)),
            self.2.mul(b.0).sub(self.0.mul(b.2)),
            self.0.mul(b.1).sub(self.1.mul(b.0)),
        )
    }

    /// The inner product of `self` and `b`.
    pub fn dot(&self, b: &ThreeVector<S>) -> (r: S)
        ensures
            r == self.spec_dot(*b),
    {
        self.0.mul(b.0).add(self.1.mul(b.1)).add(self.2.mul(b.2))
    }

    /// The squared length of the vector: its inner product with itself.
    pub fn squared(&self) -> (r: S)
        ensures
            r == self.spec_squared(),
            r == self.spec_dot(*self),
    {
        self.dot(self)
    }

    /// The length of the vector.
    pub fn norm(&self) -> (r: S)
        ensures
            r == self.spec_norm(),
    {
        self.squared().sqrt()
    }

    /// The cosine of the angle between `self` and `b`.
    pub fn cosine(&self, b: &ThreeVector<S>) -> (r: S)
        ensures
            r == self.spec_cosine(*b),
    {
        self.dot(b).div(self.norm().mul(b.norm()))
    }

    /// The sine of the angle between `self` and `b`.
    pub fn sine(&self, b: &ThreeVector<S>) -> (r: S)
        ensures
            r == self.spec_sine(*b),
    {
        self.cross(b).norm().div(self.norm().mul(b.norm()))
    }

    /// The sum of `self` and `b`.
    pub fn add(self, b: ThreeVector<S>) -> (r: Self)
        ensures
            r == self.spec_add(b),
    {
        ThreeVector(self.0.add(b.0), self.1.add(b.1), self.2.add(b.2))
    }

    /// The difference of `self` and `b`.
    pub fn sub(self, b: ThreeVector<S>) -> (r: Self)
        ensures
            r == self.spec_sub(b),
    {
        ThreeVector(self.0.sub(b.0), self.1.sub(b.1), self.2.sub(b.2))
    }

    /// `self` with each component multiplied by `k`.
    pub fn mul(self, k: S) -> (r: Self)
        ensures
            r == self.spec_mul(k),
    {
        ThreeVector(self.0.mul(k), self.1.mul(k), self.2.mul(k))
    }

    /// `self` with each component divided by `k`.
    pub fn div(self, k: S) -> (r: Self)
        ensures
            r == self.spec_div(k),
    {
        ThreeVector(self.0.div(k), self.1.div(k), self.2.div(k))
    }
}

impl<S: Measured> ThreeVector<S> {
    /// Where nothing rounds, the sum stands for the sum of the real vectors.
    pub proof fn add_is_real(self, b: Self)
        requires
            self.exact_add(b),
        ensures
            self.spec_add(b)@ == self@.plus(b@),
    {
    }

    /// Where nothing rounds, the difference stands for the difference of the
    /// real vectors.
    pub proof fn sub_is_real(self, b: Self)
        requires
            self.exact_sub(b),
        ensures
            self.spec_sub(b)@ == self@.minus(b@),
    {
    }

    /// Where nothing rounds, the multiple stands for the multiple of the real
    /// vector.
    pub proof fn mul_is_real(self, k: S)
        requires
            self.exact_mul(k),
        ensures
            self.spec_mul(k)@ == self@.scaled(k.value()),
    {
    }

    /// Where nothing rounds, the quotient, multiplied by the divisor, stands
    /// for the real vector that was divided.
    pub proof fn div_is_real(self, k: S)
        requires
            self.exact_div(k),
        ensures
            k.value() != 0real,
            self.spec_div(k)@.scaled(k.value()) == self@,
    {
    }

    /// Where nothing rounds, the inner product stands for the inner product
    /// of the real vectors.
    pub proof fn dot_is_real(self, b: Self)
        requires
            self.exact_dot(b),
        ensures
            self.spec_dot(b).value() == self@.dot(b@),
    {
    }

    /// Where nothing rounds, the cross product stands for the cross product
    /// of the real vectors.
    pub proof fn cross_is_real(self, b: Self)
        requires
            self.exact_cross(b),
        ensures
            self.spec_cross(b)@ == self@.cross(b@),
    {
    }

    /// Where nothing rounds, the length is the non-negative number whose
    /// square is the squared length of the real vector.
    pub proof fn norm_is_real(self)
        requires
            self.exact_norm(),
        ensures
            self.spec_norm().value() >= 0real,
            self.spec_norm().value() * self.spec_norm().value() == self@.squared(),
    {
    }

    /// Where nothing rounds, the inner product is the same in either order.
    pub proof fn dot_is_symmetric(self, b: Self)
        requires
            self.exact_dot(b),
            b.exact_dot(self),
        ensures
            self.spec_dot(b).value() == b.spec_dot(self).value(),
    {
        self@.dot_is_symmetric(b@);
    }

    /// Where nothing rounds, swapping the operands negates the cross product.
    pub proof fn cross_is_antisymmetric(self, b: Self)
        requires
            self.exact_cross(b),
            b.exact_cross(self),
        ensures
            self.spec_cross(b)@ == b.spec_cross(self)@.scaled(-1real),
    {
        self@.cross_is_antisymmetric(b@);
    }

    /// Where nothing rounds, a vector is orthogonal to its cross product with
    /// any other.
    pub proof fn cross_is_orthogonal(self, b: Self)
        requires
            self.exact_cross(b),
            self.exact_dot(self.spec_cross(b)),
        ensures
            self.spec_dot(self.spec_cross(b)).value() == 0real,
    {
        self@.cross_is_orthogonal(b@);
    }

    /// Where nothing rounds, the cosine of the angle between a vector of
    /// positive length and itself is one.
    pub proof fn cosine_of_itself(self)
        requires
            self.exact_cosine(self),
            self.spec_norm().value() > 0real,
        ensures
            self.spec_cosine(self).value() == 1real,
    {
        let n = self.spec_norm().value();
        let c = self.spec_cosine(self).value();
        square_is_nonnegative(n);
        assert(c * (n * n) == 1real * (n * n));
        mul_cancels(c, 1real, n * n);
    }
}

} // verus!
