//! Vectors of three real numbers: what a `ThreeVector` stands for.

use crate::reals::{
    mul_associates, mul_commutes, mul_crosses, mul_distributes, mul_distributes_sub,
    mul_cancels, mul_distributes_three, mul_squares, mul_swaps, product_is_zero,
    square_is_nonnegative, square_of_difference, square_of_sum, square_of_three,
};
use vstd::prelude::*;

verus! {

/// A vector of three real numbers.
pub struct RealVector {
    pub x: real,
    pub y: real,
    pub z: real,
}

impl RealVector {
    /// The vector whose components are zero.
    pub open spec fn zero() -> RealVector {
        RealVector { x: 0real, y: 0real, z: 0real }
    }

    /// The sum of two vectors.
    pub open spec fn plus(self, b: RealVector) -> RealVector {
        RealVector { x: self.x + b.x, y: self.y + b.y, z: self.z + b.z }
    }

    /// The difference of two vectors.
    pub open spec fn minus(self, b: RealVector) -> RealVector {
        RealVector { x: self.x - b.x, y: self.y - b.y, z: self.z - b.z }
    }

    /// The vector stretched by `k`.
    pub open spec fn scaled(self, k: real) -> RealVector {
        RealVector { x: self.x * k, y: self.y * k, z: self.z * k }
    }

    /// The inner product.
    pub open spec fn dot(self, b: RealVector) -> real {
        self.x * b.x + self.y * b.y + self.z * b.z
    }

    /// The right-handed cross product.
    pub open spec fn cross(self, b: RealVector) -> RealVector {
        RealVector {
            x: self.y * b.z - self.z * b.y,
            y: self.z * b.x - self.x * b.z,
            z: self.x * b.y - self.y * b.x,
        }
    }

    /// The squared length.
    pub open spec fn squared(self) -> real {
        self.dot(self)
    }

    /// The inner product does not depend on the order of its operands.
    pub proof fn dot_is_symmetric(self, b: RealVector)
        ensures
            self.dot(b) == b.dot(self),
    {
        mul_commutes(self.x, b.x);
        mul_commutes(self.y, b.y);
        mul_commutes(self.z, b.z);
    }

    /// Swapping the operands of a cross product negates it.
    pub proof fn cross_is_antisymmetric(self, b: RealVector)
        ensures
            self.cross(b) == b.cross(self).scaled(-1real),
    {
        mul_commutes(self.y, b.z);
        mul_commutes(self.z, b.y);
        mul_commutes(self.z, b.x);
        mul_commutes(self.x, b.z);
        mul_commutes(self.x, b.y);
        mul_commutes(self.y, b.x);
    }

    /// A vector is orthogonal to its cross product with any other.
    pub proof fn cross_is_orthogonal(self, b: RealVector)
        ensures
            self.dot(self.cross(b)) == 0real,
            b.dot(self.cross(b)) == 0real,
    {
        mul_distributes_sub(self.x, self.y * b.z, self.z * b.y);
        mul_distributes_sub(self.y, self.z * b.x, self.x * b.z);
        mul_distributes_sub(self.z, self.x * b.y, self.y * b.x);
        mul_swaps(self.x, self.y, b.z);
        mul_swaps(self.x, self.z, b.y);
        mul_swaps(self.y, self.z, b.x);
        mul_distributes_sub(b.x, self.y * b.z, self.z * b.y);
        mul_distributes_sub(b.y, self.z * b.x, self.x * b.z);
        mul_distributes_sub(b.z, self.x * b.y, self.y * b.x);
        mul_swaps(b.x, self.y, b.z);
        mul_swaps(b.x, self.z, b.y);
        mul_swaps(b.y, self.z, b.x);
        mul_swaps(b.y, self.x, b.z);
        mul_swaps(b.z, self.x, b.y);
        mul_swaps(b.z, self.y, b.x);
        mul_commutes(b.y, b.z);
        mul_commutes(b.x, b.z);
        mul_commutes(b.x, b.y);
    }

    /// The zero vector, stretched, is the zero vector.
    pub proof fn zero_scales(k: real)
        ensures
            Self::zero().scaled(k) == Self::zero(),
    {
        product_is_zero(0real, k);
    }

    /// The cross product with the zero vector is the zero vector.
    pub proof fn cross_with_zero(self)
        ensures
            self.cross(Self::zero()) == Self::zero(),
    {
        product_is_zero(self.x, 0real);
        product_is_zero(self.y, 0real);
        product_is_zero(self.z, 0real);
    }

    /// A factor that is not zero can be cancelled.
    pub proof fn scaled_cancels(self, b: RealVector, k: real)
        requires
            k != 0real,
            self.scaled(k) == b.scaled(k),
        ensures
            self == b,
    {
        mul_cancels(self.x, b.x, k);
        mul_cancels(self.y, b.y, k);
        mul_cancels(self.z, b.z, k);
    }

    /// The inner product distributes over a sum, on either side.
    pub proof fn dot_distributes(self, b: RealVector, c: RealVector)
        ensures
            self.plus(b).dot(c) == self.dot(c) + b.dot(c),
            c.dot(self.plus(b)) == c.dot(self) + c.dot(b),
    {
        mul_distributes(c.x, self.x, b.x);
        mul_distributes(c.y, self.y, b.y);
        mul_distributes(c.z, self.z, b.z);
    }

    /// The inner product with a stretched vector is the stretched inner
    /// product.
    pub proof fn dot_scales(self, b: RealVector, k: real)
        ensures
            self.dot(b.scaled(k)) == self.dot(b) * k,
    {
        mul_associates(self.x, b.x, k);
        mul_associates(self.y, b.y, k);
        mul_associates(self.z, b.z, k);
        mul_distributes_three(self.x * b.x, self.y * b.y, self.z * b.z, k);
    }

    /// The squared length of a stretched vector is the squared length times
    /// the square of the factor.
    pub proof fn squared_scales(self, k: real)
        ensures
            self.scaled(k).squared() == self.squared() * (k * k),
    {
        mul_squares(self.x, k);
        mul_squares(self.y, k);
        mul_squares(self.z, k);
        mul_distributes_three(self.x * self.x, self.y * self.y, self.z * self.z, k * k);
    }

    /// The squared length of a sum.
    pub proof fn squared_of_sum(self, b: RealVector)
        ensures
            self.plus(b).squared() == self.squared() + 2real * self.dot(b) + b.squared(),
    {
        square_of_sum(self.x, b.x);
        square_of_sum(self.y, b.y);
        square_of_sum(self.z, b.z);
    }

    /// The cross product distributes over a sum in its first operand.
    pub proof fn cross_distributes(self, b: RealVector, c: RealVector)
        ensures
            self.plus(b).cross(c) == self.cross(c).plus(b.cross(c)),
    {
        mul_distributes(c.x, self.y, b.y);
        mul_distributes(c.x, self.z, b.z);
        mul_distributes(c.y, self.x, b.x);
        mul_distributes(c.y, self.z, b.z);
        mul_distributes(c.z, self.x, b.x);
        mul_distributes(c.z, self.y, b.y);
    }

    /// The cross product with a stretched vector is the stretched cross
    /// product.
    pub proof fn cross_scales(self, b: RealVector, k: real)
        ensures
            self.cross(b.scaled(k)) == self.cross(b).scaled(k),
    {
        mul_associates(self.y, b.z, k);
        mul_associates(self.z, b.y, k);
        mul_associates(self.z, b.x, k);
        mul_associates(self.x, b.z, k);
        mul_associates(self.x, b.y, k);
        mul_associates(self.y, b.x, k);
        mul_distributes_sub(k, self.y * b.z, self.z * b.y);
        mul_distributes_sub(k, self.z * b.x, self.x * b.z);
        mul_distributes_sub(k, self.x * b.y, self.y * b.x);
    }

    /// Swapping the first two vectors of a triple product negates it.
    pub proof fn triple_product_swaps(self, b: RealVector, c: RealVector)
        ensures
            self.dot(b.cross(c)) == -b.dot(self.cross(c)),
    {
        mul_distributes_sub(self.x, b.y * c.z, b.z * c.y);
        mul_distributes_sub(self.y, b.z * c.x, b.x * c.z);
        mul_distributes_sub(self.z, b.x * c.y, b.y * c.x);
        mul_distributes_sub(b.x, self.y * c.z, self.z * c.y);
        mul_distributes_sub(b.y, self.z * c.x, self.x * c.z);
        mul_distributes_sub(b.z, self.x * c.y, self.y * c.x);
        mul_swaps(self.x, b.y, c.z);
        mul_swaps(self.x, b.z, c.y);
        mul_swaps(self.y, b.z, c.x);
        mul_swaps(self.y, b.x, c.z);
        mul_swaps(self.z, b.x, c.y);
        mul_swaps(self.z, b.y, c.x);
    }

    /// The squared length of a cross product is the product of the squared
    /// lengths less the square of the inner product.
    pub proof fn cross_squared(self, b: RealVector)
        ensures
            self.cross(b).squared() == self.squared() * b.squared() - self.dot(b) * self.dot(b),
    {
        let a = self;
        // The three squares of the cross product.
        square_of_difference(a.y * b.z, a.z * b.y);
        square_of_difference(a.z * b.x, a.x * b.z);
        square_of_difference(a.x * b.y, a.y * b.x);
        mul_crosses(a.y, b.z, a.z, b.y);
        mul_crosses(a.z, b.x, a.x, b.z);
        mul_crosses(a.x, b.y, a.y, b.x);
        mul_commutes(a.z * b.z, a.x * b.x);
        // The square of the inner product.
        square_of_three(a.x * b.x, a.y * b.y, a.z * b.z);
        // The product of the squared lengths, as nine squares.
        let ax = a.x * a.x;
        let ay = a.y * a.y;
        let az = a.z * a.z;
        let bx = b.x * b.x;
        let by = b.y * b.y;
        let bz = b.z * b.z;
        mul_distributes(ax + ay + az, bx + by, bz);
        mul_distributes(ax + ay + az, bx, by);
        mul_distributes_three(ax, ay, az, bx);
        mul_distributes_three(ax, ay, az, by);
        mul_distributes_three(ax, ay, az, bz);
        mul_squares(a.x, b.x);
        mul_squares(a.x, b.y);
        mul_squares(a.x, b.z);
        mul_squares(a.y, b.x);
        mul_squares(a.y, b.y);
        mul_squares(a.y, b.z);
        mul_squares(a.z, b.x);
        mul_squares(a.z, b.y);
        mul_squares(a.z, b.z);
    }

    /// The rotation of the Boris scheme keeps the length: with
    /// `s * (1 + t.t) == t * 2`, the vector `u + (u + u x t) x s` is as long
    /// as `u`.
    pub proof fn rotation_keeps_length(self, t: RealVector, s: RealVector)
        requires
            s.scaled(1real + t.squared()) == t.scaled(2real),
        ensures
            self.plus(self.plus(self.cross(t)).cross(s)).squared() == self.squared(),
    {
        let u = self;
        let d = 1real + t.squared();
        let w = u.cross(t);
        let up = u.plus(w);
        let c = up.cross(s);
        let e = up.cross(t);
        let x = w.cross(t);
        square_is_nonnegative(t.x);
        square_is_nonnegative(t.y);
        square_is_nonnegative(t.z);
        assert(d >= 1real);
        // c * d == e * 2
        up.cross_scales(s, d);
        up.cross_scales(t, 2real);
        assert(c.scaled(d) == e.scaled(2real));
        // e == w + w x t
        u.cross_distributes(w, t);
        assert(e == w.plus(x));
        // u.e == -(w.w)
        w.dot_distributes(x, u);
        u.cross_is_orthogonal(t);
        u.triple_product_swaps(w, t);
        assert(u.dot(e) == -w.squared());
        // e.e == (w.w) * d
        w.squared_of_sum(x);
        w.cross_is_orthogonal(t);
        w.cross_squared(t);
        w.dot_is_symmetric(t);
        square_is_nonnegative(w.dot(t));
        mul_distributes(w.squared(), 1real, t.squared());
        assert(e.squared() == w.squared() * d);
        // 2 u.c + c.c == 0, seen after multiplying by d * d
        u.dot_scales(c, d);
        u.dot_scales(e, 2real);
        c.squared_scales(d);
        e.squared_scales(2real);
        let a = u.dot(c);
        let cc = c.squared();
        let ww = w.squared();
        assert(a * d == -2real * ww);
        assert(cc * (d * d) == 4real * (ww * d));
        assert(2real * a + cc == 0real) by (nonlinear_arith)
            requires
                a * d == -2real * ww,
                cc * (d * d) == 4real * (ww * d),
                d >= 1real,
        ;
        u.squared_of_sum(c);
    }
}

} // verus!
