//! Identities of real arithmetic, spelled out one step at a time.
//!
//! The solver treats a product of two unknown reals as an opaque term. The
//! laws of the kernel are polynomial identities, so their proofs name each
//! rearrangement they need from this list.

use vstd::prelude::*;

verus! {

/// `a * b == b * a`.
pub proof fn mul_commutes(a: real, b: real)
    ensures
        a * b == b * a,
{
    assert(a * b == b * a) by (nonlinear_arith);
}

/// `(a * b) * c == a * (b * c)`.
pub proof fn mul_associates(a: real, b: real, c: real)
    ensures
        (a * b) * c == a * (b * c),
{
    assert((a * b) * c == a * (b * c)) by (nonlinear_arith);
}

/// `a * (b * c) == b * (a * c)`.
pub proof fn mul_swaps(a: real, b: real, c: real)
    ensures
        a * (b * c) == b * (a * c),
{
    assert(a * (b * c) == b * (a * c)) by (nonlinear_arith);
}

/// `a * (b + c) == a * b + a * c`, and the same from the right.
pub proof fn mul_distributes(a: real, b: real, c: real)
    ensures
        a * (b + c) == a * b + a * c,
        (b + c) * a == b * a + c * a,
{
    assert(a * (b + c) == a * b + a * c) by (nonlinear_arith);
    assert((b + c) * a == b * a + c * a) by (nonlinear_arith);
}

/// `a * (b - c) == a * b - a * c`, and the same from the right.
pub proof fn mul_distributes_sub(a: real, b: real, c: real)
    ensures
        a * (b - c) == a * b - a * c,
        (b - c) * a == b * a - c * a,
{
    assert(a * (b - c) == a * b - a * c) by (nonlinear_arith);
    assert((b - c) * a == b * a - c * a) by (nonlinear_arith);
}

/// A product does not change when a factor is replaced by its equal.
pub proof fn mul_by_equal(a: real, b: real, c: real)
    requires
        b == c,
    ensures
        a * b == a * c,
{
}

/// `(-a) * b == -(a * b)`.
pub proof fn mul_negates(a: real, b: real)
    ensures
        (-a) * b == -(a * b),
{
    assert((-a) * b == -(a * b)) by (nonlinear_arith);
}

/// `(a * b) * (a * b) == (a * a) * (b * b)`.
pub proof fn mul_squares(a: real, b: real)
    ensures
        (a * b) * (a * b) == (a * a) * (b * b),
{
    assert((a * b) * (a * b) == (a * a) * (b * b)) by (nonlinear_arith);
}

/// A number that is not negative and whose square is at least one is at least
/// one, and is one only if its square is.
pub proof fn root_is_at_least_one(a: real)
    requires
        a >= 0real,
        a * a >= 1real,
    ensures
        a >= 1real,
        a == 1real <==> a * a == 1real,
{
    assert(a >= 1real) by (nonlinear_arith)
        requires
            a >= 0real,
            a * a >= 1real,
    ;
    assert(a == 1real <==> a * a == 1real) by (nonlinear_arith)
        requires
            a >= 1real,
    ;
}

/// A product is zero only if a factor is.
pub proof fn product_is_zero(a: real, b: real)
    ensures
        a * b == 0real <==> a == 0real || b == 0real,
{
    assert(a * b == 0real <==> a == 0real || b == 0real) by (nonlinear_arith);
}

/// `(a * b) * (c * d) == (a * d) * (c * b)`.
pub proof fn mul_crosses(a: real, b: real, c: real, d: real)
    ensures
        (a * b) * (c * d) == (a * d) * (c * b),
{
    let ab = a * b;
    let ad = a * d;
    // (a * b) * (c * d) == c * ((a * b) * d) == c * (a * (b * d))
    mul_swaps(ab, c, d);
    mul_associates(a, b, d);
    // (a * d) * (c * b) == c * ((a * d) * b) == c * (a * (d * b))
    mul_swaps(ad, c, b);
    mul_associates(a, d, b);
    mul_commutes(b, d);
}

/// `(a + b) * (a + b) == a * a + 2 * (a * b) + b * b`.
pub proof fn square_of_sum(a: real, b: real)
    ensures
        (a + b) * (a + b) == a * a + 2real * (a * b) + b * b,
{
    assert((a + b) * (a + b) == a * a + 2real * (a * b) + b * b) by (nonlinear_arith);
}

/// `(a - b) * (a - b) == a * a - 2 * (a * b) + b * b`.
pub proof fn square_of_difference(a: real, b: real)
    ensures
        (a - b) * (a - b) == a * a - 2real * (a * b) + b * b,
{
    assert((a - b) * (a - b) == a * a - 2real * (a * b) + b * b) by (nonlinear_arith);
}

/// `(a + b + c)` squared is the sum of the three squares and of twice the
/// three products.
pub proof fn square_of_three(a: real, b: real, c: real)
    ensures
        (a + b + c) * (a + b + c) == a * a + b * b + c * c + 2real * (a * b) + 2real * (a * c)
            + 2real * (b * c),
{
    let ab = a + b;
    square_of_sum(ab, c);
    square_of_sum(a, b);
    mul_distributes(c, a, b);
}

/// `(a + b + c) * d == a * d + b * d + c * d`.
pub proof fn mul_distributes_three(a: real, b: real, c: real, d: real)
    ensures
        (a + b + c) * d == a * d + b * d + c * d,
{
    mul_distributes(d, a + b, c);
    mul_distributes(d, a, b);
}

/// A product of two numbers that are not negative is not negative.
pub proof fn mul_is_nonnegative(a: real, b: real)
    requires
        a >= 0real,
        b >= 0real,
    ensures
        a * b >= 0real,
{
    assert(a * b >= 0real) by (nonlinear_arith)
        requires
            a >= 0real,
            b >= 0real,
    ;
}

/// A square is not negative, and is zero only for zero.
pub proof fn square_is_nonnegative(a: real)
    ensures
        a * a >= 0real,
        a * a == 0real <==> a == 0real,
{
    assert(a * a >= 0real) by (nonlinear_arith);
    assert(a * a == 0real <==> a == 0real) by (nonlinear_arith);
}

/// A factor that is not zero can be cancelled.
pub proof fn mul_cancels(a: real, b: real, c: real)
    requires
        c != 0real,
        a * c == b * c,
    ensures
        a == b,
{
    assert(a == b) by (nonlinear_arith)
        requires
            c != 0real,
            a * c == b * c,
    ;
}

/// Two numbers that are not negative and have the same square are equal.
pub proof fn squares_decide(a: real, b: real)
    requires
        a >= 0real,
        b >= 0real,
        a * a == b * b,
    ensures
        a == b,
{
    assert(a == b) by (nonlinear_arith)
        requires
            a >= 0real,
            b >= 0real,
            a * a == b * b,
    ;
}

} // verus!
