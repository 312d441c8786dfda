//! A scalar that needs no floating point: numbers in steps of 2^-32.

use crate::scalar::{
    exact_difference, exact_int, exact_negation, exact_product, exact_quotient, exact_root,
    exact_sum, Measured, Scalar,
};
use vstd::prelude::*;

verus! {

/// The number of steps in one: 2^32.
pub const STEPS: i64 = 0x1_0000_0000;

/// The absolute value of `n`.
pub open spec fn magnitude(n: int) -> int {
    if n < 0 {
        -n
    } else {
        n
    }
}

/// The quotient of `n` by `d`, rounded toward zero.
pub open spec fn div_toward_zero(n: int, d: int) -> int
    recommends
        d != 0,
{
    let q = magnitude(n) / magnitude(d);
    if (n < 0) == (d < 0) {
        q
    } else {
        -q
    }
}

/// `r` is the square root of `n`, rounded down.
pub open spec fn is_floor_sqrt(r: int, n: int) -> bool {
    0 <= r && r * r <= n < (r + 1) * (r + 1)
}

/// The square root of `n`, rounded down.
pub open spec fn floor_sqrt(n: int) -> int
    recommends
        n >= 0,
{
    choose|r: int| is_floor_sqrt(r, n)
}

/// `x` as a count of steps, if it is small enough to be one.
pub open spec fn checked(x: int) -> Option<i64> {
    if i64::MIN <= x <= i64::MAX {
        Some(x as i64)
    } else {
        None
    }
}

/// Only one number is the square root of `n`, rounded down.
pub proof fn floor_sqrt_is_unique(r: int, n: int)
    requires
        is_floor_sqrt(r, n),
    ensures
        floor_sqrt(n) == r,
{
    let c = floor_sqrt(n);
    assert(is_floor_sqrt(c, n));
    if c < r {
        assert((c + 1) * (c + 1) <= r * r) by (nonlinear_arith)
            requires
                0 <= c + 1 <= r,
        ;
    }
    if r < c {
        assert((r + 1) * (r + 1) <= c * c) by (nonlinear_arith)
            requires
                0 <= r + 1 <= c,
        ;
    }
}

/// A number that is a whole count of steps of 2^-32, between -2^31 and 2^31,
/// or no number at all. An operation whose result is too large, a division
/// by zero and the square root of a negative number give no number, and so
/// does every operation on no number. Products and quotients are rounded
/// toward zero, square roots down.
#[derive(Clone, Copy, Debug)]
pub struct Fixed {
    pub raw: Option<i64>,
}

/// The absolute value of `a`.
fn magnitude_of(a: i64) -> (r: u128)
    ensures
        r == magnitude(a as int),
        r <= 0x8000_0000_0000_0000u128,
{
    if a < 0 {
        (-(a as i128)) as u128
    } else {
        a as u128
    }
}

/// `q`, or minus `q` if `negative`, as a count of steps.
fn with_sign(negative: bool, q: u128) -> (r: Option<i64>)
    ensures
        r == checked(
            if negative {
                -(q as int)
            } else {
                q as int
            },
        ),
{
    if negative {
        if q <= 0x8000_0000_0000_0000u128 {
            Some((-(q as i128)) as i64)
        } else {
            None
        }
    } else {
        if q <= 0x7fff_ffff_ffff_ffffu128 {
            Some(q as i64)
        } else {
            None
        }
    }
}

/// The square root of `n`, rounded down.
fn sqrt_floor(n: u128) -> (r: u64)
    requires
        n < 0x8000_0000_0000_0000_0000_0000u128,
    ensures
        r == floor_sqrt(n as int),
        r < 0x1_0000_0000_0000u64,
{
    let mut low: u64 = 0;
    let mut high: u64 = 0x1_0000_0000_0000;
    while high - low > 1
        invariant
            low < high <= 0x1_0000_0000_0000u64,
            low * low <= n < high * high,
        decreases high - low,
    {
        let middle: u64 = low + (high - low) / 2;
        assert(middle * middle < 0x1_0000_0000_0000int * 0x1_0000_0000_0000int)
            by (nonlinear_arith)
            requires
                0 <= middle < 0x1_0000_0000_0000int,
        ;
        if (middle as u128) * (middle as u128) <= n {
            low = middle;
        } else {
            high = middle;
        }
    }
    proof {
        floor_sqrt_is_unique(low as int, n as int);
    }
    low
}

impl Fixed {
    /// The product of step counts `a` and `b`: `a * b / STEPS`, rounded
    /// toward zero.
    pub open spec fn raw_product(a: i64, b: i64) -> Option<i64> {
        checked(div_toward_zero(a * b, 4294967296))
    }

    /// The quotient of step counts `a` by `b`: `a * STEPS / b`, rounded
    /// toward zero.
    pub open spec fn raw_quotient(a: i64, b: i64) -> Option<i64> {
        if b == 0 {
            None
        } else {
            checked(div_toward_zero(a * 4294967296, b as int))
        }
    }

    /// The square root of a step count `a`: the square root of `a * STEPS`,
    /// rounded down.
    pub open spec fn raw_root(a: i64) -> Option<i64> {
        if a < 0 {
            None
        } else {
            Some(floor_sqrt(a * 4294967296) as i64)
        }
    }
}

impl Measured for Fixed {
    /// The count of steps over 2^32, and zero for no number.
    open spec fn value(self) -> real {
        match self.raw {
            Some(a) => a as real / 4294967296real,
            None => 0real,
        }
    }
}

impl Scalar for Fixed {
    open spec fn of_int(n: i32) -> Self {
        Fixed { raw: Some((n * 4294967296) as i64) }
    }

    open spec fn negation(self) -> Self {
        Fixed {
            raw: match self.raw {
                Some(a) => checked(-a),
                None => None,
            },
        }
    }

    open spec fn sum(self, rhs: Self) -> Self {
        Fixed {
            raw: match (self.raw, rhs.raw) {
                (Some(a), Some(b)) => checked(a + b),
                _ => None,
            },
        }
    }

    open spec fn difference(self, rhs: Self) -> Self {
        Fixed {
            raw: match (self.raw, rhs.raw) {
                (Some(a), Some(b)) => checked(a - b),
                _ => None,
            },
        }
    }

    open spec fn product(self, rhs: Self) -> Self {
        Fixed {
            raw: match (self.raw, rhs.raw) {
                (Some(a), Some(b)) => Self::raw_product(a, b),
                _ => None,
            },
        }
    }

    open spec fn quotient(self, rhs: Self) -> Self {
        Fixed {
            raw: match (self.raw, rhs.raw) {
                (Some(a), Some(b)) => Self::raw_quotient(a, b),
                _ => None,
            },
        }
    }

    open spec fn root(self) -> Self {
        Fixed {
            raw: match self.raw {
                Some(a) => Self::raw_root(a),
                None => None,
            },
        }
    }

    fn from_int(n: i32) -> (r: Self) {
        Fixed { raw: Some((n as i64) * STEPS) }
    }

    fn neg(self) -> (r: Self) {
        match self.raw {
            Some(a) => {
                if a == i64::MIN {
                    Fixed { raw: None }
                } else {
                    Fixed { raw: Some(-a) }
                }
            },
            None => Fixed { raw: None },
        }
    }

    fn add(self, rhs: Self) -> (r: Self) {
        match (self.raw, rhs.raw) {
            (Some(a), Some(b)) => Fixed { raw: a.checked_add(b) },
            _ => Fixed { raw: None },
        }
    }

    fn sub(self, rhs: Self) -> (r: Self) {
        match (self.raw, rhs.raw) {
            (Some(a), Some(b)) => Fixed { raw: a.checked_sub(b) },
            _ => Fixed { raw: None },
        }
    }

    fn mul(self, rhs: Self) -> (r: Self) {
        match (self.raw, rhs.raw) {
            (Some(a), Some(b)) => {
                let x = magnitude_of(a);
                let y = magnitude_of(b);
                assert(x * y == magnitude(a * b) && x * y <= 0x8000_0000_0000_0000int
                    * 0x8000_0000_0000_0000int) by (nonlinear_arith)
                    requires
                        x == magnitude(a as int),
                        y == magnitude(b as int),
                        x <= 0x8000_0000_0000_0000int,
                        y <= 0x8000_0000_0000_0000int,
                ;
                assert((a * b < 0) == ((a < 0) != (b < 0) && a != 0 && b != 0))
                    by (nonlinear_arith);
                assert((a == 0 || b == 0) ==> a * b == 0) by (nonlinear_arith);
                let q = x * y / (STEPS as u128);
                Fixed { raw: with_sign((a < 0) != (b < 0) && q != 0, q) }
            },
            _ => Fixed { raw: None },
        }
    }

    fn div(self, rhs: Self) -> (r: Self) {
        match (self.raw, rhs.raw) {
            (Some(a), Some(b)) => {
                if b == 0 {
                    Fixed { raw: None }
                } else {
                    let x = magnitude_of(a);
                    let y = magnitude_of(b);
                    assert(STEPS as u128 == 0x1_0000_0000u128);
                    let q = x * (STEPS as u128) / y;
                    Fixed { raw: with_sign((a < 0) != (b < 0) && q != 0, q) }
                }
            },
            _ => Fixed { raw: None },
        }
    }

    fn sqrt(self) -> (r: Self) {
        match self.raw {
            Some(a) => {
                if a < 0 {
                    Fixed { raw: None }
                } else {
                    Fixed { raw: Some(sqrt_floor((a as u128) * (STEPS as u128)) as i64) }
                }
            },
            None => Fixed { raw: None },
        }
    }
}

/// The real number for a product of whole numbers is the product of theirs.
proof fn real_of_product(a: int, b: int)
    ensures
        (a * b) as real == (a as real) * (b as real),
{
    assert((a * b) as real == (a as real) * (b as real)) by (nonlinear_arith);
}

impl Fixed {
    /// A whole number is stood for exactly.
    pub proof fn int_is_exact(n: i32)
        ensures
            exact_int::<Fixed>(n),
    {
    }

    /// A negation that is a number is exact.
    pub proof fn negation_is_exact(a: Fixed)
        requires
            a.negation().raw is Some,
        ensures
            exact_negation(a),
    {
    }

    /// A sum that is a number is exact.
    pub proof fn sum_is_exact(a: Fixed, b: Fixed)
        requires
            a.sum(b).raw is Some,
        ensures
            exact_sum(a, b),
    {
    }

    /// A difference that is a number is exact.
    pub proof fn difference_is_exact(a: Fixed, b: Fixed)
        requires
            a.difference(b).raw is Some,
        ensures
            exact_difference(a, b),
    {
    }

    /// A product that is a number is exact if the product of the step counts
    /// is a whole number of times 2^32.
    pub proof fn product_is_exact(a: Fixed, b: Fixed)
        requires
            a.raw is Some,
            b.raw is Some,
            (a.raw->0 * b.raw->0) % 4294967296 == 0,
            a.product(b).raw is Some,
        ensures
            exact_product(a, b),
    {
        let x = a.raw->0 as int;
        let y = b.raw->0 as int;
        let q = a.product(b).raw->0 as int;
        let n = x * y;
        assert(magnitude(n) % 4294967296 == 0);
        assert(q == div_toward_zero(n, 4294967296));
        assert(q * 4294967296 == n);
        real_of_product(x, y);
        let xr = x as real;
        let yr = y as real;
        let qr = q as real;
        assert(qr / 4294967296real == (xr / 4294967296real) * (yr / 4294967296real))
            by (nonlinear_arith)
            requires
                qr * 4294967296real == xr * yr,
        ;
    }

    /// A quotient that is a number is exact if the divisor goes into 2^32
    /// times the step count of the dividend without remainder.
    pub proof fn quotient_is_exact(a: Fixed, b: Fixed)
        requires
            a.raw is Some,
            b.raw is Some,
            b.raw->0 != 0,
            (a.raw->0 * 4294967296) % (b.raw->0 as int) == 0,
            a.quotient(b).raw is Some,
        ensures
            exact_quotient(a, b),
    {
        let x = a.raw->0 as int;
        let y = b.raw->0 as int;
        let q = a.quotient(b).raw->0 as int;
        let n = x * 4294967296;
        assert(q == div_toward_zero(n, y));
        assert(q * y == n) by (nonlinear_arith)
            requires
                y != 0,
                n % y == 0,
                q == div_toward_zero(n, y),
        ;
        real_of_product(q, y);
        let xr = x as real;
        let yr = y as real;
        let qr = q as real;
        assert((qr / 4294967296real) * (yr / 4294967296real) == xr / 4294967296real)
            by (nonlinear_arith)
            requires
                qr * yr == xr * 4294967296real,
        ;
    }

    /// The square root is exact if 2^32 times the step count is the square of
    /// a whole number `r`, and is then `r` steps.
    pub proof fn root_is_exact(a: Fixed, r: int)
        requires
            a.raw is Some,
            0 <= r,
            r * r == a.raw->0 * 4294967296,
        ensures
            a.root().raw == Some(r as i64),
            exact_root(a),
    {
        let x = a.raw->0 as int;
        assert(x >= 0) by (nonlinear_arith)
            requires
                r * r == x * 4294967296,
        ;
        assert(is_floor_sqrt(r, x * 4294967296)) by (nonlinear_arith)
            requires
                0 <= r,
                r * r == x * 4294967296,
        ;
        floor_sqrt_is_unique(r, x * 4294967296);
        assert(r < 0x1_0000_0000_0000) by (nonlinear_arith)
            requires
                0 <= r,
                r * r == x * 4294967296,
                x <= 0x7fff_ffff_ffff_ffff,
        ;
        real_of_product(r, r);
        let xr = x as real;
        let rr = r as real;
        assert((rr / 4294967296real) * (rr / 4294967296real) == xr / 4294967296real)
            by (nonlinear_arith)
            requires
                rr * rr == xr * 4294967296real,
        ;
    }
}

} // verus!
