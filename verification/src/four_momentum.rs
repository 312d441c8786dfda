//! Relativistic energy and momentum.

use crate::reals::{
    mul_associates, mul_commutes, mul_distributes, mul_distributes_sub, mul_negates, mul_squares,
    product_is_zero, root_is_at_least_one, square_is_nonnegative, squares_decide,
};
use crate::scalar::{
    exact_difference, exact_int, exact_negation, exact_product, exact_quotient, exact_root,
    exact_sum, Measured, Scalar,
};
use crate::real_vector::RealVector;
use crate::three_vector::ThreeVector;
use vstd::prelude::*;

verus! {

/// The energy and the three components of the momentum of a particle.
#[derive(Clone, Copy, Debug)]
pub struct FourMomentum<S>(pub S, pub S, pub S, pub S);

impl<S: Scalar> FourMomentum<S> {
    /// The momentum: the last three components.
    pub open spec fn spatial(self) -> ThreeVector<S> {
        ThreeVector(self.1, self.2, self.3)
    }

    /// The component-wise sum.
    pub open spec fn spec_add(self, b: Self) -> Self {
        FourMomentum(self.0.sum(b.0), self.1.sum(b.1), self.2.sum(b.2), self.3.sum(b.3))
    }

    /// The component-wise difference.
    pub open spec fn spec_sub(self, b: Self) -> Self {
        FourMomentum(
            self.0.difference(b.0),
            self.1.difference(b.1),
            self.2.difference(b.2),
            self.3.difference(b.3),
        )
    }

    /// Each component multiplied by `k`.
    pub open spec fn spec_mul(self, k: S) -> Self {
        FourMomentum(self.0.product(k), self.1.product(k), self.2.product(k), self.3.product(k))
    }

    /// Each component divided by `k`.
    pub open spec fn spec_div(self, k: S) -> Self {
        FourMomentum(
            self.0.quotient(k),
            self.1.quotient(k),
            self.2.quotient(k),
            self.3.quotient(k),
        )
    }

    /// The Lorentz factor of a particle that moves at velocity `v`:
    /// one over the square root of `1 - v.v`.
    pub open spec fn spec_gamma_of_velocity(v: ThreeVector<S>) -> S {
        S::of_int(1).quotient(S::of_int(1).difference(v.spec_squared()).root())
    }

    /// The momentum of a particle of rest mass `mass` that moves at velocity
    /// `v`: the four-vector `(1, v)` times the product of the Lorentz factor
    /// and the mass.
    pub open spec fn spec_from_mass_and_velocity(mass: S, v: ThreeVector<S>) -> Self {
        FourMomentum(S::of_int(1), v.0, v.1, v.2).spec_mul(
            Self::spec_gamma_of_velocity(v).product(mass),
        )
    }

    /// The Lorentz factor of a particle with proper velocity `u`: the square
    /// root of `1 + u.u`.
    pub open spec fn spec_gamma_of_gamma_beta(u: ThreeVector<S>) -> S {
        S::of_int(1).sum(u.spec_squared()).root()
    }

    /// The momentum of a particle of rest mass `mass` with proper velocity
    /// `u`: the four-vector `(gamma, u)` times the mass.
    pub open spec fn spec_from_mass_and_gamma_beta(mass: S, u: ThreeVector<S>) -> Self {
        FourMomentum(Self::spec_gamma_of_gamma_beta(u), u.0, u.1, u.2).spec_mul(mass)
    }

    /// The Minkowski inner product with signature `(-, +, +, +)`, summed from
    /// the energy on.
    pub open spec fn spec_contract(self, b: Self) -> S {
        self.0.negation().product(b.0).sum(self.1.product(b.1)).sum(self.2.product(b.2)).sum(
            self.3.product(b.3),
        )
    }

    /// The rest mass: the square root of minus the contraction with itself.
    pub open spec fn spec_rest_mass(self) -> S {
        self.spec_contract(self).negation().root()
    }

    /// The proper velocity: the momentum over the rest mass.
    pub open spec fn spec_gamma_beta_vector(self) -> ThreeVector<S> {
        self.spatial().spec_div(self.spec_rest_mass())
    }

    /// The Lorentz factor: the square root of one plus the squared length of
    /// the proper velocity.
    pub open spec fn spec_lorentz_factor(self) -> S {
        let u = self.spec_gamma_beta_vector().spec_norm();
        S::of_int(1).sum(u.product(u)).root()
    }

    /// The velocity: the proper velocity over the Lorentz factor.
    pub open spec fn spec_velocity_vector(self) -> ThreeVector<S> {
        self.spec_gamma_beta_vector().spec_div(self.spec_lorentz_factor())
    }
}

impl<S: Measured> FourMomentum<S> {
    /// The Minkowski inner product of the real four-vectors that `self` and
    /// `b` stand for.
    pub open spec fn real_contract(self, b: Self) -> real {
        -(self.0.value() * b.0.value()) + self.1.value() * b.1.value() + self.2.value()
            * b.2.value() + self.3.value() * b.3.value()
    }

    /// No operation of `spec_mul` rounds.
    pub open spec fn exact_mul(self, k: S) -> bool {
        &&& exact_product(self.0, k)
        &&& exact_product(self.1, k)
        &&& exact_product(self.2, k)
        &&& exact_product(self.3, k)
    }

    /// No operation of `spec_contract` rounds.
    pub open spec fn exact_contract(self, b: Self) -> bool {
        let t0 = self.0.negation().product(b.0);
        let t1 = self.1.product(b.1);
        let t2 = self.2.product(b.2);
        let t3 = self.3.product(b.3);
        &&& exact_negation(self.0)
        &&& exact_product(self.0.negation(), b.0)
        &&& exact_product(self.1, b.1)
        &&& exact_product(self.2, b.2)
        &&& exact_product(self.3, b.3)
        &&& exact_sum(t0, t1)
        &&& exact_sum(t0.sum(t1), t2)
        &&& exact_sum(t0.sum(t1).sum(t2), t3)
    }

    /// The momentum is not spacelike, and no operation of `spec_rest_mass`
    /// rounds.
    pub open spec fn exact_rest_mass(self) -> bool {
        &&& self.exact_contract(self)
        &&& exact_negation(self.spec_contract(self))
        &&& exact_root(self.spec_contract(self).negation())
    }

    /// The rest mass is not zero, and no operation of
    /// `spec_gamma_beta_vector` rounds.
    pub open spec fn exact_gamma_beta_vector(self) -> bool {
        &&& self.exact_rest_mass()
        &&& self.spatial().exact_div(self.spec_rest_mass())
    }

    /// The rest mass is not zero, and no operation of `spec_lorentz_factor`
    /// rounds.
    pub open spec fn exact_lorentz_factor(self) -> bool {
        let u = self.spec_gamma_beta_vector().spec_norm();
        &&& self.exact_gamma_beta_vector()
        &&& self.spec_gamma_beta_vector().exact_norm()
        &&& exact_product(u, u)
        &&& exact_int::<S>(1)
        &&& exact_sum(S::of_int(1), u.product(u))
        &&& exact_root(S::of_int(1).sum(u.product(u)))
    }

    /// The rest mass is not zero, and no operation of `spec_velocity_vector`
    /// rounds.
    pub open spec fn exact_velocity_vector(self) -> bool {
        &&& self.exact_lorentz_factor()
        &&& self.spec_gamma_beta_vector().exact_div(self.spec_lorentz_factor())
    }

    /// `v` is slower than light, and no operation of
    /// `spec_from_mass_and_velocity` rounds.
    pub open spec fn exact_from_mass_and_velocity(mass: S, v: ThreeVector<S>) -> bool {
        let one = S::of_int(1);
        let below = one.difference(v.spec_squared());
        let gamma = Self::spec_gamma_of_velocity(v);
        &&& exact_int::<S>(1)
        &&& v.exact_dot(v)
        &&& exact_difference(one, v.spec_squared())
        &&& exact_root(below)
        &&& exact_quotient(one, below.root())
        &&& exact_product(gamma, mass)
        &&& FourMomentum(one, v.0, v.1, v.2).exact_mul(gamma.product(mass))
    }

    /// No operation of `spec_from_mass_and_gamma_beta` rounds.
    pub open spec fn exact_from_mass_and_gamma_beta(mass: S, u: ThreeVector<S>) -> bool {
        let one = S::of_int(1);
        &&& exact_int::<S>(1)
        &&& u.exact_dot(u)
        &&& exact_sum(one, u.spec_squared())
        &&& exact_root(one.sum(u.spec_squared()))
        &&& FourMomentum(Self::spec_gamma_of_gamma_beta(u), u.0, u.1, u.2).exact_mul(mass)
    }
}

impl<S: Scalar> FourMomentum<S> {
    /// The momentum of a particle of rest mass `mass` that moves at velocity
    /// `v`, in units of the speed of light.
    pub fn from_mass_and_velocity(mass: S, v: ThreeVector<S>) -> (r: Self)
        ensures
            r == Self::spec_from_mass_and_velocity(mass, v),
    {
        let one = S::from_int(1);
        let gamma = one.div(one.sub(v.squared()).sqrt());
        FourMomentum(one, v.0, v.1, v.2).mul(gamma.mul(mass))
    }

    /// The Minkowski inner product of `self` and `b`.
    pub fn contract(&self, b: &FourMomentum<S>) -> (r: S)
        ensures
            r == self.spec_contract(*b),
    {
        self.0.neg().mul(b.0).add(self.1.mul(b.1)).add(self.2.mul(b.2)).add(self.3.mul(b.3))
    }

    /// The rest mass of the particle.
    pub fn rest_mass(&self) -> (r: S)
        ensures
            r == self.spec_rest_mass(),
    {
        self.contract(self).neg().sqrt()
    }

    /// The Lorentz factor of the particle.
    pub fn lorentz_factor(&self) -> (r: S)
        ensures
            r == self.spec_lorentz_factor(),
    {
        let u = self.gamma_beta_vector().norm();
        S::from_int(1).add(u.mul(u)).sqrt()
    }

    /// The proper velocity of the particle: its velocity times its Lorentz
    /// factor.
    pub fn gamma_beta_vector(&self) -> (r: ThreeVector<S>)
        ensures
            r == self.spec_gamma_beta_vector(),
    {
        ThreeVector(self.1, self.2, self.3).div(self.rest_mass())
    }

    /// The velocity of the particle, in units of the speed of light.
    pub fn velocity_vector(&self) -> (r: ThreeVector<S>)
        ensures
            r == self.spec_velocity_vector(),
    {
        self.gamma_beta_vector().div(self.lorentz_factor())
    }

    /// The sum of `self` and `b`.
    pub fn add(self, b: FourMomentum<S>) -> (r: Self)
        ensures
            r == self.spec_add(b),
    {
        FourMomentum(self.0.add(b.0), self.1.add(b.1), self.2.add(b.2), self.3.add(b.3))
    }

    /// The difference of `self` and `b`.
    pub fn sub(self, b: FourMomentum<S>) -> (r: Self)
        ensures
            r == self.spec_sub(b),
    {
        FourMomentum(self.0.sub(b.0), self.1.sub(b.1), self.2.sub(b.2), self.3.sub(b.3))
    }

    /// `self` with each component multiplied by `k`.
    pub fn mul(self, k: S) -> (r: Self)
        ensures
            r == self.spec_mul(k),
    {
        FourMomentum(self.0.mul(k), self.1.mul(k), self.2.mul(k), self.3.mul(k))
    }

    /// `self` with each component divided by `k`.
    pub fn div(self, k: S) -> (r: Self)
        ensures
            r == self.spec_div(k),
    {
        FourMomentum(self.0.div(k), self.1.div(k), self.2.div(k), self.3.div(k))
    }
}

impl<S: Measured> FourMomentum<S> {
    /// Where nothing rounds, the contraction stands for the Minkowski inner
    /// product of the real four-vectors.
    pub proof fn contract_is_real(self, b: Self)
        requires
            self.exact_contract(b),
        ensures
            self.spec_contract(b).value() == self.real_contract(b),
    {
        mul_negates(self.0.value(), b.0.value());
    }

    /// Where nothing rounds, the rest mass is the non-negative number whose
    /// square is minus the real contraction of the momentum with itself.
    pub proof fn rest_mass_is_real(self)
        requires
            self.exact_rest_mass(),
        ensures
            self.spec_rest_mass().value() >= 0real,
            self.spec_rest_mass().value() * self.spec_rest_mass().value() == -self.real_contract(
                self,
            ),
    {
        self.contract_is_real(self);
    }

    /// Where nothing rounds, the Lorentz factor is the non-negative number
    /// whose square is one plus the squared length of the real proper
    /// velocity.
    pub proof fn lorentz_factor_is_real(self)
        requires
            self.exact_lorentz_factor(),
        ensures
            self.spec_lorentz_factor().value() >= 0real,
            self.spec_lorentz_factor().value() * self.spec_lorentz_factor().value() == 1real
                + self.spec_gamma_beta_vector()@.squared(),
    {
        self.spec_gamma_beta_vector().norm_is_real();
    }

    /// Where nothing rounds, a momentum `(g, u) * m` has as minus its real
    /// contraction with itself `(g * g - u.u) * (m * m)`.
    proof fn contract_of_multiple(g: S, u: ThreeVector<S>, m: S)
        requires
            FourMomentum(g, u.0, u.1, u.2).exact_mul(m),
        ensures
            -FourMomentum(g, u.0, u.1, u.2).spec_mul(m).real_contract(
                FourMomentum(g, u.0, u.1, u.2).spec_mul(m),
            ) == (g.value() * g.value() - u@.squared()) * (m.value() * m.value()),
    {
        let gv = g.value();
        let mv = m.value();
        let mm = mv * mv;
        mul_squares(gv, mv);
        mul_squares(u.0.value(), mv);
        mul_squares(u.1.value(), mv);
        mul_squares(u.2.value(), mv);
        let sx = u.0.value() * u.0.value();
        let sy = u.1.value() * u.1.value();
        let sz = u.2.value() * u.2.value();
        mul_distributes(mm, sx, sy);
        mul_distributes(mm, sx + sy, sz);
        mul_distributes_sub(mm, gv * gv, sx + sy + sz);
    }

    /// Where nothing rounds, the momentum made from a positive rest mass and
    /// a velocity slower than light has that rest mass.
    pub proof fn rest_mass_of_mass_and_velocity(mass: S, v: ThreeVector<S>)
        requires
            mass.value() > 0real,
            v@.squared() < 1real,
            Self::exact_from_mass_and_velocity(mass, v),
            Self::spec_from_mass_and_velocity(mass, v).exact_rest_mass(),
        ensures
            Self::spec_from_mass_and_velocity(mass, v).spec_rest_mass().value() == mass.value(),
    {
        let p = Self::spec_from_mass_and_velocity(mass, v);
        let one = S::of_int(1);
        let m = mass.value();
        let s = v@.squared();
        let r = one.difference(v.spec_squared()).root().value();
        let g = Self::spec_gamma_of_velocity(v).value();
        let k = Self::spec_gamma_of_velocity(v).product(mass).value();
        let rest = p.spec_rest_mass().value();
        v.dot_is_real(v);
        assert(r * r == 1real - s);
        assert(g * r == 1real);
        assert(k == g * m);
        p.rest_mass_is_real();
        Self::contract_of_multiple(one, v, Self::spec_gamma_of_velocity(v).product(mass));
        assert(rest * rest == (1real - s) * (k * k));
        // (r * r) * (k * k) == (r * k) * (r * k), and r * k == m.
        mul_squares(r, k);
        mul_associates(r, g, m);
        mul_commutes(r, g);
        assert((r * g) * m == m) by (nonlinear_arith)
            requires
                r * g == 1real,
        ;
        assert(r * k == m);
        assert(rest * rest == m * m);
        squares_decide(rest, m);
    }

    /// Where nothing rounds, the momentum made from a rest mass that is not
    /// negative and a proper velocity has that rest mass.
    pub proof fn rest_mass_of_mass_and_gamma_beta(mass: S, u: ThreeVector<S>)
        requires
            mass.value() >= 0real,
            Self::exact_from_mass_and_gamma_beta(mass, u),
            Self::spec_from_mass_and_gamma_beta(mass, u).exact_rest_mass(),
        ensures
            Self::spec_from_mass_and_gamma_beta(mass, u).spec_rest_mass().value() == mass.value(),
    {
        let p = Self::spec_from_mass_and_gamma_beta(mass, u);
        let m = mass.value();
        let g = Self::spec_gamma_of_gamma_beta(u);
        let rest = p.spec_rest_mass().value();
        u.dot_is_real(u);
        assert(g.value() * g.value() == 1real + u@.squared());
        p.rest_mass_is_real();
        Self::contract_of_multiple(g, u, mass);
        assert(rest * rest == 1real * (m * m));
        squares_decide(rest, m);
    }

    /// Where nothing rounds, the Lorentz factor of a momentum with a positive
    /// rest mass is at least one, and is one only for a particle at rest.
    pub proof fn lorentz_factor_is_at_least_one(self)
        requires
            self.spec_rest_mass().value() > 0real,
            self.exact_lorentz_factor(),
        ensures
            self.spec_lorentz_factor().value() >= 1real,
            self.spec_lorentz_factor().value() == 1real <==> self.spatial()@ == RealVector::zero(),
    {
        let m = self.spec_rest_mass().value();
        let w = self.spec_gamma_beta_vector();
        let u = w.spec_norm().value();
        let gamma = self.spec_lorentz_factor().value();
        w.norm_is_real();
        square_is_nonnegative(u);
        assert(gamma * gamma == 1real + u * u);
        root_is_at_least_one(gamma);
        // u * u is the sum of the squares of the components of w.
        square_is_nonnegative(w.0.value());
        square_is_nonnegative(w.1.value());
        square_is_nonnegative(w.2.value());
        assert(u * u == 0real <==> w.0.value() == 0real && w.1.value() == 0real && w.2.value()
            == 0real);
        // Each component of w, times the rest mass, is a component of the momentum.
        product_is_zero(w.0.value(), m);
        product_is_zero(w.1.value(), m);
        product_is_zero(w.2.value(), m);
    }
}

} // verus!
