//! A charged particle and the two schemes that move it through a field.

use crate::four_momentum::FourMomentum;
use crate::real_vector::RealVector;
use crate::reals::{
    mul_associates, mul_by_equal, mul_cancels, mul_distributes, mul_is_nonnegative, mul_squares,
    product_is_zero, square_is_nonnegative, squares_decide,
};
use crate::scalar::{exact_int, exact_root, exact_sum, Measured, Scalar};
use crate::three_vector::ThreeVector;
use vstd::prelude::*;

verus! {

/// The electric and the magnetic field at one place and time.
pub type Fields<S> = (ThreeVector<S>, ThreeVector<S>);

/// A step in position and a step in proper velocity.
pub type Increments<S> = (ThreeVector<S>, ThreeVector<S>);

/// A charged point particle: its charge, where it is, and its momentum.
#[derive(Clone, Copy, Debug)]
pub struct ChargedParticle<S> {
    pub charge: S,
    pub position: ThreeVector<S>,
    pub momentum: FourMomentum<S>,
}

impl<S: Scalar> ChargedParticle<S> {
    /// One half: one over two.
    pub open spec fn spec_half() -> S {
        S::of_int(1).quotient(S::of_int(2))
    }

    /// The charge over the rest mass.
    pub open spec fn spec_charge_over_mass(self) -> S {
        self.charge.quotient(self.momentum.spec_rest_mass())
    }

    /// The total energy: the rest mass times the Lorentz factor.
    pub open spec fn spec_total_energy(self) -> S {
        self.momentum.spec_rest_mass().product(self.momentum.spec_lorentz_factor())
    }

    /// The factor of the electric field in each of the two half kicks of a
    /// Boris step: half of charge over mass times `dt`.
    pub open spec fn spec_half_kick(self, dt: S) -> S {
        Self::spec_half().product(self.spec_charge_over_mass().product(dt))
    }

    /// The proper velocity after the first half kick.
    pub open spec fn spec_boris_kicked(self, electric: ThreeVector<S>, dt: S) -> ThreeVector<S> {
        self.momentum.spec_gamma_beta_vector().spec_add(electric.spec_mul(self.spec_half_kick(dt)))
    }

    /// The vector `t` that the proper velocity is turned about: the magnetic
    /// field times the half-kick factor over the Lorentz factor after the
    /// first half kick.
    pub open spec fn spec_boris_axis(
        self,
        electric: ThreeVector<S>,
        magnetic: ThreeVector<S>,
        dt: S,
    ) -> ThreeVector<S> {
        magnetic.spec_mul(
            self.spec_half_kick(dt).quotient(
                FourMomentum::spec_gamma_of_gamma_beta(self.spec_boris_kicked(electric, dt)),
            ),
        )
    }

    /// The magnetic rotation of a proper velocity `u` about `t`:
    /// with `s = t / (1 + t.t) * 2` and `u' = u + u x t`, it is `u + u' x s`.
    pub open spec fn spec_boris_rotate(u: ThreeVector<S>, t: ThreeVector<S>) -> ThreeVector<S> {
        let s = t.spec_div(S::of_int(1).sum(t.spec_squared())).spec_mul(S::of_int(2));
        let u_prime = u.spec_add(u.spec_cross(t));
        u.spec_add(u_prime.spec_cross(s))
    }

    /// The proper velocity after a Boris step: a half kick by the electric
    /// field, the magnetic rotation, and the second half kick.
    pub open spec fn spec_boris_gamma_beta(
        self,
        electric: ThreeVector<S>,
        magnetic: ThreeVector<S>,
        dt: S,
    ) -> ThreeVector<S> {
        Self::spec_boris_rotate(
            self.spec_boris_kicked(electric, dt),
            self.spec_boris_axis(electric, magnetic, dt),
        ).spec_add(electric.spec_mul(self.spec_half_kick(dt)))
    }

    /// The particle after a Boris step of length `dt` through fields that are
    /// constant over the step. With `u` the new proper velocity and `gamma`
    /// its Lorentz factor, the position moves by `u * dt / gamma` and the
    /// momentum is `(gamma, u)` times the rest mass.
    pub open spec fn spec_boris_push(
        self,
        electric: ThreeVector<S>,
        magnetic: ThreeVector<S>,
        dt: S,
    ) -> Self {
        let u = self.spec_boris_gamma_beta(electric, magnetic, dt);
        ChargedParticle {
            charge: self.charge,
            position: self.position.spec_add(
                u.spec_mul(dt).spec_div(FourMomentum::spec_gamma_of_gamma_beta(u)),
            ),
            momentum: FourMomentum::spec_from_mass_and_gamma_beta(
                self.momentum.spec_rest_mass(),
                u,
            ),
        }
    }

    /// The steps in position and in proper velocity that the equations of
    /// motion give over `dt` for a particle of proper velocity `u` in the
    /// given fields: with `v = u / sqrt(1 + u.u)`, they are `v * dt` and
    /// `(E + v x B) * charge_over_mass * dt`.
    pub open spec fn spec_increments(
        u: ThreeVector<S>,
        fields: Fields<S>,
        charge_over_mass: S,
        dt: S,
    ) -> Increments<S> {
        let v = u.spec_div(FourMomentum::spec_gamma_of_gamma_beta(u));
        (
            v.spec_mul(dt),
            fields.0.spec_add(v.spec_cross(fields.1)).spec_mul(charge_over_mass).spec_mul(dt),
        )
    }

    /// The position and proper velocity of the particle, moved by `weight`
    /// times the increments `k`.
    pub open spec fn spec_rk4_offset(self, k: Increments<S>, weight: S) -> (
        ThreeVector<S>,
        ThreeVector<S>,
    ) {
        (
            self.position.spec_add(k.0.spec_mul(weight)),
            self.momentum.spec_gamma_beta_vector().spec_add(k.1.spec_mul(weight)),
        )
    }

    /// The time in the middle of a step: `time + dt * half`.
    pub open spec fn spec_rk4_midtime(time: S, dt: S) -> S {
        time.sum(dt.product(Self::spec_half()))
    }

    /// The increments of the first stage, taken at the start of the step.
    pub open spec fn spec_rk4_first(self, f0: Fields<S>, dt: S) -> Increments<S> {
        Self::spec_increments(
            self.momentum.spec_gamma_beta_vector(),
            f0,
            self.spec_charge_over_mass(),
            dt,
        )
    }

    /// The increments of the second stage, taken half of the first
    /// increments on.
    pub open spec fn spec_rk4_second(self, f0: Fields<S>, f1: Fields<S>, dt: S) -> Increments<S> {
        Self::spec_increments(
            self.spec_rk4_offset(self.spec_rk4_first(f0, dt), Self::spec_half()).1,
            f1,
            self.spec_charge_over_mass(),
            dt,
        )
    }

    /// The increments of the third stage, taken half of the second
    /// increments on.
    pub open spec fn spec_rk4_third(
        self,
        f0: Fields<S>,
        f1: Fields<S>,
        f2: Fields<S>,
        dt: S,
    ) -> Increments<S> {
        Self::spec_increments(
            self.spec_rk4_offset(self.spec_rk4_second(f0, f1, dt), Self::spec_half()).1,
            f2,
            self.spec_charge_over_mass(),
            dt,
        )
    }

    /// The position and proper velocity at which the fourth stage is taken:
    /// the whole of the third increments on.
    pub open spec fn spec_rk4_end(self, f0: Fields<S>, f1: Fields<S>, f2: Fields<S>, dt: S) -> (
        ThreeVector<S>,
        ThreeVector<S>,
    ) {
        let k = self.spec_rk4_third(f0, f1, f2, dt);
        (self.position.spec_add(k.0), self.momentum.spec_gamma_beta_vector().spec_add(k.1))
    }

    /// The increments of the fourth stage.
    pub open spec fn spec_rk4_fourth(
        self,
        f0: Fields<S>,
        f1: Fields<S>,
        f2: Fields<S>,
        f3: Fields<S>,
        dt: S,
    ) -> Increments<S> {
        Self::spec_increments(
            self.spec_rk4_end(f0, f1, f2, dt).1,
            f3,
            self.spec_charge_over_mass(),
            dt,
        )
    }

    /// The weighted mean of four increments: `(a + b * 2 + c * 2 + d) / 6`.
    pub open spec fn spec_rk4_mean(
        a: ThreeVector<S>,
        b: ThreeVector<S>,
        c: ThreeVector<S>,
        d: ThreeVector<S>,
    ) -> ThreeVector<S> {
        a.spec_add(b.spec_mul(S::of_int(2))).spec_add(c.spec_mul(S::of_int(2))).spec_add(
            d,
        ).spec_div(S::of_int(6))
    }

    /// The proper velocity after a Runge-Kutta step in which the four stages
    /// met the fields `f0` to `f3`.
    pub open spec fn spec_rk4_gamma_beta(
        self,
        f0: Fields<S>,
        f1: Fields<S>,
        f2: Fields<S>,
        f3: Fields<S>,
        dt: S,
    ) -> ThreeVector<S> {
        self.momentum.spec_gamma_beta_vector().spec_add(
            Self::spec_rk4_mean(
                self.spec_rk4_first(f0, dt).1,
                self.spec_rk4_second(f0, f1, dt).1,
                self.spec_rk4_third(f0, f1, f2, dt).1,
                self.spec_rk4_fourth(f0, f1, f2, f3, dt).1,
            ),
        )
    }

    /// The particle after a Runge-Kutta step of length `dt` in which the four
    /// stages met the fields `f0` to `f3`: position and proper velocity move
    /// by the weighted mean of the four increments, and the momentum is made
    /// from the rest mass and the new proper velocity.
    pub open spec fn spec_rk4_push(
        self,
        f0: Fields<S>,
        f1: Fields<S>,
        f2: Fields<S>,
        f3: Fields<S>,
        dt: S,
    ) -> Self {
        ChargedParticle {
            charge: self.charge,
            position: self.position.spec_add(
                Self::spec_rk4_mean(
                    self.spec_rk4_first(f0, dt).0,
                    self.spec_rk4_second(f0, f1, dt).0,
                    self.spec_rk4_third(f0, f1, f2, dt).0,
                    self.spec_rk4_fourth(f0, f1, f2, f3, dt).0,
                ),
            ),
            momentum: FourMomentum::spec_from_mass_and_gamma_beta(
                self.momentum.spec_rest_mass(),
                self.spec_rk4_gamma_beta(f0, f1, f2, f3, dt),
            ),
        }
    }

    /// `f0` to `f3` are what `field` may return at the four stages of a
    /// Runge-Kutta step from `time` over `dt`: at the start; at mid-time,
    /// half of the first increments on; at mid-time, half of the second
    /// increments on; and at `time + dt`, the whole of the third increments
    /// on.
    pub open spec fn rk4_sampled<F: Fn(ThreeVector<S>, S) -> Fields<S>>(
        self,
        field: F,
        time: S,
        dt: S,
        f0: Fields<S>,
        f1: Fields<S>,
        f2: Fields<S>,
        f3: Fields<S>,
    ) -> bool {
        &&& field.ensures((self.position, time), f0)
        &&& field.ensures(
            (
                self.spec_rk4_offset(self.spec_rk4_first(f0, dt), Self::spec_half()).0,
                Self::spec_rk4_midtime(time, dt),
            ),
            f1,
        )
        &&& field.ensures(
            (
                self.spec_rk4_offset(self.spec_rk4_second(f0, f1, dt), Self::spec_half()).0,
                Self::spec_rk4_midtime(time, dt),
            ),
            f2,
        )
        &&& field.ensures((self.spec_rk4_end(f0, f1, f2, dt).0, time.sum(dt)), f3)
    }

    /// The total energy of the particle.
    pub fn total_energy(&self) -> (r: S)
        ensures
            r == self.spec_total_energy(),
    {
        let p = &self.momentum;
        p.rest_mass().mul(p.lorentz_factor())
    }

    /// Moves the particle forward by `dt` with the Boris scheme, through an
    /// electric and a magnetic field that are constant over the step.
    pub fn boris_push(&self, electric: ThreeVector<S>, magnetic: ThreeVector<S>, dt: S) -> (r:
        Self)
        ensures
            r == self.spec_boris_push(electric, magnetic, dt),
            r.charge == self.charge,
    {
        let one = S::from_int(1);
        let e = self.charge;
        let m = self.momentum.rest_mass();
        let half_h = one.div(S::from_int(2)).mul(e.div(m).mul(dt));

        let u_nmh = self.momentum.gamma_beta_vector();
        let u_minus = u_nmh.add(electric.mul(half_h));
        let gamma_n = one.add(u_minus.squared()).sqrt();
        let t = magnetic.mul(half_h.div(gamma_n));
        let s = t.div(one.add(t.squared())).mul(S::from_int(2));
        let u_prime = u_minus.add(u_minus.cross(&t));
        let u_plus = u_minus.add(u_prime.cross(&s));
        let u_nph = u_plus.add(electric.mul(half_h));
        let gamma_nph = one.add(u_nph.squared()).sqrt();
        let new_pos = self.position.add(u_nph.mul(dt).div(gamma_nph));
        let new_mom = FourMomentum(gamma_nph, u_nph.0, u_nph.1, u_nph.2).mul(m);

        ChargedParticle { charge: e, position: new_pos, momentum: new_mom }
    }

    /// The steps in position and in proper velocity over `dt` of a particle
    /// with proper velocity `u` in the given fields.
    pub fn increments(u: ThreeVector<S>, fields: Fields<S>, charge_over_mass: S, dt: S) -> (r:
        Increments<S>)
        ensures
            r == Self::spec_increments(u, fields, charge_over_mass, dt),
    {
        let v = u.div(S::from_int(1).add(u.squared()).sqrt());
        let dudt = fields.0.add(v.cross(&fields.1)).mul(charge_over_mass);
        (v.mul(dt), dudt.mul(dt))
    }

    /// Moves the particle forward from `time` by `dt` with the classic
    /// Runge-Kutta scheme of fourth order. `field` gives the electric and the
    /// magnetic field at a place and a time; it is asked once for each of the
    /// four stages.
    pub fn rk4_push<F>(&self, field: F, time: S, dt: S) -> (r: Self) where
        F: Fn(ThreeVector<S>, S) -> Fields<S>,

        requires
            forall|x: ThreeVector<S>, t: S| field.requires((x, t)),
        ensures
            r.charge == self.charge,
            exists|f0: Fields<S>, f1: Fields<S>, f2: Fields<S>, f3: Fields<S>|
                #[trigger] self.rk4_sampled(field, time, dt, f0, f1, f2, f3) && r
                    == self.spec_rk4_push(f0, f1, f2, f3, dt),
    {
        let e = self.charge;
        let m = self.momentum.rest_mass();
        let k = e.div(m);
        let half = S::from_int(1).div(S::from_int(2));
        let two = S::from_int(2);
        let mid = time.add(dt.mul(half));

        let x0 = self.position;
        let u0 = self.momentum.gamma_beta_vector();

        let f0 = field(x0, time);
        let (dx0, du0) = Self::increments(u0, f0, k, dt);

        let f1 = field(x0.add(dx0.mul(half)), mid);
        let (dx1, du1) = Self::increments(u0.add(du0.mul(half)), f1, k, dt);

        let f2 = field(x0.add(dx1.mul(half)), mid);
        let (dx2, du2) = Self::increments(u0.add(du1.mul(half)), f2, k, dt);

        let f3 = field(x0.add(dx2), time.add(dt));
        let (dx3, du3) = Self::increments(u0.add(du2), f3, k, dt);

        let six = S::from_int(6);
        let x = x0.add(dx0.add(dx1.mul(two)).add(dx2.mul(two)).add(dx3).div(six));
        let u = u0.add(du0.add(du1.mul(two)).add(du2.mul(two)).add(du3).div(six));
        let p = FourMomentum(S::from_int(1).add(u.squared()).sqrt(), u.0, u.1, u.2).mul(m);

        proof {
            assert(self.rk4_sampled(field, time, dt, f0, f1, f2, f3));
        }
        ChargedParticle { charge: e, position: x, momentum: p }
    }
}

impl<S: Measured> ChargedParticle<S> {
    /// No operation of `spec_boris_rotate` rounds.
    pub open spec fn exact_boris_rotate(u: ThreeVector<S>, t: ThreeVector<S>) -> bool {
        let below = S::of_int(1).sum(t.spec_squared());
        let s = t.spec_div(below).spec_mul(S::of_int(2));
        let u_prime = u.spec_add(u.spec_cross(t));
        &&& exact_int::<S>(1)
        &&& exact_int::<S>(2)
        &&& t.exact_dot(t)
        &&& exact_sum(S::of_int(1), t.spec_squared())
        &&& t.exact_div(below)
        &&& t.spec_div(below).exact_mul(S::of_int(2))
        &&& u.exact_cross(t)
        &&& u.exact_add(u.spec_cross(t))
        &&& u_prime.exact_cross(s)
        &&& u.exact_add(u_prime.spec_cross(s))
    }

    /// No operation that a Boris step makes on the proper velocity rounds:
    /// the two half kicks and the rotation between them.
    pub open spec fn exact_boris_kicks_and_rotation(
        self,
        electric: ThreeVector<S>,
        magnetic: ThreeVector<S>,
        dt: S,
    ) -> bool {
        let kick = electric.spec_mul(self.spec_half_kick(dt));
        let u_minus = self.spec_boris_kicked(electric, dt);
        let t = self.spec_boris_axis(electric, magnetic, dt);
        &&& electric.exact_mul(self.spec_half_kick(dt))
        &&& self.momentum.spec_gamma_beta_vector().exact_add(kick)
        &&& Self::exact_boris_rotate(u_minus, t)
        &&& Self::spec_boris_rotate(u_minus, t).exact_add(kick)
    }

    /// Where nothing rounds, the magnetic rotation keeps the length of the
    /// proper velocity, whatever it is turned about.
    pub proof fn boris_rotate_keeps_length(u: ThreeVector<S>, t: ThreeVector<S>)
        requires
            Self::exact_boris_rotate(u, t),
        ensures
            Self::spec_boris_rotate(u, t)@.squared() == u@.squared(),
    {
        let below = S::of_int(1).sum(t.spec_squared());
        let q = t.spec_div(below);
        let s = q.spec_mul(S::of_int(2));
        let w = u.spec_cross(t);
        let u_prime = u.spec_add(w);
        let c = u_prime.spec_cross(s);
        let d = below.value();
        t.dot_is_real(t);
        assert(d == 1real + t@.squared());
        t.div_is_real(below);
        q.mul_is_real(S::of_int(2));
        mul_associates(q.0.value(), 2real, d);
        mul_associates(q.1.value(), 2real, d);
        mul_associates(q.2.value(), 2real, d);
        mul_associates(q.0.value(), d, 2real);
        mul_associates(q.1.value(), d, 2real);
        mul_associates(q.2.value(), d, 2real);
        assert(s@.scaled(d) == t@.scaled(2real));
        u.cross_is_real(t);
        u.add_is_real(w);
        u_prime.cross_is_real(s);
        u.add_is_real(c);
        u@.rotation_keeps_length(t@, s@);
    }

    /// Where nothing rounds, a Boris step keeps the rest mass, whatever the
    /// fields are.
    pub proof fn boris_push_keeps_rest_mass(
        self,
        electric: ThreeVector<S>,
        magnetic: ThreeVector<S>,
        dt: S,
    )
        requires
            self.momentum.exact_rest_mass(),
            FourMomentum::exact_from_mass_and_gamma_beta(
                self.momentum.spec_rest_mass(),
                self.spec_boris_gamma_beta(electric, magnetic, dt),
            ),
            self.spec_boris_push(electric, magnetic, dt).momentum.exact_rest_mass(),
        ensures
            self.spec_boris_push(electric, magnetic, dt).charge == self.charge,
            self.spec_boris_push(electric, magnetic, dt).momentum.spec_rest_mass().value()
                == self.momentum.spec_rest_mass().value(),
    {
        self.momentum.rest_mass_is_real();
        FourMomentum::rest_mass_of_mass_and_gamma_beta(
            self.momentum.spec_rest_mass(),
            self.spec_boris_gamma_beta(electric, magnetic, dt),
        );
    }

    /// Where nothing rounds, a Runge-Kutta step keeps the rest mass, whatever
    /// fields its stages met.
    pub proof fn rk4_push_keeps_rest_mass(
        self,
        f0: Fields<S>,
        f1: Fields<S>,
        f2: Fields<S>,
        f3: Fields<S>,
        dt: S,
    )
        requires
            self.momentum.exact_rest_mass(),
            FourMomentum::exact_from_mass_and_gamma_beta(
                self.momentum.spec_rest_mass(),
                self.spec_rk4_gamma_beta(f0, f1, f2, f3, dt),
            ),
            self.spec_rk4_push(f0, f1, f2, f3, dt).momentum.exact_rest_mass(),
        ensures
            self.spec_rk4_push(f0, f1, f2, f3, dt).charge == self.charge,
            self.spec_rk4_push(f0, f1, f2, f3, dt).momentum.spec_rest_mass().value()
                == self.momentum.spec_rest_mass().value(),
    {
        self.momentum.rest_mass_is_real();
        FourMomentum::rest_mass_of_mass_and_gamma_beta(
            self.momentum.spec_rest_mass(),
            self.spec_rk4_gamma_beta(f0, f1, f2, f3, dt),
        );
    }

    /// Where nothing rounds, a Boris step through a magnetic field alone
    /// keeps the energy of a particle of positive rest mass: its rest mass
    /// and its Lorentz factor are what they were.
    pub proof fn boris_push_keeps_energy(
        self,
        electric: ThreeVector<S>,
        magnetic: ThreeVector<S>,
        dt: S,
    )
        requires
            electric@ == RealVector::zero(),
            self.momentum.spec_rest_mass().value() > 0real,
            self.momentum.exact_lorentz_factor(),
            self.exact_boris_kicks_and_rotation(electric, magnetic, dt),
            FourMomentum::exact_from_mass_and_gamma_beta(
                self.momentum.spec_rest_mass(),
                self.spec_boris_gamma_beta(electric, magnetic, dt),
            ),
            self.spec_boris_push(electric, magnetic, dt).momentum.exact_lorentz_factor(),
        ensures
            self.spec_boris_push(electric, magnetic, dt).momentum.spec_rest_mass().value()
                == self.momentum.spec_rest_mass().value(),
            self.spec_boris_push(electric, magnetic, dt).momentum.spec_lorentz_factor().value()
                == self.momentum.spec_lorentz_factor().value(),
    {
        let mass = self.momentum.spec_rest_mass();
        let m = mass.value();
        let u = self.momentum.spec_gamma_beta_vector();
        let half_kick = self.spec_half_kick(dt);
        let kick = electric.spec_mul(half_kick);
        let u_minus = u.spec_add(kick);
        let t = self.spec_boris_axis(electric, magnetic, dt);
        let u_plus = Self::spec_boris_rotate(u_minus, t);
        let u_new = u_plus.spec_add(kick);
        let after = self.spec_boris_push(electric, magnetic, dt).momentum;
        // Neither half kick changes the proper velocity, and the rotation
        // keeps its length.
        electric.mul_is_real(half_kick);
        product_is_zero(electric.0.value(), half_kick.value());
        product_is_zero(electric.1.value(), half_kick.value());
        product_is_zero(electric.2.value(), half_kick.value());
        assert(kick@ == RealVector::zero());
        u.add_is_real(kick);
        assert(u_minus@ == u@);
        Self::boris_rotate_keeps_length(u_minus, t);
        u_plus.add_is_real(kick);
        assert(u_new@ == u_plus@);
        assert(u_new@.squared() == u@.squared());
        // The new momentum has the old rest mass, so its proper velocity is
        // the one it was made from.
        FourMomentum::rest_mass_of_mass_and_gamma_beta(mass, u_new);
        let w = after.spec_gamma_beta_vector();
        after.spatial().div_is_real(after.spec_rest_mass());
        mul_cancels(w.0.value(), u_new.0.value(), m);
        mul_cancels(w.1.value(), u_new.1.value(), m);
        mul_cancels(w.2.value(), u_new.2.value(), m);
        assert(w@ == u_new@);
        // Equal lengths of the proper velocity give equal Lorentz factors.
        self.momentum.lorentz_factor_is_real();
        after.lorentz_factor_is_real();
        squares_decide(
            after.spec_lorentz_factor().value(),
            self.momentum.spec_lorentz_factor().value(),
        );
    }

    /// No operation of `u / sqrt(1 + u.u)`, the velocity that goes with a
    /// proper velocity `u`, rounds.
    pub open spec fn exact_velocity_of(u: ThreeVector<S>) -> bool {
        &&& exact_int::<S>(1)
        &&& u.exact_dot(u)
        &&& exact_sum(S::of_int(1), u.spec_squared())
        &&& exact_root(S::of_int(1).sum(u.spec_squared()))
        &&& u.exact_div(FourMomentum::spec_gamma_of_gamma_beta(u))
    }

    /// No operation of `spec_increments` rounds.
    pub open spec fn exact_increments(
        u: ThreeVector<S>,
        fields: Fields<S>,
        charge_over_mass: S,
        dt: S,
    ) -> bool {
        let v = u.spec_div(FourMomentum::spec_gamma_of_gamma_beta(u));
        let force = fields.0.spec_add(v.spec_cross(fields.1));
        &&& Self::exact_velocity_of(u)
        &&& v.exact_mul(dt)
        &&& v.exact_cross(fields.1)
        &&& fields.0.exact_add(v.spec_cross(fields.1))
        &&& force.exact_mul(charge_over_mass)
        &&& force.spec_mul(charge_over_mass).exact_mul(dt)
    }

    /// No operation of `spec_rk4_mean` rounds.
    pub open spec fn exact_rk4_mean(
        a: ThreeVector<S>,
        b: ThreeVector<S>,
        c: ThreeVector<S>,
        d: ThreeVector<S>,
    ) -> bool {
        let two = S::of_int(2);
        let ab = a.spec_add(b.spec_mul(two));
        let abc = ab.spec_add(c.spec_mul(two));
        &&& exact_int::<S>(2)
        &&& exact_int::<S>(6)
        &&& b.exact_mul(two)
        &&& a.exact_add(b.spec_mul(two))
        &&& c.exact_mul(two)
        &&& ab.exact_add(c.spec_mul(two))
        &&& abc.exact_add(d)
        &&& abc.spec_add(d).exact_div(S::of_int(6))
    }

    /// No operation rounds that a Runge-Kutta step makes on the way from the
    /// proper velocity, the charge over the mass and the fields that the
    /// stages met to the new position and the new proper velocity. The
    /// places and times at which the fields are asked for are no part of
    /// that way.
    pub open spec fn exact_rk4_push(
        self,
        f0: Fields<S>,
        f1: Fields<S>,
        f2: Fields<S>,
        f3: Fields<S>,
        dt: S,
    ) -> bool {
        let u0 = self.momentum.spec_gamma_beta_vector();
        let k = self.spec_charge_over_mass();
        let half = Self::spec_half();
        let k0 = self.spec_rk4_first(f0, dt);
        let k1 = self.spec_rk4_second(f0, f1, dt);
        let k2 = self.spec_rk4_third(f0, f1, f2, dt);
        let k3 = self.spec_rk4_fourth(f0, f1, f2, f3, dt);
        &&& Self::exact_increments(u0, f0, k, dt)
        &&& k0.1.exact_mul(half)
        &&& u0.exact_add(k0.1.spec_mul(half))
        &&& Self::exact_increments(u0.spec_add(k0.1.spec_mul(half)), f1, k, dt)
        &&& k1.1.exact_mul(half)
        &&& u0.exact_add(k1.1.spec_mul(half))
        &&& Self::exact_increments(u0.spec_add(k1.1.spec_mul(half)), f2, k, dt)
        &&& u0.exact_add(k2.1)
        &&& Self::exact_increments(u0.spec_add(k2.1), f3, k, dt)
        &&& Self::exact_rk4_mean(k0.0, k1.0, k2.0, k3.0)
        &&& self.position.exact_add(Self::spec_rk4_mean(k0.0, k1.0, k2.0, k3.0))
        &&& Self::exact_rk4_mean(k0.1, k1.1, k2.1, k3.1)
        &&& u0.exact_add(Self::spec_rk4_mean(k0.1, k1.1, k2.1, k3.1))
    }

    /// Where nothing rounds, the velocity that goes with a proper velocity,
    /// times the Lorentz factor, is the proper velocity; the Lorentz factor
    /// is at least one and its square is one plus the squared length of the
    /// proper velocity.
    pub proof fn velocity_of_is_real(u: ThreeVector<S>)
        requires
            Self::exact_velocity_of(u),
        ensures
            FourMomentum::spec_gamma_of_gamma_beta(u).value() >= 1real,
            FourMomentum::spec_gamma_of_gamma_beta(u).value()
                * FourMomentum::spec_gamma_of_gamma_beta(u).value() == 1real + u@.squared(),
            u.spec_div(FourMomentum::spec_gamma_of_gamma_beta(u))@.scaled(
                FourMomentum::spec_gamma_of_gamma_beta(u).value(),
            ) == u@,
    {
        let g = FourMomentum::spec_gamma_of_gamma_beta(u).value();
        u.dot_is_real(u);
        u.div_is_real(FourMomentum::spec_gamma_of_gamma_beta(u));
        square_is_nonnegative(u.0.value());
        square_is_nonnegative(u.1.value());
        square_is_nonnegative(u.2.value());
        assert(g * g >= 1real);
        assert(g >= 1real) by (nonlinear_arith)
            requires
                g >= 0real,
                g * g >= 1real,
        ;
    }

    /// Where nothing rounds and there is no field, a particle of proper
    /// velocity `u` whose velocity is `v` moves by `v * dt`, and its proper
    /// velocity does not change.
    pub proof fn increments_without_fields(
        u: ThreeVector<S>,
        fields: Fields<S>,
        charge_over_mass: S,
        dt: S,
        v: RealVector,
        gamma: real,
    )
        requires
            Self::exact_increments(u, fields, charge_over_mass, dt),
            fields.0@ == RealVector::zero(),
            fields.1@ == RealVector::zero(),
            gamma >= 0real,
            gamma * gamma == 1real + u@.squared(),
            v.scaled(gamma) == u@,
        ensures
            Self::spec_increments(u, fields, charge_over_mass, dt).0@ == v.scaled(dt.value()),
            Self::spec_increments(u, fields, charge_over_mass, dt).1@ == RealVector::zero(),
    {
        let g = FourMomentum::spec_gamma_of_gamma_beta(u);
        let w = u.spec_div(g);
        let force = fields.0.spec_add(w.spec_cross(fields.1));
        Self::velocity_of_is_real(u);
        squares_decide(g.value(), gamma);
        w@.scaled_cancels(v, gamma);
        w.mul_is_real(dt);
        w.cross_is_real(fields.1);
        w@.cross_with_zero();
        fields.0.add_is_real(w.spec_cross(fields.1));
        assert(force@ == RealVector::zero());
        force.mul_is_real(charge_over_mass);
        RealVector::zero_scales(charge_over_mass.value());
        force.spec_mul(charge_over_mass).mul_is_real(dt);
        RealVector::zero_scales(dt.value());
    }

    /// Where nothing rounds, the weighted mean of four increments that stand
    /// for the same real vector stands for that vector.
    pub proof fn mean_of_equals(
        a: ThreeVector<S>,
        b: ThreeVector<S>,
        c: ThreeVector<S>,
        d: ThreeVector<S>,
    )
        requires
            Self::exact_rk4_mean(a, b, c, d),
            b@ == a@,
            c@ == a@,
            d@ == a@,
        ensures
            Self::spec_rk4_mean(a, b, c, d)@ == a@,
    {
        let two = S::of_int(2);
        let six = S::of_int(6);
        let ab = a.spec_add(b.spec_mul(two));
        let abc = ab.spec_add(c.spec_mul(two));
        let sum = abc.spec_add(d);
        b.mul_is_real(two);
        a.add_is_real(b.spec_mul(two));
        c.mul_is_real(two);
        ab.add_is_real(c.spec_mul(two));
        abc.add_is_real(d);
        sum.div_is_real(six);
        mul_by_equal(b.0.value(), two.value(), 2real);
        mul_by_equal(b.1.value(), two.value(), 2real);
        mul_by_equal(b.2.value(), two.value(), 2real);
        mul_by_equal(c.0.value(), two.value(), 2real);
        mul_by_equal(c.1.value(), two.value(), 2real);
        mul_by_equal(c.2.value(), two.value(), 2real);
        assert(sum@ == a@.scaled(6real));
        let mean = Self::spec_rk4_mean(a, b, c, d);
        mul_by_equal(mean.0.value(), six.value(), 6real);
        mul_by_equal(mean.1.value(), six.value(), 6real);
        mul_by_equal(mean.2.value(), six.value(), 6real);
        mean@.scaled_cancels(a@, 6real);
    }

    /// Where nothing rounds, a Runge-Kutta step through no field is uniform
    /// motion: a particle whose energy is not negative moves by its velocity
    /// times `dt`, and its momentum is what it was.
    pub proof fn rk4_push_without_fields_is_uniform_motion(
        self,
        f0: Fields<S>,
        f1: Fields<S>,
        f2: Fields<S>,
        f3: Fields<S>,
        dt: S,
    )
        requires
            f0.0@ == RealVector::zero() && f0.1@ == RealVector::zero(),
            f1.0@ == RealVector::zero() && f1.1@ == RealVector::zero(),
            f2.0@ == RealVector::zero() && f2.1@ == RealVector::zero(),
            f3.0@ == RealVector::zero() && f3.1@ == RealVector::zero(),
            self.momentum.0.value() >= 0real,
            self.momentum.exact_velocity_vector(),
            self.exact_rk4_push(f0, f1, f2, f3, dt),
            FourMomentum::exact_from_mass_and_gamma_beta(
                self.momentum.spec_rest_mass(),
                self.spec_rk4_gamma_beta(f0, f1, f2, f3, dt),
            ),
        ensures
            self.spec_rk4_push(f0, f1, f2, f3, dt).position@ == self.position@.plus(
                self.momentum.spec_velocity_vector()@.scaled(dt.value()),
            ),
            self.spec_rk4_push(f0, f1, f2, f3, dt).momentum.0.value() == self.momentum.0.value(),
            self.spec_rk4_push(f0, f1, f2, f3, dt).momentum.spatial()@
                == self.momentum.spatial()@,
    {
        let u0 = self.momentum.spec_gamma_beta_vector();
        let k = self.spec_charge_over_mass();
        let half = Self::spec_half();
        let k0 = self.spec_rk4_first(f0, dt);
        let k1 = self.spec_rk4_second(f0, f1, dt);
        let k2 = self.spec_rk4_third(f0, f1, f2, dt);
        let k3 = self.spec_rk4_fourth(f0, f1, f2, f3, dt);
        let u1 = u0.spec_add(k0.1.spec_mul(half));
        let u2 = u0.spec_add(k1.1.spec_mul(half));
        let u3 = u0.spec_add(k2.1);
        // The velocity and the Lorentz factor of the particle.
        let v = self.momentum.spec_velocity_vector()@;
        let gamma = self.momentum.spec_lorentz_factor().value();
        self.momentum.lorentz_factor_is_real();
        u0.div_is_real(self.momentum.spec_lorentz_factor());
        // No stage changes the proper velocity, so each moves by v * dt.
        Self::increments_without_fields(u0, f0, k, dt, v, gamma);
        k0.1.mul_is_real(half);
        RealVector::zero_scales(half.value());
        u0.add_is_real(k0.1.spec_mul(half));
        assert(u1@ == u0@);
        Self::increments_without_fields(u1, f1, k, dt, v, gamma);
        k1.1.mul_is_real(half);
        u0.add_is_real(k1.1.spec_mul(half));
        assert(u2@ == u0@);
        Self::increments_without_fields(u2, f2, k, dt, v, gamma);
        u0.add_is_real(k2.1);
        assert(u3@ == u0@);
        Self::increments_without_fields(u3, f3, k, dt, v, gamma);
        Self::mean_of_equals(k0.0, k1.0, k2.0, k3.0);
        Self::mean_of_equals(k0.1, k1.1, k2.1, k3.1);
        self.position.add_is_real(Self::spec_rk4_mean(k0.0, k1.0, k2.0, k3.0));
        u0.add_is_real(Self::spec_rk4_mean(k0.1, k1.1, k2.1, k3.1));
        let u = self.spec_rk4_gamma_beta(f0, f1, f2, f3, dt);
        assert(u@ == u0@);
        // The momentum is the proper velocity times the rest mass, before
        // and after.
        let mass = self.momentum.spec_rest_mass();
        let m = mass.value();
        let after = self.spec_rk4_push(f0, f1, f2, f3, dt).momentum;
        self.momentum.spatial().div_is_real(mass);
        assert(after.spatial()@ == u@.scaled(m));
        // The square of the energy is the square of the rest mass plus that
        // of the momentum, before and after.
        let g = FourMomentum::spec_gamma_of_gamma_beta(u).value();
        let e = self.momentum.0.value();
        u.dot_is_real(u);
        self.momentum.rest_mass_is_real();
        u0@.squared_scales(m);
        assert(e * e == m * m + u0@.squared() * (m * m));
        mul_distributes(m * m, 1real, u0@.squared());
        mul_squares(g, m);
        assert(e * e == (g * m) * (g * m));
        mul_is_nonnegative(g, m);
        squares_decide(e, g * m);
    }
}

} // verus!
