use particle_push::charged_particle::ChargedParticle;
use particle_push::four_momentum::FourMomentum;
use particle_push::scalar::Scalar;
use particle_push::three_vector::ThreeVector;
use std::cell::RefCell;

/// Double precision as a scalar of the kernel.
#[derive(Clone, Copy, Debug, PartialEq)]
struct Real(f64);

impl Scalar for Real {
    fn of_int(n: i32) -> Self {
        Self::from_int(n)
    }

    fn negation(self) -> Self {
        self.neg()
    }

    fn sum(self, rhs: Self) -> Self {
        self.add(rhs)
    }

    fn difference(self, rhs: Self) -> Self {
        self.sub(rhs)
    }

    fn product(self, rhs: Self) -> Self {
        self.mul(rhs)
    }

    fn quotient(self, rhs: Self) -> Self {
        self.div(rhs)
    }

    fn root(self) -> Self {
        self.sqrt()
    }

    fn from_int(n: i32) -> Self {
        Real(f64::from(n))
    }

    fn neg(self) -> Self {
        Real(-self.0)
    }

    fn add(self, rhs: Self) -> Self {
        Real(self.0 + rhs.0)
    }

    fn sub(self, rhs: Self) -> Self {
        Real(self.0 - rhs.0)
    }

    fn mul(self, rhs: Self) -> Self {
        Real(self.0 * rhs.0)
    }

    fn div(self, rhs: Self) -> Self {
        Real(self.0 / rhs.0)
    }

    fn sqrt(self) -> Self {
        Real(self.0.sqrt())
    }
}

fn vec3(x: f64, y: f64, z: f64) -> ThreeVector<Real> {
    ThreeVector(Real(x), Real(y), Real(z))
}

fn close(a: f64, b: f64, tolerance: f64) -> bool {
    (a - b).abs() <= tolerance
}

fn triple(v: ThreeVector<Real>) -> (f64, f64, f64) {
    ((v.0).0, (v.1).0, (v.2).0)
}

fn quadruple(p: FourMomentum<Real>) -> (f64, f64, f64, f64) {
    ((p.0).0, (p.1).0, (p.2).0, (p.3).0)
}

fn particle(charge: f64, position: ThreeVector<Real>, mass: f64, velocity: ThreeVector<Real>)
    -> ChargedParticle<Real> {
    ChargedParticle {
        charge: Real(charge),
        position,
        momentum: FourMomentum::from_mass_and_velocity(Real(mass), velocity),
    }
}

fn distance(a: ThreeVector<Real>, b: (f64, f64, f64)) -> f64 {
    let d = a.sub(vec3(b.0, b.1, b.2));
    d.norm().0
}

/// Where a particle of unit charge and mass, which starts at the origin with
/// speed `v0` along x, is at time `t` in a magnetic field of unit strength
/// along z.
fn place_on_the_circle(v0: f64, t: f64) -> (f64, f64, f64) {
    let gamma = 1.0 / (1.0 - v0 * v0).sqrt();
    let w = 1.0 / gamma;
    (v0 / w * (w * t).sin(), v0 / w * ((w * t).cos() - 1.0), 0.0)
}

/// The velocity of that particle at time `t`.
fn velocity_on_the_circle(v0: f64, t: f64) -> ThreeVector<Real> {
    let gamma = 1.0 / (1.0 - v0 * v0).sqrt();
    let w = 1.0 / gamma;
    vec3(v0 * (w * t).cos(), -v0 * (w * t).sin(), 0.0)
}

fn rk4_error_on_the_circle(steps: u32) -> f64 {
    let dt = 1.0 / f64::from(steps);
    let mut p = particle(1.0, vec3(0.0, 0.0, 0.0), 1.0, vec3(0.5, 0.0, 0.0));
    for i in 0..steps {
        let field = |_, _| (vec3(0.0, 0.0, 0.0), vec3(0.0, 0.0, 1.0));
        p = p.rk4_push(field, Real(f64::from(i) * dt), Real(dt));
    }
    distance(p.position, place_on_the_circle(0.5, 1.0))
}

fn boris_error_on_the_circle(steps: u32) -> f64 {
    let dt = 1.0 / f64::from(steps);
    // The scheme leaps: the velocity it starts from is the one half a step
    // before the position.
    let mut p = particle(1.0, vec3(0.0, 0.0, 0.0), 1.0, velocity_on_the_circle(0.5, -dt / 2.0));
    for _ in 0..steps {
        p = p.boris_push(vec3(0.0, 0.0, 0.0), vec3(0.0, 0.0, 1.0), Real(dt));
    }
    distance(p.position, place_on_the_circle(0.5, 1.0))
}

#[test]
fn rk4_push_works_with_zero_fields() {
    let particle = ChargedParticle {
        charge: Real(1.0),
        position: vec3(0.0, 0.0, 0.0),
        momentum: FourMomentum::from_mass_and_velocity(Real(1.0), vec3(0.5, 0.0, 0.0)),
    };

    let field = |_, _| {
        let e = vec3(0.0, 0.0, 0.0);
        let b = vec3(0.0, 0.0, 0.0);
        (e, b)
    };

    let p1 = particle.rk4_push(field, Real(0.0), Real(0.1));

    assert!(close((p1.position.0).0, 0.05, 1e-12));
    assert!(close((p1.momentum.0).0, (particle.momentum.0).0, 1e-12));
    assert!(close((p1.momentum.1).0, (particle.momentum.1).0, 1e-12));
}

#[test]
fn rk4_push_without_fields_is_uniform_motion() {
    let start = particle(-2.0, vec3(1.0, 2.0, 3.0), 0.5, vec3(0.5, 0.0, 0.0));
    let field = |_, _| (vec3(0.0, 0.0, 0.0), vec3(0.0, 0.0, 0.0));
    let end = start.rk4_push(field, Real(7.0), Real(0.1));
    assert!(close((end.position.0).0, 1.05, 1e-12));
    assert!(close((end.position.1).0, 2.0, 1e-12));
    assert!(close((end.position.2).0, 3.0, 1e-12));
    assert!(close((end.momentum.0).0, (start.momentum.0).0, 1e-12));
    assert!(close((end.momentum.1).0, (start.momentum.1).0, 1e-12));
    assert!(close((end.momentum.2).0, 0.0, 1e-12));
    assert!(close((end.momentum.3).0, 0.0, 1e-12));
    assert_eq!(end.charge.0, -2.0);
}

#[test]
fn rk4_push_asks_the_field_at_the_four_stages() {
    let asked: RefCell<Vec<((f64, f64, f64), f64)>> = RefCell::new(Vec::new());
    let field = |x: ThreeVector<Real>, t: Real| {
        asked.borrow_mut().push((triple(x), t.0));
        (vec3(0.0, 0.2, 0.0), vec3(0.0, 0.0, 1.0))
    };
    let start = particle(1.0, vec3(0.0, 0.0, 0.0), 1.0, vec3(0.0, 0.5, 0.0));
    let end = start.rk4_push(field, Real(2.0), Real(0.5));
    let asked = asked.into_inner();
    assert_eq!(asked.len(), 4);
    assert_eq!(asked[0], ((0.0, 0.0, 0.0), 2.0));
    assert_eq!(asked[1], ((0.0, 0.125, 0.0), 2.25));
    assert_eq!(asked[2].1, 2.25);
    assert!(close((asked[2].0).0, 0.026324778615119487, 1e-15));
    assert!(close((asked[2].0).1, 0.13211885560442013, 1e-15));
    assert_eq!(asked[3].1, 2.5);
    assert!(close((asked[3].0).0, 0.05626028945064281, 1e-15));
    assert!(close((asked[3].0).1, 0.25593521766627425, 1e-15));
    assert!(close((end.position.0).0, 0.054007504378791094, 1e-15));
    assert!(close((end.position.1).0, 0.2580213080523756, 1e-15));
    assert!(close((end.momentum.0).0, 1.2062881902145417, 1e-15));
    assert!(close((end.momentum.1).0, 0.2580213080523756, 1e-15));
    assert!(close((end.momentum.2).0, 0.6233427648108347, 1e-15));
}

#[test]
fn rk4_push_through_a_field_that_varies() {
    let field = |x: ThreeVector<Real>, t: Real| {
        (vec3(0.1 * (x.1).0, 0.2 + t.0, 0.0), vec3(0.0, 0.0, 1.0 + (x.0).0))
    };
    let start = particle(-1.0, vec3(1.0, 2.0, 3.0), 2.0, vec3(0.1, 0.2, 0.3));
    let end = start.rk4_push(field, Real(0.25), Real(0.05));
    assert!(close((end.position.0).0, 1.004659957464962, 1e-14));
    assert!(close((end.position.1).0, 2.0098529369127385, 1e-14));
    assert!(close((end.position.2).0, 3.0150194295703674, 1e-14));
    assert!(close((end.momentum.0).0, 2.1510423627911104, 1e-14));
    assert!(close((end.momentum.1).0, 0.18591151666826822, 1e-14));
    assert!(close((end.momentum.2).0, 0.41691186518169077, 1e-14));
    assert!(close((end.momentum.3).0, 0.6469966392206306, 1e-14));
}

#[test]
fn increments_follow_the_lorentz_force() {
    let fields = (vec3(0.0, 1.0, 0.0), vec3(0.0, 0.0, 2.0));
    let (dx, du) =
        ChargedParticle::increments(vec3(0.75, 0.0, 0.0), fields, Real(0.5), Real(0.1));
    // The velocity is 0.6 along x, so v x B is -1.2 along y.
    assert_eq!(triple(dx), (0.6 * 0.1, 0.0, 0.0));
    assert_eq!(triple(du), (0.0, (1.0 + -(0.6 * 2.0)) * 0.5 * 0.1, 0.0));
}

#[test]
fn boris_push_in_an_electric_field_from_rest() {
    let start = ChargedParticle {
        charge: Real(1.0),
        position: vec3(0.0, 0.0, 0.0),
        momentum: FourMomentum(Real(1.0), Real(0.0), Real(0.0), Real(0.0)),
    };
    let end = start.boris_push(vec3(1.0, 0.0, 0.0), vec3(0.0, 0.0, 0.0), Real(0.1));
    // Two half kicks of 0.05 each, and no rotation.
    let gamma = (1.0 + 0.1 * 0.1_f64).sqrt();
    assert_eq!(quadruple(end.momentum), (gamma, 0.1, 0.0, 0.0));
    assert_eq!(triple(end.position), (0.1 * 0.1 / gamma, 0.0, 0.0));
    assert_eq!(end.charge.0, 1.0);
}

#[test]
fn boris_push_through_both_fields() {
    let start = particle(-1.0, vec3(1.0, 2.0, 3.0), 2.0, vec3(0.1, 0.2, 0.3));
    let end = start.boris_push(vec3(0.5, -0.25, 0.125), vec3(0.0, 0.75, -1.5), Real(0.05));
    assert!(close((end.position.0).0, 1.0050335463061826, 1e-14));
    assert!(close((end.position.1).0, 2.010124044275323, 1e-14));
    assert!(close((end.position.2).0, 3.0147805770491023, 1e-14));
    assert!(close((end.momentum.0).0, 2.154801288001719, 1e-14));
    assert!(close((end.momentum.1).0, 0.21692584127557346, 1e-14));
    assert!(close((end.momentum.2).0, 0.43630607288504875, 1e-14));
    assert!(close((end.momentum.3).0, 0.636984129256278, 1e-14));
}

#[test]
fn boris_push_keeps_the_energy_in_a_magnetic_field() {
    let mut p = particle(1.0, vec3(0.0, 0.0, 0.0), 1.0, vec3(0.0, 0.5, 0.0));
    let mass = p.momentum.rest_mass().0;
    let gamma = p.momentum.lorentz_factor().0;
    let energy = p.total_energy().0;
    for _ in 0..10000 {
        p = p.boris_push(vec3(0.0, 0.0, 0.0), vec3(0.0, 0.0, 1.0), Real(0.1));
        assert!(close(p.momentum.rest_mass().0, mass, 1e-9));
        assert!(close(p.momentum.lorentz_factor().0, gamma, 1e-9));
        assert!(close(p.total_energy().0, energy, 1e-9));
    }
}

#[test]
fn both_schemes_keep_charge_and_rest_mass() {
    let start = particle(-3.0, vec3(0.0, 0.0, 0.0), 1.5, vec3(0.0, 0.5, 0.0));
    let mass = start.momentum.rest_mass().0;
    let mut p = start;
    let mut q = start;
    for i in 0..1000 {
        let field = |_, _| (vec3(0.0, 0.2, 0.0), vec3(0.0, 0.0, 1.0));
        p = p.rk4_push(field, Real(f64::from(i) * 0.1), Real(0.1));
        q = q.boris_push(vec3(0.0, 0.2, 0.0), vec3(0.0, 0.0, 1.0), Real(0.1));
        assert_eq!(p.charge.0, -3.0);
        assert_eq!(q.charge.0, -3.0);
        assert!(close(p.momentum.rest_mass().0, mass, 1e-9));
        assert!(close(q.momentum.rest_mass().0, mass, 1e-9));
    }
}

#[test]
fn rk4_push_is_of_fourth_order() {
    for steps in [5, 10, 20, 40] {
        let ratio = rk4_error_on_the_circle(steps) / rk4_error_on_the_circle(2 * steps);
        assert!(14.0 < ratio && ratio < 18.0);
    }
}

#[test]
fn boris_push_is_of_second_order() {
    for steps in [5, 10, 20, 40] {
        let ratio = boris_error_on_the_circle(steps) / boris_error_on_the_circle(2 * steps);
        assert!(3.5 < ratio && ratio < 4.5);
    }
}

#[test]
fn total_energy_is_mass_times_lorentz_factor() {
    let p = ChargedParticle {
        charge: Real(1.0),
        position: vec3(0.0, 0.0, 0.0),
        momentum: FourMomentum(Real(5.0), Real(3.0), Real(0.0), Real(0.0)),
    };
    assert_eq!(p.total_energy().0, 5.0);
}

#[test]
fn a_massless_particle_is_not_caught() {
    let p = ChargedParticle {
        charge: Real(1.0),
        position: vec3(0.0, 0.0, 0.0),
        momentum: FourMomentum(Real(1.0), Real(1.0), Real(0.0), Real(0.0)),
    };
    let end = p.boris_push(vec3(0.0, 1.0, 0.0), vec3(0.0, 0.0, 1.0), Real(0.1));
    assert!((end.momentum.0).0.is_nan());
    assert_eq!(end.charge.0, 1.0);
}

#[test]
fn fields_that_are_not_finite_are_not_caught() {
    let start = ChargedParticle {
        charge: Real(1.0),
        position: vec3(0.0, 0.0, 0.0),
        momentum: FourMomentum(Real(1.0), Real(0.0), Real(0.0), Real(0.0)),
    };
    let end = start.boris_push(vec3(f64::INFINITY, 0.0, 0.0), vec3(0.0, 0.0, 1.0), Real(0.1));
    assert!(!(end.momentum.0).0.is_finite());
    assert!(!(end.position.0).0.is_finite());
    let field = |_, _| (vec3(f64::INFINITY, 0.0, 0.0), vec3(0.0, 0.0, 0.0));
    let end = start.rk4_push(field, Real(0.0), Real(0.1));
    assert!(!(end.momentum.0).0.is_finite());
    assert!(!(end.position.0).0.is_finite());
    assert_eq!(end.charge.0, 1.0);
}
