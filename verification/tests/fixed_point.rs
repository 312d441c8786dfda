use particle_push::charged_particle::ChargedParticle;
use particle_push::fixed::{Fixed, STEPS};
use particle_push::four_momentum::FourMomentum;
use particle_push::scalar::Scalar;
use particle_push::three_vector::ThreeVector;

fn whole(n: i32) -> Fixed {
    Fixed::from_int(n)
}

fn steps(raw: i64) -> Fixed {
    Fixed { raw: Some(raw) }
}

fn vec3(x: i64, y: i64, z: i64) -> ThreeVector<Fixed> {
    ThreeVector(steps(x), steps(y), steps(z))
}

fn triple(v: ThreeVector<Fixed>) -> (Option<i64>, Option<i64>, Option<i64>) {
    (v.0.raw, v.1.raw, v.2.raw)
}

fn quadruple(p: FourMomentum<Fixed>) -> (Option<i64>, Option<i64>, Option<i64>, Option<i64>) {
    (p.0.raw, p.1.raw, p.2.raw, p.3.raw)
}

#[test]
fn one_is_two_to_the_thirty_second_steps() {
    assert_eq!(STEPS, 4294967296);
    assert_eq!(whole(1).raw, Some(4294967296));
    assert_eq!(whole(0).raw, Some(0));
    assert_eq!(whole(-3).raw, Some(-3 * 4294967296));
    assert_eq!(whole(i32::MAX).raw, Some(i64::from(i32::MAX) * 4294967296));
    assert_eq!(whole(i32::MIN).raw, Some(i64::MIN));
    assert_eq!(steps(17).raw, Some(17));
}

#[test]
fn sums_and_differences_are_exact_or_nothing() {
    assert_eq!(whole(2).add(whole(3)).raw, whole(5).raw);
    assert_eq!(whole(2).sub(whole(3)).raw, whole(-1).raw);
    assert_eq!(steps(i64::MAX).add(steps(0)).raw, Some(i64::MAX));
    assert_eq!(steps(i64::MAX).add(steps(1)).raw, None);
    assert_eq!(steps(i64::MIN).sub(steps(1)).raw, None);
    assert_eq!(steps(i64::MIN).add(steps(i64::MAX)).raw, Some(-1));
}

#[test]
fn negation_of_the_least_number_is_nothing() {
    assert_eq!(whole(7).neg().raw, whole(-7).raw);
    assert_eq!(steps(i64::MAX).neg().raw, Some(i64::MIN + 1));
    assert_eq!(steps(i64::MIN).neg().raw, None);
}

#[test]
fn products_round_toward_zero() {
    assert_eq!(steps(3 * STEPS / 2).mul(steps(5 * STEPS / 2)).raw, Some(15 * STEPS / 4));
    assert_eq!(whole(-6).mul(whole(7)).raw, whole(-42).raw);
    assert_eq!(whole(-6).mul(whole(-7)).raw, whole(42).raw);
    assert_eq!(steps(1).mul(steps(1)).raw, Some(0));
    assert_eq!(steps(-1).mul(steps(STEPS - 1)).raw, Some(0));
    assert_eq!(steps(-3).mul(steps(STEPS / 2)).raw, Some(-1));
    assert_eq!(steps(3).mul(steps(STEPS / 2)).raw, Some(1));
}

#[test]
fn products_that_are_too_large_are_nothing() {
    assert_eq!(whole(65536).mul(whole(32768)).raw, None);
    assert_eq!(whole(65536).mul(whole(-32768)).raw, Some(i64::MIN));
    assert_eq!(whole(-65536).mul(whole(-32768)).raw, None);
    assert_eq!(steps(i64::MIN).mul(steps(i64::MIN)).raw, None);
}

#[test]
fn quotients_round_toward_zero() {
    assert_eq!(whole(1).div(whole(3)).raw, Some(1431655765));
    assert_eq!(whole(-1).div(whole(3)).raw, Some(-1431655765));
    assert_eq!(whole(1).div(whole(-3)).raw, Some(-1431655765));
    assert_eq!(whole(-1).div(whole(-3)).raw, Some(1431655765));
    assert_eq!(whole(1).div(whole(2)).raw, Some(STEPS / 2));
    assert_eq!(whole(42).div(whole(7)).raw, whole(6).raw);
}

#[test]
fn quotients_by_zero_or_too_large_are_nothing() {
    assert_eq!(whole(1).div(whole(0)).raw, None);
    assert_eq!(whole(0).div(whole(0)).raw, None);
    assert_eq!(whole(65536).div(steps(1)).raw, None);
    assert_eq!(steps(i64::MIN).div(whole(-1)).raw, None);
    assert_eq!(steps(i64::MIN).div(whole(1)).raw, Some(i64::MIN));
}

#[test]
fn square_roots_round_down() {
    assert_eq!(whole(2).sqrt().raw, Some(6074000999));
    assert_eq!(whole(9).sqrt().raw, whole(3).raw);
    assert_eq!(steps(STEPS / 4).sqrt().raw, Some(STEPS / 2));
    assert_eq!(whole(0).sqrt().raw, Some(0));
    assert_eq!(steps(1).sqrt().raw, Some(65536));
    assert_eq!(steps(i64::MAX).sqrt().raw, Some(199032864766430));
}

#[test]
fn square_roots_of_negative_numbers_are_nothing() {
    assert_eq!(whole(-1).sqrt().raw, None);
    assert_eq!(steps(-1).sqrt().raw, None);
}

#[test]
fn nothing_stays_nothing() {
    let nothing = Fixed { raw: None };
    assert_eq!(nothing.neg().raw, None);
    assert_eq!(nothing.add(whole(1)).raw, None);
    assert_eq!(whole(1).add(nothing).raw, None);
    assert_eq!(nothing.sub(whole(1)).raw, None);
    assert_eq!(whole(1).sub(nothing).raw, None);
    assert_eq!(nothing.mul(whole(0)).raw, None);
    assert_eq!(whole(0).mul(nothing).raw, None);
    assert_eq!(nothing.div(whole(1)).raw, None);
    assert_eq!(whole(1).div(nothing).raw, None);
    assert_eq!(nothing.sqrt().raw, None);
}

#[test]
fn vectors_of_whole_numbers_are_exact() {
    let a = ThreeVector(whole(1), whole(2), whole(3));
    let b = ThreeVector(whole(4), whole(5), whole(6));
    let c = a.cross(&b);
    assert_eq!(triple(c), (whole(-3).raw, whole(6).raw, whole(-3).raw));
    assert_eq!(a.dot(&b).raw, whole(32).raw);
    assert_eq!(a.dot(&c).raw, Some(0));
    assert_eq!(b.dot(&c).raw, Some(0));
    assert_eq!(triple(b.cross(&a)), (whole(3).raw, whole(-6).raw, whole(3).raw));
    assert_eq!(ThreeVector(whole(3), whole(4), whole(0)).norm().raw, whole(5).raw);
    assert_eq!(a.cosine(&a).raw, Some(4294967296));
}

#[test]
fn momentum_in_steps() {
    let p = FourMomentum::from_mass_and_velocity(whole(1), vec3(STEPS / 2, 0, 0));
    assert_eq!(quadruple(p), (Some(4959401050), Some(2479700525), Some(0), Some(0)));
    assert_eq!(p.rest_mass().raw, Some(4294967296));
    assert_eq!(p.lorentz_factor().raw, Some(4959401048));
    assert_eq!(triple(p.gamma_beta_vector()), (Some(2479700525), Some(0), Some(0)));
    let q = FourMomentum(whole(5), whole(3), whole(0), whole(0));
    assert_eq!(q.rest_mass().raw, whole(4).raw);
    assert_eq!(q.lorentz_factor().raw, Some(5 * STEPS / 4));
    assert_eq!(FourMomentum(whole(1), whole(2), whole(0), whole(0)).rest_mass().raw, None);
}

#[test]
fn boris_push_in_steps() {
    let start = ChargedParticle {
        charge: whole(1),
        position: vec3(0, 0, 0),
        momentum: FourMomentum(whole(1), whole(0), whole(0), whole(0)),
    };
    let end = start.boris_push(vec3(STEPS, 0, 0), vec3(0, 0, STEPS), steps(STEPS / 10));
    assert_eq!(end.charge.raw, Some(4294967296));
    assert_eq!(triple(end.position), (Some(42630736), Some(-2128876), Some(0)));
    assert_eq!(
        quadruple(end.momentum),
        (Some(4316335556), Some(428428329), Some(-21394689), Some(0))
    );
}

#[test]
fn rk4_push_in_steps() {
    let start = ChargedParticle {
        charge: whole(1),
        position: vec3(0, 0, 0),
        momentum: FourMomentum::from_mass_and_velocity(whole(1), vec3(STEPS / 2, 0, 0)),
    };
    let still = |_, _| (vec3(0, 0, 0), vec3(0, 0, 0));
    let end = start.rk4_push(still, whole(0), steps(STEPS / 10));
    assert_eq!(triple(end.position), (Some(214748364), Some(0), Some(0)));
    assert_eq!(quadruple(end.momentum), (Some(4959401048), Some(2479700525), Some(0), Some(0)));

    let rest = ChargedParticle {
        charge: whole(1),
        position: vec3(0, 0, 0),
        momentum: FourMomentum(whole(1), whole(0), whole(0), whole(0)),
    };
    let field = |_, _| (vec3(0, STEPS / 5, 0), vec3(0, 0, STEPS));
    let end = rest.rk4_push(field, whole(0), steps(STEPS / 8));
    assert_eq!(triple(end.position), (Some(279543), Some(6701106), Some(0)));
    assert_eq!(
        quadruple(end.momentum),
        (Some(4296307511), Some(6701106), Some(107094638), Some(0))
    );
}

#[test]
fn a_step_that_is_too_large_gives_nothing() {
    let start = ChargedParticle {
        charge: whole(1),
        position: vec3(0, 0, 0),
        momentum: FourMomentum(whole(1), whole(0), whole(0), whole(0)),
    };
    let end = start.boris_push(
        ThreeVector(whole(i32::MAX), whole(0), whole(0)),
        vec3(0, 0, 0),
        whole(4),
    );
    assert_eq!(end.charge.raw, whole(1).raw);
    assert_eq!(end.position.0.raw, None);
    assert_eq!(end.momentum.0.raw, None);
}
