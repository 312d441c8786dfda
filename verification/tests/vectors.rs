use particle_push::scalar::Scalar;
use particle_push::three_vector::ThreeVector;

/// Double precision as a scalar of the kernel.
#[derive(Clone, Copy, Debug, PartialEq)]
struct Real(f64);

impl Scalar for Real {
    fn of_int(n: i32) -> Self {
        Self::from_int(n)
    }

    fn negation(self) -> Self {
        self.neg()
    }

    fn sum(self, rhs: Self) -> Self {
        self.add(rhs)
    }

    fn difference(self, rhs: Self) -> Self {
        self.sub(rhs)
    }

    fn product(self, rhs: Self) -> Self {
        self.mul(rhs)
    }

    fn quotient(self, rhs: Self) -> Self {
        self.div(rhs)
    }

    fn root(self) -> Self {
        self.sqrt()
    }

    fn from_int(n: i32) -> Self {
        Real(f64::from(n))
    }

    fn neg(self) -> Self {
        Real(-self.0)
    }

    fn add(self, rhs: Self) -> Self {
        Real(self.0 + rhs.0)
    }

    fn sub(self, rhs: Self) -> Self {
        Real(self.0 - rhs.0)
    }

    fn mul(self, rhs: Self) -> Self {
        Real(self.0 * rhs.0)
    }

    fn div(self, rhs: Self) -> Self {
        Real(self.0 / rhs.0)
    }

    fn sqrt(self) -> Self {
        Real(self.0.sqrt())
    }
}

fn vec3(x: f64, y: f64, z: f64) -> ThreeVector<Real> {
    ThreeVector(Real(x), Real(y), Real(z))
}

fn close(a: f64, b: f64, tolerance: f64) -> bool {
    (a - b).abs() <= tolerance
}

fn triple(v: ThreeVector<Real>) -> (f64, f64, f64) {
    ((v.0).0, (v.1).0, (v.2).0)
}

#[test]
fn cross_of_the_axes_is_right_handed() {
    let x = vec3(1.0, 0.0, 0.0);
    let y = vec3(0.0, 1.0, 0.0);
    let z = vec3(0.0, 0.0, 1.0);
    assert_eq!(triple(x.cross(&y)), (0.0, 0.0, 1.0));
    assert_eq!(triple(y.cross(&z)), (1.0, 0.0, 0.0));
    assert_eq!(triple(z.cross(&x)), (0.0, 1.0, 0.0));
    assert_eq!(triple(y.cross(&x)), (0.0, 0.0, -1.0));
}

#[test]
fn cross_of_two_vectors() {
    let a = vec3(1.0, 2.0, 3.0);
    let b = vec3(4.0, 5.0, 6.0);
    assert_eq!(triple(a.cross(&b)), (-3.0, 6.0, -3.0));
}

#[test]
fn dot_squared_and_norm() {
    let a = vec3(1.0, 2.0, 3.0);
    let b = vec3(4.0, 5.0, 6.0);
    assert_eq!(a.dot(&b).0, 32.0);
    assert_eq!(a.squared().0, 14.0);
    assert_eq!(vec3(3.0, 4.0, 0.0).norm().0, 5.0);
    assert_eq!(vec3(0.0, 0.0, 0.0).norm().0, 0.0);
}

#[test]
fn squared_is_dot_with_itself() {
    let vectors = [vec3(0.1, -0.7, 2.5), vec3(1e-3, 1e3, 7.0), vec3(-3.0, 0.0, 0.25)];
    for a in vectors {
        assert_eq!(a.squared().0, a.dot(&a).0);
    }
}

#[test]
fn sum_difference_multiple_and_quotient() {
    let a = vec3(1.0, 2.0, 3.0);
    let b = vec3(4.0, 6.0, 8.0);
    assert_eq!(triple(a.add(b)), (5.0, 8.0, 11.0));
    assert_eq!(triple(a.sub(b)), (-3.0, -4.0, -5.0));
    assert_eq!(triple(a.mul(Real(2.5))), (2.5, 5.0, 7.5));
    assert_eq!(triple(b.div(Real(4.0))), (1.0, 1.5, 2.0));
}

#[test]
fn division_by_zero_is_not_caught() {
    let q = vec3(1.0, -1.0, 0.0).div(Real(0.0));
    assert_eq!((q.0).0, f64::INFINITY);
    assert_eq!((q.1).0, f64::NEG_INFINITY);
    assert!((q.2).0.is_nan());
    let zero = vec3(0.0, 0.0, 0.0);
    assert!(zero.cosine(&zero).0.is_nan());
    assert!(zero.sine(&vec3(1.0, 0.0, 0.0)).0.is_nan());
}

#[test]
fn cosine_and_sine_of_known_angles() {
    let x = vec3(2.0, 0.0, 0.0);
    let y = vec3(0.0, 3.0, 0.0);
    let d = vec3(1.0, 1.0, 0.0);
    assert_eq!(x.cosine(&y).0, 0.0);
    assert_eq!(x.sine(&y).0, 1.0);
    assert!(close(x.cosine(&d).0, 0.5_f64.sqrt(), 1e-15));
    assert!(close(x.sine(&d).0, 0.5_f64.sqrt(), 1e-15));
    assert_eq!(x.cosine(&x.mul(Real(-1.0))).0, -1.0);
}

#[test]
fn cosine_of_a_vector_with_itself_is_one() {
    let vectors = [vec3(0.1, -0.7, 2.5), vec3(1e-3, 1e3, 7.0), vec3(-3.0, 0.0, 0.25)];
    for a in vectors {
        assert!(close(a.cosine(&a).0, 1.0, 1e-12));
    }
}

#[test]
fn cross_is_orthogonal_to_its_operands() {
    let a = vec3(0.3, -1.7, 2.9);
    let b = vec3(-4.1, 0.6, 1.3);
    let c = a.cross(&b);
    assert!(close(a.dot(&c).0, 0.0, 1e-12));
    assert!(close(b.dot(&c).0, 0.0, 1e-12));
}

#[test]
fn cross_is_orthogonal_exactly_where_nothing_rounds() {
    let a = vec3(1.0, 2.0, 3.0);
    let b = vec3(-4.0, 5.0, 0.5);
    assert_eq!(a.dot(&a.cross(&b)).0, 0.0);
}

#[test]
fn cross_changes_sign_when_swapped() {
    let a = vec3(0.3, -1.7, 2.9);
    let b = vec3(-4.1, 0.6, 1.3);
    let c = a.cross(&b);
    let d = b.cross(&a);
    assert_eq!((c.0).0, -(d.0).0);
    assert_eq!((c.1).0, -(d.1).0);
    assert_eq!((c.2).0, -(d.2).0);
}

#[test]
fn dot_does_not_depend_on_the_order() {
    let a = vec3(0.3, -1.7, 2.9);
    let b = vec3(-4.1, 0.6, 1.3);
    assert_eq!(a.dot(&b).0, b.dot(&a).0);
}
