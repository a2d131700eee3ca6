use ray_tracing_rust::math::FLOAT_EQ_EPS;
use ray_tracing_rust::math::Scalar;
use ray_tracing_rust::math::Tuple4D;
use ray_tracing_rust::math::float_eq;

fn sc(n: i64) -> Scalar {
    Scalar::from_int(n)
}

fn scm(micros: i64) -> Scalar {
    Scalar::from_micros(micros)
}

fn eps() -> Scalar {
    Scalar::from_raw(FLOAT_EQ_EPS)
}

#[test]
fn vector_is_not_point() {
    let vec = Tuple4D::new_vector(sc(1), sc(3), sc(7));
    assert!(!vec.is_point());
    let vec = Tuple4D::new_vector(sc(2), sc(6), sc(11));
    assert!(!vec.is_point());
    let vec = Tuple4D::new_vector(sc(1), sc(3), sc(7));
    assert!(!vec.is_point());
}

#[test]
fn vector_is_vector() {
    let vec = Tuple4D::new_vector(sc(1), sc(3), sc(7));
    assert!(vec.is_vector());
    let vec = Tuple4D::new_vector(sc(2), sc(6), sc(11));
    assert!(vec.is_vector());
    let vec = Tuple4D::new_vector(sc(-1), sc(3), sc(-7));
    assert!(vec.is_vector());
}

#[test]
fn vector_has_zero_valued_w() {
    let vec = Tuple4D::new_vector(sc(1), sc(3), sc(7));
    assert!(float_eq(vec.w, sc(0), eps()));
}

#[test]
fn point_is_not_vector() {
    let point = Tuple4D::new_point(sc(1), sc(3), sc(7));
    assert!(!point.is_vector());
    let point = Tuple4D::new_point(sc(2), sc(6), sc(11));
    assert!(!point.is_vector());
    let point = Tuple4D::new_point(sc(-1), sc(3), sc(-7));
    assert!(!point.is_vector());
}

#[test]
fn point_is_point() {
    let point = Tuple4D::new_point(sc(1), sc(3), sc(7));
    assert!(point.is_point());
    let point = Tuple4D::new_point(sc(2), sc(6), sc(11));
    assert!(point.is_point());
    let point = Tuple4D::new_point(sc(-1), sc(3), sc(-7));
    assert!(point.is_point());
}

#[test]
fn point_has_w_value_of_one() {
    let point = Tuple4D::new_point(sc(1), sc(3), sc(7));
    assert!(float_eq(point.w, sc(1), eps()));
}

#[test]
fn tuple_4d_equal_test() {
    let a = Tuple4D::new_point(
        scm(500_000).add(scm(300_000)).add(scm(200_000)),
        scm(200_000).add(scm(100_000)).sub(scm(400_000)),
        scm(-600_000).sub(scm(300_000)),
    );
    let b = Tuple4D::new_point(
        scm(400_000).add(scm(300_000)).add(scm(200_000)).add(scm(100_000)),
        scm(-100_000),
        scm(-300_000).sub(scm(300_000)).sub(scm(300_000)),
    );
    assert_eq!(a, b);
}

#[test]
fn tuple_4d_unequal_test() {
    let a = Tuple4D::new_point(
        scm(500_000).add(scm(300_000)).add(scm(200_000)),
        scm(200_000).add(scm(100_000)).sub(scm(400_000)),
        scm(-600_000).sub(scm(300_000)),
    );
    let b = Tuple4D::new_point(
        scm(400_000).add(scm(300_000)).add(scm(200_000)).add(scm(100_000)),
        scm(-100_000),
        scm(-300_000),
    );
    assert_ne!(a, b);
}

#[test]
fn add_vector_to_point_is_point() {
    let a = Tuple4D::new_point(sc(3), sc(-2), sc(5));
    let b = Tuple4D::new_vector(sc(-2), sc(3), sc(1));
    assert_eq!(a.add(b), Tuple4D::new_point(sc(1), sc(1), sc(6)));
}

#[test]
fn subtracting_point_from_point_is_vector() {
    let a = Tuple4D::new_point(sc(3), sc(2), sc(1));
    let b = Tuple4D::new_point(sc(5), sc(6), sc(7));
    assert_eq!(a.sub(b), Tuple4D::new_vector(sc(-2), sc(-4), sc(-6)));
}

#[test]
fn subtracting_vector_from_point_is_point() {
    let pt_a = Tuple4D::new_point(sc(3), sc(2), sc(1));
    let vec_b = Tuple4D::new_vector(sc(5), sc(6), sc(7));
    assert_eq!(pt_a.sub(vec_b), Tuple4D::new_point(sc(-2), sc(-4), sc(-6)));
}

#[test]
fn subtracting_two_vectors_is_vector() {
    let vec_a = Tuple4D::new_vector(sc(3), sc(2), sc(1));
    let vec_b = Tuple4D::new_vector(sc(5), sc(6), sc(7));
    assert_eq!(vec_a.sub(vec_b), Tuple4D::new_vector(sc(-2), sc(-4), sc(-6)));
}

#[test]
fn negating_tuple() {
    let a = Tuple4D::new_vector(sc(1), sc(-2), sc(3));
    assert_eq!(a.neg(), Tuple4D::new_vector(sc(-1), sc(2), sc(-3)));

    let a = Tuple4D::new_point(sc(1), sc(-2), sc(3));
    assert_eq!(
        a.neg(),
        Tuple4D { x: sc(-1), y: sc(2), z: sc(-3), w: sc(-1) }
    );
}

#[test]
fn multiplying_tuple_by_scalars() {
    let a = Tuple4D::new_point(sc(1), sc(-2), sc(3));
    assert_eq!(
        a.mul(scm(3_500_000)),
        Tuple4D { x: scm(3_500_000), y: sc(-7), z: scm(10_500_000), w: scm(3_500_000) }
    );

    let b = Tuple4D::new_point(sc(1), sc(-2), sc(3));
    assert_eq!(
        b.mul(scm(500_000)),
        Tuple4D { x: scm(500_000), y: sc(-1), z: scm(1_500_000), w: scm(500_000) }
    );
}

#[test]
fn dividing_tuple_by_scalar() {
    let a = Tuple4D::new_point(sc(1), sc(-2), sc(3));
    assert_eq!(
        a.div(sc(2)),
        Tuple4D { x: scm(500_000), y: sc(-1), z: scm(1_500_000), w: scm(500_000) }
    );
}

#[test]
fn check_magnitude() {
    let a = Tuple4D::new_vector(sc(0), sc(1), sc(0));
    assert_eq!(a.magnitude(), sc(1));
    let b = Tuple4D::new_vector(sc(0), sc(0), sc(1));
    assert_eq!(b.magnitude(), sc(1));
    let c = Tuple4D::new_vector(sc(2), sc(3), sc(4));
    assert_eq!(c.magnitude(), sc(29).sqrt());
    let d = Tuple4D::new_point(sc(1), sc(1), sc(1));
    assert_eq!(d.magnitude(), sc(2));
}

#[test]
fn check_normalizations() {
    let a = Tuple4D::new_vector(sc(4), sc(0), sc(0));
    assert_eq!(a.normalize(), Tuple4D::new_vector(sc(1), sc(0), sc(0)));
    assert_eq!(a.normalize().magnitude(), sc(1));

    let b = Tuple4D::new_vector(sc(1), sc(2), sc(3));
    assert_eq!(
        b.normalize(),
        Tuple4D::new_vector(
            sc(1).div(sc(14).sqrt()),
            sc(2).div(sc(14).sqrt()),
            sc(3).div(sc(14).sqrt()),
        )
    );
    assert_eq!(b.normalize().magnitude(), sc(1));
}

#[test]
fn check_dot_product() {
    let a = Tuple4D::new_vector(sc(1), sc(2), sc(3));
    let b = Tuple4D::new_vector(sc(2), sc(3), sc(4));
    assert_eq!(a.dot(b), sc(20));
}

#[test]
fn check_cross_product() {
    let a = Tuple4D::new_vector(sc(1), sc(2), sc(3));
    let b = Tuple4D::new_vector(sc(2), sc(3), sc(4));
    assert_eq!(a.cross(b), Tuple4D::new_vector(sc(-1), sc(2), sc(-1)));
    assert_eq!(b.cross(a), Tuple4D::new_vector(sc(1), sc(-2), sc(1)));
}
