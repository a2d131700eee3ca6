use ray_tracing_rust::math::FLOAT_EQ_EPS;
use ray_tracing_rust::math::Matrix4;
use ray_tracing_rust::math::SCALE;
use ray_tracing_rust::math::Scalar;
use ray_tracing_rust::math::Tuple4D;
use ray_tracing_rust::math::float_eq;

fn sc(n: i64) -> Scalar {
    Scalar::from_int(n)
}

fn scm(micros: i64) -> Scalar {
    Scalar::from_micros(micros)
}

fn eps() -> Scalar {
    Scalar::from_raw(FLOAT_EQ_EPS)
}

fn mat4i(rows: [[i64; 4]; 4]) -> Matrix4 {
    let mut m = Matrix4::zeros();
    for i in 0..4 {
        for j in 0..4 {
            m.set(i, j, Scalar::from_int(rows[i][j]));
        }
    }
    m
}

#[test]
fn determinant_of_identity_is_one() {
    assert!(float_eq(Matrix4::eye().determinant(), sc(1), eps()));
}

#[test]
fn transpose_twice_returns_original() {
    let matrix = mat4i([[3, -9, 7, 3], [3, -8, 2, -9], [-4, 4, 4, 1], [-6, 5, -1, 1]]);
    assert_eq!(matrix.transpose().transpose(), matrix);
}

#[test]
fn inverse_of_inverse_returns_original() {
    let matrix = mat4i([[-5, 2, 6, -8], [1, -5, 1, 8], [7, 7, -6, -7], [1, -3, 7, 4]]);
    let inv = matrix.inverse().unwrap();
    assert_eq!(inv.inverse().unwrap(), matrix);
}

#[test]
fn matrix_times_own_inverse_is_identity() {
    let matrix = mat4i([[-5, 2, 6, -8], [1, -5, 1, 8], [7, 7, -6, -7], [1, -3, 7, 4]]);
    let inv = matrix.inverse().unwrap();
    assert_eq!(matrix.mul(&inv), Matrix4::eye());
}

#[test]
fn normalized_vector_has_unit_magnitude() {
    let v = Tuple4D::new_vector(sc(-7), scm(2_500_000), sc(11));
    assert!(float_eq(v.normalize().magnitude(), sc(1), eps()));
}

#[test]
fn scalar_raw_units() {
    assert_eq!(sc(1), Scalar::from_raw(SCALE));
    assert_eq!(scm(500_000).mul(sc(3)), scm(1_500_000));
    assert_eq!(sc(3).div(sc(2)), scm(1_500_000));
    assert_eq!(sc(4).sqrt(), sc(2));
}

#[test]
fn float_eq_respects_the_tolerance() {
    assert!(float_eq(sc(1), Scalar::from_raw(SCALE + FLOAT_EQ_EPS - 1), eps()));
    assert!(!float_eq(sc(1), Scalar::from_raw(SCALE + FLOAT_EQ_EPS), eps()));
    assert!(float_eq(sc(-2), Scalar::from_raw(-2 * SCALE + 5), eps()));
}

#[test]
fn dot_product_of_unit_axes_is_zero() {
    let x_axis = Tuple4D::new_vector(sc(1), sc(0), sc(0));
    let y_axis = Tuple4D::new_vector(sc(0), sc(1), sc(0));
    assert_eq!(x_axis.dot(y_axis), sc(0));
    assert_eq!(x_axis.cross(y_axis), Tuple4D::new_vector(sc(0), sc(0), sc(1)));
}
