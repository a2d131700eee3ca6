use ray_tracing_rust::math::FLOAT_EQ_EPS;
use ray_tracing_rust::math::Matrix2;
use ray_tracing_rust::math::Matrix3;
use ray_tracing_rust::math::Matrix4;
use ray_tracing_rust::math::Scalar;
use ray_tracing_rust::math::Tuple4D;
use ray_tracing_rust::math::float_eq;

fn sc(n: i64) -> Scalar {
    Scalar::from_int(n)
}

fn eps() -> Scalar {
    Scalar::from_raw(FLOAT_EQ_EPS)
}

fn mat4i(rows: [[i64; 4]; 4]) -> Matrix4 {
    let mut m = Matrix4::zeros();
    for i in 0..4 {
        for j in 0..4 {
            m.set(i, j, Scalar::from_int(rows[i][j]));
        }
    }
    m
}

fn mat4m(rows: [[i64; 4]; 4]) -> Matrix4 {
    let mut m = Matrix4::zeros();
    for i in 0..4 {
        for j in 0..4 {
            m.set(i, j, Scalar::from_micros(rows[i][j]));
        }
    }
    m
}

fn mat3i(rows: [[i64; 3]; 3]) -> Matrix3 {
    let mut m = Matrix3::zeros();
    for i in 0..3 {
        for j in 0..3 {
            m.set(i, j, Scalar::from_int(rows[i][j]));
        }
    }
    m
}

#[test]
fn matrix_matrix_equality() {
    let matrix = mat4i([[1, 5, 9, 5], [2, 6, 8, 4], [3, 7, 7, 3], [4, 8, 6, 2]]);
    let matrix2 = matrix.clone();
    let mut matrix = matrix;
    matrix.set(0, 0, Scalar::from_raw(1_000_000_001_000));
    assert_eq!(matrix, matrix2)
}

#[test]
fn matrix_matrix_inequality() {
    let matrix = mat4i([[1, 5, 9, 5], [2, 6, 8, 4], [3, 7, 7, 3], [4, 8, 6, 2]]);
    let matrix2 = matrix.clone();
    let mut matrix = matrix;
    matrix.set(3, 3, sc(3));
    assert_ne!(matrix, matrix2);
}

#[test]
fn mult_with_identity() {
    let matrix = mat4i([[-2, 1, 2, 3], [3, 2, 1, -1], [4, 3, 6, 5], [1, 2, 7, 8]]);
    assert_eq!(matrix.mul(&Matrix4::eye()), matrix)
}

#[test]
fn mult_tupl_with_identity() {
    let tuple = Tuple4D::new_point(sc(1), sc(2), sc(30));
    assert_eq!(Matrix4::eye().mul_tuple(tuple), tuple);
}

#[test]
fn matrix_mult() {
    let matrix = mat4i([[1, 2, 3, 4], [5, 6, 7, 8], [9, 8, 7, 6], [5, 4, 3, 2]]);
    let matrix2 = mat4i([[-2, 1, 2, 3], [3, 2, 1, -1], [4, 3, 6, 5], [1, 2, 7, 8]]);
    let matrix_expected = mat4i(
        [[20, 22, 50, 48], [44, 54, 114, 108], [40, 58, 110, 102], [16, 26, 46, 42]],
    );
    assert_eq!(matrix.mul(&matrix2), matrix_expected)
}

#[test]
fn matrix_tuple_product() {
    let matrix = mat4i([[1, 2, 3, 4], [2, 4, 4, 2], [8, 6, 4, 1], [0, 0, 0, 1]]);
    let point = Tuple4D::new_point(sc(1), sc(2), sc(3));
    assert_eq!(matrix.mul_tuple(point), Tuple4D::new_point(sc(18), sc(24), sc(33)))
}

#[test]
fn transposition() {
    let matrix = mat4i([[-2, 1, 2, 3], [3, 2, 1, -1], [4, 3, 6, 5], [1, 2, 7, 8]]);
    let expected = mat4i([[-2, 3, 4, 1], [1, 2, 3, 2], [2, 1, 6, 7], [3, -1, 5, 8]]);
    assert_eq!(matrix.transpose(), expected)
}

#[test]
fn matrix_submatrix() {
    let matrix = mat4i([[-2, 1, 2, 3], [3, 2, 1, -1], [4, 3, 6, 5], [1, 2, 7, 8]]);
    let expected_submatrix = mat3i([[-2, 2, 3], [3, 1, -1], [4, 6, 5]]);
    assert_eq!(matrix.submatrix(3, 1), expected_submatrix);
}

#[test]
fn matrix_determinant() {
    let matrix = mat4i([[-2, -8, 3, 5], [-3, 1, 7, 3], [1, 2, -9, 6], [-6, 7, 7, -9]]);

    assert!(float_eq(matrix.cofactor(0, 0), sc(690), eps()));
    assert!(float_eq(matrix.cofactor(0, 1), sc(447), eps()));
    assert!(float_eq(matrix.cofactor(0, 2), sc(210), eps()));
    assert!(float_eq(matrix.cofactor(0, 3), sc(51), eps()));
    assert!(float_eq(matrix.determinant(), sc(-4071), eps()));
}

#[test]
fn non_invertible() {
    let matrix = mat4i([[-4, 2, -2, -3], [9, 6, 2, 6], [0, -5, 1, -5], [0, 0, 0, 0]]);
    assert_eq!(matrix.inverse(), None)
}

#[test]
fn inverse() {
    let matrix = mat4i([[-5, 2, 6, -8], [1, -5, 1, 8], [7, 7, -6, -7], [1, -3, 7, 4]]);

    assert!(float_eq(matrix.determinant(), sc(532), eps()));
    assert!(float_eq(matrix.cofactor(2, 3), sc(-160), eps()));

    let expected_inv = mat4m(
        [
            [218_050, 451_130, 240_600, -45_110],
            [-808_270, -1_456_770, -443_610, 520_680],
            [-78_950, -223_680, -52_630, 197_370],
            [-522_560, -813_910, -300_750, 306_390],
        ],
    );
    assert_eq!(matrix.inverse().unwrap(), expected_inv);
}

#[test]
fn inverse_multiplication() {
    let matrix = mat4i([[3, -9, 7, 3], [3, -8, 2, -9], [-4, 4, 4, 1], [-6, 5, -1, 1]]);
    let matrix2 = mat4i([[-2, 1, 2, 3], [3, 2, 1, -1], [4, 3, 6, 5], [1, 2, 7, 8]]);

    let matrix3 = matrix.mul(&matrix2);
    assert_eq!(matrix, matrix3.mul(&matrix2.inverse().unwrap()))
}

#[test]
fn matrix2_determinant() {
    let mut mat = Matrix2::zeros();
    mat.set(0, 0, sc(1));
    mat.set(1, 0, sc(5));
    mat.set(0, 1, sc(-3));
    mat.set(1, 1, sc(2));
    assert!(float_eq(mat.determinant(), sc(17), eps()))
}

#[test]
fn matrix3_matrix_equality() {
    let matrix = mat3i([[1, 5, 9], [2, 6, 8], [3, 7, 7]]);
    let matrix2 = matrix.clone();
    let mut matrix = matrix;
    matrix.set(0, 0, Scalar::from_raw(1_000_000_001_000));
    assert_eq!(matrix, matrix2)
}

#[test]
fn matrix3_matrix_inequality() {
    let matrix = mat3i([[1, 5, 9], [2, 6, 8], [3, 7, 7]]);
    let matrix2 = matrix.clone();
    let mut matrix = matrix;
    matrix.set(2, 2, sc(3));
    assert_ne!(matrix, matrix2);
}

#[test]
fn matrix3_submatrix() {
    let matrix = mat3i([[1, 5, 9], [2, 6, 8], [3, 7, 7]]);
    let mut expected_submatrix = Matrix2::zeros();
    expected_submatrix.set(0, 0, sc(5));
    expected_submatrix.set(1, 0, sc(6));
    expected_submatrix.set(0, 1, sc(9));
    expected_submatrix.set(1, 1, sc(8));
    assert_eq!(matrix.submatrix(2, 0), expected_submatrix)
}

#[test]
fn minor() {
    let matrix = mat3i([[3, 5, 0], [2, -1, -7], [6, -1, 5]]);

    assert!(float_eq(matrix.minor(1, 0), sc(25), eps()))
}

#[test]
fn minor_and_cofactors() {
    let matrix = mat3i([[3, 5, 0], [2, -1, -7], [6, -1, 5]]);

    assert!(float_eq(matrix.minor(1, 0), sc(25), eps()));
    assert!(float_eq(matrix.cofactor(1, 0), sc(-25), eps()));
    assert!(float_eq(matrix.minor(0, 0), sc(-12), eps()));
    assert!(float_eq(matrix.cofactor(0, 0), sc(-12), eps()));
}

#[test]
fn matrix3_determinant() {
    let matrix = mat3i([[1, 2, 6], [-5, 8, -4], [2, 6, 4]]);

    assert!(float_eq(matrix.cofactor(0, 0), sc(56), eps()));
    assert!(float_eq(matrix.cofactor(0, 1), sc(12), eps()));
    assert!(float_eq(matrix.cofactor(0, 2), sc(-46), eps()));
    assert!(float_eq(matrix.determinant(), sc(-196), eps()));
}
