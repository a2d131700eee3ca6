use ray_tracing_rust::Color;
use ray_tracing_rust::math::Scalar;

fn sc(n: i64) -> Scalar {
    Scalar::from_int(n)
}

fn scm(micros: i64) -> Scalar {
    Scalar::from_micros(micros)
}

#[test]
fn color_init() {
    let col = Color::new(sc(-2), sc(1), scm(400_000));
    let col2 = Color { r: sc(-2), g: sc(1), b: scm(400_000) };
    assert_eq!(col, col2);
}

#[test]
fn colors_adding() {
    let col1 = Color::new(scm(900_000), scm(600_000), scm(750_000));
    let col2 = Color::new(scm(700_000), scm(100_000), scm(250_000));
    assert_eq!(col1.add(col2), Color::new(scm(1_600_000), scm(700_000), sc(1)))
}

#[test]
fn colors_subtracting() {
    let col1 = Color::new(scm(900_000), scm(600_000), scm(750_000));
    let col2 = Color::new(scm(700_000), scm(100_000), scm(250_000));
    assert_eq!(col1.sub(col2), Color::new(scm(200_000), scm(500_000), scm(500_000)))
}

#[test]
fn color_scalar_mult() {
    let col = Color::new(scm(200_000), scm(500_000), scm(500_000));
    assert_eq!(col.mul(sc(2)), Color::new(scm(400_000), sc(1), sc(1)))
}

#[test]
fn color_color_mult() {
    let col = Color::new(sc(1), scm(200_000), scm(400_000));
    let col2 = Color::new(scm(900_000), sc(1), scm(100_000));
    assert_eq!(col.mul_color(col2), Color::new(scm(900_000), scm(200_000), scm(40_000)))
}
