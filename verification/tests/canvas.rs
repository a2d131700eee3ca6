use ray_tracing_rust::Canvas;
use ray_tracing_rust::Color;
use ray_tracing_rust::math::Scalar;

fn sc(n: i64) -> Scalar {
    Scalar::from_int(n)
}

fn scm(micros: i64) -> Scalar {
    Scalar::from_micros(micros)
}

#[test]
fn creation() {
    let canvas = Canvas::create_canvas(20, 8);
    assert_eq!(canvas.read_pixel(19, 7), Color::new(sc(0), sc(0), sc(0)))
}

#[test]
fn setting_pixel() {
    let mut canvas = Canvas::create_canvas(20, 8);
    canvas.write_pixel(19, 7, Color::new(scm(1_200_000), scm(200_000), sc(0)));
    assert_eq!(canvas.read_pixel(19, 7), Color::new(scm(1_200_000), scm(200_000), sc(0)))
}

#[test]
fn ppm_format_test() {
    let mut canvas = Canvas::create_canvas(5, 3);
    canvas.write_pixel(0, 0, Color { r: scm(1_500_000), g: sc(0), b: sc(0) });
    canvas.write_pixel(2, 1, Color { r: sc(0), g: scm(500_000), b: sc(0) });
    canvas.write_pixel(4, 2, Color { r: scm(-500_000), g: sc(0), b: sc(1) });
    let ppm_str = canvas.to_ppm_str();
    let ppm_str_expected = "P3\n\
        5 3\n\
        255\n\
        255 0 0 0 0 0 0 0 0 0 0 0 0 0 0\n\
        0 0 0 0 0 0 0 128 0 0 0 0 0 0 0\n\
        0 0 0 0 0 0 0 0 0 0 0 0 0 0 255\n";
    assert_eq!(ppm_str, ppm_str_expected)
}

#[test]
fn ppm_long_line_splitting() {
    let mut canvas = Canvas::create_canvas(10, 2);
    let color = Color::new(sc(1), scm(800_000), scm(600_000));
    for row in 0..10 {
        for col in 0..2 {
            canvas.write_pixel(row, col, color);
        }
    }

    let ppm_str = canvas.to_ppm_str();
    let ppm_str_expected = "P3\n\
        10 2\n\
        255\n\
        255 204 153 255 204 153 255 204 153 255 204 153 255 204 153 255 204\n\
        153 255 204 153 255 204 153 255 204 153 255 204 153\n\
        255 204 153 255 204 153 255 204 153 255 204 153 255 204 153 255 204\n\
        153 255 204 153 255 204 153 255 204 153 255 204 153\n";
    assert_eq!(ppm_str, ppm_str_expected)
}

#[test]
fn ppm_ends_with_newline() {
    let canvas = Canvas::create_canvas(5, 3);
    let str = canvas.to_ppm_str();
    assert_eq!(str.chars().nth_back(0), Some('\n'))
}

#[test]
fn ppm_of_empty_canvas_is_header_only() {
    let canvas = Canvas::create_canvas(0, 0);
    assert_eq!(canvas.to_ppm_str(), "P3\n0 0\n255\n");
}

#[test]
fn ppm_clamps_channels_to_byte_range() {
    let mut canvas = Canvas::create_canvas(1, 1);
    canvas.write_pixel(0, 0, Color::new(sc(3), scm(-2_000_000), scm(999_996)));
    assert_eq!(canvas.to_ppm_str(), "P3\n1 1\n255\n255 0 255\n");
}
