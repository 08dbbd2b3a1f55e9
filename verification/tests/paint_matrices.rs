use render_math::rational::Rational;
use render_math::transform::{
    invert_paint_transform_bitmap, invert_paint_transform_fixed, AffineTransform,
    DegenerateTransform, RenderMatrix,
};
use render_math::units::{Fixed16, Twips};

fn value(r: Rational) -> f64 {
    r.num as f64 / r.den as f64
}

fn transform(sx: i32, r0: i32, r1: i32, sy: i32, tx: i32, ty: i32) -> AffineTransform {
    AffineTransform {
        scale_x: Fixed16::new(sx),
        scale_y: Fixed16::new(sy),
        rotate_skew_0: Fixed16::new(r0),
        rotate_skew_1: Fixed16::new(r1),
        translate_x: Twips::new(tx),
        translate_y: Twips::new(ty),
    }
}

fn identity() -> AffineTransform {
    AffineTransform {
        scale_x: Fixed16::from_int(1),
        scale_y: Fixed16::from_int(1),
        rotate_skew_0: Fixed16::new(0),
        rotate_skew_1: Fixed16::new(0),
        translate_x: Twips::new(0),
        translate_y: Twips::new(0),
    }
}

fn close(a: f64, b: f64) -> bool {
    (a - b).abs() <= 1e-9 * (1.0 + a.abs() + b.abs())
}

fn cell(m: &RenderMatrix, col: usize, row: usize) -> f64 {
    value(m.cols[col][row])
}

#[test]
fn gradient_identity_yields_gradient_square_scale_and_half_offset() {
    let m = invert_paint_transform_fixed(&identity()).unwrap();
    assert!(close(cell(&m, 0, 0), 20.0 / 32768.0));
    assert!(close(cell(&m, 1, 0), 0.0));
    assert!(close(cell(&m, 0, 1), 0.0));
    assert!(close(cell(&m, 1, 1), 20.0 / 32768.0));
    assert!(close(cell(&m, 2, 0), 0.5));
    assert!(close(cell(&m, 2, 1), 0.5));
}

#[test]
fn gradient_matrix_carrier_cells_are_fixed() {
    let m = invert_paint_transform_fixed(&identity()).unwrap();
    for col in 0..4 {
        for row in 0..4 {
            let expected = match (col, row) {
                (0, 0) | (1, 1) | (2, 2) => continue,
                (1, 0) | (0, 1) | (2, 0) | (2, 1) => continue,
                _ => 0.0,
            };
            assert_eq!(cell(&m, col, row), expected);
        }
    }
    assert_eq!(cell(&m, 2, 2), 1.0);
}

#[test]
fn bitmap_identity_yields_per_axis_pixel_scale() {
    let m = invert_paint_transform_bitmap(&identity(), 100, 50).unwrap();
    assert!(close(cell(&m, 0, 0), 0.2));
    assert!(close(cell(&m, 1, 0), 0.0));
    assert!(close(cell(&m, 0, 1), 0.0));
    assert!(close(cell(&m, 1, 1), 0.4));
    assert!(close(cell(&m, 2, 0), 0.0));
    assert!(close(cell(&m, 2, 1), 0.0));
}

#[test]
fn degenerate_transform_is_reported_for_gradient() {
    let t = transform(0, 0, 0, 0, 40, -40);
    assert_eq!(invert_paint_transform_fixed(&t), Err(DegenerateTransform));
}

#[test]
fn degenerate_transform_is_reported_for_bitmap() {
    let t = transform(0, 0, 0, 0, 0, 0);
    assert_eq!(invert_paint_transform_bitmap(&t, 100, 50), Err(DegenerateTransform));
}

#[test]
fn singular_skew_only_transform_is_degenerate() {
    // Nonzero components whose determinant is still zero.
    let t = transform(65536, 32768, 131072, 65536, 100, 200);
    assert!(invert_paint_transform_fixed(&t).is_err());
}

#[test]
fn invertible_transform_succeeds() {
    let t = transform(131072, 16384, -8192, 65536, 300, -700);
    assert!(invert_paint_transform_fixed(&t).is_ok());
    assert!(invert_paint_transform_bitmap(&t, 64, 64).is_ok());
}

#[test]
fn gradient_matrix_of_scaled_placement_has_exact_cells() {
    // Pure scale by 2: the inverse linear part is half the identity case.
    let t = transform(131072, 0, 0, 131072, 0, 0);
    let m = invert_paint_transform_fixed(&t).unwrap();
    assert!(close(cell(&m, 0, 0), 10.0 / 32768.0));
    assert!(close(cell(&m, 1, 1), 10.0 / 32768.0));
    assert!(close(cell(&m, 2, 0), 0.5));
    assert!(close(cell(&m, 2, 1), 0.5));
}

#[test]
fn bitmap_round_trip_restores_points() {
    // A rotated, skewed, translated placement; undoing the renormalization
    // and composing with the forward map must give every point back.
    let t = transform(98304, 16384, -24576, 81920, 250, -125);
    let (w, h) = (100u32, 50u32);
    let m = invert_paint_transform_bitmap(&t, w, h).unwrap();
    let k = 65536.0f64;
    for &(x, y) in &[(0.0f64, 0.0f64), (20.0, 0.0), (-300.0, 175.0), (12345.0, -9876.0)] {
        // Forward placement, in twips.
        let fx = (98304.0 * x + (-24576.0) * y) / k + 250.0;
        let fy = (16384.0 * x + 81920.0 * y) / k + (-125.0);
        // Denormalized inverse: linear cells scaled back by dim / 20,
        // translation cells scaled back by dim.
        let a = cell(&m, 0, 0) * w as f64 / 20.0;
        let b = cell(&m, 1, 0) * w as f64 / 20.0;
        let c = cell(&m, 2, 0) * w as f64;
        let d = cell(&m, 0, 1) * h as f64 / 20.0;
        let e = cell(&m, 1, 1) * h as f64 / 20.0;
        let f = cell(&m, 2, 1) * h as f64;
        let back_x = a * fx + b * fy + c;
        let back_y = d * fx + e * fy + f;
        assert!(close(back_x, x));
        assert!(close(back_y, y));
    }
}

#[test]
fn bitmap_translation_cells_divide_by_dimensions() {
    // Identity linear part with a translation of (40, -80) twips.
    let t = transform(65536, 0, 0, 65536, 40, -80);
    let m = invert_paint_transform_bitmap(&t, 10, 20).unwrap();
    // The inverse translation is (-40, 80) twips, divided per axis.
    assert!(close(cell(&m, 2, 0), -40.0 / 10.0));
    assert!(close(cell(&m, 2, 1), 80.0 / 20.0));
}
