use rendercore::fx::{div_fx, isqrt, mul_fx, sincos, tan, SCALE};
use rendercore::mat4::{Mat4Fx, QuatFx};
use rendercore::vec3::Vec3Fx;

#[test]
fn fixed_point_products_truncate_toward_zero() {
    assert_eq!(mul_fx(2_000_000, 3_000_000), 6_000_000);
    assert_eq!(mul_fx(-2_000_000, 3_000_000), -6_000_000);
    assert_eq!(mul_fx(1, 1), 0);
    assert_eq!(mul_fx(999_999, 1), 0);
    assert_eq!(mul_fx(-1, 999_999), 0);
}

#[test]
fn fixed_point_quotients() {
    assert_eq!(div_fx(1_000_000, 3_000_000), 333_333);
    assert_eq!(div_fx(-1_000_000, 3_000_000), -333_333);
    assert_eq!(div_fx(1_000_000, -3_000_000), -333_333);
    assert_eq!(div_fx(5, 0), 0);
}

#[test]
fn integer_square_roots_round_down() {
    assert_eq!(isqrt(0), 0);
    assert_eq!(isqrt(15), 3);
    assert_eq!(isqrt(16), 4);
    assert_eq!(isqrt(5_000_000_000_000), 2_236_067);
}

#[test]
fn sine_and_cosine_near_reference_values() {
    let (s, c) = sincos(1_570_796);  // a quarter turn
    assert!((s - SCALE).abs() <= 50, "sin(pi/2) = {}", s);
    assert!(c.abs() <= 50, "cos(pi/2) = {}", c);
    let (s2, c2) = sincos(3_141_592);  // half a turn
    assert!(s2.abs() <= 50, "sin(pi) = {}", s2);
    assert!((c2 + SCALE).abs() <= 50, "cos(pi) = {}", c2);
    let t = tan(785_398);  // an eighth of a turn
    assert!((t - SCALE).abs() <= 100, "tan(pi/4) = {}", t);
}

#[test]
fn normalize_scales_to_unit_length() {
    let v = Vec3Fx::new(3_000_000, 4_000_000, 0);
    let n = v.normalize();
    assert_eq!(n.x, 600_000);
    assert_eq!(n.y, 800_000);
    assert_eq!(n.z, 0);
    assert_eq!(Vec3Fx::zero().normalize(), Vec3Fx::new(0, 0, 0));
}

#[test]
fn cross_product_of_axes() {
    let x = Vec3Fx::new(SCALE, 0, 0);
    let y = Vec3Fx::new(0, SCALE, 0);
    assert_eq!(x.cross(y), Vec3Fx::new(0, 0, SCALE));
    assert_eq!(y.cross(x), Vec3Fx::new(0, 0, -SCALE));
}

#[test]
fn rotation_quaternion_half_turn_about_x() {
    let q = QuatFx::from_rotation_x(3_141_592);
    assert!((q.x - SCALE).abs() <= 50);
    assert_eq!(q.y, 0);
    assert_eq!(q.z, 0);
    assert!(q.w.abs() <= 50);
    let m = Mat4Fx::from_rotation_translation(q, Vec3Fx::new(0, 0, 0));
    // a half turn about x keeps x and flips y and z
    assert!((m.x_axis.x - SCALE).abs() <= 100);
    assert!((m.y_axis.y + SCALE).abs() <= 100);
    assert!((m.z_axis.z + SCALE).abs() <= 100);
}

#[test]
fn identity_matrix_diagonal() {
    let m = Mat4Fx::identity();
    assert_eq!(m.x_axis.x, SCALE);
    assert_eq!(m.y_axis.y, SCALE);
    assert_eq!(m.z_axis.z, SCALE);
    assert_eq!(m.w_axis.w, SCALE);
    assert_eq!(m.x_axis.y, 0);
    // the identity is its own square
    assert_eq!(m.mul(&m), m);
}
