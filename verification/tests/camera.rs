use rendercore::camera::{Camera, CameraUniform};
use rendercore::fx::SCALE;
use rendercore::input::KeyCode;
use rendercore::vec3::Vec3Fx;

fn demo_camera() -> Camera {
    Camera {
        eye: Vec3Fx::new(0, SCALE, 2 * SCALE),
        target: Vec3Fx::new(0, 0, 0),
        up: Vec3Fx::new(0, SCALE, 0),
        aspect: 1_777_777,
        fov_y: 45 * SCALE,
        z_near: 100_000,
        z_far: 100 * SCALE,
        uniform: CameraUniform::new(),
        speed: 10 * SCALE,
    }
}

fn to_f64(v: i64) -> f64 {
    v as f64 / 1.0e6
}

#[test]
fn forward_key_moves_eye_along_normalized_forward() {
    // eye (0, 1, 2), target origin, speed 10, delta 0.1 s, one W press:
    // the eye advances 1.0 along (target - eye) normalized
    let mut cam = demo_camera();
    let keys = vec![KeyCode::W];
    cam.update(&keys, 100_000);
    let inv_len = 1.0 / 5.0f64.sqrt();
    let expected = [
        0.0,
        1.0 + 10.0 * 0.1 * (-1.0 * inv_len),
        2.0 + 10.0 * 0.1 * (-2.0 * inv_len),
    ];
    assert!((to_f64(cam.eye.x) - expected[0]).abs() < 1.0e-5);
    assert!((to_f64(cam.eye.y) - expected[1]).abs() < 1.0e-5);
    assert!((to_f64(cam.eye.z) - expected[2]).abs() < 1.0e-5);
    assert_eq!(cam.target, Vec3Fx::new(0, 0, 0));
}

#[test]
fn backward_key_moves_eye_opposite() {
    let mut cam = demo_camera();
    cam.update(&vec![KeyCode::S], 100_000);
    let inv_len = 1.0 / 5.0f64.sqrt();
    assert!((to_f64(cam.eye.y) - (1.0 + 1.0 * inv_len)).abs() < 1.0e-5);
    assert!((to_f64(cam.eye.z) - (2.0 + 2.0 * inv_len)).abs() < 1.0e-5);
}

#[test]
fn strafe_keys_move_along_normalized_right() {
    let mut cam = demo_camera();
    cam.update(&vec![KeyCode::D], 100_000);
    // right = normalize(forward x up) has a positive x component and
    // no movement in y for this camera
    assert!(to_f64(cam.eye.x) > 0.9);
    let mut cam2 = demo_camera();
    cam2.update(&vec![KeyCode::A], 100_000);
    assert!(to_f64(cam2.eye.x) < -0.9);
}

#[test]
fn fallback_key_does_not_move() {
    let mut cam = demo_camera();
    let before = cam.eye;
    cam.update(&vec![KeyCode::Return], 100_000);
    assert_eq!(cam.eye, before);
}

#[test]
fn idle_update_leaves_camera_unchanged() {
    // empty key list, zero delta: eye, target, and matrix stay put
    let mut cam = demo_camera();
    cam.uniform.view_projection = cam.build_view_projection_matrix();
    let before_eye = cam.eye;
    let before_target = cam.target;
    let before_vp = cam.uniform.view_projection;
    cam.update(&vec![], 0);
    assert_eq!(cam.eye, before_eye);
    assert_eq!(cam.target, before_target);
    assert_eq!(cam.uniform.view_projection, before_vp);
}

#[test]
fn update_recomputes_cached_matrix() {
    let mut cam = demo_camera();
    cam.update(&vec![], 0);
    assert_eq!(cam.uniform.view_projection, cam.build_view_projection_matrix());
}

#[test]
fn two_keys_in_one_frame_rederive_forward_between_steps() {
    // after W the forward direction changes, so W then A differs from
    // a single combined displacement computed up front
    let mut cam = demo_camera();
    cam.update(&vec![KeyCode::W, KeyCode::A], 100_000);
    let mut cam_w = demo_camera();
    cam_w.update(&vec![KeyCode::W], 100_000);
    let mut cam_then_a = cam_w.clone();
    cam_then_a.update(&vec![KeyCode::A], 100_000);
    assert_eq!(cam.eye, cam_then_a.eye);
}

#[test]
fn view_projection_of_nondegenerate_camera_is_invertible() {
    // determinant of the full view-projection, computed in floats
    // from the fixed-point entries, stays well away from zero
    let cam = demo_camera();
    let m = cam.build_view_projection_matrix();
    let a = [
        [to_f64(m.x_axis.x), to_f64(m.x_axis.y), to_f64(m.x_axis.z), to_f64(m.x_axis.w)],
        [to_f64(m.y_axis.x), to_f64(m.y_axis.y), to_f64(m.y_axis.z), to_f64(m.y_axis.w)],
        [to_f64(m.z_axis.x), to_f64(m.z_axis.y), to_f64(m.z_axis.z), to_f64(m.z_axis.w)],
        [to_f64(m.w_axis.x), to_f64(m.w_axis.y), to_f64(m.w_axis.z), to_f64(m.w_axis.w)],
    ];
    assert!(det4(&a).abs() > 1.0e-6, "det = {}", det4(&a));
    // the projection factor's diagonal entries are nonzero, the
    // condition under which invertibility of the projection is proved
    let p = rendercore::mat4::Mat4Fx::perspective_rh(cam.fov_y, cam.aspect, cam.z_near, cam.z_far);
    assert!(p.x_axis.x != 0 && p.y_axis.y != 0 && p.w_axis.z != 0);
}

fn det3(a: &[[f64; 3]; 3]) -> f64 {
    a[0][0] * (a[1][1] * a[2][2] - a[1][2] * a[2][1])
        - a[0][1] * (a[1][0] * a[2][2] - a[1][2] * a[2][0])
        + a[0][2] * (a[1][0] * a[2][1] - a[1][1] * a[2][0])
}

fn det4(a: &[[f64; 4]; 4]) -> f64 {
    let mut det = 0.0;
    for col in 0..4 {
        let mut minor = [[0.0f64; 3]; 3];
        for r in 1..4 {
            let mut cc = 0;
            for c in 0..4 {
                if c != col {
                    minor[r - 1][cc] = a[r][c];
                    cc += 1;
                }
            }
        }
        let sign = if col % 2 == 0 { 1.0 } else { -1.0 };
        det += sign * a[0][col] * det3(&minor);
    }
    det
}
