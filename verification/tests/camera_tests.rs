use meshview::camera::{Camera, MouseButton, MouseState, SCALE_MAX};
use meshview::geometry::{ColorFx, GPUVertex};
use meshview::vecmath::{mat4_apply, QuatFx, Vec2Fx, Vec3Fx};

const FX: i64 = 1_000_000;

fn vert(x: i64, y: i64, z: i64) -> GPUVertex {
    GPUVertex {
        pos: Vec3Fx { x, y, z },
        norm: Vec3Fx { x: 0, y: 0, z: FX },
        color: ColorFx { r: FX, g: FX, b: FX, a: FX },
    }
}

fn tetra() -> Vec<GPUVertex> {
    vec![
        vert(0, 0, 0),
        vert(2 * FX, 0, 0),
        vert(0, 2 * FX, 0),
        vert(0, 0, 2 * FX),
    ]
}

#[test]
fn fit_verts_tetrahedron_scale_and_center() {
    let mut cam = Camera::new(640 * FX, 480 * FX);
    cam.fit_verts(&tetra());
    // 0.8 / 2.0 == 0.4
    assert_eq!(cam.scale, 400_000);
    assert_eq!(cam.center, Vec3Fx { x: FX, y: FX, z: FX });
}

#[test]
fn fit_then_model_matrix_centers_box_at_origin() {
    let mut cam = Camera::new(640 * FX, 480 * FX);
    let verts = tetra();
    cam.fit_verts(&verts);
    let m = cam.model_matrix();
    let mut lo = [i64::MAX; 3];
    let mut hi = [i64::MIN; 3];
    for v in &verts {
        let t = mat4_apply(&m, &v.pos);
        for (k, c) in [t.x, t.y, t.z].into_iter().enumerate() {
            lo[k] = lo[k].min(c);
            hi[k] = hi[k].max(c);
        }
    }
    // Largest dimension is exactly 0.8, and the box is centered at the
    // origin, for this exactly representable input.
    let largest = (0..3).map(|k| hi[k] - lo[k]).max().unwrap();
    assert_eq!(largest, 800_000);
    for k in 0..3 {
        assert_eq!(lo[k] + hi[k], 0);
    }
}

#[test]
fn fit_verts_degenerate_box_is_clamped_not_divided_by_zero() {
    let mut cam = Camera::new(640 * FX, 480 * FX);
    cam.fit_verts(&vec![vert(3 * FX, 3 * FX, 3 * FX); 5]);
    // Zero extent is clamped to one raw unit: an extreme but finite scale.
    assert_eq!(cam.scale, SCALE_MAX);
    assert_eq!(cam.center, Vec3Fx { x: 3 * FX, y: 3 * FX, z: 3 * FX });
}

#[test]
fn view_matrix_aspect_and_clip() {
    let cam = Camera::new(640 * FX, 480 * FX);
    let v = cam.view_matrix();
    assert_eq!(v.m00, FX);
    assert_eq!(v.m11, 1_333_333); // 640/480 rounded toward zero
    assert_eq!(v.m22, 100_000); // Z compressed to a tenth
    assert_eq!(v.m23, 500_000); // pushed half a unit forward
    assert_eq!(v.m33, FX);
    assert_eq!((v.m01, v.m02, v.m03, v.m10, v.m12, v.m13), (0, 0, 0, 0, 0, 0));
}

#[test]
fn set_size_same_dimensions_twice_leaves_view_matrix_unchanged() {
    let mut cam = Camera::new(640 * FX, 480 * FX);
    cam.set_size(1024 * FX, 768 * FX);
    let once = cam.view_matrix();
    cam.set_size(1024 * FX, 768 * FX);
    let twice = cam.view_matrix();
    assert_eq!(once, twice);
}

#[test]
fn mouse_scroll_is_monotonic_and_keeps_scale_positive() {
    let mut cam = Camera::new(640 * FX, 480 * FX);
    let s0 = cam.scale;
    cam.mouse_scroll(120 * FX);
    assert!(cam.scale > s0);
    let s1 = cam.scale;
    cam.mouse_scroll(-120 * FX);
    assert!(cam.scale < s1);
    // Scale never reaches zero or below, whatever the sequence.
    for _ in 0..200 {
        cam.mouse_scroll(-5000 * FX);
    }
    assert!(cam.scale >= 1);
    for _ in 0..200 {
        cam.mouse_scroll(5000 * FX);
        assert!(cam.scale >= 1);
    }
}

#[test]
fn mouse_scroll_round_trip_returns_scale_within_tolerance() {
    let mut cam = Camera::new(640 * FX, 480 * FX);
    let s0 = cam.scale; // 1.0
    cam.mouse_scroll(120 * FX);
    assert_eq!(cam.scale, 1_100_000); // factor 1.1 for 120 pixels
    cam.mouse_scroll(-120 * FX);
    // Inverse factors cancel to within 1e-4 (here: one raw unit).
    assert!((cam.scale - s0).abs() <= 100);
    assert_eq!(cam.scale, 999_999);
}

#[test]
fn horizontal_drag_rotates_about_vertical_axis_only() {
    let mut cam = Camera::new(640 * FX, 480 * FX);
    cam.mouse_move(Vec2Fx { x: 100 * FX, y: 100 * FX });
    cam.mouse_pressed(MouseButton::Primary);
    assert!(matches!(cam.mouse, MouseState::Rotate(_)));
    cam.mouse_move(Vec2Fx { x: 110 * FX, y: 100 * FX });
    // No pitch or roll component; yaw proportional to the 10-pixel delta
    // times the sensitivity (10px * 0.005/px = half-angle 0.05), then
    // renormalized.
    assert_eq!(cam.quat, QuatFx { x: 0, y: 49_937, z: 0, w: 998_752 });
}

#[test]
fn orientation_stays_unit_after_a_drag_sequence() {
    let mut cam = Camera::new(640 * FX, 480 * FX);
    cam.mouse_move(Vec2Fx { x: 0, y: 0 });
    cam.mouse_pressed(MouseButton::Primary);
    let mut x = 0i64;
    let mut y = 0i64;
    for k in 0..300i64 {
        x += (k % 17 - 8) * FX;
        y += (k % 13 - 6) * FX;
        cam.mouse_move(Vec2Fx { x, y });
        let q = cam.quat;
        let n2 = q.x * q.x + q.y * q.y + q.z * q.z + q.w * q.w;
        // Norm squared stays within the drift band around 1 (so the norm
        // itself is within 1e-5 of 1).
        assert!((n2 - 1_000_000_000_000).abs() <= 19_999_900, "drifted at step {k}: {n2}");
    }
}

#[test]
fn pan_drag_moves_center_and_release_frees() {
    let mut cam = Camera::new(640 * FX, 480 * FX);
    cam.fit_verts(&tetra());
    cam.mouse_move(Vec2Fx { x: 320 * FX, y: 240 * FX });
    cam.mouse_pressed(MouseButton::Middle);
    assert!(matches!(cam.mouse, MouseState::Pan(_, _)));
    let c0 = cam.center;
    cam.mouse_move(Vec2Fx { x: 330 * FX, y: 240 * FX });
    assert_ne!(cam.center, c0);
    // The untouched axes of an axis-aligned (identity-orientation) pan
    // stay put.
    assert_eq!(cam.center.y, c0.y);
    assert_eq!(cam.center.z, c0.z);
    cam.mouse_released(MouseButton::Middle);
    assert!(matches!(cam.mouse, MouseState::Free(_)));
}

#[test]
fn press_without_known_position_uses_origin() {
    let mut cam = Camera::new(640 * FX, 480 * FX);
    cam.mouse_pressed(MouseButton::Secondary);
    match cam.mouse {
        MouseState::Pan(p, pivot) => {
            assert_eq!(p, Vec2Fx { x: 0, y: 0 });
            assert_eq!(pivot, Vec3Fx { x: 0, y: 0, z: 0 });
        }
        other => panic!("expected a pan drag, got {other:?}"),
    }
}

#[test]
fn pan_press_at_screen_center_unprojects_onto_view_axis() {
    let mut cam = Camera::new(640 * FX, 480 * FX);
    cam.mouse_move(Vec2Fx { x: 320 * FX, y: 240 * FX });
    cam.mouse_pressed(MouseButton::Secondary);
    match cam.mouse {
        MouseState::Pan(p, pivot) => {
            assert_eq!(p, Vec2Fx { x: 320 * FX, y: 240 * FX });
            // Device coordinates (0,0), taken back through the inverse
            // view transform (depth pushed to +5 by the 0.1 Z scale and
            // the half-unit push), unit scale, identity rotation.
            assert_eq!(pivot, Vec3Fx { x: 0, y: 0, z: 5 * FX });
        }
        other => panic!("expected a pan drag, got {other:?}"),
    }
}

#[test]
fn set_orientation_same_pose_twice_is_idempotent() {
    let mut cam = Camera::new(640 * FX, 480 * FX);
    // A pose quaternion that is not normalized on arrival.
    let q = QuatFx { x: 500_000, y: 500_000, z: 500_000, w: 1_500_000 };
    cam.set_orientation(q);
    let once = cam.quat;
    cam.set_orientation(q);
    assert_eq!(cam.quat, once);
    // An already-unit pose is adopted exactly.
    let unit = QuatFx { x: 0, y: 0, z: 0, w: FX };
    cam.set_orientation(unit);
    assert_eq!(cam.quat, unit);
}
