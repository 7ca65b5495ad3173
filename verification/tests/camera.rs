use cubecam::camera::{Angle, Camera, FAR_RAW, NEAR_RAW, QUARTER_TURN_RAW};
use cubecam::fixed::{fx_add, fx_div, fx_from_int, Fx, FX_ONE};
use cubecam::matrix::{Mat4, Vec3};

fn fx(raw: i64) -> Fx {
    Fx { raw }
}

fn vec3(x: i64, y: i64, z: i64) -> Vec3 {
    Vec3 { x: fx(x), y: fx(y), z: fx(z) }
}

fn default_camera() -> Camera {
    // position (0, 0, 1), aspect ratio 4/3
    let aspect = fx_div(fx_from_int(4), fx_from_int(3));
    Camera::new(vec3(0, 0, FX_ONE), aspect)
}

fn as_f64(raw: i64) -> f64 {
    raw as f64 / 65536.0
}

#[test]
fn new_sets_defaults() {
    let cam = default_camera();
    assert_eq!(cam.fov.radians.raw, QUARTER_TURN_RAW);
    assert_eq!(cam.fov.sin.raw, FX_ONE);
    assert_eq!(cam.fov.cos.raw, 0);
    assert_eq!(cam.near.raw, NEAR_RAW);
    assert_eq!(cam.far.raw, FAR_RAW);
    assert_eq!(cam.aspect_ratio.raw, 87381);
    assert!(cam.view_dirty);
    assert!(cam.proj_dirty);
    // identity rotation, translation (0, 0, 1)
    assert_eq!(cam.transform.m00.raw, FX_ONE);
    assert_eq!(cam.transform.m11.raw, FX_ONE);
    assert_eq!(cam.transform.m22.raw, FX_ONE);
    assert_eq!(cam.transform.m33.raw, FX_ONE);
    assert_eq!(cam.transform.m03.raw, 0);
    assert_eq!(cam.transform.m13.raw, 0);
    assert_eq!(cam.transform.m23.raw, FX_ONE);
    assert_eq!(cam.transform.m01.raw, 0);
    assert_eq!(cam.transform.m30.raw, 0);
}

#[test]
fn projection_concrete_values() {
    // fov pi/2 gives y = 1; aspect 4/3 gives x = 0.75; near 0.1, far 1024
    // give a close to -1.0002 and b close to -0.2.
    let mut cam = default_camera();
    let p = cam.projection_matrix();
    assert_eq!(p.m00.raw, 49152);
    assert_eq!(p.m11.raw, FX_ONE);
    assert_eq!(p.m22.raw, -65548);
    assert_eq!(p.m23.raw, -13109);
    assert_eq!(p.m32.raw, -FX_ONE);
    assert_eq!(p.m33.raw, 0);
    assert!((as_f64(p.m00.raw) - 0.75).abs() < 1e-4);
    assert!((as_f64(p.m11.raw) - 1.0).abs() < 1e-4);
    assert!((as_f64(p.m22.raw) - (-1.0002)).abs() < 1e-3);
    assert!((as_f64(p.m23.raw) - (-0.2)).abs() < 1e-3);
    // off-diagonal entries of the first two rows are zero
    assert_eq!(p.m01.raw, 0);
    assert_eq!(p.m02.raw, 0);
    assert_eq!(p.m03.raw, 0);
    assert_eq!(p.m10.raw, 0);
    assert_eq!(p.m12.raw, 0);
    assert_eq!(p.m13.raw, 0);
}

#[test]
fn projection_idempotent_between_mutations() {
    let mut cam = default_camera();
    let p1 = cam.projection_matrix();
    assert!(!cam.proj_dirty);
    let p2 = cam.projection_matrix();
    assert_eq!(p1, p2);
    let v1 = cam.view_matrix();
    let v2 = cam.view_matrix();
    assert_eq!(v1, v2);
}

#[test]
fn mutators_invalidate_only_their_matrix() {
    let mut cam = default_camera();
    let _ = cam.projection_matrix();
    let v = cam.view_matrix();
    assert!(!cam.proj_dirty && !cam.view_dirty);

    cam.set_fov(Angle::new(fx(120000), fx(64000), fx(14000)));
    assert!(cam.proj_dirty);
    assert!(!cam.view_dirty);
    assert_eq!(cam.view_matrix(), v);

    let mut cam = default_camera();
    let _ = cam.projection_matrix();
    let v = cam.view_matrix();
    cam.set_aspect_ratio(fx_from_int(2));
    assert!(cam.proj_dirty);
    assert!(!cam.view_dirty);
    assert_eq!(cam.view_matrix(), v);

    let mut cam = default_camera();
    let p = cam.projection_matrix();
    let _ = cam.view_matrix();
    cam.set_pos(&vec3(FX_ONE, 0, 0));
    assert!(cam.view_dirty);
    assert!(!cam.proj_dirty);
    assert_eq!(cam.projection_matrix(), p);

    let mut cam = default_camera();
    let p = cam.projection_matrix();
    let _ = cam.view_matrix();
    cam.translate(&vec3(0, FX_ONE, 0));
    assert!(cam.view_dirty);
    assert!(!cam.proj_dirty);
    assert_eq!(cam.projection_matrix(), p);

    let mut cam = default_camera();
    let p = cam.projection_matrix();
    let _ = cam.view_matrix();
    cam.set_abs_rotation(Angle::zero(), Angle::quarter_turn());
    assert!(cam.view_dirty);
    assert!(!cam.proj_dirty);
    assert_eq!(cam.projection_matrix(), p);

    let mut cam = default_camera();
    let p = cam.projection_matrix();
    let _ = cam.view_matrix();
    cam.rotate(Angle::quarter_turn(), Angle::zero());
    assert!(cam.view_dirty);
    assert!(!cam.proj_dirty);
    assert_eq!(cam.projection_matrix(), p);
}

#[test]
fn view_of_pure_translation() {
    // identity rotation, translation (0, 0, 1): the view matrix is the
    // identity except for its last column (0, 0, -1, 1).
    let mut cam = default_camera();
    let v = cam.view_matrix();
    let mut expected = Mat4::identity();
    expected.m23 = fx(-FX_ONE);
    assert_eq!(v, expected);
}

#[test]
fn abs_rotation_zero_restores_translation_view() {
    // After an arbitrary rotation, an absolute rotation back to (0, 0) yields
    // the same view matrix as the never-rotated camera.
    let mut cam = default_camera();
    let plain_view = cam.view_matrix();
    let a = Angle::new(fx(43000), fx(39322), fx(52429));
    cam.rotate(a, a);
    let rotated_view = cam.view_matrix();
    assert_ne!(rotated_view, plain_view);
    cam.set_abs_rotation(Angle::zero(), Angle::zero());
    assert_eq!(cam.view_matrix(), plain_view);
}

#[test]
fn translate_under_identity_equals_set_pos() {
    let d = vec3(655, -1310, 2621);
    let mut cam1 = default_camera();
    cam1.translate(&d);
    let mut cam2 = default_camera();
    let pos = Vec3 {
        x: fx_add(fx(0), d.x),
        y: fx_add(fx(0), d.y),
        z: fx_add(fx(FX_ONE), d.z),
    };
    cam2.set_pos(&pos);
    assert_eq!(cam1.transform, cam2.transform);
    assert_eq!(cam1.view_matrix(), cam2.view_matrix());
}

#[test]
fn translate_respects_rotated_frame() {
    // With a quarter-turn yaw the local X delta moves the camera along
    // world Z: the transpose of the rotation block converts the delta.
    let mut cam = Camera::new(vec3(0, 0, 0), fx(FX_ONE));
    cam.set_abs_rotation(Angle::zero(), Angle::quarter_turn());
    cam.translate(&vec3(FX_ONE, 0, 0));
    assert_eq!(cam.transform.m03.raw, 0);
    assert_eq!(cam.transform.m13.raw, 0);
    assert_eq!(cam.transform.m23.raw, FX_ONE);
}

#[test]
fn rotate_negated_scalars_do_not_cancel() {
    // Negating the pitch and yaw scalars does not invert the composed
    // rotation: pitch and yaw do not commute.
    let s = fx(39322);
    let c = fx(52429);
    let a = Angle::new(fx(43000), s, c);
    let neg_a = Angle::new(fx(-43000), fx(-s.raw), c);
    let mut cam = Camera::new(vec3(0, 0, 0), fx(FX_ONE));
    cam.rotate(a, a);
    cam.rotate(neg_a, neg_a);
    let identity = Mat4::identity();
    assert_ne!(cam.transform, identity);
    // far off: one entry deviates by more than a third of a unit
    assert!((cam.transform.m01.raw - identity.m01.raw).abs() > 20000);
    // but no rotation ever moved the translation column
    assert_eq!(cam.transform.m03.raw, 0);
    assert_eq!(cam.transform.m13.raw, 0);
    assert_eq!(cam.transform.m23.raw, 0);
    assert_eq!(cam.transform.m33.raw, FX_ONE);
}

#[test]
fn rotate_exact_inverses_almost_cancel() {
    // Undoing in exact inverse order (yaw back first, then pitch back)
    // cancels up to fixed-point rounding.
    let s = fx(39322);
    let c = fx(52429);
    let a = Angle::new(fx(43000), s, c);
    let neg_a = Angle::new(fx(-43000), fx(-s.raw), c);
    let mut cam = Camera::new(vec3(0, 0, 0), fx(FX_ONE));
    cam.rotate(a, Angle::zero());
    cam.rotate(Angle::zero(), a);
    cam.rotate(Angle::zero(), neg_a);
    cam.rotate(neg_a, Angle::zero());
    let identity = Mat4::identity();
    let entries = [
        (cam.transform.m00, identity.m00),
        (cam.transform.m01, identity.m01),
        (cam.transform.m02, identity.m02),
        (cam.transform.m10, identity.m10),
        (cam.transform.m11, identity.m11),
        (cam.transform.m12, identity.m12),
        (cam.transform.m20, identity.m20),
        (cam.transform.m21, identity.m21),
        (cam.transform.m22, identity.m22),
        (cam.transform.m33, identity.m33),
    ];
    for (got, want) in entries.iter() {
        assert!((got.raw - want.raw).abs() <= 2);
    }
}

#[test]
fn resize_changes_only_x_scale() {
    let mut cam1 = default_camera();
    let p1 = cam1.projection_matrix();
    let mut cam2 = default_camera();
    cam2.set_aspect_ratio(fx_from_int(2));
    let p2 = cam2.projection_matrix();
    assert_ne!(p1.m00, p2.m00);
    assert_eq!(p1.m11, p2.m11);
    assert_eq!(p1.m22, p2.m22);
    assert_eq!(p1.m23, p2.m23);
    assert_eq!(p1.m32, p2.m32);
    assert_eq!(p1.m33, p2.m33);
    assert_eq!(p1.m01, p2.m01);
    assert_eq!(p1.m10, p2.m10);
}

#[test]
fn fov_getter_returns_current_angle() {
    let mut cam = default_camera();
    let f = Angle::new(fx(130000), fx(60000), fx(-26000));
    cam.set_fov(f);
    assert_eq!(cam.fov(), f);
}
