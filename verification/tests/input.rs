use cubecam::fixed::{fx_from_int, Fx};
use cubecam::input::{handle_event, Action, Event, InputState, PixelPos};

fn fx(raw: i64) -> Fx {
    Fx { raw }
}

const W: u32 = 800;
const H: u32 = 600;
const FOV: Fx = Fx { raw: 102944 };

#[test]
fn reset_key_resets() {
    let mut s = InputState::new();
    let a = handle_event(&mut s, Event::ResetKey, W, H, FOV, true);
    assert_eq!(a, Action::Reset);
    assert_eq!(s, InputState::new());
}

#[test]
fn wheel_zooms_scaled_by_headroom() {
    // fov pi/2, one line up: the step is 0.05 scaled by (pi - fov)/pi.
    let mut s = InputState::new();
    let a = handle_event(&mut s, Event::MouseWheel { lines: fx_from_int(1) }, W, H, FOV, true);
    assert_eq!(a, Action::SetFov { radians: fx(104582) });
}

#[test]
fn wheel_zoom_floors_at_zero() {
    let mut s = InputState::new();
    let a = handle_event(&mut s, Event::MouseWheel { lines: fx_from_int(-100) }, W, H, FOV, true);
    assert_eq!(a, Action::SetFov { radians: fx(0) });
}

#[test]
fn move_without_buttons_does_nothing() {
    let mut s = InputState::new();
    let before = s;
    let a = handle_event(
        &mut s,
        Event::MouseMoved { x: fx_from_int(10), y: fx_from_int(20) },
        W,
        H,
        FOV,
        true,
    );
    assert_eq!(a, Action::Nothing);
    assert_eq!(s, before);
}

#[test]
fn right_drag_absolute_rotation() {
    // cursor at the window center: pitch is half a full turn, yaw is half a
    // full turn negated.
    let mut s = InputState::new();
    let _ = handle_event(&mut s, Event::RightButton { pressed: true }, W, H, FOV, false);
    let a = handle_event(
        &mut s,
        Event::MouseMoved { x: fx_from_int(400), y: fx_from_int(300) },
        W,
        H,
        FOV,
        false,
    );
    assert_eq!(a, Action::RotateAbsolute { pitch_radians: fx(205887), yaw_radians: fx(-205887) });
}

#[test]
fn right_drag_relative_rotation() {
    // the first move only records the cursor; the second turns the deltas
    // into pitch and yaw: half the delta over the dimension, times two pi.
    let mut s = InputState::new();
    let _ = handle_event(&mut s, Event::RightButton { pressed: true }, W, H, FOV, true);
    let a1 = handle_event(
        &mut s,
        Event::MouseMoved { x: fx_from_int(100), y: fx_from_int(100) },
        W,
        H,
        FOV,
        true,
    );
    assert_eq!(a1, Action::Nothing);
    assert!(s.has_last_coords);
    let a2 = handle_event(
        &mut s,
        Event::MouseMoved { x: fx_from_int(100), y: fx_from_int(110) },
        W,
        H,
        FOV,
        true,
    );
    assert_eq!(a2, Action::RotateBy { pitch_radians: fx(3430), yaw_radians: fx(0) });
    assert_eq!(s.last_coords, PixelPos { x: fx_from_int(100), y: fx_from_int(110) });
}

#[test]
fn left_drag_translates() {
    // dragging five pixels to the left moves along local X by 5 * 0.003.
    let mut s = InputState::new();
    let _ = handle_event(&mut s, Event::LeftButton { pressed: true }, W, H, FOV, true);
    let a1 = handle_event(
        &mut s,
        Event::MouseMoved { x: fx_from_int(200), y: fx_from_int(200) },
        W,
        H,
        FOV,
        true,
    );
    assert_eq!(a1, Action::Nothing);
    let a2 = handle_event(
        &mut s,
        Event::MouseMoved { x: fx_from_int(195), y: fx_from_int(200) },
        W,
        H,
        FOV,
        true,
    );
    match a2 {
        Action::Translate { delta } => {
            assert_eq!(delta.x.raw, 985);
            assert_eq!(delta.y.raw, 0);
            assert_eq!(delta.z.raw, 0);
        }
        other => panic!("expected a translation, got {:?}", other),
    }
}

#[test]
fn release_forgets_last_coords() {
    let mut s = InputState::new();
    let _ = handle_event(&mut s, Event::LeftButton { pressed: true }, W, H, FOV, true);
    let _ = handle_event(
        &mut s,
        Event::MouseMoved { x: fx_from_int(1), y: fx_from_int(2) },
        W,
        H,
        FOV,
        true,
    );
    assert!(s.has_last_coords);
    let _ = handle_event(&mut s, Event::LeftButton { pressed: false }, W, H, FOV, true);
    assert!(!s.has_last_coords);
    assert!(!s.left_pressed);
}

#[test]
fn other_button_release_forgets_last_coords() {
    let mut s = InputState::new();
    let _ = handle_event(&mut s, Event::RightButton { pressed: true }, W, H, FOV, true);
    let _ = handle_event(
        &mut s,
        Event::MouseMoved { x: fx_from_int(1), y: fx_from_int(2) },
        W,
        H,
        FOV,
        true,
    );
    assert!(s.has_last_coords);
    let _ = handle_event(&mut s, Event::OtherButton { pressed: false }, W, H, FOV, true);
    assert!(!s.has_last_coords);
    assert!(s.right_pressed);
}

#[test]
fn resize_sets_aspect_ratio() {
    let mut s = InputState::new();
    let a = handle_event(&mut s, Event::Resized { width: 800, height: 600 }, W, H, FOV, true);
    assert_eq!(a, Action::SetAspectRatio { ratio: fx(87381) });
}

#[test]
fn closed_quits() {
    let mut s = InputState::new();
    let a = handle_event(&mut s, Event::Closed, W, H, FOV, true);
    assert_eq!(a, Action::Quit);
}
