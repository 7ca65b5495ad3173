//! Input handling: the decision core that turns window events into camera
//! mutations.
//!
//! The surrounding event loop polls the window, feeds each event through
//! [`handle_event`] together with the current window dimensions and field of
//! view, and performs the returned [`Action`] on the camera. Mouse-drag state
//! (which buttons are held, the previous cursor position) lives in
//! [`InputState`] and is threaded through the handler.
//!
//! Rotation actions carry plain fixed-point radians; the caller turns them
//! into [`Angle`](crate::camera::Angle) values by supplying sine and cosine.

use crate::fixed::{
    fx_add, fx_add_spec, fx_div, fx_div_spec, fx_from_int, fx_from_int_spec, fx_mul, fx_mul_spec,
    fx_neg, fx_neg_spec, fx_sub, fx_sub_spec, Fx, FX_HALF,
};
use crate::matrix::{fx_of, Vec3};
use vstd::prelude::*;

verus! {

/// Pi in fixed point, rounded to nearest.
pub const PI_RAW: i64 = 205887;

/// Two pi in fixed point, rounded to nearest.
pub const TWO_PI_RAW: i64 = 411775;

/// The zoom step per scroll line: 0.05 in fixed point, rounded to nearest.
pub const FOV_STEP_RAW: i64 = 3277;

/// The translation per dragged pixel: 0.003 in fixed point, rounded to
/// nearest.
pub const DRAG_SCALE_RAW: i64 = 197;

/// A cursor position in window coordinates, whole pixels in fixed point.
#[derive(Clone, Copy, Debug, PartialEq, Eq, Structural)]
pub struct PixelPos {
    pub x: Fx,
    pub y: Fx,
}

/// The mouse-drag state the event loop threads between events.
#[derive(Clone, Copy, Debug, PartialEq, Eq, Structural)]
pub struct InputState {
    pub right_pressed: bool,
    pub left_pressed: bool,
    pub has_last_coords: bool,
    pub last_coords: PixelPos,
}

/// A window event, as the event loop hands it to the decision core.
#[derive(Clone, Copy, Debug, PartialEq, Eq, Structural)]
pub enum Event {
    /// The reset key was pressed.
    ResetKey,
    /// The mouse wheel moved by `lines` scroll lines (vertical).
    MouseWheel { lines: Fx },
    /// The cursor moved to window coordinates (`x`, `y`).
    MouseMoved { x: Fx, y: Fx },
    /// The left mouse button changed state.
    LeftButton { pressed: bool },
    /// The right mouse button changed state.
    RightButton { pressed: bool },
    /// Any other mouse button changed state.
    OtherButton { pressed: bool },
    /// The window was resized.
    Resized { width: u32, height: u32 },
    /// The window was closed.
    Closed,
}

/// What the event loop should do to the camera in response to one event.
#[derive(Clone, Copy, Debug, PartialEq, Eq, Structural)]
pub enum Action {
    /// Nothing to do.
    Nothing,
    /// Reset the camera: position (0,0,1), identity rotation, fov pi/2.
    Reset,
    /// Set the field of view to the given radians.
    SetFov { radians: Fx },
    /// Replace the rotation with the given absolute pitch and yaw.
    RotateAbsolute { pitch_radians: Fx, yaw_radians: Fx },
    /// Rotate by the given pitch and yaw about the camera's own axes.
    RotateBy { pitch_radians: Fx, yaw_radians: Fx },
    /// Translate by the given delta in the camera's local frame.
    Translate { delta: Vec3 },
    /// Set the aspect ratio to the given width/height quotient.
    SetAspectRatio { ratio: Fx },
    /// Leave the event loop.
    Quit,
}

impl InputState {
    /// The state before any event: no button held, no previous cursor.
    pub fn new() -> (r: InputState)
        ensures
            r == spec_input_state_new(),
    {
        InputState {
            right_pressed: false,
            left_pressed: false,
            has_last_coords: false,
            last_coords: PixelPos { x: Fx { raw: 0 }, y: Fx { raw: 0 } },
        }
    }
}

/// The initial input state.
pub open spec fn spec_input_state_new() -> InputState {
    InputState {
        right_pressed: false,
        left_pressed: false,
        has_last_coords: false,
        last_coords: PixelPos { x: Fx { raw: 0 }, y: Fx { raw: 0 } },
    }
}

/// The new field of view after one scroll of `lines`: the step scales with
/// the remaining headroom (pi - fov)/pi and the result is floored at zero.
pub open spec fn spec_zoom_fov(fov_radians: int, lines: int) -> int {
    let frac = fx_div_spec(fx_sub_spec(PI_RAW as int, fov_radians), PI_RAW as int);
    let candidate = fx_add_spec(fov_radians, fx_mul_spec(fx_mul_spec(FOV_STEP_RAW as int, frac), lines));
    if candidate < 0 {
        0
    } else {
        candidate
    }
}

/// The pitch or yaw of an absolute mouse rotation: the cursor coordinate as a
/// fraction of the window dimension, scaled by a full turn.
pub open spec fn spec_abs_turn(coord: int, dimension: int) -> int {
    fx_mul_spec(fx_div_spec(coord, fx_from_int_spec(dimension)), TWO_PI_RAW as int)
}

/// The pitch or yaw of a relative mouse rotation: half the cursor delta as a
/// fraction of the window dimension, scaled by a full turn.
pub open spec fn spec_rel_turn(delta: int, dimension: int) -> int {
    fx_mul_spec(
        fx_div_spec(fx_mul_spec(delta, FX_HALF as int), fx_from_int_spec(dimension)),
        TWO_PI_RAW as int,
    )
}

/// What `handle_event` decides: the updated drag state and the camera action,
/// by case on the event.
pub open spec fn spec_handle_event(
    s: InputState,
    event: Event,
    width: u32,
    height: u32,
    fov_radians: Fx,
    relative_rotation: bool,
) -> (InputState, Action) {
    match event {
        Event::ResetKey => (s, Action::Reset),
        Event::MouseWheel { lines } => (
            s,
            Action::SetFov {
                radians: fx_of(spec_zoom_fov(fov_radians.raw as int, lines.raw as int)),
            },
        ),
        Event::MouseMoved { x, y } => {
            if s.right_pressed {
                if !relative_rotation {
                    (
                        s,
                        Action::RotateAbsolute {
                            pitch_radians: fx_of(spec_abs_turn(y.raw as int, height as int)),
                            yaw_radians: fx_of(
                                fx_neg_spec(spec_abs_turn(x.raw as int, width as int)),
                            ),
                        },
                    )
                } else {
                    let s2 = InputState {
                        has_last_coords: true,
                        last_coords: PixelPos { x, y },
                        ..s
                    };
                    if s.has_last_coords {
                        (
                            s2,
                            Action::RotateBy {
                                pitch_radians: fx_of(
                                    spec_rel_turn(
                                        fx_sub_spec(y.raw as int, s.last_coords.y.raw as int),
                                        height as int,
                                    ),
                                ),
                                yaw_radians: fx_of(
                                    spec_rel_turn(
                                        fx_sub_spec(x.raw as int, s.last_coords.x.raw as int),
                                        width as int,
                                    ),
                                ),
                            },
                        )
                    } else {
                        (s2, Action::Nothing)
                    }
                }
            } else if s.left_pressed {
                let s2 = InputState { has_last_coords: true, last_coords: PixelPos { x, y }, ..s };
                if s.has_last_coords {
                    (
                        s2,
                        Action::Translate {
                            delta: Vec3 {
                                x: fx_of(
                                    fx_mul_spec(
                                        fx_sub_spec(s.last_coords.x.raw as int, x.raw as int),
                                        DRAG_SCALE_RAW as int,
                                    ),
                                ),
                                y: fx_of(
                                    fx_mul_spec(
                                        fx_sub_spec(y.raw as int, s.last_coords.y.raw as int),
                                        DRAG_SCALE_RAW as int,
                                    ),
                                ),
                                z: Fx { raw: 0 },
                            },
                        },
                    )
                } else {
                    (s2, Action::Nothing)
                }
            } else {
                (s, Action::Nothing)
            }
        },
        Event::LeftButton { pressed } => (
            InputState {
                left_pressed: pressed,
                has_last_coords: s.has_last_coords && pressed,
                ..s
            },
            Action::Nothing,
        ),
        Event::RightButton { pressed } => (
            InputState {
                right_pressed: pressed,
                has_last_coords: s.has_last_coords && pressed,
                ..s
            },
            Action::Nothing,
        ),
        Event::OtherButton { pressed } => (
            InputState { has_last_coords: s.has_last_coords && pressed, ..s },
            Action::Nothing,
        ),
        Event::Resized { width: w, height: h } => (
            s,
            Action::SetAspectRatio {
                ratio: fx_of(
                    fx_div_spec(fx_from_int_spec(w as int), fx_from_int_spec(h as int)),
                ),
            },
        ),
        Event::Closed => (s, Action::Quit),
    }
}

/// Decide what one window event does to the camera. The window dimensions
/// must be positive (they divide the mouse coordinates), and so must the
/// dimensions a resize event carries.
pub fn handle_event(
    s: &mut InputState,
    event: Event,
    width: u32,
    height: u32,
    fov_radians: Fx,
    relative_rotation: bool,
) -> (action: Action)
    requires
        width > 0,
        height > 0,
        match event {
            Event::Resized { width: w, height: h } => w > 0 && h > 0,
            _ => true,
        },
    ensures
        (*final(s), action) == spec_handle_event(
            *old(s),
            event,
            width,
            height,
            fov_radians,
            relative_rotation,
        ),
{
    match event {
        Event::ResetKey => Action::Reset,
        Event::MouseWheel { lines } => {
            let pi = Fx { raw: PI_RAW };
            let frac = fx_div(fx_sub(pi, fov_radians), pi);
            let candidate = fx_add(fov_radians, fx_mul(fx_mul(Fx { raw: FOV_STEP_RAW }, frac), lines));
            let radians = if candidate.raw < 0 {
                Fx { raw: 0 }
            } else {
                candidate
            };
            Action::SetFov { radians }
        },
        Event::MouseMoved { x, y } => {
            if s.right_pressed {
                if !relative_rotation {
                    let h = fx_from_int(height as i64);
                    let w = fx_from_int(width as i64);
                    let pitch = fx_mul(fx_div(y, h), Fx { raw: TWO_PI_RAW });
                    let yaw = fx_mul(fx_div(x, w), Fx { raw: TWO_PI_RAW });
                    Action::RotateAbsolute { pitch_radians: pitch, yaw_radians: fx_neg(yaw) }
                } else {
                    let had = s.has_last_coords;
                    let last = s.last_coords;
                    s.has_last_coords = true;
                    s.last_coords = PixelPos { x, y };
                    if had {
                        let h = fx_from_int(height as i64);
                        let w = fx_from_int(width as i64);
                        let dy = fx_sub(y, last.y);
                        let dx = fx_sub(x, last.x);
                        let pitch = fx_mul(fx_div(fx_mul(dy, Fx { raw: FX_HALF }), h), Fx { raw: TWO_PI_RAW });
                        let yaw = fx_mul(fx_div(fx_mul(dx, Fx { raw: FX_HALF }), w), Fx { raw: TWO_PI_RAW });
                        Action::RotateBy { pitch_radians: pitch, yaw_radians: yaw }
                    } else {
                        Action::Nothing
                    }
                }
            } else if s.left_pressed {
                let had = s.has_last_coords;
                let last = s.last_coords;
                s.has_last_coords = true;
                s.last_coords = PixelPos { x, y };
                if had {
                    let scale = Fx { raw: DRAG_SCALE_RAW };
                    let delta = Vec3 {
                        x: fx_mul(fx_sub(last.x, x), scale),
                        y: fx_mul(fx_sub(y, last.y), scale),
                        z: Fx { raw: 0 },
                    };
                    Action::Translate { delta }
                } else {
                    Action::Nothing
                }
            } else {
                Action::Nothing
            }
        },
        Event::LeftButton { pressed } => {
            s.left_pressed = pressed;
            if !pressed {
                s.has_last_coords = false;
            }
            Action::Nothing
        },
        Event::RightButton { pressed } => {
            s.right_pressed = pressed;
            if !pressed {
                s.has_last_coords = false;
            }
            Action::Nothing
        },
        Event::OtherButton { pressed } => {
            if !pressed {
                s.has_last_coords = false;
            }
            Action::Nothing
        },
        Event::Resized { width: w, height: h } => {
            let wf = fx_from_int(w as i64);
            let hf = fx_from_int(h as i64);
            Action::SetAspectRatio { ratio: fx_div(wf, hf) }
        },
        Event::Closed => Action::Quit,
    }
}

} // verus!
