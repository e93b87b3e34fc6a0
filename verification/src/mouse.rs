use vstd::prelude::*;
use crate::input::{InputEvent, MouseButton, TouchPhase};

verus! {

/// What the overlay remembers of the mouse between events.
///
/// `wheel_bits` is the bit pattern of the last scroll delta (an `f32`);
/// zero stands for `0.0`.
#[derive(Copy, Clone, PartialEq, Eq, Debug)]
pub struct MouseState {
    pub pos: (i32, i32),
    pub pressed: (bool, bool, bool),
    pub wheel_bits: u32,
}

impl MouseState {
    /// The state before any event: at the origin, no button held, no scroll.
    pub open spec fn initial() -> MouseState {
        MouseState { pos: (0, 0), pressed: (false, false, false), wheel_bits: 0 }
    }
}

impl Default for MouseState {
    fn default() -> (m: MouseState)
        ensures
            m == MouseState::initial(),
    {
        MouseState { pos: (0, 0), pressed: (false, false, false), wheel_bits: 0 }
    }
}

/// The mouse state once `event` has been taken in, before the scroll delta
/// is handed on: a cursor move sets the position, a left, right or middle
/// button sets its flag, a scroll in its `Moved` phase sets the delta, and
/// every other event leaves the state as it was.
pub open spec fn spec_after_event(m: MouseState, event: InputEvent) -> MouseState {
    match event {
        InputEvent::CursorMoved { x, y } => MouseState { pos: (x, y), pressed: m.pressed, wheel_bits: m.wheel_bits },
        InputEvent::MouseInput { button, pressed } => match button {
            MouseButton::Left => MouseState { pos: m.pos, pressed: (pressed, m.pressed.1, m.pressed.2), wheel_bits: m.wheel_bits },
            MouseButton::Right => MouseState { pos: m.pos, pressed: (m.pressed.0, pressed, m.pressed.2), wheel_bits: m.wheel_bits },
            MouseButton::Middle => MouseState { pos: m.pos, pressed: (m.pressed.0, m.pressed.1, pressed), wheel_bits: m.wheel_bits },
            MouseButton::Other(_) => m,
        },
        InputEvent::MouseWheel { delta_y_bits, phase: TouchPhase::Moved } => MouseState { pos: m.pos, pressed: m.pressed, wheel_bits: delta_y_bits },
        _ => m,
    }
}

/// The mouse state once `event` has been taken in (see `spec_after_event`).
pub fn after_event(m: &MouseState, event: &InputEvent) -> (n: MouseState)
    ensures
        n == spec_after_event(*m, *event),
{
    match event {
        InputEvent::CursorMoved { x, y } => MouseState { pos: (*x, *y), pressed: m.pressed, wheel_bits: m.wheel_bits },
        InputEvent::MouseInput { button, pressed } => match button {
            MouseButton::Left => MouseState { pos: m.pos, pressed: (*pressed, m.pressed.1, m.pressed.2), wheel_bits: m.wheel_bits },
            MouseButton::Right => MouseState { pos: m.pos, pressed: (m.pressed.0, *pressed, m.pressed.2), wheel_bits: m.wheel_bits },
            MouseButton::Middle => MouseState { pos: m.pos, pressed: (m.pressed.0, m.pressed.1, *pressed), wheel_bits: m.wheel_bits },
            MouseButton::Other(_) => *m,
        },
        InputEvent::MouseWheel { delta_y_bits, phase: TouchPhase::Moved } => MouseState { pos: m.pos, pressed: m.pressed, wheel_bits: *delta_y_bits },
        _ => *m,
    }
}

/// ImGui's five mouse-button flags: left, right and middle from `m`, the two
/// extra buttons never held.
pub open spec fn spec_mouse_down(m: MouseState) -> Seq<bool> {
    seq![m.pressed.0, m.pressed.1, m.pressed.2, false, false]
}

/// ImGui's five mouse-button flags for `m` (see `spec_mouse_down`).
pub fn mouse_down_flags(m: &MouseState) -> (flags: [bool; 5])
    ensures
        flags@ == spec_mouse_down(*m),
{
    let flags = [m.pressed.0, m.pressed.1, m.pressed.2, false, false];
    assert(flags@ =~= spec_mouse_down(*m));
    flags
}

} // verus!
