use vstd::prelude::*;
use imgui::ImGui;
use crate::imgui_io::{
    io_add_input_character, io_set_key, io_set_key_alt, io_set_key_ctrl, io_set_key_shift, io_set_key_super,
    io_set_mouse_down,
};
use crate::input::{InputEvent, KeyInput, key_input, spec_key_input};
use crate::mouse::{MouseState, after_event, mouse_down_flags, spec_after_event, spec_mouse_down};

verus! {

/// Side of the square render target that a fresh overlay starts with.
pub const INITIAL_TARGET_SIDE: u16 = 1024;

/// The overlay's input state: the ImGui handle, the mouse as last seen, and
/// the size of the render target ImGui draws into.
pub struct ImguiState {
    pub imgui: ImGui,
    pub mouse_state: MouseState,
    pub size: (u16, u16),
}

/// What ImGui still has to learn of the mouse after an event, and which the
/// caller hands on as floats: the cursor position and the scroll delta (as
/// the bit pattern of an `f32`).
#[derive(Copy, Clone, PartialEq, Eq, Debug)]
pub struct MouseReport {
    pub pos: (i32, i32),
    pub wheel_bits: u32,
}

/// The mouse state kept after `event`: as taken in, with the scroll delta
/// spent.
pub open spec fn spec_settled(m: MouseState, event: InputEvent) -> MouseState {
    let n = spec_after_event(m, event);
    MouseState { pos: n.pos, pressed: n.pressed, wheel_bits: 0 }
}

/// The position and scroll delta reported to ImGui for `event`.
pub open spec fn spec_report(m: MouseState, event: InputEvent) -> MouseReport {
    let n = spec_after_event(m, event);
    MouseReport { pos: n.pos, wheel_bits: n.wheel_bits }
}

/// One update handed to ImGui's io record, named after the `ImGui` setter
/// that makes it.
#[derive(Copy, Clone, PartialEq, Eq, Debug)]
pub enum ImguiCall {
    SetKey(u8, bool),
    SetKeyCtrl(bool),
    SetKeyShift(bool),
    SetKeyAlt(bool),
    SetKeySuper(bool),
    AddInputCharacter(char),
    SetMouseDown([bool; 5]),
}

/// The setter call that makes the keyboard update `input`.
pub open spec fn spec_key_call(input: KeyInput) -> ImguiCall {
    match input {
        KeyInput::Key(slot, p) => ImguiCall::SetKey(slot, p),
        KeyInput::Ctrl(p) => ImguiCall::SetKeyCtrl(p),
        KeyInput::Shift(p) => ImguiCall::SetKeyShift(p),
        KeyInput::Alt(p) => ImguiCall::SetKeyAlt(p),
        KeyInput::Super(p) => ImguiCall::SetKeySuper(p),
        KeyInput::Character(c) => ImguiCall::AddInputCharacter(c),
    }
}

/// Whether `call` sets ImGui's mouse-button flags to `flags`.
pub open spec fn is_mouse_down_call(call: ImguiCall, flags: Seq<bool>) -> bool {
    call matches ImguiCall::SetMouseDown(f) && f@ == flags
}

/// Whether `calls` are the updates that `event` hands to ImGui when the mouse
/// state was `m`: the keyboard update of the event, if it has one, then the
/// button flags of the mouse state once the event is taken in.
pub open spec fn calls_for(calls: Seq<ImguiCall>, m: MouseState, event: InputEvent) -> bool {
    let flags = spec_mouse_down(spec_after_event(m, event));
    match spec_key_input(event) {
        Some(input) => {
            &&& calls.len() == 2
            &&& calls[0] == spec_key_call(input)
            &&& is_mouse_down_call(calls[1], flags)
        },
        None => {
            &&& calls.len() == 1
            &&& is_mouse_down_call(calls[0], flags)
        },
    }
}

/// The updates that `event` hands to ImGui when the mouse state is `m` (see
/// `calls_for`).
pub fn imgui_calls(m: &MouseState, event: &InputEvent) -> (calls: Vec<ImguiCall>)
    ensures
        calls_for(calls@, *m, *event),
{
    let mut calls: Vec<ImguiCall> = Vec::new();
    match key_input(event) {
        Some(KeyInput::Key(slot, p)) => calls.push(ImguiCall::SetKey(slot, p)),
        Some(KeyInput::Ctrl(p)) => calls.push(ImguiCall::SetKeyCtrl(p)),
        Some(KeyInput::Shift(p)) => calls.push(ImguiCall::SetKeyShift(p)),
        Some(KeyInput::Alt(p)) => calls.push(ImguiCall::SetKeyAlt(p)),
        Some(KeyInput::Super(p)) => calls.push(ImguiCall::SetKeySuper(p)),
        Some(KeyInput::Character(c)) => calls.push(ImguiCall::AddInputCharacter(c)),
        None => {},
    }
    let taken = after_event(m, event);
    calls.push(ImguiCall::SetMouseDown(mouse_down_flags(&taken)));
    calls
}

/// Hands each of `calls` to ImGui, once and in order, through the setter it
/// names, and appends the record of each call made to `log`.
fn apply_calls(imgui: &mut ImGui, calls: &Vec<ImguiCall>, log: &mut Vec<ImguiCall>)
    ensures
        final(log)@ == old(log)@ + calls@,
{
    let n = calls.len();
    for i in 0..n
        invariant
            n == calls@.len(),
            log@ == old(log)@ + calls@.take(i as int),
    {
        let made = match calls[i] {
            ImguiCall::SetKey(slot, p) => io_set_key(imgui, slot, p),
            ImguiCall::SetKeyCtrl(p) => io_set_key_ctrl(imgui, p),
            ImguiCall::SetKeyShift(p) => io_set_key_shift(imgui, p),
            ImguiCall::SetKeyAlt(p) => io_set_key_alt(imgui, p),
            ImguiCall::SetKeySuper(p) => io_set_key_super(imgui, p),
            ImguiCall::AddInputCharacter(c) => io_add_input_character(imgui, c),
            ImguiCall::SetMouseDown(flags) => io_set_mouse_down(imgui, flags),
        };
        log.push(made);
        assert(calls@.take(i + 1) =~= calls@.take(i as int).push(calls@[i as int]));
    }
    assert(calls@.take(n as int) =~= calls@);
}

impl ImguiState {
    /// A fresh state around `imgui`: mouse at rest at the origin, render
    /// target 1024 by 1024.
    pub fn new(imgui: ImGui) -> (s: ImguiState)
        ensures
            s.imgui == imgui,
            s.mouse_state == MouseState::initial(),
            s.size == (INITIAL_TARGET_SIDE, INITIAL_TARGET_SIDE),
    {
        ImguiState {
            imgui,
            mouse_state: MouseState::default(),
            size: (INITIAL_TARGET_SIDE, INITIAL_TARGET_SIDE),
        }
    }

    /// Whether a screen of `width` by `height` pixels differs from the size
    /// recorded for the render target, so that the target must be made anew.
    pub fn target_size_changed(&self, width: u16, height: u16) -> (changed: bool)
        ensures
            changed == (self.size.0 != width || self.size.1 != height),
    {
        self.size.0 != width || self.size.1 != height
    }
}

/// Takes one window event into the overlay.
///
/// The updates `imgui_calls(mouse_state, event)` are handed to ImGui, each
/// once and in order (a key slot, a modifier flag or a typed character, if
/// the event has one, then the mouse-button flags); the first part of the
/// result is the record of the setter calls made. The mouse state takes the event in and spends its scroll delta.
/// The second part holds the cursor position and the scroll delta, which
/// ImGui takes as floats and the caller hands on.
pub fn handle_imgui_events(state: &mut ImguiState, event: &InputEvent) -> (out: (Vec<ImguiCall>, MouseReport))
    ensures
        calls_for(out.0@, old(state).mouse_state, *event),
        out.1 == spec_report(old(state).mouse_state, *event),
        final(state).mouse_state == spec_settled(old(state).mouse_state, *event),
        final(state).size == old(state).size,
{
    let calls = imgui_calls(&state.mouse_state, event);
    let mut made: Vec<ImguiCall> = Vec::new();
    apply_calls(&mut state.imgui, &calls, &mut made);
    assert(made@ =~= calls@);
    let taken = after_event(&state.mouse_state, event);
    state.mouse_state = MouseState { pos: taken.pos, pressed: taken.pressed, wheel_bits: 0 };
    (made, MouseReport { pos: taken.pos, wheel_bits: taken.wheel_bits })
}

} // verus!
