//! Properties that hold across the library's functions.

use vstd::prelude::*;
use imgui::ImGuiKey;
use crate::input::{InputEvent, Key, KeyInput, MouseButton, TouchPhase, KEY_COUNT, spec_key_input, spec_key_slot};
use crate::keymap::{imgui_key_index, imgui_key_of, spec_key_map};
use crate::mouse::{MouseState, spec_after_event, spec_mouse_down};
use crate::state::{ImguiCall, calls_for, spec_report, spec_settled};

verus! {

/// Whether `event` is a scroll in its `Moved` phase, the one event that
/// carries a scroll delta.
pub open spec fn is_scroll(event: InputEvent) -> bool {
    event matches InputEvent::MouseWheel { phase: TouchPhase::Moved, .. }
}

/// A scroll delta is reported to ImGui once: after any event has been
/// handled, the next event that is not itself a scroll reports no delta.
pub proof fn scroll_reported_once(m: MouseState, first: InputEvent, next: InputEvent)
    requires
        !is_scroll(next),
    ensures
        spec_report(spec_settled(m, first), next).wheel_bits == 0,
{
}

/// The delta reported for a scroll is the scroll's own delta, whatever the
/// state before it.
pub proof fn scroll_reports_its_delta(m: MouseState, delta_y_bits: u32)
    ensures
        spec_report(m, InputEvent::MouseWheel { delta_y_bits, phase: TouchPhase::Moved }).wheel_bits
            == delta_y_bits,
{
}

/// Handling the same event twice leaves the same mouse state as handling it
/// once.
pub proof fn settling_is_idempotent(m: MouseState, event: InputEvent)
    ensures
        spec_settled(spec_settled(m, event), event) == spec_settled(m, event),
{
}

/// An event that asks ImGui for a keyboard update leaves the mouse as it
/// was, but for the spent scroll delta.
pub proof fn key_events_leave_mouse_alone(m: MouseState, event: InputEvent)
    requires
        spec_key_input(event) is Some,
    ensures
        spec_after_event(m, event) == m,
        spec_settled(m, event).pos == m.pos,
        spec_settled(m, event).pressed == m.pressed,
{
}

/// Left and right variants of a modifier key update ImGui alike.
pub proof fn modifier_sides_agree(pressed: bool)
    ensures
        spec_key_input(InputEvent::KeyboardInput { key: Some(Key::LControl), pressed })
            == spec_key_input(InputEvent::KeyboardInput { key: Some(Key::RControl), pressed }),
        spec_key_input(InputEvent::KeyboardInput { key: Some(Key::LShift), pressed })
            == spec_key_input(InputEvent::KeyboardInput { key: Some(Key::RShift), pressed }),
        spec_key_input(InputEvent::KeyboardInput { key: Some(Key::LAlt), pressed })
            == spec_key_input(InputEvent::KeyboardInput { key: Some(Key::RAlt), pressed }),
        spec_key_input(InputEvent::KeyboardInput { key: Some(Key::LWin), pressed })
            == spec_key_input(InputEvent::KeyboardInput { key: Some(Key::RWin), pressed }),
{
}

/// Whether the key table has an entry for `k`.
pub open spec fn named_in_key_map(k: ImGuiKey) -> bool {
    exists|i: int| 0 <= i < spec_key_map().len() && #[trigger] spec_key_map()[i].0 == k
}

/// The key table gives slot `i` to its `i`-th entry, and names each of
/// ImGui's navigation keys exactly once.
pub proof fn key_map_is_a_bijection()
    ensures
        spec_key_map().len() == KEY_COUNT,
        forall|i: int| 0 <= i < spec_key_map().len() ==> #[trigger] spec_key_map()[i].1 == i,
        forall|i: int, j: int|
            0 <= i < spec_key_map().len() && 0 <= j < spec_key_map().len() && i != j
                ==> spec_key_map()[i].0 != spec_key_map()[j].0,
        forall|k: ImGuiKey| #[trigger] named_in_key_map(k),
{
    let t = spec_key_map();
    assert forall|k: ImGuiKey| #[trigger] named_in_key_map(k) by {
        match k {
            ImGuiKey::Tab => assert(t[0].0 == k),
            ImGuiKey::LeftArrow => assert(t[1].0 == k),
            ImGuiKey::RightArrow => assert(t[2].0 == k),
            ImGuiKey::UpArrow => assert(t[3].0 == k),
            ImGuiKey::DownArrow => assert(t[4].0 == k),
            ImGuiKey::PageUp => assert(t[5].0 == k),
            ImGuiKey::PageDown => assert(t[6].0 == k),
            ImGuiKey::Home => assert(t[7].0 == k),
            ImGuiKey::End => assert(t[8].0 == k),
            ImGuiKey::Delete => assert(t[9].0 == k),
            ImGuiKey::Backspace => assert(t[10].0 == k),
            ImGuiKey::Enter => assert(t[11].0 == k),
            ImGuiKey::Escape => assert(t[12].0 == k),
            ImGuiKey::A => assert(t[13].0 == k),
            ImGuiKey::C => assert(t[14].0 == k),
            ImGuiKey::V => assert(t[15].0 == k),
            ImGuiKey::X => assert(t[16].0 == k),
            ImGuiKey::Y => assert(t[17].0 == k),
            ImGuiKey::Z => assert(t[18].0 == k),
        }
    }
}

/// A key event sets the very slot that the key table registers for the
/// ImGui key it stands for; keys without an ImGui counterpart have no slot.
pub proof fn key_slots_agree_with_key_map(key: Key)
    ensures
        spec_key_slot(key) is Some <==> imgui_key_of(key) is Some,
        spec_key_slot(key) matches Some(slot) ==> {
            &&& slot < KEY_COUNT
            &&& spec_key_map()[slot as int] == (imgui_key_of(key).unwrap(), slot)
        },
{
}

/// The key table writes each ImGui key's own `key_map` entry: entry `i`
/// names the key whose index in ImGui's `key_map` is `i`, and gives it slot
/// `i`. So once it is registered, the slot ImGui looks up for the navigation
/// key a window-system key stands for is the slot that the key's events set.
pub proof fn registered_slot_matches_key_event(key: Key)
    requires
        spec_key_slot(key) is Some,
    ensures
        imgui_key_index(imgui_key_of(key).unwrap()) == spec_key_slot(key).unwrap(),
        spec_key_map()[imgui_key_index(imgui_key_of(key).unwrap())]
            == (imgui_key_of(key).unwrap(), spec_key_slot(key).unwrap()),
        forall|i: int| 0 <= i < spec_key_map().len() ==> #[trigger] imgui_key_index(spec_key_map()[i].0) == i,
{
}

/// Distinct keys never share a slot.
pub proof fn key_slots_are_distinct(a: Key, b: Key)
    requires
        spec_key_slot(a) is Some,
        spec_key_slot(a) == spec_key_slot(b),
    ensures
        a == b,
{
}

/// A navigation key event sets the key's slot to the event's pressed flag.
pub proof fn key_event_sets_its_slot(key: Key, pressed: bool)
    requires
        spec_key_slot(key) is Some,
    ensures
        spec_key_input(InputEvent::KeyboardInput { key: Some(key), pressed })
            == Some(KeyInput::Key(spec_key_slot(key).unwrap(), pressed)),
{
}

/// The mouse state after the events of `events` have been handled in order,
/// starting from `m`.
pub open spec fn spec_settled_all(m: MouseState, events: Seq<InputEvent>) -> MouseState
    decreases events.len(),
{
    if events.len() == 0 {
        m
    } else {
        spec_settled(spec_settled_all(m, events.drop_last()), events.last())
    }
}

/// The position of the last cursor move in `events`, or `default` if there
/// is none.
pub open spec fn last_cursor_pos(events: Seq<InputEvent>, default: (i32, i32)) -> (i32, i32)
    decreases events.len(),
{
    if events.len() == 0 {
        default
    } else {
        match events.last() {
            InputEvent::CursorMoved { x, y } => (x, y),
            _ => last_cursor_pos(events.drop_last(), default),
        }
    }
}

/// Whether the last event in `events` for `button` pressed it, or `default`
/// if there is no such event.
pub open spec fn last_button_state(events: Seq<InputEvent>, button: MouseButton, default: bool) -> bool
    decreases events.len(),
{
    if events.len() == 0 {
        default
    } else {
        match events.last() {
            InputEvent::MouseInput { button: b, pressed } => if b == button {
                pressed
            } else {
                last_button_state(events.drop_last(), button, default)
            },
            _ => last_button_state(events.drop_last(), button, default),
        }
    }
}

/// After a series of events the cursor is where the last cursor move put it,
/// each of the left, right and middle buttons is as its last event left it,
/// and no scroll delta is left over; the last event reports its own delta if
/// it is a scroll and none otherwise, when the series starts with none.
pub proof fn series_of_events(m: MouseState, events: Seq<InputEvent>)
    ensures
        spec_settled_all(m, events).pos == last_cursor_pos(events, m.pos),
        spec_settled_all(m, events).pressed.0 == last_button_state(events, MouseButton::Left, m.pressed.0),
        spec_settled_all(m, events).pressed.1 == last_button_state(events, MouseButton::Right, m.pressed.1),
        spec_settled_all(m, events).pressed.2 == last_button_state(events, MouseButton::Middle, m.pressed.2),
        events.len() > 0 ==> spec_settled_all(m, events).wheel_bits == 0,
        events.len() > 0 && m.wheel_bits == 0 ==> spec_report(spec_settled_all(m, events.drop_last()), events.last()).wheel_bits
            == (if is_scroll(events.last()) { events.last()->delta_y_bits } else { 0 }),
    decreases events.len(),
{
    if events.len() > 0 {
        series_of_events(m, events.drop_last());
    }
}

/// ImGui's five mouse-button flags are the left, right and middle button of
/// the mouse state, each on its own, and two extra buttons never held.
pub proof fn mouse_down_mirrors_buttons(m: MouseState)
    ensures
        spec_mouse_down(m).len() == 5,
        spec_mouse_down(m)[0] == m.pressed.0,
        spec_mouse_down(m)[1] == m.pressed.1,
        spec_mouse_down(m)[2] == m.pressed.2,
        !spec_mouse_down(m)[3],
        !spec_mouse_down(m)[4],
{
}

/// Whether `call` hands ImGui the button flags `(left, right, middle)`, the
/// two extra buttons up.
pub open spec fn hands_buttons(call: ImguiCall, left: bool, right: bool, middle: bool) -> bool {
    &&& call matches ImguiCall::SetMouseDown(f)
    &&& f[0] == left
    &&& f[1] == right
    &&& f[2] == middle
    &&& !f[3]
    &&& !f[4]
}

/// Every typed character, whatever it is, becomes ImGui's character input.
pub proof fn typed_characters_pass_through(c: char)
    ensures
        spec_key_input(InputEvent::ReceivedCharacter(c)) == Some(KeyInput::Character(c)),
{
}

/// A typed character is handed to ImGui once, unchanged, followed only by
/// the button flags, which it leaves as they were.
pub proof fn typed_character_handed_on_once(m: MouseState, c: char, calls: Seq<ImguiCall>)
    requires
        calls_for(calls, m, InputEvent::ReceivedCharacter(c)),
    ensures
        calls.len() == 2,
        calls[0] == ImguiCall::AddInputCharacter(c),
        hands_buttons(calls[1], m.pressed.0, m.pressed.1, m.pressed.2),
{
}

/// A navigation key event hands ImGui one call, setting to `pressed` the slot
/// that is the ImGui key's own index in ImGui's key map, followed only by the
/// unchanged button flags.
pub proof fn navigation_key_handed_on_once(m: MouseState, key: Key, pressed: bool, calls: Seq<ImguiCall>)
    requires
        imgui_key_of(key) is Some,
        calls_for(calls, m, InputEvent::KeyboardInput { key: Some(key), pressed }),
    ensures
        calls.len() == 2,
        calls[0] matches ImguiCall::SetKey(slot, p) && slot == imgui_key_index(imgui_key_of(key).unwrap())
            && p == pressed,
        hands_buttons(calls[1], m.pressed.0, m.pressed.1, m.pressed.2),
{
}

/// A modifier key event hands ImGui one call, setting its own modifier flag
/// (Control to ctrl, Shift to shift, Alt to alt, the Windows keys to super)
/// to `pressed`, followed only by the unchanged button flags.
pub proof fn modifier_key_handed_on_once(m: MouseState, key: Key, pressed: bool, calls: Seq<ImguiCall>)
    requires
        imgui_key_of(key) is None,
        calls_for(calls, m, InputEvent::KeyboardInput { key: Some(key), pressed }),
    ensures
        calls.len() == 2,
        key == Key::LControl || key == Key::RControl ==> calls[0] == ImguiCall::SetKeyCtrl(pressed),
        key == Key::LShift || key == Key::RShift ==> calls[0] == ImguiCall::SetKeyShift(pressed),
        key == Key::LAlt || key == Key::RAlt ==> calls[0] == ImguiCall::SetKeyAlt(pressed),
        key == Key::LWin || key == Key::RWin ==> calls[0] == ImguiCall::SetKeySuper(pressed),
        hands_buttons(calls[1], m.pressed.0, m.pressed.1, m.pressed.2),
{
}

/// A button event hands ImGui no keyboard call, only the button flags, with
/// that button set to `pressed` and the others as they were.
pub proof fn button_event_handed_on(m: MouseState, button: MouseButton, pressed: bool, calls: Seq<ImguiCall>)
    requires
        calls_for(calls, m, InputEvent::MouseInput { button, pressed }),
    ensures
        calls.len() == 1,
        button == MouseButton::Left ==> hands_buttons(calls[0], pressed, m.pressed.1, m.pressed.2),
        button == MouseButton::Right ==> hands_buttons(calls[0], m.pressed.0, pressed, m.pressed.2),
        button == MouseButton::Middle ==> hands_buttons(calls[0], m.pressed.0, m.pressed.1, pressed),
        button is Other ==> hands_buttons(calls[0], m.pressed.0, m.pressed.1, m.pressed.2),
{
}

} // verus!
