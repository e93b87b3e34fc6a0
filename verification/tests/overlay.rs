use amethyst_imgui::keymap::{key_map, register_key_map};
use amethyst_imgui::state::{imgui_calls, INITIAL_TARGET_SIDE};
use amethyst_imgui::{
    handle_imgui_events, ImguiCall, ImguiState, InputEvent, Key, MouseButton, MouseReport, MouseState, TouchPhase,
};
use imgui::{ImGui, ImGuiKey};

const NO_BUTTONS: [bool; 5] = [false, false, false, false, false];

#[test]
fn new_state_is_at_rest_with_default_target() {
    let s = ImguiState::new(ImGui::init());
    assert_eq!(s.mouse_state, MouseState::default());
    assert_eq!(s.size, (1024, 1024));
    assert_eq!(INITIAL_TARGET_SIDE, 1024);
}

#[test]
fn target_size_change_is_detected() {
    let s = ImguiState::new(ImGui::init());
    assert!(!s.target_size_changed(1024, 1024));
    assert!(s.target_size_changed(800, 1024));
    assert!(s.target_size_changed(1024, 600));
    assert!(s.target_size_changed(800, 600));
}

#[test]
fn scroll_is_reported_once_then_spent() {
    let mut s = ImguiState::new(ImGui::init());
    let bits = 1.0f32.to_bits();
    let (calls, r) = handle_imgui_events(&mut s, &InputEvent::MouseWheel { delta_y_bits: bits, phase: TouchPhase::Moved });
    assert_eq!(calls, vec![ImguiCall::SetMouseDown(NO_BUTTONS)]);
    assert_eq!(r, MouseReport { pos: (0, 0), wheel_bits: bits });
    assert_eq!(s.mouse_state, MouseState::default());
    assert_eq!(s.size, (1024, 1024));
    let (_, r2) = handle_imgui_events(&mut s, &InputEvent::CursorMoved { x: 10, y: 20 });
    assert_eq!(r2, MouseReport { pos: (10, 20), wheel_bits: 0 });
    assert_eq!(s.mouse_state.pos, (10, 20));
}

#[test]
fn button_flags_are_handed_on_after_the_event() {
    let mut s = ImguiState::new(ImGui::init());
    let (calls, _) = handle_imgui_events(&mut s, &InputEvent::MouseInput { button: MouseButton::Left, pressed: true });
    assert_eq!(calls, vec![ImguiCall::SetMouseDown([true, false, false, false, false])]);
    let (calls, _) = handle_imgui_events(&mut s, &InputEvent::MouseInput { button: MouseButton::Middle, pressed: true });
    assert_eq!(calls, vec![ImguiCall::SetMouseDown([true, false, true, false, false])]);
    let (calls, _) = handle_imgui_events(&mut s, &InputEvent::MouseInput { button: MouseButton::Left, pressed: false });
    assert_eq!(calls, vec![ImguiCall::SetMouseDown([false, false, true, false, false])]);
    assert_eq!(s.mouse_state.pressed, (false, false, true));
}

#[test]
fn key_events_hand_on_one_key_call_then_the_buttons() {
    let mut s = ImguiState::new(ImGui::init());
    let (calls, _) = handle_imgui_events(&mut s, &InputEvent::KeyboardInput { key: Some(Key::Escape), pressed: true });
    assert_eq!(calls, vec![ImguiCall::SetKey(12, true), ImguiCall::SetMouseDown(NO_BUTTONS)]);
    let (calls, _) = handle_imgui_events(&mut s, &InputEvent::KeyboardInput { key: Some(Key::RControl), pressed: true });
    assert_eq!(calls, vec![ImguiCall::SetKeyCtrl(true), ImguiCall::SetMouseDown(NO_BUTTONS)]);
    let (calls, _) = handle_imgui_events(&mut s, &InputEvent::KeyboardInput { key: Some(Key::LShift), pressed: false });
    assert_eq!(calls, vec![ImguiCall::SetKeyShift(false), ImguiCall::SetMouseDown(NO_BUTTONS)]);
    let (calls, _) = handle_imgui_events(&mut s, &InputEvent::KeyboardInput { key: Some(Key::RAlt), pressed: true });
    assert_eq!(calls, vec![ImguiCall::SetKeyAlt(true), ImguiCall::SetMouseDown(NO_BUTTONS)]);
    let (calls, _) = handle_imgui_events(&mut s, &InputEvent::KeyboardInput { key: Some(Key::LWin), pressed: true });
    assert_eq!(calls, vec![ImguiCall::SetKeySuper(true), ImguiCall::SetMouseDown(NO_BUTTONS)]);
    let (calls, _) = handle_imgui_events(&mut s, &InputEvent::KeyboardInput { key: None, pressed: true });
    assert_eq!(calls, vec![ImguiCall::SetMouseDown(NO_BUTTONS)]);
    assert_eq!(s.mouse_state, MouseState::default());
}

#[test]
fn typed_characters_are_handed_on() {
    let mut s = ImguiState::new(ImGui::init());
    let (calls, _) = handle_imgui_events(&mut s, &InputEvent::ReceivedCharacter('é'));
    assert_eq!(calls, vec![ImguiCall::AddInputCharacter('é'), ImguiCall::SetMouseDown(NO_BUTTONS)]);
}

#[test]
fn calls_follow_the_mouse_state_given() {
    let m = MouseState { pos: (4, 4), pressed: (false, true, false), wheel_bits: 0 };
    let calls = imgui_calls(&m, &InputEvent::MouseInput { button: MouseButton::Right, pressed: false });
    assert_eq!(calls, vec![ImguiCall::SetMouseDown(NO_BUTTONS)]);
    let calls = imgui_calls(&m, &InputEvent::Other);
    assert_eq!(calls, vec![ImguiCall::SetMouseDown([false, true, false, false, false])]);
}

#[test]
fn key_map_lists_every_key_once() {
    let map = key_map();
    assert_eq!(map.len(), 19);
    assert_eq!(map[0], (ImGuiKey::Tab, 0));
    assert_eq!(map[10], (ImGuiKey::Backspace, 10));
    assert_eq!(map[11], (ImGuiKey::Enter, 11));
    assert_eq!(map[18], (ImGuiKey::Z, 18));
    for (i, (key, slot)) in map.iter().enumerate() {
        assert_eq!(*slot as usize, i);
        assert_eq!(*key as usize, i);
    }
}

#[test]
fn registering_hands_on_the_key_table() {
    let mut imgui = ImGui::init();
    let registered = register_key_map(&mut imgui);
    assert_eq!(registered, key_map());
}

#[test]
fn handling_an_event_twice_settles_the_same() {
    let events = [
        InputEvent::CursorMoved { x: 3, y: -7 },
        InputEvent::MouseInput { button: MouseButton::Right, pressed: true },
        InputEvent::MouseWheel { delta_y_bits: 0.5f32.to_bits(), phase: TouchPhase::Moved },
        InputEvent::KeyboardInput { key: Some(Key::Tab), pressed: true },
    ];
    for e in events.iter() {
        let mut once = ImguiState::new(ImGui::init());
        handle_imgui_events(&mut once, e);
        let mut twice = ImguiState::new(ImGui::init());
        handle_imgui_events(&mut twice, e);
        handle_imgui_events(&mut twice, e);
        assert_eq!(once.mouse_state, twice.mouse_state);
    }
}

#[test]
fn a_series_keeps_the_last_move_and_button_states() {
    let mut s = ImguiState::new(ImGui::init());
    let events = [
        InputEvent::CursorMoved { x: 1, y: 1 },
        InputEvent::MouseInput { button: MouseButton::Left, pressed: true },
        InputEvent::CursorMoved { x: 50, y: 60 },
        InputEvent::MouseInput { button: MouseButton::Right, pressed: true },
        InputEvent::KeyboardInput { key: Some(Key::A), pressed: true },
        InputEvent::MouseInput { button: MouseButton::Right, pressed: false },
        InputEvent::MouseWheel { delta_y_bits: 3.0f32.to_bits(), phase: TouchPhase::Moved },
    ];
    let mut last = None;
    for e in events.iter() {
        last = Some(handle_imgui_events(&mut s, e).1);
    }
    assert_eq!(s.mouse_state, MouseState { pos: (50, 60), pressed: (true, false, false), wheel_bits: 0 });
    assert_eq!(last, Some(MouseReport { pos: (50, 60), wheel_bits: 3.0f32.to_bits() }));
}
