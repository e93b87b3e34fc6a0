use vstd::prelude::*;

verus! {

/// The keys of the window system that the overlay reacts to.
///
/// Every other key, and a key event without a key code, is handed in as
/// `None` (see `InputEvent::KeyboardInput`).
#[derive(Copy, Clone, PartialEq, Eq, Debug)]
pub enum Key {
    Tab,
    Left,
    Right,
    Up,
    Down,
    PageUp,
    PageDown,
    Home,
    End,
    Delete,
    Back,
    Return,
    Escape,
    A,
    C,
    V,
    X,
    Y,
    Z,
    LControl,
    RControl,
    LShift,
    RShift,
    LAlt,
    RAlt,
    LWin,
    RWin,
}

/// A mouse button as the window system names it.
#[derive(Copy, Clone, PartialEq, Eq, Debug)]
pub enum MouseButton {
    Left,
    Right,
    Middle,
    Other(u8),
}

/// Phase of a touch or scroll gesture.
#[derive(Copy, Clone, PartialEq, Eq, Debug)]
pub enum TouchPhase {
    Started,
    Moved,
    Ended,
    Cancelled,
}

/// A window event, reduced to what the overlay reads of it.
#[derive(Copy, Clone, PartialEq, Eq, Debug)]
pub enum InputEvent {
    /// A key went down (`pressed`) or up; `key` is `None` for any key not
    /// listed in `Key`.
    KeyboardInput { key: Option<Key>, pressed: bool },
    /// The cursor moved to this position, in whole pixels.
    CursorMoved { x: i32, y: i32 },
    /// A mouse button went down (`pressed`) or up.
    MouseInput { button: MouseButton, pressed: bool },
    /// A scroll, by lines or by pixels; `delta_y_bits` is the bit pattern of
    /// the vertical delta (an `f32`).
    MouseWheel { delta_y_bits: u32, phase: TouchPhase },
    /// A character was typed.
    ReceivedCharacter(char),
    /// Any other event.
    Other,
}

/// One update of ImGui's keyboard input.
#[derive(Copy, Clone, PartialEq, Eq, Debug)]
pub enum KeyInput {
    /// Key slot `0` is down (`true`) or up.
    Key(u8, bool),
    Ctrl(bool),
    Shift(bool),
    Alt(bool),
    Super(bool),
    /// A typed character.
    Character(char),
}

/// Number of navigation keys ImGui maps to user key slots.
pub const KEY_COUNT: usize = 19;

/// The slot in ImGui's `keys_down` array that stands for `key`, if it has one.
pub open spec fn spec_key_slot(key: Key) -> Option<u8> {
    match key {
        Key::Tab => Some(0u8),
        Key::Left => Some(1u8),
        Key::Right => Some(2u8),
        Key::Up => Some(3u8),
        Key::Down => Some(4u8),
        Key::PageUp => Some(5u8),
        Key::PageDown => Some(6u8),
        Key::Home => Some(7u8),
        Key::End => Some(8u8),
        Key::Delete => Some(9u8),
        Key::Back => Some(10u8),
        Key::Return => Some(11u8),
        Key::Escape => Some(12u8),
        Key::A => Some(13u8),
        Key::C => Some(14u8),
        Key::V => Some(15u8),
        Key::X => Some(16u8),
        Key::Y => Some(17u8),
        Key::Z => Some(18u8),
        _ => None,
    }
}

/// The slot of `key` in ImGui's `keys_down` array, if it has one.
pub fn key_slot(key: Key) -> (slot: Option<u8>)
    ensures
        slot == spec_key_slot(key),
{
    match key {
        Key::Tab => Some(0),
        Key::Left => Some(1),
        Key::Right => Some(2),
        Key::Up => Some(3),
        Key::Down => Some(4),
        Key::PageUp => Some(5),
        Key::PageDown => Some(6),
        Key::Home => Some(7),
        Key::End => Some(8),
        Key::Delete => Some(9),
        Key::Back => Some(10),
        Key::Return => Some(11),
        Key::Escape => Some(12),
        Key::A => Some(13),
        Key::C => Some(14),
        Key::V => Some(15),
        Key::X => Some(16),
        Key::Y => Some(17),
        Key::Z => Some(18),
        _ => None,
    }
}

/// The keyboard update that `event` asks of ImGui, if any.
pub open spec fn spec_key_input(event: InputEvent) -> Option<KeyInput> {
    match event {
        InputEvent::KeyboardInput { key: Some(k), pressed } => match k {
            Key::LControl | Key::RControl => Some(KeyInput::Ctrl(pressed)),
            Key::LShift | Key::RShift => Some(KeyInput::Shift(pressed)),
            Key::LAlt | Key::RAlt => Some(KeyInput::Alt(pressed)),
            Key::LWin | Key::RWin => Some(KeyInput::Super(pressed)),
            _ => match spec_key_slot(k) {
                Some(slot) => Some(KeyInput::Key(slot, pressed)),
                None => None,
            },
        },
        InputEvent::ReceivedCharacter(c) => Some(KeyInput::Character(c)),
        _ => None,
    }
}

/// The keyboard update that `event` asks of ImGui, if any.
pub fn key_input(event: &InputEvent) -> (input: Option<KeyInput>)
    ensures
        input == spec_key_input(*event),
{
    match event {
        InputEvent::KeyboardInput { key: Some(k), pressed } => match k {
            Key::LControl | Key::RControl => Some(KeyInput::Ctrl(*pressed)),
            Key::LShift | Key::RShift => Some(KeyInput::Shift(*pressed)),
            Key::LAlt | Key::RAlt => Some(KeyInput::Alt(*pressed)),
            Key::LWin | Key::RWin => Some(KeyInput::Super(*pressed)),
            _ => match key_slot(*k) {
                Some(slot) => Some(KeyInput::Key(slot, *pressed)),
                None => None,
            },
        },
        InputEvent::ReceivedCharacter(c) => Some(KeyInput::Character(*c)),
        _ => None,
    }
}

} // verus!
