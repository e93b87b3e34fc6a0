use vstd::prelude::*;
use imgui::{ImGui, ImGuiKey};
use crate::input::{Key, KEY_COUNT};
use crate::imgui_io::io_set_imgui_key;

verus! {

/// The ImGui navigation key that a window-system key stands for, if any.
pub open spec fn imgui_key_of(key: Key) -> Option<ImGuiKey> {
    match key {
        Key::Tab => Some(ImGuiKey::Tab),
        Key::Left => Some(ImGuiKey::LeftArrow),
        Key::Right => Some(ImGuiKey::RightArrow),
        Key::Up => Some(ImGuiKey::UpArrow),
        Key::Down => Some(ImGuiKey::DownArrow),
        Key::PageUp => Some(ImGuiKey::PageUp),
        Key::PageDown => Some(ImGuiKey::PageDown),
        Key::Home => Some(ImGuiKey::Home),
        Key::End => Some(ImGuiKey::End),
        Key::Delete => Some(ImGuiKey::Delete),
        Key::Back => Some(ImGuiKey::Backspace),
        Key::Return => Some(ImGuiKey::Enter),
        Key::Escape => Some(ImGuiKey::Escape),
        Key::A => Some(ImGuiKey::A),
        Key::C => Some(ImGuiKey::C),
        Key::V => Some(ImGuiKey::V),
        Key::X => Some(ImGuiKey::X),
        Key::Y => Some(ImGuiKey::Y),
        Key::Z => Some(ImGuiKey::Z),
        _ => None,
    }
}

/// The table that tells ImGui which user key slot holds each navigation key.
pub open spec fn spec_key_map() -> Seq<(ImGuiKey, u8)> {
    seq![
        (ImGuiKey::Tab, 0u8),
        (ImGuiKey::LeftArrow, 1u8),
        (ImGuiKey::RightArrow, 2u8),
        (ImGuiKey::UpArrow, 3u8),
        (ImGuiKey::DownArrow, 4u8),
        (ImGuiKey::PageUp, 5u8),
        (ImGuiKey::PageDown, 6u8),
        (ImGuiKey::Home, 7u8),
        (ImGuiKey::End, 8u8),
        (ImGuiKey::Delete, 9u8),
        (ImGuiKey::Backspace, 10u8),
        (ImGuiKey::Enter, 11u8),
        (ImGuiKey::Escape, 12u8),
        (ImGuiKey::A, 13u8),
        (ImGuiKey::C, 14u8),
        (ImGuiKey::V, 15u8),
        (ImGuiKey::X, 16u8),
        (ImGuiKey::Y, 17u8),
        (ImGuiKey::Z, 18u8),
    ]
}

/// The key table, in slot order.
pub fn key_map() -> (map: Vec<(ImGuiKey, u8)>)
    ensures
        map@ == spec_key_map(),
        map@.len() == KEY_COUNT,
{
    let map = vec![
        (ImGuiKey::Tab, 0u8),
        (ImGuiKey::LeftArrow, 1u8),
        (ImGuiKey::RightArrow, 2u8),
        (ImGuiKey::UpArrow, 3u8),
        (ImGuiKey::DownArrow, 4u8),
        (ImGuiKey::PageUp, 5u8),
        (ImGuiKey::PageDown, 6u8),
        (ImGuiKey::Home, 7u8),
        (ImGuiKey::End, 8u8),
        (ImGuiKey::Delete, 9u8),
        (ImGuiKey::Backspace, 10u8),
        (ImGuiKey::Enter, 11u8),
        (ImGuiKey::Escape, 12u8),
        (ImGuiKey::A, 13u8),
        (ImGuiKey::C, 14u8),
        (ImGuiKey::V, 15u8),
        (ImGuiKey::X, 16u8),
        (ImGuiKey::Y, 17u8),
        (ImGuiKey::Z, 18u8),
    ];
    assert(map@ =~= spec_key_map());
    map
}

/// The index of `key` in ImGui's `key_map` array: `set_imgui_key` writes at
/// `key as usize`, the variant's place in the declaration of `ImGuiKey`.
pub open spec fn imgui_key_index(key: ImGuiKey) -> int {
    match key {
        ImGuiKey::Tab => 0,
        ImGuiKey::LeftArrow => 1,
        ImGuiKey::RightArrow => 2,
        ImGuiKey::UpArrow => 3,
        ImGuiKey::DownArrow => 4,
        ImGuiKey::PageUp => 5,
        ImGuiKey::PageDown => 6,
        ImGuiKey::Home => 7,
        ImGuiKey::End => 8,
        ImGuiKey::Delete => 9,
        ImGuiKey::Backspace => 10,
        ImGuiKey::Enter => 11,
        ImGuiKey::Escape => 12,
        ImGuiKey::A => 13,
        ImGuiKey::C => 14,
        ImGuiKey::V => 15,
        ImGuiKey::X => 16,
        ImGuiKey::Y => 17,
        ImGuiKey::Z => 18,
    }
}

/// Tells ImGui the slot of every navigation key: one `set_imgui_key(key, slot)`
/// call for each entry of `key_map()`, in slot order. The result is the
/// record of the calls made, which is the key table itself.
pub fn register_key_map(imgui: &mut ImGui) -> (registered: Vec<(ImGuiKey, u8)>)
    ensures
        registered@ == spec_key_map(),
{
    let map = key_map();
    let n = map.len();
    let mut registered: Vec<(ImGuiKey, u8)> = Vec::new();
    for i in 0..n
        invariant
            n == map@.len(),
            map@ == spec_key_map(),
            registered@ == map@.take(i as int),
    {
        let (key, slot) = map[i];
        let made = io_set_imgui_key(imgui, key, slot);
        registered.push(made);
        assert(map@.take(i + 1) =~= map@.take(i as int).push(map@[i as int]));
    }
    assert(map@.take(n as int) =~= map@);
    registered
}

} // verus!
