//! The parts of the `imgui` crate that the library calls.
//!
//! `imgui::ImGui` is a handle: every setter below writes into the io record of
//! ImGui's global C context (`igGetIO`), which all handles of the process
//! share and which no Verus value reflects. So these wrappers state nothing of
//! their effect. The library instead computes the updates it hands to ImGui
//! as plain values (`ImguiCall`), states them exactly, and passes each one to
//! the wrapper of the same name. Each wrapper returns the record of the call
//! it made (the setter's name and its arguments), so that the library can
//! prove which calls it made, and in which order.

use vstd::prelude::*;
use imgui::{ImGui, ImGuiKey};
use crate::state::ImguiCall;

verus! {

/// The ImGui handle, opaque to Verus.
#[verifier::external_type_specification]
#[verifier::external_body]
pub struct ExImGui(imgui::ImGui);

/// ImGui's named navigation keys, a plain enum of unit variants.
#[verifier::external_type_specification]
pub struct ExImGuiKey(imgui::ImGuiKey);

/// Calls `ImGui::set_key`, which stores `pressed` at index `key` of the io
/// record's 512-entry `keys_down` array; any `u8` is in range, so it cannot
/// panic. The effect on the shared record is not stated; the result records the
/// call made.
#[verifier::external_body]
pub(crate) fn io_set_key(imgui: &mut ImGui, key: u8, pressed: bool) -> (made: ImguiCall)
    ensures
        made == ImguiCall::SetKey(key, pressed),
{
    imgui.set_key(key, pressed);
    ImguiCall::SetKey(key, pressed)
}

/// Calls `ImGui::set_key_ctrl`, which stores `value` in the io record's
/// `key_ctrl` flag. The effect on the shared record is not stated; the result records the
/// call made.
#[verifier::external_body]
pub(crate) fn io_set_key_ctrl(imgui: &mut ImGui, value: bool) -> (made: ImguiCall)
    ensures
        made == ImguiCall::SetKeyCtrl(value),
{
    imgui.set_key_ctrl(value);
    ImguiCall::SetKeyCtrl(value)
}

/// Calls `ImGui::set_key_shift`, which stores `value` in the io record's
/// `key_shift` flag. The effect on the shared record is not stated; the result records the
/// call made.
#[verifier::external_body]
pub(crate) fn io_set_key_shift(imgui: &mut ImGui, value: bool) -> (made: ImguiCall)
    ensures
        made == ImguiCall::SetKeyShift(value),
{
    imgui.set_key_shift(value);
    ImguiCall::SetKeyShift(value)
}

/// Calls `ImGui::set_key_alt`, which stores `value` in the io record's
/// `key_alt` flag. The effect on the shared record is not stated; the result records the
/// call made.
#[verifier::external_body]
pub(crate) fn io_set_key_alt(imgui: &mut ImGui, value: bool) -> (made: ImguiCall)
    ensures
        made == ImguiCall::SetKeyAlt(value),
{
    imgui.set_key_alt(value);
    ImguiCall::SetKeyAlt(value)
}

/// Calls `ImGui::set_key_super`, which stores `value` in the io record's
/// `key_super` flag. The effect on the shared record is not stated; the result records the
/// call made.
#[verifier::external_body]
pub(crate) fn io_set_key_super(imgui: &mut ImGui, value: bool) -> (made: ImguiCall)
    ensures
        made == ImguiCall::SetKeySuper(value),
{
    imgui.set_key_super(value);
    ImguiCall::SetKeySuper(value)
}

/// Calls `ImGui::add_input_character`, which encodes `character` as UTF-8
/// into a zeroed five-byte buffer (any `char` fits) and hands it to the io
/// record's input buffer. The effect on the shared record is not stated; the result records the
/// call made.
#[verifier::external_body]
pub(crate) fn io_add_input_character(imgui: &mut ImGui, character: char) -> (made: ImguiCall)
    ensures
        made == ImguiCall::AddInputCharacter(character),
{
    imgui.add_input_character(character);
    ImguiCall::AddInputCharacter(character)
}

/// Calls `ImGui::set_mouse_down`, which stores `states` as the io record's
/// `mouse_down` array. The effect on the shared record is not stated; the result records the
/// call made.
#[verifier::external_body]
pub(crate) fn io_set_mouse_down(imgui: &mut ImGui, states: [bool; 5]) -> (made: ImguiCall)
    ensures
        made == ImguiCall::SetMouseDown(states),
{
    imgui.set_mouse_down(states);
    ImguiCall::SetMouseDown(states)
}

/// Calls `ImGui::set_imgui_key`, which stores `mapping` at index
/// `key as usize` of the io record's 19-entry `key_map`; every variant is in
/// range. The effect on the shared record is not stated; the result records the
/// call made.
#[verifier::external_body]
pub(crate) fn io_set_imgui_key(imgui: &mut ImGui, key: ImGuiKey, mapping: u8) -> (made: (ImGuiKey, u8))
    ensures
        made == (key, mapping),
{
    imgui.set_imgui_key(key, mapping);
    (key, mapping)
}

} // verus!
