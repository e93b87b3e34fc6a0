//! Input bookkeeping for a Dear ImGui overlay: window events are turned into
//! the key, character and mouse updates that ImGui's io record expects.

pub mod imgui_io;
pub mod input;
pub mod keymap;
pub mod laws;
pub mod mouse;
pub mod state;

pub use input::{InputEvent, Key, KeyInput, MouseButton, TouchPhase};
pub use mouse::MouseState;
pub use state::{handle_imgui_events, ImguiCall, ImguiState, MouseReport};
