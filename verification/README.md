# amethyst_imgui

Input handling for a Dear ImGui overlay in an amethyst game, verified with Verus.

- `src/` is the verified library: the window events it understands (`input`),
  the mouse state and how each event changes it (`mouse`), the key table
  registered with ImGui (`keymap`), the overlay state, the updates it hands to ImGui (`ImguiCall`)
  and its event handler (`state`), the cross-function properties (`laws`), and the declarations of
  the `imgui` items it calls (`imgui_io`).
- `app/` holds the amethyst render pass, the ECS resource lookup, and the
  translation of window events (with their float coordinates) into the
  library's events.
