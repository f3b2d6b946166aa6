# aether

The decision logic of the Aether desktop client (a Cloudflare WARP client with
MASQUE and WireGuard support), verified with Verus.

- `src/` — the verified library:
  - `preset` — connection presets, the shipped presets, the preset store
    (active preset, deletion, where the presets file lives, start-up store);
  - `cli` — reading the command line;
  - `gui` — what the window decides: selection and editing of presets, the
    connect button, the log, the settings a tunnel starts with;
  - `system_proxy` — plans that switch the desktop's proxy on Linux (GNOME,
    KDE), macOS and Windows;
  - `text` — string helpers (equality, splitting, decimal numbers).
- `app/` — the program around it: process arguments, the presets file (TOML),
  running the proxy commands, and the egui window with its tunnel thread.
- `tests/` — tests of the library on concrete values.
