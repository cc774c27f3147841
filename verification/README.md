# OpenTartarus

A remapper for the Razer Tartarus V2 (`1532:022b`) and Tartarus Pro
(`1532:0244`) keypads on Linux: per-game profiles, macros, hold-to-repeat,
mouse buttons and profile switching from the pad, with lighting through
OpenRazer or OpenRGB.

The library in `src/` is written in Verus. Every function in it carries a
contract, and the laws the app relies on are stated and proved as proof
functions beside the code they speak of.

## Layout

- `src/` — the verified library
  - `types`, `profile`, `validate`: keys, actions, profiles and the rules a
    profile file must meet
  - `remap`: the remap engine (bindings, macros, hold-to-repeat, the thumb
    hat and the analog stick), with its laws
  - `keymap`, `uinput`: the pad's event codes and the virtual devices' codes
  - `codec`, `ipc`: the socket's frames and message envelopes
  - `record`, `requests`, `store`, `pack`: recording a key, the daemon's
    request rules, profile files and the shipped pack
  - `device`, `scan`: reading the kernel's device lists, grab and permission
    decisions
  - `lighting`, `openrazer`, `openrgb`: choosing a lighting backend and what
    each one is sent
  - `daemon`, `tray`, `paths`, `binpath`: the daemon's small decisions, the
    tray's text and icon, where files live and where programs are
  - `labels`, `ui`, `app`: what the window shows, and the window's state
    machine: each message's effect on the state and the requests it sends
  - `fix_permissions`: the permissions helper's checks and its steps
- `tests/` — tests of the library's public functions
- `app/` — the daemon program: the socket server, the device thread, the
  virtual devices, the lighting backends, the tray and the files on disk.
  Installed a second time as `opentartarus-fix-permissions`, the same
  binary runs the permissions helper (through pkexec) instead.

## Files at run time

- profiles: `$XDG_CONFIG_HOME/opentartarus/profiles/<id>.json`
- active profile: `$XDG_CONFIG_HOME/opentartarus/state.json`
- socket: `$XDG_RUNTIME_DIR/opentartarus/daemon.sock`
- log: `$XDG_STATE_HOME/opentartarus/opentartarus.log`
- shipped pack: `/usr/share/opentartarus/profiles`, or the directory in
  `OPENTARTARUS_PACK_DIR`
- tray icon: `/usr/share/icons/hicolor/64x64/apps/opentartarus.png`
