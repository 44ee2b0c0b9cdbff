# specialfx

Translucent fullscreen colour overlays: night-mode tints, dimming and so on.
Each monitor gets a borderless, always-on-top, click-through window filled with
a semi-transparent colour, and the compositor blends it over everything:
`out = src × (1 − α) + colour × α`.

## Layout

- `src/` — the verified library: hex colour notation (`color`), the
  presets and the command line's colour argument (`presets`), error messages
  (`error`), the event loop's decision (`run`), and the Windows backend's
  message decisions, colour packing and window geometry (`win32`), with the
  laws that tie them together (round trips, case-insensitivity, optional `#`,
  short forms).
- `app/` — ordinary Rust around it: the `f32` colour type and its blending
  arithmetic, the overlay handle, the Windows and macOS backends and the
  `specialfx` command-line program.
- `tests/` — tests of the library.
