# overlay_core

Verified decision logic of an always-on-top, click-through desktop overlay
(a Tauri v2 window on Windows).

- `src/bounds.rs` — the rectangle the overlay covers: the virtual desktop minus
  the primary monitor's taskbar strip on outer edges.
- `src/regions.rs` — the hit-region table, replaced wholesale by the frontend,
  last occurrence of an id wins.
- `src/click_through.rs` — the polling loop's click-through toggle, which
  touches the window only when the state changes.
- `src/window_style.rs` — the read-modify-write that keeps the tool-window bit.
- `src/watchdog.rs`, `src/env_override.rs` — the liveness watchdog: readiness,
  heartbeats, auto-exit switch, and the hide/show/exit decision of each check.
- `src/tray.rs` — the tray menu's items per build, their ids and labels, and
  which item a menu event is for.
- `app/` — the Tauri application around the library: Win32 calls, window
  calls, threads, the floating-point hit test, tray and shortcuts.
