# ctl_tab

The decision logic of a macOS Alt-Tab-style switcher (Ctrl-Tab between apps,
Ctrl-§ between the windows of the frontmost app), verified with Verus.

- `src/` — the verified library:
  - `switcher` — wrapping selection index, the switcher state, eligibility and
    most-recently-used ordering of running apps;
  - `config` — shortcut combos, validation, label formatting;
  - `controller` — the gesture state machine driven by key events, mouse and
    settings commands; each handler returns what the native side must do;
  - `apps` — MRU bookkeeping, the icon cache, PNG data URLs (via `base64`);
  - `windows` — which Accessibility windows are listed, VS Code title reordering;
  - `events`, `text`, `diagnostics`, `hotkey` — payloads, decimal rendering, the
    debug flag, the wait for the Accessibility grant.
- `app/` — the native shell (Tauri, AppKit, Accessibility, CoreGraphics event
  tap, disk I/O) that performs the effects.
- `tests/` — tests of the library.
