# sleep-block

Keeps a Linux session awake: blocks system sleep through systemd-logind's
`Inhibit` (a block-mode `sleep:idle` lock that lives exactly as long as its
descriptor) and, optionally, screen blanking through
`org.freedesktop.ScreenSaver`. A daemon owns the locks and a tray icon; a
disposable GUI window talks to it over the session bus.

## Layout

- `src/` — the verified library (Verus):
  - `state.rs` — the inhibitor state and its rules (`LockState`), and the
    shared handle every surface uses (`SleepBlock`);
  - `inhibit.rs` — the logind and ScreenSaver locks;
  - `window_policy.rs` — what the window does on each frame;
  - `tray.rs` — the tray menu, tooltip, icon choice and menu actions;
  - `icon.rs` — PNG to the premultiplied ARGB32 pixmap the tray needs;
  - `client.rs` — the GUI's client of the daemon;
  - `ipc.rs` — the bus names, members and method replies;
  - `view.rs` — the window's texts, colours and close rule;
  - `presence.rs` — the "a GUI is running" flag;
  - `bus.rs` — the trusted wrappers around zbus calls.
- `app/` — the programs: the daemon (`sleep-blockd`: D-Bus service and tray)
  and the GUI (`sleep-block`), selected by the name the binary runs under.
- `tests/` — tests of the library.

The tray icons are read at run time from `icons/` next to the executable
(`sleep-block-{active,idle}-{22,32,48}.png`, 8-bit RGBA) or from
`/usr/share/sleep-block/icons`.
