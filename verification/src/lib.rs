//! Keeps a Linux session awake: blocks system sleep through systemd-logind
//! and, optionally, screen blanking through `org.freedesktop.ScreenSaver`.
//!
//! The library holds the rules that every surface (daemon, tray, window)
//! shares: which lock is held when, which preferences survive a toggle, what
//! the window does on each frame, what the tray menu offers, and how the tray
//! icon is converted for the StatusNotifierItem pixmap format.

pub mod bus;
pub mod client;
pub mod icon;
pub mod inhibit;
pub mod ipc;
pub mod presence;
pub mod state;
pub mod tray;
pub mod view;
pub mod window_policy;
