//! The D-Bus contract between the daemon and the GUI.
//!
//! The daemon owns every inhibitor; the GUI owns none, because a logind lock
//! lives exactly as long as its descriptor and a GUI holding it would release
//! it the moment its window closed. The daemon is authoritative, and the GUI
//! is a thin client that renders what it is told and asks for changes.

use vstd::prelude::*;
use crate::inhibit::LockError;
use crate::state::Status;

verus! {

/// The well-known name the daemon owns. A second daemon that cannot acquire it
/// knows one is already running and exits: that is the whole single-instance
/// mechanism.
pub const BUS_NAME: &'static str = "net.phantomnet.SleepBlock1";

/// The name a running GUI owns, so the daemon does not launch a second one
/// and a second GUI knows to exit.
pub const GUI_BUS_NAME: &'static str = "net.phantomnet.SleepBlock1.Gui";

/// The object the interface is served at.
pub const OBJECT_PATH: &'static str = "/net/phantomnet/SleepBlock1";

/// The interface name, kept in one place so client and service agree.
pub const INTERFACE: &'static str = "net.phantomnet.SleepBlock1";

/// Method: turns sleep blocking on if off, and off if on; replies with
/// `(sleep_blocked, screen_blocked)`.
pub const METHOD_TOGGLE: &'static str = "Toggle";

/// Method: sets whether the screen should also be kept awake; replies with
/// `(sleep_blocked, screen_blocked)`.
pub const METHOD_SET_KEEP_SCREEN_AWAKE: &'static str = "SetKeepScreenAwake";

/// Method: releases every lock and stops the daemon.
pub const METHOD_QUIT: &'static str = "Quit";

/// Property: true while system sleep is blocked.
pub const PROPERTY_SLEEP_BLOCKED: &'static str = "SleepBlocked";

/// Property: true while screen blanking and locking is also blocked.
pub const PROPERTY_SCREEN_BLOCKED: &'static str = "ScreenBlocked";

/// Property: the user's screen-lock preference, which persists across toggles.
pub const PROPERTY_KEEP_SCREEN_AWAKE: &'static str = "KeepScreenAwake";

/// Property: whether the daemon has a tray icon.
pub const PROPERTY_HAS_TRAY: &'static str = "HasTray";

/// Property (writable): whether closing the GUI window leaves the daemon
/// running.
pub const PROPERTY_KEEP_RUNNING_IN_TRAY: &'static str = "KeepRunningInTray";

/// The reply of the `Toggle` and `SetKeepScreenAwake` methods: the resulting
/// `(sleep_blocked, screen_blocked)`, or the failure's message. The failure
/// is handed to the caller rather than logged, because the window is a
/// separate process and the daemon's own output is not where the user looks.
pub fn method_reply(r: Result<Status, LockError>) -> (reply: Result<(bool, bool), String>)
    ensures
        match r {
            Ok(s) => reply == Ok::<(bool, bool), String>((s.sleep_blocked, s.screen_blocked)),
            Err(e) => reply matches Err(m) && m@ == e.prefix() + e.detail(),
        },
{
    match r {
        Ok(s) => Ok((s.sleep_blocked, s.screen_blocked)),
        Err(e) => Err(e.message()),
    }
}

} // verus!
