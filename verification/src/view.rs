//! What the window shows and what closing it means, independently of the GUI
//! toolkit.
//!
//! State is never conveyed by colour alone: the heading, the caption and the
//! indicator's glyph carry it too.

use vstd::prelude::*;
use crate::client::CallError;
use crate::state::Status;

verus! {

/// A colour, as red, green and blue.
#[derive(Debug, Clone, Copy, PartialEq, Eq, Structural)]
pub struct Rgb {
    pub r: u8,
    pub g: u8,
    pub b: u8,
}

/// The indicator's fill: green while sleep is blocked, red otherwise, each a
/// little brighter under the pointer.
pub open spec fn fill_of(active: bool, hovered: bool) -> Rgb {
    if active {
        if hovered { Rgb { r: 56, g: 190, b: 80 } } else { Rgb { r: 46, g: 160, b: 67 } }
    } else {
        if hovered { Rgb { r: 210, g: 60, b: 60 } } else { Rgb { r: 180, g: 48, b: 48 } }
    }
}

/// The indicator's fill; see [`fill_of`].
pub fn indicator_fill(active: bool, hovered: bool) -> (c: Rgb)
    ensures
        c == fill_of(active, hovered),
{
    match (active, hovered) {
        (true, false) => Rgb { r: 46, g: 160, b: 67 },
        (true, true) => Rgb { r: 56, g: 190, b: 80 },
        (false, false) => Rgb { r: 180, g: 48, b: 48 },
        (false, true) => Rgb { r: 210, g: 60, b: 60 },
    }
}

/// The colour of an error line.
pub fn error_colour() -> (c: Rgb)
    ensures
        c == fill_of(false, true),
{
    Rgb { r: 210, g: 60, b: 60 }
}

/// The window's heading.
pub fn heading(sleep_blocked: bool) -> (t: &'static str)
    ensures
        t@ == (if sleep_blocked { "Awake"@ } else { "Sleep allowed"@ }),
{
    if sleep_blocked {
        "Awake"
    } else {
        "Sleep allowed"
    }
}

/// The caption under the indicator: what is happening, and what a click does.
pub fn caption(sleep_blocked: bool) -> (t: &'static str)
    ensures
        t@ == (if sleep_blocked {
            "Sleep is blocked.\nClick to allow sleeping again."@
        } else {
            "The system can suspend normally.\nClick to keep it awake."@
        }),
{
    if sleep_blocked {
        "Sleep is blocked.\nClick to allow sleeping again."
    } else {
        "The system can suspend normally.\nClick to keep it awake."
    }
}

/// The indicator's hover text: what a click will do.
pub fn indicator_hint(active: bool) -> (t: &'static str)
    ensures
        t@ == (if active {
            "Click to allow the system to sleep"@
        } else {
            "Click to prevent the system from sleeping"@
        }),
{
    if active {
        "Click to allow the system to sleep"
    } else {
        "Click to prevent the system from sleeping"
    }
}

/// The error line shown when the screen-lock checkbox could not take effect.
pub fn screen_error(e: &CallError) -> (t: String)
    ensures
        t@ == "Screen lock not blocked: "@ + e.text(),
{
    let mut t = String::from_str("Screen lock not blocked: ");
    let detail = e.message();
    t.append(detail.as_str());
    t
}

/// What closing the window does to the daemon.
#[derive(Debug, Clone, Copy, PartialEq, Eq, Structural)]
pub enum CloseOutcome {
    /// Only the window goes; the daemon keeps the locks and the tray.
    LeaveDaemon,
    /// The whole application stops: the daemon releases everything and exits.
    StopDaemon,
}

/// What closing the window does: the Quit button always stops the whole
/// application; closing the window leaves the daemon running only when the
/// user asked to keep running in the tray.
pub open spec fn close_outcome(quitting: bool, status: Status) -> CloseOutcome {
    if !quitting && status.keep_running_in_tray {
        CloseOutcome::LeaveDaemon
    } else {
        CloseOutcome::StopDaemon
    }
}

/// Decides what closing the window does; see [`close_outcome`].
pub fn on_close(quitting: bool, status: Status) -> (o: CloseOutcome)
    ensures
        o == close_outcome(quitting, status),
{
    if !quitting && status.keep_running_in_tray {
        CloseOutcome::LeaveDaemon
    } else {
        CloseOutcome::StopDaemon
    }
}

} // verus!
