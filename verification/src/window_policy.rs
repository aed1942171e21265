//! Decides what the window should do on each frame, independently of any GUI
//! toolkit, so the rules can be exercised headlessly.
//!
//! A close into the tray hides the window and cancels the close; a show is
//! asked for once, on a transition from hidden to visible. The status that
//! decides the show is the one the hide itself returns, so the frame that
//! hides the window never also shows it.

use vstd::prelude::*;
use crate::state::{SleepBlock, Status};

verus! {

/// What the caller should ask the viewport to do this frame.
#[derive(Debug, Clone, Copy, PartialEq, Eq, Structural)]
pub struct WindowAction {
    /// Cancel the pending close so the process survives.
    pub cancel_close: bool,
    /// Hide the window without exiting.
    pub hide: bool,
    /// Show the window and raise it.
    pub show: bool,
    /// The tray needs to re-read state because this frame changed it.
    pub refresh_tray: bool,
}

impl Default for WindowAction {
    /// Nothing to do.
    fn default() -> (a: WindowAction)
        ensures
            a == WindowAction::none(),
    {
        WindowAction { cancel_close: false, hide: false, show: false, refresh_tray: false }
    }
}

impl WindowAction {
    pub open spec fn none() -> WindowAction {
        WindowAction { cancel_close: false, hide: false, show: false, refresh_tray: false }
    }
}

/// The inputs a frame's decision depends on.
#[derive(Debug, Clone, Copy)]
pub struct Frame {
    /// The window manager asked the window to close.
    pub close_requested: bool,
    /// The in-window Quit button was pressed; a deliberate quit outranks
    /// hide-on-close.
    pub quitting: bool,
}

/// A close with hide-to-tray enabled hides the window and cancels the close,
/// and the same frame never also asks to show it, because the show check
/// looks at the status the hide returned.
pub proof fn lemma_close_hides_without_showing(was_hidden: bool, start: Status, frame: Frame)
    requires
        start.wf(),
        WindowPolicy::hides(frame, start),
    ensures
        start.with_window_hidden(true).window_hidden,
        WindowPolicy::action(true, was_hidden, start.with_window_hidden(true)) == (WindowAction {
            cancel_close: true,
            hide: true,
            show: false,
            refresh_tray: true,
        }),
{
}

/// A deliberate quit, or a close with hide-to-tray off, is never turned into
/// a hide.
pub proof fn lemma_close_goes_ahead(frame: Frame, start: Status)
    requires
        frame.quitting || !start.keep_running_in_tray,
    ensures
        !WindowPolicy::hides(frame, start),
        !WindowPolicy::action(false, false, start).cancel_close,
{
}

/// A show is asked for once per reappearance, not every frame: once a frame
/// has seen the window visible, a later frame that sees the same status asks
/// for nothing.
pub proof fn lemma_show_once(hid: bool, was_hidden: bool, seen: Status)
    ensures
        !WindowPolicy::action(false, seen.window_hidden, seen).show,
        (was_hidden && !seen.window_hidden) ==> WindowPolicy::action(hid, was_hidden, seen).show,
{
}

/// A hidden window stays hidden: no frame that sees it hidden asks to show
/// it.
pub proof fn lemma_hidden_stays_hidden(hid: bool, was_hidden: bool, seen: Status)
    requires
        seen.window_hidden,
    ensures
        !WindowPolicy::action(hid, was_hidden, seen).show,
{
}

/// Tracks what the previous frame saw, so transitions can be detected.
#[derive(Debug)]
pub struct WindowPolicy {
    was_hidden: bool,
}

impl Default for WindowPolicy {
    fn default() -> (p: WindowPolicy)
        ensures
            !p.was_hidden(),
    {
        WindowPolicy::new()
    }
}

impl WindowPolicy {
    /// Whether the last frame saw the window hidden.
    pub closed spec fn was_hidden(&self) -> bool {
        self.was_hidden
    }

    /// Whether a frame closes the window into the tray rather than letting
    /// the close go ahead: a close request, with hide-to-tray enabled, that
    /// is not a deliberate quit.
    pub open spec fn hides(frame: Frame, status: Status) -> bool {
        frame.close_requested && status.keep_running_in_tray && !frame.quitting
    }

    /// What a frame asks for, given whether it hid the window, whether the
    /// previous frame saw the window hidden, and the status after any hide:
    /// a hide cancels the close and refreshes the tray; a show is asked for
    /// exactly on a transition from hidden to not hidden.
    pub open spec fn action(hid: bool, was_hidden: bool, seen: Status) -> WindowAction {
        WindowAction {
            cancel_close: hid,
            hide: hid,
            show: was_hidden && !seen.window_hidden,
            refresh_tray: hid,
        }
    }

    /// A policy that has seen no hidden window.
    pub fn new() -> (p: WindowPolicy)
        ensures
            !p.was_hidden(),
    {
        WindowPolicy { was_hidden: false }
    }

    /// Whether `frame` hides the window, given the status it starts from.
    pub fn decides_hide(frame: Frame, status: Status) -> (hide: bool)
        ensures
            hide == WindowPolicy::hides(frame, status),
    {
        frame.close_requested && status.keep_running_in_tray && !frame.quitting
    }

    /// Records the status a frame ended with (after any hide) and returns the
    /// action for that frame.
    pub fn observe(&mut self, hid: bool, seen: Status) -> (action: WindowAction)
        ensures
            action == WindowPolicy::action(hid, old(self).was_hidden(), seen),
            final(self).was_hidden() == seen.window_hidden,
    {
        let action = WindowAction {
            cancel_close: hid,
            hide: hid,
            show: !seen.window_hidden && self.was_hidden,
            refresh_tray: hid,
        };
        self.was_hidden = seen.window_hidden;
        action
    }

    /// Applies one frame's inputs and returns what the window should do.
    ///
    /// Mutates the shared state as a side effect, because hiding is a state
    /// change that the tray must observe. Another surface may change the
    /// state during the frame, so the contract speaks of the statuses this
    /// frame saw: it hid exactly when [`WindowPolicy::hides`] held of the
    /// status it started from, and the status it ended with is the one the
    /// hide returned.
    pub fn step(&mut self, state: &SleepBlock, frame: Frame) -> (action: WindowAction)
        ensures
            exists|start: Status, seen: Status| {
                &&& start.wf() && seen.wf()
                &&& action == WindowPolicy::action(
                    WindowPolicy::hides(frame, start),
                    old(self).was_hidden(),
                    seen,
                )
                &&& WindowPolicy::hides(frame, start) ==> seen.window_hidden
                    == seen.keep_running_in_tray
                &&& !WindowPolicy::hides(frame, start) ==> seen == start
                &&& final(self).was_hidden() == seen.window_hidden
            },
    {
        let ghost was_hidden = self.was_hidden;
        let start = state.snapshot();
        let hid = WindowPolicy::decides_hide(frame, start);
        let seen = if hid {
            // Re-read from the setter rather than reusing the snapshot above:
            // that one still reports the window as visible, and the show check
            // would immediately undo the hide.
            state.set_window_hidden(true)
        } else {
            start
        };
        let action = self.observe(hid, seen);
        assert({
            &&& start.wf() && seen.wf()
            &&& action == WindowPolicy::action(WindowPolicy::hides(frame, start), was_hidden, seen)
            &&& WindowPolicy::hides(frame, start) ==> seen.window_hidden
                == seen.keep_running_in_tray
            &&& !WindowPolicy::hides(frame, start) ==> seen == start
            &&& self.was_hidden() == seen.window_hidden
        });
        action
    }
}

} // verus!
