//! The inhibitor state that every surface shares.
//!
//! [`LockState`] is the state itself: which locks are held and which
//! preferences the user set, with the rules for changing them. [`SleepBlock`]
//! is a cheap, clonable handle to one `LockState` behind a lock, so the tray,
//! the daemon's bus interface and the window all act on the same state.

use vstd::prelude::*;
use vstd::rwlock::{RwLock, RwLockPredicate};
use std::sync::Arc;
use crate::inhibit::{
    logind_inhibit_message, screensaver_inhibit_message, Inhibitor, LockError, ScreenInhibitor,
};

verus! {

/// The reason given to logind and to the screen locker.
pub const REASON: &'static str = "User requested the system stay awake";

/// A snapshot of what is currently inhibited, for rendering.
#[derive(Debug, Clone, Copy, PartialEq, Eq, Structural)]
pub struct Status {
    /// Whether system sleep is currently blocked.
    pub sleep_blocked: bool,
    /// Whether screen blanking and locking is also blocked. Never true while
    /// `sleep_blocked` is false: the screen lock is an add-on to sleep
    /// blocking, never held alone.
    pub screen_blocked: bool,
    /// Whether the user wants the screen kept awake. Retained while sleep
    /// blocking is off so the preference survives a toggle cycle.
    pub keep_screen_awake: bool,
    /// Whether closing the window should hide it and keep the application
    /// running in the tray.
    pub keep_running_in_tray: bool,
    /// Whether the window is currently hidden to the tray. Only ever true
    /// while `keep_running_in_tray` is set.
    pub window_hidden: bool,
}

impl Status {
    /// Nothing held, no preference set.
    pub open spec fn initial() -> Status {
        Status {
            sleep_blocked: false,
            screen_blocked: false,
            keep_screen_awake: false,
            keep_running_in_tray: false,
            window_hidden: false,
        }
    }

    /// The consistency every reachable state has: the screen lock is held
    /// exactly when sleep is blocked and the user wants the screen kept on,
    /// and the window is hidden only when hiding to the tray is enabled.
    pub open spec fn wf(self) -> bool {
        &&& self.screen_blocked == (self.sleep_blocked && self.keep_screen_awake)
        &&& self.window_hidden ==> self.keep_running_in_tray
    }

    /// Both locks released; every preference kept.
    pub open spec fn released(self) -> Status {
        Status { sleep_blocked: false, screen_blocked: false, ..self }
    }

    /// Sleep blocked, with the screen lock held or not as `screen` says.
    pub open spec fn blocking(self, screen: bool) -> Status {
        Status { sleep_blocked: true, screen_blocked: screen, ..self }
    }

    /// The screen-lock preference set to `wanted`, with the screen lock
    /// following it while sleep is blocked.
    pub open spec fn with_keep_screen_awake(self, wanted: bool) -> Status {
        Status {
            keep_screen_awake: wanted,
            screen_blocked: wanted && self.sleep_blocked,
            ..self
        }
    }

    /// The hide-to-tray preference set to `wanted`; switching it off brings a
    /// hidden window back.
    pub open spec fn with_keep_running_in_tray(self, wanted: bool) -> Status {
        Status {
            keep_running_in_tray: wanted,
            window_hidden: self.window_hidden && wanted,
            ..self
        }
    }

    /// The window hidden or shown; it can only be hidden while hiding to the
    /// tray is enabled.
    pub open spec fn with_window_hidden(self, hidden: bool) -> Status {
        Status { window_hidden: hidden && self.keep_running_in_tray, ..self }
    }
}

/// A successful cycle off, on, off leaves everything as it was: in
/// particular the screen-lock preference survives the cycle.
pub proof fn lemma_toggle_cycle_from_off(s: Status)
    requires
        s.wf(),
        !s.sleep_blocked,
    ensures
        s.blocking(s.keep_screen_awake).wf(),
        s.blocking(s.keep_screen_awake).released() == s,
{
}

/// A successful cycle on, off, on leaves everything as it was: re-enabling
/// restores the screen lock the user asked for.
pub proof fn lemma_toggle_cycle_from_on(s: Status)
    requires
        s.wf(),
        s.sleep_blocked,
    ensures
        s.released().wf(),
        s.released().blocking(s.released().keep_screen_awake) == s,
{
}

/// The screen-lock preference never takes a screen lock while sleep
/// blocking is off; it is only recorded.
pub proof fn lemma_screen_preference_without_sleep_blocking(s: Status, wanted: bool)
    requires
        s.wf(),
        !s.sleep_blocked,
    ensures
        !s.with_keep_screen_awake(wanted).screen_blocked,
        s.with_keep_screen_awake(wanted).keep_screen_awake == wanted,
{
}

/// The screen-lock preference leaves sleep blocking alone, and while sleep
/// is blocked it takes or releases the screen lock at once.
pub proof fn lemma_screen_preference_while_sleep_blocking(s: Status, wanted: bool)
    requires
        s.wf(),
        s.sleep_blocked,
    ensures
        s.with_keep_screen_awake(wanted).sleep_blocked,
        s.with_keep_screen_awake(wanted).screen_blocked == wanted,
{
}

/// The hide-to-tray preference never touches a lock or the screen-lock
/// preference, and switching it off brings a hidden window back.
pub proof fn lemma_tray_preference_leaves_locks(s: Status, wanted: bool)
    ensures
        s.with_keep_running_in_tray(wanted).sleep_blocked == s.sleep_blocked,
        s.with_keep_running_in_tray(wanted).screen_blocked == s.screen_blocked,
        s.with_keep_running_in_tray(wanted).keep_screen_awake == s.keep_screen_awake,
        !s.with_keep_running_in_tray(false).window_hidden,
{
}

/// Releasing everything twice is the same as once.
pub proof fn lemma_release_idempotent(s: Status)
    ensures
        s.released().released() == s.released(),
        s.wf() ==> s.released().wf(),
{
}

/// The inhibitor state: the held locks and the user's preferences.
pub struct LockState {
    inhibitor: Option<Inhibitor>,
    screen: Option<ScreenInhibitor>,
    keep_screen_awake: bool,
    keep_running_in_tray: bool,
    window_hidden: bool,
}

impl View for LockState {
    type V = Status;

    closed spec fn view(&self) -> Status {
        Status {
            sleep_blocked: self.inhibitor is Some,
            screen_blocked: self.screen is Some,
            keep_screen_awake: self.keep_screen_awake,
            keep_running_in_tray: self.keep_running_in_tray,
            window_hidden: self.window_hidden,
        }
    }
}

impl LockState {
    /// The state is consistent, and every lock it holds was taken by the
    /// one message that asks for it with this library's reason.
    pub open spec fn wf(&self) -> bool {
        &&& self@.wf()
        &&& self.locks_taken_for_reason()
    }

    /// The sleep lock held, if any.
    pub closed spec fn sleep_lock(&self) -> Option<Inhibitor> {
        self.inhibitor
    }

    /// The screen lock held, if any.
    pub closed spec fn screen_lock(&self) -> Option<ScreenInhibitor> {
        self.screen
    }

    /// Whether the held sleep lock (if any) is one taken for this library's
    /// reason, and likewise the held screen lock.
    pub open spec fn locks_taken_for_reason(&self) -> bool {
        &&& self.sleep_lock() matches Some(l) ==> l.sent() == seq![logind_inhibit_message(REASON@)]
        &&& self.screen_lock() matches Some(l) ==> l.sent() == seq![
            screensaver_inhibit_message(REASON@),
        ]
    }

    /// Nothing held, no preference set.
    pub fn new() -> (s: LockState)
        ensures
            s@ == Status::initial(),
            s.wf(),
    {
        LockState {
            inhibitor: None,
            screen: None,
            keep_screen_awake: false,
            keep_running_in_tray: false,
            window_hidden: false,
        }
    }

    /// The current state.
    pub fn status(&self) -> (s: Status)
        ensures
            s == self@,
    {
        Status {
            sleep_blocked: self.inhibitor.is_some(),
            screen_blocked: self.screen.is_some(),
            keep_screen_awake: self.keep_screen_awake,
            keep_running_in_tray: self.keep_running_in_tray,
            window_hidden: self.window_hidden,
        }
    }

    /// Turns sleep blocking on if off, and off if on, and returns the
    /// resulting state, or the error that prevented the change.
    ///
    /// Turning off always succeeds and releases both locks. Turning on asks
    /// logind for the sleep lock and, when the user wants the screen kept on,
    /// the screen locker for the screen lock. On failure nothing is altered:
    /// if the screen lock cannot be taken, the sleep lock just taken is
    /// released again and the preference kept, so the caller can surface the
    /// message without having to undo a partial transition.
    pub fn toggle(&mut self) -> (r: Result<Status, LockError>)
        requires
            old(self).wf(),
        ensures
            final(self).wf(),
            r matches Ok(s) ==> s == final(self)@,
            old(self)@.sleep_blocked ==> r is Ok && final(self)@ == old(self)@.released(),
            !old(self)@.sleep_blocked ==> match r {
                Ok(_) => final(self)@ == old(self)@.blocking(old(self)@.keep_screen_awake),
                Err(LockError::Sleep(_)) => final(self)@ == old(self)@,
                Err(LockError::Screen(_)) => old(self)@.keep_screen_awake && final(self)@
                    == old(self)@,
            },
    {
        if self.inhibitor.is_some() {
            // Dropping releases both: logind's descriptor closes, and the
            // screen inhibitor gives its cookie back.
            self.screen = None;
            self.inhibitor = None;
            return Ok(self.status());
        }
        match Inhibitor::acquire(REASON) {
            Ok(lock) => { self.inhibitor = Some(lock); },
            Err(e) => { return Err(e); },
        }
        if self.keep_screen_awake {
            match ScreenInhibitor::acquire(REASON) {
                Ok(screen) => { self.screen = Some(screen); },
                Err(e) => {
                    // Give the sleep lock back: a failed toggle alters
                    // nothing.
                    self.inhibitor = None;
                    return Err(e);
                },
            }
        }
        Ok(self.status())
    }

    /// Sets whether the screen should also be kept awake, taking or releasing
    /// that lock at once if sleep blocking is on. The preference is recorded
    /// even while sleep blocking is off, so enabling it later restores the
    /// user's choice. If the screen lock cannot be taken, the preference is
    /// cleared and the failure reported.
    pub fn set_keep_screen_awake(&mut self, wanted: bool) -> (r: Result<Status, LockError>)
        requires
            old(self).wf(),
        ensures
            final(self).wf(),
            r matches Ok(s) ==> s == final(self)@,
            match r {
                Ok(_) => final(self)@ == old(self)@.with_keep_screen_awake(wanted),
                Err(e) => {
                    &&& e is Screen
                    &&& wanted && old(self)@.sleep_blocked && !old(self)@.screen_blocked
                    &&& final(self)@ == old(self)@.with_keep_screen_awake(false)
                },
            },
            final(self).sleep_lock() == old(self).sleep_lock(),
            old(self)@.screen_blocked == final(self)@.screen_blocked ==> final(self).screen_lock()
                == old(self).screen_lock(),
    {
        let should_hold = wanted && self.inhibitor.is_some();
        if should_hold && self.screen.is_none() {
            match ScreenInhibitor::acquire(REASON) {
                Ok(screen) => {
                    self.screen = Some(screen);
                    self.keep_screen_awake = wanted;
                },
                Err(e) => {
                    self.keep_screen_awake = false;
                    return Err(e);
                },
            }
        } else if !should_hold && self.screen.is_some() {
            self.screen = None;
            self.keep_screen_awake = wanted;
        } else {
            self.keep_screen_awake = wanted;
        }
        Ok(self.status())
    }

    /// Sets whether closing the window hides it to the tray. Switching it off
    /// brings a hidden window back, so the application is never left with no
    /// window and no way to get one. No lock is touched.
    pub fn set_keep_running_in_tray(&mut self, wanted: bool) -> (s: Status)
        requires
            old(self).wf(),
        ensures
            final(self).wf(),
            s == final(self)@,
            final(self)@ == old(self)@.with_keep_running_in_tray(wanted),
            final(self).sleep_lock() == old(self).sleep_lock(),
            final(self).screen_lock() == old(self).screen_lock(),
    {
        self.window_hidden = self.window_hidden && wanted;
        self.keep_running_in_tray = wanted;
        self.status()
    }

    /// Records whether the window is hidden. A window can only be hidden while
    /// hiding to the tray is enabled. No lock is touched.
    pub fn set_window_hidden(&mut self, hidden: bool) -> (s: Status)
        requires
            old(self).wf(),
        ensures
            final(self).wf(),
            s == final(self)@,
            final(self)@ == old(self)@.with_window_hidden(hidden),
            final(self).sleep_lock() == old(self).sleep_lock(),
            final(self).screen_lock() == old(self).screen_lock(),
    {
        self.window_hidden = hidden && self.keep_running_in_tray;
        self.status()
    }

    /// Releases both locks; every preference is kept.
    pub fn release_all(&mut self)
        requires
            old(self).wf(),
        ensures
            final(self).wf(),
            final(self)@ == old(self)@.released(),
    {
        self.screen = None;
        self.inhibitor = None;
    }
}

/// What the shared lock guarantees of the state it guards: consistency.
pub struct Consistent;

impl RwLockPredicate<LockState> for Consistent {
    open spec fn inv(self, v: LockState) -> bool {
        v.wf()
    }
}

/// Handle to the inhibitor state. Cloning yields another handle to the same
/// state, not a copy of it, so the tray and the window act as equal peers.
///
/// Other handles may change the state between two calls, so what a call
/// returns is stated of the state it left behind: always consistent, and
/// exact in whatever the call itself decided.
#[derive(Clone)]
pub struct SleepBlock {
    shared: Arc<RwLock<LockState, Consistent>>,
}

impl SleepBlock {
    /// A fresh state: nothing held, no preference set.
    pub fn new() -> (s: SleepBlock) {
        let initial = LockState::new();
        SleepBlock { shared: Arc::new(RwLock::new(initial, Ghost(Consistent))) }
    }

    /// Reads the current state.
    pub fn snapshot(&self) -> (s: Status)
        ensures
            s.wf(),
    {
        let handle = self.shared.acquire_read();
        let s = handle.borrow().status();
        handle.release_read();
        s
    }

    /// Turns sleep blocking on if off, and off if on; see
    /// [`LockState::toggle`]. Returns the resulting state, or the error that
    /// prevented the change.
    pub fn toggle(&self) -> (r: Result<Status, LockError>)
        ensures
            r matches Ok(s) ==> s.wf(),
    {
        let (mut state, handle) = self.shared.acquire_write();
        let r = state.toggle();
        handle.release_write(state);
        r
    }

    /// Sets whether the screen should also be kept awake; see
    /// [`LockState::set_keep_screen_awake`].
    pub fn set_keep_screen_awake(&self, wanted: bool) -> (r: Result<Status, LockError>)
        ensures
            r matches Ok(s) ==> s.wf() && s.keep_screen_awake == wanted,
            r matches Err(e) ==> e is Screen && wanted,
    {
        let (mut state, handle) = self.shared.acquire_write();
        let r = state.set_keep_screen_awake(wanted);
        handle.release_write(state);
        r
    }

    /// Sets whether closing the window hides it to the tray; see
    /// [`LockState::set_keep_running_in_tray`].
    pub fn set_keep_running_in_tray(&self, wanted: bool) -> (s: Status)
        ensures
            s.wf(),
            s.keep_running_in_tray == wanted,
            !wanted ==> !s.window_hidden,
    {
        let (mut state, handle) = self.shared.acquire_write();
        let s = state.set_keep_running_in_tray(wanted);
        handle.release_write(state);
        s
    }

    /// Records whether the window is hidden; see
    /// [`LockState::set_window_hidden`].
    pub fn set_window_hidden(&self, hidden: bool) -> (s: Status)
        ensures
            s.wf(),
            s.window_hidden == (hidden && s.keep_running_in_tray),
    {
        let (mut state, handle) = self.shared.acquire_write();
        let s = state.set_window_hidden(hidden);
        handle.release_write(state);
        s
    }

    /// Releases everything. Used on shutdown so the locks go away promptly
    /// rather than at process teardown.
    pub fn release_all(&self) {
        let (mut state, handle) = self.shared.acquire_write();
        state.release_all();
        handle.release_write(state);
    }
}

} // verus!
