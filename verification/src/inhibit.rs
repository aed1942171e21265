//! The two inhibitors: system sleep through systemd-logind, and screen
//! blanking through `org.freedesktop.ScreenSaver`.
//!
//! logind's lock lives exactly as long as the descriptor it hands back, so an
//! [`Inhibitor`] is released by dropping it. The ScreenSaver lock is named by
//! a cookie and lasts until `UnInhibit` is called or the connection that took
//! it closes, so a [`ScreenInhibitor`] keeps its connection and calls
//! `UnInhibit` when dropped.

use vstd::prelude::*;
use crate::bus::{
    bus_error_text, call_for_fd, call_for_u32, call_with_u32_for_nothing, open_proxy, session_bus,
    system_bus, BusMessage, BusProxy, BusTarget, BusValue,
};

verus! {

/// The name under which the locks are registered (the `WHO` column of
/// `systemd-inhibit --list`).
pub const APP_ID: &'static str = "sleep-block";

/// What the logind lock covers: both suspend and idle-triggered sleep.
pub const INHIBIT_WHAT: &'static str = "sleep:idle";

/// `block` prevents the operation; `delay` would only postpone it.
pub const INHIBIT_MODE: &'static str = "block";

/// Where logind's manager interface is served.
pub const LOGIND_DESTINATION: &'static str = "org.freedesktop.login1";
pub const LOGIND_PATH: &'static str = "/org/freedesktop/login1";
pub const LOGIND_INTERFACE: &'static str = "org.freedesktop.login1.Manager";

/// Where the session's screen locker serves the ScreenSaver interface.
pub const SCREENSAVER_DESTINATION: &'static str = "org.freedesktop.ScreenSaver";
pub const SCREENSAVER_PATH: &'static str = "/org/freedesktop/ScreenSaver";
pub const SCREENSAVER_INTERFACE: &'static str = "org.freedesktop.ScreenSaver";

/// Why a lock could not be taken. The text is the bus library's account of
/// the failure.
#[derive(Debug)]
pub enum LockError {
    /// Sleep could not be blocked: logind was unreachable or refused.
    Sleep(String),
    /// The screen could not be kept on: no ScreenSaver service answered, or it
    /// refused.
    Screen(String),
}

impl LockError {
    /// The account of the failure given by the bus library.
    pub open spec fn detail(&self) -> Seq<char> {
        match self {
            LockError::Sleep(d) => d@,
            LockError::Screen(d) => d@,
        }
    }

    /// The words put before the detail in [`LockError::message`].
    pub open spec fn prefix(&self) -> Seq<char> {
        match self {
            LockError::Sleep(_) => "could not block sleep: "@,
            LockError::Screen(_) => "could not keep the screen on: "@,
        }
    }

    /// A one-line message for the user: what failed, then why.
    pub fn message(&self) -> (m: String)
        ensures
            m@ == self.prefix() + self.detail(),
    {
        match self {
            LockError::Sleep(d) => {
                let mut m = String::from_str("could not block sleep: ");
                m.append(d.as_str());
                m
            },
            LockError::Screen(d) => {
                let mut m = String::from_str("could not keep the screen on: ");
                m.append(d.as_str());
                m
            },
        }
    }
}

/// The method that takes a lock, on both services.
pub const INHIBIT_METHOD: &'static str = "Inhibit";

/// The message that asks logind for a block-mode sleep and idle lock,
/// registered under [`APP_ID`] with `reason` as the why.
pub open spec fn logind_inhibit_message(reason: Seq<char>) -> BusMessage {
    BusMessage::Call {
        target: BusTarget {
            destination: LOGIND_DESTINATION@,
            path: LOGIND_PATH@,
            interface: LOGIND_INTERFACE@,
        },
        member: INHIBIT_METHOD@,
        args: seq![
            BusValue::Str(INHIBIT_WHAT@),
            BusValue::Str(APP_ID@),
            BusValue::Str(reason),
            BusValue::Str(INHIBIT_MODE@),
        ],
    }
}

/// The message that asks the screen locker to keep the screen on, under
/// [`APP_ID`] with `reason`.
pub open spec fn screensaver_inhibit_message(reason: Seq<char>) -> BusMessage {
    BusMessage::Call {
        target: BusTarget {
            destination: SCREENSAVER_DESTINATION@,
            path: SCREENSAVER_PATH@,
            interface: SCREENSAVER_INTERFACE@,
        },
        member: INHIBIT_METHOD@,
        args: seq![BusValue::Str(APP_ID@), BusValue::Str(reason)],
    }
}

/// What [`Inhibitor::acquire`] hands to logind: the service, and the
/// arguments of its `Inhibit(what, who, why, mode)` call.
pub struct InhibitRequest<'a> {
    pub destination: &'a str,
    pub path: &'a str,
    pub interface: &'a str,
    pub method: &'a str,
    pub what: &'a str,
    pub who: &'a str,
    pub why: &'a str,
    pub mode: &'a str,
}

/// What [`ScreenInhibitor::acquire`] hands to the screen locker: the
/// service, and the arguments of its `Inhibit(application, reason)` call.
pub struct ScreenRequest<'a> {
    pub destination: &'a str,
    pub path: &'a str,
    pub interface: &'a str,
    pub method: &'a str,
    pub application: &'a str,
    pub reason: &'a str,
}

/// A held sleep lock. The lock is logind's and lasts exactly as long as this
/// value: dropping it closes the descriptor, which releases the lock.
pub struct Inhibitor {
    /// Never read: holding it open is what holds the lock.
    #[allow(dead_code)]
    fd: zbus::zvariant::OwnedFd,
    sent: Ghost<Seq<BusMessage>>,
}

impl Inhibitor {
    /// The messages that were sent to obtain this lock.
    pub closed spec fn sent(&self) -> Seq<BusMessage> {
        self.sent@
    }

    /// The request that [`Inhibitor::acquire`] sends: logind's manager, and a
    /// block-mode lock on sleep and idle, registered under [`APP_ID`] with
    /// `reason` as the why.
    pub fn request<'a>(reason: &'a str) -> (r: InhibitRequest<'a>)
        ensures
            r.destination@ == LOGIND_DESTINATION@,
            r.path@ == LOGIND_PATH@,
            r.interface@ == LOGIND_INTERFACE@,
            r.method@ == INHIBIT_METHOD@,
            r.what@ == INHIBIT_WHAT@,
            r.who@ == APP_ID@,
            r.why@ == reason@,
            r.mode@ == INHIBIT_MODE@,
    {
        InhibitRequest {
            destination: LOGIND_DESTINATION,
            path: LOGIND_PATH,
            interface: LOGIND_INTERFACE,
            method: INHIBIT_METHOD,
            what: INHIBIT_WHAT,
            who: APP_ID,
            why: reason,
            mode: INHIBIT_MODE,
        }
    }

    /// Asks logind for the lock of [`Inhibitor::request`]. Whether it is
    /// granted is logind's decision; a refusal, or no reachable logind, is an
    /// [`LockError::Sleep`]. A granted lock was obtained by exactly that one
    /// message.
    pub fn acquire(reason: &str) -> (r: Result<Inhibitor, LockError>)
        ensures
            r matches Err(e) ==> e is Sleep,
            r matches Ok(lock) ==> lock.sent() == seq![logind_inhibit_message(reason@)],
    {
        let request = Inhibitor::request(reason);
        let connection = match system_bus() {
            Ok(c) => c,
            Err(e) => { return Err(LockError::Sleep(bus_error_text(&e))); },
        };
        let mut proxy = match open_proxy(&connection, request.destination, request.path, request.interface) {
            Ok(p) => p,
            Err(e) => { return Err(LockError::Sleep(bus_error_text(&e))); },
        };
        match call_for_fd(&mut proxy, request.method, request.what, request.who, request.why, request.mode) {
            Ok(fd) => Ok(Inhibitor { fd, sent: Ghost(proxy.sent()) }),
            Err(e) => Err(LockError::Sleep(bus_error_text(&e))),
        }
    }
}

/// A held screen lock: the ScreenSaver cookie, with the connection that took
/// it. Released when dropped, or by the screen locker when the connection
/// closes.
pub struct ScreenInhibitor {
    proxy: BusProxy,
    cookie: u32,
}

impl ScreenInhibitor {
    /// The messages that were sent to obtain this lock.
    pub closed spec fn sent(&self) -> Seq<BusMessage> {
        self.proxy.sent()
    }

    /// The request that [`ScreenInhibitor::acquire`] sends: the session's
    /// ScreenSaver service, asked to inhibit under [`APP_ID`] with `reason`.
    pub fn request<'a>(reason: &'a str) -> (r: ScreenRequest<'a>)
        ensures
            r.destination@ == SCREENSAVER_DESTINATION@,
            r.path@ == SCREENSAVER_PATH@,
            r.interface@ == SCREENSAVER_INTERFACE@,
            r.method@ == INHIBIT_METHOD@,
            r.application@ == APP_ID@,
            r.reason@ == reason@,
    {
        ScreenRequest {
            destination: SCREENSAVER_DESTINATION,
            path: SCREENSAVER_PATH,
            interface: SCREENSAVER_INTERFACE,
            method: INHIBIT_METHOD,
            application: APP_ID,
            reason,
        }
    }

    /// Asks the screen locker for the lock of [`ScreenInhibitor::request`].
    /// No service, or a refusal, is an [`LockError::Screen`]. A granted lock
    /// was obtained by exactly that one message.
    pub fn acquire(reason: &str) -> (r: Result<ScreenInhibitor, LockError>)
        ensures
            r matches Err(e) ==> e is Screen,
            r matches Ok(lock) ==> lock.sent() == seq![screensaver_inhibit_message(reason@)],
    {
        let request = ScreenInhibitor::request(reason);
        let connection = match session_bus() {
            Ok(c) => c,
            Err(e) => { return Err(LockError::Screen(bus_error_text(&e))); },
        };
        let mut proxy = match open_proxy(&connection, request.destination, request.path, request.interface) {
            Ok(p) => p,
            Err(e) => { return Err(LockError::Screen(bus_error_text(&e))); },
        };
        match call_for_u32(&mut proxy, request.method, request.application, request.reason) {
            Ok(cookie) => Ok(ScreenInhibitor { proxy, cookie }),
            Err(e) => Err(LockError::Screen(bus_error_text(&e))),
        }
    }
}

/// The method that gives a screen lock back.
pub const UNINHIBIT_METHOD: &'static str = "UnInhibit";

impl Drop for ScreenInhibitor {
    /// Gives the lock back with `UnInhibit(cookie)`. A failure is not
    /// reported: the connection closes right after, which releases the lock
    /// on the service's side anyway.
    fn drop(&mut self)
        opens_invariants none
        no_unwind
    {
        let _ = call_with_u32_for_nothing(&self.proxy, UNINHIBIT_METHOD, self.cookie);
    }
}

} // verus!
