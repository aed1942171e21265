//! The GUI's view of the daemon.
//!
//! Shaped like [`crate::state::SleepBlock`] so the rendering code need not
//! care where the state lives: the same `snapshot`/`toggle`/`set_*` surface,
//! backed by D-Bus calls instead of local locks. The GUI holds no inhibitor:
//! a lock owned here would be released the instant the window closed.

use vstd::prelude::*;
use crate::bus::{
    bus_error_text, call_for_flags, call_for_nothing, call_with_flag_for_flags, fdo_error_text,
    get_bool_property, open_proxy, set_bool_property, BusMessage, BusProxy, BusTarget, BusValue,
    PropertyRead,
};
use crate::ipc::{
    INTERFACE, METHOD_QUIT, METHOD_SET_KEEP_SCREEN_AWAKE, METHOD_TOGGLE, OBJECT_PATH,
    PROPERTY_HAS_TRAY, PROPERTY_KEEP_RUNNING_IN_TRAY, PROPERTY_KEEP_SCREEN_AWAKE,
    PROPERTY_SCREEN_BLOCKED, PROPERTY_SLEEP_BLOCKED,
};
use crate::state::Status;

verus! {

/// A call to the daemon failed; the text is the bus library's account.
#[derive(Debug)]
pub struct CallError {
    text: String,
}

impl CallError {
    pub closed spec fn text(&self) -> Seq<char> {
        self.text@
    }

    /// The account of the failure, for the user.
    pub fn message(&self) -> (m: String)
        ensures
            m@ == self.text(),
    {
        self.text.clone()
    }
}

fn call_error(e: &zbus::Error) -> CallError {
    CallError { text: bus_error_text(e) }
}

/// The value a property read contributes: what the daemon reported, or
/// `false` when the read failed.
pub open spec fn or_false(read: Option<bool>) -> bool {
    match read {
        Some(b) => b,
        None => false,
    }
}

/// The status made of four property reads, each `false` when it failed. The
/// window is never hidden from the daemon's point of view: hiding is the
/// window's own affair.
pub open spec fn status_of_reads(
    sleep_blocked: Option<bool>,
    screen_blocked: Option<bool>,
    keep_screen_awake: Option<bool>,
    keep_running_in_tray: Option<bool>,
) -> Status {
    Status {
        sleep_blocked: or_false(sleep_blocked),
        screen_blocked: or_false(screen_blocked),
        keep_screen_awake: or_false(keep_screen_awake),
        keep_running_in_tray: or_false(keep_running_in_tray),
        window_hidden: false,
    }
}

/// Builds the status of four property reads; see [`status_of_reads`].
pub fn status_from_reads(
    sleep_blocked: Option<bool>,
    screen_blocked: Option<bool>,
    keep_screen_awake: Option<bool>,
    keep_running_in_tray: Option<bool>,
) -> (s: Status)
    ensures
        s == status_of_reads(sleep_blocked, screen_blocked, keep_screen_awake, keep_running_in_tray),
{
    Status {
        sleep_blocked: sleep_blocked.unwrap_or(false),
        screen_blocked: screen_blocked.unwrap_or(false),
        keep_screen_awake: keep_screen_awake.unwrap_or(false),
        keep_running_in_tray: keep_running_in_tray.unwrap_or(false),
        window_hidden: false,
    }
}

/// A read of the boolean property `name` at `target`, answered `answer`.
pub open spec fn read_of(target: BusTarget, name: Seq<char>, answer: Option<bool>) -> PropertyRead {
    PropertyRead { target, name, answer }
}

/// The four reads that make up the daemon's state, in the order they are
/// made: `SleepBlocked`, `ScreenBlocked`, `KeepScreenAwake`,
/// `KeepRunningInTray`.
pub open spec fn state_reads(
    target: BusTarget,
    sleep_blocked: Option<bool>,
    screen_blocked: Option<bool>,
    keep_screen_awake: Option<bool>,
    keep_running_in_tray: Option<bool>,
) -> Seq<PropertyRead> {
    seq![
        read_of(target, PROPERTY_SLEEP_BLOCKED@, sleep_blocked),
        read_of(target, PROPERTY_SCREEN_BLOCKED@, screen_blocked),
        read_of(target, PROPERTY_KEEP_SCREEN_AWAKE@, keep_screen_awake),
        read_of(target, PROPERTY_KEEP_RUNNING_IN_TRAY@, keep_running_in_tray),
    ]
}

/// Whether `after` is `before` followed by the four state reads, and `s` is
/// the status their answers make.
pub open spec fn read_state(
    before: Seq<PropertyRead>,
    after: Seq<PropertyRead>,
    target: BusTarget,
    s: Status,
) -> bool {
    exists|a: Option<bool>, b: Option<bool>, c: Option<bool>, d: Option<bool>|
        #![trigger status_of_reads(a, b, c, d)]
        after == before + state_reads(target, a, b, c, d) && s == status_of_reads(a, b, c, d)
}

/// Reads the boolean property `name`; `None` when the read fails.
fn read_bool(proxy: &mut BusProxy, name: &str) -> (r: Option<bool>)
    ensures
        final(proxy).target() == old(proxy).target(),
        final(proxy).sent() == old(proxy).sent(),
        final(proxy).reads() == old(proxy).reads().push(read_of(old(proxy).target(), name@, r)),
{
    match get_bool_property(proxy, name) {
        Ok(b) => Some(b),
        Err(_) => None,
    }
}

/// Reads the daemon's state, one property at a time; a failed read counts as
/// `false`, so a transient failure renders as "nothing blocked" rather than
/// an error.
fn read_status(proxy: &mut BusProxy) -> (s: Status)
    ensures
        final(proxy).target() == old(proxy).target(),
        final(proxy).sent() == old(proxy).sent(),
        read_state(old(proxy).reads(), final(proxy).reads(), old(proxy).target(), s),
{
    let ghost before = proxy.reads();
    let sleep_blocked = read_bool(proxy, PROPERTY_SLEEP_BLOCKED);
    let screen_blocked = read_bool(proxy, PROPERTY_SCREEN_BLOCKED);
    let keep_screen_awake = read_bool(proxy, PROPERTY_KEEP_SCREEN_AWAKE);
    let keep_running_in_tray = read_bool(proxy, PROPERTY_KEEP_RUNNING_IN_TRAY);
    let s = status_from_reads(sleep_blocked, screen_blocked, keep_screen_awake, keep_running_in_tray);
    assert(proxy.reads() =~= before + state_reads(
        proxy.target(),
        sleep_blocked,
        screen_blocked,
        keep_screen_awake,
        keep_running_in_tray,
    ));
    s
}

/// How many times a GUI retries attaching after starting a daemon. The
/// retries are short apart because starting the daemon is a local process
/// start, not a network round trip.
pub const ATTACH_RETRIES: u32 = 40;

/// What to do after a failed attempt to attach to the daemon.
#[derive(Debug, Clone, Copy, PartialEq, Eq, Structural)]
pub enum ConnectStep {
    /// No daemon answered the first attempt: start one, wait briefly, try
    /// again.
    StartDaemonAndRetry,
    /// Wait briefly and try again.
    Retry,
    /// The daemon did not start in time.
    GiveUp,
}

/// The step after the `failures`-th failed attempt: the first failure
/// starts a daemon and retries, and the next ones retry until
/// [`ATTACH_RETRIES`] attempts after the start have failed too.
pub open spec fn step_after(failures: nat) -> ConnectStep {
    if failures <= 1 {
        ConnectStep::StartDaemonAndRetry
    } else if failures <= ATTACH_RETRIES {
        ConnectStep::Retry
    } else {
        ConnectStep::GiveUp
    }
}

/// The GUI's plan for reaching a daemon: attach to a running one, or start
/// one and wait for it. The caller performs each step and reports back.
pub struct ConnectPlan {
    failures: u32,
}

impl ConnectPlan {
    /// Failed attempts so far.
    pub closed spec fn failures(&self) -> nat {
        self.failures as nat
    }

    /// No attempt made yet.
    pub fn new() -> (p: ConnectPlan)
        ensures
            p.failures() == 0,
    {
        ConnectPlan { failures: 0 }
    }

    /// Records a failed attempt and says what to do next; see [`step_after`].
    /// Once it says give up it keeps saying so.
    pub fn after_failure(&mut self) -> (step: ConnectStep)
        ensures
            final(self).failures() == if old(self).failures() <= ATTACH_RETRIES {
                old(self).failures() + 1
            } else {
                old(self).failures()
            },
            step == step_after(final(self).failures()),
    {
        if self.failures <= ATTACH_RETRIES {
            self.failures = self.failures + 1;
        }
        if self.failures <= 1 {
            ConnectStep::StartDaemonAndRetry
        } else if self.failures <= ATTACH_RETRIES {
            ConnectStep::Retry
        } else {
            ConnectStep::GiveUp
        }
    }
}

/// The plan makes one attempt, starts the daemon once, then makes
/// [`ATTACH_RETRIES`] more attempts and gives up when they have all failed:
/// the retry after the start is the first of them.
pub proof fn lemma_connect_plan_attempts(failures: nat)
    ensures
        step_after(1) == ConnectStep::StartDaemonAndRetry,
        2 <= failures <= ATTACH_RETRIES ==> step_after(failures) == ConnectStep::Retry,
        failures > ATTACH_RETRIES ==> step_after(failures) == ConnectStep::GiveUp,
{
}

/// A request that changes the daemon's state.
#[derive(Debug, Clone, Copy, PartialEq, Eq, Structural)]
pub enum DaemonCall {
    /// Turn sleep blocking on or off.
    Toggle,
    /// Set the screen-lock preference.
    SetKeepScreenAwake(bool),
    /// Set the hide-to-tray preference.
    SetKeepRunningInTray(bool),
}

/// The message that carries a request to the daemon at `target`: the
/// `Toggle` method, the `SetKeepScreenAwake(wanted)` method, or a write of
/// the `KeepRunningInTray` property.
pub open spec fn daemon_message(target: BusTarget, call: DaemonCall) -> BusMessage {
    match call {
        DaemonCall::Toggle => BusMessage::Call {
            target,
            member: METHOD_TOGGLE@,
            args: Seq::<BusValue>::empty(),
        },
        DaemonCall::SetKeepScreenAwake(wanted) => BusMessage::Call {
            target,
            member: METHOD_SET_KEEP_SCREEN_AWAKE@,
            args: seq![BusValue::Bool(wanted)],
        },
        DaemonCall::SetKeepRunningInTray(wanted) => BusMessage::SetProperty {
            target,
            name: PROPERTY_KEEP_RUNNING_IN_TRAY@,
            value: BusValue::Bool(wanted),
        },
    }
}

/// Where the daemon serving under `bus_name` is reached.
pub open spec fn daemon_target(bus_name: Seq<char>) -> BusTarget {
    BusTarget { destination: bus_name, path: OBJECT_PATH@, interface: INTERFACE@ }
}

/// Sends one request to the daemon: exactly the message of
/// [`daemon_message`] for it.
fn send(proxy: &mut BusProxy, call: DaemonCall) -> (r: Result<(), CallError>)
    ensures
        final(proxy).target() == old(proxy).target(),
        final(proxy).reads() == old(proxy).reads(),
        final(proxy).sent() == old(proxy).sent().push(daemon_message(old(proxy).target(), call)),
{
    match call {
        DaemonCall::Toggle => match call_for_flags(proxy, METHOD_TOGGLE) {
            Ok(_) => Ok(()),
            Err(e) => Err(call_error(&e)),
        },
        DaemonCall::SetKeepScreenAwake(wanted) => match call_with_flag_for_flags(
            proxy,
            METHOD_SET_KEEP_SCREEN_AWAKE,
            wanted,
        ) {
            Ok(_) => Ok(()),
            Err(e) => Err(call_error(&e)),
        },
        DaemonCall::SetKeepRunningInTray(wanted) => match set_bool_property(
            proxy,
            PROPERTY_KEEP_RUNNING_IN_TRAY,
            wanted,
        ) {
            Ok(_) => Ok(()),
            Err(e) => Err(CallError { text: fdo_error_text(&e) }),
        },
    }
}

/// Connection to the daemon, plus the last state it reported.
pub struct DaemonClient {
    proxy: BusProxy,
    /// Whether the daemon has a tray, read once at connect: it cannot change
    /// while the daemon runs.
    has_tray: bool,
    /// Cached so a failed call can keep rendering the last known-good values
    /// rather than flickering to defaults.
    last: Status,
}

impl DaemonClient {
    /// The last state read.
    pub closed spec fn last(&self) -> Status {
        self.last
    }

    /// Whether the daemon reported a tray at connect.
    pub closed spec fn tray(&self) -> bool {
        self.has_tray
    }

    /// Where this client reaches the daemon.
    pub closed spec fn target(&self) -> BusTarget {
        self.proxy.target()
    }

    /// The requests sent to the daemon so far, oldest first.
    pub closed spec fn sent(&self) -> Seq<BusMessage> {
        self.proxy.sent()
    }

    /// The property reads made of the daemon so far, oldest first.
    pub closed spec fn reads(&self) -> Seq<PropertyRead> {
        self.proxy.reads()
    }

    /// Attaches to the daemon serving under `bus_name` on `connection`, at
    /// [`OBJECT_PATH`] and [`INTERFACE`]. The daemon counts as present only
    /// once it answers a property read: its name can be owned a moment before
    /// the object is exported. Then the state and the tray flag are read once.
    pub fn attach(connection: &zbus::blocking::Connection, bus_name: &str) -> (r: Result<DaemonClient, CallError>)
        ensures
            r matches Ok(c) ==> {
                &&& c.target() == daemon_target(bus_name@)
                &&& c.sent() == Seq::<BusMessage>::empty()
                &&& c.reads().len() == 6
                &&& c.reads()[0].target == c.target()
                &&& c.reads()[0].name == PROPERTY_SLEEP_BLOCKED@
                &&& c.reads()[0].answer is Some
                &&& c.reads().subrange(1, 5) == state_reads(
                    c.target(),
                    c.reads()[1].answer,
                    c.reads()[2].answer,
                    c.reads()[3].answer,
                    c.reads()[4].answer,
                )
                &&& c.last() == status_of_reads(
                    c.reads()[1].answer,
                    c.reads()[2].answer,
                    c.reads()[3].answer,
                    c.reads()[4].answer,
                )
                &&& c.reads()[5] == read_of(c.target(), PROPERTY_HAS_TRAY@, c.reads()[5].answer)
                &&& c.tray() == or_false(c.reads()[5].answer)
            },
    {
        let mut proxy = match open_proxy(connection, bus_name, OBJECT_PATH, INTERFACE) {
            Ok(p) => p,
            Err(e) => { return Err(call_error(&e)); },
        };
        let ghost target = proxy.target();
        let probe = get_bool_property(&mut proxy, PROPERTY_SLEEP_BLOCKED);
        let ghost probe_answer = match probe { Ok(b) => b, Err(_) => false };
        match probe {
            Ok(_) => {},
            Err(e) => { return Err(call_error(&e)); },
        }
        let ghost after_probe = proxy.reads();
        let last = read_status(&mut proxy);
        let ghost after_state = proxy.reads();
        let tray_read = read_bool(&mut proxy, PROPERTY_HAS_TRAY);
        let has_tray = match tray_read {
            Some(b) => b,
            None => false,
        };
        let c = DaemonClient { proxy, has_tray, last };
        assert(after_probe == seq![read_of(target, PROPERTY_SLEEP_BLOCKED@, Some(probe_answer))]);
        let ghost (a, b, c2, d) = choose|a: Option<bool>, b: Option<bool>, c2: Option<bool>, d: Option<bool>|
            after_state == after_probe + state_reads(target, a, b, c2, d) && last == status_of_reads(a, b, c2, d);
        assert(c.reads() =~= seq![read_of(target, PROPERTY_SLEEP_BLOCKED@, Some(probe_answer))]
            + state_reads(target, a, b, c2, d) + seq![read_of(target, PROPERTY_HAS_TRAY@, tray_read)]);
        assert(c.reads().subrange(1, 5) =~= state_reads(target, a, b, c2, d));
        Ok(c)
    }

    /// Re-reads the daemon's state and remembers it.
    pub fn snapshot(&mut self) -> (s: Status)
        ensures
            s == final(self).last(),
            final(self).tray() == old(self).tray(),
            final(self).target() == old(self).target(),
            final(self).sent() == old(self).sent(),
            read_state(old(self).reads(), final(self).reads(), old(self).target(), s),
    {
        self.last = read_status(&mut self.proxy);
        self.last
    }

    /// Whether the daemon has a tray icon.
    pub fn has_tray(&self) -> (b: bool)
        ensures
            b == self.tray(),
    {
        self.has_tray
    }

    /// The last state read, without a bus round trip.
    pub fn cached(&self) -> (s: Status)
        ensures
            s == self.last(),
    {
        self.last
    }

    /// Sends `call` and, if the daemon accepted it, re-reads its state. A
    /// failed call leaves the cached state as it was and is returned.
    fn request(&mut self, call: DaemonCall) -> (r: Result<Status, CallError>)
        ensures
            final(self).target() == old(self).target(),
            final(self).tray() == old(self).tray(),
            final(self).sent() == old(self).sent().push(daemon_message(old(self).target(), call)),
            r is Err ==> final(self).last() == old(self).last() && final(self).reads() == old(self).reads(),
            r matches Ok(s) ==> s == final(self).last() && read_state(
                old(self).reads(),
                final(self).reads(),
                old(self).target(),
                s,
            ),
    {
        match send(&mut self.proxy, call) {
            Ok(()) => Ok(self.snapshot()),
            Err(e) => Err(e),
        }
    }

    /// Asks the daemon to toggle sleep blocking (its `Toggle` method), then
    /// re-reads its state. A failed call leaves the cached state as it was
    /// and is returned.
    pub fn toggle(&mut self) -> (r: Result<Status, CallError>)
        ensures
            final(self).target() == old(self).target(),
            final(self).tray() == old(self).tray(),
            final(self).sent() == old(self).sent().push(
                daemon_message(old(self).target(), DaemonCall::Toggle),
            ),
            r is Err ==> final(self).last() == old(self).last() && final(self).reads() == old(self).reads(),
            r matches Ok(s) ==> s == final(self).last() && read_state(
                old(self).reads(),
                final(self).reads(),
                old(self).target(),
                s,
            ),
    {
        self.request(DaemonCall::Toggle)
    }

    /// Asks the daemon to set the screen-lock preference to `wanted` (its
    /// `SetKeepScreenAwake` method), then re-reads its state. A failed call
    /// leaves the cached state as it was and is returned.
    pub fn set_keep_screen_awake(&mut self, wanted: bool) -> (r: Result<Status, CallError>)
        ensures
            final(self).target() == old(self).target(),
            final(self).tray() == old(self).tray(),
            final(self).sent() == old(self).sent().push(
                daemon_message(old(self).target(), DaemonCall::SetKeepScreenAwake(wanted)),
            ),
            r is Err ==> final(self).last() == old(self).last() && final(self).reads() == old(self).reads(),
            r matches Ok(s) ==> s == final(self).last() && read_state(
                old(self).reads(),
                final(self).reads(),
                old(self).target(),
                s,
            ),
    {
        self.request(DaemonCall::SetKeepScreenAwake(wanted))
    }

    /// Asks the daemon to set the hide-to-tray preference to `wanted` (a
    /// write of its `KeepRunningInTray` property), then re-reads its state. A
    /// failed write leaves the cached state as it was and is returned.
    pub fn set_keep_running_in_tray(&mut self, wanted: bool) -> (r: Result<Status, CallError>)
        ensures
            final(self).target() == old(self).target(),
            final(self).tray() == old(self).tray(),
            final(self).sent() == old(self).sent().push(
                daemon_message(old(self).target(), DaemonCall::SetKeepRunningInTray(wanted)),
            ),
            r is Err ==> final(self).last() == old(self).last() && final(self).reads() == old(self).reads(),
            r matches Ok(s) ==> s == final(self).last() && read_state(
                old(self).reads(),
                final(self).reads(),
                old(self).target(),
                s,
            ),
    {
        self.request(DaemonCall::SetKeepRunningInTray(wanted))
    }

    /// Tells the daemon to release everything and exit. Used by the GUI's
    /// Quit button, which stops the whole application rather than just
    /// closing a window. A failure is ignored: a daemon that cannot be
    /// reached is already gone.
    pub fn quit_daemon(&self) {
        let _ = call_for_nothing(&self.proxy, METHOD_QUIT);
    }
}

} // verus!
