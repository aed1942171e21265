//! The D-Bus operations the library performs, each behind a small trusted
//! wrapper. What a bus peer answers is decided outside this process, so these
//! wrappers promise nothing about the reply beyond its type; the verified
//! callers state what holds whatever came back.
//!
//! What the wrappers do promise is what they hand over: a [`BusProxy`]
//! remembers the peer, object and interface it was opened for, and every
//! message that asks the peer to change something is recorded in the proxy's
//! log, so a caller's contract can state exactly what was sent where.

use vstd::prelude::*;

verus! {

#[verifier::external_type_specification]
#[verifier::external_body]
pub struct ExBusError(zbus::Error);

#[verifier::external_type_specification]
#[verifier::external_body]
pub struct ExFdoError(zbus::fdo::Error);

#[verifier::external_type_specification]
#[verifier::external_body]
pub struct ExConnection(zbus::blocking::Connection);

#[verifier::external_type_specification]
#[verifier::external_body]
pub struct ExProxy<'a>(zbus::blocking::Proxy<'a>);

#[verifier::external_type_specification]
#[verifier::external_body]
pub struct ExOwnedFd(zbus::zvariant::OwnedFd);

/// Where a proxy sends its messages: the peer's bus name, the object path and
/// the interface.
pub struct BusTarget {
    pub destination: Seq<char>,
    pub path: Seq<char>,
    pub interface: Seq<char>,
}

/// A value in a message's body.
pub enum BusValue {
    Str(Seq<char>),
    Bool(bool),
}

/// A message sent to ask the peer for something.
pub enum BusMessage {
    /// A method call with its arguments.
    Call { target: BusTarget, member: Seq<char>, args: Seq<BusValue> },
    /// A write of a property.
    SetProperty { target: BusTarget, name: Seq<char>, value: BusValue },
}

/// A read of a boolean property, with its answer: the value, or `None` when
/// the read failed.
pub struct PropertyRead {
    pub target: BusTarget,
    pub name: Seq<char>,
    pub answer: Option<bool>,
}

/// A proxy for one interface of one peer, with the log of the messages sent
/// through it that ask the peer for something, and the log of the property
/// reads made through it.
pub struct BusProxy {
    proxy: zbus::blocking::Proxy<'static>,
    target: Ghost<BusTarget>,
    sent: Ghost<Seq<BusMessage>>,
    reads: Ghost<Seq<PropertyRead>>,
}

impl BusProxy {
    /// The peer, object and interface this proxy was opened for.
    pub closed spec fn target(&self) -> BusTarget {
        self.target@
    }

    /// The messages sent through this proxy, oldest first.
    pub closed spec fn sent(&self) -> Seq<BusMessage> {
        self.sent@
    }

    /// The property reads made through this proxy, oldest first.
    pub closed spec fn reads(&self) -> Seq<PropertyRead> {
        self.reads@
    }
}

/// `zbus::blocking::Connection::system`: opens a connection to the system
/// bus. Whether it succeeds depends on the machine, so nothing is promised.
#[verifier::external_body]
pub(crate) fn system_bus() -> Result<zbus::blocking::Connection, zbus::Error> {
    zbus::blocking::Connection::system()
}

/// `zbus::blocking::Connection::session`: opens a connection to the session
/// bus. Whether it succeeds depends on the session, so nothing is promised.
#[verifier::external_body]
pub(crate) fn session_bus() -> Result<zbus::blocking::Connection, zbus::Error> {
    zbus::blocking::Connection::session()
}

/// `zbus::blocking::Proxy::new`: a proxy for `interface` at `path` on the
/// peer named `destination`. zbus checks the three names and may introspect
/// the peer, so success is not promised; a proxy it returns is one for
/// exactly those names, with nothing sent yet.
#[verifier::external_body]
pub(crate) fn open_proxy(
    connection: &zbus::blocking::Connection,
    destination: &str,
    path: &str,
    interface: &str,
) -> (r: Result<BusProxy, zbus::Error>)
    ensures
        r matches Ok(p) ==> p.target() == (BusTarget {
            destination: destination@,
            path: path@,
            interface: interface@,
        }) && p.sent() == Seq::<BusMessage>::empty() && p.reads() == Seq::<PropertyRead>::empty(),
{
    let proxy = zbus::blocking::Proxy::new(
        connection,
        destination.to_owned(),
        path.to_owned(),
        interface.to_owned(),
    )?;
    let target = Ghost(BusTarget { destination: destination@, path: path@, interface: interface@ });
    Ok(BusProxy { proxy, target, sent: Ghost(Seq::empty()), reads: Ghost(Seq::empty()) })
}

/// `Display` of `zbus::Error`, as text for the user. The text is zbus's own
/// wording, so nothing is stated of it.
#[verifier::external_body]
pub(crate) fn bus_error_text(error: &zbus::Error) -> String {
    error.to_string()
}

/// `Display` of `zbus::fdo::Error`, as text for the user. The text is zbus's
/// own wording, so nothing is stated of it.
#[verifier::external_body]
pub(crate) fn fdo_error_text(error: &zbus::fdo::Error) -> String {
    error.to_string()
}

/// `zbus::blocking::Proxy::call` of `method` with four strings, whose reply
/// is a file descriptor. The peer decides the reply, so nothing is promised
/// of it; the call is recorded in the proxy's log.
#[verifier::external_body]
pub(crate) fn call_for_fd(
    proxy: &mut BusProxy,
    method: &str,
    a: &str,
    b: &str,
    c: &str,
    d: &str,
) -> (r: Result<zbus::zvariant::OwnedFd, zbus::Error>)
    ensures
        final(proxy).target() == old(proxy).target(),
        final(proxy).reads() == old(proxy).reads(),
        final(proxy).sent() == old(proxy).sent().push(BusMessage::Call {
            target: old(proxy).target(),
            member: method@,
            args: seq![BusValue::Str(a@), BusValue::Str(b@), BusValue::Str(c@), BusValue::Str(d@)],
        }),
{
    proxy.proxy.call(method, &(a, b, c, d))
}

/// `zbus::blocking::Proxy::call` of `method` with two strings, whose reply
/// is a number. The peer decides the reply, so nothing is promised of it; the
/// call is recorded in the proxy's log.
#[verifier::external_body]
pub(crate) fn call_for_u32(
    proxy: &mut BusProxy,
    method: &str,
    a: &str,
    b: &str,
) -> (r: Result<u32, zbus::Error>)
    ensures
        final(proxy).target() == old(proxy).target(),
        final(proxy).reads() == old(proxy).reads(),
        final(proxy).sent() == old(proxy).sent().push(BusMessage::Call {
            target: old(proxy).target(),
            member: method@,
            args: seq![BusValue::Str(a@), BusValue::Str(b@)],
        }),
{
    proxy.proxy.call(method, &(a, b))
}

/// `zbus::blocking::Proxy::get_property` of a boolean property. The peer
/// decides the value, or whether there is one, so nothing is promised of
/// it; the read and its answer are recorded in the proxy's log.
#[verifier::external_body]
pub(crate) fn get_bool_property(proxy: &mut BusProxy, name: &str) -> (r: Result<bool, zbus::Error>)
    ensures
        final(proxy).target() == old(proxy).target(),
        final(proxy).sent() == old(proxy).sent(),
        final(proxy).reads() == old(proxy).reads().push(PropertyRead {
            target: old(proxy).target(),
            name: name@,
            answer: match r {
                Ok(b) => Some(b),
                Err(_) => None,
            },
        }),
{
    proxy.proxy.get_property::<bool>(name)
}

/// `zbus::blocking::Proxy::set_property` of a boolean property. The peer
/// decides the outcome, so nothing is promised of it; the write is recorded
/// in the proxy's log.
#[verifier::external_body]
pub(crate) fn set_bool_property(
    proxy: &mut BusProxy,
    name: &str,
    value: bool,
) -> (r: Result<(), zbus::fdo::Error>)
    ensures
        final(proxy).target() == old(proxy).target(),
        final(proxy).reads() == old(proxy).reads(),
        final(proxy).sent() == old(proxy).sent().push(BusMessage::SetProperty {
            target: old(proxy).target(),
            name: name@,
            value: BusValue::Bool(value),
        }),
{
    proxy.proxy.set_property(name, value)
}

/// `zbus::blocking::Proxy::call` of a method that takes no argument and
/// replies with two booleans. The peer decides the reply, so nothing is
/// promised of it; the call is recorded in the proxy's log.
#[verifier::external_body]
pub(crate) fn call_for_flags(proxy: &mut BusProxy, method: &str) -> (r: Result<(bool, bool), zbus::Error>)
    ensures
        final(proxy).target() == old(proxy).target(),
        final(proxy).reads() == old(proxy).reads(),
        final(proxy).sent() == old(proxy).sent().push(BusMessage::Call {
            target: old(proxy).target(),
            member: method@,
            args: Seq::<BusValue>::empty(),
        }),
{
    proxy.proxy.call(method, &())
}

/// `zbus::blocking::Proxy::call` of a method that takes one boolean and
/// replies with two booleans. The peer decides the reply, so nothing is
/// promised of it; the call is recorded in the proxy's log.
#[verifier::external_body]
pub(crate) fn call_with_flag_for_flags(
    proxy: &mut BusProxy,
    method: &str,
    flag: bool,
) -> (r: Result<(bool, bool), zbus::Error>)
    ensures
        final(proxy).target() == old(proxy).target(),
        final(proxy).reads() == old(proxy).reads(),
        final(proxy).sent() == old(proxy).sent().push(BusMessage::Call {
            target: old(proxy).target(),
            member: method@,
            args: seq![BusValue::Bool(flag)],
        }),
{
    proxy.proxy.call(method, &(flag,))
}

/// `zbus::blocking::Proxy::call` of a method that takes no argument and
/// replies with nothing. The peer decides the outcome, so nothing is
/// promised. It is sent on a shared proxy, so it is not logged.
#[verifier::external_body]
pub(crate) fn call_for_nothing(proxy: &BusProxy, method: &str) -> Result<(), zbus::Error> {
    proxy.proxy.call(method, &())
}

/// `zbus::blocking::Proxy::call` of `method` with one number, replying with
/// nothing, made from a drop, where the proxy cannot be logged. The peer
/// decides the outcome, so nothing is promised. Its failures come back as an
/// error: zbus built on async-io blocks on the call without panicking.
#[verifier::external_body]
pub(crate) fn call_with_u32_for_nothing(proxy: &BusProxy, method: &str, n: u32) -> Result<(), zbus::Error>
    opens_invariants none
    no_unwind
{
    proxy.proxy.call(method, &(n,))
}

} // verus!
