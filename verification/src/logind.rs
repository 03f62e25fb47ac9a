//! systemd-logind: the signal that announces system sleep and resume, and
//! the call that delays sleep while LG Buddy turns the TV off.

use vstd::prelude::*;
use vstd::string::StringExecFns;

use crate::session::SessionEvent;
use crate::session_bus::{
    BusMethodCall, BusSignal, BusSignalMatch, BusValue, SessionBusClient, SessionBusError,
};
use crate::text::str_eq;

verus! {

pub const LOGIND_SERVICE_NAME: &'static str = "org.freedesktop.login1";

pub const LOGIND_MANAGER_PATH: &'static str = "/org/freedesktop/login1";

pub const LOGIND_MANAGER_INTERFACE: &'static str = "org.freedesktop.login1.Manager";

pub const LOGIND_INHIBIT_WHO: &'static str = "LG Buddy";

pub const LOGIND_INHIBIT_WHY: &'static str = "Handle LG TV power state around system sleep";

/// The rule that selects logind's `PrepareForSleep` signal.
pub fn logind_signal_match() -> (r: BusSignalMatch<'static>)
    ensures
        r.sender == Some(LOGIND_SERVICE_NAME),
        r.path == Some(LOGIND_MANAGER_PATH),
        r.interface == Some(LOGIND_MANAGER_INTERFACE),
        r.member matches Some(m) && m@ == "PrepareForSleep"@,
{
    BusSignalMatch {
        sender: Some(LOGIND_SERVICE_NAME),
        path: Some(LOGIND_MANAGER_PATH),
        interface: Some(LOGIND_MANAGER_INTERFACE),
        member: Some("PrepareForSleep"),
    }
}

/// Subscribes `bus` to logind's `PrepareForSleep` signal, with the rule of
/// `logind_signal_match`.
pub fn add_logind_signal_match<B: SessionBusClient>(bus: &mut B) -> Result<(), SessionBusError> {
    bus.add_signal_match(logind_signal_match())
}

/// Whether `signal` is logind's `PrepareForSleep`, whatever its body.
pub open spec fn is_prepare_for_sleep(signal: BusSignal) -> bool {
    &&& signal.path@ == LOGIND_MANAGER_PATH@
    &&& signal.interface@ == LOGIND_MANAGER_INTERFACE@
    &&& signal.member@ == "PrepareForSleep"@
}

/// The session event that a logind signal announces: `PrepareForSleep` with
/// the single argument `true` before sleep, `false` after resume.
pub open spec fn prepare_for_sleep_event(signal: BusSignal) -> Option<SessionEvent> {
    if is_prepare_for_sleep(signal) && signal.body@.len() == 1 {
        match signal.body@[0] {
            BusValue::Bool(true) => Some(SessionEvent::BeforeSleep),
            BusValue::Bool(false) => Some(SessionEvent::AfterResume),
            _ => None,
        }
    } else {
        None
    }
}

/// The session event that `signal` announces, if it is logind's
/// `PrepareForSleep` with a well-formed body.
pub fn map_prepare_for_sleep_signal(signal: &BusSignal) -> (r: Option<SessionEvent>)
    ensures
        r == prepare_for_sleep_event(*signal),
{
    if !str_eq(signal.path.as_str(), LOGIND_MANAGER_PATH) || !str_eq(
        signal.interface.as_str(),
        LOGIND_MANAGER_INTERFACE,
    ) || !str_eq(signal.member.as_str(), "PrepareForSleep") {
        return None;
    }
    if signal.body.len() != 1 {
        return None;
    }
    match &signal.body[0] {
        BusValue::Bool(true) => Some(SessionEvent::BeforeSleep),
        BusValue::Bool(false) => Some(SessionEvent::AfterResume),
        _ => None,
    }
}

/// The `Inhibit` call that takes a delay lock on system sleep for LG Buddy.
/// Its reply carries the file descriptor that holds the lock.
pub fn sleep_delay_inhibit_call() -> (r: BusMethodCall<'static>)
    ensures
        r.destination == LOGIND_SERVICE_NAME,
        r.path == LOGIND_MANAGER_PATH,
        r.interface == LOGIND_MANAGER_INTERFACE,
        r.member@ == "Inhibit"@,
        r.body@.len() == 4,
        r.body@[0] matches BusValue::String(what) && what@ == "sleep"@,
        r.body@[1] matches BusValue::String(who) && who@ == LOGIND_INHIBIT_WHO@,
        r.body@[2] matches BusValue::String(why) && why@ == LOGIND_INHIBIT_WHY@,
        r.body@[3] matches BusValue::String(mode) && mode@ == "delay"@,
{
    let mut body: Vec<BusValue> = Vec::new();
    body.push(BusValue::String(String::from_str("sleep")));
    body.push(BusValue::String(String::from_str(LOGIND_INHIBIT_WHO)));
    body.push(BusValue::String(String::from_str(LOGIND_INHIBIT_WHY)));
    body.push(BusValue::String(String::from_str("delay")));
    BusMethodCall::new(
        LOGIND_SERVICE_NAME,
        LOGIND_MANAGER_PATH,
        LOGIND_MANAGER_INTERFACE,
        "Inhibit",
    ).with_body(body)
}

/// The file descriptor that the reply to the `Inhibit` call carries: its
/// body must hold exactly one file descriptor.
pub fn inhibitor_fd(body: &Vec<BusValue>) -> (r: Option<i32>)
    ensures
        match r {
            Some(fd) => body@.len() == 1 && body@[0] == BusValue::UnixFd(fd),
            None => !(body@.len() == 1 && body@[0] is UnixFd),
        },
{
    if body.len() != 1 {
        return None;
    }
    match &body[0] {
        BusValue::UnixFd(fd) => Some(*fd),
        _ => None,
    }
}

/// Before sleep and after resume are told apart: logind's `true` and
/// `false` never announce the same event, and no other body announces any.
pub proof fn lemma_prepare_for_sleep_events_distinct(signal: BusSignal)
    requires
        is_prepare_for_sleep(signal),
    ensures
        signal.body@ == seq![BusValue::Bool(true)] ==> prepare_for_sleep_event(signal) == Some(
            SessionEvent::BeforeSleep,
        ),
        signal.body@ == seq![BusValue::Bool(false)] ==> prepare_for_sleep_event(signal) == Some(
            SessionEvent::AfterResume,
        ),
        prepare_for_sleep_event(signal) is Some ==> signal.body@.len() == 1
            && signal.body@[0] is Bool,
{
}

} // verus!
