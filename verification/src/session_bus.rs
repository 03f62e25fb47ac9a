//! The messages LG Buddy exchanges over D-Bus, as plain values, and the bus
//! client that carries them.

use vstd::prelude::*;
use vstd::string::StringExecFns;

verus! {

/// A value in the body of a D-Bus message.
#[derive(Debug, Clone, PartialEq, Eq)]
pub enum BusValue {
    Bool(bool),
    U32(u32),
    String(String),
    /// A file descriptor passed with the message.
    UnixFd(i32),
}

/// A signal received from the bus.
#[derive(Debug, Clone, PartialEq, Eq)]
pub struct BusSignal {
    pub sender: Option<String>,
    pub path: String,
    pub interface: String,
    pub member: String,
    pub body: Vec<BusValue>,
}

impl BusSignal {
    /// A signal with no sender and an empty body.
    pub fn new(path: &str, interface: &str, member: &str) -> (r: BusSignal)
        ensures
            r.sender is None,
            r.path@ == path@,
            r.interface@ == interface@,
            r.member@ == member@,
            r.body@.len() == 0,
    {
        BusSignal {
            sender: None,
            path: String::from_str(path),
            interface: String::from_str(interface),
            member: String::from_str(member),
            body: Vec::new(),
        }
    }

    /// The same signal, sent by `sender`.
    pub fn with_sender(self, sender: &str) -> (r: BusSignal)
        ensures
            r.sender matches Some(s) && s@ == sender@,
            r.path == self.path,
            r.interface == self.interface,
            r.member == self.member,
            r.body == self.body,
    {
        BusSignal { sender: Some(String::from_str(sender)), ..self }
    }

    /// The same signal, carrying `body`.
    pub fn with_body(self, body: Vec<BusValue>) -> (r: BusSignal)
        ensures
            r.sender == self.sender,
            r.path == self.path,
            r.interface == self.interface,
            r.member == self.member,
            r.body == body,
    {
        BusSignal { body, ..self }
    }
}

/// A rule that selects the signals a bus client is sent: each part that is
/// given must match.
#[derive(Debug, Clone, Copy, PartialEq, Eq)]
pub struct BusSignalMatch<'a> {
    pub sender: Option<&'a str>,
    pub path: Option<&'a str>,
    pub interface: Option<&'a str>,
    pub member: Option<&'a str>,
}

/// A method call to send over the bus.
#[derive(Debug, Clone, PartialEq, Eq)]
pub struct BusMethodCall<'a> {
    pub destination: &'a str,
    pub path: &'a str,
    pub interface: &'a str,
    pub member: &'a str,
    pub body: Vec<BusValue>,
}

impl<'a> BusMethodCall<'a> {
    /// A call with an empty body.
    pub fn new(destination: &'a str, path: &'a str, interface: &'a str, member: &'a str) -> (r:
        BusMethodCall<'a>)
        ensures
            r.destination == destination,
            r.path == path,
            r.interface == interface,
            r.member == member,
            r.body@.len() == 0,
    {
        BusMethodCall { destination, path, interface, member, body: Vec::new() }
    }

    /// The same call, carrying `body`.
    pub fn with_body(self, body: Vec<BusValue>) -> (r: BusMethodCall<'a>)
        ensures
            r.destination == self.destination,
            r.path == self.path,
            r.interface == self.interface,
            r.member == self.member,
            r.body == body,
    {
        BusMethodCall { body, ..self }
    }
}

/// The reply to a method call.
#[derive(Debug, Clone, PartialEq, Eq)]
pub struct BusReply {
    pub body: Vec<BusValue>,
}

impl BusReply {
    pub fn new(body: Vec<BusValue>) -> (r: BusReply)
        ensures
            r.body == body,
    {
        BusReply { body }
    }
}

/// How a bus operation failed.
#[derive(Debug, Clone, PartialEq, Eq)]
pub enum SessionBusError {
    /// The bus or the peer failed; the text says how.
    Transport(String),
}

/// A connection to a message bus. The D-Bus connection of the runtime and
/// the fakes of the tests implement it.
pub trait SessionBusClient {
    /// Whether some connection owns the bus name `name`.
    fn name_has_owner(&mut self, name: &str) -> Result<bool, SessionBusError>;

    /// Sends `call` and waits for its reply.
    fn call_method(&mut self, call: BusMethodCall<'_>) -> Result<BusReply, SessionBusError>;

    /// Asks the bus to send this client the signals that `rule` selects.
    fn add_signal_match(&mut self, rule: BusSignalMatch<'_>) -> Result<(), SessionBusError>;

    /// Waits up to `timeout_millis` milliseconds for the next signal.
    fn process(&mut self, timeout_millis: u64) -> Result<Option<BusSignal>, SessionBusError>;
}

} // verus!
