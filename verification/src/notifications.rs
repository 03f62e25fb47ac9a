//! Desktop notifications, as the freedesktop notification service takes and
//! reports them.

use vstd::prelude::*;
use vstd::string::StringExecFns;

use crate::session_bus::{BusSignal, BusValue};
use crate::text::str_eq;

verus! {

pub const NOTIFICATION_SERVICE: &'static str = "org.freedesktop.Notifications";

pub const NOTIFICATION_PATH: &'static str = "/org/freedesktop/Notifications";

pub const NOTIFICATION_INTERFACE: &'static str = "org.freedesktop.Notifications";

pub const DEFAULT_APP_NAME: &'static str = "LG Buddy";

/// The expiry timeout that leaves the choice to the notification server.
pub const DEFAULT_EXPIRE_TIMEOUT_MS: i32 = -1;

/// A button offered by a notification.
#[derive(Debug, Clone, PartialEq, Eq)]
pub struct NotificationAction {
    pub key: String,
    pub label: String,
}

/// A notification to show.
#[derive(Debug, Clone, PartialEq, Eq)]
pub struct Notification {
    pub app_name: &'static str,
    pub summary: String,
    pub body: String,
    pub actions: Vec<NotificationAction>,
    pub expire_timeout_ms: i32,
}

impl Notification {
    /// A notification from LG Buddy with no actions and the server's
    /// expiry timeout.
    pub fn new(summary: &str, body: &str) -> (r: Notification)
        ensures
            r.app_name == DEFAULT_APP_NAME,
            r.summary@ == summary@,
            r.body@ == body@,
            r.actions@.len() == 0,
            r.expire_timeout_ms == DEFAULT_EXPIRE_TIMEOUT_MS,
    {
        Notification {
            app_name: DEFAULT_APP_NAME,
            summary: String::from_str(summary),
            body: String::from_str(body),
            actions: Vec::new(),
            expire_timeout_ms: DEFAULT_EXPIRE_TIMEOUT_MS,
        }
    }
}

/// What the notification server can do.
#[derive(Debug, Clone, Copy, PartialEq, Eq, Structural)]
pub struct NotificationCapabilities {
    pub actions: bool,
}

impl NotificationCapabilities {
    /// The capabilities that the server lists by name: it supports actions
    /// when `actions` is among the names.
    pub fn from_capability_names(names: Vec<String>) -> (r: NotificationCapabilities)
        ensures
            r.actions == exists|i: int| 0 <= i < names@.len() && #[trigger] names@[i]@ == "actions"@,
    {
        let mut i: usize = 0;
        while i < names.len()
            invariant
                i <= names@.len(),
                forall|j: int| 0 <= j < i ==> #[trigger] names@[j]@ != "actions"@,
            decreases names.len() - i,
        {
            if str_eq(names[i].as_str(), "actions") {
                return NotificationCapabilities { actions: true };
            }
            i = i + 1;
        }
        NotificationCapabilities { actions: false }
    }
}

/// The id that the server gave a notification.
#[derive(Debug, Clone, Copy, PartialEq, Eq, Hash, Structural)]
pub struct NotificationId(pub u32);

/// Why the server closed a notification.
#[derive(Debug, Clone, Copy, PartialEq, Eq, Structural)]
pub enum NotificationCloseReason {
    Expired,
    Dismissed,
    ClosedByCall,
    Undefined,
    Other(u32),
}

/// The close reason with the code `value` of the notification specification.
pub open spec fn close_reason_of(value: u32) -> NotificationCloseReason {
    if value == 1 {
        NotificationCloseReason::Expired
    } else if value == 2 {
        NotificationCloseReason::Dismissed
    } else if value == 3 {
        NotificationCloseReason::ClosedByCall
    } else if value == 4 {
        NotificationCloseReason::Undefined
    } else {
        NotificationCloseReason::Other(value)
    }
}

impl NotificationCloseReason {
    pub fn from_raw(value: u32) -> (r: NotificationCloseReason)
        ensures
            r == close_reason_of(value),
    {
        match value {
            1 => NotificationCloseReason::Expired,
            2 => NotificationCloseReason::Dismissed,
            3 => NotificationCloseReason::ClosedByCall,
            4 => NotificationCloseReason::Undefined,
            other => NotificationCloseReason::Other(other),
        }
    }
}

/// A signal of the notification server about one of its notifications.
#[derive(Debug, Clone, PartialEq, Eq)]
pub enum NotificationSignal {
    ActionInvoked { id: NotificationId, action_key: String },
    Closed { id: NotificationId, reason: NotificationCloseReason },
}

/// The signal comes from the object of the notification server.
pub open spec fn from_notification_object(signal: BusSignal) -> bool {
    signal.path@ == NOTIFICATION_PATH@ && signal.interface@ == NOTIFICATION_INTERFACE@
}

/// `ActionInvoked` with a `u32` id and a string key.
pub open spec fn is_action_invoked(signal: BusSignal) -> bool {
    &&& from_notification_object(signal)
    &&& signal.member@ == "ActionInvoked"@
    &&& signal.body@.len() == 2
    &&& signal.body@[0] is U32
    &&& signal.body@[1] is String
}

/// `NotificationClosed` with a `u32` id and a `u32` reason.
pub open spec fn is_notification_closed(signal: BusSignal) -> bool {
    &&& from_notification_object(signal)
    &&& signal.member@ == "NotificationClosed"@
    &&& signal.body@.len() == 2
    &&& signal.body@[0] is U32
    &&& signal.body@[1] is U32
}

/// The notification id that a notification signal carries first.
pub open spec fn signal_id(signal: BusSignal) -> u32 {
    match signal.body@[0] {
        BusValue::U32(id) => id,
        _ => 0,
    }
}

/// The action key that an `ActionInvoked` signal carries second.
pub open spec fn signal_action_key(signal: BusSignal) -> Seq<char> {
    match signal.body@[1] {
        BusValue::String(key) => key@,
        _ => Seq::empty(),
    }
}

/// The notification signal that `signal` carries, if it is a well-formed
/// `ActionInvoked` or `NotificationClosed` of the notification server.
pub fn parse_notification_signal(signal: &BusSignal) -> (r: Option<NotificationSignal>)
    ensures
        r matches Some(NotificationSignal::ActionInvoked { id, action_key }) ==> is_action_invoked(
            *signal,
        ) && signal.body@[0] == BusValue::U32(id.0) && (signal.body@[1] matches BusValue::String(
            k,
        ) && k@ == action_key@),
        r matches Some(NotificationSignal::Closed { id, reason }) ==> is_notification_closed(
            *signal,
        ) && signal.body@[0] == BusValue::U32(id.0) && (signal.body@[1] matches BusValue::U32(raw)
            && reason == close_reason_of(raw)),
        r is None ==> !is_action_invoked(*signal) && !is_notification_closed(*signal),
{
    if !str_eq(signal.path.as_str(), NOTIFICATION_PATH) || !str_eq(
        signal.interface.as_str(),
        NOTIFICATION_INTERFACE,
    ) {
        return None;
    }
    proof {
        reveal_strlit("ActionInvoked");
        reveal_strlit("NotificationClosed");
        assert("ActionInvoked"@.len() == 13);
        assert("NotificationClosed"@.len() == 18);
    }
    if str_eq(signal.member.as_str(), "ActionInvoked") {
        if signal.body.len() != 2 {
            return None;
        }
        let id = match &signal.body[0] {
            BusValue::U32(id) => *id,
            _ => return None,
        };
        match &signal.body[1] {
            BusValue::String(action_key) => Some(
                NotificationSignal::ActionInvoked {
                    id: NotificationId(id),
                    action_key: action_key.clone(),
                },
            ),
            _ => None,
        }
    } else if str_eq(signal.member.as_str(), "NotificationClosed") {
        if signal.body.len() != 2 {
            return None;
        }
        let id = match &signal.body[0] {
            BusValue::U32(id) => *id,
            _ => return None,
        };
        match &signal.body[1] {
            BusValue::U32(reason) => Some(
                NotificationSignal::Closed {
                    id: NotificationId(id),
                    reason: NotificationCloseReason::from_raw(*reason),
                },
            ),
            _ => None,
        }
    } else {
        None
    }
}

/// How showing a notification failed.
#[derive(Debug, Clone, PartialEq, Eq)]
pub enum NotificationError {
    /// The notification service could not be reached or refused the call.
    Transport(String),
}

impl NotificationError {
    pub open spec fn text(&self) -> Seq<char> {
        match self {
            NotificationError::Transport(message) => "desktop notification service error: "@
                + message@,
        }
    }

    /// The text of the error, as it is shown to users.
    pub fn message(&self) -> (r: String)
        ensures
            r@ == self.text(),
    {
        match self {
            NotificationError::Transport(message) => {
                let mut r = String::from_str("desktop notification service error: ");
                r.append(message.as_str());
                r
            },
        }
    }
}

/// Something that shows desktop notifications.
pub trait Notifier {
    fn capabilities(&self) -> Result<NotificationCapabilities, NotificationError>;

    fn notify(&self, notification: &Notification) -> Result<NotificationId, NotificationError>;
}

/// The arguments of the `Notify` call of the notification service.
#[derive(Debug, Clone, PartialEq, Eq)]
pub struct NotificationRequest {
    pub app_name: String,
    pub replaces_id: u32,
    pub app_icon: String,
    pub summary: String,
    pub body: String,
    pub actions: Vec<String>,
    pub expire_timeout_ms: i32,
}

/// The action list of the `Notify` call: key and label of each action, in
/// order.
pub open spec fn action_strings(actions: Seq<NotificationAction>) -> Seq<Seq<char>>
    decreases actions.len(),
{
    if actions.len() == 0 {
        Seq::empty()
    } else {
        action_strings(actions.drop_last()) + seq![actions.last().key@, actions.last().label@]
    }
}

proof fn lemma_action_strings_len(actions: Seq<NotificationAction>)
    ensures
        action_strings(actions).len() == 2 * actions.len(),
    decreases actions.len(),
{
    if actions.len() > 0 {
        lemma_action_strings_len(actions.drop_last());
    }
}

/// The views of a list of strings.
pub open spec fn string_list_view(list: Seq<String>) -> Seq<Seq<char>> {
    list.map_values(|s: String| s@)
}

impl NotificationRequest {
    /// The `Notify` call for `notification`: a new notification (no id to
    /// replace), no icon, and the actions flattened to key, label, key, ...
    pub fn from_notification(notification: &Notification) -> (r: NotificationRequest)
        ensures
            r.app_name@ == notification.app_name@,
            r.replaces_id == 0,
            r.app_icon@.len() == 0,
            r.summary@ == notification.summary@,
            r.body@ == notification.body@,
            string_list_view(r.actions@) == action_strings(notification.actions@),
            r.expire_timeout_ms == notification.expire_timeout_ms,
    {
        let mut actions: Vec<String> = Vec::new();
        let mut i: usize = 0;
        while i < notification.actions.len()
            invariant
                i <= notification.actions@.len(),
                string_list_view(actions@) == action_strings(notification.actions@.take(i as int)),
            decreases notification.actions.len() - i,
        {
            let action = &notification.actions[i];
            actions.push(action.key.clone());
            actions.push(action.label.clone());
            assert(notification.actions@.take(i + 1).drop_last() =~= notification.actions@.take(
                i as int,
            ));
            assert(string_list_view(actions@) =~= action_strings(
                notification.actions@.take(i + 1),
            ));
            i = i + 1;
        }
        assert(notification.actions@.take(i as int) =~= notification.actions@);
        NotificationRequest {
            app_name: String::from_str(notification.app_name),
            replaces_id: 0,
            app_icon: String::new(),
            summary: notification.summary.clone(),
            body: notification.body.clone(),
            actions,
            expire_timeout_ms: notification.expire_timeout_ms,
        }
    }
}

/// The connection that carries notification calls to the server.
pub trait NotificationTransport {
    fn get_capabilities(&self) -> Result<Vec<String>, NotificationError>;

    fn notify(&self, request: NotificationRequest) -> Result<NotificationId, NotificationError>;
}

impl<'a, T: NotificationTransport> NotificationTransport for &'a T {
    fn get_capabilities(&self) -> Result<Vec<String>, NotificationError> {
        (**self).get_capabilities()
    }

    fn notify(&self, request: NotificationRequest) -> Result<NotificationId, NotificationError> {
        (**self).notify(request)
    }
}

/// A notifier that sends each notification over `transport`.
pub struct NotificationDispatcher<T> {
    transport: T,
}

impl<T> NotificationDispatcher<T> {
    pub closed spec fn transport_view(&self) -> T {
        self.transport
    }

    pub fn new(transport: T) -> (r: NotificationDispatcher<T>)
        ensures
            r.transport_view() == transport,
    {
        NotificationDispatcher { transport }
    }
}

impl<T: NotificationTransport> Notifier for NotificationDispatcher<T> {
    fn capabilities(&self) -> Result<NotificationCapabilities, NotificationError> {
        match self.transport.get_capabilities() {
            Ok(names) => Ok(NotificationCapabilities::from_capability_names(names)),
            Err(e) => Err(e),
        }
    }

    fn notify(&self, notification: &Notification) -> Result<NotificationId, NotificationError> {
        self.transport.notify(NotificationRequest::from_notification(notification))
    }
}

/// The action list of a request holds, for each action in order, its key
/// and then its label.
pub proof fn lemma_request_action_count(actions: Seq<NotificationAction>)
    ensures
        action_strings(actions).len() == 2 * actions.len(),
        forall|i: int|
            0 <= i < actions.len() ==> #[trigger] action_strings(actions)[2 * i] == actions[i].key@
                && action_strings(actions)[2 * i + 1] == actions[i].label@,
    decreases actions.len(),
{
    lemma_action_strings_len(actions);
    if actions.len() > 0 {
        lemma_request_action_count(actions.drop_last());
        assert forall|i: int| 0 <= i < actions.len() implies #[trigger] action_strings(actions)[2
            * i] == actions[i].key@ && action_strings(actions)[2 * i + 1]
            == actions[i].label@ by {
            if i < actions.len() - 1 {
                assert(actions.drop_last()[i] == actions[i]);
                assert(action_strings(actions.drop_last())[2 * i] == actions[i].key@);
            }
        }
    }
}

} // verus!
