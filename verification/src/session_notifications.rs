//! The session service that shows update notifications on behalf of the
//! system service: the request it takes over D-Bus, the notification it
//! shows, and the notifications it still waits on an answer for.

use std::collections::HashMap;

use vstd::prelude::*;
use vstd::string::{StrSliceExecFns, StringExecFns};

use crate::notifications::{
    is_action_invoked, is_notification_closed, parse_notification_signal, signal_action_key,
    signal_id, Notification, NotificationAction, NotificationError,
    NotificationId, NotificationSignal, Notifier,
};
use crate::session_bus::BusSignal;
use crate::text::{is_prefix_of, starts_with, str_eq, trim, trim_of};
use crate::updates::{
    parse_version, semver_canonical, semver_parse_error, SemVersion, UpdateChannel,
};
use crate::version::ReleaseChannel;

verus! {

broadcast use vstd::std_specs::hash::group_hash_axioms;

pub const SESSION_BUS_NAME: &'static str = "io.github.Staphylococcus.LGBuddy";

pub const SESSION_OBJECT_PATH: &'static str = "/io/github/Staphylococcus/LGBuddy/Session";

pub const SESSION_INTERFACE: &'static str = "io.github.Staphylococcus.LGBuddy.Session1";

pub const SHOW_UPDATE_NOTIFICATION_METHOD: &'static str = "ShowUpdateNotification";

pub const VIEW_RELEASE_ACTION_KEY: &'static str = "view-release";

/// How often the service loop looks at the bus, in milliseconds.
pub const SESSION_PROCESS_INTERVAL_MILLIS: u64 = 50;

/// How long the service may take to start, in milliseconds.
pub const SESSION_START_TIMEOUT_MILLIS: u64 = 2000;

// ---------------------------------------------------------------------------
// Errors
// ---------------------------------------------------------------------------

/// The answer of the bus to a request for a well-known name.
#[derive(Debug, Clone, Copy, PartialEq, Eq, Structural)]
pub enum NameRequestReply {
    PrimaryOwner,
    InQueue,
    Exists,
    AlreadyOwner,
}

impl NameRequestReply {
    pub open spec fn name(self) -> Seq<char> {
        match self {
            NameRequestReply::PrimaryOwner => "PrimaryOwner"@,
            NameRequestReply::InQueue => "InQueue"@,
            NameRequestReply::Exists => "Exists"@,
            NameRequestReply::AlreadyOwner => "AlreadyOwner"@,
        }
    }

    pub fn as_str(self) -> (r: &'static str)
        ensures
            r@ == self.name(),
    {
        match self {
            NameRequestReply::PrimaryOwner => "PrimaryOwner",
            NameRequestReply::InQueue => "InQueue",
            NameRequestReply::Exists => "Exists",
            NameRequestReply::AlreadyOwner => "AlreadyOwner",
        }
    }
}

/// How the session service failed.
#[derive(Debug, Clone, PartialEq, Eq)]
pub enum SessionServiceError {
    Transport(String),
    NameUnavailable { name: &'static str, reply: NameRequestReply },
    StartupTimeout,
    Poisoned,
}

impl SessionServiceError {
    pub open spec fn text(&self) -> Seq<char> {
        match self {
            SessionServiceError::Transport(m) => "LG Buddy session D-Bus service error: "@ + m@,
            SessionServiceError::NameUnavailable { name, reply } =>
                "could not own LG Buddy session D-Bus name `"@ + name@ + "`: "@ + reply.name(),
            SessionServiceError::StartupTimeout =>
                "timed out starting LG Buddy session D-Bus service"@,
            SessionServiceError::Poisoned =>
                "LG Buddy session notification state lock was poisoned"@,
        }
    }

    /// The text of the error, as it is shown to users.
    pub fn message(&self) -> (r: String)
        ensures
            r@ == self.text(),
    {
        match self {
            SessionServiceError::Transport(m) => {
                let mut r = String::from_str("LG Buddy session D-Bus service error: ");
                r.append(m.as_str());
                r
            },
            SessionServiceError::NameUnavailable { name, reply } => {
                let mut r = String::from_str("could not own LG Buddy session D-Bus name `");
                r.append(name);
                r.append("`: ");
                r.append(reply.as_str());
                r
            },
            SessionServiceError::StartupTimeout => String::from_str(
                "timed out starting LG Buddy session D-Bus service",
            ),
            SessionServiceError::Poisoned => String::from_str(
                "LG Buddy session notification state lock was poisoned",
            ),
        }
    }
}

/// The service may go on with the bus name only when it owns it.
pub fn check_name_reply(reply: NameRequestReply) -> (r: Result<(), SessionServiceError>)
    ensures
        match reply {
            NameRequestReply::PrimaryOwner | NameRequestReply::AlreadyOwner => r is Ok,
            _ => r == Err::<(), SessionServiceError>(
                SessionServiceError::NameUnavailable { name: SESSION_BUS_NAME, reply },
            ),
        },
{
    match reply {
        NameRequestReply::PrimaryOwner | NameRequestReply::AlreadyOwner => Ok(()),
        _ => Err(SessionServiceError::NameUnavailable { name: SESSION_BUS_NAME, reply }),
    }
}

/// What the thread of the service reported when it started, as far as the
/// spawning side saw it.
#[derive(Debug, Clone, PartialEq, Eq)]
pub enum StartupReport {
    Ready,
    Failed(SessionServiceError),
    TimedOut,
    Disconnected,
}

/// Whether the service started: a failure the thread reported stands; a
/// thread that said nothing in time, or ended without a word, is an error
/// of its own.
pub fn startup_result(report: StartupReport) -> (r: Result<(), SessionServiceError>)
    ensures
        match report {
            StartupReport::Ready => r is Ok,
            StartupReport::Failed(e) => r == Err::<(), SessionServiceError>(e),
            StartupReport::TimedOut => r == Err::<(), SessionServiceError>(
                SessionServiceError::StartupTimeout,
            ),
            StartupReport::Disconnected => r matches Err(SessionServiceError::Transport(m)) && m@
                == "session service thread exited before startup completed"@,
        },
{
    match report {
        StartupReport::Ready => Ok(()),
        StartupReport::Failed(e) => Err(e),
        StartupReport::TimedOut => Err(SessionServiceError::StartupTimeout),
        StartupReport::Disconnected => Err(
            SessionServiceError::Transport(
                String::from_str("session service thread exited before startup completed"),
            ),
        ),
    }
}

/// How showing an update notification failed.
#[derive(Debug, Clone, PartialEq, Eq)]
pub enum UpdateNotificationError {
    InvalidRequest(String),
    Transport(String),
    Notification(NotificationError),
    Session(SessionServiceError),
    OpenRelease { url: String, message: String },
}

impl UpdateNotificationError {
    pub open spec fn text(&self) -> Seq<char> {
        match self {
            UpdateNotificationError::InvalidRequest(m) => "invalid update notification request: "@
                + m@,
            UpdateNotificationError::Transport(m) =>
                "could not request update notification from LG Buddy session service: "@ + m@,
            UpdateNotificationError::Notification(e) => e.text(),
            UpdateNotificationError::Session(e) => e.text(),
            UpdateNotificationError::OpenRelease { url, message } =>
                "could not open release URL `"@ + url@ + "`: "@ + message@,
        }
    }

    /// The text of the error, as it is shown to users.
    pub fn message(&self) -> (r: String)
        ensures
            r@ == self.text(),
    {
        match self {
            UpdateNotificationError::InvalidRequest(m) => {
                let mut r = String::from_str("invalid update notification request: ");
                r.append(m.as_str());
                r
            },
            UpdateNotificationError::Transport(m) => {
                let mut r = String::from_str(
                    "could not request update notification from LG Buddy session service: ",
                );
                r.append(m.as_str());
                r
            },
            UpdateNotificationError::Notification(e) => e.message(),
            UpdateNotificationError::Session(e) => e.message(),
            UpdateNotificationError::OpenRelease { url, message } => {
                let mut r = String::from_str("could not open release URL `");
                r.append(url.as_str());
                r.append("`: ");
                r.append(message.as_str());
                r
            },
        }
    }
}

// ---------------------------------------------------------------------------
// The request
// ---------------------------------------------------------------------------

/// A release page address: not blank, and `https://` or `http://` once
/// trimmed.
pub open spec fn is_release_url(value: Seq<char>) -> bool {
    trim_of(value).len() > 0 && (is_prefix_of("https://"@, trim_of(value)) || is_prefix_of(
        "http://"@,
        trim_of(value),
    ))
}

pub fn valid_release_url(value: &str) -> (r: bool)
    ensures
        r == is_release_url(value@),
{
    let trimmed = trim(value);
    trimmed.unicode_len() != 0 && (starts_with(trimmed, "https://") || starts_with(
        trimmed,
        "http://",
    ))
}

/// The request to show that `latest_version` is available on
/// `latest_channel`, found by a check on `check_channel` from
/// `current_version` on `current_channel`; the notification links to
/// `release_url`.
#[derive(Debug, Clone, PartialEq, Eq)]
pub struct UpdateNotificationRequest {
    check_channel: UpdateChannel,
    current_version: SemVersion,
    current_channel: ReleaseChannel,
    latest_version: SemVersion,
    latest_channel: UpdateChannel,
    release_url: String,
}

/// The request with its texts as characters.
pub struct UpdateNotificationRequestView {
    pub check_channel: UpdateChannel,
    pub current_source: Seq<char>,
    pub current_text: Seq<char>,
    pub current_channel: ReleaseChannel,
    pub latest_source: Seq<char>,
    pub latest_text: Seq<char>,
    pub latest_channel: UpdateChannel,
    pub release_url: Seq<char>,
}

impl View for UpdateNotificationRequest {
    type V = UpdateNotificationRequestView;

    closed spec fn view(&self) -> UpdateNotificationRequestView {
        UpdateNotificationRequestView {
            check_channel: self.check_channel,
            current_source: self.current_version.source_view(),
            current_text: self.current_version.text_view(),
            current_channel: self.current_channel,
            latest_source: self.latest_version.source_view(),
            latest_text: self.latest_version.text_view(),
            latest_channel: self.latest_channel,
            release_url: self.release_url@,
        }
    }
}

/// The release channel named `value`.
pub open spec fn release_channel_named(value: Seq<char>) -> Option<ReleaseChannel> {
    if value == "dev"@ {
        Some(ReleaseChannel::Dev)
    } else if value == "prerelease"@ {
        Some(ReleaseChannel::Prerelease)
    } else if value == "stable"@ {
        Some(ReleaseChannel::Stable)
    } else {
        None
    }
}

/// The update channel named `value`.
pub open spec fn update_channel_named(value: Seq<char>) -> Option<UpdateChannel> {
    if value == "stable"@ {
        Some(UpdateChannel::Stable)
    } else if value == "prerelease"@ {
        Some(UpdateChannel::Prerelease)
    } else {
        None
    }
}

/// Every update channel's name, as the D-Bus fields write it, reads back as
/// that channel, and no two channels share a name.
pub proof fn lemma_update_channel_names_parse_back(c: UpdateChannel, d: UpdateChannel)
    ensures
        update_channel_named(c.name()) == Some(c),
        c.name() == d.name() ==> c == d,
{
    reveal_strlit("stable");
    reveal_strlit("prerelease");
    assert("stable"@.len() != "prerelease"@.len());
}

/// Every release channel's name, as the D-Bus fields write it, reads back
/// as that channel, and no two channels share a name.
pub proof fn lemma_release_channel_names_parse_back(c: ReleaseChannel, d: ReleaseChannel)
    ensures
        release_channel_named(c.name()) == Some(c),
        c.name() == d.name() ==> c == d,
{
    reveal_strlit("dev");
    reveal_strlit("stable");
    reveal_strlit("prerelease");
    assert("dev"@.len() != "prerelease"@.len());
    assert("dev"@.len() != "stable"@.len());
    assert("stable"@.len() != "prerelease"@.len());
}

pub fn parse_update_channel(value: &str) -> (r: Result<UpdateChannel, UpdateNotificationError>)
    ensures
        match update_channel_named(value@) {
            Some(c) => r == Ok::<UpdateChannel, UpdateNotificationError>(c),
            None => r matches Err(UpdateNotificationError::InvalidRequest(m)) && m@
                == "invalid update channel `"@ + value@ + "`"@,
        },
{
    if str_eq(value, "stable") {
        Ok(UpdateChannel::Stable)
    } else if str_eq(value, "prerelease") {
        Ok(UpdateChannel::Prerelease)
    } else {
        let mut m = String::from_str("invalid update channel `");
        m.append(value);
        m.append("`");
        Err(UpdateNotificationError::InvalidRequest(m))
    }
}

pub fn parse_release_channel(value: &str) -> (r: Result<ReleaseChannel, UpdateNotificationError>)
    ensures
        match release_channel_named(value@) {
            Some(c) => r == Ok::<ReleaseChannel, UpdateNotificationError>(c),
            None => r matches Err(UpdateNotificationError::InvalidRequest(m)) && m@
                == "invalid release channel `"@ + value@ + "`"@,
        },
{
    if str_eq(value, "dev") {
        Ok(ReleaseChannel::Dev)
    } else if str_eq(value, "prerelease") {
        Ok(ReleaseChannel::Prerelease)
    } else if str_eq(value, "stable") {
        Ok(ReleaseChannel::Stable)
    } else {
        let mut m = String::from_str("invalid release channel `");
        m.append(value);
        m.append("`");
        Err(UpdateNotificationError::InvalidRequest(m))
    }
}

/// The six fields of a `ShowUpdateNotification` call describe a request:
/// the channels and versions are known and the URL is a release page.
pub open spec fn fields_valid(
    check_channel: Seq<char>,
    current_version: Seq<char>,
    current_channel: Seq<char>,
    latest_version: Seq<char>,
    latest_channel: Seq<char>,
    release_url: Seq<char>,
) -> bool {
    &&& update_channel_named(check_channel) is Some
    &&& semver_canonical(current_version) is Some
    &&& release_channel_named(current_channel) is Some
    &&& semver_canonical(latest_version) is Some
    &&& update_channel_named(latest_channel) is Some
    &&& is_release_url(release_url)
}

/// `m` is the message about the first of the six fields that is wrong (for
/// a version, with semver's reason after it).
pub open spec fn invalid_fields_message(
    check_channel: Seq<char>,
    current_version: Seq<char>,
    current_channel: Seq<char>,
    latest_version: Seq<char>,
    latest_channel: Seq<char>,
    release_url: Seq<char>,
    m: Seq<char>,
) -> bool {
    if update_channel_named(check_channel) is None {
        m == "invalid update channel `"@ + check_channel + "`"@
    } else if semver_canonical(current_version) is None {
        m == "invalid "@ + "current version"@ + " `"@ + current_version + "`: "@
            + semver_parse_error(current_version)
    } else if release_channel_named(current_channel) is None {
        m == "invalid release channel `"@ + current_channel + "`"@
    } else if semver_canonical(latest_version) is None {
        m == "invalid "@ + "latest version"@ + " `"@ + latest_version + "`: "@
            + semver_parse_error(latest_version)
    } else if update_channel_named(latest_channel) is None {
        m == "invalid update channel `"@ + latest_channel + "`"@
    } else {
        m == "invalid release URL `"@ + release_url + "`"@
    }
}

/// The request `v` is the one that six valid fields describe.
pub open spec fn request_matches_fields(
    v: UpdateNotificationRequestView,
    check_channel: Seq<char>,
    current_version: Seq<char>,
    current_channel: Seq<char>,
    latest_version: Seq<char>,
    latest_channel: Seq<char>,
    release_url: Seq<char>,
) -> bool {
    &&& v.check_channel == update_channel_named(check_channel)->0
    &&& v.current_source == current_version
    &&& v.current_text == semver_canonical(current_version)->0
    &&& v.current_channel == release_channel_named(current_channel)->0
    &&& v.latest_source == latest_version
    &&& v.latest_text == semver_canonical(latest_version)->0
    &&& v.latest_channel == update_channel_named(latest_channel)->0
    &&& v.release_url == release_url
}

/// The version in the field `label` of a request.
fn parse_request_version(label: &'static str, value: &str) -> (r: Result<
    SemVersion,
    UpdateNotificationError,
>)
    ensures
        match semver_canonical(value@) {
            Some(printed) => r matches Ok(v) && v.source_view() == value@ && v.text_view()
                == printed,
            None => r matches Err(UpdateNotificationError::InvalidRequest(m)) && m@ == "invalid "@
                + label@ + " `"@ + value@ + "`: "@ + semver_parse_error(value@),
        },
{
    match parse_version(value) {
        Ok(v) => Ok(v),
        Err(e) => {
            let mut m = String::from_str("invalid ");
            m.append(label);
            m.append(" `");
            m.append(value);
            m.append("`: ");
            m.append(e.as_str());
            Err(UpdateNotificationError::InvalidRequest(m))
        },
    }
}

impl UpdateNotificationRequest {
    /// A request, when `release_url` is a release page address.
    pub fn new(
        check_channel: UpdateChannel,
        current_version: SemVersion,
        current_channel: ReleaseChannel,
        latest_version: SemVersion,
        latest_channel: UpdateChannel,
        release_url: String,
    ) -> (r: Result<UpdateNotificationRequest, UpdateNotificationError>)
        ensures
            is_release_url(release_url@) ==> (r matches Ok(req) && req@.check_channel
                == check_channel && req@.current_source == current_version.source_view()
                && req@.current_text == current_version.text_view() && req@.current_channel
                == current_channel && req@.latest_source == latest_version.source_view()
                && req@.latest_text == latest_version.text_view() && req@.latest_channel
                == latest_channel && req@.release_url == release_url@),
            !is_release_url(release_url@) ==> (r matches Err(
                UpdateNotificationError::InvalidRequest(m),
            ) && m@ == "invalid release URL `"@ + release_url@ + "`"@),
    {
        if !valid_release_url(release_url.as_str()) {
            let mut m = String::from_str("invalid release URL `");
            m.append(release_url.as_str());
            m.append("`");
            return Err(UpdateNotificationError::InvalidRequest(m));
        }
        Ok(
            UpdateNotificationRequest {
                check_channel,
                current_version,
                current_channel,
                latest_version,
                latest_channel,
                release_url,
            },
        )
    }

    /// The request that the six string fields of the D-Bus method call
    /// describe; the first field that does not hold what it should is
    /// reported.
    pub fn from_dbus_fields(
        check_channel: String,
        current_version: String,
        current_channel: String,
        latest_version: String,
        latest_channel: String,
        release_url: String,
    ) -> (r: Result<UpdateNotificationRequest, UpdateNotificationError>)
        ensures
            r is Ok <==> (update_channel_named(check_channel@) is Some && semver_canonical(
                current_version@,
            ) is Some && release_channel_named(current_channel@) is Some && semver_canonical(
                latest_version@,
            ) is Some && update_channel_named(latest_channel@) is Some && is_release_url(
                release_url@,
            )),
            r matches Ok(req) ==> req@.check_channel == update_channel_named(check_channel@)->0
                && req@.current_source == current_version@ && req@.current_text
                == semver_canonical(current_version@)->0 && req@.current_channel
                == release_channel_named(current_channel@)->0 && req@.latest_source
                == latest_version@ && req@.latest_text == semver_canonical(latest_version@)->0
                && req@.latest_channel == update_channel_named(latest_channel@)->0
                && req@.release_url == release_url@,
            update_channel_named(check_channel@) is None ==> (r matches Err(
                UpdateNotificationError::InvalidRequest(m),
            ) && m@ == "invalid update channel `"@ + check_channel@ + "`"@),
            update_channel_named(check_channel@) is Some && semver_canonical(current_version@)
                is None ==> (r matches Err(UpdateNotificationError::InvalidRequest(m))
                && m@ == "invalid "@ + "current version"@ + " `"@ + current_version@ + "`: "@
                + semver_parse_error(current_version@)),
            update_channel_named(check_channel@) is Some && semver_canonical(current_version@)
                is Some && release_channel_named(current_channel@) is None ==> (r matches Err(
                UpdateNotificationError::InvalidRequest(m),
            ) && m@ == "invalid release channel `"@ + current_channel@ + "`"@),
            update_channel_named(check_channel@) is Some && semver_canonical(current_version@)
                is Some && release_channel_named(current_channel@) is Some && semver_canonical(
                latest_version@,
            ) is None ==> (r matches Err(UpdateNotificationError::InvalidRequest(m))
                && m@ == "invalid "@ + "latest version"@ + " `"@ + latest_version@ + "`: "@
                + semver_parse_error(latest_version@)),
            update_channel_named(check_channel@) is Some && semver_canonical(current_version@)
                is Some && release_channel_named(current_channel@) is Some && semver_canonical(
                latest_version@,
            ) is Some && update_channel_named(latest_channel@) is None ==> (r matches Err(
                UpdateNotificationError::InvalidRequest(m),
            ) && m@ == "invalid update channel `"@ + latest_channel@ + "`"@),
            update_channel_named(check_channel@) is Some && semver_canonical(current_version@)
                is Some && release_channel_named(current_channel@) is Some && semver_canonical(
                latest_version@,
            ) is Some && update_channel_named(latest_channel@) is Some && !is_release_url(
                release_url@,
            ) ==> (r matches Err(UpdateNotificationError::InvalidRequest(m)) && m@
                == "invalid release URL `"@ + release_url@ + "`"@),
            r matches Ok(req) ==> request_matches_fields(
                req@,
                check_channel@,
                current_version@,
                current_channel@,
                latest_version@,
                latest_channel@,
                release_url@,
            ),
            r matches Err(e) ==> (e matches UpdateNotificationError::InvalidRequest(m)
                && invalid_fields_message(
                check_channel@,
                current_version@,
                current_channel@,
                latest_version@,
                latest_channel@,
                release_url@,
                m@,
            )),
    {
        let check = match parse_update_channel(check_channel.as_str()) {
            Ok(c) => c,
            Err(e) => return Err(e),
        };
        let current = match parse_request_version("current version", current_version.as_str()) {
            Ok(v) => v,
            Err(e) => return Err(e),
        };
        let current_release = match parse_release_channel(current_channel.as_str()) {
            Ok(c) => c,
            Err(e) => return Err(e),
        };
        let latest = match parse_request_version("latest version", latest_version.as_str()) {
            Ok(v) => v,
            Err(e) => return Err(e),
        };
        let latest_update = match parse_update_channel(latest_channel.as_str()) {
            Ok(c) => c,
            Err(e) => return Err(e),
        };
        UpdateNotificationRequest::new(check, current, current_release, latest, latest_update, release_url)
    }

    /// The six string fields of the D-Bus method call for the request.
    pub fn to_dbus_fields(&self) -> (r: (String, String, String, String, String, String))
        ensures
            r.0@ == self@.check_channel.name(),
            r.1@ == self@.current_text,
            r.2@ == self@.current_channel.name(),
            r.3@ == self@.latest_text,
            r.4@ == self@.latest_channel.name(),
            r.5@ == self@.release_url,
    {
        (
            String::from_str(self.check_channel.as_str()),
            self.current_version.to_text(),
            String::from_str(self.current_channel.as_str()),
            self.latest_version.to_text(),
            String::from_str(self.latest_channel.as_str()),
            self.release_url.clone(),
        )
    }

    pub fn release_url(&self) -> (r: &str)
        ensures
            r@ == self@.release_url,
    {
        self.release_url.as_str()
    }

    /// The body of the notification for the request.
    pub open spec fn body_text(v: UpdateNotificationRequestView) -> Seq<char> {
        "LG Buddy "@ + v.latest_text + " ("@ + v.latest_channel.name() + ") is available.\nCurrent: "@
            + v.current_text + " ("@ + v.current_channel.name() + ")\n"@ + v.release_url
    }

    /// The notification for the request; it offers a button to view the
    /// release when the server supports actions.
    pub fn notification(&self, actions_supported: bool) -> (r: Notification)
        ensures
            r.summary@ == "LG Buddy update available"@,
            r.body@ == Self::body_text(self@),
            r.body@ == "LG Buddy "@ + self@.latest_text + " ("@ + self@.latest_channel.name()
                + ") is available.\nCurrent: "@ + self@.current_text + " ("@
                + self@.current_channel.name() + ")\n"@ + self@.release_url,
            r.app_name@ == "LG Buddy"@,
            r.expire_timeout_ms == -1,
            actions_supported ==> r.actions@.len() == 1 && r.actions@[0].key@
                == VIEW_RELEASE_ACTION_KEY@ && r.actions@[0].label@ == "View Release"@,
            !actions_supported ==> r.actions@.len() == 0,
    {
        let latest = self.latest_version.to_text();
        let current = self.current_version.to_text();
        let mut body = String::from_str("LG Buddy ");
        body.append(latest.as_str());
        body.append(" (");
        body.append(self.latest_channel.as_str());
        body.append(") is available.\nCurrent: ");
        body.append(current.as_str());
        body.append(" (");
        body.append(self.current_channel.as_str());
        body.append(")\n");
        body.append(self.release_url.as_str());
        let mut notification = Notification::new("LG Buddy update available", body.as_str());
        if actions_supported {
            let mut actions: Vec<NotificationAction> = Vec::new();
            actions.push(
                NotificationAction {
                    key: String::from_str(VIEW_RELEASE_ACTION_KEY),
                    label: String::from_str("View Release"),
                },
            );
            notification.actions = actions;
        }
        notification
    }
}

// ---------------------------------------------------------------------------
// Showing notifications and answering their actions
// ---------------------------------------------------------------------------

/// What the session service answers to a request to show a notification.
#[derive(Debug, Clone, Copy, PartialEq, Eq, Structural)]
pub enum UpdateNotificationOutcome {
    Sent,
}

impl UpdateNotificationOutcome {
    pub fn as_str(self) -> (r: &'static str)
        ensures
            r@ == "sent"@,
    {
        match self {
            UpdateNotificationOutcome::Sent => "sent",
        }
    }

    /// The outcome that the session service named `value`.
    pub fn parse(value: &str) -> (r: Result<UpdateNotificationOutcome, UpdateNotificationError>)
        ensures
            value@ == "sent"@ ==> r == Ok::<UpdateNotificationOutcome, UpdateNotificationError>(
                UpdateNotificationOutcome::Sent,
            ),
            value@ != "sent"@ ==> (r matches Err(UpdateNotificationError::Transport(m)) && m@
                == "LG Buddy session service returned unknown update notification outcome `"@
                + value@ + "`"@),
    {
        if str_eq(value, "sent") {
            Ok(UpdateNotificationOutcome::Sent)
        } else {
            let mut m = String::from_str(
                "LG Buddy session service returned unknown update notification outcome `",
            );
            m.append(value);
            m.append("`");
            Err(UpdateNotificationError::Transport(m))
        }
    }
}

/// Something that hands an update notification to the session service.
pub trait UpdateNotificationHandoff {
    fn show_update_notification(
        &self,
        request: &UpdateNotificationRequest,
    ) -> Result<UpdateNotificationOutcome, UpdateNotificationError>;
}

/// Something that opens a release page for the user.
pub trait ReleaseOpener {
    fn open_release(&self, url: &str) -> Result<(), UpdateNotificationError>;
}

/// What answering a notification signal came to.
#[derive(Debug, Clone, Copy, PartialEq, Eq, Structural)]
pub enum SessionNotificationEvent {
    ReleaseOpened,
    Closed,
    UnknownAction,
}

/// Shows update notifications and remembers, by notification id, those
/// whose button the user may still press.
pub struct SessionUpdateNotificationDispatcher<N, O> {
    pub notifier: N,
    pub opener: O,
    pending: HashMap<u32, UpdateNotificationRequest>,
}

impl<N, O> SessionUpdateNotificationDispatcher<N, O> {
    /// The requests awaiting an answer, by notification id.
    pub closed spec fn pending_view(&self) -> Map<u32, UpdateNotificationRequest> {
        self.pending@
    }

    pub closed spec fn notifier_view(&self) -> N {
        self.notifier
    }

    pub closed spec fn opener_view(&self) -> O {
        self.opener
    }

    pub fn new(notifier: N, opener: O) -> (r: SessionUpdateNotificationDispatcher<N, O>)
        ensures
            r.notifier_view() == notifier,
            r.opener_view() == opener,
            r.pending_view() == Map::<u32, UpdateNotificationRequest>::empty(),
    {
        SessionUpdateNotificationDispatcher { notifier, opener, pending: HashMap::new() }
    }

    /// The number of requests awaiting an answer.
    pub fn pending_len(&self) -> (r: usize)
        ensures
            r == self.pending_view().len(),
    {
        self.pending.len()
    }

    /// Whether the notification `id` awaits an answer.
    pub fn is_pending(&self, id: NotificationId) -> (r: bool)
        ensures
            r == self.pending_view().contains_key(id.0),
    {
        self.pending.contains_key(&id.0)
    }

    /// Records that `request` was shown: it awaits an answer when the
    /// server took the notification and supports actions. The result is
    /// the server's.
    pub fn record_shown(
        &mut self,
        request: UpdateNotificationRequest,
        actions_supported: bool,
        notified: Result<NotificationId, NotificationError>,
    ) -> (r: Result<UpdateNotificationOutcome, UpdateNotificationError>)
        ensures
            final(self).pending_view() == match notified {
                Ok(id) => if actions_supported {
                    old(self).pending_view().insert(id.0, request)
                } else {
                    old(self).pending_view()
                },
                Err(_) => old(self).pending_view(),
            },
            match notified {
                Ok(_) => r == Ok::<UpdateNotificationOutcome, UpdateNotificationError>(
                    UpdateNotificationOutcome::Sent,
                ),
                Err(e) => r == Err::<UpdateNotificationOutcome, UpdateNotificationError>(
                    UpdateNotificationError::Notification(e),
                ),
            },
    {
        match notified {
            Ok(id) => {
                if actions_supported {
                    self.pending.insert(id.0, request);
                }
                Ok(UpdateNotificationOutcome::Sent)
            },
            Err(e) => Err(UpdateNotificationError::Notification(e)),
        }
    }

    /// Takes the request of the notification `id` out of those awaiting an
    /// answer.
    pub fn take_pending(&mut self, id: NotificationId) -> (r: Option<UpdateNotificationRequest>)
        ensures
            final(self).pending_view() == old(self).pending_view().remove(id.0),
            match r {
                Some(req) => old(self).pending_view().contains_key(id.0)
                    && old(self).pending_view()[id.0] == req,
                None => !old(self).pending_view().contains_key(id.0),
            },
    {
        self.pending.remove(&id.0)
    }
}

impl<N: Notifier, O: ReleaseOpener> SessionUpdateNotificationDispatcher<N, O> {
    /// Shows the notification for `request`. When it is shown with a
    /// button, the request awaits an answer under the id the server gave.
    pub fn show_update_notification(&mut self, request: UpdateNotificationRequest) -> (r: Result<
        UpdateNotificationOutcome,
        UpdateNotificationError,
    >)
        ensures
            r is Ok ==> final(self).pending_view() == old(self).pending_view() || exists|id: u32|
                final(self).pending_view() == old(self).pending_view().insert(id, request),
            r is Err ==> final(self).pending_view() == old(self).pending_view(),
            r is Ok ==> r == Ok::<UpdateNotificationOutcome, UpdateNotificationError>(
                UpdateNotificationOutcome::Sent,
            ),
            r matches Err(e) ==> e is Notification,
    {
        let capabilities = match self.notifier.capabilities() {
            Ok(c) => c,
            Err(e) => return Err(UpdateNotificationError::Notification(e)),
        };
        let notification = request.notification(capabilities.actions);
        let notified = self.notifier.notify(&notification);
        self.record_shown(request, capabilities.actions, notified)
    }

    /// Answers a signal about a notification: the button of a pending
    /// update notification opens its release page; a closed one is
    /// forgotten. Either way the notification no longer awaits an answer.
    pub fn handle_notification_signal(&mut self, signal: NotificationSignal) -> (r: Result<
        Option<SessionNotificationEvent>,
        UpdateNotificationError,
    >)
        ensures
            match signal {
                NotificationSignal::ActionInvoked { id, action_key } => {
                    &&& final(self).pending_view() == old(self).pending_view().remove(id.0)
                    &&& !old(self).pending_view().contains_key(id.0) ==> r == Ok::<
                        Option<SessionNotificationEvent>,
                        UpdateNotificationError,
                    >(None)
                    &&& old(self).pending_view().contains_key(id.0) && action_key@
                        != VIEW_RELEASE_ACTION_KEY@ ==> r == Ok::<
                        Option<SessionNotificationEvent>,
                        UpdateNotificationError,
                    >(Some(SessionNotificationEvent::UnknownAction))
                    &&& old(self).pending_view().contains_key(id.0) && action_key@
                        == VIEW_RELEASE_ACTION_KEY@ ==> r is Err || r == Ok::<
                        Option<SessionNotificationEvent>,
                        UpdateNotificationError,
                    >(Some(SessionNotificationEvent::ReleaseOpened))
                },
                NotificationSignal::Closed { id, .. } => {
                    &&& final(self).pending_view() == old(self).pending_view().remove(id.0)
                    &&& r == Ok::<Option<SessionNotificationEvent>, UpdateNotificationError>(
                        if old(self).pending_view().contains_key(id.0) {
                            Some(SessionNotificationEvent::Closed)
                        } else {
                            None
                        },
                    )
                },
            },
    {
        match signal {
            NotificationSignal::ActionInvoked { id, action_key } => {
                let request = match self.take_pending(id) {
                    Some(request) => request,
                    None => return Ok(None),
                };
                if str_eq(action_key.as_str(), VIEW_RELEASE_ACTION_KEY) {
                    match self.opener.open_release(request.release_url()) {
                        Ok(()) => Ok(Some(SessionNotificationEvent::ReleaseOpened)),
                        Err(e) => Err(e),
                    }
                } else {
                    Ok(Some(SessionNotificationEvent::UnknownAction))
                }
            },
            NotificationSignal::Closed { id, .. } => {
                if self.take_pending(id).is_some() {
                    Ok(Some(SessionNotificationEvent::Closed))
                } else {
                    Ok(None)
                }
            },
        }
    }

    /// Answers a signal from the bus: one that is not about a notification
    /// of the server is ignored.
    pub fn handle_bus_signal(&mut self, signal: &BusSignal) -> (r: Result<
        Option<SessionNotificationEvent>,
        UpdateNotificationError,
    >)
        ensures
            !is_action_invoked(*signal) && !is_notification_closed(*signal) ==> (r == Ok::<
                Option<SessionNotificationEvent>,
                UpdateNotificationError,
            >(None) && final(self).pending_view() == old(self).pending_view()),
            is_action_invoked(*signal) ==> {
                &&& final(self).pending_view() == old(self).pending_view().remove(
                    signal_id(*signal),
                )
                &&& !old(self).pending_view().contains_key(signal_id(*signal)) ==> r == Ok::<
                    Option<SessionNotificationEvent>,
                    UpdateNotificationError,
                >(None)
                &&& old(self).pending_view().contains_key(signal_id(*signal)) && signal_action_key(
                    *signal,
                ) != VIEW_RELEASE_ACTION_KEY@ ==> r == Ok::<
                    Option<SessionNotificationEvent>,
                    UpdateNotificationError,
                >(Some(SessionNotificationEvent::UnknownAction))
                &&& old(self).pending_view().contains_key(signal_id(*signal)) && signal_action_key(
                    *signal,
                ) == VIEW_RELEASE_ACTION_KEY@ ==> r is Err || r == Ok::<
                    Option<SessionNotificationEvent>,
                    UpdateNotificationError,
                >(Some(SessionNotificationEvent::ReleaseOpened))
            },
            is_notification_closed(*signal) ==> {
                &&& final(self).pending_view() == old(self).pending_view().remove(
                    signal_id(*signal),
                )
                &&& r == Ok::<Option<SessionNotificationEvent>, UpdateNotificationError>(
                    if old(self).pending_view().contains_key(signal_id(*signal)) {
                        Some(SessionNotificationEvent::Closed)
                    } else {
                        None
                    },
                )
            },
    {
        proof {
            reveal_strlit("ActionInvoked");
            reveal_strlit("NotificationClosed");
            assert("ActionInvoked"@.len() == 13);
            assert("NotificationClosed"@.len() == 18);
        }
        match parse_notification_signal(signal) {
            Some(parsed) => self.handle_notification_signal(parsed),
            None => Ok(None),
        }
    }

    /// The `ShowUpdateNotification` method of the session service: the
    /// outcome's name, or the text of the error it fails with.
    pub fn show_update_notification_method(
        &mut self,
        check_channel: String,
        current_version: String,
        current_channel: String,
        latest_version: String,
        latest_channel: String,
        release_url: String,
    ) -> (r: Result<String, String>)
        ensures
            r matches Ok(outcome) ==> outcome@ == "sent"@,
            !fields_valid(
                check_channel@,
                current_version@,
                current_channel@,
                latest_version@,
                latest_channel@,
                release_url@,
            ) ==> (r matches Err(m) && final(self).pending_view() == old(self).pending_view()
                && exists|inner: Seq<char>|
                invalid_fields_message(
                    check_channel@,
                    current_version@,
                    current_channel@,
                    latest_version@,
                    latest_channel@,
                    release_url@,
                    inner,
                ) && m@ == "invalid update notification request: "@ + inner),
            fields_valid(
                check_channel@,
                current_version@,
                current_channel@,
                latest_version@,
                latest_channel@,
                release_url@,
            ) && r is Ok ==> (final(self).pending_view() == old(self).pending_view() || exists|
                id: u32,
                req: UpdateNotificationRequest,
            |
                final(self).pending_view() == old(self).pending_view().insert(id, req)
                    && request_matches_fields(
                    req@,
                    check_channel@,
                    current_version@,
                    current_channel@,
                    latest_version@,
                    latest_channel@,
                    release_url@,
                )),
            fields_valid(
                check_channel@,
                current_version@,
                current_channel@,
                latest_version@,
                latest_channel@,
                release_url@,
            ) ==> (r matches Err(m) ==> final(self).pending_view() == old(self).pending_view()
                && is_prefix_of("desktop notification service error: "@, m@)),
    {
        let ghost fields = (
            check_channel@,
            current_version@,
            current_channel@,
            latest_version@,
            latest_channel@,
            release_url@,
        );
        let request = match UpdateNotificationRequest::from_dbus_fields(
            check_channel,
            current_version,
            current_channel,
            latest_version,
            latest_channel,
            release_url,
        ) {
            Ok(request) => request,
            Err(e) => {
                let m = e.message();
                proof {
                    if let UpdateNotificationError::InvalidRequest(inner) = e {
                        assert(m@ == "invalid update notification request: "@ + inner@);
                    }
                }
                return Err(m);
            },
        };
        let ghost shown = request;
        match self.show_update_notification(request) {
            Ok(outcome) => {
                proof {
                    if self.pending_view() != old(self).pending_view() {
                        let id = choose|id: u32|
                            self.pending_view() == old(self).pending_view().insert(id, shown);
                        assert(self.pending_view() == old(self).pending_view().insert(id, shown)
                            && request_matches_fields(
                            shown@,
                            fields.0,
                            fields.1,
                            fields.2,
                            fields.3,
                            fields.4,
                            fields.5,
                        ));
                    }
                }
                Ok(String::from_str(outcome.as_str()))
            },
            Err(e) => {
                let m = e.message();
                proof {
                    if let UpdateNotificationError::Notification(ne) = e {
                        let p = "desktop notification service error: "@;
                        assert(m@.subrange(0, p.len() as int) =~= p);
                    }
                }
                Err(m)
            },
        }
    }
}

/// A notification that was shown with a button awaits an answer until the
/// first signal about it, which takes it out whatever it says; a second
/// signal about it finds nothing.
pub proof fn lemma_answered_notification_is_forgotten(
    pending: Map<u32, UpdateNotificationRequest>,
    id: u32,
    request: UpdateNotificationRequest,
)
    ensures
        pending.insert(id, request).contains_key(id),
        pending.insert(id, request)[id] == request,
        !pending.insert(id, request).remove(id).contains_key(id),
        !pending.insert(id, request).remove(id).remove(id).contains_key(id),
        forall|other: u32|
            other != id ==> (pending.insert(id, request).remove(id).contains_key(other)
                <==> pending.contains_key(other)),
{
}

} // verus!
