use lg_buddy::notifications::{
    Notification, NotificationCapabilities, NotificationCloseReason, NotificationError,
    NotificationId, NotificationSignal, Notifier, NOTIFICATION_INTERFACE, NOTIFICATION_PATH,
};
use lg_buddy::session_bus::{BusSignal, BusValue};
use lg_buddy::session_notifications::{
    check_name_reply, startup_result, valid_release_url, NameRequestReply, ReleaseOpener,
    SessionNotificationEvent, SessionServiceError, SessionUpdateNotificationDispatcher,
    StartupReport, UpdateNotificationError, UpdateNotificationOutcome, UpdateNotificationRequest,
    VIEW_RELEASE_ACTION_KEY,
};
use lg_buddy::updates::{SemVersion, UpdateChannel};
use lg_buddy::version::ReleaseChannel;
use std::cell::RefCell;

#[derive(Debug)]
struct RecordingNotifier {
    capabilities: NotificationCapabilities,
    result: Result<NotificationId, NotificationError>,
    notifications: RefCell<Vec<Notification>>,
}

impl RecordingNotifier {
    fn new(actions: bool) -> Self {
        Self {
            capabilities: NotificationCapabilities { actions },
            result: Ok(NotificationId(7)),
            notifications: RefCell::new(Vec::new()),
        }
    }

    fn failing() -> Self {
        Self {
            capabilities: NotificationCapabilities { actions: true },
            result: Err(NotificationError::Transport("bus unavailable".to_string())),
            notifications: RefCell::new(Vec::new()),
        }
    }

    fn notifications(&self) -> Vec<Notification> {
        self.notifications.borrow().clone()
    }
}

impl Notifier for RecordingNotifier {
    fn capabilities(&self) -> Result<NotificationCapabilities, NotificationError> {
        Ok(self.capabilities)
    }

    fn notify(&self, notification: &Notification) -> Result<NotificationId, NotificationError> {
        self.notifications.borrow_mut().push(notification.clone());
        self.result.clone()
    }
}

#[derive(Debug, Default)]
struct RecordingOpener {
    opened: RefCell<Vec<String>>,
    fail: bool,
}

impl RecordingOpener {
    fn failing() -> Self {
        Self {
            opened: RefCell::new(Vec::new()),
            fail: true,
        }
    }

    fn opened(&self) -> Vec<String> {
        self.opened.borrow().clone()
    }
}

impl ReleaseOpener for RecordingOpener {
    fn open_release(&self, url: &str) -> Result<(), UpdateNotificationError> {
        self.opened.borrow_mut().push(url.to_string());
        if self.fail {
            Err(UpdateNotificationError::OpenRelease {
                url: url.to_string(),
                message: "open failed".to_string(),
            })
        } else {
            Ok(())
        }
    }
}

fn request() -> UpdateNotificationRequest {
    UpdateNotificationRequest::new(
        UpdateChannel::Stable,
        SemVersion::parse("1.1.0").unwrap(),
        ReleaseChannel::Stable,
        SemVersion::parse("1.1.1").unwrap(),
        UpdateChannel::Stable,
        "https://github.test/releases/tag/v1.1.1".to_string(),
    )
    .unwrap()
}

#[test]
fn request_round_trips_through_dbus_fields() {
    let request = request();
    let fields = request.to_dbus_fields();

    let parsed = UpdateNotificationRequest::from_dbus_fields(
        fields.0, fields.1, fields.2, fields.3, fields.4, fields.5,
    )
    .expect("request should parse");

    assert_eq!(parsed, request);
}

#[test]
fn invalid_request_fields_are_rejected() {
    assert!(UpdateNotificationRequest::from_dbus_fields(
        "nightly".to_string(),
        "1.1.0".to_string(),
        "stable".to_string(),
        "1.1.1".to_string(),
        "stable".to_string(),
        "https://github.test/releases/tag/v1.1.1".to_string(),
    )
    .is_err());
    assert!(UpdateNotificationRequest::from_dbus_fields(
        "stable".to_string(),
        "not-semver".to_string(),
        "stable".to_string(),
        "1.1.1".to_string(),
        "stable".to_string(),
        "https://github.test/releases/tag/v1.1.1".to_string(),
    )
    .is_err());
    assert!(UpdateNotificationRequest::from_dbus_fields(
        "stable".to_string(),
        "1.1.0".to_string(),
        "stable".to_string(),
        "1.1.1".to_string(),
        "stable".to_string(),
        "".to_string(),
    )
    .is_err());
}

#[test]
fn action_capable_notification_attaches_view_release_button() {
    let notifier = RecordingNotifier::new(true);
    let opener = RecordingOpener::default();
    let mut dispatcher = SessionUpdateNotificationDispatcher::new(notifier, opener);

    let outcome = dispatcher
        .show_update_notification(request())
        .expect("notification should send");

    assert_eq!(outcome, UpdateNotificationOutcome::Sent);
    let notifications = dispatcher.notifier.notifications();
    assert_eq!(notifications.len(), 1);
    assert_eq!(notifications[0].actions.len(), 1);
    assert_eq!(notifications[0].actions[0].key, VIEW_RELEASE_ACTION_KEY);
    assert_eq!(dispatcher.pending_len(), 1);
}

#[test]
fn passive_notification_does_not_store_pending_action_state() {
    let notifier = RecordingNotifier::new(false);
    let opener = RecordingOpener::default();
    let mut dispatcher = SessionUpdateNotificationDispatcher::new(notifier, opener);

    dispatcher
        .show_update_notification(request())
        .expect("notification should send");

    assert!(dispatcher.notifier.notifications()[0].actions.is_empty());
    assert_eq!(dispatcher.pending_len(), 0);
}

#[test]
fn notification_failure_does_not_store_pending_state() {
    let notifier = RecordingNotifier::failing();
    let opener = RecordingOpener::default();
    let mut dispatcher = SessionUpdateNotificationDispatcher::new(notifier, opener);

    dispatcher
        .show_update_notification(request())
        .expect_err("notification should fail");

    assert_eq!(dispatcher.pending_len(), 0);
}

#[test]
fn view_release_action_opens_url_and_clears_pending_state() {
    let notifier = RecordingNotifier::new(true);
    let opener = RecordingOpener::default();
    let mut dispatcher = SessionUpdateNotificationDispatcher::new(notifier, opener);
    dispatcher
        .show_update_notification(request())
        .expect("notification should send");

    dispatcher
        .handle_notification_signal(NotificationSignal::ActionInvoked {
            id: NotificationId(7),
            action_key: VIEW_RELEASE_ACTION_KEY.to_string(),
        })
        .expect("action should succeed");

    assert_eq!(
        dispatcher.opener.opened(),
        vec!["https://github.test/releases/tag/v1.1.1".to_string()]
    );
    assert_eq!(dispatcher.pending_len(), 0);
}

#[test]
fn opener_failure_clears_pending_state_and_reports_error() {
    let notifier = RecordingNotifier::new(true);
    let opener = RecordingOpener::failing();
    let mut dispatcher = SessionUpdateNotificationDispatcher::new(notifier, opener);
    dispatcher
        .show_update_notification(request())
        .expect("notification should send");

    dispatcher
        .handle_notification_signal(NotificationSignal::ActionInvoked {
            id: NotificationId(7),
            action_key: VIEW_RELEASE_ACTION_KEY.to_string(),
        })
        .expect_err("open should fail");

    assert_eq!(dispatcher.pending_len(), 0);
}

#[test]
fn closed_signal_clears_pending_state() {
    let notifier = RecordingNotifier::new(true);
    let opener = RecordingOpener::default();
    let mut dispatcher = SessionUpdateNotificationDispatcher::new(notifier, opener);
    dispatcher
        .show_update_notification(request())
        .expect("notification should send");

    dispatcher
        .handle_notification_signal(NotificationSignal::Closed {
            id: NotificationId(7),
            reason: NotificationCloseReason::Dismissed,
        })
        .expect("close should succeed");

    assert_eq!(dispatcher.pending_len(), 0);
}

#[test]
fn second_signal_about_a_notification_finds_nothing() {
    let mut dispatcher =
        SessionUpdateNotificationDispatcher::new(RecordingNotifier::new(true), RecordingOpener::default());
    dispatcher.show_update_notification(request()).unwrap();
    assert!(dispatcher.is_pending(NotificationId(7)));
    let first = dispatcher
        .handle_notification_signal(NotificationSignal::ActionInvoked {
            id: NotificationId(7),
            action_key: "dismiss".to_string(),
        })
        .unwrap();
    assert_eq!(first, Some(SessionNotificationEvent::UnknownAction));
    let second = dispatcher
        .handle_notification_signal(NotificationSignal::Closed {
            id: NotificationId(7),
            reason: NotificationCloseReason::Expired,
        })
        .unwrap();
    assert_eq!(second, None);
    assert!(dispatcher.opener.opened().is_empty());
}

#[test]
fn bus_signals_reach_the_dispatcher() {
    let mut dispatcher =
        SessionUpdateNotificationDispatcher::new(RecordingNotifier::new(true), RecordingOpener::default());
    dispatcher.show_update_notification(request()).unwrap();
    let unrelated = BusSignal::new("/elsewhere", NOTIFICATION_INTERFACE, "NotificationClosed")
        .with_body(vec![BusValue::U32(7), BusValue::U32(1)]);
    assert_eq!(dispatcher.handle_bus_signal(&unrelated), Ok(None));
    assert_eq!(dispatcher.pending_len(), 1);
    let closed = BusSignal::new(NOTIFICATION_PATH, NOTIFICATION_INTERFACE, "NotificationClosed")
        .with_body(vec![BusValue::U32(7), BusValue::U32(1)]);
    assert_eq!(
        dispatcher.handle_bus_signal(&closed),
        Ok(Some(SessionNotificationEvent::Closed))
    );
    assert_eq!(dispatcher.pending_len(), 0);
}

#[test]
fn show_method_answers_outcome_or_error_text() {
    let mut dispatcher =
        SessionUpdateNotificationDispatcher::new(RecordingNotifier::new(false), RecordingOpener::default());
    let ok = dispatcher.show_update_notification_method(
        "stable".to_string(),
        "1.1.0".to_string(),
        "stable".to_string(),
        "1.1.1".to_string(),
        "stable".to_string(),
        "https://github.test/releases/tag/v1.1.1".to_string(),
    );
    assert_eq!(ok, Ok("sent".to_string()));
    let bad = dispatcher.show_update_notification_method(
        "stable".to_string(),
        "1.1.0".to_string(),
        "beta".to_string(),
        "1.1.1".to_string(),
        "stable".to_string(),
        "https://github.test/releases/tag/v1.1.1".to_string(),
    );
    assert_eq!(
        bad,
        Err("invalid update notification request: invalid release channel `beta`".to_string())
    );
}

#[test]
fn notification_text_names_both_versions() {
    let n = request().notification(false);
    assert_eq!(n.summary, "LG Buddy update available");
    assert_eq!(
        n.body,
        "LG Buddy 1.1.1 (stable) is available.\nCurrent: 1.1.0 (stable)\nhttps://github.test/releases/tag/v1.1.1"
    );
    assert!(n.actions.is_empty());
    let with_button = request().notification(true);
    assert_eq!(with_button.actions[0].label, "View Release");
}

#[test]
fn release_urls_must_be_http() {
    assert!(valid_release_url(" https://x "));
    assert!(valid_release_url("http://x"));
    assert!(!valid_release_url("ftp://x"));
    assert!(!valid_release_url("   "));
    let err = UpdateNotificationRequest::new(
        UpdateChannel::Stable,
        SemVersion::parse("1.0.0").unwrap(),
        ReleaseChannel::Dev,
        SemVersion::parse("1.0.1").unwrap(),
        UpdateChannel::Stable,
        "file:///x".to_string(),
    )
    .unwrap_err();
    assert_eq!(
        err.message(),
        "invalid update notification request: invalid release URL `file:///x`"
    );
}

#[test]
fn outcome_and_service_errors() {
    assert_eq!(UpdateNotificationOutcome::parse("sent"), Ok(UpdateNotificationOutcome::Sent));
    assert_eq!(
        UpdateNotificationOutcome::parse("queued").unwrap_err().message(),
        "could not request update notification from LG Buddy session service: LG Buddy session service returned unknown update notification outcome `queued`"
    );
    assert!(check_name_reply(NameRequestReply::PrimaryOwner).is_ok());
    assert!(check_name_reply(NameRequestReply::AlreadyOwner).is_ok());
    let err = check_name_reply(NameRequestReply::Exists).unwrap_err();
    assert_eq!(
        err.message(),
        "could not own LG Buddy session D-Bus name `io.github.Staphylococcus.LGBuddy`: Exists"
    );
    assert_eq!(startup_result(StartupReport::Ready), Ok(()));
    assert_eq!(
        startup_result(StartupReport::TimedOut),
        Err(SessionServiceError::StartupTimeout)
    );
    assert_eq!(
        startup_result(StartupReport::Disconnected)
            .unwrap_err()
            .message(),
        "LG Buddy session D-Bus service error: session service thread exited before startup completed"
    );
    assert_eq!(
        SessionServiceError::Poisoned.message(),
        "LG Buddy session notification state lock was poisoned"
    );
}

#[test]
fn invalid_versions_carry_semvers_reason() {
    let reason = semver::Version::parse("not-semver").unwrap_err().to_string();
    let err = UpdateNotificationRequest::from_dbus_fields(
        "stable".to_string(),
        "not-semver".to_string(),
        "stable".to_string(),
        "1.1.1".to_string(),
        "stable".to_string(),
        "https://github.test/releases/tag/v1.1.1".to_string(),
    )
    .unwrap_err();
    assert_eq!(
        err,
        UpdateNotificationError::InvalidRequest(format!(
            "invalid current version `not-semver`: {reason}"
        ))
    );
    let reason = semver::Version::parse("1.x").unwrap_err().to_string();
    let err = UpdateNotificationRequest::from_dbus_fields(
        "stable".to_string(),
        "1.1.0".to_string(),
        "stable".to_string(),
        "1.x".to_string(),
        "stable".to_string(),
        "https://github.test/releases/tag/v1.1.1".to_string(),
    )
    .unwrap_err();
    assert_eq!(
        err,
        UpdateNotificationError::InvalidRequest(format!("invalid latest version `1.x`: {reason}"))
    );
}
