use lg_buddy::notifications::{
    parse_notification_signal, Notification, NotificationAction, NotificationCapabilities,
    NotificationCloseReason, NotificationDispatcher, NotificationError, NotificationId,
    NotificationRequest, NotificationSignal, NotificationTransport, Notifier,
    NOTIFICATION_INTERFACE, NOTIFICATION_PATH,
};
use lg_buddy::session_bus::{BusSignal, BusValue};
use std::cell::RefCell;

#[derive(Debug)]
struct MockNotificationTransport {
    capabilities: Result<Vec<String>, NotificationError>,
    notify_result: Result<NotificationId, NotificationError>,
    requests: RefCell<Vec<NotificationRequest>>,
}

impl MockNotificationTransport {
    fn new(
        capabilities: Result<Vec<String>, NotificationError>,
        notify_result: Result<NotificationId, NotificationError>,
    ) -> Self {
        Self {
            capabilities,
            notify_result,
            requests: RefCell::new(Vec::new()),
        }
    }

    fn requests(&self) -> Vec<NotificationRequest> {
        self.requests.borrow().clone()
    }
}

impl NotificationTransport for MockNotificationTransport {
    fn get_capabilities(&self) -> Result<Vec<String>, NotificationError> {
        self.capabilities.clone()
    }

    fn notify(&self, request: NotificationRequest) -> Result<NotificationId, NotificationError> {
        self.requests.borrow_mut().push(request);
        self.notify_result.clone()
    }
}

#[test]
fn passive_notification_request_serializes_empty_action_list() {
    let transport = MockNotificationTransport::new(Ok(Vec::new()), Ok(NotificationId(7)));
    let dispatcher = NotificationDispatcher::new(&transport);

    let id = dispatcher
        .notify(&Notification::new("LG TV", "Brightness set to 65%"))
        .expect("notify should succeed");

    assert_eq!(id, NotificationId(7));
    assert_eq!(
        transport.requests(),
        vec![NotificationRequest {
            app_name: "LG Buddy".to_string(),
            replaces_id: 0,
            app_icon: String::new(),
            summary: "LG TV".to_string(),
            body: "Brightness set to 65%".to_string(),
            actions: Vec::new(),
            expire_timeout_ms: -1,
        }]
    );
}

#[test]
fn action_list_serializes_as_alternating_key_label_strings() {
    let transport = MockNotificationTransport::new(Ok(Vec::new()), Ok(NotificationId(9)));
    let dispatcher = NotificationDispatcher::new(&transport);
    let mut notification = Notification::new("LG Buddy update available", "Update body");
    notification.actions = vec![
        NotificationAction {
            key: "open".to_string(),
            label: "Open release".to_string(),
        },
        NotificationAction {
            key: "never".to_string(),
            label: "Never notify again".to_string(),
        },
    ];

    dispatcher
        .notify(&notification)
        .expect("notify should succeed");

    assert_eq!(
        transport.requests()[0].actions,
        vec![
            "open".to_string(),
            "Open release".to_string(),
            "never".to_string(),
            "Never notify again".to_string(),
        ]
    );
}

#[test]
fn capabilities_report_action_support_when_present() {
    let transport = MockNotificationTransport::new(
        Ok(vec!["body".to_string(), "actions".to_string()]),
        Ok(NotificationId(1)),
    );
    let dispatcher = NotificationDispatcher::new(transport);

    let capabilities = dispatcher
        .capabilities()
        .expect("capabilities should succeed");

    assert!(capabilities.actions);
}

#[test]
fn capabilities_report_no_action_support_when_absent() {
    let transport =
        MockNotificationTransport::new(Ok(vec!["body".to_string()]), Ok(NotificationId(1)));
    let dispatcher = NotificationDispatcher::new(transport);

    let capabilities = dispatcher
        .capabilities()
        .expect("capabilities should succeed");

    assert!(!capabilities.actions);
}

#[test]
fn transport_error_maps_to_notification_error() {
    let transport = MockNotificationTransport::new(
        Ok(Vec::new()),
        Err(NotificationError::Transport("bus unavailable".to_string())),
    );
    let dispatcher = NotificationDispatcher::new(transport);

    let err = dispatcher
        .notify(&Notification::new("LG TV", "Brightness set to 65%"))
        .expect_err("notify should fail");

    assert_eq!(
        err,
        NotificationError::Transport("bus unavailable".to_string())
    );
    assert_eq!(
        err.message(),
        "desktop notification service error: bus unavailable"
    );
}

#[test]
fn action_invoked_signal_decodes_notification_id_and_action_key() {
    let signal = BusSignal::new(NOTIFICATION_PATH, NOTIFICATION_INTERFACE, "ActionInvoked")
        .with_body(vec![
            BusValue::U32(7),
            BusValue::String("view-release".to_string()),
        ]);

    assert_eq!(
        parse_notification_signal(&signal),
        Some(NotificationSignal::ActionInvoked {
            id: NotificationId(7),
            action_key: "view-release".to_string(),
        })
    );
}

#[test]
fn notification_closed_signal_decodes_notification_id_and_reason() {
    let signal = BusSignal::new(NOTIFICATION_PATH, NOTIFICATION_INTERFACE, "NotificationClosed")
        .with_body(vec![BusValue::U32(7), BusValue::U32(2)]);

    assert_eq!(
        parse_notification_signal(&signal),
        Some(NotificationSignal::Closed {
            id: NotificationId(7),
            reason: NotificationCloseReason::Dismissed,
        })
    );
}

#[test]
fn notification_signal_parser_ignores_unrelated_or_malformed_signals() {
    let unrelated = BusSignal::new("/elsewhere", NOTIFICATION_INTERFACE, "ActionInvoked")
        .with_body(vec![BusValue::U32(7), BusValue::String("open".to_string())]);
    let malformed = BusSignal::new(NOTIFICATION_PATH, NOTIFICATION_INTERFACE, "ActionInvoked")
        .with_body(vec![BusValue::U32(7)]);

    assert_eq!(parse_notification_signal(&unrelated), None);
    assert_eq!(parse_notification_signal(&malformed), None);
}

#[test]
fn close_reasons_follow_the_specification_codes() {
    assert_eq!(NotificationCloseReason::from_raw(1), NotificationCloseReason::Expired);
    assert_eq!(NotificationCloseReason::from_raw(2), NotificationCloseReason::Dismissed);
    assert_eq!(NotificationCloseReason::from_raw(3), NotificationCloseReason::ClosedByCall);
    assert_eq!(NotificationCloseReason::from_raw(4), NotificationCloseReason::Undefined);
    assert_eq!(NotificationCloseReason::from_raw(0), NotificationCloseReason::Other(0));
    assert_eq!(NotificationCloseReason::from_raw(9), NotificationCloseReason::Other(9));
}

#[test]
fn closed_signal_with_string_reason_is_ignored() {
    let signal = BusSignal::new(NOTIFICATION_PATH, NOTIFICATION_INTERFACE, "NotificationClosed")
        .with_body(vec![BusValue::U32(7), BusValue::String("2".to_string())]);
    assert_eq!(parse_notification_signal(&signal), None);
    let other_member = BusSignal::new(NOTIFICATION_PATH, NOTIFICATION_INTERFACE, "Notify")
        .with_body(vec![BusValue::U32(7), BusValue::U32(2)]);
    assert_eq!(parse_notification_signal(&other_member), None);
}

#[test]
fn capability_names_are_matched_exactly() {
    assert!(
        !NotificationCapabilities::from_capability_names(vec!["action".to_string()]).actions
    );
    assert!(!NotificationCapabilities::from_capability_names(Vec::new()).actions);
    assert!(
        NotificationCapabilities::from_capability_names(vec!["actions".to_string()]).actions
    );
}

#[test]
fn new_notification_has_defaults() {
    let n = Notification::new("s", "b");
    assert_eq!(n.app_name, "LG Buddy");
    assert!(n.actions.is_empty());
    assert_eq!(n.expire_timeout_ms, -1);
    let request = NotificationRequest::from_notification(&n);
    assert_eq!(request.summary, "s");
    assert_eq!(request.body, "b");
}
