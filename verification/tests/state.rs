use lg_buddy::state::{
    is_older_than, outcome_file_content, parse_outcome_file, recorded_outcome, resolve_state_dir,
    RuntimeDirSources, ScreenOwnershipMarker, StateDirError, StateScope, SystemSleepCycleOutcome,
    SystemSleepCycleState, SCREEN_OFF_BY_US_MARKER, SYSTEM_SLEEP_ATTEMPTED_MARKER,
    SYSTEM_SLEEP_ATTEMPT_LOCK, SYSTEM_SLEEP_CYCLE_STATE,
};

#[test]
fn system_scope_uses_default_path() {
    let path = resolve_state_dir(StateScope::System, RuntimeDirSources::default())
        .expect("resolve system runtime directory");

    assert_eq!(path, "/run/lg_buddy");
}

#[test]
fn system_scope_respects_override() {
    let path = resolve_state_dir(
        StateScope::System,
        RuntimeDirSources {
            system_override: Some("/tmp/lg-buddy-system"),
            ..RuntimeDirSources::default()
        },
    )
    .expect("resolve overridden system runtime directory");

    assert_eq!(path, "/tmp/lg-buddy-system");
}

#[test]
fn session_scope_prefers_explicit_override() {
    let path = resolve_state_dir(
        StateScope::Session,
        RuntimeDirSources {
            session_override: Some("/tmp/lg-buddy-session"),
            xdg_runtime_dir: Some("/tmp/xdg-runtime"),
            uid: Some(1000),
            ..RuntimeDirSources::default()
        },
    )
    .expect("resolve overridden session runtime directory");

    assert_eq!(path, "/tmp/lg-buddy-session");
}

#[test]
fn session_scope_uses_xdg_runtime_dir() {
    let path = resolve_state_dir(
        StateScope::Session,
        RuntimeDirSources {
            xdg_runtime_dir: Some("/tmp/xdg-runtime"),
            uid: Some(1000),
            ..RuntimeDirSources::default()
        },
    )
    .expect("resolve session runtime directory from xdg");

    assert_eq!(path, "/tmp/xdg-runtime/lg_buddy");
}

#[test]
fn session_scope_falls_back_to_uid() {
    let path = resolve_state_dir(
        StateScope::Session,
        RuntimeDirSources {
            uid: Some(1000),
            ..RuntimeDirSources::default()
        },
    )
    .expect("resolve session runtime directory from uid");

    assert_eq!(path, "/run/user/1000/lg_buddy");
}

#[test]
fn session_scope_requires_override_xdg_or_uid() {
    let err = resolve_state_dir(StateScope::Session, RuntimeDirSources::default())
        .expect_err("session path without inputs should fail");

    assert_eq!(err, StateDirError::SessionRuntimeUnavailable);
}

#[test]
fn state_dir_error_message_names_the_sources() {
    assert_eq!(
        StateDirError::SessionRuntimeUnavailable.message(),
        "could not resolve a session runtime directory from override, XDG_RUNTIME_DIR, or uid"
    );
}

#[test]
fn system_sleep_attempt_state_uses_expected_files() {
    let state = SystemSleepCycleState::new("/tmp/lg-buddy-state".to_string());

    assert_eq!(
        state.marker_path(),
        format!("/tmp/lg-buddy-state/{SYSTEM_SLEEP_ATTEMPTED_MARKER}")
    );
    assert_eq!(
        state.lock_path(),
        format!("/tmp/lg-buddy-state/{SYSTEM_SLEEP_ATTEMPT_LOCK}")
    );
    assert_eq!(
        state.cycle_path(),
        format!("/tmp/lg-buddy-state/{SYSTEM_SLEEP_CYCLE_STATE}")
    );
    assert_eq!(state.state_dir(), "/tmp/lg-buddy-state");
}

#[test]
fn sleep_cycle_state_for_scope_follows_runtime_dir() {
    let state = SystemSleepCycleState::for_scope(
        StateScope::Session,
        RuntimeDirSources {
            xdg_runtime_dir: Some("/run/user/42/"),
            ..RuntimeDirSources::default()
        },
    )
    .expect("session state");
    assert_eq!(state.marker_path(), "/run/user/42/lg_buddy/system_sleep_attempted");
    assert_eq!(state.state_dir(), "/run/user/42/lg_buddy");

    let err = SystemSleepCycleState::for_scope(StateScope::Session, RuntimeDirSources::default())
        .expect_err("no session directory");
    assert_eq!(err, StateDirError::SessionRuntimeUnavailable);
}

#[test]
fn screen_marker_lives_in_state_dir() {
    let marker = ScreenOwnershipMarker::new("/tmp/lg-buddy-marker".to_string());
    assert_eq!(
        marker.path(),
        format!("/tmp/lg-buddy-marker/{SCREEN_OFF_BY_US_MARKER}")
    );
    assert_eq!(marker.state_dir(), "/tmp/lg-buddy-marker");

    let system = ScreenOwnershipMarker::for_scope(StateScope::System, RuntimeDirSources::default())
        .expect("system marker");
    assert_eq!(system.path(), "/run/lg_buddy/screen_off_by_us");
}

#[test]
fn state_dir_of_a_relative_directory() {
    let marker = ScreenOwnershipMarker::new("state".to_string());
    assert_eq!(marker.path(), "state/screen_off_by_us");
    assert_eq!(marker.state_dir(), "state");

    let marker = ScreenOwnershipMarker::new(String::new());
    assert_eq!(marker.path(), "screen_off_by_us");
    assert_eq!(marker.state_dir(), "");
}

#[test]
fn outcome_names_round_trip() {
    for outcome in [
        SystemSleepCycleOutcome::InProgress,
        SystemSleepCycleOutcome::Completed,
        SystemSleepCycleOutcome::RetryableTransportFailure,
    ] {
        assert_eq!(
            SystemSleepCycleOutcome::from_name(outcome.as_str()),
            Some(outcome)
        );
        assert_eq!(
            parse_outcome_file(&outcome_file_content(outcome)),
            Ok(outcome)
        );
    }
    assert_eq!(SystemSleepCycleOutcome::from_name("maybe"), None);
}

#[test]
fn outcome_file_content_is_a_key_line() {
    assert_eq!(
        outcome_file_content(SystemSleepCycleOutcome::InProgress),
        "outcome=in_progress\n"
    );
    assert_eq!(
        outcome_file_content(SystemSleepCycleOutcome::RetryableTransportFailure),
        "outcome=retryable_transport_failure\n"
    );
}

#[test]
fn outcome_file_reading_finds_the_key_line() {
    assert_eq!(recorded_outcome("outcome=completed\n"), "completed");
    assert_eq!(recorded_outcome("first\noutcome=completed\r\nlast"), "completed");
    assert_eq!(recorded_outcome("  completed \n"), "completed");
    assert_eq!(recorded_outcome("outcome=completed\r"), "completed\r");
    assert_eq!(recorded_outcome(""), "");
    assert_eq!(
        parse_outcome_file("note\noutcome=in_progress\n"),
        Ok(SystemSleepCycleOutcome::InProgress)
    );
    assert_eq!(
        parse_outcome_file("completed"),
        Ok(SystemSleepCycleOutcome::Completed)
    );
}

#[test]
fn system_sleep_cycle_outcome_rejects_unknown_value() {
    let err = parse_outcome_file("outcome=maybe\n").expect_err("bad cycle outcome should fail");
    assert_eq!(err.value, "maybe");
    assert_eq!(err.message(), "unknown system sleep cycle outcome `maybe`");
}

#[test]
fn staleness_compares_age_with_limit() {
    assert!(is_older_than(0, 61, 60));
    assert!(!is_older_than(0, 60, 60));
    assert!(!is_older_than(100, 50, 10));
}

#[test]
fn state_dir_is_the_directory_given() {
    let marker = ScreenOwnershipMarker::new("/tmp/lg-buddy-marker/".to_string());
    assert_eq!(marker.state_dir(), "/tmp/lg-buddy-marker");
    let marker = ScreenOwnershipMarker::new("/tmp/lg-buddy-marker//".to_string());
    assert_eq!(marker.state_dir(), "/tmp/lg-buddy-marker");
    let marker = ScreenOwnershipMarker::new("/".to_string());
    assert_eq!(marker.state_dir(), "/");
    let state = SystemSleepCycleState::new("/run/lg_buddy/".to_string());
    assert_eq!(state.state_dir(), "/run/lg_buddy");
    let state = SystemSleepCycleState::new(String::new());
    assert_eq!(state.state_dir(), "");
    let state = SystemSleepCycleState::for_scope(StateScope::System, RuntimeDirSources::default())
        .expect("system state");
    assert_eq!(state.state_dir(), "/run/lg_buddy");
}
