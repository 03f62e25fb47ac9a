use lg_buddy::settings::{
    settings_registry, ApplyStrategy, SettingKey, SettingMutability, SettingOperation,
    SettingType, SettingValue, SettingsError,
};

#[test]
fn registry_metadata_is_internally_valid() {
    settings_registry().validate().unwrap();
}

#[test]
fn registry_contains_initial_settings() {
    let registry = settings_registry();
    let keys: Vec<&str> = registry
        .all()
        .iter()
        .map(|definition| definition.key_name())
        .collect();

    assert_eq!(
        keys,
        vec![
            "screen.backend",
            "screen.idle_timeout",
            "screen.restore_policy",
            "system.sleep_wake_policy",
        ]
    );
}

#[test]
fn registry_maps_public_keys_to_storage_keys() {
    let registry = settings_registry();
    let mappings: Vec<(&str, &str)> = registry
        .all()
        .iter()
        .map(|definition| (definition.key_name(), definition.storage_key()))
        .collect();

    assert_eq!(
        mappings,
        vec![
            ("screen.backend", "screen_backend"),
            ("screen.idle_timeout", "screen_idle_timeout"),
            ("screen.restore_policy", "screen_restore_policy"),
            ("system.sleep_wake_policy", "system_sleep_wake_policy"),
        ]
    );
}

#[test]
fn key_parser_accepts_supported_dotted_names() {
    for key in [
        "screen.backend",
        "screen.idle_timeout",
        "system.sleep_wake_policy",
    ] {
        assert_eq!(SettingKey::parse(key).unwrap().as_str(), key);
    }
}

#[test]
fn key_parser_rejects_invalid_names() {
    for key in [
        "",
        "screen",
        ".screen.backend",
        "screen.",
        "screen..backend",
        "Screen.backend",
        "screen-backend",
        "screen backend",
    ] {
        assert!(
            matches!(
                SettingKey::parse(key),
                Err(SettingsError::InvalidKey { .. })
            ),
            "expected invalid key for `{key}`"
        );
    }
}

#[test]
fn lookup_returns_definitions_by_key() {
    let registry = settings_registry();
    let definition = registry.get_by_name("screen.idle_timeout").unwrap();

    assert_eq!(definition.key_name(), "screen.idle_timeout");
    assert_eq!(definition.storage_key(), "screen_idle_timeout");
    assert_eq!(definition.default_value(), SettingValue::Integer(300));
    assert_eq!(definition.mutability(), SettingMutability::ReadWrite);
}

#[test]
fn lookup_rejects_unknown_keys() {
    assert!(matches!(
        settings_registry().get_by_name("screen.unknown"),
        Err(SettingsError::UnknownKey(key)) if key == "screen.unknown"
    ));
}

#[test]
fn screen_backend_values_are_validated() {
    let registry = settings_registry();
    let definition = registry.get_by_name("screen.backend").unwrap();

    for value in ["auto", "gnome", "swayidle"] {
        assert_eq!(definition.parse_value(value), Ok(SettingValue::Enum(value)));
    }

    assert!(matches!(
        definition.parse_value("kde"),
        Err(SettingsError::InvalidValue { .. })
    ));
}

#[test]
fn screen_restore_policy_accepts_legacy_alias() {
    let registry = settings_registry();
    let definition = registry.get_by_name("screen.restore_policy").unwrap();

    assert_eq!(
        definition.parse_value("conservative"),
        Ok(SettingValue::Enum("conservative"))
    );
    assert_eq!(
        definition.parse_value("marker_only"),
        Ok(SettingValue::Enum("conservative"))
    );
    assert_eq!(
        definition.parse_value("aggressive"),
        Ok(SettingValue::Enum("aggressive"))
    );
}

#[test]
fn integer_values_are_range_checked() {
    let registry = settings_registry();
    let definition = registry.get_by_name("screen.idle_timeout").unwrap();

    assert_eq!(definition.parse_value("1"), Ok(SettingValue::Integer(1)));
    assert_eq!(
        definition.parse_value("86400"),
        Ok(SettingValue::Integer(86_400))
    );

    for value in ["0", "86401", "-1", "abc"] {
        assert!(
            matches!(
                definition.parse_value(value),
                Err(SettingsError::InvalidValue { .. })
            ),
            "expected invalid idle timeout for `{value}`"
        );
    }
}

#[test]
fn mutability_controls_supported_operations() {
    let registry = settings_registry();
    let screen_definition = registry.get_by_name("screen.backend").unwrap();
    assert_eq!(
        screen_definition.supported_operations(),
        &[
            SettingOperation::Get,
            SettingOperation::Describe,
            SettingOperation::SetValue,
            SettingOperation::Unset,
        ]
    );
    screen_definition
        .ensure_operation_supported(SettingOperation::SetValue)
        .unwrap();

    let sleep_definition = registry.get_by_name("system.sleep_wake_policy").unwrap();
    assert_eq!(sleep_definition.mutability(), SettingMutability::ReadOnly);
    assert_eq!(
        sleep_definition.supported_operations(),
        &[SettingOperation::Get, SettingOperation::Describe]
    );
    assert_eq!(
        sleep_definition.ensure_operation_supported(SettingOperation::SetValue),
        Err(SettingsError::UnsupportedOperation {
            key: "system.sleep_wake_policy".to_string(),
            operation: SettingOperation::SetValue,
        })
    );
}

#[test]
fn definitions_expose_type_and_apply_metadata() {
    let registry = settings_registry();
    let idle_timeout = registry.get_by_name("screen.idle_timeout").unwrap();
    assert!(matches!(idle_timeout.value_type(), SettingType::Integer(_)));
    assert_eq!(
        idle_timeout.apply_strategy(),
        ApplyStrategy::RestartUserScreenService
    );

    let sleep_policy = registry.get_by_name("system.sleep_wake_policy").unwrap();
    assert!(matches!(sleep_policy.value_type(), SettingType::Enum(_)));
    assert_eq!(
        sleep_policy.apply_strategy(),
        ApplyStrategy::PendingLifecycleService
    );
}

// ---- further cases ----

#[test]
fn key_parser_reports_the_first_problem() {
    let reasons: Vec<&str> = ["", ".a.b", "a..b", "A.b", "a.", "ab"]
        .iter()
        .map(|key| match SettingKey::parse(key) {
            Err(SettingsError::InvalidKey { reason, .. }) => reason,
            other => panic!("unexpected {other:?}"),
        })
        .collect();
    assert_eq!(
        reasons,
        vec![
            "must not be empty",
            "must not contain empty segments",
            "must not contain empty segments",
            "must contain only ASCII lowercase letters, digits, underscores, and dots",
            "must not end with a dot",
            "must contain at least one dot",
        ]
    );
}

#[test]
fn invalid_value_error_names_the_expected_values() {
    let registry = settings_registry();
    let backend = registry.get_by_name("screen.backend").unwrap();
    let err = backend.parse_value("kde").unwrap_err();
    assert_eq!(
        err,
        SettingsError::InvalidValue {
            key: "screen.backend".to_string(),
            value: "kde".to_string(),
            expected: "one of auto, gnome, swayidle".to_string(),
        }
    );
    assert_eq!(
        err.message(),
        "invalid value for setting `screen.backend`: `kde`; expected one of auto, gnome, swayidle"
    );

    let timeout = registry.get_by_name("screen.idle_timeout").unwrap();
    assert_eq!(
        timeout.parse_value("0").unwrap_err(),
        SettingsError::InvalidValue {
            key: "screen.idle_timeout".to_string(),
            value: "0".to_string(),
            expected: "an integer from 1 to 86400".to_string(),
        }
    );
}

#[test]
fn integer_parsing_follows_rust_integer_syntax() {
    let registry = settings_registry();
    let timeout = registry.get_by_name("screen.idle_timeout").unwrap();
    assert_eq!(timeout.parse_value("+5"), Ok(SettingValue::Integer(5)));
    assert_eq!(timeout.parse_value("007"), Ok(SettingValue::Integer(7)));
    for value in ["", "+", "-", " 5", "5 ", "99999999999999999999", "1_000"] {
        assert!(timeout.parse_value(value).is_err(), "`{value}` should fail");
    }
}

#[test]
fn stored_values_read_back_unchanged() {
    let registry = settings_registry();
    for definition in registry.all() {
        let default = definition.default_value();
        let text = default.to_text();
        assert_eq!(definition.parse_value(&text), Ok(default));
    }
    assert_eq!(SettingValue::Integer(-42).to_text(), "-42");
}

#[test]
fn lookup_by_own_key_finds_each_definition() {
    let registry = settings_registry();
    for definition in registry.all() {
        let found = registry.get_by_name(definition.key_name()).unwrap();
        assert_eq!(found.storage_key(), definition.storage_key());
    }
}

#[test]
fn lookup_reports_invalid_keys_before_searching() {
    assert_eq!(
        settings_registry().get_by_name("Screen.backend").unwrap_err(),
        SettingsError::InvalidKey {
            key: "Screen.backend".to_string(),
            reason: "must contain only ASCII lowercase letters, digits, underscores, and dots",
        }
    );
}

#[test]
fn enum_metadata_is_exposed() {
    let registry = settings_registry();
    let policy = registry.get_by_name("screen.restore_policy").unwrap();
    match policy.value_type() {
        SettingType::Enum(t) => {
            assert_eq!(t.values(), &["conservative", "aggressive"]);
            assert_eq!(t.aliases().len(), 1);
            assert_eq!(t.aliases()[0].from(), "marker_only");
            assert_eq!(t.aliases()[0].to(), "conservative");
            assert_eq!(t.canonicalize("marker_only"), Some("conservative"));
            assert_eq!(t.canonicalize("bold"), None);
            assert!(t.validate("screen.restore_policy").is_ok());
        }
        other => panic!("unexpected {other:?}"),
    }
    assert_eq!(SettingOperation::Unset.as_str(), "unset");
    assert_eq!(SettingMutability::ReadOnly.as_str(), "read-only");
    assert_eq!(
        ApplyStrategy::PendingLifecycleService.as_str(),
        "pending-lifecycle-service"
    );
    assert_eq!(
        SettingsError::UnsupportedOperation {
            key: "a.b".to_string(),
            operation: SettingOperation::SetValue
        }
        .message(),
        "setting `a.b` does not support `set`"
    );
}

#[test]
fn parsed_values_are_canonical_and_accepted() {
    let registry = settings_registry();
    let policy = registry.get_by_name("screen.restore_policy").unwrap();
    let value = policy.parse_value("marker_only").unwrap();
    assert_eq!(
        policy.value_type().validate_value("screen.restore_policy", value),
        Ok(())
    );
    match policy.value_type() {
        SettingType::Enum(t) => {
            let once = t.canonicalize("marker_only").unwrap();
            assert_eq!(once, "conservative");
            assert_eq!(t.canonicalize(once), Some(once));
            assert_eq!(t.canonicalize("kde"), None);
        }
        SettingType::Integer(_) => panic!("restore policy is an enum setting"),
    }
    let timeout = registry.get_by_name("screen.idle_timeout").unwrap();
    let value = timeout.parse_value("600").unwrap();
    assert_eq!(timeout.value_type().validate_value("screen.idle_timeout", value), Ok(()));
}

#[test]
fn storage_keys_are_public_keys_with_underscores() {
    for definition in settings_registry().all() {
        assert_eq!(definition.storage_key(), definition.key_name().replace('.', "_"));
    }
}

#[test]
fn registry_defaults_and_ranges() {
    let registry = settings_registry();
    let backend = registry.get_by_name("screen.backend").unwrap();
    assert_eq!(backend.default_value(), SettingValue::Enum("auto"));
    match backend.value_type() {
        SettingType::Enum(t) => assert_eq!(t.values(), &["auto", "gnome", "swayidle"]),
        SettingType::Integer(_) => panic!("backend is an enum setting"),
    }
    let timeout = registry.get_by_name("screen.idle_timeout").unwrap();
    assert_eq!(timeout.default_value(), SettingValue::Integer(300));
    assert_eq!(timeout.mutability(), SettingMutability::ReadWrite);
    match timeout.value_type() {
        SettingType::Integer(t) => {
            assert_eq!((t.min(), t.max()), (1, 86_400));
            assert!(!t.contains(0) && t.contains(1) && t.contains(86_400) && !t.contains(86_401));
        }
        SettingType::Enum(_) => panic!("idle timeout is an integer setting"),
    }
    let sleep_wake = registry.get_by_name("system.sleep_wake_policy").unwrap();
    assert_eq!(sleep_wake.default_value(), SettingValue::Enum("enabled"));
    assert_eq!(sleep_wake.mutability(), SettingMutability::ReadOnly);
    assert_eq!(
        sleep_wake.supported_operations(),
        &[SettingOperation::Get, SettingOperation::Describe]
    );
    assert_eq!(sleep_wake.apply_strategy(), ApplyStrategy::PendingLifecycleService);
}
