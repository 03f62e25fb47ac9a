use lg_buddy::config::HdmiInput;
use lg_buddy::tv::{IoErrorKind, OledBrightness, TvError};
use lg_buddy::web_os::{
    backlight_data_payload, backlight_query_payload, brightness_from_reply, client_key_file_content,
    client_key_from_file, command_ok_output, empty_payload, hello_message, input_from_reply,
    is_registration_echo, is_system_info_reply, key_file_path, registration_payload,
    registration_start, registration_step, reply_output, ssap_reply_error, ssap_request_message,
    ssap_response, switch_input_payload, system_info_request, webos_error_to_tv_error, Received,
    RegistrationAction, RegistrationPhase, StepOutcome, WebOsError, WebOsTvClient,
    GET_INPUT_URI, REGISTRATION_SIGNATURE, WS_PORT_TLS,
};
use std::collections::VecDeque;

fn json(text: &str) -> serde_json::Value {
    serde_json::from_str(text).expect("valid JSON")
}

#[test]
fn webos_error_messages() {
    assert_eq!(
        WebOsError::ConnectionFailed("refused".to_string()).message(),
        "failed to connect to TV: refused"
    );
    assert_eq!(
        WebOsError::PairingRequired.message(),
        "TV pairing required — complete the on-screen prompt and retry"
    );
    assert_eq!(WebOsError::PairingRejected.message(), "TV pairing rejected by user");
    assert_eq!(WebOsError::Timeout.message(), "request timed out after 10s");
    assert_eq!(
        WebOsError::WebOsError {
            code: -102,
            message: "bad state".to_string()
        }
        .message(),
        "webOS error -102: bad state"
    );
}

#[test]
fn webos_errors_become_tv_errors() {
    let io = webos_error_to_tv_error("get_input", WebOsError::Timeout);
    assert_eq!(io.message(), "failed to run `get_input`: request timed out after 10s");
    assert!(matches!(io, TvError::Io { kind: IoErrorKind::TimedOut, .. }));

    let required = webos_error_to_tv_error("get_input", WebOsError::PairingRequired);
    assert!(matches!(
        required,
        TvError::Io { command: "get_input", kind: IoErrorKind::PermissionDenied, .. }
    ));
    let rejected = webos_error_to_tv_error("get_input", WebOsError::PairingRejected);
    assert!(matches!(rejected, TvError::Io { kind: IoErrorKind::PermissionDenied, .. }));
    assert_eq!(rejected.message(), "failed to run `get_input`: TV pairing rejected by user");

    let refused = webos_error_to_tv_error(
        "power_off",
        WebOsError::ConnectionFailed("plain WS connection timed out".to_string()),
    );
    assert_eq!(
        refused.message(),
        "failed to run `power_off`: plain WS connection timed out"
    );
    assert!(matches!(refused, TvError::Io { kind: IoErrorKind::ConnectionRefused, .. }));

    let failed = webos_error_to_tv_error(
        "turn_screen_on",
        WebOsError::WebOsError {
            code: -102,
            message: "screen is off".to_string(),
        },
    );
    match &failed {
        TvError::CommandFailed { command, status, output } => {
            assert_eq!(*command, "turn_screen_on");
            assert_eq!(*status, Some(-102));
            assert_eq!(output.stdout(), "");
            assert_eq!(output.stderr(), "errorCode': '-102': screen is off\n");
        }
        other => panic!("unexpected error {other:?}"),
    }
    assert!(failed.indicates_screen_unblank_substate_mismatch());
    assert_eq!(
        failed.message(),
        "`turn_screen_on` failed with status -102: errorCode': '-102': screen is off"
    );
}

#[test]
fn key_file_path_prefers_xdg_config_home() {
    assert_eq!(
        key_file_path(Some("/home/u/.cfg"), Some("/home/u")),
        "/home/u/.cfg/lg-buddy/webos-client-key.json"
    );
    assert_eq!(
        key_file_path(None, Some("/home/u")),
        "/home/u/.config/lg-buddy/webos-client-key.json"
    );
    assert_eq!(key_file_path(None, None), "/tmp/lg-buddy/webos-client-key.json");
}

#[test]
fn client_key_file_holds_json_or_raw_key() {
    assert_eq!(
        client_key_from_file("{\"client-key\": \"abc123\"}\n"),
        Some("abc123".to_string())
    );
    assert_eq!(client_key_from_file("  deadbeef \n"), Some("deadbeef".to_string()));
    assert_eq!(client_key_from_file(" \n\t"), None);
    assert_eq!(
        client_key_from_file("{\"other\": 1}"),
        Some("{\"other\": 1}".to_string())
    );
    assert_eq!(
        client_key_from_file("{\"client-key\": 5}"),
        Some("{\"client-key\": 5}".to_string())
    );
    assert_eq!(client_key_from_file("raw-format-key\n"), Some("raw-format-key".to_string()));
}

#[test]
fn malformed_json_key_file_treated_as_no_key() {
    assert_eq!(client_key_from_file("{invalid json"), None);
    assert_eq!(client_key_from_file("  {\"client-key\": \n"), None);
    let client =
        WebOsTvClient::new("/tmp/key.json".to_string(), Some("{invalid json".to_string()));
    assert_eq!(client.key_for_request(None), None);
    let raw = WebOsTvClient::new("/tmp/key.json".to_string(), Some("raw-format-key".to_string()));
    assert_eq!(raw.key_for_request(None), Some("raw-format-key".to_string()));
}

#[test]
fn registration_fails_when_pairing_rejected() {
    let (_, action) = step(
        RegistrationPhase::AwaitingPairing,
        StepOutcome::Message(Received::Text(
            "{\"type\":\"error\",\"error\":\"403 cancelled\"}".to_string(),
        )),
        None,
    );
    match action {
        RegistrationAction::Fail(err) => {
            let tv_error = webos_error_to_tv_error("get_input", err);
            assert!(matches!(
                tv_error,
                TvError::Io { kind: IoErrorKind::PermissionDenied, .. }
            ));
        }
        other => panic!("expected a failure, got {other:?}"),
    }
}

#[test]
fn client_key_file_content_round_trips() {
    let content = client_key_file_content("k\"ey\\1");
    assert_eq!(content, "{\"client-key\":\"k\\\"ey\\\\1\"}");
    assert_eq!(client_key_from_file(&content), Some("k\"ey\\1".to_string()));
}

#[test]
fn fixed_messages_are_valid_json() {
    assert_eq!(hello_message(), "{\"id\":\"hello\",\"payload\":{},\"type\":\"hello\"}");
    let info = json(&system_info_request());
    assert_eq!(info["uri"], "ssap://system/getSystemInfo");
    assert_eq!(info["id"], "get_sys_info");
    assert_eq!(empty_payload(), "{}");
    assert_eq!(
        backlight_query_payload(),
        "{\"category\":\"picture\",\"keys\":[\"backlight\"]}"
    );
    assert_eq!(switch_input_payload(HdmiInput::Hdmi3), "{\"inputId\":\"HDMI_3\"}");
}

#[test]
fn registration_payload_carries_key_and_manifest() {
    let with_key = json(&registration_payload(Some("secret-key")));
    assert_eq!(with_key["type"], "register");
    assert_eq!(with_key["id"], "register_0");
    assert_eq!(with_key["payload"]["client-key"], "secret-key");
    assert_eq!(with_key["payload"]["pairingType"], "PROMPT");
    assert_eq!(
        with_key["payload"]["manifest"]["signatures"][0]["signature"],
        REGISTRATION_SIGNATURE
    );
    assert_eq!(
        with_key["payload"]["manifest"]["signed"]["localizedAppNames"][""],
        "LG Remote App"
    );
    let without_key = json(&registration_payload(None));
    assert!(without_key["payload"]["client-key"].is_null());
    // serde_json prints the same document with its keys in order.
    assert_eq!(without_key.to_string(), registration_payload(None));
}

#[test]
fn ssap_request_message_quotes_its_fields() {
    let text = ssap_request_message("abc-1", "ssap://system/turnOff", "{}");
    assert_eq!(
        text,
        "{\"id\":\"abc-1\",\"payload\":{},\"type\":\"request\",\"uri\":\"ssap://system/turnOff\"}"
    );
    assert_eq!(json(&text).to_string(), text);
}

#[test]
fn backlight_payload_encodes_little_endian_u16() {
    let payload = backlight_data_payload(OledBrightness::parse("65").unwrap());
    let value = json(&payload);
    assert_eq!(value["data"], "QQA=");
    assert_eq!(value["command"], "BACKLIGHT_UI_DATA");
    assert_eq!(value["dataType"], "unsigned integer16");
    assert_eq!(value.to_string(), payload);
}

fn step(
    phase: RegistrationPhase,
    outcome: StepOutcome,
    key: Option<&str>,
) -> (RegistrationPhase, RegistrationAction) {
    registration_step(phase, outcome, key)
}

#[test]
fn handshake_on_the_plain_port() {
    let (phase, action) = registration_start(3000);
    assert_eq!(phase, RegistrationPhase::ConnectingPlain);
    assert_eq!(
        action,
        RegistrationAction::ConnectPlain {
            port: 3000,
            timeout_millis: 2000
        }
    );
    let (phase, action) = step(phase, StepOutcome::Done, None);
    assert_eq!(phase, RegistrationPhase::SendingHello);
    assert_eq!(action, RegistrationAction::Send(hello_message()));
    let (phase, action) = step(phase, StepOutcome::Done, None);
    assert_eq!(action, RegistrationAction::Receive { timeout_millis: 2000 });
    let (phase, action) = step(
        phase,
        StepOutcome::Message(Received::Text("{\"id\":\"hello\"}".to_string())),
        None,
    );
    assert_eq!(phase, RegistrationPhase::QueryingSystemInfo);
    assert_eq!(
        action,
        RegistrationAction::SendAndDrainSystemInfo {
            request: system_info_request(),
            window_millis: 500
        }
    );
    let (phase, action) = step(phase, StepOutcome::Done, Some("key"));
    assert_eq!(action, RegistrationAction::Send(registration_payload(Some("key"))));
    let (phase, action) = step(phase, StepOutcome::Done, Some("key"));
    assert_eq!(action, RegistrationAction::Receive { timeout_millis: 15000 });
    let (phase, action) = step(
        phase,
        StepOutcome::Message(Received::Text(
            "{\"type\":\"registered\",\"payload\":{\"client-key\":\"key\"}}".to_string(),
        )),
        Some("key"),
    );
    assert_eq!(phase, RegistrationPhase::DrainingLeftovers);
    assert_eq!(action, RegistrationAction::DrainLeftovers { window_millis: 100 });
    let (phase, action) = step(phase, StepOutcome::Done, Some("key"));
    assert_eq!(phase, RegistrationPhase::Registered);
    assert_eq!(action, RegistrationAction::Finish);
}

#[test]
fn handshake_falls_back_to_tls() {
    let (phase, action) = step(
        RegistrationPhase::ConnectingPlain,
        StepOutcome::Failed("refused".to_string()),
        None,
    );
    assert_eq!(phase, RegistrationPhase::ConnectingTls);
    assert_eq!(
        action,
        RegistrationAction::ConnectTls {
            port: WS_PORT_TLS,
            timeout_millis: 15000
        }
    );
    let (phase, action) = step(phase, StepOutcome::Failed("handshake".to_string()), None);
    assert_eq!(phase, RegistrationPhase::Failed);
    assert_eq!(
        action,
        RegistrationAction::Fail(WebOsError::ConnectionFailed(
            "plain WS failed, TLS also failed: handshake".to_string()
        ))
    );
    let (_, action) = step(RegistrationPhase::ConnectingTls, StepOutcome::TimedOut, None);
    assert_eq!(
        action,
        RegistrationAction::Fail(WebOsError::ConnectionFailed(
            "TLS connection timed out".to_string()
        ))
    );
    let (_, action) = step(RegistrationPhase::ConnectingPlain, StepOutcome::TimedOut, None);
    assert_eq!(
        action,
        RegistrationAction::Fail(WebOsError::ConnectionFailed(
            "plain WS connection timed out".to_string()
        ))
    );
}

#[test]
fn handshake_hello_failures() {
    let cases = [
        (StepOutcome::TimedOut, "hello response timed out"),
        (
            StepOutcome::Message(Received::Closed),
            "connection closed before hello",
        ),
        (
            StepOutcome::Message(Received::NonText),
            "unexpected non-text hello response",
        ),
        (
            StepOutcome::Message(Received::Error("reset".to_string())),
            "hello error: reset",
        ),
    ];
    for (outcome, message) in cases {
        let (phase, action) = step(RegistrationPhase::AwaitingHello, outcome, None);
        assert_eq!(phase, RegistrationPhase::Failed);
        assert_eq!(
            action,
            RegistrationAction::Fail(WebOsError::ConnectionFailed(message.to_string()))
        );
    }
    let (_, action) = step(
        RegistrationPhase::SendingHello,
        StepOutcome::Failed("broken pipe".to_string()),
        None,
    );
    assert_eq!(
        action,
        RegistrationAction::Fail(WebOsError::ConnectionFailed(
            "failed to send hello: broken pipe".to_string()
        ))
    );
}

#[test]
fn handshake_pairing_prompt_saves_new_key() {
    let (phase, action) = step(
        RegistrationPhase::AwaitingRegistration,
        StepOutcome::Message(Received::Text(
            "{\"type\":\"response\",\"payload\":{\"pairingType\":\"PROMPT\",\"returnValue\":true}}"
                .to_string(),
        )),
        None,
    );
    assert_eq!(phase, RegistrationPhase::AwaitingPairing);
    assert_eq!(action, RegistrationAction::Receive { timeout_millis: 60000 });
    let (phase, action) = step(
        phase,
        StepOutcome::Message(Received::Text(
            "{\"type\":\"registered\",\"payload\":{\"client-key\":\"new-key\"}}".to_string(),
        )),
        None,
    );
    assert_eq!(phase, RegistrationPhase::SavingClientKey);
    assert_eq!(action, RegistrationAction::SaveClientKey("new-key".to_string()));
    let (phase, action) = step(phase, StepOutcome::Done, None);
    assert_eq!(phase, RegistrationPhase::DrainingLeftovers);
    assert_eq!(action, RegistrationAction::DrainLeftovers { window_millis: 100 });
}

#[test]
fn handshake_pairing_failures() {
    let (_, action) = step(
        RegistrationPhase::AwaitingPairing,
        StepOutcome::Message(Received::Text(
            "{\"type\":\"error\",\"error\":\"403 cancelled\"}".to_string(),
        )),
        None,
    );
    assert_eq!(action, RegistrationAction::Fail(WebOsError::PairingRejected));
    let (_, action) = step(RegistrationPhase::AwaitingPairing, StepOutcome::TimedOut, None);
    assert_eq!(action, RegistrationAction::Fail(WebOsError::PairingRequired));
    let (_, action) = step(
        RegistrationPhase::AwaitingPairing,
        StepOutcome::Message(Received::NonText),
        None,
    );
    assert_eq!(action, RegistrationAction::Fail(WebOsError::PairingRejected));
    let (_, action) = step(
        RegistrationPhase::AwaitingRegistration,
        StepOutcome::Message(Received::Closed),
        None,
    );
    assert_eq!(action, RegistrationAction::Fail(WebOsError::PairingRequired));
    let (_, action) = step(
        RegistrationPhase::AwaitingRegistration,
        StepOutcome::Message(Received::Text(
            "{\"payload\":{\"returnValue\":false}}".to_string(),
        )),
        None,
    );
    assert_eq!(
        action,
        RegistrationAction::Fail(WebOsError::ConnectionFailed(
            "registration failed".to_string()
        ))
    );
    let (phase, _) = step(
        RegistrationPhase::AwaitingRegistration,
        StepOutcome::Message(Received::Text("not json".to_string())),
        None,
    );
    assert_eq!(phase, RegistrationPhase::DrainingLeftovers);
}

#[test]
fn drains_recognize_their_messages() {
    assert!(is_system_info_reply("{\"id\":\"get_sys_info\",\"payload\":{}}"));
    assert!(!is_system_info_reply("{\"id\":\"other\"}"));
    assert!(!is_system_info_reply("garbage"));
    assert!(is_registration_echo("{\"id\":\"register_0\"}"));
    assert!(is_registration_echo("{\"id\":\"hello\"}"));
    assert!(!is_registration_echo("{\"id\":\"abc\"}"));
    assert!(!is_registration_echo("{\"id\":7}"));
}

#[test]
fn ssap_replies_report_tv_errors() {
    let failed = "{\"payload\":{\"returnValue\":false,\"errorCode\":-102,\"errorText\":\"state\"}}";
    assert_eq!(
        ssap_reply_error(failed),
        Some(WebOsError::WebOsError {
            code: -102,
            message: "state".to_string()
        })
    );
    let with_message =
        "{\"payload\":{\"returnValue\":false,\"errorMessage\":7,\"errorText\":\"state\"}}";
    assert_eq!(
        ssap_reply_error(with_message),
        Some(WebOsError::WebOsError {
            code: -1,
            message: "unknown error".to_string()
        })
    );
    assert_eq!(ssap_reply_error("{\"payload\":{\"returnValue\":true}}"), None);
    assert_eq!(ssap_reply_error("{\"payload\":{}}"), None);
    assert_eq!(ssap_reply_error("{\"payload\":{\"returnValue\":\"no\"}}"), None);
}

#[test]
fn ssap_response_outcomes() {
    assert_eq!(
        ssap_response(StepOutcome::Message(Received::Text(
            "{\"payload\":{\"returnValue\":true}}".to_string()
        ))),
        Ok("{\"payload\":{\"returnValue\":true}}".to_string())
    );
    assert_eq!(ssap_response(StepOutcome::TimedOut), Err(WebOsError::Timeout));
    assert_eq!(
        ssap_response(StepOutcome::Message(Received::Closed)),
        Err(WebOsError::Timeout)
    );
    assert_eq!(
        ssap_response(StepOutcome::Message(Received::NonText)),
        Err(WebOsError::WebOsError {
            code: -1,
            message: "unexpected non-text response".to_string()
        })
    );
    assert_eq!(
        ssap_response(StepOutcome::Failed("closed".to_string())),
        Err(WebOsError::ConnectionFailed(
            "failed to send request: closed".to_string()
        ))
    );
    assert_eq!(
        ssap_response(StepOutcome::Message(Received::Error("reset".to_string()))),
        Err(WebOsError::ConnectionFailed("response error: reset".to_string()))
    );
}

#[test]
fn input_reply_reads_app_id_or_input() {
    assert_eq!(
        input_from_reply("{\"payload\":{\"appId\":\"com.webos.app.hdmi1\"}}").unwrap(),
        "com.webos.app.hdmi1"
    );
    assert_eq!(
        input_from_reply("{\"payload\":{\"input\":\"netflix\"}}").unwrap(),
        "netflix"
    );
    let err = input_from_reply("{\"payload\": {}}").unwrap_err();
    assert_eq!(
        err.message(),
        "invalid output from `get_input`: expected appId or input in response payload: {\"payload\":{}}"
    );
}

#[test]
fn brightness_reply_reads_backlight() {
    let reply = "{\"payload\":{\"settings\":{\"backlight\":72},\"returnValue\":true}}";
    assert_eq!(brightness_from_reply(reply).unwrap().as_percent(), 72);
    let wrapped = "{\"payload\":{\"settings\":{\"backlight\":300}}}";
    assert_eq!(brightness_from_reply(wrapped).unwrap().as_percent(), 44);
    let high = "{\"payload\":{\"settings\":{\"backlight\":150}}}";
    assert_eq!(
        brightness_from_reply(high).unwrap_err().message(),
        "invalid output from `get_oled_brightness`: brightness value out of range 0-100: {\"payload\":{\"settings\":{\"backlight\":150}}}"
    );
    let missing = "{\"payload\":{\"settings\":{}}}";
    assert!(brightness_from_reply(missing)
        .unwrap_err()
        .message()
        .contains("expected backlight value in settings response"));
}

#[test]
fn reply_outputs() {
    assert_eq!(command_ok_output().stdout(), "{\"returnValue\": true}\n");
    assert_eq!(reply_output("{ \"b\": 1, \"a\": 2 }").stdout(), "{\"a\":2,\"b\":1}");
    assert_eq!(reply_output("nonsense").stdout(), "{}");
}

#[test]
fn client_settings() {
    let client = WebOsTvClient::new(
        "/tmp/key.json".to_string(),
        Some("{\"client-key\":\"stored\"}".to_string()),
    );
    assert_eq!(client.key_file_path(), "/tmp/key.json");
    assert_eq!(client.command_timeout_millis(), 10_000);
    assert_eq!(client.plain_port(), 3000);
    assert_eq!(client.key_for_request(None), Some("stored".to_string()));
    assert_eq!(
        client.key_for_request(Some("fresh".to_string())),
        Some("fresh".to_string())
    );
    assert_eq!(
        client.key_for_request(Some("   ".to_string())),
        Some("stored".to_string())
    );
    let client = client.with_ws_port(3999).with_command_timeout(3000);
    assert_eq!(client.plain_port(), 3999);
    assert_eq!(client.command_timeout_millis(), 3000);
    let empty = WebOsTvClient::new("/tmp/none.json".to_string(), None);
    assert_eq!(empty.key_for_request(None), None);
}

// ---- A scripted TV behind the handshake and a request ----

/// How the scripted TV answers, after the mock server of the webOS client
/// tests.
#[derive(Default)]
struct MockTv {
    existing_key: Option<String>,
    require_pairing: bool,
    reject_pairing: bool,
    ssap_error: Option<(i64, String)>,
    disconnect_immediately: bool,
}

impl MockTv {
    /// The messages the TV sends back for the message `text`.
    fn answer(&self, text: &str) -> Vec<Received> {
        if self.disconnect_immediately {
            return vec![Received::Closed];
        }
        let message: serde_json::Value = serde_json::from_str(text).unwrap_or_default();
        let text_of = |v: serde_json::Value| Received::Text(v.to_string());
        match message["type"].as_str().unwrap_or("") {
            "hello" => vec![text_of(serde_json::from_str(
                "{\"id\":\"hello\",\"type\":\"hello\",\"payload\":{\"version\":\"1.0\"}}",
            )
            .unwrap())],
            "register" if self.require_pairing => {
                let prompt = "{\"id\":\"register_0\",\"type\":\"response\",\"payload\":{\"pairingType\":\"PROMPT\",\"deviceName\":\"OLED55CX3PU\"}}";
                let second = if self.reject_pairing {
                    "{\"id\":\"register_0\",\"type\":\"error\",\"payload\":{\"errorCode\":-100,\"errorMessage\":\"Pairing rejected by user\"}}"
                } else {
                    "{\"id\":\"register_0\",\"type\":\"response\",\"payload\":{\"returnValue\":true,\"client-key\":\"mock-pairing-key-0000000000000001\",\"pairingType\":\"PROMPT\",\"deviceName\":\"OLED55CX3PU\"}}"
                };
                vec![Received::Text(prompt.to_string()), Received::Text(second.to_string())]
            }
            "register" if self.existing_key.is_some() => vec![Received::Text(
                "{\"id\":\"register_0\",\"type\":\"response\",\"payload\":{\"returnValue\":true,\"deviceName\":\"OLED55CX3PU\"}}"
                    .to_string(),
            )],
            "register" => vec![Received::Text(
                "{\"id\":\"register_0\",\"type\":\"response\",\"payload\":{\"returnValue\":false,\"errorCode\":-2,\"errorMessage\":\"No valid client key\"}}"
                    .to_string(),
            )],
            "request" => {
                let id = message["id"].as_str().unwrap_or("").to_string();
                let uri = message["uri"].as_str().unwrap_or("").to_string();
                let reply = match &self.ssap_error {
                    Some((code, text)) => format!(
                        "{{\"id\":\"{id}\",\"type\":\"response\",\"uri\":\"{uri}\",\"payload\":{{\"returnValue\":false,\"errorCode\":{code},\"errorMessage\":\"{text}\"}}}}"
                    ),
                    None => format!(
                        "{{\"id\":\"{id}\",\"type\":\"response\",\"uri\":\"{uri}\",\"payload\":{{\"returnValue\":true,\"appId\":\"com.webos.app.hdmi2\"}}}}"
                    ),
                };
                vec![Received::Text(reply)]
            }
            _ => Vec::new(),
        }
    }
}

/// Runs the handshake against `tv`, then asks for the input shown, as the
/// client's `get_input` does; gives the result and the key it saved.
fn get_input_from(tv: &MockTv, client: &WebOsTvClient, key_file: Option<String>) -> (Result<String, TvError>, Option<String>) {
    let key = client.key_for_request(key_file);
    let mut inbox: VecDeque<Received> = VecDeque::new();
    let mut saved = None;
    let (mut phase, mut action) = registration_start(client.plain_port());
    loop {
        let outcome = match action {
            RegistrationAction::ConnectPlain { .. } => StepOutcome::Done,
            RegistrationAction::ConnectTls { .. } => StepOutcome::Failed("no TLS".to_string()),
            RegistrationAction::Send(text) => {
                inbox.extend(tv.answer(&text));
                StepOutcome::Done
            }
            RegistrationAction::Receive { .. } => match inbox.pop_front() {
                Some(message) => StepOutcome::Message(message),
                None => StepOutcome::TimedOut,
            },
            RegistrationAction::SendAndDrainSystemInfo { .. } => StepOutcome::Done,
            RegistrationAction::SaveClientKey(k) => {
                saved = Some(k);
                StepOutcome::Done
            }
            RegistrationAction::DrainLeftovers { .. } => StepOutcome::Done,
            RegistrationAction::Finish => break,
            RegistrationAction::Fail(err) => {
                return (Err(webos_error_to_tv_error("get_input", err)), saved);
            }
        };
        let (next_phase, next_action) = registration_step(phase, outcome, key.as_deref());
        phase = next_phase;
        action = next_action;
    }
    let request = ssap_request_message("req-1", GET_INPUT_URI, &empty_payload());
    let outcome = match tv.answer(&request).into_iter().next() {
        Some(message) => StepOutcome::Message(message),
        None => StepOutcome::TimedOut,
    };
    let result = match ssap_response(outcome) {
        Ok(reply) => input_from_reply(&reply),
        Err(e) => Err(webos_error_to_tv_error("get_input", e)),
    };
    (result, saved)
}

fn client() -> WebOsTvClient {
    WebOsTvClient::new("/tmp/lg-buddy-test-key.json".to_string(), None)
}

#[test]
fn registration_succeeds_with_existing_key() {
    let tv = MockTv { existing_key: Some("test-existing-key".to_string()), ..Default::default() };
    let (result, _) = get_input_from(&tv, &client(), Some("\"test-existing-key\"".to_string()));
    assert!(result.is_ok(), "get_input should succeed with existing key: {:?}", result);
}

#[test]
fn registration_triggers_pairing_when_no_key() {
    let tv = MockTv { require_pairing: true, ..Default::default() };
    let (result, saved) = get_input_from(&tv, &client(), None);
    assert!(result.is_ok(), "get_input should succeed after pairing: {:?}", result);
    assert_eq!(saved, Some("mock-pairing-key-0000000000000001".to_string()));
}

#[test]
fn webos_error_response_preserves_error_code() {
    let tv = MockTv {
        existing_key: Some("test-key".to_string()),
        ssap_error: Some((-102, "Substate mismatch".to_string())),
        ..Default::default()
    };
    let (result, _) = get_input_from(&tv, &client(), Some("\"test-key\"".to_string()));
    assert!(result.is_err(), "get_input should fail on webOS error");
    match result.unwrap_err() {
        TvError::CommandFailed { status, output, .. } => {
            assert_eq!(status, Some(-102), "error code should be preserved");
            assert!(
                output.stderr().contains("Substate mismatch"),
                "error message should be preserved: {}",
                output.stderr()
            );
        }
        other => panic!("expected TvError::CommandFailed for webOS error, got: {:?}", other),
    }
}

#[test]
fn request_timeout_returns_io_error() {
    let tv = MockTv {
        existing_key: Some("test-key".to_string()),
        disconnect_immediately: true,
        ..Default::default()
    };
    let (result, _) = get_input_from(&tv, &client(), Some("\"test-key\"".to_string()));
    assert!(result.is_err(), "get_input should fail on connection failure");
    assert!(matches!(result, Err(TvError::Io { kind: IoErrorKind::ConnectionRefused, .. })));
}

#[test]
fn missing_key_file_means_no_key_loaded() {
    let tv = MockTv { existing_key: Some("some-key".to_string()), ..Default::default() };
    let client = client();
    assert_eq!(client.key_for_request(None), None);
    let (result, _) = get_input_from(&tv, &client, None);
    assert!(result.is_ok(), "missing key file should not prevent connection: {:?}", result);
}
