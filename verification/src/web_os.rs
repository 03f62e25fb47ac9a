//! The webOS client protocol: the messages sent to the TV over its
//! WebSocket, the registration handshake as a state machine, and how the
//! TV's replies become results. The WebSocket itself is driven elsewhere.

use vstd::prelude::*;
use vstd::string::{StrSliceExecFns, StringExecFns};

use crate::config::HdmiInput;
use crate::json::{
    compact_text, json_compact_text, json_node_at, json_string_literal, node_at, quote, JsonNode,
    JsonNodeView,
};
use crate::state::{join_path, path_join};
use crate::text::{
    decimal, int_decimal, is_prefix_of, starts_with, str_eq, trim, trim_of,
};
use crate::tv::{CommandOutput, IoErrorKind, OledBrightness, TvError, OLED_BRIGHTNESS_MAX};

verus! {

pub const CONNECTION_TIMEOUT_SECS: u64 = 2;

pub const TLS_CONNECTION_TIMEOUT_SECS: u64 = 15;

pub const REQUEST_TIMEOUT_SECS: u64 = 10;

pub const WS_PORT_PLAIN: u16 = 3000;

pub const WS_PORT_TLS: u16 = 3001;

// ---------------------------------------------------------------------------
// Errors
// ---------------------------------------------------------------------------

/// How a request to the TV failed.
#[derive(Debug, Clone, PartialEq, Eq)]
pub enum WebOsError {
    ConnectionFailed(String),
    PairingRequired,
    PairingRejected,
    Timeout,
    WebOsError { code: i64, message: String },
}

pub enum WebOsErrorView {
    ConnectionFailed(Seq<char>),
    PairingRequired,
    PairingRejected,
    Timeout,
    WebOsError { code: i64, message: Seq<char> },
}

impl View for WebOsError {
    type V = WebOsErrorView;

    open spec fn view(&self) -> WebOsErrorView {
        match self {
            WebOsError::ConnectionFailed(m) => WebOsErrorView::ConnectionFailed(m@),
            WebOsError::PairingRequired => WebOsErrorView::PairingRequired,
            WebOsError::PairingRejected => WebOsErrorView::PairingRejected,
            WebOsError::Timeout => WebOsErrorView::Timeout,
            WebOsError::WebOsError { code, message } => WebOsErrorView::WebOsError {
                code: *code,
                message: message@,
            },
        }
    }
}

pub open spec fn pairing_required_text() -> Seq<char> {
    "TV pairing required — complete the on-screen prompt and retry"@
}

pub open spec fn pairing_rejected_text() -> Seq<char> {
    "TV pairing rejected by user"@
}

pub open spec fn timeout_text() -> Seq<char> {
    "request timed out after 10s"@
}

impl WebOsErrorView {
    pub open spec fn text(self) -> Seq<char> {
        match self {
            WebOsErrorView::ConnectionFailed(m) => "failed to connect to TV: "@ + m,
            WebOsErrorView::PairingRequired => pairing_required_text(),
            WebOsErrorView::PairingRejected => pairing_rejected_text(),
            WebOsErrorView::Timeout => timeout_text(),
            WebOsErrorView::WebOsError { code, message } => "webOS error "@ + int_decimal(
                code as int,
            ) + ": "@ + message,
        }
    }
}

impl WebOsError {
    /// The text of the error, as it is shown to users.
    pub fn message(&self) -> (r: String)
        ensures
            r@ == self@.text(),
    {
        match self {
            WebOsError::ConnectionFailed(m) => {
                let mut r = String::from_str("failed to connect to TV: ");
                r.append(m.as_str());
                r
            },
            WebOsError::PairingRequired => String::from_str(
                "TV pairing required — complete the on-screen prompt and retry",
            ),
            WebOsError::PairingRejected => String::from_str("TV pairing rejected by user"),
            WebOsError::Timeout => String::from_str("request timed out after 10s"),
            WebOsError::WebOsError { code, message } => {
                let mut r = String::from_str("webOS error ");
                let c = decimal(*code as i128);
                r.append(c.as_str());
                r.append(": ");
                r.append(message.as_str());
                r
            },
        }
    }
}

/// The TV error that a failed webOS request of the operation `op` becomes:
/// transport and pairing failures are I/O errors with the text of the
/// webOS error, of kind connection refused for a failed connection,
/// permission denied for a pairing that is required or was rejected, and
/// timed out for a reply that did not come; an error reported by the TV is a failed command whose
/// status is the error code and whose standard error carries
/// `errorCode': '<code>': <message>`.
pub fn webos_error_to_tv_error(op: &'static str, err: WebOsError) -> (r: TvError)
    ensures
        match err@ {
            WebOsErrorView::ConnectionFailed(m) => r matches TvError::Io { command, kind, source }
                && command == op && kind == IoErrorKind::ConnectionRefused && source@ == m,
            WebOsErrorView::PairingRequired => r matches TvError::Io { command, kind, source }
                && command == op && kind == IoErrorKind::PermissionDenied && source@
                == pairing_required_text(),
            WebOsErrorView::PairingRejected => r matches TvError::Io { command, kind, source }
                && command == op && kind == IoErrorKind::PermissionDenied && source@
                == pairing_rejected_text(),
            WebOsErrorView::Timeout => r matches TvError::Io { command, kind, source } && command
                == op && kind == IoErrorKind::TimedOut && source@ == timeout_text(),
            WebOsErrorView::WebOsError { code, message } => r matches TvError::CommandFailed {
                command,
                status,
                output,
            } && command == op && status == Some(code as i32) && output.stdout_view().len() == 0
                && output.stderr_view() == "errorCode': '"@ + int_decimal(code as int) + "': "@
                + message + seq!['\n'],
        },
{
    match err {
        WebOsError::ConnectionFailed(msg) => TvError::Io {
            command: op,
            kind: IoErrorKind::ConnectionRefused,
            source: msg,
        },
        WebOsError::PairingRequired => TvError::Io {
            command: op,
            kind: IoErrorKind::PermissionDenied,
            source: String::from_str(
                "TV pairing required — complete the on-screen prompt and retry",
            ),
        },
        WebOsError::PairingRejected => TvError::Io {
            command: op,
            kind: IoErrorKind::PermissionDenied,
            source: String::from_str("TV pairing rejected by user"),
        },
        WebOsError::Timeout => TvError::Io {
            command: op,
            kind: IoErrorKind::TimedOut,
            source: String::from_str("request timed out after 10s"),
        },
        WebOsError::WebOsError { code, message } => {
            let mut stderr = String::from_str("errorCode': '");
            let c = decimal(code as i128);
            stderr.append(c.as_str());
            stderr.append("': ");
            stderr.append(message.as_str());
            stderr.append("\n");
            proof {
                reveal_strlit("\n");
            }
            assert("\n"@ =~= seq!['\n']);
            TvError::CommandFailed {
                command: op,
                status: Some(code as i32),
                output: CommandOutput::new(String::new(), stderr),
            }
        },
    }
}

// ---------------------------------------------------------------------------
// The client key
// ---------------------------------------------------------------------------

/// The file that keeps the client key: `lg-buddy/webos-client-key.json`
/// under `$XDG_CONFIG_HOME`, else under `$HOME/.config`, else under `/tmp`.
pub open spec fn key_file_path_for(
    xdg_config_home: Option<Seq<char>>,
    home: Option<Seq<char>>,
) -> Seq<char> {
    let config_dir = match xdg_config_home {
        Some(dir) => dir,
        None => match home {
            Some(h) => path_join(h, ".config"@),
            None => "/tmp"@,
        },
    };
    path_join(path_join(config_dir, "lg-buddy"@), "webos-client-key.json"@)
}

/// The path of the client key file, from the values of `XDG_CONFIG_HOME`
/// and `HOME`.
pub fn key_file_path(xdg_config_home: Option<&str>, home: Option<&str>) -> (r: String)
    ensures
        r@ == key_file_path_for(
            match xdg_config_home {
                Some(d) => Some(d@),
                None => None,
            },
            match home {
                Some(h) => Some(h@),
                None => None,
            },
        ),
{
    let config_dir = match xdg_config_home {
        Some(dir) => String::from_str(dir),
        None => match home {
            Some(h) => join_path(h, ".config"),
            None => String::from_str("/tmp"),
        },
    };
    let app_dir = join_path(config_dir.as_str(), "lg-buddy");
    join_path(app_dir.as_str(), "webos-client-key.json")
}

/// Whether the trimmed content `s` of the key file was meant as a JSON
/// object (it opens with `{`) but is not JSON.
pub open spec fn is_malformed_json(s: Seq<char>) -> bool {
    s.len() > 0 && s[0] == '{' && json_node_at(s, ""@) is None
}

/// The client key that the content of the key file holds: the `client-key`
/// string of the JSON object it holds, else the trimmed content as a raw
/// key; none when the content is blank or is a malformed JSON object.
pub open spec fn stored_client_key(content: Seq<char>) -> Option<Seq<char>> {
    let s = trim_of(content);
    if s.len() == 0 {
        None
    } else {
        match json_node_at(s, "/client-key"@) {
            Some(JsonNodeView::String(key)) => Some(key),
            _ => if is_malformed_json(s) {
                None
            } else {
                Some(s)
            },
        }
    }
}

/// The client key in the content of the key file.
pub fn client_key_from_file(content: &str) -> (r: Option<String>)
    ensures
        match stored_client_key(content@) {
            Some(key) => r matches Some(k) && k@ == key,
            None => r is None,
        },
{
    let s = trim(content);
    if s.unicode_len() == 0 {
        return None;
    }
    match node_at(s, "/client-key") {
        Some(JsonNode::String(key)) => Some(key),
        _ => {
            proof {
                reveal_strlit("{");
            }
            let opens = starts_with(s, "{");
            assert(opens == (s@.len() > 0 && s@[0] == '{')) by {
                assert("{"@ =~= seq!['{']);
                if s@.len() > 0 {
                    if s@[0] == '{' {
                        assert(s@.subrange(0, 1) =~= seq!['{']);
                    }
                    if opens {
                        assert(s@.subrange(0, 1)[0] == s@[0]);
                    }
                }
            }
            if opens && node_at(s, "").is_none() {
                None
            } else {
                Some(String::from_str(s))
            }
        },
    }
}

/// What the key file holds for `key`: a JSON object with the key under
/// `client-key`.
pub open spec fn client_key_file_text(key: Seq<char>) -> Seq<char> {
    "{\"client-key\":"@ + json_string_literal(key) + "}"@
}

/// The content to write to the key file for `key`.
pub fn client_key_file_content(key: &str) -> (r: String)
    ensures
        r@ == client_key_file_text(key@),
{
    let mut r = String::from_str("{\"client-key\":");
    let q = quote(key);
    r.append(q.as_str());
    r.append("}");
    r
}

// ---------------------------------------------------------------------------
// Messages to the TV
// ---------------------------------------------------------------------------

/// The signature of the registration manifest that the TV accepts from a
/// remote control application.
pub const REGISTRATION_SIGNATURE: &'static str = "eyJhbGdvcml0aG0iOiJSU0EtU0hBMjU2Iiwia2V5SWQiOiJ0ZXN0LXNpZ25pbmctY2VydCIsInNpZ25hdHVyZVZlcnNpb24iOjF9.hrVRgjCwXVvE2OOSpDZ58hR+59aFNwYDyjQgKk3auukd7pcegmE2CzPCa0bJ0ZsRAcKkCTJrWo5iDzNhMBWRyaMOv5zWSrthlf7G128qvIlpMT0YNY+n/FaOHE73uLrS/g7swl3/qH/BGFG2Hu4RlL48eb3lLKqTt2xKHdCs6Cd4RMfJPYnzgvI4BNrFUKsjkcu+WD4OO2A27Pq1n50cMchmcaXadJhGrOqH5YmHdOCj5NSHzJYrsW0HPlpuAx/ECMeIZYDh6RMqaFM2DXzdKX9NmmyqzJ3o/0lkk/N97gfVRLW5hA29yeAwaCViZNCP8iC9aO0q9fQojoa7NQnAtw==";

/// The hello message that opens the conversation.
pub open spec fn hello_text() -> Seq<char> {
    "{\"id\":\"hello\",\"payload\":{},\"type\":\"hello\"}"@
}

pub fn hello_message() -> (r: String)
    ensures
        r@ == hello_text(),
{
    String::from_str("{\"id\":\"hello\",\"payload\":{},\"type\":\"hello\"}")
}

/// The request for system information that newer TVs expect before
/// registration.
pub open spec fn system_info_request_text() -> Seq<char> {
    "{\"id\":\"get_sys_info\",\"payload\":{},\"type\":\"request\",\"uri\":\"ssap://system/getSystemInfo\"}"@
}

pub fn system_info_request() -> (r: String)
    ensures
        r@ == system_info_request_text(),
{
    String::from_str(
        "{\"id\":\"get_sys_info\",\"payload\":{},\"type\":\"request\",\"uri\":\"ssap://system/getSystemInfo\"}",
    )
}

/// The part of the registration message that precedes the client key.
pub open spec fn registration_head() -> Seq<char> {
    "{\"id\":\"register_0\",\"payload\":{\"client-key\":"@
}

/// The part of the registration message that follows the client key: the
/// manifest of the remote control application and the pairing type.
pub open spec fn registration_tail() -> Seq<char> {
    ",\"manifest\":{\"appVersion\":\"1.1\",\"manifestVersion\":1,\"permissions\":[\"LAUNCH\",\"CONTROL_AUDIO\",\"CONTROL_DISPLAY\",\"CONTROL_POWER\",\"CONTROL_TV_SCREEN\",\"READ_APP_STATUS\",\"READ_RUNNING_APPS\",\"READ_SETTINGS\",\"READ_POWER_STATE\"],\"signatures\":[{\"signature\":\"eyJhbGdvcml0aG0iOiJSU0EtU0hBMjU2Iiwia2V5SWQiOiJ0ZXN0LXNpZ25pbmctY2VydCIsInNpZ25hdHVyZVZlcnNpb24iOjF9.hrVRgjCwXVvE2OOSpDZ58hR+59aFNwYDyjQgKk3auukd7pcegmE2CzPCa0bJ0ZsRAcKkCTJrWo5iDzNhMBWRyaMOv5zWSrthlf7G128qvIlpMT0YNY+n/FaOHE73uLrS/g7swl3/qH/BGFG2Hu4RlL48eb3lLKqTt2xKHdCs6Cd4RMfJPYnzgvI4BNrFUKsjkcu+WD4OO2A27Pq1n50cMchmcaXadJhGrOqH5YmHdOCj5NSHzJYrsW0HPlpuAx/ECMeIZYDh6RMqaFM2DXzdKX9NmmyqzJ3o/0lkk/N97gfVRLW5hA29yeAwaCViZNCP8iC9aO0q9fQojoa7NQnAtw==\",\"signatureVersion\":1}],\"signed\":{\"appId\":\"com.lge.test\",\"created\":\"20140509\",\"localizedAppNames\":{\"\":\"LG Remote App\"},\"localizedVendorNames\":{\"\":\"LG Electronics\"},\"permissions\":[\"TEST_SECURE\",\"CONTROL_POWER\",\"READ_RUNNING_APPS\"],\"serial\":\"2f930e2d2cfe083771f68e4fe7bb07\",\"vendorId\":\"com.lge\"}},\"pairingType\":\"PROMPT\"},\"type\":\"register\"}"@
}

/// The registration message: the client key, if there is one (else
/// `null`), then the manifest; with the keys of each object in order, as
/// serde_json prints them.
pub open spec fn registration_text(client_key: Option<Seq<char>>) -> Seq<char> {
    registration_head() + match client_key {
        Some(key) => json_string_literal(key),
        None => "null"@,
    } + registration_tail()
}

pub fn registration_payload(client_key: Option<&str>) -> (r: String)
    ensures
        r@ == registration_text(
            match client_key {
                Some(k) => Some(k@),
                None => None,
            },
        ),
{
    let mut r = String::from_str("{\"id\":\"register_0\",\"payload\":{\"client-key\":");
    match client_key {
        Some(key) => {
            let q = quote(key);
            r.append(q.as_str());
        },
        None => r.append("null"),
    }
    r.append(
        ",\"manifest\":{\"appVersion\":\"1.1\",\"manifestVersion\":1,\"permissions\":[\"LAUNCH\",\"CONTROL_AUDIO\",\"CONTROL_DISPLAY\",\"CONTROL_POWER\",\"CONTROL_TV_SCREEN\",\"READ_APP_STATUS\",\"READ_RUNNING_APPS\",\"READ_SETTINGS\",\"READ_POWER_STATE\"],\"signatures\":[{\"signature\":\"eyJhbGdvcml0aG0iOiJSU0EtU0hBMjU2Iiwia2V5SWQiOiJ0ZXN0LXNpZ25pbmctY2VydCIsInNpZ25hdHVyZVZlcnNpb24iOjF9.hrVRgjCwXVvE2OOSpDZ58hR+59aFNwYDyjQgKk3auukd7pcegmE2CzPCa0bJ0ZsRAcKkCTJrWo5iDzNhMBWRyaMOv5zWSrthlf7G128qvIlpMT0YNY+n/FaOHE73uLrS/g7swl3/qH/BGFG2Hu4RlL48eb3lLKqTt2xKHdCs6Cd4RMfJPYnzgvI4BNrFUKsjkcu+WD4OO2A27Pq1n50cMchmcaXadJhGrOqH5YmHdOCj5NSHzJYrsW0HPlpuAx/ECMeIZYDh6RMqaFM2DXzdKX9NmmyqzJ3o/0lkk/N97gfVRLW5hA29yeAwaCViZNCP8iC9aO0q9fQojoa7NQnAtw==\",\"signatureVersion\":1}],\"signed\":{\"appId\":\"com.lge.test\",\"created\":\"20140509\",\"localizedAppNames\":{\"\":\"LG Remote App\"},\"localizedVendorNames\":{\"\":\"LG Electronics\"},\"permissions\":[\"TEST_SECURE\",\"CONTROL_POWER\",\"READ_RUNNING_APPS\"],\"serial\":\"2f930e2d2cfe083771f68e4fe7bb07\",\"vendorId\":\"com.lge\"}},\"pairingType\":\"PROMPT\"},\"type\":\"register\"}",
    );
    r
}

/// A request for the SSAP service `uri` with the JSON payload `payload`,
/// under the message id `id`.
pub open spec fn ssap_request_text(id: Seq<char>, uri: Seq<char>, payload: Seq<char>) -> Seq<
    char,
> {
    "{\"id\":"@ + json_string_literal(id) + ",\"payload\":"@ + payload + ",\"type\":\"request\",\"uri\":"@
        + json_string_literal(uri) + "}"@
}

pub fn ssap_request_message(id: &str, uri: &str, payload: &str) -> (r: String)
    ensures
        r@ == ssap_request_text(id@, uri@, payload@),
{
    let mut r = String::from_str("{\"id\":");
    let qid = quote(id);
    r.append(qid.as_str());
    r.append(",\"payload\":");
    r.append(payload);
    r.append(",\"type\":\"request\",\"uri\":");
    let quri = quote(uri);
    r.append(quri.as_str());
    r.append("}");
    r
}

// ---------------------------------------------------------------------------
// The registration handshake
// ---------------------------------------------------------------------------

/// One message read from the WebSocket.
#[derive(Debug, Clone, PartialEq, Eq)]
pub enum Received {
    /// A text frame.
    Text(String),
    /// A frame of another kind.
    NonText,
    /// Reading failed; the text says how.
    Error(String),
    /// The connection was closed.
    Closed,
}

pub enum ReceivedView {
    Text(Seq<char>),
    NonText,
    Error(Seq<char>),
    Closed,
}

impl View for Received {
    type V = ReceivedView;

    open spec fn view(&self) -> ReceivedView {
        match self {
            Received::Text(t) => ReceivedView::Text(t@),
            Received::NonText => ReceivedView::NonText,
            Received::Error(e) => ReceivedView::Error(e@),
            Received::Closed => ReceivedView::Closed,
        }
    }
}

/// What the transport made of the last action.
#[derive(Debug, Clone, PartialEq, Eq)]
pub enum StepOutcome {
    /// The connection, the send or the drain completed.
    Done,
    /// The connection or the send failed; the text says how.
    Failed(String),
    /// Nothing happened within the time the action allowed.
    TimedOut,
    /// A message arrived.
    Message(Received),
}

pub enum StepOutcomeView {
    Done,
    Failed(Seq<char>),
    TimedOut,
    Message(ReceivedView),
}

impl View for StepOutcome {
    type V = StepOutcomeView;

    open spec fn view(&self) -> StepOutcomeView {
        match self {
            StepOutcome::Done => StepOutcomeView::Done,
            StepOutcome::Failed(e) => StepOutcomeView::Failed(e@),
            StepOutcome::TimedOut => StepOutcomeView::TimedOut,
            StepOutcome::Message(m) => StepOutcomeView::Message(m@),
        }
    }
}

/// Where the handshake stands.
#[derive(Debug, Clone, Copy, PartialEq, Eq, Structural)]
pub enum RegistrationPhase {
    ConnectingPlain,
    ConnectingTls,
    SendingHello,
    AwaitingHello,
    QueryingSystemInfo,
    SendingRegistration,
    AwaitingRegistration,
    AwaitingPairing,
    SavingClientKey,
    DrainingLeftovers,
    Registered,
    Failed,
}

/// What the transport is to do next.
#[derive(Debug, Clone, PartialEq, Eq)]
pub enum RegistrationAction {
    /// Open a plain WebSocket to the port, within the time.
    ConnectPlain { port: u16, timeout_millis: u64 },
    /// Open a TLS WebSocket to the port, within the time.
    ConnectTls { port: u16, timeout_millis: u64 },
    /// Send the text message.
    Send(String),
    /// Wait for the next message, within the time.
    Receive { timeout_millis: u64 },
    /// Send the request (a failure to send is ignored), then read messages
    /// for up to the window until `is_system_info_reply` holds of one.
    SendAndDrainSystemInfo { request: String, window_millis: u64 },
    /// Store the client key that the TV handed out.
    SaveClientKey(String),
    /// Read messages for up to the window while `is_registration_echo`
    /// holds of them; the first other message is dropped too.
    DrainLeftovers { window_millis: u64 },
    /// The connection is registered and ready for requests.
    Finish,
    /// Give up with the error.
    Fail(WebOsError),
}

pub enum RegistrationActionView {
    ConnectPlain { port: u16, timeout_millis: u64 },
    ConnectTls { port: u16, timeout_millis: u64 },
    Send(Seq<char>),
    Receive { timeout_millis: u64 },
    SendAndDrainSystemInfo { request: Seq<char>, window_millis: u64 },
    SaveClientKey(Seq<char>),
    DrainLeftovers { window_millis: u64 },
    Finish,
    Fail(WebOsErrorView),
}

impl View for RegistrationAction {
    type V = RegistrationActionView;

    open spec fn view(&self) -> RegistrationActionView {
        match self {
            RegistrationAction::ConnectPlain { port, timeout_millis } =>
                RegistrationActionView::ConnectPlain { port: *port, timeout_millis: *timeout_millis },
            RegistrationAction::ConnectTls { port, timeout_millis } =>
                RegistrationActionView::ConnectTls { port: *port, timeout_millis: *timeout_millis },
            RegistrationAction::Send(t) => RegistrationActionView::Send(t@),
            RegistrationAction::Receive { timeout_millis } => RegistrationActionView::Receive {
                timeout_millis: *timeout_millis,
            },
            RegistrationAction::SendAndDrainSystemInfo { request, window_millis } =>
                RegistrationActionView::SendAndDrainSystemInfo {
                request: request@,
                window_millis: *window_millis,
            },
            RegistrationAction::SaveClientKey(k) => RegistrationActionView::SaveClientKey(k@),
            RegistrationAction::DrainLeftovers { window_millis } =>
                RegistrationActionView::DrainLeftovers { window_millis: *window_millis },
            RegistrationAction::Finish => RegistrationActionView::Finish,
            RegistrationAction::Fail(e) => RegistrationActionView::Fail(e@),
        }
    }
}

pub open spec fn fail_connection(message: Seq<char>) -> (RegistrationPhase, RegistrationActionView) {
    (
        RegistrationPhase::Failed,
        RegistrationActionView::Fail(WebOsErrorView::ConnectionFailed(message)),
    )
}

/// The outcomes that the transport can report after the action of `phase`.
pub open spec fn outcome_fits(phase: RegistrationPhase, outcome: StepOutcomeView) -> bool {
    match phase {
        RegistrationPhase::ConnectingPlain | RegistrationPhase::ConnectingTls => outcome is Done
            || outcome is Failed || outcome is TimedOut,
        RegistrationPhase::SendingHello | RegistrationPhase::SendingRegistration => outcome is Done
            || outcome is Failed,
        RegistrationPhase::AwaitingHello | RegistrationPhase::AwaitingRegistration
        | RegistrationPhase::AwaitingPairing => outcome is TimedOut || outcome is Message,
        RegistrationPhase::QueryingSystemInfo | RegistrationPhase::SavingClientKey
        | RegistrationPhase::DrainingLeftovers => outcome is Done,
        RegistrationPhase::Registered | RegistrationPhase::Failed => false,
    }
}

/// The step after the TV's answer to the registration message `t`: wait for
/// the user's decision when the TV prompts for pairing; fail when the TV
/// reports a `returnValue` other than `true`; else the connection is
/// registered.
pub open spec fn after_registration_reply(t: Seq<char>) -> (
    RegistrationPhase,
    RegistrationActionView,
) {
    if json_node_at(t, "/payload/pairingType"@) == Some(JsonNodeView::String("PROMPT"@)) {
        (RegistrationPhase::AwaitingPairing, RegistrationActionView::Receive { timeout_millis: 60000 })
    } else if json_node_at(t, "/payload/returnValue"@) is Some && json_node_at(
        t,
        "/payload/returnValue"@,
    ) != Some(JsonNodeView::Bool(true)) {
        fail_connection("registration failed"@)
    } else {
        (
            RegistrationPhase::DrainingLeftovers,
            RegistrationActionView::DrainLeftovers { window_millis: 100 },
        )
    }
}

/// The step after the user's answer `t` to the pairing prompt: a rejection
/// is of type `error`; an acceptance may carry a new client key to store.
pub open spec fn after_pairing_reply(t: Seq<char>) -> (RegistrationPhase, RegistrationActionView) {
    if json_node_at(t, "/type"@) == Some(JsonNodeView::String("error"@)) {
        (
            RegistrationPhase::Failed,
            RegistrationActionView::Fail(WebOsErrorView::PairingRejected),
        )
    } else {
        match json_node_at(t, "/payload/client-key"@) {
            Some(JsonNodeView::String(key)) => (
                RegistrationPhase::SavingClientKey,
                RegistrationActionView::SaveClientKey(key),
            ),
            _ => (
                RegistrationPhase::DrainingLeftovers,
                RegistrationActionView::DrainLeftovers { window_millis: 100 },
            ),
        }
    }
}

/// The first step of the handshake: a plain WebSocket to `plain_port`.
pub open spec fn registration_start_spec(plain_port: u16) -> (
    RegistrationPhase,
    RegistrationActionView,
) {
    (
        RegistrationPhase::ConnectingPlain,
        RegistrationActionView::ConnectPlain {
            port: plain_port,
            timeout_millis: (CONNECTION_TIMEOUT_SECS * 1000) as u64,
        },
    )
}

/// The handshake: from the phase and what the transport made of its
/// action, the next phase and action. The plain port is tried first and
/// the TLS port after it fails; then hello, system information,
/// registration, the pairing prompt if the TV shows one, and a drain of
/// the messages the TV sends after registering.
pub open spec fn registration_transition(
    phase: RegistrationPhase,
    outcome: StepOutcomeView,
    client_key: Option<Seq<char>>,
) -> (RegistrationPhase, RegistrationActionView) {
    match phase {
        RegistrationPhase::ConnectingPlain => match outcome {
            StepOutcomeView::Done => (
                RegistrationPhase::SendingHello,
                RegistrationActionView::Send(hello_text()),
            ),
            StepOutcomeView::Failed(_) => (
                RegistrationPhase::ConnectingTls,
                RegistrationActionView::ConnectTls {
                    port: WS_PORT_TLS,
                    timeout_millis: (TLS_CONNECTION_TIMEOUT_SECS * 1000) as u64,
                },
            ),
            _ => fail_connection("plain WS connection timed out"@),
        },
        RegistrationPhase::ConnectingTls => match outcome {
            StepOutcomeView::Done => (
                RegistrationPhase::SendingHello,
                RegistrationActionView::Send(hello_text()),
            ),
            StepOutcomeView::Failed(e) => fail_connection(
                "plain WS failed, TLS also failed: "@ + e,
            ),
            _ => fail_connection("TLS connection timed out"@),
        },
        RegistrationPhase::SendingHello => match outcome {
            StepOutcomeView::Failed(e) => fail_connection("failed to send hello: "@ + e),
            _ => (
                RegistrationPhase::AwaitingHello,
                RegistrationActionView::Receive {
                    timeout_millis: (CONNECTION_TIMEOUT_SECS * 1000) as u64,
                },
            ),
        },
        RegistrationPhase::AwaitingHello => match outcome {
            StepOutcomeView::Message(ReceivedView::Text(_)) => (
                RegistrationPhase::QueryingSystemInfo,
                RegistrationActionView::SendAndDrainSystemInfo {
                    request: system_info_request_text(),
                    window_millis: 500,
                },
            ),
            StepOutcomeView::Message(ReceivedView::NonText) => fail_connection(
                "unexpected non-text hello response"@,
            ),
            StepOutcomeView::Message(ReceivedView::Error(e)) => fail_connection(
                "hello error: "@ + e,
            ),
            StepOutcomeView::Message(ReceivedView::Closed) => fail_connection(
                "connection closed before hello"@,
            ),
            _ => fail_connection("hello response timed out"@),
        },
        RegistrationPhase::QueryingSystemInfo => (
            RegistrationPhase::SendingRegistration,
            RegistrationActionView::Send(registration_text(client_key)),
        ),
        RegistrationPhase::SendingRegistration => match outcome {
            StepOutcomeView::Failed(e) => fail_connection("failed to send registration: "@ + e),
            _ => (
                RegistrationPhase::AwaitingRegistration,
                RegistrationActionView::Receive { timeout_millis: 15000 },
            ),
        },
        RegistrationPhase::AwaitingRegistration => match outcome {
            StepOutcomeView::Message(ReceivedView::Text(t)) => after_registration_reply(t),
            StepOutcomeView::Message(ReceivedView::NonText) => fail_connection(
                "unexpected non-text registration response"@,
            ),
            StepOutcomeView::Message(ReceivedView::Error(e)) => fail_connection(
                "registration error: "@ + e,
            ),
            _ => (
                RegistrationPhase::Failed,
                RegistrationActionView::Fail(WebOsErrorView::PairingRequired),
            ),
        },
        RegistrationPhase::AwaitingPairing => match outcome {
            StepOutcomeView::Message(ReceivedView::Text(t)) => after_pairing_reply(t),
            StepOutcomeView::Message(ReceivedView::NonText) => (
                RegistrationPhase::Failed,
                RegistrationActionView::Fail(WebOsErrorView::PairingRejected),
            ),
            _ => (
                RegistrationPhase::Failed,
                RegistrationActionView::Fail(WebOsErrorView::PairingRequired),
            ),
        },
        RegistrationPhase::SavingClientKey => (
            RegistrationPhase::DrainingLeftovers,
            RegistrationActionView::DrainLeftovers { window_millis: 100 },
        ),
        _ => (RegistrationPhase::Registered, RegistrationActionView::Finish),
    }
}

/// The first phase and action of the handshake.
pub fn registration_start(plain_port: u16) -> (r: (RegistrationPhase, RegistrationAction))
    ensures
        (r.0, r.1@) == registration_start_spec(plain_port),
{
    (
        RegistrationPhase::ConnectingPlain,
        RegistrationAction::ConnectPlain {
            port: plain_port,
            timeout_millis: CONNECTION_TIMEOUT_SECS * 1000,
        },
    )
}

fn fail_with(message: &str) -> (r: (RegistrationPhase, RegistrationAction))
    ensures
        (r.0, r.1@) == fail_connection(message@),
{
    (
        RegistrationPhase::Failed,
        RegistrationAction::Fail(WebOsError::ConnectionFailed(String::from_str(message))),
    )
}

fn fail_with_detail(message: &str, detail: &str) -> (r: (RegistrationPhase, RegistrationAction))
    ensures
        (r.0, r.1@) == fail_connection(message@ + detail@),
{
    let mut text = String::from_str(message);
    text.append(detail);
    (RegistrationPhase::Failed, RegistrationAction::Fail(WebOsError::ConnectionFailed(text)))
}

fn registration_reply_step(t: &str) -> (r: (RegistrationPhase, RegistrationAction))
    ensures
        (r.0, r.1@) == after_registration_reply(t@),
{
    proof {
        reveal_strlit("PROMPT");
    }
    let prompt = match node_at(t, "/payload/pairingType") {
        Some(JsonNode::String(kind)) => str_eq(kind.as_str(), "PROMPT"),
        _ => false,
    };
    if prompt {
        return (RegistrationPhase::AwaitingPairing, RegistrationAction::Receive { timeout_millis: 60000 });
    }
    let refused = match node_at(t, "/payload/returnValue") {
        Some(JsonNode::Bool(true)) => false,
        Some(_) => true,
        None => false,
    };
    if refused {
        fail_with("registration failed")
    } else {
        (RegistrationPhase::DrainingLeftovers, RegistrationAction::DrainLeftovers { window_millis: 100 })
    }
}

fn pairing_reply_step(t: &str) -> (r: (RegistrationPhase, RegistrationAction))
    ensures
        (r.0, r.1@) == after_pairing_reply(t@),
{
    proof {
        reveal_strlit("error");
    }
    let rejected = match node_at(t, "/type") {
        Some(JsonNode::String(kind)) => str_eq(kind.as_str(), "error"),
        _ => false,
    };
    if rejected {
        return (RegistrationPhase::Failed, RegistrationAction::Fail(WebOsError::PairingRejected));
    }
    match node_at(t, "/payload/client-key") {
        Some(JsonNode::String(key)) => (
            RegistrationPhase::SavingClientKey,
            RegistrationAction::SaveClientKey(key),
        ),
        _ => (RegistrationPhase::DrainingLeftovers, RegistrationAction::DrainLeftovers { window_millis: 100 }),
    }
}

/// The next phase and action of the handshake, from the phase and what the
/// transport made of the last action.
pub fn registration_step(
    phase: RegistrationPhase,
    outcome: StepOutcome,
    client_key: Option<&str>,
) -> (r: (RegistrationPhase, RegistrationAction))
    requires
        outcome_fits(phase, outcome@),
    ensures
        (r.0, r.1@) == registration_transition(
            phase,
            outcome@,
            match client_key {
                Some(k) => Some(k@),
                None => None,
            },
        ),
{
    match phase {
        RegistrationPhase::ConnectingPlain => match outcome {
            StepOutcome::Done => (RegistrationPhase::SendingHello, RegistrationAction::Send(hello_message())),
            StepOutcome::Failed(_) => (
                RegistrationPhase::ConnectingTls,
                RegistrationAction::ConnectTls {
                    port: WS_PORT_TLS,
                    timeout_millis: TLS_CONNECTION_TIMEOUT_SECS * 1000,
                },
            ),
            _ => fail_with("plain WS connection timed out"),
        },
        RegistrationPhase::ConnectingTls => match outcome {
            StepOutcome::Done => (RegistrationPhase::SendingHello, RegistrationAction::Send(hello_message())),
            StepOutcome::Failed(e) => fail_with_detail("plain WS failed, TLS also failed: ", e.as_str()),
            _ => fail_with("TLS connection timed out"),
        },
        RegistrationPhase::SendingHello => match outcome {
            StepOutcome::Failed(e) => fail_with_detail("failed to send hello: ", e.as_str()),
            _ => (
                RegistrationPhase::AwaitingHello,
                RegistrationAction::Receive { timeout_millis: CONNECTION_TIMEOUT_SECS * 1000 },
            ),
        },
        RegistrationPhase::AwaitingHello => match outcome {
            StepOutcome::Message(Received::Text(_)) => (
                RegistrationPhase::QueryingSystemInfo,
                RegistrationAction::SendAndDrainSystemInfo {
                    request: system_info_request(),
                    window_millis: 500,
                },
            ),
            StepOutcome::Message(Received::NonText) => fail_with("unexpected non-text hello response"),
            StepOutcome::Message(Received::Error(e)) => fail_with_detail("hello error: ", e.as_str()),
            StepOutcome::Message(Received::Closed) => fail_with("connection closed before hello"),
            _ => fail_with("hello response timed out"),
        },
        RegistrationPhase::QueryingSystemInfo => (
            RegistrationPhase::SendingRegistration,
            RegistrationAction::Send(registration_payload(client_key)),
        ),
        RegistrationPhase::SendingRegistration => match outcome {
            StepOutcome::Failed(e) => fail_with_detail("failed to send registration: ", e.as_str()),
            _ => (RegistrationPhase::AwaitingRegistration, RegistrationAction::Receive { timeout_millis: 15000 }),
        },
        RegistrationPhase::AwaitingRegistration => match outcome {
            StepOutcome::Message(Received::Text(t)) => registration_reply_step(t.as_str()),
            StepOutcome::Message(Received::NonText) => fail_with("unexpected non-text registration response"),
            StepOutcome::Message(Received::Error(e)) => fail_with_detail("registration error: ", e.as_str()),
            _ => (RegistrationPhase::Failed, RegistrationAction::Fail(WebOsError::PairingRequired)),
        },
        RegistrationPhase::AwaitingPairing => match outcome {
            StepOutcome::Message(Received::Text(t)) => pairing_reply_step(t.as_str()),
            StepOutcome::Message(Received::NonText) => (
                RegistrationPhase::Failed,
                RegistrationAction::Fail(WebOsError::PairingRejected),
            ),
            _ => (RegistrationPhase::Failed, RegistrationAction::Fail(WebOsError::PairingRequired)),
        },
        RegistrationPhase::SavingClientKey => (
            RegistrationPhase::DrainingLeftovers,
            RegistrationAction::DrainLeftovers { window_millis: 100 },
        ),
        _ => (RegistrationPhase::Registered, RegistrationAction::Finish),
    }
}

/// The message id of the text message `t`, if it has a string one.
pub open spec fn message_id(t: Seq<char>) -> Option<Seq<char>> {
    match json_node_at(t, "/id"@) {
        Some(JsonNodeView::String(id)) => Some(id),
        _ => None,
    }
}

/// Whether `t` answers the system information request.
pub fn is_system_info_reply(t: &str) -> (r: bool)
    ensures
        r == (message_id(t@) == Some("get_sys_info"@)),
{
    match node_at(t, "/id") {
        Some(JsonNode::String(id)) => str_eq(id.as_str(), "get_sys_info"),
        _ => false,
    }
}

/// Whether `t` echoes the registration (its id starts with `register_` or
/// is `hello`) rather than answering a request.
pub fn is_registration_echo(t: &str) -> (r: bool)
    ensures
        r == (message_id(t@) matches Some(id) && (is_prefix_of("register_"@, id) || id
            == "hello"@)),
{
    match node_at(t, "/id") {
        Some(JsonNode::String(id)) => starts_with(id.as_str(), "register_") || str_eq(
            id.as_str(),
            "hello",
        ),
        _ => false,
    }
}

// ---------------------------------------------------------------------------
// Requests and their replies
// ---------------------------------------------------------------------------

/// The error that the TV reports in the reply `t`: a `returnValue` of
/// `false` under `payload`, with the `errorCode` (else -1) and the
/// `errorMessage` or, when that is absent, the `errorText` (else
/// `unknown error`).
pub open spec fn reply_error(t: Seq<char>) -> Option<WebOsErrorView> {
    if json_node_at(t, "/payload/returnValue"@) == Some(JsonNodeView::Bool(false)) {
        let code = match json_node_at(t, "/payload/errorCode"@) {
            Some(JsonNodeView::Number { as_i64: Some(c), .. }) => c,
            _ => -1i64,
        };
        let text_node = if json_node_at(t, "/payload/errorMessage"@) is Some {
            json_node_at(t, "/payload/errorMessage"@)
        } else {
            json_node_at(t, "/payload/errorText"@)
        };
        let message = match text_node {
            Some(JsonNodeView::String(m)) => m,
            _ => "unknown error"@,
        };
        Some(WebOsErrorView::WebOsError { code, message })
    } else {
        None
    }
}

/// The error the TV reports in the reply `t`, if any.
pub fn ssap_reply_error(t: &str) -> (r: Option<WebOsError>)
    ensures
        match reply_error(t@) {
            Some(e) => r matches Some(err) && err@ == e,
            None => r is None,
        },
{
    match node_at(t, "/payload/returnValue") {
        Some(JsonNode::Bool(false)) => {},
        _ => return None,
    }
    let code: i64 = match node_at(t, "/payload/errorCode") {
        Some(JsonNode::Number { as_i64: Some(c), .. }) => c,
        _ => -1,
    };
    let text_node = match node_at(t, "/payload/errorMessage") {
        Some(node) => Some(node),
        None => node_at(t, "/payload/errorText"),
    };
    let message = match text_node {
        Some(JsonNode::String(m)) => m,
        _ => String::from_str("unknown error"),
    };
    Some(WebOsError::WebOsError { code, message })
}

/// What a request comes to, from what the transport made of sending it or
/// of waiting for its reply.
pub open spec fn request_result(outcome: StepOutcomeView) -> Result<Seq<char>, WebOsErrorView> {
    match outcome {
        StepOutcomeView::Failed(e) => Err(
            WebOsErrorView::ConnectionFailed("failed to send request: "@ + e),
        ),
        StepOutcomeView::Message(ReceivedView::Text(t)) => match reply_error(t) {
            Some(e) => Err(e),
            None => Ok(t),
        },
        StepOutcomeView::Message(ReceivedView::NonText) => Err(
            WebOsErrorView::WebOsError { code: -1i64, message: "unexpected non-text response"@ },
        ),
        StepOutcomeView::Message(ReceivedView::Error(e)) => Err(
            WebOsErrorView::ConnectionFailed("response error: "@ + e),
        ),
        _ => Err(WebOsErrorView::Timeout),
    }
}

/// The reply to a request, or how the request failed: a send failure, a
/// silent or closed connection, a reply of the wrong kind, or an error
/// that the TV reports.
pub fn ssap_response(outcome: StepOutcome) -> (r: Result<String, WebOsError>)
    requires
        !(outcome@ is Done),
    ensures
        match request_result(outcome@) {
            Ok(t) => r matches Ok(text) && text@ == t,
            Err(e) => r matches Err(err) && err@ == e,
        },
{
    match outcome {
        StepOutcome::Failed(e) => {
            let mut m = String::from_str("failed to send request: ");
            m.append(e.as_str());
            Err(WebOsError::ConnectionFailed(m))
        },
        StepOutcome::Message(Received::Text(t)) => match ssap_reply_error(t.as_str()) {
            Some(e) => Err(e),
            None => Ok(t),
        },
        StepOutcome::Message(Received::NonText) => Err(
            WebOsError::WebOsError {
                code: -1,
                message: String::from_str("unexpected non-text response"),
            },
        ),
        StepOutcome::Message(Received::Error(e)) => {
            let mut m = String::from_str("response error: ");
            m.append(e.as_str());
            Err(WebOsError::ConnectionFailed(m))
        },
        _ => Err(WebOsError::Timeout),
    }
}

pub const GET_INPUT_URI: &'static str = "ssap://com.webos.applicationManager/getForegroundAppInfo";

pub const GET_SETTINGS_URI: &'static str = "ssap://settings/getSystemSettings";

pub const SWITCH_INPUT_URI: &'static str = "ssap://tv/switchInput";

pub const SET_PQ_DATA_URI: &'static str = "ssap://externalpq/setExternalPqData";

pub const TURN_OFF_URI: &'static str = "ssap://system/turnOff";

pub const SCREEN_OFF_URI: &'static str = "ssap://com.webos.service.tvpower/power/turnOffScreen";

pub const SCREEN_ON_URI: &'static str = "ssap://com.webos.service.tvpower/power/turnOnScreen";

/// The payload of requests that take no arguments.
pub fn empty_payload() -> (r: String)
    ensures
        r@ == "{}"@,
{
    String::from_str("{}")
}

/// The payload that asks for the backlight picture setting.
pub open spec fn backlight_query_text() -> Seq<char> {
    "{\"category\":\"picture\",\"keys\":[\"backlight\"]}"@
}

pub fn backlight_query_payload() -> (r: String)
    ensures
        r@ == backlight_query_text(),
{
    String::from_str("{\"category\":\"picture\",\"keys\":[\"backlight\"]}")
}

/// The payload that switches to the HDMI input `input`.
pub open spec fn switch_input_text(input: HdmiInput) -> Seq<char> {
    "{\"inputId\":"@ + json_string_literal(input.name()) + "}"@
}

pub fn switch_input_payload(input: HdmiInput) -> (r: String)
    ensures
        r@ == switch_input_text(input),
{
    let mut r = String::from_str("{\"inputId\":");
    let q = quote(input.as_str());
    r.append(q.as_str());
    r.append("}");
    r
}

/// The character of the standard Base64 alphabet for the six bits `v`:
/// `A`-`Z`, `a`-`z`, `0`-`9`, `+`, `/`.
pub open spec fn base64_char(v: int) -> char {
    if v < 26 {
        ('A' as int + v) as char
    } else if v < 52 {
        ('a' as int + v - 26) as char
    } else if v < 62 {
        ('0' as int + v - 52) as char
    } else if v == 62 {
        '+'
    } else {
        '/'
    }
}

/// The standard Base64 encoding of `bytes` (RFC 4648, section 4): each
/// group of three bytes becomes four characters, and a last group of one
/// or two bytes is padded with `=`.
pub open spec fn base64_standard(bytes: Seq<u8>) -> Seq<char>
    decreases bytes.len(),
{
    let b0 = if bytes.len() > 0 { bytes[0] as int } else { 0 };
    let b1 = if bytes.len() > 1 { bytes[1] as int } else { 0 };
    let b2 = if bytes.len() > 2 { bytes[2] as int } else { 0 };
    if bytes.len() == 0 {
        Seq::empty()
    } else if bytes.len() == 1 {
        seq![base64_char(b0 / 4), base64_char((b0 % 4) * 16), '=', '=']
    } else if bytes.len() == 2 {
        seq![
            base64_char(b0 / 4),
            base64_char((b0 % 4) * 16 + b1 / 16),
            base64_char((b1 % 16) * 4),
            '=',
        ]
    } else {
        seq![
            base64_char(b0 / 4),
            base64_char((b0 % 4) * 16 + b1 / 16),
            base64_char((b1 % 16) * 4 + b2 / 64),
            base64_char(b2 % 64),
        ] + base64_standard(bytes.subrange(3, bytes.len() as int))
    }
}

/// The standard Base64 encoding of `bytes`.
///
/// Calls `base64::engine::general_purpose::STANDARD.encode`: the standard
/// alphabet with `=` padding, as `base64_standard` spells out.
#[verifier::external_body]
fn base64_encode(bytes: &[u8]) -> (r: String)
    ensures
        r@ == base64_standard(bytes@),
{
    base64::Engine::encode(&base64::engine::general_purpose::STANDARD, bytes)
}

/// The payload that sets the OLED backlight through the picture calibration
/// service: the percentage as a little-endian `u16`, Base64-encoded.
pub open spec fn backlight_data_text(percent: u8) -> Seq<char> {
    "{\"command\":\"BACKLIGHT_UI_DATA\",\"data\":"@ + json_string_literal(
        base64_standard(seq![percent, 0u8]),
    ) + ",\"dataCount\":1,\"dataOpt\":1,\"dataType\":\"unsigned integer16\",\"profileNo\":0,\"programID\":1}"@
}

pub fn backlight_data_payload(brightness: OledBrightness) -> (r: String)
    ensures
        r@ == backlight_data_text(brightness.percent() as u8),
{
    let value = brightness.as_percent();
    let bytes: [u8; 2] = [value, 0u8];
    assert(bytes@ =~= seq![value, 0u8]);
    let data = base64_encode(&bytes);
    let mut r = String::from_str("{\"command\":\"BACKLIGHT_UI_DATA\",\"data\":");
    let q = quote(data.as_str());
    r.append(q.as_str());
    r.append(
        ",\"dataCount\":1,\"dataOpt\":1,\"dataType\":\"unsigned integer16\",\"profileNo\":0,\"programID\":1}",
    );
    r
}

/// The output that the commands which only switch something report.
pub fn command_ok_output() -> (r: CommandOutput)
    ensures
        r.stdout_view() == "{\"returnValue\": true}\n"@,
        r.stderr_view().len() == 0,
{
    CommandOutput::new(String::from_str("{\"returnValue\": true}\n"), String::new())
}

/// The reply `t` as error outputs show it: printed compactly, or `{}` when
/// it is not JSON.
pub open spec fn reply_text(t: Seq<char>) -> Seq<char> {
    match json_compact_text(t) {
        Some(text) => text,
        None => "{}"@,
    }
}

/// The output that carries the reply `t`, printed compactly.
pub fn reply_output(t: &str) -> (r: CommandOutput)
    ensures
        r.stdout_view() == reply_text(t@),
        r.stderr_view().len() == 0,
{
    let text = match compact_text(t) {
        Some(text) => text,
        None => String::from_str("{}"),
    };
    CommandOutput::new(text, String::new())
}

/// The application shown, from the reply to the foreground-application
/// request: `appId` under `payload`, or `input` when that is absent.
pub open spec fn foreground_app(t: Seq<char>) -> Option<Seq<char>> {
    let node = if json_node_at(t, "/payload/appId"@) is Some {
        json_node_at(t, "/payload/appId"@)
    } else {
        json_node_at(t, "/payload/input"@)
    };
    match node {
        Some(JsonNodeView::String(app)) => Some(app),
        _ => None,
    }
}

/// The application id in the reply `t`, or the error for a reply without
/// one.
pub fn input_from_reply(t: &str) -> (r: Result<String, TvError>)
    ensures
        match foreground_app(t@) {
            Some(app) => r matches Ok(id) && id@ == app,
            None => r matches Err(TvError::InvalidOutput { command, output, message }) && command@
                == "get_input"@ && output.stdout_view() == reply_text(t@)
                && output.stderr_view().len() == 0 && message@
                == "expected appId or input in response payload"@,
        },
{
    let node = match node_at(t, "/payload/appId") {
        Some(n) => Some(n),
        None => node_at(t, "/payload/input"),
    };
    match node {
        Some(JsonNode::String(app)) => Ok(app),
        _ => Err(
            TvError::InvalidOutput {
                command: "get_input",
                output: reply_output(t),
                message: "expected appId or input in response payload",
            },
        ),
    }
}

/// The backlight in the reply `t` to the settings request, as the `u64`
/// under `payload.settings.backlight`.
pub open spec fn reported_backlight(t: Seq<char>) -> Option<u64> {
    match json_node_at(t, "/payload/settings/backlight"@) {
        Some(JsonNodeView::Number { as_u64: Some(v), .. }) => Some(v),
        _ => None,
    }
}

/// The OLED brightness in the reply `t`: the reported backlight, cut to its
/// low byte, which must not exceed 100.
pub fn brightness_from_reply(t: &str) -> (r: Result<OledBrightness, TvError>)
    ensures
        match reported_backlight(t@) {
            Some(v) => if (v as u8) <= OLED_BRIGHTNESS_MAX {
                r matches Ok(b) && b.percent() == v as u8
            } else {
                r matches Err(TvError::InvalidOutput { command, output, message }) && command@
                    == "get_oled_brightness"@ && output.stdout_view() == reply_text(t@)
                    && message@ == "brightness value out of range 0-100"@
            },
            None => r matches Err(TvError::InvalidOutput { command, output, message }) && command@
                == "get_oled_brightness"@ && output.stdout_view() == reply_text(t@)
                && message@ == "expected backlight value in settings response"@,
        },
{
    let backlight = match node_at(t, "/payload/settings/backlight") {
        Some(JsonNode::Number { as_u64: Some(v), .. }) => v,
        _ => {
            return Err(
                TvError::InvalidOutput {
                    command: "get_oled_brightness",
                    output: reply_output(t),
                    message: "expected backlight value in settings response",
                },
            );
        },
    };
    match OledBrightness::new(backlight as u8) {
        Ok(b) => Ok(b),
        Err(_) => Err(
            TvError::InvalidOutput {
                command: "get_oled_brightness",
                output: reply_output(t),
                message: "brightness value out of range 0-100",
            },
        ),
    }
}

// ---------------------------------------------------------------------------
// The client
// ---------------------------------------------------------------------------

/// A webOS client: where its key file is, the key read from it when the
/// client was made, how long to wait for a reply, and the plain WebSocket
/// port if it is not the usual one.
#[derive(Debug, Clone)]
pub struct WebOsTvClient {
    key_file_path: String,
    client_key: Option<String>,
    command_timeout_millis: u64,
    ws_port: Option<u16>,
}

/// The views of an optional string.
pub open spec fn opt_view(s: Option<String>) -> Option<Seq<char>> {
    match s {
        Some(x) => Some(x@),
        None => None,
    }
}

impl WebOsTvClient {
    pub closed spec fn key_file_path_view(&self) -> Seq<char> {
        self.key_file_path@
    }

    pub closed spec fn client_key_view(&self) -> Option<Seq<char>> {
        opt_view(self.client_key)
    }

    pub closed spec fn timeout_millis(&self) -> u64 {
        self.command_timeout_millis
    }

    pub closed spec fn port_override(&self) -> Option<u16> {
        self.ws_port
    }

    /// A client keyed by `key_file_path`, whose content (if the file could
    /// be read) was `key_file_content`; replies are awaited for ten seconds.
    pub fn new(key_file_path: String, key_file_content: Option<String>) -> (r: WebOsTvClient)
        ensures
            r.key_file_path_view() == key_file_path@,
            r.client_key_view() == match key_file_content {
                Some(c) => stored_client_key(c@),
                None => None,
            },
            r.timeout_millis() == REQUEST_TIMEOUT_SECS * 1000,
            r.port_override() is None,
    {
        let client_key = match key_file_content {
            Some(content) => client_key_from_file(content.as_str()),
            None => None,
        };
        WebOsTvClient {
            key_file_path,
            client_key,
            command_timeout_millis: REQUEST_TIMEOUT_SECS * 1000,
            ws_port: None,
        }
    }

    /// The same client, waiting `timeout_millis` for replies.
    pub fn with_command_timeout(self, timeout_millis: u64) -> (r: WebOsTvClient)
        ensures
            r.key_file_path_view() == self.key_file_path_view(),
            r.client_key_view() == self.client_key_view(),
            r.timeout_millis() == timeout_millis,
            r.port_override() == self.port_override(),
    {
        WebOsTvClient { command_timeout_millis: timeout_millis, ..self }
    }

    /// The same client, using `port` for the plain WebSocket.
    pub fn with_ws_port(self, port: u16) -> (r: WebOsTvClient)
        ensures
            r.key_file_path_view() == self.key_file_path_view(),
            r.client_key_view() == self.client_key_view(),
            r.timeout_millis() == self.timeout_millis(),
            r.port_override() == Some(port),
    {
        WebOsTvClient { ws_port: Some(port), ..self }
    }

    pub fn key_file_path(&self) -> (r: &str)
        ensures
            r@ == self.key_file_path_view(),
    {
        self.key_file_path.as_str()
    }

    pub fn command_timeout_millis(&self) -> (r: u64)
        ensures
            r == self.timeout_millis(),
    {
        self.command_timeout_millis
    }

    /// The port of the plain WebSocket: the override, else 3000.
    pub fn plain_port(&self) -> (r: u16)
        ensures
            r == match self.port_override() {
                Some(p) => p,
                None => WS_PORT_PLAIN,
            },
    {
        match self.ws_port {
            Some(p) => p,
            None => WS_PORT_PLAIN,
        }
    }

    /// The client key to register with: the one in the key file now (whose
    /// content, if it could be read, is `key_file_content`), else the one
    /// read when the client was made.
    pub fn key_for_request(&self, key_file_content: Option<String>) -> (r: Option<String>)
        ensures
            opt_view(r) == match key_file_content {
                Some(c) => match stored_client_key(c@) {
                    Some(k) => Some(k),
                    None => self.client_key_view(),
                },
                None => self.client_key_view(),
            },
    {
        let from_file = match key_file_content {
            Some(content) => client_key_from_file(content.as_str()),
            None => None,
        };
        match from_file {
            Some(k) => Some(k),
            None => match &self.client_key {
                Some(k) => Some(k.clone()),
                None => None,
            },
        }
    }
}

// ---------------------------------------------------------------------------
// Laws of the handshake
// ---------------------------------------------------------------------------

/// A connection that opens, over the plain port or over TLS, goes on with
/// the hello message; and a refused plain connection falls back to TLS on
/// port 3001, so a TV that answers only over TLS is greeted too.
pub proof fn lemma_open_connection_sends_hello(
    phase: RegistrationPhase,
    refusal: Seq<char>,
    client_key: Option<Seq<char>>,
)
    requires
        phase == RegistrationPhase::ConnectingPlain || phase == RegistrationPhase::ConnectingTls,
    ensures
        registration_transition(phase, StepOutcomeView::Done, client_key) == (
            RegistrationPhase::SendingHello,
            RegistrationActionView::Send(hello_text()),
        ),
        registration_transition(
            RegistrationPhase::ConnectingPlain,
            StepOutcomeView::Failed(refusal),
            client_key,
        ).0 == RegistrationPhase::ConnectingTls,
        registration_transition(
            RegistrationPhase::ConnectingPlain,
            StepOutcomeView::Failed(refusal),
            client_key,
        ).1 matches RegistrationActionView::ConnectTls { port, .. } && port == 3001,
        registration_transition(
            registration_transition(
                RegistrationPhase::ConnectingPlain,
                StepOutcomeView::Failed(refusal),
                client_key,
            ).0,
            StepOutcomeView::Done,
            client_key,
        ) == (RegistrationPhase::SendingHello, RegistrationActionView::Send(hello_text())),
{
}

/// The position of a phase in the handshake.
pub open spec fn phase_rank(phase: RegistrationPhase) -> int {
    match phase {
        RegistrationPhase::ConnectingPlain => 0,
        RegistrationPhase::ConnectingTls => 1,
        RegistrationPhase::SendingHello => 2,
        RegistrationPhase::AwaitingHello => 3,
        RegistrationPhase::QueryingSystemInfo => 4,
        RegistrationPhase::SendingRegistration => 5,
        RegistrationPhase::AwaitingRegistration => 6,
        RegistrationPhase::AwaitingPairing => 7,
        RegistrationPhase::SavingClientKey => 8,
        RegistrationPhase::DrainingLeftovers => 9,
        RegistrationPhase::Registered => 10,
        RegistrationPhase::Failed => 10,
    }
}

/// Every step of the handshake moves it forward, so it ends after at most
/// ten steps; and it ends exactly when it says so: the phase becomes
/// `Registered` with the action `Finish` and `Failed` with a `Fail`, and no
/// other step yields either.
pub proof fn lemma_registration_progresses(
    phase: RegistrationPhase,
    outcome: StepOutcomeView,
    client_key: Option<Seq<char>>,
)
    requires
        outcome_fits(phase, outcome),
    ensures
        phase_rank(registration_transition(phase, outcome, client_key).0) > phase_rank(phase),
        (registration_transition(phase, outcome, client_key).0 == RegistrationPhase::Registered)
            <==> (registration_transition(phase, outcome, client_key).1 is Finish),
        (registration_transition(phase, outcome, client_key).0 == RegistrationPhase::Failed) <==> (
        registration_transition(phase, outcome, client_key).1 is Fail),
{
}

} // verus!
