//! What LG Buddy knows of the TV apart from the transport: the output of a
//! command sent to it, the errors such a command can end in, the OLED
//! brightness and the input that is shown.

use vstd::prelude::*;
use vstd::string::{StrSliceExecFns, StringExecFns};

use crate::config::HdmiInput;
use crate::text::{
    contains, contains_text, decimal, int_decimal, parse_i64, decimal_i64_value, trim, trim_end,
    trim_end_of, trim_of,
};

verus! {

pub const OLED_BRIGHTNESS_MIN: u8 = 0;

pub const OLED_BRIGHTNESS_MAX: u8 = 100;

// ---------------------------------------------------------------------------
// Command output
// ---------------------------------------------------------------------------

/// What a command sent to the TV printed.
#[derive(Debug, Clone, PartialEq, Eq)]
pub struct CommandOutput {
    stdout: String,
    stderr: String,
}

impl CommandOutput {
    pub closed spec fn stdout_view(&self) -> Seq<char> {
        self.stdout@
    }

    pub closed spec fn stderr_view(&self) -> Seq<char> {
        self.stderr@
    }

    /// Standard output followed by standard error.
    pub open spec fn combined(&self) -> Seq<char> {
        self.stdout_view() + self.stderr_view()
    }

    pub fn new(stdout: String, stderr: String) -> (r: Self)
        ensures
            r.stdout_view() == stdout@,
            r.stderr_view() == stderr@,
    {
        CommandOutput { stdout, stderr }
    }

    pub fn stdout(&self) -> (r: &str)
        ensures
            r@ == self.stdout_view(),
    {
        self.stdout.as_str()
    }

    pub fn stderr(&self) -> (r: &str)
        ensures
            r@ == self.stderr_view(),
    {
        self.stderr.as_str()
    }

    /// Standard output and standard error, one after the other.
    pub fn combined_output(&self) -> (r: String)
        ensures
            r@ == self.combined(),
    {
        let out_empty = self.stdout.as_str().unicode_len() == 0;
        let err_empty = self.stderr.as_str().unicode_len() == 0;
        if !out_empty && !err_empty {
            let mut r = self.stdout.clone();
            r.append(self.stderr.as_str());
            r
        } else if !out_empty {
            assert(self.combined() =~= self.stdout@);
            self.stdout.clone()
        } else if !err_empty {
            assert(self.combined() =~= self.stderr@);
            self.stderr.clone()
        } else {
            assert(self.combined() =~= Seq::<char>::empty());
            String::new()
        }
    }
}

// ---------------------------------------------------------------------------
// Errors of TV commands
// ---------------------------------------------------------------------------

/// The kind of I/O failure that kept a command from running.
#[derive(Debug, Clone, Copy, PartialEq, Eq, Structural)]
pub enum IoErrorKind {
    /// The TV could not be reached.
    ConnectionRefused,
    /// The TV refused the client (pairing required or rejected).
    PermissionDenied,
    /// The TV did not answer in time.
    TimedOut,
    /// Any other failure.
    Other,
}

/// How a command sent to the TV failed.
#[derive(Debug)]
pub enum TvError {
    /// The command could not be run; `kind` is the kind of the I/O error and
    /// `source` its text.
    Io { command: &'static str, kind: IoErrorKind, source: String },
    /// The command ran and failed; `status` is its exit code, if it had one.
    CommandFailed { command: &'static str, status: Option<i32>, output: CommandOutput },
    /// The command ran but its output could not be understood.
    InvalidOutput { command: &'static str, output: CommandOutput, message: &'static str },
}

/// The tail that an error message gets from the output of the command: `: `
/// and the output without trailing white space, unless the output is blank.
pub open spec fn output_detail(output: CommandOutput) -> Seq<char> {
    if trim_of(output.combined()).len() == 0 {
        Seq::empty()
    } else {
        ": "@ + trim_end_of(output.combined())
    }
}

/// The exit status as the error message shows it.
pub open spec fn status_text(status: Option<i32>) -> Seq<char> {
    match status {
        Some(code) => int_decimal(code as int),
        None => "terminated by signal"@,
    }
}

/// The text the error that marks a screen that could not be unblanked
/// because the TV is in another sub-state.
pub open spec fn unblank_mismatch_marker() -> Seq<char> {
    "errorCode': '-102'"@
}

impl TvError {
    pub open spec fn text(&self) -> Seq<char> {
        match self {
            TvError::Io { command, source, .. } => "failed to run `"@ + command@ + "`: "@ + source@,
            TvError::CommandFailed { command, status, output } => "`"@ + command@
                + "` failed with status "@ + status_text(*status) + output_detail(*output),
            TvError::InvalidOutput { command, output, message } => "invalid output from `"@
                + command@ + "`: "@ + message@ + output_detail(*output),
        }
    }

    /// The text of the error, as it is shown to users.
    pub fn message(&self) -> (r: String)
        ensures
            r@ == self.text(),
    {
        match self {
            TvError::Io { command, source, .. } => {
                let mut r = String::from_str("failed to run `");
                r.append(command);
                r.append("`: ");
                r.append(source.as_str());
                r
            },
            TvError::CommandFailed { command, status, output } => {
                let mut r = String::from_str("`");
                r.append(command);
                r.append("` failed with status ");
                match status {
                    Some(code) => {
                        let t = decimal(*code as i128);
                        r.append(t.as_str());
                    },
                    None => r.append("terminated by signal"),
                }
                append_output_detail(&mut r, output);
                r
            },
            TvError::InvalidOutput { command, output, message } => {
                let mut r = String::from_str("invalid output from `");
                r.append(command);
                r.append("`: ");
                r.append(message);
                append_output_detail(&mut r, output);
                r
            },
        }
    }

    /// Whether the TV refused to unblank the screen because it was in another
    /// sub-state (webOS error code -102 in the output of the command).
    pub fn indicates_screen_unblank_substate_mismatch(&self) -> (r: bool)
        ensures
            r == match self {
                TvError::CommandFailed { output, .. } | TvError::InvalidOutput { output, .. } =>
                    contains_text(output.stderr_view(), unblank_mismatch_marker()) || contains_text(
                        output.stdout_view(),
                        unblank_mismatch_marker(),
                    ),
                TvError::Io { .. } => false,
            },
    {
        match self {
            TvError::CommandFailed { output, .. } | TvError::InvalidOutput { output, .. } => {
                contains(output.stderr(), "errorCode': '-102'") || contains(
                    output.stdout(),
                    "errorCode': '-102'",
                )
            },
            TvError::Io { .. } => false,
        }
    }
}

fn append_output_detail(r: &mut String, output: &CommandOutput)
    ensures
        final(r)@ == old(r)@ + output_detail(*output),
{
    let combined = output.combined_output();
    let trimmed = trim(combined.as_str());
    if trimmed.unicode_len() != 0 {
        r.append(": ");
        r.append(trim_end(combined.as_str()));
    } else {
        assert(old(r)@ + output_detail(*output) =~= old(r)@);
    }
}

// ---------------------------------------------------------------------------
// OLED brightness
// ---------------------------------------------------------------------------

/// A value that is not an OLED brightness.
#[derive(Debug, Clone, PartialEq, Eq)]
pub struct OledBrightnessParseError {
    value: String,
}

impl OledBrightnessParseError {
    pub closed spec fn value_view(&self) -> Seq<char> {
        self.value@
    }

    pub open spec fn text(&self) -> Seq<char> {
        "invalid OLED brightness `"@ + self.value_view()
            + "`; expected an integer from 0 to 100"@
    }

    /// The text of the error, as it is shown to users.
    pub fn message(&self) -> (r: String)
        ensures
            r@ == self.text(),
    {
        let mut r = String::from_str("invalid OLED brightness `");
        r.append(self.value.as_str());
        r.append("`; expected an integer from 0 to 100");
        r
    }
}

/// The OLED pixel brightness of the TV, in percent.
#[derive(Debug, Clone, Copy, PartialEq, Eq, Structural)]
pub struct OledBrightness(u8);

/// The brightness that text names: an integer, as `i64::from_str` reads it,
/// from 0 to 100.
pub open spec fn brightness_named(value: Seq<char>) -> Option<int> {
    match decimal_i64_value(value) {
        Some(v) => if OLED_BRIGHTNESS_MIN <= v <= OLED_BRIGHTNESS_MAX {
            Some(v)
        } else {
            None
        },
        None => None,
    }
}

/// The brightness used when the TV's current one cannot be read.
pub const DEFAULT_OLED_BRIGHTNESS: u8 = 50;

impl Default for OledBrightness {
    fn default() -> (r: Self)
        ensures
            r.percent() == DEFAULT_OLED_BRIGHTNESS,
    {
        OledBrightness(DEFAULT_OLED_BRIGHTNESS)
    }
}

impl OledBrightness {
    pub closed spec fn percent(self) -> int {
        self.0 as int
    }

    /// A brightness never exceeds 100 percent.
    #[verifier::type_invariant]
    closed spec fn within_range(self) -> bool {
        self.0 <= OLED_BRIGHTNESS_MAX
    }

    /// The brightness `value`, which must not exceed 100.
    pub fn new(value: u8) -> (r: Result<OledBrightness, OledBrightnessParseError>)
        ensures
            value <= OLED_BRIGHTNESS_MAX ==> (r matches Ok(b) && b.percent() == value),
            value > OLED_BRIGHTNESS_MAX ==> (r matches Err(e) && e.value_view() == int_decimal(
                value as int,
            )),
    {
        if value <= OLED_BRIGHTNESS_MAX {
            Ok(OledBrightness(value))
        } else {
            Err(OledBrightnessParseError { value: decimal(value as i128) })
        }
    }

    /// The brightness written in `value`.
    pub fn parse(value: &str) -> (r: Result<OledBrightness, OledBrightnessParseError>)
        ensures
            match brightness_named(value@) {
                Some(v) => r matches Ok(b) && b.percent() == v,
                None => r matches Err(e) && e.value_view() == value@,
            },
    {
        match parse_i64(value) {
            Some(parsed) => {
                if parsed >= OLED_BRIGHTNESS_MIN as i64 && parsed <= OLED_BRIGHTNESS_MAX as i64 {
                    Ok(OledBrightness(parsed as u8))
                } else {
                    Err(OledBrightnessParseError { value: String::from_str(value) })
                }
            },
            None => Err(OledBrightnessParseError { value: String::from_str(value) }),
        }
    }

    pub fn as_percent(self) -> (r: u8)
        ensures
            r == self.percent(),
            r <= OLED_BRIGHTNESS_MAX,
    {
        proof {
            use_type_invariant(&self);
        }
        self.0
    }

    /// The brightness in decimal, as it is shown to users.
    pub fn to_text(self) -> (r: String)
        ensures
            r@ == int_decimal(self.percent()),
    {
        decimal(self.0 as i128)
    }
}

/// The brightness of `p` percent, for `p` from 0 to 100.
pub closed spec fn oled_brightness_of(p: int) -> OledBrightness {
    OledBrightness(p as u8)
}

/// A brightness is the brightness of its percentage, and the brightness of
/// a percentage from 0 to 100 has that percentage.
pub proof fn lemma_oled_brightness_of(b: OledBrightness, p: int)
    ensures
        oled_brightness_of(b.percent()) == b,
        0 <= p <= OLED_BRIGHTNESS_MAX ==> oled_brightness_of(p).percent() == p,
{
}

/// The text of a brightness reads back as that brightness.
pub proof fn lemma_brightness_text_round_trip(b: OledBrightness)
    requires
        b.percent() <= OLED_BRIGHTNESS_MAX,
    ensures
        brightness_named(int_decimal(b.percent())) == Some(b.percent()),
{
    crate::text::lemma_decimal_round_trip(b.0 as i64);
}

// ---------------------------------------------------------------------------
// The input that the TV shows
// ---------------------------------------------------------------------------

/// The input shown on the TV: one of its HDMI inputs or another application.
#[derive(Debug, Clone, PartialEq, Eq)]
pub enum CurrentInput {
    Hdmi(HdmiInput),
    Other(String),
}

impl CurrentInput {
    /// The input that the webOS application id `value` stands for.
    pub fn from_raw(value: String) -> (r: CurrentInput)
        ensures
            match r {
                CurrentInput::Hdmi(input) => input.app_id() == value@,
                CurrentInput::Other(other) => other@ == value@ && forall|input: HdmiInput|
                    input.app_id() != value@,
            },
    {
        match HdmiInput::from_app_id(value.as_str()) {
            Some(input) => CurrentInput::Hdmi(input),
            None => CurrentInput::Other(value),
        }
    }

    /// Whether the TV shows the HDMI input `input`.
    pub fn is_hdmi(&self, input: HdmiInput) -> (r: bool)
        ensures
            r == (*self matches CurrentInput::Hdmi(current) && current == input),
    {
        match self {
            CurrentInput::Hdmi(current) => *current == input,
            CurrentInput::Other(_) => false,
        }
    }

    pub open spec fn text(&self) -> Seq<char> {
        match self {
            CurrentInput::Hdmi(input) => input.name(),
            CurrentInput::Other(value) => value@,
        }
    }

    /// The input as it is shown to users.
    pub fn to_text(&self) -> (r: String)
        ensures
            r@ == self.text(),
    {
        match self {
            CurrentInput::Hdmi(input) => String::from_str(input.as_str()),
            CurrentInput::Other(value) => value.clone(),
        }
    }
}

} // verus!
