//! What the runtime commands report: the messages of the brightness
//! commands and of the resume and NetworkManager hooks, and how the output
//! of a brightness subprocess becomes an error message.

use vstd::prelude::*;
use vstd::string::{StrSliceExecFns, StringExecFns};

use crate::notifications::{Notification, NotificationError};
use crate::text::{decimal, int_decimal, is_prefix_of, strip_prefix, trim, trim_of};
use crate::tv::{CommandOutput, OledBrightness, TvError};

verus! {

/// The prefix that LG Buddy puts before its own messages.
pub open spec fn lg_buddy_prefix() -> Seq<char> {
    "LG Buddy: "@
}

/// `value` without a leading `LG Buddy: `.
pub open spec fn without_lg_buddy_prefix(value: Seq<char>) -> Seq<char> {
    if is_prefix_of(lg_buddy_prefix(), value) {
        value.subrange(lg_buddy_prefix().len() as int, value.len() as int)
    } else {
        value
    }
}

pub fn strip_lg_buddy_prefix(value: &str) -> (r: &str)
    ensures
        r@ == without_lg_buddy_prefix(value@),
{
    match strip_prefix(value, "LG Buddy: ") {
        Some(rest) => rest,
        None => value,
    }
}

/// The message of a brightness subprocess that failed: its trimmed
/// standard error, else its trimmed standard output, each without LG
/// Buddy's prefix; else its exit status.
pub open spec fn failed_command_message(
    stdout: Seq<char>,
    stderr: Seq<char>,
    status: Option<i32>,
) -> Seq<char> {
    if trim_of(stderr).len() > 0 {
        without_lg_buddy_prefix(trim_of(stderr))
    } else if trim_of(stdout).len() > 0 {
        without_lg_buddy_prefix(trim_of(stdout))
    } else {
        "brightness command failed with status "@ + match status {
            Some(code) => int_decimal(code as int),
            None => "terminated by signal"@,
        }
    }
}

pub fn command_output_message(stdout: &str, stderr: &str, status: Option<i32>) -> (r: String)
    ensures
        r@ == failed_command_message(stdout@, stderr@, status),
{
    let err = trim(stderr);
    if err.unicode_len() != 0 {
        return String::from_str(strip_lg_buddy_prefix(err));
    }
    let out = trim(stdout);
    if out.unicode_len() != 0 {
        return String::from_str(strip_lg_buddy_prefix(out));
    }
    let mut r = String::from_str("brightness command failed with status ");
    match status {
        Some(code) => {
            let c = decimal(code as i128);
            r.append(c.as_str());
        },
        None => r.append("terminated by signal"),
    }
    r
}

/// What `brightness set` prints after setting the brightness.
pub fn brightness_set_report(brightness: OledBrightness) -> (r: String)
    ensures
        r@ == "LG Buddy Brightness: Set OLED pixel brightness to "@ + int_decimal(
            brightness.percent(),
        ) + "%."@,
{
    let mut r = String::from_str("LG Buddy Brightness: Set OLED pixel brightness to ");
    let b = brightness.to_text();
    r.append(b.as_str());
    r.append("%.");
    r
}

/// What `brightness get` prints, from what reading the brightness gave:
/// the brightness in decimal, or the failure with the TV's error text.
pub fn brightness_get_result(read: Result<OledBrightness, TvError>) -> (r: Result<String, String>)
    ensures
        match read {
            Ok(b) => r matches Ok(line) && line@ == int_decimal(b.percent()),
            Err(e) => r matches Err(m) && m@ == brightness_failure_text(false, e.text()),
        },
{
    match read {
        Ok(b) => Ok(b.to_text()),
        Err(e) => {
            let text = e.message();
            Err(brightness_failure_message(false, text.as_str()))
        },
    }
}

/// What `brightness set` prints after asking the TV for `brightness`, from
/// what the TV answered: the report of the new brightness, or the failure
/// with the TV's error text.
pub fn brightness_set_result(
    brightness: OledBrightness,
    written: Result<CommandOutput, TvError>,
) -> (r: Result<String, String>)
    ensures
        match written {
            Ok(_) => r matches Ok(line) && line@ == "LG Buddy Brightness: Set OLED pixel brightness to "@
                + int_decimal(brightness.percent()) + "%."@,
            Err(e) => r matches Err(m) && m@ == brightness_failure_text(true, e.text()),
        },
{
    match written {
        Ok(_) => Ok(brightness_set_report(brightness)),
        Err(e) => {
            let text = e.message();
            Err(brightness_failure_message(true, text.as_str()))
        },
    }
}

/// The body of the notification that confirms a new brightness.
pub fn brightness_notification_body(brightness: OledBrightness) -> (r: String)
    ensures
        r@ == "Brightness set to "@ + int_decimal(brightness.percent()) + "%"@,
{
    let mut r = String::from_str("Brightness set to ");
    let b = brightness.to_text();
    r.append(b.as_str());
    r.append("%");
    r
}

/// The error of a brightness change whose confirmation could not be shown.
pub fn brightness_notification_failure(brightness: OledBrightness, error: &str) -> (r: String)
    ensures
        r@ == "brightness was set to "@ + int_decimal(brightness.percent())
            + "%, but desktop notification failed: "@ + error@,
{
    let mut r = String::from_str("brightness was set to ");
    let b = brightness.to_text();
    r.append(b.as_str());
    r.append("%, but desktop notification failed: ");
    r.append(error);
    r
}

/// The error of a brightness dialog for a TV at `tv_ip` that did not
/// answer, or whose reachability could not be checked (`check_error`).
pub fn unreachable_tv_message(tv_ip: &str, check_error: Option<&str>) -> (r: String)
    ensures
        r@ == match check_error {
            None => "TV is not reachable at "@ + tv_ip@ + "."@,
            Some(e) => "Could not check TV reachability at "@ + tv_ip@ + ". "@ + e@,
        },
{
    match check_error {
        None => {
            let mut r = String::from_str("TV is not reachable at ");
            r.append(tv_ip);
            r.append(".");
            r
        },
        Some(e) => {
            let mut r = String::from_str("Could not check TV reachability at ");
            r.append(tv_ip);
            r.append(". ");
            r.append(e);
            r
        },
    }
}

/// The error of the brightness command when the TV could not read or set
/// the brightness, with the TV's error text `error`.
pub open spec fn brightness_failure_text(setting: bool, error: Seq<char>) -> Seq<char> {
    (if setting {
        "failed to set brightness: "@
    } else {
        "failed to read brightness: "@
    }) + error
}

pub fn brightness_failure_message(setting: bool, error: &str) -> (r: String)
    ensures
        r@ == brightness_failure_text(setting, error@),
{
    let mut r = if setting {
        String::from_str("failed to set brightness: ")
    } else {
        String::from_str("failed to read brightness: ")
    };
    r.append(error);
    r
}

/// Which file the resume hook could not clear.
#[derive(Debug, Clone, Copy, PartialEq, Eq, Structural)]
pub enum ResumeCleanup {
    AttemptMarker,
    CycleState,
}

/// The line the resume hook prints when it cannot clear a file.
pub fn resume_cleanup_warning(which: ResumeCleanup, error: &str) -> (r: String)
    ensures
        r@ == match which {
            ResumeCleanup::AttemptMarker =>
                "LG Buddy System Resume: could not clear system sleep attempt marker after resume. "@,
            ResumeCleanup::CycleState =>
                "LG Buddy System Resume: could not clear system sleep cycle state after resume. "@,
        } + error@,
{
    let mut r = match which {
        ResumeCleanup::AttemptMarker => String::from_str(
            "LG Buddy System Resume: could not clear system sleep attempt marker after resume. ",
        ),
        ResumeCleanup::CycleState => String::from_str(
            "LG Buddy System Resume: could not clear system sleep cycle state after resume. ",
        ),
    };
    r.append(error);
    r
}

/// The result of the resume hook: the restore's own failure stands; after
/// a successful restore, the first file that could not be cleared fails
/// the hook.
pub fn resume_result<E>(restore: Result<(), E>, marker_error: Option<E>, state_error: Option<E>) -> (r: Result<(), E>)
    ensures
        match restore {
            Err(e) => r == Err::<(), E>(e),
            Ok(()) => match marker_error {
                Some(e) => r == Err::<(), E>(e),
                None => match state_error {
                    Some(e) => r == Err::<(), E>(e),
                    None => r is Ok,
                },
            },
        },
{
    match restore {
        Err(e) => Err(e),
        Ok(()) => match marker_error {
            Some(e) => Err(e),
            None => match state_error {
                Some(e) => Err(e),
                None => Ok(()),
            },
        },
    }
}

/// The lines the NetworkManager hook prints when it cannot open the
/// system bus and lets the network go down: the bus error, and the error
/// of clearing the sleep attempt marker if that failed too.
pub fn fail_open_messages(bus_error: &str, clear_error: Option<&str>) -> (r: Vec<String>)
    ensures
        r@.len() == if clear_error is Some { 2int } else { 1int },
        r@[0]@
            == "LG Buddy NetworkManager: could not open system bus for logind PreparingForSleep; failing open. "@
            + bus_error@,
        clear_error matches Some(e) ==> r@[1]@
            == "LG Buddy NetworkManager: could not clear stale system sleep attempt marker after system bus failure. "@
            + e@,
{
    let mut lines: Vec<String> = Vec::new();
    let mut first = String::from_str(
        "LG Buddy NetworkManager: could not open system bus for logind PreparingForSleep; failing open. ",
    );
    first.append(bus_error);
    lines.push(first);
    if let Some(e) = clear_error {
        let mut second = String::from_str(
            "LG Buddy NetworkManager: could not clear stale system sleep attempt marker after system bus failure. ",
        );
        second.append(e);
        lines.push(second);
    }
    lines
}

/// The notification that follows an attempt to set the brightness.
pub fn brightness_dialog_notification(brightness: OledBrightness, succeeded: bool) -> (r:
    Notification)
    ensures
        r.summary@ == "LG TV"@,
        r.body@ == if succeeded {
            "Brightness set to "@ + int_decimal(brightness.percent()) + "%"@
        } else {
            "Failed to set brightness"@
        },
        r.actions@.len() == 0,
{
    if succeeded {
        let body = brightness_notification_body(brightness);
        Notification::new("LG TV", body.as_str())
    } else {
        Notification::new("LG TV", "Failed to set brightness")
    }
}

/// How the brightness dialog failed once the user chose a brightness.
#[derive(Debug)]
pub enum BrightnessDialogError<E> {
    /// The brightness was set, but the confirmation could not be shown.
    Policy(String),
    /// Setting the brightness failed, and the user was told so.
    Failed(E),
    /// Setting the brightness failed, and telling the user failed too.
    FailedUnnotified { primary: E, notification: NotificationError },
}

/// The result of the brightness dialog, from whether setting the brightness
/// succeeded and whether the notification about it could be shown.
pub fn brightness_dialog_result<E>(
    brightness: OledBrightness,
    set: Result<(), E>,
    notified: Result<(), NotificationError>,
) -> (r: Result<(), BrightnessDialogError<E>>)
    ensures
        match (set, notified) {
            (Ok(()), Ok(())) => r is Ok,
            (Ok(()), Err(n)) => r matches Err(BrightnessDialogError::Policy(m)) && m@
                == "brightness was set to "@ + int_decimal(brightness.percent())
                + "%, but desktop notification failed: "@ + n.text(),
            (Err(p), Ok(())) => r matches Err(BrightnessDialogError::Failed(e)) && e == p,
            (Err(p), Err(n)) => r matches Err(
                BrightnessDialogError::FailedUnnotified { primary, notification },
            ) && primary == p && notification == n,
        },
{
    match set {
        Ok(()) => match notified {
            Ok(()) => Ok(()),
            Err(n) => {
                let text = n.message();
                Err(
                    BrightnessDialogError::Policy(
                        brightness_notification_failure(brightness, text.as_str()),
                    ),
                )
            },
        },
        Err(p) => match notified {
            Ok(()) => Err(BrightnessDialogError::Failed(p)),
            Err(n) => Err(BrightnessDialogError::FailedUnnotified { primary: p, notification: n }),
        },
    }
}

} // verus!
