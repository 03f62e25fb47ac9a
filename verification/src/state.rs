//! Runtime state of LG Buddy: where its marker files live, and the format of
//! the file that records how a system sleep cycle went.
//!
//! Paths are held as text. Joining and taking the parent follow the rules of
//! `std::path` for Unix paths without `.` or `..` components.

use vstd::prelude::*;
use vstd::string::{StrSliceExecFns, StringExecFns};

use crate::text::{
    chars_of, decimal, int_decimal, is_prefix_of, str_eq, strip_prefix, trim, trim_of,
};

verus! {

pub const STATE_DIR_NAME: &'static str = "lg_buddy";

pub const SCREEN_OFF_BY_US_MARKER: &'static str = "screen_off_by_us";

pub const SYSTEM_SLEEP_ATTEMPTED_MARKER: &'static str = "system_sleep_attempted";

pub const SYSTEM_SLEEP_ATTEMPT_LOCK: &'static str = "system_sleep_attempt.lock";

pub const SYSTEM_SLEEP_CYCLE_STATE: &'static str = "system_sleep_cycle";

// ---------------------------------------------------------------------------
// Paths as text
// ---------------------------------------------------------------------------

/// `base` extended by `part`, as `Path::join` does: an absolute `part`
/// replaces `base`; otherwise a `/` is put between them unless `base` is
/// empty or already ends with one.
pub open spec fn path_join(base: Seq<char>, part: Seq<char>) -> Seq<char> {
    if part.len() > 0 && part[0] == '/' {
        part
    } else if base.len() == 0 || base.last() == '/' {
        base + part
    } else {
        base + seq!['/'] + part
    }
}

/// `s` without its trailing `/` characters.
pub open spec fn strip_trailing_slashes(s: Seq<char>) -> Seq<char>
    decreases s.len(),
{
    if s.len() > 0 && s.last() == '/' {
        strip_trailing_slashes(s.drop_last())
    } else {
        s
    }
}

/// The position of the last `/` in `s`, if any.
pub open spec fn last_slash(s: Seq<char>) -> Option<int>
    decreases s.len(),
{
    if s.len() == 0 {
        None
    } else if s.last() == '/' {
        Some(s.len() - 1)
    } else {
        last_slash(s.drop_last())
    }
}

/// `p` without its last component: the text before the last `/` (after
/// trailing ones are set aside), without trailing `/`, or `/` for a path
/// directly under the root, or empty for a single relative component.
pub open spec fn path_parent(p: Seq<char>) -> Seq<char> {
    let body = strip_trailing_slashes(p);
    match last_slash(body) {
        None => Seq::empty(),
        Some(i) => {
            let head = strip_trailing_slashes(body.subrange(0, i));
            if head.len() == 0 {
                seq!['/']
            } else {
                head
            }
        },
    }
}

proof fn lemma_last_slash(s: Seq<char>)
    ensures
        match last_slash(s) {
            Some(i) => 0 <= i < s.len() && s[i] == '/',
            None => forall|j: int| 0 <= j < s.len() ==> s[j] != '/',
        },
    decreases s.len(),
{
    if s.len() > 0 && s.last() != '/' {
        lemma_last_slash(s.drop_last());
        if last_slash(s) is None {
            assert forall|j: int| 0 <= j < s.len() implies s[j] != '/' by {
                if j < s.len() - 1 {
                    assert(s[j] == s.drop_last()[j]);
                }
            }
        }
    }
}

proof fn lemma_strip_trailing_slashes(s: Seq<char>)
    ensures
        strip_trailing_slashes(s).len() <= s.len(),
        s.subrange(0, strip_trailing_slashes(s).len() as int) == strip_trailing_slashes(s),
        forall|j: int| strip_trailing_slashes(s).len() <= j < s.len() ==> s[j] == '/',
    decreases s.len(),
{
    if s.len() > 0 && s.last() == '/' {
        lemma_strip_trailing_slashes(s.drop_last());
        let r = strip_trailing_slashes(s);
        assert(s.drop_last().subrange(0, r.len() as int) =~= s.subrange(0, r.len() as int));
        assert forall|j: int| r.len() <= j < s.len() implies s[j] == '/' by {
            if j < s.len() - 1 {
                assert(s[j] == s.drop_last()[j]);
            }
        }
    } else {
        assert(s.subrange(0, s.len() as int) =~= s);
    }
}

fn stripped_len(v: &Vec<char>, upto: usize) -> (n: usize)
    requires
        upto <= v.len(),
    ensures
        n <= upto,
        strip_trailing_slashes(v@.subrange(0, upto as int)) == v@.subrange(0, n as int),
{
    let mut n = upto;
    while n > 0 && v[n - 1] == '/'
        invariant
            n <= upto <= v.len(),
            strip_trailing_slashes(v@.subrange(0, upto as int)) == strip_trailing_slashes(
                v@.subrange(0, n as int),
            ),
        decreases n,
    {
        assert(v@.subrange(0, n as int).drop_last() =~= v@.subrange(0, n - 1));
        n = n - 1;
    }
    n
}

fn last_slash_before(v: &Vec<char>, upto: usize) -> (r: Option<usize>)
    requires
        upto <= v.len(),
    ensures
        match last_slash(v@.subrange(0, upto as int)) {
            None => r is None,
            Some(i) => r == Some(i as usize),
        },
{
    let mut n = upto;
    while n > 0 && v[n - 1] != '/'
        invariant
            n <= upto <= v.len(),
            last_slash(v@.subrange(0, upto as int)) == last_slash(v@.subrange(0, n as int)),
        decreases n,
    {
        assert(v@.subrange(0, n as int).drop_last() =~= v@.subrange(0, n - 1));
        n = n - 1;
    }
    if n == 0 {
        None
    } else {
        Some(n - 1)
    }
}

/// `base` joined with `part`, as `Path::join` joins them.
pub fn join_path(base: &str, part: &str) -> (r: String)
    ensures
        r@ == path_join(base@, part@),
{
    let p = chars_of(part);
    if p.len() > 0 && p[0] == '/' {
        return String::from_str(part);
    }
    let b = chars_of(base);
    let mut r = String::from_str(base);
    if !(b.len() == 0 || b[b.len() - 1] == '/') {
        r.append("/");
        proof {
            reveal_strlit("/");
        }
        assert("/"@ =~= seq!['/']);
    }
    r.append(part);
    r
}

/// The parent of `path`, as `Path::parent` gives it.
pub fn parent_path(path: &str) -> (r: &str)
    ensures
        r@ == path_parent(path@),
{
    let v = chars_of(path);
    let end = stripped_len(&v, v.len());
    assert(v@.subrange(0, v.len() as int) =~= path@);
    let ghost body = v@.subrange(0, end as int);
    proof {
        lemma_last_slash(body);
    }
    match last_slash_before(&v, end) {
        None => {
            assert(path@.subrange(0, 0) =~= Seq::<char>::empty());
            path.substring_char(0, 0)
        },
        Some(i) => {
            assert(body.subrange(0, i as int) =~= v@.subrange(0, i as int));
            let head = stripped_len(&v, i);
            if head == 0 {
                proof {
                    lemma_strip_trailing_slashes(v@.subrange(0, i as int));
                    assert(body[i as int] == '/');
                    if i > 0 {
                        assert(v@.subrange(0, i as int)[0] == '/');
                    }
                    assert(v@[0] == '/');
                }
                assert(path@.subrange(0, 1) =~= seq!['/']);
                path.substring_char(0, 1)
            } else {
                path.substring_char(0, head)
            }
        },
    }
}

// ---------------------------------------------------------------------------
// Runtime directories
// ---------------------------------------------------------------------------

/// Which runtime directory a piece of state belongs to.
#[derive(Debug, Clone, Copy, PartialEq, Eq, Structural)]
pub enum StateScope {
    System,
    Session,
}

/// The places that can name the runtime directories.
#[derive(Debug, Clone)]
pub struct RuntimeDirSources<'a> {
    pub system_override: Option<&'a str>,
    pub session_override: Option<&'a str>,
    pub xdg_runtime_dir: Option<&'a str>,
    pub uid: Option<u32>,
}

impl<'a> Default for RuntimeDirSources<'a> {
    fn default() -> (r: Self)
        ensures
            r.system_override is None,
            r.session_override is None,
            r.xdg_runtime_dir is None,
            r.uid is None,
    {
        RuntimeDirSources {
            system_override: None,
            session_override: None,
            xdg_runtime_dir: None,
            uid: None,
        }
    }
}

#[derive(Debug, Clone, PartialEq, Eq, Structural)]
pub enum StateDirError {
    SessionRuntimeUnavailable,
}

impl StateDirError {
    pub open spec fn text(self) -> Seq<char> {
        "could not resolve a session runtime directory from override, XDG_RUNTIME_DIR, or uid"@
    }

    /// The text of the error, as it is shown to users.
    pub fn message(&self) -> (r: &'static str)
        ensures
            r@ == self.text(),
    {
        "could not resolve a session runtime directory from override, XDG_RUNTIME_DIR, or uid"
    }
}

/// The runtime directory of `scope`: the system one is the override or
/// `/run/lg_buddy`; the session one is the override, else `lg_buddy` under
/// `XDG_RUNTIME_DIR`, else `/run/user/<uid>/lg_buddy`.
pub open spec fn state_dir_for(scope: StateScope, sources: RuntimeDirSources) -> Option<Seq<char>> {
    match scope {
        StateScope::System => match sources.system_override {
            Some(p) => Some(p@),
            None => Some(path_join("/run"@, STATE_DIR_NAME@)),
        },
        StateScope::Session => match sources.session_override {
            Some(p) => Some(p@),
            None => match sources.xdg_runtime_dir {
                Some(p) => Some(path_join(p@, STATE_DIR_NAME@)),
                None => match sources.uid {
                    Some(uid) => Some(
                        path_join(
                            path_join("/run/user"@, int_decimal(uid as int)),
                            STATE_DIR_NAME@,
                        ),
                    ),
                    None => None,
                },
            },
        },
    }
}

/// The runtime directory that holds the state of `scope`.
pub fn resolve_state_dir(scope: StateScope, sources: RuntimeDirSources<'_>) -> (r: Result<
    String,
    StateDirError,
>)
    ensures
        match state_dir_for(scope, sources) {
            Some(dir) => r matches Ok(path) && path@ == dir,
            None => r == Err::<String, StateDirError>(StateDirError::SessionRuntimeUnavailable),
        },
{
    match scope {
        StateScope::System => match sources.system_override {
            Some(path) => Ok(String::from_str(path)),
            None => Ok(join_path("/run", STATE_DIR_NAME)),
        },
        StateScope::Session => {
            if let Some(path) = sources.session_override {
                return Ok(String::from_str(path));
            }
            if let Some(path) = sources.xdg_runtime_dir {
                return Ok(join_path(path, STATE_DIR_NAME));
            }
            if let Some(uid) = sources.uid {
                let uid_text = decimal(uid as i128);
                let user_dir = join_path("/run/user", uid_text.as_str());
                return Ok(join_path(user_dir.as_str(), STATE_DIR_NAME));
            }
            Err(StateDirError::SessionRuntimeUnavailable)
        },
    }
}

// ---------------------------------------------------------------------------
// Files under a runtime directory
// ---------------------------------------------------------------------------

/// The marker and lock files of the system sleep cycle under `state_dir`.
#[derive(Debug, Clone, PartialEq, Eq)]
pub struct SystemSleepCycleState {
    marker_path: String,
    lock_path: String,
    cycle_path: String,
}

impl SystemSleepCycleState {
    pub closed spec fn marker_path_view(&self) -> Seq<char> {
        self.marker_path@
    }

    pub closed spec fn lock_path_view(&self) -> Seq<char> {
        self.lock_path@
    }

    pub closed spec fn cycle_path_view(&self) -> Seq<char> {
        self.cycle_path@
    }

    /// The files of the sleep cycle under `state_dir`.
    pub fn new(state_dir: String) -> (r: Self)
        ensures
            r.marker_path_view() == path_join(state_dir@, SYSTEM_SLEEP_ATTEMPTED_MARKER@),
            r.lock_path_view() == path_join(state_dir@, SYSTEM_SLEEP_ATTEMPT_LOCK@),
            r.cycle_path_view() == path_join(state_dir@, SYSTEM_SLEEP_CYCLE_STATE@),
            path_parent(r.marker_path_view()) == dir_text(state_dir@),
    {
        proof {
            lemma_state_files_share_dir(state_dir@);
        }
        SystemSleepCycleState {
            marker_path: join_path(state_dir.as_str(), SYSTEM_SLEEP_ATTEMPTED_MARKER),
            lock_path: join_path(state_dir.as_str(), SYSTEM_SLEEP_ATTEMPT_LOCK),
            cycle_path: join_path(state_dir.as_str(), SYSTEM_SLEEP_CYCLE_STATE),
        }
    }

    /// The files of the sleep cycle in the runtime directory of `scope`.
    pub fn for_scope(scope: StateScope, sources: RuntimeDirSources<'_>) -> (r: Result<
        Self,
        StateDirError,
    >)
        ensures
            match state_dir_for(scope, sources) {
                Some(dir) => r matches Ok(state) && state.marker_path_view() == path_join(
                    dir,
                    SYSTEM_SLEEP_ATTEMPTED_MARKER@,
                ) && state.lock_path_view() == path_join(dir, SYSTEM_SLEEP_ATTEMPT_LOCK@)
                    && state.cycle_path_view() == path_join(dir, SYSTEM_SLEEP_CYCLE_STATE@)
                    && path_parent(state.marker_path_view()) == dir_text(dir),
                None => r == Err::<Self, StateDirError>(StateDirError::SessionRuntimeUnavailable),
            },
    {
        match resolve_state_dir(scope, sources) {
            Ok(dir) => Ok(Self::new(dir)),
            Err(e) => Err(e),
        }
    }

    pub fn marker_path(&self) -> (r: &str)
        ensures
            r@ == self.marker_path_view(),
    {
        self.marker_path.as_str()
    }

    pub fn lock_path(&self) -> (r: &str)
        ensures
            r@ == self.lock_path_view(),
    {
        self.lock_path.as_str()
    }

    pub fn cycle_path(&self) -> (r: &str)
        ensures
            r@ == self.cycle_path_view(),
    {
        self.cycle_path.as_str()
    }

    /// The directory that holds the files: the parent of the marker.
    pub fn state_dir(&self) -> (r: &str)
        ensures
            r@ == path_parent(self.marker_path_view()),
    {
        parent_path(self.marker_path.as_str())
    }
}

/// The marker that records that LG Buddy itself turned the screen off.
#[derive(Debug, Clone, PartialEq, Eq)]
pub struct ScreenOwnershipMarker {
    path: String,
}

impl ScreenOwnershipMarker {
    pub closed spec fn path_view(&self) -> Seq<char> {
        self.path@
    }

    /// The marker file under `state_dir`.
    pub fn new(state_dir: String) -> (r: Self)
        ensures
            r.path_view() == path_join(state_dir@, SCREEN_OFF_BY_US_MARKER@),
            path_parent(r.path_view()) == dir_text(state_dir@),
    {
        proof {
            lemma_state_files_share_dir(state_dir@);
        }
        ScreenOwnershipMarker { path: join_path(state_dir.as_str(), SCREEN_OFF_BY_US_MARKER) }
    }

    /// The marker file in the runtime directory of `scope`.
    pub fn for_scope(scope: StateScope, sources: RuntimeDirSources<'_>) -> (r: Result<
        Self,
        StateDirError,
    >)
        ensures
            match state_dir_for(scope, sources) {
                Some(dir) => r matches Ok(marker) && marker.path_view() == path_join(
                    dir,
                    SCREEN_OFF_BY_US_MARKER@,
                ) && path_parent(marker.path_view()) == dir_text(dir),
                None => r == Err::<Self, StateDirError>(StateDirError::SessionRuntimeUnavailable),
            },
    {
        match resolve_state_dir(scope, sources) {
            Ok(dir) => Ok(Self::new(dir)),
            Err(e) => Err(e),
        }
    }

    pub fn path(&self) -> (r: &str)
        ensures
            r@ == self.path_view(),
    {
        self.path.as_str()
    }

    /// The directory that holds the marker.
    pub fn state_dir(&self) -> (r: &str)
        ensures
            r@ == path_parent(self.path_view()),
    {
        parent_path(self.path.as_str())
    }
}

/// Whether a file last modified at `modified` is older than `max_age` at
/// `now` (all in nanoseconds of one clock). A modification time after `now`
/// counts as fresh.
pub fn is_older_than(modified: u128, now: u128, max_age: u128) -> (r: bool)
    ensures
        r == (modified <= now && now - modified > max_age),
{
    modified <= now && now - modified > max_age
}

// ---------------------------------------------------------------------------
// The state file of a system sleep cycle
// ---------------------------------------------------------------------------

/// How the last system sleep cycle went.
#[derive(Debug, Clone, Copy, PartialEq, Eq, Structural)]
pub enum SystemSleepCycleOutcome {
    InProgress,
    Completed,
    RetryableTransportFailure,
}

/// The outcome with the name `value`, if there is one.
pub open spec fn outcome_named(value: Seq<char>) -> Option<SystemSleepCycleOutcome> {
    if value == "in_progress"@ {
        Some(SystemSleepCycleOutcome::InProgress)
    } else if value == "completed"@ {
        Some(SystemSleepCycleOutcome::Completed)
    } else if value == "retryable_transport_failure"@ {
        Some(SystemSleepCycleOutcome::RetryableTransportFailure)
    } else {
        None
    }
}

impl SystemSleepCycleOutcome {
    pub open spec fn name(self) -> Seq<char> {
        match self {
            SystemSleepCycleOutcome::InProgress => "in_progress"@,
            SystemSleepCycleOutcome::Completed => "completed"@,
            SystemSleepCycleOutcome::RetryableTransportFailure => "retryable_transport_failure"@,
        }
    }

    pub fn as_str(self) -> (r: &'static str)
        ensures
            r@ == self.name(),
    {
        match self {
            SystemSleepCycleOutcome::InProgress => "in_progress",
            SystemSleepCycleOutcome::Completed => "completed",
            SystemSleepCycleOutcome::RetryableTransportFailure => "retryable_transport_failure",
        }
    }

    /// The outcome named `value`.
    pub fn from_name(value: &str) -> (r: Option<SystemSleepCycleOutcome>)
        ensures
            r == outcome_named(value@),
    {
        if str_eq(value, "in_progress") {
            Some(SystemSleepCycleOutcome::InProgress)
        } else if str_eq(value, "completed") {
            Some(SystemSleepCycleOutcome::Completed)
        } else if str_eq(value, "retryable_transport_failure") {
            Some(SystemSleepCycleOutcome::RetryableTransportFailure)
        } else {
            None
        }
    }
}

/// The key of the line that records the outcome.
pub open spec fn outcome_key() -> Seq<char> {
    "outcome="@
}

/// The content written to the state file for `outcome`.
pub open spec fn outcome_file_text(outcome: SystemSleepCycleOutcome) -> Seq<char> {
    outcome_key() + outcome.name() + seq!['\n']
}

/// The number of characters before the first `\n` of `s` (all of them if
/// there is none).
pub open spec fn line_len(s: Seq<char>) -> nat
    decreases s.len(),
{
    if s.len() == 0 || s[0] == '\n' {
        0
    } else {
        1 + line_len(s.drop_first())
    }
}

/// The first line of `s`, as `str::lines` yields it: without its `\n`, and
/// without a `\r` just before that `\n`.
pub open spec fn first_line(s: Seq<char>) -> Seq<char> {
    let n = line_len(s) as int;
    if n < s.len() && n > 0 && s[n - 1] == '\r' {
        s.subrange(0, n - 1)
    } else {
        s.subrange(0, n)
    }
}

/// The rest of the first line that starts with `outcome=`, scanning the
/// lines of `s` in order.
pub open spec fn outcome_line_value(s: Seq<char>) -> Option<Seq<char>>
    decreases s.len(),
{
    if s.len() == 0 {
        None
    } else {
        let line = first_line(s);
        if is_prefix_of(outcome_key(), line) {
            Some(line.subrange(outcome_key().len() as int, line.len() as int))
        } else if line_len(s) + 1 <= s.len() {
            outcome_line_value(s.subrange(line_len(s) + 1int, s.len() as int))
        } else {
            None
        }
    }
}

/// The text that names the outcome in the content of a state file: the rest
/// of the first `outcome=` line, or else the whole content trimmed.
pub open spec fn recorded_outcome_text(content: Seq<char>) -> Seq<char> {
    match outcome_line_value(content) {
        Some(v) => v,
        None => trim_of(content),
    }
}

/// A state file whose content names no known outcome.
#[derive(Debug, Clone, PartialEq, Eq)]
pub struct UnknownCycleOutcome {
    pub value: String,
}

impl UnknownCycleOutcome {
    pub open spec fn text(&self) -> Seq<char> {
        "unknown system sleep cycle outcome `"@ + self.value@ + "`"@
    }

    /// The text of the error, as it is shown to users.
    pub fn message(&self) -> (r: String)
        ensures
            r@ == self.text(),
    {
        let mut r = String::from_str("unknown system sleep cycle outcome `");
        r.append(self.value.as_str());
        r.append("`");
        r
    }
}

/// The content to write to the state file for `outcome`.
pub fn outcome_file_content(outcome: SystemSleepCycleOutcome) -> (r: String)
    ensures
        r@ == outcome_file_text(outcome),
{
    let mut r = String::from_str("outcome=");
    r.append(outcome.as_str());
    r.append("\n");
    proof {
        reveal_strlit("outcome=");
        reveal_strlit("\n");
    }
    assert("\n"@ =~= seq!['\n']);
    r
}

proof fn lemma_line_len_bound(s: Seq<char>)
    ensures
        line_len(s) <= s.len(),
        line_len(s) < s.len() ==> s[line_len(s) as int] == '\n',
        forall|j: int| 0 <= j < line_len(s) ==> s[j] != '\n',
    decreases s.len(),
{
    if s.len() > 0 && s[0] != '\n' {
        lemma_line_len_bound(s.drop_first());
        assert forall|j: int| 0 <= j < line_len(s) implies s[j] != '\n' by {
            if j > 0 {
                assert(s[j] == s.drop_first()[j - 1]);
            }
        }
    }
}

/// `line_len` of `v[start..]`, found by scanning.
fn line_end(v: &Vec<char>, start: usize) -> (e: usize)
    requires
        start <= v.len(),
    ensures
        start <= e <= v.len(),
        e - start == line_len(v@.subrange(start as int, v.len() as int)),
{
    let ghost rest = v@.subrange(start as int, v.len() as int);
    proof {
        lemma_line_len_bound(rest);
    }
    let mut e = start;
    while e < v.len() && v[e] != '\n'
        invariant
            start <= e <= v.len(),
            rest == v@.subrange(start as int, v.len() as int),
            line_len(rest) <= rest.len(),
            line_len(rest) < rest.len() ==> rest[line_len(rest) as int] == '\n',
            forall|j: int| 0 <= j < line_len(rest) ==> rest[j] != '\n',
            e - start <= line_len(rest),
        decreases v.len() - e,
    {
        assert(rest[e - start] == v@[e as int]);
        e = e + 1;
    }
    proof {
        if e < v.len() {
            assert(rest[e - start] == '\n');
        }
    }
    e
}

/// The text that names the outcome in `content`, as `recorded_outcome_text`
/// describes it.
pub fn recorded_outcome(content: &str) -> (r: &str)
    ensures
        r@ == recorded_outcome_text(content@),
{
    let v = chars_of(content);
    let n = v.len();
    proof {
        reveal_strlit("outcome=");
    }
    let mut start: usize = 0;
    assert(v@.subrange(0, n as int) =~= content@);
    while start < n
        invariant
            v@ == content@,
            n == v.len(),
            start <= n,
            outcome_line_value(content@) == outcome_line_value(
                v@.subrange(start as int, n as int),
            ),
        decreases n - start,
    {
        let ghost rest = v@.subrange(start as int, n as int);
        let e = line_end(&v, start);
        let line_stop = if e < n && e > start && v[e - 1] == '\r' {
            e - 1
        } else {
            e
        };
        assert(first_line(rest) =~= v@.subrange(start as int, line_stop as int));
        let line = content.substring_char(start, line_stop);
        assert(line@ =~= first_line(rest));
        if let Some(value) = strip_prefix(line, "outcome=") {
            return value;
        }
        if e == n {
            start = n;
        } else {
            assert(rest.subrange(e - start + 1, rest.len() as int) =~= v@.subrange(
                e + 1,
                n as int,
            ));
            start = e + 1;
        }
    }
    assert(v@.subrange(n as int, n as int).len() == 0);
    trim(content)
}

/// The outcome recorded in the content of a state file, or the error the
/// file reader reports for an unknown one.
pub fn parse_outcome_file(content: &str) -> (r: Result<SystemSleepCycleOutcome, UnknownCycleOutcome>)
    ensures
        match outcome_named(recorded_outcome_text(content@)) {
            Some(o) => r == Ok::<SystemSleepCycleOutcome, UnknownCycleOutcome>(o),
            None => r matches Err(e) && e.value@ == recorded_outcome_text(content@),
        },
{
    let value = recorded_outcome(content);
    match SystemSleepCycleOutcome::from_name(value) {
        Some(o) => Ok(o),
        None => Err(UnknownCycleOutcome { value: String::from_str(value) }),
    }
}

// ---------------------------------------------------------------------------
// Laws
// ---------------------------------------------------------------------------

proof fn lemma_line_len_at(s: Seq<char>, k: int)
    requires
        0 <= k < s.len(),
        s[k] == '\n',
        forall|j: int| 0 <= j < k ==> s[j] != '\n',
    ensures
        line_len(s) == k,
{
    lemma_line_len_bound(s);
    if line_len(s) < k {
        assert(s[line_len(s) as int] == '\n');
    }
}

proof fn lemma_outcome_names()
    ensures
        "in_progress"@.len() == 11,
        "completed"@.len() == 9,
        "retryable_transport_failure"@.len() == 27,
        "outcome="@.len() == 8,
        forall|o: SystemSleepCycleOutcome, j: int|
            0 <= j < o.name().len() ==> #[trigger] o.name()[j] != '\n' && o.name()[j] != '\r'
                && o.name()[j] != '/',
        forall|j: int| 0 <= j < 8 ==> #[trigger] "outcome="@[j] != '\n',
{
    reveal_strlit("in_progress");
    reveal_strlit("completed");
    reveal_strlit("retryable_transport_failure");
    reveal_strlit("outcome=");
}

/// Each outcome is found again from its name.
pub proof fn lemma_outcome_name_round_trip(outcome: SystemSleepCycleOutcome)
    ensures
        outcome_named(outcome.name()) == Some(outcome),
{
    lemma_outcome_names();
}

/// What is written to the state file for an outcome reads back as that
/// outcome.
pub proof fn lemma_outcome_file_round_trip(outcome: SystemSleepCycleOutcome)
    ensures
        recorded_outcome_text(outcome_file_text(outcome)) == outcome.name(),
        outcome_named(recorded_outcome_text(outcome_file_text(outcome))) == Some(outcome),
{
    lemma_outcome_names();
    let s = outcome_file_text(outcome);
    let name = outcome.name();
    let k: int = 8 + name.len() as int;
    assert forall|j: int| 0 <= j < k implies s[j] != '\n' by {
        if j < 8 {
            assert(s[j] == "outcome="@[j]);
        } else {
            assert(s[j] == name[j - 8]);
        }
    }
    lemma_line_len_at(s, k);
    assert(s[k - 1] == name[name.len() - 1]);
    assert(first_line(s) =~= outcome_key() + name);
    assert(first_line(s).subrange(0, 8) =~= outcome_key());
    assert(first_line(s).subrange(8, first_line(s).len() as int) =~= name);
    lemma_outcome_name_round_trip(outcome);
}

proof fn lemma_last_slash_after(a: Seq<char>, b: Seq<char>)
    requires
        forall|j: int| 0 <= j < b.len() ==> b[j] != '/',
    ensures
        last_slash(a + seq!['/'] + b) == Some(a.len() as int),
    decreases b.len(),
{
    let s = a + seq!['/'] + b;
    if b.len() > 0 {
        assert(s.drop_last() =~= a + seq!['/'] + b.drop_last());
        lemma_last_slash_after(a, b.drop_last());
    } else {
        assert(s.last() == '/');
    }
}

/// The parent of `dir` joined with a single relative component is `dir`,
/// for a `dir` that is not empty and does not end with `/`.
pub proof fn lemma_parent_of_join(dir: Seq<char>, name: Seq<char>)
    requires
        dir.len() > 0,
        dir.last() != '/',
        name.len() > 0,
        forall|j: int| 0 <= j < name.len() ==> name[j] != '/',
    ensures
        path_parent(path_join(dir, name)) == dir,
{
    let p = path_join(dir, name);
    assert(p == dir + seq!['/'] + name);
    assert(p.last() == name.last());
    assert(strip_trailing_slashes(p) == p);
    lemma_last_slash_after(dir, name);
    assert(p.subrange(0, dir.len() as int) =~= dir);
    assert(strip_trailing_slashes(dir) == dir);
}

/// The directory `dir` names, as the parent of a file in it is written:
/// empty for the empty (current) directory, else `dir` without its trailing
/// `/` characters, or `/` when nothing else is left.
pub open spec fn dir_text(dir: Seq<char>) -> Seq<char> {
    if dir.len() == 0 {
        Seq::empty()
    } else if strip_trailing_slashes(dir).len() == 0 {
        seq!['/']
    } else {
        strip_trailing_slashes(dir)
    }
}

/// The parent of `dir` joined with a single relative component is the
/// directory `dir` names.
pub proof fn lemma_parent_of_join_in_any_dir(dir: Seq<char>, name: Seq<char>)
    requires
        name.len() > 0,
        forall|j: int| 0 <= j < name.len() ==> name[j] != '/',
    ensures
        path_parent(path_join(dir, name)) == dir_text(dir),
{
    let p = path_join(dir, name);
    assert(name[0] != '/');
    assert(name.last() == name[name.len() - 1]);
    if dir.len() == 0 {
        assert(p =~= name);
        assert(strip_trailing_slashes(p) == p);
        lemma_last_slash(p);
        if last_slash(p) is Some {
            let i = last_slash(p).unwrap();
            assert(p[i] == '/');
        }
    } else if dir.last() == '/' {
        let a = dir.drop_last();
        assert(p =~= a + seq!['/'] + name);
        assert(p.last() == name.last());
        assert(strip_trailing_slashes(p) == p);
        lemma_last_slash_after(a, name);
        assert(p.subrange(0, a.len() as int) =~= a);
        assert(strip_trailing_slashes(dir) == strip_trailing_slashes(a));
    } else {
        lemma_parent_of_join(dir, name);
        assert(strip_trailing_slashes(dir) == dir);
    }
}

/// The files of a sleep cycle, and the screen marker, lie directly in the
/// directory they were made for.
pub proof fn lemma_state_files_share_dir(dir: Seq<char>)
    ensures
        path_parent(path_join(dir, SYSTEM_SLEEP_ATTEMPTED_MARKER@)) == dir_text(dir),
        path_parent(path_join(dir, SYSTEM_SLEEP_ATTEMPT_LOCK@)) == dir_text(dir),
        path_parent(path_join(dir, SYSTEM_SLEEP_CYCLE_STATE@)) == dir_text(dir),
        path_parent(path_join(dir, SCREEN_OFF_BY_US_MARKER@)) == dir_text(dir),
{
    reveal_strlit("system_sleep_attempted");
    reveal_strlit("system_sleep_attempt.lock");
    reveal_strlit("system_sleep_cycle");
    reveal_strlit("screen_off_by_us");
    lemma_parent_of_join_in_any_dir(dir, SYSTEM_SLEEP_ATTEMPTED_MARKER@);
    lemma_parent_of_join_in_any_dir(dir, SYSTEM_SLEEP_ATTEMPT_LOCK@);
    lemma_parent_of_join_in_any_dir(dir, SYSTEM_SLEEP_CYCLE_STATE@);
    lemma_parent_of_join_in_any_dir(dir, SCREEN_OFF_BY_US_MARKER@);
}

} // verus!
