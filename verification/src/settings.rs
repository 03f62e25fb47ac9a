//! The registry of user-facing settings: their dotted public keys, the keys
//! they are stored under in `config.env`, their value types, defaults,
//! mutability and supported operations.

use vstd::prelude::*;
use vstd::string::StringExecFns;

use crate::config::DEFAULT_IDLE_TIMEOUT;
use crate::text::{
    chars_of, decimal, decimal_i64_value, int_decimal, join, joined, lemma_decimal_round_trip,
    parse_i64, str_eq, str_views,
};

verus! {

// ---------------------------------------------------------------------------
// Small enumerations
// ---------------------------------------------------------------------------

#[derive(Debug, Clone, Copy, PartialEq, Eq, Structural)]
pub enum SettingMutability {
    ReadOnly,
    ReadWrite,
}

impl SettingMutability {
    pub open spec fn name(self) -> Seq<char> {
        match self {
            SettingMutability::ReadOnly => "read-only"@,
            SettingMutability::ReadWrite => "read-write"@,
        }
    }

    pub fn as_str(self) -> (r: &'static str)
        ensures
            r@ == self.name(),
    {
        match self {
            SettingMutability::ReadOnly => "read-only",
            SettingMutability::ReadWrite => "read-write",
        }
    }
}

#[derive(Debug, Clone, Copy, PartialEq, Eq, Hash, Structural)]
pub enum SettingOperation {
    Get,
    Describe,
    SetValue,
    Unset,
}

impl SettingOperation {
    pub open spec fn name(self) -> Seq<char> {
        match self {
            SettingOperation::Get => "get"@,
            SettingOperation::Describe => "describe"@,
            SettingOperation::SetValue => "set"@,
            SettingOperation::Unset => "unset"@,
        }
    }

    pub fn as_str(self) -> (r: &'static str)
        ensures
            r@ == self.name(),
    {
        match self {
            SettingOperation::Get => "get",
            SettingOperation::Describe => "describe",
            SettingOperation::SetValue => "set",
            SettingOperation::Unset => "unset",
        }
    }
}

/// The four operations that a read-write setting must support.
pub open spec fn read_write_operations() -> Seq<SettingOperation> {
    seq![
        SettingOperation::Get,
        SettingOperation::Describe,
        SettingOperation::SetValue,
        SettingOperation::Unset,
    ]
}

#[derive(Debug, Clone, Copy, PartialEq, Eq, Structural)]
pub enum ApplyStrategy {
    RestartUserScreenService,
    PendingLifecycleService,
}

impl ApplyStrategy {
    pub open spec fn name(self) -> Seq<char> {
        match self {
            ApplyStrategy::RestartUserScreenService => "restart-user-screen-service"@,
            ApplyStrategy::PendingLifecycleService => "pending-lifecycle-service"@,
        }
    }

    pub fn as_str(self) -> (r: &'static str)
        ensures
            r@ == self.name(),
    {
        match self {
            ApplyStrategy::RestartUserScreenService => "restart-user-screen-service",
            ApplyStrategy::PendingLifecycleService => "pending-lifecycle-service",
        }
    }
}

// ---------------------------------------------------------------------------
// Errors
// ---------------------------------------------------------------------------

#[derive(Debug, Clone, PartialEq, Eq)]
pub enum SettingsError {
    InvalidKey { key: String, reason: &'static str },
    UnknownKey(String),
    InvalidValue { key: String, value: String, expected: String },
    UnsupportedOperation { key: String, operation: SettingOperation },
    RegistryInvariant(String),
}

/// A settings error with its text as character sequences.
pub enum SettingsErrorView {
    InvalidKey { key: Seq<char>, reason: Seq<char> },
    UnknownKey(Seq<char>),
    InvalidValue { key: Seq<char>, value: Seq<char>, expected: Seq<char> },
    UnsupportedOperation { key: Seq<char>, operation: SettingOperation },
    RegistryInvariant(Seq<char>),
}

impl View for SettingsError {
    type V = SettingsErrorView;

    open spec fn view(&self) -> SettingsErrorView {
        match self {
            SettingsError::InvalidKey { key, reason } => SettingsErrorView::InvalidKey {
                key: key@,
                reason: reason@,
            },
            SettingsError::UnknownKey(key) => SettingsErrorView::UnknownKey(key@),
            SettingsError::InvalidValue { key, value, expected } => SettingsErrorView::InvalidValue {
                key: key@,
                value: value@,
                expected: expected@,
            },
            SettingsError::UnsupportedOperation { key, operation } =>
                SettingsErrorView::UnsupportedOperation { key: key@, operation: *operation },
            SettingsError::RegistryInvariant(message) => SettingsErrorView::RegistryInvariant(
                message@,
            ),
        }
    }
}

impl SettingsErrorView {
    /// The text that the error reads as.
    pub open spec fn message(self) -> Seq<char> {
        match self {
            SettingsErrorView::InvalidKey { key, reason } => "invalid setting key `"@ + key
                + "`: "@ + reason,
            SettingsErrorView::UnknownKey(key) => "unknown setting `"@ + key + "`"@,
            SettingsErrorView::InvalidValue { key, value, expected } => "invalid value for setting `"@
                + key + "`: `"@ + value + "`; expected "@ + expected,
            SettingsErrorView::UnsupportedOperation { key, operation } => "setting `"@ + key
                + "` does not support `"@ + operation.name() + "`"@,
            SettingsErrorView::RegistryInvariant(message) => message,
        }
    }
}

impl SettingsError {
    /// The text of the error, as it is shown to users.
    pub fn message(&self) -> (r: String)
        ensures
            r@ == self@.message(),
    {
        match self {
            SettingsError::InvalidKey { key, reason } => {
                let mut r = String::from_str("invalid setting key `");
                r.append(key.as_str());
                r.append("`: ");
                r.append(reason);
                r
            },
            SettingsError::UnknownKey(key) => {
                let mut r = String::from_str("unknown setting `");
                r.append(key.as_str());
                r.append("`");
                r
            },
            SettingsError::InvalidValue { key, value, expected } => {
                let mut r = String::from_str("invalid value for setting `");
                r.append(key.as_str());
                r.append("`: `");
                r.append(value.as_str());
                r.append("`; expected ");
                r.append(expected.as_str());
                r
            },
            SettingsError::UnsupportedOperation { key, operation } => {
                let mut r = String::from_str("setting `");
                r.append(key.as_str());
                r.append("` does not support `");
                r.append(operation.as_str());
                r.append("`");
                r
            },
            SettingsError::RegistryInvariant(message) => message.clone(),
        }
    }
}

// ---------------------------------------------------------------------------
// Keys
// ---------------------------------------------------------------------------

/// A character allowed in a segment of a key.
pub open spec fn is_key_char(c: char) -> bool {
    ('a' <= c <= 'z') || ('0' <= c <= '9') || c == '_'
}

/// A well-formed dotted key: non-empty segments of key characters, at least
/// two of them, joined by single dots.
pub open spec fn setting_key_valid(s: Seq<char>) -> bool {
    &&& s.len() > 0
    &&& forall|i: int| 0 <= i < s.len() ==> is_key_char(#[trigger] s[i]) || s[i] == '.'
    &&& s[0] != '.'
    &&& s.last() != '.'
    &&& forall|i: int| 0 < i < s.len() && #[trigger] s[i] == '.' ==> s[i - 1] != '.'
    &&& s.contains('.')
}

/// A well-formed storage key: non-empty, of key characters only.
pub open spec fn storage_key_valid(s: Seq<char>) -> bool {
    &&& s.len() > 0
    &&& forall|i: int| 0 <= i < s.len() ==> is_key_char(#[trigger] s[i])
}

/// The first thing wrong with a dotted key, in the order in which a scan from
/// left to right meets it.
pub enum KeyProblem {
    Empty,
    EmptySegment,
    BadChar,
    TrailingDot,
    NoDot,
}

pub open spec fn key_problem_reason(p: KeyProblem) -> Seq<char> {
    match p {
        KeyProblem::Empty => "must not be empty"@,
        KeyProblem::EmptySegment => "must not contain empty segments"@,
        KeyProblem::BadChar =>
            "must contain only ASCII lowercase letters, digits, underscores, and dots"@,
        KeyProblem::TrailingDot => "must not end with a dot"@,
        KeyProblem::NoDot => "must contain at least one dot"@,
    }
}

/// The first character problem at or after position `i`.
pub open spec fn char_problem_from(s: Seq<char>, i: int) -> Option<KeyProblem>
    decreases s.len() - i,
{
    if i < 0 || i >= s.len() {
        None
    } else if is_key_char(s[i]) {
        char_problem_from(s, i + 1)
    } else if s[i] == '.' && (i == 0 || s[i - 1] == '.') {
        Some(KeyProblem::EmptySegment)
    } else if s[i] == '.' {
        char_problem_from(s, i + 1)
    } else {
        Some(KeyProblem::BadChar)
    }
}

pub open spec fn first_key_problem(s: Seq<char>) -> Option<KeyProblem> {
    if s.len() == 0 {
        Some(KeyProblem::Empty)
    } else if char_problem_from(s, 0) is Some {
        char_problem_from(s, 0)
    } else if s.last() == '.' {
        Some(KeyProblem::TrailingDot)
    } else if !s.contains('.') {
        Some(KeyProblem::NoDot)
    } else {
        None
    }
}

proof fn lemma_char_problem_from(s: Seq<char>, i: int)
    requires
        0 <= i <= s.len(),
    ensures
        char_problem_from(s, i) is None <==> (forall|j: int|
            i <= j < s.len() ==> (is_key_char(#[trigger] s[j]) || (s[j] == '.' && j > 0 && s[j
                - 1] != '.'))),
    decreases s.len() - i,
{
    if i < s.len() {
        lemma_char_problem_from(s, i + 1);
        if char_problem_from(s, i) is None {
            assert forall|j: int| i <= j < s.len() implies (is_key_char(#[trigger] s[j]) || (s[j]
                == '.' && j > 0 && s[j - 1] != '.')) by {
                if j > i {
                }
            }
        }
    }
}

/// A key is well formed exactly when the scan finds nothing wrong with it.
pub proof fn lemma_key_valid_iff_no_problem(s: Seq<char>)
    ensures
        setting_key_valid(s) <==> first_key_problem(s) is None,
{
    if s.len() > 0 {
        lemma_char_problem_from(s, 0);
        if setting_key_valid(s) {
            assert forall|j: int| 0 <= j < s.len() implies (is_key_char(#[trigger] s[j]) || (s[j]
                == '.' && j > 0 && s[j - 1] != '.')) by {
                if s[j] == '.' && !is_key_char(s[j]) {
                    assert(j != 0);
                }
            }
        }
        if first_key_problem(s) is None {
            assert(s[0] != '.') by {
                assert(is_key_char(s[0]) || (s[0] == '.' && 0 > 0));
            }
            assert forall|i: int| 0 <= i < s.len() implies is_key_char(#[trigger] s[i]) || s[i]
                == '.' by {}
            assert forall|i: int| 0 < i < s.len() && #[trigger] s[i] == '.' implies s[i - 1]
                != '.' by {
                assert(is_key_char(s[i]) || (s[i] == '.' && i > 0 && s[i - 1] != '.'));
            }
        }
    }
}

fn key_char(c: char) -> (r: bool)
    ensures
        r == is_key_char(c),
{
    ('a' <= c && c <= 'z') || ('0' <= c && c <= '9') || c == '_'
}

/// Checks a dotted setting key, giving the reason of the first problem found.
pub fn validate_setting_key(value: &str) -> (r: Result<(), &'static str>)
    ensures
        match first_key_problem(value@) {
            None => r is Ok,
            Some(p) => r matches Err(reason) && reason@ == key_problem_reason(p),
        },
{
    let v = chars_of(value);
    let n = v.len();
    if n == 0 {
        return Err("must not be empty");
    }
    let mut last_was_dot = true;
    let mut has_dot = false;
    let mut i: usize = 0;
    while i < n
        invariant
            v@ == value@,
            n == v.len(),
            n > 0,
            i <= n,
            char_problem_from(value@, 0) == char_problem_from(value@, i as int),
            last_was_dot == (i == 0 || v@[i - 1] == '.'),
            has_dot == v@.subrange(0, i as int).contains('.'),
        decreases n - i,
    {
        let c = v[i];
        let ghost before = v@.subrange(0, i as int);
        assert(v@.subrange(0, i + 1) =~= before.push(c));
        if key_char(c) {
            last_was_dot = false;
        } else if c == '.' && !last_was_dot {
            last_was_dot = true;
            has_dot = true;
            assert(v@.subrange(0, i + 1)[i as int] == '.');
        } else if c == '.' {
            return Err("must not contain empty segments");
        } else {
            return Err("must contain only ASCII lowercase letters, digits, underscores, and dots");
        }
        proof {
            if !has_dot {
                assert forall|k: int| 0 <= k < i + 1 implies #[trigger] v@.subrange(0, i + 1)[k] != '.' by {
                    if k < i {
                        assert(v@.subrange(0, i + 1)[k] == before[k]);
                    }
                }
            } else if c != '.' {
                let k = choose|k: int| 0 <= k < before.len() && before[k] == '.';
                assert(v@.subrange(0, i + 1)[k] == '.');
            }
        }
        i = i + 1;
    }
    assert(v@.subrange(0, n as int) =~= v@);
    if last_was_dot {
        return Err("must not end with a dot");
    }
    if !has_dot {
        return Err("must contain at least one dot");
    }
    Ok(())
}

/// Checks a storage key.
pub fn validate_storage_key(value: &str) -> (r: Result<(), &'static str>)
    ensures
        value@.len() == 0 ==> (r matches Err(reason) && reason@ == "must not be empty"@),
        value@.len() > 0 && storage_key_valid(value@) ==> r is Ok,
        value@.len() > 0 && !storage_key_valid(value@) ==> (r matches Err(reason) && reason@
            == "must contain only ASCII lowercase letters, digits, and underscores"@),
{
    let v = chars_of(value);
    if v.len() == 0 {
        return Err("must not be empty");
    }
    let mut i: usize = 0;
    while i < v.len()
        invariant
            v@ == value@,
            i <= v.len(),
            forall|k: int| 0 <= k < i ==> is_key_char(#[trigger] v@[k]),
        decreases v.len() - i,
    {
        if !key_char(v[i]) {
            return Err("must contain only ASCII lowercase letters, digits, and underscores");
        }
        i = i + 1;
    }
    Ok(())
}

/// A validated dotted setting key.
#[derive(Debug, Clone, Copy, PartialEq, Eq, Hash)]
pub struct SettingKey<'a>(&'a str);

impl<'a> SettingKey<'a> {
    pub closed spec fn text(self) -> Seq<char> {
        self.0@
    }

    pub fn parse(value: &'a str) -> (r: Result<Self, SettingsError>)
        ensures
            match first_key_problem(value@) {
                None => r matches Ok(key) && key.text() == value@,
                Some(p) => r matches Err(e) && e@ == (SettingsErrorView::InvalidKey {
                    key: value@,
                    reason: key_problem_reason(p),
                }),
            },
    {
        match validate_setting_key(value) {
            Ok(()) => Ok(SettingKey(value)),
            Err(reason) => Err(SettingsError::InvalidKey { key: String::from_str(value), reason }),
        }
    }

    pub fn as_str(self) -> (r: &'a str)
        ensures
            r@ == self.text(),
    {
        self.0
    }
}


// ---------------------------------------------------------------------------
// Values and value types
// ---------------------------------------------------------------------------

/// A legacy spelling that an enum setting still accepts.
#[derive(Debug, Clone, Copy, PartialEq, Eq)]
pub struct SettingAlias {
    from: &'static str,
    to: &'static str,
}

impl SettingAlias {
    pub closed spec fn pair(self) -> (Seq<char>, Seq<char>) {
        (self.from@, self.to@)
    }

    pub fn from(self) -> (r: &'static str)
        ensures
            r@ == self.pair().0,
    {
        self.from
    }

    pub fn to(self) -> (r: &'static str)
        ensures
            r@ == self.pair().1,
    {
        self.to
    }
}

/// The first alias target of `v`, scanning `aliases` from the front.
pub open spec fn alias_target(aliases: Seq<(Seq<char>, Seq<char>)>, v: Seq<char>) -> Option<
    Seq<char>,
>
    decreases aliases.len(),
{
    if aliases.len() == 0 {
        None
    } else if aliases[0].0 == v {
        Some(aliases[0].1)
    } else {
        alias_target(aliases.drop_first(), v)
    }
}

/// A setting whose value is one of a fixed list of names.
#[derive(Debug, Clone, PartialEq, Eq)]
pub struct EnumSettingType {
    values: Vec<&'static str>,
    aliases: Vec<SettingAlias>,
}

/// The canonical name that `v` stands for: itself when it is one of `values`,
/// else the target of its first alias.
pub open spec fn canonical_name(
    values: Seq<Seq<char>>,
    aliases: Seq<(Seq<char>, Seq<char>)>,
    v: Seq<char>,
) -> Option<Seq<char>> {
    if values.contains(v) {
        Some(v)
    } else {
        alias_target(aliases, v)
    }
}

/// The text that lists the accepted names.
pub open spec fn enum_expected(values: Seq<Seq<char>>) -> Seq<char> {
    "one of "@ + joined(values, ", "@)
}

impl EnumSettingType {
    pub closed spec fn value_names(&self) -> Seq<Seq<char>> {
        str_views(self.values@)
    }

    pub closed spec fn alias_pairs(&self) -> Seq<(Seq<char>, Seq<char>)> {
        self.aliases@.map_values(|a: SettingAlias| a.pair())
    }

    pub fn values(&self) -> (r: &[&'static str])
        ensures
            str_views(r@) == self.value_names(),
    {
        self.values.as_slice()
    }

    pub fn aliases(&self) -> (r: &[SettingAlias])
        ensures
            r@.map_values(|a: SettingAlias| a.pair()) == self.alias_pairs(),
    {
        self.aliases.as_slice()
    }

    /// The canonical name for `value`, following aliases.
    pub fn canonicalize(&self, value: &str) -> (r: Option<&'static str>)
        ensures
            match r {
                Some(c) => canonical_name(self.value_names(), self.alias_pairs(), value@) == Some(
                    c@,
                ),
                None => canonical_name(self.value_names(), self.alias_pairs(), value@) is None,
            },
    {
        let ghost names = self.value_names();
        let mut i: usize = 0;
        while i < self.values.len()
            invariant
                i <= self.values.len(),
                names == self.value_names(),
                names.len() == self.values@.len(),
                forall|k: int| 0 <= k < i ==> names[k] != value@,
            decreases self.values.len() - i,
        {
            if str_eq(self.values[i], value) {
                assert(names[i as int] == value@);
                return Some(self.values[i]);
            }
            i = i + 1;
        }
        assert(!names.contains(value@));
        let ghost pairs = self.alias_pairs();
        let mut j: usize = 0;
        assert(pairs.subrange(0, pairs.len() as int) =~= pairs);
        while j < self.aliases.len()
            invariant
                j <= self.aliases.len(),
                pairs == self.alias_pairs(),
                pairs.len() == self.aliases@.len(),
                !self.value_names().contains(value@),
                alias_target(pairs, value@) == alias_target(
                    pairs.subrange(j as int, pairs.len() as int),
                    value@,
                ),
            decreases self.aliases.len() - j,
        {
            let alias = self.aliases[j];
            let ghost rest = pairs.subrange(j as int, pairs.len() as int);
            assert(pairs[j as int] == alias.pair());
            assert(rest[0] == alias.pair());
            if str_eq(alias.from, value) {
                assert(alias_target(rest, value@) == Some(rest[0].1));
                return Some(alias.to);
            }
            assert(rest.drop_first() =~= pairs.subrange(j + 1, pairs.len() as int));
            j = j + 1;
        }
        None
    }

    /// The text that lists the accepted names, such as `one of a, b`.
    pub fn expected(&self) -> (r: String)
        ensures
            r@ == enum_expected(self.value_names()),
    {
        let mut r = String::from_str("one of ");
        let list = join(self.values.as_slice(), ", ");
        r.append(list.as_str());
        r
    }
}

/// A setting whose value is an integer in `min..=max`.
#[derive(Debug, Clone, Copy, PartialEq, Eq)]
pub struct IntegerSettingType {
    min: i64,
    max: i64,
}

pub open spec fn integer_expected(min: int, max: int) -> Seq<char> {
    "an integer from "@ + int_decimal(min) + " to "@ + int_decimal(max)
}

impl IntegerSettingType {
    pub closed spec fn low(self) -> int {
        self.min as int
    }

    pub closed spec fn high(self) -> int {
        self.max as int
    }

    pub fn min(self) -> (r: i64)
        ensures
            r == self.low(),
    {
        self.min
    }

    pub fn max(self) -> (r: i64)
        ensures
            r == self.high(),
    {
        self.max
    }

    pub fn contains(self, value: i64) -> (r: bool)
        ensures
            r == (self.low() <= value <= self.high()),
    {
        value >= self.min && value <= self.max
    }

    /// The text that describes the range, such as `an integer from 1 to 9`.
    pub fn expected(self) -> (r: String)
        ensures
            r@ == integer_expected(self.low(), self.high()),
    {
        let mut r = String::from_str("an integer from ");
        let low = decimal(self.min as i128);
        let high = decimal(self.max as i128);
        r.append(low.as_str());
        r.append(" to ");
        r.append(high.as_str());
        r
    }
}

/// The value of a setting.
#[derive(Debug, Clone, Copy, PartialEq, Eq)]
pub enum SettingValue {
    Enum(&'static str),
    Integer(i64),
}

impl SettingValue {
    /// The text of the value, as it is written to `config.env`.
    pub open spec fn text(self) -> Seq<char> {
        match self {
            SettingValue::Enum(name) => name@,
            SettingValue::Integer(i) => int_decimal(i as int),
        }
    }

    pub fn as_enum(self) -> (r: Option<&'static str>)
        ensures
            match self {
                SettingValue::Enum(name) => r == Some(name),
                SettingValue::Integer(_) => r is None,
            },
    {
        match self {
            SettingValue::Enum(value) => Some(value),
            SettingValue::Integer(_) => None,
        }
    }

    pub fn as_integer(self) -> (r: Option<i64>)
        ensures
            match self {
                SettingValue::Enum(_) => r is None,
                SettingValue::Integer(i) => r == Some(i),
            },
    {
        match self {
            SettingValue::Enum(_) => None,
            SettingValue::Integer(value) => Some(value),
        }
    }

    /// The text of the value, as `Display` writes it.
    pub fn to_text(self) -> (r: String)
        ensures
            r@ == self.text(),
    {
        match self {
            SettingValue::Enum(value) => String::from_str(value),
            SettingValue::Integer(value) => decimal(value as i128),
        }
    }
}

/// The type of the values that a setting takes.
#[derive(Debug, Clone, PartialEq, Eq)]
pub enum SettingType {
    Enum(EnumSettingType),
    Integer(IntegerSettingType),
}

impl SettingType {
    /// The text that describes the accepted values.
    pub open spec fn expected_text(&self) -> Seq<char> {
        match self {
            SettingType::Enum(t) => enum_expected(t.value_names()),
            SettingType::Integer(t) => integer_expected(t.low(), t.high()),
        }
    }

    /// What parsing `value` for `key` gives: the canonical name for an enum,
    /// the number for an integer in range, else an invalid-value error.
    pub open spec fn parsed(&self, key: Seq<char>, value: Seq<char>) -> Result<
        SettingValueView,
        SettingsErrorView,
    > {
        let invalid = SettingsErrorView::InvalidValue {
            key,
            value,
            expected: self.expected_text(),
        };
        match self {
            SettingType::Enum(t) => match canonical_name(t.value_names(), t.alias_pairs(), value) {
                Some(c) => Ok(SettingValueView::Enum(c)),
                None => Err(invalid),
            },
            SettingType::Integer(t) => match decimal_i64_value(value) {
                Some(i) => if t.low() <= i <= t.high() {
                    Ok(SettingValueView::Integer(i))
                } else {
                    Err(invalid)
                },
                None => Err(invalid),
            },
        }
    }

    /// Whether `value` is a canonical value of this type.
    pub open spec fn accepts(&self, value: SettingValue) -> bool {
        match (self, value) {
            (SettingType::Enum(t), SettingValue::Enum(v)) => canonical_name(
                t.value_names(),
                t.alias_pairs(),
                v@,
            ) == Some(v@),
            (SettingType::Integer(t), SettingValue::Integer(v)) => t.low() <= v <= t.high(),
            _ => false,
        }
    }

    pub fn expected(&self) -> (r: String)
        ensures
            r@ == self.expected_text(),
    {
        match self {
            SettingType::Enum(t) => t.expected(),
            SettingType::Integer(t) => t.expected(),
        }
    }

    /// Parses `value` for the setting `key`.
    pub fn parse_value(&self, key: &str, value: &str) -> (r: Result<SettingValue, SettingsError>)
        ensures
            result_view(r) == self.parsed(key@, value@),
    {
        match self {
            SettingType::Enum(t) => match t.canonicalize(value) {
                Some(c) => Ok(SettingValue::Enum(c)),
                None => Err(
                    SettingsError::InvalidValue {
                        key: String::from_str(key),
                        value: String::from_str(value),
                        expected: t.expected(),
                    },
                ),
            },
            SettingType::Integer(t) => match parse_i64(value) {
                Some(parsed) => {
                    if t.contains(parsed) {
                        Ok(SettingValue::Integer(parsed))
                    } else {
                        Err(
                            SettingsError::InvalidValue {
                                key: String::from_str(key),
                                value: String::from_str(value),
                                expected: t.expected(),
                            },
                        )
                    }
                },
                None => Err(
                    SettingsError::InvalidValue {
                        key: String::from_str(key),
                        value: String::from_str(value),
                        expected: t.expected(),
                    },
                ),
            },
        }
    }

    /// Checks that `value` is a canonical value of this type.
    pub fn validate_value(&self, key: &str, value: SettingValue) -> (r: Result<(), SettingsError>)
        ensures
            self.accepts(value) ==> r is Ok,
            !self.accepts(value) ==> (r matches Err(e) && e@ == (SettingsErrorView::InvalidValue {
                key: key@,
                value: value.text(),
                expected: self.expected_text(),
            })),
    {
        match (self, value) {
            (SettingType::Enum(t), SettingValue::Enum(v)) => {
                match t.canonicalize(v) {
                    Some(canonical) => {
                        if str_eq(canonical, v) {
                            return Ok(());
                        }
                    },
                    None => {},
                }
                Err(
                    SettingsError::InvalidValue {
                        key: String::from_str(key),
                        value: String::from_str(v),
                        expected: t.expected(),
                    },
                )
            },
            (SettingType::Integer(t), SettingValue::Integer(v)) => {
                if t.contains(v) {
                    Ok(())
                } else {
                    Err(
                        SettingsError::InvalidValue {
                            key: String::from_str(key),
                            value: decimal(v as i128),
                            expected: t.expected(),
                        },
                    )
                }
            },
            _ => Err(
                SettingsError::InvalidValue {
                    key: String::from_str(key),
                    value: value.to_text(),
                    expected: self.expected(),
                },
            ),
        }
    }
}

/// A setting value with its text as a character sequence.
pub enum SettingValueView {
    Enum(Seq<char>),
    Integer(int),
}

impl SettingValue {
    pub open spec fn view_value(self) -> SettingValueView {
        match self {
            SettingValue::Enum(name) => SettingValueView::Enum(name@),
            SettingValue::Integer(i) => SettingValueView::Integer(i as int),
        }
    }
}

/// A parse result with both sides seen as views.
pub open spec fn result_view(r: Result<SettingValue, SettingsError>) -> Result<
    SettingValueView,
    SettingsErrorView,
> {
    match r {
        Ok(v) => Ok(v.view_value()),
        Err(e) => Err(e@),
    }
}


// ---------------------------------------------------------------------------
// Metadata checks of value types
// ---------------------------------------------------------------------------

/// Well-formed enum metadata: at least one value, no empty or repeated
/// value, and every alias non-empty, distinct from the values and from the
/// other aliases, and pointing at one of the values.
pub open spec fn enum_type_valid(
    values: Seq<Seq<char>>,
    aliases: Seq<(Seq<char>, Seq<char>)>,
) -> bool {
    &&& values.len() > 0
    &&& forall|i: int| 0 <= i < values.len() ==> (#[trigger] values[i]).len() > 0
    &&& forall|i: int, j: int| 0 <= i < j < values.len() ==> values[i] != values[j]
    &&& forall|k: int|
        0 <= k < aliases.len() ==> {
            &&& (#[trigger] aliases[k]).0.len() > 0
            &&& aliases[k].1.len() > 0
            &&& !values.contains(aliases[k].0)
            &&& values.contains(aliases[k].1)
        }
    &&& forall|k: int, l: int| 0 <= k < l < aliases.len() ==> aliases[k].0 != aliases[l].0
}

/// One thing that can be wrong with enum metadata.
pub enum EnumTypeFault {
    NoValues,
    EmptyValue,
    DuplicateValue(Seq<char>),
    EmptyAlias,
    AliasShadowsValue(Seq<char>),
    AliasTargetUnknown(Seq<char>, Seq<char>),
    DuplicateAlias(Seq<char>),
}

pub open spec fn enum_fault_holds(
    values: Seq<Seq<char>>,
    aliases: Seq<(Seq<char>, Seq<char>)>,
    f: EnumTypeFault,
) -> bool {
    match f {
        EnumTypeFault::NoValues => values.len() == 0,
        EnumTypeFault::EmptyValue => exists|i: int|
            0 <= i < values.len() && (#[trigger] values[i]).len() == 0,
        EnumTypeFault::DuplicateValue(v) => exists|i: int, j: int|
            0 <= i < j < values.len() && values[i] == v && values[j] == v,
        EnumTypeFault::EmptyAlias => exists|k: int|
            0 <= k < aliases.len() && ((#[trigger] aliases[k]).0.len() == 0 || aliases[k].1.len()
                == 0),
        EnumTypeFault::AliasShadowsValue(from) => exists|k: int|
            0 <= k < aliases.len() && (#[trigger] aliases[k]).0 == from && values.contains(from),
        EnumTypeFault::AliasTargetUnknown(from, to) => exists|k: int|
            0 <= k < aliases.len() && #[trigger] aliases[k] == (from, to) && !values.contains(to),
        EnumTypeFault::DuplicateAlias(from) => exists|k: int, l: int|
            0 <= k < l < aliases.len() && aliases[k].0 == from && aliases[l].0 == from,
    }
}

pub open spec fn enum_fault_message(key: Seq<char>, f: EnumTypeFault) -> Seq<char> {
    match f {
        EnumTypeFault::NoValues => "`"@ + key + "` enum settings must define at least one value"@,
        EnumTypeFault::EmptyValue => "`"@ + key + "` enum settings must not define empty values"@,
        EnumTypeFault::DuplicateValue(v) => "`"@ + key + "` enum setting has duplicate value `"@
            + v + "`"@,
        EnumTypeFault::EmptyAlias => "`"@ + key + "` enum settings must not define empty aliases"@,
        EnumTypeFault::AliasShadowsValue(from) => "`"@ + key + "` enum alias `"@ + from
            + "` duplicates a canonical value"@,
        EnumTypeFault::AliasTargetUnknown(from, to) => "`"@ + key + "` enum alias `"@ + from
            + "` points to unknown value `"@ + to + "`"@,
        EnumTypeFault::DuplicateAlias(from) => "`"@ + key + "` enum setting has duplicate alias `"@
            + from + "`"@,
    }
}

/// The first fault among the values from position `i` on, in the order in
/// which the check meets them: an empty value, or a value that an earlier
/// one repeats.
pub open spec fn value_fault_from(values: Seq<Seq<char>>, i: int) -> Option<EnumTypeFault>
    decreases values.len() - i,
{
    if i < 0 || i >= values.len() {
        None
    } else if values[i].len() == 0 {
        Some(EnumTypeFault::EmptyValue)
    } else if exists|k: int| 0 <= k < i && values[k] == values[i] {
        Some(EnumTypeFault::DuplicateValue(values[i]))
    } else {
        value_fault_from(values, i + 1)
    }
}

/// The first fault among the aliases from position `k` on: an empty
/// alias, an alias that is a value, an alias whose target is no value, or an
/// alias that an earlier one repeats, checked in this order for each alias.
pub open spec fn alias_fault_from(
    values: Seq<Seq<char>>,
    aliases: Seq<(Seq<char>, Seq<char>)>,
    k: int,
) -> Option<EnumTypeFault>
    decreases aliases.len() - k,
{
    if k < 0 || k >= aliases.len() {
        None
    } else if aliases[k].0.len() == 0 || aliases[k].1.len() == 0 {
        Some(EnumTypeFault::EmptyAlias)
    } else if values.contains(aliases[k].0) {
        Some(EnumTypeFault::AliasShadowsValue(aliases[k].0))
    } else if !values.contains(aliases[k].1) {
        Some(EnumTypeFault::AliasTargetUnknown(aliases[k].0, aliases[k].1))
    } else if exists|l: int| 0 <= l < k && aliases[l].0 == aliases[k].0 {
        Some(EnumTypeFault::DuplicateAlias(aliases[k].0))
    } else {
        alias_fault_from(values, aliases, k + 1)
    }
}

/// The fault that the check of enum metadata reports: no values first, then
/// the values in order, then the aliases in order.
pub open spec fn enum_first_fault(
    values: Seq<Seq<char>>,
    aliases: Seq<(Seq<char>, Seq<char>)>,
) -> Option<EnumTypeFault> {
    if values.len() == 0 {
        Some(EnumTypeFault::NoValues)
    } else if value_fault_from(values, 0) is Some {
        value_fault_from(values, 0)
    } else {
        alias_fault_from(values, aliases, 0)
    }
}

/// Valid metadata is exactly metadata of which no fault holds.
pub proof fn lemma_enum_fault_excludes_validity(
    values: Seq<Seq<char>>,
    aliases: Seq<(Seq<char>, Seq<char>)>,
    f: EnumTypeFault,
)
    requires
        enum_fault_holds(values, aliases, f),
    ensures
        !enum_type_valid(values, aliases),
{
    match f {
        EnumTypeFault::NoValues => {},
        EnumTypeFault::EmptyValue => {},
        EnumTypeFault::DuplicateValue(v) => {},
        EnumTypeFault::EmptyAlias => {},
        EnumTypeFault::AliasShadowsValue(from) => {},
        EnumTypeFault::AliasTargetUnknown(from, to) => {},
        EnumTypeFault::DuplicateAlias(from) => {},
    }
}

/// Whether one of the first `upto` names equals `v`.
fn occurs_before(list: &Vec<&'static str>, upto: usize, v: &str) -> (r: bool)
    requires
        upto <= list.len(),
    ensures
        r == (exists|k: int| 0 <= k < upto && (#[trigger] list@[k])@ == v@),
{
    let mut k: usize = 0;
    while k < upto
        invariant
            k <= upto,
            upto <= list.len(),
            forall|m: int| 0 <= m < k ==> (#[trigger] list@[m])@ != v@,
        decreases upto - k,
    {
        if str_eq(list[k], v) {
            return true;
        }
        k = k + 1;
    }
    false
}

/// Whether one of the first `upto` aliases starts from `v`.
fn alias_occurs_before(list: &Vec<SettingAlias>, upto: usize, v: &str) -> (r: bool)
    requires
        upto <= list.len(),
    ensures
        r == (exists|k: int| 0 <= k < upto && (#[trigger] list@[k]).pair().0 == v@),
{
    let mut k: usize = 0;
    while k < upto
        invariant
            k <= upto,
            upto <= list.len(),
            forall|m: int| 0 <= m < k ==> (#[trigger] list@[m]).pair().0 != v@,
        decreases upto - k,
    {
        if str_eq(list[k].from, v) {
            return true;
        }
        k = k + 1;
    }
    false
}

/// `"`key` enum " + tail`, and the like: the message of a registry fault.
fn message3(a: &str, b: &str, c: &str) -> (r: String)
    ensures
        r@ == a@ + b@ + c@,
{
    let mut r = String::from_str(a);
    r.append(b);
    r.append(c);
    r
}

fn message5(a: &str, b: &str, c: &str, d: &str, e: &str) -> (r: String)
    ensures
        r@ == a@ + b@ + c@ + d@ + e@,
{
    let mut r = String::from_str(a);
    r.append(b);
    r.append(c);
    r.append(d);
    r.append(e);
    r
}

fn message7(a: &str, b: &str, c: &str, d: &str, e: &str, f: &str, g: &str) -> (r: String)
    ensures
        r@ == a@ + b@ + c@ + d@ + e@ + f@ + g@,
{
    let mut r = message5(a, b, c, d, e);
    r.append(f);
    r.append(g);
    r
}

impl EnumSettingType {
    /// Checks the metadata of the enum type of the setting `key`.
    pub fn validate(&self, key: &str) -> (r: Result<(), SettingsError>)
        ensures
            r is Ok <==> enum_type_valid(self.value_names(), self.alias_pairs()),
            r matches Err(e) ==> exists|f: EnumTypeFault|
                enum_fault_holds(self.value_names(), self.alias_pairs(), f) && e@
                    == SettingsErrorView::RegistryInvariant(enum_fault_message(key@, f)),
            match enum_first_fault(self.value_names(), self.alias_pairs()) {
                None => r is Ok,
                Some(f) => r matches Err(e) && e@ == SettingsErrorView::RegistryInvariant(
                    enum_fault_message(key@, f),
                ),
            },
    {
        let ghost values = self.value_names();
        let ghost aliases = self.alias_pairs();
        assert(values.len() == self.values@.len());
        assert(aliases.len() == self.aliases@.len());
        if self.values.len() == 0 {
            assert(enum_fault_holds(values, aliases, EnumTypeFault::NoValues));
            return Err(
                SettingsError::RegistryInvariant(
                    message3("`", key, "` enum settings must define at least one value"),
                ),
            );
        }
        let mut i: usize = 0;
        while i < self.values.len()
            invariant
                i <= self.values.len(),
                values == self.value_names(),
                aliases == self.alias_pairs(),
                values.len() == self.values@.len(),
                forall|m: int| 0 <= m < i ==> (#[trigger] values[m]).len() > 0,
                forall|m: int, n: int| 0 <= m < n < i ==> values[m] != values[n],
                values.len() > 0,
                value_fault_from(values, 0) == value_fault_from(values, i as int),
            decreases self.values.len() - i,
        {
            let value = self.values[i];
            assert(values[i as int] == value@);
            if value.unicode_len() == 0 {
                assert(enum_fault_holds(values, aliases, EnumTypeFault::EmptyValue));
                return Err(
                    SettingsError::RegistryInvariant(
                        message3("`", key, "` enum settings must not define empty values"),
                    ),
                );
            }
            if occurs_before(&self.values, i, value) {
                let ghost k = choose|k: int| 0 <= k < i && (#[trigger] self.values@[k])@ == value@;
                assert(values[k] == value@);
                assert(enum_fault_holds(values, aliases, EnumTypeFault::DuplicateValue(value@)));
                assert(value_fault_from(values, i as int) == Some(
                    EnumTypeFault::DuplicateValue(value@),
                ));
                return Err(
                    SettingsError::RegistryInvariant(
                        message5("`", key, "` enum setting has duplicate value `", value, "`"),
                    ),
                );
            }
            proof {
                assert forall|m: int, n: int| 0 <= m < n < i + 1 implies values[m] != values[n] by {
                    if n == i {
                        assert(self.values@[m]@ == values[m]);
                    }
                }
                assert(!(exists|k: int| 0 <= k < i && values[k] == values[i as int])) by {
                    if exists|k: int| 0 <= k < i && values[k] == values[i as int] {
                        let k = choose|k: int| 0 <= k < i && values[k] == values[i as int];
                        assert(self.values@[k]@ == values[k]);
                    }
                }
                assert(value_fault_from(values, i as int) == value_fault_from(values, i + 1));
            }
            i = i + 1;
        }
        assert(value_fault_from(values, 0) is None);
        let mut j: usize = 0;
        while j < self.aliases.len()
            invariant
                j <= self.aliases.len(),
                values == self.value_names(),
                aliases == self.alias_pairs(),
                values.len() == self.values@.len(),
                aliases.len() == self.aliases@.len(),
                values.len() > 0,
                forall|m: int| 0 <= m < values.len() ==> (#[trigger] values[m]).len() > 0,
                forall|m: int, n: int| 0 <= m < n < values.len() ==> values[m] != values[n],
                forall|k: int|
                    0 <= k < j ==> {
                        &&& (#[trigger] aliases[k]).0.len() > 0
                        &&& aliases[k].1.len() > 0
                        &&& !values.contains(aliases[k].0)
                        &&& values.contains(aliases[k].1)
                    },
                forall|k: int, l: int| 0 <= k < l < j ==> aliases[k].0 != aliases[l].0,
                value_fault_from(values, 0) is None,
                alias_fault_from(values, aliases, 0) == alias_fault_from(values, aliases, j as int),
            decreases self.aliases.len() - j,
        {
            let alias = self.aliases[j];
            assert(aliases[j as int] == alias.pair());
            if alias.from.unicode_len() == 0 || alias.to.unicode_len() == 0 {
                assert(enum_fault_holds(values, aliases, EnumTypeFault::EmptyAlias));
                return Err(
                    SettingsError::RegistryInvariant(
                        message3("`", key, "` enum settings must not define empty aliases"),
                    ),
                );
            }
            if occurs_before(&self.values, self.values.len(), alias.from) {
                let ghost k = choose|k: int|
                    0 <= k < self.values@.len() && (#[trigger] self.values@[k])@ == alias.from@;
                assert(values[k] == alias.from@);
                assert(enum_fault_holds(
                    values,
                    aliases,
                    EnumTypeFault::AliasShadowsValue(alias.from@),
                ));
                return Err(
                    SettingsError::RegistryInvariant(
                        message5(
                            "`",
                            key,
                            "` enum alias `",
                            alias.from,
                            "` duplicates a canonical value",
                        ),
                    ),
                );
            }
            if !occurs_before(&self.values, self.values.len(), alias.to) {
                assert(!values.contains(alias.to@)) by {
                    if values.contains(alias.to@) {
                        let k = choose|k: int| 0 <= k < values.len() && values[k] == alias.to@;
                        assert(self.values@[k]@ == alias.to@);
                    }
                }
                assert(enum_fault_holds(
                    values,
                    aliases,
                    EnumTypeFault::AliasTargetUnknown(alias.from@, alias.to@),
                ));
                return Err(
                    SettingsError::RegistryInvariant(
                        message7(
                            "`",
                            key,
                            "` enum alias `",
                            alias.from,
                            "` points to unknown value `",
                            alias.to,
                            "`",
                        ),
                    ),
                );
            }
            assert(values.contains(alias.to@)) by {
                let k = choose|k: int|
                    0 <= k < self.values@.len() && (#[trigger] self.values@[k])@ == alias.to@;
                assert(values[k] == alias.to@);
            }
            assert(!values.contains(alias.from@)) by {
                if values.contains(alias.from@) {
                    let k2 = choose|k2: int| 0 <= k2 < values.len() && values[k2] == alias.from@;
                    assert(self.values@[k2]@ == alias.from@);
                }
            }
            if alias_occurs_before(&self.aliases, j, alias.from) {
                let ghost k = choose|k: int|
                    0 <= k < j && (#[trigger] self.aliases@[k]).pair().0 == alias.from@;
                assert(aliases[k].0 == alias.from@);
                assert(alias_fault_from(values, aliases, j as int) == Some(
                    EnumTypeFault::DuplicateAlias(alias.from@),
                ));
                assert(enum_fault_holds(
                    values,
                    aliases,
                    EnumTypeFault::DuplicateAlias(alias.from@),
                ));
                return Err(
                    SettingsError::RegistryInvariant(
                        message5("`", key, "` enum setting has duplicate alias `", alias.from, "`"),
                    ),
                );
            }
            proof {
                let k = choose|k: int|
                    0 <= k < self.values@.len() && (#[trigger] self.values@[k])@ == alias.to@;
                assert(values[k] == alias.to@);
                assert(!values.contains(alias.from@)) by {
                    if values.contains(alias.from@) {
                        let k2 = choose|k2: int| 0 <= k2 < values.len() && values[k2] == alias.from@;
                        assert(self.values@[k2]@ == alias.from@);
                    }
                }
                assert forall|m: int, n: int| 0 <= m < n < j + 1 implies aliases[m].0
                    != aliases[n].0 by {
                    if n == j {
                        assert(self.aliases@[m].pair().0 == aliases[m].0);
                    }
                }
                assert(!(exists|l: int| 0 <= l < j && aliases[l].0 == aliases[j as int].0)) by {
                    if exists|l: int| 0 <= l < j && aliases[l].0 == aliases[j as int].0 {
                        let l = choose|l: int| 0 <= l < j && aliases[l].0 == aliases[j as int].0;
                        assert(self.aliases@[l].pair().0 == aliases[l].0);
                    }
                }
                assert(alias_fault_from(values, aliases, j as int) == alias_fault_from(
                    values,
                    aliases,
                    j + 1,
                ));
            }
            j = j + 1;
        }
        assert(alias_fault_from(values, aliases, j as int) is None);
        Ok(())
    }
}

pub open spec fn integer_range_message(key: Seq<char>, min: int, max: int) -> Seq<char> {
    "`"@ + key + "` integer setting has an invalid range "@ + int_decimal(min) + ".."@
        + int_decimal(max)
}

impl IntegerSettingType {
    /// Checks that the range of the integer type of the setting `key` is not empty.
    pub fn validate(self, key: &str) -> (r: Result<(), SettingsError>)
        ensures
            self.low() <= self.high() ==> r is Ok,
            self.low() > self.high() ==> (r matches Err(e) && e@
                == SettingsErrorView::RegistryInvariant(
                integer_range_message(key@, self.low(), self.high()),
            )),
    {
        if self.min <= self.max {
            Ok(())
        } else {
            let low = decimal(self.min as i128);
            let high = decimal(self.max as i128);
            Err(
                SettingsError::RegistryInvariant(
                    message5(
                        "`",
                        key,
                        "` integer setting has an invalid range ",
                        low.as_str(),
                        "..",
                    ).concat(high.as_str()),
                ),
            )
        }
    }
}


// ---------------------------------------------------------------------------
// Setting definitions
// ---------------------------------------------------------------------------

/// Everything the registry knows about one setting.
#[derive(Debug, Clone)]
pub struct SettingDefinition {
    key: &'static str,
    storage_key: &'static str,
    value_type: SettingType,
    default_value: SettingValue,
    mutability: SettingMutability,
    operations: Vec<SettingOperation>,
    apply_strategy: ApplyStrategy,
    description: &'static str,
}

pub open spec fn missing_operation_message(key: Seq<char>, op: SettingOperation) -> Seq<char> {
    "`"@ + key + "` is read-write but does not support `"@ + op.name() + "`"@
}

pub open spec fn extra_operation_message(key: Seq<char>, op: SettingOperation) -> Seq<char> {
    "`"@ + key + "` is read-only but supports `"@ + op.name() + "`"@
}

/// The message of the operation check, in the order in which it looks.
pub open spec fn operation_fault(
    key: Seq<char>,
    mutability: SettingMutability,
    ops: Seq<SettingOperation>,
) -> Option<Seq<char>> {
    if ops.len() == 0 {
        Some("`"@ + key + "` must support at least one operation"@)
    } else {
        match mutability {
            SettingMutability::ReadWrite => {
                if !ops.contains(SettingOperation::Get) {
                    Some(missing_operation_message(key, SettingOperation::Get))
                } else if !ops.contains(SettingOperation::Describe) {
                    Some(missing_operation_message(key, SettingOperation::Describe))
                } else if !ops.contains(SettingOperation::SetValue) {
                    Some(missing_operation_message(key, SettingOperation::SetValue))
                } else if !ops.contains(SettingOperation::Unset) {
                    Some(missing_operation_message(key, SettingOperation::Unset))
                } else {
                    None
                }
            },
            SettingMutability::ReadOnly => {
                if ops.contains(SettingOperation::SetValue) {
                    Some(extra_operation_message(key, SettingOperation::SetValue))
                } else if ops.contains(SettingOperation::Unset) {
                    Some(extra_operation_message(key, SettingOperation::Unset))
                } else {
                    None
                }
            },
        }
    }
}

pub open spec fn default_message(key: Seq<char>, value: Seq<char>, expected: Seq<char>) -> Seq<
    char,
> {
    "invalid default value `"@ + value + "` for `"@ + key + "`: expected "@ + expected
}

fn contains_operation(ops: &Vec<SettingOperation>, op: SettingOperation) -> (r: bool)
    ensures
        r == ops@.contains(op),
{
    let mut i: usize = 0;
    while i < ops.len()
        invariant
            i <= ops.len(),
            forall|k: int| 0 <= k < i ==> ops@[k] != op,
        decreases ops.len() - i,
    {
        if ops[i] == op {
            assert(ops@[i as int] == op);
            return true;
        }
        i = i + 1;
    }
    false
}

impl SettingDefinition {
    pub closed spec fn key_text(&self) -> Seq<char> {
        self.key@
    }

    pub closed spec fn storage_text(&self) -> Seq<char> {
        self.storage_key@
    }

    pub closed spec fn spec_value_type(&self) -> SettingType {
        self.value_type
    }

    pub closed spec fn spec_default(&self) -> SettingValue {
        self.default_value
    }

    pub closed spec fn spec_mutability(&self) -> SettingMutability {
        self.mutability
    }

    pub closed spec fn ops(&self) -> Seq<SettingOperation> {
        self.operations@
    }

    pub closed spec fn spec_apply_strategy(&self) -> ApplyStrategy {
        self.apply_strategy
    }

    pub closed spec fn description_text(&self) -> Seq<char> {
        self.description@
    }

    /// Whether the metadata of the value type is well formed.
    pub open spec fn type_metadata_valid(&self) -> bool {
        match self.spec_value_type() {
            SettingType::Enum(t) => enum_type_valid(t.value_names(), t.alias_pairs()),
            SettingType::Integer(t) => t.low() <= t.high(),
        }
    }

    /// Whether the default is a canonical value of the value type.
    pub open spec fn default_valid(&self) -> bool {
        self.spec_value_type().accepts(self.spec_default())
    }

    /// Whether the operations agree with the mutability.
    pub open spec fn operations_valid(&self) -> bool {
        operation_fault(self.key_text(), self.spec_mutability(), self.ops()) is None
    }

    pub open spec fn well_formed(&self) -> bool {
        &&& setting_key_valid(self.key_text())
        &&& storage_key_valid(self.storage_text())
        &&& self.type_metadata_valid()
        &&& self.default_valid()
        &&& self.operations_valid()
    }

    pub fn key(&self) -> (r: SettingKey<'static>)
        ensures
            r.text() == self.key_text(),
    {
        SettingKey(self.key)
    }

    pub fn key_name(&self) -> (r: &'static str)
        ensures
            r@ == self.key_text(),
    {
        self.key
    }

    pub fn storage_key(&self) -> (r: &'static str)
        ensures
            r@ == self.storage_text(),
    {
        self.storage_key
    }

    pub fn value_type(&self) -> (r: &SettingType)
        ensures
            *r == self.spec_value_type(),
    {
        &self.value_type
    }

    pub fn default_value(&self) -> (r: SettingValue)
        ensures
            r == self.spec_default(),
    {
        self.default_value
    }

    pub fn mutability(&self) -> (r: SettingMutability)
        ensures
            r == self.spec_mutability(),
    {
        self.mutability
    }

    pub fn supported_operations(&self) -> (r: &[SettingOperation])
        ensures
            r@ == self.ops(),
    {
        self.operations.as_slice()
    }

    pub fn apply_strategy(&self) -> (r: ApplyStrategy)
        ensures
            r == self.spec_apply_strategy(),
    {
        self.apply_strategy
    }

    pub fn description(&self) -> (r: &'static str)
        ensures
            r@ == self.description_text(),
    {
        self.description
    }

    pub fn supports_operation(&self, operation: SettingOperation) -> (r: bool)
        ensures
            r == self.ops().contains(operation),
    {
        contains_operation(&self.operations, operation)
    }

    pub fn ensure_operation_supported(&self, operation: SettingOperation) -> (r: Result<
        (),
        SettingsError,
    >)
        ensures
            self.ops().contains(operation) ==> r is Ok,
            !self.ops().contains(operation) ==> (r matches Err(e) && e@
                == SettingsErrorView::UnsupportedOperation { key: self.key_text(), operation }),
    {
        if self.supports_operation(operation) {
            Ok(())
        } else {
            Err(SettingsError::UnsupportedOperation { key: String::from_str(self.key), operation })
        }
    }

    /// Parses `value` as a value of this setting.
    pub fn parse_value(&self, value: &str) -> (r: Result<SettingValue, SettingsError>)
        ensures
            result_view(r) == self.spec_value_type().parsed(self.key_text(), value@),
    {
        self.value_type.parse_value(self.key, value)
    }

    fn validate_type_metadata(&self) -> (r: Result<(), SettingsError>)
        ensures
            r is Ok <==> self.type_metadata_valid(),
            r matches Err(e) ==> match self.spec_value_type() {
                SettingType::Enum(t) => exists|f: EnumTypeFault|
                    enum_fault_holds(t.value_names(), t.alias_pairs(), f) && e@
                        == SettingsErrorView::RegistryInvariant(
                        enum_fault_message(self.key_text(), f),
                    ),
                SettingType::Integer(t) => e@ == SettingsErrorView::RegistryInvariant(
                    integer_range_message(self.key_text(), t.low(), t.high()),
                ),
            },
            match type_fault(*self) {
                None => r is Ok,
                Some(f) => r matches Err(e) && e@ == registry_fault_error(*self, f),
            },
    {
        match &self.value_type {
            SettingType::Enum(enum_type) => enum_type.validate(self.key),
            SettingType::Integer(integer_type) => integer_type.validate(self.key),
        }
    }

    fn validate_default(&self) -> (r: Result<(), SettingsError>)
        ensures
            r is Ok <==> self.default_valid(),
            r matches Err(e) ==> e@ == SettingsErrorView::RegistryInvariant(
                default_message(
                    self.key_text(),
                    self.spec_default().text(),
                    self.spec_value_type().expected_text(),
                ),
            ),
    {
        match self.value_type.validate_value(self.key, self.default_value) {
            Ok(()) => Ok(()),
            Err(SettingsError::InvalidValue { key, value, expected }) => {
                let mut m = String::from_str("invalid default value `");
                m.append(value.as_str());
                m.append("` for `");
                m.append(key.as_str());
                m.append("`: expected ");
                m.append(expected.as_str());
                Err(SettingsError::RegistryInvariant(m))
            },
            Err(other) => Err(other),
        }
    }

    fn validate_operation_metadata(&self) -> (r: Result<(), SettingsError>)
        ensures
            match operation_fault(self.key_text(), self.spec_mutability(), self.ops()) {
                None => r is Ok,
                Some(m) => r matches Err(e) && e@ == SettingsErrorView::RegistryInvariant(m),
            },
    {
        if self.operations.len() == 0 {
            return Err(
                SettingsError::RegistryInvariant(
                    message3("`", self.key, "` must support at least one operation"),
                ),
            );
        }
        match self.mutability {
            SettingMutability::ReadWrite => {
                let required = [
                    SettingOperation::Get,
                    SettingOperation::Describe,
                    SettingOperation::SetValue,
                    SettingOperation::Unset,
                ];
                let mut i: usize = 0;
                while i < 4
                    invariant
                        i <= 4,
                        self.spec_mutability() == SettingMutability::ReadWrite,
                        self.ops().len() > 0,
                        required@ == read_write_operations(),
                        forall|k: int| 0 <= k < i ==> self.ops().contains(#[trigger] required@[k]),
                    decreases 4 - i,
                {
                    let op = required[i];
                    if !contains_operation(&self.operations, op) {
                        assert(required@[0] == SettingOperation::Get);
                        assert(required@[1] == SettingOperation::Describe);
                        assert(required@[2] == SettingOperation::SetValue);
                        assert(required@[3] == SettingOperation::Unset);
                        assert(op == required@[i as int]);
                        assert(!self.ops().contains(op));
                        if i > 0 {
                            assert(self.ops().contains(required@[0]));
                        }
                        if i > 1 {
                            assert(self.ops().contains(required@[1]));
                        }
                        if i > 2 {
                            assert(self.ops().contains(required@[2]));
                        }
                        return Err(
                            SettingsError::RegistryInvariant(
                                message5(
                                    "`",
                                    self.key,
                                    "` is read-write but does not support `",
                                    op.as_str(),
                                    "`",
                                ),
                            ),
                        );
                    }
                    i = i + 1;
                }
                assert(self.ops().contains(required@[0]));
                assert(self.ops().contains(required@[1]));
                assert(self.ops().contains(required@[2]));
                assert(self.ops().contains(required@[3]));
            },
            SettingMutability::ReadOnly => {
                if contains_operation(&self.operations, SettingOperation::SetValue) {
                    return Err(
                        SettingsError::RegistryInvariant(
                            message5(
                                "`",
                                self.key,
                                "` is read-only but supports `",
                                SettingOperation::SetValue.as_str(),
                                "`",
                            ),
                        ),
                    );
                }
                if contains_operation(&self.operations, SettingOperation::Unset) {
                    return Err(
                        SettingsError::RegistryInvariant(
                            message5(
                                "`",
                                self.key,
                                "` is read-only but supports `",
                                SettingOperation::Unset.as_str(),
                                "`",
                            ),
                        ),
                    );
                }
            },
        }
        Ok(())
    }
}


// ---------------------------------------------------------------------------
// The registry
// ---------------------------------------------------------------------------

/// The settings that LG Buddy knows, in a fixed order.
#[derive(Debug, Clone)]
pub struct SettingsRegistry {
    definitions: Vec<SettingDefinition>,
}

/// A well-formed registry: every definition is well formed, and no two
/// definitions share a public key or a storage key.
pub open spec fn registry_valid(defs: Seq<SettingDefinition>) -> bool {
    &&& forall|i: int| 0 <= i < defs.len() ==> (#[trigger] defs[i]).well_formed()
    &&& forall|i: int, j: int|
        0 <= i < j < defs.len() ==> defs[i].key_text() != defs[j].key_text()
            && defs[i].storage_text() != defs[j].storage_text()
}

/// One thing that can be wrong with a definition of a registry.
pub enum RegistryFault {
    Key(KeyProblem),
    StorageKey,
    DuplicateKey,
    DuplicateStorageKey,
    EnumType(EnumTypeFault),
    IntegerRange,
    Default,
    Operations,
}

pub open spec fn registry_fault_holds(
    defs: Seq<SettingDefinition>,
    i: int,
    f: RegistryFault,
) -> bool {
    &&& 0 <= i < defs.len()
    &&& match f {
        RegistryFault::Key(p) => first_key_problem(defs[i].key_text()) == Some(p),
        RegistryFault::StorageKey => !storage_key_valid(defs[i].storage_text()),
        RegistryFault::DuplicateKey => exists|j: int|
            0 <= j < i && (#[trigger] defs[j]).key_text() == defs[i].key_text(),
        RegistryFault::DuplicateStorageKey => exists|j: int|
            0 <= j < i && (#[trigger] defs[j]).storage_text() == defs[i].storage_text(),
        RegistryFault::EnumType(ef) => match defs[i].spec_value_type() {
            SettingType::Enum(t) => enum_fault_holds(t.value_names(), t.alias_pairs(), ef),
            SettingType::Integer(_) => false,
        },
        RegistryFault::IntegerRange => match defs[i].spec_value_type() {
            SettingType::Enum(_) => false,
            SettingType::Integer(t) => t.low() > t.high(),
        },
        RegistryFault::Default => !defs[i].default_valid(),
        RegistryFault::Operations => !defs[i].operations_valid(),
    }
}

pub open spec fn storage_key_reason(s: Seq<char>) -> Seq<char> {
    if s.len() == 0 {
        "must not be empty"@
    } else {
        "must contain only ASCII lowercase letters, digits, and underscores"@
    }
}

/// The error that reports fault `f` of definition `d`.
pub open spec fn registry_fault_error(d: SettingDefinition, f: RegistryFault) -> SettingsErrorView {
    let key = d.key_text();
    let storage = d.storage_text();
    match f {
        RegistryFault::Key(p) => SettingsErrorView::InvalidKey {
            key,
            reason: key_problem_reason(p),
        },
        RegistryFault::StorageKey => SettingsErrorView::RegistryInvariant(
            "invalid storage key `"@ + storage + "` for `"@ + key + "`: "@ + storage_key_reason(
                storage,
            ),
        ),
        RegistryFault::DuplicateKey => SettingsErrorView::RegistryInvariant(
            "duplicate setting key `"@ + key + "`"@,
        ),
        RegistryFault::DuplicateStorageKey => SettingsErrorView::RegistryInvariant(
            "duplicate storage key `"@ + storage + "`"@,
        ),
        RegistryFault::EnumType(ef) => SettingsErrorView::RegistryInvariant(
            enum_fault_message(key, ef),
        ),
        RegistryFault::IntegerRange => match d.spec_value_type() {
            SettingType::Integer(t) => SettingsErrorView::RegistryInvariant(
                integer_range_message(key, t.low(), t.high()),
            ),
            SettingType::Enum(_) => SettingsErrorView::RegistryInvariant(Seq::empty()),
        },
        RegistryFault::Default => SettingsErrorView::RegistryInvariant(
            default_message(key, d.spec_default().text(), d.spec_value_type().expected_text()),
        ),
        RegistryFault::Operations => SettingsErrorView::RegistryInvariant(
            operation_fault(key, d.spec_mutability(), d.ops()).unwrap(),
        ),
    }
}

/// The first duplicate that definition `i` meets among the definitions
/// `j..i`, scanning them in order and comparing the public key before the
/// storage key.
pub open spec fn duplicate_fault_from(defs: Seq<SettingDefinition>, i: int, j: int) -> Option<
    RegistryFault,
>
    decreases i - j,
{
    if j < 0 || j >= i || i >= defs.len() {
        None
    } else if defs[j].key_text() == defs[i].key_text() {
        Some(RegistryFault::DuplicateKey)
    } else if defs[j].storage_text() == defs[i].storage_text() {
        Some(RegistryFault::DuplicateStorageKey)
    } else {
        duplicate_fault_from(defs, i, j + 1)
    }
}

/// The fault of the value type of `d` that the check reports first.
pub open spec fn type_fault(d: SettingDefinition) -> Option<RegistryFault> {
    match d.spec_value_type() {
        SettingType::Enum(t) => match enum_first_fault(t.value_names(), t.alias_pairs()) {
            Some(f) => Some(RegistryFault::EnumType(f)),
            None => None,
        },
        SettingType::Integer(t) => if t.low() > t.high() {
            Some(RegistryFault::IntegerRange)
        } else {
            None
        },
    }
}

/// The fault of definition `i` that the check reports: its key, its
/// storage key, a duplicate among the earlier definitions, its value type,
/// its default, its operations, in this order.
pub open spec fn definition_fault(defs: Seq<SettingDefinition>, i: int) -> Option<RegistryFault> {
    let d = defs[i];
    match first_key_problem(d.key_text()) {
        Some(p) => Some(RegistryFault::Key(p)),
        None => if !storage_key_valid(d.storage_text()) {
            Some(RegistryFault::StorageKey)
        } else if duplicate_fault_from(defs, i, 0) is Some {
            duplicate_fault_from(defs, i, 0)
        } else if type_fault(d) is Some {
            type_fault(d)
        } else if !d.default_valid() {
            Some(RegistryFault::Default)
        } else if !d.operations_valid() {
            Some(RegistryFault::Operations)
        } else {
            None
        },
    }
}

/// The first faulty definition from position `i` on, with its fault.
pub open spec fn registry_first_fault(defs: Seq<SettingDefinition>, i: int) -> Option<
    (int, RegistryFault),
>
    decreases defs.len() - i,
{
    if i < 0 || i >= defs.len() {
        None
    } else {
        match definition_fault(defs, i) {
            Some(f) => Some((i, f)),
            None => registry_first_fault(defs, i + 1),
        }
    }
}

/// A registry with a fault is not well formed.
pub proof fn lemma_registry_fault_excludes_validity(
    defs: Seq<SettingDefinition>,
    i: int,
    f: RegistryFault,
)
    requires
        registry_fault_holds(defs, i, f),
    ensures
        !registry_valid(defs),
{
    lemma_key_valid_iff_no_problem(defs[i].key_text());
    match f {
        RegistryFault::EnumType(ef) => {
            match defs[i].spec_value_type() {
                SettingType::Enum(t) => {
                    lemma_enum_fault_excludes_validity(t.value_names(), t.alias_pairs(), ef);
                },
                SettingType::Integer(_) => {},
            }
        },
        RegistryFault::DuplicateKey => {
            let j = choose|j: int| 0 <= j < i && (#[trigger] defs[j]).key_text() == defs[i].key_text();
            assert(defs[j].key_text() == defs[i].key_text());
        },
        RegistryFault::DuplicateStorageKey => {
            let j = choose|j: int|
                0 <= j < i && (#[trigger] defs[j]).storage_text() == defs[i].storage_text();
            assert(defs[j].storage_text() == defs[i].storage_text());
        },
        _ => {},
    }
}

/// The position of the first definition whose public key is `key`.
pub open spec fn key_index(defs: Seq<SettingDefinition>, key: Seq<char>) -> Option<int> {
    if exists|i: int| 0 <= i < defs.len() && (#[trigger] defs[i]).key_text() == key {
        Some(
            choose|i: int|
                0 <= i < defs.len() && (#[trigger] defs[i]).key_text() == key && forall|j: int|
                    0 <= j < i ==> (#[trigger] defs[j]).key_text() != key,
        )
    } else {
        None
    }
}

proof fn lemma_key_index_is(defs: Seq<SettingDefinition>, key: Seq<char>, i: int)
    requires
        0 <= i < defs.len(),
        defs[i].key_text() == key,
        forall|j: int| 0 <= j < i ==> (#[trigger] defs[j]).key_text() != key,
    ensures
        key_index(defs, key) == Some(i),
{
    assert(exists|k: int| 0 <= k < defs.len() && (#[trigger] defs[k]).key_text() == key);
    let c = choose|k: int|
        0 <= k < defs.len() && (#[trigger] defs[k]).key_text() == key && forall|j: int|
            0 <= j < k ==> (#[trigger] defs[j]).key_text() != key;
    assert(0 <= i < defs.len() && defs[i].key_text() == key && forall|j: int|
        0 <= j < i ==> (#[trigger] defs[j]).key_text() != key);
    assert(0 <= c < defs.len() && defs[c].key_text() == key);
    if c < i {
        assert(defs[c].key_text() != key);
    }
    if c > i {
        assert(defs[i].key_text() != key);
    }
}

fn invalid_storage_key_message(storage: &str, key: &str, reason: &str) -> (r: String)
    ensures
        r@ == "invalid storage key `"@ + storage@ + "` for `"@ + key@ + "`: "@ + reason@,
{
    let mut m = message5("invalid storage key `", storage, "` for `", key, "`: ");
    m.append(reason);
    m
}

impl SettingsRegistry {
    pub closed spec fn defs(&self) -> Seq<SettingDefinition> {
        self.definitions@
    }

    /// All definitions, in registry order.
    pub fn all(&self) -> (r: &[SettingDefinition])
        ensures
            r@ == self.defs(),
    {
        self.definitions.as_slice()
    }

    /// The definition whose public key is `key`.
    pub fn get(&self, key: SettingKey<'_>) -> (r: Result<&SettingDefinition, SettingsError>)
        ensures
            match key_index(self.defs(), key.text()) {
                Some(i) => r matches Ok(d) && *d == self.defs()[i],
                None => r matches Err(e) && e@ == SettingsErrorView::UnknownKey(key.text()),
            },
    {
        let name = key.as_str();
        let mut i: usize = 0;
        while i < self.definitions.len()
            invariant
                i <= self.definitions.len(),
                name@ == key.text(),
                forall|j: int| 0 <= j < i ==> (#[trigger] self.definitions@[j]).key_text() != key.text(),
            decreases self.definitions.len() - i,
        {
            if str_eq(self.definitions[i].key, name) {
                proof {
                    lemma_key_index_is(self.defs(), key.text(), i as int);
                }
                return Ok(&self.definitions[i]);
            }
            i = i + 1;
        }
        Err(SettingsError::UnknownKey(String::from_str(name)))
    }

    /// The definition whose public key is `key`, after checking the key.
    pub fn get_by_name(&self, key: &str) -> (r: Result<&SettingDefinition, SettingsError>)
        ensures
            match first_key_problem(key@) {
                Some(p) => r matches Err(e) && e@ == (SettingsErrorView::InvalidKey {
                    key: key@,
                    reason: key_problem_reason(p),
                }),
                None => match key_index(self.defs(), key@) {
                    Some(i) => r matches Ok(d) && *d == self.defs()[i],
                    None => r matches Err(e) && e@ == SettingsErrorView::UnknownKey(key@),
                },
            },
    {
        let parsed = SettingKey::parse(key)?;
        self.get(parsed)
    }

    /// Checks the registry: keys, storage keys, uniqueness, value types,
    /// defaults and operations of every definition.
    pub fn validate(&self) -> (r: Result<(), SettingsError>)
        ensures
            r is Ok <==> registry_valid(self.defs()),
            r matches Err(e) ==> exists|i: int, f: RegistryFault|
                registry_fault_holds(self.defs(), i, f) && e@ == registry_fault_error(
                    self.defs()[i],
                    f,
                ),
            match registry_first_fault(self.defs(), 0) {
                None => r is Ok,
                Some((i, f)) => r matches Err(e) && e@ == registry_fault_error(self.defs()[i], f),
            },
    {
        let ghost defs = self.defs();
        let mut i: usize = 0;
        while i < self.definitions.len()
            invariant
                i <= self.definitions.len(),
                defs == self.defs(),
                defs.len() == self.definitions@.len(),
                forall|k: int| 0 <= k < i ==> (#[trigger] defs[k]).well_formed(),
                forall|k: int, l: int|
                    0 <= k < l < i ==> defs[k].key_text() != defs[l].key_text()
                        && defs[k].storage_text() != defs[l].storage_text(),
                registry_first_fault(defs, 0) == registry_first_fault(defs, i as int),
            decreases self.definitions.len() - i,
        {
            let definition = &self.definitions[i];
            assert(*definition == defs[i as int]);
            match SettingKey::parse(definition.key) {
                Ok(_) => {},
                Err(e) => {
                    let ghost p = first_key_problem(definition.key@).unwrap();
                    assert(registry_fault_holds(defs, i as int, RegistryFault::Key(p)));
                    proof {
                        lemma_registry_fault_excludes_validity(defs, i as int, RegistryFault::Key(p));
                    }
                    return Err(e);
                },
            }
            match validate_storage_key(definition.storage_key) {
                Ok(()) => {},
                Err(reason) => {
                    assert(registry_fault_holds(defs, i as int, RegistryFault::StorageKey));
                    proof {
                        lemma_registry_fault_excludes_validity(defs, i as int, RegistryFault::StorageKey);
                    }
                    return Err(
                        SettingsError::RegistryInvariant(
                            invalid_storage_key_message(
                                definition.storage_key,
                                definition.key,
                                reason,
                            ),
                        ),
                    );
                },
            }
            let mut j: usize = 0;
            while j < i
                invariant
                    j <= i,
                    i < self.definitions.len(),
                    defs == self.defs(),
                    *definition == defs[i as int],
                    forall|k: int|
                        0 <= k < j ==> (#[trigger] defs[k]).key_text() != defs[i as int].key_text()
                            && defs[k].storage_text() != defs[i as int].storage_text(),
                    duplicate_fault_from(defs, i as int, 0) == duplicate_fault_from(
                        defs,
                        i as int,
                        j as int,
                    ),
                    defs.len() == self.definitions@.len(),
                    registry_first_fault(defs, 0) == registry_first_fault(defs, i as int),
                    first_key_problem(defs[i as int].key_text()) is None,
                    storage_key_valid(defs[i as int].storage_text()),
                decreases i - j,
            {
                let other = &self.definitions[j];
                assert(*other == defs[j as int]);
                if str_eq(other.key, definition.key) {
                    assert(registry_fault_holds(defs, i as int, RegistryFault::DuplicateKey));
                    assert(duplicate_fault_from(defs, i as int, j as int) == Some(
                        RegistryFault::DuplicateKey,
                    ));
                    assert(definition_fault(defs, i as int) == Some(RegistryFault::DuplicateKey));
                    proof {
                        lemma_registry_fault_excludes_validity(defs, i as int, RegistryFault::DuplicateKey);
                    }
                    return Err(
                        SettingsError::RegistryInvariant(
                            message3("duplicate setting key `", definition.key, "`"),
                        ),
                    );
                }
                if str_eq(other.storage_key, definition.storage_key) {
                    assert(duplicate_fault_from(defs, i as int, j as int) == Some(
                        RegistryFault::DuplicateStorageKey,
                    ));
                    assert(definition_fault(defs, i as int) == Some(
                        RegistryFault::DuplicateStorageKey,
                    ));
                    assert(registry_fault_holds(
                        defs,
                        i as int,
                        RegistryFault::DuplicateStorageKey,
                    ));
                    return Err(
                        SettingsError::RegistryInvariant(
                            message3("duplicate storage key `", definition.storage_key, "`"),
                        ),
                    );
                }
                assert(duplicate_fault_from(defs, i as int, j as int) == duplicate_fault_from(
                    defs,
                    i as int,
                    j + 1,
                ));
                j = j + 1;
            }
            assert(duplicate_fault_from(defs, i as int, 0) is None);
            match definition.validate_type_metadata() {
                Ok(()) => {},
                Err(e) => {
                    proof {
                    match definition.spec_value_type() {
                        SettingType::Enum(t) => {
                            let ef = choose|ef: EnumTypeFault|
                                enum_fault_holds(t.value_names(), t.alias_pairs(), ef) && e@
                                    == SettingsErrorView::RegistryInvariant(
                                    enum_fault_message(definition.key_text(), ef),
                                );
                            assert(registry_fault_holds(
                                defs,
                                i as int,
                                RegistryFault::EnumType(ef),
                            ));
                        },
                        SettingType::Integer(t) => {
                            assert(registry_fault_holds(
                                defs,
                                i as int,
                                RegistryFault::IntegerRange,
                            ));
                        },
                    }
                    }
                    return Err(e);
                },
            }
            match definition.validate_default() {
                Ok(()) => {},
                Err(e) => {
                    assert(registry_fault_holds(defs, i as int, RegistryFault::Default));
                    proof {
                        lemma_registry_fault_excludes_validity(defs, i as int, RegistryFault::Default);
                    }
                    return Err(e);
                },
            }
            match definition.validate_operation_metadata() {
                Ok(()) => {},
                Err(e) => {
                    assert(registry_fault_holds(defs, i as int, RegistryFault::Operations));
                    proof {
                        lemma_registry_fault_excludes_validity(defs, i as int, RegistryFault::Operations);
                    }
                    return Err(e);
                },
            }
            proof {
                lemma_key_valid_iff_no_problem(definition.key_text());
                assert(definition_fault(defs, i as int) is None);
                assert(registry_first_fault(defs, i as int) == registry_first_fault(defs, i + 1));
            }
            i = i + 1;
        }
        Ok(())
    }
}


fn read_write_operation_list() -> (r: Vec<SettingOperation>)
    ensures
        r@ == read_write_operations(),
{
    let r = vec![
        SettingOperation::Get,
        SettingOperation::Describe,
        SettingOperation::SetValue,
        SettingOperation::Unset,
    ];
    assert(r@ =~= read_write_operations());
    r
}

fn read_only_operation_list() -> (r: Vec<SettingOperation>)
    ensures
        r@ == seq![SettingOperation::Get, SettingOperation::Describe],
{
    let r = vec![SettingOperation::Get, SettingOperation::Describe];
    assert(r@ =~= seq![SettingOperation::Get, SettingOperation::Describe]);
    r
}

proof fn lemma_read_write_operations_valid(key: Seq<char>, ops: Seq<SettingOperation>)
    requires
        ops == read_write_operations(),
    ensures
        operation_fault(key, SettingMutability::ReadWrite, ops) is None,
{
    assert(ops[0] == SettingOperation::Get);
    assert(ops[1] == SettingOperation::Describe);
    assert(ops[2] == SettingOperation::SetValue);
    assert(ops[3] == SettingOperation::Unset);
}

proof fn lemma_read_only_operations_valid(key: Seq<char>, ops: Seq<SettingOperation>)
    requires
        ops == seq![SettingOperation::Get, SettingOperation::Describe],
    ensures
        operation_fault(key, SettingMutability::ReadOnly, ops) is None,
{
    assert(!ops.contains(SettingOperation::SetValue)) by {
        if ops.contains(SettingOperation::SetValue) {
            let k = choose|k: int| 0 <= k < ops.len() && ops[k] == SettingOperation::SetValue;
        }
    }
    assert(!ops.contains(SettingOperation::Unset)) by {
        if ops.contains(SettingOperation::Unset) {
            let k = choose|k: int| 0 <= k < ops.len() && ops[k] == SettingOperation::Unset;
        }
    }
}

proof fn lemma_key_screen_backend_valid()
    ensures
        setting_key_valid("screen.backend"@),
{
    reveal_strlit("screen.backend");
    assert("screen.backend"@[6] == '.');
}

proof fn lemma_key_screen_idle_timeout_valid()
    ensures
        setting_key_valid("screen.idle_timeout"@),
{
    reveal_strlit("screen.idle_timeout");
    assert("screen.idle_timeout"@[6] == '.');
}

proof fn lemma_key_screen_restore_policy_valid()
    ensures
        setting_key_valid("screen.restore_policy"@),
{
    reveal_strlit("screen.restore_policy");
    assert("screen.restore_policy"@[6] == '.');
}

proof fn lemma_key_system_sleep_wake_policy_valid()
    ensures
        setting_key_valid("system.sleep_wake_policy"@),
{
    reveal_strlit("system.sleep_wake_policy");
    assert("system.sleep_wake_policy"@[6] == '.');
}

proof fn lemma_backend_values_valid()
    ensures
        enum_type_valid(seq!["auto"@, "gnome"@, "swayidle"@], Seq::empty()),
{
    reveal_strlit("auto");
    reveal_strlit("gnome");
    reveal_strlit("swayidle");
    let v = seq!["auto"@, "gnome"@, "swayidle"@];
    assert forall|i: int, j: int| 0 <= i < j < v.len() implies v[i] != v[j] by {
        assert(v[i].len() != v[j].len());
    }
}

proof fn lemma_restore_policy_values_valid()
    ensures
        enum_type_valid(
            seq!["conservative"@, "aggressive"@],
            seq![("marker_only"@, "conservative"@)],
        ),
{
    reveal_strlit("conservative");
    reveal_strlit("aggressive");
    reveal_strlit("marker_only");
    let v = seq!["conservative"@, "aggressive"@];
    assert(v[0] != v[1]) by {
        assert(v[0].len() != v[1].len());
    }
    assert(!v.contains("marker_only"@)) by {
        if v.contains("marker_only"@) {
            let k = choose|k: int| 0 <= k < v.len() && v[k] == "marker_only"@;
            assert(v[k].len() != "marker_only"@.len());
        }
    }
    assert(v[0] == "conservative"@);
}

proof fn lemma_sleep_wake_values_valid()
    ensures
        enum_type_valid(seq!["enabled"@, "disabled"@], Seq::empty()),
{
    reveal_strlit("enabled");
    reveal_strlit("disabled");
    let v = seq!["enabled"@, "disabled"@];
    assert(v[0] != v[1]) by {
        assert(v[0].len() != v[1].len());
    }
}

/// The settings of LG Buddy: the screen backend, the idle timeout, the
/// screen restore policy and the system sleep/wake policy.
pub fn settings_registry() -> (r: SettingsRegistry)
    ensures
        registry_valid(r.defs()),
        r.defs().len() == 4,
        forall|i: int|
            0 <= i < r.defs().len() ==> (#[trigger] r.defs()[i]).storage_text()
                == storage_key_for(r.defs()[i].key_text()),
        r.defs()[0].key_text() == "screen.backend"@,
        r.defs()[1].key_text() == "screen.idle_timeout"@,
        r.defs()[2].key_text() == "screen.restore_policy"@,
        r.defs()[3].key_text() == "system.sleep_wake_policy"@,
        r.defs()[0].storage_text() == "screen_backend"@,
        r.defs()[1].storage_text() == "screen_idle_timeout"@,
        r.defs()[2].storage_text() == "screen_restore_policy"@,
        r.defs()[3].storage_text() == "system_sleep_wake_policy"@,
        r.defs()[0].spec_value_type() matches SettingType::Enum(t) && t.value_names() == seq![
            "auto"@,
            "gnome"@,
            "swayidle"@,
        ] && t.alias_pairs().len() == 0,
        r.defs()[1].spec_value_type() matches SettingType::Integer(t) && t.low() == 1 && t.high()
            == 86_400,
        r.defs()[2].spec_value_type() matches SettingType::Enum(t) && t.value_names() == seq![
            "conservative"@,
            "aggressive"@,
        ] && t.alias_pairs() == seq![("marker_only"@, "conservative"@)],
        r.defs()[3].spec_value_type() matches SettingType::Enum(t) && t.value_names() == seq![
            "enabled"@,
            "disabled"@,
        ] && t.alias_pairs().len() == 0,
        r.defs()[0].spec_default() matches SettingValue::Enum(d) && d@ == "auto"@,
        r.defs()[1].spec_default() == SettingValue::Integer(300),
        r.defs()[2].spec_default() matches SettingValue::Enum(d) && d@ == "conservative"@,
        r.defs()[3].spec_default() matches SettingValue::Enum(d) && d@ == "enabled"@,
        r.defs()[0].spec_mutability() == SettingMutability::ReadWrite,
        r.defs()[1].spec_mutability() == SettingMutability::ReadWrite,
        r.defs()[2].spec_mutability() == SettingMutability::ReadWrite,
        r.defs()[3].spec_mutability() == SettingMutability::ReadOnly,
        r.defs()[0].ops() == read_write_operations(),
        r.defs()[1].ops() == read_write_operations(),
        r.defs()[2].ops() == read_write_operations(),
        r.defs()[3].ops() == seq![SettingOperation::Get, SettingOperation::Describe],
        r.defs()[0].spec_apply_strategy() == ApplyStrategy::RestartUserScreenService,
        r.defs()[1].spec_apply_strategy() == ApplyStrategy::RestartUserScreenService,
        r.defs()[2].spec_apply_strategy() == ApplyStrategy::RestartUserScreenService,
        r.defs()[3].spec_apply_strategy() == ApplyStrategy::PendingLifecycleService,
{
    let backend = SettingDefinition {
        key: "screen.backend",
        storage_key: "screen_backend",
        value_type: SettingType::Enum(
            EnumSettingType { values: vec!["auto", "gnome", "swayidle"], aliases: vec![] },
        ),
        default_value: SettingValue::Enum("auto"),
        mutability: SettingMutability::ReadWrite,
        operations: read_write_operation_list(),
        apply_strategy: ApplyStrategy::RestartUserScreenService,
        description: "Screen backend selection for user-session blanking and restore behavior.",
    };
    let idle_timeout = SettingDefinition {
        key: "screen.idle_timeout",
        storage_key: "screen_idle_timeout",
        value_type: SettingType::Integer(IntegerSettingType { min: 1, max: 86_400 }),
        default_value: SettingValue::Integer(DEFAULT_IDLE_TIMEOUT as i64),
        mutability: SettingMutability::ReadWrite,
        operations: read_write_operation_list(),
        apply_strategy: ApplyStrategy::RestartUserScreenService,
        description: "Idle timeout in seconds before LG Buddy blanks the configured screen.",
    };
    let restore_policy = SettingDefinition {
        key: "screen.restore_policy",
        storage_key: "screen_restore_policy",
        value_type: SettingType::Enum(
            EnumSettingType {
                values: vec!["conservative", "aggressive"],
                aliases: vec![SettingAlias { from: "marker_only", to: "conservative" }],
            },
        ),
        default_value: SettingValue::Enum("conservative"),
        mutability: SettingMutability::ReadWrite,
        operations: read_write_operation_list(),
        apply_strategy: ApplyStrategy::RestartUserScreenService,
        description: "Screen restore policy after LG Buddy blanks the configured screen.",
    };
    let sleep_wake_policy = SettingDefinition {
        key: "system.sleep_wake_policy",
        storage_key: "system_sleep_wake_policy",
        value_type: SettingType::Enum(
            EnumSettingType { values: vec!["enabled", "disabled"], aliases: vec![] },
        ),
        default_value: SettingValue::Enum("enabled"),
        mutability: SettingMutability::ReadOnly,
        operations: read_only_operation_list(),
        apply_strategy: ApplyStrategy::PendingLifecycleService,
        description: "System sleep and wake policy for lifecycle hooks.",
    };
    proof {
        reveal_strlit("screen.backend");
        reveal_strlit("screen.idle_timeout");
        reveal_strlit("screen.restore_policy");
        reveal_strlit("system.sleep_wake_policy");
        reveal_strlit("screen_backend");
        reveal_strlit("screen_idle_timeout");
        reveal_strlit("screen_restore_policy");
        reveal_strlit("system_sleep_wake_policy");
        reveal_strlit("auto");
        reveal_strlit("gnome");
        reveal_strlit("swayidle");
        reveal_strlit("conservative");
        reveal_strlit("aggressive");
        reveal_strlit("marker_only");
        reveal_strlit("enabled");
        reveal_strlit("disabled");
        lemma_key_screen_backend_valid();
        lemma_key_screen_idle_timeout_valid();
        lemma_key_screen_restore_policy_valid();
        lemma_key_system_sleep_wake_policy_valid();
        lemma_backend_values_valid();
        lemma_restore_policy_values_valid();
        lemma_sleep_wake_values_valid();
        lemma_read_write_operations_valid(backend.key_text(), backend.ops());
        lemma_read_write_operations_valid(idle_timeout.key_text(), idle_timeout.ops());
        lemma_read_write_operations_valid(restore_policy.key_text(), restore_policy.ops());
        lemma_read_only_operations_valid(sleep_wake_policy.key_text(), sleep_wake_policy.ops());
        match backend.spec_value_type() {
            SettingType::Enum(t) => {
                assert(t.value_names() =~= seq!["auto"@, "gnome"@, "swayidle"@]);
                assert(t.alias_pairs() =~= Seq::<(Seq<char>, Seq<char>)>::empty());
                assert(t.value_names()[0] == "auto"@);
            },
            _ => {},
        }
        match restore_policy.spec_value_type() {
            SettingType::Enum(t) => {
                assert(t.value_names() =~= seq!["conservative"@, "aggressive"@]);
                assert(t.alias_pairs() =~= seq![("marker_only"@, "conservative"@)]);
                assert(t.value_names()[0] == "conservative"@);
            },
            _ => {},
        }
        match sleep_wake_policy.spec_value_type() {
            SettingType::Enum(t) => {
                assert(t.value_names() =~= seq!["enabled"@, "disabled"@]);
                assert(t.alias_pairs() =~= Seq::<(Seq<char>, Seq<char>)>::empty());
                assert(t.value_names()[0] == "enabled"@);
            },
            _ => {},
        }
        assert(setting_key_valid(backend.key_text()));
        assert(storage_key_valid(backend.storage_text()));
        assert(backend.type_metadata_valid());
        assert(backend.default_valid());
        assert(backend.operations_valid());
        assert(setting_key_valid(idle_timeout.key_text()));
        assert(storage_key_valid(idle_timeout.storage_text()));
        assert(idle_timeout.type_metadata_valid());
        assert(idle_timeout.default_valid());
        assert(idle_timeout.operations_valid());
        assert(setting_key_valid(restore_policy.key_text()));
        assert(storage_key_valid(restore_policy.storage_text()));
        assert(restore_policy.type_metadata_valid());
        assert(restore_policy.default_valid());
        assert(restore_policy.operations_valid());
        assert(setting_key_valid(sleep_wake_policy.key_text()));
        assert(storage_key_valid(sleep_wake_policy.storage_text()));
        assert(sleep_wake_policy.type_metadata_valid());
        assert(sleep_wake_policy.default_valid());
        assert(sleep_wake_policy.operations_valid());
        assert(backend.well_formed());
        assert(idle_timeout.well_formed());
        assert(restore_policy.well_formed());
        assert(sleep_wake_policy.well_formed());
    }
    let definitions = vec![backend, idle_timeout, restore_policy, sleep_wake_policy];
    SettingsRegistry { definitions }
}


// ---------------------------------------------------------------------------
// Laws
// ---------------------------------------------------------------------------

/// The storage key of a setting: its public key with each `.` written `_`.
pub open spec fn storage_key_for(key: Seq<char>) -> Seq<char> {
    key.map_values(|c: char| if c == '.' { '_' } else { c })
}

/// The first alias target of `v` is the target of some alias.
proof fn lemma_alias_target_is_a_target(aliases: Seq<(Seq<char>, Seq<char>)>, v: Seq<char>)
    requires
        alias_target(aliases, v) is Some,
    ensures
        exists|k: int| 0 <= k < aliases.len() && aliases[k].1 == alias_target(aliases, v).unwrap(),
    decreases aliases.len(),
{
    if aliases[0].0 != v {
        lemma_alias_target_is_a_target(aliases.drop_first(), v);
        let k = choose|k: int|
            0 <= k < aliases.drop_first().len() && aliases.drop_first()[k].1 == alias_target(
                aliases,
                v,
            ).unwrap();
        assert(aliases[k + 1].1 == alias_target(aliases, v).unwrap());
    }
}

/// Canonicalising is idempotent: of well-formed enum metadata, the
/// canonical name of a value is one of the values, and canonicalising it
/// again gives it back.
pub proof fn lemma_canonical_name_idempotent(
    values: Seq<Seq<char>>,
    aliases: Seq<(Seq<char>, Seq<char>)>,
    v: Seq<char>,
)
    requires
        enum_type_valid(values, aliases),
        canonical_name(values, aliases, v) is Some,
    ensures
        values.contains(canonical_name(values, aliases, v).unwrap()),
        canonical_name(values, aliases, canonical_name(values, aliases, v).unwrap())
            == canonical_name(values, aliases, v),
{
    if !values.contains(v) {
        lemma_alias_target_is_a_target(aliases, v);
        let k = choose|k: int|
            0 <= k < aliases.len() && aliases[k].1 == alias_target(aliases, v).unwrap();
        assert(values.contains(aliases[k].1));
    }
}

/// A value that parsing text for a setting of a well-formed type gives is
/// accepted by the type's value check.
pub proof fn lemma_parsed_value_is_accepted(
    t: SettingType,
    key: Seq<char>,
    text: Seq<char>,
    v: SettingValue,
)
    requires
        match t {
            SettingType::Enum(e) => enum_type_valid(e.value_names(), e.alias_pairs()),
            SettingType::Integer(_) => true,
        },
        t.parsed(key, text) == Ok::<SettingValueView, SettingsErrorView>(v.view_value()),
    ensures
        t.accepts(v),
{
    match t {
        SettingType::Enum(e) => {
            lemma_canonical_name_idempotent(e.value_names(), e.alias_pairs(), text);
            match v {
                SettingValue::Enum(name) => {},
                SettingValue::Integer(_) => {},
            }
        },
        SettingType::Integer(_) => {},
    }
}

/// A value that a type accepts is read back unchanged from its own text: the
/// text that is stored for a setting parses to the value it was written from.
pub proof fn lemma_accepted_value_round_trips(t: SettingType, key: Seq<char>, v: SettingValue)
    requires
        t.accepts(v),
    ensures
        t.parsed(key, v.text()) == Ok::<SettingValueView, SettingsErrorView>(v.view_value()),
{
    match (t, v) {
        (SettingType::Integer(it), SettingValue::Integer(i)) => {
            lemma_decimal_round_trip(i);
        },
        _ => {},
    }
}

/// An alias of well-formed enum metadata parses to the value it points at.
pub proof fn lemma_alias_parses_to_target(t: EnumSettingType, key: Seq<char>, k: int)
    requires
        enum_type_valid(t.value_names(), t.alias_pairs()),
        0 <= k < t.alias_pairs().len(),
    ensures
        SettingType::Enum(t).parsed(key, t.alias_pairs()[k].0) == Ok::<
            SettingValueView,
            SettingsErrorView,
        >(SettingValueView::Enum(t.alias_pairs()[k].1)),
{
    let a = t.alias_pairs();
    let from = a[k].0;
    assert forall|m: int| 0 <= m < k implies a[m].0 != from by {}
    lemma_alias_target_first(a, from, k);
}

proof fn lemma_alias_target_first(a: Seq<(Seq<char>, Seq<char>)>, v: Seq<char>, k: int)
    requires
        0 <= k < a.len(),
        a[k].0 == v,
        forall|m: int| 0 <= m < k ==> a[m].0 != v,
    ensures
        alias_target(a, v) == Some(a[k].1),
    decreases k,
{
    if k > 0 {
        assert(a[0].0 != v);
        lemma_alias_target_first(a.drop_first(), v, k - 1);
    }
}

/// In a well-formed registry, looking a definition up by its own public key
/// finds that definition.
pub proof fn lemma_registry_lookup_finds_own_key(defs: Seq<SettingDefinition>, i: int)
    requires
        registry_valid(defs),
        0 <= i < defs.len(),
    ensures
        key_index(defs, defs[i].key_text()) == Some(i),
{
    lemma_key_index_is(defs, defs[i].key_text(), i);
}

} // verus!
