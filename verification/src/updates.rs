//! The `updates` command: its arguments, the choice of the release channel
//! and of the newest GitHub release on it, and the report of the check.
//! The HTTP request and the decoding of the GitHub reply happen elsewhere.

use vstd::prelude::*;
use vstd::string::{StrSliceExecFns, StringExecFns};

use crate::cli::{join_owned, owned_tail, string_views};
use crate::text::{decimal, int_decimal, joined, str_eq, str_views, strip_prefix, trim, trim_of};
use crate::version::{ReleaseChannel, VersionInfo};

verus! {

pub const GITHUB_RELEASES_API_BASE: &'static str =
    "https://api.github.com/repos/Staphylococcus/LG_Buddy/releases";

pub const GITHUB_API_VERSION: &'static str = "2026-03-10";

pub const GITHUB_ACCEPT: &'static str = "application/vnd.github+json";

pub const GITHUB_CONNECT_TIMEOUT_SECONDS: u64 = 5;

pub const GITHUB_REQUEST_TIMEOUT_SECONDS: u64 = 20;

pub const PRERELEASE_PAGE_SIZE: u8 = 20;

// ---------------------------------------------------------------------------
// Arguments
// ---------------------------------------------------------------------------

/// A channel of releases to look for updates on.
#[derive(Debug, Clone, Copy, PartialEq, Eq, Structural)]
pub enum UpdateChannel {
    Stable,
    Prerelease,
}

/// The channel named `value`.
pub open spec fn channel_named(value: Seq<char>) -> Option<UpdateChannel> {
    if value == "stable"@ {
        Some(UpdateChannel::Stable)
    } else if value == "prerelease"@ {
        Some(UpdateChannel::Prerelease)
    } else {
        None
    }
}

/// What the `updates` command is asked to do: check for a newer release on
/// `channel` (the build's default channel when `None`), and, when `notify`
/// is set, show a desktop notification if one is found.
#[derive(Debug, Clone, Copy, PartialEq, Eq, Structural)]
pub enum UpdatesCommand {
    Check { channel: Option<UpdateChannel>, notify: bool },
}

#[derive(Debug, Clone, PartialEq, Eq)]
pub enum UpdatesParseError {
    MissingSubcommand,
    UnknownSubcommand(String),
    MissingChannelValue,
    DuplicateChannel,
    DuplicateNotify,
    UnknownChannel(String),
    UnexpectedArguments { subcommand: &'static str, arguments: Vec<String> },
}

pub enum UpdatesParseErrorView {
    MissingSubcommand,
    UnknownSubcommand(Seq<char>),
    MissingChannelValue,
    DuplicateChannel,
    DuplicateNotify,
    UnknownChannel(Seq<char>),
    UnexpectedArguments { subcommand: Seq<char>, arguments: Seq<Seq<char>> },
}

impl View for UpdatesParseError {
    type V = UpdatesParseErrorView;

    open spec fn view(&self) -> UpdatesParseErrorView {
        match self {
            UpdatesParseError::MissingSubcommand => UpdatesParseErrorView::MissingSubcommand,
            UpdatesParseError::UnknownSubcommand(s) => UpdatesParseErrorView::UnknownSubcommand(s@),
            UpdatesParseError::MissingChannelValue => UpdatesParseErrorView::MissingChannelValue,
            UpdatesParseError::DuplicateChannel => UpdatesParseErrorView::DuplicateChannel,
            UpdatesParseError::DuplicateNotify => UpdatesParseErrorView::DuplicateNotify,
            UpdatesParseError::UnknownChannel(c) => UpdatesParseErrorView::UnknownChannel(c@),
            UpdatesParseError::UnexpectedArguments { subcommand, arguments } =>
                UpdatesParseErrorView::UnexpectedArguments {
                subcommand: subcommand@,
                arguments: string_views(arguments@),
            },
        }
    }
}

impl UpdatesParseErrorView {
    pub open spec fn text(self) -> Seq<char> {
        match self {
            UpdatesParseErrorView::MissingSubcommand =>
                "missing updates command; expected `updates check [--channel stable|prerelease]`"@,
            UpdatesParseErrorView::UnknownSubcommand(s) => "unknown updates command `"@ + s
                + "`"@,
            UpdatesParseErrorView::MissingChannelValue =>
                "missing channel value for `updates check`"@,
            UpdatesParseErrorView::DuplicateChannel => "duplicate `--channel` option"@,
            UpdatesParseErrorView::DuplicateNotify => "duplicate `--notify` option"@,
            UpdatesParseErrorView::UnknownChannel(c) => "unknown updates channel `"@ + c
                + "`; expected stable or prerelease"@,
            UpdatesParseErrorView::UnexpectedArguments { subcommand, arguments } =>
                "unexpected arguments for `updates "@ + subcommand + "`: "@ + joined(
                arguments,
                " "@,
            ),
        }
    }
}

impl UpdatesParseError {
    /// The text of the error, as it is shown to users.
    pub fn message(&self) -> (r: String)
        ensures
            r@ == self@.text(),
    {
        match self {
            UpdatesParseError::MissingSubcommand => String::from_str(
                "missing updates command; expected `updates check [--channel stable|prerelease]`",
            ),
            UpdatesParseError::UnknownSubcommand(s) => {
                let mut r = String::from_str("unknown updates command `");
                r.append(s.as_str());
                r.append("`");
                r
            },
            UpdatesParseError::MissingChannelValue => String::from_str(
                "missing channel value for `updates check`",
            ),
            UpdatesParseError::DuplicateChannel => String::from_str(
                "duplicate `--channel` option",
            ),
            UpdatesParseError::DuplicateNotify => String::from_str("duplicate `--notify` option"),
            UpdatesParseError::UnknownChannel(c) => {
                let mut r = String::from_str("unknown updates channel `");
                r.append(c.as_str());
                r.append("`; expected stable or prerelease");
                r
            },
            UpdatesParseError::UnexpectedArguments { subcommand, arguments } => {
                let mut r = String::from_str("unexpected arguments for `updates ");
                r.append(subcommand);
                r.append("`: ");
                let list = join_owned(arguments, " ");
                r.append(list.as_str());
                r
            },
        }
    }
}

impl UpdateChannel {
    pub open spec fn name(self) -> Seq<char> {
        match self {
            UpdateChannel::Stable => "stable"@,
            UpdateChannel::Prerelease => "prerelease"@,
        }
    }

    /// The channel named `value`.
    pub fn parse(value: &str) -> (r: Result<UpdateChannel, UpdatesParseError>)
        ensures
            match channel_named(value@) {
                Some(c) => r == Ok::<UpdateChannel, UpdatesParseError>(c),
                None => r matches Err(e) && e@ == UpdatesParseErrorView::UnknownChannel(value@),
            },
    {
        if str_eq(value, "stable") {
            Ok(UpdateChannel::Stable)
        } else if str_eq(value, "prerelease") {
            Ok(UpdateChannel::Prerelease)
        } else {
            Err(UpdatesParseError::UnknownChannel(String::from_str(value)))
        }
    }

    pub fn as_str(self) -> (r: &'static str)
        ensures
            r@ == self.name(),
    {
        match self {
            UpdateChannel::Stable => "stable",
            UpdateChannel::Prerelease => "prerelease",
        }
    }

    /// The channel a build looks on by default: prerelease builds look on
    /// the prerelease channel, all others on the stable one.
    pub fn default_for(version: VersionInfo) -> (r: UpdateChannel)
        ensures
            r == match version.channel_view() {
                ReleaseChannel::Prerelease => UpdateChannel::Prerelease,
                _ => UpdateChannel::Stable,
            },
    {
        match version.channel() {
            ReleaseChannel::Prerelease => UpdateChannel::Prerelease,
            ReleaseChannel::Dev | ReleaseChannel::Stable => UpdateChannel::Stable,
        }
    }
}

/// The options of `updates check`: `--channel` followed by a channel name
/// and `--notify`, each at most once and in any order, and nothing else.
/// `channel` and `notify` are what the options seen so far set.
pub open spec fn check_options(
    rest: Seq<Seq<char>>,
    channel: Option<UpdateChannel>,
    notify: bool,
) -> Result<(Option<UpdateChannel>, bool), UpdatesParseErrorView>
    decreases rest.len(),
{
    if rest.len() == 0 {
        Ok((channel, notify))
    } else if rest[0] == "--channel"@ {
        if channel is Some {
            Err(UpdatesParseErrorView::DuplicateChannel)
        } else if rest.len() < 2 {
            Err(UpdatesParseErrorView::MissingChannelValue)
        } else {
            match channel_named(rest[1]) {
                Some(c) => check_options(rest.subrange(2, rest.len() as int), Some(c), notify),
                None => Err(UpdatesParseErrorView::UnknownChannel(rest[1])),
            }
        }
    } else if rest[0] == "--notify"@ {
        if notify {
            Err(UpdatesParseErrorView::DuplicateNotify)
        } else {
            check_options(rest.subrange(1, rest.len() as int), channel, true)
        }
    } else {
        Err(UpdatesParseErrorView::UnexpectedArguments { subcommand: "check"@, arguments: rest })
    }
}

/// What the arguments of `updates` ask for.
pub open spec fn updates_command_of(args: Seq<Seq<char>>) -> Result<
    UpdatesCommand,
    UpdatesParseErrorView,
> {
    if args.len() == 0 {
        Err(UpdatesParseErrorView::MissingSubcommand)
    } else if args[0] == "check"@ {
        match check_options(args.subrange(1, args.len() as int), None, false) {
            Ok((channel, notify)) => Ok(UpdatesCommand::Check { channel, notify }),
            Err(e) => Err(e),
        }
    } else {
        Err(UpdatesParseErrorView::UnknownSubcommand(args[0]))
    }
}

pub open spec fn updates_result_view(r: Result<UpdatesCommand, UpdatesParseError>) -> Result<
    UpdatesCommand,
    UpdatesParseErrorView,
> {
    match r {
        Ok(c) => Ok(c),
        Err(e) => Err(e@),
    }
}

fn parse_check_args(args: &[&str], start: usize) -> (r: Result<UpdatesCommand, UpdatesParseError>)
    requires
        start <= args@.len(),
    ensures
        updates_result_view(r) == match check_options(
            str_views(args@).subrange(start as int, args@.len() as int),
            None,
            false,
        ) {
            Ok((channel, notify)) => Ok(UpdatesCommand::Check { channel, notify }),
            Err(e) => Err(e),
        },
{
    let ghost views = str_views(args@);
    let ghost whole = views.subrange(start as int, args@.len() as int);
    let mut channel: Option<UpdateChannel> = None;
    let mut notify = false;
    let mut i = start;
    proof {
        reveal_strlit("--channel");
        reveal_strlit("--notify");
        reveal_strlit("check");
    }
    assert(views.subrange(i as int, args@.len() as int) =~= whole);
    while i < args.len()
        invariant
            start <= i <= args@.len(),
            views == str_views(args@),
            whole == views.subrange(start as int, args@.len() as int),
            check_options(whole, None, false) == check_options(
                views.subrange(i as int, args@.len() as int),
                channel,
                notify,
            ),
        decreases args.len() - i,
    {
        let ghost rest = views.subrange(i as int, args@.len() as int);
        assert(rest[0] == args@[i as int]@);
        if str_eq(args[i], "--channel") {
            if channel.is_some() {
                return Err(UpdatesParseError::DuplicateChannel);
            }
            if i + 1 >= args.len() {
                return Err(UpdatesParseError::MissingChannelValue);
            }
            assert(rest[1] == args@[i + 1]@);
            let c = match UpdateChannel::parse(args[i + 1]) {
                Ok(c) => c,
                Err(e) => return Err(e),
            };
            assert(rest.subrange(2, rest.len() as int) =~= views.subrange(
                i + 2,
                args@.len() as int,
            ));
            channel = Some(c);
            i = i + 2;
        } else if str_eq(args[i], "--notify") {
            assert(rest[0] != "--channel"@);
            if notify {
                return Err(UpdatesParseError::DuplicateNotify);
            }
            assert(rest.subrange(1, rest.len() as int) =~= views.subrange(
                i + 1,
                args@.len() as int,
            ));
            notify = true;
            i = i + 1;
        } else {
            let arguments = owned_tail(args, i);
            return Err(UpdatesParseError::UnexpectedArguments { subcommand: "check", arguments });
        }
    }
    assert(views.subrange(i as int, args@.len() as int).len() == 0);
    Ok(UpdatesCommand::Check { channel, notify })
}

impl UpdatesCommand {
    /// Parses the arguments that follow `updates`.
    pub fn parse(args: &[&str]) -> (r: Result<UpdatesCommand, UpdatesParseError>)
        ensures
            updates_result_view(r) == updates_command_of(str_views(args@)),
    {
        let ghost views = str_views(args@);
        if args.len() == 0 {
            return Err(UpdatesParseError::MissingSubcommand);
        }
        assert(views[0] == args@[0]@);
        if str_eq(args[0], "check") {
            parse_check_args(args, 1)
        } else {
            Err(UpdatesParseError::UnknownSubcommand(String::from_str(args[0])))
        }
    }

    pub fn as_str(&self) -> (r: &'static str)
        ensures
            r@ == "check"@,
    {
        match self {
            UpdatesCommand::Check { .. } => "check",
        }
    }
}

// ---------------------------------------------------------------------------
// Versions
// ---------------------------------------------------------------------------

#[verifier::external_type_specification]
#[verifier::external_body]
pub struct ExSemverVersion(semver::Version);

/// `semver::Version`'s `Clone` (derived in semver). Nothing is claimed of
/// the copy: the library reads a version only through the texts kept
/// beside it.
pub assume_specification[<semver::Version as std::clone::Clone>::clone](
    _0: &semver::Version,
) -> semver::Version;

/// The text that semver prints for the version it parses from `text`
/// (`Version::parse`, then `Display`), or `None` when `text` is not a
/// semantic version.
pub uninterp spec fn semver_canonical(text: Seq<char>) -> Option<Seq<char>>;

/// The text that semver's error prints (`Version::parse`, then the error's
/// `Display`) when `text` is not a semantic version.
pub uninterp spec fn semver_parse_error(text: Seq<char>) -> Seq<char>;

/// -1, 0 or 1 as the version semver parses from `a` precedes, equals or
/// follows the one it parses from `b` in `Version`'s order (for texts that
/// semver reads as versions).
pub uninterp spec fn semver_order(a: Seq<char>, b: Seq<char>) -> int;

/// A semantic version: the text it was read from, the version semver parsed
/// from that text, and the text semver prints for it. Only `parse_version`
/// makes one, so `version` is always what semver reads in `source`.
#[derive(Debug, Clone, PartialEq, Eq)]
pub struct SemVersion {
    source: String,
    version: semver::Version,
    text: String,
}

impl SemVersion {
    pub closed spec fn source_view(&self) -> Seq<char> {
        self.source@
    }

    pub closed spec fn text_view(&self) -> Seq<char> {
        self.text@
    }

    /// The version in `text`, if semver reads one there.
    pub fn parse(text: &str) -> (r: Option<SemVersion>)
        ensures
            match semver_canonical(text@) {
                Some(printed) => r matches Some(v) && v.source_view() == text@ && v.text_view()
                    == printed,
                None => r is None,
            },
    {
        match parse_version(text) {
            Ok(v) => Some(v),
            Err(_) => None,
        }
    }

    /// The version as semver prints it.
    pub fn to_text(&self) -> (r: String)
        ensures
            r@ == self.text_view(),
    {
        self.text.clone()
    }
}

/// The version in `text`, or the text of semver's error.
///
/// Calls `semver::Version::parse` and, on success, prints the version with
/// its `Display`; on failure it prints the error with its `Display`. The
/// contract names both texts, which depend on `text` alone.
#[verifier::external_body]
pub(crate) fn parse_version(text: &str) -> (r: Result<SemVersion, String>)
    ensures
        match semver_canonical(text@) {
            Some(printed) => r matches Ok(v) && v.source_view() == text@ && v.text_view()
                == printed,
            None => r matches Err(m) && m@ == semver_parse_error(text@),
        },
{
    match semver::Version::parse(text) {
        Ok(version) => Ok(
            SemVersion { source: text.to_string(), text: version.to_string(), version },
        ),
        Err(e) => Err(e.to_string()),
    }
}

/// The order of two versions.
///
/// Compares the two parsed `semver::Version`s with `Version::cmp` (the
/// derived order of major, minor, patch, pre-release and build) and maps
/// its three outcomes to -1, 0 and 1.
#[verifier::external_body]
fn compare_versions(a: &SemVersion, b: &SemVersion) -> (r: i8)
    ensures
        r == semver_order(a.source_view(), b.source_view()),
        -1 <= r <= 1,
{
    match a.version.cmp(&b.version) {
        std::cmp::Ordering::Less => -1,
        std::cmp::Ordering::Equal => 0,
        std::cmp::Ordering::Greater => 1,
    }
}

/// The text of a release tag that holds the version: without a leading `v`.
pub open spec fn tag_version_text(tag: Seq<char>) -> Seq<char> {
    if tag.len() > 0 && tag[0] == 'v' {
        tag.subrange(1, tag.len() as int)
    } else {
        tag
    }
}

/// The version of the release tagged `tag_name`: the tag without a leading
/// `v`, if semver reads a version there.
pub fn parse_release_version(tag_name: &str) -> (r: Option<SemVersion>)
    ensures
        match semver_canonical(tag_version_text(tag_name@)) {
            Some(printed) => r matches Some(v) && v.source_view() == tag_version_text(tag_name@)
                && v.text_view() == printed,
            None => r is None,
        },
{
    proof {
        reveal_strlit("v");
        assert("v"@ =~= seq!['v']);
        if tag_name@.len() > 0 && tag_name@[0] == 'v' {
            assert(tag_name@.subrange(0, 1) =~= "v"@);
        }
    }
    let text = match strip_prefix(tag_name, "v") {
        Some(rest) => {
            assert(tag_name@.subrange(0, 1)[0] == 'v');
            rest
        },
        None => tag_name,
    };
    assert(text@ == tag_version_text(tag_name@));
    match parse_version(text) {
        Ok(v) => Some(v),
        Err(_) => None,
    }
}

// ---------------------------------------------------------------------------
// Errors of an update check
// ---------------------------------------------------------------------------

/// How an update check failed.
#[derive(Debug, Clone, PartialEq, Eq)]
pub enum UpdatesError {
    /// The request to the API failed; `message` says how.
    Http { url: String, message: String },
    /// The API answered with an error status.
    ApiStatus { url: String, status: u16, body: String },
    /// The answer of the API could not be decoded; `source` says why.
    ApiShape { endpoint: &'static str, source: String },
    /// The version of this build is not a semantic version.
    InvalidLocalVersion { version: String, source: String },
    /// No release on the channel qualifies.
    NoMatchingRelease { channel: UpdateChannel },
    /// Writing the report failed; the text says how.
    Io(String),
}

impl UpdatesError {
    pub open spec fn text(&self) -> Seq<char> {
        match self {
            UpdatesError::Http { url, message } => "could not query GitHub releases API `"@ + url@
                + "`: "@ + message@,
            UpdatesError::ApiStatus { url, status, body } => if trim_of(body@).len() == 0 {
                "GitHub releases API `"@ + url@ + "` returned HTTP status "@ + int_decimal(
                    *status as int,
                )
            } else {
                "GitHub releases API `"@ + url@ + "` returned HTTP status "@ + int_decimal(
                    *status as int,
                ) + ": "@ + trim_of(body@)
            },
            UpdatesError::ApiShape { endpoint, source } => "could not parse GitHub releases API `"@
                + endpoint@ + "` response: "@ + source@,
            UpdatesError::InvalidLocalVersion { version, source } =>
                "invalid local LG Buddy version `"@ + version@ + "`: "@ + source@,
            UpdatesError::NoMatchingRelease { channel } =>
                "GitHub releases API returned no matching release for "@ + channel.name()
                + " channel"@,
            UpdatesError::Io(e) => e@,
        }
    }

    /// The text of the error, as it is shown to users.
    pub fn message(&self) -> (r: String)
        ensures
            r@ == self.text(),
    {
        match self {
            UpdatesError::Http { url, message } => {
                let mut r = String::from_str("could not query GitHub releases API `");
                r.append(url.as_str());
                r.append("`: ");
                r.append(message.as_str());
                r
            },
            UpdatesError::ApiStatus { url, status, body } => {
                let mut r = String::from_str("GitHub releases API `");
                r.append(url.as_str());
                r.append("` returned HTTP status ");
                let code = decimal(*status as i128);
                r.append(code.as_str());
                let trimmed = trim(body.as_str());
                if trimmed.unicode_len() != 0 {
                    r.append(": ");
                    r.append(trimmed);
                }
                r
            },
            UpdatesError::ApiShape { endpoint, source } => {
                let mut r = String::from_str("could not parse GitHub releases API `");
                r.append(endpoint);
                r.append("` response: ");
                r.append(source.as_str());
                r
            },
            UpdatesError::InvalidLocalVersion { version, source } => {
                let mut r = String::from_str("invalid local LG Buddy version `");
                r.append(version.as_str());
                r.append("`: ");
                r.append(source.as_str());
                r
            },
            UpdatesError::NoMatchingRelease { channel } => {
                let mut r = String::from_str("GitHub releases API returned no matching release for ");
                r.append(channel.as_str());
                r.append(" channel");
                r
            },
            UpdatesError::Io(e) => e.clone(),
        }
    }
}

// ---------------------------------------------------------------------------
// Releases
// ---------------------------------------------------------------------------

/// A release as the GitHub API describes it.
#[derive(Debug, Clone, PartialEq, Eq)]
pub struct GitHubRelease {
    pub tag_name: String,
    pub html_url: String,
    pub draft: bool,
    pub prerelease: bool,
}

/// A release that an update check can offer.
#[derive(Debug, Clone, PartialEq, Eq)]
pub struct ReleaseInfo {
    version: SemVersion,
    channel: UpdateChannel,
    url: String,
}

/// A release with its texts as characters: the text its version was read
/// from, the text semver prints for it, its channel and its page.
pub struct ReleaseInfoView {
    pub source: Seq<char>,
    pub text: Seq<char>,
    pub channel: UpdateChannel,
    pub url: Seq<char>,
}

impl View for ReleaseInfo {
    type V = ReleaseInfoView;

    closed spec fn view(&self) -> ReleaseInfoView {
        ReleaseInfoView {
            source: self.version.source_view(),
            text: self.version.text_view(),
            channel: self.channel,
            url: self.url@,
        }
    }
}

impl ReleaseInfo {
    pub fn version(&self) -> (r: &SemVersion)
        ensures
            r.source_view() == self@.source,
            r.text_view() == self@.text,
    {
        &self.version
    }

    pub fn channel(&self) -> (r: UpdateChannel)
        ensures
            r == self@.channel,
    {
        self.channel
    }

    pub fn url(&self) -> (r: &str)
        ensures
            r@ == self@.url,
    {
        self.url.as_str()
    }
}

/// The release that `release` offers on `channel`: none for a draft, nor
/// for a prerelease on the stable channel, nor for a tag that holds no
/// version.
pub open spec fn offered_release(release: GitHubRelease, channel: UpdateChannel) -> Option<
    ReleaseInfoView,
> {
    if release.draft || (channel == UpdateChannel::Stable && release.prerelease) {
        None
    } else {
        match semver_canonical(tag_version_text(release.tag_name@)) {
            Some(printed) => Some(
                ReleaseInfoView {
                    source: tag_version_text(release.tag_name@),
                    text: printed,
                    channel: if release.prerelease {
                        UpdateChannel::Prerelease
                    } else {
                        UpdateChannel::Stable
                    },
                    url: release.html_url@,
                },
            ),
            None => None,
        }
    }
}

pub open spec fn info_view(r: Option<ReleaseInfo>) -> Option<ReleaseInfoView> {
    match r {
        Some(info) => Some(info@),
        None => None,
    }
}

/// The release that `release` offers on `channel`.
pub fn release_info_from_api_release(release: GitHubRelease, channel: UpdateChannel) -> (r:
    Option<ReleaseInfo>)
    ensures
        info_view(r) == offered_release(release, channel),
{
    offered_info(&release, channel)
}

fn offered_info(release: &GitHubRelease, channel: UpdateChannel) -> (r: Option<ReleaseInfo>)
    ensures
        info_view(r) == offered_release(*release, channel),
{
    if release.draft {
        return None;
    }
    if channel == UpdateChannel::Stable && release.prerelease {
        return None;
    }
    let release_channel = if release.prerelease {
        UpdateChannel::Prerelease
    } else {
        UpdateChannel::Stable
    };
    match parse_release_version(release.tag_name.as_str()) {
        Some(version) => Some(
            ReleaseInfo { version, channel: release_channel, url: release.html_url.clone() },
        ),
        None => None,
    }
}

/// The releases of `releases` that are offered on `channel`, in order.
pub open spec fn offered_releases(releases: Seq<GitHubRelease>, channel: UpdateChannel) -> Seq<
    ReleaseInfoView,
>
    decreases releases.len(),
{
    if releases.len() == 0 {
        Seq::empty()
    } else {
        let earlier = offered_releases(releases.drop_last(), channel);
        match offered_release(releases.last(), channel) {
            Some(info) => earlier.push(info),
            None => earlier,
        }
    }
}

/// The newest of `infos` by semver order; of equally new ones, the last
/// (as `Iterator::max_by` picks).
pub open spec fn newest_release(infos: Seq<ReleaseInfoView>) -> Option<ReleaseInfoView>
    decreases infos.len(),
{
    if infos.len() == 0 {
        None
    } else {
        match newest_release(infos.drop_last()) {
            None => Some(infos.last()),
            Some(best) => if semver_order(best.source, infos.last().source) == 1 {
                Some(best)
            } else {
                Some(infos.last())
            },
        }
    }
}

/// The newest release that `releases` offer on `channel`.
pub fn select_latest_release(releases: Vec<GitHubRelease>, channel: UpdateChannel) -> (r: Option<
    ReleaseInfo,
>)
    ensures
        info_view(r) == newest_release(offered_releases(releases@, channel)),
{
    let mut best: Option<ReleaseInfo> = None;
    let mut i: usize = 0;
    let ghost all = releases@;
    while i < releases.len()
        invariant
            i <= releases@.len(),
            all == releases@,
            info_view(best) == newest_release(offered_releases(all.take(i as int), channel)),
        decreases releases.len() - i,
    {
        assert(all.take(i + 1).drop_last() =~= all.take(i as int));
        let ghost prev = offered_releases(all.take(i as int), channel);
        assert(all.take(i + 1).last() == all[i as int]);
        let candidate = offered_info(&releases[i], channel);
        match candidate {
            Some(info) => {
                assert(offered_releases(all.take(i + 1), channel) == prev.push(info@));
                assert(prev.push(info@).drop_last() =~= prev);
                let keep = match &best {
                    Some(current) => compare_versions(&current.version, &info.version) == 1,
                    None => false,
                };
                if !keep {
                    best = Some(info);
                }
            },
            None => {
                assert(offered_releases(all.take(i + 1), channel) == prev);
            },
        }
        i = i + 1;
    }
    assert(all.take(i as int) =~= all);
    best
}

/// Where the releases are fetched from.
#[derive(Debug, Clone, Copy, PartialEq, Eq, Structural)]
pub enum ReleaseEndpoint {
    LatestStable,
    ReleasesList { per_page: u8 },
}

impl ReleaseEndpoint {
    pub open spec fn url_text(self, base: Seq<char>) -> Seq<char> {
        match self {
            ReleaseEndpoint::LatestStable => base + "/latest"@,
            ReleaseEndpoint::ReleasesList { per_page } => base + "?per_page="@ + int_decimal(
                per_page as int,
            ),
        }
    }

    /// The URL of the endpoint under the API base `base`.
    pub fn url(self, base: &str) -> (r: String)
        ensures
            r@ == self.url_text(base@),
    {
        let mut r = String::from_str(base);
        match self {
            ReleaseEndpoint::LatestStable => r.append("/latest"),
            ReleaseEndpoint::ReleasesList { per_page } => {
                r.append("?per_page=");
                let n = decimal(per_page as i128);
                r.append(n.as_str());
            },
        }
        r
    }

    /// The name of the endpoint in error messages.
    pub fn label(self) -> (r: &'static str)
        ensures
            r@ == match self {
                ReleaseEndpoint::LatestStable => "latest"@,
                ReleaseEndpoint::ReleasesList { .. } => "releases"@,
            },
    {
        match self {
            ReleaseEndpoint::LatestStable => "latest",
            ReleaseEndpoint::ReleasesList { .. } => "releases",
        }
    }

    /// The endpoint for `channel`: the latest release for the stable
    /// channel, the first page of all releases for the prerelease one.
    pub fn for_channel(channel: UpdateChannel) -> (r: ReleaseEndpoint)
        ensures
            r == match channel {
                UpdateChannel::Stable => ReleaseEndpoint::LatestStable,
                UpdateChannel::Prerelease => ReleaseEndpoint::ReleasesList {
                    per_page: PRERELEASE_PAGE_SIZE,
                },
            },
    {
        match channel {
            UpdateChannel::Stable => ReleaseEndpoint::LatestStable,
            UpdateChannel::Prerelease => ReleaseEndpoint::ReleasesList {
                per_page: PRERELEASE_PAGE_SIZE,
            },
        }
    }
}

// ---------------------------------------------------------------------------
// The check
// ---------------------------------------------------------------------------

/// The result of an update check: this build's version and channel, and the
/// newest release on the channel looked at.
#[derive(Debug, Clone, PartialEq, Eq)]
pub struct UpdateCheckResult {
    current_version: SemVersion,
    current_channel: ReleaseChannel,
    latest: ReleaseInfo,
}

impl UpdateCheckResult {
    pub closed spec fn current_source(&self) -> Seq<char> {
        self.current_version.source_view()
    }

    pub closed spec fn current_text(&self) -> Seq<char> {
        self.current_version.text_view()
    }

    pub closed spec fn current_channel_view(&self) -> ReleaseChannel {
        self.current_channel
    }

    pub closed spec fn latest_view(&self) -> ReleaseInfoView {
        self.latest@
    }

    /// An update is available when the newest release is newer than this
    /// build.
    pub open spec fn is_update(&self) -> bool {
        semver_order(self.latest_view().source, self.current_source()) == 1
    }

    /// The report of the check.
    pub open spec fn report(&self) -> Seq<char> {
        "status: "@ + (if self.is_update() {
            "update available"@
        } else {
            "up to date"@
        }) + "\ncurrent: "@ + self.current_text() + " ("@ + self.current_channel_view().name()
            + ")\nlatest: "@ + self.latest_view().text + " ("@ + self.latest_view().channel.name()
            + ")\nurl: "@ + self.latest_view().url + "\n"@
    }

    pub fn latest(&self) -> (r: &ReleaseInfo)
        ensures
            r@ == self.latest_view(),
    {
        &self.latest
    }

    pub fn current_version(&self) -> (r: &SemVersion)
        ensures
            r.source_view() == self.current_source(),
            r.text_view() == self.current_text(),
    {
        &self.current_version
    }

    pub fn current_channel(&self) -> (r: ReleaseChannel)
        ensures
            r == self.current_channel_view(),
    {
        self.current_channel
    }

    pub fn update_available(&self) -> (r: bool)
        ensures
            r == self.is_update(),
    {
        compare_versions(&self.latest.version, &self.current_version) == 1
    }

    pub fn render(&self) -> (r: String)
        ensures
            r@ == self.report(),
    {
        let mut r = String::from_str("status: ");
        if self.update_available() {
            r.append("update available");
        } else {
            r.append("up to date");
        }
        r.append("\ncurrent: ");
        r.append(self.current_version.text.as_str());
        r.append(" (");
        r.append(self.current_channel.as_str());
        r.append(")\nlatest: ");
        r.append(self.latest.version.text.as_str());
        r.append(" (");
        r.append(self.latest.channel.as_str());
        r.append(")\nurl: ");
        r.append(self.latest.url.as_str());
        r.append("\n");
        r
    }
}

/// What an update check asks of the API, once the channel and this build's
/// version are known.
#[derive(Debug, Clone, PartialEq, Eq)]
pub struct UpdateCheckPlan {
    pub channel: UpdateChannel,
    pub current_version: SemVersion,
    pub current_channel: ReleaseChannel,
    pub endpoint: ReleaseEndpoint,
    pub user_agent: String,
}

/// The channel an update check looks on: the one asked for, else the
/// build's default.
pub open spec fn check_channel(command: UpdatesCommand, current: VersionInfo) -> UpdateChannel {
    match command {
        UpdatesCommand::Check { channel: Some(c), .. } => c,
        UpdatesCommand::Check { channel: None, .. } => match current.channel_view() {
            ReleaseChannel::Prerelease => UpdateChannel::Prerelease,
            _ => UpdateChannel::Stable,
        },
    }
}

/// Whether a finished check asks for a desktop notification: it was run
/// with `--notify` and found a newer release.
pub fn wants_notification(command: UpdatesCommand, result: &UpdateCheckResult) -> (r: bool)
    ensures
        r == (match command {
            UpdatesCommand::Check { notify, .. } => notify,
        } && result.is_update()),
{
    match command {
        UpdatesCommand::Check { notify, .. } => notify && result.update_available(),
    }
}

/// The first half of an update check: the channel, this build's version
/// (which must be a semantic version), the endpoint to ask, and the user
/// agent `lg-buddy/<version>` to ask with.
pub fn plan_update_check(command: UpdatesCommand, current: VersionInfo) -> (r: Result<
    UpdateCheckPlan,
    UpdatesError,
>)
    ensures
        match semver_canonical(current.version_view()) {
            Some(printed) => r matches Ok(plan) && plan.channel == check_channel(command, current)
                && plan.current_version.source_view() == current.version_view()
                && plan.current_version.text_view() == printed && plan.current_channel
                == current.channel_view() && plan.endpoint == (match check_channel(
                command,
                current,
            ) {
                UpdateChannel::Stable => ReleaseEndpoint::LatestStable,
                UpdateChannel::Prerelease => ReleaseEndpoint::ReleasesList {
                    per_page: PRERELEASE_PAGE_SIZE,
                },
            }) && plan.user_agent@ == "lg-buddy/"@ + current.version_view(),
            None => r matches Err(UpdatesError::InvalidLocalVersion { version, source })
                && version@ == current.version_view() && source@ == semver_parse_error(
                current.version_view(),
            ),
        },
        r matches Ok(plan) ==> match command {
            UpdatesCommand::Check { channel: Some(c), .. } => plan.channel == c,
            UpdatesCommand::Check { channel: None, .. } => plan.channel == (
            match current.channel_view() {
                ReleaseChannel::Prerelease => UpdateChannel::Prerelease,
                _ => UpdateChannel::Stable,
            }),
        },
{
    let channel = match command {
        UpdatesCommand::Check { channel, .. } => match channel {
            Some(c) => c,
            None => UpdateChannel::default_for(current),
        },
    };
    let current_version = match parse_version(current.version()) {
        Ok(v) => v,
        Err(e) => {
            return Err(
                UpdatesError::InvalidLocalVersion {
                    version: String::from_str(current.version()),
                    source: e,
                },
            );
        },
    };
    let mut user_agent = String::from_str("lg-buddy/");
    user_agent.append(current.version());
    Ok(
        UpdateCheckPlan {
            channel,
            current_version,
            current_channel: current.channel(),
            endpoint: ReleaseEndpoint::for_channel(channel),
            user_agent,
        },
    )
}

/// What the API answered: the latest release, or a page of releases.
#[derive(Debug, Clone, PartialEq, Eq)]
pub enum FetchedReleases {
    Latest(GitHubRelease),
    List(Vec<GitHubRelease>),
}

/// The release that the answer of the API offers on `channel`.
pub open spec fn fetched_release(fetched: FetchedReleases, channel: UpdateChannel) -> Option<
    ReleaseInfoView,
> {
    match fetched {
        FetchedReleases::Latest(release) => offered_release(release, channel),
        FetchedReleases::List(releases) => newest_release(offered_releases(releases@, channel)),
    }
}

/// The second half of an update check: the newest release the answer of
/// the API offers on the planned channel, or why there is none.
pub fn finish_update_check(
    plan: UpdateCheckPlan,
    fetched: Result<FetchedReleases, UpdatesError>,
) -> (r: Result<UpdateCheckResult, UpdatesError>)
    ensures
        match fetched {
            Err(e) => r == Err::<UpdateCheckResult, UpdatesError>(e),
            Ok(answer) => match fetched_release(answer, plan.channel) {
                Some(latest) => r matches Ok(result) && result.latest_view() == latest
                    && result.current_source() == plan.current_version.source_view()
                    && result.current_text() == plan.current_version.text_view()
                    && result.current_channel_view() == plan.current_channel,
                None => r == Err::<UpdateCheckResult, UpdatesError>(
                    UpdatesError::NoMatchingRelease { channel: plan.channel },
                ),
            },
        },
{
    let answer = match fetched {
        Ok(answer) => answer,
        Err(e) => return Err(e),
    };
    let latest = match answer {
        FetchedReleases::Latest(release) => release_info_from_api_release(release, plan.channel),
        FetchedReleases::List(releases) => select_latest_release(releases, plan.channel),
    };
    match latest {
        Some(latest) => Ok(
            UpdateCheckResult {
                current_version: plan.current_version,
                current_channel: plan.current_channel,
                latest,
            },
        ),
        None => Err(UpdatesError::NoMatchingRelease { channel: plan.channel }),
    }
}

/// The first line that a check prints says an update is available exactly
/// when the newest release is newer than the build.
/// A channel given with `--channel` is always the one checked, whatever
/// the build; only a check without one looks on the build's default.
pub proof fn lemma_explicit_channel_is_honoured(
    c: UpdateChannel,
    notify: bool,
    current: VersionInfo,
)
    ensures
        check_channel(UpdatesCommand::Check { channel: Some(c), notify }, current) == c,
        check_channel(UpdatesCommand::Check { channel: None, notify }, current) == (
        match current.channel_view() {
            ReleaseChannel::Prerelease => UpdateChannel::Prerelease,
            _ => UpdateChannel::Stable,
        }),
{
}

pub proof fn lemma_report_first_line(result: UpdateCheckResult)
    ensures
        result.is_update() ==> result.report().subrange(0, 24) == "status: update available"@,
        !result.is_update() ==> result.report().subrange(0, 18) == "status: up to date"@,
{
    reveal_strlit("status: ");
    reveal_strlit("update available");
    reveal_strlit("up to date");
    reveal_strlit("status: update available");
    reveal_strlit("status: up to date");
    let head = if result.is_update() {
        "update available"@
    } else {
        "up to date"@
    };
    assert(result.report().subrange(0, 8 + head.len() as int) =~= "status: "@ + head);
}

/// No channel offers a draft, and the stable channel offers only releases
/// that are not prereleases, as stable ones; the prerelease channel offers
/// prereleases and stable releases alike. A release that is not a draft
/// and whose tag holds a version is offered on every channel that admits it.
pub proof fn lemma_offered_release_respects_channel(release: GitHubRelease, channel: UpdateChannel)
    ensures
        !release.draft && semver_canonical(tag_version_text(release.tag_name@)) is Some && (
        channel == UpdateChannel::Prerelease || !release.prerelease) ==> offered_release(
            release,
            channel,
        ) is Some,
        offered_release(release, channel) is Some ==> !release.draft,
        channel == UpdateChannel::Stable ==> (offered_release(release, channel) matches Some(info)
            ==> !release.prerelease && info.channel == UpdateChannel::Stable),
        offered_release(release, channel) matches Some(info) ==> (info.channel
            == UpdateChannel::Prerelease <==> release.prerelease),
{
}

/// The newest release is one of the offered ones, and there is one exactly
/// when some release is offered.
pub proof fn lemma_newest_release_is_offered(infos: Seq<ReleaseInfoView>)
    ensures
        newest_release(infos) is Some <==> infos.len() > 0,
        newest_release(infos) matches Some(best) ==> infos.contains(best),
    decreases infos.len(),
{
    if infos.len() > 0 {
        lemma_newest_release_is_offered(infos.drop_last());
        match newest_release(infos) {
            Some(best) => {
                if best == infos.last() {
                    assert(infos[infos.len() - 1] == best);
                } else {
                    let prev = newest_release(infos.drop_last());
                    assert(prev == Some(best));
                    let j = choose|j: int| 0 <= j < infos.drop_last().len() && infos.drop_last()[j] == best;
                    assert(infos[j] == best);
                }
            },
            None => {},
        }
    }
}

/// Each release that the answer of the API offers on a channel comes from
/// a release of the answer, offered on that channel.
pub proof fn lemma_offered_releases_come_from_answer(
    releases: Seq<GitHubRelease>,
    channel: UpdateChannel,
)
    ensures
        forall|k: int|
            0 <= k < offered_releases(releases, channel).len() ==> exists|j: int|
                0 <= j < releases.len() && offered_release(releases[j], channel) == Some(
                    #[trigger] offered_releases(releases, channel)[k],
                ),
    decreases releases.len(),
{
    if releases.len() > 0 {
        let prev = releases.drop_last();
        lemma_offered_releases_come_from_answer(prev, channel);
        let out = offered_releases(releases, channel);
        assert forall|k: int| 0 <= k < out.len() implies exists|j: int|
            0 <= j < releases.len() && offered_release(releases[j], channel) == Some(
                #[trigger] out[k],
            ) by {
            if k < offered_releases(prev, channel).len() {
                assert(out[k] == offered_releases(prev, channel)[k]);
                let j = choose|j: int|
                    0 <= j < prev.len() && offered_release(prev[j], channel) == Some(
                        offered_releases(prev, channel)[k],
                    );
                assert(releases[j] == prev[j]);
            } else {
                assert(offered_release(releases[releases.len() - 1], channel) == Some(out[k]));
            }
        }
    }
}

} // verus!
