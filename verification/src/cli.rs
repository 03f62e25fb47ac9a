//! The command line of the `lg-buddy` runtime: its commands, startup modes,
//! help text and argument parser.

use vstd::prelude::*;
use vstd::string::StringExecFns;

use crate::text::{int_decimal, joined, str_eq, str_views};
use crate::tv::{brightness_named, oled_brightness_of, OledBrightness, OLED_BRIGHTNESS_MAX};
use crate::updates::{updates_command_of, UpdatesCommand, UpdatesParseError, UpdatesParseErrorView};

verus! {

/// How `startup` treats the TV.
#[derive(Debug, Clone, Copy, PartialEq, Eq, Structural)]
pub enum StartupMode {
    Auto,
    Boot,
    Wake,
}

impl StartupMode {
    pub open spec fn name(self) -> Seq<char> {
        match self {
            StartupMode::Auto => "auto"@,
            StartupMode::Boot => "boot"@,
            StartupMode::Wake => "wake"@,
        }
    }

    pub fn as_str(self) -> (r: &'static str)
        ensures
            r@ == self.name(),
    {
        match self {
            StartupMode::Auto => "auto",
            StartupMode::Boot => "boot",
            StartupMode::Wake => "wake",
        }
    }

    /// The mode named `value`.
    pub fn parse(value: &str) -> (r: Option<StartupMode>)
        ensures
            r == startup_mode_named(value@),
    {
        if str_eq(value, "auto") {
            Some(StartupMode::Auto)
        } else if str_eq(value, "boot") {
            Some(StartupMode::Boot)
        } else if str_eq(value, "wake") {
            Some(StartupMode::Wake)
        } else {
            None
        }
    }
}

pub open spec fn startup_mode_named(name: Seq<char>) -> Option<StartupMode> {
    if name == "auto"@ {
        Some(StartupMode::Auto)
    } else if name == "boot"@ {
        Some(StartupMode::Boot)
    } else if name == "wake"@ {
        Some(StartupMode::Wake)
    } else {
        None
    }
}

/// A runtime command. `Brightness` opens the brightness dialog;
/// `BrightnessGet` and `BrightnessSet` read and set the OLED brightness
/// directly.
#[derive(Debug, Clone, Copy, PartialEq, Eq, Structural)]
pub enum Command {
    Startup(StartupMode),
    Shutdown,
    SleepPre,
    Sleep,
    NmPreDown,
    Brightness,
    BrightnessGet,
    BrightnessSet(OledBrightness),
    ScreenOff,
    ScreenOn,
    Monitor,
    Lifecycle,
    DetectBackend,
    Updates(UpdatesCommand),
}

/// The command that a word names when it takes no arguments (all but
/// `startup`, `brightness`, `settings` and `updates`).
pub open spec fn command_named(name: Seq<char>) -> Option<Command> {
    if name == "shutdown"@ {
        Some(Command::Shutdown)
    } else if name == "sleep-pre"@ {
        Some(Command::SleepPre)
    } else if name == "sleep"@ {
        Some(Command::Sleep)
    } else if name == "nm-pre-down"@ {
        Some(Command::NmPreDown)
    } else if name == "screen-off"@ {
        Some(Command::ScreenOff)
    } else if name == "screen-on"@ {
        Some(Command::ScreenOn)
    } else if name == "monitor"@ {
        Some(Command::Monitor)
    } else if name == "lifecycle"@ {
        Some(Command::Lifecycle)
    } else if name == "detect-backend"@ {
        Some(Command::DetectBackend)
    } else {
        None
    }
}

impl Command {
    pub open spec fn name(self) -> Seq<char> {
        match self {
            Command::Startup(_) => "startup"@,
            Command::Shutdown => "shutdown"@,
            Command::SleepPre => "sleep-pre"@,
            Command::Sleep => "sleep"@,
            Command::NmPreDown => "nm-pre-down"@,
            Command::Brightness | Command::BrightnessGet | Command::BrightnessSet(_) =>
                "brightness"@,
            Command::ScreenOff => "screen-off"@,
            Command::ScreenOn => "screen-on"@,
            Command::Monitor => "monitor"@,
            Command::Lifecycle => "lifecycle"@,
            Command::DetectBackend => "detect-backend"@,
            Command::Updates(_) => "updates"@,
        }
    }

    pub open spec fn placeholder(self) -> Seq<char> {
        match self {
            Command::DetectBackend => "TODO: implement detect-backend command"@,
            _ => "TODO: implemented via command handler"@,
        }
    }

    pub fn as_str(self) -> (r: &'static str)
        ensures
            r@ == self.name(),
    {
        match self {
            Command::Startup(_) => "startup",
            Command::Shutdown => "shutdown",
            Command::SleepPre => "sleep-pre",
            Command::Sleep => "sleep",
            Command::NmPreDown => "nm-pre-down",
            Command::Brightness | Command::BrightnessGet | Command::BrightnessSet(_) =>
                "brightness",
            Command::ScreenOff => "screen-off",
            Command::ScreenOn => "screen-on",
            Command::Monitor => "monitor",
            Command::Lifecycle => "lifecycle",
            Command::DetectBackend => "detect-backend",
            Command::Updates(_) => "updates",
        }
    }

    /// The note that a command without a handler of its own prints.
    pub fn placeholder_message(self) -> (r: &'static str)
        ensures
            r@ == self.placeholder(),
    {
        match self {
            Command::DetectBackend => "TODO: implement detect-backend command",
            _ => "TODO: implemented via command handler",
        }
    }
}

/// What `settings` is asked to do, with the setting keys and the value as
/// they were written.
#[derive(Debug, Clone, PartialEq, Eq)]
pub enum SettingsCommand {
    List,
    Describe { key: String },
    Get { key: String },
    SetValue { key: String, value: String },
    Unset { key: String },
}

pub enum SettingsCommandView {
    List,
    Describe { key: Seq<char> },
    Get { key: Seq<char> },
    SetValue { key: Seq<char>, value: Seq<char> },
    Unset { key: Seq<char> },
}

impl View for SettingsCommand {
    type V = SettingsCommandView;

    open spec fn view(&self) -> SettingsCommandView {
        match self {
            SettingsCommand::List => SettingsCommandView::List,
            SettingsCommand::Describe { key } => SettingsCommandView::Describe { key: key@ },
            SettingsCommand::Get { key } => SettingsCommandView::Get { key: key@ },
            SettingsCommand::SetValue { key, value } => SettingsCommandView::SetValue {
                key: key@,
                value: value@,
            },
            SettingsCommand::Unset { key } => SettingsCommandView::Unset { key: key@ },
        }
    }
}

/// What the command line asks for.
#[derive(Debug, Clone, PartialEq, Eq)]
pub enum ParseOutcome {
    Help,
    Version,
    Command(Command),
    Settings(SettingsCommand),
}

pub enum ParseOutcomeView {
    Help,
    Version,
    Command(Command),
    Settings(SettingsCommandView),
}

impl View for ParseOutcome {
    type V = ParseOutcomeView;

    open spec fn view(&self) -> ParseOutcomeView {
        match self {
            ParseOutcome::Help => ParseOutcomeView::Help,
            ParseOutcome::Version => ParseOutcomeView::Version,
            ParseOutcome::Command(c) => ParseOutcomeView::Command(*c),
            ParseOutcome::Settings(s) => ParseOutcomeView::Settings(s@),
        }
    }
}

#[derive(Debug, Clone, PartialEq, Eq)]
pub enum ParseError {
    UnknownCommand(String),
    UnknownStartupMode(String),
    UnexpectedArguments { command: Command, arguments: Vec<String> },
    UnknownBrightnessCommand(String),
    MissingBrightnessValue,
    InvalidBrightness(String),
    MissingSettingsCommand,
    UnknownSettingsCommand(String),
    MissingSettingsArguments(String),
    UnexpectedSettingsArguments { subcommand: String, arguments: Vec<String> },
    Updates(UpdatesParseError),
}

/// A parse error with its text as character sequences.
pub enum ParseErrorView {
    UnknownCommand(Seq<char>),
    UnknownStartupMode(Seq<char>),
    UnexpectedArguments { command: Command, arguments: Seq<Seq<char>> },
    UnknownBrightnessCommand(Seq<char>),
    MissingBrightnessValue,
    InvalidBrightness(Seq<char>),
    MissingSettingsCommand,
    UnknownSettingsCommand(Seq<char>),
    MissingSettingsArguments(Seq<char>),
    UnexpectedSettingsArguments { subcommand: Seq<char>, arguments: Seq<Seq<char>> },
    Updates(UpdatesParseErrorView),
}

pub open spec fn string_views(list: Seq<String>) -> Seq<Seq<char>> {
    list.map_values(|s: String| s@)
}

impl View for ParseError {
    type V = ParseErrorView;

    open spec fn view(&self) -> ParseErrorView {
        match self {
            ParseError::UnknownCommand(c) => ParseErrorView::UnknownCommand(c@),
            ParseError::UnknownStartupMode(m) => ParseErrorView::UnknownStartupMode(m@),
            ParseError::UnexpectedArguments { command, arguments } =>
                ParseErrorView::UnexpectedArguments {
                command: *command,
                arguments: string_views(arguments@),
            },
            ParseError::UnknownBrightnessCommand(c) => ParseErrorView::UnknownBrightnessCommand(
                c@,
            ),
            ParseError::MissingBrightnessValue => ParseErrorView::MissingBrightnessValue,
            ParseError::InvalidBrightness(v) => ParseErrorView::InvalidBrightness(v@),
            ParseError::MissingSettingsCommand => ParseErrorView::MissingSettingsCommand,
            ParseError::UnknownSettingsCommand(c) => ParseErrorView::UnknownSettingsCommand(c@),
            ParseError::MissingSettingsArguments(c) => ParseErrorView::MissingSettingsArguments(
                c@,
            ),
            ParseError::UnexpectedSettingsArguments { subcommand, arguments } =>
                ParseErrorView::UnexpectedSettingsArguments {
                subcommand: subcommand@,
                arguments: string_views(arguments@),
            },
            ParseError::Updates(e) => ParseErrorView::Updates(e@),
        }
    }
}

impl ParseErrorView {
    /// The text that the error reads as.
    pub open spec fn message(self) -> Seq<char> {
        match self {
            ParseErrorView::UnknownCommand(c) => "unknown command `"@ + c + "`"@,
            ParseErrorView::UnknownStartupMode(m) => "unknown startup mode `"@ + m + "`"@,
            ParseErrorView::UnexpectedArguments { command, arguments } =>
                "unexpected arguments for `"@ + command.name() + "`: "@ + joined(arguments, " "@),
            ParseErrorView::UnknownBrightnessCommand(c) => "unknown brightness command `"@ + c
                + "`; expected get or set"@,
            ParseErrorView::MissingBrightnessValue =>
                "missing brightness value; expected `brightness set <0-100>`"@,
            ParseErrorView::InvalidBrightness(v) => "invalid OLED brightness `"@ + v
                + "`; expected an integer from 0 to 100"@,
            ParseErrorView::MissingSettingsCommand =>
                "missing settings command; expected `settings list|describe|get|set|unset`"@,
            ParseErrorView::UnknownSettingsCommand(c) => "unknown settings command `"@ + c
                + "`"@,
            ParseErrorView::MissingSettingsArguments(c) => "missing arguments for `settings "@
                + c + "`"@,
            ParseErrorView::UnexpectedSettingsArguments { subcommand, arguments } =>
                "unexpected arguments for `settings "@ + subcommand + "`: "@ + joined(
                arguments,
                " "@,
            ),
            ParseErrorView::Updates(e) => e.text(),
        }
    }
}

impl ParseError {
    /// The text of the error, as it is shown to users.
    pub fn message(&self) -> (r: String)
        ensures
            r@ == self@.message(),
    {
        match self {
            ParseError::UnknownCommand(c) => {
                let mut r = String::from_str("unknown command `");
                r.append(c.as_str());
                r.append("`");
                r
            },
            ParseError::UnknownStartupMode(m) => {
                let mut r = String::from_str("unknown startup mode `");
                r.append(m.as_str());
                r.append("`");
                r
            },
            ParseError::UnexpectedArguments { command, arguments } => {
                let mut r = String::from_str("unexpected arguments for `");
                r.append(command.as_str());
                r.append("`: ");
                let list = join_owned(arguments, " ");
                r.append(list.as_str());
                r
            },
            ParseError::UnknownBrightnessCommand(c) => {
                let mut r = String::from_str("unknown brightness command `");
                r.append(c.as_str());
                r.append("`; expected get or set");
                r
            },
            ParseError::MissingBrightnessValue => String::from_str(
                "missing brightness value; expected `brightness set <0-100>`",
            ),
            ParseError::InvalidBrightness(v) => {
                let mut r = String::from_str("invalid OLED brightness `");
                r.append(v.as_str());
                r.append("`; expected an integer from 0 to 100");
                r
            },
            ParseError::MissingSettingsCommand => String::from_str(
                "missing settings command; expected `settings list|describe|get|set|unset`",
            ),
            ParseError::UnknownSettingsCommand(c) => {
                let mut r = String::from_str("unknown settings command `");
                r.append(c.as_str());
                r.append("`");
                r
            },
            ParseError::MissingSettingsArguments(c) => {
                let mut r = String::from_str("missing arguments for `settings ");
                r.append(c.as_str());
                r.append("`");
                r
            },
            ParseError::UnexpectedSettingsArguments { subcommand, arguments } => {
                let mut r = String::from_str("unexpected arguments for `settings ");
                r.append(subcommand.as_str());
                r.append("`: ");
                let list = join_owned(arguments, " ");
                r.append(list.as_str());
                r
            },
            ParseError::Updates(e) => e.message(),
        }
    }
}

pub open spec fn is_help_word(word: Seq<char>) -> bool {
    word == "-h"@ || word == "--help"@ || word == "help"@
}

/// What `brightness` and the words after it (`args`, with `brightness` at
/// position 0) ask for: the dialog, `get`, or `set` with a brightness from
/// 0 to 100.
pub open spec fn brightness_outcome(args: Seq<Seq<char>>) -> Result<ParseOutcomeView, ParseErrorView> {
    if args.len() < 2 {
        Ok(ParseOutcomeView::Command(Command::Brightness))
    } else if args[1] == "get"@ {
        if args.len() > 2 {
            Err(
                ParseErrorView::UnexpectedArguments {
                    command: Command::BrightnessGet,
                    arguments: args.subrange(2, args.len() as int),
                },
            )
        } else {
            Ok(ParseOutcomeView::Command(Command::BrightnessGet))
        }
    } else if args[1] == "set"@ {
        if args.len() < 3 {
            Err(ParseErrorView::MissingBrightnessValue)
        } else {
            match brightness_named(args[2]) {
                None => Err(ParseErrorView::InvalidBrightness(args[2])),
                Some(v) => if args.len() > 3 {
                    Err(
                        ParseErrorView::UnexpectedArguments {
                            command: Command::BrightnessSet(oled_brightness_of(v)),
                            arguments: args.subrange(3, args.len() as int),
                        },
                    )
                } else {
                    Ok(ParseOutcomeView::Command(Command::BrightnessSet(oled_brightness_of(v))))
                },
            }
        }
    } else {
        Err(ParseErrorView::UnknownBrightnessCommand(args[1]))
    }
}

/// How many words follow each `settings` subcommand: none after `list`,
/// the key after `describe`, `get` and `unset`, the key and the value after
/// `set`.
pub open spec fn settings_arity(name: Seq<char>) -> Option<int> {
    if name == "list"@ {
        Some(0)
    } else if name == "describe"@ || name == "get"@ || name == "unset"@ {
        Some(1)
    } else if name == "set"@ {
        Some(2)
    } else {
        None
    }
}

/// The settings request that `words` (a subcommand and as many words as it
/// takes) make.
pub open spec fn settings_request(words: Seq<Seq<char>>) -> SettingsCommandView {
    if words[0] == "list"@ {
        SettingsCommandView::List
    } else if words[0] == "describe"@ {
        SettingsCommandView::Describe { key: words[1] }
    } else if words[0] == "get"@ {
        SettingsCommandView::Get { key: words[1] }
    } else if words[0] == "set"@ {
        SettingsCommandView::SetValue { key: words[1], value: words[2] }
    } else {
        SettingsCommandView::Unset { key: words[1] }
    }
}

/// What the words after `settings` ask for.
pub open spec fn settings_outcome(rest: Seq<Seq<char>>) -> Result<ParseOutcomeView, ParseErrorView> {
    if rest.len() == 0 {
        Err(ParseErrorView::MissingSettingsCommand)
    } else {
        match settings_arity(rest[0]) {
            None => Err(ParseErrorView::UnknownSettingsCommand(rest[0])),
            Some(n) => if rest.len() < n + 1 {
                Err(ParseErrorView::MissingSettingsArguments(rest[0]))
            } else if rest.len() > n + 1 {
                Err(
                    ParseErrorView::UnexpectedSettingsArguments {
                        subcommand: rest[0],
                        arguments: rest.subrange(n + 1, rest.len() as int),
                    },
                )
            } else {
                Ok(ParseOutcomeView::Settings(settings_request(rest)))
            },
        }
    }
}

/// What the argument list (without the program name) asks for. A help
/// word or `--version` first asks for help or the version, whatever
/// follows.
pub open spec fn parse_outcome(args: Seq<Seq<char>>) -> Result<ParseOutcomeView, ParseErrorView> {
    if args.len() == 0 {
        Ok(ParseOutcomeView::Help)
    } else if is_help_word(args[0]) {
        Ok(ParseOutcomeView::Help)
    } else if args[0] == "--version"@ {
        Ok(ParseOutcomeView::Version)
    } else if args[0] == "startup"@ {
        if args.len() == 1 {
            Ok(ParseOutcomeView::Command(Command::Startup(StartupMode::Auto)))
        } else {
            match startup_mode_named(args[1]) {
                None => Err(ParseErrorView::UnknownStartupMode(args[1])),
                Some(mode) => if args.len() > 2 {
                    Err(
                        ParseErrorView::UnexpectedArguments {
                            command: Command::Startup(mode),
                            arguments: args.subrange(2, args.len() as int),
                        },
                    )
                } else {
                    Ok(ParseOutcomeView::Command(Command::Startup(mode)))
                },
            }
        }
    } else if args[0] == "brightness"@ {
        brightness_outcome(args)
    } else if args[0] == "settings"@ {
        settings_outcome(args.subrange(1, args.len() as int))
    } else if args[0] == "updates"@ {
        match updates_command_of(args.subrange(1, args.len() as int)) {
            Ok(u) => Ok(ParseOutcomeView::Command(Command::Updates(u))),
            Err(e) => Err(ParseErrorView::Updates(e)),
        }
    } else {
        match command_named(args[0]) {
            None => Err(ParseErrorView::UnknownCommand(args[0])),
            Some(command) => if args.len() > 1 {
                Err(
                    ParseErrorView::UnexpectedArguments {
                        command,
                        arguments: args.subrange(1, args.len() as int),
                    },
                )
            } else {
                Ok(ParseOutcomeView::Command(command))
            },
        }
    }
}

pub open spec fn parse_result_view(r: Result<ParseOutcome, ParseError>) -> Result<
    ParseOutcomeView,
    ParseErrorView,
> {
    match r {
        Ok(o) => Ok(o@),
        Err(e) => Err(e@),
    }
}

fn command_from_name(name: &str) -> (r: Option<Command>)
    ensures
        r == command_named(name@),
{
    if str_eq(name, "shutdown") {
        Some(Command::Shutdown)
    } else if str_eq(name, "sleep-pre") {
        Some(Command::SleepPre)
    } else if str_eq(name, "sleep") {
        Some(Command::Sleep)
    } else if str_eq(name, "nm-pre-down") {
        Some(Command::NmPreDown)
    } else if str_eq(name, "screen-off") {
        Some(Command::ScreenOff)
    } else if str_eq(name, "screen-on") {
        Some(Command::ScreenOn)
    } else if str_eq(name, "monitor") {
        Some(Command::Monitor)
    } else if str_eq(name, "lifecycle") {
        Some(Command::Lifecycle)
    } else if str_eq(name, "detect-backend") {
        Some(Command::DetectBackend)
    } else {
        None
    }
}

/// Parses `brightness` and what follows it.
fn parse_brightness(args: &[&str]) -> (r: Result<ParseOutcome, ParseError>)
    requires
        args@.len() >= 1,
    ensures
        parse_result_view(r) == brightness_outcome(str_views(args@)),
{
    let ghost views = str_views(args@);
    if args.len() < 2 {
        return Ok(ParseOutcome::Command(Command::Brightness));
    }
    assert(views[1] == args@[1]@);
    if str_eq(args[1], "get") {
        if args.len() > 2 {
            return Err(
                ParseError::UnexpectedArguments {
                    command: Command::BrightnessGet,
                    arguments: owned_tail(args, 2),
                },
            );
        }
        return Ok(ParseOutcome::Command(Command::BrightnessGet));
    }
    if !str_eq(args[1], "set") {
        return Err(ParseError::UnknownBrightnessCommand(String::from_str(args[1])));
    }
    if args.len() < 3 {
        return Err(ParseError::MissingBrightnessValue);
    }
    assert(views[2] == args@[2]@);
    let brightness = match OledBrightness::parse(args[2]) {
        Ok(b) => b,
        Err(_) => return Err(ParseError::InvalidBrightness(String::from_str(args[2]))),
    };
    proof {
        crate::tv::lemma_oled_brightness_of(brightness, brightness.percent());
    }
    if args.len() > 3 {
        return Err(
            ParseError::UnexpectedArguments {
                command: Command::BrightnessSet(brightness),
                arguments: owned_tail(args, 3),
            },
        );
    }
    Ok(ParseOutcome::Command(Command::BrightnessSet(brightness)))
}

/// Parses what follows `settings` (from position 1 of `args` on).
fn parse_settings(args: &[&str]) -> (r: Result<ParseOutcome, ParseError>)
    requires
        args@.len() >= 1,
    ensures
        parse_result_view(r) == settings_outcome(
            str_views(args@).subrange(1, args@.len() as int),
        ),
{
    let ghost views = str_views(args@);
    let ghost rest = views.subrange(1, args@.len() as int);
    if args.len() < 2 {
        return Err(ParseError::MissingSettingsCommand);
    }
    let sub = args[1];
    assert(rest[0] == sub@);
    proof {
        reveal_strlit("list");
        reveal_strlit("describe");
        reveal_strlit("get");
        reveal_strlit("set");
        reveal_strlit("unset");
        assert("get"@ != "set"@) by {
            assert("get"@[0] != "set"@[0]);
        }
        assert("list"@.len() == 4 && "unset"@.len() == 5 && "describe"@.len() == 8);
        assert("get"@.len() == 3);
    }
    let arity: usize = if str_eq(sub, "list") {
        0
    } else if str_eq(sub, "describe") || str_eq(sub, "get") || str_eq(sub, "unset") {
        1
    } else if str_eq(sub, "set") {
        2
    } else {
        return Err(ParseError::UnknownSettingsCommand(String::from_str(sub)));
    };
    assert(settings_arity(rest[0]) == Some(arity as int));
    if args.len() < arity + 2 {
        return Err(ParseError::MissingSettingsArguments(String::from_str(sub)));
    }
    if args.len() > arity + 2 {
        let arguments = owned_tail(args, arity + 2);
        assert(views.subrange(arity + 2, args@.len() as int) =~= rest.subrange(
            arity + 1,
            rest.len() as int,
        ));
        return Err(
            ParseError::UnexpectedSettingsArguments { subcommand: String::from_str(sub), arguments },
        );
    }
    let request = if arity == 0 {
        SettingsCommand::List
    } else {
        assert(rest[1] == args@[2]@);
        let key = String::from_str(args[2]);
        if str_eq(sub, "describe") {
            SettingsCommand::Describe { key }
        } else if str_eq(sub, "get") {
            SettingsCommand::Get { key }
        } else if str_eq(sub, "unset") {
            SettingsCommand::Unset { key }
        } else {
            assert(rest[2] == args@[3]@);
            SettingsCommand::SetValue { key, value: String::from_str(args[3]) }
        }
    };
    Ok(ParseOutcome::Settings(request))
}

/// The strings of `list` with `sep` between each two of them.
pub(crate) fn join_owned(list: &Vec<String>, sep: &str) -> (r: String)
    ensures
        r@ == joined(string_views(list@), sep@),
{
    let mut words: Vec<&str> = Vec::new();
    let mut i: usize = 0;
    while i < list.len()
        invariant
            i <= list.len(),
            words@.len() == i,
            forall|k: int| 0 <= k < i ==> (#[trigger] words@[k])@ == list@[k]@,
        decreases list.len() - i,
    {
        words.push(list[i].as_str());
        i = i + 1;
    }
    assert(str_views(words@) =~= string_views(list@));
    crate::text::join(words.as_slice(), sep)
}

/// The arguments from position `start` on, as owned strings.
pub(crate) fn owned_tail(args: &[&str], start: usize) -> (r: Vec<String>)
    requires
        start <= args@.len(),
    ensures
        string_views(r@) == str_views(args@).subrange(start as int, args@.len() as int),
{
    let mut r: Vec<String> = Vec::new();
    let mut i: usize = start;
    while i < args.len()
        invariant
            start <= i <= args@.len(),
            r@.len() == i - start,
            forall|k: int| 0 <= k < r@.len() ==> (#[trigger] r@[k])@ == args@[start + k]@,
        decreases args.len() - i,
    {
        r.push(String::from_str(args[i]));
        i = i + 1;
    }
    assert(string_views(r@) =~= str_views(args@).subrange(
        start as int,
        args@.len() as int,
    ));
    r
}

/// Parses the arguments that follow the program name.
pub fn parse_args(args: &[&str]) -> (r: Result<ParseOutcome, ParseError>)
    ensures
        parse_result_view(r) == parse_outcome(str_views(args@)),
{
    let ghost views = str_views(args@);
    if args.len() == 0 {
        return Ok(ParseOutcome::Help);
    }
    let first = args[0];
    assert(views[0] == first@);
    if str_eq(first, "-h") || str_eq(first, "--help") || str_eq(first, "help") {
        return Ok(ParseOutcome::Help);
    }
    if str_eq(first, "--version") {
        return Ok(ParseOutcome::Version);
    }
    if str_eq(first, "startup") {
        if args.len() == 1 {
            return Ok(ParseOutcome::Command(Command::Startup(StartupMode::Auto)));
        }
        assert(views[1] == args@[1]@);
        let mode = match StartupMode::parse(args[1]) {
            Some(mode) => mode,
            None => return Err(ParseError::UnknownStartupMode(String::from_str(args[1]))),
        };
        if args.len() > 2 {
            return Err(
                ParseError::UnexpectedArguments {
                    command: Command::Startup(mode),
                    arguments: owned_tail(args, 2),
                },
            );
        }
        return Ok(ParseOutcome::Command(Command::Startup(mode)));
    }
    if str_eq(first, "brightness") {
        return parse_brightness(args);
    }
    if str_eq(first, "settings") {
        return parse_settings(args);
    }
    if str_eq(first, "updates") {
        let rest = vstd::slice::slice_subrange(args, 1, args.len());
        assert(str_views(rest@) =~= views.subrange(1, args@.len() as int));
        return match UpdatesCommand::parse(rest) {
            Ok(u) => Ok(ParseOutcome::Command(Command::Updates(u))),
            Err(e) => Err(ParseError::Updates(e)),
        };
    }
    let command = match command_from_name(first) {
        Some(command) => command,
        None => return Err(ParseError::UnknownCommand(String::from_str(first))),
    };
    if args.len() > 1 {
        return Err(ParseError::UnexpectedArguments { command, arguments: owned_tail(args, 1) });
    }
    Ok(ParseOutcome::Command(command))
}

/// The help text of the runtime, for the program name `program`.
pub open spec fn usage_text(program: Seq<char>) -> Seq<char> {
    "LG Buddy Rust runtime\n\nUsage:\n  "@ + program + " <command>\n  "@ + program
        + " --help\n\nCommands:\n  startup [mode]  Start or restore the TV output\n  shutdown        Power off the TV when LG Buddy owns the active input\n  sleep-pre       Handle the pre-sleep TV power-off hook\n  sleep           Handle the NetworkManager pre-down sleep hook\n  brightness      Open the TV brightness control dialog\n  screen-off      Blank the configured TV output if active\n  screen-on       Restore the TV output after an LG Buddy screen-off\n  monitor         Run the user-session monitor loop\n  lifecycle       Run the system lifecycle monitor loop\n  detect-backend  Detect the active screen backend\n\nStartup modes:\n  auto            Restore on wake when LG Buddy owns the system marker, otherwise boot\n  boot            Always treat startup as a cold boot\n  wake            Only restore when LG Buddy owns the system marker\n"@
}

/// The help text of the runtime.
pub fn usage(program: &str) -> (r: String)
    ensures
        r@ == usage_text(program@),
{
    let mut r = String::from_str("LG Buddy Rust runtime\n\nUsage:\n  ");
    r.append(program);
    r.append(" <command>\n  ");
    r.append(program);
    r.append(
        " --help\n\nCommands:\n  startup [mode]  Start or restore the TV output\n  shutdown        Power off the TV when LG Buddy owns the active input\n  sleep-pre       Handle the pre-sleep TV power-off hook\n  sleep           Handle the NetworkManager pre-down sleep hook\n  brightness      Open the TV brightness control dialog\n  screen-off      Blank the configured TV output if active\n  screen-on       Restore the TV output after an LG Buddy screen-off\n  monitor         Run the user-session monitor loop\n  lifecycle       Run the system lifecycle monitor loop\n  detect-backend  Detect the active screen backend\n\nStartup modes:\n  auto            Restore on wake when LG Buddy owns the system marker, otherwise boot\n  boot            Always treat startup as a cold boot\n  wake            Only restore when LG Buddy owns the system marker\n",
    );
    r
}

// ---------------------------------------------------------------------------
// Laws
// ---------------------------------------------------------------------------

/// Every command's name parses back to that command: alone for the
/// commands without arguments, followed by the mode's name for `startup`,
/// by `get` for `brightness get`, by `set` and the brightness in decimal
/// for `brightness set`, and by `check` for a plain `updates check`.
pub proof fn lemma_command_names_parse_back(c: Command)
    ensures
        match c {
            Command::Startup(mode) => parse_outcome(seq![c.name(), mode.name()]) == Ok::<
                ParseOutcomeView,
                ParseErrorView,
            >(ParseOutcomeView::Command(c)),
            Command::Brightness => parse_outcome(seq![c.name()]) == Ok::<
                ParseOutcomeView,
                ParseErrorView,
            >(ParseOutcomeView::Command(c)),
            Command::BrightnessGet => parse_outcome(seq![c.name(), "get"@]) == Ok::<
                ParseOutcomeView,
                ParseErrorView,
            >(ParseOutcomeView::Command(c)),
            Command::BrightnessSet(b) => b.percent() <= OLED_BRIGHTNESS_MAX ==> parse_outcome(
                seq![c.name(), "set"@, int_decimal(b.percent())],
            ) == Ok::<ParseOutcomeView, ParseErrorView>(ParseOutcomeView::Command(c)),
            Command::Updates(u) => u == (UpdatesCommand::Check { channel: None, notify: false })
                ==> parse_outcome(seq![c.name(), "check"@]) == Ok::<
                ParseOutcomeView,
                ParseErrorView,
            >(ParseOutcomeView::Command(c)),
            _ => parse_outcome(seq![c.name()]) == Ok::<ParseOutcomeView, ParseErrorView>(
                ParseOutcomeView::Command(c),
            ),
        },
{
    reveal_strlit("-h");
    reveal_strlit("--help");
    reveal_strlit("help");
    reveal_strlit("--version");
    reveal_strlit("startup");
    reveal_strlit("shutdown");
    reveal_strlit("sleep-pre");
    reveal_strlit("sleep");
    reveal_strlit("nm-pre-down");
    reveal_strlit("brightness");
    reveal_strlit("settings");
    reveal_strlit("updates");
    reveal_strlit("get");
    reveal_strlit("set");
    reveal_strlit("screen-off");
    reveal_strlit("screen-on");
    reveal_strlit("monitor");
    reveal_strlit("lifecycle");
    reveal_strlit("detect-backend");
    reveal_strlit("auto");
    reveal_strlit("boot");
    reveal_strlit("wake");
    let n = c.name();
    assert(!is_help_word(n) && n != "--version"@) by {
        assert(n[0] != '-');
        assert(n != "help"@) by {
            if n.len() == 4 {
                assert(n[0] != 'h');
            }
        }
    }
    match c {
        Command::Startup(mode) => {
            let args = seq![c.name(), mode.name()];
            assert(args[1] == mode.name());
            assert(startup_mode_named(mode.name()) == Some(mode)) by {
                assert("auto"@[0] != "boot"@[0]);
                assert("auto"@[0] != "wake"@[0]);
                assert("boot"@[0] != "wake"@[0]);
            }
        },
        Command::Brightness | Command::BrightnessGet => {
            assert("brightness"@.len() != "startup"@.len());
        },
        Command::BrightnessSet(b) => if b.percent() <= OLED_BRIGHTNESS_MAX {
            assert("brightness"@.len() != "startup"@.len());
            crate::tv::lemma_brightness_text_round_trip(b);
            crate::tv::lemma_oled_brightness_of(b, b.percent());
            let args = seq![c.name(), "set"@, int_decimal(b.percent())];
            assert(args[2] == int_decimal(b.percent()));
            assert("set"@ != "get"@) by {
                assert("set"@[0] != "get"@[0]);
            }
        },
        Command::Updates(u) => {
            reveal_strlit("check");
            let args = seq![c.name(), "check"@];
            assert(args.subrange(1, 2) =~= seq!["check"@]);
            assert(seq!["check"@].subrange(1, 1) =~= Seq::<Seq<char>>::empty());
            assert("updates"@[0] != "startup"@[0]);
            assert("updates"@.len() != "brightness"@.len());
            assert("updates"@ != "settings"@) by {
                assert("updates"@[0] != "settings"@[0]);
            }
        },
        _ => {
            assert(n != "startup"@) by {
                if n.len() == 7 {
                    assert(n[1] != 't');
                }
            }
            assert("shutdown"@.len() == 8);
            assert("sleep-pre"@.len() == 9);
            assert("sleep"@.len() == 5);
            assert("nm-pre-down"@.len() == 11);
            assert("brightness"@.len() == 10);
            assert("settings"@.len() == 8);
            assert("updates"@.len() == 7);
            assert("screen-off"@.len() == 10);
            assert("screen-on"@.len() == 9);
            assert("monitor"@.len() == 7);
            assert("lifecycle"@.len() == 9);
            assert("detect-backend"@.len() == 14);
            assert("sleep-pre"@[0] != "lifecycle"@[0]);
            assert("sleep-pre"@[1] != "screen-on"@[1]);
            assert("lifecycle"@[0] != "screen-on"@[0]);
            assert("screen-off"@[0] != "brightness"@[0]);
            assert("shutdown"@[1] != "settings"@[1]);
            assert("monitor"@[0] != "updates"@[0]);
            assert(n != "brightness"@ && n != "settings"@ && n != "updates"@);
            assert(command_named(n) == Some(c)) by {
                match c {
                    Command::Shutdown => {},
                    Command::SleepPre => {},
                    Command::Sleep => {},
                    Command::NmPreDown => {},
                    Command::ScreenOff => {},
                    Command::ScreenOn => {},
                    Command::Monitor => {},
                    Command::Lifecycle => {},
                    Command::DetectBackend => {},
                    _ => {},
                }
            }
        },
    }
}

} // verus!
