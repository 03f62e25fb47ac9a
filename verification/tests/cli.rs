use lg_buddy::tv::OledBrightness;
use lg_buddy::updates::{UpdateChannel, UpdatesCommand, UpdatesParseError};
use lg_buddy::{parse_args, usage, Command, ParseError, ParseOutcome, SettingsCommand, StartupMode};

#[test]
fn no_args_prints_help() {
    assert_eq!(parse_args(&[]), Ok(ParseOutcome::Help));
}

#[test]
fn explicit_help_prints_help() {
    assert_eq!(parse_args(&["--help"]), Ok(ParseOutcome::Help));
    assert_eq!(parse_args(&["-h"]), Ok(ParseOutcome::Help));
    assert_eq!(parse_args(&["help"]), Ok(ParseOutcome::Help));
}

#[test]
fn supported_commands_parse() {
    assert_eq!(
        parse_args(&["startup"]),
        Ok(ParseOutcome::Command(Command::Startup(StartupMode::Auto)))
    );
    assert_eq!(
        parse_args(&["startup", "boot"]),
        Ok(ParseOutcome::Command(Command::Startup(StartupMode::Boot)))
    );
    assert_eq!(
        parse_args(&["startup", "wake"]),
        Ok(ParseOutcome::Command(Command::Startup(StartupMode::Wake)))
    );
    assert_eq!(
        parse_args(&["shutdown"]),
        Ok(ParseOutcome::Command(Command::Shutdown))
    );
    assert_eq!(
        parse_args(&["sleep-pre"]),
        Ok(ParseOutcome::Command(Command::SleepPre))
    );
    assert_eq!(
        parse_args(&["sleep"]),
        Ok(ParseOutcome::Command(Command::Sleep))
    );
    assert_eq!(
        parse_args(&["brightness"]),
        Ok(ParseOutcome::Command(Command::Brightness))
    );
    assert_eq!(
        parse_args(&["screen-off"]),
        Ok(ParseOutcome::Command(Command::ScreenOff))
    );
    assert_eq!(
        parse_args(&["screen-on"]),
        Ok(ParseOutcome::Command(Command::ScreenOn))
    );
    assert_eq!(
        parse_args(&["monitor"]),
        Ok(ParseOutcome::Command(Command::Monitor))
    );
    assert_eq!(
        parse_args(&["lifecycle"]),
        Ok(ParseOutcome::Command(Command::Lifecycle))
    );
    assert_eq!(
        parse_args(&["detect-backend"]),
        Ok(ParseOutcome::Command(Command::DetectBackend))
    );
}

#[test]
fn unknown_command_is_rejected() {
    assert_eq!(
        parse_args(&["launch"]),
        Err(ParseError::UnknownCommand("launch".to_string()))
    );
}

#[test]
fn extra_arguments_are_rejected() {
    assert_eq!(
        parse_args(&["startup", "boot", "extra"]),
        Err(ParseError::UnexpectedArguments {
            command: Command::Startup(StartupMode::Boot),
            arguments: vec!["extra".to_string()],
        })
    );
}

#[test]
fn invalid_startup_mode_is_rejected() {
    assert_eq!(
        parse_args(&["startup", "resume"]),
        Err(ParseError::UnknownStartupMode("resume".to_string()))
    );
}

#[test]
fn usage_mentions_all_commands() {
    let help = usage("lg-buddy");

    for command in [
        "startup",
        "shutdown",
        "sleep-pre",
        "sleep",
        "brightness",
        "screen-off",
        "screen-on",
        "monitor",
        "lifecycle",
        "detect-backend",
    ] {
        assert!(
            help.contains(command),
            "missing `{command}` from help output"
        );
    }
}

#[test]
fn usage_mentions_startup_modes() {
    let help = usage("lg-buddy");

    for mode in ["auto", "boot", "wake"] {
        assert!(help.contains(mode), "missing startup mode `{mode}`");
    }
}

// ---- further cases ----

#[test]
fn command_names_parse_back_to_their_commands() {
    for command in [
        Command::Shutdown,
        Command::SleepPre,
        Command::NmPreDown,
        Command::Sleep,
        Command::Brightness,
        Command::ScreenOff,
        Command::ScreenOn,
        Command::Monitor,
        Command::Lifecycle,
        Command::DetectBackend,
    ] {
        assert_eq!(
            parse_args(&[command.as_str()]),
            Ok(ParseOutcome::Command(command))
        );
    }
    for mode in [StartupMode::Auto, StartupMode::Boot, StartupMode::Wake] {
        let command = Command::Startup(mode);
        assert_eq!(
            parse_args(&[command.as_str(), mode.as_str()]),
            Ok(ParseOutcome::Command(command))
        );
    }
}

#[test]
fn extra_arguments_after_plain_commands_are_rejected() {
    let err = parse_args(&["monitor", "now", "please"]).unwrap_err();
    assert_eq!(
        err,
        ParseError::UnexpectedArguments {
            command: Command::Monitor,
            arguments: vec!["now".to_string(), "please".to_string()],
        }
    );
    assert_eq!(
        err.message(),
        "unexpected arguments for `monitor`: now please"
    );
}

#[test]
fn help_words_win_over_later_arguments() {
    assert_eq!(parse_args(&["help", "startup"]), Ok(ParseOutcome::Help));
}

#[test]
fn error_messages_read_as_before() {
    assert_eq!(
        ParseError::UnknownCommand("launch".to_string()).message(),
        "unknown command `launch`"
    );
    assert_eq!(
        ParseError::UnknownStartupMode("resume".to_string()).message(),
        "unknown startup mode `resume`"
    );
}

#[test]
fn usage_names_the_program() {
    let help = usage("my-tv");
    assert!(help.starts_with("LG Buddy Rust runtime\n\nUsage:\n  my-tv <command>\n  my-tv --help\n"));
    assert!(help.ends_with("wake            Only restore when LG Buddy owns the system marker\n"));
}

#[test]
fn placeholder_messages_and_names() {
    assert_eq!(
        Command::DetectBackend.placeholder_message(),
        "TODO: implement detect-backend command"
    );
    assert_eq!(
        Command::Sleep.placeholder_message(),
        "TODO: implemented via command handler"
    );
    assert_eq!(Command::Startup(StartupMode::Wake).as_str(), "startup");
    assert_eq!(StartupMode::parse("boot"), Some(StartupMode::Boot));
    assert_eq!(StartupMode::parse("resume"), None);
}

#[test]
fn documented_commands_parse() {
    assert_eq!(parse_args(&["--version"]), Ok(ParseOutcome::Version));
    assert_eq!(parse_args(&["nm-pre-down"]), Ok(ParseOutcome::Command(Command::NmPreDown)));
    assert_eq!(parse_args(&["brightness", "get"]), Ok(ParseOutcome::Command(Command::BrightnessGet)));
    assert_eq!(
        parse_args(&["brightness", "set", "65"]),
        Ok(ParseOutcome::Command(Command::BrightnessSet(OledBrightness::parse("65").unwrap())))
    );
    assert_eq!(parse_args(&["settings", "list"]), Ok(ParseOutcome::Settings(SettingsCommand::List)));
    assert_eq!(
        parse_args(&["settings", "describe", "screen.restore_policy"]),
        Ok(ParseOutcome::Settings(SettingsCommand::Describe {
            key: "screen.restore_policy".to_string()
        }))
    );
    assert_eq!(
        parse_args(&["settings", "get", "screen.idle_timeout"]),
        Ok(ParseOutcome::Settings(SettingsCommand::Get { key: "screen.idle_timeout".to_string() }))
    );
    assert_eq!(
        parse_args(&["settings", "set", "screen.idle_timeout", "600"]),
        Ok(ParseOutcome::Settings(SettingsCommand::SetValue {
            key: "screen.idle_timeout".to_string(),
            value: "600".to_string()
        }))
    );
    assert_eq!(
        parse_args(&["settings", "unset", "screen.restore_policy"]),
        Ok(ParseOutcome::Settings(SettingsCommand::Unset {
            key: "screen.restore_policy".to_string()
        }))
    );
    assert_eq!(
        parse_args(&["updates", "check"]),
        Ok(ParseOutcome::Command(Command::Updates(UpdatesCommand::Check {
            channel: None,
            notify: false
        })))
    );
    assert_eq!(
        parse_args(&["updates", "check", "--notify"]),
        Ok(ParseOutcome::Command(Command::Updates(UpdatesCommand::Check {
            channel: None,
            notify: true
        })))
    );
    assert_eq!(
        parse_args(&["updates", "check", "--channel", "prerelease", "--notify"]),
        Ok(ParseOutcome::Command(Command::Updates(UpdatesCommand::Check {
            channel: Some(UpdateChannel::Prerelease),
            notify: true
        })))
    );
}

#[test]
fn malformed_documented_commands_are_rejected() {
    let err = parse_args(&["brightness", "set", "101"]).unwrap_err();
    assert_eq!(err, ParseError::InvalidBrightness("101".to_string()));
    assert_eq!(err.message(), "invalid OLED brightness `101`; expected an integer from 0 to 100");
    assert_eq!(parse_args(&["brightness", "set"]), Err(ParseError::MissingBrightnessValue));
    let err = parse_args(&["brightness", "up"]).unwrap_err();
    assert_eq!(err.message(), "unknown brightness command `up`; expected get or set");
    let err = parse_args(&["brightness", "get", "now"]).unwrap_err();
    assert_eq!(err.message(), "unexpected arguments for `brightness`: now");
    assert_eq!(parse_args(&["settings"]), Err(ParseError::MissingSettingsCommand));
    let err = parse_args(&["settings", "show"]).unwrap_err();
    assert_eq!(err.message(), "unknown settings command `show`");
    let err = parse_args(&["settings", "set", "screen.backend"]).unwrap_err();
    assert_eq!(err.message(), "missing arguments for `settings set`");
    let err = parse_args(&["settings", "list", "all", "now"]).unwrap_err();
    assert_eq!(err.message(), "unexpected arguments for `settings list`: all now");
    let err = parse_args(&["updates"]).unwrap_err();
    assert_eq!(err, ParseError::Updates(UpdatesParseError::MissingSubcommand));
    let err = parse_args(&["updates", "check", "--notify", "--notify"]).unwrap_err();
    assert_eq!(err.message(), "duplicate `--notify` option");
    let err = parse_args(&["nm-pre-down", "eth0"]).unwrap_err();
    assert_eq!(err.message(), "unexpected arguments for `nm-pre-down`: eth0");
}
