use lg_buddy::updates::{
    finish_update_check, parse_release_version, plan_update_check, release_info_from_api_release,
    select_latest_release, wants_notification, FetchedReleases, GitHubRelease, ReleaseEndpoint, SemVersion,
    UpdateChannel, UpdateCheckResult, UpdatesCommand, UpdatesError, UpdatesParseError,
    GITHUB_RELEASES_API_BASE,
};
use lg_buddy::version::{ReleaseChannel, VersionInfo};

const TEST_BASE: &str = "https://api.example.test/releases";

fn version_info(version: &'static str, channel: ReleaseChannel) -> VersionInfo {
    VersionInfo::for_testing(version, channel, Some("test"))
}

fn release(tag: &str, draft: bool, prerelease: bool) -> GitHubRelease {
    GitHubRelease {
        tag_name: tag.to_string(),
        html_url: format!("https://github.test/releases/tag/{tag}"),
        draft,
        prerelease,
    }
}

fn stable_release(tag: &str) -> GitHubRelease {
    release(tag, false, false)
}

fn prerelease(tag: &str) -> GitHubRelease {
    release(tag, false, true)
}

fn draft_prerelease(tag: &str) -> GitHubRelease {
    release(tag, true, true)
}

/// Runs a check whose API answers `answer`; gives the result and the
/// request (URL under the test base, user agent) the check made, if any.
fn check(
    command: UpdatesCommand,
    current: VersionInfo,
    answer: Result<FetchedReleases, UpdatesError>,
) -> (Result<UpdateCheckResult, UpdatesError>, Vec<(String, String)>) {
    let plan = match plan_update_check(command, current) {
        Ok(plan) => plan,
        Err(e) => return (Err(e), Vec::new()),
    };
    let request = (plan.endpoint.url(TEST_BASE), plan.user_agent.clone());
    (finish_update_check(plan, answer), vec![request])
}

#[test]
fn updates_check_uses_stable_channel_for_stable_builds_by_default() {
    let (result, requests) = check(
        UpdatesCommand::Check { channel: None, notify: false },
        version_info("1.1.0", ReleaseChannel::Stable),
        Ok(FetchedReleases::Latest(stable_release("v1.1.1"))),
    );
    let result = result.expect("stable update check should succeed");

    assert!(result.update_available());
    assert_eq!(
        result.render(),
        "status: update available\ncurrent: 1.1.0 (stable)\nlatest: 1.1.1 (stable)\nurl: https://github.test/releases/tag/v1.1.1\n"
    );
    assert_eq!(
        requests,
        vec![(
            "https://api.example.test/releases/latest".to_string(),
            "lg-buddy/1.1.0".to_string()
        )]
    );
}

#[test]
fn updates_check_uses_prerelease_channel_for_prerelease_builds_by_default() {
    let (result, requests) = check(
        UpdatesCommand::Check { channel: None, notify: false },
        version_info("1.1.0-beta.1", ReleaseChannel::Prerelease),
        Ok(FetchedReleases::List(vec![
            stable_release("v1.1.0"),
            prerelease("v1.2.0-beta.1"),
        ])),
    );
    let result = result.expect("prerelease update check should succeed");

    assert!(result.update_available());
    assert_eq!(result.latest().channel(), UpdateChannel::Prerelease);
    assert_eq!(
        requests,
        vec![(
            "https://api.example.test/releases?per_page=20".to_string(),
            "lg-buddy/1.1.0-beta.1".to_string()
        )]
    );
}

#[test]
fn updates_check_uses_stable_channel_for_dev_builds_by_default() {
    let (result, _) = check(
        UpdatesCommand::Check { channel: None, notify: false },
        version_info("1.1.0", ReleaseChannel::Dev),
        Ok(FetchedReleases::Latest(stable_release("v1.1.0"))),
    );
    let result = result.expect("dev update check should succeed");

    assert!(!result.update_available());
    assert_eq!(
        result.render(),
        "status: up to date\ncurrent: 1.1.0 (dev)\nlatest: 1.1.0 (stable)\nurl: https://github.test/releases/tag/v1.1.0\n"
    );
}

#[test]
fn explicit_stable_channel_reports_up_to_date_for_equal_or_older_versions() {
    for tag in ["v1.1.0", "v1.0.9"] {
        let (result, _) = check(
            UpdatesCommand::Check {
                channel: Some(UpdateChannel::Stable),
                notify: false,
            },
            version_info("1.1.0", ReleaseChannel::Stable),
            Ok(FetchedReleases::Latest(stable_release(tag))),
        );
        let result = result.expect("stable update check should succeed");

        assert!(!result.update_available(), "{tag} should not be newer");
    }
}

#[test]
fn stable_channel_uses_github_latest_endpoint_for_stable_only_ordering() {
    let (result, requests) = check(
        UpdatesCommand::Check {
            channel: Some(UpdateChannel::Stable),
            notify: false,
        },
        version_info("1.1.0", ReleaseChannel::Stable),
        Ok(FetchedReleases::Latest(stable_release("v1.2.0"))),
    );
    let result = result.expect("stable update check should succeed");

    assert!(result.update_available());
    assert_eq!(result.latest().version().to_text(), "1.2.0");
    assert_eq!(result.latest().channel(), UpdateChannel::Stable);
    assert_eq!(
        requests,
        vec![(
            "https://api.example.test/releases/latest".to_string(),
            "lg-buddy/1.1.0".to_string()
        )]
    );
}

#[test]
fn prerelease_channel_includes_stable_releases_and_picks_highest_semver() {
    let (result, _) = check(
        UpdatesCommand::Check {
            channel: Some(UpdateChannel::Prerelease),
            notify: false,
        },
        version_info("1.2.0-beta.1", ReleaseChannel::Prerelease),
        Ok(FetchedReleases::List(vec![
            draft_prerelease("v1.3.0-beta.1"),
            stable_release("v1.2.0"),
            prerelease("release-0.6"),
            prerelease("v1.2.0-beta.2"),
        ])),
    );
    let result = result.expect("prerelease update check should succeed");

    assert!(result.update_available());
    assert_eq!(
        result.render(),
        "status: update available\ncurrent: 1.2.0-beta.1 (prerelease)\nlatest: 1.2.0 (stable)\nurl: https://github.test/releases/tag/v1.2.0\n"
    );
}

#[test]
fn prerelease_channel_uses_semver_ordering_across_release_stages() {
    let (result, _) = check(
        UpdatesCommand::Check {
            channel: Some(UpdateChannel::Prerelease),
            notify: false,
        },
        version_info("1.2.0-beta.1", ReleaseChannel::Prerelease),
        Ok(FetchedReleases::List(vec![
            stable_release("v1.2.0"),
            prerelease("v1.2.0-rc.1"),
            prerelease("v1.3.0-alpha.1"),
            prerelease("v1.2.0-beta.1"),
            prerelease("v1.2.0-alpha.1"),
        ])),
    );
    let result = result.expect("prerelease update check should succeed");

    assert!(result.update_available());
    assert_eq!(result.latest().version().to_text(), "1.3.0-alpha.1");
    assert_eq!(result.latest().channel(), UpdateChannel::Prerelease);
    assert_eq!(
        result.latest().url(),
        "https://github.test/releases/tag/v1.3.0-alpha.1"
    );
}

#[test]
fn stable_channel_rejects_prerelease_response() {
    let (result, _) = check(
        UpdatesCommand::Check {
            channel: Some(UpdateChannel::Stable),
            notify: false,
        },
        version_info("1.1.0", ReleaseChannel::Stable),
        Ok(FetchedReleases::Latest(prerelease("v1.1.1-beta.1"))),
    );
    let err = result.expect_err("prerelease latest response should fail stable check");

    assert!(matches!(
        err,
        UpdatesError::NoMatchingRelease {
            channel: UpdateChannel::Stable
        }
    ));
}

#[test]
fn api_errors_are_reported() {
    let (result, _) = check(
        UpdatesCommand::Check {
            channel: Some(UpdateChannel::Stable),
            notify: false,
        },
        version_info("1.1.0", ReleaseChannel::Stable),
        Err(UpdatesError::ApiStatus {
            url: "https://api.example.test/releases/latest".to_string(),
            status: 500,
            body: "server error".to_string(),
        }),
    );
    let err = result.expect_err("HTTP status should fail update check");

    assert_eq!(
        err.message(),
        "GitHub releases API `https://api.example.test/releases/latest` returned HTTP status 500: server error"
    );
}

#[test]
fn missing_release_candidate_for_prerelease_channel_is_reported() {
    let (result, _) = check(
        UpdatesCommand::Check {
            channel: Some(UpdateChannel::Prerelease),
            notify: false,
        },
        version_info("1.1.0-beta.1", ReleaseChannel::Prerelease),
        Ok(FetchedReleases::List(vec![
            prerelease("release-0.6"),
            draft_prerelease("v1.2.0-beta.1"),
        ])),
    );
    let err = result.expect_err("missing prerelease candidate should fail update check");

    assert!(matches!(
        err,
        UpdatesError::NoMatchingRelease {
            channel: UpdateChannel::Prerelease
        }
    ));
}

#[test]
fn invalid_local_version_is_reported() {
    let (result, requests) = check(
        UpdatesCommand::Check {
            channel: Some(UpdateChannel::Stable),
            notify: false,
        },
        version_info("not-semver", ReleaseChannel::Dev),
        Ok(FetchedReleases::List(Vec::new())),
    );
    let err = result.expect_err("invalid local version should fail update check");

    assert!(matches!(err, UpdatesError::InvalidLocalVersion { .. }));
    if let UpdatesError::InvalidLocalVersion { version, source } = &err {
        assert_eq!(version, "not-semver");
        assert_eq!(source, &semver::Version::parse("not-semver").unwrap_err().to_string());
    }
    assert!(err
        .message()
        .starts_with("invalid local LG Buddy version `not-semver`: "));
    assert!(requests.is_empty());
}

#[test]
fn release_version_parser_accepts_leading_v_and_rejects_legacy_tags() {
    assert_eq!(
        parse_release_version("v1.1.0")
            .expect("leading-v version should parse")
            .to_text(),
        "1.1.0"
    );
    assert!(parse_release_version("release-0.6").is_none());
}

#[test]
fn update_command_parsing() {
    assert_eq!(
        UpdatesCommand::parse(&["check"]),
        Ok(UpdatesCommand::Check { channel: None, notify: false })
    );
    assert_eq!(
        UpdatesCommand::parse(&["check", "--channel", "prerelease"]),
        Ok(UpdatesCommand::Check {
            channel: Some(UpdateChannel::Prerelease),
            notify: false,
        })
    );
    assert_eq!(
        UpdatesCommand::parse(&["check", "--notify"]),
        Ok(UpdatesCommand::Check { channel: None, notify: true })
    );
    assert_eq!(
        UpdatesCommand::parse(&["check", "--channel", "stable", "--notify"]),
        Ok(UpdatesCommand::Check { channel: Some(UpdateChannel::Stable), notify: true })
    );
    assert_eq!(
        UpdatesCommand::parse(&["check", "--notify", "--channel", "stable"]),
        Ok(UpdatesCommand::Check { channel: Some(UpdateChannel::Stable), notify: true })
    );
    assert_eq!(
        UpdatesCommand::parse(&["check", "--notify", "--notify"]),
        Err(UpdatesParseError::DuplicateNotify)
    );
    assert_eq!(UpdatesCommand::parse(&[]), Err(UpdatesParseError::MissingSubcommand));
    assert_eq!(
        UpdatesCommand::parse(&["install"]),
        Err(UpdatesParseError::UnknownSubcommand("install".to_string()))
    );
    assert_eq!(
        UpdatesCommand::parse(&["check", "--channel"]),
        Err(UpdatesParseError::MissingChannelValue)
    );
    assert_eq!(
        UpdatesCommand::parse(&["check", "--channel", "stable", "--channel", "stable"]),
        Err(UpdatesParseError::DuplicateChannel)
    );
    assert_eq!(
        UpdatesCommand::parse(&["check", "--channel", "nightly"]),
        Err(UpdatesParseError::UnknownChannel("nightly".to_string()))
    );
    assert_eq!(
        UpdatesCommand::parse(&["check", "--channel", "stable", "now", "please"]),
        Err(UpdatesParseError::UnexpectedArguments {
            subcommand: "check",
            arguments: vec!["now".to_string(), "please".to_string()]
        })
    );
    assert_eq!(UpdatesCommand::Check { channel: None, notify: false }.as_str(), "check");
}

#[test]
fn update_parse_error_messages() {
    assert_eq!(
        UpdatesParseError::MissingSubcommand.message(),
        "missing updates command; expected `updates check [--channel stable|prerelease]`"
    );
    assert_eq!(
        UpdatesParseError::UnknownChannel("nightly".to_string()).message(),
        "unknown updates channel `nightly`; expected stable or prerelease"
    );
    assert_eq!(
        UpdatesParseError::UnexpectedArguments {
            subcommand: "check",
            arguments: vec!["a".to_string(), "b".to_string()]
        }
        .message(),
        "unexpected arguments for `updates check`: a b"
    );
    assert_eq!(
        UpdatesParseError::DuplicateChannel.message(),
        "duplicate `--channel` option"
    );
}

#[test]
fn update_error_messages() {
    assert_eq!(
        UpdatesError::ApiStatus {
            url: "u".to_string(),
            status: 404,
            body: "  \n".to_string()
        }
        .message(),
        "GitHub releases API `u` returned HTTP status 404"
    );
    assert_eq!(
        UpdatesError::Http {
            url: "u".to_string(),
            message: "dns".to_string()
        }
        .message(),
        "could not query GitHub releases API `u`: dns"
    );
    assert_eq!(
        UpdatesError::ApiShape {
            endpoint: "latest",
            source: "EOF".to_string()
        }
        .message(),
        "could not parse GitHub releases API `latest` response: EOF"
    );
    assert_eq!(
        UpdatesError::NoMatchingRelease {
            channel: UpdateChannel::Prerelease
        }
        .message(),
        "GitHub releases API returned no matching release for prerelease channel"
    );
}

#[test]
fn endpoints_and_release_filtering() {
    assert_eq!(
        ReleaseEndpoint::LatestStable.url(GITHUB_RELEASES_API_BASE),
        "https://api.github.com/repos/Staphylococcus/LG_Buddy/releases/latest"
    );
    assert_eq!(ReleaseEndpoint::ReleasesList { per_page: 20 }.label(), "releases");
    assert!(release_info_from_api_release(draft_prerelease("v2.0.0"), UpdateChannel::Prerelease)
        .is_none());
    assert!(release_info_from_api_release(prerelease("v2.0.0-rc.1"), UpdateChannel::Stable)
        .is_none());
    let info = release_info_from_api_release(stable_release("2.0.0"), UpdateChannel::Prerelease)
        .unwrap();
    assert_eq!(info.channel(), UpdateChannel::Stable);
    assert!(select_latest_release(Vec::new(), UpdateChannel::Prerelease).is_none());
    let equal = select_latest_release(
        vec![stable_release("v1.0.0"), stable_release("1.0.0")],
        UpdateChannel::Stable,
    )
    .unwrap();
    assert_eq!(equal.url(), "https://github.test/releases/tag/1.0.0");
    assert_eq!(SemVersion::parse("1.2.3-rc.1+b5").unwrap().to_text(), "1.2.3-rc.1+b5");
    assert!(SemVersion::parse("01.2.3").is_none());
}

#[test]
fn notify_asks_for_a_notification_only_when_an_update_is_found() {
    let notify = UpdatesCommand::Check { channel: None, notify: true };
    let quiet = UpdatesCommand::Check { channel: None, notify: false };
    let (newer, _) = check(
        notify,
        version_info("1.1.0", ReleaseChannel::Stable),
        Ok(FetchedReleases::Latest(stable_release("v1.2.0"))),
    );
    let newer = newer.expect("check should succeed");
    assert!(wants_notification(notify, &newer));
    assert!(!wants_notification(quiet, &newer));
    assert_eq!(newer.current_version().to_text(), "1.1.0");
    assert_eq!(newer.current_channel(), ReleaseChannel::Stable);
    let (same, _) = check(
        notify,
        version_info("1.2.0", ReleaseChannel::Stable),
        Ok(FetchedReleases::Latest(stable_release("v1.2.0"))),
    );
    assert!(!wants_notification(notify, &same.expect("check should succeed")));
}

#[test]
fn version_report_lists_version_channel_and_commit() {
    assert_eq!(
        VersionInfo::for_testing("1.2.3", ReleaseChannel::Stable, Some("abc123")).version_text(),
        "lg-buddy 1.2.3\nchannel: stable\ncommit: abc123\n"
    );
    assert_eq!(
        VersionInfo::for_testing("0.1.0", ReleaseChannel::Dev, None).version_text(),
        "lg-buddy 0.1.0\nchannel: dev\n"
    );
}

#[test]
fn prerelease_versions_order_below_their_release() {
    let (result, _) = check(
        UpdatesCommand::Check { channel: Some(UpdateChannel::Prerelease), notify: false },
        version_info("1.2.0-rc.1", ReleaseChannel::Prerelease),
        Ok(FetchedReleases::List(vec![stable_release("v1.2.0")])),
    );
    assert!(result.expect("check should succeed").update_available());
}
