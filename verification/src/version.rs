//! The version of this build of LG Buddy and the channel it was released on.

use vstd::prelude::*;
use vstd::string::StringExecFns;

verus! {

/// The channel a build was released on.
#[derive(Debug, Clone, Copy, PartialEq, Eq, Structural)]
pub enum ReleaseChannel {
    Dev,
    Stable,
    Prerelease,
}

impl ReleaseChannel {
    pub open spec fn name(self) -> Seq<char> {
        match self {
            ReleaseChannel::Dev => "dev"@,
            ReleaseChannel::Stable => "stable"@,
            ReleaseChannel::Prerelease => "prerelease"@,
        }
    }

    pub fn as_str(self) -> (r: &'static str)
        ensures
            r@ == self.name(),
    {
        match self {
            ReleaseChannel::Dev => "dev",
            ReleaseChannel::Stable => "stable",
            ReleaseChannel::Prerelease => "prerelease",
        }
    }
}

/// The version of a build, its channel and the commit it was built from.
#[derive(Debug, Clone, Copy, PartialEq, Eq)]
pub struct VersionInfo {
    version: &'static str,
    channel: ReleaseChannel,
    commit: Option<&'static str>,
}

impl VersionInfo {
    pub closed spec fn version_view(self) -> Seq<char> {
        self.version@
    }

    pub closed spec fn channel_view(self) -> ReleaseChannel {
        self.channel
    }

    /// The version information of a build with the given version, channel
    /// and commit.
    pub fn new(
        version: &'static str,
        channel: ReleaseChannel,
        commit: Option<&'static str>,
    ) -> (r: VersionInfo)
        ensures
            r.version_view() == version@,
            r.channel_view() == channel,
            r.commit_view() == commit,
    {
        VersionInfo { version, channel, commit }
    }

    /// The same as `new`, for tests that pretend to be another build.
    pub fn for_testing(
        version: &'static str,
        channel: ReleaseChannel,
        commit: Option<&'static str>,
    ) -> (r: VersionInfo)
        ensures
            r.version_view() == version@,
            r.channel_view() == channel,
            r.commit_view() == commit,
    {
        VersionInfo::new(version, channel, commit)
    }

    pub fn version(self) -> (r: &'static str)
        ensures
            r@ == self.version_view(),
    {
        self.version
    }

    pub fn channel(self) -> (r: ReleaseChannel)
        ensures
            r == self.channel_view(),
    {
        self.channel
    }

    pub closed spec fn commit_view(self) -> Option<&'static str> {
        self.commit
    }

    pub fn commit(self) -> (r: Option<&'static str>)
        ensures
            r == self.commit_view(),
    {
        self.commit
    }

    /// What `--version` prints: the version, the release channel, and the
    /// commit when the build records one, each on a line of its own.
    pub open spec fn report(self) -> Seq<char> {
        "lg-buddy "@ + self.version_view() + "\nchannel: "@ + self.channel_view().name() + (
        match self.commit_view() {
            Some(c) => "\ncommit: "@ + c@,
            None => Seq::empty(),
        }) + "\n"@
    }

    pub fn version_text(self) -> (r: String)
        ensures
            r@ == self.report(),
    {
        let mut r = String::from_str("lg-buddy ");
        r.append(self.version);
        r.append("\nchannel: ");
        r.append(self.channel.as_str());
        match self.commit {
            Some(c) => {
                r.append("\ncommit: ");
                r.append(c);
            },
            None => {
                assert(r@ + Seq::<char>::empty() =~= r@);
            },
        }
        r.append("\n");
        r
    }
}

} // verus!
