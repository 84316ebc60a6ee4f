//! Builds the download address of a release artifact.

use vstd::prelude::*;
use vstd::string::StringExecFns;
use crate::platform::{resolution, supported_pairs_resolve, PlatformDescriptor};

verus! {

/// The release host and the path segment that precedes the channel.
pub open spec fn release_host() -> Seq<char> {
    "https://github.com/"@
}

/// The address of the artifact `artifact` of `repository` on the release
/// channel `channel`, built for `descriptor`:
/// `https://github.com/<repository>/releases/download/<channel>/<artifact>-<arch>-<os>.tar.gz`.
pub open spec fn artifact_url(
    repository: Seq<char>,
    channel: Seq<char>,
    artifact: Seq<char>,
    descriptor: PlatformDescriptor,
) -> Seq<char> {
    release_host() + repository + "/releases/download/"@ + channel + "/"@ + artifact + "-"@
        + descriptor.arch.name() + "-"@ + descriptor.os.triple() + ".tar.gz"@
}

/// Where a release is published and what its artifacts are called.
pub struct ReleaseSource {
    /// The repository, as `<owner>/<project>`.
    pub repository: String,
    /// The release channel, such as `nightly` or `latest`.
    pub channel: String,
    /// The artifact's name without platform tokens.
    pub artifact: String,
}

impl ReleaseSource {
    /// The source of the version manager's own releases.
    pub fn self_update() -> (source: ReleaseSource)
        ensures
            source.repository@ == "AztecProtocol/sandbox-version-manager"@,
            source.channel@ == "nightly"@,
            source.artifact@ == "aztec-sandbox"@,
    {
        ReleaseSource {
            repository: String::from_str("AztecProtocol/sandbox-version-manager"),
            channel: String::from_str("nightly"),
            artifact: String::from_str("aztec-sandbox"),
        }
    }

    /// The address of this source's artifact for `descriptor`.
    pub open spec fn url_for(&self, descriptor: PlatformDescriptor) -> Seq<char> {
        artifact_url(self.repository@, self.channel@, self.artifact@, descriptor)
    }

    /// Builds the address of this source's artifact for `descriptor`.
    pub fn locate(&self, descriptor: &PlatformDescriptor) -> (url: String)
        ensures
            url@ == self.url_for(*descriptor),
    {
        locate(self.repository.as_str(), self.channel.as_str(), self.artifact.as_str(), descriptor)
    }
}

/// Builds the address of an artifact. Nothing is checked against the
/// network: the same arguments always give the same address.
pub fn locate(
    repository: &str,
    channel_tag: &str,
    artifact_name: &str,
    descriptor: &PlatformDescriptor,
) -> (url: String)
    ensures
        url@ == artifact_url(repository@, channel_tag@, artifact_name@, *descriptor),
{
    let mut url = String::from_str("https://github.com/");
    url.append(repository);
    url.append("/releases/download/");
    url.append(channel_tag);
    url.append("/");
    url.append(artifact_name);
    url.append("-");
    url.append(descriptor.arch.name_token());
    url.append("-");
    url.append(descriptor.os.triple_token());
    url.append(".tar.gz");
    url
}

/// For each supported host the address follows the fixed template, with
/// the canonical tokens in it: `arm64` appears as `aarch64`.
pub proof fn supported_hosts_locate(
    os_name: Seq<char>,
    arch_name: Seq<char>,
    repository: Seq<char>,
    channel: Seq<char>,
    artifact: Seq<char>,
)
    requires
        os_name == "Darwin"@ || os_name == "Linux"@,
        arch_name == "x86_64"@ || arch_name == "arm64"@ || arch_name == "aarch64"@,
    ensures
        resolution(os_name, arch_name) is Ok,
        artifact_url(repository, channel, artifact, resolution(os_name, arch_name)->Ok_0)
            == "https://github.com/"@ + repository + "/releases/download/"@ + channel + "/"@
            + artifact + "-"@ + (if arch_name == "x86_64"@ {
            "x86_64"@
        } else {
            "aarch64"@
        }) + "-"@ + (if os_name == "Darwin"@ {
            "apple-darwin"@
        } else {
            "unknown-linux-gnu"@
        }) + ".tar.gz"@,
{
    supported_pairs_resolve(os_name, arch_name);
}

} // verus!
