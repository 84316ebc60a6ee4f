//! Self-update: where the release archive is fetched from, where it is
//! unpacked and installed, and in which order the steps are taken.

use vstd::prelude::*;
use crate::failure::Failure;
use crate::layout::{
    binary_dir, binary_directory, binary_file, binary_path, staged_binary_file,
    staged_binary_path, staging_dir, staging_directory,
};
use crate::locator::{artifact_url, ReleaseSource};
use crate::platform::{resolution, resolve_host, PlatformDescriptor};
use crate::text::trim_of;

verus! {

/// The address of the version manager's own release for a platform.
pub open spec fn self_update_url(descriptor: PlatformDescriptor) -> Seq<char> {
    artifact_url(
        "AztecProtocol/sandbox-version-manager"@,
        "nightly"@,
        "aztec-sandbox"@,
        descriptor,
    )
}

/// The address of the release archive for the host, given what the host
/// printed when asked for its operating system and its architecture. On an
/// unsupported host the failure of the resolution is returned and no
/// address is built.
pub fn get_tar_url(os_name: &str, arch_name: &str) -> (outcome: Result<String, Failure>)
    ensures
        match resolution(trim_of(os_name@), trim_of(arch_name@)) {
            Ok(descriptor) => outcome is Ok && outcome->Ok_0@ == self_update_url(descriptor),
            Err(failure) => outcome == Err::<String, Failure>(failure),
        },
{
    match resolve_host(os_name, arch_name) {
        Ok(descriptor) => Ok(ReleaseSource::self_update().locate(&descriptor)),
        Err(failure) => Err(failure),
    }
}

/// Everything an update needs to know before it starts.
#[derive(Clone, Debug, PartialEq, Eq)]
pub struct UpdatePlan {
    /// The address to fetch the archive from.
    pub url: String,
    /// The fresh directory into which the archive is unpacked.
    pub staging_dir: String,
    /// The executable inside the staging directory.
    pub staged_binary: String,
    /// The directory that the staging directory replaces.
    pub binary_dir: String,
    /// The installed executable.
    pub binary_path: String,
}

impl UpdatePlan {
    /// Whether this is the plan for `descriptor` under `root`.
    pub open spec fn is_for(&self, descriptor: PlatformDescriptor, root: Seq<char>) -> bool {
        &&& self.url@ == self_update_url(descriptor)
        &&& self.staging_dir@ == staging_directory(root)
        &&& self.staged_binary@ == staged_binary_file(root)
        &&& self.binary_dir@ == binary_directory(root)
        &&& self.binary_path@ == binary_file(root)
    }
}

/// Plans an update of the executable under `root` for the host. On an
/// unsupported host the update is not attempted.
pub fn update(os_name: &str, arch_name: &str, root: &str) -> (outcome: Result<UpdatePlan, Failure>)
    ensures
        match resolution(trim_of(os_name@), trim_of(arch_name@)) {
            Ok(descriptor) => outcome is Ok && outcome->Ok_0.is_for(descriptor, root@),
            Err(failure) => outcome == Err::<UpdatePlan, Failure>(failure),
        },
{
    match get_tar_url(os_name, arch_name) {
        Ok(url) => Ok(
            UpdatePlan {
                url,
                staging_dir: staging_dir(root),
                staged_binary: staged_binary_path(root),
                binary_dir: binary_dir(root),
                binary_path: binary_path(root),
            },
        ),
        Err(failure) => Err(failure),
    }
}

/// What `flate2::read::GzDecoder` reads out of `data` when it is read to
/// the end: the decoded bytes of the first gzip member, or `None` where the
/// decoder reports an error.
pub uninterp spec fn gunzip(data: Seq<u8>) -> Option<Seq<u8>>;

/// Reads a `flate2::read::GzDecoder` over `data` to the end. The decoder
/// works on the bytes alone, so its result is `gunzip` of them; an error of
/// the decoder becomes `None`.
#[verifier::external_body]
fn inflate(data: &[u8]) -> (decoded: Option<Vec<u8>>)
    ensures
        match gunzip(data@) {
            Some(bytes) => decoded is Some && decoded->Some_0@ == bytes,
            None => decoded is None,
        },
{
    let mut decoded = Vec::new();
    let mut decoder = flate2::read::GzDecoder::new(data);
    match std::io::Read::read_to_end(&mut decoder, &mut decoded) {
        Ok(_) => Some(decoded),
        Err(_) => None,
    }
}

/// What decoding came to: the archive's bytes, or `ArchiveError` where the
/// fetched bytes could not be decoded.
pub fn decoded_archive(decoded: Option<Vec<u8>>) -> (outcome: Result<Vec<u8>, Failure>)
    ensures
        match decoded {
            Some(bytes) => outcome == Ok::<Vec<u8>, Failure>(bytes),
            None => outcome == Err::<Vec<u8>, Failure>(Failure::ArchiveError),
        },
{
    match decoded {
        Some(bytes) => Ok(bytes),
        None => Err(Failure::ArchiveError),
    }
}

/// Decompresses the fetched bytes into the archive that is then unpacked:
/// `ArchiveError` on bytes that are not well-formed gzip.
pub fn decompress(data: &[u8]) -> (outcome: Result<Vec<u8>, Failure>)
    ensures
        match gunzip(data@) {
            Some(bytes) => outcome is Ok && outcome->Ok_0@ == bytes,
            None => outcome == Err::<Vec<u8>, Failure>(Failure::ArchiveError),
        },
{
    decoded_archive(inflate(data))
}

/// The steps of an update, in the order in which they are taken.
#[derive(Clone, Copy, Debug, PartialEq, Eq, Structural)]
pub enum UpdateStep {
    /// Fetch the archive's bytes.
    Fetch,
    /// Decompress the bytes and unpack them into the staging directory.
    Unpack,
    /// Move the staging directory into the place of the installed one.
    Replace,
    /// Mark the installed executable as executable.
    MarkExecutable,
}

/// How far an update has come.
#[derive(Clone, Copy, Debug, PartialEq, Eq, Structural)]
pub enum UpdateState {
    /// The step to take next.
    Pending(UpdateStep),
    /// The update is installed; `warned` where the executable could not be
    /// marked as such.
    Finished { warned: bool },
    /// The update was given up.
    Failed(Failure),
}

impl UpdateStep {
    /// Whether the step writes where the installed executable lives.
    pub open spec fn touches_installed(self) -> bool {
        self == UpdateStep::Replace || self == UpdateStep::MarkExecutable
    }

    /// The failure that gives the update up when this step fails; the last
    /// step is best effort and has none.
    pub open spec fn failure(self) -> Option<Failure> {
        match self {
            UpdateStep::Fetch => Some(Failure::FetchError),
            UpdateStep::Unpack => Some(Failure::ArchiveError),
            UpdateStep::Replace => Some(Failure::IoError),
            UpdateStep::MarkExecutable => None,
        }
    }
}

/// The state that follows `state` once its pending step has succeeded or
/// failed. Each step needs the one before it; a failed step gives the update
/// up, but for the last, whose failure is only a warning. A state without a
/// pending step stays as it is.
pub open spec fn after(state: UpdateState, succeeded: bool) -> UpdateState {
    match state {
        UpdateState::Pending(step) => if succeeded {
            match step {
                UpdateStep::Fetch => UpdateState::Pending(UpdateStep::Unpack),
                UpdateStep::Unpack => UpdateState::Pending(UpdateStep::Replace),
                UpdateStep::Replace => UpdateState::Pending(UpdateStep::MarkExecutable),
                UpdateStep::MarkExecutable => UpdateState::Finished { warned: false },
            }
        } else {
            match step.failure() {
                Some(failure) => UpdateState::Failed(failure),
                None => UpdateState::Finished { warned: true },
            }
        },
        _ => state,
    }
}

/// The state in which every update starts.
pub fn begin_update() -> (state: UpdateState)
    ensures
        state == UpdateState::Pending(UpdateStep::Fetch),
{
    UpdateState::Pending(UpdateStep::Fetch)
}

/// Moves an update on once its pending step has succeeded or failed.
pub fn advance(state: UpdateState, succeeded: bool) -> (next: UpdateState)
    ensures
        next == after(state, succeeded),
{
    match state {
        UpdateState::Pending(UpdateStep::Fetch) => if succeeded {
            UpdateState::Pending(UpdateStep::Unpack)
        } else {
            UpdateState::Failed(Failure::FetchError)
        },
        UpdateState::Pending(UpdateStep::Unpack) => if succeeded {
            UpdateState::Pending(UpdateStep::Replace)
        } else {
            UpdateState::Failed(Failure::ArchiveError)
        },
        UpdateState::Pending(UpdateStep::Replace) => if succeeded {
            UpdateState::Pending(UpdateStep::MarkExecutable)
        } else {
            UpdateState::Failed(Failure::IoError)
        },
        UpdateState::Pending(UpdateStep::MarkExecutable) => UpdateState::Finished {
            warned: !succeeded,
        },
        UpdateState::Finished { warned } => UpdateState::Finished { warned },
        UpdateState::Failed(failure) => UpdateState::Failed(failure),
    }
}

/// The state of an update whose steps so far came out as `results` says,
/// in order.
pub open spec fn state_after(results: Seq<bool>) -> UpdateState
    decreases results.len(),
{
    if results.len() == 0 {
        UpdateState::Pending(UpdateStep::Fetch)
    } else {
        after(state_after(results.drop_last()), results.last())
    }
}

/// Whether the update, after `results`, has written or is about to write
/// where the installed executable lives.
pub open spec fn reaches_installed(results: Seq<bool>) -> bool {
    match state_after(results) {
        UpdateState::Pending(step) => step.touches_installed(),
        UpdateState::Finished { .. } => true,
        UpdateState::Failed(failure) => failure == Failure::IoError,
    }
}

/// The installed executable is only ever touched after the archive has been
/// fetched and unpacked elsewhere: an update whose fetch or unpacking failed
/// has been given up with that step's failure, whatever was tried after it.
pub proof fn installed_untouched_without_archive(results: Seq<bool>)
    ensures
        results.len() >= 1 && !results[0] ==> state_after(results) == UpdateState::Failed(
            Failure::FetchError,
        ),
        results.len() >= 2 && results[0] && !results[1] ==> state_after(results)
            == UpdateState::Failed(Failure::ArchiveError),
        reaches_installed(results) ==> results.len() >= 2 && results[0] && results[1],
        results.len() == 1 && results[0] ==> state_after(results) == UpdateState::Pending(
            UpdateStep::Unpack,
        ),
    decreases results.len(),
{
    if results.len() > 0 {
        let earlier = results.drop_last();
        installed_untouched_without_archive(earlier);
        if earlier.len() > 0 {
            assert(earlier[0] == results[0]);
        }
        if earlier.len() > 1 {
            assert(earlier[1] == results[1]);
        }
        if earlier.len() == 0 {
            assert(state_after(earlier) == UpdateState::Pending(UpdateStep::Fetch));
        }
    }
}

} // verus!
