//! The failures that a command can report.

use vstd::prelude::*;

verus! {

/// Which of the two files needed to launch the sandbox is absent.
#[derive(Clone, Copy, Debug, PartialEq, Eq, Structural)]
pub enum MissingFile {
    /// The orchestration template.
    Template,
    /// The active-version record.
    VersionRecord,
}

/// Every way in which a command can fail.
#[derive(Clone, Copy, Debug, PartialEq, Eq, Structural)]
pub enum Failure {
    /// The host operating system has no release artifact.
    UnsupportedPlatform,
    /// The host CPU architecture has no release artifact.
    UnsupportedArchitecture,
    /// No active version has ever been set.
    NotFound,
    /// A file needed to launch the sandbox is absent.
    MissingConfiguration(MissingFile),
    /// The release archive could not be fetched.
    FetchError,
    /// The fetched bytes are not a well-formed archive.
    ArchiveError,
    /// A file or directory could not be written or created.
    IoError,
    /// The container runtime or the orchestration engine exited with a failure.
    ExternalProcessError,
}

impl Failure {
    /// A one-line description of the failure.
    pub fn describe(&self) -> (message: &'static str)
        ensures
            message@ == self.description(),
    {
        match self {
            Failure::UnsupportedPlatform => "unsupported platform",
            Failure::UnsupportedArchitecture => "unsupported architecture",
            Failure::NotFound => "no active version has been set",
            Failure::MissingConfiguration(MissingFile::Template) => "no orchestration file found",
            Failure::MissingConfiguration(MissingFile::VersionRecord) => "no version file found",
            Failure::FetchError => "could not fetch the release archive",
            Failure::ArchiveError => "could not unpack the release archive",
            Failure::IoError => "could not write to the state directory",
            Failure::ExternalProcessError => "command did not execute successfully",
        }
    }

    /// The text of `describe`, as a sequence of characters.
    pub open spec fn description(&self) -> Seq<char> {
        match self {
            Failure::UnsupportedPlatform => "unsupported platform"@,
            Failure::UnsupportedArchitecture => "unsupported architecture"@,
            Failure::NotFound => "no active version has been set"@,
            Failure::MissingConfiguration(MissingFile::Template) => "no orchestration file found"@,
            Failure::MissingConfiguration(MissingFile::VersionRecord) => "no version file found"@,
            Failure::FetchError => "could not fetch the release archive"@,
            Failure::ArchiveError => "could not unpack the release archive"@,
            Failure::IoError => "could not write to the state directory"@,
            Failure::ExternalProcessError => "command did not execute successfully"@,
        }
    }
}

} // verus!
