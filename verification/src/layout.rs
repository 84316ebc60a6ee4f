//! Where the version manager keeps its files: everything lies under one root
//! directory in the user's home.

use vstd::prelude::*;
use crate::failure::Failure;
use crate::text::joined;

verus! {

/// The root directory for a given home directory.
pub open spec fn root_of(home: Seq<char>) -> Seq<char> {
    home + "/.aztec"@
}

/// The file that holds the active version.
pub open spec fn version_file(root: Seq<char>) -> Seq<char> {
    root + "/version"@
}

/// The file that holds the orchestration template.
pub open spec fn template_file(root: Seq<char>) -> Seq<char> {
    root + "/run"@
}

/// The directory that holds the installed executable.
pub open spec fn binary_directory(root: Seq<char>) -> Seq<char> {
    root + "/bin"@
}

/// The installed executable.
pub open spec fn binary_file(root: Seq<char>) -> Seq<char> {
    root + "/bin/aztec-sandbox"@
}

/// The directory into which an update is unpacked before it replaces the
/// installed one.
pub open spec fn staging_directory(root: Seq<char>) -> Seq<char> {
    root + "/bin.staged"@
}

/// The unpacked executable, before it has replaced the installed one.
pub open spec fn staged_binary_file(root: Seq<char>) -> Seq<char> {
    root + "/bin.staged/aztec-sandbox"@
}

/// The root directory for a given home directory.
pub fn root_dir(home: &str) -> (path: String)
    ensures
        path@ == root_of(home@),
{
    joined(home, "/.aztec")
}

/// The path of the file that holds the active version.
pub fn version_path(root: &str) -> (path: String)
    ensures
        path@ == version_file(root@),
{
    joined(root, "/version")
}

/// The path of the file that holds the orchestration template.
pub fn template_path(root: &str) -> (path: String)
    ensures
        path@ == template_file(root@),
{
    joined(root, "/run")
}

/// The path of the directory that holds the installed executable.
pub fn binary_dir(root: &str) -> (path: String)
    ensures
        path@ == binary_directory(root@),
{
    joined(root, "/bin")
}

/// The path of the installed executable.
pub fn binary_path(root: &str) -> (path: String)
    ensures
        path@ == binary_file(root@),
{
    joined(root, "/bin/aztec-sandbox")
}

/// The path of the directory into which an update is unpacked.
pub fn staging_dir(root: &str) -> (path: String)
    ensures
        path@ == staging_directory(root@),
{
    joined(root, "/bin.staged")
}

/// The path of the unpacked executable before it is installed.
pub fn staged_binary_path(root: &str) -> (path: String)
    ensures
        path@ == staged_binary_file(root@),
{
    joined(root, "/bin.staged/aztec-sandbox")
}

/// The root directory, given the home directory if the host has one.
/// Without a home directory there is nowhere to write: `IoError`.
pub fn root_for_home(home: Option<String>) -> (outcome: Result<String, Failure>)
    ensures
        match home {
            Some(h) => outcome is Ok && outcome->Ok_0@ == root_of(h@),
            None => outcome == Err::<String, Failure>(Failure::IoError),
        },
{
    match home {
        Some(h) => Ok(root_dir(h.as_str())),
        None => Err(Failure::IoError),
    }
}

/// An update is unpacked beside the installed executable, never over it.
pub proof fn staging_is_apart(root: Seq<char>)
    ensures
        staging_directory(root) != binary_directory(root),
        staged_binary_file(root) != binary_file(root),
{
    reveal_strlit("/bin");
    reveal_strlit("/bin.staged");
    reveal_strlit("/bin/aztec-sandbox");
    reveal_strlit("/bin.staged/aztec-sandbox");
    assert(staging_directory(root).len() == root.len() + 11);
    assert(binary_directory(root).len() == root.len() + 4);
    assert(staged_binary_file(root).len() == root.len() + 25);
    assert(binary_file(root).len() == root.len() + 18);
}

/// Asks `dirs::home_dir` for the user's home directory and gives it as
/// text, with bytes that are not UTF-8 replaced. The answer depends on the
/// host's environment and user database, so nothing is claimed of it.
#[verifier::external_body]
fn home_directory() -> (home: Option<String>)
{
    dirs::home_dir().map(|p| p.to_string_lossy().into_owned())
}

/// The root directory of the current user: whatever home directory the
/// host reports, the result is that home's root, or `IoError` if the host
/// reports none.
pub fn state_root() -> (outcome: Result<String, Failure>)
    ensures
        match outcome {
            Ok(path) => exists|home: Seq<char>| path@ == root_of(home),
            Err(failure) => failure == Failure::IoError,
        },
{
    let home = home_directory();
    let ghost reported = home;
    let outcome = root_for_home(home);
    proof {
        if let Some(h) = reported {
            assert(outcome->Ok_0@ == root_of(h@));
        }
    }
    outcome
}

} // verus!
