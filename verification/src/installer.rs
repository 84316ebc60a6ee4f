//! Pulls a version of the sandbox image into the local container cache.

use vstd::prelude::*;
use vstd::string::StringExecFns;
use crate::failure::Failure;

verus! {

/// The repository of the sandbox image.
pub open spec fn image_repository() -> Seq<char> {
    "aztecprotocol/aztec-sandbox"@
}

/// The image reference `<repository>:<tag>`.
pub open spec fn image_reference_of(repository: Seq<char>, tag: Seq<char>) -> Seq<char> {
    repository + ":"@ + tag
}

/// The arguments handed to the container runtime to pull `tag`.
pub open spec fn pull_arguments_of(tag: Seq<char>) -> Seq<Seq<char>> {
    seq!["pull"@, image_reference_of(image_repository(), tag)]
}

/// What is reported once the container runtime has exited.
pub open spec fn install_message_of(tag: Seq<char>, succeeded: bool) -> Seq<char> {
    if succeeded {
        "Image "@ + tag + " installed successfully."@
    } else {
        "Failed to install image "@ + tag + "."@
    }
}

/// The name of the container runtime's program.
pub fn container_runtime() -> (program: &'static str)
    ensures
        program@ == "docker"@,
{
    "docker"
}

/// Composes the image reference `<repository>:<tag>`.
pub fn image_reference(repository: &str, tag: &str) -> (reference: String)
    ensures
        reference@ == image_reference_of(repository@, tag@),
{
    let mut reference = String::from_str(repository);
    reference.append(":");
    reference.append(tag);
    reference
}

/// The arguments with which the container runtime pulls the sandbox image
/// at `tag`.
pub fn pull_arguments(tag: &str) -> (arguments: Vec<String>)
    ensures
        arguments.deep_view() == pull_arguments_of(tag@),
{
    let mut arguments: Vec<String> = Vec::new();
    arguments.push(String::from_str("pull"));
    arguments.push(image_reference("aztecprotocol/aztec-sandbox", tag));
    assert(arguments.deep_view() =~= pull_arguments_of(tag@));
    arguments
}

/// The call of the container runtime that pulls an image.
#[derive(Clone, Debug, PartialEq, Eq)]
pub struct PullCommand {
    pub program: String,
    pub arguments: Vec<String>,
}

/// Names the call of the container runtime that pulls the sandbox image at
/// `tag` into the local cache.
pub fn install(tag: &str) -> (command: PullCommand)
    ensures
        command.program@ == "docker"@,
        command.arguments.deep_view() == pull_arguments_of(tag@),
{
    PullCommand { program: String::from_str(container_runtime()), arguments: pull_arguments(tag) }
}

/// The line reported to the user once the container runtime has exited.
pub fn install_message(tag: &str, succeeded: bool) -> (message: String)
    ensures
        message@ == install_message_of(tag@, succeeded),
{
    if succeeded {
        let mut message = String::from_str("Image ");
        message.append(tag);
        message.append(" installed successfully.");
        message
    } else {
        let mut message = String::from_str("Failed to install image ");
        message.append(tag);
        message.append(".");
        message
    }
}

/// The outcome of an install, decided by the container runtime's exit
/// status alone: success on zero, `ExternalProcessError` otherwise. Either
/// way the message names the tag.
pub fn conclude_install(tag: &str, exited_zero: bool) -> (outcome: Result<String, (Failure, String)>)
    ensures
        exited_zero ==> outcome is Ok && outcome->Ok_0@ == install_message_of(tag@, true),
        !exited_zero ==> outcome is Err && outcome->Err_0.0 == Failure::ExternalProcessError
            && outcome->Err_0.1@ == install_message_of(tag@, false),
{
    let message = install_message(tag, exited_zero);
    if exited_zero {
        Ok(message)
    } else {
        Err((Failure::ExternalProcessError, message))
    }
}

} // verus!
