//! Launches the sandbox: makes sure the orchestration template exists, binds
//! the active version into the child's environment and names the command
//! that runs the orchestration engine.

use vstd::prelude::*;
use vstd::string::StringExecFns;
use crate::failure::{Failure, MissingFile};
use crate::layout::{template_file, template_path};
use crate::store::{FileWrite, StateStore, StoreContents, COMPOSE_TEXT};

verus! {

/// The orchestration engine's program.
pub open spec fn engine_program() -> Seq<char> {
    "docker-compose"@
}

/// The environment variable that carries the active version to the
/// orchestration engine.
pub open spec fn version_variable() -> Seq<char> {
    "SANDBOX_VERSION"@
}

/// The arguments of the orchestration engine for a store under `root`.
pub open spec fn engine_arguments(root: Seq<char>) -> Seq<Seq<char>> {
    seq!["-f"@, template_file(root), "up"@]
}

/// The command that runs the orchestration engine, with the one variable
/// that is added to the child's environment.
#[derive(Clone, Debug, PartialEq, Eq)]
pub struct LaunchPlan {
    pub program: String,
    pub arguments: Vec<String>,
    pub variable: String,
    pub value: String,
}

/// What a `LaunchPlan` stands for.
pub struct LaunchCommand {
    pub program: Seq<char>,
    pub arguments: Seq<Seq<char>>,
    pub variable: Seq<char>,
    pub value: Seq<char>,
}

impl View for LaunchPlan {
    type V = LaunchCommand;

    open spec fn view(&self) -> LaunchCommand {
        LaunchCommand {
            program: self.program@,
            arguments: self.arguments.deep_view(),
            variable: self.variable@,
            value: self.value@,
        }
    }
}

/// The launch that a store allows: both files must exist, the template
/// being looked at first, and the active version is handed to the engine
/// exactly as it was stored.
pub open spec fn launch_of(contents: StoreContents) -> Result<LaunchCommand, Failure> {
    if contents.template is None {
        Err(Failure::MissingConfiguration(MissingFile::Template))
    } else if contents.version is None {
        Err(Failure::MissingConfiguration(MissingFile::VersionRecord))
    } else {
        Ok(
            LaunchCommand {
                program: engine_program(),
                arguments: engine_arguments(contents.root),
                variable: version_variable(),
                value: contents.version->Some_0,
            },
        )
    }
}

/// Whether `outcome` is the launch that `expected` describes: the same
/// failure, or a plan that stands for the same command.
pub open spec fn matches_launch(
    outcome: Result<LaunchPlan, Failure>,
    expected: Result<LaunchCommand, Failure>,
) -> bool {
    match expected {
        Ok(command) => outcome is Ok && outcome->Ok_0@ == command,
        Err(failure) => outcome == Err::<LaunchPlan, Failure>(failure),
    }
}

/// Plans the launch from a store as it stands. Nothing is made up: a
/// missing template or a missing version record is `MissingConfiguration`,
/// naming the file.
pub fn plan_launch(store: &StateStore) -> (outcome: Result<LaunchPlan, Failure>)
    ensures
        matches_launch(outcome, launch_of(store@)),
{
    if store.template.is_none() {
        return Err(Failure::MissingConfiguration(MissingFile::Template));
    }
    match &store.version {
        None => Err(Failure::MissingConfiguration(MissingFile::VersionRecord)),
        Some(version) => {
            let mut arguments: Vec<String> = Vec::new();
            arguments.push(String::from_str("-f"));
            arguments.push(template_path(store.root.as_str()));
            arguments.push(String::from_str("up"));
            assert(arguments.deep_view() =~= engine_arguments(store@.root));
            Ok(
                LaunchPlan {
                    program: String::from_str("docker-compose"),
                    arguments,
                    variable: String::from_str("SANDBOX_VERSION"),
                    value: version.clone(),
                },
            )
        },
    }
}

/// What `run` hands back: the template to write, if it was missing, and the
/// launch, if there is one.
#[derive(Debug, PartialEq, Eq)]
pub struct Launch {
    pub template_write: Option<FileWrite>,
    pub plan: Result<LaunchPlan, Failure>,
}

/// Runs the sandbox: ensures the template, then plans the launch from the
/// store. Without an active version this is `MissingConfiguration` and there
/// is no command to spawn, though the template is still written.
pub fn run(store: &mut StateStore) -> (launch: Launch)
    ensures
        final(store)@ == old(store)@.with_template_ensured(),
        final(store)@ == old(store)@.after(launch.template_write),
        old(store)@.template is Some ==> launch.template_write is None,
        old(store)@.template is None ==> launch.template_write is Some
            && launch.template_write->Some_0.directory@ == old(store)@.root
            && launch.template_write->Some_0.path@ == template_file(old(store)@.root)
            && launch.template_write->Some_0.contents@ == COMPOSE_TEXT@,
        matches_launch(launch.plan, launch_of(old(store)@.with_template_ensured())),
        old(store)@.version is None ==> launch.plan == Err::<LaunchPlan, Failure>(
            Failure::MissingConfiguration(MissingFile::VersionRecord),
        ),
        old(store)@.version is Some ==> launch.plan is Ok && launch.plan->Ok_0.value@
            == old(store)@.version->Some_0,
{
    let template_write = store.ensure_template();
    let plan = plan_launch(store);
    Launch { template_write, plan }
}

/// What the engine's exit comes to: a non-zero status is reported as
/// `ExternalProcessError`.
pub fn conclude_run(exited_zero: bool) -> (outcome: Result<(), Failure>)
    ensures
        outcome == (if exited_zero {
            Ok::<(), Failure>(())
        } else {
            Err::<(), Failure>(Failure::ExternalProcessError)
        }),
{
    if exited_zero {
        Ok(())
    } else {
        Err(Failure::ExternalProcessError)
    }
}

/// Running before any version was set fails with `MissingConfiguration`, so
/// there is no command to spawn.
pub proof fn run_needs_a_version(before: StoreContents)
    requires
        before.version is None,
    ensures
        launch_of(before.with_template_ensured()) == Err::<LaunchCommand, Failure>(
            Failure::MissingConfiguration(MissingFile::VersionRecord),
        ),
        before.active_version() == Err::<Seq<char>, Failure>(Failure::NotFound),
{
}

/// Once a version has been set, running hands exactly that version to the
/// engine, under the variable's fixed name.
pub proof fn run_binds_the_active_version(before: StoreContents, version: Seq<char>)
    ensures
        launch_of(before.with_version(version).with_template_ensured()) is Ok,
        launch_of(before.with_version(version).with_template_ensured())->Ok_0.value == version,
        launch_of(before.with_version(version).with_template_ensured())->Ok_0.variable
            == version_variable(),
{
}

} // verus!
