//! The state kept under the root directory: the active version and the
//! orchestration template. A `StateStore` is a snapshot of those two files;
//! each operation changes the snapshot and says which file has to be
//! written for the directory to match it.

use vstd::prelude::*;
use vstd::string::StringExecFns;
use crate::failure::Failure;
use crate::layout::{template_file, template_path, version_file, version_path};

verus! {

/// The orchestration template, written as it stands the first time it is
/// needed.
pub const COMPOSE_TEXT: &'static str = "
version: '3'
services:
  ethereum:
    image: ghcr.io/foundry-rs/foundry:v1.0.0
    command: '\"anvil --silent -p 8545 --host 0.0.0.0 --chain-id 31337\"'
    ports:
      - '${SANDBOX_ANVIL_PORT:-8545}:8545'

  aztec:
    image: 'aztecprotocol/aztec-sandbox:${SANDBOX_VERSION:-latest}'
    ports:
      - '${SANDBOX_RPC_PORT:-8080}:8080'
    environment:
      DEBUG: # Loaded from the user shell if explicitly set
      HOST_WORKDIR: '${PWD}' # Loaded from the user shell to show log files absolute path in host
      ETHEREUM_HOST: http://ethereum:8545
      CHAIN_ID: 31337
      ARCHIVER_POLLING_INTERVAL_MS: 50
      P2P_BLOCK_CHECK_INTERVAL_MS: 50
      SEQ_TX_POLLING_INTERVAL_MS: 50
      WS_BLOCK_CHECK_INTERVAL_MS: 50
      RPC_SERVER_BLOCK_POLLING_INTERVAL_MS: 50
      ARCHIVER_VIEM_POLLING_INTERVAL_MS: 500
    volumes:
      - ./log:/usr/src/yarn-project/aztec-sandbox/log:rw
";

/// A file to be written, once its directory has been created if it is not
/// there yet.
#[derive(Clone, Debug, PartialEq, Eq)]
pub struct FileWrite {
    /// The directory that has to exist before the file is written.
    pub directory: String,
    /// The file.
    pub path: String,
    /// What the file holds afterwards, all of it.
    pub contents: String,
}

/// What a `StateStore` stands for: the root directory and the contents of
/// the two files under it, `None` for a file that does not exist.
pub struct StoreContents {
    pub root: Seq<char>,
    pub version: Option<Seq<char>>,
    pub template: Option<Seq<char>>,
}

impl StoreContents {
    /// The contents once `version` has been made the active version.
    pub open spec fn with_version(self, version: Seq<char>) -> StoreContents {
        StoreContents { version: Some(version), ..self }
    }

    /// The contents once the template is known to exist: one that is there
    /// stays as it is, a missing one is written from `COMPOSE_TEXT`.
    pub open spec fn with_template_ensured(self) -> StoreContents {
        StoreContents {
            template: match self.template {
                Some(present) => Some(present),
                None => Some(COMPOSE_TEXT@),
            },
            ..self
        }
    }

    /// The contents once `text` has been written to `path`: a write to one
    /// of the two files sets that file, any other write changes nothing
    /// that the store holds.
    pub open spec fn after_write(self, path: Seq<char>, text: Seq<char>) -> StoreContents {
        if path == version_file(self.root) {
            StoreContents { version: Some(text), ..self }
        } else if path == template_file(self.root) {
            StoreContents { template: Some(text), ..self }
        } else {
            self
        }
    }

    /// The contents once a write has been carried out, if there is one.
    pub open spec fn after(self, write: Option<FileWrite>) -> StoreContents {
        match write {
            Some(w) => self.after_write(w.path@, w.contents@),
            None => self,
        }
    }

    /// What reading the active version gives.
    pub open spec fn active_version(self) -> Result<Seq<char>, Failure> {
        match self.version {
            Some(version) => Ok(version),
            None => Err(Failure::NotFound),
        }
    }
}

/// The characters of a text that may be absent.
pub open spec fn text_of(text: Option<String>) -> Option<Seq<char>> {
    match text {
        Some(t) => Some(t@),
        None => None,
    }
}

/// A snapshot of the files under the root directory.
#[derive(Clone, Debug, PartialEq, Eq)]
pub struct StateStore {
    /// The root directory.
    pub root: String,
    /// The contents of the active-version file, if it exists.
    pub version: Option<String>,
    /// The contents of the template file, if it exists.
    pub template: Option<String>,
}

impl View for StateStore {
    type V = StoreContents;

    open spec fn view(&self) -> StoreContents {
        StoreContents {
            root: self.root@,
            version: text_of(self.version),
            template: text_of(self.template),
        }
    }
}

impl StateStore {
    /// A store under `root` in which nothing has been written yet.
    pub fn new(root: &str) -> (store: StateStore)
        ensures
            store@ == (StoreContents { root: root@, version: None, template: None }),
    {
        StateStore { root: String::from_str(root), version: None, template: None }
    }

    /// A store under `root` with the files as they were found.
    pub fn from_files(root: &str, version: Option<String>, template: Option<String>) -> (store:
        StateStore)
        ensures
            store@ == (StoreContents {
                root: root@,
                version: text_of(version),
                template: text_of(template),
            }),
    {
        StateStore { root: String::from_str(root), version, template }
    }

    /// Makes `version` the active version, whatever was there before, and
    /// returns the write that persists it. The text is kept as given:
    /// nothing is trimmed.
    pub fn write_active_version(&mut self, version: &str) -> (write: FileWrite)
        ensures
            final(self)@ == old(self)@.with_version(version@),
            final(self)@ == old(self)@.after(Some(write)),
            write.directory@ == old(self)@.root,
            write.path@ == version_file(old(self)@.root),
            write.contents@ == version@,
    {
        self.version = Some(String::from_str(version));
        FileWrite {
            directory: self.root.clone(),
            path: version_path(self.root.as_str()),
            contents: String::from_str(version),
        }
    }

    /// Reads the active version: `NotFound` if none has ever been set.
    pub fn read_active_version(&self) -> (outcome: Result<String, Failure>)
        ensures
            match self@.active_version() {
                Ok(version) => outcome is Ok && outcome->Ok_0@ == version,
                Err(failure) => outcome == Err::<String, Failure>(failure),
            },
    {
        match &self.version {
            Some(version) => Ok(version.clone()),
            None => Err(Failure::NotFound),
        }
    }

    /// Makes sure that the template exists. Where it is missing it is set to
    /// `COMPOSE_TEXT` and the write that persists it is returned; where it
    /// exists nothing changes and there is nothing to write.
    pub fn ensure_template(&mut self) -> (write: Option<FileWrite>)
        ensures
            final(self)@ == old(self)@.with_template_ensured(),
            final(self)@ == old(self)@.after(write),
            old(self)@.template is Some ==> write is None,
            old(self)@.template is None ==> write is Some
                && write->Some_0.directory@ == old(self)@.root
                && write->Some_0.path@ == template_file(old(self)@.root)
                && write->Some_0.contents@ == COMPOSE_TEXT@,
    {
        if self.template.is_some() {
            None
        } else {
            proof {
                files_differ(self@.root);
            }
            self.template = Some(String::from_str(COMPOSE_TEXT));
            Some(
                FileWrite {
                    directory: self.root.clone(),
                    path: template_path(self.root.as_str()),
                    contents: String::from_str(COMPOSE_TEXT),
                },
            )
        }
    }
}

/// Makes `version` the active version of `store`.
pub fn use_version(store: &mut StateStore, version: &str) -> (write: FileWrite)
    ensures
        final(store)@ == old(store)@.with_version(version@),
        final(store)@ == old(store)@.after(Some(write)),
        write.directory@ == old(store)@.root,
        write.path@ == version_file(old(store)@.root),
        write.contents@ == version@,
{
    store.write_active_version(version)
}

/// What a write to the state directory comes to: `IoError` where the file
/// or its directory could not be written.
pub fn conclude_write(written: bool) -> (outcome: Result<(), Failure>)
    ensures
        outcome == (if written {
            Ok::<(), Failure>(())
        } else {
            Err::<(), Failure>(Failure::IoError)
        }),
{
    if written {
        Ok(())
    } else {
        Err(Failure::IoError)
    }
}

/// The two files of a store lie at different paths.
pub proof fn files_differ(root: Seq<char>)
    ensures
        version_file(root) != template_file(root),
{
    reveal_strlit("/version");
    reveal_strlit("/run");
    assert(version_file(root).len() == root.len() + 8);
    assert(template_file(root).len() == root.len() + 4);
}

/// Reading back what was just written gives exactly that text.
pub proof fn write_then_read(before: StoreContents, version: Seq<char>)
    ensures
        before.with_version(version).active_version() == Ok::<Seq<char>, Failure>(version),
{
}

/// Ensuring the template twice comes to the same as ensuring it once, and a
/// template that is already there is never replaced.
pub proof fn ensure_template_idempotent(before: StoreContents)
    ensures
        before.with_template_ensured().with_template_ensured() == before.with_template_ensured(),
        before.template is Some ==> before.with_template_ensured() == before,
        before.with_template_ensured().template is Some,
        before.with_template_ensured().version == before.version,
{
}

} // verus!
