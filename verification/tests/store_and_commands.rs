use std::io::Write;

use sandbox_version_manager::failure::{Failure, MissingFile};
use sandbox_version_manager::installer::{
    conclude_install, container_runtime, image_reference, install, install_message,
    pull_arguments,
};
use sandbox_version_manager::launcher::{conclude_run, plan_launch, run};
use sandbox_version_manager::layout::{
    binary_dir, binary_path, root_dir, root_for_home, staged_binary_path, staging_dir,
    state_root, template_path, version_path,
};
use sandbox_version_manager::store::{conclude_write, use_version, StateStore, COMPOSE_TEXT};
use sandbox_version_manager::updater::{
    advance, begin_update, decoded_archive, decompress, update, UpdateState, UpdateStep,
};

#[test]
fn paths_under_the_root() {
    assert_eq!(root_dir("/home/alice"), "/home/alice/.aztec");
    assert_eq!(version_path("/home/alice/.aztec"), "/home/alice/.aztec/version");
    assert_eq!(template_path("/home/alice/.aztec"), "/home/alice/.aztec/run");
    assert_eq!(binary_dir("/home/alice/.aztec"), "/home/alice/.aztec/bin");
    assert_eq!(binary_path("/home/alice/.aztec"), "/home/alice/.aztec/bin/aztec-sandbox");
    assert_eq!(staging_dir("/home/alice/.aztec"), "/home/alice/.aztec/bin.staged");
    assert_eq!(
        staged_binary_path("/home/alice/.aztec"),
        "/home/alice/.aztec/bin.staged/aztec-sandbox"
    );
}

#[test]
fn root_needs_a_home() {
    assert_eq!(root_for_home(Some("/Users/Alice".to_string())), Ok("/Users/Alice/.aztec".to_string()));
    assert_eq!(root_for_home(Some(String::new())), Ok("/.aztec".to_string()));
    assert_eq!(root_for_home(None), Err(Failure::IoError));
}

#[test]
fn state_root_is_under_some_home() {
    match state_root() {
        Ok(path) => assert!(path.ends_with("/.aztec")),
        Err(failure) => assert_eq!(failure, Failure::IoError),
    }
}

#[test]
fn write_then_read_round_trips() {
    for version in ["v1.2.3", " v1.2.3 ", "latest\n", "\tx", "0", "é-β"] {
        let mut store = StateStore::new("/r");
        let write = store.write_active_version(version);
        assert_eq!(write.directory, "/r");
        assert_eq!(write.path, "/r/version");
        assert_eq!(write.contents, version);
        assert_eq!(store.read_active_version(), Ok(version.to_string()));
    }
}

#[test]
fn a_later_version_replaces_an_earlier_one() {
    let mut store = StateStore::new("/r");
    use_version(&mut store, "v1");
    let write = use_version(&mut store, "v2");
    assert_eq!(write.contents, "v2");
    assert_eq!(store.read_active_version(), Ok("v2".to_string()));
    assert_eq!(store.template, None);
    assert_eq!(store.root, "/r");
}

#[test]
fn read_before_any_write_is_not_found() {
    let store = StateStore::new("/r");
    assert_eq!(store.read_active_version(), Err(Failure::NotFound));
    let found = StateStore::from_files("/r", None, Some("t".to_string()));
    assert_eq!(found.read_active_version(), Err(Failure::NotFound));
}

#[test]
fn ensure_template_is_idempotent() {
    let mut store = StateStore::new("/r");
    let first = store.ensure_template().expect("the template was missing");
    assert_eq!(first.directory, "/r");
    assert_eq!(first.path, "/r/run");
    assert_eq!(first.contents, COMPOSE_TEXT);
    let once = store.clone();
    assert_eq!(store.ensure_template(), None);
    assert_eq!(store, once);
    assert_eq!(store.template.as_deref(), Some(COMPOSE_TEXT));
    assert_eq!(store.version, None);
}

#[test]
fn an_existing_template_survives() {
    let mut store = StateStore::from_files("/r", Some("v1".to_string()), Some("other".to_string()));
    assert_eq!(store.ensure_template(), None);
    assert_eq!(store.ensure_template(), None);
    assert_eq!(store.template.as_deref(), Some("other"));
    assert_eq!(store.version.as_deref(), Some("v1"));
}

#[test]
fn template_text_is_the_compose_file() {
    assert!(COMPOSE_TEXT.starts_with("\nversion: '3'\nservices:\n  ethereum:\n"));
    assert!(COMPOSE_TEXT
        .contains("    command: '\"anvil --silent -p 8545 --host 0.0.0.0 --chain-id 31337\"'\n"));
    assert!(COMPOSE_TEXT
        .contains("    image: 'aztecprotocol/aztec-sandbox:${SANDBOX_VERSION:-latest}'\n"));
    assert!(COMPOSE_TEXT.ends_with("      - ./log:/usr/src/yarn-project/aztec-sandbox/log:rw\n"));
    assert_eq!(COMPOSE_TEXT.lines().count(), 26);
}

#[test]
fn run_before_use_has_nothing_to_spawn() {
    let mut store = StateStore::new("/r");
    let launch = run(&mut store);
    assert_eq!(launch.plan, Err(Failure::MissingConfiguration(MissingFile::VersionRecord)));
    let write = launch.template_write.expect("the template was missing");
    assert_eq!(write.path, "/r/run");
    assert_eq!(write.contents, COMPOSE_TEXT);
    assert_eq!(store.template.as_deref(), Some(COMPOSE_TEXT));
    assert_eq!(store.read_active_version(), Err(Failure::NotFound));
}

#[test]
fn use_then_run_binds_the_version() {
    let mut store = StateStore::new("/home/alice/.aztec");
    use_version(&mut store, "v1.2.3");
    let launch = run(&mut store);
    let plan = launch.plan.expect("a version was set");
    assert_eq!(plan.variable, "SANDBOX_VERSION");
    assert_eq!(plan.value, "v1.2.3");
    assert_eq!(plan.program, "docker-compose");
    assert_eq!(plan.arguments, vec!["-f", "/home/alice/.aztec/run", "up"]);
    assert!(launch.template_write.is_some());
    let again = run(&mut store);
    assert_eq!(again.template_write, None);
    assert_eq!(again.plan.unwrap().value, "v1.2.3");
}

#[test]
fn the_version_is_bound_verbatim() {
    let mut store = StateStore::from_files("/r", Some(" v9 \n".to_string()), Some("t".to_string()));
    let launch = run(&mut store);
    assert_eq!(launch.template_write, None);
    assert_eq!(launch.plan.unwrap().value, " v9 \n");
    assert_eq!(store.template.as_deref(), Some("t"));
}

#[test]
fn plan_launch_names_the_missing_file() {
    let neither = StateStore::new("/r");
    assert_eq!(plan_launch(&neither), Err(Failure::MissingConfiguration(MissingFile::Template)));
    let no_template = StateStore::from_files("/r", Some("v1".to_string()), None);
    assert_eq!(
        plan_launch(&no_template),
        Err(Failure::MissingConfiguration(MissingFile::Template))
    );
    let no_version = StateStore::from_files("/r", None, Some("t".to_string()));
    assert_eq!(
        plan_launch(&no_version),
        Err(Failure::MissingConfiguration(MissingFile::VersionRecord))
    );
    let both = StateStore::from_files("/r", Some("v1".to_string()), Some("t".to_string()));
    assert_eq!(plan_launch(&both).unwrap().value, "v1");
}

#[test]
fn exit_statuses_are_reported() {
    assert_eq!(conclude_run(true), Ok(()));
    assert_eq!(conclude_run(false), Err(Failure::ExternalProcessError));
    assert_eq!(conclude_write(true), Ok(()));
    assert_eq!(conclude_write(false), Err(Failure::IoError));
}

#[test]
fn install_pulls_the_tagged_image() {
    let command = install("v1.2.3");
    assert_eq!(command.program, "docker");
    assert_eq!(command.arguments, vec!["pull", "aztecprotocol/aztec-sandbox:v1.2.3"]);
    assert_eq!(pull_arguments("latest"), vec!["pull", "aztecprotocol/aztec-sandbox:latest"]);
    assert_eq!(container_runtime(), "docker");
    assert_eq!(image_reference("repo/name", "t"), "repo/name:t");
    assert_eq!(image_reference("repo/name", ""), "repo/name:");
}

#[test]
fn install_reports_with_the_tag() {
    assert_eq!(install_message("v1.2.3", true), "Image v1.2.3 installed successfully.");
    assert_eq!(install_message("v1.2.3", false), "Failed to install image v1.2.3.");
    assert_eq!(
        conclude_install("v1.2.3", true),
        Ok("Image v1.2.3 installed successfully.".to_string())
    );
    assert_eq!(
        conclude_install("v1.2.3", false),
        Err((Failure::ExternalProcessError, "Failed to install image v1.2.3.".to_string()))
    );
}

#[test]
fn update_plan_stages_beside_the_installed_binary() {
    let plan = update("Linux\n", "x86_64\n", "/home/alice/.aztec").expect("supported host");
    assert_eq!(
        plan.url,
        "https://github.com/AztecProtocol/sandbox-version-manager/releases/download/nightly/aztec-sandbox-x86_64-unknown-linux-gnu.tar.gz"
    );
    assert_eq!(plan.staging_dir, "/home/alice/.aztec/bin.staged");
    assert_eq!(plan.staged_binary, "/home/alice/.aztec/bin.staged/aztec-sandbox");
    assert_eq!(plan.binary_dir, "/home/alice/.aztec/bin");
    assert_eq!(plan.binary_path, "/home/alice/.aztec/bin/aztec-sandbox");
    assert_ne!(plan.staging_dir, plan.binary_dir);
}

#[test]
fn update_is_not_attempted_on_an_unsupported_host() {
    assert_eq!(update("Plan9", "x86_64", "/r"), Err(Failure::UnsupportedPlatform));
    assert_eq!(update("Linux", "sparc", "/r"), Err(Failure::UnsupportedArchitecture));
}

#[test]
fn update_steps_in_order() {
    let mut state = begin_update();
    assert_eq!(state, UpdateState::Pending(UpdateStep::Fetch));
    state = advance(state, true);
    assert_eq!(state, UpdateState::Pending(UpdateStep::Unpack));
    state = advance(state, true);
    assert_eq!(state, UpdateState::Pending(UpdateStep::Replace));
    state = advance(state, true);
    assert_eq!(state, UpdateState::Pending(UpdateStep::MarkExecutable));
    assert_eq!(advance(state, true), UpdateState::Finished { warned: false });
    assert_eq!(advance(state, false), UpdateState::Finished { warned: true });
    assert_eq!(
        advance(UpdateState::Finished { warned: true }, true),
        UpdateState::Finished { warned: true }
    );
}

#[test]
fn an_aborted_fetch_never_reaches_the_installed_binary() {
    let failed = advance(begin_update(), false);
    assert_eq!(failed, UpdateState::Failed(Failure::FetchError));
    assert_eq!(advance(failed, true), UpdateState::Failed(Failure::FetchError));
    assert_eq!(advance(failed, false), UpdateState::Failed(Failure::FetchError));
    let unpacking = advance(begin_update(), true);
    assert_eq!(advance(unpacking, false), UpdateState::Failed(Failure::ArchiveError));
    let replacing = advance(unpacking, true);
    assert_eq!(advance(replacing, false), UpdateState::Failed(Failure::IoError));
}

fn gzip(data: &[u8]) -> Vec<u8> {
    let mut encoder = flate2::write::GzEncoder::new(Vec::new(), flate2::Compression::default());
    encoder.write_all(data).unwrap();
    encoder.finish().unwrap()
}

#[test]
fn decompress_gives_back_what_was_compressed() {
    let data = b"#!/bin/sh\necho sandbox\n".to_vec();
    let packed = gzip(&data);
    assert_ne!(packed, data);
    assert_eq!(decompress(&packed), Ok(data));
    assert_eq!(decompress(&gzip(b"")), Ok(Vec::new()));
}

#[test]
fn decompress_unpacks_to_a_tar_archive() {
    let mut builder = tar::Builder::new(Vec::new());
    let contents = b"binary";
    let mut header = tar::Header::new_gnu();
    header.set_size(contents.len() as u64);
    header.set_mode(0o755);
    header.set_cksum();
    builder.append_data(&mut header, "aztec-sandbox", &contents[..]).unwrap();
    let archive = builder.into_inner().unwrap();
    let unpacked = decompress(&gzip(&archive)).unwrap();
    assert_eq!(unpacked, archive);
    let mut reader = tar::Archive::new(std::io::Cursor::new(unpacked));
    let names: Vec<String> = reader
        .entries()
        .unwrap()
        .map(|e| e.unwrap().path().unwrap().to_string_lossy().into_owned())
        .collect();
    assert_eq!(names, vec!["aztec-sandbox"]);
}

#[test]
fn malformed_archives_are_refused() {
    assert_eq!(decompress(b"not gzip at all"), Err(Failure::ArchiveError));
    assert_eq!(decompress(b""), Err(Failure::ArchiveError));
    let packed = gzip(b"some bytes that are long enough to be cut short");
    assert_eq!(decompress(&packed[..packed.len() - 5]), Err(Failure::ArchiveError));
    assert_eq!(decompress(&packed[..12]), Err(Failure::ArchiveError));
}

#[test]
fn decoded_archive_maps_a_failed_decoding() {
    assert_eq!(decoded_archive(Some(vec![1, 2, 3])), Ok(vec![1, 2, 3]));
    assert_eq!(decoded_archive(Some(Vec::new())), Ok(Vec::new()));
    assert_eq!(decoded_archive(None), Err(Failure::ArchiveError));
}
