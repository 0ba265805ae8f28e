use bdrive::bdrive::upload::{
    Cleanup, Step, UploadOutcome, UploadRequest, EXIT_CONFLICT, EXIT_METADATA, EXIT_READ,
    EXIT_SUCCESS, EXIT_TRANSFER,
};
use bdrive::bdrive::{BDrive, UploadError, UploadOptions};
use bdrive::conf::PathsConf;
use bdrive::db::{RemoteFile, StoreError};
use bdrive::fs::file::{File, IOError};
use bdrive::fs::hash::Hasher;
use bdrive::fs::state::{Identity, Local};
use bdrive::ssh::{ErrorSource, SSHError, TransportError};

/// A stand-in for everything outside the engine, with a log of what was asked of it.
struct World {
    content: Option<Vec<u8>>,
    record: Result<Option<RemoteFile>, String>,
    transfer: Result<(), String>,
    write: Result<(), String>,
    delete: Result<(), String>,
    log: Vec<String>,
}

impl World {
    fn with_content(content: &[u8]) -> World {
        World {
            content: Some(content.to_vec()),
            record: Ok(None),
            transfer: Ok(()),
            write: Ok(()),
            delete: Ok(()),
            log: Vec::new(),
        }
    }

    fn count(&self, prefix: &str) -> usize {
        self.log.iter().filter(|line| line.starts_with(prefix)).count()
    }
}

fn identity_of(content: &[u8]) -> Identity {
    let mut hasher = Hasher::new();
    assert!(hasher.update(content));
    hasher.finish()
}

fn ssh_error(text: &str) -> SSHError {
    SSHError::SSH2(TransportError { source: ErrorSource::Session, code: -7, message: text.to_string() })
}

fn drive() -> BDrive {
    let paths = PathsConf { local: "/srv/bdrive".to_string(), remote: "backup".to_string() };
    BDrive::new(paths, "/srv/bdrive").unwrap()
}

fn describe(request: &UploadRequest) -> String {
    match request {
        UploadRequest::Hash(path) => format!("hash {}", path),
        UploadRequest::Find(path) => format!("find {}", path),
        UploadRequest::Send(path, remote, size) => format!("send {} {} {}", path, remote, size),
        UploadRequest::Insert(record) => {
            format!("insert {} {} {}", record.path, record.hash, record.size)
        }
        UploadRequest::Update(record, expected) => format!(
            "update {} {} {} replacing {} {}",
            record.path,
            record.hash,
            record.size,
            expected.hash(),
            expected.size()
        ),
        UploadRequest::Delete(remote) => format!("delete {}", remote),
    }
}

fn upload(world: &mut World, path: &str, options: Option<UploadOptions>) -> UploadOutcome {
    let hashing = drive().upload(File::<Local>::from(path), options);
    world.log.push(describe(&hashing.request()));
    let read = match &world.content {
        Some(content) => Ok(identity_of(content)),
        None => Err(IOError { message: "cannot read".to_string() }),
    };
    let finding = match hashing.hashed(read) {
        Step::Done(outcome) => return outcome,
        Step::Next(next) => next,
    };
    world.log.push(describe(&finding.request()));
    let found = match &world.record {
        Ok(Some(r)) => Ok(Some(RemoteFile::new(r.path.clone(), r.hash.clone(), r.size))),
        Ok(None) => Ok(None),
        Err(text) => Err(StoreError { message: text.clone() }),
    };
    let sending = match finding.found(found) {
        Step::Done(outcome) => return outcome,
        Step::Next(next) => next,
    };
    world.log.push(describe(&sending.request()));
    let sent = world.transfer.clone().map_err(|text| ssh_error(&text));
    let recording = match sending.sent(sent) {
        Step::Done(outcome) => return outcome,
        Step::Next(next) => next,
    };
    world.log.push(describe(&recording.request()));
    let written = world.write.clone().map_err(|text| StoreError { message: text });
    let cleaning = match recording.recorded(written) {
        Step::Done(outcome) => return outcome,
        Step::Next(next) => next,
    };
    world.log.push(describe(&cleaning.request()));
    let deleted = world.delete.clone().map_err(|text| ssh_error(&text));
    cleaning.cleaned(deleted)
}

fn overwrite() -> Option<UploadOptions> {
    Some(UploadOptions::builder().overwrite(true).build())
}

const OLD: &str = "e3b0c44298fc1c149afbf4c8996fb92427ae41e4649b934ca495991b7852b855";

fn stale_record(path: &str) -> Result<Option<RemoteFile>, String> {
    Ok(Some(RemoteFile::new(path.to_string(), OLD.to_string(), 0)))
}

#[test]
fn new_file_is_sent_and_recorded() {
    let mut world = World::with_content(b"content of a.bin");
    let outcome = upload(&mut world, "a.bin", None);
    let id = identity_of(b"content of a.bin");
    match outcome {
        UploadOutcome::Synced(file) => {
            assert_eq!(file.path, "a.bin");
            assert!(file.state.id == id);
        }
        other => panic!("unexpected outcome {:?}", other),
    }
    assert_eq!(
        world.log,
        vec![
            "hash a.bin".to_string(),
            "find a.bin".to_string(),
            "send a.bin backup/a.bin 16".to_string(),
            format!("insert a.bin {} 16", id.hash()),
        ]
    );
}

#[test]
fn synced_file_is_left_alone() {
    let mut world = World::with_content(b"same");
    let id = identity_of(b"same");
    world.record = Ok(Some(RemoteFile::new("a.bin".to_string(), id.hash(), id.size())));
    let outcome = upload(&mut world, "a.bin", None);
    match outcome {
        UploadOutcome::Synced(file) => assert!(file.state.id == id),
        other => panic!("unexpected outcome {:?}", other),
    }
    assert_eq!(world.log, vec!["hash a.bin".to_string(), "find a.bin".to_string()]);
    assert_eq!(world.count("send"), 0);
    assert_eq!(world.count("insert"), 0);
    assert_eq!(world.count("update"), 0);
}

#[test]
fn synced_file_is_left_alone_even_when_overwriting() {
    let mut world = World::with_content(b"same");
    let id = identity_of(b"same");
    world.record = Ok(Some(RemoteFile::new("a.bin".to_string(), id.hash(), id.size())));
    let outcome = upload(&mut world, "a.bin", overwrite());
    assert!(matches!(outcome, UploadOutcome::Synced(_)));
    assert_eq!(world.log.len(), 2);
}

#[test]
fn diverged_file_is_refused_by_default() {
    let mut world = World::with_content(b"new content");
    world.record = stale_record("a.bin");
    let outcome = upload(&mut world, "a.bin", Some(UploadOptions { overwrite: false, confirm: false }));
    assert!(outcome.is_conflict());
    match outcome {
        UploadOutcome::OverwriteRefused(local, remote) => {
            assert_eq!(local.path, "a.bin");
            assert_eq!(remote.path, "a.bin");
            assert!(local.state.local == identity_of(b"new content"));
            assert!(remote.state.remote == Identity::new(OLD.to_string(), 0));
        }
        other => panic!("unexpected outcome {:?}", other),
    }
    assert_eq!(world.log, vec!["hash a.bin".to_string(), "find a.bin".to_string()]);
    assert_eq!(world.count("send"), 0);
}

#[test]
fn diverged_file_without_options_is_refused() {
    let mut world = World::with_content(b"new content");
    world.record = stale_record("a.bin");
    let outcome = upload(&mut world, "a.bin", None);
    assert!(matches!(outcome, UploadOutcome::OverwriteRefused(_, _)));
    assert_eq!(world.log.len(), 2);
}

#[test]
fn diverged_file_asks_for_confirmation() {
    let mut world = World::with_content(b"new content");
    world.record = stale_record("a.bin");
    let options = UploadOptions::builder().confirm(true).build();
    let outcome = upload(&mut world, "a.bin", Some(options));
    assert!(outcome.is_conflict());
    match outcome {
        UploadOutcome::ConfirmationNeeded(file) => {
            assert_eq!(file.path, "a.bin");
            assert!(file.state.local == identity_of(b"new content"));
            assert!(file.state.remote == Identity::new(OLD.to_string(), 0));
        }
        other => panic!("unexpected outcome {:?}", other),
    }
    assert_eq!(world.log, vec!["hash a.bin".to_string(), "find a.bin".to_string()]);
}

#[test]
fn diverged_file_is_overwritten_when_allowed() {
    for confirm in [false, true] {
        let mut world = World::with_content(b"new content");
        world.record = stale_record("a.bin");
        let options = UploadOptions::builder().overwrite(true).confirm(confirm).build();
        let outcome = upload(&mut world, "a.bin", Some(options));
        let id = identity_of(b"new content");
        match outcome {
            UploadOutcome::Synced(file) => assert!(file.state.id == id),
            other => panic!("unexpected outcome {:?}", other),
        }
        assert_eq!(
            world.log,
            vec![
                "hash a.bin".to_string(),
                "find a.bin".to_string(),
                "send a.bin backup/a.bin 11".to_string(),
                format!("update a.bin {} 11 replacing {} 0", id.hash(), OLD),
            ]
        );
    }
}

#[test]
fn failed_transfer_touches_no_metadata() {
    for record in [Ok(None), stale_record("a.bin")] {
        let mut world = World::with_content(b"new content");
        world.record = record;
        world.transfer = Err("connection lost".to_string());
        let outcome = upload(&mut world, "a.bin", overwrite());
        assert!(!outcome.is_conflict());
        match outcome {
            UploadOutcome::TransferFailed(file, SSHError::SSH2(e)) => {
                assert_eq!(file.path, "a.bin");
                assert!(file.state.local == identity_of(b"new content"));
                assert_eq!(e.message, "connection lost");
            }
            other => panic!("unexpected outcome {:?}", other),
        }
        assert_eq!(world.log.len(), 3);
        assert_eq!(world.count("insert"), 0);
        assert_eq!(world.count("update"), 0);
        assert_eq!(world.count("delete"), 0);
    }
}

#[test]
fn failed_update_deletes_what_was_sent() {
    let mut world = World::with_content(b"new content");
    world.record = stale_record("a.bin");
    world.write = Err("store is down".to_string());
    let outcome = upload(&mut world, "a.bin", overwrite());
    match outcome {
        UploadOutcome::MetadataFailed(file, e, Cleanup::Cleaned) => {
            assert_eq!(file.path, "a.bin");
            assert!(file.state.local == identity_of(b"new content"));
            assert_eq!(e.message, "store is down");
        }
        other => panic!("unexpected outcome {:?}", other),
    }
    assert_eq!(world.count("delete"), 1);
    assert_eq!(world.log[2], "send a.bin backup/a.bin 11");
    assert_eq!(world.log[4], "delete backup/a.bin");
    assert_eq!(world.log.len(), 5);
}

#[test]
fn failed_insert_deletes_what_was_sent() {
    let mut world = World::with_content(b"new content");
    world.write = Err("duplicate key".to_string());
    let outcome = upload(&mut world, "dir/a.bin", None);
    match outcome {
        UploadOutcome::MetadataFailed(file, e, Cleanup::Cleaned) => {
            assert_eq!(file.path, "dir/a.bin");
            assert_eq!(e.message, "duplicate key");
        }
        other => panic!("unexpected outcome {:?}", other),
    }
    assert!(world.log[3].starts_with("insert dir/a.bin "));
    assert_eq!(world.log[4], "delete backup/dir/a.bin");
    assert_eq!(world.count("delete"), 1);
}

#[test]
fn failed_cleanup_is_reported_beside_the_store_failure() {
    let mut world = World::with_content(b"new content");
    world.record = stale_record("a.bin");
    world.write = Err("store is down".to_string());
    world.delete = Err("permission denied".to_string());
    let outcome = upload(&mut world, "a.bin", overwrite());
    match outcome {
        UploadOutcome::MetadataFailed(_, e, Cleanup::Orphaned(SSHError::SSH2(d))) => {
            assert_eq!(e.message, "store is down");
            assert_eq!(d.message, "permission denied");
        }
        other => panic!("unexpected outcome {:?}", other),
    }
    assert_eq!(world.count("delete"), 1);
}

#[test]
fn failed_lookup_ends_before_anything_is_sent() {
    let mut world = World::with_content(b"new content");
    world.record = Err("timeout".to_string());
    let outcome = upload(&mut world, "a.bin", overwrite());
    match outcome {
        UploadOutcome::MetadataFailed(file, e, Cleanup::NotNeeded) => {
            assert!(file.state.local == identity_of(b"new content"));
            assert_eq!(e.message, "timeout");
        }
        other => panic!("unexpected outcome {:?}", other),
    }
    assert_eq!(world.log.len(), 2);
}

#[test]
fn record_of_another_path_ends_the_upload() {
    for record in [
        RemoteFile::new("b.bin".to_string(), OLD.to_string(), 0),
        RemoteFile::new("./a.bin".to_string(), OLD.to_string(), 0),
    ] {
        let mut world = World::with_content(b"new content");
        world.record = Ok(Some(record));
        let outcome = upload(&mut world, "a.bin", overwrite());
        assert_eq!(outcome.exit_status(), EXIT_METADATA);
        match outcome {
            UploadOutcome::MetadataFailed(file, e, Cleanup::NotNeeded) => {
                assert_eq!(file.path, "a.bin");
                assert!(file.state.local == identity_of(b"new content"));
                assert_eq!(e.message, "the store answered with the record of another path");
            }
            other => panic!("unexpected outcome {:?}", other),
        }
        assert_eq!(world.log, vec!["hash a.bin".to_string(), "find a.bin".to_string()]);
    }
}

#[test]
fn record_of_another_path_with_the_same_identity_is_not_synced() {
    let mut world = World::with_content(b"same");
    let id = identity_of(b"same");
    world.record = Ok(Some(RemoteFile::new("other.bin".to_string(), id.hash(), id.size())));
    let outcome = upload(&mut world, "a.bin", None);
    assert!(matches!(outcome, UploadOutcome::MetadataFailed(_, _, Cleanup::NotNeeded)));
    assert_eq!(world.log.len(), 2);
}

#[test]
fn unreadable_file_comes_back_with_the_error() {
    let mut world = World::with_content(b"");
    world.content = None;
    let outcome = upload(&mut world, "a.bin", overwrite());
    match outcome {
        UploadOutcome::ReadFailed(file, e) => {
            assert_eq!(file.path, "a.bin");
            assert_eq!(e.message, "cannot read");
        }
        other => panic!("unexpected outcome {:?}", other),
    }
    assert_eq!(world.log, vec!["hash a.bin".to_string()]);
}

#[test]
fn upload_twice_is_idempotent() {
    let mut world = World::with_content(b"content");
    let first = upload(&mut world, "a.bin", overwrite());
    let id = match first {
        UploadOutcome::Synced(file) => file.state.id,
        other => panic!("unexpected outcome {:?}", other),
    };
    world.record = Ok(Some(RemoteFile::new("a.bin".to_string(), id.hash(), id.size())));
    world.log.clear();
    let second = upload(&mut world, "a.bin", overwrite());
    assert!(matches!(second, UploadOutcome::Synced(_)));
    assert_eq!(world.count("send"), 0);
    assert_eq!(world.log.len(), 2);
}

#[test]
fn options_default_to_no_destructive_action() {
    let options = UploadOptions::default();
    assert!(!options.overwrite);
    assert!(!options.confirm);
    let built = UploadOptions::builder().build();
    assert!(!built.overwrite);
    assert!(!built.confirm);
}

#[test]
fn builder_sets_each_flag_by_itself() {
    let a = UploadOptions::builder().overwrite(true).build();
    assert!(a.overwrite && !a.confirm);
    let b = UploadOptions::builder().confirm(true).build();
    assert!(!b.overwrite && b.confirm);
    let c = UploadOptions::builder().overwrite(true).confirm(true).overwrite(false).build();
    assert!(!c.overwrite && c.confirm);
}

#[test]
fn outcomes_have_distinct_exit_statuses() {
    let mut world = World::with_content(b"x");
    assert_eq!(upload(&mut world, "a", None).exit_status(), EXIT_SUCCESS);
    world.record = stale_record("a");
    assert_eq!(upload(&mut world, "a", None).exit_status(), EXIT_CONFLICT);
    world.transfer = Err("no".to_string());
    assert_eq!(upload(&mut world, "a", overwrite()).exit_status(), EXIT_TRANSFER);
    world.transfer = Ok(());
    world.write = Err("no".to_string());
    assert_eq!(upload(&mut world, "a", overwrite()).exit_status(), EXIT_METADATA);
    world.content = None;
    assert_eq!(upload(&mut world, "a", overwrite()).exit_status(), EXIT_READ);
    let all = [EXIT_SUCCESS, EXIT_CONFLICT, EXIT_TRANSFER, EXIT_METADATA, EXIT_READ];
    for i in 0..all.len() {
        for j in 0..i {
            assert_ne!(all[i], all[j]);
        }
    }
}

#[test]
fn outcome_as_result_keeps_its_payload() {
    let mut world = World::with_content(b"x");
    assert!(upload(&mut world, "a", None).into_result().is_ok());
    world.record = stale_record("a");
    match upload(&mut world, "a", None).into_result() {
        Err(UploadError::OverwriteError(local, remote)) => {
            assert!(local.state.local == identity_of(b"x"));
            assert_eq!(remote.state.remote.hash(), OLD);
        }
        other => panic!("unexpected result {:?}", other),
    }
    let confirm = UploadOptions::builder().confirm(true).build();
    assert!(matches!(
        upload(&mut world, "a", Some(confirm)).into_result(),
        Err(UploadError::ConfirmationNeeded(_))
    ));
    world.transfer = Err("no".to_string());
    assert!(matches!(
        upload(&mut world, "a", overwrite()).into_result(),
        Err(UploadError::SSHError(_, _))
    ));
    world.transfer = Ok(());
    world.write = Err("no".to_string());
    assert!(matches!(
        upload(&mut world, "a", overwrite()).into_result(),
        Err(UploadError::MongoDBError(_, _, Cleanup::Cleaned))
    ));
    world.content = None;
    assert!(matches!(
        upload(&mut world, "a", overwrite()).into_result(),
        Err(UploadError::IOError(_, _))
    ));
}

#[test]
fn remote_path_cannot_leave_the_prefix() {
    let mut world = World::with_content(b"x");
    let outcome = upload(&mut world, "../../etc/passwd", None);
    assert!(matches!(outcome, UploadOutcome::Synced(_)));
    assert_eq!(world.log[2], "send ../../etc/passwd backup/etc/passwd 1");
}
