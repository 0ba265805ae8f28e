use bdrive::db::RemoteFile;
use bdrive::fs::file::{Classification, File, IOError};
use bdrive::fs::state::{Diff, Identity, Local, LocalHashed, Remote, Sync};
use bdrive::fs::{FileSuccess, LocalFile, Split, SyncState, ToRemoteFile, Upload};

const A: &str = "ba7816bf8f01cfea414140de5dae2223b00361a396177a9cb410ff61f20015ad";
const B: &str = "e3b0c44298fc1c149afbf4c8996fb92427ae41e4649b934ca495991b7852b855";

fn id(hash: &str, size: u64) -> Identity {
    Identity::new(hash.to_string(), size)
}

fn hashed(path: &str, hash: &str, size: u64) -> File<LocalHashed> {
    File::new(path.to_string(), LocalHashed::new(id(hash, size)))
}

fn remote(path: &str, hash: &str, size: u64) -> File<Remote> {
    RemoteFile::new(path.to_string(), hash.to_string(), size).to_local()
}

#[test]
fn local_file_is_made_from_a_path() {
    let from_string = File::<Local>::from("a.bin".to_string());
    assert_eq!(from_string.path, "a.bin");
    let from_str = File::<Local>::from("dir/b.bin");
    assert_eq!(from_str.path, "dir/b.bin");
    assert_eq!(from_str.path(), "dir/b.bin");
    let built = File::new("c.bin".to_string(), Local::new());
    assert_eq!(built.path, "c.bin");
}

#[test]
fn hashing_moves_a_file_to_its_next_stage() {
    let file = File::<Local>::from("a.bin");
    let next = file.hash(Ok(id(A, 3))).unwrap();
    assert_eq!(next.path, "a.bin");
    assert!(next.state.local == id(A, 3));
}

#[test]
fn failed_hashing_gives_the_file_back() {
    let file = File::<Local>::from("a.bin");
    let (error, back) = file.hash(Err(IOError { message: "denied".to_string() })).unwrap_err();
    assert_eq!(error.message, "denied");
    assert_eq!(back.path, "a.bin");
}

#[test]
fn file_without_a_record_is_new() {
    match hashed("a.bin", A, 3).reconcile_against(None) {
        Classification::New(file) => {
            assert_eq!(file.path, "a.bin");
            assert!(file.state.local == id(A, 3));
        }
        other => panic!("unexpected {:?}", other),
    }
}

#[test]
fn file_with_its_own_identity_recorded_is_synced() {
    match hashed("a.bin", A, 3).reconcile_against(Some(id(A, 3))) {
        Classification::Synced(file) => {
            assert_eq!(file.path, "a.bin");
            assert!(file.state.id == id(A, 3));
        }
        other => panic!("unexpected {:?}", other),
    }
}

#[test]
fn file_with_another_identity_recorded_has_diverged() {
    for recorded in [id(B, 3), id(A, 4), id(B, 0)] {
        let expected = recorded.clone();
        match hashed("a.bin", A, 3).reconcile_against(Some(recorded)) {
            Classification::Diverged(file) => {
                assert_eq!(file.path, "a.bin");
                assert!(file.state.local == id(A, 3));
                assert!(file.state.remote == expected);
                assert!(file.state.local != file.state.remote);
            }
            other => panic!("unexpected {:?}", other),
        }
    }
}

#[test]
fn classification_is_total() {
    let locals = [id(A, 3), id(B, 0)];
    let remotes = [None, Some(id(A, 3)), Some(id(B, 0)), Some(id(A, 0))];
    for local in &locals {
        for recorded in &remotes {
            let file = File::new("p".to_string(), LocalHashed::new(local.clone()));
            let class = file.reconcile_against(recorded.clone());
            let differ = match recorded {
                Some(other) => other != local,
                None => false,
            };
            match class {
                Classification::New(_) => assert!(recorded.is_none()),
                Classification::Synced(_) => assert!(recorded.is_some() && !differ),
                Classification::Diverged(_) => assert!(differ),
            }
        }
    }
}

#[test]
fn attaching_an_equal_record_gives_sync() {
    match hashed("a.bin", A, 3).attach_remote(remote("a.bin", A, 3)) {
        SyncState::Sync(file) => {
            assert_eq!(file.path, "a.bin");
            assert!(file.state.id == id(A, 3));
        }
        other => panic!("unexpected {:?}", other),
    }
}

#[test]
fn attaching_another_record_gives_diff() {
    match hashed("a.bin", A, 3).attach_remote(remote("a.bin", B, 0)) {
        SyncState::Diff(file) => {
            assert!(file.state.local == id(A, 3));
            assert!(file.state.remote == id(B, 0));
        }
        other => panic!("unexpected {:?}", other),
    }
}

#[test]
fn attaching_to_a_diverged_file_replaces_its_remote_side() {
    let diverged = File::new("a.bin".to_string(), Diff { local: id(A, 3), remote: id(B, 0) });
    match diverged.attach_remote(remote("a.bin", A, 3)) {
        SyncState::Sync(file) => assert!(file.state.id == id(A, 3)),
        other => panic!("unexpected {:?}", other),
    }
    let diverged = File::new("a.bin".to_string(), Diff { local: id(A, 3), remote: id(B, 0) });
    match diverged.attach_remote(remote("a.bin", B, 7)) {
        SyncState::Diff(file) => {
            assert!(file.state.local == id(A, 3));
            assert!(file.state.remote == id(B, 7));
        }
        other => panic!("unexpected {:?}", other),
    }
}

#[test]
fn diverged_file_splits_into_its_halves() {
    let diverged = File::new("a.bin".to_string(), Diff { local: id(A, 3), remote: id(B, 0) });
    let (local, recorded) = diverged.split();
    assert_eq!(local.path, "a.bin");
    assert_eq!(recorded.path, "a.bin");
    assert!(local.state.local == id(A, 3));
    assert!(recorded.state.remote == id(B, 0));
}

#[test]
fn synced_file_splits_into_equal_halves() {
    let synced = File::new("a.bin".to_string(), Sync { id: id(A, 3) });
    let (local, recorded) = synced.split();
    assert_eq!(local.path, "a.bin");
    assert_eq!(recorded.path, "a.bin");
    assert!(local.state.local == recorded.state.remote);
}

#[test]
fn downcast_keeps_only_the_local_identity() {
    let diverged = File::new("a.bin".to_string(), Diff { local: id(A, 3), remote: id(B, 0) });
    let down = diverged.downcast();
    assert_eq!(down.path, "a.bin");
    assert!(down.state.local == id(A, 3));
    let again = hashed("b.bin", B, 0).downcast();
    assert_eq!(again.path, "b.bin");
    assert!(again.state.local == id(B, 0));
}

#[test]
fn upcast_takes_the_local_identity_as_synced() {
    let up = hashed("a.bin", A, 3).upcast();
    assert_eq!(up.path, "a.bin");
    assert!(up.state.id == id(A, 3));
    let diverged = File::new("a.bin".to_string(), Diff { local: id(A, 3), remote: id(B, 0) });
    let by_trait = Upload::upcast(&diverged);
    assert!(by_trait.state.id == id(A, 3));
}

#[test]
fn local_identity_is_the_local_side() {
    assert!(hashed("a.bin", A, 3).local_identity() == id(A, 3));
    let diverged = File::new("a.bin".to_string(), Diff { local: id(A, 3), remote: id(B, 0) });
    assert!(diverged.local_identity() == id(A, 3));
}

#[test]
fn records_are_written_from_every_stage() {
    let from_hashed = hashed("a.bin", A, 3).to_remote_file();
    assert_eq!((from_hashed.path.as_str(), from_hashed.hash.as_str(), from_hashed.size), ("a.bin", A, 3));
    let from_remote = remote("b.bin", B, 0).to_remote_file();
    assert_eq!((from_remote.path.as_str(), from_remote.hash.as_str(), from_remote.size), ("b.bin", B, 0));
    let from_sync = File::new("c.bin".to_string(), Sync { id: id(A, 9) }).to_remote_file();
    assert_eq!((from_sync.path.as_str(), from_sync.hash.as_str(), from_sync.size), ("c.bin", A, 9));
    let diverged = File::new("d.bin".to_string(), Diff { local: id(A, 3), remote: id(B, 0) });
    let from_diff = diverged.to_remote_file();
    assert_eq!((from_diff.path.as_str(), from_diff.hash.as_str(), from_diff.size), ("d.bin", A, 3));
}

#[test]
fn record_becomes_a_remote_file() {
    let record = RemoteFile::new("a.bin".to_string(), A.to_string(), 3);
    let file = record.to_local();
    assert_eq!(file.path, "a.bin");
    assert!(file.state.remote == id(A, 3));
    let other = File::<Remote>::from(RemoteFile::new("b".to_string(), B.to_string(), 0));
    assert_eq!(other.path, "b");
    assert!(other.state.remote == id(B, 0));
}

#[test]
fn fingerprinted_files_compare_by_content() {
    assert!(hashed("a.bin", A, 3) == hashed("elsewhere/a.bin", A, 3));
    assert!(hashed("a.bin", A, 3) != hashed("a.bin", B, 3));
    assert!(hashed("a.bin", A, 3) != hashed("a.bin", A, 4));
}

#[test]
fn stage_payloads_compare_by_identity() {
    assert!(Remote { remote: id(A, 3) } == Remote { remote: id(A, 3) });
    assert!(Remote { remote: id(A, 3) } != Remote { remote: id(B, 3) });
    assert!(Sync { id: id(A, 3) } == Sync { id: id(A, 3) });
    assert!(Sync { id: id(A, 3) } != Sync { id: id(A, 4) });
    let one = Diff { local: id(A, 3), remote: id(B, 0) };
    assert!(one == Diff { local: id(A, 3), remote: id(B, 0) });
    assert!(one != Diff { local: id(B, 0), remote: id(A, 3) });
}

#[test]
fn file_success_carries_a_value_either_way() {
    let yes: FileSuccess<u32, &str> = FileSuccess::Yes(1);
    let no: FileSuccess<u32, &str> = FileSuccess::No("left");
    assert!(matches!(yes, FileSuccess::Yes(1)));
    assert!(matches!(no, FileSuccess::No("left")));
}
