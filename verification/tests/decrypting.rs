use mount_sync::course::{DecryptCourse, DecryptEvent, DecryptStep};
use mount_sync::decrypt::{DecryptFacts, DecryptGate, Destination, WrittenFile};
use mount_sync::directories::{DirectoryGate, DirectoryStep};
use mount_sync::errors::{is_low_space_error, MountSyncError};
use mount_sync::orphans::FileLook;
use mount_sync::path::{PathSet, SyncPath};
use mount_sync::pending::mount_collision_key;
use mount_sync::preview::{decode_conflict_preview_text, read_conflict_preview_text};
use mount_sync::sync::{DecryptOutcome, Expected};
use mount_sync::tracker::{FileSignature, PendingDeletion, SyncTracker};

fn p(text: &str) -> SyncPath {
    SyncPath::from_text(text)
}

fn signature(n: u128) -> FileSignature {
    FileSignature {
        modified_ns: n,
        ctime_ns: n,
        len: 5,
    }
}

fn present(paths: &[&str]) -> PathSet {
    let mut set = PathSet::new();
    for path in paths {
        set.insert(p(path), ());
    }
    set
}

fn facts(target_exists: bool) -> DecryptFacts {
    DecryptFacts {
        target_exists,
        target_links: if target_exists {
            Some((true, 1, 0o644))
        } else {
            None
        },
        cached_exists: target_exists,
        seen: None,
        seen_metadata: None,
        has_key: true,
    }
}

#[test]
fn new_files_go_where_their_names_say() {
    let tracker = SyncTracker::new();
    let dest = tracker
        .decrypt_destination(
            &p("/enc"),
            &p("/enc/a.txt.encrypted"),
            &p("/mount"),
            &"id".to_string(),
            &None,
        )
        .unwrap();
    assert_eq!(dest.target.display(), "/mount/a.txt");
    assert!(!dest.known);
    assert_eq!(dest.original_name, None);
    let odd = tracker
        .decrypt_destination(
            &p("/enc"),
            &p("/enc/x.encrypted"),
            &p("/mount"),
            &"id".to_string(),
            &Some("y".repeat(300)),
        )
        .unwrap();
    assert!(odd.target.display().len() < 260);
    assert_eq!(odd.original_name, Some("y".repeat(300)));
}

#[test]
fn known_files_stay_where_they_are() {
    let mut tracker = SyncTracker::new();
    tracker
        .files
        .file_id_to_mount_path
        .insert("id".to_string(), p("/mount/renamed.txt"));
    let dest = tracker
        .decrypt_destination(
            &p("/enc"),
            &p("/enc/a.txt.encrypted"),
            &p("/mount"),
            &"id".to_string(),
            &None,
        )
        .unwrap();
    assert_eq!(dest.target.display(), "/mount/renamed.txt");
    assert!(dest.known);
}

#[test]
fn files_are_decrypted_when_they_changed() {
    let mut tracker = SyncTracker::new();
    let encrypted = p("/enc/a.encrypted");
    let target = p("/mount/a");
    tracker.seed_file(encrypted.duplicate(), target.duplicate(), signature(1), signature(1));
    let (gate, ready, _) =
        tracker.begin_decrypt(&encrypted, &target, true, signature(1), facts(true));
    assert_eq!(gate, DecryptGate::UnchangedCached);
    assert_eq!(ready.display(), "/mount/a");
    assert_eq!(
        tracker
            .begin_decrypt(&encrypted, &target, true, signature(2), facts(true))
            .0,
        DecryptGate::Proceed
    );
    assert_eq!(
        tracker
            .begin_decrypt(&encrypted, &target, true, signature(1), facts(false))
            .0,
        DecryptGate::DeletedHere
    );
    let keyless = DecryptFacts {
        has_key: false,
        ..facts(false)
    };
    assert_eq!(
        tracker
            .begin_decrypt(&p("/enc/b.encrypted"), &p("/mount/b"), false, signature(1), keyless)
            .0,
        DecryptGate::NoKey
    );
}

#[test]
fn seeded_files_are_not_decrypted() {
    let mut tracker = SyncTracker::new();
    let encrypted = p("/enc/a.encrypted");
    let mounted = p("/mount/a");
    tracker.seed_file(encrypted.duplicate(), mounted.duplicate(), signature(1), signature(2));
    let dest = tracker
        .decrypt_destination(&p("/enc"), &encrypted, &p("/mount"), &"id".to_string(), &None)
        .unwrap();
    assert!(!dest.known);
    let (gate, ready, mode) =
        tracker.begin_decrypt(&encrypted, &dest.target, dest.known, signature(1), facts(true));
    assert_eq!(gate, DecryptGate::UnchangedCached);
    assert_eq!(ready.display(), "/mount/a");
    assert_eq!(mode, None);
    assert_eq!(
        tracker
            .begin_decrypt(&encrypted, &dest.target, dest.known, signature(3), facts(true))
            .0,
        DecryptGate::Proceed
    );
    assert_eq!(
        tracker
            .begin_decrypt(&encrypted, &dest.target, dest.known, signature(1), facts(false))
            .0,
        DecryptGate::Proceed
    );
}

#[test]
fn pending_deletions_are_not_restored() {
    let mut tracker = SyncTracker::new();
    let encrypted = p("/enc/a.encrypted");
    tracker.work.pending_deletions.insert(
        encrypted.duplicate(),
        PendingDeletion {
            mount_path: p("/mount/a"),
            consecutive_missing_scans: 1,
            had_healthy_scan: false,
        },
    );
    let (gate, ready, _) =
        tracker.begin_decrypt(&encrypted, &p("/mount/other"), false, signature(5), facts(false));
    assert_eq!(gate, DecryptGate::PendingDeletion);
    assert_eq!(ready.display(), "/mount/a");
}

#[test]
fn hard_linked_places_are_held_back() {
    let mut tracker = SyncTracker::new();
    let linked = DecryptFacts {
        target_links: Some((true, 2, 0o644)),
        ..facts(true)
    };
    let (gate, _, mode) =
        tracker.begin_decrypt(&p("/enc/a.encrypted"), &p("/mount/a"), false, signature(1), linked);
    assert_eq!(gate, DecryptGate::LinkFound);
    assert_eq!(mode, Some(0o444));
    let (gate, _, _) =
        tracker.begin_decrypt(&p("/enc/a.encrypted"), &p("/mount/a"), false, signature(1), linked);
    assert_eq!(gate, DecryptGate::LinkKnown);
}

#[test]
fn places_make_way_for_files_of_the_same_name() {
    let mut tracker = SyncTracker::new();
    let dest = |name: &str| Destination {
        target: p(&format!("/mount/{name}")),
        raw_name: name.to_string(),
        original_name: None,
        known: false,
    };
    let (first, name) = tracker.choose_target(&p("/mount"), dest("A.txt"), "id-1", false, &None);
    assert_eq!(first.display(), "/mount/A.txt");
    assert_eq!(name, None);
    let (second, name) = tracker.choose_target(&p("/mount"), dest("a.txt"), "id-2", false, &None);
    assert_eq!(second.display(), "/mount/a.txt.collision-id-2");
    assert_eq!(name.as_deref(), Some("a.txt"));
}

#[test]
fn collision_keys_ignore_case_and_composition() {
    assert_eq!(
        mount_collision_key(&p("/mount"), &p("/mount/A/E\u{301}.TXT")),
        mount_collision_key(&p("/mount"), &p("/mount/a/\u{e9}.txt"))
    );
    assert_eq!(mount_collision_key(&p("/mount"), &p("/x/a")), None);
}

#[test]
fn local_changes_go_beside_the_file() {
    let mut tracker = SyncTracker::new();
    let encrypted = p("/enc/a.encrypted");
    let target = p("/mount/a");
    tracker.seed_file(encrypted.duplicate(), target.duplicate(), signature(1), signature(1));
    let changed = FileLook::Found {
        signature: signature(2),
        content_hash: None,
        metadata_hash: None,
    };
    assert!(tracker.target_is_dirty(&encrypted, &target, changed));
    assert!(!tracker.target_is_dirty(&encrypted, &target, FileLook::Missing));
    assert!(!tracker.target_was_touched(&target, Some(signature(2)), changed));
    assert!(tracker.target_was_touched(&target, Some(signature(1)), changed));
    let copy = tracker
        .plan_decrypt_write(&target, true, 1, "20260311_120000", &present(&[]), None, None)
        .unwrap();
    assert_eq!(copy.display(), "/mount/a.conflict-20260311_120000");
    let own = tracker
        .plan_decrypt_write(&target, false, 1, "20260311_120000", &present(&[]), None, None)
        .unwrap();
    assert_eq!(own.display(), "/mount/a");
}

#[test]
fn files_wait_for_room() {
    let mut tracker = SyncTracker::new();
    let encrypted = p("/enc/a.encrypted");
    let target = p("/mount/a");
    let err = tracker
        .plan_decrypt_write(&target, false, 1, "x", &present(&[]), Some(1), None)
        .unwrap_err();
    assert!(is_low_space_error(&err));
    tracker.defer_low_space_refresh(&encrypted, &target, signature(1), &err);
    assert!(tracker.work.pending_refreshes.contains_key(&target));
    let mut expected = Expected::new();
    expected.add_file(DecryptOutcome::DeferredLowSpace(target.duplicate()));
    expected.add_directory(DecryptOutcome::Ready(p("/mount/d")));
    assert!(expected.deferred.contains_key(&target));
    assert!(expected.directories.contains_key(&p("/mount/d")));
    tracker.keep_expected_refreshes(&expected.paths);
    assert_eq!(tracker.work.pending_refreshes.len(), 1);
    tracker.keep_expected_refreshes(&present(&[]));
    assert!(tracker.work.pending_refreshes.is_empty());
}

#[test]
fn decrypted_files_are_known() {
    let mut tracker = SyncTracker::new();
    let encrypted = p("/enc/a.encrypted");
    let target = p("/mount/a");
    tracker.finish_decrypt(
        &encrypted,
        &target,
        &target,
        false,
        signature(1),
        "id".to_string(),
        WrittenFile {
            seen: Some(signature(4)),
            content_hash: Some([1; 32]),
            metadata_hash: None,
        },
    );
    assert_eq!(
        tracker.files.decrypted_signatures.get(&target).unwrap().modified_ns,
        4
    );
    assert_eq!(tracker.files.decrypted_hashes.get(&target), Some(&[1; 32]));
    assert_eq!(
        tracker.files.file_id_to_mount_path.get(&"id".to_string()).unwrap().display(),
        "/mount/a"
    );
}

#[test]
fn decryption_looks_twice_before_it_writes() {
    let mut course = DecryptCourse::new();
    for event in [
        DecryptEvent::Gate(DecryptGate::Proceed),
        DecryptEvent::Done,
        DecryptEvent::Changed(false),
        DecryptEvent::Changed(false),
        DecryptEvent::Room(true),
        DecryptEvent::Done,
        DecryptEvent::Done,
    ] {
        course.advance(event);
    }
    assert_eq!(course.step, DecryptStep::Note);
    assert!(!course.conflict && course.looked && course.looked_again);
    let mut course = DecryptCourse::new();
    course.advance(DecryptEvent::Gate(DecryptGate::Proceed));
    course.advance(DecryptEvent::Done);
    course.advance(DecryptEvent::Changed(true));
    assert!(course.conflict);
    assert_eq!(course.step, DecryptStep::AskRoom);
    course.advance(DecryptEvent::Room(false));
    assert_eq!(course.step, DecryptStep::Deferred);
    let mut course = DecryptCourse::new();
    course.advance(DecryptEvent::Gate(DecryptGate::Unchanged));
    assert_eq!(course.step, DecryptStep::Ready);
}

#[test]
fn directories_are_made_when_they_are_new() {
    let mut tracker = SyncTracker::new();
    let encrypted = p("/enc/d/.hybridcipher_dir.encrypted");
    let target = p("/mount/d");
    assert_eq!(
        tracker.begin_directory(&encrypted, &target, signature(1), false, None, None),
        DirectoryGate::Proceed
    );
    tracker.finish_directory(&encrypted, &target, signature(1), Some(signature(2)), None);
    assert_eq!(
        tracker.begin_directory(&encrypted, &target, signature(1), true, None, None),
        DirectoryGate::Unchanged
    );
    assert_eq!(
        tracker.begin_directory(&encrypted, &target, signature(1), false, None, None),
        DirectoryGate::DeletedHere
    );
    assert!(tracker.plan_directory_refresh(&target, Some(0), None).is_err());
    assert!(tracker.plan_directory_refresh(&target, None, None).is_ok());
}

#[test]
fn directories_of_the_mount_are_encrypted() {
    let mut tracker = SyncTracker::new();
    tracker.set_excluded_patterns(&vec!["skip".to_string()]);
    let root = p("/mount");
    let path = p("/mount/d");
    let encrypted = p("/enc/d/.hybridcipher_dir.encrypted");
    assert!(tracker.should_sync_directory_metadata(&root, &path, false));
    assert!(!tracker.should_sync_directory_metadata(&root, &root, false));
    assert!(!tracker.should_sync_directory_metadata(&root, &p("/mount/skip"), false));
    assert!(!tracker.should_sync_directory_metadata(&root, &p("/mount/A.app"), false));
    assert!(tracker.should_sync_directory_metadata(&root, &p("/mount/A.app"), true));
    assert_eq!(
        tracker.scan_directory(&root, &path, &encrypted, false, false, None, 1),
        DirectoryStep::Encrypt
    );
    assert!(tracker
        .finish_directory_encryption(&path, &encrypted, Ok(signature(3)), 2)
        .is_ok());
    tracker.note_directory_scanned(&path, &encrypted, signature(1), None, None);
    assert_eq!(
        tracker.scan_directory(&root, &path, &encrypted, true, true, None, 3),
        DirectoryStep::Unchanged
    );
    let err = tracker.finish_directory_encryption(
        &path,
        &encrypted,
        Err(MountSyncError::Crypto("bad".to_string())),
        2,
    );
    assert_eq!(err.err().map(|e| e.message()).as_deref(), Some("Crypto error: bad"));
}

#[test]
fn previews_are_text() {
    assert_eq!(
        decode_conflict_preview_text(&b"plain".to_vec()).as_deref(),
        Some("plain")
    );
    assert_eq!(decode_conflict_preview_text(&vec![0x61, 0, 0x62]), None);
    assert_eq!(
        decode_conflict_preview_text(&vec![0xff, 0xfe, 0x3b, 0x26, 0x3c, 0x26]).as_deref(),
        Some("\u{263b}\u{263c}")
    );
    assert_eq!(
        decode_conflict_preview_text(&vec![0xfe, 0xff, 0x26, 0x3b]).as_deref(),
        Some("\u{263b}")
    );
    assert_eq!(decode_conflict_preview_text(&vec![0xff, 0xfe, 0x3b]), None);
    assert_eq!(
        decode_conflict_preview_text(&vec![0xff, 0xfe, 0x3d, 0xd8, 0x01, 0xde]).as_deref(),
        Some("\u{1f601}")
    );
    assert_eq!(decode_conflict_preview_text(&vec![0xff, 0xfe, 0x3d, 0xd8]), None);
    assert_eq!(read_conflict_preview_text(1024 * 1024 + 1, &b"x".to_vec()), None);
    assert_eq!(
        read_conflict_preview_text(1, &b"x".to_vec()).as_deref(),
        Some("x")
    );
}
