use mount_sync::config::DeletionConfig;
use mount_sync::errors::MountSyncError;
use mount_sync::held::{
    modes_to_restore, protection_order, restoration_order, LowSpaceStep, Protected, RestoredMode,
};
use mount_sync::missing::{
    deepest_first, DirectoryTrack, MissingFacts, MissingStep, Nested, TrackStep,
};
use mount_sync::open_unlinked::{add_owner, deleted_open_candidate_path, OpenStep};
use mount_sync::orphans::{FileLook, OrphanVerdict};
use mount_sync::path::{PathMap, PathSet, SyncPath};
use mount_sync::retention::{plaintext_retention_folder, retention_paths, RetentionNote};
use mount_sync::sync::DeletionWork;
use mount_sync::tracker::{
    FileSignature, OpenUnlinkedOwner, PendingDeletion, PendingOrphan, ScanHealth, SyncTracker,
};

const NOW: i128 = 1_773_230_400_000_000_000;
const DAY: i128 = 86_400_000_000_000;

fn p(text: &str) -> SyncPath {
    SyncPath::from_text(text)
}

fn signature(n: u128) -> FileSignature {
    FileSignature {
        modified_ns: n,
        ctime_ns: n,
        len: 5,
    }
}

fn present(paths: &[&str]) -> PathSet {
    let mut set = PathSet::new();
    for path in paths {
        set.insert(p(path), ());
    }
    set
}

fn with_deletion(scans: u32) -> SyncTracker {
    let mut tracker = SyncTracker::new();
    tracker.set_deletion_config(DeletionConfig {
        min_consecutive_missing_scans: 3,
        rapid_scan_total_duration_ms: 100,
        retention_days: 1,
        retention_folder: None,
    });
    tracker.seed_file(p("/enc/a.encrypted"), p("/mount/a"), signature(1), signature(1));
    tracker.work.pending_deletions.insert(
        p("/enc/a.encrypted"),
        PendingDeletion {
            mount_path: p("/mount/a"),
            consecutive_missing_scans: scans,
            had_healthy_scan: true,
        },
    );
    tracker
}

#[test]
fn deletions_are_confirmed_by_scans() {
    let mut tracker = with_deletion(2);
    let deleted = tracker.process_pending_deletions(&p("/enc"), &p("/mount"), &present(&[]));
    assert!(deleted.is_empty());
    let watched = tracker.deletions_to_verify();
    assert_eq!(watched.len(), 1);
    assert!(tracker.continue_rapid_scans(0, 0));
    assert!(!tracker.continue_rapid_scans(3, 0));
    assert!(!tracker.continue_rapid_scans(0, 100));
    let left = tracker.rapid_verification_scan(&watched, &present(&[]), true);
    assert_eq!(left.len(), 1);
    let deleted = tracker.process_pending_deletions(&p("/enc"), &p("/mount"), &present(&[]));
    assert_eq!(deleted.len(), 1);
    assert_eq!(deleted[0].display(), "/enc/a.encrypted");
    assert!(tracker.work.pending_deletions.is_empty());
    assert!(!tracker.files.decrypted_signatures.contains_key(&p("/mount/a")));
}

#[test]
fn files_that_are_back_are_not_deleted() {
    let mut tracker = with_deletion(9);
    let deleted =
        tracker.process_pending_deletions(&p("/enc"), &p("/mount"), &present(&["/mount/a"]));
    assert!(deleted.is_empty());
    assert!(tracker.work.pending_deletions.is_empty());
}

#[test]
fn open_files_are_not_deleted() {
    let mut tracker = with_deletion(9);
    tracker.record_pending_open_unlinked(
        &p("/mount/a"),
        Some(p("/enc/a.encrypted")),
        true,
        false,
        Vec::new(),
        NOW,
    );
    let deleted = tracker.process_pending_deletions(&p("/enc"), &p("/mount"), &present(&[]));
    assert!(deleted.is_empty());
}

#[test]
fn deletions_outside_the_roots_wait() {
    let mut tracker = with_deletion(9);
    let deleted = tracker.process_pending_deletions(&p("/other"), &p("/mount"), &present(&[]));
    assert!(deleted.is_empty());
    assert_eq!(tracker.work.pending_deletions.len(), 1);
}

#[test]
fn counts_start_anew() {
    let mut tracker = with_deletion(9);
    tracker.reset_pending_deletion_counts();
    let deleted = tracker.process_pending_deletions(&p("/enc"), &p("/mount"), &present(&[]));
    assert!(deleted.is_empty());
}

#[test]
fn deletion_work_depends_on_the_mount() {
    let mut tracker = SyncTracker::new();
    assert_eq!(tracker.deletion_work(), DeletionWork::Process);
    tracker.set_scan_health(ScanHealth::Unhealthy {
        reason: "x".to_string(),
    });
    assert_eq!(tracker.deletion_work(), DeletionWork::Reset);
    tracker.suppress_deletion_processing = true;
    assert_eq!(tracker.deletion_work(), DeletionWork::Skip);
}

fn facts(encrypted_exists: bool) -> MissingFacts {
    MissingFacts {
        tracked_exists: false,
        encrypted_exists,
        encrypted_id: Some("id".to_string()),
        new_encrypted_exists: false,
        new_encrypted_id: None,
    }
}

#[test]
fn missing_files_are_pending_first() {
    let mut tracker = SyncTracker::new();
    let path = p("/mount/a");
    let encrypted = p("/enc/a.encrypted");
    tracker.seed_file(encrypted.duplicate(), path.duplicate(), signature(1), signature(1));
    let none = present(&[]);
    let (step, mode) =
        tracker.note_missing_file(&path, &encrypted, &none, &none, &none, &facts(true));
    assert_eq!((step, mode), (MissingStep::NewlyPending, None));
    let pending = tracker.work.pending_deletions.get(&encrypted).unwrap();
    assert_eq!(pending.consecutive_missing_scans, 1);
    assert!(pending.had_healthy_scan);
    let again = tracker.note_missing_file(&path, &encrypted, &none, &none, &none, &facts(true));
    assert_eq!(again.0, MissingStep::AlreadyPending);
    let gone = tracker.note_missing_file(&path, &encrypted, &none, &none, &none, &facts(false));
    assert_eq!(gone.0, MissingStep::Gone);
    assert!(tracker.work.pending_deletions.is_empty());
    assert!(!tracker.files.decrypted_signatures.contains_key(&path));
}

#[test]
fn protected_files_are_passed_over() {
    let mut tracker = SyncTracker::new();
    let path = p("/mount/a");
    let encrypted = p("/enc/a.encrypted");
    let none = present(&[]);
    let protected = present(&["/mount/a"]);
    assert_eq!(
        tracker
            .note_missing_file(&path, &encrypted, &none, &protected, &none, &facts(true))
            .0,
        MissingStep::Protected
    );
    assert_eq!(
        tracker
            .note_missing_file(&path, &encrypted, &protected, &none, &none, &facts(true))
            .0,
        MissingStep::Here
    );
}

#[test]
fn moved_files_take_their_encrypted_form_along() {
    let mut tracker = SyncTracker::new();
    let path = p("/mount/a");
    let encrypted = p("/enc/a.encrypted");
    tracker.seed_file(encrypted.duplicate(), path.duplicate(), signature(1), signature(1));
    let there = present(&["/mount/b"]);
    tracker.settle_file_id(&p("/mount/b"), Some("id".to_string()), &there);
    assert_eq!(
        tracker
            .moved_to(&path, &Some("id".to_string()), &there)
            .unwrap()
            .display(),
        "/mount/b"
    );
    let none = present(&[]);
    let waiting = tracker.note_missing_file(&path, &encrypted, &none, &none, &there, &facts(true));
    assert_eq!(waiting.0, MissingStep::Deferred);
    let moved = MissingFacts {
        new_encrypted_exists: true,
        new_encrypted_id: Some("id".to_string()),
        ..facts(true)
    };
    assert_eq!(
        tracker
            .note_missing_file(&path, &encrypted, &none, &none, &there, &moved)
            .0,
        MissingStep::Renamed
    );
    assert!(!tracker.files.decrypted_signatures.contains_key(&path));
}

#[test]
fn orphans_are_counted_and_retained() {
    let mut tracker = SyncTracker::new();
    tracker.set_deletion_config(DeletionConfig {
        min_consecutive_missing_scans: 2,
        rapid_scan_total_duration_ms: 100,
        retention_days: 1,
        retention_folder: None,
    });
    let path = p("/mount/a");
    let encrypted = p("/enc/a.encrypted");
    tracker.seed_file(encrypted.duplicate(), path.duplicate(), signature(1), signature(1));
    let look = FileLook::Found {
        signature: signature(1),
        content_hash: None,
        metadata_hash: None,
    };
    let none = present(&[]);
    assert_eq!(
        tracker.track_missing_encrypted_file(&path, &encrypted, &none, look),
        TrackStep::Count
    );
    assert_eq!(
        tracker.check_orphan(&p("/mount"), &path, false, true, look),
        OrphanVerdict::Wait
    );
    assert_eq!(
        tracker.track_missing_encrypted_file(&path, &encrypted, &none, look),
        TrackStep::Count
    );
    assert_eq!(
        tracker.check_orphan(&p("/mount"), &path, false, true, look),
        OrphanVerdict::Retain
    );
    tracker.finish_orphan(&path);
    assert!(tracker.work.pending_orphans.is_empty());
    assert!(!tracker.files.decrypted_signatures.contains_key(&path));
}

#[test]
fn unchanged_orphaned_plaintext_moves_to_retention_after_threshold() {
    let mut tracker = SyncTracker::new();
    tracker.set_retention_folder(&p("/config"), true);
    tracker.set_deletion_config(DeletionConfig {
        min_consecutive_missing_scans: 2,
        rapid_scan_total_duration_ms: 100,
        retention_days: 7,
        retention_folder: None,
    });
    let path = p("/mount/document.txt");
    let encrypted = p("/enc/document.txt.encrypted");
    tracker.seed_file(encrypted.duplicate(), path.duplicate(), signature(1), signature(1));
    let look = FileLook::Found {
        signature: signature(1),
        content_hash: None,
        metadata_hash: None,
    };
    let none = present(&[]);
    tracker.track_missing_encrypted_file(&path, &encrypted, &none, look);
    assert_eq!(tracker.work.pending_orphans.len(), 1);
    tracker.track_missing_encrypted_file(&path, &encrypted, &none, look);
    let verdict = tracker.check_orphan(&p("/mount"), &path, false, true, look);
    assert_eq!(verdict, OrphanVerdict::Retain);
    tracker.finish_orphan(&path);
    assert!(tracker.work.pending_orphans.is_empty());

    let kept = tracker.settings.deletion_config.retention_folder.as_ref().unwrap();
    let folder = plaintext_retention_folder(kept);
    assert_eq!(folder.display(), "/config/retention/plaintext-orphans");
    let (target, note) = retention_paths(&folder, "20260311_120000", &path);
    assert_eq!(
        target.display(),
        "/config/retention/plaintext-orphans/20260311_120000_document.txt"
    );
    assert_eq!(
        note.display(),
        "/config/retention/plaintext-orphans/20260311_120000_document.txt.meta.json"
    );
}

#[test]
fn changed_orphans_are_kept() {
    let mut tracker = SyncTracker::new();
    let path = p("/mount/a");
    let encrypted = p("/enc/a.encrypted");
    tracker.seed_file(encrypted.duplicate(), path.duplicate(), signature(1), signature(1));
    tracker.work.pending_orphans.insert(
        path.duplicate(),
        PendingOrphan {
            encrypted_path: encrypted.duplicate(),
            consecutive_missing_scans: 99,
            had_healthy_scan: true,
        },
    );
    let changed = FileLook::Found {
        signature: signature(2),
        content_hash: None,
        metadata_hash: None,
    };
    assert_eq!(
        tracker.check_orphan(&p("/mount"), &path, false, true, changed),
        OrphanVerdict::Cancel
    );
    assert_eq!(
        tracker.check_orphan(&p("/mount"), &path, true, true, changed),
        OrphanVerdict::Cancel
    );
    assert_eq!(
        tracker.check_orphan(&p("/mount"), &path, false, true, FileLook::Unreadable),
        OrphanVerdict::Wait
    );
    tracker.cancel_orphan(&path);
    assert!(tracker.work.pending_orphans.is_empty());
    assert!(tracker.files.decrypted_signatures.contains_key(&path));
}

#[test]
fn directories_follow_the_encrypted_side() {
    let mut tracker = SyncTracker::new();
    let path = p("/mount/d");
    let encrypted = p("/enc/d/.hybridcipher_dir.encrypted");
    tracker.finish_directory(&encrypted, &path, signature(1), Some(signature(2)), None);
    let none = present(&[]);
    assert_eq!(
        tracker.track_missing_encrypted_directory(
            &p("/mount"),
            &path,
            &encrypted,
            &present(&["/mount/d"]),
            &none,
            true,
            None
        ),
        DirectoryTrack::Keep
    );
    assert_eq!(
        tracker.track_missing_encrypted_directory(
            &p("/mount"),
            &path,
            &encrypted,
            &none,
            &none,
            true,
            None
        ),
        DirectoryTrack::RemoveIfEmpty
    );
    assert!(tracker.directory_was_removed(&p("/mount"), &path, &none, &none));
    assert!(!tracker.directory_was_removed(&p("/mount"), &p("/mount"), &none, &none));
    tracker.forget_directory(&path, &encrypted);
    assert!(tracker.files.decrypted_directory_signatures.is_empty());
    assert!(tracker.files.encrypted_directory_signatures.is_empty());
}

#[test]
fn retention_cleanup_clamps_future_timestamps() {
    let mut tracker = SyncTracker::new();
    tracker.set_retention_folder(&p("/config"), true);
    tracker.set_deletion_config(DeletionConfig {
        min_consecutive_missing_scans: 2,
        rapid_scan_total_duration_ms: 100,
        retention_days: 1,
        retention_folder: None,
    });
    let name = "20260311_120000_document.txt.encrypted";
    assert!(!tracker.retention_expired(name, RetentionNote::DeletedAt(NOW + DAY), None, NOW));
}

#[test]
fn retention_ends_by_the_note_the_name_or_the_time() {
    let mut tracker = SyncTracker::new();
    tracker.set_deletion_config(DeletionConfig {
        min_consecutive_missing_scans: 2,
        rapid_scan_total_duration_ms: 100,
        retention_days: 1,
        retention_folder: None,
    });
    let name = "20260311_120000_document.txt.encrypted";
    assert!(tracker.retention_expired(name, RetentionNote::DeletedAt(NOW - 2 * DAY), None, NOW));
    assert!(!tracker.retention_expired(name, RetentionNote::DeletedAt(NOW - DAY), None, NOW));
    assert!(!tracker.retention_expired(name, RetentionNote::Absent, None, NOW));
    assert!(tracker.retention_expired(name, RetentionNote::Absent, None, NOW + 3 * DAY));
    assert!(!tracker.retention_expired("other", RetentionNote::Absent, None, NOW));
    assert!(tracker.retention_expired("other", RetentionNote::Absent, Some(NOW - 2 * DAY), NOW));
    assert!(!tracker.retention_expired(
        "20200101_000000_x.meta.json",
        RetentionNote::Absent,
        None,
        NOW
    ));
    assert!(!tracker.retention_expired(name, RetentionNote::Unreadable, None, NOW));
}

#[test]
fn retained_files_are_named_by_their_time() {
    let (file, note) = retention_paths(&p("/config/retention"), "20260311_120000", &p("/enc/a.encrypted"));
    assert_eq!(file.display(), "/config/retention/20260311_120000_a.encrypted");
    assert_eq!(
        note.display(),
        "/config/retention/20260311_120000_a.encrypted.meta.json"
    );
    assert_eq!(
        plaintext_retention_folder(&p("/config/retention")).display(),
        "/config/retention/plaintext-orphans"
    );
}

#[test]
fn deleted_files_that_are_open_are_followed() {
    let mut tracker = SyncTracker::new();
    let path = p("/mount/document.txt");
    tracker.record_pending_writeback(&path, &p("/enc/document.txt.encrypted"), None, NOW);
    tracker.work.pending_deletions.insert(
        p("/enc/document.txt.encrypted"),
        PendingDeletion {
            mount_path: path.duplicate(),
            consecutive_missing_scans: 1,
            had_healthy_scan: true,
        },
    );
    let there = present(&["/enc/document.txt.encrypted"]);
    tracker.note_still_open(
        &p("/enc"),
        &p("/mount"),
        &path,
        vec![OpenUnlinkedOwner {
            pid: 99,
            name: "Preview".to_string(),
        }],
        &there,
        NOW,
    );
    let entry = tracker.work.pending_open_unlinked.get(&path).unwrap();
    assert!(entry.encrypted_version_exists);
    assert!(entry.had_unsynced_local_writeback);
    assert_eq!(entry.owners[0].pid, 99);
    assert!(tracker.work.pending_writebacks.is_empty());
    assert!(tracker.work.pending_deletions.is_empty());
    assert!(!tracker.can_cleanup_mountpoint());
    assert_eq!(
        tracker.open_unlinked_step(&path, true, &there),
        OpenStep::StillOpen
    );
    assert_eq!(
        tracker.open_unlinked_step(&path, false, &there),
        OpenStep::Recover
    );
    assert_eq!(
        tracker.open_unlinked_step(&path, false, &present(&[])),
        OpenStep::Lost
    );
    let copy = tracker
        .plan_open_recovery(&path, 10, "20260311_120000", &present(&[]), None)
        .unwrap();
    assert_eq!(copy.display(), "/mount/document.txt.conflict-20260311_120000");
    assert!(tracker.finish_open_recovery(&path, Ok(copy)).is_ok());
    assert!(!tracker.work.pending_open_unlinked.contains_key(&path));
}

#[test]
fn observed_paths_are_brought_under_the_mount() {
    assert_eq!(
        deleted_open_candidate_path(&p("/mount/a"), &p("/mount"), &None)
            .unwrap()
            .display(),
        "/mount/a"
    );
    assert_eq!(
        deleted_open_candidate_path(&p("/private/mount/a"), &p("/mount"), &Some(p("/private/mount")))
            .unwrap()
            .display(),
        "/mount/a"
    );
    assert!(deleted_open_candidate_path(&p("/x/a"), &p("/mount"), &None).is_none());
}

#[test]
fn owners_are_listed_once() {
    let mut owners = Vec::new();
    for pid in [1, 1, 2, 3, 4, 5, 6, 7, 8, 9] {
        add_owner(
            &mut owners,
            OpenUnlinkedOwner {
                pid,
                name: "x".to_string(),
            },
        );
    }
    assert_eq!(owners.len(), 8);
}

#[test]
fn deep_directories_are_removed_first() {
    let found = ["/enc/a", "/enc/b/c/d", "/enc/b", "/enc/b/c"];
    let nested = found.iter().map(|text| Nested { path: p(text) }).collect();
    let order: Vec<String> =
        deepest_first(nested).iter().map(|entry| entry.path.display()).collect();
    assert_eq!(order, ["/enc/b/c/d", "/enc/b/c", "/enc/a", "/enc/b"]);
}

#[test]
fn permissions_go_from_below_and_come_back_from_above() {
    let found = ["/m", "/m/b", "/m/b/x", "/m/a", "/m/a/y", "/m/a.txt"];
    let paths = found.iter().map(|text| Protected { path: p(text) }).collect();
    let order: Vec<String> =
        protection_order(paths).iter().map(|entry| entry.path.display()).collect();
    assert_eq!(order, ["/m/a/y", "/m/b/x", "/m/a", "/m/a.txt", "/m/b", "/m"]);

    let modes = order
        .iter()
        .enumerate()
        .map(|(i, text)| RestoredMode { path: p(text), mode: i as u32 })
        .collect();
    let back: Vec<(String, u32)> = restoration_order(modes)
        .iter()
        .map(|entry| (entry.path.display(), entry.mode))
        .collect();
    let paths: Vec<&str> = back.iter().map(|entry| entry.0.as_str()).collect();
    let numbers: Vec<u32> = back.iter().map(|entry| entry.1).collect();
    assert_eq!(paths, ["/m", "/m/a", "/m/a/y", "/m/a.txt", "/m/b", "/m/b/x"]);
    assert_eq!(numbers, [5, 2, 0, 3, 4, 1]);
}

#[test]
fn permissions_come_back() {
    let mut tracker = SyncTracker::new();
    tracker.record_pending_refresh(
        &p("/mount/a"),
        &p("/enc/a.encrypted"),
        &MountSyncError::Format("No space left on device".to_string()),
    );
    assert_eq!(tracker.enforce_low_space_mount_mode(), LowSpaceStep::MakeReadonly);
    let mut modes = PathMap::new();
    modes.insert(p("/mount/a"), 0o640);
    modes.insert(p("/mount"), 0o755);
    tracker.enter_readonly(modes);
    assert_eq!(tracker.enforce_low_space_mount_mode(), LowSpaceStep::Keep);
    tracker.clear_pending_refresh(&p("/mount/a"));
    assert_eq!(tracker.enforce_low_space_mount_mode(), LowSpaceStep::Restore);
    let back: Vec<(String, u32)> = modes_to_restore(&tracker.held.mount_readonly_restore_modes)
        .iter()
        .map(|entry| (entry.path.display(), entry.mode))
        .collect();
    assert_eq!(
        back,
        vec![("/mount".to_string(), 0o755), ("/mount/a".to_string(), 0o640)]
    );
    tracker.leave_readonly();
    assert!(!tracker.held.mount_readonly_active);
}
