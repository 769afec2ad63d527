use mount_sync::path::{PathMap, PathSet, SyncPath};
use mount_sync::reconcile::{
    check_deletion_limit, recovery_destination, resolve_startup_conflict, sum_up, ConflictStep,
    MountedFile, ReconciliationAction, ReconciliationSummary, SeenFile,
};
use mount_sync::runner::recovery_dir_expired;
use mount_sync::tracker::{
    ConflictKind, ConflictPolicy, ConflictPolicyResolution, FileSignature, SyncTracker,
};

const MILLISECOND: i128 = 1_000_000;

fn p(text: &str) -> SyncPath {
    SyncPath::from_text(text)
}

fn signature(n: u128) -> FileSignature {
    FileSignature {
        modified_ns: n,
        ctime_ns: n,
        len: 5,
    }
}

fn present(paths: &[&str]) -> PathSet {
    let mut set = PathSet::new();
    for path in paths {
        set.insert(p(path), ());
    }
    set
}

fn file(path: &str, sig: FileSignature, encrypted_now: Option<FileSignature>) -> MountedFile {
    MountedFile {
        path: p(path),
        seen: Some(SeenFile {
            signature: sig,
            content_hash: None,
            metadata_hash: None,
            encrypted_now,
        }),
    }
}

fn known(tracker: &mut SyncTracker, name: &str) {
    tracker.seed_file(
        p(&format!("/enc/{name}.encrypted")),
        p(&format!("/mount/{name}")),
        signature(1),
        signature(1),
    );
}

struct Start {
    summary: ReconciliationSummary,
    kept: Vec<String>,
    removed: Vec<String>,
}

fn start(
    tracker: &mut SyncTracker,
    files: Vec<MountedFile>,
    there: &PathSet,
    has_entries: bool,
    limit: usize,
    times: (Option<i128>, Option<i128>),
) -> Result<Start, String> {
    let mapping: PathMap<SyncPath> = tracker.mount_to_encrypted_mapping();
    let actions =
        tracker.reconcile_mount(&p("/mount"), &mapping, &files, has_entries, there, limit)?;
    let mut res = Start {
        summary: ReconciliationSummary::default(),
        kept: Vec::new(),
        removed: Vec::new(),
    };
    for action in &actions {
        sum_up(&mut res.summary, action);
        let mut step = ConflictStep::KeepBoth;
        if let ReconciliationAction::Conflict { mount_path, .. } = action {
            step = resolve_startup_conflict(tracker.conflict_policy(), times.0, times.1);
            match step {
                ConflictStep::KeepBoth => res.kept.push(mount_path.display()),
                ConflictStep::UseRemote => res.removed.push(mount_path.display()),
                ConflictStep::UseLocal => {}
            }
        }
        tracker.apply_reconciliation(action, step);
    }
    Ok(res)
}

/// The signature of a file that was written at a time in milliseconds.
fn written(at_ms: u128, content: &[u8]) -> FileSignature {
    FileSignature {
        modified_ns: at_ms * 1_000_000,
        ctime_ns: at_ms * 1_000_000,
        len: content.len() as u64,
    }
}

fn remembered(tracker: &mut SyncTracker, name: &str, local: FileSignature, encrypted: FileSignature) {
    tracker.seed_file(
        p(&format!("/enc/{name}.encrypted")),
        p(&format!("/mount/{name}")),
        encrypted,
        local,
    );
}

#[test]
fn reconcile_empty_mount_returns_no_recovery() {
    let mut tracker = SyncTracker::new();
    tracker.set_conflict_policy(ConflictPolicy::default());
    let res = start(&mut tracker, Vec::new(), &present(&[]), false, 20, (None, None)).unwrap();
    assert!(res.kept.is_empty());
    assert_eq!(res.summary.unchanged_count, 0);
    assert!(res.summary.local_created.is_empty());
    assert!(res.summary.conflicts.is_empty());
}

#[test]
fn reconcile_detects_new_local_file() {
    let mut tracker = SyncTracker::new();
    tracker.set_conflict_policy(ConflictPolicy::default());
    let files = vec![file("/mount/new_file.txt", written(1, b"new content"), None)];
    let res = start(&mut tracker, files, &present(&[]), true, 20, (None, None)).unwrap();
    assert_eq!(res.summary.local_created.len(), 1);
    assert_eq!(res.summary.local_created[0].display(), "/mount/new_file.txt");
    assert_eq!(tracker.pending_local_creates().len(), 1);
}

#[test]
fn reconcile_detects_multiple_new_files_in_subdirs() {
    let mut tracker = SyncTracker::new();
    tracker.set_conflict_policy(ConflictPolicy::default());
    let files = vec![
        file("/mount/file1.txt", written(1, b"content1"), None),
        file("/mount/subdir/file2.txt", written(1, b"content2"), None),
    ];
    let res = start(&mut tracker, files, &present(&[]), true, 20, (None, None)).unwrap();
    assert_eq!(res.summary.local_created.len(), 2);
    assert_eq!(tracker.pending_local_creates().len(), 2);
}

#[test]
fn reconcile_detects_local_delete_and_queues_encrypted_delete() {
    let mut tracker = SyncTracker::new();
    tracker.set_conflict_policy(ConflictPolicy::default());
    remembered(&mut tracker, "deleted.txt", written(1, b"initial"), written(1, b"enc"));
    let files = vec![file("/mount/sentinel.txt", written(2, b"keep"), None)];
    let there = present(&["/enc/deleted.txt.encrypted", "/mount/sentinel.txt"]);
    let res = start(&mut tracker, files, &there, true, 20, (None, None)).unwrap();
    assert!(res.kept.is_empty());
    assert_eq!(res.summary.local_deleted.len(), 1);
    assert_eq!(res.summary.local_deleted[0].display(), "/mount/deleted.txt");
    assert_eq!(tracker.pending_local_deletes().len(), 1);
    assert_eq!(
        tracker.pending_local_deletes()[0].display(),
        "/enc/deleted.txt.encrypted"
    );
}

#[test]
fn reconcile_empty_mount_suppresses_mass_local_deletes() {
    let mut tracker = SyncTracker::new();
    tracker.set_conflict_policy(ConflictPolicy::default());
    remembered(&mut tracker, "tracked.txt", written(1, b"initial"), written(1, b"enc"));
    let there = present(&["/enc/tracked.txt.encrypted"]);
    let res = start(&mut tracker, Vec::new(), &there, false, 20, (None, None)).unwrap();
    assert!(res.kept.is_empty());
    assert!(res.summary.local_deleted.is_empty());
    assert!(tracker.pending_local_deletes().is_empty());
}

#[test]
fn reconcile_rejects_excessive_startup_local_deletes() {
    let mut tracker = SyncTracker::new();
    tracker.set_conflict_policy(ConflictPolicy::default());
    let mut there = present(&["/mount/sentinel.txt"]);
    for i in 0..=20 {
        let name = format!("tracked_{i}.txt");
        remembered(&mut tracker, &name, written(1, b"initial"), written(1, b"enc"));
        there.insert(p(&format!("/enc/{name}.encrypted")), ());
    }
    let files = || vec![file("/mount/sentinel.txt", written(2, b"keep"), None)];
    let err = start(&mut tracker, files(), &there, true, 20, (None, None)).err().unwrap();
    assert!(err.contains("refusing to queue"));
    assert_eq!(
        err,
        "Startup reconciliation aborted: refusing to queue 21 local deletions for mount /mount (safety threshold 20)."
    );
    assert!(tracker.pending_local_deletes().is_empty());
    assert!(start(&mut tracker, files(), &there, true, 21, (None, None)).is_ok());
}

#[test]
fn reconcile_nested_create_and_delete_in_single_pass() {
    let mut tracker = SyncTracker::new();
    tracker.set_conflict_policy(ConflictPolicy::default());
    remembered(
        &mut tracker,
        "old/sub/gone.txt",
        written(1, b"before"),
        written(1, b"enc-before"),
    );
    let files = vec![file("/mount/new/deep/created.txt", written(2, b"new-content"), None)];
    let there = present(&["/enc/old/sub/gone.txt.encrypted", "/mount/new/deep/created.txt"]);
    let res = start(&mut tracker, files, &there, true, 20, (None, None)).unwrap();
    assert!(res.kept.is_empty());
    assert_eq!(res.summary.local_created.len(), 1);
    assert_eq!(res.summary.local_created[0].display(), "/mount/new/deep/created.txt");
    assert_eq!(res.summary.local_deleted.len(), 1);
    assert_eq!(res.summary.local_deleted[0].display(), "/mount/old/sub/gone.txt");
    assert_eq!(tracker.pending_local_creates().len(), 1);
    assert_eq!(tracker.pending_local_deletes().len(), 1);
}

#[test]
fn files_outside_the_mount_end_the_start() {
    let mut tracker = SyncTracker::new();
    let files = vec![file("/other/a", signature(1), None)];
    assert_eq!(
        start(&mut tracker, files, &present(&[]), true, 2, (None, None)).err().unwrap(),
        "Path /other/a not under mountpoint"
    );
}

#[test]
fn files_that_are_gone_again_are_passed_over() {
    let mut tracker = SyncTracker::new();
    known(&mut tracker, "a.txt");
    let files = vec![MountedFile {
        path: p("/mount/a.txt"),
        seen: None,
    }];
    let there = present(&["/enc/a.txt.encrypted"]);
    let res = start(&mut tracker, files, &there, true, 20, (None, None)).unwrap();
    assert!(res.summary.local_deleted.is_empty());
    assert_eq!(res.summary.unchanged_count, 0);
}

/// A start at which both sides of a file were changed. Each version comes with the time in
/// milliseconds at which it was written.
fn conflicting(
    policy: ConflictPolicy,
    local: [(u128, &[u8]); 2],
    encrypted: [(u128, &[u8]); 2],
) -> (Start, SyncTracker) {
    let mut tracker = SyncTracker::new();
    remembered(
        &mut tracker,
        "conflict.txt",
        written(local[0].0, local[0].1),
        written(encrypted[0].0, encrypted[0].1),
    );
    tracker.set_conflict_policy(policy);
    let files = vec![file(
        "/mount/conflict.txt",
        written(local[1].0, local[1].1),
        Some(written(encrypted[1].0, encrypted[1].1)),
    )];
    let times = (
        Some(local[1].0 as i128 * MILLISECOND),
        Some(encrypted[1].0 as i128 * MILLISECOND),
    );
    let there = present(&["/enc/conflict.txt.encrypted", "/mount/conflict.txt"]);
    let res = start(&mut tracker, files, &there, true, 20, times).unwrap();
    assert_eq!(res.summary.conflicts.len(), 1);
    assert_eq!(
        res.summary.conflicts[0].1,
        ConflictKind::LocalRemoteBothModified
    );
    (res, tracker)
}

fn policy(resolution: ConflictPolicyResolution, threshold: u64) -> ConflictPolicy {
    ConflictPolicy {
        default_resolution: resolution,
        timestamp_threshold_secs: threshold,
    }
}

#[test]
fn reconcile_with_keep_both_policy_moves_conflicts_to_recovery() {
    let (res, tracker) = conflicting(
        ConflictPolicy::default(),
        [(0, b"original local"), (50, b"modified local version")],
        [(0, b"original encrypted"), (100, b"modified encrypted content")],
    );
    assert_eq!(res.kept, vec!["/mount/conflict.txt"]);
    assert!(tracker.pending_local_creates().is_empty());
    let kept = recovery_destination(
        &p("/config/mount_recovery/1"),
        &p("/mount"),
        &p("/mount/conflict.txt"),
        "20260313_120000",
        &present(&[]),
    )
    .unwrap();
    assert!(kept
        .file_name_text()
        .unwrap()
        .starts_with("conflict.txt.conflict-"));
}

#[test]
fn reconcile_with_local_wins_policy_queues_encryption() {
    let (res, tracker) = conflicting(
        policy(ConflictPolicyResolution::LocalWins, 5),
        [(0, b"original local"), (50, b"modified local version")],
        [(0, b"original encrypted"), (100, b"modified encrypted")],
    );
    assert!(res.kept.is_empty() && res.removed.is_empty());
    assert_eq!(tracker.pending_local_creates().len(), 1);
}

#[test]
fn reconcile_with_remote_wins_policy_removes_local() {
    let (res, tracker) = conflicting(
        policy(ConflictPolicyResolution::RemoteWins, 5),
        [(0, b"original local"), (50, b"modified local version")],
        [(0, b"original encrypted"), (100, b"modified encrypted")],
    );
    assert!(res.kept.is_empty());
    assert_eq!(res.removed, vec!["/mount/conflict.txt"]);
    assert!(tracker.pending_local_creates().is_empty());
}

#[test]
fn reconcile_with_newer_wins_uses_local_when_newer() {
    let (res, tracker) = conflicting(
        policy(ConflictPolicyResolution::NewerWins, 0),
        [(100, b"original local"), (300, b"modified local - NEWER")],
        [(0, b"original encrypted"), (200, b"modified encrypted")],
    );
    assert!(res.kept.is_empty() && res.removed.is_empty());
    assert_eq!(tracker.pending_local_creates().len(), 1);
}

#[test]
fn reconcile_with_newer_wins_uses_remote_when_newer() {
    let (res, _) = conflicting(
        policy(ConflictPolicyResolution::NewerWins, 0),
        [(0, b"original local"), (200, b"modified local - OLDER")],
        [(100, b"original encrypted"), (300, b"modified encrypted - NEWER")],
    );
    assert!(res.kept.is_empty());
    assert_eq!(res.removed, vec!["/mount/conflict.txt"]);
}

#[test]
fn times_close_together_keep_both() {
    let (res, _) = conflicting(
        policy(ConflictPolicyResolution::NewerWins, 5),
        [(0, b"a"), (10_000, b"ab")],
        [(0, b"a"), (15_000, b"ac")],
    );
    assert_eq!(res.kept, vec!["/mount/conflict.txt"]);
    assert_eq!(
        resolve_startup_conflict(
            policy(ConflictPolicyResolution::NewerWins, 5),
            None,
            Some(15_000 * MILLISECOND),
        ),
        ConflictStep::KeepBoth
    );
    assert_eq!(
        resolve_startup_conflict(
            ConflictPolicy {
                default_resolution: ConflictPolicyResolution::NewerWins,
                timestamp_threshold_secs: u64::MAX,
            },
            Some(i128::MAX),
            Some(i128::MIN),
        ),
        ConflictStep::UseLocal
    );
}

#[test]
fn changes_on_one_side_are_no_conflict() {
    let mut tracker = SyncTracker::new();
    known(&mut tracker, "a.txt");
    known(&mut tracker, "b.txt");
    let files = vec![
        file("/mount/a.txt", signature(2), Some(signature(1))),
        file("/mount/b.txt", signature(1), Some(signature(2))),
    ];
    let there = present(&["/enc/a.txt.encrypted", "/enc/b.txt.encrypted"]);
    let res = start(&mut tracker, files, &there, true, 20, (None, None)).unwrap();
    assert_eq!(res.summary.local_modified[0].display(), "/mount/a.txt");
    assert_eq!(res.summary.remote_modified[0].display(), "/mount/b.txt");
    assert_eq!(tracker.pending_local_creates().len(), 1);
}

#[test]
fn digests_settle_a_change_of_time_alone() {
    let mut tracker = SyncTracker::new();
    known(&mut tracker, "a.txt");
    tracker.files.decrypted_hashes.insert(p("/mount/a.txt"), [1; 32]);
    let touched = FileSignature {
        ctime_ns: 9,
        ..signature(1)
    };
    let files = vec![MountedFile {
        path: p("/mount/a.txt"),
        seen: Some(SeenFile {
            signature: touched,
            content_hash: Some([1; 32]),
            metadata_hash: None,
            encrypted_now: Some(signature(1)),
        }),
    }];
    let there = present(&["/enc/a.txt.encrypted"]);
    let res = start(&mut tracker, files, &there, true, 20, (None, None)).unwrap();
    assert_eq!(res.summary.unchanged_count, 1);
}

#[test]
fn move_file_to_recovery_preserves_structure() {
    let destination = recovery_destination(
        &p("/recovery"),
        &p("/mount"),
        &p("/mount/subdir/file.txt"),
        "20260311_120000",
        &present(&[]),
    )
    .unwrap();
    assert_eq!(
        destination.display(),
        "/recovery/subdir/file.txt.conflict-20260311_120000"
    );
    assert_eq!(
        recovery_destination(
            &p("/recovery"),
            &p("/mount"),
            &p("/x/f"),
            "20260311_120000",
            &present(&[]),
        )
            .err()
            .unwrap(),
        "Path /x/f not under mountpoint /mount"
    );
    let numbered = recovery_destination(
        &p("/recovery"),
        &p("/mount"),
        &p("/mount/file.txt"),
        "20260311_120000",
        &present(&["file.txt.conflict-20260311_120000"]),
    )
    .unwrap();
    assert_eq!(
        numbered.display(),
        "/recovery/file.txt.conflict-20260311_120000-1"
    );
}

#[test]
fn cleanup_old_mount_recovery_dirs_removes_expired_entries() {
    let now: u64 = 1_773_230_400;
    let old = now - 40 * 24 * 60 * 60;
    let fresh = now - 2 * 24 * 60 * 60;
    assert!(recovery_dir_expired(&format!("{old}_mount_aaaaaa"), now, 30));
    assert!(!recovery_dir_expired(&format!("{fresh}_mount_bbbbbb"), now, 30));
    assert!(!recovery_dir_expired("mount_bbbbbb", now, 30));
    let edge = now - 30 * 24 * 60 * 60;
    assert!(!recovery_dir_expired(&format!("{edge}_m"), now, 30));
    assert!(!recovery_dir_expired("0_m", u64::MAX, u64::MAX));
}

#[test]
fn limits_count_deletions_only() {
    let actions = vec![
        ReconciliationAction::LocalCreated {
            mount_path: p("/mount/a"),
        },
        ReconciliationAction::LocalDeleted {
            mount_path: p("/mount/b"),
            encrypted_path: p("/enc/b.encrypted"),
        },
    ];
    assert!(check_deletion_limit(&actions, &p("/mount"), 1).is_ok());
    assert!(check_deletion_limit(&actions, &p("/mount"), 0).is_err());
}
