use mount_sync::path::{PathMap, PathSet, SyncPath};
use mount_sync::resolution::{
    archive_path, sync_mount_conflict_action_requests_dir, sync_mount_conflict_action_results_dir,
    sync_mount_conflict_registry_path, sync_mount_recovery_action_requests_dir,
    sync_mount_recovery_action_results_dir, sync_mount_recovery_registry_path,
    ConflictResolutionAction, ConflictResolutionRequest, CopyLook, RecoveryCopyResolutionAction,
    RecoveryCopyResolutionRequest, ResolutionStep,
};
use mount_sync::tracker::{ConflictKind, FileSignature, SyncTracker};

const NOW: i128 = 1_773_230_400_000_000_000;
const SECS: i64 = 1_773_230_400;
const ID: u128 = 0x67e55044_10b1_426f_9247_bb680e5fe0c8;

fn p(text: &str) -> SyncPath {
    SyncPath::from_text(text)
}

fn signature(n: u128) -> FileSignature {
    FileSignature {
        modified_ns: n,
        ctime_ns: n,
        len: 5,
    }
}

fn present(paths: &[&str]) -> PathSet {
    let mut set = PathSet::new();
    for path in paths {
        set.insert(p(path), ());
    }
    set
}

const COPY: &str = "/mount/a.txt.conflict-20260311_120000";

fn tracker() -> SyncTracker {
    let mut tracker = SyncTracker::new();
    tracker.set_retention_folder(&p("/config"), true);
    tracker.update_conflict_file_tracking_with_kind(
        &p(COPY),
        signature(1),
        ConflictKind::DecryptCollision,
        p("/mount/a.txt"),
        ID,
        NOW,
        None,
    );
    tracker
}

fn request(action: ConflictResolutionAction) -> ConflictResolutionRequest {
    ConflictResolutionRequest {
        request_id: 7,
        conflict_id: ID,
        action,
        merged_text: None,
        destination_path: None,
        requested_at: NOW,
    }
}

fn names(steps: &[ResolutionStep]) -> Vec<&'static str> {
    steps
        .iter()
        .map(|step| match step {
            ResolutionStep::Archive { .. } => "archive",
            ResolutionStep::Replace { .. } => "replace",
            ResolutionStep::ReplaceKeepingMetadata { .. } => "replace keeping metadata",
            ResolutionStep::MakeOrdinary { .. } => "make ordinary",
            ResolutionStep::WriteText { .. } => "write text",
            ResolutionStep::Remove { .. } => "remove",
        })
        .collect()
}

#[test]
fn keep_mounted_resolution_archives_conflict_and_clears_state() {
    let mut tracker = tracker();
    let there = present(&["/mount/a.txt", COPY]);
    let plan = tracker
        .resolve_conflict_action(
            &p("/mount"),
            &request(ConflictResolutionAction::KeepMountedFile),
            &there,
            SECS,
        )
        .unwrap();
    assert_eq!(names(&plan.steps), vec!["archive", "remove"]);
    assert_eq!(plan.copy_path.display(), COPY);
    assert!(plan
        .archive_dir
        .display()
        .starts_with("/config/retention/conflicts/"));
    let result = tracker.finish_conflict(ID, plan);
    assert_eq!(result.resolved_conflict_id, ID);
    assert_eq!(result.archive_paths.len(), 1);
    assert!(!result.requires_writeback);
    assert!(tracker.copies.conflict_baselines.is_empty());
    assert!(tracker.can_cleanup_mountpoint());
}

#[test]
fn use_conflict_resolution_promotes_the_copy() {
    let mut tracker = tracker();
    let there = present(&["/mount/a.txt", COPY]);
    let plan = tracker
        .resolve_conflict_action(
            &p("/mount"),
            &request(ConflictResolutionAction::UseConflictCopy),
            &there,
            SECS,
        )
        .unwrap();
    assert!(names(&plan.steps).contains(&"make ordinary"));
    assert_eq!(names(&plan.steps).last(), Some(&"remove"));
    assert_eq!(
        plan.live_path.as_ref().map(|l| l.display()),
        Some("/mount/a.txt".to_string())
    );
    assert!(tracker.finish_conflict(ID, plan).requires_writeback);
}

#[test]
fn merged_text_is_what_is_written() {
    let tracker = tracker();
    let there = present(&["/mount/a.txt", COPY]);
    let mut merge = request(ConflictResolutionAction::MergeText);
    merge.merged_text = Some("both sides\n".to_string());
    let plan = tracker
        .resolve_conflict_action(&p("/mount"), &merge, &there, SECS)
        .unwrap();
    assert_eq!(
        names(&plan.steps),
        vec!["archive", "archive", "write text", "remove"]
    );
    assert!(plan.steps.iter().any(|step| matches!(
        step,
        ResolutionStep::WriteText { destination, text }
            if destination.display() == "/mount/a.txt" && text == "both sides\n"
    )));
}

#[test]
fn refused_resolutions_say_why() {
    let tracker = tracker();
    let live = present(&["/mount/a.txt", COPY]);
    let gone = present(&[COPY]);
    let err = |request: &ConflictResolutionRequest, there: &PathSet| {
        tracker
            .resolve_conflict_action(&p("/mount"), request, there, SECS)
            .err()
            .unwrap()
            .message()
    };
    let mut merge = request(ConflictResolutionAction::MergeText);
    assert_eq!(
        err(&merge, &live),
        "Format error: Merged text is required for merge_text"
    );
    merge.merged_text = Some("x".to_string());
    assert_eq!(
        err(&merge, &gone),
        "Format error: Cannot merge text because the mounted file no longer exists"
    );
    let mut save = request(ConflictResolutionAction::SaveConflictAsNew);
    assert_eq!(
        err(&save, &live),
        "Format error: Destination path is required for save_conflict_as_new"
    );
    save.destination_path = Some(p("a.txt"));
    assert_eq!(
        err(&save, &live),
        "Format error: Destination /mount/a.txt already exists"
    );
    assert_eq!(
        err(&request(ConflictResolutionAction::ArchiveAndDismiss), &live),
        "Format error: archive_and_dismiss is only allowed when the mounted file is absent"
    );
    let mut other = request(ConflictResolutionAction::KeepMountedFile);
    other.conflict_id = 0;
    assert_eq!(
        err(&other, &live),
        "Format error: Conflict 00000000-0000-0000-0000-000000000000 was not found"
    );
    let bare = SyncTracker::new();
    let mut bare_with_copy = bare;
    bare_with_copy.update_conflict_file_tracking_with_kind(
        &p(COPY),
        signature(1),
        ConflictKind::DecryptCollision,
        p("/mount/a.txt"),
        ID,
        NOW,
        None,
    );
    assert_eq!(
        bare_with_copy
            .resolve_conflict_action(
                &p("/mount"),
                &request(ConflictResolutionAction::KeepMountedFile),
                &live,
                SECS
            )
            .err()
            .unwrap()
            .message(),
        "Format error: Retention folder is not configured"
    );
}

#[test]
fn recovered_copies_replace_the_file() {
    let mut tracker = SyncTracker::new();
    tracker.set_retention_folder(&p("/config"), true);
    let copy = "/mount/b.recovered-pending-20260311_120000";
    tracker.note_recovered_pending_copy(&p(copy), signature(1), None);
    let request = RecoveryCopyResolutionRequest {
        request_id: 3,
        recovery_relative_path: p("b.recovered-pending-20260311_120000"),
        action: RecoveryCopyResolutionAction::ReplaceMountedFile,
        destination_path: None,
        requested_at: NOW,
    };
    let plan = tracker
        .resolve_recovery_copy_action(&p("/mount"), &request, &present(&[copy]), SECS)
        .unwrap();
    assert_eq!(
        names(&plan.steps),
        vec!["replace", "make ordinary", "archive", "remove"]
    );
    let result = tracker.finish_recovery_copy(&request, plan);
    assert!(result.requires_writeback);
    assert!(tracker.copies.recovered_pending_paths.is_empty());
    assert_eq!(
        tracker
            .resolve_recovery_copy_action(&p("/mount"), &request, &present(&[copy]), SECS)
            .err()
            .unwrap()
            .message(),
        "Format error: Recovery copy b.recovered-pending-20260311_120000 was not found"
    );
}

#[test]
fn records_are_listed_in_order() {
    let mut tracker = tracker();
    tracker.update_conflict_file_tracking_with_kind(
        &p("/mount/A.conflict-20260311_120000"),
        signature(1),
        ConflictKind::DeletedOpenRecovery,
        p("/mount/A"),
        1,
        NOW,
        None,
    );
    let look = CopyLook {
        copy_size: Some(3),
        live_size: Some(4),
        live_exists: true,
        copy_is_text: true,
        live_is_text: false,
    };
    let mut looks: PathMap<CopyLook> = PathMap::new();
    looks.insert(p(COPY), look);
    looks.insert(p("/mount/A.conflict-20260311_120000"), look);
    let records = tracker.conflict_records(&p("/mount"), &looks);
    assert_eq!(records.len(), 2);
    assert_eq!(records[0].live_relative_path.display(), "A");
    assert_eq!(records[0].kind, ConflictKind::DeletedOpenRecovery);
    assert_eq!(records[1].live_relative_path.display(), "a.txt");
    assert_eq!(records[1].conflict_size_bytes, 3);
    assert!(!records[1].text_merge_supported);

    let copy = "/mount/b.recovered-pending-20260311_120000";
    tracker.note_recovered_pending_copy(&p(copy), signature(1), None);
    let mut looks: PathMap<CopyLook> = PathMap::new();
    looks.insert(p(copy), look);
    let records = tracker.recovery_copy_records(&p("/mount"), &looks, 5);
    assert_eq!(records.len(), 1);
    assert_eq!(records[0].live_relative_path.display(), "b");
    assert_eq!(records[0].created_at, NOW);
    assert!(tracker
        .recovery_copy_records(&p("/elsewhere"), &looks, 5)
        .is_empty());
}

#[test]
fn files_of_the_registry_are_named_by_the_root() {
    let state = p("/state");
    let registry = sync_mount_conflict_registry_path(&state, "r1");
    assert_eq!(registry.display(), "/state/mount_conflicts_r1.json");
    let requests = sync_mount_conflict_action_requests_dir(&state, "r1");
    assert_eq!(requests.display(), "/state/mount_conflict_requests_r1");
    let results = sync_mount_conflict_action_results_dir(&state, "r1");
    assert_eq!(results.display(), "/state/mount_conflict_results_r1");
    let registry = sync_mount_recovery_registry_path(&state, "r1");
    assert_eq!(registry.display(), "/state/mount_recovery_copies_r1.json");
    let requests = sync_mount_recovery_action_requests_dir(&state, "r1");
    assert_eq!(requests.display(), "/state/mount_recovery_requests_r1");
    let results = sync_mount_recovery_action_results_dir(&state, "r1");
    assert_eq!(results.display(), "/state/mount_recovery_results_r1");
    let archived = archive_path(&p("/arch"), "live", &p("/mount/a.txt"));
    assert_eq!(archived.display(), "/arch/live_a.txt");
}
