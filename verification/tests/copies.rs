use mount_sync::conflicts::{
    attribute_text, conflict_id_attr, conflict_kind, conflict_live_path, copy_time,
    materialize_recovered_pending_copy, read_conflict_id_attr, read_conflict_kind_attr,
};
use mount_sync::local_only::{
    conflict_path_for, derive_live_path_from_conflict_path,
    derive_live_path_from_recovered_pending_path, is_conflict_file, is_recovered_pending_file,
    parse_local_only_timestamp, recovered_pending_path_for, stamp_text, FIRST_SECS, LAST_SECS,
};
use mount_sync::path::{PathSet, SyncPath};
use mount_sync::tracker::{ConflictKind, FileSignature, SyncTracker};

fn p(text: &str) -> SyncPath {
    SyncPath::from_text(text)
}

fn signature(n: u128) -> FileSignature {
    FileSignature {
        modified_ns: n,
        ctime_ns: n,
        len: 5,
    }
}

fn present(paths: &[&str]) -> PathSet {
    let mut set = PathSet::new();
    for path in paths {
        set.insert(p(path), ());
    }
    set
}

#[test]
fn stamps_are_written_and_read() {
    assert_eq!(stamp_text(1773230400), "20260311_120000");
    assert_eq!(stamp_text(0), "19700101_000000");
    assert_eq!(stamp_text(-1), "19691231_235959");
    assert_eq!(stamp_text(253402300800), "+100000101_000000");
    assert_eq!(stamp_text(FIRST_SECS), "-2621430101_000000");
    assert_eq!(stamp_text(LAST_SECS), "+2621421231_235959");
    let path = p("/mount/a.txt.conflict-20260311_120000");
    assert_eq!(parse_local_only_timestamp(&path, "conflict"), Some(1773230400));
    assert_eq!(
        parse_local_only_timestamp(&p("/mount/a.txt.conflict-20261311_120000"), "conflict"),
        None
    );
}

#[test]
fn conflict_copies_are_named_and_recognised() {
    let copy = conflict_path_for(&p("/mount/a.txt"), "20260311_120000", &present(&[]));
    assert_eq!(copy.display(), "/mount/a.txt.conflict-20260311_120000");
    assert!(is_conflict_file(&copy));
    assert!(!is_recovered_pending_file(&copy));
    assert_eq!(derive_live_path_from_conflict_path(&copy).display(), "/mount/a.txt");
    assert!(!is_conflict_file(&p("/mount/a.conflict-yes.txt")));
}

#[test]
fn taken_names_are_passed_over() {
    let taken = present(&[
        "/mount/a.txt.conflict-20260311_120000",
        "/mount/a.txt.conflict-20260311_120000-1",
    ]);
    let copy = conflict_path_for(&p("/mount/a.txt"), "20260311_120000", &taken);
    assert_eq!(copy.display(), "/mount/a.txt.conflict-20260311_120000-2");
    assert!(is_conflict_file(&copy));
    assert_eq!(derive_live_path_from_conflict_path(&copy).display(), "/mount/a.txt");
}

#[test]
fn recovered_copies_are_named_and_recognised() {
    let copy = recovered_pending_path_for(&p("/mount/a.txt"), "20260311_120000", &present(&[]));
    assert_eq!(copy.display(), "/mount/a.txt.recovered-pending-20260311_120000");
    assert!(is_recovered_pending_file(&copy));
    assert_eq!(
        derive_live_path_from_recovered_pending_path(&copy).display(),
        "/mount/a.txt"
    );
    assert_eq!(copy_time(&copy, "recovered-pending", 5), 1_773_230_400_000_000_000);
    assert_eq!(copy_time(&p("/mount/a.txt"), "recovered-pending", 5), 5);
}

#[test]
fn kinds_are_written_and_read() {
    for kind in [
        ConflictKind::DecryptCollision,
        ConflictKind::DeletedOpenRecovery,
        ConflictKind::LocalEditRemoteDelete,
        ConflictKind::LocalDeleteRemoteEdit,
    ] {
        assert_eq!(read_conflict_kind_attr(kind.attribute()), Some(kind));
    }
    assert_eq!(read_conflict_kind_attr("unknown"), None);
}

#[test]
fn kinds_come_from_what_is_known_first() {
    let attr = Some(ConflictKind::DeletedOpenRecovery.attribute().to_string());
    assert_eq!(
        conflict_kind(Some(ConflictKind::LocalEditRemoteDelete), &attr, &None),
        ConflictKind::LocalEditRemoteDelete
    );
    assert_eq!(
        conflict_kind(None, &attr, &None),
        ConflictKind::DeletedOpenRecovery
    );
    assert_eq!(conflict_kind(None, &None, &None), ConflictKind::DecryptCollision);
}

#[test]
fn identifiers_are_written_and_read() {
    let id: u128 = 0x67e55044_10b1_426f_9247_bb680e5fe0c8;
    assert_eq!(conflict_id_attr(id), "67e55044-10b1-426f-9247-bb680e5fe0c8");
    assert_eq!(read_conflict_id_attr(&conflict_id_attr(id)), Some(id));
    assert_eq!(read_conflict_id_attr("  "), None);
    assert_eq!(read_conflict_id_attr("nonsense"), None);
}

#[test]
fn attributes_are_text_without_white_space() {
    assert_eq!(attribute_text(b" kind \n".to_vec()), Some("kind".to_string()));
    assert_eq!(attribute_text(b"  ".to_vec()), None);
    assert_eq!(attribute_text(vec![0xff]), None);
}

#[test]
fn live_paths_come_from_the_attribute_first() {
    let copy = p("/mount/a.txt.conflict-20260311_120000");
    assert_eq!(
        conflict_live_path(&copy, &Some("/mount/b.txt".to_string())).display(),
        "/mount/b.txt"
    );
    assert_eq!(conflict_live_path(&copy, &None).display(), "/mount/a.txt");
    assert_eq!(
        conflict_live_path(&copy, &Some("  ".to_string())).display(),
        "/mount/a.txt"
    );
}

#[test]
fn edited_conflict_file_is_detected_after_a_change() {
    let copy = p("/mount/a.txt.conflict-20260311_120000");
    let mut tracker = SyncTracker::new();
    let note = |tracker: &mut SyncTracker, sig: FileSignature, hash: [u8; 32]| {
        tracker.update_conflict_file_tracking_with_kind(
            &copy,
            sig,
            ConflictKind::DecryptCollision,
            p("/mount/a.txt"),
            1,
            9,
            Some(hash),
        )
    };
    note(&mut tracker, signature(1), [1; 32]);
    assert!(!tracker.copies.conflict_baselines.get(&copy).unwrap().edited);
    assert!(tracker.copies.conflict_registry_dirty);
    assert!(!tracker.can_cleanup_mountpoint());
    note(&mut tracker, signature(2), [2; 32]);
    assert!(tracker.copies.conflict_baselines.get(&copy).unwrap().edited);
    note(&mut tracker, signature(1), [1; 32]);
    assert!(tracker.copies.conflict_baselines.get(&copy).unwrap().edited);
}

#[test]
fn copies_that_are_gone_are_forgotten() {
    let copy = p("/mount/a.txt.conflict-20260311_120000");
    let mut tracker = SyncTracker::new();
    tracker.update_conflict_file_tracking_with_kind(
        &copy,
        signature(1),
        ConflictKind::DecryptCollision,
        p("/mount/a.txt"),
        1,
        9,
        None,
    );
    tracker.prune_conflict_tracking(&present(&[]), &present(&[]));
    assert!(tracker.copies.conflict_baselines.is_empty());
    assert!(tracker.can_cleanup_mountpoint());

    let recovered = p("/mount/b.recovered-pending-20260311_120000");
    tracker.note_recovered_pending_copy(&recovered, signature(1), None);
    assert!(tracker.copies.recovered_pending_paths.contains_key(&recovered));
    assert!(!tracker.can_cleanup_mountpoint());
    tracker.prune_recovered_pending_tracking(&present(&[]), &present(&[]));
    assert!(tracker.copies.recovered_pending_paths.is_empty());
}

#[test]
fn unwritten_files_come_back_as_copies() {
    let (source, target) = materialize_recovered_pending_copy(
        &p("/config/mount_recovery/x"),
        &p("/mount"),
        &p("/mount/a/b.txt"),
        "20260311_120000",
        &present(&[]),
    )
    .unwrap();
    assert_eq!(source.display(), "/config/mount_recovery/x/a/b.txt");
    assert_eq!(target.display(), "/mount/a/b.txt.recovered-pending-20260311_120000");
    assert!(materialize_recovered_pending_copy(
        &p("/config/mount_recovery/x"),
        &p("/mount"),
        &p("/elsewhere/b.txt"),
        "20260311_120000",
        &present(&[]),
    )
    .is_none());
}
