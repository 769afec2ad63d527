use mount_sync::course::{
    advance_encrypt, advance_scan, EncryptStep, ScanEvent, ScanStep,
};
use mount_sync::encrypt::{check_unchanged, EncryptMethod};
use mount_sync::errors::MountSyncError;
use mount_sync::path::{PathSet, SyncPath};
use mount_sync::scan::{ContentStep, ScanFacts, ScanGate};
use mount_sync::settings::{CreateLook, CreateStep};
use mount_sync::tracker::{
    FileMetadataData, FileSignature, PendingOrphan, PendingWriteback, StableEntry, SyncTracker,
};
use mount_sync::writeback::{RetryFacts, RetryStep};

const SECOND: u64 = 1_000_000_000;

fn p(text: &str) -> SyncPath {
    SyncPath::from_text(text)
}

fn signature(n: u128) -> FileSignature {
    FileSignature {
        modified_ns: n,
        ctime_ns: n,
        len: 5,
    }
}

fn facts(sig: FileSignature, encrypted_exists: bool) -> ScanFacts {
    ScanFacts {
        signature: sig,
        links: 1,
        mode: 0o644,
        encrypted_exists,
        content_hash: None,
        metadata_hash: None,
        clock: 100 * SECOND,
        now: 5,
    }
}

fn present(paths: &[&str]) -> PathSet {
    let mut set = PathSet::new();
    for path in paths {
        set.insert(p(path), ());
    }
    set
}

#[test]
fn files_are_told_apart() {
    let tracker = SyncTracker::new();
    let root = p("/mount");
    let f = facts(signature(1), false);
    let gate = |path: &str| tracker.scan_gate(&root, &p(path), f);
    assert_eq!(
        gate("/mount/a.conflict-20260311_120000"),
        ScanGate::Conflict
    );
    assert_eq!(
        gate("/mount/a.recovered-pending-20260311_120000"),
        ScanGate::Recovered
    );
    assert_eq!(gate("/mount/~a"), ScanGate::Temporary);
    assert_eq!(gate("/mount/a.sqlite"), ScanGate::Transactional);
    assert_eq!(gate("/mount/a.txt"), ScanGate::Open);
    let linked = ScanFacts { links: 2, ..f };
    assert_eq!(
        tracker.scan_gate(&root, &p("/mount/a.txt"), linked),
        ScanGate::HardLink
    );
}

#[test]
fn new_files_wait_until_they_are_stable() {
    let mut tracker = SyncTracker::new();
    let path = p("/mount/a.txt");
    let encrypted = p("/enc/a.txt.encrypted");
    let f = facts(signature(1), false);
    assert_eq!(
        tracker.scan_content(&path, &encrypted, f),
        ContentStep::WaitStable
    );
    assert!(tracker.work.pending_writebacks.contains_key(&path));
    assert!(!tracker.can_cleanup_mountpoint());
    assert_eq!(
        tracker.scan_content(&path, &encrypted, f),
        ContentStep::Encrypt
    );
    let seen = tracker.finish_scan_encryption(
        &path,
        &encrypted,
        signature(1),
        Ok((signature(9), "id".to_string())),
        0,
        6,
    );
    assert!(seen);
    tracker.note_scanned(&path, &encrypted, signature(1), None, None);
    assert!(tracker.can_cleanup_mountpoint());
    assert_eq!(
        tracker.scan_content(&path, &encrypted, facts(signature(1), true)),
        ContentStep::Unchanged
    );
    assert_eq!(
        tracker.scan_content(&path, &encrypted, facts(signature(2), true)),
        ContentStep::WaitStable
    );
}

#[test]
fn large_files_wait_longer() {
    let mut tracker = SyncTracker::new();
    tracker.set_stream_threshold_bytes(5);
    let path = p("/mount/a.txt");
    tracker.held.pending_stable.insert(
        path.duplicate(),
        StableEntry {
            signature: signature(1),
            first_seen: 97 * SECOND,
        },
    );
    let encrypted = p("/enc/a.txt.encrypted");
    assert_eq!(
        tracker.scan_content(&path, &encrypted, facts(signature(1), false)),
        ContentStep::WaitStable
    );
    tracker.held.pending_stable.insert(
        path.duplicate(),
        StableEntry {
            signature: signature(1),
            first_seen: 95 * SECOND,
        },
    );
    assert_eq!(
        tracker.scan_content(&path, &encrypted, facts(signature(1), false)),
        ContentStep::Encrypt
    );
}

#[test]
fn readonly_mounts_encrypt_nothing() {
    let mut tracker = SyncTracker::new();
    tracker.held.mount_readonly_active = true;
    let path = p("/mount/a.txt");
    tracker.preseed_stable(&path, signature(1), 0);
    assert_eq!(
        tracker.scan_content(&path, &p("/enc/a.txt.encrypted"), facts(signature(1), false)),
        ContentStep::WaitSpace
    );
    let pending = tracker.work.pending_writebacks.get(&path).unwrap();
    assert!(pending.low_space);
}

#[test]
fn touched_files_are_compared_by_their_content() {
    let mut tracker = SyncTracker::new();
    let path = p("/mount/a.txt");
    let encrypted = p("/enc/a.txt.encrypted");
    let before = FileSignature {
        modified_ns: 1,
        ctime_ns: 1,
        len: 5,
    };
    let after = FileSignature {
        ctime_ns: 2,
        ..before
    };
    tracker.seed_file(encrypted.duplicate(), path.duplicate(), signature(3), before);
    tracker.files.decrypted_hashes.insert(path.duplicate(), [1; 32]);
    assert!(tracker.wants_content_hash(&path, after, true));
    let same = ScanFacts {
        content_hash: Some([1; 32]),
        ..facts(after, true)
    };
    assert_eq!(
        tracker.scan_content(&path, &encrypted, same),
        ContentStep::Unchanged
    );
    let other = ScanFacts {
        content_hash: Some([2; 32]),
        ..facts(after, true)
    };
    assert_eq!(
        tracker.scan_content(&path, &encrypted, other),
        ContentStep::WaitStable
    );
    assert_eq!(tracker.files.decrypted_hashes.get(&path), Some(&[2; 32]));
}

#[test]
fn temporary_files_are_given_time() {
    let mut tracker = SyncTracker::new();
    let root = p("/mount");
    let path = p("/mount/~a");
    let encrypted = p("/enc/~a.encrypted");
    let first = tracker.scan_file(&root, &path, &encrypted, facts(signature(1), false));
    assert_eq!(first, (ScanGate::Temporary, None));
    let later = ScanFacts {
        clock: 130 * SECOND,
        ..facts(signature(1), false)
    };
    assert_eq!(
        tracker.scan_file(&root, &path, &encrypted, later).0,
        ScanGate::Open
    );
}

#[test]
fn dirty_orphans_are_encrypted_again() {
    let root = p("/mount");
    let path = p("/mount/a.txt");
    let encrypted = p("/enc/a.txt.encrypted");
    let mut tracker = SyncTracker::new();
    tracker.seed_file(encrypted.duplicate(), path.duplicate(), signature(3), signature(1));
    tracker.work.pending_orphans.insert(
        path.duplicate(),
        PendingOrphan {
            encrypted_path: encrypted.duplicate(),
            consecutive_missing_scans: 1,
            had_healthy_scan: true,
        },
    );
    assert_eq!(
        tracker
            .scan_file(&root, &path, &encrypted, facts(signature(1), false))
            .0,
        ScanGate::Orphan
    );
    assert!(tracker.work.pending_orphans.contains_key(&path));
    assert_eq!(
        tracker
            .scan_file(&root, &path, &encrypted, facts(signature(2), false))
            .0,
        ScanGate::Open
    );
    assert!(!tracker.work.pending_orphans.contains_key(&path));
}

#[test]
fn hard_linked_files_lose_their_write_permission_until_the_link_is_gone() {
    let root = p("/mount");
    let path = p("/mount/a.txt");
    let encrypted = p("/enc/a.txt.encrypted");
    let mut tracker = SyncTracker::new();
    let linked = ScanFacts {
        links: 2,
        ..facts(signature(1), true)
    };
    assert_eq!(
        tracker.scan_file(&root, &path, &encrypted, linked),
        (ScanGate::HardLink, Some(0o444))
    );
    assert!(!tracker.can_cleanup_mountpoint());
    let single = ScanFacts {
        mode: 0o444,
        ..facts(signature(1), true)
    };
    assert_eq!(
        tracker.scan_file(&root, &path, &encrypted, single),
        (ScanGate::Open, Some(0o644))
    );
    assert!(tracker.can_cleanup_mountpoint());
}

#[test]
fn identifiers_belong_to_one_file() {
    let mut tracker = SyncTracker::new();
    let first = p("/mount/a");
    let second = p("/mount/b");
    let there = present(&["/mount/a", "/mount/b"]);
    assert!(!tracker.settle_file_id(&first, Some("id".to_string()), &there));
    assert!(tracker.settle_file_id(&second, Some("id".to_string()), &there));
    let moved = present(&["/mount/b"]);
    assert!(!tracker.settle_file_id(&second, Some("id".to_string()), &moved));
    assert_eq!(
        tracker.files.file_id_to_mount_path.get(&"id".to_string()).unwrap().display(),
        "/mount/b"
    );
}

#[test]
fn files_keep_their_identifiers_when_they_are_encrypted() {
    let mut tracker = SyncTracker::new();
    let there = present(&["/mount/a", "/mount/b"]);
    tracker.settle_file_id(&p("/mount/a"), Some("id-a".to_string()), &there);
    let own = tracker.choose_file_id(
        &p("/mount/a"),
        Some("id-a".to_string()),
        &Some("other".to_string()),
        &there,
    );
    assert_eq!(own.file_id.as_deref(), Some("id-a"));
    assert!(!own.clear_attribute && !own.write_attribute);
    let copied = tracker.choose_file_id(&p("/mount/b"), Some("id-a".to_string()), &None, &there);
    assert_eq!(copied.file_id, None);
    assert!(copied.clear_attribute);
    let from_encrypted =
        tracker.choose_file_id(&p("/mount/b"), None, &Some("id-b".to_string()), &there);
    assert_eq!(from_encrypted.file_id.as_deref(), Some("id-b"));
    assert!(from_encrypted.write_attribute);
}

#[test]
fn failed_encryptions_wait() {
    let mut tracker = SyncTracker::new();
    let path = p("/mount/a.txt");
    let encrypted = p("/enc/a.txt.encrypted");
    let seen = tracker.finish_scan_encryption(
        &path,
        &encrypted,
        signature(1),
        Err(MountSyncError::Crypto("disk full".to_string())),
        7,
        8,
    );
    assert!(!seen);
    let pending = tracker.work.pending_writebacks.get(&path).unwrap();
    assert!(pending.low_space);
    assert_eq!(pending.last_error.as_deref(), Some("Crypto error: disk full"));
    assert!(tracker.held.pending_stable.contains_key(&path));
    let left_out = tracker.finish_scan_encryption(
        &path,
        &encrypted,
        signature(1),
        Err(MountSyncError::PathExcluded("x".to_string())),
        7,
        8,
    );
    assert!(!left_out);
    assert!(!tracker.work.pending_writebacks.contains_key(&path));
}

#[test]
fn methods_are_chosen_by_size() {
    let mut tracker = SyncTracker::new();
    tracker.set_stream_threshold_bytes(100);
    tracker.set_stream_chunk_size_bytes(8);
    assert_eq!(
        tracker.choose_encrypt_method(99, false),
        EncryptMethod::Whole
    );
    assert_eq!(
        tracker.choose_encrypt_method(100, false),
        EncryptMethod::Streaming { chunk_size: 8 }
    );
    assert_eq!(
        tracker.choose_encrypt_method(1, true),
        EncryptMethod::Sparse { chunk_size: 8 }
    );
    let err = check_unchanged(
        &p("/mount/a"),
        EncryptMethod::Whole,
        signature(1),
        signature(2),
    )
    .unwrap_err();
    assert_eq!(
        err.message(),
        "Unstable file during sync: File /mount/a changed during read (likely mid-write); deferring encryption"
    );
    assert!(check_unchanged(
        &p("/mount/a"),
        EncryptMethod::Whole,
        signature(1),
        signature(1)
    )
    .is_ok());
}

#[test]
fn encryption_needs_room() {
    let tracker = SyncTracker::new();
    let path = p("/mount/a");
    let encrypted = p("/enc/a.encrypted");
    assert!(tracker
        .plan_encryption(&path, &encrypted, 10, None, None, None)
        .is_ok());
    assert!(tracker
        .plan_encryption(&path, &encrypted, 10, None, Some(10), None)
        .is_err());
    let mut readonly = SyncTracker::new();
    readonly.held.mount_readonly_active = true;
    assert!(readonly
        .plan_encryption(&path, &encrypted, 10, None, None, None)
        .is_err());
}

#[test]
fn unstored_metadata_is_kept() {
    let mut tracker = SyncTracker::new();
    let path = p("/mount/a");
    let encrypted = p("/enc/a.encrypted");
    let record = FileMetadataData {
        file_path: "a".to_string(),
        file_id: None,
        group_id: None,
        epoch_id: 1,
        header_version: None,
        wrapped_file_key: None,
        key_wrap_nonce: None,
        key_wrap_aad_hash: None,
        content_nonce: None,
        content_chunk_size: None,
        algorithm: "x".to_string(),
        file_size: 1,
        modified_at: 1,
        integrity_hash: [0; 32],
        encrypted_size: 1,
        encrypted_at: 1,
        version: 1,
    };
    tracker.finish_encryption(&path, &encrypted, [5; 32], None, Some(record));
    assert!(tracker.work.pending_metadata.contains_key(&encrypted));
    assert_eq!(tracker.files.decrypted_hashes.get(&path), Some(&[5; 32]));
    tracker.settle_metadata(&encrypted, None);
    assert!(!tracker.work.pending_metadata.contains_key(&encrypted));
}

#[test]
fn retries_come_in_order_and_clear_what_is_left_out() {
    let mut tracker = SyncTracker::new();
    tracker.set_excluded_patterns(&vec!["*.log".to_string()]);
    for (name, at) in [("/mount/b.txt", 2), ("/mount/a.log", 1)] {
        tracker.work.pending_writebacks.insert(
            p(name),
            PendingWriteback {
                encrypted_path: p("/enc/x.encrypted"),
                last_error: None,
                low_space: false,
                first_observed_at: at,
                last_observed_at: at,
            },
        );
    }
    let order = tracker.retry_order();
    assert_eq!(order.len(), 2);
    assert_eq!(order[0].mount_path.display(), "/mount/b.txt");
    let facts = RetryFacts {
        mount_exists: true,
        encrypted_exists: false,
        found: Some((true, signature(1))),
        clock: 0,
        now: 3,
    };
    assert_eq!(
        tracker.retry_pending_writeback(&p("/mount/a.log"), &p("/enc/x.encrypted"), facts),
        RetryStep::LeftOut
    );
    assert!(!tracker.work.pending_writebacks.contains_key(&p("/mount/a.log")));
    assert_eq!(
        tracker.retry_pending_writeback(&p("/mount/b.txt"), &p("/enc/x.encrypted"), facts),
        RetryStep::WaitStable
    );
    assert_eq!(
        tracker.retry_pending_writeback(&p("/mount/b.txt"), &p("/enc/x.encrypted"), facts),
        RetryStep::Encrypt
    );
    assert!(tracker
        .finish_retry(
            &p("/mount/b.txt"),
            &p("/enc/x.encrypted"),
            signature(1),
            None,
            Ok((signature(2), "id".to_string())),
            0,
            4,
        )
        .is_ok());
    assert!(tracker.work.pending_writebacks.is_empty());
    let gone = RetryFacts {
        mount_exists: false,
        encrypted_exists: true,
        found: None,
        clock: 0,
        now: 3,
    };
    tracker.record_pending_writeback(&p("/mount/c"), &p("/enc/c.encrypted"), None, 1);
    assert_eq!(
        tracker.retry_pending_writeback(&p("/mount/c"), &p("/enc/c.encrypted"), gone),
        RetryStep::Stale
    );
}

#[test]
fn queued_files_are_seen_or_dropped() {
    let mut tracker = SyncTracker::new();
    let path = p("/mount/a");
    tracker.queue_local_create(path.duplicate());
    let gone = CreateLook {
        exists: false,
        found: None,
    };
    assert_eq!(
        tracker.process_pending_local_create(&p("/mount"), &path, gone, None),
        CreateStep::Drop
    );
    assert!(!tracker.has_pending_background_ops());
}

#[test]
fn scans_go_step_by_step() {
    assert_eq!(
        advance_scan(ScanStep::Begin, ScanEvent::Gate(ScanGate::Open)),
        ScanStep::SettleId
    );
    assert_eq!(
        advance_scan(ScanStep::Begin, ScanEvent::Gate(ScanGate::HardLink)),
        ScanStep::Over
    );
    assert_eq!(
        advance_scan(ScanStep::LookAtContent, ScanEvent::Content(ContentStep::Encrypt)),
        ScanStep::Encrypt
    );
    assert_eq!(
        advance_scan(ScanStep::Encrypt, ScanEvent::Encrypted(false)),
        ScanStep::Over
    );
    assert_eq!(advance_scan(ScanStep::Begin, ScanEvent::Done), ScanStep::Begin);
}

#[test]
fn encryption_goes_step_by_step() {
    let mut steps = vec![EncryptStep::Plan];
    while *steps.last().unwrap() != EncryptStep::Done {
        let next = advance_encrypt(EncryptMethod::Whole, *steps.last().unwrap(), true);
        steps.push(next);
    }
    assert_eq!(
        steps,
        vec![
            EncryptStep::Plan,
            EncryptStep::Read,
            EncryptStep::LookAgain,
            EncryptStep::Encrypt,
            EncryptStep::Place,
            EncryptStep::StoreMetadata,
            EncryptStep::Note,
            EncryptStep::Done,
        ]
    );
    let method = EncryptMethod::Streaming { chunk_size: 1 };
    assert_eq!(
        advance_encrypt(method, EncryptStep::LookAgain, false),
        EncryptStep::Failed
    );
    assert_eq!(
        advance_encrypt(method, EncryptStep::StoreMetadata, false),
        EncryptStep::Note
    );
}
