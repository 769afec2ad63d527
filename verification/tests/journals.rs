use mount_sync::path::SyncPath;
use mount_sync::sync::JournalKind;
use mount_sync::tracker::{
    FileMetadataData, FileSignature, OpenUnlinkedOwner, PendingDeletion, PendingOpenUnlinked,
    PendingOrphan, PendingRefresh, PendingWriteback, SyncTracker,
};

const NOW: i128 = 1_773_230_400_000_000_000;

fn p(text: &str) -> SyncPath {
    SyncPath::from_text(text)
}

fn signature(n: u128) -> FileSignature {
    FileSignature {
        modified_ns: n,
        ctime_ns: n,
        len: 5,
    }
}

fn record(file_path: &str) -> FileMetadataData {
    FileMetadataData {
        file_path: file_path.to_string(),
        file_id: Some("mock-file-id".to_string()),
        group_id: None,
        epoch_id: 1,
        header_version: Some(1),
        wrapped_file_key: None,
        key_wrap_nonce: None,
        key_wrap_aad_hash: None,
        content_nonce: None,
        content_chunk_size: None,
        algorithm: "XChaCha20Poly1305".to_string(),
        file_size: 10,
        modified_at: NOW,
        integrity_hash: [7; 32],
        encrypted_size: 42,
        encrypted_at: NOW,
        version: 1,
    }
}

#[test]
fn pending_orphan_journal_round_trips() {
    let mount_path = p("/mount/document.txt");
    let mut tracker = SyncTracker::new();
    tracker.work.pending_orphans.insert(
        mount_path.duplicate(),
        PendingOrphan {
            encrypted_path: p("/encrypted/document.txt.encrypted"),
            consecutive_missing_scans: 3,
            had_healthy_scan: true,
        },
    );

    let mut reloaded = SyncTracker::new();
    reloaded.load_pending_orphans(tracker.pending_orphan_records());

    let pending = reloaded.work.pending_orphans.get(&mount_path).unwrap();
    assert_eq!(
        pending.encrypted_path.display(),
        "/encrypted/document.txt.encrypted"
    );
    assert_eq!(pending.consecutive_missing_scans, 3);
    assert!(pending.had_healthy_scan);
}

#[test]
fn pending_writeback_journal_round_trips_and_blocks_cleanup() {
    let mount_path = p("/tmp/base/document.txt");
    let encrypted_path = p("/tmp/base/document.txt.encrypted");
    let journal_path = p("/tmp/base/pending_writebacks.json");

    let mut tracker = SyncTracker::new();
    tracker.work.pending_writebacks.insert(
        mount_path.duplicate(),
        PendingWriteback {
            encrypted_path: encrypted_path.duplicate(),
            last_error: Some("I/O error: No space left on device".to_string()),
            low_space: true,
            first_observed_at: NOW,
            last_observed_at: NOW,
        },
    );
    tracker.journals.pending_writeback_path = Some(journal_path.duplicate());
    tracker.work.pending_writebacks_dirty = true;
    assert!(tracker.needs_flush(JournalKind::Writebacks));

    let mut reloaded = SyncTracker::new();
    reloaded.set_pending_writeback_path(journal_path);
    reloaded.load_pending_writebacks(tracker.pending_writeback_records());

    let pending = reloaded.work.pending_writebacks.get(&mount_path).unwrap();
    assert_eq!(pending.encrypted_path.display(), encrypted_path.display());
    assert_eq!(
        pending.last_error.as_deref(),
        Some("I/O error: No space left on device")
    );
    assert!(pending.low_space);
    assert!(!reloaded.can_cleanup_mountpoint());
}

#[test]
fn pending_refresh_journal_round_trips() {
    let mount_path = p("/tmp/base/document.txt");
    let encrypted_path = p("/tmp/base/document.txt.encrypted");
    let journal_path = p("/tmp/base/pending_refreshes.json");

    let mut tracker = SyncTracker::new();
    tracker.work.pending_refreshes.insert(
        mount_path.duplicate(),
        PendingRefresh {
            encrypted_path: encrypted_path.duplicate(),
            last_error: Some("No space left on device".to_string()),
        },
    );
    tracker.journals.pending_refresh_path = Some(journal_path.duplicate());
    tracker.work.pending_refreshes_dirty = true;
    assert!(tracker.needs_flush(JournalKind::Refreshes));

    let mut reloaded = SyncTracker::new();
    reloaded.set_pending_refresh_path(journal_path);
    reloaded.load_pending_refreshes(tracker.pending_refresh_records());

    let pending = reloaded.work.pending_refreshes.get(&mount_path).unwrap();
    assert_eq!(pending.encrypted_path.display(), encrypted_path.display());
    assert_eq!(
        pending.last_error.as_deref(),
        Some("No space left on device")
    );
}

#[test]
fn pending_metadata_journal_round_trips() {
    let encrypted_path = p("/tmp/base/document.txt.encrypted");
    let journal_path = p("/tmp/base/pending_metadata.json");

    let mut tracker = SyncTracker::new();
    tracker
        .work
        .pending_metadata
        .insert(encrypted_path.duplicate(), record("document.txt"));
    tracker.journals.pending_metadata_path = Some(journal_path.duplicate());
    tracker.work.pending_metadata_dirty = true;
    assert!(tracker.needs_flush(JournalKind::Metadata));

    let mut reloaded = SyncTracker::new();
    reloaded.set_pending_metadata_path(journal_path);
    reloaded.load_pending_metadata(tracker.pending_metadata_records());

    let pending = reloaded.work.pending_metadata.get(&encrypted_path).unwrap();
    assert_eq!(pending.file_path, "document.txt");
    assert_eq!(pending.file_id.as_deref(), Some("mock-file-id"));
    assert_eq!(pending.encrypted_size, 42);
}

#[test]
fn pending_open_unlinked_journal_round_trips() {
    let journal_path = p("/tmp/base/pending_open_unlinked.json");
    let mount_path = p("/mount/document.txt");
    let encrypted_path = p("/encrypted/document.txt.encrypted");
    let first_seen_at = NOW;
    let last_seen_at = first_seen_at + 5_000_000_000;

    let mut tracker = SyncTracker::new();
    tracker.work.pending_open_unlinked.insert(
        mount_path.duplicate(),
        PendingOpenUnlinked {
            encrypted_path: Some(encrypted_path.duplicate()),
            encrypted_version_exists: true,
            had_unsynced_local_writeback: true,
            first_seen_at,
            last_seen_at,
            owners: vec![OpenUnlinkedOwner {
                pid: 42,
                name: "TextEdit".to_string(),
            }],
        },
    );
    tracker.journals.pending_open_unlinked_path = Some(journal_path.duplicate());
    tracker.work.pending_open_unlinked_dirty = true;
    assert!(tracker.needs_flush(JournalKind::OpenUnlinked));

    let mut reloaded = SyncTracker::new();
    reloaded.set_pending_open_unlinked_path(journal_path);
    reloaded.load_pending_open_unlinked(tracker.pending_open_unlinked_records());

    let pending = reloaded.work.pending_open_unlinked.get(&mount_path).unwrap();
    assert_eq!(
        pending.encrypted_path.as_ref().map(|e| e.display()),
        Some(encrypted_path.display())
    );
    assert!(pending.encrypted_version_exists);
    assert!(pending.had_unsynced_local_writeback);
    assert_eq!(pending.first_seen_at, first_seen_at);
    assert_eq!(pending.last_seen_at, last_seen_at);
    assert_eq!(pending.owners[0].name, "TextEdit");
    assert!(!reloaded.can_cleanup_mountpoint());
}

#[test]
fn pending_deletion_journal_round_trips() {
    let encrypted_path = p("/enc/a.encrypted");
    let mut tracker = SyncTracker::new();
    tracker.work.pending_deletions.insert(
        encrypted_path.duplicate(),
        PendingDeletion {
            mount_path: p("/mount/a"),
            consecutive_missing_scans: 4,
            had_healthy_scan: true,
        },
    );
    let mut reloaded = SyncTracker::new();
    reloaded.load_pending_deletions(tracker.pending_deletion_records());
    let pending = reloaded.work.pending_deletions.get(&encrypted_path).unwrap();
    assert_eq!(pending.mount_path.display(), "/mount/a");
    assert_eq!(pending.consecutive_missing_scans, 4);
    assert!(pending.had_healthy_scan);
}

#[test]
fn writebacks_are_read_back_in_order_of_time() {
    let path = p("/mount/a");
    let mut tracker = SyncTracker::new();
    tracker.load_pending_writebacks(vec![(
        path.duplicate(),
        PendingWriteback {
            encrypted_path: p("/enc/a.encrypted"),
            last_error: None,
            low_space: false,
            first_observed_at: 20,
            last_observed_at: 10,
        },
    )]);
    let pending = tracker.work.pending_writebacks.get(&path).unwrap();
    assert_eq!(pending.first_observed_at, 20);
    assert_eq!(pending.last_observed_at, 20);
}

#[test]
fn sync_baseline_round_trips() {
    let mut tracker = SyncTracker::new();
    tracker.seed_file(p("/enc/a.encrypted"), p("/mount/a"), signature(1), signature(2));
    tracker
        .files
        .file_id_to_mount_path
        .insert("id-a".to_string(), p("/mount/a"));
    tracker.files.decrypted_hashes.insert(p("/mount/a"), [9; 32]);

    let mut reloaded = SyncTracker::new();
    reloaded.load_sync_baseline(Some(tracker.sync_baseline()));
    reloaded.load_sync_baseline(None);
    assert_eq!(
        reloaded.files.encrypted_signatures.get(&p("/enc/a.encrypted")).unwrap().modified_ns,
        1
    );
    assert_eq!(
        reloaded.files.decrypted_signatures.get(&p("/mount/a")).unwrap().modified_ns,
        2
    );
    assert_eq!(
        reloaded.files.path_mapping.get(&p("/enc/a.encrypted")).unwrap().display(),
        "/mount/a"
    );
    assert_eq!(
        reloaded.files.file_id_to_mount_path.get(&"id-a".to_string()).unwrap().display(),
        "/mount/a"
    );
    assert_eq!(reloaded.files.decrypted_hashes.get(&p("/mount/a")), Some(&[9; 32]));
}

#[test]
fn journals_are_written_once() {
    let mut tracker = SyncTracker::new();
    tracker.work.pending_orphans_dirty = true;
    tracker.set_pending_orphan_path(p("/state/pending_orphans.json"));
    assert!(tracker.needs_flush(JournalKind::Orphans));
    assert!(!tracker.needs_flush(JournalKind::Deletions));
    tracker.mark_flushed(JournalKind::Orphans);
    assert!(!tracker.needs_flush(JournalKind::Orphans));
}
