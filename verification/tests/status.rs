use mount_sync::errors::{
    error_message_is_low_space, is_low_space_error, is_low_space_io_error,
    pending_writeback_error_is_retryable, pending_writeback_error_is_terminal, MountSyncError,
};
use mount_sync::path::{PathSet, SyncPath};
use mount_sync::safety::{LowSpaceMode, MountSafetyReason};
use mount_sync::space::{
    available_space_for_path, ensure_space_budget, existing_ancestor, low_space_readonly_error,
    readonly_mode, volume_below_reserve, writable_mode, SpaceWarningState, Volume,
};
use mount_sync::status::{format_open_unlinked_owners, MountSyncRuntimeStatus};
use mount_sync::tracker::{
    OpenUnlinkedOwner, PendingRefresh, PendingWriteback, ScanHealth, SyncTracker,
};

const NOW: i128 = 1_773_230_400_000_000_000;

fn p(text: &str) -> SyncPath {
    SyncPath::from_text(text)
}

#[test]
fn runtime_status_reports_pending_commit_and_low_space_state() {
    let mut tracker = SyncTracker::new();
    tracker.work.pending_writebacks.insert(
        p("/mount/document.txt"),
        PendingWriteback {
            encrypted_path: p("/encrypted/document.txt.encrypted"),
            last_error: Some("No space left on device".to_string()),
            low_space: true,
            first_observed_at: NOW,
            last_observed_at: NOW,
        },
    );
    tracker.work.pending_refreshes.insert(
        p("/mount/other.txt"),
        PendingRefresh {
            encrypted_path: p("/encrypted/other.txt.encrypted"),
            last_error: Some("No space left on device".to_string()),
        },
    );
    tracker.space_warnings = SpaceWarningState {
        mount_low: true,
        encrypted_low: false,
        journal_low: true,
    };

    let status = tracker.runtime_status(NOW);
    assert_eq!(status.pending_writeback_count, 1);
    assert_eq!(status.pending_refresh_count, 1);
    assert_eq!(status.pending_low_space_path_count, 2);
    assert_eq!(status.low_space_mode, LowSpaceMode::FullyDegraded);
    assert!(!status.safe_to_unmount);
    assert!(status
        .unsafe_reasons
        .iter()
        .any(|reason| matches!(reason, MountSafetyReason::PendingWriteback { .. })));
    assert!(status
        .unsafe_reasons
        .iter()
        .any(|reason| matches!(reason, MountSafetyReason::LowSpaceDegraded { .. })));
    assert!(status
        .preflight_warnings
        .iter()
        .any(|warning| warning.contains("pending encrypted commit(s) still need to finish")));
    assert!(status.preflight_warnings.iter().any(|warning| warning
        .contains("pending plaintext refresh(es) are still rebuilding the local mount state")));
    assert!(status
        .preflight_warnings
        .iter()
        .any(|warning| warning.contains("mount volume below reserve")));
    assert!(status
        .preflight_warnings
        .iter()
        .any(|warning| warning.contains("journal volume below reserve")));
}

#[test]
fn reasons_are_told_once_and_in_order() {
    let mut tracker = SyncTracker::new();
    for name in ["/mount/a", "/mount/b", "/mount/c"] {
        tracker.work.pending_writebacks.insert(
            p(name),
            PendingWriteback {
                encrypted_path: p("/enc/a.encrypted"),
                last_error: None,
                low_space: true,
                first_observed_at: NOW,
                last_observed_at: NOW,
            },
        );
        tracker.work.pending_refreshes.insert(
            p(name),
            PendingRefresh {
                encrypted_path: p("/enc/a.encrypted"),
                last_error: None,
            },
        );
    }
    tracker.space_warnings = SpaceWarningState {
        mount_low: true,
        encrypted_low: false,
        journal_low: false,
    };
    let status = tracker.runtime_status(NOW);
    let mut places: Vec<usize> = Vec::new();
    for reason in &status.unsafe_reasons {
        places.push(match reason {
            MountSafetyReason::PendingWriteback { .. } => 0,
            MountSafetyReason::PendingRefresh { .. } => 1,
            MountSafetyReason::LowSpaceDegraded { .. } => 2,
            _ => 3,
        });
    }
    assert_eq!(places, vec![0, 1, 2]);
}

#[test]
fn paths_are_shown_as_they_were_written_first() {
    let mut tracker = SyncTracker::new();
    for path in ["/m//document.txt", "/m/document.txt"] {
        tracker.record_pending_open_unlinked(
            &p(path),
            Some(p("/e/./document.txt.encrypted")),
            true,
            false,
            Vec::new(),
            NOW,
        );
    }
    let status = tracker.runtime_status(NOW);
    assert_eq!(status.open_unlinked_paths, vec!["/m//document.txt"]);
    let records = tracker.pending_open_unlinked_records();
    assert_eq!(records[0].0.display(), "/m//document.txt");
    let mut other = SyncTracker::new();
    other.load_pending_open_unlinked(records);
    assert_eq!(
        other.work.pending_open_unlinked.values[0]
            .encrypted_path
            .as_ref()
            .unwrap()
            .display(),
        "/e/./document.txt.encrypted"
    );
}

#[test]
fn idle_mounts_can_be_unmounted() {
    let status = SyncTracker::new().runtime_status(NOW);
    assert!(status.safe_to_unmount);
    assert!(status.unsafe_reasons.is_empty());
    assert_eq!(status.low_space_mode, LowSpaceMode::Healthy);
    assert_eq!(status.updated_at, NOW);
    let bare = MountSyncRuntimeStatus::unknown(NOW);
    assert!(!bare.safe_to_unmount);
    assert_eq!(bare.pending_writeback_count, 0);
    assert_eq!(bare.last_error, None);
}

#[test]
fn ages_are_told_in_milliseconds() {
    let mut tracker = SyncTracker::new();
    tracker.work.pending_writebacks.insert(
        p("/mount/a"),
        PendingWriteback {
            encrypted_path: p("/enc/a.encrypted"),
            last_error: None,
            low_space: false,
            first_observed_at: NOW - 2_500_000_000,
            last_observed_at: NOW,
        },
    );
    let status = tracker.runtime_status(NOW);
    assert_eq!(status.pending_writeback_oldest_age_ms, Some(2500));
    assert_eq!(
        status.unsafe_reasons[0].summary(),
        "1 pending encrypted commit(s) still need to finish before the newest local changes are protected. Oldest pending commit age: 2s. Example: /mount/a"
    );
}

#[test]
fn reasons_are_told_in_words() {
    let reason = MountSafetyReason::LowSpaceDegraded {
        mode: LowSpaceMode::RefreshDegraded,
        count: 0,
        sample_paths: Vec::new(),
    };
    assert_eq!(
        reason.summary(),
        format!(
            "Low-space degraded mode ({}) is active.",
            LowSpaceMode::RefreshDegraded.name()
        )
    );
    assert!(!reason.is_auto_drainable());
    assert!(MountSafetyReason::PendingRefresh { count: 2 }.is_auto_drainable());
    let edited = MountSafetyReason::Conflict {
        count: 2,
        edited_count: 1,
        sample_paths: vec!["/mount/a".to_string()],
    };
    assert_eq!(
        edited.summary(),
        "2 unresolved conflict file(s) remain local-only until they are resolved or merged back. Example: /mount/a 1 conflict file(s) were edited locally and are still not protected by encrypted sync."
    );
}

#[test]
fn unhealthy_mounts_are_not_emptied() {
    let mut tracker = SyncTracker::new();
    assert!(tracker.can_cleanup_mountpoint());
    tracker.set_scan_health(ScanHealth::Unhealthy {
        reason: "x".to_string(),
    });
    assert!(!tracker.can_cleanup_mountpoint());
}

#[test]
fn full_volumes_are_recognised() {
    assert!(error_message_is_low_space("No Space Left On Device (os error 28)"));
    assert!(error_message_is_low_space("ENOSPC"));
    assert!(!error_message_is_low_space("permission denied"));
    assert!(is_low_space_io_error(Some(28), "x"));
    assert!(is_low_space_io_error(Some(112), "x"));
    assert!(!is_low_space_io_error(Some(13), "x"));
    assert!(is_low_space_error(&low_space_readonly_error(&p("/mount/a"))));
    assert!(!is_low_space_error(&MountSyncError::PathExcluded(
        "disk full".to_string()
    )));
}

#[test]
fn errors_are_told_apart() {
    assert!(pending_writeback_error_is_retryable(
        "Unstable file during sync: File x changed during read"
    ));
    assert!(!pending_writeback_error_is_terminal(&None));
    assert_eq!(
        MountSyncError::Io {
            code: Some(2),
            message: "gone".to_string()
        }
        .message(),
        "I/O error: gone"
    );
    assert_eq!(
        MountSyncError::InvalidPath(p("/a/b")).message(),
        "Invalid path: /a/b"
    );
    assert_eq!(
        MountSyncError::Crypto("no".to_string()).message(),
        "Crypto error: no"
    );
    assert_eq!(
        MountSyncError::UnstableFile("no".to_string()).message(),
        "Unstable file during sync: no"
    );
    assert_eq!(
        MountSyncError::PathExcluded("no".to_string()).message(),
        "Path excluded from encryption: no"
    );
}

#[test]
fn room_is_judged_with_the_reserve() {
    assert!(ensure_space_budget(&p("/mount/a"), None, 10, 5, "write").is_ok());
    assert!(ensure_space_budget(&p("/mount/a"), Some(15), 10, 5, "write").is_ok());
    let err = ensure_space_budget(&p("/mount/a"), Some(14), 10, 5, "write").unwrap_err();
    assert!(is_low_space_error(&err));
    assert!(err.message().contains("write"));
    assert!(volume_below_reserve(Some(4), 5));
    assert!(!volume_below_reserve(Some(5), 5));
    assert!(!volume_below_reserve(None, 5));
}

#[test]
fn the_nearest_volume_holds_a_path() {
    let volumes = vec![
        Volume {
            mount_point: p("/"),
            mount_point_len: 1,
            available: 1,
        },
        Volume {
            mount_point: p("/data"),
            mount_point_len: 5,
            available: 2,
        },
        Volume {
            mount_point: p("/other"),
            mount_point_len: 6,
            available: 3,
        },
    ];
    assert_eq!(available_space_for_path(&volumes, &p("/data/x")), Some(2));
    assert_eq!(available_space_for_path(&volumes, &p("/home/x")), Some(1));
    assert_eq!(available_space_for_path(&Vec::new(), &p("/home/x")), None);
    let mut present = PathSet::new();
    present.insert(p("/data"), ());
    assert_eq!(
        existing_ancestor(&p("/data/a/b"), &present).unwrap().display(),
        "/data"
    );
    assert!(existing_ancestor(&p("/home/a"), &present).is_none());
}

#[test]
fn permissions_lose_and_get_their_bits() {
    assert_eq!(readonly_mode(0o644), 0o444);
    assert_eq!(readonly_mode(0o100777), 0o100555);
    assert_eq!(writable_mode(0o444) & 0o200, 0o200);
}

#[test]
fn owners_are_named() {
    assert_eq!(
        format_open_unlinked_owners(&vec![
            OpenUnlinkedOwner {
                pid: 4,
                name: "A".to_string()
            },
            OpenUnlinkedOwner {
                pid: 5,
                name: "B".to_string()
            }
        ]),
        "A (4), B (5)"
    );
}
