use mount_sync::digest::{content_digest, hex_text};
use mount_sync::path::SyncPath;
use mount_sync::round::{RoundEvent, RoundStep, SyncRound};
use mount_sync::run::{MountRun, RunEvent, RunOptions, RunStep};
use mount_sync::runner::{
    answer_path, build_mount_options, check_mountpoint_cleanup, determine_mount_strategy,
    fuse_mount_ended, fuse_prereqs, is_request_file, mount_clean_marker_path, mount_recovery_path,
    mount_sync_baseline_path, read_number, scoped_journal, unmount_mountpoint, FuseFacts,
    MountStrategy,
};
use mount_sync::errors::MountSyncError;
use mount_sync::path::{PathMap, PathSet};
use mount_sync::sync::HealthFault;
use mount_sync::tracker::{FileSignature, PendingDeletion, ScanHealth, SyncTracker};

fn p(text: &str) -> SyncPath {
    SyncPath::from_text(text)
}

fn options() -> RunOptions {
    RunOptions {
        has_config_dir: true,
        migration: true,
        answers_requests: true,
    }
}

fn drive(run: &mut MountRun, tracker: &mut SyncTracker, event: RunEvent) -> RunStep {
    run.advance(tracker, &p("/mount"), event, 0);
    run.step
}

#[test]
fn digests_are_sha256() {
    let digest = content_digest(b"abc");
    assert_eq!(
        hex_text(&digest, 32),
        "ba7816bf8f01cfea414140de5dae2223b00361a396177a9cb410ff61f20015ad"
    );
    assert_eq!(hex_text(&digest, 2), "ba78");
    assert_eq!(
        hex_text(&content_digest(b""), 4),
        "e3b0c442"
    );
}

#[test]
fn files_of_a_mount_are_named_by_its_digest() {
    let digits = hex_text(&content_digest(b"/mount|/enc"), 32);
    assert_eq!(
        mount_clean_marker_path(&p("/config"), &p("/mount"), &p("/enc")).display(),
        format!("/config/mount_clean_{digits}.marker")
    );
    assert_eq!(
        mount_sync_baseline_path(&p("/config"), &p("/mount"), &p("/enc")).display(),
        format!("/config/mount_baseline_{digits}.json")
    );
    let short = &digits[..12];
    assert_eq!(
        mount_recovery_path(&p("/config"), &p("/mount"), &p("/enc"), 17).display(),
        format!("/config/mount_recovery/17_mount_{short}")
    );
    assert!(mount_recovery_path(&p("/config"), &p("/"), &p("/enc"), 17)
        .display()
        .starts_with("/config/mount_recovery/17_mount_"));
}

#[test]
fn numbers_are_read() {
    assert_eq!(read_number("17"), Some(17));
    assert_eq!(read_number("+17"), Some(17));
    assert_eq!(read_number("18446744073709551615"), Some(u64::MAX));
    assert_eq!(read_number("18446744073709551616"), None);
    assert_eq!(read_number(""), None);
    assert_eq!(read_number("+"), None);
    assert_eq!(read_number("-1"), None);
    assert_eq!(read_number("1x"), None);
}

#[test]
fn journals_have_a_scope() {
    assert_eq!(
        scoped_journal(&p("/config"), "pending", Some("r")).display(),
        "/config/pending_r.json"
    );
    assert_eq!(
        scoped_journal(&p("/config"), "pending", Some("  ")).display(),
        "/config/pending.json"
    );
    assert_eq!(
        scoped_journal(&p("/config"), "pending", None).display(),
        "/config/pending.json"
    );
}

#[test]
fn fuse_is_used_where_it_can_be() {
    let good = FuseFacts {
        linux: true,
        device_exists: true,
        open_error: None,
        has_fusermount3: false,
        has_fusermount: true,
    };
    assert!(fuse_prereqs(&good).is_ok());
    assert_eq!(determine_mount_strategy(&good), MountStrategy::Fuse);
    let no_device = FuseFacts {
        device_exists: false,
        ..good
    };
    assert_eq!(
        fuse_prereqs(&no_device).unwrap_err(),
        "FUSE device /dev/fuse not found. Install fuse3/fuse and ensure the kernel module is loaded."
    );
    assert_eq!(determine_mount_strategy(&no_device), MountStrategy::Sync);
    let closed = FuseFacts {
        linux: true,
        device_exists: true,
        open_error: Some("denied"),
        has_fusermount3: true,
        has_fusermount: true,
    };
    assert_eq!(
        fuse_prereqs(&closed).unwrap_err(),
        "Cannot access /dev/fuse: denied. Add your user to the 'fuse' group and adjust permissions."
    );
    let no_tool = FuseFacts {
        linux: true,
        device_exists: true,
        open_error: None,
        has_fusermount3: false,
        has_fusermount: false,
    };
    assert_eq!(
        fuse_prereqs(&no_tool).unwrap_err(),
        "Neither fusermount3 nor fusermount found in PATH. Install the fuse3 (preferred) or fuse packages."
    );
    let elsewhere = FuseFacts {
        linux: false,
        ..good
    };
    assert_eq!(
        fuse_prereqs(&elsewhere).unwrap_err(),
        "FUSE mounts are only available on Linux in this build."
    );
    assert_eq!(determine_mount_strategy(&elsewhere), MountStrategy::Sync);
    assert!(unmount_mountpoint(MountStrategy::Fuse, true));
    assert!(!unmount_mountpoint(MountStrategy::Fuse, false));
    assert!(!unmount_mountpoint(MountStrategy::Sync, true));
    assert_eq!(build_mount_options("v").volume_name.as_deref(), Some("v"));
    assert_eq!(fuse_mount_ended(Err("mount gone".to_string()), true), Ok(()));
    assert_eq!(
        fuse_mount_ended(Err("mount gone".to_string()), false),
        Err("mount gone".to_string())
    );
    assert_eq!(
        fuse_mount_ended(Err("other".to_string()), true),
        Err("other".to_string())
    );
}

#[test]
fn only_mounts_are_emptied() {
    let home = Some(p("/home/u"));
    assert_eq!(
        check_mountpoint_cleanup(&p("/home/u/.hybridcipher/demo_mount"), true, &home),
        Ok(true)
    );
    assert_eq!(check_mountpoint_cleanup(&p("/x"), false, &home), Ok(false));
    assert_eq!(
        check_mountpoint_cleanup(&p("/home/u/demo_mount"), true, &home).unwrap_err(),
        "CRITICAL: Refusing to clean path /home/u/demo_mount - not a mountpoint directory (not under ~/.hybridcipher)"
    );
    assert_eq!(
        check_mountpoint_cleanup(&p("/home/u/.hybridcipher/data"), true, &home).unwrap_err(),
        "CRITICAL: Path /home/u/.hybridcipher/data does not look like a mountpoint directory. Refusing to clean."
    );
    for (home, path) in [
        ("/home/a_mount", "/home/a_mount/.hybridcipher/retention"),
        ("/home/u", "/home/u/.hybridcipher/teammount"),
        ("/home/u", "/home/u/.hybridcipher/demo_mount/inner"),
        ("/home/u", "/home/u/.hybridcipher/demo_mount_old"),
        ("/home/u", "/home/u/.hybridcipher"),
    ] {
        assert_eq!(
            check_mountpoint_cleanup(&p(path), true, &Some(p(home))).unwrap_err(),
            format!(
                "CRITICAL: Path {path} does not look like a mountpoint directory. Refusing to clean."
            )
        );
    }
    assert_eq!(
        check_mountpoint_cleanup(&p("/x"), true, &None).unwrap_err(),
        "Unable to resolve home directory for safety check"
    );
}

#[test]
fn mounts_are_told_apart_by_how_they_are_written() {
    let config = p("/config");
    let plain = mount_clean_marker_path(&config, &p("/mount"), &p("/enc"));
    let slash = mount_clean_marker_path(&config, &p("/mount/"), &p("/enc"));
    let dotted = mount_sync_baseline_path(&config, &p("/mount"), &p("/enc/."));
    assert_ne!(plain.display(), slash.display());
    assert_ne!(
        dotted.display(),
        mount_sync_baseline_path(&config, &p("/mount"), &p("/enc")).display()
    );
}

#[test]
fn requests_and_answers_are_json() {
    assert!(is_request_file(&p("/r/a.json")));
    assert!(!is_request_file(&p("/r/a.txt")));
    assert_eq!(
        answer_path(&p("/results"), 0x67e55044_10b1_426f_9247_bb680e5fe0c8).display(),
        "/results/67e55044-10b1-426f-9247-bb680e5fe0c8.json"
    );
}

#[test]
fn clean_mounts_are_rebuilt() {
    let mut tracker = SyncTracker::new();
    let mut run = MountRun::new(options());
    assert_eq!(drive(&mut run, &mut tracker, RunEvent::Done), RunStep::TakeMarker);
    assert_eq!(
        drive(&mut run, &mut tracker, RunEvent::Told(true)),
        RunStep::FirstPublish
    );
    assert!(tracker.suppress_deletion_processing);
    assert_eq!(drive(&mut run, &mut tracker, RunEvent::Done), RunStep::FirstSync);
    assert_eq!(
        drive(&mut run, &mut tracker, RunEvent::Done),
        RunStep::SecondPublish
    );
    assert!(!tracker.suppress_deletion_processing);
    assert_eq!(drive(&mut run, &mut tracker, RunEvent::Done), RunStep::Open);
    assert_eq!(drive(&mut run, &mut tracker, RunEvent::Done), RunStep::Wait);
}

#[test]
fn empty_mounts_delete_nothing() {
    let mut tracker = SyncTracker::new();
    let mut run = MountRun::new(options());
    drive(&mut run, &mut tracker, RunEvent::Done);
    assert_eq!(
        drive(&mut run, &mut tracker, RunEvent::Told(false)),
        RunStep::LookAtMount
    );
    drive(&mut run, &mut tracker, RunEvent::Told(true));
    assert!(run.skip_deletes);
    tracker.queue_local_delete(p("/enc/a.encrypted"));
    drive(&mut run, &mut tracker, RunEvent::Done);
    drive(&mut run, &mut tracker, RunEvent::Done);
    drive(&mut run, &mut tracker, RunEvent::Done);
    assert_eq!(
        drive(&mut run, &mut tracker, RunEvent::Done),
        RunStep::ProcessCreates
    );
    assert_eq!(
        drive(&mut run, &mut tracker, RunEvent::Done),
        RunStep::OperationsSync
    );
}

#[test]
fn mounts_that_cannot_be_reconciled_are_set_aside() {
    let mut tracker = SyncTracker::new();
    tracker.record_pending_writeback(&p("/mount/a"), &p("/enc/a.encrypted"), None, 1);
    let mut run = MountRun::new(options());
    drive(&mut run, &mut tracker, RunEvent::Done);
    drive(&mut run, &mut tracker, RunEvent::Told(false));
    assert_eq!(
        drive(&mut run, &mut tracker, RunEvent::Told(false)),
        RunStep::Reconcile
    );
    assert_eq!(
        drive(&mut run, &mut tracker, RunEvent::Failed("x".to_string())),
        RunStep::Quarantine
    );
    assert_eq!(
        drive(&mut run, &mut tracker, RunEvent::Kept(Some(p("/recovery")))),
        RunStep::FirstPublish
    );
    assert_eq!(run.unwritten.len(), 1);
    assert!(tracker.work.pending_writebacks.is_empty());
    drive(&mut run, &mut tracker, RunEvent::Done);
    assert_eq!(
        drive(&mut run, &mut tracker, RunEvent::Done),
        RunStep::BringCopies
    );
}

#[test]
fn failures_end_the_run() {
    let mut tracker = SyncTracker::new();
    let mut run = MountRun::new(options());
    run.step = RunStep::Quarantine;
    assert_eq!(
        drive(&mut run, &mut tracker, RunEvent::Failed("x".to_string())),
        RunStep::Over
    );
    assert_eq!(
        run.failure.as_deref(),
        Some("Failed to quarantine stale mountpoint /mount: x")
    );
    let mut run = MountRun::new(options());
    run.step = RunStep::ChangeSync;
    assert_eq!(
        drive(&mut run, &mut tracker, RunEvent::Failed("bad".to_string())),
        RunStep::Over
    );
    assert_eq!(run.failure.as_deref(), Some("bad"));
    assert_eq!(drive(&mut run, &mut tracker, RunEvent::PollTick), RunStep::Over);
}

#[test]
fn events_are_answered_while_waiting() {
    let mut tracker = SyncTracker::new();
    let mut run = MountRun::new(options());
    run.step = RunStep::Wait;
    assert_eq!(drive(&mut run, &mut tracker, RunEvent::DrainTick), RunStep::Wait);
    assert_eq!(
        drive(&mut run, &mut tracker, RunEvent::PollTick),
        RunStep::ChangeSync
    );
    assert_eq!(
        drive(&mut run, &mut tracker, RunEvent::Done),
        RunStep::ChangePublish
    );
    assert_eq!(
        drive(&mut run, &mut tracker, RunEvent::Told(true)),
        RunStep::MissedSync
    );
    drive(&mut run, &mut tracker, RunEvent::Done);
    assert_eq!(drive(&mut run, &mut tracker, RunEvent::Done), RunStep::Report);
    assert_eq!(drive(&mut run, &mut tracker, RunEvent::Done), RunStep::Wait);
    assert_eq!(
        drive(&mut run, &mut tracker, RunEvent::RequestTick),
        RunStep::AnswerRequests
    );
    assert_eq!(
        drive(&mut run, &mut tracker, RunEvent::Answered(0)),
        RunStep::Wait
    );
    tracker.preseed_stable(
        &p("/mount/a"),
        FileSignature {
            modified_ns: 1,
            ctime_ns: 1,
            len: 1,
        },
        0,
    );
    assert_eq!(
        drive(&mut run, &mut tracker, RunEvent::DrainTick),
        RunStep::DrainSync
    );
}

#[test]
fn searches_keep_their_distance() {
    let mut tracker = SyncTracker::new();
    let mut run = MountRun::new(options());
    run.step = RunStep::Wait;
    let root = p("/mount");
    let second = 1_000_000_000u64;
    for event in [RunEvent::StateTick, RunEvent::Done, RunEvent::Told(true)] {
        run.advance(&mut tracker, &root, event, 5 * second);
    }
    assert_eq!(run.step, RunStep::CountRewraps);
    run.advance(&mut tracker, &root, RunEvent::Counted(Some(0)), 5 * second);
    assert_eq!(run.step, RunStep::Discover);
    run.advance(&mut tracker, &root, RunEvent::Done, 5 * second);
    assert_eq!(run.last_discovery, Some(5 * second));
    for event in [RunEvent::StateTick, RunEvent::Done, RunEvent::Told(true)] {
        run.advance(&mut tracker, &root, event, 64 * second);
    }
    assert_eq!(run.step, RunStep::Wait);
    for event in [RunEvent::StateTick, RunEvent::Done, RunEvent::Told(true)] {
        run.advance(&mut tracker, &root, event, 65 * second);
    }
    assert_eq!(run.step, RunStep::CountRewraps);
}

#[test]
fn a_clean_end_leaves_the_marker() {
    let mut tracker = SyncTracker::new();
    let mut run = MountRun::new(options());
    run.step = RunStep::Wait;
    let steps: Vec<RunStep> = [
        RunEvent::Stop,
        RunEvent::Done,
        RunEvent::Done,
        RunEvent::Done,
        RunEvent::Done,
        RunEvent::Done,
        RunEvent::Done,
    ]
    .into_iter()
    .map(|event| drive(&mut run, &mut tracker, event))
    .collect();
    assert_eq!(
        steps,
        vec![
            RunStep::Withdraw,
            RunStep::LastSync,
            RunStep::LastPublish,
            RunStep::CleanUp,
            RunStep::LeaveMarker,
            RunStep::LastReport,
            RunStep::Over,
        ]
    );
    let mut busy = SyncTracker::new();
    busy.record_pending_writeback(&p("/mount/a"), &p("/enc/a.encrypted"), None, 1);
    let mut run = MountRun::new(options());
    run.step = RunStep::LastPublish;
    assert_eq!(drive(&mut run, &mut busy, RunEvent::Done), RunStep::LastReport);
}

fn pass(round: &mut SyncRound, tracker: &mut SyncTracker, event: RoundEvent) -> RoundStep {
    round.advance(tracker, &p("/mount"), event);
    round.step
}

fn rooms() -> RoundEvent {
    RoundEvent::Rooms {
        mount: None,
        encrypted: None,
        journal: None,
    }
}

#[test]
fn passes_go_from_the_encrypted_side_to_the_mount() {
    let mut tracker = SyncTracker::new();
    let mut round = SyncRound::new();
    assert_eq!(
        pass(&mut round, &mut tracker, RoundEvent::Told(true)),
        RoundStep::CheckHealth
    );
    assert_eq!(
        pass(&mut round, &mut tracker, RoundEvent::Health(None)),
        RoundStep::FirstRooms
    );
    assert_eq!(pass(&mut round, &mut tracker, rooms()), RoundStep::LookForPaths);
    assert_eq!(
        pass(&mut round, &mut tracker, RoundEvent::Present(PathSet::new())),
        RoundStep::StoreMetadata
    );
    for step in [
        RoundStep::ProbeOpen,
        RoundStep::RetryWritebacks,
        RoundStep::ReadEncrypted,
        RoundStep::TrackDirectories,
        RoundStep::TrackFiles,
        RoundStep::ScanMount,
        RoundStep::ProcessDeletions,
        RoundStep::ProcessOrphans,
        RoundStep::LastRooms,
    ] {
        assert_eq!(pass(&mut round, &mut tracker, RoundEvent::Done), step);
    }
    assert_eq!(pass(&mut round, &mut tracker, rooms()), RoundStep::Flush);
    assert_eq!(
        pass(&mut round, &mut tracker, RoundEvent::Done),
        RoundStep::Over
    );
    assert!(round.failure.is_none());
}

#[test]
fn faults_start_the_counts_anew() {
    let mut tracker = SyncTracker::new();
    tracker.work.pending_deletions.insert(
        p("/enc/a.encrypted"),
        PendingDeletion {
            mount_path: p("/mount/a"),
            consecutive_missing_scans: 6,
            had_healthy_scan: true,
        },
    );
    let mut round = SyncRound::new();
    pass(&mut round, &mut tracker, RoundEvent::Told(true));
    pass(
        &mut round,
        &mut tracker,
        RoundEvent::Health(Some(HealthFault::Entry {
            message: "bad".to_string(),
        })),
    );
    match &tracker.scan_health {
        ScanHealth::Unhealthy { reason } => {
            assert_eq!(reason, "IO error during health check: bad")
        }
        ScanHealth::Healthy => panic!("the fault was lost"),
    }
    round.step = RoundStep::ScanMount;
    assert_eq!(
        pass(&mut round, &mut tracker, RoundEvent::Done),
        RoundStep::LastRooms
    );
    assert_eq!(
        tracker
            .work
            .pending_deletions
            .get(&p("/enc/a.encrypted"))
            .unwrap()
            .consecutive_missing_scans,
        0
    );
}

#[test]
fn short_room_makes_the_mount_readonly() {
    let mut tracker = SyncTracker::new();
    let mut round = SyncRound::new();
    round.step = RoundStep::FirstRooms;
    assert_eq!(
        pass(
            &mut round,
            &mut tracker,
            RoundEvent::Rooms {
                mount: Some(1),
                encrypted: None,
                journal: None
            }
        ),
        RoundStep::FirstMakeReadonly
    );
    let mut modes: PathMap<u32> = PathMap::new();
    modes.insert(p("/mount/a"), 0o644);
    assert_eq!(
        pass(&mut round, &mut tracker, RoundEvent::Modes(modes)),
        RoundStep::LookForPaths
    );
    assert!(tracker.held.mount_readonly_active);
    round.step = RoundStep::LastRooms;
    assert_eq!(pass(&mut round, &mut tracker, rooms()), RoundStep::LastRestore);
    assert_eq!(
        pass(&mut round, &mut tracker, RoundEvent::Done),
        RoundStep::Flush
    );
    assert!(!tracker.held.mount_readonly_active);
}

#[test]
fn lost_mounts_are_forgotten() {
    let mut tracker = SyncTracker::new();
    tracker.record_pending_writeback(&p("/mount/a"), &p("/enc/a.encrypted"), None, 1);
    let mut round = SyncRound::new();
    assert_eq!(
        pass(&mut round, &mut tracker, RoundEvent::Told(false)),
        RoundStep::Flush
    );
    assert!(tracker.work.pending_writebacks.is_empty());
}

#[test]
fn errors_end_the_pass() {
    let mut tracker = SyncTracker::new();
    let mut round = SyncRound::new();
    round.step = RoundStep::ReadEncrypted;
    assert_eq!(
        pass(
            &mut round,
            &mut tracker,
            RoundEvent::Failed(MountSyncError::Format("bad".to_string()))
        ),
        RoundStep::Over
    );
    assert_eq!(round.failure.unwrap().message(), "Format error: bad");
}
