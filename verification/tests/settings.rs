use mount_sync::config::{
    apply_mount_config_from_str, load_mount_config, DeletionConfig, MountSyncConfig,
};
use mount_sync::path::SyncPath;
use mount_sync::run::MountSetup;
use mount_sync::tracker::{
    ConflictPolicy, ConflictPolicyResolution, FileSignature, SyncTracker,
};

fn p(text: &str) -> SyncPath {
    SyncPath::from_text(text)
}

#[test]
fn defaults_are_what_they_are() {
    let config = MountSyncConfig::default();
    assert_eq!(config.deletion.min_consecutive_missing_scans, 7);
    assert_eq!(config.deletion.rapid_scan_total_duration_ms, 2718);
    assert_eq!(config.deletion.retention_days, 7);
    assert_eq!(config.sparse_skip_size_bytes, 512 * 1024 * 1024);
    assert_eq!(config.stream_threshold_bytes, 1024 * 1024 * 1024);
    assert_eq!(config.stream_chunk_size_bytes, 4 * 1024 * 1024);
    assert_eq!(config.stream_stability_age_secs, 5);
    assert_eq!(config.startup_local_delete_max_actions, 20);
    let policy = ConflictPolicy::default();
    assert_eq!(policy.default_resolution, ConflictPolicyResolution::KeepBoth);
    assert_eq!(policy.timestamp_threshold_secs, 5);
}

#[test]
fn documents_change_the_settings() {
    let mut config = MountSyncConfig::default();
    let text = "[mount]\nsparse_skip_size_bytes = 0\nstream_chunk_size_bytes = 0\nstream_threshold_bytes = 10\n[mount.deletion]\nmin_consecutive_missing_scans = 3\nretention_days = -1\n";
    assert!(apply_mount_config_from_str(text, &mut config));
    assert_eq!(config.sparse_skip_size_bytes, 0);
    assert_eq!(config.stream_chunk_size_bytes, 4 * 1024 * 1024);
    assert_eq!(config.stream_threshold_bytes, 10);
    assert_eq!(config.deletion.min_consecutive_missing_scans, 3);
    assert_eq!(config.deletion.retention_days, 7);
}

#[test]
fn documents_without_a_mount_change_nothing() {
    let mut config = MountSyncConfig::default();
    assert!(!apply_mount_config_from_str("[other]\nx = 1\n", &mut config));
    assert!(!apply_mount_config_from_str("not toml", &mut config));
    assert_eq!(config.stream_stability_age_secs, 5);
}

#[test]
fn later_documents_come_over_earlier_ones() {
    let documents = vec![
        "[mount]\nstream_stability_age_secs = 1\nstartup_local_delete_max_actions = 4\n".to_string(),
        "[mount]\nstream_stability_age_secs = 2\n".to_string(),
    ];
    let (config, found) = load_mount_config(&documents);
    assert!(found);
    assert_eq!(config.stream_stability_age_secs, 2);
    assert_eq!(config.startup_local_delete_max_actions, 4);
    assert!(!load_mount_config(&Vec::new()).1);
}

#[test]
fn rapid_scans_are_spread_over_their_time() {
    let config = DeletionConfig {
        min_consecutive_missing_scans: 7,
        rapid_scan_total_duration_ms: 2718,
        retention_days: 7,
        retention_folder: None,
    };
    assert_eq!(config.rapid_scan_interval_ms(), 388);
    let with = config.with_retention_folder(&p("/config"));
    assert_eq!(with.retention_folder.unwrap().display(), "/config/retention");
}

#[test]
fn retention_folders_stay_when_the_settings_have_none() {
    let mut tracker = SyncTracker::new();
    tracker.set_retention_folder(&p("/config"), true);
    tracker.set_deletion_config(DeletionConfig {
        min_consecutive_missing_scans: 2,
        rapid_scan_total_duration_ms: 100,
        retention_days: 1,
        retention_folder: None,
    });
    let config = &tracker.settings.deletion_config;
    assert_eq!(config.min_consecutive_missing_scans, 2);
    assert_eq!(
        config.retention_folder.as_ref().map(|f| f.display()),
        Some("/config/retention".to_string())
    );
    let mut other = SyncTracker::new();
    other.set_retention_folder(&p("/config"), false);
    assert!(other.settings.deletion_config.retention_folder.is_none());
}

#[test]
fn mounts_are_set_up() {
    let config_dir = p("/config");
    let registry = p("/config/conflicts.json");
    let setup = MountSetup {
        config_dir: Some(&config_dir),
        retention_made: true,
        scope: Some("root-1"),
        conflict_registry: Some(&registry),
        recovery_registry: None,
    };
    let (tracker, marker) = SyncTracker::for_mount(
        MountSyncConfig::default(),
        &vec!["*.log".to_string()],
        &setup,
        &p("/mount"),
        &p("/enc"),
    );
    let shown = |path: &Option<SyncPath>| path.as_ref().map(|f| f.display()).unwrap();
    assert_eq!(
        shown(&tracker.journals.pending_deletion_path),
        "/config/pending_deletions_root-1.json"
    );
    assert_eq!(
        shown(&tracker.journals.pending_metadata_path),
        "/config/pending_metadata_root-1.json"
    );
    assert!(shown(&tracker.journals.sync_baseline_path).starts_with("/config/mount_baseline_"));
    assert_eq!(shown(&tracker.journals.conflict_registry_path), "/config/conflicts.json");
    assert!(tracker.copies.conflict_registry_dirty);
    assert!(!tracker.copies.recovery_registry_dirty);
    assert_eq!(
        shown(&tracker.settings.deletion_config.retention_folder),
        "/config/retention"
    );
    assert!(shown(&marker).starts_with("/config/mount_clean_"));
    assert!(tracker.is_path_excluded(&p("/mount/a.log")));

    let bare = MountSetup {
        config_dir: None,
        retention_made: false,
        scope: None,
        conflict_registry: None,
        recovery_registry: None,
    };
    let (tracker, marker) = SyncTracker::for_mount(
        MountSyncConfig::default(),
        &Vec::new(),
        &bare,
        &p("/mount"),
        &p("/enc"),
    );
    assert!(marker.is_none());
    assert!(tracker.journals.pending_deletion_path.is_none());
}

#[test]
fn chunk_sizes_of_zero_count_as_none() {
    let mut tracker = SyncTracker::new();
    tracker.set_stream_chunk_size_bytes(0);
    assert_eq!(tracker.stream_chunk_size(), None);
    tracker.set_stream_chunk_size_bytes(4096);
    assert_eq!(tracker.stream_chunk_size(), Some(4096));
    tracker.set_stream_threshold_bytes(0);
    assert!(!tracker.should_stream_file(u64::MAX));
    tracker.set_stream_threshold_bytes(10);
    assert!(tracker.should_stream_file(10));
    assert!(!tracker.should_stream_file(9));
}

#[test]
fn queues_hold_a_path_once() {
    let mut tracker = SyncTracker::new();
    tracker.queue_local_create(p("/mount/a"));
    tracker.queue_local_create(p("/mount/a"));
    tracker.queue_local_delete(p("/enc/b.encrypted"));
    assert_eq!(tracker.pending_local_creates().len(), 1);
    assert_eq!(tracker.pending_local_deletes().len(), 1);
    assert!(tracker.has_pending_background_ops());
    tracker.complete_local_create(&p("/mount/a"));
    tracker.complete_local_delete(&p("/enc/b.encrypted"));
    assert!(!tracker.has_pending_background_ops());
}

#[test]
fn mappings_are_turned_around() {
    let mut tracker = SyncTracker::new();
    let sig = FileSignature {
        modified_ns: 1,
        ctime_ns: 1,
        len: 1,
    };
    tracker.seed_file(p("/enc/a.encrypted"), p("/mount/a"), sig, sig);
    let turned = tracker.mount_to_encrypted_mapping();
    assert_eq!(turned.get(&p("/mount/a")).unwrap().display(), "/enc/a.encrypted");
    assert_eq!(tracker.decrypted_signatures_snapshot().len(), 1);
    assert_eq!(tracker.encrypted_signatures_snapshot().len(), 1);
}

#[test]
fn rebuilding_forgets_the_mount() {
    let mut tracker = SyncTracker::new();
    let sig = FileSignature {
        modified_ns: 1,
        ctime_ns: 1,
        len: 1,
    };
    tracker.seed_file(p("/enc/a.encrypted"), p("/mount/a"), sig, sig);
    tracker.enter_startup_rehydrate_mode();
    assert!(tracker.files.decrypted_signatures.is_empty());
    assert!(tracker.files.path_mapping.is_empty());
    assert_eq!(tracker.files.encrypted_signatures.len(), 1);
    assert!(tracker.suppress_deletion_inference);
    assert!(!tracker.infers_deletions());
    tracker.exit_startup_rehydrate_mode();
    assert!(tracker.infers_deletions());
}
