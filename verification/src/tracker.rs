//! The state of a sync mount.

use vstd::prelude::*;
use vstd::string::*;

use crate::config::{
    DeletionConfig, SPARSE_SKIP_SIZE_BYTES, STREAM_CHUNK_SIZE_BYTES, STREAM_STABILITY_AGE_SECS,
    STREAM_THRESHOLD_BYTES,
};
use crate::path::{
    view_keys, PathEntries, PathKey, PathMap, PathSet, PathView, SyncPath, TextEntries, TextMap,
};
use crate::space::SpaceWarningState;
use crate::table::TableKey;

verus! {

/// A point in time: nanoseconds since 1970, UTC.
pub type UtcNanos = i128;

/// A point in time on a clock that never goes back: nanoseconds.
pub type ClockNanos = u64;

/// A digest of a file's content or metadata.
pub type Digest = [u8; 32];

/// What tells one state of a file from another without reading it.
#[derive(Clone, Copy, Debug, PartialEq, Eq, Structural)]
pub struct FileSignature {
    pub modified_ns: u128,
    pub ctime_ns: u128,
    pub len: u64,
}

impl Default for FileSignature {
    fn default() -> (res: FileSignature)
        ensures
            res == (FileSignature { modified_ns: 0, ctime_ns: 0, len: 0 }),
    {
        FileSignature { modified_ns: 0, ctime_ns: 0, len: 0 }
    }
}

/// A time in seconds and nanoseconds as nanoseconds, and zero where either is negative.
pub open spec fn time_ns(secs: i64, nanos: i64) -> u128 {
    if secs < 0 || nanos < 0 {
        0
    } else {
        (secs * 1_000_000_000 + nanos) as u128
    }
}

impl FileSignature {
    /// The signature of a file with the given times and length.
    pub fn from_metadata(
        modified: Option<(i64, i64)>,
        changed: (i64, i64),
        len: u64,
    ) -> (res: FileSignature)
        ensures
            res.len == len,
            res.modified_ns == match modified {
                Some((secs, nanos)) => time_ns(secs, nanos),
                None => 0,
            },
            res.ctime_ns == time_ns(changed.0, changed.1),
    {
        let modified_ns: u128 = match modified {
            Some((secs, nanos)) => nanoseconds(secs, nanos),
            None => 0,
        };
        FileSignature { modified_ns, ctime_ns: nanoseconds(changed.0, changed.1), len }
    }

    /// The content is taken to be the same: neither the time of change of the content nor the
    /// length differs.
    pub open spec fn same_content(self, other: FileSignature) -> bool {
        self.modified_ns == other.modified_ns && self.len == other.len
    }

    /// Whether the content is taken to be the same.
    pub fn content_signature_eq(&self, other: &FileSignature) -> (res: bool)
        ensures
            res == self.same_content(*other),
    {
        self.modified_ns == other.modified_ns && self.len == other.len
    }

    /// Whether only the time of change of the metadata differs.
    pub fn ctime_only_change(&self, other: &FileSignature) -> (res: bool)
        ensures
            res == (self.same_content(*other) && self.ctime_ns != other.ctime_ns),
    {
        self.content_signature_eq(other) && self.ctime_ns != other.ctime_ns
    }
}

fn nanoseconds(secs: i64, nanos: i64) -> (res: u128)
    ensures
        res == time_ns(secs, nanos),
{
    if secs < 0 || nanos < 0 {
        0
    } else {
        (secs as u128) * 1_000_000_000u128 + nanos as u128
    }
}

/// Why a conflict copy was made.
#[derive(Debug, Clone, Copy, PartialEq, Eq, Structural)]
pub enum ConflictKind {
    DecryptCollision,
    DeletedOpenRecovery,
    /// Both sides changed the same file while they were apart.
    LocalRemoteBothModified,
    /// A file was edited here that was deleted on the other side.
    LocalEditRemoteDelete,
    /// A file was deleted here that was edited on the other side.
    LocalDeleteRemoteEdit,
}

/// How conflicts found at the start of a mount are resolved.
#[derive(Debug, Clone, Copy, PartialEq, Eq, Structural)]
pub struct ConflictPolicy {
    pub default_resolution: ConflictPolicyResolution,
    /// Where the times differ by no more than this, both versions are kept.
    pub timestamp_threshold_secs: u64,
}

impl Default for ConflictPolicy {
    fn default() -> (res: ConflictPolicy)
        ensures
            res == (ConflictPolicy {
                default_resolution: ConflictPolicyResolution::KeepBoth,
                timestamp_threshold_secs: 5,
            }),
    {
        ConflictPolicy {
            default_resolution: ConflictPolicyResolution::KeepBoth,
            timestamp_threshold_secs: 5,
        }
    }
}

/// One way to resolve a conflict.
#[derive(Debug, Clone, Copy, PartialEq, Eq, Structural)]
pub enum ConflictPolicyResolution {
    /// Keep the file and a conflict copy.
    KeepBoth,
    /// The version that was changed last wins.
    NewerWins,
    /// The local version wins.
    LocalWins,
    /// The remote version wins.
    RemoteWins,
}

impl Default for ConflictPolicyResolution {
    fn default() -> (res: ConflictPolicyResolution)
        ensures
            res == ConflictPolicyResolution::KeepBoth,
    {
        ConflictPolicyResolution::KeepBoth
    }
}

/// Whether the mount could be read without faults.
#[derive(Debug)]
pub enum ScanHealth {
    Healthy,
    Unhealthy { reason: String },
}

/// A file that is gone from the mount, whose encrypted form is to be deleted.
#[derive(Debug)]
pub struct PendingDeletion {
    pub mount_path: SyncPath,
    pub consecutive_missing_scans: u32,
    pub had_healthy_scan: bool,
}

/// A mounted file whose encrypted form is gone.
#[derive(Debug)]
pub struct PendingOrphan {
    pub encrypted_path: SyncPath,
    pub consecutive_missing_scans: u32,
    pub had_healthy_scan: bool,
}

/// A change of a mounted file that is not encrypted yet.
#[derive(Debug)]
pub struct PendingWriteback {
    pub encrypted_path: SyncPath,
    pub last_error: Option<String>,
    pub low_space: bool,
    pub first_observed_at: UtcNanos,
    pub last_observed_at: UtcNanos,
}

/// A change of an encrypted file that is not decrypted yet for want of space.
#[derive(Debug)]
pub struct PendingRefresh {
    pub encrypted_path: SyncPath,
    pub last_error: Option<String>,
}

/// A process that has a file open.
#[derive(Debug)]
pub struct OpenUnlinkedOwner {
    pub pid: i32,
    pub name: String,
}

/// A file that was deleted from the mount while a process has it open.
#[derive(Debug)]
pub struct PendingOpenUnlinked {
    pub encrypted_path: Option<SyncPath>,
    pub encrypted_version_exists: bool,
    pub had_unsynced_local_writeback: bool,
    pub first_seen_at: UtcNanos,
    pub last_seen_at: UtcNanos,
    pub owners: Vec<OpenUnlinkedOwner>,
}

/// A conflict copy as it was when it was found.
#[derive(Debug)]
pub struct ConflictBaseline {
    pub id: u128,
    pub live_path: SyncPath,
    pub kind: ConflictKind,
    pub created_at: UtcNanos,
    pub signature: FileSignature,
    pub content_hash: Option<Digest>,
    pub edited: bool,
}

/// A file that is waited for to stay the same.
#[derive(Debug, Clone, Copy)]
pub struct StableEntry {
    pub signature: FileSignature,
    pub first_seen: ClockNanos,
}

/// What is stored about an encrypted file.
#[derive(Debug)]
pub struct FileMetadataData {
    pub file_path: String,
    pub file_id: Option<String>,
    pub group_id: Option<u128>,
    pub epoch_id: u64,
    pub header_version: Option<u32>,
    pub wrapped_file_key: Option<Vec<u8>>,
    pub key_wrap_nonce: Option<Vec<u8>>,
    pub key_wrap_aad_hash: Option<Vec<u8>>,
    pub content_nonce: Option<Vec<u8>>,
    pub content_chunk_size: Option<u64>,
    pub algorithm: String,
    pub file_size: u64,
    pub modified_at: UtcNanos,
    pub integrity_hash: Digest,
    pub encrypted_size: u64,
    pub encrypted_at: UtcNanos,
    pub version: u32,
}

/// What is known of the files on both sides.
pub struct FileLedger {
    pub encrypted_signatures: PathMap<FileSignature>,
    pub encrypted_directory_signatures: PathMap<FileSignature>,
    pub decrypted_signatures: PathMap<FileSignature>,
    pub decrypted_directory_signatures: PathMap<FileSignature>,
    pub decrypted_hashes: PathMap<Digest>,
    pub decrypted_metadata_hashes: PathMap<Digest>,
    pub decrypted_directory_metadata_hashes: PathMap<Digest>,
    /// From encrypted paths to the paths that they are mounted at.
    pub path_mapping: PathMap<SyncPath>,
    /// From file identifiers to the paths that the files were mounted at. A file that is here
    /// and not in the mount was deleted there.
    pub file_id_to_mount_path: TextMap<SyncPath>,
    /// From names as they compare without regard to case to the paths that have them.
    pub mount_collision_keys: TextMap<SyncPath>,
}

impl FileLedger {
    /// In every map each key stands once.
    pub open spec fn wf(&self) -> bool {
        &&& self.encrypted_signatures.wf()
        &&& self.encrypted_directory_signatures.wf()
        &&& self.decrypted_signatures.wf()
        &&& self.decrypted_directory_signatures.wf()
        &&& self.decrypted_hashes.wf()
        &&& self.decrypted_metadata_hashes.wf()
        &&& self.decrypted_directory_metadata_hashes.wf()
        &&& self.path_mapping.wf()
        &&& self.file_id_to_mount_path.wf()
        &&& self.mount_collision_keys.wf()
    }

    /// Nothing is known.
    pub open spec fn is_empty(&self) -> bool {
        &&& self.encrypted_signatures@ == PathEntries::<FileSignature>::empty()
        &&& self.encrypted_directory_signatures@ == PathEntries::<FileSignature>::empty()
        &&& self.decrypted_signatures@ == PathEntries::<FileSignature>::empty()
        &&& self.decrypted_directory_signatures@ == PathEntries::<FileSignature>::empty()
        &&& self.decrypted_hashes@ == PathEntries::<Digest>::empty()
        &&& self.decrypted_metadata_hashes@ == PathEntries::<Digest>::empty()
        &&& self.decrypted_directory_metadata_hashes@ == PathEntries::<Digest>::empty()
        &&& self.path_mapping@ == PathEntries::<SyncPath>::empty()
        &&& self.file_id_to_mount_path@ == TextEntries::<SyncPath>::empty()
        &&& self.mount_collision_keys@ == TextEntries::<SyncPath>::empty()
    }

    /// A ledger of which nothing is known.
    pub fn new() -> (res: FileLedger)
        ensures
            res.wf(),
            res.is_empty(),
    {
        FileLedger {
            encrypted_signatures: PathMap::new(),
            encrypted_directory_signatures: PathMap::new(),
            decrypted_signatures: PathMap::new(),
            decrypted_directory_signatures: PathMap::new(),
            decrypted_hashes: PathMap::new(),
            decrypted_metadata_hashes: PathMap::new(),
            decrypted_directory_metadata_hashes: PathMap::new(),
            path_mapping: PathMap::new(),
            file_id_to_mount_path: TextMap::new(),
            mount_collision_keys: TextMap::new(),
        }
    }
}

/// What is still to be done, and which of it is not written to its journal yet.
pub struct PendingWork {
    /// By encrypted path.
    pub pending_deletions: PathMap<PendingDeletion>,
    pub pending_deletions_dirty: bool,
    /// By mounted path, as are the three that follow.
    pub pending_orphans: PathMap<PendingOrphan>,
    pub pending_orphans_dirty: bool,
    pub pending_writebacks: PathMap<PendingWriteback>,
    pub pending_writebacks_dirty: bool,
    pub pending_refreshes: PathMap<PendingRefresh>,
    pub pending_refreshes_dirty: bool,
    pub pending_open_unlinked: PathMap<PendingOpenUnlinked>,
    pub pending_open_unlinked_dirty: bool,
    /// Metadata still to be stored, by encrypted path.
    pub pending_metadata: PathMap<FileMetadataData>,
    pub pending_metadata_dirty: bool,
}

impl PendingWork {
    /// In every map each key stands once.
    pub open spec fn wf(&self) -> bool {
        &&& self.pending_deletions.wf()
        &&& self.pending_orphans.wf()
        &&& self.pending_writebacks.wf()
        &&& self.pending_refreshes.wf()
        &&& self.pending_open_unlinked.wf()
        &&& self.pending_metadata.wf()
    }

    /// Nothing is pending.
    pub open spec fn is_empty(&self) -> bool {
        &&& self.pending_deletions@ == PathEntries::<PendingDeletion>::empty()
        &&& self.pending_orphans@ == PathEntries::<PendingOrphan>::empty()
        &&& self.pending_writebacks@ == PathEntries::<PendingWriteback>::empty()
        &&& self.pending_refreshes@ == PathEntries::<PendingRefresh>::empty()
        &&& self.pending_open_unlinked@ == PathEntries::<PendingOpenUnlinked>::empty()
        &&& self.pending_metadata@ == PathEntries::<FileMetadataData>::empty()
    }

    /// No journal has changes that are not written.
    pub open spec fn is_flushed(&self) -> bool {
        &&& !self.pending_deletions_dirty
        &&& !self.pending_orphans_dirty
        &&& !self.pending_writebacks_dirty
        &&& !self.pending_refreshes_dirty
        &&& !self.pending_open_unlinked_dirty
        &&& !self.pending_metadata_dirty
    }

    /// Nothing to do.
    pub fn new() -> (res: PendingWork)
        ensures
            res.wf(),
            res.is_empty(),
            res.is_flushed(),
    {
        PendingWork {
            pending_deletions: PathMap::new(),
            pending_deletions_dirty: false,
            pending_orphans: PathMap::new(),
            pending_orphans_dirty: false,
            pending_writebacks: PathMap::new(),
            pending_writebacks_dirty: false,
            pending_refreshes: PathMap::new(),
            pending_refreshes_dirty: false,
            pending_open_unlinked: PathMap::new(),
            pending_open_unlinked_dirty: false,
            pending_metadata: PathMap::new(),
            pending_metadata_dirty: false,
        }
    }
}

/// The copies that stay on this side until someone decides about them.
pub struct LocalCopies {
    pub conflict_baselines: PathMap<ConflictBaseline>,
    pub conflict_registry_dirty: bool,
    pub recovered_pending_paths: PathSet,
    pub recovery_registry_dirty: bool,
}

impl LocalCopies {
    /// In every map each key stands once.
    pub open spec fn wf(&self) -> bool {
        self.conflict_baselines.wf() && self.recovered_pending_paths.wf()
    }

    /// There are no copies.
    pub open spec fn is_empty(&self) -> bool {
        &&& self.conflict_baselines@ == PathEntries::<ConflictBaseline>::empty()
        &&& self.recovered_pending_paths@ == PathEntries::<()>::empty()
    }

    /// No copies.
    pub fn new() -> (res: LocalCopies)
        ensures
            res.wf(),
            res.is_empty(),
            !res.conflict_registry_dirty,
            !res.recovery_registry_dirty,
    {
        LocalCopies {
            conflict_baselines: PathMap::new(),
            conflict_registry_dirty: false,
            recovered_pending_paths: PathSet::new(),
            recovery_registry_dirty: false,
        }
    }
}

/// What is held back from being synced, and the permissions that were taken away meanwhile.
pub struct HeldBack {
    pub unsupported_transactional_paths: PathMap<String>,
    pub unsupported_hard_link_paths: PathMap<String>,
    pub pending_temp: PathMap<ClockNanos>,
    pub pending_sparse: PathSet,
    pub pending_stable: PathMap<StableEntry>,
    pub mount_readonly_active: bool,
    pub mount_readonly_restore_modes: PathMap<u32>,
    pub hard_link_block_restore_modes: PathMap<u32>,
}

impl HeldBack {
    /// In every map each key stands once.
    pub open spec fn wf(&self) -> bool {
        &&& self.unsupported_transactional_paths.wf()
        &&& self.unsupported_hard_link_paths.wf()
        &&& self.pending_temp.wf()
        &&& self.pending_sparse.wf()
        &&& self.pending_stable.wf()
        &&& self.mount_readonly_restore_modes.wf()
        &&& self.hard_link_block_restore_modes.wf()
    }

    /// Nothing is held back.
    pub open spec fn is_empty(&self) -> bool {
        &&& self.unsupported_transactional_paths@ == PathEntries::<String>::empty()
        &&& self.unsupported_hard_link_paths@ == PathEntries::<String>::empty()
        &&& self.pending_temp@ == PathEntries::<ClockNanos>::empty()
        &&& self.pending_sparse@ == PathEntries::<()>::empty()
        &&& self.pending_stable@ == PathEntries::<StableEntry>::empty()
        &&& !self.mount_readonly_active
        &&& self.mount_readonly_restore_modes@ == PathEntries::<u32>::empty()
        &&& self.hard_link_block_restore_modes@ == PathEntries::<u32>::empty()
    }

    /// Nothing is held back.
    pub fn new() -> (res: HeldBack)
        ensures
            res.wf(),
            res.is_empty(),
    {
        HeldBack {
            unsupported_transactional_paths: PathMap::new(),
            unsupported_hard_link_paths: PathMap::new(),
            pending_temp: PathMap::new(),
            pending_sparse: PathSet::new(),
            pending_stable: PathMap::new(),
            mount_readonly_active: false,
            mount_readonly_restore_modes: PathMap::new(),
            hard_link_block_restore_modes: PathMap::new(),
        }
    }
}

/// The files in which the state is kept.
pub struct Journals {
    pub pending_deletion_path: Option<SyncPath>,
    pub pending_orphan_path: Option<SyncPath>,
    pub pending_writeback_path: Option<SyncPath>,
    pub pending_refresh_path: Option<SyncPath>,
    pub pending_open_unlinked_path: Option<SyncPath>,
    pub pending_metadata_path: Option<SyncPath>,
    pub sync_baseline_path: Option<SyncPath>,
    pub conflict_registry_path: Option<SyncPath>,
    pub recovery_registry_path: Option<SyncPath>,
}

impl Journals {
    /// No file is known.
    pub fn new() -> (res: Journals)
        ensures
            res == (Journals {
                pending_deletion_path: None,
                pending_orphan_path: None,
                pending_writeback_path: None,
                pending_refresh_path: None,
                pending_open_unlinked_path: None,
                pending_metadata_path: None,
                sync_baseline_path: None,
                conflict_registry_path: None,
                recovery_registry_path: None,
            }),
    {
        Journals {
            pending_deletion_path: None,
            pending_orphan_path: None,
            pending_writeback_path: None,
            pending_refresh_path: None,
            pending_open_unlinked_path: None,
            pending_metadata_path: None,
            sync_baseline_path: None,
            conflict_registry_path: None,
            recovery_registry_path: None,
        }
    }
}

/// The settings by which a mount is synced.
pub struct Settings {
    pub deletion_config: DeletionConfig,
    pub sparse_skip_size_bytes: u64,
    pub stream_threshold_bytes: u64,
    pub stream_chunk_size_bytes: u64,
    pub stream_stability_age_secs: u64,
    pub excluded_patterns: Vec<String>,
    pub conflict_policy: ConflictPolicy,
}

/// The state of a sync mount.
pub struct SyncTracker {
    pub files: FileLedger,
    pub work: PendingWork,
    pub copies: LocalCopies,
    pub held: HeldBack,
    pub journals: Journals,
    pub settings: Settings,
    pub last_open_unlinked_warning: Option<String>,
    pub scan_health: ScanHealth,
    pub space_warnings: SpaceWarningState,
    pub pending_local_creates: Vec<SyncPath>,
    pub pending_local_deletes: Vec<SyncPath>,
    /// No deletion is concluded from a file that is not in the mount.
    pub suppress_deletion_inference: bool,
    /// No deletion is carried out.
    pub suppress_deletion_processing: bool,
}

/// The paths of a vector.
pub open spec fn path_views(paths: Seq<SyncPath>) -> Seq<PathView> {
    paths.map_values(|p: SyncPath| p@)
}

/// That by which the paths of a vector are told apart.
pub open spec fn keys_of(paths: Seq<SyncPath>) -> Seq<PathKey> {
    view_keys(path_views(paths))
}

/// Each path stands once.
#[verifier::opaque]
pub open spec fn distinct(paths: Seq<SyncPath>) -> bool {
    keys_of(paths).no_duplicates()
}

/// A queue with one more path, once.
pub open spec fn queued(queue: Seq<PathView>, path: Option<PathView>) -> Seq<PathView> {
    match path {
        Some(p) => if view_keys(queue).contains(p.key()) {
            queue
        } else {
            queue.push(p)
        },
        None => queue,
    }
}

/// Whether a vector holds a path.
pub fn has_path(paths: &Vec<SyncPath>, path: &SyncPath) -> (res: bool)
    ensures
        res == keys_of(paths@).contains(path@.key()),
{
    let mut i: usize = 0;
    while i < paths.len()
        invariant
            i <= paths.len(),
            forall|k: int| 0 <= k < i ==> keys_of(paths@)[k] != path@.key(),
        decreases paths.len() - i,
    {
        assert(keys_of(paths@)[i as int] == paths@[i as int]@.key());
        if paths[i].same(path) {
            return true;
        }
        i += 1;
    }
    false
}

impl SyncTracker {
    /// In every map each key stands once, and so does each queued path.
    pub open spec fn wf(&self) -> bool {
        &&& self.files.wf()
        &&& self.work.wf()
        &&& self.copies.wf()
        &&& self.held.wf()
        &&& distinct(self.pending_local_creates@)
        &&& distinct(self.pending_local_deletes@)
    }

    /// The state of a mount of which nothing is known.
    pub fn new() -> (res: SyncTracker)
        ensures
            res.wf(),
            res.files.is_empty(),
            res.work.is_empty(),
            res.work.is_flushed(),
            res.copies.is_empty(),
            !res.copies.conflict_registry_dirty,
            !res.copies.recovery_registry_dirty,
            res.held.is_empty(),
            res.journals == (Journals {
                pending_deletion_path: None,
                pending_orphan_path: None,
                pending_writeback_path: None,
                pending_refresh_path: None,
                pending_open_unlinked_path: None,
                pending_metadata_path: None,
                sync_baseline_path: None,
                conflict_registry_path: None,
                recovery_registry_path: None,
            }),
            res.settings.deletion_config.min_consecutive_missing_scans == 7,
            res.settings.deletion_config.rapid_scan_total_duration_ms == 2718,
            res.settings.deletion_config.retention_days == 7,
            res.settings.deletion_config.retention_folder is None,
            res.settings.sparse_skip_size_bytes == SPARSE_SKIP_SIZE_BYTES,
            res.settings.stream_threshold_bytes == STREAM_THRESHOLD_BYTES,
            res.settings.stream_chunk_size_bytes == STREAM_CHUNK_SIZE_BYTES,
            res.settings.stream_stability_age_secs == STREAM_STABILITY_AGE_SECS,
            res.settings.excluded_patterns@.len() == 0,
            res.settings.conflict_policy == (ConflictPolicy {
                default_resolution: ConflictPolicyResolution::KeepBoth,
                timestamp_threshold_secs: 5,
            }),
            res.last_open_unlinked_warning is None,
            res.scan_health is Healthy,
            res.space_warnings == (SpaceWarningState {
                mount_low: false,
                encrypted_low: false,
                journal_low: false,
            }),
            res.pending_local_creates@.len() == 0,
            res.pending_local_deletes@.len() == 0,
            !res.suppress_deletion_inference,
            !res.suppress_deletion_processing,
    {
        proof {
            reveal(distinct);
        }
        SyncTracker {
            files: FileLedger::new(),
            work: PendingWork::new(),
            copies: LocalCopies::new(),
            held: HeldBack::new(),
            journals: Journals::new(),
            settings: Settings {
                deletion_config: DeletionConfig::default(),
                sparse_skip_size_bytes: SPARSE_SKIP_SIZE_BYTES,
                stream_threshold_bytes: STREAM_THRESHOLD_BYTES,
                stream_chunk_size_bytes: STREAM_CHUNK_SIZE_BYTES,
                stream_stability_age_secs: STREAM_STABILITY_AGE_SECS,
                excluded_patterns: Vec::new(),
                conflict_policy: ConflictPolicy::default(),
            },
            last_open_unlinked_warning: None,
            scan_health: ScanHealth::Healthy,
            space_warnings: SpaceWarningState::none(),
            pending_local_creates: Vec::new(),
            pending_local_deletes: Vec::new(),
            suppress_deletion_inference: false,
            suppress_deletion_processing: false,
        }
    }

    /// Sets how deletions are confirmed. A retention folder that is set stays where the new
    /// settings have none.
    pub fn set_deletion_config(&mut self, config: DeletionConfig)
        ensures
            *final(self) == (SyncTracker { settings: final(self).settings, ..*old(self) }),
            final(self).settings == (Settings {
                deletion_config: DeletionConfig {
                    retention_folder: if config.retention_folder is Some {
                        config.retention_folder
                    } else {
                        old(self).settings.deletion_config.retention_folder
                    },
                    ..config
                },
                ..old(self).settings
            }),
    {
        let mut merged = config;
        if merged.retention_folder.is_none() {
            let mut kept: Option<SyncPath> = None;
            core::mem::swap(&mut kept, &mut self.settings.deletion_config.retention_folder);
            merged.retention_folder = kept;
        }
        self.settings.deletion_config = merged;
    }

    /// Queues a mounted file to be encrypted, once.
    pub fn queue_local_create(&mut self, mount_path: SyncPath)
        requires
            old(self).wf(),
        ensures
            final(self).wf(),
            path_views(final(self).pending_local_creates@) == queued(
                path_views(old(self).pending_local_creates@),
                Some(mount_path@),
            ),
            *final(self) == (SyncTracker {
                pending_local_creates: final(self).pending_local_creates,
                ..*old(self)
            }),
    {
        if !has_path(&self.pending_local_creates, &mount_path) {
            proof {
                reveal(distinct);
            }
            let ghost before = self.pending_local_creates@;
            let ghost added = mount_path@;
            self.pending_local_creates.push(mount_path);
            assert(path_views(self.pending_local_creates@) =~= path_views(before).push(added));
            assert(keys_of(self.pending_local_creates@) =~= keys_of(before).push(added.key()));
        }
    }
}

} // verus!
