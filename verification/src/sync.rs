//! One pass over both sides of a mount.

use vstd::prelude::*;
use vstd::string::*;

use crate::deletion::{digest_refreshed, refresh_digest};
use crate::exclusion::{excluded, texts};
use crate::missing::keep_only;
use crate::names::{
    is_directory_metadata_file, DIRECTORY_METADATA_FILE_NAME, ENCRYPTED_TMP_DIR_NAME,
};
use crate::path::{
    extension, file_name, NameView, PathEntries, PathKey, PathSet, PathView, SyncPath,
};
use crate::pending::path_values;
use crate::text::{concat2, concat3, same_text};
use crate::tracker::{
    Digest, FileLedger, FileSignature, HeldBack, PendingWork, ScanHealth, SyncTracker,
};

verus! {

/// What an entry of a directory is.
#[derive(Debug, Clone, Copy, PartialEq, Eq, Structural)]
pub enum EntryKind {
    Symlink,
    Directory,
    File,
    Other,
}

/// What is done with an entry of the encrypted side.
#[derive(Debug, Clone, Copy, PartialEq, Eq, Structural)]
pub enum EncryptedEntry {
    /// It is the folder of files that are being written, which is cleaned up.
    CleanUp,
    /// Its entries are looked at.
    Descend,
    /// Nothing.
    Ignore,
    /// It is the metadata of a directory.
    DirectoryMetadata,
    /// It is an encrypted file.
    File,
}

/// What is done with an entry of the encrypted side.
pub open spec fn encrypted_entry_of(is_dir: bool, path: PathView) -> EncryptedEntry {
    if is_dir {
        if file_name(path) == Some(NameView::Text(ENCRYPTED_TMP_DIR_NAME@)) {
            EncryptedEntry::CleanUp
        } else {
            EncryptedEntry::Descend
        }
    } else if extension(path) != Some("encrypted"@) {
        EncryptedEntry::Ignore
    } else if file_name(path) == Some(NameView::Text(DIRECTORY_METADATA_FILE_NAME@)) {
        EncryptedEntry::DirectoryMetadata
    } else {
        EncryptedEntry::File
    }
}

/// What is done with an entry of the encrypted side.
pub fn encrypted_entry(is_dir: bool, path: &SyncPath) -> (res: EncryptedEntry)
    ensures
        res == encrypted_entry_of(is_dir, path@),
{
    if is_dir {
        return if path.file_name_is(ENCRYPTED_TMP_DIR_NAME) {
            EncryptedEntry::CleanUp
        } else {
            EncryptedEntry::Descend
        };
    }
    let encrypted = match path.extension() {
        Some(ext) => same_text(ext.as_str(), "encrypted"),
        None => false,
    };
    if !encrypted {
        EncryptedEntry::Ignore
    } else if is_directory_metadata_file(path) {
        EncryptedEntry::DirectoryMetadata
    } else {
        EncryptedEntry::File
    }
}

/// What is done with an entry of the mount.
#[derive(Debug, Clone, Copy, PartialEq, Eq, Structural)]
pub enum MountEntry {
    /// Nothing.
    Ignore,
    /// It is a directory that is synced, and its entries are looked at.
    Directory,
    /// It is a file that is looked at.
    File,
}

/// How an encrypted file or directory stands in the mount after a pass.
#[derive(Debug)]
pub enum DecryptOutcome {
    /// It belongs at this path.
    Ready(SyncPath),
    /// It belongs at this path and could not be brought there for want of room.
    DeferredLowSpace(SyncPath),
}

/// The paths of the mount that the encrypted side asks for.
pub struct Expected {
    pub paths: PathSet,
    pub directories: PathSet,
    /// Those that could not be brought there: that they are missing says nothing.
    pub deferred: PathSet,
}

impl Expected {
    /// Each path stands once.
    pub open spec fn wf(&self) -> bool {
        self.paths.wf() && self.directories.wf() && self.deferred.wf()
    }

    /// Nothing is asked for.
    pub fn new() -> (res: Expected)
        ensures
            res.wf(),
            res.paths@ == PathEntries::<()>::empty(),
            res.directories@ == PathEntries::<()>::empty(),
            res.deferred@ == PathEntries::<()>::empty(),
    {
        Expected { paths: PathSet::new(), directories: PathSet::new(), deferred: PathSet::new() }
    }

    /// Adds how an encrypted file stands.
    pub fn add_file(&mut self, outcome: DecryptOutcome)
        requires
            old(self).wf(),
        ensures
            final(self).wf(),
            match outcome {
                DecryptOutcome::Ready(path) => {
                    &&& final(self).paths@ == old(self).paths@.insert(path@, ())
                    &&& final(self).deferred@ == old(self).deferred@
                },
                DecryptOutcome::DeferredLowSpace(path) => {
                    &&& final(self).paths@ == old(self).paths@.insert(path@, ())
                    &&& final(self).deferred@ == old(self).deferred@.insert(path@, ())
                },
            },
            final(self).directories@ == old(self).directories@,
    {
        match outcome {
            DecryptOutcome::Ready(path) => {
                self.paths.insert(path, ());
            },
            DecryptOutcome::DeferredLowSpace(path) => {
                self.paths.insert(path.duplicate(), ());
                self.deferred.insert(path, ());
            },
        }
    }

    /// Adds how the metadata of a directory stands.
    pub fn add_directory(&mut self, outcome: DecryptOutcome)
        requires
            old(self).wf(),
        ensures
            final(self).wf(),
            match outcome {
                DecryptOutcome::Ready(path) => {
                    &&& final(self).paths@ == old(self).paths@.insert(path@, ())
                    &&& final(self).directories@ == old(self).directories@.insert(path@, ())
                    &&& final(self).deferred@ == old(self).deferred@
                },
                DecryptOutcome::DeferredLowSpace(path) => {
                    &&& final(self).paths@ == old(self).paths@.insert(path@, ())
                    &&& final(self).directories@ == old(self).directories@.insert(path@, ())
                    &&& final(self).deferred@ == old(self).deferred@.insert(path@, ())
                },
            },
    {
        match outcome {
            DecryptOutcome::Ready(path) => {
                self.paths.insert(path.duplicate(), ());
                self.directories.insert(path, ());
            },
            DecryptOutcome::DeferredLowSpace(path) => {
                self.paths.insert(path.duplicate(), ());
                self.directories.insert(path.duplicate(), ());
                self.deferred.insert(path, ());
            },
        }
    }
}

/// What is done about deletions and orphans at the end of a pass.
#[derive(Debug, Clone, Copy, PartialEq, Eq, Structural)]
pub enum DeletionWork {
    /// Nothing.
    Skip,
    /// They are carried out as far as they are confirmed.
    Process,
    /// Their counts start anew.
    Reset,
}

/// How many entries of the mount are looked at to see whether it can be read.
pub const MAX_HEALTH_CHECK_ENTRIES: usize = 100;

/// What went wrong when the mount was looked at.
#[derive(Debug)]
pub enum HealthFault {
    /// The root could not be looked at.
    Root { message: String },
    /// An entry could not be read.
    Entry { message: String },
    /// A directory could not be read.
    Directory { path: SyncPath, message: String },
}

/// What is told of a fault.
pub open spec fn fault_reason(fault: HealthFault) -> Seq<char> {
    match fault {
        HealthFault::Root { message } => "Mount root not accessible: "@ + message@,
        HealthFault::Entry { message } => "IO error during health check: "@ + message@,
        HealthFault::Directory { path, message } => "Cannot read directory "@ + path@.text
            + ": "@ + message@,
    }
}

/// How healthy a mount is, from the first fault that was found.
pub fn check_mount_health(fault: &Option<HealthFault>) -> (res: ScanHealth)
    ensures
        match *fault {
            Some(found) => res matches ScanHealth::Unhealthy { reason } && reason@ == fault_reason(
                found,
            ),
            None => res is Healthy,
        },
{
    match fault {
        None => ScanHealth::Healthy,
        Some(HealthFault::Root { message }) => ScanHealth::Unhealthy {
            reason: concat2("Mount root not accessible: ", message.as_str()),
        },
        Some(HealthFault::Entry { message }) => ScanHealth::Unhealthy {
            reason: concat2("IO error during health check: ", message.as_str()),
        },
        Some(HealthFault::Directory { path, message }) => {
            let shown = path.display();
            let mut reason = concat3("Cannot read directory ", shown.as_str(), ": ");
            reason.append(message.as_str());
            ScanHealth::Unhealthy { reason }
        },
    }
}

/// The journals and lists that a mount keeps.
#[derive(Debug, Clone, Copy, PartialEq, Eq, Structural)]
pub enum JournalKind {
    Deletions,
    Orphans,
    Writebacks,
    Refreshes,
    OpenUnlinked,
    Metadata,
    Conflicts,
    Recovery,
}

/// A journal has changes that are not written.
pub open spec fn journal_is_dirty(tracker: SyncTracker, kind: JournalKind) -> bool {
    match kind {
        JournalKind::Deletions => tracker.work.pending_deletions_dirty,
        JournalKind::Orphans => tracker.work.pending_orphans_dirty,
        JournalKind::Writebacks => tracker.work.pending_writebacks_dirty,
        JournalKind::Refreshes => tracker.work.pending_refreshes_dirty,
        JournalKind::OpenUnlinked => tracker.work.pending_open_unlinked_dirty,
        JournalKind::Metadata => tracker.work.pending_metadata_dirty,
        JournalKind::Conflicts => tracker.copies.conflict_registry_dirty,
        JournalKind::Recovery => tracker.copies.recovery_registry_dirty,
    }
}

/// The work after the mount itself was found to be gone. What is to be deleted, and the metadata
/// to be stored, stay.
pub open spec fn work_without_mount(before: PendingWork, after: PendingWork) -> bool {
    &&& after.pending_orphans@.keys() == Set::<PathKey>::empty()
    &&& after.pending_writebacks@.keys() == Set::<PathKey>::empty()
    &&& after.pending_refreshes@.keys() == Set::<PathKey>::empty()
    &&& after.pending_open_unlinked@.keys() == Set::<PathKey>::empty()
    &&& after == (PendingWork {
        pending_orphans: after.pending_orphans,
        pending_orphans_dirty: true,
        pending_writebacks: after.pending_writebacks,
        pending_writebacks_dirty: true,
        pending_refreshes: after.pending_refreshes,
        pending_refreshes_dirty: true,
        pending_open_unlinked: after.pending_open_unlinked,
        pending_open_unlinked_dirty: true,
        ..before
    })
}

/// What is known of the files after the mount itself was found to be gone: only where encrypted
/// files were mounted.
pub open spec fn files_without_mount(before: FileLedger, after: FileLedger) -> bool {
    &&& after.encrypted_signatures@.keys() == Set::<PathKey>::empty()
    &&& after.encrypted_directory_signatures@.keys() == Set::<PathKey>::empty()
    &&& after.decrypted_signatures@.keys() == Set::<PathKey>::empty()
    &&& after.decrypted_directory_signatures@.keys() == Set::<PathKey>::empty()
    &&& after.decrypted_hashes@.keys() == Set::<PathKey>::empty()
    &&& after.decrypted_metadata_hashes@.keys() == Set::<PathKey>::empty()
    &&& after.decrypted_directory_metadata_hashes@.keys() == Set::<PathKey>::empty()
    &&& after.file_id_to_mount_path@.keys() == Set::<Seq<char>>::empty()
    &&& after.mount_collision_keys@.keys() == Set::<Seq<char>>::empty()
    &&& after.path_mapping == before.path_mapping
}

/// What is held back after the mount itself was found to be gone: only which files were waited
/// for to stay the same.
pub open spec fn held_without_mount(before: HeldBack, after: HeldBack) -> bool {
    &&& after.unsupported_transactional_paths@.keys() == Set::<PathKey>::empty()
    &&& after.unsupported_hard_link_paths@.keys() == Set::<PathKey>::empty()
    &&& after.pending_temp@.keys() == Set::<PathKey>::empty()
    &&& after.pending_sparse@.keys() == Set::<PathKey>::empty()
    &&& after.mount_readonly_restore_modes@.keys() == Set::<PathKey>::empty()
    &&& after.hard_link_block_restore_modes@.keys() == Set::<PathKey>::empty()
    &&& !after.mount_readonly_active
    &&& after.pending_stable == before.pending_stable
}

impl FileLedger {
    fn lose_mount(&mut self)
        requires
            old(self).wf(),
        ensures
            final(self).wf(),
            files_without_mount(*old(self), *final(self)),
    {
        self.encrypted_signatures.clear();
        self.encrypted_directory_signatures.clear();
        self.decrypted_signatures.clear();
        self.decrypted_directory_signatures.clear();
        self.decrypted_hashes.clear();
        self.decrypted_metadata_hashes.clear();
        self.decrypted_directory_metadata_hashes.clear();
        self.file_id_to_mount_path.clear();
        self.mount_collision_keys.clear();
        assert(self.encrypted_signatures@.keys() =~= Set::<PathKey>::empty());
        assert(self.encrypted_directory_signatures@.keys() =~= Set::<PathKey>::empty());
        assert(self.decrypted_signatures@.keys() =~= Set::<PathKey>::empty());
        assert(self.decrypted_directory_signatures@.keys() =~= Set::<PathKey>::empty());
        assert(self.decrypted_hashes@.keys() =~= Set::<PathKey>::empty());
        assert(self.decrypted_metadata_hashes@.keys() =~= Set::<PathKey>::empty());
        assert(self.decrypted_directory_metadata_hashes@.keys() =~= Set::<PathKey>::empty());
        assert(self.file_id_to_mount_path@.keys() =~= Set::<Seq<char>>::empty());
        assert(self.mount_collision_keys@.keys() =~= Set::<Seq<char>>::empty());
    }
}

impl PendingWork {
    fn lose_mount(&mut self)
        requires
            old(self).wf(),
        ensures
            final(self).wf(),
            work_without_mount(*old(self), *final(self)),
    {
        self.pending_orphans.clear();
        self.pending_writebacks.clear();
        self.pending_refreshes.clear();
        self.pending_open_unlinked.clear();
        self.pending_orphans_dirty = true;
        self.pending_writebacks_dirty = true;
        self.pending_refreshes_dirty = true;
        self.pending_open_unlinked_dirty = true;
        assert(self.pending_orphans@.keys() =~= Set::<PathKey>::empty());
        assert(self.pending_writebacks@.keys() =~= Set::<PathKey>::empty());
        assert(self.pending_refreshes@.keys() =~= Set::<PathKey>::empty());
        assert(self.pending_open_unlinked@.keys() =~= Set::<PathKey>::empty());
    }
}

impl HeldBack {
    fn lose_mount(&mut self)
        requires
            old(self).wf(),
        ensures
            final(self).wf(),
            held_without_mount(*old(self), *final(self)),
    {
        self.unsupported_transactional_paths.clear();
        self.unsupported_hard_link_paths.clear();
        self.pending_temp.clear();
        self.pending_sparse.clear();
        self.mount_readonly_active = false;
        self.mount_readonly_restore_modes.clear();
        self.hard_link_block_restore_modes.clear();
        assert(self.unsupported_transactional_paths@.keys() =~= Set::<PathKey>::empty());
        assert(self.unsupported_hard_link_paths@.keys() =~= Set::<PathKey>::empty());
        assert(self.pending_temp@.keys() =~= Set::<PathKey>::empty());
        assert(self.pending_sparse@.keys() =~= Set::<PathKey>::empty());
        assert(self.mount_readonly_restore_modes@.keys() =~= Set::<PathKey>::empty());
        assert(self.hard_link_block_restore_modes@.keys() =~= Set::<PathKey>::empty());
    }
}

/// The mount is gone, and what was known of it is forgotten.
pub open spec fn mount_lost(before: SyncTracker, after: SyncTracker) -> bool {
    &&& files_without_mount(before.files, after.files)
    &&& work_without_mount(before.work, after.work)
    &&& held_without_mount(before.held, after.held)
    &&& after.copies.conflict_baselines@.keys() == Set::<PathKey>::empty()
    &&& after.copies.recovered_pending_paths@.keys() == Set::<PathKey>::empty()
    &&& after.copies.conflict_registry_dirty
    &&& after.copies.recovery_registry_dirty
    &&& after == (SyncTracker {
        files: after.files,
        work: after.work,
        held: after.held,
        copies: after.copies,
        last_open_unlinked_warning: None,
        ..before
    })
}

/// The refreshes of paths that are not asked for are dropped.
pub open spec fn refreshes_kept(
    before: SyncTracker,
    after: SyncTracker,
    expected: Set<PathKey>,
) -> bool {
    &&& after.work.pending_refreshes@ == before.work.pending_refreshes@.restrict(expected)
    &&& after.work.pending_refreshes_dirty == (before.work.pending_refreshes_dirty
        || after.work.pending_refreshes@.len() != before.work.pending_refreshes@.len())
    &&& after == (SyncTracker { work: after.work, ..before })
    &&& after.work == (PendingWork {
        pending_refreshes: after.work.pending_refreshes,
        pending_refreshes_dirty: after.work.pending_refreshes_dirty,
        ..before.work
    })
}

/// What is done about deletions and orphans.
pub open spec fn deletion_step(tracker: SyncTracker) -> DeletionWork {
    if tracker.held.mount_readonly_active || tracker.suppress_deletion_processing {
        DeletionWork::Skip
    } else if tracker.scan_health is Healthy {
        DeletionWork::Process
    } else {
        DeletionWork::Reset
    }
}

impl SyncTracker {
    /// What is done with an entry of the mount. Links are not followed, and what is left out is
    /// not looked at.
    pub fn mount_entry(&self, kind: EntryKind, path: &SyncPath) -> (res: MountEntry)
        ensures
            res == match kind {
                EntryKind::Symlink | EntryKind::Other => MountEntry::Ignore,
                EntryKind::Directory => if excluded(
                    texts(self.settings.excluded_patterns@),
                    path@,
                ) {
                    MountEntry::Ignore
                } else {
                    MountEntry::Directory
                },
                EntryKind::File => if excluded(
                    texts(self.settings.excluded_patterns@),
                    path@,
                ) {
                    MountEntry::Ignore
                } else {
                    MountEntry::File
                },
            },
    {
        match kind {
            EntryKind::Symlink | EntryKind::Other => MountEntry::Ignore,
            EntryKind::Directory => {
                if self.is_path_excluded(path) {
                    MountEntry::Ignore
                } else {
                    MountEntry::Directory
                }
            },
            EntryKind::File => {
                if self.is_path_excluded(path) {
                    MountEntry::Ignore
                } else {
                    MountEntry::File
                }
            },
        }
    }

    /// Forgets the mount when it is gone itself.
    pub fn lose_mount(&mut self)
        requires
            old(self).wf(),
        ensures
            final(self).wf(),
            mount_lost(*old(self), *final(self)),
    {
        self.files.lose_mount();
        self.work.lose_mount();
        self.held.lose_mount();
        self.copies.conflict_baselines.clear();
        self.copies.recovered_pending_paths.clear();
        self.copies.conflict_registry_dirty = true;
        self.copies.recovery_registry_dirty = true;
        self.last_open_unlinked_warning = None;
        assert(self.copies.conflict_baselines@.keys() =~= Set::<PathKey>::empty());
        assert(self.copies.recovered_pending_paths@.keys() =~= Set::<PathKey>::empty());
    }

    /// Drops the refreshes of paths that the encrypted side does not ask for any longer.
    pub fn keep_expected_refreshes(&mut self, expected: &PathSet)
        requires
            old(self).wf(),
            expected.wf(),
        ensures
            final(self).wf(),
            refreshes_kept(*old(self), *final(self), expected@.keys()),
    {
        let before: usize = self.work.pending_refreshes.len();
        keep_only(&mut self.work.pending_refreshes, expected);
        if self.work.pending_refreshes.len() != before {
            self.work.pending_refreshes_dirty = true;
        }
    }

    /// What is done about deletions and orphans at the end of a pass: nothing while the mount is
    /// read-only or being rebuilt; else they are carried out if it could be read without faults,
    /// and counted anew if not.
    pub fn deletion_work(&self) -> (res: DeletionWork)
        ensures
            res == deletion_step(*self),
    {
        if self.held.mount_readonly_active || self.suppress_deletion_processing {
            return DeletionWork::Skip;
        }
        match &self.scan_health {
            ScanHealth::Healthy => DeletionWork::Process,
            ScanHealth::Unhealthy { .. } => DeletionWork::Reset,
        }
    }

    /// Sets how healthy the mount was found to be.
    pub fn set_scan_health(&mut self, health: ScanHealth)
        ensures
            *final(self) == (SyncTracker { scan_health: health, ..*old(self) }),
    {
        self.scan_health = health;
    }

    /// Notes a file that was found in the mount before the first pass.
    pub fn seed_mounted_file(
        &mut self,
        path: &SyncPath,
        signature: FileSignature,
        metadata_hash: Option<Digest>,
        file_id: Option<String>,
    )
        requires
            old(self).wf(),
        ensures
            final(self).wf(),
            final(self).files.decrypted_signatures@ == old(self).files.decrypted_signatures@.insert(
                path@,
                signature,
            ),
            final(self).files.decrypted_metadata_hashes@ == digest_refreshed(
                old(self).files.decrypted_metadata_hashes@,
                path@,
                metadata_hash,
            ),
            path_values(final(self).files.file_id_to_mount_path@) == match file_id {
                Some(id) => path_values(old(self).files.file_id_to_mount_path@).insert(id@, path@),
                None => path_values(old(self).files.file_id_to_mount_path@),
            },
            *final(self) == (SyncTracker { files: final(self).files, ..*old(self) }),
            final(self).files == (FileLedger {
                decrypted_signatures: final(self).files.decrypted_signatures,
                decrypted_metadata_hashes: final(self).files.decrypted_metadata_hashes,
                file_id_to_mount_path: final(self).files.file_id_to_mount_path,
                ..old(self).files
            }),
    {
        self.files.decrypted_signatures.insert(path.duplicate(), signature);
        refresh_digest(&mut self.files.decrypted_metadata_hashes, path, metadata_hash);
        if let Some(id) = file_id {
            let ghost ids = self.files.file_id_to_mount_path@;
            let ghost key = id@;
            self.files.file_id_to_mount_path.insert(id, path.duplicate());
            assert(path_values(self.files.file_id_to_mount_path@) =~= path_values(ids).insert(
                key,
                path@,
            ));
        }
    }

    /// Notes a directory that was found in the mount before the first pass.
    pub fn seed_mounted_directory(
        &mut self,
        path: &SyncPath,
        signature: FileSignature,
        metadata_hash: Option<Digest>,
    )
        requires
            old(self).wf(),
        ensures
            final(self).wf(),
            final(self).files.decrypted_directory_signatures@
                == old(self).files.decrypted_directory_signatures@.insert(path@, signature),
            final(self).files.decrypted_directory_metadata_hashes@ == digest_refreshed(
                old(self).files.decrypted_directory_metadata_hashes@,
                path@,
                metadata_hash,
            ),
            *final(self) == (SyncTracker { files: final(self).files, ..*old(self) }),
            final(self).files == (FileLedger {
                decrypted_directory_signatures: final(self).files.decrypted_directory_signatures,
                decrypted_directory_metadata_hashes: final(
                    self).files.decrypted_directory_metadata_hashes,
                ..old(self).files
            }),
    {
        self.files.decrypted_directory_signatures.insert(path.duplicate(), signature);
        refresh_digest(&mut self.files.decrypted_directory_metadata_hashes, path, metadata_hash);
    }

    /// Whether a journal has changes that are not written.
    pub fn needs_flush(&self, kind: JournalKind) -> (res: bool)
        ensures
            res == journal_is_dirty(*self, kind),
    {
        match kind {
            JournalKind::Deletions => self.work.pending_deletions_dirty,
            JournalKind::Orphans => self.work.pending_orphans_dirty,
            JournalKind::Writebacks => self.work.pending_writebacks_dirty,
            JournalKind::Refreshes => self.work.pending_refreshes_dirty,
            JournalKind::OpenUnlinked => self.work.pending_open_unlinked_dirty,
            JournalKind::Metadata => self.work.pending_metadata_dirty,
            JournalKind::Conflicts => self.copies.conflict_registry_dirty,
            JournalKind::Recovery => self.copies.recovery_registry_dirty,
        }
    }

    /// Notes that a journal was written.
    pub fn mark_flushed(&mut self, kind: JournalKind)
        requires
            old(self).wf(),
        ensures
            final(self).wf(),
            !journal_is_dirty(*final(self), kind),
            forall|other: JournalKind|
                other != kind ==> journal_is_dirty(*final(self), other) == journal_is_dirty(
                    *old(self),
                    other,
                ),
            final(self).work.pending_deletions == old(self).work.pending_deletions,
            final(self).work.pending_orphans == old(self).work.pending_orphans,
            final(self).work.pending_writebacks == old(self).work.pending_writebacks,
            final(self).work.pending_refreshes == old(self).work.pending_refreshes,
            final(self).work.pending_open_unlinked == old(self).work.pending_open_unlinked,
            final(self).work.pending_metadata == old(self).work.pending_metadata,
            final(self).copies.conflict_baselines == old(self).copies.conflict_baselines,
            final(self).copies.recovered_pending_paths == old(self).copies.recovered_pending_paths,
            *final(self) == (SyncTracker {
                work: final(self).work,
                copies: final(self).copies,
                ..*old(self)
            }),
    {
        match kind {
            JournalKind::Deletions => {
                self.work.pending_deletions_dirty = false;
            },
            JournalKind::Orphans => {
                self.work.pending_orphans_dirty = false;
            },
            JournalKind::Writebacks => {
                self.work.pending_writebacks_dirty = false;
            },
            JournalKind::Refreshes => {
                self.work.pending_refreshes_dirty = false;
            },
            JournalKind::OpenUnlinked => {
                self.work.pending_open_unlinked_dirty = false;
            },
            JournalKind::Metadata => {
                self.work.pending_metadata_dirty = false;
            },
            JournalKind::Conflicts => {
                self.copies.conflict_registry_dirty = false;
            },
            JournalKind::Recovery => {
                self.copies.recovery_registry_dirty = false;
            },
        }
    }
}

} // verus!
