//! Directories: whether their metadata is synced, and what becomes of them on either side.

use vstd::prelude::*;
use vstd::string::*;

use crate::decrypt::{budget_journal, lacks_room};
use crate::deletion::{digest_refreshed, digests_agree, refresh_digest};
use crate::errors::{is_format, is_low_space_error, low_space_error, MountSyncError};
use crate::exclusion::{excluded, texts};
use crate::missing::directory_forgotten;
use crate::names::{
    is_transactional_package_name, package_above, package_name, transactional_package_ancestor,
};
use crate::path::{file_name_text, same_path, strip_prefix, PathView, SyncPath};
use crate::pending::{writeback_changes, writeback_recorded};
use crate::scan::refusal_message;
use crate::space::{
    budget, budget_message, ensure_space_budget, low_space_readonly_error, readonly_message,
    LOW_SPACE_ATOMIC_WRITE_OVERHEAD_BYTES, LOW_SPACE_DIRECTORY_CREATE_BYTES,
    LOW_SPACE_JOURNAL_RESERVE_BYTES, LOW_SPACE_WARNING_RESERVE_BYTES,
};
use crate::table::TableKey;
use crate::tracker::{Digest, FileLedger, FileSignature, PendingWork, SyncTracker, UtcNanos};
use crate::writeback::{writeback_cleared, writeback_failed};

verus! {

/// What is done about encrypted directory metadata.
#[derive(Debug, Clone, Copy, PartialEq, Eq, Structural)]
pub enum DirectoryGate {
    /// It is unchanged, and the directory is there.
    Unchanged,
    /// It is unchanged, and the directory was deleted from the mount.
    DeletedHere,
    /// The directory is made.
    Proceed,
}

/// What is done about encrypted directory metadata.
pub open spec fn directory_gate(
    tracker: SyncTracker,
    encrypted_path: PathView,
    target: PathView,
    signature: FileSignature,
    target_exists: bool,
) -> DirectoryGate {
    let known = tracker.files.encrypted_directory_signatures@;
    let unchanged = known.contains_key(encrypted_path) && known[encrypted_path].same_content(
        signature,
    );
    if unchanged && target_exists {
        DirectoryGate::Unchanged
    } else if unchanged && tracker.files.decrypted_directory_signatures@.contains_key(target)
        && !tracker.work.pending_refreshes@.contains_key(target) {
        DirectoryGate::DeletedHere
    } else {
        DirectoryGate::Proceed
    }
}

/// The ledger after encrypted directory metadata passed a gate.
pub open spec fn directory_gated(
    before: FileLedger,
    after: FileLedger,
    gate: DirectoryGate,
    encrypted_path: PathView,
    target: PathView,
    signature: FileSignature,
    seen: Option<FileSignature>,
    metadata_hash: Option<Digest>,
) -> bool {
    let noted = gate == DirectoryGate::Unchanged && seen is Some
        && !before.decrypted_directory_signatures@.contains_key(target);
    &&& after.decrypted_directory_signatures@ == if noted {
        before.decrypted_directory_signatures@.insert(target, seen->0)
    } else {
        before.decrypted_directory_signatures@
    }
    &&& after.decrypted_directory_metadata_hashes@ == if noted {
        digest_refreshed(before.decrypted_directory_metadata_hashes@, target, metadata_hash)
    } else {
        before.decrypted_directory_metadata_hashes@
    }
    &&& after.encrypted_directory_signatures@ == if gate == DirectoryGate::DeletedHere {
        before.encrypted_directory_signatures@.insert(encrypted_path, signature)
    } else {
        before.encrypted_directory_signatures@
    }
    &&& after == (FileLedger {
        decrypted_directory_signatures: after.decrypted_directory_signatures,
        decrypted_directory_metadata_hashes: after.decrypted_directory_metadata_hashes,
        encrypted_directory_signatures: after.encrypted_directory_signatures,
        ..before
    })
}

/// The ledger after a directory was made in the mount.
pub open spec fn directory_made(
    before: FileLedger,
    after: FileLedger,
    encrypted_path: PathView,
    target: PathView,
    signature: FileSignature,
    seen: Option<FileSignature>,
    metadata_hash: Option<Digest>,
) -> bool {
    &&& after.decrypted_directory_signatures@ == if seen is Some {
        before.decrypted_directory_signatures@.insert(target, seen->0)
    } else {
        before.decrypted_directory_signatures@
    }
    &&& after.decrypted_directory_metadata_hashes@ == digest_refreshed(
        before.decrypted_directory_metadata_hashes@,
        target,
        metadata_hash,
    )
    &&& after.encrypted_directory_signatures@ == before.encrypted_directory_signatures@.insert(
        encrypted_path,
        signature,
    )
    &&& after == (FileLedger {
        decrypted_directory_signatures: after.decrypted_directory_signatures,
        decrypted_directory_metadata_hashes: after.decrypted_directory_metadata_hashes,
        encrypted_directory_signatures: after.encrypted_directory_signatures,
        ..before
    })
}

/// The metadata of a mounted directory is synced: it is neither the root nor left out, and it is
/// not part of a package, unless that has an encrypted form already.
pub open spec fn syncs_directory(
    tracker: SyncTracker,
    mount_root: PathView,
    path: PathView,
    has_encrypted_state: bool,
) -> bool {
    let own = match file_name_text(path) {
        Some(name) => package_name(name),
        None => false,
    };
    match strip_prefix(path, mount_root) {
        Some(relative) => !same_path(path, mount_root) && !excluded(
            texts(tracker.settings.excluded_patterns@),
            path,
        ) && (own || package_above(relative) is Some ==> has_encrypted_state),
        None => false,
    }
}

/// What is done about a mounted directory.
#[derive(Debug, Clone, Copy, PartialEq, Eq, Structural)]
pub enum DirectoryStep {
    /// Its encrypted form was deleted: it is deleted as well.
    Delete,
    /// Its metadata is not synced.
    Ignore,
    /// Its metadata is as it was encrypted.
    Unchanged,
    /// There is no room to encrypt its metadata.
    WaitSpace,
    /// Its metadata is encrypted.
    Encrypt,
}

/// What is done about a mounted directory.
pub open spec fn directory_step(
    tracker: SyncTracker,
    mount_root: PathView,
    path: PathView,
    encrypted_path: PathView,
    encrypted_exists: bool,
    has_encrypted_state: bool,
    metadata_hash: Option<Digest>,
) -> DirectoryStep {
    if !encrypted_exists && tracker.files.encrypted_directory_signatures@.contains_key(
        encrypted_path,
    ) {
        DirectoryStep::Delete
    } else if !syncs_directory(tracker, mount_root, path, has_encrypted_state) {
        DirectoryStep::Ignore
    } else if encrypted_exists && digests_agree(
        tracker.files.decrypted_directory_metadata_hashes@,
        path,
        metadata_hash,
    ) && tracker.files.decrypted_directory_signatures@.contains_key(path) {
        DirectoryStep::Unchanged
    } else if tracker.held.mount_readonly_active {
        DirectoryStep::WaitSpace
    } else {
        DirectoryStep::Encrypt
    }
}

/// The ledger after a mounted directory was looked at to the end.
pub open spec fn directory_noted(
    before: FileLedger,
    after: FileLedger,
    path: PathView,
    encrypted_path: PathView,
    signature: FileSignature,
    metadata_hash: Option<Digest>,
    encrypted_signature: Option<FileSignature>,
) -> bool {
    &&& after.decrypted_directory_signatures@ == before.decrypted_directory_signatures@.insert(
        path,
        signature,
    )
    &&& after.decrypted_directory_metadata_hashes@ == digest_refreshed(
        before.decrypted_directory_metadata_hashes@,
        path,
        metadata_hash,
    )
    &&& after.encrypted_directory_signatures@ == if encrypted_signature is Some
        && !before.encrypted_directory_signatures@.contains_key(encrypted_path) {
        before.encrypted_directory_signatures@.insert(encrypted_path, encrypted_signature->0)
    } else {
        before.encrypted_directory_signatures@
    }
    &&& after == (FileLedger {
        decrypted_directory_signatures: after.decrypted_directory_signatures,
        decrypted_directory_metadata_hashes: after.decrypted_directory_metadata_hashes,
        encrypted_directory_signatures: after.encrypted_directory_signatures,
        ..before
    })
}

impl FileLedger {
    fn gate_directory(
        &mut self,
        gate: DirectoryGate,
        encrypted_path: &SyncPath,
        target: &SyncPath,
        signature: FileSignature,
        seen: Option<FileSignature>,
        metadata_hash: Option<Digest>,
    )
        requires
            old(self).wf(),
        ensures
            final(self).wf(),
            directory_gated(
                *old(self),
                *final(self),
                gate,
                encrypted_path@,
                target@,
                signature,
                seen,
                metadata_hash,
            ),
    {
        match gate {
            DirectoryGate::Unchanged => {
                if !self.decrypted_directory_signatures.contains_key(target) {
                    if let Some(sig) = seen {
                        self.decrypted_directory_signatures.insert(target.duplicate(), sig);
                        refresh_digest(
                            &mut self.decrypted_directory_metadata_hashes,
                            target,
                            metadata_hash,
                        );
                    }
                }
            },
            DirectoryGate::DeletedHere => {
                self.encrypted_directory_signatures.insert(encrypted_path.duplicate(), signature);
            },
            DirectoryGate::Proceed => {},
        }
    }

    fn note_directory(
        &mut self,
        path: &SyncPath,
        encrypted_path: &SyncPath,
        signature: FileSignature,
        metadata_hash: Option<Digest>,
        encrypted_signature: Option<FileSignature>,
    )
        requires
            old(self).wf(),
        ensures
            final(self).wf(),
            directory_noted(
                *old(self),
                *final(self),
                path@,
                encrypted_path@,
                signature,
                metadata_hash,
                encrypted_signature,
            ),
    {
        self.decrypted_directory_signatures.insert(path.duplicate(), signature);
        refresh_digest(&mut self.decrypted_directory_metadata_hashes, path, metadata_hash);
        if let Some(sig) = encrypted_signature {
            if !self.encrypted_directory_signatures.contains_key(encrypted_path) {
                self.encrypted_directory_signatures.insert(encrypted_path.duplicate(), sig);
            }
        }
    }
}

impl SyncTracker {
    /// Decides whether a directory is made in the mount, and takes note of it where it is not.
    pub fn begin_directory(
        &mut self,
        encrypted_path: &SyncPath,
        target: &SyncPath,
        signature: FileSignature,
        target_exists: bool,
        seen: Option<FileSignature>,
        metadata_hash: Option<Digest>,
    ) -> (res: DirectoryGate)
        requires
            old(self).wf(),
        ensures
            final(self).wf(),
            res == directory_gate(
                *old(self),
                encrypted_path@,
                target@,
                signature,
                target_exists,
            ),
            directory_gated(
                old(self).files,
                final(self).files,
                res,
                encrypted_path@,
                target@,
                signature,
                seen,
                metadata_hash,
            ),
            *final(self) == (SyncTracker { files: final(self).files, ..*old(self) }),
    {
        let unchanged = match self.files.encrypted_directory_signatures.get(encrypted_path) {
            Some(stored) => stored.content_signature_eq(&signature),
            None => false,
        };
        let gate = if unchanged && target_exists {
            DirectoryGate::Unchanged
        } else if unchanged && self.files.decrypted_directory_signatures.contains_key(target)
            && !self.work.pending_refreshes.contains_key(target) {
            DirectoryGate::DeletedHere
        } else {
            DirectoryGate::Proceed
        };
        self.files.gate_directory(gate, encrypted_path, target, signature, seen, metadata_hash);
        gate
    }

    /// Notes that a directory was made in the mount.
    pub fn finish_directory(
        &mut self,
        encrypted_path: &SyncPath,
        target: &SyncPath,
        signature: FileSignature,
        seen: Option<FileSignature>,
        metadata_hash: Option<Digest>,
    )
        requires
            old(self).wf(),
        ensures
            final(self).wf(),
            directory_made(
                old(self).files,
                final(self).files,
                encrypted_path@,
                target@,
                signature,
                seen,
                metadata_hash,
            ),
            final(self).work.pending_refreshes@ == old(self).work.pending_refreshes@.remove(
                target@,
            ),
            final(self).work.pending_refreshes_dirty == (old(self).work.pending_refreshes_dirty
                || old(self).work.pending_refreshes@.contains_key(target@)),
            final(self).work == (PendingWork {
                pending_refreshes: final(self).work.pending_refreshes,
                pending_refreshes_dirty: final(self).work.pending_refreshes_dirty,
                ..old(self).work
            }),
            *final(self) == (SyncTracker {
                files: final(self).files,
                work: final(self).work,
                ..*old(self)
            }),
    {
        if let Some(sig) = seen {
            self.files.decrypted_directory_signatures.insert(target.duplicate(), sig);
        }
        refresh_digest(&mut self.files.decrypted_directory_metadata_hashes, target, metadata_hash);
        self.files.encrypted_directory_signatures.insert(encrypted_path.duplicate(), signature);
        self.clear_pending_refresh(target);
    }

    /// Whether the metadata of a mounted directory is synced.
    pub fn should_sync_directory_metadata(
        &self,
        mount_root: &SyncPath,
        path: &SyncPath,
        has_encrypted_state: bool,
    ) -> (res: bool)
        ensures
            res == syncs_directory(*self, mount_root@, path@, has_encrypted_state),
    {
        if path.same(mount_root) || self.is_path_excluded(path) {
            return false;
        }
        let relative = match path.strip_prefix(mount_root) {
            Some(relative) => relative,
            None => {
                return false;
            },
        };
        let own = match path.file_name_text() {
            Some(name) => is_transactional_package_name(name.as_str()),
            None => false,
        };
        if own || transactional_package_ancestor(&relative).is_some() {
            has_encrypted_state
        } else {
            true
        }
    }

    /// What is done about a mounted directory that was found. Where its metadata is to be
    /// encrypted, that is noted as pending.
    pub fn scan_directory(
        &mut self,
        mount_root: &SyncPath,
        path: &SyncPath,
        encrypted_path: &SyncPath,
        encrypted_exists: bool,
        has_encrypted_state: bool,
        metadata_hash: Option<Digest>,
        now: UtcNanos,
    ) -> (res: DirectoryStep)
        requires
            old(self).wf(),
        ensures
            final(self).wf(),
            res == directory_step(
                *old(self),
                mount_root@,
                path@,
                encrypted_path@,
                encrypted_exists,
                has_encrypted_state,
                metadata_hash,
            ),
            if res == DirectoryStep::Delete {
                directory_forgotten(old(self).files, final(self).files, path@, encrypted_path@)
            } else {
                final(self).files == old(self).files
            },
            directory_work(
                old(self).work,
                final(self).work,
                res,
                path@,
                encrypted_path@,
                now,
            ),
            *final(self) == (SyncTracker {
                files: final(self).files,
                work: final(self).work,
                ..*old(self)
            }),
    {
        let step = if !encrypted_exists
            && self.files.encrypted_directory_signatures.contains_key(encrypted_path) {
            DirectoryStep::Delete
        } else if !self.should_sync_directory_metadata(mount_root, path, has_encrypted_state) {
            DirectoryStep::Ignore
        } else if encrypted_exists && !self.is_local_mount_directory_dirty(path, metadata_hash)
            && self.files.decrypted_directory_signatures.contains_key(path) {
            DirectoryStep::Unchanged
        } else if self.held.mount_readonly_active {
            DirectoryStep::WaitSpace
        } else {
            DirectoryStep::Encrypt
        };
        if step == DirectoryStep::Delete {
            self.forget_directory_tracking(path, encrypted_path);
        }
        self.work.note_directory_step(step, path, encrypted_path, now);
        step
    }

    /// Notes a mounted directory that was looked at to the end.
    pub fn note_directory_scanned(
        &mut self,
        path: &SyncPath,
        encrypted_path: &SyncPath,
        signature: FileSignature,
        metadata_hash: Option<Digest>,
        encrypted_signature: Option<FileSignature>,
    )
        requires
            old(self).wf(),
        ensures
            final(self).wf(),
            directory_noted(
                old(self).files,
                final(self).files,
                path@,
                encrypted_path@,
                signature,
                metadata_hash,
                encrypted_signature,
            ),
            *final(self) == (SyncTracker { files: final(self).files, ..*old(self) }),
    {
        self.files.note_directory(
            path,
            encrypted_path,
            signature,
            metadata_hash,
            encrypted_signature,
        );
    }

    /// Takes note of how the encryption of a directory's metadata went. An error other than that
    /// of a full volume is given back.
    pub fn finish_directory_encryption(
        &mut self,
        path: &SyncPath,
        encrypted_path: &SyncPath,
        outcome: Result<FileSignature, MountSyncError>,
        now: UtcNanos,
    ) -> (res: Result<(), MountSyncError>)
        requires
            old(self).wf(),
        ensures
            final(self).wf(),
            match outcome {
                Ok(signature) => {
                    &&& res is Ok
                    &&& final(self).files.encrypted_directory_signatures@
                        == old(self).files.encrypted_directory_signatures@.insert(
                        encrypted_path@,
                        signature,
                    )
                    &&& final(self).files == (FileLedger {
                        encrypted_directory_signatures: final(
                            self).files.encrypted_directory_signatures,
                        ..old(self).files
                    })
                    &&& writeback_cleared(old(self).work, final(self).work, path@)
                },
                Err(err) => {
                    &&& res == if low_space_error(err) {
                        Ok::<(), MountSyncError>(())
                    } else {
                        Err::<(), MountSyncError>(err)
                    }
                    &&& final(self).files == old(self).files
                    &&& writeback_failed(
                        old(self).work,
                        final(self).work,
                        path@,
                        encrypted_path@,
                        err,
                        now,
                    )
                },
            },
            *final(self) == (SyncTracker {
                files: final(self).files,
                work: final(self).work,
                ..*old(self)
            }),
    {
        match outcome {
            Ok(signature) => {
                self.files.encrypted_directory_signatures.insert(
                    encrypted_path.duplicate(),
                    signature,
                );
                self.work.drop_writeback(path);
                Ok(())
            },
            Err(err) => {
                self.work.fail_writeback(path, encrypted_path, &err, now);
                if is_low_space_error(&err) {
                    Ok(())
                } else {
                    Err(err)
                }
            },
        }
    }

    /// Whether there is room to encrypt the metadata of a directory.
    pub fn plan_directory_encryption(
        &self,
        path: &SyncPath,
        encrypted_path: &SyncPath,
        room: Option<u64>,
        journal_room: Option<u64>,
    ) -> (res: Result<(), MountSyncError>)
        ensures
            writeback_allowed(
                *self,
                res,
                path@,
                encrypted_path@,
                budget(LOW_SPACE_DIRECTORY_CREATE_BYTES, LOW_SPACE_ATOMIC_WRITE_OVERHEAD_BYTES),
                "directory metadata writeback"@,
                room,
                journal_room,
            ),
    {
        let needed: u64 = LOW_SPACE_DIRECTORY_CREATE_BYTES.saturating_add(
            LOW_SPACE_ATOMIC_WRITE_OVERHEAD_BYTES,
        );
        self.writeback_room(
            path,
            encrypted_path,
            needed,
            "directory metadata writeback",
            room,
            journal_room,
        )
    }

    /// Whether there is room to write an encrypted file: not while the mount is read-only for
    /// want of room, and only where there is room for the file and for the journal.
    pub(crate) fn writeback_room(
        &self,
        path: &SyncPath,
        encrypted_path: &SyncPath,
        needed: u64,
        operation: &str,
        room: Option<u64>,
        journal_room: Option<u64>,
    ) -> (res: Result<(), MountSyncError>)
        ensures
            writeback_allowed(
                *self,
                res,
                path@,
                encrypted_path@,
                needed,
                operation@,
                room,
                journal_room,
            ),
    {
        if self.held.mount_readonly_active {
            return Err(low_space_readonly_error(path));
        }
        match ensure_space_budget(
            encrypted_path,
            room,
            needed,
            LOW_SPACE_WARNING_RESERVE_BYTES,
            operation,
        ) {
            Ok(()) => {},
            Err(err) => {
                return Err(err);
            },
        }
        match self.journal_budget_path() {
            Some(journal) => ensure_space_budget(
                journal,
                journal_room,
                LOW_SPACE_JOURNAL_RESERVE_BYTES,
                LOW_SPACE_JOURNAL_RESERVE_BYTES,
                "pending writeback journal",
            ),
            None => Ok(()),
        }
    }
}

/// Whether an encrypted file may be written.
pub open spec fn writeback_allowed(
    tracker: SyncTracker,
    res: Result<(), MountSyncError>,
    path: PathView,
    encrypted_path: PathView,
    needed: u64,
    operation: Seq<char>,
    room: Option<u64>,
    journal_room: Option<u64>,
) -> bool {
    let journal = budget_journal(tracker);
    if tracker.held.mount_readonly_active {
        res matches Err(err) && is_format(err, readonly_message(path.text))
    } else if lacks_room(room, needed, LOW_SPACE_WARNING_RESERVE_BYTES) {
        res matches Err(err) && is_format(
            err,
            budget_message(
                operation,
                encrypted_path.text,
                needed,
                LOW_SPACE_WARNING_RESERVE_BYTES,
                room->0,
            ),
        )
    } else if journal is Some && lacks_room(
        journal_room,
        LOW_SPACE_JOURNAL_RESERVE_BYTES,
        LOW_SPACE_JOURNAL_RESERVE_BYTES,
    ) {
        res matches Err(err) && is_format(
            err,
            budget_message(
                "pending writeback journal"@,
                journal->0@.text,
                LOW_SPACE_JOURNAL_RESERVE_BYTES,
                LOW_SPACE_JOURNAL_RESERVE_BYTES,
                journal_room->0,
            ),
        )
    } else {
        res is Ok
    }
}

/// The pending work after a mounted directory was looked at.
pub open spec fn directory_work(
    before: PendingWork,
    after: PendingWork,
    step: DirectoryStep,
    path: PathView,
    encrypted_path: PathView,
    now: UtcNanos,
) -> bool {
    let writebacks = before.pending_writebacks@;
    &&& after == (PendingWork {
        pending_writebacks: after.pending_writebacks,
        pending_writebacks_dirty: after.pending_writebacks_dirty,
        pending_refreshes: after.pending_refreshes,
        pending_refreshes_dirty: after.pending_refreshes_dirty,
        ..before
    })
    &&& after.pending_refreshes@ == if step == DirectoryStep::Delete {
        before.pending_refreshes@.remove(path)
    } else {
        before.pending_refreshes@
    }
    &&& after.pending_refreshes_dirty == (before.pending_refreshes_dirty || (step
        == DirectoryStep::Delete && before.pending_refreshes@.contains_key(path)))
    &&& match step {
        DirectoryStep::Delete | DirectoryStep::Ignore | DirectoryStep::Unchanged => {
            &&& after.pending_writebacks@ == writebacks.remove(path)
            &&& after.pending_writebacks_dirty == (before.pending_writebacks_dirty
                || writebacks.contains_key(path))
        },
        DirectoryStep::WaitSpace => {
            &&& writeback_recorded(
                writebacks,
                after.pending_writebacks@,
                path,
                encrypted_path,
                Some(refusal_message(path.text)),
                true,
                now,
            )
            &&& after.pending_writebacks_dirty
        },
        DirectoryStep::Encrypt => {
            &&& writeback_recorded(
                writebacks,
                after.pending_writebacks@,
                path,
                encrypted_path,
                None,
                false,
                now,
            )
            &&& after.pending_writebacks_dirty == (before.pending_writebacks_dirty
                || writeback_changes(writebacks, path, encrypted_path, None, false, now))
        },
    }
}

impl PendingWork {
    fn note_directory_step(
        &mut self,
        step: DirectoryStep,
        path: &SyncPath,
        encrypted_path: &SyncPath,
        now: UtcNanos,
    )
        requires
            old(self).wf(),
        ensures
            final(self).wf(),
            directory_work(*old(self), *final(self), step, path@, encrypted_path@, now),
    {
        match step {
            DirectoryStep::Delete => {
                self.drop_writeback(path);
                if self.pending_refreshes.remove(path).is_some() {
                    self.pending_refreshes_dirty = true;
                }
            },
            DirectoryStep::Ignore | DirectoryStep::Unchanged => {
                self.drop_writeback(path);
            },
            DirectoryStep::WaitSpace => {
                self.await_space(path, encrypted_path, now);
            },
            DirectoryStep::Encrypt => {
                self.await_encryption(path, encrypted_path, now);
            },
        }
    }
}

} // verus!
