//! Mounted files whose encrypted form is gone.

use vstd::prelude::*;

use crate::deletion::{content_in_doubt, digest_refreshed, locally_changed};
use crate::path::{same_path, starts_with, PathMap, PathView, SyncPath};
use crate::table::{filtered, TableKey};
use crate::tracker::{
    path_views, Digest, FileLedger, FileSignature, LocalCopies, PendingWork, SyncTracker,
};

verus! {

/// What a look at a mounted file found.
#[derive(Debug, Clone, Copy)]
pub enum FileLook {
    /// It is not there.
    Missing,
    /// It could not be looked at.
    Unreadable,
    /// It is there. The digests are given as far as they could be taken.
    Found {
        signature: FileSignature,
        content_hash: Option<Digest>,
        metadata_hash: Option<Digest>,
    },
}

/// What becomes of a mounted file whose encrypted form is gone.
#[derive(Debug, Clone, Copy, PartialEq, Eq, Structural)]
pub enum OrphanVerdict {
    /// It stays as it is.
    Wait,
    /// It is no orphan any longer.
    Cancel,
    /// It goes to the retention folder, or is removed where there is none.
    Retain,
}

/// What becomes of a mounted file whose encrypted form is gone. It is no orphan if its
/// encrypted form is back, if it is gone itself, or if it was changed. For the rest, the
/// encrypted form must have been missing in enough scans in a row, one of them without faults.
pub open spec fn orphan_verdict(
    tracker: SyncTracker,
    mount_root: PathView,
    mount_path: PathView,
    encrypted_exists: bool,
    mount_exists: bool,
    look: FileLook,
) -> OrphanVerdict {
    let pending = tracker.work.pending_orphans@[mount_path];
    if !starts_with(mount_path, mount_root) {
        OrphanVerdict::Wait
    } else if encrypted_exists || !mount_exists {
        OrphanVerdict::Cancel
    } else {
        match look {
            FileLook::Missing => OrphanVerdict::Cancel,
            FileLook::Unreadable => OrphanVerdict::Wait,
            FileLook::Found { signature, content_hash, metadata_hash } => if locally_changed(
                tracker,
                mount_path,
                signature,
                content_hash,
                metadata_hash,
            ) {
                OrphanVerdict::Cancel
            } else if pending.consecutive_missing_scans
                >= tracker.settings.deletion_config.min_consecutive_missing_scans
                && pending.had_healthy_scan {
                OrphanVerdict::Retain
            } else {
                OrphanVerdict::Wait
            },
        }
    }
}

/// The verdict on an orphan rests on a comparison of its content.
pub open spec fn orphan_compared(
    tracker: SyncTracker,
    mount_root: PathView,
    mount_path: PathView,
    encrypted_exists: bool,
    mount_exists: bool,
    look: FileLook,
) -> bool {
    starts_with(mount_path, mount_root) && !encrypted_exists && mount_exists && look is Found
        && content_in_doubt(tracker, mount_path, look->signature)
}

/// The paths of a map, in order.
pub fn path_keys<T>(map: &PathMap<T>) -> (res: Vec<SyncPath>)
    ensures
        path_views(res@) == map.order(),
{
    copy_paths(&map.keys)
}

/// A copy of a vector of paths.
pub fn copy_paths(paths: &Vec<SyncPath>) -> (res: Vec<SyncPath>)
    ensures
        path_views(res@) == path_views(paths@),
{
    let mut res: Vec<SyncPath> = Vec::new();
    let mut i: usize = 0;
    while i < paths.len()
        invariant
            i <= paths@.len(),
            path_views(res@) == path_views(paths@).take(i as int),
        decreases paths@.len() - i,
    {
        let ghost before = path_views(res@);
        res.push(paths[i].duplicate());
        assert(path_views(res@) =~= before.push(paths@[i as int]@));
        assert(path_views(paths@).take(i + 1) =~= path_views(paths@).take(i as int).push(
            paths@[i as int]@,
        ));
        i += 1;
    }
    assert(path_views(paths@).take(paths@.len() as int) =~= path_views(paths@));
    res
}

/// The ledger after the file at a path and its encrypted form were forgotten.
pub open spec fn pair_forgotten(
    before: FileLedger,
    after: FileLedger,
    mount_path: PathView,
    encrypted_path: PathView,
) -> bool {
    &&& after.decrypted_signatures@ == before.decrypted_signatures@.remove(mount_path)
    &&& after.decrypted_hashes@ == before.decrypted_hashes@.remove(mount_path)
    &&& after.decrypted_metadata_hashes@ == before.decrypted_metadata_hashes@.remove(mount_path)
    &&& after.file_id_to_mount_path@ == filtered(
        before.file_id_to_mount_path@,
        |_id: Seq<char>, at: SyncPath| !same_path(at@, mount_path),
    )
    &&& after.path_mapping@ == filtered(
        before.path_mapping@,
        |e: PathView, at: SyncPath|
            !same_path(at@, mount_path) && !same_path(e, encrypted_path),
    )
    &&& after.encrypted_signatures@ == before.encrypted_signatures@.remove(encrypted_path)
    &&& after == (FileLedger {
        decrypted_signatures: after.decrypted_signatures,
        decrypted_hashes: after.decrypted_hashes,
        decrypted_metadata_hashes: after.decrypted_metadata_hashes,
        file_id_to_mount_path: after.file_id_to_mount_path,
        path_mapping: after.path_mapping,
        encrypted_signatures: after.encrypted_signatures,
        ..before
    })
}

impl FileLedger {
    /// Forgets the file at a path and its encrypted form.
    pub fn forget_pair(&mut self, mount_path: &SyncPath, encrypted_path: &SyncPath)
        requires
            old(self).wf(),
        ensures
            final(self).wf(),
            pair_forgotten(*old(self), *final(self), mount_path@, encrypted_path@),
    {
        self.decrypted_signatures.remove(mount_path);
        self.decrypted_hashes.remove(mount_path);
        self.decrypted_metadata_hashes.remove(mount_path);
        let keep_id = |_id: &String, at: &SyncPath| -> (res: bool)
            ensures
                res == !same_path(at@, mount_path@),
            { !at.same(mount_path) };
        self.file_id_to_mount_path.retain(
            keep_id,
            Ghost(|_id: Seq<char>, at: SyncPath| !same_path(at@, mount_path@)),
        );
        let keep_mapping = |e: &SyncPath, at: &SyncPath| -> (res: bool)
            ensures
                res == (!same_path(at@, mount_path@) && !same_path(e@, encrypted_path@)),
            { !at.same(mount_path) && !e.same(encrypted_path) };
        self.path_mapping.retain(
            keep_mapping,
            Ghost(
                |e: PathView, at: SyncPath|
                    !same_path(at@, mount_path@) && !same_path(e, encrypted_path@),
            ),
        );
        self.encrypted_signatures.remove(encrypted_path);
    }
}

/// The copies after the one at a path was forgotten.
pub open spec fn copy_forgotten(before: LocalCopies, after: LocalCopies, path: PathView) -> bool {
    &&& after.conflict_baselines@ == before.conflict_baselines@.remove(path)
    &&& after.recovered_pending_paths@ == before.recovered_pending_paths@.remove(path)
    &&& after.conflict_registry_dirty == (before.conflict_registry_dirty
        || before.conflict_baselines@.contains_key(path))
    &&& after.recovery_registry_dirty == (before.recovery_registry_dirty
        || before.recovered_pending_paths@.contains_key(path))
}

impl LocalCopies {
    /// Forgets the copy at a path.
    pub fn forget_copy(&mut self, path: &SyncPath)
        requires
            old(self).wf(),
        ensures
            final(self).wf(),
            copy_forgotten(*old(self), *final(self), path@),
    {
        if self.conflict_baselines.remove(path).is_some() {
            self.conflict_registry_dirty = true;
        }
        if self.recovered_pending_paths.remove(path).is_some() {
            self.recovery_registry_dirty = true;
        }
    }
}

impl SyncTracker {
    /// Looks into what becomes of a mounted file whose encrypted form is gone. Where its content
    /// was compared, the digests are noted.
    pub fn check_orphan(
        &mut self,
        mount_root: &SyncPath,
        mount_path: &SyncPath,
        encrypted_exists: bool,
        mount_exists: bool,
        look: FileLook,
    ) -> (res: OrphanVerdict)
        requires
            old(self).wf(),
            old(self).work.pending_orphans@.contains_key(mount_path@),
        ensures
            final(self).wf(),
            res == orphan_verdict(
                *old(self),
                mount_root@,
                mount_path@,
                encrypted_exists,
                mount_exists,
                look,
            ),
            ({
                let compared = orphan_compared(
                    *old(self),
                    mount_root@,
                    mount_path@,
                    encrypted_exists,
                    mount_exists,
                    look,
                );
                &&& final(self).files.decrypted_hashes@ == if compared && look->content_hash
                    is Some {
                    old(self).files.decrypted_hashes@.insert(mount_path@, look->content_hash->0)
                } else {
                    old(self).files.decrypted_hashes@
                }
                &&& final(self).files.decrypted_metadata_hashes@ == if compared {
                    digest_refreshed(
                        old(self).files.decrypted_metadata_hashes@,
                        mount_path@,
                        look->metadata_hash,
                    )
                } else {
                    old(self).files.decrypted_metadata_hashes@
                }
            }),
            *final(self) == (SyncTracker { files: final(self).files, ..*old(self) }),
            final(self).files == (FileLedger {
                decrypted_hashes: final(self).files.decrypted_hashes,
                decrypted_metadata_hashes: final(self).files.decrypted_metadata_hashes,
                ..old(self).files
            }),
    {
        if !mount_path.starts_with(mount_root) {
            return OrphanVerdict::Wait;
        }
        if encrypted_exists || !mount_exists {
            return OrphanVerdict::Cancel;
        }
        let (count, healthy): (u32, bool) = match self.work.pending_orphans.get(mount_path) {
            Some(p) => (p.consecutive_missing_scans, p.had_healthy_scan),
            None => (0, false),
        };
        match look {
            FileLook::Missing => OrphanVerdict::Cancel,
            FileLook::Unreadable => OrphanVerdict::Wait,
            FileLook::Found { signature, content_hash, metadata_hash } => {
                if self.is_local_mount_path_dirty_with_signature(
                    mount_path,
                    signature,
                    content_hash,
                    metadata_hash,
                ) {
                    OrphanVerdict::Cancel
                } else if count >= self.settings.deletion_config.min_consecutive_missing_scans
                    && healthy {
                    OrphanVerdict::Retain
                } else {
                    OrphanVerdict::Wait
                }
            },
        }
    }

    /// Takes a mounted file from the orphans.
    pub fn cancel_orphan(&mut self, mount_path: &SyncPath)
        requires
            old(self).wf(),
        ensures
            final(self).wf(),
            final(self).work.pending_orphans@ == old(self).work.pending_orphans@.remove(
                mount_path@,
            ),
            final(self).work.pending_orphans_dirty == (old(self).work.pending_orphans_dirty || old(
                self,
            ).work.pending_orphans@.contains_key(mount_path@)),
            *final(self) == (SyncTracker { work: final(self).work, ..*old(self) }),
            final(self).work == (PendingWork {
                pending_orphans: final(self).work.pending_orphans,
                pending_orphans_dirty: final(self).work.pending_orphans_dirty,
                ..old(self).work
            }),
    {
        if self.work.pending_orphans.remove(mount_path).is_some() {
            self.work.pending_orphans_dirty = true;
        }
    }

    /// Forgets an orphan that was moved to the retention folder or removed.
    pub fn finish_orphan(&mut self, mount_path: &SyncPath)
        requires
            old(self).wf(),
            old(self).work.pending_orphans@.contains_key(mount_path@),
        ensures
            final(self).wf(),
            pair_forgotten(
                old(self).files,
                final(self).files,
                mount_path@,
                old(self).work.pending_orphans@[mount_path@].encrypted_path@,
            ),
            copy_forgotten(old(self).copies, final(self).copies, mount_path@),
            final(self).work.pending_orphans@ == old(self).work.pending_orphans@.remove(
                mount_path@,
            ),
            final(self).work.pending_orphans_dirty,
            *final(self) == (SyncTracker {
                files: final(self).files,
                work: final(self).work,
                copies: final(self).copies,
                ..*old(self)
            }),
            final(self).work == (PendingWork {
                pending_orphans: final(self).work.pending_orphans,
                pending_orphans_dirty: true,
                ..old(self).work
            }),
    {
        if let Some(pending) = self.work.pending_orphans.remove(mount_path) {
            self.files.forget_pair(mount_path, &pending.encrypted_path);
            self.copies.forget_copy(mount_path);
            self.work.pending_orphans_dirty = true;
        }
    }
}

} // verus!
