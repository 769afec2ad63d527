//! The settings of a mount, its queues, and what is set from outside.

use vstd::prelude::*;
use vstd::string::*;

use crate::deletion::digest_refreshed;
use crate::exclusion::{
    compile_patterns, excluded, path_matches_exclusion_patterns, texts, valid_patterns,
};
use crate::orphans::{copy_paths, path_keys};
use crate::path::{
    same_path, selected_paths_distinct, strip_prefix, view_keys, PathEntries, PathMap, PathView,
    SyncPath, TextEntries,
};
use crate::pending::path_values;
use crate::table::{held_alike, selected, selected_contains, TableKey};
use crate::tracker::{
    distinct, has_path, keys_of, path_views, queued, ClockNanos, ConflictPolicy, Digest, FileLedger,
    FileSignature, HeldBack, Journals, LocalCopies, PendingDeletion, PendingRefresh, PendingWork,
    PendingWriteback, Settings, StableEntry, SyncTracker,
};

verus! {

/// Which paths are other than one.
pub open spec fn other_than(path: PathView) -> spec_fn(PathView) -> bool {
    |p: PathView| !same_path(p, path)
}

/// The paths other than one.
pub open spec fn without_path(paths: Seq<PathView>, path: PathView) -> Seq<PathView> {
    selected(paths, other_than(path))
}

fn drop_path(paths: &Vec<SyncPath>, path: &SyncPath) -> (res: Vec<SyncPath>)
    ensures
        path_views(res@) == without_path(path_views(paths@), path@),
{
    let ghost all = path_views(paths@);
    let ghost other = other_than(path@);
    let mut res: Vec<SyncPath> = Vec::new();
    let mut i: usize = 0;
    assert(path_views(res@) =~= selected(all.take(0), other));
    while i < paths.len()
        invariant
            i <= paths@.len(),
            all == path_views(paths@),
            other == other_than(path@),
            path_views(res@) == selected(all.take(i as int), other),
        decreases paths@.len() - i,
    {
        let ghost before = path_views(res@);
        proof {
            assert(all[i as int] == paths@[i as int]@);
            assert(all.take(i + 1).drop_last() =~= all.take(i as int));
            assert(all.take(i + 1).last() == all[i as int]);
        }
        if !paths[i].same(path) {
            res.push(paths[i].duplicate());
            assert(path_views(res@) =~= before.push(paths@[i as int]@));
        }
        i += 1;
    }
    assert(all.take(all.len() as int) =~= all);
    res
}

fn copy_signatures(map: &PathMap<FileSignature>) -> (res: PathMap<FileSignature>)
    requires
        map.wf(),
    ensures
        res.wf(),
        res@ == map@,
        res.order() == map.order(),
{
    let ghost order = map.order();
    let mut res: PathMap<FileSignature> = PathMap::new();
    let mut i: usize = 0;
    proof {
        map.entries();
        assert(res.order() =~= order.take(0));
        res.entries();
        assert(res.values@ =~= map.values@.take(0));
    }
    while i < map.keys.len()
        invariant
            i <= map.keys@.len(),
            map.wf(),
            map.keys@.len() == map.values@.len(),
            order == map.order(),
            res.wf(),
            res.order() == order.take(i as int),
            res.values@ == map.values@.take(i as int),
        decreases map.keys@.len() - i,
    {
        proof {
            map.entries();
            res.entries();
            let key = map.keys@[i as int]@;
            assert(order[i as int] == key);
            assert(!res@.contains_key(key)) by {
                if res@.contains_key(key) {
                    let j = choose|j: int|
                        0 <= j < res.keys@.len() && (#[trigger] res.keys@[j])@.key() == key.key();
                    assert(res.order()[j] == order[j]);
                    assert(map.key_order()[j] == map.key_order()[i as int]);
                }
            }
            assert(order.take(i + 1) =~= order.take(i as int).push(key));
            assert(map.values@.take(i + 1) =~= map.values@.take(i as int).push(
                map.values@[i as int],
            ));
        }
        res.insert(map.keys[i].duplicate(), map.values[i]);
        i += 1;
    }
    proof {
        assert(order.take(order.len() as int) =~= order);
        assert(map.values@.take(map.values@.len() as int) =~= map.values@);
        held_alike(res, *map);
    }
    res
}

/// From the mounted paths back to the encrypted ones; of several that are mounted at one path the
/// last counts.
pub open spec fn inverted(encrypted: Seq<PathView>, mounted: Seq<PathView>) -> PathEntries<
    PathView,
>
    decreases mounted.len(),
{
    if mounted.len() == 0 || encrypted.len() != mounted.len() {
        PathEntries::<PathView>::empty()
    } else {
        inverted(encrypted.drop_last(), mounted.drop_last()).insert(mounted.last(), encrypted.last())
    }
}

/// The mapping back leads from the place of every encrypted file to an encrypted file that is
/// mounted there.
pub proof fn inverted_leads_back(encrypted: Seq<PathView>, mounted: Seq<PathView>, i: int)
    requires
        encrypted.len() == mounted.len(),
        0 <= i < mounted.len(),
    ensures
        inverted(encrypted, mounted).contains_key(mounted[i]),
        exists|j: int|
            0 <= j < mounted.len() && same_path(#[trigger] mounted[j], mounted[i]) && encrypted[j]
                == inverted(encrypted, mounted)[mounted[i]],
    decreases mounted.len(),
{
    let n = mounted.len() - 1;
    if same_path(mounted[i], mounted[n]) {
        assert(same_path(mounted[n], mounted[i]) && encrypted[n] == inverted(
            encrypted,
            mounted,
        )[mounted[i]]);
    } else {
        inverted_leads_back(encrypted.drop_last(), mounted.drop_last(), i);
        let j = choose|j: int|
            0 <= j < n && same_path(
                #[trigger] mounted.drop_last()[j],
                mounted.drop_last()[i],
            ) && encrypted.drop_last()[j] == inverted(
                encrypted.drop_last(),
                mounted.drop_last(),
            )[mounted.drop_last()[i]];
        assert(same_path(mounted[j], mounted[i]));
    }
}

/// What becomes of a queued file.
#[derive(Debug, Clone, Copy, PartialEq, Eq, Structural)]
pub enum CreateStep {
    /// It leaves the queue.
    Drop,
    /// It changed meanwhile and stays in the queue.
    Wait,
    /// It leaves the queue and counts as seen.
    Done,
}

/// What a look at a queued file found.
#[derive(Debug, Clone, Copy)]
pub struct CreateLook {
    pub exists: bool,
    /// Whether it is a file, and its signature, where it could be looked at.
    pub found: Option<(bool, FileSignature)>,
}

/// What becomes of a queued file.
pub open spec fn create_step(
    tracker: SyncTracker,
    mount_root: PathView,
    path: PathView,
    look: CreateLook,
) -> CreateStep {
    let known = tracker.files.decrypted_signatures@;
    if !look.exists || excluded(texts(tracker.settings.excluded_patterns@), path)
        || strip_prefix(path, mount_root) is None {
        CreateStep::Drop
    } else {
        match look.found {
            Some((true, signature)) => if known.contains_key(path) && known[path] != signature {
                CreateStep::Wait
            } else {
                CreateStep::Done
            },
            _ => CreateStep::Drop,
        }
    }
}

/// Nothing is known of the mount any more, and no deletion is concluded or carried out.
pub open spec fn rehydrating(before: SyncTracker, after: SyncTracker) -> bool {
    &&& after.files.decrypted_signatures@ == PathEntries::<FileSignature>::empty()
    &&& after.files.decrypted_hashes@ == PathEntries::<Digest>::empty()
    &&& after.files.decrypted_metadata_hashes@ == PathEntries::<Digest>::empty()
    &&& after.files.file_id_to_mount_path@ == TextEntries::<SyncPath>::empty()
    &&& after.files.path_mapping@ == PathEntries::<SyncPath>::empty()
    &&& after.work.pending_deletions@ == PathEntries::<PendingDeletion>::empty()
    &&& after.work.pending_deletions_dirty == (before.work.pending_deletions_dirty
        || before.work.pending_deletions@.len() > 0)
    &&& after == (SyncTracker {
        files: after.files,
        work: after.work,
        suppress_deletion_inference: true,
        suppress_deletion_processing: true,
        ..before
    })
    &&& after.files == (FileLedger {
        decrypted_signatures: after.files.decrypted_signatures,
        decrypted_hashes: after.files.decrypted_hashes,
        decrypted_metadata_hashes: after.files.decrypted_metadata_hashes,
        file_id_to_mount_path: after.files.file_id_to_mount_path,
        path_mapping: after.files.path_mapping,
        ..before.files
    })
    &&& after.work == (PendingWork {
        pending_deletions: after.work.pending_deletions,
        pending_deletions_dirty: after.work.pending_deletions_dirty,
        ..before.work
    })
}

/// No writeback is pending any more.
pub open spec fn writebacks_dropped(before: SyncTracker, after: SyncTracker) -> bool {
    &&& after.work.pending_writebacks@ == PathEntries::<PendingWriteback>::empty()
    &&& after.work.pending_writebacks_dirty == (before.work.pending_writebacks_dirty
        || before.work.pending_writebacks@.len() > 0)
    &&& after == (SyncTracker { work: after.work, ..before })
    &&& after.work == (PendingWork {
        pending_writebacks: after.work.pending_writebacks,
        pending_writebacks_dirty: after.work.pending_writebacks_dirty,
        ..before.work
    })
}

impl SyncTracker {
    /// Sets where the conflicts are listed.
    pub fn set_conflict_registry_path(&mut self, path: SyncPath)
        ensures
            *final(self) == (SyncTracker {
                journals: Journals { conflict_registry_path: Some(path), ..old(self).journals },
                copies: LocalCopies { conflict_registry_dirty: true, ..old(self).copies },
                ..*old(self)
            }),
    {
        self.journals.conflict_registry_path = Some(path);
        self.copies.conflict_registry_dirty = true;
    }

    /// Sets where the recovered copies are listed.
    pub fn set_recovery_registry_path(&mut self, path: SyncPath)
        ensures
            *final(self) == (SyncTracker {
                journals: Journals { recovery_registry_path: Some(path), ..old(self).journals },
                copies: LocalCopies { recovery_registry_dirty: true, ..old(self).copies },
                ..*old(self)
            }),
    {
        self.journals.recovery_registry_path = Some(path);
        self.copies.recovery_registry_dirty = true;
    }

    /// Sets from which size on sparse files are left alone.
    pub fn set_sparse_skip_size_bytes(&mut self, value: u64)
        ensures
            *final(self) == (SyncTracker {
                settings: Settings { sparse_skip_size_bytes: value, ..old(self).settings },
                ..*old(self)
            }),
    {
        self.settings.sparse_skip_size_bytes = value;
    }

    /// Sets from which size on files are encrypted piece by piece.
    pub fn set_stream_threshold_bytes(&mut self, value: u64)
        ensures
            *final(self) == (SyncTracker {
                settings: Settings { stream_threshold_bytes: value, ..old(self).settings },
                ..*old(self)
            }),
    {
        self.settings.stream_threshold_bytes = value;
    }

    /// Sets the size of the pieces.
    pub fn set_stream_chunk_size_bytes(&mut self, value: u64)
        ensures
            *final(self) == (SyncTracker {
                settings: Settings { stream_chunk_size_bytes: value, ..old(self).settings },
                ..*old(self)
            }),
    {
        self.settings.stream_chunk_size_bytes = value;
    }

    /// Sets how long a large file has to stay the same.
    pub fn set_stream_stability_age_secs(&mut self, value: u64)
        ensures
            *final(self) == (SyncTracker {
                settings: Settings { stream_stability_age_secs: value, ..old(self).settings },
                ..*old(self)
            }),
    {
        self.settings.stream_stability_age_secs = value;
    }

    /// The size of the pieces in which a large file is encrypted.
    pub fn stream_chunk_size(&self) -> (res: Option<usize>)
        ensures
            res == if self.settings.stream_chunk_size_bytes == 0
                || self.settings.stream_chunk_size_bytes > usize::MAX {
                None
            } else {
                Some(self.settings.stream_chunk_size_bytes as usize)
            },
    {
        let size: u64 = self.settings.stream_chunk_size_bytes;
        if size == 0 || size > usize::MAX as u64 {
            None
        } else {
            Some(size as usize)
        }
    }

    /// Sets which paths are left out. Patterns that are not well formed are dropped.
    pub fn set_excluded_patterns(&mut self, raw_patterns: &Vec<String>)
        ensures
            texts(final(self).settings.excluded_patterns@) == valid_patterns(texts(raw_patterns@)),
            *final(self) == (SyncTracker { settings: final(self).settings, ..*old(self) }),
            final(self).settings == (Settings {
                excluded_patterns: final(self).settings.excluded_patterns,
                ..old(self).settings
            }),
    {
        self.settings.excluded_patterns = compile_patterns(raw_patterns);
    }

    /// Whether a path is left out.
    pub fn is_path_excluded(&self, path: &SyncPath) -> (res: bool)
        ensures
            res == excluded(texts(self.settings.excluded_patterns@), path@),
    {
        path_matches_exclusion_patterns(&self.settings.excluded_patterns, path)
    }

    /// Sets how conflicts found at the start of a mount are resolved.
    pub fn set_conflict_policy(&mut self, policy: ConflictPolicy)
        ensures
            *final(self) == (SyncTracker {
                settings: Settings { conflict_policy: policy, ..old(self).settings },
                ..*old(self)
            }),
    {
        self.settings.conflict_policy = policy;
    }

    /// How conflicts found at the start of a mount are resolved.
    pub fn conflict_policy(&self) -> (res: ConflictPolicy)
        ensures
            res == self.settings.conflict_policy,
    {
        self.settings.conflict_policy
    }

    /// A copy of the signatures of the mounted files.
    pub fn decrypted_signatures_snapshot(&self) -> (res: PathMap<FileSignature>)
        requires
            self.wf(),
        ensures
            res.wf(),
            res@ == self.files.decrypted_signatures@,
    {
        copy_signatures(&self.files.decrypted_signatures)
    }

    /// A copy of the signatures of the encrypted files.
    pub fn encrypted_signatures_snapshot(&self) -> (res: PathMap<FileSignature>)
        requires
            self.wf(),
        ensures
            res.wf(),
            res@ == self.files.encrypted_signatures@,
    {
        copy_signatures(&self.files.encrypted_signatures)
    }

    /// From the mounted paths to the encrypted files that are mounted there.
    pub fn mount_to_encrypted_mapping(&self) -> (res: PathMap<SyncPath>)
        requires
            self.wf(),
        ensures
            res.wf(),
            path_values(res@) == inverted(
                self.files.path_mapping.order(),
                path_views(self.files.path_mapping.values@),
            ),
    {
        let map = &self.files.path_mapping;
        let ghost from = map.order();
        let ghost to = path_views(map.values@);
        let mut res: PathMap<SyncPath> = PathMap::new();
        let mut i: usize = 0;
        proof {
            map.entries();
            assert(path_values(res@).map =~= inverted(from.take(0), to.take(0)).map);
        }
        while i < map.keys.len()
            invariant
                i <= map.keys@.len(),
                map.keys@.len() == map.values@.len(),
                from == map.order(),
                to == path_views(map.values@),
                res.wf(),
                path_values(res@) == inverted(from.take(i as int), to.take(i as int)),
            decreases map.keys@.len() - i,
        {
            let ghost before = res@;
            res.insert(map.values[i].duplicate(), map.keys[i].duplicate());
            proof {
                assert(from.take(i + 1).drop_last() =~= from.take(i as int));
                assert(to.take(i + 1).drop_last() =~= to.take(i as int));
                assert(from.take(i + 1).last() == map.keys@[i as int]@);
                assert(to.take(i + 1).last() == map.values@[i as int]@);
                assert(path_values(res@).map =~= path_values(before).insert(
                    map.values@[i as int]@,
                    map.keys@[i as int]@,
                ).map);
            }
            i += 1;
        }
        assert(from.take(from.len() as int) =~= from);
        assert(to.take(to.len() as int) =~= to);
        res
    }

    /// Queues an encrypted file to be deleted, once.
    pub fn queue_local_delete(&mut self, encrypted_path: SyncPath)
        requires
            old(self).wf(),
        ensures
            final(self).wf(),
            path_views(final(self).pending_local_deletes@) == queued(
                path_views(old(self).pending_local_deletes@),
                Some(encrypted_path@),
            ),
            *final(self) == (SyncTracker {
                pending_local_deletes: final(self).pending_local_deletes,
                ..*old(self)
            }),
    {
        if !has_path(&self.pending_local_deletes, &encrypted_path) {
            proof {
                reveal(distinct);
            }
            let ghost before = self.pending_local_deletes@;
            let ghost added = encrypted_path@;
            self.pending_local_deletes.push(encrypted_path);
            assert(path_views(self.pending_local_deletes@) =~= path_views(before).push(added));
            assert(keys_of(self.pending_local_deletes@) =~= keys_of(before).push(added.key()));
        }
    }

    /// The mounted files that are queued to be encrypted.
    pub fn pending_local_creates(&self) -> (res: Vec<SyncPath>)
        ensures
            path_views(res@) == path_views(self.pending_local_creates@),
    {
        copy_paths(&self.pending_local_creates)
    }

    /// The encrypted files that are queued to be deleted.
    pub fn pending_local_deletes(&self) -> (res: Vec<SyncPath>)
        ensures
            path_views(res@) == path_views(self.pending_local_deletes@),
    {
        copy_paths(&self.pending_local_deletes)
    }

    /// Takes a mounted file from the queue.
    pub fn complete_local_create(&mut self, mount_path: &SyncPath)
        requires
            old(self).wf(),
        ensures
            final(self).wf(),
            path_views(final(self).pending_local_creates@) == without_path(
                path_views(old(self).pending_local_creates@),
                mount_path@,
            ),
            *final(self) == (SyncTracker {
                pending_local_creates: final(self).pending_local_creates,
                ..*old(self)
            }),
    {
        let kept = drop_path(&self.pending_local_creates, mount_path);
        proof {
            reveal(distinct);
            selected_paths_distinct(
                path_views(self.pending_local_creates@),
                other_than(mount_path@),
            );
        }
        self.pending_local_creates = kept;
    }

    /// Takes an encrypted file from the queue.
    pub fn complete_local_delete(&mut self, encrypted_path: &SyncPath)
        requires
            old(self).wf(),
        ensures
            final(self).wf(),
            path_views(final(self).pending_local_deletes@) == without_path(
                path_views(old(self).pending_local_deletes@),
                encrypted_path@,
            ),
            *final(self) == (SyncTracker {
                pending_local_deletes: final(self).pending_local_deletes,
                ..*old(self)
            }),
    {
        let kept = drop_path(&self.pending_local_deletes, encrypted_path);
        proof {
            reveal(distinct);
            selected_paths_distinct(
                path_views(self.pending_local_deletes@),
                other_than(encrypted_path@),
            );
        }
        self.pending_local_deletes = kept;
    }

    /// Whether anything is queued.
    pub fn has_pending_background_ops(&self) -> (res: bool)
        ensures
            res == (self.pending_local_creates@.len() > 0 || self.pending_local_deletes@.len() > 0),
    {
        self.pending_local_creates.len() > 0 || self.pending_local_deletes.len() > 0
    }

    /// Takes one file from the queue of those to be encrypted, if it is to leave it. A file that
    /// is still as it was counts as seen, and the next scan encrypts it.
    pub fn process_pending_local_create(
        &mut self,
        mount_root: &SyncPath,
        path: &SyncPath,
        look: CreateLook,
        metadata_hash: Option<Digest>,
    ) -> (res: CreateStep)
        requires
            old(self).wf(),
        ensures
            final(self).wf(),
            res == create_step(*old(self), mount_root@, path@, look),
            path_views(final(self).pending_local_creates@) == if res == CreateStep::Wait {
                path_views(old(self).pending_local_creates@)
            } else {
                without_path(path_views(old(self).pending_local_creates@), path@)
            },
            final(self).files.decrypted_signatures@ == if res == CreateStep::Done {
                old(self).files.decrypted_signatures@.insert(path@, (look.found->0).1)
            } else {
                old(self).files.decrypted_signatures@
            },
            final(self).files.decrypted_metadata_hashes@ == if res == CreateStep::Done {
                digest_refreshed(old(self).files.decrypted_metadata_hashes@, path@, metadata_hash)
            } else {
                old(self).files.decrypted_metadata_hashes@
            },
            *final(self) == (SyncTracker {
                files: final(self).files,
                pending_local_creates: final(self).pending_local_creates,
                ..*old(self)
            }),
            final(self).files == (FileLedger {
                decrypted_signatures: final(self).files.decrypted_signatures,
                decrypted_metadata_hashes: final(self).files.decrypted_metadata_hashes,
                ..old(self).files
            }),
    {
        if !look.exists || self.is_path_excluded(path) || path.strip_prefix(mount_root).is_none() {
            self.complete_local_create(path);
            return CreateStep::Drop;
        }
        match look.found {
            Some((true, signature)) => {
                if let Some(known) = self.files.decrypted_signatures.get(path) {
                    if !(*known == signature) {
                        return CreateStep::Wait;
                    }
                }
                self.files.decrypted_signatures.insert(path.duplicate(), signature);
                self.refresh_decrypted_metadata_hash(path, metadata_hash);
                self.complete_local_create(path);
                CreateStep::Done
            },
            _ => {
                self.complete_local_create(path);
                CreateStep::Drop
            },
        }
    }

    /// Forgets an encrypted file from the queue that was deleted, and the file that was mounted
    /// from it.
    pub fn finish_local_delete(&mut self, encrypted_path: &SyncPath)
        requires
            old(self).wf(),
        ensures
            final(self).wf(),
            path_views(final(self).pending_local_deletes@) == without_path(
                path_views(old(self).pending_local_deletes@),
                encrypted_path@,
            ),
            deleted_forgotten(old(self).files, final(self).files, encrypted_path@),
            *final(self) == (SyncTracker {
                files: final(self).files,
                pending_local_deletes: final(self).pending_local_deletes,
                ..*old(self)
            }),
    {
        self.files.forget_deleted(encrypted_path);
        self.complete_local_delete(encrypted_path);
    }

    /// Prepares for a first sync that rebuilds the mount from the encrypted files: nothing is
    /// known of the mount, and no deletion is concluded or carried out.
    pub fn enter_startup_rehydrate_mode(&mut self)
        requires
            old(self).wf(),
        ensures
            final(self).wf(),
            rehydrating(*old(self), *final(self)),
    {
        self.files.decrypted_signatures.clear();
        self.files.decrypted_hashes.clear();
        self.files.decrypted_metadata_hashes.clear();
        self.files.file_id_to_mount_path.clear();
        self.files.path_mapping.clear();
        self.clear_pending_deletions();
        self.suppress_deletion_inference = true;
        self.suppress_deletion_processing = true;
    }

    /// Ends what `enter_startup_rehydrate_mode` began.
    pub fn exit_startup_rehydrate_mode(&mut self)
        ensures
            *final(self) == (SyncTracker {
                suppress_deletion_inference: false,
                suppress_deletion_processing: false,
                ..*old(self)
            }),
    {
        self.suppress_deletion_inference = false;
        self.suppress_deletion_processing = false;
    }

    /// Drops all pending deletions.
    pub fn clear_pending_deletions(&mut self)
        requires
            old(self).wf(),
        ensures
            final(self).wf(),
            final(self).work.pending_deletions@ == PathEntries::<PendingDeletion>::empty(),
            final(self).work.pending_deletions_dirty == (old(self).work.pending_deletions_dirty
                || old(self).work.pending_deletions@.len() > 0),
            *final(self) == (SyncTracker { work: final(self).work, ..*old(self) }),
            final(self).work == (PendingWork {
                pending_deletions: final(self).work.pending_deletions,
                pending_deletions_dirty: final(self).work.pending_deletions_dirty,
                ..old(self).work
            }),
    {
        if !self.work.pending_deletions.is_empty() {
            self.work.pending_deletions.clear();
            self.work.pending_deletions_dirty = true;
        }
        assert(self.work.pending_deletions@.map =~= PathEntries::<PendingDeletion>::empty().map);
    }

    /// Drops all pending writebacks.
    pub fn clear_pending_writebacks(&mut self)
        requires
            old(self).wf(),
        ensures
            final(self).wf(),
            writebacks_dropped(*old(self), *final(self)),
    {
        if !self.work.pending_writebacks.is_empty() {
            self.work.pending_writebacks.clear();
            self.work.pending_writebacks_dirty = true;
        }
        assert(self.work.pending_writebacks@.map =~= PathEntries::<PendingWriteback>::empty().map);
    }

    /// Drops all pending refreshes.
    pub fn clear_pending_refreshes(&mut self)
        requires
            old(self).wf(),
        ensures
            final(self).wf(),
            final(self).work.pending_refreshes@ == PathEntries::<PendingRefresh>::empty(),
            final(self).work.pending_refreshes_dirty == (old(self).work.pending_refreshes_dirty
                || old(self).work.pending_refreshes@.len() > 0),
            *final(self) == (SyncTracker { work: final(self).work, ..*old(self) }),
            final(self).work == (PendingWork {
                pending_refreshes: final(self).work.pending_refreshes,
                pending_refreshes_dirty: final(self).work.pending_refreshes_dirty,
                ..old(self).work
            }),
    {
        if !self.work.pending_refreshes.is_empty() {
            self.work.pending_refreshes.clear();
            self.work.pending_refreshes_dirty = true;
        }
        assert(self.work.pending_refreshes@.map =~= PathEntries::<PendingRefresh>::empty().map);
    }

    /// The mounted files that are not encrypted yet.
    pub fn pending_writeback_mount_paths(&self) -> (res: Vec<SyncPath>)
        ensures
            path_views(res@) == self.work.pending_writebacks.order(),
    {
        path_keys(&self.work.pending_writebacks)
    }

    /// Notes that a mounted file was written completely, so that the next scan encrypts it.
    pub fn preseed_stable(&mut self, path: &SyncPath, signature: FileSignature, clock: ClockNanos)
        requires
            old(self).wf(),
        ensures
            final(self).wf(),
            final(self).held.pending_stable@ == old(self).held.pending_stable@.insert(
                path@,
                StableEntry { signature, first_seen: clock },
            ),
            *final(self) == (SyncTracker { held: final(self).held, ..*old(self) }),
            final(self).held == (HeldBack {
                pending_stable: final(self).held.pending_stable,
                ..old(self).held
            }),
    {
        self.held.pending_stable.insert(
            path.duplicate(),
            StableEntry { signature, first_seen: clock },
        );
    }

    /// Notes a file that is known from before on both sides, so that the next pass need not decrypt
    /// it.
    pub fn seed_file(
        &mut self,
        encrypted_path: SyncPath,
        decrypted_path: SyncPath,
        encrypted_signature: FileSignature,
        decrypted_signature: FileSignature,
    )
        requires
            old(self).wf(),
        ensures
            final(self).wf(),
            seeded(
                *old(self),
                *final(self),
                encrypted_path@,
                decrypted_path,
                encrypted_signature,
                decrypted_signature,
            ),
    {
        self.files.encrypted_signatures.insert(encrypted_path.duplicate(), encrypted_signature);
        self.files.decrypted_signatures.insert(decrypted_path.duplicate(), decrypted_signature);
        self.files.path_mapping.insert(encrypted_path, decrypted_path);
    }
}

/// The state after a file was noted that is known from before on both sides.
pub open spec fn seeded(
    before: SyncTracker,
    after: SyncTracker,
    encrypted_path: PathView,
    decrypted_path: SyncPath,
    encrypted_signature: FileSignature,
    decrypted_signature: FileSignature,
) -> bool {
    &&& after.files.encrypted_signatures@ == before.files.encrypted_signatures@.insert(
        encrypted_path,
        encrypted_signature,
    )
    &&& after.files.decrypted_signatures@ == before.files.decrypted_signatures@.insert(
        decrypted_path@,
        decrypted_signature,
    )
    &&& after.files.path_mapping@ == before.files.path_mapping@.insert(
        encrypted_path,
        decrypted_path,
    )
    &&& after == (SyncTracker { files: after.files, ..before })
    &&& after.files == (FileLedger {
        encrypted_signatures: after.files.encrypted_signatures,
        decrypted_signatures: after.files.decrypted_signatures,
        path_mapping: after.files.path_mapping,
        ..before.files
    })
}

/// The ledger after an encrypted file and the one that was mounted from it were forgotten.
pub open spec fn deleted_forgotten(before: FileLedger, after: FileLedger, encrypted: PathView) -> bool {
    let mapped = before.path_mapping@.contains_key(encrypted);
    let mounted = before.path_mapping@[encrypted]@;
    &&& after.encrypted_signatures@ == before.encrypted_signatures@.remove(encrypted)
    &&& after.path_mapping@ == before.path_mapping@.remove(encrypted)
    &&& after.decrypted_signatures@ == if mapped {
        before.decrypted_signatures@.remove(mounted)
    } else {
        before.decrypted_signatures@
    }
    &&& after.decrypted_hashes@ == if mapped {
        before.decrypted_hashes@.remove(mounted)
    } else {
        before.decrypted_hashes@
    }
    &&& after.decrypted_metadata_hashes@ == if mapped {
        before.decrypted_metadata_hashes@.remove(mounted)
    } else {
        before.decrypted_metadata_hashes@
    }
    &&& after == (FileLedger {
        encrypted_signatures: after.encrypted_signatures,
        path_mapping: after.path_mapping,
        decrypted_signatures: after.decrypted_signatures,
        decrypted_hashes: after.decrypted_hashes,
        decrypted_metadata_hashes: after.decrypted_metadata_hashes,
        ..before
    })
}

impl FileLedger {
    fn forget_deleted(&mut self, encrypted_path: &SyncPath)
        requires
            old(self).wf(),
        ensures
            final(self).wf(),
            deleted_forgotten(*old(self), *final(self), encrypted_path@),
    {
        self.encrypted_signatures.remove(encrypted_path);
        if let Some(mount_path) = self.path_mapping.remove(encrypted_path) {
            self.decrypted_signatures.remove(&mount_path);
            self.decrypted_hashes.remove(&mount_path);
            self.decrypted_metadata_hashes.remove(&mount_path);
        }
    }
}

/// A path that was taken from a queue is not in it, and every other path stays.
pub proof fn completed_leaves_the_queue(queue: Seq<PathView>, path: PathView)
    ensures
        !view_keys(without_path(queue, path)).contains(path.key()),
        forall|p: PathView| !same_path(p, path) ==> (#[trigger] without_path(queue, path).contains(p)
            <==> queue.contains(p)),
{
    selected_contains(queue, other_than(path));
    let left = without_path(queue, path);
    if view_keys(left).contains(path.key()) {
        let i = choose|i: int| 0 <= i < left.len() && view_keys(left)[i] == path.key();
        assert(left.contains(left[i]));
        assert(other_than(path)(left[i]));
    }
    assert forall|p: PathView| !same_path(p, path) implies (#[trigger] without_path(queue, path).contains(p)
        <==> queue.contains(p)) by {
        assert(other_than(path)(p));
    }
}

} // verus!
