//! Deletions: how a file that is gone on one side is confirmed to be deleted,
//! and what is kept of it on the other.

use vstd::prelude::*;
use vstd::string::*;

use crate::path::{
    selected_paths_distinct, starts_with, view_keys, PathEntries, PathKey, PathMap, PathSet,
    PathView, SyncPath,
};
use crate::pending::same_digest;
use crate::table::{filtered, mapped_alike, selected, Entries};
use crate::tracker::{
    keys_of, path_views, Digest, FileLedger, FileSignature, LocalCopies, PendingDeletion,
    PendingOrphan, PendingWork, SyncTracker,
};

verus! {

/// What becomes of a deletion that is to be confirmed.
#[derive(Debug, Clone, Copy, PartialEq, Eq, Structural)]
pub enum DeletionVerdict {
    /// It stays as it is.
    Wait,
    /// The file is back: it is not deleted.
    Cancel,
    /// It is confirmed.
    Delete,
}

/// A deletion as plain values.
pub open spec fn deletion_view(p: PendingDeletion) -> (PathView, u32, bool) {
    (p.mount_path@, p.consecutive_missing_scans, p.had_healthy_scan)
}

/// The deletions of a map as plain values.
pub open spec fn deletion_views(map: PathEntries<PendingDeletion>) -> PathEntries<
    (PathView, u32, bool),
> {
    map.map_values(|p: PendingDeletion| deletion_view(p))
}

/// What becomes of the deletion of an encrypted file. One outside the roots waits, as does one
/// whose file a process still has open, and one whose metadata is not stored. A file that is
/// back is not deleted. For the rest, the file must have been missing in enough scans in a row,
/// one of them without faults.
pub open spec fn deletion_verdict(
    tracker: SyncTracker,
    encrypted_path: PathView,
    encrypted_root: PathView,
    mount_root: PathView,
    present: Set<PathKey>,
) -> DeletionVerdict {
    let pending = tracker.work.pending_deletions@[encrypted_path];
    if !starts_with(encrypted_path, encrypted_root) || !starts_with(
        pending.mount_path@,
        mount_root,
    ) {
        DeletionVerdict::Wait
    } else if tracker.work.pending_open_unlinked@.contains_key(pending.mount_path@) {
        DeletionVerdict::Wait
    } else if tracker.work.pending_metadata@.contains_key(encrypted_path) {
        DeletionVerdict::Wait
    } else if present.contains(pending.mount_path@.key()) {
        DeletionVerdict::Cancel
    } else if pending.consecutive_missing_scans
        >= tracker.settings.deletion_config.min_consecutive_missing_scans && pending.had_healthy_scan {
        DeletionVerdict::Delete
    } else {
        DeletionVerdict::Wait
    }
}

/// The encrypted files whose deletion is confirmed, in order.
pub open spec fn confirmed_deletions(
    tracker: SyncTracker,
    encrypted_root: PathView,
    mount_root: PathView,
    present: Set<PathKey>,
) -> Seq<PathView> {
    selected(
        tracker.work.pending_deletions.order(),
        |e: PathView|
            deletion_verdict(tracker, e, encrypted_root, mount_root, present)
                == DeletionVerdict::Delete,
    )
}

/// The paths at which the given encrypted files are mounted.
pub open spec fn mounted_at(
    mapping: PathEntries<SyncPath>,
    encrypted: Seq<PathView>,
) -> Set<PathKey> {
    Set::new(
        |m: PathKey|
            exists|i: int|
                0 <= i < encrypted.len() && mapping.contains_key(#[trigger] encrypted[i])
                    && mapping[encrypted[i]]@.key() == m,
    )
}

/// The digests agree: both are there and equal, or neither is there.
pub open spec fn digests_agree(
    known: PathEntries<Digest>,
    path: PathView,
    current: Option<Digest>,
) -> bool {
    match current {
        Some(h) => known.contains_key(path) && known[path] == h,
        None => !known.contains_key(path),
    }
}

/// The map after the digest of a file was taken anew.
pub open spec fn digest_refreshed(
    known: PathEntries<Digest>,
    path: PathView,
    current: Option<Digest>,
) -> PathEntries<Digest> {
    match current {
        Some(h) => known.insert(path, h),
        None => known.remove(path),
    }
}

/// The content has to be compared to tell whether a mounted file was changed: only the time of
/// change of its metadata differs.
pub open spec fn content_in_doubt(
    tracker: SyncTracker,
    path: PathView,
    current: FileSignature,
) -> bool {
    tracker.files.decrypted_signatures@.contains_key(path) && {
        let stored = tracker.files.decrypted_signatures@[path];
        stored.same_content(current) && stored.ctime_ns != current.ctime_ns
    }
}

/// A mounted file was changed since it was last seen. Where only the time of change of its
/// metadata differs, the digests of its content and of its metadata decide.
pub open spec fn locally_changed(
    tracker: SyncTracker,
    path: PathView,
    current: FileSignature,
    content_hash: Option<Digest>,
    metadata_hash: Option<Digest>,
) -> bool {
    if !tracker.files.decrypted_signatures@.contains_key(path) {
        true
    } else if tracker.files.decrypted_signatures@[path] == current {
        false
    } else if content_in_doubt(tracker, path, current) {
        let content_same = content_hash is Some && (tracker.files.decrypted_hashes@.contains_key(path)
            ==> tracker.files.decrypted_hashes@[path] == content_hash->0);
        !(content_same && digests_agree(tracker.files.decrypted_metadata_hashes@, path, metadata_hash))
    } else {
        true
    }
}

pub(crate) fn refresh_digest(map: &mut PathMap<Digest>, path: &SyncPath, current: Option<Digest>)
    requires
        old(map).wf(),
    ensures
        final(map).wf(),
        final(map)@ == digest_refreshed(old(map)@, path@, current),
{
    match current {
        Some(h) => {
            map.insert(path.duplicate(), h);
        },
        None => {
            map.remove(path);
        },
    }
}

pub(crate) fn check_digest(map: &PathMap<Digest>, path: &SyncPath, current: Option<Digest>) -> (res: bool)
    requires
        map.wf(),
    ensures
        res == digests_agree(map@, path@, current),
{
    match (map.get(path), current) {
        (Some(previous), Some(h)) => same_digest(previous, &h),
        (None, None) => true,
        _ => false,
    }
}

/// The deletions of a map after one more look at the mount: for a file that is back the count
/// starts anew, for one that is still missing it goes up.
pub open spec fn scanned(
    deletions: PathEntries<(PathView, u32, bool)>,
    files: Seq<PathKey>,
    present: Set<PathKey>,
    healthy: bool,
) -> PathEntries<(PathView, u32, bool)> {
    Entries {
        map: Map::new(
            |e: PathKey| deletions.map.contains_key(e),
            |e: PathKey|
                {
                    let (stored, (mount_path, count, seen)) = deletions.map[e];
                    (
                        stored,
                        if !files.contains(e) {
                            (mount_path, count, seen)
                        } else if present.contains(mount_path.key()) {
                            (mount_path, 0u32, seen)
                        } else {
                            (mount_path, (count + 1) as u32, seen || healthy)
                        },
                    )
                },
        ),
    }
}

/// The file of a deletion is not back.
pub open spec fn still_missing(
    deletions: PathEntries<(PathView, u32, bool)>,
    present: Set<PathKey>,
    file: PathView,
) -> bool {
    !(deletions.contains_key(file) && present.contains(deletions[file].0.key()))
}

fn scan_once(
    map: &mut PathMap<PendingDeletion>,
    files: &Vec<SyncPath>,
    present: &PathSet,
    healthy: bool,
) -> (res: (Vec<SyncPath>, bool))
    requires
        old(map).wf(),
        present.wf(),
        keys_of(files@).no_duplicates(),
        forall|e: PathView| #[trigger]
            old(map)@.contains_key(e) && keys_of(files@).contains(e.key()) ==> old(
                map,
            )@[e].consecutive_missing_scans < u32::MAX,
    ensures
        final(map).wf(),
        deletion_views(final(map)@) == scanned(
            deletion_views(old(map)@),
            keys_of(files@),
            present@.keys(),
            healthy,
        ),
        path_views(res.0@) == selected(
            path_views(files@),
            |f: PathView| still_missing(deletion_views(old(map)@), present@.keys(), f),
        ),
        res.1 == exists|e: PathView|
            keys_of(files@).contains(e.key()) && #[trigger] old(map)@.contains_key(e),
{
    let ghost before = map@;
    let ghost views = deletion_views(before);
    let ghost all = path_views(files@);
    let ghost keys = keys_of(files@);
    let ghost missing = |f: PathView| still_missing(views, present@.keys(), f);
    let mut left: Vec<SyncPath> = Vec::new();
    let mut dirty = false;
    let mut i: usize = 0;
    proof {
        assert(path_views(left@) =~= selected(all.take(0), missing));
        assert(deletion_views(map@).map =~= scanned(
            views,
            keys.take(0),
            present@.keys(),
            healthy,
        ).map);
    }
    while i < files.len()
        invariant
            i <= files@.len(),
            map.wf(),
            present.wf(),
            all == path_views(files@),
            keys == keys_of(files@),
            keys.no_duplicates(),
            views == deletion_views(before),
            missing == (|f: PathView| still_missing(views, present@.keys(), f)),
            forall|e: PathView| #[trigger]
                before.contains_key(e) && keys.contains(e.key())
                    ==> before[e].consecutive_missing_scans < u32::MAX,
            deletion_views(map@) == scanned(views, keys.take(i as int), present@.keys(), healthy),
            path_views(left@) == selected(all.take(i as int), missing),
            dirty == exists|e: PathView|
                keys.take(i as int).contains(e.key()) && #[trigger] before.contains_key(e),
        decreases files@.len() - i,
    {
        let ghost file = files@[i as int]@;
        let ghost done = keys.take(i as int);
        let ghost next = keys.take(i + 1);
        let ghost left_before = path_views(left@);
        let ghost map_before = map@;
        proof {
            assert(all[i as int] == file);
            assert(keys[i as int] == file.key());
            assert(all.take(i + 1).drop_last() =~= all.take(i as int));
            assert(all.take(i + 1).last() == file);
            assert(next[i as int] == file.key());
            assert(keys.contains(file.key()));
            assert(!done.contains(file.key())) by {
                if done.contains(file.key()) {
                    let j = choose|j: int| 0 <= j < done.len() && done[j] == file.key();
                    assert(keys[j] == file.key());
                }
            }
            assert forall|e: PathKey| #[trigger] next.contains(e) <==> done.contains(e) || e
                == file.key() by {
                if next.contains(e) {
                    let j = choose|j: int| 0 <= j < next.len() && next[j] == e;
                    if j < i {
                        assert(done[j] == e);
                    }
                }
                if done.contains(e) {
                    let j = choose|j: int| 0 <= j < done.len() && done[j] == e;
                    assert(next[j] == e);
                }
            }
            assert(deletion_views(map@).map.dom() =~= views.map.dom());
        }
        let found: Option<(SyncPath, u32, bool)> = match map.get(&files[i]) {
            Some(p) => {
                assert(deletion_view(*p) == deletion_views(map@)[file]);
                Some((p.mount_path.duplicate(), p.consecutive_missing_scans, p.had_healthy_scan))
            },
            None => None,
        };
        match found {
            Some((mount_path, count, seen_healthy)) => {
                proof {
                    assert(deletion_views(map@).contains_key(file));
                    assert(before.contains_key(file));
                    assert((mount_path@, count, seen_healthy) == views[file]);
                    assert(views[file] == deletion_view(before[file]));
                }
                dirty = true;
                if present.contains_key(&mount_path) {
                    let entry = PendingDeletion {
                        mount_path,
                        consecutive_missing_scans: 0,
                        had_healthy_scan: seen_healthy,
                    };
                    map.insert(files[i].duplicate(), entry);
                } else {
                    let entry = PendingDeletion {
                        mount_path,
                        consecutive_missing_scans: count + 1,
                        had_healthy_scan: seen_healthy || healthy,
                    };
                    map.insert(files[i].duplicate(), entry);
                    left.push(files[i].duplicate());
                    assert(path_views(left@) =~= left_before.push(file));
                }
            },
            None => {
                proof {
                    assert(!before.contains_key(file)) by {
                        if before.contains_key(file) {
                            assert(views.contains_key(file));
                            assert(deletion_views(map@).contains_key(file));
                        }
                    }
                }
                left.push(files[i].duplicate());
                assert(path_views(left@) =~= left_before.push(file));
            },
        }
        proof {
            let target = scanned(views, next, present@.keys(), healthy);
            let source = scanned(views, done, present@.keys(), healthy);
            assert(deletion_views(map@).map.dom() =~= target.map.dom());
            assert forall|e: PathKey| #[trigger] target.map.contains_key(e) implies deletion_views(
                map@,
            ).map[e] == target.map[e] by {
                assert(deletion_views(map_before).map[e] == source.map[e]);
                assert(next.contains(e) <==> done.contains(e) || e == file.key());
            }
            assert(deletion_views(map@).map =~= target.map);
            if before.contains_key(file) {
                assert(next.contains(file.key()));
            }
            assert(dirty == exists|e: PathView|
                next.contains(e.key()) && #[trigger] before.contains_key(e)) by {
                if exists|e: PathView| done.contains(e.key()) && #[trigger] before.contains_key(e) {
                    let e = choose|e: PathView|
                        done.contains(e.key()) && #[trigger] before.contains_key(e);
                    assert(next.contains(e.key()));
                }
            }
        }
        i += 1;
    }
    assert(all.take(all.len() as int) =~= all);
    assert(keys.take(keys.len() as int) =~= keys);
    (left, dirty)
}

/// The map with every count at zero.
pub open spec fn counts_reset(map: PathEntries<(PathView, u32, bool)>) -> PathEntries<
    (PathView, u32, bool),
> {
    map.map_values(|p: (PathView, u32, bool)| (p.0, 0u32, p.2))
}

fn reset_deletions(map: &mut PathMap<PendingDeletion>)
    requires
        old(map).wf(),
    ensures
        final(map).wf(),
        deletion_views(final(map)@) == counts_reset(deletion_views(old(map)@)),
{
    let ghost before = *map;
    proof {
        map.entries();
    }
    let ghost given = |p: PendingDeletion| deletion_view(p);
    let ghost anew = |p: PendingDeletion| (p.mount_path@, 0u32, p.had_healthy_scan);
    let mut i: usize = 0;
    while i < map.keys.len()
        invariant
            i <= map.keys@.len(),
            map.wf(),
            map.keys@ == before.keys@,
            map.values@.len() == map.keys@.len(),
            before.values@.len() == map.keys@.len(),
            given == (|p: PendingDeletion| deletion_view(p)),
            anew == (|p: PendingDeletion| (p.mount_path@, 0u32, p.had_healthy_scan)),
            forall|j: int| 0 <= j < i ==> given(#[trigger] map.values@[j]) == anew(before.values@[j]),
            forall|j: int| i <= j < map.keys@.len() ==> #[trigger] map.values@[j] == before.values@[j],
        decreases map.keys@.len() - i,
    {
        let entry = PendingDeletion {
            mount_path: map.values[i].mount_path.duplicate(),
            consecutive_missing_scans: 0,
            had_healthy_scan: map.values[i].had_healthy_scan,
        };
        map.set_at(i, entry);
        i += 1;
    }
    proof {
        mapped_alike(*map, before, given, anew);
        assert(deletion_views(map@).map =~= counts_reset(deletion_views(before@)).map);
    }
}

/// A mounted file whose encrypted form is gone, as plain values.
pub open spec fn orphan_view(p: PendingOrphan) -> (PathView, u32, bool) {
    (p.encrypted_path@, p.consecutive_missing_scans, p.had_healthy_scan)
}

/// The orphans of a map as plain values.
pub open spec fn orphan_views(map: PathEntries<PendingOrphan>) -> PathEntries<
    (PathView, u32, bool),
> {
    map.map_values(|p: PendingOrphan| orphan_view(p))
}

fn reset_orphans(map: &mut PathMap<PendingOrphan>)
    requires
        old(map).wf(),
    ensures
        final(map).wf(),
        orphan_views(final(map)@) == counts_reset(orphan_views(old(map)@)),
{
    let ghost before = *map;
    proof {
        map.entries();
    }
    let ghost given = |p: PendingOrphan| orphan_view(p);
    let ghost anew = |p: PendingOrphan| (p.encrypted_path@, 0u32, p.had_healthy_scan);
    let mut i: usize = 0;
    while i < map.keys.len()
        invariant
            i <= map.keys@.len(),
            map.wf(),
            map.keys@ == before.keys@,
            map.values@.len() == map.keys@.len(),
            before.values@.len() == map.keys@.len(),
            given == (|p: PendingOrphan| orphan_view(p)),
            anew == (|p: PendingOrphan| (p.encrypted_path@, 0u32, p.had_healthy_scan)),
            forall|j: int| 0 <= j < i ==> given(#[trigger] map.values@[j]) == anew(before.values@[j]),
            forall|j: int| i <= j < map.keys@.len() ==> #[trigger] map.values@[j] == before.values@[j],
        decreases map.keys@.len() - i,
    {
        let entry = PendingOrphan {
            encrypted_path: map.values[i].encrypted_path.duplicate(),
            consecutive_missing_scans: 0,
            had_healthy_scan: map.values[i].had_healthy_scan,
        };
        map.set_at(i, entry);
        i += 1;
    }
    proof {
        mapped_alike(*map, before, given, anew);
        assert(orphan_views(map@).map =~= counts_reset(orphan_views(before@)).map);
    }
}

impl SyncTracker {
    fn verdict_of(
        &self,
        encrypted_path: &SyncPath,
        pending: &PendingDeletion,
        encrypted_root: &SyncPath,
        mount_root: &SyncPath,
        present: &PathSet,
    ) -> (res: DeletionVerdict)
        requires
            self.wf(),
            present.wf(),
            self.work.pending_deletions@.contains_key(encrypted_path@),
            self.work.pending_deletions@[encrypted_path@] == *pending,
        ensures
            res == deletion_verdict(
                *self,
                encrypted_path@,
                encrypted_root@,
                mount_root@,
                present@.keys(),
            ),
    {
        if !encrypted_path.starts_with(encrypted_root) || !pending.mount_path.starts_with(
            mount_root,
        ) {
            return DeletionVerdict::Wait;
        }
        if self.work.pending_open_unlinked.contains_key(&pending.mount_path) {
            return DeletionVerdict::Wait;
        }
        if self.work.pending_metadata.contains_key(encrypted_path) {
            return DeletionVerdict::Wait;
        }
        if present.contains_key(&pending.mount_path) {
            return DeletionVerdict::Cancel;
        }
        if pending.consecutive_missing_scans >= self.settings.deletion_config.min_consecutive_missing_scans
            && pending.had_healthy_scan {
            DeletionVerdict::Delete
        } else {
            DeletionVerdict::Wait
        }
    }

    /// Forgets what is known of a mounted file.
    pub fn clear_decrypted_tracking(&mut self, path: &SyncPath)
        requires
            old(self).wf(),
        ensures
            final(self).wf(),
            final(self).files.decrypted_signatures@ == old(self).files.decrypted_signatures@.remove(path@),
            final(self).files.decrypted_hashes@ == old(self).files.decrypted_hashes@.remove(path@),
            final(self).files.decrypted_metadata_hashes@ == old(self).files.decrypted_metadata_hashes@.remove(
                path@,
            ),
            final(self).copies.conflict_baselines@ == old(self).copies.conflict_baselines@.remove(path@),
            final(self).copies.recovered_pending_paths@ == old(self).copies.recovered_pending_paths@.remove(
                path@,
            ),
            final(self).copies.conflict_registry_dirty == (old(self).copies.conflict_registry_dirty
                || old(self).copies.conflict_baselines@.contains_key(path@)),
            final(self).copies.recovery_registry_dirty == (old(self).copies.recovery_registry_dirty
                || old(self).copies.recovered_pending_paths@.contains_key(path@)),
            *final(self) == (SyncTracker {
                files: final(self).files,
                copies: final(self).copies,
                ..*old(self)
            }),
            final(self).files == (FileLedger {
                decrypted_signatures: final(self).files.decrypted_signatures,
                decrypted_hashes: final(self).files.decrypted_hashes,
                decrypted_metadata_hashes: final(self).files.decrypted_metadata_hashes,
                ..old(self).files
            }),
            final(self).copies == (LocalCopies {
                conflict_baselines: final(self).copies.conflict_baselines,
                recovered_pending_paths: final(self).copies.recovered_pending_paths,
                conflict_registry_dirty: final(self).copies.conflict_registry_dirty,
                recovery_registry_dirty: final(self).copies.recovery_registry_dirty,
                ..old(self).copies
            }),
    {
        self.files.decrypted_signatures.remove(path);
        self.files.decrypted_hashes.remove(path);
        self.files.decrypted_metadata_hashes.remove(path);
        if self.copies.conflict_baselines.remove(path).is_some() {
            self.copies.conflict_registry_dirty = true;
        }
        if self.copies.recovered_pending_paths.remove(path).is_some() {
            self.copies.recovery_registry_dirty = true;
        }
    }

    /// Forgets what is known of a mounted directory.
    pub fn clear_decrypted_directory_tracking(&mut self, path: &SyncPath)
        requires
            old(self).wf(),
        ensures
            final(self).wf(),
            final(self).files.decrypted_directory_signatures@ == old(self).files.decrypted_directory_signatures@.remove(path@),
            final(self).files.decrypted_directory_metadata_hashes@ == old(self).files.decrypted_directory_metadata_hashes@.remove(path@),
            *final(self) == (SyncTracker {
                files: final(self).files,
                ..*old(self)
            }),
            final(self).files == (FileLedger {
                decrypted_directory_signatures: final(self).files.decrypted_directory_signatures,
                decrypted_directory_metadata_hashes: final(
                    self).files.decrypted_directory_metadata_hashes,
                ..old(self).files
            }),
    {
        self.files.decrypted_directory_signatures.remove(path);
        self.files.decrypted_directory_metadata_hashes.remove(path);
    }

    /// Notes the digest of a mounted file's metadata.
    pub fn refresh_decrypted_metadata_hash(&mut self, path: &SyncPath, hash: Option<Digest>)
        requires
            old(self).wf(),
        ensures
            final(self).wf(),
            final(self).files.decrypted_metadata_hashes@ == digest_refreshed(
                old(self).files.decrypted_metadata_hashes@,
                path@,
                hash,
            ),
            *final(self) == (SyncTracker { files: final(self).files, ..*old(self) }),
            final(self).files == (FileLedger {
                decrypted_metadata_hashes: final(self).files.decrypted_metadata_hashes,
                ..old(self).files
            }),
    {
        refresh_digest(&mut self.files.decrypted_metadata_hashes, path, hash);
    }

    /// Notes the digest of a mounted directory's metadata.
    pub fn refresh_decrypted_directory_metadata_hash(
        &mut self,
        path: &SyncPath,
        hash: Option<Digest>,
    )
        requires
            old(self).wf(),
        ensures
            final(self).wf(),
            final(self).files.decrypted_directory_metadata_hashes@ == digest_refreshed(
                old(self).files.decrypted_directory_metadata_hashes@,
                path@,
                hash,
            ),
            *final(self) == (SyncTracker { files: final(self).files, ..*old(self) }),
            final(self).files == (FileLedger {
                decrypted_directory_metadata_hashes: final(self).files.decrypted_directory_metadata_hashes,
                ..old(self).files
            }),
    {
        refresh_digest(&mut self.files.decrypted_directory_metadata_hashes, path, hash);
    }

    /// Whether the metadata of a mounted directory was changed since it was last seen.
    pub fn is_local_mount_directory_dirty(&self, path: &SyncPath, current: Option<Digest>) -> (res:
        bool)
        requires
            self.wf(),
        ensures
            res == !digests_agree(self.files.decrypted_directory_metadata_hashes@, path@, current),
    {
        !check_digest(&self.files.decrypted_directory_metadata_hashes, path, current)
    }

    /// Whether the content of a mounted file has to be compared to tell whether it was changed.
    pub fn needs_content_check(&self, path: &SyncPath, current: FileSignature) -> (res: bool)
        requires
            self.wf(),
        ensures
            res == content_in_doubt(*self, path@, current),
    {
        match self.files.decrypted_signatures.get(path) {
            Some(stored) => stored.ctime_only_change(&current),
            None => false,
        }
    }

    /// Whether a mounted file was changed since it was last seen.
    pub fn looks_changed(
        &self,
        path: &SyncPath,
        current: FileSignature,
        content_hash: Option<Digest>,
        metadata_hash: Option<Digest>,
    ) -> (res: bool)
        requires
            self.wf(),
        ensures
            res == locally_changed(*self, path@, current, content_hash, metadata_hash),
    {
        if !self.needs_content_check(path, current) {
            return match self.files.decrypted_signatures.get(path) {
                Some(stored) => !(*stored == current),
                None => true,
            };
        }
        let metadata_same = check_digest(&self.files.decrypted_metadata_hashes, path, metadata_hash);
        let content_same = match content_hash {
            Some(h) => match self.files.decrypted_hashes.get(path) {
                Some(previous) => same_digest(previous, &h),
                None => true,
            },
            None => false,
        };
        !(content_same && metadata_same)
    }

    /// Whether a mounted file was changed since it was last seen. Where its content has to be
    /// compared, the digest of it is given, unless it could not be read, and the digests are
    /// noted.
    pub fn is_local_mount_path_dirty_with_signature(
        &mut self,
        path: &SyncPath,
        current: FileSignature,
        content_hash: Option<Digest>,
        metadata_hash: Option<Digest>,
    ) -> (res: bool)
        requires
            old(self).wf(),
        ensures
            final(self).wf(),
            res == locally_changed(*old(self), path@, current, content_hash, metadata_hash),
            final(self).files.decrypted_hashes@ == if content_in_doubt(*old(self), path@, current)
                && content_hash is Some {
                old(self).files.decrypted_hashes@.insert(path@, content_hash->0)
            } else {
                old(self).files.decrypted_hashes@
            },
            final(self).files.decrypted_metadata_hashes@ == if content_in_doubt(
                *old(self),
                path@,
                current,
            ) {
                digest_refreshed(old(self).files.decrypted_metadata_hashes@, path@, metadata_hash)
            } else {
                old(self).files.decrypted_metadata_hashes@
            },
            *final(self) == (SyncTracker {
                files: final(self).files,
                ..*old(self)
            }),
            final(self).files == (FileLedger {
                decrypted_hashes: final(self).files.decrypted_hashes,
                decrypted_metadata_hashes: final(self).files.decrypted_metadata_hashes,
                ..old(self).files
            }),
    {
        let changed = self.looks_changed(path, current, content_hash, metadata_hash);
        if !self.needs_content_check(path, current) {
            return changed;
        }
        if let Some(h) = content_hash {
            self.files.decrypted_hashes.insert(path.duplicate(), h);
        }
        refresh_digest(&mut self.files.decrypted_metadata_hashes, path, metadata_hash);
        changed
    }

    /// The encrypted files whose deletion needs more looks at the mount.
    pub fn deletions_to_verify(&self) -> (res: Vec<SyncPath>)
        requires
            self.wf(),
        ensures
            path_views(res@) == selected(
                self.work.pending_deletions.order(),
                |e: PathView|
                    self.work.pending_deletions@[e].consecutive_missing_scans
                        < self.settings.deletion_config.min_consecutive_missing_scans,
            ),
            keys_of(res@).no_duplicates(),
    {
        let ghost order = self.work.pending_deletions.order();
        let ghost few = |e: PathView|
            self.work.pending_deletions@[e].consecutive_missing_scans
                < self.settings.deletion_config.min_consecutive_missing_scans;
        let mut res: Vec<SyncPath> = Vec::new();
        let mut i: usize = 0;
        assert(path_views(res@) =~= selected(order.take(0), few));
        while i < self.work.pending_deletions.keys.len()
            invariant
                i <= self.work.pending_deletions.keys@.len(),
                self.wf(),
                order == self.work.pending_deletions.order(),
                few == (|e: PathView|
                    self.work.pending_deletions@[e].consecutive_missing_scans
                        < self.settings.deletion_config.min_consecutive_missing_scans),
                path_views(res@) == selected(order.take(i as int), few),
            decreases self.work.pending_deletions.keys@.len() - i,
        {
            let ghost before = path_views(res@);
            let ghost e = self.work.pending_deletions.keys@[i as int]@;
            proof {
                self.work.pending_deletions.entries();
                assert(order[i as int] == e);
                assert(order.take(i + 1).drop_last() =~= order.take(i as int));
                assert(order.take(i + 1).last() == e);
                assert(self.work.pending_deletions@.contains_key(e));
            }
            if self.work.pending_deletions.values[i].consecutive_missing_scans
                < self.settings.deletion_config.min_consecutive_missing_scans {
                res.push(self.work.pending_deletions.keys[i].duplicate());
                assert(path_views(res@) =~= before.push(e));
            }
            i += 1;
        }
        proof {
            self.work.pending_deletions.entries();
            assert(order.take(order.len() as int) =~= order);
            assert(view_keys(order) =~= self.work.pending_deletions.key_order());
            selected_paths_distinct(order, few);
        }
        res
    }

    /// Whether another quick look at the mount follows.
    pub fn continue_rapid_scans(&self, scan_count: u32, elapsed_ms: u128) -> (res: bool)
        ensures
            res == (scan_count < self.settings.deletion_config.min_consecutive_missing_scans && elapsed_ms
                < self.settings.deletion_config.rapid_scan_total_duration_ms),
    {
        scan_count < self.settings.deletion_config.min_consecutive_missing_scans && elapsed_ms
            < self.settings.deletion_config.rapid_scan_total_duration_ms as u128
    }

    /// One quick look at the mount: counts the deletions whose files are still missing, and
    /// gives those that are still to be watched.
    pub fn rapid_verification_scan(
        &mut self,
        files: &Vec<SyncPath>,
        present: &PathSet,
        healthy: bool,
    ) -> (res: Vec<SyncPath>)
        requires
            old(self).wf(),
            present.wf(),
            keys_of(files@).no_duplicates(),
            forall|e: PathView| #[trigger]
                old(self).work.pending_deletions@.contains_key(e) && keys_of(files@).contains(
                    e.key(),
                ) ==> old(self).work.pending_deletions@[e].consecutive_missing_scans < u32::MAX,
        ensures
            final(self).wf(),
            deletion_views(final(self).work.pending_deletions@) == scanned(
                deletion_views(old(self).work.pending_deletions@),
                keys_of(files@),
                present@.keys(),
                healthy,
            ),
            path_views(res@) == selected(
                path_views(files@),
                |f: PathView|
                    still_missing(
                        deletion_views(old(self).work.pending_deletions@),
                        present@.keys(),
                        f,
                    ),
            ),
            final(self).work.pending_deletions_dirty == (old(self).work.pending_deletions_dirty
                || exists|e: PathView|
                keys_of(files@).contains(e.key()) && #[trigger] old(
                    self,
                ).work.pending_deletions@.contains_key(e)),
            *final(self) == (SyncTracker {
                work: final(self).work,
                ..*old(self)
            }),
            final(self).work == (PendingWork {
                pending_deletions: final(self).work.pending_deletions,
                pending_deletions_dirty: final(self).work.pending_deletions_dirty,
                ..old(self).work
            }),
    {
        let (left, dirty) = scan_once(&mut self.work.pending_deletions, files, present, healthy);
        if dirty {
            self.work.pending_deletions_dirty = true;
        }
        left
    }

    /// Starts every count of deletions anew, as is done when the mount could not be read without
    /// faults.
    pub fn reset_pending_deletion_counts(&mut self)
        requires
            old(self).wf(),
        ensures
            final(self).wf(),
            deletion_views(final(self).work.pending_deletions@) == counts_reset(
                deletion_views(old(self).work.pending_deletions@),
            ),
            final(self).work.pending_deletions_dirty == (old(self).work.pending_deletions_dirty
                || old(self).work.pending_deletions@.len() > 0),
            *final(self) == (SyncTracker {
                work: final(self).work,
                ..*old(self)
            }),
            final(self).work == (PendingWork {
                pending_deletions: final(self).work.pending_deletions,
                pending_deletions_dirty: final(self).work.pending_deletions_dirty,
                ..old(self).work
            }),
    {
        if self.work.pending_deletions.is_empty() {
            assert(deletion_views(self.work.pending_deletions@).map =~= counts_reset(
                deletion_views(self.work.pending_deletions@),
            ).map);
            return;
        }
        reset_deletions(&mut self.work.pending_deletions);
        self.work.pending_deletions_dirty = true;
    }

    /// Starts every count of orphans anew.
    pub fn reset_pending_orphan_counts(&mut self)
        requires
            old(self).wf(),
        ensures
            final(self).wf(),
            orphan_views(final(self).work.pending_orphans@) == counts_reset(
                orphan_views(old(self).work.pending_orphans@),
            ),
            final(self).work.pending_orphans_dirty == (old(self).work.pending_orphans_dirty
                || old(self).work.pending_orphans@.len() > 0),
            *final(self) == (SyncTracker {
                work: final(self).work,
                ..*old(self)
            }),
            final(self).work == (PendingWork {
                pending_orphans: final(self).work.pending_orphans,
                pending_orphans_dirty: final(self).work.pending_orphans_dirty,
                ..old(self).work
            }),
    {
        if self.work.pending_orphans.is_empty() {
            assert(orphan_views(self.work.pending_orphans@).map =~= counts_reset(
                orphan_views(self.work.pending_orphans@),
            ).map);
            return;
        }
        reset_orphans(&mut self.work.pending_orphans);
        self.work.pending_orphans_dirty = true;
    }
}

impl FileLedger {
    /// Forgets what is known of the files that were mounted at the given paths.
    pub fn forget_mounts(&mut self, mounts: &PathSet)
        requires
            old(self).wf(),
            mounts.wf(),
        ensures
            final(self).wf(),
            mounts_forgotten(*old(self), *final(self), mounts@.keys()),
    {
        self.decrypted_signatures.remove_keys_of(mounts);
        self.decrypted_hashes.remove_keys_of(mounts);
        self.decrypted_metadata_hashes.remove_keys_of(mounts);
        let keep_mapping = |_e: &SyncPath, at: &SyncPath| -> (res: bool)
            requires
                mounts.wf(),
            ensures
                res == !mounts@.contains_key(at@),
            { !mounts.contains_key(at) };
        self.path_mapping.retain(
            keep_mapping,
            Ghost(|_e: PathView, at: SyncPath| !mounts@.keys().contains(at@.key())),
        );
        let keep_id = |_id: &String, at: &SyncPath| -> (res: bool)
            requires
                mounts.wf(),
            ensures
                res == !mounts@.contains_key(at@),
            { !mounts.contains_key(at) };
        self.file_id_to_mount_path.retain(
            keep_id,
            Ghost(|_id: Seq<char>, at: SyncPath| !mounts@.keys().contains(at@.key())),
        );
    }
}

/// The ledger after the files mounted at some paths were forgotten.
pub open spec fn mounts_forgotten(
    before: FileLedger,
    after: FileLedger,
    mounts: Set<PathKey>,
) -> bool {
    &&& after.decrypted_signatures@ == before.decrypted_signatures@.remove_keys(mounts)
    &&& after.decrypted_hashes@ == before.decrypted_hashes@.remove_keys(mounts)
    &&& after.decrypted_metadata_hashes@ == before.decrypted_metadata_hashes@.remove_keys(mounts)
    &&& after.path_mapping@ == filtered(
        before.path_mapping@,
        |_e: PathView, at: SyncPath| !mounts.contains(at@.key()),
    )
    &&& after.file_id_to_mount_path@ == filtered(
        before.file_id_to_mount_path@,
        |_id: Seq<char>, at: SyncPath| !mounts.contains(at@.key()),
    )
    &&& after == (FileLedger {
        decrypted_signatures: after.decrypted_signatures,
        decrypted_hashes: after.decrypted_hashes,
        decrypted_metadata_hashes: after.decrypted_metadata_hashes,
        path_mapping: after.path_mapping,
        file_id_to_mount_path: after.file_id_to_mount_path,
        ..before
    })
}

/// The copies after those at some paths were forgotten.
pub open spec fn copies_forgotten(
    before: LocalCopies,
    after: LocalCopies,
    mounts: Set<PathKey>,
) -> bool {
    &&& after.conflict_baselines@ == before.conflict_baselines@.remove_keys(mounts)
    &&& after.recovered_pending_paths@ == before.recovered_pending_paths@.remove_keys(mounts)
    &&& after.conflict_registry_dirty == (before.conflict_registry_dirty || exists|m: PathView|
        #[trigger] before.conflict_baselines@.contains_key(m) && mounts.contains(m.key()))
    &&& after.recovery_registry_dirty == (before.recovery_registry_dirty || exists|m: PathView|
        #[trigger] before.recovered_pending_paths@.contains_key(m) && mounts.contains(m.key()))
}

impl LocalCopies {
    /// Forgets the copies at the given paths.
    pub fn forget_copies(&mut self, mounts: &PathSet)
        requires
            old(self).wf(),
            mounts.wf(),
        ensures
            final(self).wf(),
            copies_forgotten(*old(self), *final(self), mounts@.keys()),
    {
        if self.conflict_baselines.meets(mounts) {
            self.conflict_registry_dirty = true;
        }
        if self.recovered_pending_paths.meets(mounts) {
            self.recovery_registry_dirty = true;
        }
        self.conflict_baselines.remove_keys_of(mounts);
        self.recovered_pending_paths.remove_keys_of(mounts);
    }
}

/// The deletions that do not wait any longer.
pub open spec fn settled_deletions(
    tracker: SyncTracker,
    encrypted_root: PathView,
    mount_root: PathView,
    present: Set<PathKey>,
) -> Set<PathKey> {
    let deletions = tracker.work.pending_deletions@.map;
    Set::new(
        |e: PathKey|
            deletions.contains_key(e) && deletion_verdict(
                tracker,
                deletions[e].0,
                encrypted_root,
                mount_root,
                present,
            ) != DeletionVerdict::Wait,
    )
}

impl SyncTracker {
    /// Which deletions are settled: the confirmed ones in order, all that do not wait any
    /// longer, and where the files of the confirmed ones were mounted.
    fn settle_deletions(
        &self,
        encrypted_root: &SyncPath,
        mount_root: &SyncPath,
        present: &PathSet,
    ) -> (res: (Vec<SyncPath>, PathSet, PathSet, PathSet))
        requires
            self.wf(),
            present.wf(),
        ensures
            res.1.wf(),
            res.2.wf(),
            res.3.wf(),
            path_views(res.0@) == confirmed_deletions(
                *self,
                encrypted_root@,
                mount_root@,
                present@.keys(),
            ),
            res.1@.keys() == settled_deletions(*self, encrypted_root@, mount_root@, present@.keys()),
            res.2@.keys() == mounted_at(self.files.path_mapping@, path_views(res.0@)),
            res.3@.keys() == keys_of(res.0@).to_set(),
    {
        let ghost order = self.work.pending_deletions.order();
        let ghost keys = self.work.pending_deletions.key_order();
        let ghost pres = present@.keys();
        let ghost gone = |e: PathView|
            deletion_verdict(*self, e, encrypted_root@, mount_root@, pres)
                == DeletionVerdict::Delete;
        let mut confirmed: Vec<SyncPath> = Vec::new();
        let mut settled: PathSet = PathSet::new();
        let mut mounts: PathSet = PathSet::new();
        let mut names: PathSet = PathSet::new();
        let mut i: usize = 0;
        proof {
            assert(path_views(confirmed@) =~= selected(order.take(0), gone));
            assert(mounts@.keys() =~= mounted_at(self.files.path_mapping@, path_views(confirmed@)));
            assert(names@.keys() =~= keys_of(confirmed@).to_set());
        }
        while i < self.work.pending_deletions.keys.len()
            invariant
                i <= self.work.pending_deletions.keys@.len(),
                self.wf(),
                present.wf(),
                settled.wf(),
                mounts.wf(),
                names.wf(),
                order == self.work.pending_deletions.order(),
                pres == present@.keys(),
                gone == (|e: PathView|
                    deletion_verdict(*self, e, encrypted_root@, mount_root@, pres)
                        == DeletionVerdict::Delete),
                path_views(confirmed@) == selected(order.take(i as int), gone),
                keys == self.work.pending_deletions.key_order(),
                forall|e: PathKey| #[trigger]
                    settled@.map.contains_key(e) <==> keys.take(i as int).contains(e)
                        && deletion_verdict(
                        *self,
                        self.work.pending_deletions@.map[e].0,
                        encrypted_root@,
                        mount_root@,
                        pres,
                    ) != DeletionVerdict::Wait,
                mounts@.keys() == mounted_at(self.files.path_mapping@, path_views(confirmed@)),
                names@.keys() == keys_of(confirmed@).to_set(),
            decreases self.work.pending_deletions.keys@.len() - i,
        {
            let ghost e = self.work.pending_deletions.keys@[i as int]@;
            let ghost done = path_views(confirmed@);
            let ghost done_keys = keys_of(confirmed@);
            let ghost seen = keys.take(i as int);
            let ghost next = keys.take(i + 1);
            proof {
                self.work.pending_deletions.entries();
                assert(order[i as int] == e);
                assert(keys[i as int] == e.key());
                assert(order.take(i + 1).drop_last() =~= order.take(i as int));
                assert(order.take(i + 1).last() == e);
                assert(self.work.pending_deletions@.contains_key(e));
                assert forall|x: PathKey| #[trigger] next.contains(x) <==> seen.contains(x) || x
                    == e.key() by {
                    if next.contains(x) {
                        let j = choose|j: int| 0 <= j < next.len() && next[j] == x;
                        if j < i {
                            assert(seen[j] == x);
                        }
                    }
                    if seen.contains(x) {
                        let j = choose|j: int| 0 <= j < seen.len() && seen[j] == x;
                        assert(next[j] == x);
                    }
                    assert(next[i as int] == e.key());
                }
                assert(!seen.contains(e.key())) by {
                    if seen.contains(e.key()) {
                        let j = choose|j: int| 0 <= j < seen.len() && seen[j] == e.key();
                        assert(keys[j] == keys[i as int]);
                    }
                }
            }
            let key = &self.work.pending_deletions.keys[i];
            let verdict = self.verdict_of(
                key,
                &self.work.pending_deletions.values[i],
                encrypted_root,
                mount_root,
                present,
            );
            match verdict {
                DeletionVerdict::Wait => {},
                DeletionVerdict::Cancel => {
                    settled.insert(key.duplicate(), ());
                },
                DeletionVerdict::Delete => {
                    settled.insert(key.duplicate(), ());
                    names.insert(key.duplicate(), ());
                    confirmed.push(key.duplicate());
                    proof {
                        assert(path_views(confirmed@) =~= done.push(e));
                    }
                    match self.files.path_mapping.get(key) {
                        Some(at) => {
                            mounts.insert(at.duplicate(), ());
                        },
                        None => {},
                    }
                    proof {
                        added_mount(self.files.path_mapping@, done, e);
                        assert(mounts@.keys() =~= mounted_at(
                            self.files.path_mapping@,
                            done.push(e),
                        ));
                        assert(keys_of(confirmed@) =~= done_keys.push(e.key()));
                        assert(names@.keys() =~= done_keys.push(e.key()).to_set()) by {
                            assert forall|x: PathKey| #[trigger]
                                done_keys.push(e.key()).contains(x) <==> done_keys.contains(x) || x
                                == e.key() by {
                                if done_keys.contains(x) {
                                    let j = choose|j: int|
                                        0 <= j < done_keys.len() && done_keys[j] == x;
                                    assert(done_keys.push(e.key())[j] == x);
                                }
                                assert(done_keys.push(e.key())[done_keys.len() as int] == e.key());
                            }
                        }
                    }
                },
            }
            i += 1;
        }
        proof {
            self.work.pending_deletions.entries();
            assert(order.take(order.len() as int) =~= order);
            assert(keys.take(keys.len() as int) =~= keys);
            assert(settled@.keys() =~= settled_deletions(
                *self,
                encrypted_root@,
                mount_root@,
                present@.keys(),
            )) by {
                assert forall|e: PathKey| #[trigger] keys.contains(e)
                    <==> self.work.pending_deletions@.map.contains_key(e) by {
                    assert(keys.to_set().contains(e) <==> keys.contains(e));
                }
            }
        }
        (confirmed, settled, mounts, names)
    }

    /// Settles the deletions: forgets those whose files are back and those that are confirmed,
    /// and gives the encrypted files of the latter, which are then to be moved to the retention
    /// folder, or removed where there is none.
    pub fn process_pending_deletions(
        &mut self,
        encrypted_root: &SyncPath,
        mount_root: &SyncPath,
        present: &PathSet,
    ) -> (res: Vec<SyncPath>)
        requires
            old(self).wf(),
            present.wf(),
        ensures
            final(self).wf(),
            path_views(res@) == confirmed_deletions(
                *old(self),
                encrypted_root@,
                mount_root@,
                present@.keys(),
            ),
            final(self).work.pending_deletions@ == old(self).work.pending_deletions@.remove_keys(
                settled_deletions(*old(self), encrypted_root@, mount_root@, present@.keys()),
            ),
            final(self).work.pending_deletions_dirty == (old(self).work.pending_deletions_dirty
                || settled_deletions(*old(self), encrypted_root@, mount_root@, present@.keys())
                != Set::<PathKey>::empty()),
            final(self).files.encrypted_signatures@ == old(
                self,
            ).files.encrypted_signatures@.remove_keys(keys_of(res@).to_set()),
            mounts_forgotten(
                old(self).files,
                FileLedger {
                    encrypted_signatures: old(self).files.encrypted_signatures,
                    ..final(self).files
                },
                mounted_at(old(self).files.path_mapping@, path_views(res@)),
            ),
            copies_forgotten(
                old(self).copies,
                final(self).copies,
                mounted_at(old(self).files.path_mapping@, path_views(res@)),
            ),
            *final(self) == (SyncTracker {
                files: final(self).files,
                work: final(self).work,
                copies: final(self).copies,
                ..*old(self)
            }),
            final(self).work == (PendingWork {
                pending_deletions: final(self).work.pending_deletions,
                pending_deletions_dirty: final(self).work.pending_deletions_dirty,
                ..old(self).work
            }),
    {
        let (confirmed, settled, mounts, names) = self.settle_deletions(
            encrypted_root,
            mount_root,
            present,
        );
        proof {
            let dom = settled@.keys();
            if settled@ == PathEntries::<()>::empty() {
                assert(dom =~= Set::empty());
            } else {
                assert(dom != Set::<PathKey>::empty()) by {
                    if dom == Set::<PathKey>::empty() {
                        assert(settled@.map =~= Map::empty());
                    }
                }
            }
        }
        if !settled.is_empty() {
            self.work.pending_deletions_dirty = true;
        }
        self.work.pending_deletions.remove_keys_of(&settled);
        self.files.forget_mounts(&mounts);
        self.files.encrypted_signatures.remove_keys_of(&names);
        self.copies.forget_copies(&mounts);
        confirmed
    }
}

/// One more encrypted file adds the path at which it is mounted.
proof fn added_mount(mapping: PathEntries<SyncPath>, encrypted: Seq<PathView>, e: PathView)
    ensures
        mounted_at(mapping, encrypted.push(e)) == if mapping.contains_key(e) {
            mounted_at(mapping, encrypted).insert(mapping[e]@.key())
        } else {
            mounted_at(mapping, encrypted)
        },
{
    let more = encrypted.push(e);
    let goal = if mapping.contains_key(e) {
        mounted_at(mapping, encrypted).insert(mapping[e]@.key())
    } else {
        mounted_at(mapping, encrypted)
    };
    assert forall|m: PathKey| #[trigger] mounted_at(mapping, more).contains(m) <==> goal.contains(
        m,
    ) by {
        if mounted_at(mapping, more).contains(m) {
            let i = choose|i: int|
                0 <= i < more.len() && mapping.contains_key(#[trigger] more[i])
                    && mapping[more[i]]@.key() == m;
            if i < encrypted.len() {
                assert(encrypted[i] == more[i]);
            }
        }
        if mounted_at(mapping, encrypted).contains(m) {
            let i = choose|i: int|
                0 <= i < encrypted.len() && mapping.contains_key(#[trigger] encrypted[i])
                    && mapping[encrypted[i]]@.key() == m;
            assert(more[i] == encrypted[i]);
        }
        assert(more[encrypted.len() as int] == e);
    }
    assert(mounted_at(mapping, more) =~= goal);
}

} // verus!
