//! Recording and clearing of what is still to be done.

use vstd::prelude::*;
use vstd::string::*;

use crate::config::opt_path;
use crate::errors::{error_message, is_low_space_error, low_space_error, opt_text, MountSyncError};
use crate::names::{collision_path, collision_safe_path, normalize_relative_path, relative_label};
use crate::path::{
    same_path, strip_prefix, PathEntries, PathKey, PathMap, PathSet, PathView, SyncPath,
    TextEntries, TextMap,
};
use crate::table::{filtered, Entries, TableKey};
use crate::text::same_text;
use crate::tracker::{
    FileLedger, PendingWork, Digest, FileMetadataData, OpenUnlinkedOwner, PendingOpenUnlinked,
    PendingRefresh, PendingWriteback, SyncTracker, UtcNanos,
};

verus! {

/// The most processes that are kept for a file which was deleted while open.
pub const MAX_OPEN_UNLINKED_OWNERS: usize = 8;

/// A text in Unicode normalization form C, as `unicode_normalization` gives it.
pub uninterp spec fn nfc_text(text: Seq<char>) -> Seq<char>;

/// A text in small letters, as `str::to_lowercase` gives it.
pub uninterp spec fn lower_text(text: Seq<char>) -> Seq<char>;

/// `unicode_normalization::UnicodeNormalization::nfc`: the text in normalization form C.
#[verifier::external_body]
fn to_nfc(text: &str) -> (res: String)
    ensures
        res@ == nfc_text(text@),
{
    unicode_normalization::UnicodeNormalization::nfc(text).collect()
}

/// `str::to_lowercase`: the text in small letters.
#[verifier::external_body]
fn to_lower(text: &str) -> (res: String)
    ensures
        res@ == lower_text(text@),
{
    text.to_lowercase()
}

/// Whether two digests are equal.
pub fn same_digest(a: &Digest, b: &Digest) -> (res: bool)
    ensures
        res == (*a == *b),
{
    let mut i: usize = 0;
    while i < 32
        invariant
            i <= 32,
            forall|k: int| 0 <= k < i ==> a@[k] == b@[k],
        decreases 32 - i,
    {
        if a[i] != b[i] {
            assert(a@[i as int] != b@[i as int]);
            return false;
        }
        i += 1;
    }
    assert(a@ =~= b@);
    assert(*a =~= *b);
    true
}

/// The message of an optional error.
pub open spec fn opt_message(err: Option<&MountSyncError>) -> Option<Seq<char>> {
    match err {
        Some(e) => Some(error_message(*e)),
        None => None,
    }
}

/// The error is one, and was caused by a full volume.
pub open spec fn opt_low_space(err: Option<&MountSyncError>) -> bool {
    match err {
        Some(e) => low_space_error(*e),
        None => false,
    }
}

/// Whether two optional texts are equal.
pub fn same_opt_text(a: &Option<String>, b: &Option<String>) -> (res: bool)
    ensures
        res == (opt_text(*a) == opt_text(*b)),
{
    match (a, b) {
        (Some(x), Some(y)) => same_text(x.as_str(), y.as_str()),
        (None, None) => true,
        _ => false,
    }
}

/// Two optional paths are the same, however they are written.
pub open spec fn same_opt(a: Option<PathView>, b: Option<PathView>) -> bool {
    match (a, b) {
        (Some(x), Some(y)) => same_path(x, y),
        (None, None) => true,
        _ => false,
    }
}

/// Whether two optional paths are the same.
pub fn same_opt_path(a: &Option<SyncPath>, b: &Option<SyncPath>) -> (res: bool)
    ensures
        res == same_opt(opt_path(*a), opt_path(*b)),
{
    match (a, b) {
        (Some(x), Some(y)) => x.same(y),
        (None, None) => true,
        _ => false,
    }
}

/// The entry of a change that is not encrypted yet.
pub open spec fn writeback_is(
    entry: PendingWriteback,
    encrypted_path: PathView,
    last_error: Option<Seq<char>>,
    low_space: bool,
    first: UtcNanos,
    last: UtcNanos,
) -> bool {
    &&& entry.encrypted_path@ == encrypted_path
    &&& opt_text(entry.last_error) == last_error
    &&& entry.low_space == low_space
    &&& entry.first_observed_at == first
    &&& entry.last_observed_at == last
}

/// The tracker with the entry of a change that is not encrypted yet.
pub open spec fn writeback_recorded(
    before: PathEntries<PendingWriteback>,
    after: PathEntries<PendingWriteback>,
    mount_path: PathView,
    encrypted_path: PathView,
    last_error: Option<Seq<char>>,
    low_space: bool,
    now: UtcNanos,
) -> bool {
    let had = before.contains_key(mount_path);
    &&& after == before.insert(mount_path, after[mount_path])
    &&& writeback_is(
        after[mount_path],
        encrypted_path,
        last_error,
        low_space,
        if had {
            before[mount_path].first_observed_at
        } else {
            now
        },
        now,
    )
}

/// To record the entry changes what is recorded.
pub open spec fn writeback_changes(
    before: PathEntries<PendingWriteback>,
    mount_path: PathView,
    encrypted_path: PathView,
    last_error: Option<Seq<char>>,
    low_space: bool,
    now: UtcNanos,
) -> bool {
    let entry = before[mount_path];
    ||| !before.contains_key(mount_path)
    ||| !same_path(entry.encrypted_path@, encrypted_path)
    ||| opt_text(entry.last_error) != last_error
    ||| entry.low_space != low_space
    ||| entry.last_observed_at != now
}

pub(crate) fn put_writeback(
    map: &mut PathMap<PendingWriteback>,
    mount_path: &SyncPath,
    encrypted_path: &SyncPath,
    last_error: Option<String>,
    low_space: bool,
    now: UtcNanos,
) -> (changed: bool)
    requires
        old(map).wf(),
    ensures
        final(map).wf(),
        writeback_recorded(
            old(map)@,
            final(map)@,
            mount_path@,
            encrypted_path@,
            opt_text(last_error),
            low_space,
            now,
        ),
        changed == writeback_changes(
            old(map)@,
            mount_path@,
            encrypted_path@,
            opt_text(last_error),
            low_space,
            now,
        ),
{
    let mut first: UtcNanos = now;
    let mut changed = true;
    if let Some(existing) = map.get(mount_path) {
        first = existing.first_observed_at;
        changed = !existing.encrypted_path.same(encrypted_path) || !same_opt_text(
            &existing.last_error,
            &last_error,
        ) || existing.low_space != low_space || existing.last_observed_at != now;
    }
    let entry = PendingWriteback {
        encrypted_path: encrypted_path.duplicate(),
        last_error,
        low_space,
        first_observed_at: first,
        last_observed_at: now,
    };
    map.insert(mount_path.duplicate(), entry);
    changed
}

/// The processes with their names.
pub open spec fn owner_views(owners: Seq<OpenUnlinkedOwner>) -> Seq<(i32, Seq<char>)> {
    owners.map_values(|o: OpenUnlinkedOwner| (o.pid, o.name@))
}

/// The first of the processes, as many as are kept.
pub open spec fn kept_owners(owners: Seq<OpenUnlinkedOwner>) -> Seq<(i32, Seq<char>)> {
    if owners.len() > MAX_OPEN_UNLINKED_OWNERS {
        owner_views(owners).take(MAX_OPEN_UNLINKED_OWNERS as int)
    } else {
        owner_views(owners)
    }
}

fn same_owners(a: &Vec<OpenUnlinkedOwner>, b: &Vec<OpenUnlinkedOwner>) -> (res: bool)
    ensures
        res == (owner_views(a@) == owner_views(b@)),
{
    if a.len() != b.len() {
        assert(owner_views(a@).len() == a@.len());
        assert(owner_views(b@).len() == b@.len());
        return false;
    }
    let mut i: usize = 0;
    while i < a.len()
        invariant
            i <= a.len() == b.len(),
            forall|k: int| 0 <= k < i ==> owner_views(a@)[k] == owner_views(b@)[k],
        decreases a.len() - i,
    {
        assert(owner_views(a@)[i as int] == (a@[i as int].pid, a@[i as int].name@));
        assert(owner_views(b@)[i as int] == (b@[i as int].pid, b@[i as int].name@));
        if a[i].pid != b[i].pid || !same_text(a[i].name.as_str(), b[i].name.as_str()) {
            return false;
        }
        i += 1;
    }
    assert(owner_views(a@) =~= owner_views(b@));
    true
}

/// The entry of a file that was deleted while open.
pub open spec fn open_unlinked_is(
    entry: PendingOpenUnlinked,
    encrypted_path: Option<PathView>,
    encrypted_version_exists: bool,
    had_unsynced_local_writeback: bool,
    owners: Seq<(i32, Seq<char>)>,
) -> bool {
    &&& opt_path(entry.encrypted_path) == encrypted_path
    &&& entry.encrypted_version_exists == encrypted_version_exists
    &&& entry.had_unsynced_local_writeback == had_unsynced_local_writeback
    &&& owner_views(entry.owners@) == owners
}

/// The tracker with the entry of a file that was deleted while open: what was known of it
/// before stays known.
pub open spec fn open_unlinked_recorded(
    before: PathEntries<PendingOpenUnlinked>,
    after: PathEntries<PendingOpenUnlinked>,
    mount_path: PathView,
    encrypted_path: Option<PathView>,
    encrypted_version_exists: bool,
    had_unsynced_local_writeback: bool,
    owners: Seq<(i32, Seq<char>)>,
    now: UtcNanos,
) -> bool {
    let had = before.contains_key(mount_path);
    let old_entry = before[mount_path];
    &&& after == before.insert(mount_path, after[mount_path])
    &&& open_unlinked_is(
        after[mount_path],
        known_path(before, mount_path, encrypted_path),
        encrypted_version_exists || (had && old_entry.encrypted_version_exists),
        had_unsynced_local_writeback || (had && old_entry.had_unsynced_local_writeback),
        owners,
    )
    &&& after[mount_path].last_seen_at == now
    &&& after[mount_path].first_seen_at == if had {
        old_entry.first_seen_at
    } else {
        now
    }
}

/// The encrypted path that is known of a file which was deleted while open.
pub open spec fn known_path(
    before: PathEntries<PendingOpenUnlinked>,
    mount_path: PathView,
    encrypted_path: Option<PathView>,
) -> Option<PathView> {
    if before.contains_key(mount_path) && encrypted_path is None {
        opt_path(before[mount_path].encrypted_path)
    } else {
        encrypted_path
    }
}

/// To record the entry changes what is recorded, beside the time.
pub open spec fn open_unlinked_changes(
    before: PathEntries<PendingOpenUnlinked>,
    mount_path: PathView,
    encrypted_path: Option<PathView>,
    encrypted_version_exists: bool,
    had_unsynced_local_writeback: bool,
    owners: Seq<(i32, Seq<char>)>,
) -> bool {
    let entry = before[mount_path];
    ||| !before.contains_key(mount_path)
    ||| !same_opt(
        opt_path(entry.encrypted_path),
        known_path(before, mount_path, encrypted_path),
    )
    ||| encrypted_version_exists && !entry.encrypted_version_exists
    ||| had_unsynced_local_writeback && !entry.had_unsynced_local_writeback
    ||| owner_views(entry.owners@) != owners
}

pub(crate) fn put_open_unlinked(
    map: &mut PathMap<PendingOpenUnlinked>,
    mount_path: &SyncPath,
    encrypted_path: Option<SyncPath>,
    encrypted_version_exists: bool,
    had_unsynced_local_writeback: bool,
    owners: Vec<OpenUnlinkedOwner>,
    now: UtcNanos,
) -> (changed: bool)
    requires
        old(map).wf(),
    ensures
        final(map).wf(),
        open_unlinked_recorded(
            old(map)@,
            final(map)@,
            mount_path@,
            opt_path(encrypted_path),
            encrypted_version_exists,
            had_unsynced_local_writeback,
            owner_views(owners@),
            now,
        ),
        changed == open_unlinked_changes(
            old(map)@,
            mount_path@,
            opt_path(encrypted_path),
            encrypted_version_exists,
            had_unsynced_local_writeback,
            owner_views(owners@),
        ),
{
    let mut path = encrypted_path;
    let mut version = encrypted_version_exists;
    let mut unsynced = had_unsynced_local_writeback;
    let mut first: UtcNanos = now;
    let mut changed = true;
    if let Some(existing) = map.get(mount_path) {
        if path.is_none() {
            path = crate::config::copy_opt_path(&existing.encrypted_path);
        }
        version = version || existing.encrypted_version_exists;
        unsynced = unsynced || existing.had_unsynced_local_writeback;
        first = existing.first_seen_at;
        let same = same_opt_path(&existing.encrypted_path, &path)
            && existing.encrypted_version_exists == version
            && existing.had_unsynced_local_writeback == unsynced && same_owners(
            &existing.owners,
            &owners,
        );
        changed = !same;
    }
    let entry = PendingOpenUnlinked {
        encrypted_path: path,
        encrypted_version_exists: version,
        had_unsynced_local_writeback: unsynced,
        first_seen_at: first,
        last_seen_at: now,
        owners,
    };
    map.insert(mount_path.duplicate(), entry);
    changed
}

pub(crate) fn keep_owners(owners: Vec<OpenUnlinkedOwner>) -> (res: Vec<OpenUnlinkedOwner>)
    ensures
        owner_views(res@) == kept_owners(owners@),
{
    let ghost given = owners@;
    let mut owners = owners;
    if owners.len() > MAX_OPEN_UNLINKED_OWNERS {
        owners.truncate(MAX_OPEN_UNLINKED_OWNERS);
        assert(owner_views(owners@) =~= owner_views(given).take(MAX_OPEN_UNLINKED_OWNERS as int));
    }
    owners
}

/// How a path under the mount compares with others, without regard to case or to the way its
/// characters are composed.
pub open spec fn collision_key(mount_root: PathView, path: PathView) -> Option<Seq<char>> {
    match strip_prefix(path, mount_root) {
        Some(relative) => Some(lower_text(nfc_text(relative_label(relative)))),
        None => None,
    }
}

/// How a path under the mount compares with others.
pub fn mount_collision_key(mount_root: &SyncPath, path: &SyncPath) -> (res: Option<String>)
    ensures
        match res {
            Some(key) => collision_key(mount_root@, path@) == Some(key@),
            None => collision_key(mount_root@, path@) is None,
        },
{
    match path.strip_prefix(mount_root) {
        Some(relative) => {
            let label = normalize_relative_path(&relative);
            let composed = to_nfc(label.as_str());
            Some(to_lower(composed.as_str()))
        },
        None => None,
    }
}

/// The paths that a map holds.
pub open spec fn path_values<K: TableKey>(entries: Entries<K, SyncPath>) -> Entries<K, PathView> {
    entries.map_values(|p: SyncPath| p@)
}

/// For each key the first of the paths that is there and has it.
pub open spec fn collision_index(
    mount_root: PathView,
    paths: Seq<SyncPath>,
    present: Set<PathKey>,
) -> TextEntries<PathView>
    decreases paths.len(),
{
    if paths.len() == 0 {
        TextEntries::<PathView>::empty()
    } else {
        let front = collision_index(mount_root, paths.drop_last(), present);
        let path = paths.last();
        match collision_key(mount_root, path@) {
            Some(key) => if present.contains(path@.key()) && !front.contains_key(key) {
                front.insert(key, path@)
            } else {
                front
            },
            None => front,
        }
    }
}

/// The mounted paths that are tracked, those of files with a signature first.
pub open spec fn tracked_paths(tracker: SyncTracker) -> Seq<SyncPath> {
    tracker.files.decrypted_signatures.keys@ + tracker.files.file_id_to_mount_path.values@
}

/// Where a file goes whose path another file may have, and the index after that.
pub open spec fn collision_resolved(
    index: TextEntries<PathView>,
    mount_root: PathView,
    target: PathView,
    file_id: Seq<char>,
    target_exists: bool,
    target_file_id: Option<Seq<char>>,
) -> (PathView, TextEntries<PathView>) {
    match collision_key(mount_root, target) {
        None => (target, index),
        Some(key) => {
            let other = collision_path(target, file_id);
            let other_key = match collision_key(mount_root, other) {
                Some(k) => k,
                None => key,
            };
            if target_exists {
                if target_file_id == Some(file_id) {
                    (
                        target,
                        if index.contains_key(key) {
                            index
                        } else {
                            index.insert(key, target)
                        },
                    )
                } else {
                    (other, index.insert(other_key, other))
                }
            } else if index.contains_key(key) && !same_path(index[key], target) {
                (other, index.insert(other_key, other))
            } else {
                (target, index.insert(key, target))
            }
        },
    }
}

fn path_insert(map: &mut TextMap<SyncPath>, key: String, path: SyncPath)
    requires
        old(map).wf(),
    ensures
        final(map).wf(),
        path_values(final(map)@) == path_values(old(map)@).insert(key@, path@),
{
    map.insert(key, path);
    assert(path_values(map@).map =~= path_values(old(map)@).insert(key@, path@).map);
}

impl SyncTracker {
    /// Notes a change of a mounted file that is not encrypted yet, and why.
    pub fn record_pending_writeback(
        &mut self,
        mount_path: &SyncPath,
        encrypted_path: &SyncPath,
        err: Option<&MountSyncError>,
        now: UtcNanos,
    )
        requires
            old(self).wf(),
        ensures
            final(self).wf(),
            writeback_recorded(
                old(self).work.pending_writebacks@,
                final(self).work.pending_writebacks@,
                mount_path@,
                encrypted_path@,
                opt_message(err),
                opt_low_space(err),
                now,
            ),
            final(self).work.pending_writebacks_dirty == (old(self).work.pending_writebacks_dirty
                || writeback_changes(
                old(self).work.pending_writebacks@,
                mount_path@,
                encrypted_path@,
                opt_message(err),
                opt_low_space(err),
                now,
            )),
            *final(self) == (SyncTracker {
                work: final(self).work,
                ..*old(self)
            }),
            final(self).work == (PendingWork {
                pending_writebacks: final(self).work.pending_writebacks,
                pending_writebacks_dirty: final(self).work.pending_writebacks_dirty,
                ..old(self).work
            }),
    {
        let last_error: Option<String> = match err {
            Some(e) => Some(e.message()),
            None => None,
        };
        let low_space = match err {
            Some(e) => is_low_space_error(e),
            None => false,
        };
        if put_writeback(
            &mut self.work.pending_writebacks,
            mount_path,
            encrypted_path,
            last_error,
            low_space,
            now,
        ) {
            self.work.pending_writebacks_dirty = true;
        }
    }

    /// Forgets a change of a mounted file that was not encrypted.
    pub fn clear_pending_writeback(&mut self, mount_path: &SyncPath)
        requires
            old(self).wf(),
        ensures
            final(self).wf(),
            final(self).work.pending_writebacks@ == old(self).work.pending_writebacks@.remove(mount_path@),
            final(self).work.pending_writebacks_dirty == (old(self).work.pending_writebacks_dirty || old(
                self,
            ).work.pending_writebacks@.contains_key(mount_path@)),
            *final(self) == (SyncTracker {
                work: final(self).work,
                ..*old(self)
            }),
            final(self).work == (PendingWork {
                pending_writebacks: final(self).work.pending_writebacks,
                pending_writebacks_dirty: final(self).work.pending_writebacks_dirty,
                ..old(self).work
            }),
    {
        if self.work.pending_writebacks.remove(mount_path).is_some() {
            self.work.pending_writebacks_dirty = true;
        }
    }

    /// Notes a change of an encrypted file that is not decrypted yet, and why.
    pub fn record_pending_refresh(
        &mut self,
        mount_path: &SyncPath,
        encrypted_path: &SyncPath,
        err: &MountSyncError,
    )
        requires
            old(self).wf(),
        ensures
            final(self).wf(),
            final(self).work.pending_refreshes@ == old(self).work.pending_refreshes@.insert(
                mount_path@,
                final(self).work.pending_refreshes@[mount_path@],
            ),
            final(self).work.pending_refreshes@[mount_path@].encrypted_path@ == encrypted_path@,
            opt_text(final(self).work.pending_refreshes@[mount_path@].last_error) == Some(
                error_message(*err),
            ),
            final(self).work.pending_refreshes_dirty == ({
                let had = old(self).work.pending_refreshes@.contains_key(mount_path@);
                let entry = old(self).work.pending_refreshes@[mount_path@];
                old(self).work.pending_refreshes_dirty || !had || !same_path(
                    entry.encrypted_path@,
                    encrypted_path@,
                ) || opt_text(entry.last_error) != Some(error_message(*err))
            }),
            *final(self) == (SyncTracker {
                work: final(self).work,
                ..*old(self)
            }),
            final(self).work == (PendingWork {
                pending_refreshes: final(self).work.pending_refreshes,
                pending_refreshes_dirty: final(self).work.pending_refreshes_dirty,
                ..old(self).work
            }),
    {
        let last_error: Option<String> = Some(err.message());
        let mut changed = true;
        if let Some(existing) = self.work.pending_refreshes.get(mount_path) {
            changed = !existing.encrypted_path.same(encrypted_path) || !same_opt_text(
                &existing.last_error,
                &last_error,
            );
        }
        let entry = PendingRefresh { encrypted_path: encrypted_path.duplicate(), last_error };
        self.work.pending_refreshes.insert(mount_path.duplicate(), entry);
        if changed {
            self.work.pending_refreshes_dirty = true;
        }
    }

    /// Forgets a change of an encrypted file that was not decrypted.
    pub fn clear_pending_refresh(&mut self, mount_path: &SyncPath)
        requires
            old(self).wf(),
        ensures
            final(self).wf(),
            final(self).work.pending_refreshes@ == old(self).work.pending_refreshes@.remove(mount_path@),
            final(self).work.pending_refreshes_dirty == (old(self).work.pending_refreshes_dirty || old(
                self,
            ).work.pending_refreshes@.contains_key(mount_path@)),
            *final(self) == (SyncTracker {
                work: final(self).work,
                ..*old(self)
            }),
            final(self).work == (PendingWork {
                pending_refreshes: final(self).work.pending_refreshes,
                pending_refreshes_dirty: final(self).work.pending_refreshes_dirty,
                ..old(self).work
            }),
    {
        if self.work.pending_refreshes.remove(mount_path).is_some() {
            self.work.pending_refreshes_dirty = true;
        }
    }

    /// Notes metadata that is still to be stored.
    pub fn record_pending_metadata(&mut self, encrypted_path: &SyncPath, metadata: FileMetadataData)
        requires
            old(self).wf(),
        ensures
            final(self).wf(),
            final(self).work.pending_metadata@ == old(self).work.pending_metadata@.insert(
                encrypted_path@,
                metadata,
            ),
            final(self).work.pending_metadata_dirty,
            *final(self) == (SyncTracker {
                work: final(self).work,
                ..*old(self)
            }),
            final(self).work == (PendingWork {
                pending_metadata: final(self).work.pending_metadata,
                pending_metadata_dirty: final(self).work.pending_metadata_dirty,
                ..old(self).work
            }),
    {
        self.work.pending_metadata.insert(encrypted_path.duplicate(), metadata);
        self.work.pending_metadata_dirty = true;
    }

    /// Forgets metadata that was still to be stored.
    pub fn clear_pending_metadata(&mut self, encrypted_path: &SyncPath)
        requires
            old(self).wf(),
        ensures
            final(self).wf(),
            final(self).work.pending_metadata@ == old(self).work.pending_metadata@.remove(encrypted_path@),
            final(self).work.pending_metadata_dirty == (old(self).work.pending_metadata_dirty || old(
                self,
            ).work.pending_metadata@.contains_key(encrypted_path@)),
            *final(self) == (SyncTracker {
                work: final(self).work,
                ..*old(self)
            }),
            final(self).work == (PendingWork {
                pending_metadata: final(self).work.pending_metadata,
                pending_metadata_dirty: final(self).work.pending_metadata_dirty,
                ..old(self).work
            }),
    {
        if self.work.pending_metadata.remove(encrypted_path).is_some() {
            self.work.pending_metadata_dirty = true;
        }
    }

    /// Notes a file that was deleted while open.
    pub fn record_pending_open_unlinked(
        &mut self,
        mount_path: &SyncPath,
        encrypted_path: Option<SyncPath>,
        encrypted_version_exists: bool,
        had_unsynced_local_writeback: bool,
        owners: Vec<OpenUnlinkedOwner>,
        now: UtcNanos,
    )
        requires
            old(self).wf(),
        ensures
            final(self).wf(),
            open_unlinked_recorded(
                old(self).work.pending_open_unlinked@,
                final(self).work.pending_open_unlinked@,
                mount_path@,
                opt_path(encrypted_path),
                encrypted_version_exists,
                had_unsynced_local_writeback,
                kept_owners(owners@),
                now,
            ),
            final(self).work.pending_open_unlinked_dirty == (old(self).work.pending_open_unlinked_dirty
                || open_unlinked_changes(
                old(self).work.pending_open_unlinked@,
                mount_path@,
                opt_path(encrypted_path),
                encrypted_version_exists,
                had_unsynced_local_writeback,
                kept_owners(owners@),
            )),
            *final(self) == (SyncTracker {
                work: final(self).work,
                ..*old(self)
            }),
            final(self).work == (PendingWork {
                pending_open_unlinked: final(self).work.pending_open_unlinked,
                pending_open_unlinked_dirty: final(self).work.pending_open_unlinked_dirty,
                ..old(self).work
            }),
    {
        let owners = keep_owners(owners);
        if put_open_unlinked(
            &mut self.work.pending_open_unlinked,
            mount_path,
            encrypted_path,
            encrypted_version_exists,
            had_unsynced_local_writeback,
            owners,
            now,
        ) {
            self.work.pending_open_unlinked_dirty = true;
        }
    }

    /// Forgets a file that was deleted while open.
    pub fn clear_pending_open_unlinked_entry(&mut self, mount_path: &SyncPath)
        requires
            old(self).wf(),
        ensures
            final(self).wf(),
            final(self).work.pending_open_unlinked@ == old(self).work.pending_open_unlinked@.remove(
                mount_path@,
            ),
            final(self).work.pending_open_unlinked_dirty == (old(self).work.pending_open_unlinked_dirty
                || old(self).work.pending_open_unlinked@.contains_key(mount_path@)),
            *final(self) == (SyncTracker {
                work: final(self).work,
                ..*old(self)
            }),
            final(self).work == (PendingWork {
                pending_open_unlinked: final(self).work.pending_open_unlinked,
                pending_open_unlinked_dirty: final(self).work.pending_open_unlinked_dirty,
                ..old(self).work
            }),
    {
        if self.work.pending_open_unlinked.remove(mount_path).is_some() {
            self.work.pending_open_unlinked_dirty = true;
        }
    }

    /// Forgets which files were mounted at a path.
    pub fn forget_file_ids_at(&mut self, mount_path: &SyncPath)
        requires
            old(self).wf(),
        ensures
            final(self).wf(),
            final(self).files.file_id_to_mount_path@ == filtered(
                old(self).files.file_id_to_mount_path@,
                |_id: Seq<char>, at: SyncPath| !same_path(at@, mount_path@),
            ),
            *final(self) == (SyncTracker { files: final(self).files, ..*old(self) }),
            final(self).files == (FileLedger {
                file_id_to_mount_path: final(self).files.file_id_to_mount_path,
                ..old(self).files
            }),
    {
        let keep = |_id: &String, at: &SyncPath| -> (res: bool)
            ensures
                res == !same_path(at@, mount_path@),
            { !at.same(mount_path) };
        self.files.file_id_to_mount_path.retain(
            keep,
            Ghost(|_id: Seq<char>, at: SyncPath| !same_path(at@, mount_path@)),
        );
    }

    /// Builds the index of the names in the mount anew, from the tracked paths that are there.
    pub fn rebuild_mount_collision_index(&mut self, mount_root: &SyncPath, present: &PathSet)
        requires
            old(self).wf(),
            present.wf(),
        ensures
            final(self).wf(),
            path_values(final(self).files.mount_collision_keys@) == collision_index(
                mount_root@,
                tracked_paths(*old(self)),
                present@.keys(),
            ),
            *final(self) == (SyncTracker { files: final(self).files, ..*old(self) }),
            final(self).files == (FileLedger {
                mount_collision_keys: final(self).files.mount_collision_keys,
                ..old(self).files
            }),
    {
        let ghost all = tracked_paths(*self);
        let ghost files = self.files.decrypted_signatures.keys@;
        let mut index: TextMap<SyncPath> = TextMap::new();
        let n: usize = self.files.decrypted_signatures.keys.len();
        let mut i: usize = 0;
        assert(path_values(index@).map =~= collision_index(mount_root@, all.take(0), present@.keys()).map);
        while i < n
            invariant
                i <= n,
                n == self.files.decrypted_signatures.keys@.len(),
                all == tracked_paths(*self),
                files == self.files.decrypted_signatures.keys@,
                present.wf(),
                index.wf(),
                path_values(index@) == collision_index(
                    mount_root@,
                    all.take(i as int),
                    present@.keys(),
                ),
            decreases n - i,
        {
            proof {
                assert(all.take(i + 1).drop_last() =~= all.take(i as int));
                assert(all.take(i + 1).last() == files[i as int]);
            }
            add_to_index(&mut index, mount_root, &self.files.decrypted_signatures.keys[i], present);
            i += 1;
        }
        let m: usize = self.files.file_id_to_mount_path.values.len();
        let mut j: usize = 0;
        while j < m
            invariant
                j <= m,
                m == self.files.file_id_to_mount_path.values@.len(),
                n == files.len(),
                all == tracked_paths(*self),
                files == self.files.decrypted_signatures.keys@,
                present.wf(),
                index.wf(),
                path_values(index@) == collision_index(
                    mount_root@,
                    all.take(n + j),
                    present@.keys(),
                ),
            decreases m - j,
        {
            proof {
                assert(all.take(n + j + 1).drop_last() =~= all.take(n + j));
                assert(all.take(n + j + 1).last()
                    == self.files.file_id_to_mount_path.values@[j as int]);
            }
            add_to_index(&mut index, mount_root, &self.files.file_id_to_mount_path.values[j], present);
            j += 1;
        }
        assert(all.take(n + m) =~= all);
        self.files.mount_collision_keys = index;
    }

    /// Where a file goes whose path another file may have. Whether there is a file at that path
    /// already, and its identifier, is given.
    pub fn resolve_mount_collision_target(
        &mut self,
        mount_root: &SyncPath,
        target: &SyncPath,
        file_id: &str,
        target_exists: bool,
        target_file_id: &Option<String>,
    ) -> (res: SyncPath)
        requires
            old(self).wf(),
        ensures
            final(self).wf(),
            (res@, path_values(final(self).files.mount_collision_keys@)) == collision_resolved(
                path_values(old(self).files.mount_collision_keys@),
                mount_root@,
                target@,
                file_id@,
                target_exists,
                opt_text(*target_file_id),
            ),
            *final(self) == (SyncTracker { files: final(self).files, ..*old(self) }),
            final(self).files == (FileLedger {
                mount_collision_keys: final(self).files.mount_collision_keys,
                ..old(self).files
            }),
    {
        resolve_in_index(
            &mut self.files.mount_collision_keys,
            mount_root,
            target,
            file_id,
            target_exists,
            target_file_id,
        )
    }
}

fn resolve_in_index(
    index: &mut TextMap<SyncPath>,
    mount_root: &SyncPath,
    target: &SyncPath,
    file_id: &str,
    target_exists: bool,
    target_file_id: &Option<String>,
) -> (res: SyncPath)
    requires
        old(index).wf(),
    ensures
        final(index).wf(),
        (res@, path_values(final(index)@)) == collision_resolved(
            path_values(old(index)@),
            mount_root@,
            target@,
            file_id@,
            target_exists,
            opt_text(*target_file_id),
        ),
{
    let key = match mount_collision_key(mount_root, target) {
        Some(key) => key,
        None => {
            return target.duplicate();
        },
    };
    if target_exists {
        let same_file = match target_file_id {
            Some(id) => same_text(id.as_str(), file_id),
            None => false,
        };
        if same_file {
            if !index.contains_key(&key) {
                path_insert(index, key, target.duplicate());
            }
            return target.duplicate();
        }
    } else {
        let taken = match index.get(&key) {
            Some(existing) => !existing.same(target),
            None => false,
        };
        if !taken {
            path_insert(index, key, target.duplicate());
            return target.duplicate();
        }
    }
    let resolved = collision_safe_path(target, file_id);
    let resolved_key = match mount_collision_key(mount_root, &resolved) {
        Some(k) => k,
        None => key,
    };
    path_insert(index, resolved_key, resolved.duplicate());
    resolved
}

fn add_to_index(
    index: &mut TextMap<SyncPath>,
    mount_root: &SyncPath,
    path: &SyncPath,
    present: &PathSet,
)
    requires
        old(index).wf(),
        present.wf(),
    ensures
        final(index).wf(),
        path_values(final(index)@) == match collision_key(mount_root@, path@) {
            Some(key) => if present@.contains_key(path@) && !path_values(
                old(index)@,
            ).contains_key(key) {
                path_values(old(index)@).insert(key, path@)
            } else {
                path_values(old(index)@)
            },
            None => path_values(old(index)@),
        },
{
    if present.contains_key(path) {
        if let Some(key) = mount_collision_key(mount_root, path) {
            if !index.contains_key(&key) {
                path_insert(index, key, path.duplicate());
            }
        }
    }
}

} // verus!
