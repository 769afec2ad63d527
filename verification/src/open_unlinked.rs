//! Files that were deleted from the mount while a process has them open.

use vstd::prelude::*;
use vstd::string::*;

use crate::config::{copy_opt_path, opt_path};
use crate::decrypt::{lacks_room, plus_overhead};
use crate::deletion::{digest_refreshed, refresh_digest};
use crate::errors::{is_format, is_low_space_error, low_space_error, opt_text, MountSyncError};
use crate::local_only::{conflict_path_for, has_marker, is_conflict_file, local_copy_path};
use crate::names::{encrypted_path_for, encrypted_target};
use crate::path::{
    join, same_path, starts_with, strip_prefix, view_keys, PathEntries, PathKey, PathSet, PathView,
    SyncPath,
};
use crate::pending::{
    keep_owners, kept_owners, put_open_unlinked, open_unlinked_changes, open_unlinked_recorded,
    owner_views, MAX_OPEN_UNLINKED_OWNERS,
};
use crate::space::{
    budget_message, ensure_space_budget, low_space_readonly_error, readonly_message,
    LOW_SPACE_ATOMIC_WRITE_OVERHEAD_BYTES, LOW_SPACE_WARNING_RESERVE_BYTES,
};
use crate::table::selected;
use crate::text::concat3;
use crate::tracker::{
    path_views, Digest, FileLedger, FileSignature, HeldBack, OpenUnlinkedOwner, PendingDeletion,
    PendingWork, SyncTracker, UtcNanos,
};

verus! {

/// The mounted path of a file that a process has open, where it is in the mount, whether the
/// process knows the mount by its own path or by the one that it stands for.
pub open spec fn mounted_path_of(
    observed: PathView,
    mount_root: PathView,
    canonical_root: Option<PathView>,
) -> Option<PathView> {
    if starts_with(observed, mount_root) {
        Some(observed)
    } else {
        match canonical_root {
            Some(canonical) => match strip_prefix(observed, canonical) {
                Some(relative) => Some(join(mount_root, relative)),
                None => None,
            },
            None => None,
        }
    }
}

/// The mounted path of a file that a process has open.
pub fn deleted_open_candidate_path(
    observed: &SyncPath,
    mount_root: &SyncPath,
    canonical_root: &Option<SyncPath>,
) -> (res: Option<SyncPath>)
    ensures
        opt_path(res) == mounted_path_of(observed@, mount_root@, opt_path(*canonical_root)),
{
    if observed.starts_with(mount_root) {
        return Some(observed.duplicate());
    }
    match canonical_root {
        Some(canonical) => match observed.strip_prefix(canonical) {
            Some(relative) => Some(mount_root.join(&relative)),
            None => None,
        },
        None => None,
    }
}

/// The processes with one more, unless it is among them or they are as many as are kept.
pub open spec fn owner_added(owners: Seq<(i32, Seq<char>)>, owner: (i32, Seq<char>)) -> Seq<
    (i32, Seq<char>),
> {
    if owners.len() < MAX_OPEN_UNLINKED_OWNERS && forall|i: int|
        0 <= i < owners.len() ==> (#[trigger] owners[i]).0 != owner.0 {
        owners.push(owner)
    } else {
        owners
    }
}

/// Adds a process to those that have a file open.
pub fn add_owner(owners: &mut Vec<OpenUnlinkedOwner>, owner: OpenUnlinkedOwner)
    ensures
        owner_views(final(owners)@) == owner_added(
            owner_views(old(owners)@),
            (owner.pid, owner.name@),
        ),
{
    let ghost before = owner_views(owners@);
    let ghost added = (owner.pid, owner.name@);
    let mut i: usize = 0;
    while i < owners.len()
        invariant
            i <= owners@.len(),
            before == owner_views(owners@),
            owners@ == old(owners)@,
            added == (owner.pid, owner.name@),
            forall|k: int| 0 <= k < i ==> (#[trigger] before[k]).0 != owner.pid,
        decreases owners@.len() - i,
    {
        assert(before[i as int] == (owners@[i as int].pid, owners@[i as int].name@));
        if owners[i].pid == owner.pid {
            return;
        }
        i += 1;
    }
    if owners.len() < MAX_OPEN_UNLINKED_OWNERS {
        owners.push(owner);
        assert(owner_views(owners@) =~= before.push(added));
    }
}

/// A path that is gone from the mount.
pub open spec fn is_gone(path: PathView, mount_root: PathView, present: Set<PathKey>) -> bool {
    !present.contains(path.key()) && starts_with(path, mount_root)
}

/// A set with some more paths.
pub open spec fn with_paths(found: PathEntries<()>, paths: Seq<PathView>) -> PathEntries<()>
    decreases paths.len(),
{
    if paths.len() == 0 {
        found
    } else {
        with_paths(found, paths.drop_last()).insert(paths.last(), ())
    }
}

/// Which paths are gone from the mount.
pub open spec fn gone_from(
    mount_root: PathView,
    present: Set<PathKey>,
    skip_conflicts: bool,
) -> spec_fn(PathView) -> bool {
    |p: PathView|
        !(skip_conflicts && has_marker(p, "conflict"@)) && is_gone(p, mount_root, present)
}

/// The files whose deletion is being confirmed, in order.
pub open spec fn deleted_mounts(deletions: Seq<PendingDeletion>) -> Seq<PathView> {
    deletions.map_values(|d: PendingDeletion| d.mount_path@)
}

/// The paths that are looked for among the files which processes have open: those that are known
/// and gone.
pub open spec fn probed(
    tracker: SyncTracker,
    mount_root: PathView,
    present: Set<PathKey>,
) -> Seq<PathView> {
    selected(
        tracker.files.decrypted_signatures.order(),
        gone_from(mount_root, present, true),
    ) + selected(tracker.work.pending_writebacks.order(), gone_from(mount_root, present, false))
        + selected(
        deleted_mounts(tracker.work.pending_deletions.values@),
        gone_from(mount_root, present, false),
    ) + tracker.work.pending_open_unlinked.order()
}

proof fn paths_in_two_parts(found: PathEntries<()>, first: Seq<PathView>, then: Seq<PathView>)
    ensures
        with_paths(with_paths(found, first), then) == with_paths(found, first + then),
    decreases then.len(),
{
    if then.len() == 0 {
        assert(first + then =~= first);
    } else {
        paths_in_two_parts(found, first, then.drop_last());
        assert((first + then).drop_last() =~= first + then.drop_last());
    }
}

/// A set has a path more exactly if one of the paths that were added is the same.
pub proof fn added_paths_are_there(found: PathEntries<()>, paths: Seq<PathView>, p: PathView)
    ensures
        with_paths(found, paths).contains_key(p) <==> found.contains_key(p) || view_keys(
            paths,
        ).contains(p.key()),
    decreases paths.len(),
{
    let keys = view_keys(paths);
    if paths.len() > 0 {
        let front = paths.drop_last();
        added_paths_are_there(found, front, p);
        assert(keys =~= view_keys(front).push(paths.last().key()));
        if view_keys(front).contains(p.key()) {
            let i = choose|i: int| 0 <= i < front.len() && view_keys(front)[i] == p.key();
            assert(keys[i] == p.key());
        }
        if same_path(paths.last(), p) {
            assert(keys[paths.len() - 1] == p.key());
        }
        if keys.contains(p.key()) {
            let i = choose|i: int| 0 <= i < keys.len() && keys[i] == p.key();
            if i < front.len() {
                assert(view_keys(front)[i] == p.key());
            }
        }
    }
}

fn add_gone(
    found: &mut PathSet,
    paths: &Vec<SyncPath>,
    mount_root: &SyncPath,
    present: &PathSet,
    skip_conflicts: bool,
)
    requires
        old(found).wf(),
        present.wf(),
    ensures
        final(found).wf(),
        final(found)@ == with_paths(
            old(found)@,
            selected(path_views(paths@), gone_from(mount_root@, present@.keys(), skip_conflicts)),
        ),
{
    let ghost before = found@;
    let ghost all = path_views(paths@);
    let ghost gone = gone_from(mount_root@, present@.keys(), skip_conflicts);
    let mut i: usize = 0;
    while i < paths.len()
        invariant
            i <= paths@.len(),
            found.wf(),
            present.wf(),
            all == path_views(paths@),
            gone == gone_from(mount_root@, present@.keys(), skip_conflicts),
            found@ == with_paths(before, selected(all.take(i as int), gone)),
        decreases paths@.len() - i,
    {
        let path = &paths[i];
        proof {
            assert(all.take(i + 1).drop_last() =~= all.take(i as int));
            assert(all.take(i + 1).last() == path@);
            let front = selected(all.take(i as int), gone);
            assert(front.push(path@).drop_last() =~= front);
        }
        if !(skip_conflicts && is_conflict_file(path)) && !present.contains_key(path)
            && path.starts_with(mount_root) {
            found.insert(path.duplicate(), ());
        }
        i += 1;
    }
    assert(all.take(all.len() as int) =~= all);
}

fn mounts_of(deletions: &Vec<PendingDeletion>) -> (res: Vec<SyncPath>)
    ensures
        path_views(res@) == deleted_mounts(deletions@),
{
    let mut res: Vec<SyncPath> = Vec::new();
    let mut i: usize = 0;
    assert(path_views(res@) =~= deleted_mounts(deletions@.take(0)));
    while i < deletions.len()
        invariant
            i <= deletions@.len(),
            path_views(res@) == deleted_mounts(deletions@.take(i as int)),
        decreases deletions@.len() - i,
    {
        let ghost before = path_views(res@);
        res.push(deletions[i].mount_path.duplicate());
        assert(path_views(res@) =~= before.push(deletions@[i as int].mount_path@));
        assert(deleted_mounts(deletions@.take(i + 1)) =~= deleted_mounts(
            deletions@.take(i as int),
        ).push(deletions@[i as int].mount_path@));
        i += 1;
    }
    assert(deletions@.take(deletions@.len() as int) =~= deletions@);
    res
}

/// What becomes of a file that was deleted while open.
#[derive(Debug, Clone, Copy, PartialEq, Eq, Structural)]
pub enum OpenStep {
    /// It is back.
    Back,
    /// A process still has it open.
    StillOpen,
    /// It was closed, and its encrypted form is not known.
    Unknown,
    /// It was closed, and its encrypted form is gone.
    Lost,
    /// It was closed, and never had an encrypted form.
    NeverEncrypted,
    /// It was closed, and its encrypted form is brought back as a conflict copy.
    Recover,
}

/// What becomes of a file that was deleted while open.
pub open spec fn open_step(
    tracker: SyncTracker,
    path: PathView,
    observed: bool,
    present: Set<PathKey>,
) -> OpenStep {
    let entry = tracker.work.pending_open_unlinked@[path];
    if present.contains(path.key()) {
        OpenStep::Back
    } else if observed {
        OpenStep::StillOpen
    } else if !entry.encrypted_version_exists {
        OpenStep::NeverEncrypted
    } else {
        match entry.encrypted_path {
            None => OpenStep::Unknown,
            Some(encrypted) => if present.contains(encrypted@.key()) {
                OpenStep::Recover
            } else {
                OpenStep::Lost
            },
        }
    }
}

/// What is told of a file that was closed and is not brought back.
pub open spec fn closed_message(step: OpenStep, shown: Seq<char>, encrypted: Seq<char>) -> Seq<char> {
    "Deleted-open file "@ + shown + match step {
        OpenStep::Unknown =>
            " closed after unlink, but HybridCipher no longer knows which encrypted file to recover"@,
        OpenStep::Lost =>
            " closed after unlink, but the preserved encrypted version is no longer present at "@
            + encrypted,
        _ =>
            " closed after unlink, but HybridCipher could not recover it because no encrypted version had been committed yet"@,
    }
}

/// What is told of a file that was brought back.
pub open spec fn recovered_message(shown: Seq<char>, copy: Seq<char>, unsynced: bool) -> Seq<char> {
    "Recovered the last encrypted version of deleted-open file "@ + shown + " to "@
        + copy + if unsynced {
        ". Later unlinked local writes from the other process were not recoverable."@
    } else {
        " after the foreign handle closed."@
    }
}

/// What is told of a file that waits for room to be brought back.
pub open spec fn recovery_waits_message(shown: Seq<char>) -> Seq<char> {
    "Deleted-open recovery for "@ + shown
        + " is waiting for space before HybridCipher can materialize a conflict copy of the preserved encrypted version"@
}

/// The encrypted form of a file that was deleted while open: that which is known, else that which
/// its path tells.
pub open spec fn open_encrypted_path(
    work: PendingWork,
    encrypted_root: PathView,
    mount_root: PathView,
    path: PathView,
) -> Option<PathView> {
    let known = work.pending_open_unlinked@.contains_key(path)
        && work.pending_open_unlinked@[path].encrypted_path is Some;
    if known {
        opt_path(work.pending_open_unlinked@[path].encrypted_path)
    } else {
        encrypted_target(encrypted_root, mount_root, path)
    }
}

/// The pending work after a file was found that was deleted while open: neither its change nor its
/// deletion is carried out, and that it had a change is remembered.
pub open spec fn open_noted(
    before: PendingWork,
    after: PendingWork,
    path: PathView,
    encrypted: Option<PathView>,
    version_exists: bool,
    owners: Seq<(i32, Seq<char>)>,
    now: UtcNanos,
) -> bool {
    let unsynced = before.pending_writebacks@.contains_key(path) || (
    before.pending_open_unlinked@.contains_key(path)
        && before.pending_open_unlinked@[path].had_unsynced_local_writeback);
    &&& after.pending_writebacks@ == before.pending_writebacks@.remove(path)
    &&& after.pending_writebacks_dirty == (before.pending_writebacks_dirty
        || before.pending_writebacks@.contains_key(path))
    &&& after.pending_deletions@ == match encrypted {
        Some(e) => before.pending_deletions@.remove(e),
        None => before.pending_deletions@,
    }
    &&& after.pending_deletions_dirty == (before.pending_deletions_dirty || (encrypted matches Some(
        e,
    ) && before.pending_deletions@.contains_key(e)))
    &&& open_unlinked_recorded(
        before.pending_open_unlinked@,
        after.pending_open_unlinked@,
        path,
        encrypted,
        version_exists,
        unsynced,
        owners,
        now,
    )
    &&& after.pending_open_unlinked_dirty == (before.pending_open_unlinked_dirty
        || open_unlinked_changes(
        before.pending_open_unlinked@,
        path,
        encrypted,
        version_exists,
        unsynced,
        owners,
    ))
    &&& after == (PendingWork {
        pending_writebacks: after.pending_writebacks,
        pending_writebacks_dirty: after.pending_writebacks_dirty,
        pending_deletions: after.pending_deletions,
        pending_deletions_dirty: after.pending_deletions_dirty,
        pending_open_unlinked: after.pending_open_unlinked,
        pending_open_unlinked_dirty: after.pending_open_unlinked_dirty,
        ..before
    })
}

/// A file that was deleted while open is no longer watched.
pub open spec fn open_forgotten(before: PendingWork, after: PendingWork, path: PathView) -> bool {
    &&& after.pending_open_unlinked@ == before.pending_open_unlinked@.remove(path)
    &&& after.pending_open_unlinked_dirty == (before.pending_open_unlinked_dirty
        || before.pending_open_unlinked@.contains_key(path))
    &&& after == (PendingWork {
        pending_open_unlinked: after.pending_open_unlinked,
        pending_open_unlinked_dirty: after.pending_open_unlinked_dirty,
        ..before
    })
}

impl PendingWork {
    fn open_encrypted(
        &self,
        encrypted_root: &SyncPath,
        mount_root: &SyncPath,
        path: &SyncPath,
    ) -> (res: Option<SyncPath>)
        requires
            self.wf(),
        ensures
            opt_path(res) == open_encrypted_path(*self, encrypted_root@, mount_root@, path@),
    {
        if let Some(entry) = self.pending_open_unlinked.get(path) {
            if entry.encrypted_path.is_some() {
                return copy_opt_path(&entry.encrypted_path);
            }
        }
        match encrypted_path_for(encrypted_root, mount_root, path) {
            Ok(e) => Some(e),
            Err(_) => None,
        }
    }

    fn note_open(
        &mut self,
        path: &SyncPath,
        encrypted: Option<SyncPath>,
        version: bool,
        owners: Vec<OpenUnlinkedOwner>,
        now: UtcNanos,
    )
        requires
            old(self).wf(),
        ensures
            final(self).wf(),
            open_noted(
                *old(self),
                *final(self),
                path@,
                opt_path(encrypted),
                version,
                owner_views(owners@),
                now,
            ),
    {
        let mut unsynced = match self.pending_open_unlinked.get(path) {
            Some(entry) => entry.had_unsynced_local_writeback,
            None => false,
        };
        if self.pending_writebacks.remove(path).is_some() {
            self.pending_writebacks_dirty = true;
            unsynced = true;
        }
        if let Some(e) = &encrypted {
            if self.pending_deletions.remove(e).is_some() {
                self.pending_deletions_dirty = true;
            }
        }
        if put_open_unlinked(
            &mut self.pending_open_unlinked,
            path,
            encrypted,
            version,
            unsynced,
            owners,
            now,
        ) {
            self.pending_open_unlinked_dirty = true;
        }
    }
}

impl SyncTracker {
    /// The paths that are looked for among the files which processes have open.
    pub fn collect_deleted_open_probe_candidates(
        &self,
        mount_root: &SyncPath,
        present: &PathSet,
    ) -> (res: PathSet)
        requires
            self.wf(),
            present.wf(),
        ensures
            res.wf(),
            res@ == with_paths(
                PathEntries::<()>::empty(),
                probed(*self, mount_root@, present@.keys()),
            ),
    {
        let mut found: PathSet = PathSet::new();
        let ghost none = found@;
        add_gone(&mut found, &self.files.decrypted_signatures.keys, mount_root, present, true);
        add_gone(&mut found, &self.work.pending_writebacks.keys, mount_root, present, false);
        let waiting = mounts_of(&self.work.pending_deletions.values);
        add_gone(&mut found, &waiting, mount_root, present, false);
        let ghost before = found@;
        let open = &self.work.pending_open_unlinked.keys;
        let ghost all = self.work.pending_open_unlinked.order();
        let mut i: usize = 0;
        while i < open.len()
            invariant
                i <= open@.len(),
                found.wf(),
                all == path_views(open@),
                found@ == with_paths(before, all.take(i as int)),
            decreases open@.len() - i,
        {
            proof {
                assert(all.take(i + 1).drop_last() =~= all.take(i as int));
                assert(all.take(i + 1).last() == open@[i as int]@);
            }
            found.insert(open[i].duplicate(), ());
            i += 1;
        }
        proof {
            assert(all.take(all.len() as int) =~= all);
            let known = selected(
                self.files.decrypted_signatures.order(),
                gone_from(mount_root@, present@.keys(), true),
            );
            let late = selected(
                self.work.pending_writebacks.order(),
                gone_from(mount_root@, present@.keys(), false),
            );
            let deleted = selected(
                deleted_mounts(self.work.pending_deletions.values@),
                gone_from(mount_root@, present@.keys(), false),
            );
            paths_in_two_parts(none, known, late);
            paths_in_two_parts(none, known + late, deleted);
            paths_in_two_parts(none, known + late + deleted, all);
        }
        found
    }

    /// Begins a round of looking at files that were deleted while open: no warning is left from
    /// the last one.
    pub fn begin_open_unlinked_round(&mut self)
        ensures
            *final(self) == (SyncTracker { last_open_unlinked_warning: None, ..*old(self) }),
    {
        self.last_open_unlinked_warning = None;
    }

    /// What becomes of a file that was deleted while open.
    pub fn open_unlinked_step(&self, path: &SyncPath, observed: bool, present: &PathSet) -> (res:
        OpenStep)
        requires
            self.wf(),
            present.wf(),
            self.work.pending_open_unlinked@.contains_key(path@),
        ensures
            res == open_step(*self, path@, observed, present@.keys()),
    {
        if present.contains_key(path) {
            return OpenStep::Back;
        }
        if observed {
            return OpenStep::StillOpen;
        }
        match self.work.pending_open_unlinked.get(path) {
            Some(entry) => {
                if !entry.encrypted_version_exists {
                    return OpenStep::NeverEncrypted;
                }
                match &entry.encrypted_path {
                    None => OpenStep::Unknown,
                    Some(encrypted) => {
                        if present.contains_key(encrypted) {
                            OpenStep::Recover
                        } else {
                            OpenStep::Lost
                        }
                    },
                }
            },
            None => OpenStep::NeverEncrypted,
        }
    }

    /// Notes a file that was deleted while open, and the processes that have it open.
    pub fn note_still_open(
        &mut self,
        encrypted_root: &SyncPath,
        mount_root: &SyncPath,
        path: &SyncPath,
        owners: Vec<OpenUnlinkedOwner>,
        present: &PathSet,
        now: UtcNanos,
    )
        requires
            old(self).wf(),
            present.wf(),
        ensures
            final(self).wf(),
            ({
                let encrypted = open_encrypted_path(
                    old(self).work,
                    encrypted_root@,
                    mount_root@,
                    path@,
                );
                open_noted(
                    old(self).work,
                    final(self).work,
                    path@,
                    encrypted,
                    encrypted matches Some(e) && present@.contains_key(e),
                    kept_owners(owners@),
                    now,
                )
            }),
            *final(self) == (SyncTracker { work: final(self).work, ..*old(self) }),
    {
        let encrypted = self.work.open_encrypted(encrypted_root, mount_root, path);
        let version = match &encrypted {
            Some(e) => present.contains_key(e),
            None => false,
        };
        let kept = keep_owners(owners);
        self.work.note_open(path, encrypted, version, kept, now);
    }

    /// Settles a file that was deleted while open, is not open any longer, and is not brought
    /// back: a warning says why. One that is back in the mount is settled without one.
    pub fn settle_open_unlinked(&mut self, path: &SyncPath, step: OpenStep)
        requires
            old(self).wf(),
            step == OpenStep::Back || step == OpenStep::Unknown || step == OpenStep::Lost || step
                == OpenStep::NeverEncrypted,
            old(self).work.pending_open_unlinked@.contains_key(path@),
            step == OpenStep::Lost
                ==> old(self).work.pending_open_unlinked@[path@].encrypted_path is Some,
        ensures
            final(self).wf(),
            open_forgotten(old(self).work, final(self).work, path@),
            if step == OpenStep::Back {
                final(self).last_open_unlinked_warning == old(self).last_open_unlinked_warning
            } else {
                opt_text(final(self).last_open_unlinked_warning) == Some(
                    closed_message(
                        step,
                        path@.text,
                        old(self).work.pending_open_unlinked@[path@].encrypted_path->0@.text,
                    ),
                )
            },
            *final(self) == (SyncTracker {
                work: final(self).work,
                last_open_unlinked_warning: final(self).last_open_unlinked_warning,
                ..*old(self)
            }),
    {
        let shown = path.display();
        match step {
            OpenStep::Unknown => {
                let told = concat3(
                    "Deleted-open file ",
                    shown.as_str(),
                    " closed after unlink, but HybridCipher no longer knows which encrypted file to recover",
                );
                self.last_open_unlinked_warning = Some(told);
            },
            OpenStep::Lost => {
                let mut told = concat3(
                    "Deleted-open file ",
                    shown.as_str(),
                    " closed after unlink, but the preserved encrypted version is no longer present at ",
                );
                if let Some(entry) = self.work.pending_open_unlinked.get(path) {
                    if let Some(encrypted) = &entry.encrypted_path {
                        let at = encrypted.display();
                        told.append(at.as_str());
                    }
                }
                self.last_open_unlinked_warning = Some(told);
                proof {
                    let target = closed_message(
                        step,
                        path@.text,
                        old(self).work.pending_open_unlinked@[path@].encrypted_path->0@.text,
                    );
                    assert(opt_text(self.last_open_unlinked_warning)->0 =~= target);
                }
            },
            OpenStep::NeverEncrypted => {
                let told = concat3(
                    "Deleted-open file ",
                    shown.as_str(),
                    " closed after unlink, but HybridCipher could not recover it because no encrypted version had been committed yet",
                );
                self.last_open_unlinked_warning = Some(told);
            },
            _ => {},
        }
        self.clear_pending_open_unlinked_entry(path);
    }

    /// Plans where the encrypted form of a file that was deleted while open is brought back to.
    /// Refuses where there is no room.
    pub fn plan_open_recovery(
        &self,
        path: &SyncPath,
        content_size: u64,
        stamp: &str,
        taken: &PathSet,
        room: Option<u64>,
    ) -> (res: Result<SyncPath, MountSyncError>)
        requires
            taken.wf(),
        ensures
            ({
                let copy = local_copy_path(
                    path@,
                    "conflict"@,
                    "conflict"@,
                    stamp@,
                    taken@.keys(),
                );
                let needed = plus_overhead(content_size);
                if self.held.mount_readonly_active {
                    res matches Err(err) && is_format(err, readonly_message(copy.text))
                } else if lacks_room(room, needed, LOW_SPACE_WARNING_RESERVE_BYTES) {
                    res matches Err(err) && is_format(
                        err,
                        budget_message(
                            "deleted-open conflict recovery"@,
                            copy.text,
                            needed,
                            LOW_SPACE_WARNING_RESERVE_BYTES,
                            room->0,
                        ),
                    )
                } else {
                    res matches Ok(place) && place@ == copy
                }
            }),
    {
        let copy = conflict_path_for(path, stamp, taken);
        if self.held.mount_readonly_active {
            return Err(low_space_readonly_error(&copy));
        }
        let needed: u64 = content_size.saturating_add(LOW_SPACE_ATOMIC_WRITE_OVERHEAD_BYTES);
        match ensure_space_budget(
            &copy,
            room,
            needed,
            LOW_SPACE_WARNING_RESERVE_BYTES,
            "deleted-open conflict recovery",
        ) {
            Ok(()) => Ok(copy),
            Err(err) => Err(err),
        }
    }

    /// Notes a conflict copy that was made of a file which was deleted while open.
    pub fn note_open_recovery(
        &mut self,
        copy: &SyncPath,
        seen: Option<FileSignature>,
        metadata_hash: Option<Digest>,
    )
        requires
            old(self).wf(),
        ensures
            final(self).wf(),
            final(self).files.decrypted_signatures@ == if seen is Some {
                old(self).files.decrypted_signatures@.insert(copy@, seen->0)
            } else {
                old(self).files.decrypted_signatures@
            },
            final(self).files.decrypted_metadata_hashes@ == if seen is Some {
                digest_refreshed(old(self).files.decrypted_metadata_hashes@, copy@, metadata_hash)
            } else {
                old(self).files.decrypted_metadata_hashes@
            },
            final(self).files.decrypted_hashes@ == old(self).files.decrypted_hashes@.remove(copy@),
            final(self).held.pending_stable@ == old(self).held.pending_stable@.remove(copy@),
            final(self).files == (FileLedger {
                decrypted_signatures: final(self).files.decrypted_signatures,
                decrypted_metadata_hashes: final(self).files.decrypted_metadata_hashes,
                decrypted_hashes: final(self).files.decrypted_hashes,
                ..old(self).files
            }),
            final(self).held == (HeldBack {
                pending_stable: final(self).held.pending_stable,
                ..old(self).held
            }),
            *final(self) == (SyncTracker {
                files: final(self).files,
                held: final(self).held,
                ..*old(self)
            }),
    {
        if let Some(signature) = seen {
            self.files.decrypted_signatures.insert(copy.duplicate(), signature);
            refresh_digest(&mut self.files.decrypted_metadata_hashes, copy, metadata_hash);
        }
        self.files.decrypted_hashes.remove(copy);
        self.held.pending_stable.remove(copy);
    }

    /// Takes note of how it went to bring back a file that was deleted while open. One that waits
    /// for room goes on to be watched; any other error is given back.
    pub fn finish_open_recovery(
        &mut self,
        path: &SyncPath,
        outcome: Result<SyncPath, MountSyncError>,
    ) -> (res: Result<(), MountSyncError>)
        requires
            old(self).wf(),
            old(self).work.pending_open_unlinked@.contains_key(path@),
        ensures
            final(self).wf(),
            match outcome {
                Ok(copy) => {
                    &&& res is Ok
                    &&& open_forgotten(old(self).work, final(self).work, path@)
                    &&& opt_text(final(self).last_open_unlinked_warning) == Some(
                        recovered_message(
                            path@.text,
                            copy@.text,
                            old(
                                self,
                            ).work.pending_open_unlinked@[path@].had_unsynced_local_writeback,
                        ),
                    )
                },
                Err(err) => {
                    &&& final(self).work == old(self).work
                    &&& if low_space_error(err) {
                        &&& res is Ok
                        &&& opt_text(final(self).last_open_unlinked_warning) == Some(
                            recovery_waits_message(path@.text),
                        )
                    } else {
                        &&& res == Err::<(), MountSyncError>(err)
                        &&& final(self).last_open_unlinked_warning
                            == old(self).last_open_unlinked_warning
                    }
                },
            },
            *final(self) == (SyncTracker {
                work: final(self).work,
                last_open_unlinked_warning: final(self).last_open_unlinked_warning,
                ..*old(self)
            }),
    {
        let shown = path.display();
        match outcome {
            Ok(copy) => {
                let unsynced = match self.work.pending_open_unlinked.get(path) {
                    Some(entry) => entry.had_unsynced_local_writeback,
                    None => false,
                };
                let at = copy.display();
                let mut told = concat3(
                    "Recovered the last encrypted version of deleted-open file ",
                    shown.as_str(),
                    " to ",
                );
                told.append(at.as_str());
                if unsynced {
                    told.append(
                        ". Later unlinked local writes from the other process were not recoverable.",
                    );
                } else {
                    told.append(" after the foreign handle closed.");
                }
                self.last_open_unlinked_warning = Some(told);
                self.clear_pending_open_unlinked_entry(path);
                Ok(())
            },
            Err(err) => {
                if is_low_space_error(&err) {
                    let told = concat3(
                        "Deleted-open recovery for ",
                        shown.as_str(),
                        " is waiting for space before HybridCipher can materialize a conflict copy of the preserved encrypted version",
                    );
                    self.last_open_unlinked_warning = Some(told);
                    Ok(())
                } else {
                    Err(err)
                }
            },
        }
    }
}

/// While a process has a deleted file open, the deletion of its encrypted form is not pending.
pub proof fn open_files_are_not_deleted(
    before: PendingWork,
    after: PendingWork,
    path: PathView,
    encrypted: PathView,
    version_exists: bool,
    owners: Seq<(i32, Seq<char>)>,
    now: UtcNanos,
)
    requires
        open_noted(before, after, path, Some(encrypted), version_exists, owners, now),
    ensures
        !after.pending_deletions@.contains_key(encrypted),
        !after.pending_writebacks@.contains_key(path),
        after.pending_open_unlinked@.contains_key(path),
        before.pending_writebacks@.contains_key(path)
            ==> after.pending_open_unlinked@[path].had_unsynced_local_writeback,
{
}

} // verus!
