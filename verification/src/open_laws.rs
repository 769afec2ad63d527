//! What becomes of files that are deleted while a process has them open.

use vstd::prelude::*;

use crate::config::opt_path;
use crate::names::encrypted_target;
use crate::open_unlinked::{
    gone_from, mounted_path_of, open_encrypted_path, open_forgotten, open_noted, open_step,
    owner_added, OpenStep,
};
use crate::local_only::has_marker;
use crate::path::{join, same_path, starts_with, strip_joined, strip_prefix, PathKey, PathView};
use crate::pending::{owner_views, MAX_OPEN_UNLINKED_OWNERS};
use crate::tracker::{PendingWork, SyncTracker, UtcNanos};

verus! {

/// A file that was deleted while open is brought back exactly if it is not in the mount, no process
/// has it open any more, and an encrypted form of it was seen and is still there.
pub proof fn closed_files_are_recovered(
    tracker: SyncTracker,
    path: PathView,
    observed: bool,
    present: Set<PathKey>,
)
    ensures
        open_step(tracker, path, observed, present) == OpenStep::Recover <==> {
            let entry = tracker.work.pending_open_unlinked@[path];
            &&& !present.contains(path.key())
            &&& !observed
            &&& entry.encrypted_version_exists
            &&& entry.encrypted_path is Some
            &&& present.contains(entry.encrypted_path->0@.key())
        },
{
}

/// A file that was deleted while open is given up only after it was closed, and only if there is
/// nothing to bring back: it never had an encrypted form, nobody knows where that is, or it is gone.
pub proof fn open_files_are_not_given_up(
    tracker: SyncTracker,
    path: PathView,
    observed: bool,
    present: Set<PathKey>,
)
    ensures
        ({
            let step = open_step(tracker, path, observed, present);
            let entry = tracker.work.pending_open_unlinked@[path];
            let back = present.contains(path.key());
            &&& step == OpenStep::Back <==> back
            &&& step == OpenStep::StillOpen <==> !back && observed
            &&& step == OpenStep::NeverEncrypted <==> !back && !observed
                && !entry.encrypted_version_exists
            &&& step == OpenStep::Unknown <==> !back && !observed && entry.encrypted_version_exists
                && entry.encrypted_path is None
            &&& step == OpenStep::Lost <==> !back && !observed && entry.encrypted_version_exists
                && entry.encrypted_path is Some && !present.contains(
                entry.encrypted_path->0@.key(),
            )
        }),
{
}

/// What is known of a file that was deleted while open stays known with every further look: since
/// when it is watched, that it had an encrypted form, that it had changes which were not encrypted,
/// and, where the look does not tell another, the path of its encrypted form.
pub proof fn open_files_stay_known(
    before: PendingWork,
    after: PendingWork,
    path: PathView,
    encrypted: Option<PathView>,
    version_exists: bool,
    owners: Seq<(i32, Seq<char>)>,
    now: UtcNanos,
)
    requires
        open_noted(before, after, path, encrypted, version_exists, owners, now),
    ensures
        after.pending_open_unlinked@.contains_key(path),
        after.pending_open_unlinked@[path].last_seen_at == now,
        owner_views(after.pending_open_unlinked@[path].owners@) == owners,
        version_exists ==> after.pending_open_unlinked@[path].encrypted_version_exists,
        encrypted is Some ==> opt_path(after.pending_open_unlinked@[path].encrypted_path)
            == encrypted,
        !before.pending_open_unlinked@.contains_key(path) ==> {
            let entry = after.pending_open_unlinked@[path];
            &&& entry.first_seen_at == now
            &&& entry.encrypted_version_exists == version_exists
            &&& opt_path(entry.encrypted_path) == encrypted
            &&& entry.had_unsynced_local_writeback == before.pending_writebacks@.contains_key(path)
        },
        before.pending_open_unlinked@.contains_key(path) ==> {
            let known = before.pending_open_unlinked@[path];
            let entry = after.pending_open_unlinked@[path];
            &&& entry.first_seen_at == known.first_seen_at
            &&& entry.encrypted_version_exists == (version_exists || known.encrypted_version_exists)
            &&& entry.had_unsynced_local_writeback == (known.had_unsynced_local_writeback
                || before.pending_writebacks@.contains_key(path))
            &&& encrypted is None ==> opt_path(entry.encrypted_path) == opt_path(
                known.encrypted_path,
            )
        },
{
}

/// A file that is watched because it is open is not deleted on the encrypted side meanwhile, and
/// once it was closed it is brought back if its encrypted form is there.
pub proof fn watched_files_come_back(
    before: SyncTracker,
    after: SyncTracker,
    path: PathView,
    encrypted: PathView,
    owners: Seq<(i32, Seq<char>)>,
    now: UtcNanos,
    present: Set<PathKey>,
)
    requires
        open_noted(before.work, after.work, path, Some(encrypted), true, owners, now),
        !present.contains(path.key()),
    ensures
        !after.work.pending_deletions@.contains_key(encrypted),
        open_step(after, path, true, present) == OpenStep::StillOpen,
        open_step(after, path, false, present) == if present.contains(encrypted.key()) {
            OpenStep::Recover
        } else {
            OpenStep::Lost
        },
{
}

/// Watching a file, or giving one up, leaves what is known and what waits for every other.
pub proof fn one_open_file_is_watched(
    before: PendingWork,
    noted: PendingWork,
    after: PendingWork,
    path: PathView,
    encrypted: Option<PathView>,
    version_exists: bool,
    owners: Seq<(i32, Seq<char>)>,
    now: UtcNanos,
    other: PathView,
)
    requires
        open_noted(before, noted, path, encrypted, version_exists, owners, now),
        open_forgotten(noted, after, path),
        !same_path(other, path),
    ensures
        !after.pending_open_unlinked@.contains_key(path),
        after.pending_open_unlinked_dirty,
        after.pending_open_unlinked@.contains_key(other)
            == before.pending_open_unlinked@.contains_key(other),
        before.pending_open_unlinked@.contains_key(other) ==> after.pending_open_unlinked@[other]
            == before.pending_open_unlinked@[other],
        after.pending_writebacks@.contains_key(other) == before.pending_writebacks@.contains_key(
            other,
        ),
        encrypted is None || !same_path(other, encrypted->0) ==> after.pending_deletions@
            .contains_key(other) == before.pending_deletions@.contains_key(other),
        after.pending_orphans == before.pending_orphans,
        after.pending_refreshes == before.pending_refreshes,
        after.pending_metadata == before.pending_metadata,
{
}

/// A process is noted once, and those that were noted first stay; eight at most are.
pub proof fn owners_are_noted_once(
    owners: Seq<(i32, Seq<char>)>,
    owner: (i32, Seq<char>),
    i: int,
    j: int,
)
    requires
        owners.len() <= MAX_OPEN_UNLINKED_OWNERS,
        forall|a: int, b: int|
            0 <= a < b < owners.len() ==> (#[trigger] owners[a]).0 != (#[trigger] owners[b]).0,
        0 <= i < j < owner_added(owners, owner).len(),
    ensures
        owner_added(owners, owner).len() <= 8,
        owner_added(owners, owner)[i].0 != owner_added(owners, owner)[j].0,
        owners.is_prefix_of(owner_added(owners, owner)),
        owners.len() < 8 ==> exists|k: int|
            0 <= k < owner_added(owners, owner).len() && (#[trigger] owner_added(
                owners,
                owner,
            )[k]).0 == owner.0,
{
    let after = owner_added(owners, owner);
    if owners.len() < 8 {
        if after.len() > owners.len() {
            assert(after[after.len() - 1].0 == owner.0);
        } else {
            let k = choose|k: int| 0 <= k < owners.len() && (#[trigger] owners[k]).0 == owner.0;
            assert(after[k].0 == owner.0);
        }
    }
}

/// A file that a process has open is looked for in the mount: at its own path, if that lies there,
/// and else at the same place below the mount as it has below the true path of the mount.
pub proof fn open_files_are_found_in_the_mount(
    observed: PathView,
    mount_root: PathView,
    canonical_root: PathView,
    relative: PathView,
)
    requires
        !relative.absolute,
        relative.names.len() == 0 || relative.names[0] != crate::path::NameView::Text("."@),
    ensures
        starts_with(observed, mount_root) ==> mounted_path_of(
            observed,
            mount_root,
            Some(canonical_root),
        ) == Some(observed),
        !starts_with(observed, mount_root) && !starts_with(observed, canonical_root)
            ==> mounted_path_of(observed, mount_root, Some(canonical_root)) is None,
        !starts_with(observed, mount_root) ==> mounted_path_of(observed, mount_root, None) is None,
        ({
            let at = join(canonical_root, relative);
            !starts_with(at, mount_root) ==> (mounted_path_of(
                at,
                mount_root,
                Some(canonical_root),
            ) matches Some(found) && same_path(found, join(mount_root, relative)))
        }),
{
    strip_joined(canonical_root, relative);
    let at = join(canonical_root, relative);
    let rest = strip_prefix(at, canonical_root)->0;
    assert(starts_with(at, canonical_root));
    assert(rest.names =~= relative.names);
}

/// The encrypted form of a file that is open is the one that was noted when it was seen first; only
/// where none was, it is told from the path of the file.
pub proof fn open_files_keep_their_encrypted_form(
    work: PendingWork,
    encrypted_root: PathView,
    mount_root: PathView,
    path: PathView,
)
    ensures
        work.pending_open_unlinked@.contains_key(path)
            && work.pending_open_unlinked@[path].encrypted_path is Some ==> open_encrypted_path(
            work,
            encrypted_root,
            mount_root,
            path,
        ) == Some(work.pending_open_unlinked@[path].encrypted_path->0@),
        !work.pending_open_unlinked@.contains_key(path) ==> open_encrypted_path(
            work,
            encrypted_root,
            mount_root,
            path,
        ) == encrypted_target(encrypted_root, mount_root, path),
        strip_prefix(path, mount_root) is Some ==> open_encrypted_path(
            work,
            encrypted_root,
            mount_root,
            path,
        ) is Some,
{
}

/// A file is asked after only if it lies in the mount and is not there any more; conflict copies,
/// which are never encrypted, are left out where that is asked for.
pub proof fn gone_files_are_asked_after(
    mount_root: PathView,
    present: Set<PathKey>,
    skip_conflicts: bool,
    path: PathView,
)
    ensures
        gone_from(mount_root, present, skip_conflicts)(path) <==> {
            &&& !present.contains(path.key())
            &&& starts_with(path, mount_root)
            &&& !(skip_conflicts && has_marker(path, "conflict"@))
        },
{
}

} // verus!
