//! When something is deleted, and when it is not.

use vstd::prelude::*;

use crate::deletion::{
    confirmed_deletions, counts_reset, deletion_verdict, deletion_view, deletion_views,
    locally_changed, DeletionVerdict,
};
use crate::orphans::{orphan_verdict, FileLook, OrphanVerdict};
use crate::path::{starts_with, PathKey, PathView};
use crate::round::counts_restarted;
use crate::table::selected_contains;
use crate::tracker::SyncTracker;

verus! {

/// An encrypted file is deleted only if its mounted file was missing in enough scans in a row, one
/// of them without faults, is still missing, is not held open by a process, and lies under the
/// mount.
pub proof fn deletions_are_confirmed(
    tracker: SyncTracker,
    encrypted_root: PathView,
    mount_root: PathView,
    present: Set<PathKey>,
    encrypted_path: PathView,
)
    requires
        confirmed_deletions(tracker, encrypted_root, mount_root, present).contains(encrypted_path),
    ensures
        tracker.work.pending_deletions.order().contains(encrypted_path),
        ({
            let pending = tracker.work.pending_deletions@[encrypted_path];
            &&& pending.consecutive_missing_scans
                >= tracker.settings.deletion_config.min_consecutive_missing_scans
            &&& pending.had_healthy_scan
            &&& !present.contains(pending.mount_path@.key())
            &&& !tracker.work.pending_open_unlinked@.contains_key(pending.mount_path@)
            &&& !tracker.work.pending_metadata@.contains_key(encrypted_path)
            &&& starts_with(encrypted_path, encrypted_root)
            &&& starts_with(pending.mount_path@, mount_root)
        }),
{
    selected_contains(
        tracker.work.pending_deletions.order(),
        |e: PathView|
            deletion_verdict(tracker, e, encrypted_root, mount_root, present)
                == DeletionVerdict::Delete,
    );
}

/// After a scan with faults nothing is deleted until it was missing in enough scans again.
pub proof fn faults_start_the_count_anew(
    before: SyncTracker,
    after: SyncTracker,
    encrypted_root: PathView,
    mount_root: PathView,
    present: Set<PathKey>,
    encrypted_path: PathView,
)
    requires
        counts_restarted(before, after),
        after.settings.deletion_config.min_consecutive_missing_scans > 0,
        after.work.pending_deletions@.contains_key(encrypted_path),
    ensures
        deletion_verdict(after, encrypted_path, encrypted_root, mount_root, present)
            != DeletionVerdict::Delete,
{
    let views = deletion_views(after.work.pending_deletions@);
    let old_views = deletion_views(before.work.pending_deletions@);
    assert(views.contains_key(encrypted_path));
    assert(views[encrypted_path] == deletion_view(after.work.pending_deletions@[encrypted_path]));
    assert(counts_reset(old_views).contains_key(encrypted_path));
    assert(old_views.contains_key(encrypted_path));
    assert(counts_reset(old_views)[encrypted_path].1 == 0);
}

/// A mounted file whose encrypted form is gone is taken away only if the encrypted form was missing
/// in enough scans in a row, one of them without faults, and the file was not changed here.
pub proof fn changed_orphans_are_kept(
    tracker: SyncTracker,
    mount_root: PathView,
    mount_path: PathView,
    encrypted_exists: bool,
    mount_exists: bool,
    look: FileLook,
)
    requires
        orphan_verdict(
            tracker,
            mount_root,
            mount_path,
            encrypted_exists,
            mount_exists,
            look,
        ) == OrphanVerdict::Retain,
    ensures
        !encrypted_exists,
        ({
            let pending = tracker.work.pending_orphans@[mount_path];
            &&& pending.consecutive_missing_scans
                >= tracker.settings.deletion_config.min_consecutive_missing_scans
            &&& pending.had_healthy_scan
        }),
        look matches FileLook::Found { signature, content_hash, metadata_hash }
            && !locally_changed(tracker, mount_path, signature, content_hash, metadata_hash),
        starts_with(mount_path, mount_root),
{
}

} // verus!
