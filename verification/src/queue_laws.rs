//! What is queued, and how a mount is filled anew.

use vstd::prelude::*;

use crate::exclusion::{excluded, texts};
use crate::path::{same_path, strip_prefix, view_keys, PathView};
use crate::settings::{create_step, deleted_forgotten, rehydrating, seeded, CreateLook, CreateStep};
use crate::sync::{deletion_step, journal_is_dirty, mount_lost, refreshes_kept, DeletionWork, JournalKind};
use crate::path::{PathKey, SyncPath};
use crate::tracker::{queued, FileLedger, FileSignature, SyncTracker};

verus! {

/// A file that was created stays in the queue exactly as long as it is another than the one that is
/// noted at its place; it counts as seen if it is a file below the mount that no pattern keeps out,
/// and leaves the queue unseen otherwise.
pub proof fn created_files_are_seen(
    tracker: SyncTracker,
    mount_root: PathView,
    path: PathView,
    look: CreateLook,
)
    ensures
        ({
            let step = create_step(tracker, mount_root, path, look);
            let noted = tracker.files.decrypted_signatures@;
            let counts = {
                &&& look.exists
                &&& look.found is Some
                &&& (look.found->0).0
                &&& strip_prefix(path, mount_root) is Some
                &&& !excluded(texts(tracker.settings.excluded_patterns@), path)
            };
            let signature = (look.found->0).1;
            let other = noted.contains_key(path) && (noted[path].modified_ns
                != signature.modified_ns || noted[path].ctime_ns != signature.ctime_ns
                || noted[path].len != signature.len);
            &&& step == CreateStep::Drop <==> !counts
            &&& step == CreateStep::Wait <==> counts && other
            &&& step == CreateStep::Done <==> counts && !other
        }),
{
}

/// A path is queued once, after all that were queued before it.
pub proof fn paths_are_queued_once(queue: Seq<PathView>, path: PathView)
    requires
        view_keys(queue).no_duplicates(),
    ensures
        view_keys(queued(queue, Some(path))).no_duplicates(),
        view_keys(queued(queue, Some(path))).contains(path.key()),
        queue.is_prefix_of(queued(queue, Some(path))),
        queued(queued(queue, Some(path)), Some(path)) == queued(queue, Some(path)),
        queued(queue, None) == queue,
        queued(queue, Some(path)).len() <= queue.len() + 1,
        forall|p: PathView| #[trigger]
            queued(queue, Some(path)).contains(p) ==> queue.contains(p) || p == path,
{
    let after = queued(queue, Some(path));
    let keys = view_keys(after);
    if view_keys(queue).contains(path.key()) {
        assert(after == queue);
    } else {
        assert(after == queue.push(path));
        assert(keys =~= view_keys(queue).push(path.key()));
        assert(keys[keys.len() - 1] == path.key());
        assert forall|p: PathView| #[trigger] after.contains(p) implies queue.contains(p) || p
            == path by {
            let i = choose|i: int| 0 <= i < after.len() && after[i] == p;
            if i < queue.len() {
                assert(queue[i] == p);
            }
        }
    }
}

/// A mount that is filled anew deletes nothing: no deletion waits, none is concluded from what is
/// missing and none is carried out, whatever was on record. What waits to be encrypted stays.
pub proof fn refilled_mounts_delete_nothing(before: SyncTracker, after: SyncTracker, path: PathView)
    requires
        rehydrating(before, after),
    ensures
        !after.work.pending_deletions@.contains_key(path),
        after.suppress_deletion_inference,
        deletion_step(after) == DeletionWork::Skip,
        !after.files.decrypted_signatures@.contains_key(path),
        !after.files.path_mapping@.contains_key(path),
        after.work.pending_writebacks == before.work.pending_writebacks,
        after.work.pending_refreshes == before.work.pending_refreshes,
        after.work.pending_orphans == before.work.pending_orphans,
        after.work.pending_metadata == before.work.pending_metadata,
        after.files.encrypted_signatures == before.files.encrypted_signatures,
        after.held == before.held,
        after.copies == before.copies,
        before.work.pending_deletions_dirty ==> after.work.pending_deletions_dirty,
{
}

/// Deletions are carried out exactly in a mount that could be read, is writable, and is not being
/// filled anew; where it could not be read, the counts start anew.
pub proof fn deletions_need_a_sound_mount(tracker: SyncTracker)
    ensures
        deletion_step(tracker) == DeletionWork::Process <==> {
            &&& tracker.scan_health is Healthy
            &&& !tracker.held.mount_readonly_active
            &&& !tracker.suppress_deletion_processing
        },
        deletion_step(tracker) == DeletionWork::Reset ==> tracker.scan_health is Unhealthy,
        tracker.scan_health is Unhealthy && !tracker.held.mount_readonly_active
            && !tracker.suppress_deletion_processing ==> deletion_step(tracker)
            == DeletionWork::Reset,
{
}

/// After a mount was lost nothing is left that would be concluded from its files: every one of them
/// is new, nothing waits for them, and every journal that told of them is written anew. Where the
/// encrypted files belong, and the deletions that wait, stay known.
pub proof fn lost_mounts_leave_nothing(before: SyncTracker, after: SyncTracker, path: PathView)
    requires
        mount_lost(before, after),
    ensures
        !after.files.decrypted_signatures@.contains_key(path),
        !after.files.encrypted_signatures@.contains_key(path),
        !after.files.decrypted_hashes@.contains_key(path),
        !after.files.decrypted_directory_signatures@.contains_key(path),
        !after.files.encrypted_directory_signatures@.contains_key(path),
        !after.work.pending_writebacks@.contains_key(path),
        !after.work.pending_refreshes@.contains_key(path),
        !after.work.pending_orphans@.contains_key(path),
        !after.work.pending_open_unlinked@.contains_key(path),
        !after.copies.conflict_baselines@.contains_key(path),
        !after.copies.recovered_pending_paths@.contains_key(path),
        !after.held.unsupported_hard_link_paths@.contains_key(path),
        !after.held.mount_readonly_active,
        after.files.path_mapping == before.files.path_mapping,
        after.work.pending_deletions == before.work.pending_deletions,
        after.settings == before.settings,
        forall|kind: JournalKind|
            kind != JournalKind::Deletions && kind != JournalKind::Metadata
                ==> #[trigger] journal_is_dirty(after, kind),
{
    assert(after.files.decrypted_signatures@.keys().contains(path.key())
        == after.files.decrypted_signatures@.contains_key(path));
    assert(after.files.encrypted_signatures@.keys().contains(path.key())
        == after.files.encrypted_signatures@.contains_key(path));
    assert(after.files.decrypted_hashes@.keys().contains(path.key())
        == after.files.decrypted_hashes@.contains_key(path));
    assert(after.files.decrypted_directory_signatures@.keys().contains(path.key())
        == after.files.decrypted_directory_signatures@.contains_key(path));
    assert(after.files.encrypted_directory_signatures@.keys().contains(path.key())
        == after.files.encrypted_directory_signatures@.contains_key(path));
    assert(after.work.pending_writebacks@.keys().contains(path.key())
        == after.work.pending_writebacks@.contains_key(path));
    assert(after.work.pending_refreshes@.keys().contains(path.key())
        == after.work.pending_refreshes@.contains_key(path));
    assert(after.work.pending_orphans@.keys().contains(path.key())
        == after.work.pending_orphans@.contains_key(path));
    assert(after.work.pending_open_unlinked@.keys().contains(path.key())
        == after.work.pending_open_unlinked@.contains_key(path));
    assert(after.copies.conflict_baselines@.keys().contains(path.key())
        == after.copies.conflict_baselines@.contains_key(path));
    assert(after.copies.recovered_pending_paths@.keys().contains(path.key())
        == after.copies.recovered_pending_paths@.contains_key(path));
    assert(after.held.unsupported_hard_link_paths@.keys().contains(path.key())
        == after.held.unsupported_hard_link_paths@.contains_key(path));
}

/// A file waits to be decrypted as long as it is expected in the mount, and no longer.
pub proof fn expected_files_wait(
    before: SyncTracker,
    after: SyncTracker,
    expected: Set<PathKey>,
    path: PathView,
)
    requires
        refreshes_kept(before, after, expected),
    ensures
        after.work.pending_refreshes@.contains_key(path)
            <==> before.work.pending_refreshes@.contains_key(path) && expected.contains(path.key()),
        after.work.pending_refreshes@.contains_key(path) ==> after.work.pending_refreshes@[path]
            == before.work.pending_refreshes@[path],
        after.work.pending_writebacks == before.work.pending_writebacks,
        after.work.pending_deletions == before.work.pending_deletions,
{
}

/// A file that was deleted on the encrypted side is forgotten on both sides, and no other is.
pub proof fn deleted_files_are_forgotten(
    before: FileLedger,
    after: FileLedger,
    encrypted: PathView,
    other: PathView,
)
    requires
        deleted_forgotten(before, after, encrypted),
    ensures
        !after.encrypted_signatures@.contains_key(encrypted),
        !after.path_mapping@.contains_key(encrypted),
        before.path_mapping@.contains_key(encrypted) ==> {
            let mounted = before.path_mapping@[encrypted]@;
            &&& !after.decrypted_signatures@.contains_key(mounted)
            &&& !after.decrypted_hashes@.contains_key(mounted)
            &&& !after.decrypted_metadata_hashes@.contains_key(mounted)
        },
        !same_path(other, encrypted) ==> {
            &&& after.encrypted_signatures@.contains_key(other)
                == before.encrypted_signatures@.contains_key(other)
            &&& after.path_mapping@.contains_key(other) == before.path_mapping@.contains_key(other)
        },
        !before.path_mapping@.contains_key(encrypted) || !same_path(
            other,
            before.path_mapping@[encrypted]@,
        ) ==> {
            &&& after.decrypted_signatures@.contains_key(other)
                == before.decrypted_signatures@.contains_key(other)
            &&& after.decrypted_hashes@.contains_key(other)
                == before.decrypted_hashes@.contains_key(other)
        },
        after.file_id_to_mount_path == before.file_id_to_mount_path,
{
}

/// A file that is made known is known on both sides, with the place where it is mounted; every
/// other stays as it was.
pub proof fn seeded_files_are_known(
    before: SyncTracker,
    after: SyncTracker,
    encrypted_path: PathView,
    decrypted_path: SyncPath,
    encrypted_signature: FileSignature,
    decrypted_signature: FileSignature,
    other: PathView,
)
    requires
        seeded(
            before,
            after,
            encrypted_path,
            decrypted_path,
            encrypted_signature,
            decrypted_signature,
        ),
    ensures
        after.files.encrypted_signatures@.contains_key(encrypted_path),
        after.files.encrypted_signatures@[encrypted_path] == encrypted_signature,
        after.files.decrypted_signatures@.contains_key(decrypted_path@),
        after.files.decrypted_signatures@[decrypted_path@] == decrypted_signature,
        after.files.path_mapping@.contains_key(encrypted_path),
        after.files.path_mapping@[encrypted_path] == decrypted_path,
        !same_path(other, decrypted_path@) ==> after.files.decrypted_signatures@.contains_key(other)
            == before.files.decrypted_signatures@.contains_key(other),
        !same_path(other, encrypted_path) ==> after.files.encrypted_signatures@.contains_key(other)
            == before.files.encrypted_signatures@.contains_key(other),
        after.work == before.work,
{
}

} // verus!
