//! What is found out when a mount starts after its end was not clean.

use vstd::prelude::*;

use crate::path::{PathEntries, PathKey, PathView};
use crate::reconcile::{
    action_for, conflict_step, conflict_views, deletion_count, deletions_of, file_actions,
    mounted_keys, queues_local, remote_changed, start_actions, summed_up, was_deleted, ActionView,
    ConflictStep, MountedFile, ReconciliationSummary,
};
use crate::table::{selected, selected_contains};
use crate::tracker::{
    path_views, ConflictKind, ConflictPolicy, ConflictPolicyResolution, Digest, FileLedger,
    FileSignature, SyncTracker, UtcNanos,
};

verus! {

/// An encrypted file counts as changed exactly if it is there, something is noted of it, and any of
/// its times or its length is another than the noted one.
pub proof fn changes_on_the_other_side_are_noticed(
    files: FileLedger,
    encrypted_path: PathView,
    now: Option<FileSignature>,
)
    ensures
        remote_changed(files, encrypted_path, now) <==> {
            let noted = files.encrypted_signatures@;
            &&& now is Some
            &&& noted.contains_key(encrypted_path)
            &&& {
                ||| noted[encrypted_path].modified_ns != now->0.modified_ns
                ||| noted[encrypted_path].ctime_ns != now->0.ctime_ns
                ||| noted[encrypted_path].len != now->0.len
            }
        },
{
}

/// Only a file that was changed on both sides is a conflict, of the kind that says so, and it names
/// the two paths.
pub proof fn conflicts_need_two_changes(
    tracker: SyncTracker,
    encrypted_of: PathEntries<PathView>,
    path: PathView,
    signature: FileSignature,
    content_hash: Option<Digest>,
    metadata_hash: Option<Digest>,
    encrypted_now: Option<FileSignature>,
)
    ensures
        ({
            let action = action_for(
                tracker,
                encrypted_of,
                path,
                signature,
                content_hash,
                metadata_hash,
                encrypted_now,
            );
            &&& action is Conflict ==> {
                &&& encrypted_of.contains_key(path)
                &&& tracker.files.decrypted_signatures@.contains_key(path)
                &&& tracker.files.decrypted_signatures@[path] != signature
                &&& encrypted_now is Some
                &&& tracker.files.encrypted_signatures@.contains_key(encrypted_of[path])
                &&& tracker.files.encrypted_signatures@[encrypted_of[path]] != encrypted_now->0
                &&& action == (ActionView::Conflict {
                    mount_path: path,
                    encrypted_path: encrypted_of[path],
                    kind: ConflictKind::LocalRemoteBothModified,
                })
            }
            &&& action is RemoteModified ==> {
                &&& encrypted_now is Some
                &&& tracker.files.encrypted_signatures@.contains_key(encrypted_of[path])
                &&& tracker.files.encrypted_signatures@[encrypted_of[path]] != encrypted_now->0
            }
            &&& action !is LocalDeleted
            &&& !tracker.files.decrypted_signatures@.contains_key(path) ==> action == (
            ActionView::LocalCreated { mount_path: path })
            &&& tracker.files.decrypted_signatures@.contains_key(path)
                && !encrypted_of.contains_key(path) ==> action == (ActionView::LocalModified {
                mount_path: path,
            })
        }),
{
}

/// Where the newer version wins, it does so if the times are further apart than the policy says, and
/// else, or where a time is not known, both are kept. Which side is which makes no difference.
pub proof fn newer_versions_win(
    policy: ConflictPolicy,
    local: Option<UtcNanos>,
    remote: Option<UtcNanos>,
)
    requires
        policy.default_resolution == ConflictPolicyResolution::NewerWins,
    ensures
        conflict_step(policy, local, remote) == ConflictStep::UseLocal <==> local is Some && remote
            is Some && local->0 - remote->0 > policy.timestamp_threshold_secs * 1_000_000_000,
        conflict_step(policy, local, remote) == ConflictStep::UseRemote <==> local is Some && remote
            is Some && remote->0 - local->0 > policy.timestamp_threshold_secs * 1_000_000_000,
        conflict_step(policy, local, remote) == ConflictStep::UseLocal <==> conflict_step(
            policy,
            remote,
            local,
        ) == ConflictStep::UseRemote,
        conflict_step(policy, local, local) == ConflictStep::KeepBoth,
{
}

/// A policy that names a side, or keeps both, does so whatever the times are.
pub proof fn named_sides_win(
    policy: ConflictPolicy,
    local: Option<UtcNanos>,
    remote: Option<UtcNanos>,
)
    ensures
        policy.default_resolution == ConflictPolicyResolution::LocalWins ==> conflict_step(
            policy,
            local,
            remote,
        ) == ConflictStep::UseLocal,
        policy.default_resolution == ConflictPolicyResolution::RemoteWins ==> conflict_step(
            policy,
            local,
            remote,
        ) == ConflictStep::UseRemote,
        policy.default_resolution == ConflictPolicyResolution::KeepBoth ==> conflict_step(
            policy,
            local,
            remote,
        ) == ConflictStep::KeepBoth,
{
}

proof fn files_are_not_deleted(
    tracker: SyncTracker,
    encrypted_of: PathEntries<PathView>,
    files: Seq<MountedFile>,
)
    ensures
        deletion_count(file_actions(tracker, encrypted_of, files)) == 0,
        forall|i: int|
            0 <= i < file_actions(tracker, encrypted_of, files).len() ==> !((#[trigger] file_actions(
                tracker,
                encrypted_of,
                files,
            )[i]) is LocalDeleted),
    decreases files.len(),
{
    if files.len() > 0 {
        files_are_not_deleted(tracker, encrypted_of, files.drop_last());
        let front = file_actions(tracker, encrypted_of, files.drop_last());
        let all = file_actions(tracker, encrypted_of, files);
        if files.last().seen is Some {
            assert(all.drop_last() =~= front);
            assert forall|i: int| 0 <= i < all.len() implies !((#[trigger] all[i])
                is LocalDeleted) by {
                if i < front.len() {
                    assert(all[i] == front[i]);
                }
            }
        }
    }
}

proof fn deletions_add_up(actions: Seq<ActionView>, more: Seq<ActionView>)
    ensures
        deletion_count(actions + more) == deletion_count(actions) + deletion_count(more),
    decreases more.len(),
{
    if more.len() == 0 {
        assert(actions + more =~= actions);
    } else {
        deletions_add_up(actions, more.drop_last());
        assert((actions + more).drop_last() =~= actions + more.drop_last());
    }
}

proof fn deletions_are_deletions(encrypted_of: PathEntries<PathView>, paths: Seq<PathView>)
    ensures
        deletion_count(deletions_of(encrypted_of, paths)) == paths.len(),
    decreases paths.len(),
{
    if paths.len() > 0 {
        let all = deletions_of(encrypted_of, paths);
        assert(all.drop_last() =~= deletions_of(encrypted_of, paths.drop_last()));
        deletions_are_deletions(encrypted_of, paths.drop_last());
    }
}

/// A file is deleted on the encrypted side exactly if the mount holds anything at all, the file is
/// known, it is not among those that the mount holds, and its encrypted form is known and still
/// there. Nothing is deleted on account of an empty mount.
pub proof fn only_missing_files_are_deleted(
    tracker: SyncTracker,
    encrypted_of: PathEntries<PathView>,
    files: Seq<MountedFile>,
    mount_has_entries: bool,
    present: Set<PathKey>,
    path: PathView,
    encrypted_path: PathView,
)
    ensures
        start_actions(tracker, encrypted_of, files, mount_has_entries, present).contains(
            ActionView::LocalDeleted { mount_path: path, encrypted_path },
        ) <==> {
            &&& mount_has_entries
            &&& tracker.files.decrypted_signatures.order().contains(path)
            &&& !mounted_keys(files).contains(path.key())
            &&& encrypted_of.contains_key(path)
            &&& encrypted_of[path] == encrypted_path
            &&& present.contains(encrypted_path.key())
        },
{
    let first = file_actions(tracker, encrypted_of, files);
    let chosen = was_deleted(encrypted_of, mounted_keys(files).to_set(), present);
    let order = tracker.files.decrypted_signatures.order();
    let paths = selected(order, chosen);
    let second = if mount_has_entries {
        deletions_of(encrypted_of, paths)
    } else {
        Seq::empty()
    };
    let all = start_actions(tracker, encrypted_of, files, mount_has_entries, present);
    let wanted = ActionView::LocalDeleted { mount_path: path, encrypted_path };
    files_are_not_deleted(tracker, encrypted_of, files);
    selected_contains(order, chosen);
    assert(all == first + second);
    assert(mounted_keys(files).to_set().contains(path.key()) == mounted_keys(files).contains(
        path.key(),
    ));
    if all.contains(wanted) {
        let i = choose|i: int| 0 <= i < all.len() && all[i] == wanted;
        if i < first.len() {
            assert(first[i] == wanted);
            assert(false);
        }
        let k = i - first.len();
        assert(second[k] == wanted);
        assert(paths[k] == path);
        assert(paths.contains(path));
    }
    if mount_has_entries && order.contains(path) && chosen(path) && encrypted_of[path]
        == encrypted_path {
        assert(paths.contains(path));
        let k = choose|k: int| 0 <= k < paths.len() && paths[k] == path;
        assert(second[k] == wanted);
        assert(all[first.len() + k] == wanted);
    }
}

/// The deletions that are held against the limit are all that would be made, each counted once.
pub proof fn deletions_are_counted(
    tracker: SyncTracker,
    encrypted_of: PathEntries<PathView>,
    files: Seq<MountedFile>,
    present: Set<PathKey>,
)
    ensures
        deletion_count(start_actions(tracker, encrypted_of, files, true, present)) == selected(
            tracker.files.decrypted_signatures.order(),
            was_deleted(encrypted_of, mounted_keys(files).to_set(), present),
        ).len(),
        deletion_count(start_actions(tracker, encrypted_of, files, false, present)) == 0,
        deletion_count(start_actions(tracker, encrypted_of, files, true, present)) + file_actions(
            tracker,
            encrypted_of,
            files,
        ).len() == start_actions(tracker, encrypted_of, files, true, present).len(),
{
    let first = file_actions(tracker, encrypted_of, files);
    let paths = selected(
        tracker.files.decrypted_signatures.order(),
        was_deleted(encrypted_of, mounted_keys(files).to_set(), present),
    );
    files_are_not_deleted(tracker, encrypted_of, files);
    deletions_add_up(first, deletions_of(encrypted_of, paths));
    deletions_add_up(first, Seq::empty());
    deletions_are_deletions(encrypted_of, paths);
}

/// What was changed or is new here is queued to be encrypted, and a conflict only if the local
/// version wins; nothing else is.
pub proof fn local_changes_are_queued(action: ActionView, step: ConflictStep)
    ensures
        queues_local(action, step) is Some <==> {
            ||| action is LocalModified
            ||| action is LocalCreated
            ||| action is Conflict && step == ConflictStep::UseLocal
        },
        action matches ActionView::LocalModified { mount_path } ==> queues_local(action, step)
            == Some(mount_path),
        action matches ActionView::LocalCreated { mount_path } ==> queues_local(action, step)
            == Some(mount_path),
        action matches ActionView::Conflict { mount_path, .. } ==> step == ConflictStep::UseLocal
            ==> queues_local(action, step) == Some(mount_path),
{
}

/// How much a summary tells of.
pub open spec fn summed(summary: ReconciliationSummary) -> int {
    summary.unchanged_count + summary.local_modified@.len() + summary.local_created@.len()
        + summary.local_deleted@.len() + summary.remote_modified@.len() + summary.conflicts@.len()
}

/// Every action is told once, under what it is, after those that were told before.
pub proof fn actions_are_told_once(
    before: ReconciliationSummary,
    after: ReconciliationSummary,
    action: ActionView,
)
    requires
        summed_up(before, after, action),
    ensures
        summed(after) == summed(before) + 1,
        path_views(before.local_modified@).is_prefix_of(path_views(after.local_modified@)),
        path_views(before.local_created@).is_prefix_of(path_views(after.local_created@)),
        path_views(before.local_deleted@).is_prefix_of(path_views(after.local_deleted@)),
        path_views(before.remote_modified@).is_prefix_of(path_views(after.remote_modified@)),
        conflict_views(before.conflicts@).is_prefix_of(conflict_views(after.conflicts@)),
        action is Unchanged <==> after.unchanged_count > before.unchanged_count,
        action matches ActionView::LocalModified { mount_path } ==> path_views(
            after.local_modified@,
        ).last() == mount_path && after.local_modified@.len() == before.local_modified@.len() + 1,
        action matches ActionView::LocalCreated { mount_path } ==> path_views(
            after.local_created@,
        ).last() == mount_path && after.local_created@.len() == before.local_created@.len() + 1,
        action matches ActionView::LocalDeleted { mount_path, .. } ==> path_views(
            after.local_deleted@,
        ).last() == mount_path && after.local_deleted@.len() == before.local_deleted@.len() + 1,
        action matches ActionView::RemoteModified { mount_path, .. } ==> path_views(
            after.remote_modified@,
        ).last() == mount_path && after.remote_modified@.len() == before.remote_modified@.len() + 1,
        action matches ActionView::Conflict { mount_path, kind, .. } ==> conflict_views(
            after.conflicts@,
        ).last() == (mount_path, kind) && after.conflicts@.len() == before.conflicts@.len() + 1,
{
    assert(path_views(before.local_modified@).len() == before.local_modified@.len());
    assert(path_views(after.local_modified@).len() == after.local_modified@.len());
    assert(path_views(before.local_created@).len() == before.local_created@.len());
    assert(path_views(after.local_created@).len() == after.local_created@.len());
    assert(path_views(before.local_deleted@).len() == before.local_deleted@.len());
    assert(path_views(after.local_deleted@).len() == after.local_deleted@.len());
    assert(path_views(before.remote_modified@).len() == before.remote_modified@.len());
    assert(path_views(after.remote_modified@).len() == after.remote_modified@.len());
    assert(conflict_views(before.conflicts@).len() == before.conflicts@.len());
    assert(conflict_views(after.conflicts@).len() == after.conflicts@.len());
}

} // verus!
