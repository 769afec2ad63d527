//! When a mounted file counts as changed.

use vstd::prelude::*;

use crate::decrypt::touched_since;
use crate::deletion::{content_in_doubt, digest_refreshed, locally_changed};
use crate::missing::{track_step, TrackStep};
use crate::orphans::{orphan_verdict, FileLook, OrphanVerdict};
use crate::path::{PathEntries, PathKey, PathView};
use crate::reconcile::{action_for, file_actions, ActionView, MountedFile};
use crate::scan::{gate_of, ScanFacts, ScanGate};
use crate::tracker::{ConflictKind, Digest, FileSignature, SyncTracker};

verus! {

/// A mounted file whose time of modification or whose length is another than the noted one was
/// changed, in whatever direction they moved and whatever its digests are.
pub proof fn edits_are_noticed(
    tracker: SyncTracker,
    path: PathView,
    current: FileSignature,
    content_hash: Option<Digest>,
    metadata_hash: Option<Digest>,
)
    requires
        ({
            let noted = tracker.files.decrypted_signatures@[path];
            noted.modified_ns != current.modified_ns || noted.len != current.len
        }),
    ensures
        locally_changed(tracker, path, current, content_hash, metadata_hash),
{
}

/// A mounted file of which nothing is noted counts as changed.
pub proof fn unknown_files_count_as_changed(
    tracker: SyncTracker,
    path: PathView,
    current: FileSignature,
    content_hash: Option<Digest>,
    metadata_hash: Option<Digest>,
)
    requires
        !tracker.files.decrypted_signatures@.contains_key(path),
    ensures
        locally_changed(tracker, path, current, content_hash, metadata_hash),
{
}

/// A mounted file counts as unchanged only if its signature is the noted one, or if it differs from
/// it in nothing but the time of change of the metadata, its content could be read and is not known
/// to be other than it was, and its metadata is the noted one.
pub proof fn unchanged_files_are_the_noted_ones(
    tracker: SyncTracker,
    path: PathView,
    current: FileSignature,
    content_hash: Option<Digest>,
    metadata_hash: Option<Digest>,
)
    requires
        !locally_changed(tracker, path, current, content_hash, metadata_hash),
    ensures
        tracker.files.decrypted_signatures@.contains_key(path),
        tracker.files.decrypted_signatures@[path].modified_ns == current.modified_ns,
        tracker.files.decrypted_signatures@[path].len == current.len,
        tracker.files.decrypted_signatures@[path].ctime_ns != current.ctime_ns ==> {
            &&& content_hash is Some
            &&& tracker.files.decrypted_hashes@.contains_key(path)
                ==> tracker.files.decrypted_hashes@[path] == content_hash->0
            &&& metadata_hash is Some <==> tracker.files.decrypted_metadata_hashes@.contains_key(
                path,
            )
            &&& metadata_hash is Some ==> tracker.files.decrypted_metadata_hashes@[path]
                == metadata_hash->0
        },
{
}

/// A mounted file with the noted signature is unchanged, and so is one whose metadata was only
/// touched: its times and length are the noted ones but for the time of change of the metadata, and
/// so are the digests of its content and of its metadata.
pub proof fn untouched_files_are_unchanged(
    tracker: SyncTracker,
    path: PathView,
    current: FileSignature,
    content_hash: Option<Digest>,
    metadata_hash: Option<Digest>,
)
    requires
        tracker.files.decrypted_signatures@.contains_key(path),
        tracker.files.decrypted_signatures@[path].modified_ns == current.modified_ns,
        tracker.files.decrypted_signatures@[path].len == current.len,
        tracker.files.decrypted_signatures@[path].ctime_ns == current.ctime_ns || {
            &&& content_hash is Some
            &&& tracker.files.decrypted_hashes@.contains_key(path)
                ==> tracker.files.decrypted_hashes@[path] == content_hash->0
            &&& metadata_hash is Some <==> tracker.files.decrypted_metadata_hashes@.contains_key(
                path,
            )
            &&& metadata_hash is Some ==> tracker.files.decrypted_metadata_hashes@[path]
                == metadata_hash->0
        },
    ensures
        !locally_changed(tracker, path, current, content_hash, metadata_hash),
{
}

/// Two looks at a mounted file that find the same signature and the same digests: the second finds
/// no change in a file whose metadata was only touched and whose content could be read, for the
/// first noted the digests.
pub proof fn a_touch_is_noticed_once(
    before: SyncTracker,
    after: SyncTracker,
    path: PathView,
    current: FileSignature,
    content_hash: Digest,
    metadata_hash: Option<Digest>,
)
    requires
        before.files.decrypted_signatures@.contains_key(path),
        before.files.decrypted_signatures@[path].modified_ns == current.modified_ns,
        before.files.decrypted_signatures@[path].len == current.len,
        before.files.decrypted_signatures@[path].ctime_ns != current.ctime_ns,
        after.files.decrypted_signatures@ == before.files.decrypted_signatures@,
        after.files.decrypted_hashes@ == if content_in_doubt(before, path, current) {
            before.files.decrypted_hashes@.insert(path, content_hash)
        } else {
            before.files.decrypted_hashes@
        },
        after.files.decrypted_metadata_hashes@ == if content_in_doubt(before, path, current) {
            digest_refreshed(before.files.decrypted_metadata_hashes@, path, metadata_hash)
        } else {
            before.files.decrypted_metadata_hashes@
        },
    ensures
        !locally_changed(after, path, current, Some(content_hash), metadata_hash),
{
}

/// A file that was changed here is never taken away as an orphan: it is no orphan any longer.
pub proof fn edited_orphans_stay(
    tracker: SyncTracker,
    mount_root: PathView,
    path: PathView,
    encrypted_exists: bool,
    mount_exists: bool,
    current: FileSignature,
    content_hash: Option<Digest>,
    metadata_hash: Option<Digest>,
)
    requires
        ({
            let noted = tracker.files.decrypted_signatures@;
            ||| !noted.contains_key(path)
            ||| noted[path].modified_ns != current.modified_ns
            ||| noted[path].len != current.len
        }),
    ensures
        ({
            let verdict = orphan_verdict(
                tracker,
                mount_root,
                path,
                encrypted_exists,
                mount_exists,
                FileLook::Found { signature: current, content_hash, metadata_hash },
            );
            &&& verdict != OrphanVerdict::Retain
            &&& mount_root.names.is_prefix_of(path.names) && mount_root.absolute == path.absolute
                ==> verdict == OrphanVerdict::Cancel
        }),
{
}

/// An orphan with the noted signature goes to the retention folder as soon as its encrypted form was
/// missing in enough scans, one of them without faults, and stays before.
pub proof fn unchanged_orphans_are_retained(
    tracker: SyncTracker,
    mount_root: PathView,
    path: PathView,
    current: FileSignature,
    content_hash: Option<Digest>,
    metadata_hash: Option<Digest>,
)
    requires
        tracker.files.decrypted_signatures@.contains_key(path),
        tracker.files.decrypted_signatures@[path] == current,
        mount_root.names.is_prefix_of(path.names),
        mount_root.absolute == path.absolute,
    ensures
        ({
            let pending = tracker.work.pending_orphans@[path];
            let enough = tracker.settings.deletion_config.min_consecutive_missing_scans;
            orphan_verdict(
                tracker,
                mount_root,
                path,
                false,
                true,
                FileLook::Found { signature: current, content_hash, metadata_hash },
            ) == if pending.consecutive_missing_scans >= enough && pending.had_healthy_scan {
                OrphanVerdict::Retain
            } else {
                OrphanVerdict::Wait
            }
        }),
{
}

/// A file that is back on the encrypted side, or gone from the mount, is no orphan, and one that
/// could not be looked at waits.
pub proof fn orphans_need_a_missing_form(
    tracker: SyncTracker,
    mount_root: PathView,
    path: PathView,
    encrypted_exists: bool,
    mount_exists: bool,
    look: FileLook,
)
    requires
        mount_root.names.is_prefix_of(path.names),
        mount_root.absolute == path.absolute,
    ensures
        ({
            let verdict = orphan_verdict(
                tracker,
                mount_root,
                path,
                encrypted_exists,
                mount_exists,
                look,
            );
            &&& encrypted_exists || !mount_exists || look is Missing ==> verdict
                == OrphanVerdict::Cancel
            &&& !encrypted_exists && mount_exists && look is Unreadable ==> verdict
                == OrphanVerdict::Wait
        }),
{
}

/// A file that was changed here is not counted as an orphan when the encrypted side is read.
pub proof fn edited_files_are_not_counted(
    tracker: SyncTracker,
    path: PathView,
    encrypted_path: PathView,
    expected: Set<PathKey>,
    current: FileSignature,
    content_hash: Option<Digest>,
    metadata_hash: Option<Digest>,
)
    requires
        ({
            let noted = tracker.files.decrypted_signatures@;
            ||| !noted.contains_key(path)
            ||| noted[path].modified_ns != current.modified_ns
            ||| noted[path].len != current.len
        }),
    ensures
        track_step(
            tracker,
            path,
            encrypted_path,
            expected,
            FileLook::Found { signature: current, content_hash, metadata_hash },
        ) != TrackStep::Count,
{
}

/// A file that was changed here does not wait as an orphan when the mount is scanned.
pub proof fn edited_files_do_not_wait_as_orphans(
    tracker: SyncTracker,
    mount_root: PathView,
    path: PathView,
    facts: ScanFacts,
)
    requires
        ({
            let noted = tracker.files.decrypted_signatures@;
            ||| !noted.contains_key(path)
            ||| noted[path].modified_ns != facts.signature.modified_ns
            ||| noted[path].len != facts.signature.len
        }),
    ensures
        gate_of(tracker, mount_root, path, facts) != ScanGate::Orphan,
{
}

/// At the start of a mount a file that was changed here is queued to be encrypted. Where its
/// encrypted form was changed as well, the two are in conflict, and only then.
pub proof fn edited_files_are_reconciled(
    tracker: SyncTracker,
    encrypted_of: PathEntries<PathView>,
    path: PathView,
    current: FileSignature,
    content_hash: Option<Digest>,
    metadata_hash: Option<Digest>,
    encrypted_now: Option<FileSignature>,
)
    requires
        tracker.files.decrypted_signatures@.contains_key(path),
        ({
            let noted = tracker.files.decrypted_signatures@[path];
            noted.modified_ns != current.modified_ns || noted.len != current.len
        }),
    ensures
        ({
            let stored = tracker.files.encrypted_signatures@;
            let there = encrypted_of.contains_key(path) && stored.contains_key(encrypted_of[path])
                && encrypted_now is Some && encrypted_now->0 != stored[encrypted_of[path]];
            action_for(
                tracker,
                encrypted_of,
                path,
                current,
                content_hash,
                metadata_hash,
                encrypted_now,
            ) == if there {
                ActionView::Conflict {
                    mount_path: path,
                    encrypted_path: encrypted_of[path],
                    kind: ConflictKind::LocalRemoteBothModified,
                }
            } else {
                ActionView::LocalModified { mount_path: path }
            }
        }),
{
}

/// At the start of a mount a file with the noted signature is left alone where its encrypted form
/// has the noted signature, and is decrypted anew where that has another.
pub proof fn untouched_files_follow_the_other_side(
    tracker: SyncTracker,
    encrypted_of: PathEntries<PathView>,
    path: PathView,
    current: FileSignature,
    content_hash: Option<Digest>,
    metadata_hash: Option<Digest>,
    encrypted_now: FileSignature,
)
    requires
        tracker.files.decrypted_signatures@.contains_key(path),
        tracker.files.decrypted_signatures@[path] == current,
        encrypted_of.contains_key(path),
        tracker.files.encrypted_signatures@.contains_key(encrypted_of[path]),
    ensures
        action_for(
            tracker,
            encrypted_of,
            path,
            current,
            content_hash,
            metadata_hash,
            Some(encrypted_now),
        ) == if tracker.files.encrypted_signatures@[encrypted_of[path]] == encrypted_now {
            ActionView::Unchanged { path }
        } else {
            ActionView::RemoteModified { mount_path: path, encrypted_path: encrypted_of[path] }
        },
{
}

/// At the start of a mount a file of which nothing is noted is new here.
pub proof fn unknown_files_are_new(
    tracker: SyncTracker,
    encrypted_of: PathEntries<PathView>,
    path: PathView,
    current: FileSignature,
    content_hash: Option<Digest>,
    metadata_hash: Option<Digest>,
    encrypted_now: Option<FileSignature>,
)
    requires
        !tracker.files.decrypted_signatures@.contains_key(path),
    ensures
        action_for(
            tracker,
            encrypted_of,
            path,
            current,
            content_hash,
            metadata_hash,
            encrypted_now,
        ) == (ActionView::LocalCreated { mount_path: path }),
{
}

/// No file that was seen at the start of a mount is passed over: for each there is an action, and
/// for one that was changed here the action queues it or calls it a conflict.
pub proof fn every_edit_has_its_action(
    tracker: SyncTracker,
    encrypted_of: PathEntries<PathView>,
    files: Seq<MountedFile>,
    i: int,
)
    requires
        0 <= i < files.len(),
        files[i].seen is Some,
        ({
            let noted = tracker.files.decrypted_signatures@;
            let current = files[i].seen->0.signature;
            ||| !noted.contains_key(files[i].path@)
            ||| noted[files[i].path@].modified_ns != current.modified_ns
            ||| noted[files[i].path@].len != current.len
        }),
    ensures
        exists|k: int|
            0 <= k < file_actions(tracker, encrypted_of, files).len() && match #[trigger] file_actions(
                tracker,
                encrypted_of,
                files,
            )[k] {
                ActionView::LocalModified { mount_path } => mount_path == files[i].path@,
                ActionView::LocalCreated { mount_path } => mount_path == files[i].path@,
                ActionView::Conflict { mount_path, .. } => mount_path == files[i].path@,
                _ => false,
            },
    decreases files.len(),
{
    let actions = file_actions(tracker, encrypted_of, files);
    let front = file_actions(tracker, encrypted_of, files.drop_last());
    if i == files.len() - 1 {
        assert(actions.len() == front.len() + 1);
        assert(actions[front.len() as int] == actions.last());
    } else {
        every_edit_has_its_action(tracker, encrypted_of, files.drop_last(), i);
        let k = choose|k: int|
            0 <= k < front.len() && match #[trigger] front[k] {
                ActionView::LocalModified { mount_path } => mount_path == files[i].path@,
                ActionView::LocalCreated { mount_path } => mount_path == files[i].path@,
                ActionView::Conflict { mount_path, .. } => mount_path == files[i].path@,
                _ => false,
            };
        assert(actions[k] == front[k]);
    }
}

/// A place whose time of modification or length is another than at the first look was touched, and
/// so was one that had no file then.
pub proof fn places_that_changed_were_touched(
    tracker: SyncTracker,
    target: PathView,
    initial: Option<FileSignature>,
    current: FileSignature,
    content_hash: Option<Digest>,
    metadata_hash: Option<Digest>,
)
    requires
        match initial {
            Some(first) => first.modified_ns != current.modified_ns || first.len != current.len,
            None => true,
        },
    ensures
        touched_since(
            tracker.files,
            target,
            initial,
            FileLook::Found { signature: current, content_hash, metadata_hash },
        ),
{
}

/// A place with the signature of the first look was not touched. One that was not touched has that
/// signature but for the time of change of the metadata; where that differs its content could be
/// read and is not known to be other than it was, and its metadata is the noted one.
pub proof fn untouched_places_are_the_same(
    tracker: SyncTracker,
    target: PathView,
    first: FileSignature,
    current: FileSignature,
    content_hash: Option<Digest>,
    metadata_hash: Option<Digest>,
)
    ensures
        ({
            let touched = touched_since(
                tracker.files,
                target,
                Some(first),
                FileLook::Found { signature: current, content_hash, metadata_hash },
            );
            let known = tracker.files.decrypted_hashes@;
            let metadata = tracker.files.decrypted_metadata_hashes@;
            &&& first == current ==> !touched
            &&& !touched ==> first.modified_ns == current.modified_ns && first.len == current.len
            &&& !touched && first.ctime_ns != current.ctime_ns ==> {
                &&& content_hash is Some
                &&& known.contains_key(target) ==> known[target] == content_hash->0
                &&& metadata_hash is Some <==> metadata.contains_key(target)
                &&& metadata_hash is Some ==> metadata[target] == metadata_hash->0
            }
        }),
{
}

} // verus!
