//! Which directories are made, deleted and encrypted.

use vstd::prelude::*;

use crate::decrypt::budget_journal;
use crate::directories::{
    directory_gate, directory_gated, directory_made, directory_noted, directory_step,
    directory_work, syncs_directory, writeback_allowed, DirectoryGate, DirectoryStep,
};
use crate::errors::{low_space_error, MountSyncError};
use crate::exclusion::{excluded, texts};
use crate::missing::directory_forgotten;
use crate::names::{package_above, package_name};
use crate::path::{file_name_text, same_path, strip_prefix, PathView};
use crate::space::budget_errors_are_low_space;
use crate::tracker::{Digest, FileLedger, FileSignature, PendingWork, SyncTracker, UtcNanos};

verus! {

/// An encrypted directory is made in the mount if nothing is noted of it, if its time of
/// modification or its length is another than the noted one, or if it is not in the mount and was
/// never seen there, or waits to be brought back.
pub proof fn new_directories_are_made(
    tracker: SyncTracker,
    encrypted_path: PathView,
    target: PathView,
    signature: FileSignature,
    target_exists: bool,
)
    ensures
        directory_gate(tracker, encrypted_path, target, signature, target_exists)
            == DirectoryGate::Proceed <==> {
            let noted = tracker.files.encrypted_directory_signatures@;
            ||| !noted.contains_key(encrypted_path)
            ||| noted[encrypted_path].modified_ns != signature.modified_ns
            ||| noted[encrypted_path].len != signature.len
            ||| !target_exists && !tracker.files.decrypted_directory_signatures@.contains_key(target)
            ||| !target_exists && tracker.work.pending_refreshes@.contains_key(target)
        },
{
}

/// That a directory was deleted from the mount is concluded only if it is not there, was seen there
/// before, does not wait to be brought back, and its encrypted form is the noted one.
pub proof fn deleted_directories_were_there(
    tracker: SyncTracker,
    encrypted_path: PathView,
    target: PathView,
    signature: FileSignature,
    target_exists: bool,
)
    requires
        directory_gate(tracker, encrypted_path, target, signature, target_exists)
            == DirectoryGate::DeletedHere,
    ensures
        !target_exists,
        tracker.files.decrypted_directory_signatures@.contains_key(target),
        !tracker.work.pending_refreshes@.contains_key(target),
        tracker.files.encrypted_directory_signatures@.contains_key(encrypted_path),
        tracker.files.encrypted_directory_signatures@[encrypted_path].modified_ns
            == signature.modified_ns,
        tracker.files.encrypted_directory_signatures@[encrypted_path].len == signature.len,
{
}

/// A directory that was made is left alone the next time, and its absence then tells that it was
/// deleted; what is decided about every other directory stays the same.
pub proof fn made_directories_settle(
    before: SyncTracker,
    after: SyncTracker,
    encrypted_path: PathView,
    target: PathView,
    signature: FileSignature,
    seen: FileSignature,
    metadata_hash: Option<Digest>,
    other: PathView,
    other_target: PathView,
    other_signature: FileSignature,
    there: bool,
)
    requires
        directory_made(
            before.files,
            after.files,
            encrypted_path,
            target,
            signature,
            Some(seen),
            metadata_hash,
        ),
        after.work.pending_refreshes@ == before.work.pending_refreshes@.remove(target),
        !same_path(other, encrypted_path),
        !same_path(other_target, target),
    ensures
        directory_gate(after, encrypted_path, target, signature, true) == DirectoryGate::Unchanged,
        directory_gate(after, encrypted_path, target, signature, false)
            == DirectoryGate::DeletedHere,
        directory_gate(after, other, other_target, other_signature, there) == directory_gate(
            before,
            other,
            other_target,
            other_signature,
            there,
        ),
{
}

/// A look at an encrypted directory notes what is new and drops nothing that was noted.
pub proof fn looks_at_directories_lose_nothing(
    before: FileLedger,
    after: FileLedger,
    gate: DirectoryGate,
    encrypted_path: PathView,
    target: PathView,
    signature: FileSignature,
    seen: Option<FileSignature>,
    metadata_hash: Option<Digest>,
    path: PathView,
)
    requires
        directory_gated(
            before,
            after,
            gate,
            encrypted_path,
            target,
            signature,
            seen,
            metadata_hash,
        ),
    ensures
        before.decrypted_directory_signatures@.contains_key(path)
            ==> after.decrypted_directory_signatures@.contains_key(path)
            && after.decrypted_directory_signatures@[path]
            == before.decrypted_directory_signatures@[path],
        before.encrypted_directory_signatures@.contains_key(path)
            ==> after.encrypted_directory_signatures@.contains_key(path),
        gate == DirectoryGate::Unchanged && seen is Some
            ==> after.decrypted_directory_signatures@.contains_key(target),
        gate == DirectoryGate::Proceed ==> after.decrypted_directory_signatures@
            == before.decrypted_directory_signatures@ && after.encrypted_directory_signatures@
            == before.encrypted_directory_signatures@
            && after.decrypted_directory_metadata_hashes@
            == before.decrypted_directory_metadata_hashes@,
{
}

/// A mounted directory is deleted exactly if its encrypted form is gone that was noted before:
/// one that is new, or still has its encrypted form, never is.
pub proof fn directories_are_deleted_with_their_encrypted_form(
    tracker: SyncTracker,
    mount_root: PathView,
    path: PathView,
    encrypted_path: PathView,
    encrypted_exists: bool,
    has_encrypted_state: bool,
    metadata_hash: Option<Digest>,
)
    ensures
        directory_step(
            tracker,
            mount_root,
            path,
            encrypted_path,
            encrypted_exists,
            has_encrypted_state,
            metadata_hash,
        ) == DirectoryStep::Delete <==> !encrypted_exists
            && tracker.files.encrypted_directory_signatures@.contains_key(encrypted_path),
{
}

/// A directory below the root of the mount that no pattern keeps out, and that is no package and
/// lies in none, is synced; a package is synced only where there is something encrypted of it. What
/// is kept out, lies outside of the mount or is its root is not.
pub proof fn ordinary_directories_are_synced(
    tracker: SyncTracker,
    mount_root: PathView,
    path: PathView,
    has_encrypted_state: bool,
)
    ensures
        syncs_directory(tracker, mount_root, path, has_encrypted_state) ==> strip_prefix(
            path,
            mount_root,
        ) is Some && !same_path(path, mount_root) && !excluded(
            texts(tracker.settings.excluded_patterns@),
            path,
        ),
        ({
            &&& strip_prefix(path, mount_root) is Some
            &&& !same_path(path, mount_root)
            &&& !excluded(texts(tracker.settings.excluded_patterns@), path)
        }) ==> {
            let package = (file_name_text(path) matches Some(name) && package_name(name))
                || package_above(strip_prefix(path, mount_root)->0) is Some;
            &&& !package ==> syncs_directory(tracker, mount_root, path, has_encrypted_state)
            &&& package ==> syncs_directory(tracker, mount_root, path, has_encrypted_state)
                == has_encrypted_state
        },
{
}

/// The metadata of a directory that is synced is encrypted whenever it has no encrypted form, was
/// not seen before, or its digest is another than the noted one, if there is room; where there is
/// none, it waits. Otherwise it is left alone.
pub proof fn changed_directories_are_encrypted(
    tracker: SyncTracker,
    mount_root: PathView,
    path: PathView,
    encrypted_path: PathView,
    encrypted_exists: bool,
    has_encrypted_state: bool,
    metadata_hash: Option<Digest>,
)
    requires
        syncs_directory(tracker, mount_root, path, has_encrypted_state),
        encrypted_exists || !tracker.files.encrypted_directory_signatures@.contains_key(
            encrypted_path,
        ),
    ensures
        ({
            let known = tracker.files.decrypted_directory_metadata_hashes@;
            let step = directory_step(
                tracker,
                mount_root,
                path,
                encrypted_path,
                encrypted_exists,
                has_encrypted_state,
                metadata_hash,
            );
            let changed = {
                ||| !encrypted_exists
                ||| !tracker.files.decrypted_directory_signatures@.contains_key(path)
                ||| known.contains_key(path) != (metadata_hash is Some)
                ||| metadata_hash is Some && known[path] != metadata_hash->0
            };
            step == if !changed {
                DirectoryStep::Unchanged
            } else if tracker.held.mount_readonly_active {
                DirectoryStep::WaitSpace
            } else {
                DirectoryStep::Encrypt
            }
        }),
{
}

/// A directory whose metadata was encrypted and noted is left alone as long as the metadata stays
/// the same, is encrypted again once it is another, and is deleted once its encrypted form is gone.
pub proof fn noted_directories_settle(
    before: SyncTracker,
    after: SyncTracker,
    mount_root: PathView,
    path: PathView,
    encrypted_path: PathView,
    signature: FileSignature,
    metadata_hash: Option<Digest>,
    encrypted_signature: FileSignature,
    later_hash: Option<Digest>,
    has_encrypted_state: bool,
)
    requires
        directory_noted(
            before.files,
            after.files,
            path,
            encrypted_path,
            signature,
            metadata_hash,
            Some(encrypted_signature),
        ),
        syncs_directory(after, mount_root, path, has_encrypted_state),
        !after.held.mount_readonly_active,
    ensures
        directory_step(
            after,
            mount_root,
            path,
            encrypted_path,
            true,
            has_encrypted_state,
            later_hash,
        ) == if later_hash == metadata_hash {
            DirectoryStep::Unchanged
        } else {
            DirectoryStep::Encrypt
        },
        directory_step(
            after,
            mount_root,
            path,
            encrypted_path,
            false,
            has_encrypted_state,
            later_hash,
        ) == DirectoryStep::Delete,
{
}

/// A directory that was deleted is forgotten on both sides, and no other is: made anew, it is a new
/// directory.
pub proof fn deleted_directories_are_forgotten(
    before: SyncTracker,
    after: SyncTracker,
    mount_root: PathView,
    path: PathView,
    encrypted_path: PathView,
    has_encrypted_state: bool,
    metadata_hash: Option<Digest>,
    signature: FileSignature,
    other: PathView,
)
    requires
        directory_forgotten(before.files, after.files, path, encrypted_path),
        !same_path(other, path),
        !same_path(other, encrypted_path),
    ensures
        directory_step(
            after,
            mount_root,
            path,
            encrypted_path,
            false,
            has_encrypted_state,
            metadata_hash,
        ) != DirectoryStep::Delete,
        directory_gate(after, encrypted_path, path, signature, false) == DirectoryGate::Proceed,
        after.files.decrypted_directory_signatures@.contains_key(other)
            == before.files.decrypted_directory_signatures@.contains_key(other),
        after.files.encrypted_directory_signatures@.contains_key(other)
            == before.files.encrypted_directory_signatures@.contains_key(other),
{
}

/// After a look at a mounted directory a change waits for it exactly if its metadata has to be
/// encrypted, with the path of its encrypted form and whether room is what it waits for; what waits
/// for every other path stays.
pub proof fn directory_changes_are_on_record(
    before: PendingWork,
    after: PendingWork,
    step: DirectoryStep,
    path: PathView,
    encrypted_path: PathView,
    now: UtcNanos,
    other: PathView,
)
    requires
        directory_work(before, after, step, path, encrypted_path, now),
        !same_path(other, path),
    ensures
        after.pending_writebacks@.contains_key(path) <==> step == DirectoryStep::WaitSpace || step
            == DirectoryStep::Encrypt,
        after.pending_writebacks@.contains_key(path) ==> {
            let entry = after.pending_writebacks@[path];
            &&& entry.encrypted_path@ == encrypted_path
            &&& entry.low_space == (step == DirectoryStep::WaitSpace)
            &&& entry.last_error is Some <==> step == DirectoryStep::WaitSpace
            &&& entry.last_observed_at == now
            &&& entry.first_observed_at == if before.pending_writebacks@.contains_key(path) {
                before.pending_writebacks@[path].first_observed_at
            } else {
                now
            }
        },
        after.pending_writebacks@.contains_key(other) == before.pending_writebacks@.contains_key(
            other,
        ),
        before.pending_writebacks@.contains_key(other) ==> after.pending_writebacks@[other]
            == before.pending_writebacks@[other],
        after.pending_refreshes@.contains_key(other) == before.pending_refreshes@.contains_key(
            other,
        ),
        step == DirectoryStep::Delete ==> !after.pending_refreshes@.contains_key(path),
        before.pending_writebacks@.contains_key(path) != after.pending_writebacks@.contains_key(
            path,
        ) ==> after.pending_writebacks_dirty,
        before.pending_writebacks_dirty ==> after.pending_writebacks_dirty,
        after.pending_deletions == before.pending_deletions,
        after.pending_orphans == before.pending_orphans,
        after.pending_open_unlinked == before.pending_open_unlinked,
        after.pending_metadata == before.pending_metadata,
{
    let now_waiting = after.pending_writebacks@;
    assert(now_waiting.contains_key(path) || !now_waiting.contains_key(path));
    assert(now_waiting.contains_key(other) == before.pending_writebacks@.contains_key(other));
}

/// Something is written on the encrypted side exactly if the mount is not read-only for want of
/// room, the volume has room for it and 256 MiB more, and the volume of the journal that would tell
/// of it, where there is one, has 512 KiB. What room is not known of counts as roomy, and every
/// refusal is one for want of room.
pub proof fn writing_needs_room(
    tracker: SyncTracker,
    res: Result<(), MountSyncError>,
    path: PathView,
    encrypted_path: PathView,
    needed: u64,
    operation: Seq<char>,
    room: Option<u64>,
    journal_room: Option<u64>,
)
    requires
        writeback_allowed(
            tracker,
            res,
            path,
            encrypted_path,
            needed,
            operation,
            room,
            journal_room,
        ),
        needed <= u64::MAX - 268_435_456,
    ensures
        res is Ok <==> {
            &&& !tracker.held.mount_readonly_active
            &&& room is Some ==> room->0 >= needed + 268_435_456
            &&& journal_room is Some && ({
                ||| tracker.journals.pending_writeback_path is Some
                ||| tracker.journals.pending_refresh_path is Some
                ||| tracker.journals.pending_open_unlinked_path is Some
                ||| tracker.journals.pending_metadata_path is Some
                ||| tracker.journals.pending_orphan_path is Some
                ||| tracker.journals.pending_deletion_path is Some
            }) ==> journal_room->0 >= 524_288
        },
        res matches Err(err) ==> low_space_error(err),
{
    if let Err(err) = res {
        if tracker.held.mount_readonly_active {
            budget_errors_are_low_space(err, operation, path.text, 0, 0, 0);
        } else if room is Some && room->0 < needed + 268_435_456 {
            budget_errors_are_low_space(
                err,
                operation,
                encrypted_path.text,
                needed,
                268_435_456,
                room->0,
            );
        } else {
            budget_errors_are_low_space(
                err,
                "pending writeback journal"@,
                budget_journal(tracker)->0@.text,
                262_144,
                262_144,
                journal_room->0,
            );
        }
    }
}

} // verus!
