//! Which encrypted files are brought into the mount, and what follows on it.

use vstd::prelude::*;

use crate::decrypt::{
    decrypt_gate, decrypt_noted, destination, held_gated, ledger_gated, ready_path,
    refresh_allowed, work_gated, DecryptFacts, DecryptGate, WrittenFile,
};
use crate::deletion::locally_changed;
use crate::errors::MountSyncError;
use crate::held::text_values;
use crate::path::{same_path, PathView, SyncPath};
use crate::pending::path_values;
use crate::scan::{content_step, ContentStep, ScanFacts};
use crate::space::{LOW_SPACE_JOURNAL_RESERVE_BYTES, LOW_SPACE_WARNING_RESERVE_BYTES};
use crate::tracker::{Digest, FileSignature, SyncTracker};

verus! {

/// Nothing keeps an encrypted file out of its place: its deletion is not pending, and the place is
/// not hard-linked and was not deleted while a process has it open.
pub open spec fn is_admitted(
    tracker: SyncTracker,
    encrypted_path: PathView,
    target: PathView,
    facts: DecryptFacts,
) -> bool {
    &&& !tracker.work.pending_deletions@.contains_key(encrypted_path)
    &&& !tracker.held.unsupported_hard_link_paths@.contains_key(target)
    &&& !(facts.target_exists && (facts.target_links matches Some((is_file, links, _)) && is_file
        && links > 1))
    &&& !(tracker.work.pending_open_unlinked@.contains_key(target) && !facts.target_exists)
}

/// An encrypted file that is new, or whose time of modification or length is another than the noted
/// one, is decrypted wherever nothing keeps it out of its place and it has its key, whatever is
/// mounted there.
pub proof fn new_encrypted_files_are_decrypted(
    tracker: SyncTracker,
    encrypted_path: PathView,
    target: PathView,
    known: bool,
    signature: FileSignature,
    facts: DecryptFacts,
)
    requires
        is_admitted(tracker, encrypted_path, target, facts),
        facts.has_key,
        ({
            let noted = tracker.files.encrypted_signatures@;
            ||| !noted.contains_key(encrypted_path)
            ||| noted[encrypted_path].modified_ns != signature.modified_ns
            ||| noted[encrypted_path].len != signature.len
        }),
    ensures
        decrypt_gate(tracker, encrypted_path, target, known, signature, facts)
            == DecryptGate::Proceed,
{
}

/// An encrypted file is said to have no key only where it has none, and it is decrypted only where
/// it has one.
pub proof fn keys_decide(
    tracker: SyncTracker,
    encrypted_path: PathView,
    target: PathView,
    known: bool,
    signature: FileSignature,
    facts: DecryptFacts,
)
    ensures
        ({
            let gate = decrypt_gate(tracker, encrypted_path, target, known, signature, facts);
            &&& gate == DecryptGate::NoKey ==> !facts.has_key
            &&& gate == DecryptGate::Proceed ==> facts.has_key
        }),
{
}

/// Having its key or not makes no difference to an encrypted file but that it is decrypted or
/// cannot be.
pub proof fn keys_change_nothing_else(
    tracker: SyncTracker,
    encrypted_path: PathView,
    target: PathView,
    known: bool,
    signature: FileSignature,
    with: DecryptFacts,
    without: DecryptFacts,
)
    requires
        with.has_key,
        !without.has_key,
        without == (DecryptFacts { has_key: false, ..with }),
    ensures
        ({
            let a = decrypt_gate(tracker, encrypted_path, target, known, signature, with);
            let b = decrypt_gate(tracker, encrypted_path, target, known, signature, without);
            &&& a == DecryptGate::Proceed <==> b == DecryptGate::NoKey
            &&& a != DecryptGate::Proceed ==> a == b
        }),
{
}

/// An encrypted file whose deletion is pending, or whose place is hard-linked or was deleted while a
/// process has it open, is not decrypted, and each of these is told apart.
pub proof fn kept_out_files_are_not_decrypted(
    tracker: SyncTracker,
    encrypted_path: PathView,
    target: PathView,
    known: bool,
    signature: FileSignature,
    facts: DecryptFacts,
)
    ensures
        ({
            let gate = decrypt_gate(tracker, encrypted_path, target, known, signature, facts);
            let deleted = tracker.work.pending_deletions@.contains_key(encrypted_path);
            let held = tracker.held.unsupported_hard_link_paths@.contains_key(target);
            let linked = facts.target_exists && (facts.target_links matches Some((is_file, links, _))
                && is_file && links > 1);
            let open = tracker.work.pending_open_unlinked@.contains_key(target)
                && !facts.target_exists;
            &&& deleted <==> gate == DecryptGate::PendingDeletion
            &&& !deleted && held <==> gate == DecryptGate::LinkKnown
            &&& !deleted && !held && linked <==> gate == DecryptGate::LinkFound
            &&& !deleted && !held && open <==> gate == DecryptGate::StillOpen
        }),
{
}

/// An encrypted file is passed over as unchanged only if its noted time of modification and length
/// are those that it has. It is passed over as mounted only if a file is there, and as deleted here
/// only if it was mounted before and none is there.
pub proof fn only_unchanged_files_are_passed_over(
    tracker: SyncTracker,
    encrypted_path: PathView,
    target: PathView,
    known: bool,
    signature: FileSignature,
    facts: DecryptFacts,
)
    ensures
        ({
            let gate = decrypt_gate(tracker, encrypted_path, target, known, signature, facts);
            let noted = tracker.files.encrypted_signatures@;
            let mapped = tracker.files.path_mapping@;
            let passed = gate == DecryptGate::Unchanged || gate == DecryptGate::UnchangedCached
                || gate == DecryptGate::DeletedHere;
            &&& passed ==> noted.contains_key(encrypted_path)
                && noted[encrypted_path].modified_ns == signature.modified_ns
                && noted[encrypted_path].len == signature.len
            &&& gate == DecryptGate::Unchanged ==> known && facts.target_exists
            &&& gate == DecryptGate::UnchangedCached ==> facts.cached_exists
                && mapped.contains_key(encrypted_path)
            &&& gate == DecryptGate::UnchangedCached && !(known && facts.target_exists)
                ==> tracker.files.decrypted_signatures@.contains_key(mapped[encrypted_path]@)
            &&& gate == DecryptGate::DeletedHere ==> known && !facts.target_exists
        }),
{
}

/// An encrypted file that nothing keeps out, is as it was noted and was mounted before is not
/// decrypted again: it counts as unchanged where a file is there, and as deleted here where none is.
pub proof fn mounted_files_are_not_decrypted_again(
    tracker: SyncTracker,
    encrypted_path: PathView,
    target: PathView,
    signature: FileSignature,
    facts: DecryptFacts,
)
    requires
        is_admitted(tracker, encrypted_path, target, facts),
        tracker.files.encrypted_signatures@.contains_key(encrypted_path),
        tracker.files.encrypted_signatures@[encrypted_path].modified_ns == signature.modified_ns,
        tracker.files.encrypted_signatures@[encrypted_path].len == signature.len,
    ensures
        ({
            let gate = decrypt_gate(tracker, encrypted_path, target, true, signature, facts);
            if facts.target_exists {
                gate == DecryptGate::Unchanged || gate == DecryptGate::UnchangedCached
            } else {
                gate == DecryptGate::DeletedHere
            }
        }),
{
}

/// An encrypted file that is as it was noted, but is not known to be mounted anywhere or is not
/// there any longer, is decrypted again.
pub proof fn lost_files_are_decrypted_again(
    tracker: SyncTracker,
    encrypted_path: PathView,
    target: PathView,
    signature: FileSignature,
    facts: DecryptFacts,
)
    requires
        is_admitted(tracker, encrypted_path, target, facts),
        facts.has_key,
        ({
            let mapped = tracker.files.path_mapping@;
            ||| !facts.cached_exists
            ||| !mapped.contains_key(encrypted_path)
            ||| !tracker.files.decrypted_signatures@.contains_key(mapped[encrypted_path]@)
        }),
    ensures
        decrypt_gate(tracker, encrypted_path, target, false, signature, facts)
            == DecryptGate::Proceed,
{
}

/// Deciding about an encrypted file leaves what is noted of every other one, and what was known of
/// the mounted files. Of a file that is to be decrypted nothing is noted yet.
pub proof fn decisions_touch_one_file(
    before: SyncTracker,
    after: SyncTracker,
    gate: DecryptGate,
    encrypted_path: PathView,
    ready: PathView,
    signature: FileSignature,
    facts: DecryptFacts,
    other: PathView,
)
    requires
        ledger_gated(before.files, after.files, gate, encrypted_path, ready, signature, facts),
    ensures
        !same_path(other, encrypted_path) ==> {
            &&& after.files.encrypted_signatures@.contains_key(other)
                == before.files.encrypted_signatures@.contains_key(other)
            &&& after.files.encrypted_signatures@[other] == before.files.encrypted_signatures@[other]
            &&& path_values(after.files.path_mapping@).contains_key(other) == path_values(
                before.files.path_mapping@,
            ).contains_key(other)
            &&& path_values(after.files.path_mapping@)[other] == path_values(
                before.files.path_mapping@,
            )[other]
        },
        before.files.decrypted_signatures@.contains_key(other) ==> {
            &&& after.files.decrypted_signatures@.contains_key(other)
            &&& after.files.decrypted_signatures@[other] == before.files.decrypted_signatures@[other]
        },
        after.files.decrypted_hashes@ == before.files.decrypted_hashes@,
        gate == DecryptGate::Proceed ==> {
            &&& after.files.encrypted_signatures@ == before.files.encrypted_signatures@
            &&& after.files.decrypted_signatures@ == before.files.decrypted_signatures@
            &&& path_values(after.files.path_mapping@) == path_values(before.files.path_mapping@)
            &&& after.files.file_id_to_mount_path@ == before.files.file_id_to_mount_path@
        },
{
}

/// An encrypted file that is not decrypted though it was changed is noted with its signature and its
/// place, so that it is known: one whose deletion is pending with the place that was deleted, the
/// others with their own.
pub proof fn refused_files_are_noted(
    before: SyncTracker,
    after: SyncTracker,
    encrypted_path: PathView,
    target: PathView,
    known: bool,
    signature: FileSignature,
    facts: DecryptFacts,
)
    requires
        ({
            let gate = decrypt_gate(before, encrypted_path, target, known, signature, facts);
            let ready = ready_path(before, gate, encrypted_path, target);
            &&& gate == DecryptGate::PendingDeletion || gate == DecryptGate::StillOpen || gate
                == DecryptGate::DeletedHere || gate == DecryptGate::NoKey
            &&& ledger_gated(
                before.files,
                after.files,
                gate,
                encrypted_path,
                ready,
                signature,
                facts,
            )
        }),
    ensures
        after.files.encrypted_signatures@.contains_key(encrypted_path),
        after.files.encrypted_signatures@[encrypted_path] == signature,
        path_values(after.files.path_mapping@).contains_key(encrypted_path),
        path_values(after.files.path_mapping@)[encrypted_path]
            == if before.work.pending_deletions@.contains_key(encrypted_path) {
            before.work.pending_deletions@[encrypted_path].mount_path@
        } else {
            target
        },
{
}

/// A place that is found to be hard-linked is held back from then on: nothing is written back or
/// refreshed there, no identifier is mounted there any longer, and the next look finds it held.
pub proof fn linked_places_are_held(
    before: SyncTracker,
    after: SyncTracker,
    encrypted_path: PathView,
    target: PathView,
    known: bool,
    signature: FileSignature,
    facts: DecryptFacts,
    again: DecryptFacts,
    id: Seq<char>,
)
    requires
        !before.work.pending_deletions@.contains_key(encrypted_path),
        !before.held.unsupported_hard_link_paths@.contains_key(target),
        facts.target_exists,
        facts.target_links matches Some((is_file, links, _)) && is_file && links > 1,
        ({
            let gate = decrypt_gate(before, encrypted_path, target, known, signature, facts);
            let ready = ready_path(before, gate, encrypted_path, target);
            &&& ledger_gated(
                before.files,
                after.files,
                gate,
                encrypted_path,
                ready,
                signature,
                facts,
            )
            &&& work_gated(before.work, after.work, gate, target)
            &&& held_gated(before.held, after.held, gate, target, facts)
        }),
    ensures
        after.held.unsupported_hard_link_paths@.contains_key(target),
        !after.work.pending_writebacks@.contains_key(target),
        !after.work.pending_refreshes@.contains_key(target),
        after.files.file_id_to_mount_path@.contains_key(id) ==> !same_path(
            after.files.file_id_to_mount_path@[id]@,
            target,
        ),
        decrypt_gate(after, encrypted_path, target, known, signature, again)
            == DecryptGate::LinkKnown,
{
    let held = text_values(after.held.unsupported_hard_link_paths@);
    assert(held.contains_key(target));
    assert(after.work.pending_deletions@ == before.work.pending_deletions@);
}

/// A file that was just decrypted into its place settles: what was written is no local change and
/// needs no encryption, its identifier leads to the place, and the encrypted file is not decrypted
/// again as long as it is the same and the file is there.
pub proof fn decrypted_files_settle(
    before: SyncTracker,
    after: SyncTracker,
    encrypted_path: PathView,
    target: PathView,
    signature: FileSignature,
    file_id: Seq<char>,
    seen: FileSignature,
    written: WrittenFile,
    plain_target: PathView,
    content_hash: Option<Digest>,
    metadata_hash: Option<Digest>,
    scan: ScanFacts,
    facts: DecryptFacts,
    later: FileSignature,
)
    requires
        decrypt_noted(
            before.files,
            after.files,
            encrypted_path,
            target,
            target,
            false,
            signature,
            file_id,
            written,
        ),
        written.seen == Some(seen),
        scan.signature == seen,
        scan.encrypted_exists,
        later.modified_ns == signature.modified_ns,
        later.len == signature.len,
        facts.target_exists,
    ensures
        !locally_changed(after, target, seen, content_hash, metadata_hash),
        content_step(after, target, scan) == ContentStep::Unchanged,
        after.files.file_id_to_mount_path@.contains_key(file_id),
        destination(after.files, file_id, plain_target).0 == target,
        destination(after.files, file_id, plain_target).3,
        ({
            let gate = decrypt_gate(after, encrypted_path, target, true, later, facts);
            gate != DecryptGate::Proceed && gate != DecryptGate::NoKey && gate
                != DecryptGate::DeletedHere
        }),
{
    let ids = path_values(after.files.file_id_to_mount_path@);
    assert(ids.contains_key(file_id));
    assert(ids[file_id] == target);
}

/// A conflict copy leaves what is known of the place itself, and what is known of the copy is what
/// was written.
pub proof fn conflict_copies_leave_the_place(
    before: SyncTracker,
    after: SyncTracker,
    encrypted_path: PathView,
    target: PathView,
    written_to: PathView,
    signature: FileSignature,
    file_id: Seq<char>,
    seen: FileSignature,
    written: WrittenFile,
    current: FileSignature,
    content_hash: Option<Digest>,
    metadata_hash: Option<Digest>,
)
    requires
        decrypt_noted(
            before.files,
            after.files,
            encrypted_path,
            target,
            written_to,
            true,
            signature,
            file_id,
            written,
        ),
        written.seen == Some(seen),
        !same_path(written_to, target),
    ensures
        locally_changed(after, target, current, content_hash, metadata_hash) == locally_changed(
            before,
            target,
            current,
            content_hash,
            metadata_hash,
        ),
        after.files.decrypted_signatures@.contains_key(written_to),
        after.files.decrypted_signatures@[written_to] == seen,
        !after.files.decrypted_hashes@.contains_key(written_to),
        after.files.encrypted_signatures@.contains_key(encrypted_path),
        after.files.encrypted_signatures@[encrypted_path] == signature,
{
}

/// A file that was mounted before goes to the place that it has, whatever its name in the encrypted
/// file is now.
pub proof fn mounted_files_keep_their_place(
    tracker: SyncTracker,
    file_id: Seq<char>,
    one: PathView,
    other: PathView,
)
    requires
        tracker.files.file_id_to_mount_path@.contains_key(file_id),
    ensures
        destination(tracker.files, file_id, one).0 == destination(tracker.files, file_id, other).0,
        destination(tracker.files, file_id, one).0
            == tracker.files.file_id_to_mount_path@[file_id]@,
        destination(tracker.files, file_id, one).3,
{
}

/// A file is written into the mount wherever it is not read-only and there is room, for the file
/// with what its writing takes and a reserve, and for the journal. It is refused wherever one of
/// these is wanting.
pub proof fn files_are_written_where_there_is_room(
    tracker: SyncTracker,
    res: Result<SyncPath, MountSyncError>,
    target: PathView,
    place: PathView,
    needed: u64,
    operation: Seq<char>,
    room: u64,
    journal_room: u64,
)
    requires
        refresh_allowed(
            tracker,
            res,
            target,
            place,
            needed,
            operation,
            Some(room),
            Some(journal_room),
        ),
        needed + LOW_SPACE_WARNING_RESERVE_BYTES <= u64::MAX,
    ensures
        !tracker.held.mount_readonly_active && room >= needed + LOW_SPACE_WARNING_RESERVE_BYTES
            && journal_room >= 2 * LOW_SPACE_JOURNAL_RESERVE_BYTES ==> res is Ok && res->Ok_0@
            == place,
        tracker.held.mount_readonly_active || room < needed + LOW_SPACE_WARNING_RESERVE_BYTES
            ==> res is Err,
        tracker.journals.pending_refresh_path is Some && journal_room < 2
            * LOW_SPACE_JOURNAL_RESERVE_BYTES ==> res is Err,
{
}

} // verus!
