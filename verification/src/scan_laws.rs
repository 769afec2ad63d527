//! Which mounted files are encrypted, and when.

use vstd::prelude::*;

use crate::config::STREAM_THRESHOLD_BYTES;
use crate::errors::{low_space_error, MountSyncError};
use crate::exclusion::{excluded, texts};
use crate::local_only::has_marker;
use crate::names::{temp_like, transactional_reason};
use crate::path::{file_name_text, same_path, PathKey, PathView, TextEntries};
use crate::pending::path_values;
use crate::scan::{
    content_step, digest_wanted, digests_noted, gate_of, held_scanned, id_is_taken, ids_settled,
    ledger_scanned, only_touched, orphan_was_compared, stable_noted, touch_is_harmless,
    work_scanned, writeback_noted, ContentStep, ScanFacts, ScanGate,
};
use crate::tracker::{ClockNanos, FileSignature, SyncTracker};
use crate::writeback::{
    encryption_noted, retry_noted, retry_step, retry_waits, scan_noted, waits_again,
    writeback_cleared, writeback_failed, RetryFacts, RetryStep,
};

verus! {

/// A mounted file whose time of modification or length is another than the noted one never counts
/// as unchanged, whatever digests are known or given; nor does one of which nothing is noted, or
/// one without an encrypted form.
pub proof fn edited_files_are_not_passed_over(
    tracker: SyncTracker,
    path: PathView,
    facts: ScanFacts,
)
    requires
        ({
            let noted = tracker.files.decrypted_signatures@;
            ||| !facts.encrypted_exists
            ||| !noted.contains_key(path)
            ||| noted[path].modified_ns != facts.signature.modified_ns
            ||| noted[path].len != facts.signature.len
        }),
    ensures
        content_step(tracker, path, facts) != ContentStep::Unchanged,
{
}

/// A mounted file counts as unchanged only if it has an encrypted form and its signature is the
/// noted one, or differs from it in nothing but the time of change of the metadata while the digest
/// of its metadata and that of its content are the noted ones. Where no digest of the content is
/// noted one could be taken, unless the file is too large for that.
pub proof fn passed_over_files_are_the_noted_ones(
    tracker: SyncTracker,
    path: PathView,
    facts: ScanFacts,
)
    requires
        content_step(tracker, path, facts) == ContentStep::Unchanged,
    ensures
        facts.encrypted_exists,
        tracker.files.decrypted_signatures@.contains_key(path),
        tracker.files.decrypted_signatures@[path].modified_ns == facts.signature.modified_ns,
        tracker.files.decrypted_signatures@[path].len == facts.signature.len,
        tracker.files.decrypted_signatures@[path].ctime_ns != facts.signature.ctime_ns ==> {
            let known = tracker.files.decrypted_hashes@;
            let metadata = tracker.files.decrypted_metadata_hashes@;
            let limit = tracker.settings.stream_threshold_bytes;
            &&& facts.metadata_hash is Some <==> metadata.contains_key(path)
            &&& facts.metadata_hash is Some ==> metadata[path] == facts.metadata_hash->0
            &&& known.contains_key(path) ==> facts.content_hash == Some(known[path])
            &&& !known.contains_key(path) && facts.content_hash is None ==> facts.signature.len > (
            if limit == 0 {
                STREAM_THRESHOLD_BYTES
            } else {
                limit
            })
        },
{
}

/// A mounted file with an encrypted form and the noted signature is unchanged, and so is one of
/// which only the metadata was touched, if the digests of its content and of its metadata are the
/// noted ones.
pub proof fn untouched_files_are_passed_over(tracker: SyncTracker, path: PathView, facts: ScanFacts)
    requires
        facts.encrypted_exists,
        tracker.files.decrypted_signatures@.contains_key(path),
        tracker.files.decrypted_signatures@[path].modified_ns == facts.signature.modified_ns,
        tracker.files.decrypted_signatures@[path].len == facts.signature.len,
        tracker.files.decrypted_signatures@[path].ctime_ns == facts.signature.ctime_ns || {
            let known = tracker.files.decrypted_hashes@;
            let metadata = tracker.files.decrypted_metadata_hashes@;
            &&& facts.metadata_hash is Some <==> metadata.contains_key(path)
            &&& facts.metadata_hash is Some ==> metadata[path] == facts.metadata_hash->0
            &&& facts.content_hash is Some
            &&& known.contains_key(path) ==> known[path] == facts.content_hash->0
        },
    ensures
        content_step(tracker, path, facts) == ContentStep::Unchanged,
{
}

/// A mounted file is encrypted only if the scan before saw it with the signature that it has now,
/// there is room, and, where it is encrypted piece by piece, it had that signature for long enough.
pub proof fn only_stable_files_are_encrypted(tracker: SyncTracker, path: PathView, facts: ScanFacts)
    requires
        content_step(tracker, path, facts) == ContentStep::Encrypt,
    ensures
        tracker.held.pending_stable@.contains_key(path),
        tracker.held.pending_stable@[path].signature == facts.signature,
        !tracker.held.mount_readonly_active,
        ({
            let threshold = tracker.settings.stream_threshold_bytes;
            let age = tracker.settings.stream_stability_age_secs;
            threshold != 0 && facts.signature.len >= threshold && age > 0 ==> facts.clock
                >= tracker.held.pending_stable@[path].first_seen + age * 1_000_000_000
        }),
{
}

/// The tracker after a look at the content of a mounted file.
pub open spec fn content_scanned(
    before: SyncTracker,
    after: SyncTracker,
    path: PathView,
    encrypted_path: PathView,
    facts: ScanFacts,
) -> bool {
    let step = content_step(before, path, facts);
    let touched = only_touched(before, path, facts);
    let skipped = touched && touch_is_harmless(before, path, facts);
    &&& digests_noted(
        before.files,
        after.files,
        step,
        touched,
        digest_wanted(before, path, facts.signature.len),
        path,
        facts,
    )
    &&& stable_noted(before.held, after.held, step, skipped, path, facts)
    &&& writeback_noted(
        before.work,
        after.work,
        step,
        skipped,
        path,
        encrypted_path,
        facts.now,
    )
    &&& after == (SyncTracker { files: after.files, work: after.work, held: after.held, ..before })
}

/// A mounted file that was changed, or has no encrypted form, waits in the scan that sees its
/// signature first and is encrypted in the next that sees the same, as long as there is room; one
/// that is encrypted piece by piece as soon as it stayed the same for long enough. Where there is no
/// room it waits on.
pub proof fn edits_are_encrypted_in_the_second_scan(
    before: SyncTracker,
    after: SyncTracker,
    path: PathView,
    encrypted_path: PathView,
    first: ScanFacts,
    second: ScanFacts,
)
    requires
        ({
            let noted = before.files.decrypted_signatures@;
            ||| !first.encrypted_exists && !second.encrypted_exists
            ||| !noted.contains_key(path)
            ||| noted[path].modified_ns != first.signature.modified_ns
            ||| noted[path].len != first.signature.len
        }),
        !before.held.pending_stable@.contains_key(path)
            || before.held.pending_stable@[path].signature != first.signature,
        content_scanned(before, after, path, encrypted_path, first),
        second.signature == first.signature,
        ({
            let threshold = before.settings.stream_threshold_bytes;
            let age = before.settings.stream_stability_age_secs;
            ||| threshold == 0
            ||| first.signature.len < threshold
            ||| second.clock >= first.clock + age * 1_000_000_000
        }),
    ensures
        content_step(before, path, first) == ContentStep::WaitStable,
        content_step(after, path, second) == if before.held.mount_readonly_active {
            ContentStep::WaitSpace
        } else {
            ContentStep::Encrypt
        },
{
}

/// A mounted file that is still being changed is not encrypted: whenever its signature is another
/// than the one that the scan before saw, it waits.
pub proof fn changing_files_wait(
    before: SyncTracker,
    after: SyncTracker,
    path: PathView,
    encrypted_path: PathView,
    first: ScanFacts,
    second: ScanFacts,
)
    requires
        content_scanned(before, after, path, encrypted_path, first),
        content_step(before, path, first) != ContentStep::Unchanged,
        second.signature != first.signature,
    ensures
        content_step(after, path, second) == ContentStep::WaitStable || content_step(
            after,
            path,
            second,
        ) == ContentStep::Unchanged,
        ({
            let noted = before.files.decrypted_signatures@;
            ||| !second.encrypted_exists
            ||| !noted.contains_key(path)
            ||| noted[path].modified_ns != second.signature.modified_ns
            ||| noted[path].len != second.signature.len
        }) ==> content_step(after, path, second) == ContentStep::WaitStable,
{
}

/// A change that is found is on record until it is encrypted: with the path of its encrypted form,
/// the time of the look, and since when it is known. A change that waits for room says so.
pub proof fn changes_are_on_record(
    before: SyncTracker,
    after: SyncTracker,
    path: PathView,
    encrypted_path: PathView,
    facts: ScanFacts,
)
    requires
        content_scanned(before, after, path, encrypted_path, facts),
        content_step(before, path, facts) != ContentStep::Unchanged,
    ensures
        ({
            let had = before.work.pending_writebacks@;
            let now = after.work.pending_writebacks@;
            &&& now.contains_key(path)
            &&& now[path].encrypted_path@ == encrypted_path
            &&& now[path].last_observed_at == facts.now
            &&& now[path].first_observed_at == if had.contains_key(path) {
                had[path].first_observed_at
            } else {
                facts.now
            }
            &&& now[path].low_space == (content_step(before, path, facts) == ContentStep::WaitSpace)
            &&& now[path].last_error is Some <==> content_step(before, path, facts)
                == ContentStep::WaitSpace
        }),
{
}

/// A look at one mounted file leaves what waits, is noted or is held for every other.
pub proof fn content_scans_touch_one_file(
    before: SyncTracker,
    after: SyncTracker,
    path: PathView,
    encrypted_path: PathView,
    facts: ScanFacts,
    other: PathView,
)
    requires
        content_scanned(before, after, path, encrypted_path, facts),
        !same_path(other, path),
    ensures
        after.work.pending_writebacks@.contains_key(other)
            == before.work.pending_writebacks@.contains_key(other),
        after.work.pending_writebacks@[other] == before.work.pending_writebacks@[other],
        after.held.pending_stable@.contains_key(other) == before.held.pending_stable@.contains_key(
            other,
        ),
        after.held.pending_stable@[other] == before.held.pending_stable@[other],
        after.files.decrypted_hashes@.contains_key(other)
            == before.files.decrypted_hashes@.contains_key(other),
        after.files.decrypted_hashes@[other] == before.files.decrypted_hashes@[other],
        after.files.decrypted_metadata_hashes@.contains_key(other)
            == before.files.decrypted_metadata_hashes@.contains_key(other),
        after.files.decrypted_metadata_hashes@[other]
            == before.files.decrypted_metadata_hashes@[other],
        after.files.decrypted_signatures@ == before.files.decrypted_signatures@,
        after.files.encrypted_signatures@ == before.files.encrypted_signatures@,
{
}

/// A mounted file that was encrypted settles: it no longer waits, and the next scan that finds it
/// with the signature with which it was encrypted passes over it.
pub proof fn encrypted_files_settle(
    before: SyncTracker,
    between: SyncTracker,
    after: SyncTracker,
    path: PathView,
    encrypted_path: PathView,
    encrypted_signature: FileSignature,
    file_id: Seq<char>,
    facts: ScanFacts,
    next: ScanFacts,
)
    requires
        encryption_noted(
            before.files,
            between.files,
            path,
            encrypted_path,
            encrypted_signature,
            file_id,
        ),
        writeback_cleared(before.work, between.work, path),
        after.work == between.work,
        scan_noted(
            between.files,
            after.files,
            path,
            encrypted_path,
            facts.signature,
            facts.metadata_hash,
            Some(encrypted_signature),
        ),
        next.signature == facts.signature,
        next.encrypted_exists,
    ensures
        content_step(after, path, next) == ContentStep::Unchanged,
        !after.work.pending_writebacks@.contains_key(path),
        after.files.encrypted_signatures@.contains_key(encrypted_path),
        after.files.encrypted_signatures@[encrypted_path] == encrypted_signature,
        path_values(after.files.file_id_to_mount_path@).contains_key(file_id),
        path_values(after.files.file_id_to_mount_path@)[file_id] == path,
{
}

/// A file that could not be encrypted waits with the error, says whether room was short, and is
/// waited for to stay the same again.
pub proof fn failed_files_wait(
    before: SyncTracker,
    after: SyncTracker,
    path: PathView,
    encrypted_path: PathView,
    signature: FileSignature,
    err: MountSyncError,
    clock: ClockNanos,
    now: crate::tracker::UtcNanos,
)
    requires
        writeback_failed(before.work, after.work, path, encrypted_path, err, now),
        waits_again(before.held, after.held, path, signature, clock),
    ensures
        after.work.pending_writebacks@.contains_key(path),
        after.work.pending_writebacks@[path].encrypted_path@ == encrypted_path,
        after.work.pending_writebacks@[path].last_error is Some,
        after.work.pending_writebacks@[path].low_space == low_space_error(err),
        after.held.pending_stable@.contains_key(path),
        after.held.pending_stable@[path].signature == signature,
        after.held.pending_stable@[path].first_seen == clock,
{
}

/// A mounted file is open to the sync if its name marks no copy, it has one name, its format can be
/// synced file by file, and it has an encrypted form or neither waits for one that is gone nor has
/// the name of a temporary file.
pub proof fn ordinary_files_are_synced(
    tracker: SyncTracker,
    mount_root: PathView,
    path: PathView,
    facts: ScanFacts,
)
    requires
        !has_marker(path, "conflict"@),
        !has_marker(path, "recovered-pending"@),
        facts.links <= 1,
        transactional_reason(mount_root, path) is None,
        facts.encrypted_exists || (!tracker.work.pending_orphans@.contains_key(path)
            && file_name_text(path) is Some && !temp_like(file_name_text(path)->0)),
    ensures
        gate_of(tracker, mount_root, path, facts) == ScanGate::Open,
{
}

/// What stops a mounted file: a copy stays on this side whatever else it is, a file with an
/// encrypted form is neither an orphan nor temporary, a hard-linked file is held back, and only
/// such a one is.
pub proof fn stopped_files_have_their_reason(
    tracker: SyncTracker,
    mount_root: PathView,
    path: PathView,
    facts: ScanFacts,
)
    ensures
        ({
            let gate = gate_of(tracker, mount_root, path, facts);
            &&& gate == ScanGate::Conflict <==> has_marker(path, "conflict"@)
            &&& gate == ScanGate::Recovered ==> has_marker(path, "recovered-pending"@)
            &&& gate == ScanGate::Orphan ==> !facts.encrypted_exists
                && tracker.work.pending_orphans@.contains_key(path)
            &&& gate == ScanGate::Temporary ==> !facts.encrypted_exists
            &&& gate == ScanGate::HardLink ==> facts.links > 1
            &&& gate == ScanGate::Open ==> facts.links <= 1
            &&& gate == ScanGate::Transactional ==> facts.links <= 1 && transactional_reason(
                mount_root,
                path,
            ) is Some
            &&& gate == ScanGate::Open ==> transactional_reason(mount_root, path) is None
        }),
{
}

/// A file with the name of a temporary file waits half a minute from when it was first seen, and no
/// longer: the first look notes the time, later ones keep it.
pub proof fn temporary_files_wait_half_a_minute(
    before: SyncTracker,
    after: SyncTracker,
    mount_root: PathView,
    path: PathView,
    reason: Seq<char>,
    first: ScanFacts,
    later: ScanFacts,
)
    requires
        gate_of(before, mount_root, path, first) == ScanGate::Temporary,
        held_scanned(before.held, after.held, ScanGate::Temporary, path, reason, first),
    ensures
        after.held.pending_temp@.contains_key(path),
        after.held.pending_temp@[path] == if before.held.pending_temp@.contains_key(path) {
            before.held.pending_temp@[path]
        } else {
            first.clock
        },
        later.clock >= after.held.pending_temp@[path] + 30_000_000_000 ==> gate_of(
            after,
            mount_root,
            path,
            later,
        ) != ScanGate::Temporary,
        first.clock < after.held.pending_temp@[path] + 30_000_000_000,
{
}

/// Only a file that stops at a gate counts as seen there: one that is open to the sync, or a
/// recovered copy, keeps what is noted of it. Nothing is noted of other files.
pub proof fn gates_note_one_file(
    before: SyncTracker,
    after: SyncTracker,
    mount_root: PathView,
    path: PathView,
    encrypted_path: PathView,
    facts: ScanFacts,
    other: PathView,
)
    requires
        ({
            let gate = gate_of(before, mount_root, path, facts);
            &&& ledger_scanned(
                before.files,
                after.files,
                gate,
                orphan_was_compared(before, path, facts, gate),
                path,
                facts,
            )
            &&& work_scanned(before.work, after.work, gate, path, encrypted_path)
        }),
    ensures
        ({
            let gate = gate_of(before, mount_root, path, facts);
            let noted = after.files.decrypted_signatures@;
            let had = before.files.decrypted_signatures@;
            &&& gate == ScanGate::Open || gate == ScanGate::Recovered ==> noted == had
            &&& gate != ScanGate::Open && gate != ScanGate::Recovered ==> noted.contains_key(path)
                && noted[path] == facts.signature
            &&& !same_path(other, path) ==> noted.contains_key(other) == had.contains_key(other)
                && noted[other] == had[other]
            &&& after.files.encrypted_signatures@ == before.files.encrypted_signatures@
            &&& !after.work.pending_open_unlinked@.contains_key(path)
            &&& gate == ScanGate::Open ==> !after.work.pending_orphans@.contains_key(path)
            &&& gate == ScanGate::Open ==> after.work.pending_writebacks@
                == before.work.pending_writebacks@
            &&& gate == ScanGate::Open ==> after.work.pending_deletions@
                == before.work.pending_deletions@
            &&& gate == ScanGate::HardLink ==> !after.work.pending_writebacks@.contains_key(path)
                && !after.work.pending_refreshes@.contains_key(path)
                && !after.work.pending_deletions@.contains_key(encrypted_path)
        }),
{
}

/// An identifier belongs to one mounted file: where another file that is there has it, that one
/// keeps it; where none has, the file gets it. Other identifiers stay as they are.
pub proof fn identifiers_belong_to_one_file(
    ids: TextEntries<PathView>,
    id: Seq<char>,
    path: PathView,
    present: Set<PathKey>,
    other: Seq<char>,
)
    ensures
        ({
            let held = ids.contains_key(id) && ids[id].key() != path.key() && present.contains(
                ids[id].key(),
            );
            let after = ids_settled(ids, Some(id), path, present);
            &&& id_is_taken(ids, Some(id), path, present) == held
            &&& after.contains_key(id)
            &&& after[id] == if held {
                ids[id]
            } else {
                path
            }
            &&& other != id ==> after.contains_key(other) == ids.contains_key(other)
                && after[other] == ids[other]
        }),
        !id_is_taken(ids, None, path, present),
        ids_settled(ids, None, path, present) == ids,
{
}

/// A change that waits and is tried again is encrypted as soon as it was seen twice with the same
/// signature, unless there is no room or it is encrypted piece by piece and did not stay the same
/// for long enough.
pub proof fn retries_encrypt_stable_files(
    before: SyncTracker,
    after: SyncTracker,
    path: PathView,
    encrypted_path: PathView,
    signature: FileSignature,
    first: RetryFacts,
    second: RetryFacts,
)
    requires
        before.work.pending_writebacks@.contains_key(path),
        before.work.pending_writebacks@[path].last_error is None,
        !before.work.pending_writebacks@[path].low_space,
        !excluded(texts(before.settings.excluded_patterns@), path),
        !has_marker(path, "conflict"@),
        !has_marker(path, "recovered-pending"@),
        first.mount_exists,
        first.found == Some((true, signature)),
        second.mount_exists,
        second.found == Some((true, signature)),
        !before.held.pending_stable@.contains_key(path)
            || before.held.pending_stable@[path].signature != signature,
        after == (SyncTracker { work: after.work, held: after.held, ..before }),
        retry_waits(before.held, after.held, retry_step(before, path, first), path, first),
        retry_noted(
            before.work,
            after.work,
            retry_step(before, path, first),
            path,
            encrypted_path,
            first.now,
        ),
        ({
            let threshold = before.settings.stream_threshold_bytes;
            let age = before.settings.stream_stability_age_secs;
            ||| threshold == 0
            ||| signature.len < threshold
            ||| second.clock >= first.clock + age * 1_000_000_000
        }),
    ensures
        retry_step(before, path, first) == RetryStep::WaitStable,
        retry_step(after, path, second) == if before.held.mount_readonly_active {
            RetryStep::WaitSpace
        } else {
            RetryStep::Encrypt
        },
{
}

/// A change is given up only if it is excluded or its file is gone while its encrypted form is
/// there, and it is encrypted only if its file is there with the signature that was seen before.
/// Looking again at one change leaves all others.
pub proof fn retries_lose_nothing(
    before: SyncTracker,
    after: SyncTracker,
    path: PathView,
    encrypted_path: PathView,
    facts: RetryFacts,
    other: PathView,
)
    requires
        retry_waits(before.held, after.held, retry_step(before, path, facts), path, facts),
        retry_noted(
            before.work,
            after.work,
            retry_step(before, path, facts),
            path,
            encrypted_path,
            facts.now,
        ),
    ensures
        before.work.pending_writebacks@.contains_key(path)
            && !after.work.pending_writebacks@.contains_key(path) ==> excluded(
            texts(before.settings.excluded_patterns@),
            path,
        ) || (!facts.mount_exists && facts.encrypted_exists),
        retry_step(before, path, facts) == RetryStep::Encrypt ==> {
            &&& facts.mount_exists
            &&& facts.found matches Some((is_file, signature)) && is_file
                && before.held.pending_stable@.contains_key(path)
                && before.held.pending_stable@[path].signature == signature
            &&& !before.held.mount_readonly_active
            &&& before.work.pending_writebacks@.contains_key(path)
        },
        !same_path(other, path) ==> {
            &&& after.work.pending_writebacks@.contains_key(other)
                == before.work.pending_writebacks@.contains_key(other)
            &&& after.work.pending_writebacks@[other] == before.work.pending_writebacks@[other]
            &&& after.held.pending_stable@.contains_key(other)
                == before.held.pending_stable@.contains_key(other)
            &&& after.held.pending_stable@[other] == before.held.pending_stable@[other]
        },
{
}

} // verus!
