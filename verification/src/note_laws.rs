//! What is noted, and dropped, with each look at a file.

use vstd::prelude::*;

use crate::decrypt::{
    decrypt_noted, dirt_noted, gated_mode, held_gated, ledger_gated, ready_path, work_gated,
    written_at, DecryptFacts, DecryptGate, WrittenFile,
};
use crate::deletion::{copies_forgotten, locally_changed, mounts_forgotten};
use crate::exclusion::{excluded, texts};
use crate::held::text_values;
use crate::local_only::{
    after_mark, begins_with_stamp, copy_is_recognised, has_marker, is_digit, name_or,
};
use crate::missing::{
    forgets, held_at_end, ledger_tracked, missing_forgotten, orphans_tracked, removes_encrypted,
    track_step, MissingStep, TrackStep,
};
use crate::orphans::{copy_forgotten, pair_forgotten, FileLook};
use crate::path::{file_name_text, one_name, same_path, starts_with, PathKey, PathView};
use crate::pending::path_values;
use crate::resolution::{conflict_is_shown, shows_conflict, CopyLook, MountConflictRecord};
use crate::scan::{
    digests_noted, held_scanned, ledger_scanned, scanned_mode, stable_noted, work_scanned,
    writeback_noted, ContentStep, ScanFacts, ScanGate,
};
use crate::tracker::{
    ConflictBaseline, Digest, FileLedger, FileSignature, HeldBack, LocalCopies, PendingWork,
    SyncTracker, UtcNanos,
};
use crate::writeback::{retried, retry_noted, retry_waits, scan_noted, RetryFacts, RetryStep};

verus! {

/// A version that would overwrite local changes is written to a conflict copy, never to the place
/// itself, whether that is taken or not; any other goes to its place.
pub proof fn conflicts_go_to_a_copy(target: PathView, stamp: Seq<char>, taken: Set<PathKey>)
    requires
        one_name(name_or(target, "conflict"@)),
        !has_marker(target, "conflict"@),
        begins_with_stamp(stamp),
        stamp.len() == 15,
    ensures
        written_at(target, false, stamp, taken) == target,
        has_marker(written_at(target, true, stamp, taken), "conflict"@),
        written_at(target, true, stamp, taken) != target,
{
    reveal_strlit("conflict");
    copy_is_recognised(target, "conflict"@, "conflict"@, stamp, taken);
}

/// A name tells of a copy only if its marker is followed by a date, an underscore and a time.
pub proof fn copies_tell_their_time(path: PathView, marker: Seq<char>)
    requires
        has_marker(path, marker),
    ensures
        file_name_text(path) is Some,
        ({
            let rest = after_mark(file_name_text(path)->0, marker);
            &&& rest is Some
            &&& rest->0.len() >= 15
            &&& rest->0[8] == '_'
            &&& forall|i: int| 0 <= i < 15 && i != 8 ==> is_digit(#[trigger] rest->0[i])
        }),
{
    let rest = after_mark(file_name_text(path)->0, marker)->0;
    assert(rest[8] == '_');
    assert forall|i: int| 0 <= i < 15 && i != 8 implies is_digit(#[trigger] rest[i]) by {}
}

/// Once a mounted file was looked at, it is not taken for deleted while open, whatever it is. It
/// waits for its encrypted form only if it did and its gate is that of such a file or a copy; a
/// change of it waits on unless the file is held back; and a linked file gives up everything else.
pub proof fn looks_settle_the_work(
    before: PendingWork,
    after: PendingWork,
    gate: ScanGate,
    path: PathView,
    encrypted_path: PathView,
    other: PathView,
)
    requires
        work_scanned(before, after, gate, path, encrypted_path),
        !same_path(other, path),
        !same_path(other, encrypted_path),
    ensures
        !after.pending_open_unlinked@.contains_key(path),
        after.pending_orphans@.contains_key(path) <==> before.pending_orphans@.contains_key(path)
            && (gate == ScanGate::Orphan || gate == ScanGate::Conflict || gate
            == ScanGate::Recovered),
        after.pending_writebacks@.contains_key(path) <==> before.pending_writebacks@.contains_key(
            path,
        ) && gate != ScanGate::HardLink && gate != ScanGate::Transactional,
        after.pending_refreshes@.contains_key(path) <==> before.pending_refreshes@.contains_key(
            path,
        ) && gate != ScanGate::HardLink,
        after.pending_deletions@.contains_key(encrypted_path)
            <==> before.pending_deletions@.contains_key(encrypted_path) && gate
            != ScanGate::HardLink,
        after.pending_open_unlinked@.contains_key(other)
            == before.pending_open_unlinked@.contains_key(other),
        after.pending_orphans@.contains_key(other) == before.pending_orphans@.contains_key(other),
        after.pending_writebacks@.contains_key(other) == before.pending_writebacks@.contains_key(
            other,
        ),
        after.pending_refreshes@.contains_key(other) == before.pending_refreshes@.contains_key(
            other,
        ),
        after.pending_deletions@.contains_key(other) == before.pending_deletions@.contains_key(
            other,
        ),
        after.pending_metadata == before.pending_metadata,
        before.pending_orphans@.contains_key(path) != after.pending_orphans@.contains_key(path)
            ==> after.pending_orphans_dirty,
        before.pending_writebacks@.contains_key(path) != after.pending_writebacks@.contains_key(
            path,
        ) ==> after.pending_writebacks_dirty,
        before.pending_open_unlinked@.contains_key(path) ==> after.pending_open_unlinked_dirty,
        before.pending_refreshes@.contains_key(path) != after.pending_refreshes@.contains_key(path)
            ==> after.pending_refreshes_dirty,
        before.pending_deletions@.contains_key(encrypted_path)
            != after.pending_deletions@.contains_key(encrypted_path)
            ==> after.pending_deletions_dirty,
{
}

/// A file that is held back for its format is on record with the reason and does not wait to be
/// encrypted; one that is synced, or held back for its format, is no longer held for its links and
/// gets its permissions back; a temporary one is known since it was seen first.
pub proof fn held_files_are_on_record(
    before: HeldBack,
    after: HeldBack,
    gate: ScanGate,
    path: PathView,
    reason: Seq<char>,
    facts: ScanFacts,
)
    requires
        held_scanned(before, after, gate, path, reason, facts),
    ensures
        gate == ScanGate::Transactional ==> {
            &&& after.unsupported_transactional_paths@.contains_key(path)
            &&& after.unsupported_transactional_paths@[path]@ == reason
            &&& !after.pending_stable@.contains_key(path)
        },
        gate == ScanGate::Transactional || gate == ScanGate::Open ==> {
            &&& !after.unsupported_hard_link_paths@.contains_key(path)
            &&& !after.hard_link_block_restore_modes@.contains_key(path)
            &&& !after.pending_temp@.contains_key(path)
            &&& !after.pending_sparse@.contains_key(path)
            &&& after.mount_readonly_active == before.mount_readonly_active
            &&& before.hard_link_block_restore_modes@.contains_key(path) ==> {
                if before.mount_readonly_active {
                    &&& after.mount_readonly_restore_modes@.contains_key(path)
                    &&& after.mount_readonly_restore_modes@[path]
                        == before.hard_link_block_restore_modes@[path]
                    &&& scanned_mode(before, gate, path, facts) is None
                } else {
                    scanned_mode(before, gate, path, facts) == Some(
                        before.hard_link_block_restore_modes@[path],
                    )
                }
            }
        },
        gate == ScanGate::Open ==> after.pending_stable@ == before.pending_stable@ && text_values(
            after.unsupported_transactional_paths@,
        ) == text_values(before.unsupported_transactional_paths@),
        gate == ScanGate::HardLink ==> {
            &&& after.unsupported_hard_link_paths@.contains_key(path)
            &&& after.unsupported_hard_link_paths@[path]@ == reason
            &&& after.hard_link_block_restore_modes@.contains_key(path)
            &&& !after.pending_stable@.contains_key(path)
        },
        gate == ScanGate::Temporary ==> {
            &&& after.pending_temp@.contains_key(path)
            &&& after.pending_temp@[path] == if before.pending_temp@.contains_key(path) {
                before.pending_temp@[path]
            } else {
                facts.clock
            }
            &&& after.pending_stable == before.pending_stable
        },
        gate == ScanGate::Conflict || gate == ScanGate::Recovered || gate == ScanGate::Orphan
            ==> after == before,
{
    if gate == ScanGate::Transactional {
        let held = text_values(after.unsupported_transactional_paths@);
        assert(held.contains_key(path));
        assert(held[path] == reason);
    }
    if gate == ScanGate::HardLink {
        let held = text_values(after.unsupported_hard_link_paths@);
        assert(held.contains_key(path));
        assert(held[path] == reason);
    }
}

/// After a look at the content of a mounted file it waits to stay the same exactly if it has to: one
/// that is encrypted does not wait, nor does one that was only touched, and an unchanged one keeps
/// what it had. What waits is known with the signature and the time of the look.
pub proof fn waiting_files_are_on_record(
    before: HeldBack,
    after: HeldBack,
    step: ContentStep,
    skipped: bool,
    path: PathView,
    facts: ScanFacts,
)
    requires
        stable_noted(before, after, step, skipped, path, facts),
    ensures
        step == ContentStep::WaitStable || step == ContentStep::WaitSpace ==> {
            &&& after.pending_stable@.contains_key(path)
            &&& after.pending_stable@[path].signature == facts.signature
            &&& after.pending_stable@[path].first_seen == facts.clock
        },
        step == ContentStep::Encrypt || (step == ContentStep::Unchanged && skipped)
            ==> !after.pending_stable@.contains_key(path),
        step == ContentStep::Unchanged && !skipped ==> after.pending_stable@
            == before.pending_stable@,
        after.pending_temp == before.pending_temp,
        after.unsupported_hard_link_paths == before.unsupported_hard_link_paths,
{
}

/// A change that turns out to be none is off the record, and the journal is written; a file that is
/// as it was leaves the record alone.
pub proof fn harmless_touches_are_dropped(
    before: PendingWork,
    after: PendingWork,
    skipped: bool,
    path: PathView,
    encrypted_path: PathView,
    now: UtcNanos,
)
    requires
        writeback_noted(
            before,
            after,
            ContentStep::Unchanged,
            skipped,
            path,
            encrypted_path,
            now,
        ),
    ensures
        skipped ==> !after.pending_writebacks@.contains_key(path),
        skipped && before.pending_writebacks@.contains_key(path) ==> after.pending_writebacks_dirty,
        !skipped ==> after.pending_writebacks@ == before.pending_writebacks@
            && after.pending_writebacks_dirty == before.pending_writebacks_dirty,
{
}

/// The digests of a mounted file are taken over where they were compared: that of the content where
/// it was wanted and could be taken, that of the metadata always, and also where the file has to
/// stay the same first. Nothing else is noted by the look.
pub proof fn compared_digests_are_noted(
    before: FileLedger,
    after: FileLedger,
    step: ContentStep,
    touched: bool,
    wanted: bool,
    path: PathView,
    facts: ScanFacts,
    other: PathView,
)
    requires
        digests_noted(before, after, step, touched, wanted, path, facts),
        !same_path(other, path),
    ensures
        touched && wanted && facts.content_hash is Some ==> after.decrypted_hashes@.contains_key(
            path,
        ) && after.decrypted_hashes@[path] == facts.content_hash->0,
        !(touched && wanted && facts.content_hash is Some) ==> after.decrypted_hashes@
            == before.decrypted_hashes@,
        touched || step == ContentStep::WaitStable ==> {
            let metadata = after.decrypted_metadata_hashes@;
            &&& metadata.contains_key(path) <==> facts.metadata_hash is Some
            &&& facts.metadata_hash is Some ==> metadata[path] == facts.metadata_hash->0
        },
        !touched && step != ContentStep::WaitStable ==> after.decrypted_metadata_hashes@
            == before.decrypted_metadata_hashes@,
        after.decrypted_hashes@.contains_key(other) == before.decrypted_hashes@.contains_key(other),
        after.decrypted_metadata_hashes@.contains_key(other)
            == before.decrypted_metadata_hashes@.contains_key(other),
        after.decrypted_signatures == before.decrypted_signatures,
        after.encrypted_signatures == before.encrypted_signatures,
{
}

/// What a gate notes of the digests: those that were compared are taken over, and the metadata of a
/// copy or of a file that is held back is noted; a linked file loses its identifier, and no other
/// file does.
pub proof fn gates_note_digests(
    before: FileLedger,
    after: FileLedger,
    gate: ScanGate,
    compared: bool,
    path: PathView,
    facts: ScanFacts,
    id: Seq<char>,
)
    requires
        ledger_scanned(before, after, gate, compared, path, facts),
        before.file_id_to_mount_path@.contains_key(id),
    ensures
        compared && facts.content_hash is Some ==> after.decrypted_hashes@.contains_key(path)
            && after.decrypted_hashes@[path] == facts.content_hash->0,
        !compared ==> after.decrypted_hashes@ == before.decrypted_hashes@,
        compared || gate == ScanGate::Conflict || gate == ScanGate::HardLink || gate
            == ScanGate::Transactional ==> {
            let metadata = after.decrypted_metadata_hashes@;
            &&& metadata.contains_key(path) <==> facts.metadata_hash is Some
            &&& facts.metadata_hash is Some ==> metadata[path] == facts.metadata_hash->0
        },
        !compared && gate == ScanGate::Open ==> after.decrypted_metadata_hashes@
            == before.decrypted_metadata_hashes@,
        after.file_id_to_mount_path@.contains_key(id) <==> !(gate == ScanGate::HardLink
            && same_path(before.file_id_to_mount_path@[id]@, path)),
        after.path_mapping == before.path_mapping,
{
}

/// A file that was encrypted is noted on both sides with the signatures of this look, under its
/// identifier, and so is one whose encryption was tried again.
pub proof fn encryptions_are_noted(
    before: FileLedger,
    after: FileLedger,
    path: PathView,
    encrypted_path: PathView,
    signature: FileSignature,
    metadata_hash: Option<Digest>,
    encrypted_signature: FileSignature,
    file_id: Seq<char>,
    other: PathView,
)
    requires
        retried(
            before,
            after,
            path,
            encrypted_path,
            signature,
            metadata_hash,
            encrypted_signature,
            file_id,
        ),
        !same_path(other, path),
        !same_path(other, encrypted_path),
    ensures
        after.decrypted_signatures@.contains_key(path),
        after.decrypted_signatures@[path] == signature,
        after.encrypted_signatures@.contains_key(encrypted_path),
        after.encrypted_signatures@[encrypted_path] == encrypted_signature,
        after.file_id_to_mount_path@.contains_key(file_id),
        after.file_id_to_mount_path@[file_id]@ == path,
        after.decrypted_metadata_hashes@.contains_key(path) <==> metadata_hash is Some,
        metadata_hash is Some ==> after.decrypted_metadata_hashes@[path] == metadata_hash->0,
        after.decrypted_signatures@.contains_key(other) == before.decrypted_signatures@
            .contains_key(other),
        after.encrypted_signatures@.contains_key(other) == before.encrypted_signatures@
            .contains_key(other),
        after.decrypted_hashes == before.decrypted_hashes,
{
    let ids = path_values(after.file_id_to_mount_path@);
    assert(ids.contains_key(file_id));
    assert(ids[file_id] == path);
}

/// A look to the end notes the signature and the metadata of the file; what is noted of its
/// encrypted form stays, and is noted only where nothing was.
pub proof fn scans_are_noted(
    before: FileLedger,
    after: FileLedger,
    path: PathView,
    encrypted_path: PathView,
    signature: FileSignature,
    metadata_hash: Option<Digest>,
    encrypted_signature: Option<FileSignature>,
)
    requires
        scan_noted(
            before,
            after,
            path,
            encrypted_path,
            signature,
            metadata_hash,
            encrypted_signature,
        ),
    ensures
        after.decrypted_signatures@.contains_key(path),
        after.decrypted_signatures@[path] == signature,
        after.decrypted_metadata_hashes@.contains_key(path) <==> metadata_hash is Some,
        metadata_hash is Some ==> after.decrypted_metadata_hashes@[path] == metadata_hash->0,
        before.encrypted_signatures@.contains_key(encrypted_path) ==> after.encrypted_signatures@
            == before.encrypted_signatures@,
        !before.encrypted_signatures@.contains_key(encrypted_path) ==> (
        after.encrypted_signatures@.contains_key(encrypted_path) <==> encrypted_signature is Some)
            && (encrypted_signature is Some ==> after.encrypted_signatures@[encrypted_path]
            == encrypted_signature->0),
        after.file_id_to_mount_path == before.file_id_to_mount_path,
        after.decrypted_hashes == before.decrypted_hashes,
{
}

/// A change that is tried again leaves the record exactly if its path is kept out, or the file is
/// gone and has an encrypted form; it says so where room is wanting. One that has to stay the same
/// first keeps the time since when it did, as long as it is the same.
pub proof fn retries_are_on_record(
    before: SyncTracker,
    after: SyncTracker,
    step: RetryStep,
    path: PathView,
    encrypted_path: PathView,
    facts: RetryFacts,
)
    requires
        retry_noted(before.work, after.work, step, path, encrypted_path, facts.now),
        retry_waits(before.held, after.held, step, path, facts),
        before.work.pending_writebacks@.contains_key(path),
    ensures
        after.work.pending_writebacks@.contains_key(path) <==> step != RetryStep::LeftOut && step
            != RetryStep::Stale,
        step == RetryStep::LeftOut || step == RetryStep::Stale
            ==> after.work.pending_writebacks_dirty,
        step == RetryStep::WaitSpace ==> {
            let entry = after.work.pending_writebacks@[path];
            &&& entry.low_space
            &&& entry.last_error is Some
            &&& entry.encrypted_path@ == encrypted_path
            &&& entry.last_observed_at == facts.now
            &&& entry.first_observed_at == before.work.pending_writebacks@[path].first_observed_at
        },
        step == RetryStep::Skip || step == RetryStep::WaitStable || step == RetryStep::Encrypt
            ==> after.work == before.work,
        step == RetryStep::LeftOut || step == RetryStep::Encrypt
            ==> !after.held.pending_stable@.contains_key(path),
        step == RetryStep::WaitStable || step == RetryStep::WaitSpace ==> {
            let had = before.held.pending_stable@;
            let now = after.held.pending_stable@;
            let signature = (facts.found->0).1;
            &&& now.contains_key(path)
            &&& now[path].signature == signature
            &&& step == RetryStep::WaitStable && had.contains_key(path) && had[path].signature
                == signature ==> now[path].first_seen == had[path].first_seen
            &&& step == RetryStep::WaitSpace || !had.contains_key(path) || had[path].signature
                != signature ==> now[path].first_seen == facts.clock
        },
        step == RetryStep::Skip || step == RetryStep::Stale ==> after.held.pending_stable@
            == before.held.pending_stable@,
{
}

/// At the end of a scan nothing waits for files that it did not see; what is known of linked files
/// that are held, and of the permissions in a mount that is read-only, stays.
pub proof fn unseen_files_do_not_wait(
    before: HeldBack,
    after: HeldBack,
    current: Set<PathKey>,
    path: PathView,
)
    requires
        held_at_end(before, after, current),
    ensures
        after.pending_stable@.contains_key(path) <==> before.pending_stable@.contains_key(path)
            && current.contains(path.key()),
        after.pending_temp@.contains_key(path) <==> before.pending_temp@.contains_key(path)
            && current.contains(path.key()),
        after.pending_sparse@.contains_key(path) <==> before.pending_sparse@.contains_key(path)
            && current.contains(path.key()),
        after.unsupported_transactional_paths@.contains_key(path)
            <==> before.unsupported_transactional_paths@.contains_key(path) && current.contains(
            path.key(),
        ),
        after.hard_link_block_restore_modes@.contains_key(path)
            <==> before.hard_link_block_restore_modes@.contains_key(path) && current.contains(
            path.key(),
        ),
        after.pending_stable@.contains_key(path) ==> after.pending_stable@[path]
            == before.pending_stable@[path],
        after.pending_temp@.contains_key(path) ==> after.pending_temp@[path]
            == before.pending_temp@[path],
        after.unsupported_hard_link_paths == before.unsupported_hard_link_paths,
        after.mount_readonly_restore_modes == before.mount_readonly_restore_modes,
        after.mount_readonly_active == before.mount_readonly_active,
{
}

/// The encrypted form of a missing file is removed only if the file lives on elsewhere under the same
/// identifier; the file is forgotten then, and if it has no encrypted form any more.
pub proof fn only_moved_files_lose_their_encrypted_form(step: MissingStep)
    ensures
        removes_encrypted(step) <==> step == MissingStep::Renamed || step == MissingStep::LinkMoved,
        forgets(step) <==> removes_encrypted(step) || step == MissingStep::Gone || step
            == MissingStep::LinkGone,
{
}

/// A missing file that is forgotten is so on both sides, with every encrypted path that led to it
/// and, where that is asked for, its identifier; no other file is.
pub proof fn missing_files_are_forgotten(
    before: FileLedger,
    after: FileLedger,
    path: PathView,
    encrypted_path: PathView,
    with_id: bool,
    other: PathView,
    id: Seq<char>,
)
    requires
        missing_forgotten(before, after, path, encrypted_path, with_id),
        !same_path(other, path),
        !same_path(other, encrypted_path),
    ensures
        !after.decrypted_signatures@.contains_key(path),
        !after.decrypted_hashes@.contains_key(path),
        !after.decrypted_metadata_hashes@.contains_key(path),
        !after.encrypted_signatures@.contains_key(encrypted_path),
        after.decrypted_signatures@.contains_key(other) == before.decrypted_signatures@
            .contains_key(other),
        after.encrypted_signatures@.contains_key(other) == before.encrypted_signatures@
            .contains_key(other),
        after.path_mapping@.contains_key(other) <==> before.path_mapping@.contains_key(other)
            && !same_path(before.path_mapping@[other]@, path),
        after.file_id_to_mount_path@.contains_key(id) <==> before.file_id_to_mount_path@
            .contains_key(id) && !(with_id && same_path(before.file_id_to_mount_path@[id]@, path)),
{
}

/// What becomes of a known file on the encrypted side: a conflict copy and a path that is kept out
/// are no concern of it, nor is a file that is held for its links or cannot be read, unless it is
/// expected. Any other that once had an encrypted form is gone, was changed, or is counted.
pub proof fn known_files_are_followed(
    tracker: SyncTracker,
    path: PathView,
    encrypted_path: PathView,
    expected: Set<PathKey>,
    look: FileLook,
)
    ensures
        ({
            let step = track_step(tracker, path, encrypted_path, expected, look);
            let files = tracker.files;
            let left_out = has_marker(path, "conflict"@) || excluded(
                texts(tracker.settings.excluded_patterns@),
                path,
            );
            let held = tracker.held.unsupported_hard_link_paths@.contains_key(path);
            let had = files.encrypted_signatures@.contains_key(encrypted_path)
                || files.path_mapping@.contains_key(encrypted_path) && same_path(
                files.path_mapping@[encrypted_path]@,
                path,
            );
            &&& left_out ==> step == TrackStep::Ignore
            &&& !left_out && expected.contains(path.key()) ==> step == TrackStep::NoOrphan
            &&& !left_out && !expected.contains(path.key()) && held ==> step == TrackStep::Ignore
            &&& !left_out && !expected.contains(path.key()) && !held && !had ==> step
                == TrackStep::NoOrphan
            &&& !left_out && !expected.contains(path.key()) && !held && had ==> match look {
                FileLook::Missing => step == TrackStep::Gone,
                FileLook::Unreadable => step == TrackStep::Ignore,
                FileLook::Found { signature, content_hash, metadata_hash } => step
                    == if locally_changed(tracker, path, signature, content_hash, metadata_hash) {
                    TrackStep::NoOrphan
                } else {
                    TrackStep::Count
                },
            }
        }),
{
}

/// A file whose encrypted form is missing is on record as long as that is counted, and off it once
/// it is gone, was changed or has its encrypted form; what is no concern leaves the record alone.
pub proof fn orphans_are_on_record(
    before: PendingWork,
    after: PendingWork,
    step: TrackStep,
    path: PathView,
    encrypted_path: PathView,
    healthy: bool,
    other: PathView,
)
    requires
        orphans_tracked(before, after, step, path, encrypted_path, healthy),
        !same_path(other, path),
    ensures
        step == TrackStep::Count ==> after.pending_orphans@.contains_key(path)
            && after.pending_orphans_dirty,
        step == TrackStep::NoOrphan || step == TrackStep::Gone ==> !after.pending_orphans@
            .contains_key(path),
        step == TrackStep::Ignore ==> after.pending_orphans@ == before.pending_orphans@,
        before.pending_orphans@.contains_key(path) != after.pending_orphans@.contains_key(path)
            ==> after.pending_orphans_dirty,
        after.pending_orphans@.contains_key(other) == before.pending_orphans@.contains_key(other),
        after.pending_deletions == before.pending_deletions,
        after.pending_writebacks == before.pending_writebacks,
{
}

/// A file that is gone on both sides is forgotten; of any other only the digests that were compared
/// are taken over.
pub proof fn followed_files_are_noted(
    before: FileLedger,
    after: FileLedger,
    step: TrackStep,
    compared: bool,
    path: PathView,
    encrypted_path: PathView,
    look: FileLook,
)
    requires
        ledger_tracked(before, after, step, compared, path, encrypted_path, look),
        compared ==> look is Found,
    ensures
        step == TrackStep::Gone ==> !after.decrypted_signatures@.contains_key(path)
            && !after.encrypted_signatures@.contains_key(encrypted_path),
        step != TrackStep::Gone ==> after.decrypted_signatures == before.decrypted_signatures
            && after.encrypted_signatures == before.encrypted_signatures,
        step != TrackStep::Gone && !compared ==> after.decrypted_hashes@ == before.decrypted_hashes@
            && after.decrypted_metadata_hashes@ == before.decrypted_metadata_hashes@,
        step != TrackStep::Gone && compared ==> {
            let metadata = after.decrypted_metadata_hashes@;
            &&& look->content_hash is Some ==> after.decrypted_hashes@.contains_key(path)
                && after.decrypted_hashes@[path] == look->content_hash->0
            &&& metadata.contains_key(path) <==> look->metadata_hash is Some
            &&& look->metadata_hash is Some ==> metadata[path] == look->metadata_hash->0
        },
{
}

/// A place that is found to hold a linked file is held, with nothing waiting for it; one that is
/// found to hold a file of its own is released, and the file gets its permissions back.
pub proof fn places_are_held_for_their_links(
    before: SyncTracker,
    after: SyncTracker,
    gate: DecryptGate,
    target: PathView,
    facts: DecryptFacts,
    other: PathView,
)
    requires
        held_gated(before.held, after.held, gate, target, facts),
        work_gated(before.work, after.work, gate, target),
        !same_path(other, target),
    ensures
        gate == DecryptGate::LinkFound ==> {
            &&& after.held.unsupported_hard_link_paths@.contains_key(target)
            &&& after.held.hard_link_block_restore_modes@.contains_key(target)
            &&& !after.work.pending_writebacks@.contains_key(target)
            &&& !after.work.pending_refreshes@.contains_key(target)
            &&& gated_mode(before.held, gate, target, facts) is Some ==> facts.target_links is Some
                && gated_mode(before.held, gate, target, facts)->0 == (facts.target_links->0).2
                & !0o222u32
        },
        gate == DecryptGate::PendingDeletion || gate == DecryptGate::LinkKnown
            || !facts.target_exists || facts.target_links is None ==> gate == DecryptGate::LinkFound
            || after.held == before.held && gated_mode(before.held, gate, target, facts) is None,
        gate != DecryptGate::PendingDeletion && gate != DecryptGate::LinkKnown && gate
            != DecryptGate::LinkFound && facts.target_exists && facts.target_links is Some ==> {
            &&& !after.held.unsupported_hard_link_paths@.contains_key(target)
            &&& !after.held.hard_link_block_restore_modes@.contains_key(target)
            &&& before.held.hard_link_block_restore_modes@.contains_key(target)
                && !before.held.mount_readonly_active ==> gated_mode(
                before.held,
                gate,
                target,
                facts,
            ) == Some(before.held.hard_link_block_restore_modes@[target])
        },
        gate != DecryptGate::LinkFound ==> after.work == before.work,
        after.held.unsupported_hard_link_paths@.contains_key(other)
            == before.held.unsupported_hard_link_paths@.contains_key(other),
        after.work.pending_writebacks@.contains_key(other)
            == before.work.pending_writebacks@.contains_key(other),
{
    let a = text_values(before.held.unsupported_hard_link_paths@);
    let b = text_values(after.held.unsupported_hard_link_paths@);
    assert(a.contains_key(other) == before.held.unsupported_hard_link_paths@.contains_key(other));
    assert(b.contains_key(other) == after.held.unsupported_hard_link_paths@.contains_key(other));
    assert(b.contains_key(target) == after.held.unsupported_hard_link_paths@.contains_key(target));
}

/// What is decided about an encrypted file is noted where it will not be decrypted: its signature, so
/// that it is not looked at again, and its place, but for a file that is left where it was mounted.
/// What is mounted and was not seen before is noted as it was seen.
pub proof fn decisions_are_noted(
    before: FileLedger,
    after: FileLedger,
    gate: DecryptGate,
    encrypted_path: PathView,
    ready: PathView,
    signature: FileSignature,
    facts: DecryptFacts,
    id: Seq<char>,
)
    requires
        ledger_gated(before, after, gate, encrypted_path, ready, signature, facts),
        before.file_id_to_mount_path@.contains_key(id),
    ensures
        gate == DecryptGate::PendingDeletion || gate == DecryptGate::StillOpen || gate
            == DecryptGate::DeletedHere || gate == DecryptGate::NoKey ==> {
            &&& after.encrypted_signatures@.contains_key(encrypted_path)
            &&& after.encrypted_signatures@[encrypted_path] == signature
        },
        gate == DecryptGate::LinkKnown || gate == DecryptGate::LinkFound || gate
            == DecryptGate::Unchanged || gate == DecryptGate::UnchangedCached || gate
            == DecryptGate::Proceed ==> after.encrypted_signatures@ == before.encrypted_signatures@,
        gate != DecryptGate::UnchangedCached && gate != DecryptGate::Proceed ==> {
            &&& after.path_mapping@.contains_key(encrypted_path)
            &&& after.path_mapping@[encrypted_path]@ == ready
        },
        (gate == DecryptGate::Unchanged || gate == DecryptGate::UnchangedCached) && facts.seen
            is Some ==> after.decrypted_signatures@.contains_key(ready),
        (gate == DecryptGate::Unchanged || gate == DecryptGate::UnchangedCached) && facts.seen
            is Some && !before.decrypted_signatures@.contains_key(ready) ==> {
            let metadata = after.decrypted_metadata_hashes@;
            &&& after.decrypted_signatures@[ready] == facts.seen->0
            &&& metadata.contains_key(ready) <==> facts.seen_metadata is Some
            &&& facts.seen_metadata is Some ==> metadata[ready] == facts.seen_metadata->0
        },
        gate != DecryptGate::Unchanged && gate != DecryptGate::UnchangedCached
            ==> after.decrypted_signatures@ == before.decrypted_signatures@
            && after.decrypted_metadata_hashes@ == before.decrypted_metadata_hashes@,
        after.file_id_to_mount_path@.contains_key(id) <==> !(gate == DecryptGate::LinkFound
            && same_path(before.file_id_to_mount_path@[id]@, ready)),
{
    let mapping = path_values(after.path_mapping@);
    if gate != DecryptGate::UnchangedCached && gate != DecryptGate::Proceed {
        assert(mapping.contains_key(encrypted_path));
        assert(mapping[encrypted_path] == ready);
    }
}

/// A file that is not decrypted belongs where it was: one whose deletion is being confirmed where it
/// was mounted, one that is left alone where it is mounted, any other at its place.
pub proof fn files_belong_where_they_were(
    tracker: SyncTracker,
    gate: DecryptGate,
    encrypted_path: PathView,
    target: PathView,
)
    ensures
        gate == DecryptGate::PendingDeletion ==> ready_path(tracker, gate, encrypted_path, target)
            == tracker.work.pending_deletions@[encrypted_path].mount_path@,
        gate == DecryptGate::UnchangedCached ==> ready_path(tracker, gate, encrypted_path, target)
            == tracker.files.path_mapping@[encrypted_path]@,
        gate != DecryptGate::PendingDeletion && gate != DecryptGate::UnchangedCached ==> ready_path(
            tracker,
            gate,
            encrypted_path,
            target,
        ) == target,
{
}

/// A file that was decrypted is noted as it was written, with its digests where it was written to its
/// place; under its identifier its place is noted, also where it went to a conflict copy.
pub proof fn decryptions_are_noted(
    before: FileLedger,
    after: FileLedger,
    encrypted_path: PathView,
    target: PathView,
    written_to: PathView,
    conflict: bool,
    signature: FileSignature,
    file_id: Seq<char>,
    written: WrittenFile,
    other: PathView,
)
    requires
        decrypt_noted(
            before,
            after,
            encrypted_path,
            target,
            written_to,
            conflict,
            signature,
            file_id,
            written,
        ),
        !same_path(other, written_to),
        !same_path(other, encrypted_path),
    ensures
        written.seen is Some ==> after.decrypted_signatures@.contains_key(written_to)
            && after.decrypted_signatures@[written_to] == written.seen->0,
        written.seen is None ==> after.decrypted_signatures@ == before.decrypted_signatures@,
        after.decrypted_hashes@.contains_key(written_to) <==> !conflict && written.content_hash
            is Some,
        !conflict && written.content_hash is Some ==> after.decrypted_hashes@[written_to]
            == written.content_hash->0,
        !conflict || written.seen is Some ==> {
            let metadata = after.decrypted_metadata_hashes@;
            &&& metadata.contains_key(written_to) <==> written.metadata_hash is Some
            &&& written.metadata_hash is Some ==> metadata[written_to] == written.metadata_hash->0
        },
        after.file_id_to_mount_path@.contains_key(file_id),
        after.file_id_to_mount_path@[file_id]@ == target,
        after.encrypted_signatures@.contains_key(encrypted_path),
        after.encrypted_signatures@[encrypted_path] == signature,
        after.decrypted_signatures@.contains_key(other) == before.decrypted_signatures@
            .contains_key(other),
        after.decrypted_hashes@.contains_key(other) == before.decrypted_hashes@.contains_key(other),
        after.encrypted_signatures@.contains_key(other) == before.encrypted_signatures@
            .contains_key(other),
{
    let ids = path_values(after.file_id_to_mount_path@);
    assert(ids.contains_key(file_id));
    assert(ids[file_id] == target);
}

/// The digests of a place are taken over where they were compared, and only there.
pub proof fn compared_places_are_noted(
    before: FileLedger,
    after: FileLedger,
    compared: bool,
    target: PathView,
    look: FileLook,
)
    requires
        dirt_noted(before, after, compared, target, look),
        compared ==> look is Found,
    ensures
        !compared ==> after.decrypted_hashes@ == before.decrypted_hashes@
            && after.decrypted_metadata_hashes@ == before.decrypted_metadata_hashes@,
        compared ==> {
            let metadata = after.decrypted_metadata_hashes@;
            &&& look->content_hash is Some ==> after.decrypted_hashes@.contains_key(target)
                && after.decrypted_hashes@[target] == look->content_hash->0
            &&& look->content_hash is None ==> after.decrypted_hashes@ == before.decrypted_hashes@
            &&& metadata.contains_key(target) <==> look->metadata_hash is Some
            &&& look->metadata_hash is Some ==> metadata[target] == look->metadata_hash->0
        },
{
}

/// A file that was taken away with its encrypted form is forgotten on both sides, with its identifier
/// and every path that led to it; no other file is.
pub proof fn taken_files_are_forgotten(
    before: FileLedger,
    after: FileLedger,
    mount_path: PathView,
    encrypted_path: PathView,
    other: PathView,
    id: Seq<char>,
)
    requires
        pair_forgotten(before, after, mount_path, encrypted_path),
        !same_path(other, mount_path),
        !same_path(other, encrypted_path),
        before.path_mapping@.contains_key(other) ==> same_path(
            before.path_mapping@.stored(other),
            other,
        ),
    ensures
        !after.decrypted_signatures@.contains_key(mount_path),
        !after.decrypted_hashes@.contains_key(mount_path),
        !after.decrypted_metadata_hashes@.contains_key(mount_path),
        !after.encrypted_signatures@.contains_key(encrypted_path),
        after.decrypted_signatures@.contains_key(other) == before.decrypted_signatures@
            .contains_key(other),
        after.encrypted_signatures@.contains_key(other) == before.encrypted_signatures@
            .contains_key(other),
        after.path_mapping@.contains_key(other) <==> before.path_mapping@.contains_key(other)
            && !same_path(before.path_mapping@[other]@, mount_path),
        after.file_id_to_mount_path@.contains_key(id) <==> before.file_id_to_mount_path@
            .contains_key(id) && !same_path(before.file_id_to_mount_path@[id]@, mount_path),
{
}

/// The files whose deletion was carried out are forgotten in the mount, with their identifiers, the
/// paths that led to them, and what was known of them as copies; no other file is.
pub proof fn deleted_mounts_are_forgotten(
    before: SyncTracker,
    after: SyncTracker,
    mounts: Set<PathKey>,
    path: PathView,
    id: Seq<char>,
)
    requires
        mounts_forgotten(before.files, after.files, mounts),
        copies_forgotten(before.copies, after.copies, mounts),
    ensures
        after.files.decrypted_signatures@.contains_key(path)
            <==> before.files.decrypted_signatures@.contains_key(path) && !mounts.contains(
            path.key(),
        ),
        after.files.decrypted_hashes@.contains_key(path)
            <==> before.files.decrypted_hashes@.contains_key(path) && !mounts.contains(path.key()),
        after.files.decrypted_metadata_hashes@.contains_key(path)
            <==> before.files.decrypted_metadata_hashes@.contains_key(path) && !mounts.contains(
            path.key(),
        ),
        after.files.path_mapping@.contains_key(path) <==> before.files.path_mapping@.contains_key(
            path,
        ) && !mounts.contains(before.files.path_mapping@[path]@.key()),
        after.files.file_id_to_mount_path@.contains_key(id)
            <==> before.files.file_id_to_mount_path@.contains_key(id) && !mounts.contains(
            before.files.file_id_to_mount_path@[id]@.key(),
        ),
        after.copies.conflict_baselines@.contains_key(path)
            <==> before.copies.conflict_baselines@.contains_key(path) && !mounts.contains(
            path.key(),
        ),
        after.copies.recovered_pending_paths@.contains_key(path)
            <==> before.copies.recovered_pending_paths@.contains_key(path) && !mounts.contains(
            path.key(),
        ),
        before.copies.conflict_baselines@.contains_key(path) && mounts.contains(path.key())
            ==> after.copies.conflict_registry_dirty,
        before.copies.recovered_pending_paths@.contains_key(path) && mounts.contains(path.key())
            ==> after.copies.recovery_registry_dirty,
        after.files.encrypted_signatures == before.files.encrypted_signatures,
{
}

/// A copy that is gone is forgotten, and the registry that told of it is written.
pub proof fn gone_copies_are_forgotten(
    before: LocalCopies,
    after: LocalCopies,
    path: PathView,
    other: PathView,
)
    requires
        copy_forgotten(before, after, path),
        !same_path(other, path),
    ensures
        !after.conflict_baselines@.contains_key(path),
        !after.recovered_pending_paths@.contains_key(path),
        before.conflict_baselines@.contains_key(path) ==> after.conflict_registry_dirty,
        before.recovered_pending_paths@.contains_key(path) ==> after.recovery_registry_dirty,
        after.conflict_baselines@.contains_key(other) == before.conflict_baselines@.contains_key(
            other,
        ),
        after.recovered_pending_paths@.contains_key(other)
            == before.recovered_pending_paths@.contains_key(other),
        before.conflict_registry_dirty ==> after.conflict_registry_dirty,
{
}

/// A conflict is shown exactly if the copy and its file lie below the mount and the copy could be
/// looked at; whether its file is there makes no difference. A merge is offered only where both are
/// there and are text.
pub proof fn conflicts_are_shown(
    mount_root: PathView,
    conflict_path: PathView,
    baseline: ConflictBaseline,
    look: CopyLook,
    record: MountConflictRecord,
)
    ensures
        conflict_is_shown(mount_root, conflict_path, baseline, look) <==> {
            &&& starts_with(conflict_path, mount_root)
            &&& starts_with(baseline.live_path@, mount_root)
            &&& look.copy_size is Some
        },
        shows_conflict(record, mount_root, conflict_path, baseline, look) ==> {
            &&& record.id == baseline.id
            &&& record.kind == baseline.kind
            &&& record.edited == baseline.edited
            &&& record.created_at == baseline.created_at
            &&& record.live_exists == look.live_exists
            &&& record.live_size_bytes == look.live_size
            &&& look.copy_size == Some(record.conflict_size_bytes)
            &&& record.text_merge_supported <==> look.live_exists && look.live_is_text
                && look.copy_is_text
        },
{
}

} // verus!
