//! What is kept from one run to the next, and what is told of a run that failed.

use vstd::prelude::*;
use vstd::string::*;

use crate::conflicts::{kind_text, named_kind, reason_text};
use crate::journal::{Journaled, WritebackView};
use crate::run::{must_succeed, run_failure, RunEvent, RunStep};
use crate::tracker::{
    time_ns, ConflictKind, FileMetadataData, PendingDeletion, PendingOpenUnlinked, PendingOrphan,
    PendingRefresh, PendingWriteback,
};

verus! {

/// A change that is read back from its journal was not seen last before it was seen first, and is
/// else as it was written.
pub proof fn read_changes_are_consistent(plain: WritebackView)
    ensures
        ({
            let read = <PendingWriteback as Journaled>::restored(plain);
            &&& read.last_observed_at >= read.first_observed_at
            &&& read.first_observed_at == plain.first_observed_at
            &&& read.encrypted_path == plain.encrypted_path
            &&& read.last_error == plain.last_error
            &&& read.low_space == plain.low_space
            &&& plain.last_observed_at >= plain.first_observed_at ==> read == plain
            &&& plain.last_observed_at < plain.first_observed_at ==> read.last_observed_at
                == plain.first_observed_at
        }),
{
}

/// Deletions, missing files, files that wait to be decrypted, files that are open and metadata are
/// read back as they were written: what was counted, and what is known of them, stays.
pub proof fn read_work_is_as_it_was(
    deletion: PendingDeletion,
    orphan: PendingOrphan,
    refresh: PendingRefresh,
    open: PendingOpenUnlinked,
    metadata: FileMetadataData,
)
    ensures
        ({
            let read = <PendingDeletion as Journaled>::restored(deletion.plain());
            &&& read.0 == deletion.mount_path@
            &&& read.1 == deletion.consecutive_missing_scans
            &&& read.2 == deletion.had_healthy_scan
        }),
        ({
            let read = <PendingOrphan as Journaled>::restored(orphan.plain());
            &&& read.0 == orphan.encrypted_path@
            &&& read.1 == orphan.consecutive_missing_scans
            &&& read.2 == orphan.had_healthy_scan
        }),
        <PendingRefresh as Journaled>::restored(refresh.plain()).0 == refresh.encrypted_path@,
        ({
            let read = <PendingOpenUnlinked as Journaled>::restored(open.plain());
            &&& read.encrypted_version_exists == open.encrypted_version_exists
            &&& read.had_unsynced_local_writeback == open.had_unsynced_local_writeback
            &&& read.first_seen_at == open.first_seen_at
            &&& read.last_seen_at == open.last_seen_at
            &&& read.owners.len() == open.owners@.len()
        }),
        ({
            let read = <FileMetadataData as Journaled>::restored(metadata.plain());
            &&& read.file_path == metadata.file_path@
            &&& read.epoch_id == metadata.epoch_id
            &&& read.group_id == metadata.group_id
            &&& read.header_version == metadata.header_version
            &&& read.file_size == metadata.file_size
            &&& read.encrypted_size == metadata.encrypted_size
            &&& read.integrity_hash == metadata.integrity_hash
            &&& read.modified_at == metadata.modified_at
            &&& read.encrypted_at == metadata.encrypted_at
            &&& read.version == metadata.version
            &&& read.content_chunk_size == metadata.content_chunk_size
        }),
{
}

/// Times are told apart to the nanosecond, and a later one is greater; those before 1970 count as
/// none.
pub proof fn times_are_told_apart(secs: i64, nanos: i64, later_secs: i64, later_nanos: i64)
    requires
        0 <= nanos < 1_000_000_000,
        0 <= later_nanos < 1_000_000_000,
        0 <= secs,
        0 <= later_secs,
    ensures
        secs < later_secs || (secs == later_secs && nanos < later_nanos) <==> time_ns(secs, nanos)
            < time_ns(later_secs, later_nanos),
        time_ns(secs, nanos) == time_ns(later_secs, later_nanos) <==> secs == later_secs && nanos
            == later_nanos,
        time_ns(0, nanos) == nanos,
        forall|early: i64| early < 0 ==> #[trigger] time_ns(early, nanos) == 0,
{
    assert(secs * 1_000_000_000 + nanos <= u128::MAX);
    assert(later_secs * 1_000_000_000 + later_nanos <= u128::MAX);
}

/// Why a run ended is told: the message of a sync that failed, or of the setting aside that failed,
/// with the place; a failure that does not end the run leaves what was told before.
pub proof fn failures_are_told(
    step: RunStep,
    mountpoint: Seq<char>,
    event: RunEvent,
    before: Option<Seq<char>>,
)
    ensures
        !(event is Failed) ==> run_failure(step, mountpoint, event, before) == before,
        event matches RunEvent::Failed(message) ==> {
            &&& step == RunStep::FirstSync || step == RunStep::ChangeSync || step
                == RunStep::MissedSync || step == RunStep::DrainSync || step == RunStep::LastSync
                ==> run_failure(step, mountpoint, event, before) == Some(message@)
            &&& step == RunStep::Quarantine ==> run_failure(step, mountpoint, event, before)
                is Some && message@.is_suffix_of(
                run_failure(step, mountpoint, event, before)->0,
            )
            &&& !must_succeed(step) ==> run_failure(step, mountpoint, event, before) == before
        },
        must_succeed(step) <==> {
            ||| step == RunStep::Quarantine
            ||| step == RunStep::FirstSync
            ||| step == RunStep::ChangeSync
            ||| step == RunStep::MissedSync
            ||| step == RunStep::DrainSync
            ||| step == RunStep::LastSync
        },
{
    if let RunEvent::Failed(message) = event {
        let head = "Failed to quarantine stale mountpoint "@ + mountpoint + ": "@;
        let told = head + message@;
        assert(told.skip(head.len() as int) =~= message@);
    }
}

/// The kinds of conflicts are written differently, and each but the one of a change on both sides is
/// read again as what it is.
pub proof fn kinds_are_told_apart(a: ConflictKind, b: ConflictKind)
    ensures
        kind_text(a) == kind_text(b) ==> a == b,
        reason_text(a) == reason_text(b) ==> a == b,
        a != ConflictKind::LocalRemoteBothModified ==> named_kind(kind_text(a)) == Some(a),
{
    reveal_strlit("conflict");
    reveal_strlit("decrypt_collision");
    reveal_strlit("deleted_open_recovery");
    reveal_strlit("both_modified_conflict");
    reveal_strlit("local_edit_remote_delete");
    reveal_strlit("local_delete_remote_edit");
    reveal_strlit("local_remote_both_modified");
    assert("conflict"@.len() == 8);
    assert("decrypt_collision"@.len() == 17);
    assert("deleted_open_recovery"@.len() == 21);
    assert("both_modified_conflict"@.len() == 22);
    assert("local_edit_remote_delete"@.len() == 24);
    assert("local_delete_remote_edit"@.len() == 24);
    assert("local_remote_both_modified"@.len() == 26);
    assert("local_edit_remote_delete"@[6] == 'e');
    assert("local_delete_remote_edit"@[6] == 'd');
}

} // verus!
