//! In which order a mount, a pass and the work on one file get on.

use vstd::prelude::*;

use crate::course::{
    next_decrypt_step, next_encrypt_step, next_scan_step, DecryptEvent, DecryptStep, EncryptStep,
    ScanEvent, ScanStep,
};
use crate::decrypt::DecryptGate;
use crate::encrypt::EncryptMethod;
use crate::errors::MountSyncError;
use crate::held::{low_space_step, LowSpaceStep};
use crate::path::{PathMap, PathSet, PathView};
use crate::round::{next_round_step, round_noted, RoundEvent, RoundStep, SyncRound};
use crate::run::{
    begins_rehydrate, discovery_due, next_step, tracker_after, was_searched, MountRun, RunEvent,
    RunStep,
};
use crate::scan::{ContentStep, ScanGate};
use crate::status::{drains_soon, nothing_to_lose};
use crate::sync::{deletion_step, mount_lost, DeletionWork, HealthFault};
use crate::tracker::{ClockNanos, SyncTracker};

verus! {

/// The step of an encryption after so many steps that went well.
pub open spec fn encrypt_step_at(method: EncryptMethod, count: nat) -> EncryptStep
    decreases count,
{
    if count == 0 {
        EncryptStep::Plan
    } else {
        next_encrypt_step(method, encrypt_step_at(method, (count - 1) as nat))
    }
}

/// An encryption that goes well plans, encrypts, looks again, stores the metadata, takes note and
/// is done. A file that is read whole is looked at again between that and its encryption; of any
/// other the look follows the encryption. What is not written in place is placed after the look.
pub proof fn encryptions_go_through(method: EncryptMethod)
    ensures
        method is Whole ==> {
            &&& encrypt_step_at(method, 1) == EncryptStep::Read
            &&& encrypt_step_at(method, 2) == EncryptStep::LookAgain
            &&& encrypt_step_at(method, 3) == EncryptStep::Encrypt
            &&& encrypt_step_at(method, 4) == EncryptStep::Place
            &&& encrypt_step_at(method, 5) == EncryptStep::StoreMetadata
            &&& encrypt_step_at(method, 6) == EncryptStep::Note
            &&& encrypt_step_at(method, 7) == EncryptStep::Done
        },
        method is Sparse ==> {
            &&& encrypt_step_at(method, 1) == EncryptStep::Pack
            &&& encrypt_step_at(method, 2) == EncryptStep::Encrypt
            &&& encrypt_step_at(method, 3) == EncryptStep::LookAgain
            &&& encrypt_step_at(method, 4) == EncryptStep::Place
            &&& encrypt_step_at(method, 5) == EncryptStep::StoreMetadata
            &&& encrypt_step_at(method, 6) == EncryptStep::Note
            &&& encrypt_step_at(method, 7) == EncryptStep::Done
        },
        method is Streaming ==> {
            &&& encrypt_step_at(method, 1) == EncryptStep::Encrypt
            &&& encrypt_step_at(method, 2) == EncryptStep::LookAgain
            &&& encrypt_step_at(method, 3) == EncryptStep::StoreMetadata
            &&& encrypt_step_at(method, 4) == EncryptStep::Note
            &&& encrypt_step_at(method, 5) == EncryptStep::Done
        },
{
    reveal_with_fuel(encrypt_step_at, 8);
}

/// An encrypted file that has to be decrypted is settled a place, looked at, written if there is
/// room and noted; any other is left as it is.
pub proof fn decryptions_go_through(gate: DecryptGate, dirty: bool, dirty_again: bool)
    ensures
        ({
            let gated = next_decrypt_step(DecryptStep::Begin, DecryptEvent::Gate(gate));
            let settled = next_decrypt_step(gated, DecryptEvent::Done);
            let looked = next_decrypt_step(settled, DecryptEvent::Changed(dirty));
            let again = if dirty {
                looked
            } else {
                next_decrypt_step(looked, DecryptEvent::Changed(dirty_again))
            };
            let roomy = next_decrypt_step(again, DecryptEvent::Room(true));
            let made = next_decrypt_step(roomy, DecryptEvent::Done);
            let written = next_decrypt_step(made, DecryptEvent::Done);
            &&& gate != DecryptGate::Proceed ==> gated == DecryptStep::Ready
            &&& gate == DecryptGate::Proceed ==> {
                &&& gated == DecryptStep::SettlePlace
                &&& settled == DecryptStep::LookForChanges
                &&& !dirty ==> looked == DecryptStep::LookAgain
                &&& again == DecryptStep::AskRoom
                &&& next_decrypt_step(again, DecryptEvent::Room(false)) == DecryptStep::Deferred
                &&& made == DecryptStep::Write
                &&& written == DecryptStep::Note
                &&& next_decrypt_step(written, DecryptEvent::Done) == DecryptStep::Ready
            }
        }),
{
}

/// A decryption that fails waits if room was wanting and fails otherwise; it is never taken for
/// done. Nothing is written before the place was looked at and there is room.
pub proof fn failed_decryptions_are_told(step: DecryptStep, event: DecryptEvent, low_space: bool)
    ensures
        step == DecryptStep::Write || step == DecryptStep::MakeDirectory ==> next_decrypt_step(
            step,
            DecryptEvent::Failed { low_space },
        ) == if low_space {
            DecryptStep::Deferred
        } else {
            DecryptStep::Failed
        },
        step != DecryptStep::Ready && event is Failed ==> next_decrypt_step(step, event)
            != DecryptStep::Ready,
        next_decrypt_step(step, event) == DecryptStep::Write && step != DecryptStep::Write ==> step
            == DecryptStep::MakeDirectory && event is Done,
        next_decrypt_step(step, event) == DecryptStep::MakeDirectory && step
            != DecryptStep::MakeDirectory ==> step == DecryptStep::AskRoom && event
            == DecryptEvent::Room(true),
        next_decrypt_step(step, event) == DecryptStep::AskRoom && step != DecryptStep::AskRoom
            ==> event is Changed && (step == DecryptStep::LookAgain || step
            == DecryptStep::LookForChanges && event == DecryptEvent::Changed(true)),
        next_decrypt_step(step, event) == DecryptStep::Ready && step != DecryptStep::Ready ==> (step
            == DecryptStep::Note && event is Done) || (step == DecryptStep::Begin
            && event is Gate && event != DecryptEvent::Gate(DecryptGate::Proceed)),
        step == DecryptStep::Ready || step == DecryptStep::Deferred || step == DecryptStep::Failed
            ==> next_decrypt_step(step, event) == step,
{
}

/// A mounted file that is synced gets its identifier and a look at its content: if that is unchanged
/// it is noted, if it has to be encrypted it is, and noted if it then counts as seen; otherwise it
/// waits, and is not noted. A copy is noted as what it is, and anything else that is held back is
/// left alone.
pub proof fn scans_go_through(gate: ScanGate, content: ContentStep, seen: bool)
    ensures
        ({
            let gated = next_scan_step(ScanStep::Begin, ScanEvent::Gate(gate));
            let looking = next_scan_step(gated, ScanEvent::Done);
            let looked = next_scan_step(looking, ScanEvent::Content(content));
            &&& gate == ScanGate::Open <==> gated == ScanStep::SettleId
            &&& gate == ScanGate::Conflict <==> gated == ScanStep::NoteConflict
            &&& gate == ScanGate::Recovered <==> gated == ScanStep::NoteRecovered
            &&& gate != ScanGate::Open && gate != ScanGate::Conflict && gate != ScanGate::Recovered
                ==> gated == ScanStep::Over
            &&& gate != ScanGate::Open ==> looking == ScanStep::Over
            &&& gate == ScanGate::Open ==> {
                &&& looking == ScanStep::LookAtContent
                &&& content == ContentStep::Unchanged <==> looked == ScanStep::Note
                &&& content == ContentStep::Encrypt <==> looked == ScanStep::Encrypt
                &&& content == ContentStep::WaitStable || content == ContentStep::WaitSpace
                    ==> looked == ScanStep::Over
            }
            &&& next_scan_step(ScanStep::Encrypt, ScanEvent::Encrypted(seen)) == if seen {
                ScanStep::Note
            } else {
                ScanStep::Over
            }
            &&& next_scan_step(ScanStep::Note, ScanEvent::Done) == ScanStep::Over
        }),
{
}

/// A pass in which everything goes well, in a mount that has room, stores the metadata, looks after
/// open files, tries again what could not be encrypted, reads the encrypted side, sees what is gone
/// from it, scans the mount, carries out the deletions as far as they are to be, and writes the
/// journals.
pub proof fn passes_do_everything(
    tracker: SyncTracker,
    fault: Option<HealthFault>,
    rooms: RoundEvent,
    present: PathSet,
)
    requires
        low_space_step(tracker) == LowSpaceStep::Keep,
        rooms is Rooms,
    ensures
        ({
            let done = RoundEvent::Done;
            let healthy = next_round_step(
                RoundStep::LookAtMount,
                RoundEvent::Told(true),
                tracker,
            );
            let rooms_asked = next_round_step(healthy, RoundEvent::Health(fault), tracker);
            let paths = next_round_step(rooms_asked, rooms, tracker);
            let store = next_round_step(paths, RoundEvent::Present(present), tracker);
            let probe = next_round_step(store, done, tracker);
            let retry = next_round_step(probe, done, tracker);
            let read = next_round_step(retry, done, tracker);
            let directories = next_round_step(read, done, tracker);
            let files = next_round_step(directories, done, tracker);
            let scan = next_round_step(files, done, tracker);
            let scanned = next_round_step(scan, done, tracker);
            let orphans = next_round_step(RoundStep::ProcessDeletions, done, tracker);
            let last = next_round_step(orphans, done, tracker);
            let flush = next_round_step(last, rooms, tracker);
            &&& healthy == RoundStep::CheckHealth
            &&& rooms_asked == RoundStep::FirstRooms
            &&& paths == RoundStep::LookForPaths
            &&& store == RoundStep::StoreMetadata
            &&& probe == RoundStep::ProbeOpen
            &&& retry == RoundStep::RetryWritebacks
            &&& read == RoundStep::ReadEncrypted
            &&& directories == RoundStep::TrackDirectories
            &&& files == RoundStep::TrackFiles
            &&& scan == RoundStep::ScanMount
            &&& scanned == if deletion_step(tracker) == DeletionWork::Process {
                RoundStep::ProcessDeletions
            } else {
                last
            }
            &&& orphans == RoundStep::ProcessOrphans
            &&& last == RoundStep::LastRooms
            &&& flush == RoundStep::Flush
            &&& next_round_step(flush, done, tracker) == RoundStep::Over
        }),
{
}

/// Where room is wanting before or after the work, the mount is made read-only, and where it is not
/// any more, it gets its permissions back, before the pass goes on; a failure of that ends the pass.
pub proof fn passes_see_to_the_room(
    tracker: SyncTracker,
    rooms: RoundEvent,
    modes: PathMap<u32>,
    err: MountSyncError,
)
    requires
        rooms is Rooms,
    ensures
        low_space_step(tracker) == LowSpaceStep::MakeReadonly ==> {
            let first = next_round_step(RoundStep::FirstRooms, rooms, tracker);
            let last = next_round_step(RoundStep::LastRooms, rooms, tracker);
            &&& first == RoundStep::FirstMakeReadonly
            &&& last == RoundStep::LastMakeReadonly
            &&& next_round_step(first, RoundEvent::Modes(modes), tracker) == RoundStep::LookForPaths
            &&& next_round_step(last, RoundEvent::Modes(modes), tracker) == RoundStep::Flush
            &&& next_round_step(first, RoundEvent::Failed(err), tracker) == RoundStep::Over
            &&& next_round_step(last, RoundEvent::Failed(err), tracker) == RoundStep::Over
        },
        low_space_step(tracker) == LowSpaceStep::Restore ==> {
            let first = next_round_step(RoundStep::FirstRooms, rooms, tracker);
            let last = next_round_step(RoundStep::LastRooms, rooms, tracker);
            &&& first == RoundStep::FirstRestore
            &&& last == RoundStep::LastRestore
            &&& next_round_step(first, RoundEvent::Done, tracker) == RoundStep::LookForPaths
            &&& next_round_step(last, RoundEvent::Done, tracker) == RoundStep::Flush
            &&& next_round_step(first, RoundEvent::Failed(err), tracker) == RoundStep::Over
            &&& next_round_step(last, RoundEvent::Failed(err), tracker) == RoundStep::Over
        },
{
}

/// A mount that is gone is not scanned: what was known of it is dropped, and the journals are
/// written.
pub proof fn lost_mounts_end_the_pass(
    round: SyncRound,
    mount_root: PathView,
    before: SyncTracker,
    after: SyncTracker,
)
    requires
        round.step == RoundStep::LookAtMount,
        round_noted(round, RoundEvent::Told(false), mount_root, before, after),
    ensures
        next_round_step(round.step, RoundEvent::Told(false), after) == RoundStep::Flush,
        mount_lost(before, after),
{
}

/// A pass takes a volume for short of room exactly if it is known to have less than 256 MiB, and
/// takes note of nothing else when it is told.
pub proof fn short_volumes_are_noted(
    round: SyncRound,
    mount_root: PathView,
    before: SyncTracker,
    after: SyncTracker,
    mount: Option<u64>,
    encrypted: Option<u64>,
    journal: Option<u64>,
)
    requires
        round.step == RoundStep::FirstRooms || round.step == RoundStep::LastRooms,
        round_noted(
            round,
            RoundEvent::Rooms { mount, encrypted, journal },
            mount_root,
            before,
            after,
        ),
    ensures
        after.space_warnings.mount_low <==> mount is Some && mount->0 < 268_435_456,
        after.space_warnings.encrypted_low <==> encrypted is Some && encrypted->0 < 268_435_456,
        after.space_warnings.journal_low <==> journal is Some && journal->0 < 268_435_456,
        after.work == before.work,
        after.files == before.files,
        after.held == before.held,
{
}

/// A mount that could not be read is known as such after the look at it, and one that could is not:
/// deletions are carried out only after a look without a fault.
pub proof fn faults_are_noted(
    round: SyncRound,
    mount_root: PathView,
    before: SyncTracker,
    after: SyncTracker,
    fault: Option<HealthFault>,
)
    requires
        round.step == RoundStep::CheckHealth,
        round_noted(round, RoundEvent::Health(fault), mount_root, before, after),
    ensures
        after.scan_health is Healthy <==> fault is None,
        fault is Some ==> deletion_step(after) != DeletionWork::Process,
        after.work == before.work,
        after.files == before.files,
{
}

/// A run that starts without a marker of a clean end holds the files of the mount against what is
/// known, unless the mount is empty; if that fails it sets them aside, and if that fails too it
/// ends. Only after a clean end, or with an empty mount, the mount is filled anew.
pub proof fn unclean_ends_are_reconciled(
    run: MountRun,
    tracker: SyncTracker,
    event: RunEvent,
    message: String,
    clock: ClockNanos,
)
    ensures
        run.step == RunStep::Begin ==> next_step(run, tracker, RunEvent::Done, clock)
            == if run.options.has_config_dir {
            RunStep::TakeMarker
        } else {
            RunStep::FirstPublish
        },
        run.step == RunStep::TakeMarker ==> next_step(run, tracker, RunEvent::Told(false), clock)
            == RunStep::LookAtMount,
        run.step == RunStep::TakeMarker ==> next_step(run, tracker, RunEvent::Told(true), clock)
            == RunStep::FirstPublish,
        run.step == RunStep::LookAtMount ==> {
            &&& next_step(run, tracker, RunEvent::Told(false), clock) == RunStep::Reconcile
            &&& next_step(run, tracker, RunEvent::Failed(message), clock) == RunStep::Reconcile
            &&& next_step(run, tracker, RunEvent::Told(true), clock) == RunStep::FirstPublish
        },
        run.step == RunStep::Reconcile && event is Kept ==> next_step(run, tracker, event, clock)
            == RunStep::FirstPublish,
        run.step == RunStep::Reconcile ==> next_step(
            run,
            tracker,
            RunEvent::Failed(message),
            clock,
        ) == RunStep::Quarantine,
        run.step == RunStep::Quarantine && event is Kept ==> next_step(run, tracker, event, clock)
            == RunStep::FirstPublish,
        begins_rehydrate(run.step, event) ==> event == RunEvent::Told(true) && (run.step
            == RunStep::TakeMarker || run.step == RunStep::LookAtMount),
        run.step == RunStep::TakeMarker || run.step == RunStep::LookAtMount ==> begins_rehydrate(
            run.step,
            RunEvent::Told(true),
        ),
{
}

/// Before a run waits for events it publishes, syncs, brings back what was set aside, publishes
/// again and opens the mount; what was queued is carried out, synced and published first.
pub proof fn starts_go_through(run: MountRun, tracker: SyncTracker, clock: ClockNanos)
    ensures
        ({
            let next = next_step(run, tracker, RunEvent::Done, clock);
            let queued = tracker.pending_local_creates@.len() > 0
                || tracker.pending_local_deletes@.len() > 0;
            &&& run.step == RunStep::FirstPublish ==> next == RunStep::FirstSync
            &&& run.step == RunStep::FirstSync ==> next == if run.recovery is Some {
                RunStep::BringCopies
            } else {
                RunStep::SecondPublish
            }
            &&& run.step == RunStep::BringCopies ==> next == RunStep::SecondPublish
            &&& run.step == RunStep::SecondPublish ==> next == RunStep::Open
            &&& run.step == RunStep::Open ==> next == if queued {
                RunStep::ProcessCreates
            } else {
                RunStep::Wait
            }
            &&& run.step == RunStep::ProcessCreates ==> next == if run.skip_deletes {
                RunStep::OperationsSync
            } else {
                RunStep::ProcessDeletes
            }
            &&& run.step == RunStep::ProcessDeletes ==> next == RunStep::OperationsSync
            &&& run.step == RunStep::OperationsSync ==> next == RunStep::OperationsPublish
            &&& run.step == RunStep::OperationsPublish ==> next == RunStep::Wait
        }),
{
}

/// A change in the mount, or the time to look for one, is answered with a sync; so is the time for
/// work that drains soon, where there is any. Every sync is followed by the publication of the
/// state, changes that were missed by another sync, and then the run waits again.
pub proof fn changes_are_answered(
    run: MountRun,
    tracker: SyncTracker,
    clock: ClockNanos,
    count: usize,
)
    ensures
        run.step == RunStep::Wait ==> {
            &&& next_step(run, tracker, RunEvent::Changed, clock) == RunStep::ChangeSync
            &&& next_step(run, tracker, RunEvent::PollTick, clock) == RunStep::ChangeSync
            &&& next_step(run, tracker, RunEvent::DrainTick, clock) == if drains_soon(tracker) {
                RunStep::DrainSync
            } else {
                RunStep::Wait
            }
            &&& next_step(run, tracker, RunEvent::RequestTick, clock)
                == if run.options.answers_requests {
                RunStep::AnswerRequests
            } else {
                RunStep::Wait
            }
            &&& next_step(run, tracker, RunEvent::Stop, clock) == RunStep::Withdraw
        },
        run.step == RunStep::ChangeSync ==> next_step(run, tracker, RunEvent::Done, clock)
            == RunStep::ChangePublish,
        run.step == RunStep::ChangePublish ==> next_step(run, tracker, RunEvent::Told(true), clock)
            == RunStep::MissedSync,
        run.step == RunStep::ChangePublish ==> next_step(run, tracker, RunEvent::Told(false), clock)
            == if run.options.migration {
            RunStep::Report
        } else {
            RunStep::Wait
        },
        run.step == RunStep::MissedSync ==> next_step(run, tracker, RunEvent::Done, clock)
            == RunStep::MissedPublish,
        run.step == RunStep::MissedPublish ==> next_step(run, tracker, RunEvent::Done, clock)
            == if run.options.migration {
            RunStep::Report
        } else {
            RunStep::Wait
        },
        run.step == RunStep::DrainSync ==> next_step(run, tracker, RunEvent::Done, clock)
            == RunStep::DrainPublish,
        run.step == RunStep::DrainPublish || run.step == RunStep::Report || run.step
            == RunStep::Discover || run.step == RunStep::CheckRekey ==> next_step(
            run,
            tracker,
            RunEvent::Done,
            clock,
        ) == RunStep::Wait,
        run.step == RunStep::AnswerRequests ==> next_step(
            run,
            tracker,
            RunEvent::Answered(count),
            clock,
        ) == if count > 0 {
            RunStep::DrainSync
        } else {
            RunStep::Wait
        },
{
}

/// A run that is stopped withdraws the mount, syncs and publishes once more, and empties the mount
/// if nothing would be lost; only after that was done, and where there is a place for it, it leaves
/// the marker of a clean end. Every way leads to the end.
pub proof fn stops_go_through(
    run: MountRun,
    tracker: SyncTracker,
    message: String,
    clock: ClockNanos,
)
    ensures
        ({
            let next = next_step(run, tracker, RunEvent::Done, clock);
            let failed = next_step(run, tracker, RunEvent::Failed(message), clock);
            let end = if run.options.migration {
                RunStep::LastReport
            } else {
                RunStep::Over
            };
            &&& run.step == RunStep::Withdraw ==> next == RunStep::LastSync && failed
                == RunStep::LastSync
            &&& run.step == RunStep::LastSync ==> next == RunStep::LastPublish && failed
                == RunStep::Over
            &&& run.step == RunStep::LastPublish ==> next == if nothing_to_lose(tracker) {
                RunStep::CleanUp
            } else {
                end
            }
            &&& run.step == RunStep::CleanUp ==> next == if run.options.has_config_dir {
                RunStep::LeaveMarker
            } else {
                end
            }
            &&& run.step == RunStep::CleanUp ==> failed == end
            &&& run.step == RunStep::LeaveMarker ==> next == end && failed == end
            &&& run.step == RunStep::LastReport ==> next == RunStep::Over && failed == RunStep::Over
        }),
{
}

/// A search for what a migration has to do is made only while there is a migration, nothing is left
/// to do, and a minute has passed since the last one; where there was none, at once.
pub proof fn searches_keep_their_distance(
    run: MountRun,
    tracker: SyncTracker,
    event: RunEvent,
    clock: ClockNanos,
)
    ensures
        next_step(run, tracker, event, clock) == RunStep::CountRewraps && run.step
            != RunStep::CountRewraps ==> {
            &&& run.step == RunStep::ContinueRewrap
            &&& event == RunEvent::Told(true)
            &&& run.last_discovery is Some ==> clock >= run.last_discovery->0 + 60_000_000_000
        },
        next_step(run, tracker, event, clock) == RunStep::Discover && run.step != RunStep::Discover
            ==> run.step == RunStep::CountRewraps && event == RunEvent::Counted(Some(0)),
        discovery_due(None, clock),
        run.last_discovery is Some && clock >= run.last_discovery->0 + 60_000_000_000
            ==> discovery_due(run.last_discovery, clock),
        run.step == RunStep::ContinueRewrap && discovery_due(run.last_discovery, clock)
            ==> next_step(run, tracker, RunEvent::Told(true), clock) == RunStep::CountRewraps,
        run.step == RunStep::CountRewraps ==> next_step(
            run,
            tracker,
            RunEvent::Counted(Some(0)),
            clock,
        ) == RunStep::Discover,
        run.step == RunStep::Discover ==> was_searched(run.step, RunEvent::Done),
        run.options.migration && run.step == RunStep::Wait ==> next_step(
            run,
            tracker,
            RunEvent::StateTick,
            clock,
        ) == RunStep::ReloadState && next_step(run, tracker, RunEvent::StatusTick, clock)
            == RunStep::AskMigrating,
        run.step == RunStep::ReloadState ==> next_step(run, tracker, RunEvent::Done, clock)
            == RunStep::ContinueRewrap,
        run.step == RunStep::AskMigrating ==> next_step(run, tracker, RunEvent::Told(false), clock)
            == RunStep::CheckRekey && next_step(run, tracker, RunEvent::Told(true), clock)
            == RunStep::Wait,
{
}

/// A run changes what is known only where the mount is filled anew, where that ends with the first
/// sync, and where the content of the mount was set aside; the changes that waited for it are then
/// given up.
pub proof fn runs_keep_what_is_known(
    run: MountRun,
    event: RunEvent,
    before: SyncTracker,
    after: SyncTracker,
)
    requires
        tracker_after(run, event, before, after),
    ensures
        run.step != RunStep::TakeMarker && run.step != RunStep::LookAtMount && run.step
            != RunStep::FirstSync && run.step != RunStep::Quarantine ==> after == before,
        run.step == RunStep::FirstSync && event is Done && run.rehydrate
            ==> !after.suppress_deletion_inference && !after.suppress_deletion_processing,
        run.step == RunStep::Quarantine ==> after.files == before.files
            && after.work.pending_deletions == before.work.pending_deletions,
        run.step == RunStep::FirstSync || run.step == RunStep::Quarantine ==> after.copies
            == before.copies,
        begins_rehydrate(run.step, event) ==> after.suppress_deletion_inference
            && after.suppress_deletion_processing,
{
}

} // verus!
