//! The course of one pass over both sides of a mount.

use vstd::prelude::*;

use crate::deletion::{counts_reset, deletion_views, orphan_views};
use crate::errors::MountSyncError;
use crate::held::{low_space_step, readonly_left, LowSpaceStep};
use crate::path::{PathEntries, PathKey, PathMap, PathSet, PathView, SyncPath};
use crate::pending::{collision_index, path_values, tracked_paths};
use crate::space::{SpaceWarningState, LOW_SPACE_WARNING_RESERVE_BYTES};
use crate::sync::{
    check_mount_health, deletion_step, fault_reason, mount_lost, refreshes_kept, DeletionWork,
    Expected, HealthFault,
};
use crate::tracker::{FileLedger, HeldBack, PendingWork, ScanHealth, SyncTracker};

verus! {

/// What a pass does next.
#[derive(Debug, Clone, Copy, PartialEq, Eq, Structural)]
pub enum RoundStep {
    /// Tell whether the mount is there.
    LookAtMount,
    /// Tell what is wrong with the mount, if anything.
    CheckHealth,
    /// Tell how much room there is, before anything is done.
    FirstRooms,
    /// Make the mount read-only, and tell which permissions it had.
    FirstMakeReadonly,
    /// Give the mount the permissions back that it had.
    FirstRestore,
    /// Tell which of the known paths are there.
    LookForPaths,
    /// Store the metadata that could not be stored before.
    StoreMetadata,
    /// See which deleted files are still open.
    ProbeOpen,
    /// Encrypt what could not be encrypted before.
    RetryWritebacks,
    /// Decrypt what changed on the encrypted side.
    ReadEncrypted,
    /// See which directories are gone from the encrypted side.
    TrackDirectories,
    /// See which files are gone from the encrypted side.
    TrackFiles,
    /// Encrypt what changed in the mount.
    ScanMount,
    ProcessDeletions,
    ProcessOrphans,
    /// Tell how much room there is, after all was done.
    LastRooms,
    LastMakeReadonly,
    LastRestore,
    /// Write the journals that changed.
    Flush,
    /// The pass is over.
    Over,
}

/// What came of a step.
pub enum RoundEvent {
    Done,
    Failed(MountSyncError),
    Told(bool),
    Health(Option<HealthFault>),
    Rooms { mount: Option<u64>, encrypted: Option<u64>, journal: Option<u64> },
    Modes(PathMap<u32>),
    Present(PathSet),
}

impl RoundEvent {
    /// In every map each key stands once.
    pub open spec fn wf(&self) -> bool {
        match self {
            RoundEvent::Modes(modes) => modes.wf(),
            RoundEvent::Present(present) => present.wf(),
            _ => true,
        }
    }
}

/// One pass over both sides of a mount.
pub struct SyncRound {
    pub step: RoundStep,
    /// The paths of the mount that the encrypted side asks for, as far as it was read.
    pub expected: Expected,
    /// Why the pass ended, where it failed.
    pub failure: Option<MountSyncError>,
}

/// What follows once it is known how much room there is.
pub open spec fn by_room(
    step: LowSpaceStep,
    make_readonly: RoundStep,
    restore: RoundStep,
    keep: RoundStep,
) -> RoundStep {
    match step {
        LowSpaceStep::MakeReadonly => make_readonly,
        LowSpaceStep::Restore => restore,
        LowSpaceStep::Keep => keep,
    }
}

/// What follows a step that has to succeed.
pub open spec fn done_or_over(event: RoundEvent, next: RoundStep, stay: RoundStep) -> RoundStep {
    match event {
        RoundEvent::Done => next,
        RoundEvent::Failed(_) => RoundStep::Over,
        _ => stay,
    }
}

/// The step that follows, once what the event tells was taken in. An event that does not belong to
/// a step leaves the pass where it is.
pub open spec fn next_round_step(
    step: RoundStep,
    event: RoundEvent,
    tracker: SyncTracker,
) -> RoundStep {
    let stay = step;
    match step {
        RoundStep::LookAtMount => match event {
            RoundEvent::Told(there) => if there {
                RoundStep::CheckHealth
            } else {
                RoundStep::Flush
            },
            _ => stay,
        },
        RoundStep::CheckHealth => match event {
            RoundEvent::Health(_) => RoundStep::FirstRooms,
            RoundEvent::Failed(_) => RoundStep::Over,
            _ => stay,
        },
        RoundStep::FirstRooms => match event {
            RoundEvent::Rooms { .. } => by_room(
                low_space_step(tracker),
                RoundStep::FirstMakeReadonly,
                RoundStep::FirstRestore,
                RoundStep::LookForPaths,
            ),
            _ => stay,
        },
        RoundStep::FirstMakeReadonly => match event {
            RoundEvent::Modes(_) => RoundStep::LookForPaths,
            RoundEvent::Failed(_) => RoundStep::Over,
            _ => stay,
        },
        RoundStep::FirstRestore => done_or_over(event, RoundStep::LookForPaths, stay),
        RoundStep::LookForPaths => match event {
            RoundEvent::Present(_) => RoundStep::StoreMetadata,
            _ => stay,
        },
        RoundStep::StoreMetadata => match event {
            RoundEvent::Done => RoundStep::ProbeOpen,
            _ => stay,
        },
        RoundStep::ProbeOpen => done_or_over(event, RoundStep::RetryWritebacks, stay),
        RoundStep::RetryWritebacks => done_or_over(event, RoundStep::ReadEncrypted, stay),
        RoundStep::ReadEncrypted => done_or_over(event, RoundStep::TrackDirectories, stay),
        RoundStep::TrackDirectories => done_or_over(event, RoundStep::TrackFiles, stay),
        RoundStep::TrackFiles => done_or_over(event, RoundStep::ScanMount, stay),
        RoundStep::ScanMount => done_or_over(
            event,
            if deletion_step(tracker) == DeletionWork::Process {
                RoundStep::ProcessDeletions
            } else {
                RoundStep::LastRooms
            },
            stay,
        ),
        RoundStep::ProcessDeletions => done_or_over(event, RoundStep::ProcessOrphans, stay),
        RoundStep::ProcessOrphans => done_or_over(event, RoundStep::LastRooms, stay),
        RoundStep::LastRooms => match event {
            RoundEvent::Rooms { .. } => by_room(
                low_space_step(tracker),
                RoundStep::LastMakeReadonly,
                RoundStep::LastRestore,
                RoundStep::Flush,
            ),
            _ => stay,
        },
        RoundStep::LastMakeReadonly => match event {
            RoundEvent::Modes(_) => RoundStep::Flush,
            RoundEvent::Failed(_) => RoundStep::Over,
            _ => stay,
        },
        RoundStep::LastRestore => done_or_over(event, RoundStep::Flush, stay),
        RoundStep::Flush => match event {
            RoundEvent::Done => RoundStep::Over,
            _ => stay,
        },
        RoundStep::Over => stay,
    }
}

/// A step at which an error ends the pass.
pub open spec fn may_fail(step: RoundStep) -> bool {
    step == RoundStep::CheckHealth || step == RoundStep::FirstMakeReadonly || step
        == RoundStep::FirstRestore || step == RoundStep::ProbeOpen || step
        == RoundStep::RetryWritebacks || step == RoundStep::ReadEncrypted || step
        == RoundStep::TrackDirectories || step == RoundStep::TrackFiles || step
        == RoundStep::ScanMount || step == RoundStep::ProcessDeletions || step
        == RoundStep::ProcessOrphans || step == RoundStep::LastMakeReadonly || step
        == RoundStep::LastRestore
}

/// A volume is short of room.
pub open spec fn short(room: Option<u64>) -> bool {
    room matches Some(r) && r < LOW_SPACE_WARNING_RESERVE_BYTES
}

/// The counts of deletions and orphans start anew.
pub open spec fn counts_restarted(before: SyncTracker, after: SyncTracker) -> bool {
    &&& deletion_views(after.work.pending_deletions@) == counts_reset(
        deletion_views(before.work.pending_deletions@),
    )
    &&& after.work.pending_deletions_dirty == (before.work.pending_deletions_dirty
        || before.work.pending_deletions@.len() > 0)
    &&& orphan_views(after.work.pending_orphans@) == counts_reset(
        orphan_views(before.work.pending_orphans@),
    )
    &&& after.work.pending_orphans_dirty == (before.work.pending_orphans_dirty
        || before.work.pending_orphans@.len() > 0)
    &&& after == (SyncTracker { work: after.work, ..before })
    &&& after.work == (PendingWork {
        pending_deletions: after.work.pending_deletions,
        pending_deletions_dirty: after.work.pending_deletions_dirty,
        pending_orphans: after.work.pending_orphans,
        pending_orphans_dirty: after.work.pending_orphans_dirty,
        ..before.work
    })
}

/// The index of the names in the mount is built anew.
pub open spec fn index_rebuilt(
    before: SyncTracker,
    after: SyncTracker,
    mount_root: PathView,
    present: Set<PathKey>,
) -> bool {
    &&& path_values(after.files.mount_collision_keys@) == collision_index(
        mount_root,
        tracked_paths(before),
        present,
    )
    &&& after == (SyncTracker { files: after.files, ..before })
    &&& after.files == (FileLedger {
        mount_collision_keys: after.files.mount_collision_keys,
        ..before.files
    })
}

/// How healthy the mount was found to be.
pub open spec fn found_healthy(health: ScanHealth, fault: Option<HealthFault>) -> bool {
    match fault {
        Some(found) => health matches ScanHealth::Unhealthy { reason } && reason@ == fault_reason(
            found,
        ),
        None => health is Healthy,
    }
}

/// What the event does to the state of the mount.
pub open spec fn round_noted(
    round: SyncRound,
    event: RoundEvent,
    mount_root: PathView,
    before: SyncTracker,
    after: SyncTracker,
) -> bool {
    match (round.step, event) {
        (RoundStep::LookAtMount, RoundEvent::Told(false)) => mount_lost(before, after),
        (RoundStep::CheckHealth, RoundEvent::Health(fault)) => {
            &&& found_healthy(after.scan_health, fault)
            &&& after == (SyncTracker { scan_health: after.scan_health, ..before })
        },
        (RoundStep::FirstRooms, RoundEvent::Rooms { mount, encrypted, journal }) => after == (
        SyncTracker {
            space_warnings: SpaceWarningState {
                mount_low: short(mount),
                encrypted_low: short(encrypted),
                journal_low: short(journal),
            },
            ..before
        }),
        (RoundStep::LastRooms, RoundEvent::Rooms { mount, encrypted, journal }) => after == (
        SyncTracker {
            space_warnings: SpaceWarningState {
                mount_low: short(mount),
                encrypted_low: short(encrypted),
                journal_low: short(journal),
            },
            ..before
        }),
        (RoundStep::FirstMakeReadonly, RoundEvent::Modes(modes)) => after == (SyncTracker {
            held: HeldBack {
                mount_readonly_active: true,
                mount_readonly_restore_modes: modes,
                ..before.held
            },
            ..before
        }),
        (RoundStep::LastMakeReadonly, RoundEvent::Modes(modes)) => after == (SyncTracker {
            held: HeldBack {
                mount_readonly_active: true,
                mount_readonly_restore_modes: modes,
                ..before.held
            },
            ..before
        }),
        (RoundStep::FirstRestore, RoundEvent::Done) => readonly_left(before, after),
        (RoundStep::LastRestore, RoundEvent::Done) => readonly_left(before, after),
        (RoundStep::LookForPaths, RoundEvent::Present(present)) => index_rebuilt(
            before,
            after,
            mount_root,
            present@.keys(),
        ),
        (RoundStep::ReadEncrypted, RoundEvent::Done) => refreshes_kept(
            before,
            after,
            round.expected.paths@.keys(),
        ),
        (RoundStep::ScanMount, RoundEvent::Done) => if deletion_step(before)
            == DeletionWork::Reset {
            counts_restarted(before, after)
        } else {
            after == before
        },
        _ => after == before,
    }
}

fn failed(event: &RoundEvent) -> (res: bool)
    ensures
        res == (event is Failed),
{
    match event {
        RoundEvent::Failed(_) => true,
        _ => false,
    }
}

fn step_done(event: &RoundEvent, next: RoundStep, stay: RoundStep) -> (res: RoundStep)
    ensures
        res == done_or_over(*event, next, stay),
{
    match event {
        RoundEvent::Done => next,
        RoundEvent::Failed(_) => RoundStep::Over,
        _ => stay,
    }
}

fn step_by_room(
    tracker: &SyncTracker,
    make_readonly: RoundStep,
    restore: RoundStep,
    keep: RoundStep,
) -> (res: RoundStep)
    requires
        tracker.wf(),
    ensures
        res == by_room(low_space_step(*tracker), make_readonly, restore, keep),
{
    match tracker.enforce_low_space_mount_mode() {
        LowSpaceStep::MakeReadonly => make_readonly,
        LowSpaceStep::Restore => restore,
        LowSpaceStep::Keep => keep,
    }
}

/// The step that follows, once what the event tells was taken in.
fn step_after_event(step: RoundStep, event: &RoundEvent, tracker: &SyncTracker) -> (res: RoundStep)
    requires
        tracker.wf(),
    ensures
        res == next_round_step(step, *event, *tracker),
{
    match step {
        RoundStep::LookAtMount => match event {
            RoundEvent::Told(there) => if *there {
                RoundStep::CheckHealth
            } else {
                RoundStep::Flush
            },
            _ => step,
        },
        RoundStep::CheckHealth => match event {
            RoundEvent::Health(_) => RoundStep::FirstRooms,
            RoundEvent::Failed(_) => RoundStep::Over,
            _ => step,
        },
        RoundStep::FirstRooms => match event {
            RoundEvent::Rooms { .. } => step_by_room(
                tracker,
                RoundStep::FirstMakeReadonly,
                RoundStep::FirstRestore,
                RoundStep::LookForPaths,
            ),
            _ => step,
        },
        RoundStep::FirstMakeReadonly => match event {
            RoundEvent::Modes(_) => RoundStep::LookForPaths,
            RoundEvent::Failed(_) => RoundStep::Over,
            _ => step,
        },
        RoundStep::FirstRestore => step_done(event, RoundStep::LookForPaths, step),
        RoundStep::LookForPaths => match event {
            RoundEvent::Present(_) => RoundStep::StoreMetadata,
            _ => step,
        },
        RoundStep::StoreMetadata => match event {
            RoundEvent::Done => RoundStep::ProbeOpen,
            _ => step,
        },
        RoundStep::ProbeOpen => step_done(event, RoundStep::RetryWritebacks, step),
        RoundStep::RetryWritebacks => step_done(event, RoundStep::ReadEncrypted, step),
        RoundStep::ReadEncrypted => step_done(event, RoundStep::TrackDirectories, step),
        RoundStep::TrackDirectories => step_done(event, RoundStep::TrackFiles, step),
        RoundStep::TrackFiles => step_done(event, RoundStep::ScanMount, step),
        RoundStep::ScanMount => {
            let next = match tracker.deletion_work() {
                DeletionWork::Process => RoundStep::ProcessDeletions,
                DeletionWork::Skip => RoundStep::LastRooms,
                DeletionWork::Reset => RoundStep::LastRooms,
            };
            step_done(event, next, step)
        },
        RoundStep::ProcessDeletions => step_done(event, RoundStep::ProcessOrphans, step),
        RoundStep::ProcessOrphans => step_done(event, RoundStep::LastRooms, step),
        RoundStep::LastRooms => match event {
            RoundEvent::Rooms { .. } => step_by_room(
                tracker,
                RoundStep::LastMakeReadonly,
                RoundStep::LastRestore,
                RoundStep::Flush,
            ),
            _ => step,
        },
        RoundStep::LastMakeReadonly => match event {
            RoundEvent::Modes(_) => RoundStep::Flush,
            RoundEvent::Failed(_) => RoundStep::Over,
            _ => step,
        },
        RoundStep::LastRestore => step_done(event, RoundStep::Flush, step),
        RoundStep::Flush => match event {
            RoundEvent::Done => RoundStep::Over,
            _ => step,
        },
        RoundStep::Over => step,
    }
}

impl SyncRound {
    /// A pass at its beginning.
    pub fn new() -> (res: SyncRound)
        ensures
            res.step == RoundStep::LookAtMount,
            res.expected.wf(),
            res.expected.paths@ == PathEntries::<()>::empty(),
            res.expected.directories@ == PathEntries::<()>::empty(),
            res.expected.deferred@ == PathEntries::<()>::empty(),
            res.failure is None,
    {
        SyncRound { step: RoundStep::LookAtMount, expected: Expected::new(), failure: None }
    }

    /// Takes what came of a step into the state of the mount.
    fn note(&self, tracker: &mut SyncTracker, mount_root: &SyncPath, event: &RoundEvent)
        requires
            old(tracker).wf(),
            self.expected.wf(),
            event.wf(),
            !(event is Modes),
        ensures
            final(tracker).wf(),
            round_noted(*self, *event, mount_root@, *old(tracker), *final(tracker)),
    {
        match (self.step, event) {
            (RoundStep::LookAtMount, RoundEvent::Told(false)) => {
                tracker.lose_mount();
            },
            (RoundStep::CheckHealth, RoundEvent::Health(fault)) => {
                let health = check_mount_health(fault);
                tracker.set_scan_health(health);
            },
            (RoundStep::FirstRooms, RoundEvent::Rooms { mount, encrypted, journal }) => {
                tracker.refresh_space_warnings(*mount, *encrypted, *journal);
            },
            (RoundStep::LastRooms, RoundEvent::Rooms { mount, encrypted, journal }) => {
                tracker.refresh_space_warnings(*mount, *encrypted, *journal);
            },
            (RoundStep::FirstRestore, RoundEvent::Done) => {
                tracker.leave_readonly();
            },
            (RoundStep::LastRestore, RoundEvent::Done) => {
                tracker.leave_readonly();
            },
            (RoundStep::LookForPaths, RoundEvent::Present(present)) => {
                tracker.rebuild_mount_collision_index(mount_root, present);
            },
            (RoundStep::ReadEncrypted, RoundEvent::Done) => {
                tracker.keep_expected_refreshes(&self.expected.paths);
            },
            (RoundStep::ScanMount, RoundEvent::Done) => {
                if let DeletionWork::Reset = tracker.deletion_work() {
                    tracker.reset_pending_deletion_counts();
                    tracker.reset_pending_orphan_counts();
                }
            },
            _ => {},
        }
    }

    /// Takes in what came of a step, and goes on to the step that follows.
    pub fn advance(&mut self, tracker: &mut SyncTracker, mount_root: &SyncPath, event: RoundEvent)
        requires
            old(tracker).wf(),
            old(self).expected.wf(),
            event.wf(),
        ensures
            final(tracker).wf(),
            round_noted(*old(self), event, mount_root@, *old(tracker), *final(tracker)),
            final(self).step == next_round_step(old(self).step, event, *final(tracker)),
            final(self).expected == old(self).expected,
            final(self).failure == match event {
                RoundEvent::Failed(err) => if may_fail(old(self).step) {
                    Some(err)
                } else {
                    old(self).failure
                },
                _ => old(self).failure,
            },
    {
        let step = self.step;
        match event {
            RoundEvent::Modes(modes) => {
                if step == RoundStep::FirstMakeReadonly {
                    tracker.enter_readonly(modes);
                    self.step = RoundStep::LookForPaths;
                } else if step == RoundStep::LastMakeReadonly {
                    tracker.enter_readonly(modes);
                    self.step = RoundStep::Flush;
                }
            },
            _ => {
                self.note(tracker, mount_root, &event);
                self.step = step_after_event(step, &event, tracker);
                if failed(&event) {
                    if self.step == RoundStep::Over && step != RoundStep::Over {
                        if let RoundEvent::Failed(err) = event {
                            self.failure = Some(err);
                        }
                    }
                }
            },
        }
    }
}

/// Deletions and orphans are carried out only in a mount that could be read without faults, that
/// is not read-only and that is not being rebuilt.
pub proof fn deletions_need_a_healthy_mount(
    step: RoundStep,
    event: RoundEvent,
    tracker: SyncTracker,
)
    requires
        step != RoundStep::ProcessDeletions,
        next_round_step(step, event, tracker) == RoundStep::ProcessDeletions,
    ensures
        step == RoundStep::ScanMount && event is Done,
        tracker.scan_health is Healthy,
        !tracker.held.mount_readonly_active,
        !tracker.suppress_deletion_processing,
{
}

/// What changed on the encrypted side is brought to the mount before the mount is scanned for
/// changes, and what is gone from the encrypted side is seen in between.
pub proof fn encrypted_side_comes_first(step: RoundStep, event: RoundEvent, tracker: SyncTracker)
    ensures
        next_round_step(step, event, tracker) == RoundStep::ScanMount && step
            != RoundStep::ScanMount ==> step == RoundStep::TrackFiles && event is Done,
        next_round_step(step, event, tracker) == RoundStep::TrackFiles && step
            != RoundStep::TrackFiles ==> step == RoundStep::TrackDirectories && event is Done,
        next_round_step(step, event, tracker) == RoundStep::TrackDirectories && step
            != RoundStep::TrackDirectories ==> step == RoundStep::ReadEncrypted && event is Done,
{
}

/// A pass that reaches its end without a failure has written its journals.
pub proof fn pass_ends_with_the_journals(step: RoundStep, event: RoundEvent, tracker: SyncTracker)
    requires
        step != RoundStep::Over,
        next_round_step(step, event, tracker) == RoundStep::Over,
    ensures
        (step == RoundStep::Flush && event is Done) || (may_fail(step) && event is Failed),
{
}

} // verus!
