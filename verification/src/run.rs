//! The course of a sync mount, from its start to its end.

use vstd::prelude::*;
use vstd::string::*;

use crate::config::{opt_path, MountSyncConfig};
use crate::exclusion::{texts, valid_patterns};
use crate::path::{join_text, PathView, SyncPath};
use crate::runner::{
    journal_at, mount_clean_marker_path, mount_file, mount_sync_baseline_path, opt_str,
    scoped_journal,
};
use crate::settings::{rehydrating, writebacks_dropped};
use crate::status::{drains_soon, nothing_to_lose};
use crate::space::SpaceWarningState;
use crate::text::concat3;
use crate::tracker::{
    path_views, ClockNanos, ConflictPolicy, ConflictPolicyResolution, Journals, Settings,
    SyncTracker,
};

verus! {

/// How long nothing is searched for after a search, in nanoseconds.
pub const DISCOVERY_COOLDOWN_NANOS: u64 = 60_000_000_000;

/// What the run of a mount does next.
#[derive(Debug, Clone, Copy, PartialEq, Eq, Structural)]
pub enum RunStep {
    /// Nothing was done yet.
    Begin,
    /// Take the marker of a clean end away, and tell whether there was one.
    TakeMarker,
    /// Tell whether the mount is empty.
    LookAtMount,
    /// Hold the files of the mount against what is known of them.
    Reconcile,
    /// Set the whole content of the mount aside.
    Quarantine,
    /// Publish the state, before the first sync.
    FirstPublish,
    FirstSync,
    /// Bring the copies that were set aside back into the mount.
    BringCopies,
    /// Publish the state, after the first sync.
    SecondPublish,
    /// Tell that the mount is ready, and start what runs beside it.
    Open,
    ProcessCreates,
    ProcessDeletes,
    OperationsSync,
    OperationsPublish,
    /// Wait for the next event.
    Wait,
    ChangeSync,
    /// Publish the state, and tell whether changes were missed.
    ChangePublish,
    MissedSync,
    MissedPublish,
    /// Report the progress of a migration, if there is one.
    Report,
    DrainSync,
    DrainPublish,
    /// Answer the requests that were made.
    AnswerRequests,
    /// Read the state of the client again.
    ReloadState,
    /// Go on with a migration, and tell whether there is one.
    ContinueRewrap,
    /// Count what a migration still has to do.
    CountRewraps,
    /// Search for what a migration has to do.
    Discover,
    /// Tell whether there is a migration.
    AskMigrating,
    /// Ask for the state of a key change.
    CheckRekey,
    /// Tell that the mount is not ready any more.
    Withdraw,
    LastSync,
    LastPublish,
    /// Empty the mount.
    CleanUp,
    /// Leave the marker of a clean end.
    LeaveMarker,
    LastReport,
    /// The run is over.
    Over,
}

/// What happened: what came of the step, or what came while the run waited.
pub enum RunEvent {
    Done,
    Failed(String),
    Told(bool),
    /// Something was set aside, or nothing had to be.
    Kept(Option<SyncPath>),
    Answered(usize),
    /// How much there is to do, where that could be counted.
    Counted(Option<u64>),
    Stop,
    Changed,
    PollTick,
    DrainTick,
    RequestTick,
    StateTick,
    StatusTick,
}

/// What a run is to do.
#[derive(Debug, Clone, Copy, PartialEq, Eq, Structural)]
pub struct RunOptions {
    /// There is a directory for the journals, and for the marker of a clean end.
    pub has_config_dir: bool,
    pub migration: bool,
    /// Requests are looked for.
    pub answers_requests: bool,
}

/// The run of a sync mount.
pub struct MountRun {
    pub options: RunOptions,
    pub step: RunStep,
    /// The mount is rebuilt by the first sync.
    pub rehydrate: bool,
    /// Nothing is deleted on account of what is missing in the mount.
    pub skip_deletes: bool,
    /// Where content of the mount was set aside.
    pub recovery: Option<SyncPath>,
    /// The files that were not encrypted yet when content was set aside.
    pub unwritten: Vec<SyncPath>,
    pub last_discovery: Option<ClockNanos>,
    /// Why the run ended, where it failed.
    pub failure: Option<String>,
}

/// What follows a sync that has to succeed.
pub open spec fn synced(event: RunEvent, next: RunStep, stay: RunStep) -> RunStep {
    match event {
        RunEvent::Done => next,
        RunEvent::Failed(_) => RunStep::Over,
        _ => stay,
    }
}

/// What follows a step that is done, however it went.
pub open spec fn after(event: RunEvent, next: RunStep, stay: RunStep) -> RunStep {
    match event {
        RunEvent::Done => next,
        RunEvent::Failed(_) => next,
        _ => stay,
    }
}

/// What follows a round in which a migration may be reported.
pub open spec fn reported(migration: bool, report: RunStep, next: RunStep) -> RunStep {
    if migration {
        report
    } else {
        next
    }
}

/// What is done about an event while the run waits.
pub open spec fn awaited(options: RunOptions, drains: bool, event: RunEvent) -> RunStep {
    match event {
        RunEvent::Stop => RunStep::Withdraw,
        RunEvent::Changed => RunStep::ChangeSync,
        RunEvent::PollTick => RunStep::ChangeSync,
        RunEvent::DrainTick => if drains {
            RunStep::DrainSync
        } else {
            RunStep::Wait
        },
        RunEvent::RequestTick => if options.answers_requests {
            RunStep::AnswerRequests
        } else {
            RunStep::Wait
        },
        RunEvent::StateTick => if options.migration {
            RunStep::ReloadState
        } else {
            RunStep::Wait
        },
        RunEvent::StatusTick => if options.migration {
            RunStep::AskMigrating
        } else {
            RunStep::Wait
        },
        _ => RunStep::Wait,
    }
}

/// A search is due: there was none, or the last one is long enough ago.
pub open spec fn discovery_due(last: Option<ClockNanos>, clock: ClockNanos) -> bool {
    match last {
        Some(at) => clock >= at && clock - at >= DISCOVERY_COOLDOWN_NANOS,
        None => true,
    }
}

/// The step that follows. An event that does not belong to a step leaves the run where it is.
pub open spec fn next_step(
    run: MountRun,
    tracker: SyncTracker,
    event: RunEvent,
    clock: ClockNanos,
) -> RunStep {
    let stay = run.step;
    match run.step {
        RunStep::Begin => match event {
            RunEvent::Done => if run.options.has_config_dir {
                RunStep::TakeMarker
            } else {
                RunStep::FirstPublish
            },
            _ => stay,
        },
        RunStep::TakeMarker => match event {
            RunEvent::Told(found) => if found {
                RunStep::FirstPublish
            } else {
                RunStep::LookAtMount
            },
            _ => stay,
        },
        RunStep::LookAtMount => match event {
            RunEvent::Told(empty) => if empty {
                RunStep::FirstPublish
            } else {
                RunStep::Reconcile
            },
            RunEvent::Failed(_) => RunStep::Reconcile,
            _ => stay,
        },
        RunStep::Reconcile => match event {
            RunEvent::Kept(_) => RunStep::FirstPublish,
            RunEvent::Failed(_) => RunStep::Quarantine,
            _ => stay,
        },
        RunStep::Quarantine => match event {
            RunEvent::Kept(_) => RunStep::FirstPublish,
            RunEvent::Failed(_) => RunStep::Over,
            _ => stay,
        },
        RunStep::FirstPublish => after(event, RunStep::FirstSync, stay),
        RunStep::FirstSync => synced(
            event,
            if run.recovery is Some {
                RunStep::BringCopies
            } else {
                RunStep::SecondPublish
            },
            stay,
        ),
        RunStep::BringCopies => after(event, RunStep::SecondPublish, stay),
        RunStep::SecondPublish => after(event, RunStep::Open, stay),
        RunStep::Open => after(
            event,
            if tracker.pending_local_creates@.len() > 0 || tracker.pending_local_deletes@.len()
                > 0 {
                RunStep::ProcessCreates
            } else {
                RunStep::Wait
            },
            stay,
        ),
        RunStep::ProcessCreates => after(
            event,
            if run.skip_deletes {
                RunStep::OperationsSync
            } else {
                RunStep::ProcessDeletes
            },
            stay,
        ),
        RunStep::ProcessDeletes => after(event, RunStep::OperationsSync, stay),
        RunStep::OperationsSync => after(event, RunStep::OperationsPublish, stay),
        RunStep::OperationsPublish => after(event, RunStep::Wait, stay),
        RunStep::Wait => awaited(run.options, drains_soon(tracker), event),
        RunStep::ChangeSync => synced(event, RunStep::ChangePublish, stay),
        RunStep::ChangePublish => match event {
            RunEvent::Told(missed) => if missed {
                RunStep::MissedSync
            } else {
                reported(run.options.migration, RunStep::Report, RunStep::Wait)
            },
            _ => stay,
        },
        RunStep::MissedSync => synced(event, RunStep::MissedPublish, stay),
        RunStep::MissedPublish => after(
            event,
            reported(run.options.migration, RunStep::Report, RunStep::Wait),
            stay,
        ),
        RunStep::Report => after(event, RunStep::Wait, stay),
        RunStep::DrainSync => synced(event, RunStep::DrainPublish, stay),
        RunStep::DrainPublish => after(event, RunStep::Wait, stay),
        RunStep::AnswerRequests => match event {
            RunEvent::Answered(count) => if count > 0 {
                RunStep::DrainSync
            } else {
                RunStep::Wait
            },
            _ => stay,
        },
        RunStep::ReloadState => match event {
            RunEvent::Done => RunStep::ContinueRewrap,
            RunEvent::Failed(_) => RunStep::Wait,
            _ => stay,
        },
        RunStep::ContinueRewrap => match event {
            RunEvent::Told(migrating) => if migrating && discovery_due(
                run.last_discovery,
                clock,
            ) {
                RunStep::CountRewraps
            } else {
                RunStep::Wait
            },
            _ => stay,
        },
        RunStep::CountRewraps => match event {
            RunEvent::Counted(count) => if count == Some(0u64) {
                RunStep::Discover
            } else {
                RunStep::Wait
            },
            _ => stay,
        },
        RunStep::Discover => after(event, RunStep::Wait, stay),
        RunStep::AskMigrating => match event {
            RunEvent::Told(migrating) => if migrating {
                RunStep::Wait
            } else {
                RunStep::CheckRekey
            },
            _ => stay,
        },
        RunStep::CheckRekey => after(event, RunStep::Wait, stay),
        RunStep::Withdraw => after(event, RunStep::LastSync, stay),
        RunStep::LastSync => synced(event, RunStep::LastPublish, stay),
        RunStep::LastPublish => after(
            event,
            if nothing_to_lose(tracker) {
                RunStep::CleanUp
            } else {
                reported(run.options.migration, RunStep::LastReport, RunStep::Over)
            },
            stay,
        ),
        RunStep::CleanUp => match event {
            RunEvent::Done => if run.options.has_config_dir {
                RunStep::LeaveMarker
            } else {
                reported(run.options.migration, RunStep::LastReport, RunStep::Over)
            },
            RunEvent::Failed(_) => reported(
                run.options.migration,
                RunStep::LastReport,
                RunStep::Over,
            ),
            _ => stay,
        },
        RunStep::LeaveMarker => after(
            event,
            reported(run.options.migration, RunStep::LastReport, RunStep::Over),
            stay,
        ),
        RunStep::LastReport => after(event, RunStep::Over, stay),
        RunStep::Over => stay,
    }
}

/// The mount is rebuilt: it was left cleanly, or it is empty.
pub open spec fn begins_rehydrate(step: RunStep, event: RunEvent) -> bool {
    (step == RunStep::TakeMarker || step == RunStep::LookAtMount) && event == RunEvent::Told(true)
}

/// Content of the mount was set aside.
pub open spec fn was_kept(step: RunStep, event: RunEvent) -> bool {
    (step == RunStep::Reconcile || step == RunStep::Quarantine) && (event matches RunEvent::Kept(
        kept,
    ) && kept is Some)
}

/// A search was made, or could not be.
pub open spec fn was_searched(step: RunStep, event: RunEvent) -> bool {
    ||| step == RunStep::Discover && (event is Done || event is Failed)
    ||| step == RunStep::CountRewraps && event == RunEvent::Counted(None)
}

/// A step at which an error ends the run.
pub open spec fn must_succeed(step: RunStep) -> bool {
    step == RunStep::Quarantine || step == RunStep::FirstSync || step == RunStep::ChangeSync
        || step == RunStep::MissedSync || step == RunStep::DrainSync || step == RunStep::LastSync
}

/// Why the run ends.
pub open spec fn run_failure(
    step: RunStep,
    mountpoint: Seq<char>,
    event: RunEvent,
    before: Option<Seq<char>>,
) -> Option<Seq<char>> {
    match event {
        RunEvent::Failed(message) => if step == RunStep::Quarantine {
            Some(
                "Failed to quarantine stale mountpoint "@ + mountpoint + ": "@ + message@,
            )
        } else if must_succeed(step) {
            Some(message@)
        } else {
            before
        },
        _ => before,
    }
}

/// An optional text, as its characters.
pub open spec fn failure_text(text: Option<String>) -> Option<Seq<char>> {
    match text {
        Some(t) => Some(t@),
        None => None,
    }
}

/// What the event does to the state of the mount.
pub open spec fn tracker_after(
    run: MountRun,
    event: RunEvent,
    before: SyncTracker,
    after: SyncTracker,
) -> bool {
    if begins_rehydrate(run.step, event) {
        rehydrating(before, after)
    } else if run.step == RunStep::FirstSync && event is Done && run.rehydrate {
        after == (SyncTracker {
            suppress_deletion_inference: false,
            suppress_deletion_processing: false,
            ..before
        })
    } else if run.step == RunStep::Quarantine && was_kept(run.step, event) {
        writebacks_dropped(before, after)
    } else {
        after == before
    }
}

fn is_failed(event: &RunEvent) -> (res: bool)
    ensures
        res == (event is Failed),
{
    match event {
        RunEvent::Failed(_) => true,
        _ => false,
    }
}

fn is_done(event: &RunEvent) -> (res: bool)
    ensures
        res == (event is Done),
{
    match event {
        RunEvent::Done => true,
        _ => false,
    }
}

fn told(event: &RunEvent) -> (res: Option<bool>)
    ensures
        res == match *event {
            RunEvent::Told(value) => Some(value),
            _ => None,
        },
{
    match event {
        RunEvent::Told(value) => Some(*value),
        _ => None,
    }
}

fn is_kept(event: &RunEvent) -> (res: bool)
    ensures
        res == (event is Kept),
{
    match event {
        RunEvent::Kept(_) => true,
        _ => false,
    }
}

fn step_synced(event: &RunEvent, next: RunStep, stay: RunStep) -> (res: RunStep)
    ensures
        res == synced(*event, next, stay),
{
    if is_done(event) {
        next
    } else if is_failed(event) {
        RunStep::Over
    } else {
        stay
    }
}

fn step_after(event: &RunEvent, next: RunStep, stay: RunStep) -> (res: RunStep)
    ensures
        res == after(*event, next, stay),
{
    if is_done(event) || is_failed(event) {
        next
    } else {
        stay
    }
}

fn step_reported(migration: bool, report: RunStep, next: RunStep) -> (res: RunStep)
    ensures
        res == reported(migration, report, next),
{
    if migration {
        report
    } else {
        next
    }
}

fn step_told(event: &RunEvent, yes: RunStep, no: RunStep, stay: RunStep) -> (res: RunStep)
    ensures
        res == match *event {
            RunEvent::Told(value) => if value {
                yes
            } else {
                no
            },
            _ => stay,
        },
{
    match told(event) {
        Some(value) => if value {
            yes
        } else {
            no
        },
        None => stay,
    }
}

fn search_is_due(last: Option<ClockNanos>, clock: ClockNanos) -> (res: bool)
    ensures
        res == discovery_due(last, clock),
{
    match last {
        Some(at) => clock >= at && clock - at >= DISCOVERY_COOLDOWN_NANOS,
        None => true,
    }
}

impl MountRun {
    /// A run at its beginning.
    pub fn new(options: RunOptions) -> (res: MountRun)
        ensures
            res.options == options,
            res.step == RunStep::Begin,
            !res.rehydrate,
            !res.skip_deletes,
            res.recovery is None,
            res.unwritten@.len() == 0,
            res.last_discovery is None,
            res.failure is None,
    {
        MountRun {
            options,
            step: RunStep::Begin,
            rehydrate: false,
            skip_deletes: false,
            recovery: None,
            unwritten: Vec::new(),
            last_discovery: None,
            failure: None,
        }
    }

    fn next_awaited(&self, tracker: &SyncTracker, event: &RunEvent) -> (res: RunStep)
        requires
            tracker.wf(),
        ensures
            res == awaited(self.options, drains_soon(*tracker), *event),
    {
        match event {
            RunEvent::Stop => RunStep::Withdraw,
            RunEvent::Changed => RunStep::ChangeSync,
            RunEvent::PollTick => RunStep::ChangeSync,
            RunEvent::DrainTick => if tracker.has_fast_drain_work() {
                RunStep::DrainSync
            } else {
                RunStep::Wait
            },
            RunEvent::RequestTick => if self.options.answers_requests {
                RunStep::AnswerRequests
            } else {
                RunStep::Wait
            },
            RunEvent::StateTick => if self.options.migration {
                RunStep::ReloadState
            } else {
                RunStep::Wait
            },
            RunEvent::StatusTick => if self.options.migration {
                RunStep::AskMigrating
            } else {
                RunStep::Wait
            },
            _ => RunStep::Wait,
        }
    }

    /// The step that follows.
    pub fn next(&self, tracker: &SyncTracker, event: &RunEvent, clock: ClockNanos) -> (res: RunStep)
        requires
            tracker.wf(),
        ensures
            res == next_step(*self, *tracker, *event, clock),
    {
        let stay = self.step;
        let over = step_reported(self.options.migration, RunStep::LastReport, RunStep::Over);
        let idle = step_reported(self.options.migration, RunStep::Report, RunStep::Wait);
        match self.step {
            RunStep::Begin => if is_done(event) {
                if self.options.has_config_dir {
                    RunStep::TakeMarker
                } else {
                    RunStep::FirstPublish
                }
            } else {
                stay
            },
            RunStep::TakeMarker => step_told(
                event,
                RunStep::FirstPublish,
                RunStep::LookAtMount,
                stay,
            ),
            RunStep::LookAtMount => if is_failed(event) {
                RunStep::Reconcile
            } else {
                step_told(event, RunStep::FirstPublish, RunStep::Reconcile, stay)
            },
            RunStep::Reconcile => if is_kept(event) {
                RunStep::FirstPublish
            } else if is_failed(event) {
                RunStep::Quarantine
            } else {
                stay
            },
            RunStep::Quarantine => if is_kept(event) {
                RunStep::FirstPublish
            } else if is_failed(event) {
                RunStep::Over
            } else {
                stay
            },
            RunStep::FirstPublish => step_after(event, RunStep::FirstSync, stay),
            RunStep::FirstSync => {
                let next = if self.recovery.is_some() {
                    RunStep::BringCopies
                } else {
                    RunStep::SecondPublish
                };
                step_synced(event, next, stay)
            },
            RunStep::BringCopies => step_after(event, RunStep::SecondPublish, stay),
            RunStep::SecondPublish => step_after(event, RunStep::Open, stay),
            RunStep::Open => {
                let next = if tracker.has_pending_background_ops() {
                    RunStep::ProcessCreates
                } else {
                    RunStep::Wait
                };
                step_after(event, next, stay)
            },
            RunStep::ProcessCreates => {
                let next = if self.skip_deletes {
                    RunStep::OperationsSync
                } else {
                    RunStep::ProcessDeletes
                };
                step_after(event, next, stay)
            },
            RunStep::ProcessDeletes => step_after(event, RunStep::OperationsSync, stay),
            RunStep::OperationsSync => step_after(event, RunStep::OperationsPublish, stay),
            RunStep::OperationsPublish => step_after(event, RunStep::Wait, stay),
            RunStep::Wait => self.next_awaited(tracker, event),
            RunStep::ChangeSync => step_synced(event, RunStep::ChangePublish, stay),
            RunStep::ChangePublish => step_told(event, RunStep::MissedSync, idle, stay),
            RunStep::MissedSync => step_synced(event, RunStep::MissedPublish, stay),
            RunStep::MissedPublish => step_after(event, idle, stay),
            RunStep::Report => step_after(event, RunStep::Wait, stay),
            RunStep::DrainSync => step_synced(event, RunStep::DrainPublish, stay),
            RunStep::DrainPublish => step_after(event, RunStep::Wait, stay),
            RunStep::AnswerRequests => match event {
                RunEvent::Answered(count) => if *count > 0 {
                    RunStep::DrainSync
                } else {
                    RunStep::Wait
                },
                _ => stay,
            },
            RunStep::ReloadState => if is_done(event) {
                RunStep::ContinueRewrap
            } else if is_failed(event) {
                RunStep::Wait
            } else {
                stay
            },
            RunStep::ContinueRewrap => {
                let yes = if search_is_due(self.last_discovery, clock) {
                    RunStep::CountRewraps
                } else {
                    RunStep::Wait
                };
                step_told(event, yes, RunStep::Wait, stay)
            },
            RunStep::CountRewraps => match event {
                RunEvent::Counted(Some(0)) => RunStep::Discover,
                RunEvent::Counted(_) => RunStep::Wait,
                _ => stay,
            },
            RunStep::Discover => step_after(event, RunStep::Wait, stay),
            RunStep::AskMigrating => step_told(event, RunStep::Wait, RunStep::CheckRekey, stay),
            RunStep::CheckRekey => step_after(event, RunStep::Wait, stay),
            RunStep::Withdraw => step_after(event, RunStep::LastSync, stay),
            RunStep::LastSync => step_synced(event, RunStep::LastPublish, stay),
            RunStep::LastPublish => {
                let next = if tracker.can_cleanup_mountpoint() {
                    RunStep::CleanUp
                } else {
                    over
                };
                step_after(event, next, stay)
            },
            RunStep::CleanUp => if is_done(event) && self.options.has_config_dir {
                RunStep::LeaveMarker
            } else {
                step_after(event, over, stay)
            },
            RunStep::LeaveMarker => step_after(event, over, stay),
            RunStep::LastReport => step_after(event, RunStep::Over, stay),
            RunStep::Over => stay,
        }
    }

    /// Takes in what happened, and goes on to the step that follows.
    pub fn advance(
        &mut self,
        tracker: &mut SyncTracker,
        mountpoint: &SyncPath,
        event: RunEvent,
        clock: ClockNanos,
    )
        requires
            old(tracker).wf(),
        ensures
            final(tracker).wf(),
            tracker_after(*old(self), event, *old(tracker), *final(tracker)),
            final(self).step == next_step(*old(self), *old(tracker), event, clock),
            final(self).options == old(self).options,
            final(self).rehydrate == (old(self).rehydrate || begins_rehydrate(
                old(self).step,
                event,
            )),
            final(self).skip_deletes == (old(self).skip_deletes || (old(self).step
                == RunStep::LookAtMount && begins_rehydrate(old(self).step, event))),
            opt_path(final(self).recovery) == if was_kept(old(self).step, event) {
                opt_path(event->Kept_0)
            } else {
                opt_path(old(self).recovery)
            },
            path_views(final(self).unwritten@) == if was_kept(old(self).step, event) {
                old(tracker).work.pending_writebacks.order()
            } else {
                path_views(old(self).unwritten@)
            },
            final(self).last_discovery == if was_searched(old(self).step, event) {
                Some(clock)
            } else {
                old(self).last_discovery
            },
            failure_text(final(self).failure) == run_failure(
                old(self).step,
                mountpoint@.text,
                event,
                failure_text(old(self).failure),
            ),
    {
        let step = self.step;
        let next = self.next(tracker, &event, clock);
        self.step = next;
        match event {
            RunEvent::Told(true) => {
                if step == RunStep::TakeMarker || step == RunStep::LookAtMount {
                    tracker.enter_startup_rehydrate_mode();
                    self.rehydrate = true;
                    if step == RunStep::LookAtMount {
                        self.skip_deletes = true;
                    }
                }
            },
            RunEvent::Done => {
                if step == RunStep::FirstSync && self.rehydrate {
                    tracker.exit_startup_rehydrate_mode();
                }
                if step == RunStep::Discover {
                    self.last_discovery = Some(clock);
                }
            },
            RunEvent::Kept(Some(kept)) => {
                if step == RunStep::Reconcile || step == RunStep::Quarantine {
                    self.unwritten = tracker.pending_writeback_mount_paths();
                    self.recovery = Some(kept);
                    if step == RunStep::Quarantine {
                        tracker.clear_pending_writebacks();
                    }
                }
            },
            RunEvent::Counted(None) => {
                if step == RunStep::CountRewraps {
                    self.last_discovery = Some(clock);
                }
            },
            RunEvent::Failed(message) => {
                if step == RunStep::Discover {
                    self.last_discovery = Some(clock);
                }
                if step == RunStep::Quarantine {
                    let shown = mountpoint.display();
                    let mut text = concat3(
                        "Failed to quarantine stale mountpoint ",
                        shown.as_str(),
                        ": ",
                    );
                    text.append(message.as_str());
                    self.failure = Some(text);
                } else if step == RunStep::FirstSync || step == RunStep::ChangeSync || step
                    == RunStep::MissedSync || step == RunStep::DrainSync || step
                    == RunStep::LastSync {
                    self.failure = Some(message);
                }
            },
            _ => {},
        }
    }
}

/// Where a mount writes its journals, and how it is set up.
pub struct MountSetup<'a> {
    /// The directory of the configuration, where there is one.
    pub config_dir: Option<&'a SyncPath>,
    /// The retention folder exists, or could be made.
    pub retention_made: bool,
    pub scope: Option<&'a str>,
    pub conflict_registry: Option<&'a SyncPath>,
    pub recovery_registry: Option<&'a SyncPath>,
}

/// An optional path, as its view.
pub open spec fn opt_ref(path: Option<&SyncPath>) -> Option<PathView> {
    match path {
        Some(p) => Some(p@),
        None => None,
    }
}

/// The journals are those of the mount.
pub open spec fn journals_of(
    journals: Journals,
    setup: MountSetup,
    mountpoint: Seq<char>,
    encrypted_dir: Seq<char>,
) -> bool {
    let dir = setup.config_dir->0@;
    let scope = opt_str(setup.scope);
    &&& opt_path(journals.pending_deletion_path) == Some(
        journal_at(dir, "pending_deletions"@, scope),
    )
    &&& opt_path(journals.pending_orphan_path) == Some(journal_at(dir, "pending_orphans"@, scope))
    &&& opt_path(journals.pending_writeback_path) == Some(
        journal_at(dir, "pending_writebacks"@, scope),
    )
    &&& opt_path(journals.pending_refresh_path) == Some(
        journal_at(dir, "pending_refreshes"@, scope),
    )
    &&& opt_path(journals.pending_open_unlinked_path) == Some(
        journal_at(dir, "pending_open_unlinked"@, scope),
    )
    &&& opt_path(journals.pending_metadata_path) == Some(
        journal_at(dir, "pending_metadata"@, scope),
    )
    &&& opt_path(journals.sync_baseline_path) == Some(
        mount_file(dir, mountpoint, encrypted_dir, "mount_baseline_"@, ".json"@),
    )
    &&& opt_path(journals.conflict_registry_path) == opt_ref(setup.conflict_registry)
    &&& opt_path(journals.recovery_registry_path) == opt_ref(setup.recovery_registry)
}

/// Makes the journals of a mount known.
pub fn mount_journals(
    setup: &MountSetup,
    dir: &SyncPath,
    mountpoint: &SyncPath,
    encrypted_dir: &SyncPath,
) -> (res: Journals)
    requires
        setup.config_dir == Some(dir),
    ensures
        journals_of(res, *setup, mountpoint@.text, encrypted_dir@.text),
{
    Journals {
        pending_deletion_path: Some(scoped_journal(dir, "pending_deletions", setup.scope)),
        pending_orphan_path: Some(scoped_journal(dir, "pending_orphans", setup.scope)),
        pending_writeback_path: Some(scoped_journal(dir, "pending_writebacks", setup.scope)),
        pending_refresh_path: Some(scoped_journal(dir, "pending_refreshes", setup.scope)),
        pending_open_unlinked_path: Some(
            scoped_journal(dir, "pending_open_unlinked", setup.scope),
        ),
        pending_metadata_path: Some(scoped_journal(dir, "pending_metadata", setup.scope)),
        sync_baseline_path: Some(mount_sync_baseline_path(dir, mountpoint, encrypted_dir)),
        conflict_registry_path: match setup.conflict_registry {
            Some(path) => Some(path.duplicate()),
            None => None,
        },
        recovery_registry_path: match setup.recovery_registry {
            Some(path) => Some(path.duplicate()),
            None => None,
        },
    }
}

impl SyncTracker {
    /// Sets the folder in which deleted files are kept for a while, if it could be made.
    pub fn set_retention_folder(&mut self, user_config_dir: &SyncPath, made: bool)
        ensures
            opt_path(final(self).settings.deletion_config.retention_folder) == if made {
                Some(join_text(user_config_dir@, "retention"@))
            } else {
                opt_path(old(self).settings.deletion_config.retention_folder)
            },
            *final(self) == (SyncTracker { settings: final(self).settings, ..*old(self) }),
            final(self).settings == (Settings {
                deletion_config: final(self).settings.deletion_config,
                ..old(self).settings
            }),
            final(self).settings.deletion_config == (crate::config::DeletionConfig {
                retention_folder: final(self).settings.deletion_config.retention_folder,
                ..old(self).settings.deletion_config
            }),
    {
        if made {
            self.settings.deletion_config.retention_folder = Some(
                user_config_dir.join_text("retention"),
            );
        }
    }

    /// The state of a mount that is set up, and the marker that tells of its clean end. Without a
    /// directory for the configuration there are no journals, no retention and no marker.
    pub fn for_mount(
        config: MountSyncConfig,
        excluded: &Vec<String>,
        setup: &MountSetup,
        mountpoint: &SyncPath,
        encrypted_dir: &SyncPath,
    ) -> (res: (SyncTracker, Option<SyncPath>))
        ensures
            res.0.wf(),
            res.0.files.is_empty(),
            res.0.work.is_empty(),
            res.0.work.is_flushed(),
            res.0.copies.is_empty(),
            res.0.held.is_empty(),
            res.0.last_open_unlinked_warning is None,
            res.0.scan_health is Healthy,
            res.0.space_warnings == (SpaceWarningState {
                mount_low: false,
                encrypted_low: false,
                journal_low: false,
            }),
            res.0.pending_local_creates@.len() == 0,
            res.0.pending_local_deletes@.len() == 0,
            !res.0.suppress_deletion_inference,
            !res.0.suppress_deletion_processing,
            res.0.settings.conflict_policy == (ConflictPolicy {
                default_resolution: ConflictPolicyResolution::KeepBoth,
                timestamp_threshold_secs: 5,
            }),
            texts(res.0.settings.excluded_patterns@) == valid_patterns(texts(excluded@)),
            res.0.settings.sparse_skip_size_bytes == config.sparse_skip_size_bytes,
            res.0.settings.stream_threshold_bytes == config.stream_threshold_bytes,
            res.0.settings.stream_chunk_size_bytes == config.stream_chunk_size_bytes,
            res.0.settings.stream_stability_age_secs == config.stream_stability_age_secs,
            res.0.settings.deletion_config.min_consecutive_missing_scans
                == config.deletion.min_consecutive_missing_scans,
            res.0.settings.deletion_config.rapid_scan_total_duration_ms
                == config.deletion.rapid_scan_total_duration_ms,
            res.0.settings.deletion_config.retention_days == config.deletion.retention_days,
            match setup.config_dir {
                Some(dir) => {
                    &&& journals_of(
                        res.0.journals,
                        *setup,
                        mountpoint@.text,
                        encrypted_dir@.text,
                    )
                    &&& opt_path(res.0.settings.deletion_config.retention_folder)
                        == if setup.retention_made {
                        Some(join_text(dir@, "retention"@))
                    } else {
                        opt_path(config.deletion.retention_folder)
                    }
                    &&& res.0.copies.conflict_registry_dirty == setup.conflict_registry is Some
                    &&& res.0.copies.recovery_registry_dirty == setup.recovery_registry is Some
                    &&& opt_path(res.1) == Some(
                        mount_file(
                            dir@,
                            mountpoint@.text,
                            encrypted_dir@.text,
                            "mount_clean_"@,
                            ".marker"@,
                        ),
                    )
                },
                None => {
                    &&& res.0.journals == (Journals {
                        pending_deletion_path: None,
                        pending_orphan_path: None,
                        pending_writeback_path: None,
                        pending_refresh_path: None,
                        pending_open_unlinked_path: None,
                        pending_metadata_path: None,
                        sync_baseline_path: None,
                        conflict_registry_path: None,
                        recovery_registry_path: None,
                    })
                    &&& !res.0.copies.conflict_registry_dirty
                    &&& !res.0.copies.recovery_registry_dirty
                    &&& res.0.settings.deletion_config.retention_folder
                        == config.deletion.retention_folder
                    &&& res.1 is None
                },
            },
    {
        let mut tracker = SyncTracker::new();
        tracker.set_excluded_patterns(excluded);
        tracker.set_deletion_config(config.deletion);
        tracker.set_sparse_skip_size_bytes(config.sparse_skip_size_bytes);
        tracker.set_stream_threshold_bytes(config.stream_threshold_bytes);
        tracker.set_stream_chunk_size_bytes(config.stream_chunk_size_bytes);
        tracker.set_stream_stability_age_secs(config.stream_stability_age_secs);
        match setup.config_dir {
            Some(dir) => {
                tracker.set_retention_folder(dir, setup.retention_made);
                tracker.journals = mount_journals(setup, dir, mountpoint, encrypted_dir);
                tracker.copies.conflict_registry_dirty = setup.conflict_registry.is_some();
                tracker.copies.recovery_registry_dirty = setup.recovery_registry.is_some();
                let marker = mount_clean_marker_path(dir, mountpoint, encrypted_dir);
                (tracker, Some(marker))
            },
            None => (tracker, None),
        }
    }
}

/// From a mount that was empty at its start nothing is ever deleted on account of what was
/// missing then.
pub proof fn empty_mount_deletes_nothing(
    run: MountRun,
    tracker: SyncTracker,
    event: RunEvent,
    clock: ClockNanos,
)
    requires
        run.skip_deletes,
    ensures
        run.step != RunStep::ProcessDeletes ==> next_step(run, tracker, event, clock)
            != RunStep::ProcessDeletes,
{
}

/// The mount is emptied only after a last sync, once nothing can be lost by it; the marker of a
/// clean end is left only once the mount was emptied.
pub proof fn clean_end_loses_nothing(
    run: MountRun,
    tracker: SyncTracker,
    event: RunEvent,
    clock: ClockNanos,
)
    ensures
        next_step(run, tracker, event, clock) == RunStep::CleanUp && run.step != RunStep::CleanUp
            ==> run.step == RunStep::LastPublish && nothing_to_lose(tracker),
        next_step(run, tracker, event, clock) == RunStep::LastPublish && run.step
            != RunStep::LastPublish ==> run.step == RunStep::LastSync && event is Done,
        next_step(run, tracker, event, clock) == RunStep::LeaveMarker && run.step
            != RunStep::LeaveMarker ==> run.step == RunStep::CleanUp && event is Done
            && run.options.has_config_dir,
{
}

/// The mount is ready only after its first sync.
pub proof fn ready_after_first_sync(
    run: MountRun,
    tracker: SyncTracker,
    event: RunEvent,
    clock: ClockNanos,
)
    ensures
        next_step(run, tracker, event, clock) == RunStep::Open && run.step != RunStep::Open
            ==> run.step == RunStep::SecondPublish,
        next_step(run, tracker, event, clock) == RunStep::SecondPublish && run.step
            != RunStep::SecondPublish ==> run.step == RunStep::BringCopies || (run.step
            == RunStep::FirstSync && event is Done),
        next_step(run, tracker, event, clock) == RunStep::BringCopies && run.step
            != RunStep::BringCopies ==> run.step == RunStep::FirstSync && event is Done,
{
}

/// A sync that fails ends the run, but for the one after the operations that were found at the
/// start.
pub proof fn failed_sync_ends_the_run(
    run: MountRun,
    tracker: SyncTracker,
    message: String,
    clock: ClockNanos,
)
    requires
        must_succeed(run.step),
    ensures
        next_step(run, tracker, RunEvent::Failed(message), clock) == RunStep::Over,
{
}

/// A run that is over stays so.
pub proof fn over_is_over(run: MountRun, tracker: SyncTracker, event: RunEvent, clock: ClockNanos)
    requires
        run.step == RunStep::Over,
    ensures
        next_step(run, tracker, event, clock) == RunStep::Over,
{
}

} // verus!
