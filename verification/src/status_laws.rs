//! What is told of a mount.

use vstd::prelude::*;

use crate::errors::{opt_text, says_terminal};
use crate::path::PathView;
use crate::safety::{auto_drainable, MountSafetyReason};
use crate::status::{
    age_ms, drains_fast, drains_soon, first_some, oldest_age, reasons, told_error,
    writeback_errors, ReasonView,
};
use crate::tracker::{PendingWriteback, SyncTracker, UtcNanos};

verus! {

/// The age of a change is counted in whole milliseconds since it was seen first, never below zero;
/// it grows with the time.
pub proof fn ages_grow(first: UtcNanos, now: UtcNanos, later: UtcNanos)
    requires
        now <= later,
        0 <= first,
    ensures
        now <= first ==> age_ms(first, now) == 0,
        first <= now && now - first < 1_000_000_000_000_000_000 ==> age_ms(first, now) * 1_000_000
            <= now - first < (age_ms(first, now) + 1) * 1_000_000,
        age_ms(first, now) <= age_ms(first, later),
{
}

/// The age that is told is that of the change which waits longest: one of them has it, and none has
/// waited longer. None is told only if nothing waits.
pub proof fn the_oldest_change_is_told(pending: Seq<PendingWriteback>, now: UtcNanos)
    ensures
        oldest_age(pending, now) is None <==> pending.len() == 0,
        oldest_age(pending, now) matches Some(age) ==> {
            &&& exists|i: int|
                0 <= i < pending.len() && age_ms((#[trigger] pending[i]).first_observed_at, now)
                    == age
            &&& forall|i: int|
                0 <= i < pending.len() ==> age_ms((#[trigger] pending[i]).first_observed_at, now)
                    <= age
        },
    decreases pending.len(),
{
    if pending.len() > 0 {
        let front = pending.drop_last();
        the_oldest_change_is_told(front, now);
        let last = pending.len() - 1;
        assert(pending[last] == pending.last());
        if let Some(older) = oldest_age(front, now) {
            let i = choose|i: int|
                0 <= i < front.len() && age_ms((#[trigger] front[i]).first_observed_at, now)
                    == older;
            assert(pending[i] == front[i]);
        }
        assert forall|i: int| 0 <= i < pending.len() implies age_ms(
            (#[trigger] pending[i]).first_observed_at,
            now,
        ) <= oldest_age(pending, now)->0 by {
            if i < last {
                assert(pending[i] == front[i]);
            }
        }
    }
}

/// Of several texts the first that is there is told.
pub proof fn the_first_text_is_told(values: Seq<Option<Seq<char>>>)
    ensures
        match first_some(values) {
            Some(text) => exists|i: int|
                {
                    &&& 0 <= i < values.len()
                    &&& #[trigger] values[i] == Some(text)
                    &&& forall|j: int| 0 <= j < i ==> #[trigger] values[j] is None
                },
            None => forall|i: int| 0 <= i < values.len() ==> #[trigger] values[i] is None,
        },
    decreases values.len(),
{
    if values.len() > 0 {
        if values[0] is Some {
            assert(values[0] == Some(first_some(values)->0));
        } else {
            let rest = values.drop_first();
            the_first_text_is_told(rest);
            match first_some(rest) {
                Some(text) => {
                    let i = choose|i: int|
                        {
                            &&& 0 <= i < rest.len()
                            &&& #[trigger] rest[i] == Some(text)
                            &&& forall|j: int| 0 <= j < i ==> #[trigger] rest[j] is None
                        };
                    assert(values[i + 1] == Some(text));
                    assert forall|j: int| 0 <= j < i + 1 implies #[trigger] values[j] is None by {
                        if j > 0 {
                            assert(rest[j - 1] == values[j]);
                        }
                    }
                },
                None => {
                    assert forall|i: int| 0 <= i < values.len() implies #[trigger] values[i]
                        is None by {
                        if i > 0 {
                            assert(rest[i - 1] == values[i]);
                        }
                    }
                },
            }
        }
    }
}

/// An error of a change that waits is told before anything else.
pub proof fn errors_of_changes_are_told_first(tracker: SyncTracker)
    ensures
        ({
            let errors = writeback_errors(tracker.work.pending_writebacks.values@);
            first_some(errors) is Some ==> told_error(tracker) == first_some(errors)
        }),
{
}

/// Work is tried again soon exactly if a file has to stay the same first, or a change waits that
/// neither lacks room nor failed for good.
pub proof fn ready_work_is_tried_soon(tracker: SyncTracker)
    requires
        tracker.wf(),
    ensures
        drains_soon(tracker) <==> {
            ||| exists|path: PathView| #[trigger] tracker.held.pending_stable@.contains_key(path)
            ||| exists|path: PathView| #[trigger]
                tracker.work.pending_writebacks@.contains_key(path)
                    && !tracker.work.pending_writebacks@[path].low_space && !says_terminal(
                    opt_text(tracker.work.pending_writebacks@[path].last_error),
                )
        },
{
    let stable = tracker.held.pending_stable;
    let writebacks = tracker.work.pending_writebacks;
    stable.entries();
    writebacks.entries();
    if stable.keys@.len() > 0 {
        assert(stable@.contains_key(stable.keys@[0]@));
    }
    if exists|i: int| 0 <= i < writebacks.values@.len() && drains_fast(#[trigger] writebacks.values@[i]) {
        let i = choose|i: int|
            0 <= i < writebacks.values@.len() && drains_fast(#[trigger] writebacks.values@[i]);
        assert(writebacks@.contains_key(writebacks.keys@[i]@));
    }
    if exists|path: PathView| #[trigger]
        writebacks@.contains_key(path) && drains_fast(writebacks@[path]) {
        let path = choose|path: PathView| #[trigger]
            writebacks@.contains_key(path) && drains_fast(writebacks@[path]);
        let i = choose|i: int|
            0 <= i < writebacks.keys@.len() && (#[trigger] writebacks.keys@[i])@.key() == path.key()
                && writebacks@[path] == writebacks.values@[i];
        assert(drains_fast(writebacks.values@[i]));
    }
}

/// A reason is told for the changes that wait exactly if there are any, with their number and the
/// age of the oldest.
pub proof fn waiting_changes_are_told(tracker: SyncTracker, now: UtcNanos)
    ensures
        tracker.work.pending_writebacks.keys@.len() > 0 ==> reasons(tracker, now).len() > 0 && (
        reasons(tracker, now)[0] matches ReasonView::PendingWriteback { count, oldest_age_ms, .. }
            && count == tracker.work.pending_writebacks.keys@.len() && (tracker.work
            .pending_writebacks.values@.len() > 0 ==> Some(oldest_age_ms) == oldest_age(
            tracker.work.pending_writebacks.values@,
            now,
        ))),
        tracker.work.pending_writebacks.keys@.len() == 0 ==> forall|i: int|
            0 <= i < reasons(tracker, now).len() ==> !((#[trigger] reasons(tracker, now)[i])
                is PendingWriteback),
{
    the_oldest_change_is_told(tracker.work.pending_writebacks.values@, now);
}

/// A mount clears a reason by itself only if files wait to be decrypted, or changes to be encrypted
/// of which none failed for good.
pub proof fn some_reasons_clear_themselves(reason: MountSafetyReason)
    ensures
        reason is PendingRefresh ==> auto_drainable(reason),
        reason matches MountSafetyReason::PendingWriteback { last_error, .. } ==> auto_drainable(
            reason,
        ) == !says_terminal(opt_text(last_error)),
        !(reason is PendingRefresh) && !(reason is PendingWriteback) ==> !auto_drainable(reason),
{
}

} // verus!
