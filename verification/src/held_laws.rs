//! When a mount is read-only, and which permissions come back.

use vstd::prelude::*;

use crate::held::{
    hard_link_held, hard_link_released, low_space_required, low_space_step, readonly_left,
    released_mode, restored_mode, text_values, LowSpaceStep,
};
use crate::path::{same_path, PathView};
use crate::safety::LowSpaceMode;
use crate::status::{
    flagged_in, flagged_is_short, lacks_space, low_space_mode, nothing_to_lose, reasons,
};
use crate::sync::{deletion_step, DeletionWork};
use crate::tracker::{HeldBack, SyncTracker, UtcNanos};

verus! {

/// A change waits for room to be encrypted.
pub open spec fn change_lacks_room(tracker: SyncTracker) -> bool {
    exists|path: PathView| #[trigger]
        tracker.work.pending_writebacks@.contains_key(path)
            && tracker.work.pending_writebacks@[path].low_space
}

/// A file waits for room to be decrypted.
pub open spec fn refresh_lacks_room(tracker: SyncTracker) -> bool {
    exists|path: PathView| #[trigger] tracker.work.pending_refreshes@.contains_key(path)
}

proof fn waiting_is_counted(tracker: SyncTracker)
    requires
        tracker.wf(),
    ensures
        (tracker.work.pending_refreshes.keys@.len() > 0) == refresh_lacks_room(tracker),
        (flagged_in(tracker.work.pending_writebacks, lacks_space()).len() > 0)
            == change_lacks_room(tracker),
{
    let refreshes = tracker.work.pending_refreshes;
    let writebacks = tracker.work.pending_writebacks;
    refreshes.entries();
    writebacks.entries();
    flagged_is_short(
        writebacks.keys@,
        writebacks.values@,
        lacks_space(),
        writebacks.values@.len() as int,
    );
    if refreshes.keys@.len() > 0 {
        assert(refreshes@.contains_key(refreshes.keys@[0]@));
    }
    if flagged_in(writebacks, lacks_space()).len() > 0 {
        let i = choose|i: int|
            0 <= i < writebacks.values@.len() && lacks_space()(#[trigger] writebacks.values@[i]);
        assert(writebacks@.contains_key(writebacks.keys@[i]@));
        assert(writebacks@[writebacks.keys@[i]@].low_space);
    }
    if change_lacks_room(tracker) {
        let path = choose|path: PathView| #[trigger]
            writebacks@.contains_key(path) && writebacks@[path].low_space;
        let i = choose|i: int|
            0 <= i < writebacks.keys@.len() && (#[trigger] writebacks.keys@[i])@.key() == path.key()
                && writebacks@[path] == writebacks.values@[i];
        assert(lacks_space()(writebacks.values@[i]));
    }
}

/// The mount has to be read-only exactly if a volume is short of room, or something waits for room:
/// a change to be encrypted, or a file to be decrypted. A change that waits for another reason does
/// not restrict it.
pub proof fn want_of_room_makes_the_mount_readonly(tracker: SyncTracker)
    requires
        tracker.wf(),
    ensures
        low_space_required(tracker) <==> {
            ||| tracker.space_warnings.mount_low
            ||| tracker.space_warnings.encrypted_low
            ||| tracker.space_warnings.journal_low
            ||| refresh_lacks_room(tracker)
            ||| change_lacks_room(tracker)
        },
        low_space_step(tracker) == LowSpaceStep::MakeReadonly <==> {
            &&& !tracker.held.mount_readonly_active
            &&& low_space_required(tracker)
        },
        low_space_step(tracker) == LowSpaceStep::Restore <==> {
            &&& tracker.held.mount_readonly_active
            &&& !low_space_required(tracker)
        },
{
    waiting_is_counted(tracker);
}

/// What is told of a mount that is short of room says what waits: changes, files to be decrypted,
/// both, or nothing yet.
pub proof fn the_mode_tells_what_waits(tracker: SyncTracker)
    requires
        tracker.wf(),
    ensures
        ({
            let mode = low_space_mode(tracker.work, tracker.space_warnings);
            &&& (mode == LowSpaceMode::FullyDegraded || mode == LowSpaceMode::RefreshDegraded)
                <==> refresh_lacks_room(tracker)
            &&& (mode == LowSpaceMode::FullyDegraded || mode == LowSpaceMode::WritebackDegraded)
                <==> change_lacks_room(tracker)
            &&& mode == LowSpaceMode::Healthy ==> !tracker.space_warnings.mount_low
                && !tracker.space_warnings.encrypted_low && !tracker.space_warnings.journal_low
        }),
{
    waiting_is_counted(tracker);
}

/// A mount that was made read-only stays so as long as room is wanting and becomes writable again
/// afterwards, once: one that was restored stays as it is, and no deletion is carried out in a
/// mount that is read-only.
pub proof fn readonly_mounts_stay_so(before: SyncTracker, entered: SyncTracker, left: SyncTracker)
    requires
        entered.work == before.work,
        entered.space_warnings == before.space_warnings,
        entered.held.mount_readonly_active,
        readonly_left(entered, left),
    ensures
        low_space_required(before) ==> low_space_step(entered) == LowSpaceStep::Keep,
        !low_space_required(before) ==> low_space_step(entered) == LowSpaceStep::Restore,
        !low_space_required(before) ==> low_space_step(left) == LowSpaceStep::Keep,
        deletion_step(entered) == DeletionWork::Skip,
        forall|path: PathView|
            !(#[trigger] left.held.mount_readonly_restore_modes@.contains_key(path)),
        left.held.hard_link_block_restore_modes == entered.held.hard_link_block_restore_modes,
{
}

/// The permissions that are remembered of a linked file are those that it had before anything was
/// done to it: held twice, it keeps the first, and held while the mount is read-only, those from
/// before that.
pub proof fn linked_files_remember_their_permissions(
    before: HeldBack,
    once: HeldBack,
    twice: HeldBack,
    path: PathView,
    reason: Seq<char>,
    mode: u32,
    other_reason: Seq<char>,
    other_mode: u32,
)
    requires
        hard_link_held(before, once, path, reason, mode),
        hard_link_held(once, twice, path, other_reason, other_mode),
    ensures
        once.hard_link_block_restore_modes@.contains_key(path),
        !before.hard_link_block_restore_modes@.contains_key(path) ==> once
            .hard_link_block_restore_modes@[path] == if before.mount_readonly_active
            && before.mount_readonly_restore_modes@.contains_key(path) {
            before.mount_readonly_restore_modes@[path]
        } else {
            mode
        },
        before.hard_link_block_restore_modes@.contains_key(path)
            ==> once.hard_link_block_restore_modes@[path]
            == before.hard_link_block_restore_modes@[path],
        twice.hard_link_block_restore_modes@.contains_key(path),
        twice.hard_link_block_restore_modes@[path] == once.hard_link_block_restore_modes@[path],
        twice.unsupported_hard_link_paths@.contains_key(path),
        twice.unsupported_hard_link_paths@[path]@ == other_reason,
        !twice.pending_stable@.contains_key(path),
        !twice.pending_temp@.contains_key(path),
        !twice.pending_sparse@.contains_key(path),
{
    let held = text_values(twice.unsupported_hard_link_paths@);
    assert(held.contains_key(path));
    assert(held[path] == other_reason);
}

/// A linked file that is released gets its permissions back at once, or, in a mount that is
/// read-only, when that ends: they are remembered there in its place. Nothing is given back to a
/// file that is gone, and the file is no longer held.
pub proof fn released_files_get_their_permissions(
    before: HeldBack,
    after: HeldBack,
    path: PathView,
    exists: bool,
)
    requires
        hard_link_released(before, after, path, exists),
        before.hard_link_block_restore_modes@.contains_key(path),
    ensures
        exists && !before.mount_readonly_active ==> released_mode(before, path, exists) == Some(
            before.hard_link_block_restore_modes@[path],
        ),
        exists && before.mount_readonly_active ==> released_mode(before, path, exists) is None
            && after.mount_readonly_restore_modes@.contains_key(path)
            && after.mount_readonly_restore_modes@[path]
            == before.hard_link_block_restore_modes@[path],
        !exists ==> released_mode(before, path, exists) is None
            && after.mount_readonly_restore_modes@ == before.mount_readonly_restore_modes@,
        !after.unsupported_hard_link_paths@.contains_key(path),
        !after.hard_link_block_restore_modes@.contains_key(path),
{
}

/// Holding or releasing one linked file leaves every other as it is.
pub proof fn one_linked_file_is_held(
    before: HeldBack,
    held: HeldBack,
    released: HeldBack,
    path: PathView,
    reason: Seq<char>,
    mode: u32,
    exists: bool,
    other: PathView,
)
    requires
        hard_link_held(before, held, path, reason, mode),
        hard_link_released(held, released, path, exists),
        !same_path(other, path),
    ensures
        held.unsupported_hard_link_paths@.contains_key(other)
            == before.unsupported_hard_link_paths@.contains_key(other),
        held.hard_link_block_restore_modes@.contains_key(other)
            == before.hard_link_block_restore_modes@.contains_key(other),
        before.hard_link_block_restore_modes@.contains_key(other)
            ==> released.hard_link_block_restore_modes@[other]
            == before.hard_link_block_restore_modes@[other],
        released.unsupported_hard_link_paths@.contains_key(other)
            == before.unsupported_hard_link_paths@.contains_key(other),
        released.hard_link_block_restore_modes@.contains_key(other)
            == before.hard_link_block_restore_modes@.contains_key(other),
        released.mount_readonly_restore_modes@.contains_key(other)
            == before.mount_readonly_restore_modes@.contains_key(other),
        released.pending_stable@.contains_key(other) == before.pending_stable@.contains_key(other),
        released.pending_temp@.contains_key(other) == before.pending_temp@.contains_key(other),
        released.mount_readonly_active == before.mount_readonly_active,
        restored_mode(released, other, mode) == restored_mode(before, other, mode),
{
    let a = text_values(before.unsupported_hard_link_paths@);
    let b = text_values(held.unsupported_hard_link_paths@);
    assert(a.contains_key(other) == b.contains_key(other));
}

/// Something would be lost if a mount were emptied that could not be read, or for which anything
/// waits: a change, a file to be decrypted, one that is still open or without its encrypted form,
/// one that has to stay the same first or is held back, or a local copy.
pub proof fn waiting_work_would_be_lost(tracker: SyncTracker, path: PathView)
    requires
        tracker.wf(),
        ({
            ||| tracker.work.pending_writebacks@.contains_key(path)
            ||| tracker.work.pending_refreshes@.contains_key(path)
            ||| tracker.work.pending_open_unlinked@.contains_key(path)
            ||| tracker.work.pending_orphans@.contains_key(path)
            ||| tracker.held.pending_stable@.contains_key(path)
            ||| tracker.held.pending_temp@.contains_key(path)
            ||| tracker.held.unsupported_transactional_paths@.contains_key(path)
            ||| tracker.held.unsupported_hard_link_paths@.contains_key(path)
            ||| tracker.copies.conflict_baselines@.contains_key(path)
            ||| tracker.copies.recovered_pending_paths@.contains_key(path)
            ||| tracker.scan_health is Unhealthy
        }),
    ensures
        !nothing_to_lose(tracker),
{
    tracker.work.pending_writebacks.entries();
    tracker.work.pending_refreshes.entries();
    tracker.work.pending_open_unlinked.entries();
    tracker.work.pending_orphans.entries();
    tracker.held.pending_stable.entries();
    tracker.held.pending_temp.entries();
    tracker.held.unsupported_transactional_paths.entries();
    tracker.held.unsupported_hard_link_paths.entries();
    tracker.copies.conflict_baselines.entries();
    tracker.copies.recovered_pending_paths.entries();
}

/// A mount in which nothing waits and that could be read can be emptied without a loss, and nothing
/// is told against an unmount if no volume is short of room either.
pub proof fn idle_mounts_lose_nothing(tracker: SyncTracker, now: UtcNanos)
    requires
        tracker.wf(),
        tracker.scan_health is Healthy,
        forall|path: PathView| !(#[trigger] tracker.work.pending_writebacks@.contains_key(path)),
        forall|path: PathView| !(#[trigger] tracker.work.pending_refreshes@.contains_key(path)),
        forall|path: PathView| !(#[trigger] tracker.work.pending_open_unlinked@.contains_key(path)),
        forall|path: PathView| !(#[trigger] tracker.work.pending_orphans@.contains_key(path)),
        forall|path: PathView| !(#[trigger] tracker.held.pending_stable@.contains_key(path)),
        forall|path: PathView| !(#[trigger] tracker.held.pending_temp@.contains_key(path)),
        forall|path: PathView|
            !(#[trigger] tracker.held.unsupported_transactional_paths@.contains_key(path)),
        forall|path: PathView|
            !(#[trigger] tracker.held.unsupported_hard_link_paths@.contains_key(path)),
        forall|path: PathView| !(#[trigger] tracker.copies.conflict_baselines@.contains_key(path)),
        forall|path: PathView|
            !(#[trigger] tracker.copies.recovered_pending_paths@.contains_key(path)),
    ensures
        nothing_to_lose(tracker),
        !tracker.space_warnings.mount_low && !tracker.space_warnings.encrypted_low
            && !tracker.space_warnings.journal_low ==> reasons(tracker, now).len() == 0,
{
    tracker.work.pending_writebacks.entries();
    tracker.work.pending_refreshes.entries();
    tracker.work.pending_open_unlinked.entries();
    tracker.work.pending_orphans.entries();
    tracker.held.pending_stable.entries();
    tracker.held.pending_temp.entries();
    tracker.held.unsupported_transactional_paths.entries();
    tracker.held.unsupported_hard_link_paths.entries();
    tracker.copies.conflict_baselines.entries();
    tracker.copies.recovered_pending_paths.entries();
    assert(tracker.work.pending_writebacks.keys@.len() > 0
        ==> tracker.work.pending_writebacks@.contains_key(
        tracker.work.pending_writebacks.keys@[0]@,
    ));
    assert(tracker.work.pending_refreshes.keys@.len() > 0
        ==> tracker.work.pending_refreshes@.contains_key(
        tracker.work.pending_refreshes.keys@[0]@,
    ));
    assert(tracker.work.pending_open_unlinked.keys@.len() > 0
        ==> tracker.work.pending_open_unlinked@.contains_key(
        tracker.work.pending_open_unlinked.keys@[0]@,
    ));
    assert(tracker.work.pending_orphans.keys@.len() > 0
        ==> tracker.work.pending_orphans@.contains_key(tracker.work.pending_orphans.keys@[0]@));
    assert(tracker.held.pending_stable.keys@.len() > 0
        ==> tracker.held.pending_stable@.contains_key(tracker.held.pending_stable.keys@[0]@));
    assert(tracker.held.pending_temp.keys@.len() > 0 ==> tracker.held.pending_temp@.contains_key(
        tracker.held.pending_temp.keys@[0]@,
    ));
    assert(tracker.held.unsupported_transactional_paths.keys@.len() > 0
        ==> tracker.held.unsupported_transactional_paths@.contains_key(
        tracker.held.unsupported_transactional_paths.keys@[0]@,
    ));
    assert(tracker.held.unsupported_hard_link_paths.keys@.len() > 0
        ==> tracker.held.unsupported_hard_link_paths@.contains_key(
        tracker.held.unsupported_hard_link_paths.keys@[0]@,
    ));
    assert(tracker.copies.conflict_baselines.keys@.len() > 0
        ==> tracker.copies.conflict_baselines@.contains_key(
        tracker.copies.conflict_baselines.keys@[0]@,
    ));
    assert(tracker.copies.recovered_pending_paths.keys@.len() > 0
        ==> tracker.copies.recovered_pending_paths@.contains_key(
        tracker.copies.recovered_pending_paths.keys@[0]@,
    ));
    waiting_is_counted(tracker);
}

} // verus!
