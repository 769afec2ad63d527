//! What is held back from being synced: files of formats that cannot be synced file by file,
//! hard-linked files, and everything while a volume is short of room.

use vstd::prelude::*;
use vstd::string::*;

use crate::decrypt::budget_journal;
use crate::missing::{depth, names_on_way};
use crate::path::{same_path, PathEntries, PathMap, PathView, SyncPath};
use crate::path_order::{
    is_ranked, path_rank, path_rank_turned, ranked, ranked_is_sorted, same_values, sort_ranked,
    Ranked,
};
use crate::space::{
    readonly_mode, volume_below_reserve, SpaceWarningState, LOW_SPACE_WARNING_RESERVE_BYTES,
};
use crate::safety::LowSpaceMode;
use crate::status::{flagged_in, lacks_space, low_space_mode};
use crate::table::{filtered, Entries, TableKey};
use crate::text::same_text;
use crate::tracker::{FileLedger, HeldBack, PendingWork, SyncTracker};

verus! {

/// What is done about the permissions of the mount.
#[derive(Debug, Clone, Copy, PartialEq, Eq, Structural)]
pub enum LowSpaceStep {
    /// They stay as they are.
    Keep,
    /// The right to write is taken away everywhere.
    MakeReadonly,
    /// They become again what they were.
    Restore,
}

/// A path that loses the right to be written, after those below it.
#[derive(Debug)]
pub struct Protected {
    pub path: SyncPath,
}

impl Ranked for Protected {
    open spec fn precedes(self, other: Self) -> bool {
        depth(self.path@) > depth(other.path@) || (depth(self.path@) == depth(other.path@)
            && path_rank(self.path@, other.path@) <= 0)
    }

    proof fn comparable(a: Self, b: Self) {
        path_rank_turned(a.path@, b.path@);
    }

    fn comes_first(&self, other: &Self) -> (res: bool) {
        let a: u128 = names_on_way(&self.path);
        let b: u128 = names_on_way(&other.path);
        a > b || (a == b && self.path.rank(&other.path) <= 0)
    }
}

/// Puts paths in the order in which they lose the right to be written: the deepest first, and
/// those of one depth by their names.
pub fn protection_order(paths: Vec<Protected>) -> (res: Vec<Protected>)
    ensures
        res@ == ranked(paths@),
{
    sort_ranked(paths)
}

/// A path and the permissions that it gets back.
#[derive(Debug)]
pub struct RestoredMode {
    pub path: SyncPath,
    pub mode: u32,
}

impl Ranked for RestoredMode {
    open spec fn precedes(self, other: Self) -> bool {
        path_rank(self.path@, other.path@) <= 0
    }

    proof fn comparable(a: Self, b: Self) {
        path_rank_turned(a.path@, b.path@);
    }

    fn comes_first(&self, other: &Self) -> (res: bool) {
        self.path.rank(&other.path) <= 0
    }
}

/// Puts paths in the order in which they get their permissions back: by their names, so that a
/// directory comes before what it holds.
pub fn restoration_order(modes: Vec<RestoredMode>) -> (res: Vec<RestoredMode>)
    ensures
        res@ == ranked(modes@),
{
    sort_ranked(modes)
}

/// Each path of some permissions gets them back, and no other path does.
pub open spec fn gives_back(list: Seq<RestoredMode>, modes: PathEntries<u32>) -> bool {
    &&& forall|i: int|
        0 <= i < list.len() ==> modes.contains_key((#[trigger] list[i]).path@)
            && modes.stored(list[i].path@) == list[i].path@ && modes[list[i].path@] == list[i].mode
    &&& forall|path: PathView| #[trigger]
        modes.contains_key(path) ==> exists|i: int|
            0 <= i < list.len() && (#[trigger] list[i]).path@ == modes.stored(path)
}

/// The permissions that paths get back, in the order in which they do.
pub fn modes_to_restore(modes: &PathMap<u32>) -> (res: Vec<RestoredMode>)
    requires
        modes.wf(),
    ensures
        is_ranked(res@),
        res@.len() == modes.keys@.len(),
        gives_back(res@, modes@),
{
    let mut list: Vec<RestoredMode> = Vec::new();
    let mut i: usize = 0;
    proof {
        modes.entries();
    }
    while i < modes.keys.len()
        invariant
            i <= modes.keys@.len(),
            modes.keys@.len() == modes.values@.len(),
            list@.len() == i,
            forall|k: int|
                0 <= k < i ==> (#[trigger] list@[k]).path@ == modes.keys@[k]@ && list@[k].mode
                    == modes.values@[k],
        decreases modes.keys@.len() - i,
    {
        list.push(RestoredMode { path: modes.keys[i].duplicate(), mode: modes.values[i] });
        i += 1;
    }
    let ghost given = list@;
    let res = restoration_order(list);
    proof {
        ranked_is_sorted(given);
        same_values(res@, given);
        assert forall|i: int| 0 <= i < res@.len() implies modes@.contains_key(
            (#[trigger] res@[i]).path@,
        ) && modes@.stored(res@[i].path@) == res@[i].path@ && modes@[res@[i].path@] == res@[i].mode by {
            assert(res@.contains(res@[i]));
            let k = choose|k: int| 0 <= k < given.len() && given[k] == res@[i];
            assert(modes@.contains_key(modes.keys@[k]@));
        }
        assert forall|path: PathView| #[trigger] modes@.contains_key(path) implies exists|i: int|
            0 <= i < res@.len() && (#[trigger] res@[i]).path@ == modes@.stored(path) by {
            let k = choose|k: int|
                0 <= k < modes.keys@.len() && (#[trigger] modes.keys@[k])@.key() == path.key()
                    && modes@.stored(path) == modes.keys@[k]@;
            assert(given.contains(given[k]));
            assert(res@.contains(given[k]));
            let i = choose|i: int| 0 <= i < res@.len() && res@[i] == given[k];
            assert(res@[i].path@ == modes@.stored(path));
        }
    }
    res
}

/// Entering the mode in which nothing can be written for want of room, and leaving it, gives each
/// path the permissions that it had: the mode is entered with work that waits for room, it is left
/// once none does and no volume is short, and what is given back then are the permissions from
/// before.
pub proof fn permissions_come_back(
    before: SyncTracker,
    entered: SyncTracker,
    later: SyncTracker,
    modes: PathMap<u32>,
    list: Seq<RestoredMode>,
    path: PathView,
)
    requires
        before.wf(),
        later.wf(),
        !before.held.mount_readonly_active,
        before.work.pending_refreshes.keys@.len() > 0,
        entered.held == (HeldBack {
            mount_readonly_active: true,
            mount_readonly_restore_modes: modes,
            ..before.held
        }),
        later.held == entered.held,
        later.work.pending_refreshes.keys@.len() == 0,
        later.work.pending_writebacks.keys@.len() == 0,
        later.space_warnings == (SpaceWarningState {
            mount_low: false,
            encrypted_low: false,
            journal_low: false,
        }),
        gives_back(list, later.held.mount_readonly_restore_modes@),
    ensures
        low_space_step(before) == LowSpaceStep::MakeReadonly,
        low_space_step(later) == LowSpaceStep::Restore,
        modes@.contains_key(path) <==> exists|i: int|
            0 <= i < list.len() && same_path((#[trigger] list[i]).path@, path),
        forall|i: int|
            0 <= i < list.len() && same_path((#[trigger] list[i]).path@, path) ==> list[i].mode
                == modes@[path],
{
    modes.entries();
    if modes@.contains_key(path) {
        let i = choose|i: int|
            0 <= i < list.len() && (#[trigger] list[i]).path@ == modes@.stored(path);
        assert(same_path(list[i].path@, path));
    }
    later.work.pending_writebacks.entries();
    assert(flagged_in(later.work.pending_writebacks, lacks_space()).len() == 0);
}

/// The texts that a map holds.
pub open spec fn text_values<K: TableKey>(map: Entries<K, String>) -> Entries<K, Seq<char>> {
    map.map_values(|s: String| s@)
}

fn put_text(map: &mut PathMap<String>, path: &SyncPath, text: &str) -> (changed: bool)
    requires
        old(map).wf(),
    ensures
        final(map).wf(),
        text_values(final(map)@) == text_values(old(map)@).insert(path@, text@),
        changed == !(old(map)@.contains_key(path@) && old(map)@[path@]@ == text@),
{
    let changed = match map.get(path) {
        Some(existing) => !same_text(existing.as_str(), text),
        None => true,
    };
    map.insert(path.duplicate(), text.to_owned());
    assert(text_values(map@) =~= text_values(old(map)@).insert(path@, text@));
    changed
}

/// The permissions to which a hard-linked file goes back: those from before the mount became
/// read-only, where they are known.
pub open spec fn restored_mode(held: HeldBack, path: PathView, current_mode: u32) -> u32 {
    if held.mount_readonly_active && held.mount_readonly_restore_modes@.contains_key(path) {
        held.mount_readonly_restore_modes@[path]
    } else {
        current_mode
    }
}

/// What is held back after a hard-linked file was.
pub open spec fn hard_link_held(
    before: HeldBack,
    after: HeldBack,
    path: PathView,
    reason: Seq<char>,
    current_mode: u32,
) -> bool {
    &&& text_values(after.unsupported_hard_link_paths@) == text_values(
        before.unsupported_hard_link_paths@,
    ).insert(path, reason)
    &&& after.hard_link_block_restore_modes@ == if before.hard_link_block_restore_modes@
        .contains_key(path) {
        before.hard_link_block_restore_modes@
    } else {
        before.hard_link_block_restore_modes@.insert(
            path,
            restored_mode(before, path, current_mode),
        )
    }
    &&& after.pending_stable@ == before.pending_stable@.remove(path)
    &&& after.pending_temp@ == before.pending_temp@.remove(path)
    &&& after.pending_sparse@ == before.pending_sparse@.remove(path)
    &&& after == (HeldBack {
        unsupported_hard_link_paths: after.unsupported_hard_link_paths,
        hard_link_block_restore_modes: after.hard_link_block_restore_modes,
        pending_stable: after.pending_stable,
        pending_temp: after.pending_temp,
        pending_sparse: after.pending_sparse,
        ..before
    })
}

/// What is held back after a hard-linked file no longer is. While the mount is read-only its
/// permissions wait with the others.
pub open spec fn hard_link_released(
    before: HeldBack,
    after: HeldBack,
    path: PathView,
    exists: bool,
) -> bool {
    &&& after.unsupported_hard_link_paths@ == before.unsupported_hard_link_paths@.remove(path)
    &&& after.hard_link_block_restore_modes@ == before.hard_link_block_restore_modes@.remove(path)
    &&& after.mount_readonly_restore_modes@ == if before.hard_link_block_restore_modes@
        .contains_key(path) && exists && before.mount_readonly_active {
        before.mount_readonly_restore_modes@.insert(
            path,
            before.hard_link_block_restore_modes@[path],
        )
    } else {
        before.mount_readonly_restore_modes@
    }
    &&& after == (HeldBack {
        unsupported_hard_link_paths: after.unsupported_hard_link_paths,
        hard_link_block_restore_modes: after.hard_link_block_restore_modes,
        mount_readonly_restore_modes: after.mount_readonly_restore_modes,
        ..before
    })
}

/// The permissions that a file gets at once when it is no longer held back.
pub open spec fn released_mode(held: HeldBack, path: PathView, exists: bool) -> Option<u32> {
    if held.hard_link_block_restore_modes@.contains_key(path) && exists
        && !held.mount_readonly_active {
        Some(held.hard_link_block_restore_modes@[path])
    } else {
        None
    }
}

impl HeldBack {
    /// Holds a hard-linked file back. Gives the permissions that it gets, where they change.
    pub fn hold_hard_link(&mut self, path: &SyncPath, reason: &str, current_mode: u32) -> (res:
        Option<u32>)
        requires
            old(self).wf(),
        ensures
            final(self).wf(),
            hard_link_held(*old(self), *final(self), path@, reason@, current_mode),
            res == if current_mode & !0o222u32 != current_mode {
                Some(current_mode & !0o222u32)
            } else {
                None
            },
    {
        let mut restore: u32 = current_mode;
        if self.mount_readonly_active {
            if let Some(mode) = self.mount_readonly_restore_modes.get(path) {
                restore = *mode;
            }
        }
        if !self.hard_link_block_restore_modes.contains_key(path) {
            self.hard_link_block_restore_modes.insert(path.duplicate(), restore);
        }
        put_text(&mut self.unsupported_hard_link_paths, path, reason);
        self.pending_stable.remove(path);
        self.pending_temp.remove(path);
        self.pending_sparse.remove(path);
        let taken: u32 = readonly_mode(current_mode);
        if taken != current_mode {
            Some(taken)
        } else {
            None
        }
    }

    /// Holds a hard-linked file back no longer. Gives the permissions that it gets at once.
    pub fn release_hard_link(&mut self, path: &SyncPath, exists: bool) -> (res: Option<u32>)
        requires
            old(self).wf(),
        ensures
            final(self).wf(),
            hard_link_released(*old(self), *final(self), path@, exists),
            res == released_mode(*old(self), path@, exists),
    {
        self.unsupported_hard_link_paths.remove(path);
        match self.hard_link_block_restore_modes.remove(path) {
            Some(mode) => {
                if exists {
                    if self.mount_readonly_active {
                        self.mount_readonly_restore_modes.insert(path.duplicate(), mode);
                        None
                    } else {
                        Some(mode)
                    }
                } else {
                    None
                }
            },
            None => None,
        }
    }
}

/// The mount has to be read-only: a volume is short of room, or work waits for room.
pub open spec fn low_space_required(tracker: SyncTracker) -> bool {
    low_space_mode(tracker.work, tracker.space_warnings) != LowSpaceMode::Healthy
}

/// What is done about the permissions of the mount.
pub open spec fn low_space_step(tracker: SyncTracker) -> LowSpaceStep {
    if low_space_required(tracker) == tracker.held.mount_readonly_active {
        LowSpaceStep::Keep
    } else if low_space_required(tracker) {
        LowSpaceStep::MakeReadonly
    } else {
        LowSpaceStep::Restore
    }
}

/// The mount is not read-only any longer.
pub open spec fn readonly_left(before: SyncTracker, after: SyncTracker) -> bool {
    &&& after.held.mount_readonly_restore_modes@ == PathEntries::<u32>::empty()
    &&& after == (SyncTracker {
        held: HeldBack {
            mount_readonly_active: false,
            mount_readonly_restore_modes: after.held.mount_readonly_restore_modes,
            ..before.held
        },
        ..before
    })
}

impl SyncTracker {
    /// Holds a file back whose format cannot be synced file by file. Says whether that is news.
    pub fn record_unsupported_transactional_path(&mut self, path: &SyncPath, reason: &str) -> (res:
        bool)
        requires
            old(self).wf(),
        ensures
            final(self).wf(),
            text_values(final(self).held.unsupported_transactional_paths@) == text_values(
                old(self).held.unsupported_transactional_paths@,
            ).insert(path@, reason@),
            res == !(old(self).held.unsupported_transactional_paths@.contains_key(path@) && old(
                self,
            ).held.unsupported_transactional_paths@[path@]@ == reason@),
            *final(self) == (SyncTracker { held: final(self).held, ..*old(self) }),
            final(self).held == (HeldBack {
                unsupported_transactional_paths: final(self).held.unsupported_transactional_paths,
                ..old(self).held
            }),
    {
        put_text(&mut self.held.unsupported_transactional_paths, path, reason)
    }

    /// Holds a hard-linked file back, drops the work that was pending for it, and forgets its
    /// identifier. Gives the permissions that it gets, where they change.
    pub fn record_unsupported_hard_link_path(
        &mut self,
        path: &SyncPath,
        reason: &str,
        current_mode: u32,
    ) -> (res: Option<u32>)
        requires
            old(self).wf(),
        ensures
            final(self).wf(),
            hard_link_held(old(self).held, final(self).held, path@, reason@, current_mode),
            res == if current_mode & !0o222u32 != current_mode {
                Some(current_mode & !0o222u32)
            } else {
                None
            },
            final(self).work.pending_writebacks@ == old(self).work.pending_writebacks@.remove(
                path@,
            ),
            final(self).work.pending_writebacks_dirty == (old(self).work.pending_writebacks_dirty
                || old(self).work.pending_writebacks@.contains_key(path@)),
            final(self).work.pending_refreshes@ == old(self).work.pending_refreshes@.remove(path@),
            final(self).work.pending_refreshes_dirty == (old(self).work.pending_refreshes_dirty
                || old(self).work.pending_refreshes@.contains_key(path@)),
            final(self).files.file_id_to_mount_path@ == filtered(
                old(self).files.file_id_to_mount_path@,
                |_id: Seq<char>, at: SyncPath| !same_path(at@, path@),
            ),
            *final(self) == (SyncTracker {
                held: final(self).held,
                work: final(self).work,
                files: final(self).files,
                ..*old(self)
            }),
            final(self).work == (PendingWork {
                pending_writebacks: final(self).work.pending_writebacks,
                pending_writebacks_dirty: final(self).work.pending_writebacks_dirty,
                pending_refreshes: final(self).work.pending_refreshes,
                pending_refreshes_dirty: final(self).work.pending_refreshes_dirty,
                ..old(self).work
            }),
            final(self).files == (FileLedger {
                file_id_to_mount_path: final(self).files.file_id_to_mount_path,
                ..old(self).files
            }),
    {
        let res = self.held.hold_hard_link(path, reason, current_mode);
        self.clear_pending_writeback(path);
        self.clear_pending_refresh(path);
        self.forget_file_ids_at(path);
        res
    }

    /// Holds a hard-linked file back no longer. Gives the permissions that it gets at once.
    pub fn clear_unsupported_hard_link_path(&mut self, path: &SyncPath, exists: bool) -> (res:
        Option<u32>)
        requires
            old(self).wf(),
        ensures
            final(self).wf(),
            hard_link_released(old(self).held, final(self).held, path@, exists),
            res == released_mode(old(self).held, path@, exists),
            *final(self) == (SyncTracker { held: final(self).held, ..*old(self) }),
    {
        self.held.release_hard_link(path, exists)
    }

    /// What is to be done about the permissions of the mount: it is read-only as long as room is
    /// short or work waits for room.
    pub fn enforce_low_space_mount_mode(&self) -> (res: LowSpaceStep)
        requires
            self.wf(),
        ensures
            res == low_space_step(*self),
    {
        let needed = self.low_space_readonly_required();
        if needed == self.held.mount_readonly_active {
            LowSpaceStep::Keep
        } else if needed {
            LowSpaceStep::MakeReadonly
        } else {
            LowSpaceStep::Restore
        }
    }

    /// Notes that the mount was made read-only, and the permissions from before.
    pub fn enter_readonly(&mut self, modes: PathMap<u32>)
        requires
            old(self).wf(),
            modes.wf(),
        ensures
            final(self).wf(),
            final(self).held.mount_readonly_active,
            final(self).held.mount_readonly_restore_modes == modes,
            *final(self) == (SyncTracker { held: final(self).held, ..*old(self) }),
            final(self).held == (HeldBack {
                mount_readonly_active: true,
                mount_readonly_restore_modes: modes,
                ..old(self).held
            }),
    {
        self.held.mount_readonly_restore_modes = modes;
        self.held.mount_readonly_active = true;
    }

    /// Notes that the permissions from before the mount became read-only are back.
    pub fn leave_readonly(&mut self)
        requires
            old(self).wf(),
        ensures
            final(self).wf(),
            readonly_left(*old(self), *final(self)),
    {
        self.held.mount_readonly_restore_modes.clear();
        self.held.mount_readonly_active = false;
    }

    /// What is to be done about the permissions before the mount is cleaned up.
    pub fn prepare_mountpoint_cleanup(&self) -> (res: LowSpaceStep)
        ensures
            res == if self.held.mount_readonly_active {
                LowSpaceStep::Restore
            } else {
                LowSpaceStep::Keep
            },
    {
        if self.held.mount_readonly_active {
            LowSpaceStep::Restore
        } else {
            LowSpaceStep::Keep
        }
    }

    /// The journal by which the room for journals is judged: the first that is known, in the
    /// order of writebacks, refreshes, files deleted while open, metadata, orphans, deletions.
    pub fn journal_budget_path(&self) -> (res: Option<&SyncPath>)
        ensures
            match res {
                Some(path) => budget_journal(*self) == Some(*path),
                None => budget_journal(*self) is None,
            },
    {
        if let Some(path) = &self.journals.pending_writeback_path {
            return Some(path);
        }
        if let Some(path) = &self.journals.pending_refresh_path {
            return Some(path);
        }
        if let Some(path) = &self.journals.pending_open_unlinked_path {
            return Some(path);
        }
        if let Some(path) = &self.journals.pending_metadata_path {
            return Some(path);
        }
        if let Some(path) = &self.journals.pending_orphan_path {
            return Some(path);
        }
        match &self.journals.pending_deletion_path {
            Some(path) => Some(path),
            None => None,
        }
    }

    /// Notes which volumes are short of room, from the room on each where it is known.
    pub fn refresh_space_warnings(
        &mut self,
        mount_room: Option<u64>,
        encrypted_room: Option<u64>,
        journal_room: Option<u64>,
    )
        ensures
            final(self).space_warnings == (SpaceWarningState {
                mount_low: mount_room matches Some(r) && r < LOW_SPACE_WARNING_RESERVE_BYTES,
                encrypted_low: encrypted_room matches Some(r) && r
                    < LOW_SPACE_WARNING_RESERVE_BYTES,
                journal_low: journal_room matches Some(r) && r < LOW_SPACE_WARNING_RESERVE_BYTES,
            }),
            *final(self) == (SyncTracker {
                space_warnings: final(self).space_warnings,
                ..*old(self)
            }),
    {
        self.space_warnings = SpaceWarningState {
            mount_low: volume_below_reserve(mount_room, LOW_SPACE_WARNING_RESERVE_BYTES),
            encrypted_low: volume_below_reserve(encrypted_room, LOW_SPACE_WARNING_RESERVE_BYTES),
            journal_low: volume_below_reserve(journal_room, LOW_SPACE_WARNING_RESERVE_BYTES),
        };
    }
}

/// A hard-linked file that was held back and is released gets the permissions back that it had,
/// unless the mount is read-only, when they wait with the others.
pub proof fn released_as_held(
    before: HeldBack,
    held: HeldBack,
    path: PathView,
    reason: Seq<char>,
    current_mode: u32,
)
    requires
        hard_link_held(before, held, path, reason, current_mode),
        !before.hard_link_block_restore_modes@.contains_key(path),
    ensures
        !before.mount_readonly_active ==> released_mode(held, path, true) == Some(current_mode),
        before.mount_readonly_active ==> released_mode(held, path, true) is None,
{
}

} // verus!
