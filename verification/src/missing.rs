//! What becomes of files and directories that are known and were not found, on either side.

use vstd::prelude::*;
use vstd::string::*;

use crate::deletion::{
    content_in_doubt, deletion_view, digest_refreshed, digests_agree, locally_changed, orphan_view,
    refresh_digest,
};
use crate::errors::opt_text;
use crate::exclusion::{excluded, texts};
use crate::held::{hard_link_released, released_mode};
use crate::local_only::{has_marker, is_conflict_file};
use crate::orphans::{copy_forgotten, FileLook};
use crate::path::{same_path, PathKey, PathMap, PathSet, PathView, SyncPath, TextEntries};
use crate::path_order::{ranked, sort_ranked, Ranked};
use crate::pending::{path_values, same_opt_text};
use crate::table::{filtered, TableKey};
use crate::tracker::{
    Digest, FileLedger, HeldBack, PendingDeletion, PendingOrphan, PendingWork, ScanHealth,
    SyncTracker,
};

verus! {

/// What a look at the encrypted side of a missing file found.
#[derive(Debug)]
pub struct MissingFacts {
    pub tracked_exists: bool,
    pub encrypted_exists: bool,
    /// The identifier in the encrypted file, where it could be read.
    pub encrypted_id: Option<String>,
    /// The same of the encrypted file that belongs to the place where a file with that
    /// identifier is mounted now.
    pub new_encrypted_exists: bool,
    pub new_encrypted_id: Option<String>,
}

/// What becomes of a file that was mounted.
#[derive(Debug, Clone, Copy, PartialEq, Eq, Structural)]
pub enum MissingStep {
    /// It was found.
    Here,
    /// It could not be written yet for want of room.
    Protected,
    /// A process has it open: its encrypted form stays.
    StillOpen,
    /// It was held back as hard-linked, and is mounted elsewhere now: the old encrypted form goes.
    LinkMoved,
    /// It was held back as hard-linked: its encrypted form stays.
    LinkKept,
    /// It was held back as hard-linked, and has no encrypted form.
    LinkGone,
    /// It is mounted elsewhere now: the old encrypted form goes.
    Renamed,
    /// It is mounted elsewhere now and not encrypted there yet.
    Deferred,
    /// Its deletion is already being confirmed.
    AlreadyPending,
    /// Its deletion is to be confirmed from now on.
    NewlyPending,
    /// It has no encrypted form either.
    Gone,
}

/// Where a file with an identifier is mounted, if that is elsewhere and it is there.
pub open spec fn place_of(
    ids: TextEntries<PathView>,
    id: Option<Seq<char>>,
    path: PathView,
    present: Set<PathKey>,
) -> Option<PathView> {
    match id {
        Some(text) => if ids.contains_key(text) && !same_path(ids[text], path) && present.contains(
            ids[text].key(),
        ) {
            Some(ids[text])
        } else {
            None
        },
        None => None,
    }
}

/// What becomes of a file that was mounted.
pub open spec fn missing_step(
    tracker: SyncTracker,
    path: PathView,
    encrypted_path: PathView,
    current: Set<PathKey>,
    protected: Set<PathKey>,
    present: Set<PathKey>,
    facts: MissingFacts,
) -> MissingStep {
    let ids = path_values(tracker.files.file_id_to_mount_path@);
    let id = opt_text(facts.encrypted_id);
    let elsewhere = place_of(ids, id, path, present) is Some;
    let same_there = facts.new_encrypted_exists && opt_text(facts.new_encrypted_id) == id;
    if current.contains(path.key()) {
        MissingStep::Here
    } else if protected.contains(path.key()) {
        MissingStep::Protected
    } else if tracker.work.pending_open_unlinked@.contains_key(path) {
        MissingStep::StillOpen
    } else if tracker.held.unsupported_hard_link_paths@.contains_key(path) {
        if !facts.encrypted_exists {
            MissingStep::LinkGone
        } else if elsewhere && same_there {
            MissingStep::LinkMoved
        } else {
            MissingStep::LinkKept
        }
    } else if !facts.encrypted_exists {
        MissingStep::Gone
    } else if elsewhere && same_there {
        MissingStep::Renamed
    } else if elsewhere && !facts.new_encrypted_exists {
        MissingStep::Deferred
    } else if tracker.work.pending_deletions@.contains_key(encrypted_path) {
        MissingStep::AlreadyPending
    } else {
        MissingStep::NewlyPending
    }
}

/// The file is forgotten.
pub open spec fn forgets(step: MissingStep) -> bool {
    step == MissingStep::LinkMoved || step == MissingStep::LinkGone || step == MissingStep::Renamed
        || step == MissingStep::Gone
}

/// The old encrypted form is removed.
pub open spec fn removes_encrypted(step: MissingStep) -> bool {
    step == MissingStep::LinkMoved || step == MissingStep::Renamed
}

/// The ledger after a file that is not mounted any longer was forgotten.
pub open spec fn missing_forgotten(
    before: FileLedger,
    after: FileLedger,
    path: PathView,
    encrypted_path: PathView,
    with_id: bool,
) -> bool {
    &&& after.decrypted_signatures@ == before.decrypted_signatures@.remove(path)
    &&& after.decrypted_hashes@ == before.decrypted_hashes@.remove(path)
    &&& after.decrypted_metadata_hashes@ == before.decrypted_metadata_hashes@.remove(path)
    &&& after.encrypted_signatures@ == before.encrypted_signatures@.remove(encrypted_path)
    &&& after.path_mapping@ == filtered(
        before.path_mapping@,
        |_e: PathView, at: SyncPath| !same_path(at@, path),
    )
    &&& after.file_id_to_mount_path@ == if with_id {
        filtered(
            before.file_id_to_mount_path@,
            |_id: Seq<char>, at: SyncPath| !same_path(at@, path),
        )
    } else {
        before.file_id_to_mount_path@
    }
    &&& after == (FileLedger {
        decrypted_signatures: after.decrypted_signatures,
        decrypted_hashes: after.decrypted_hashes,
        decrypted_metadata_hashes: after.decrypted_metadata_hashes,
        encrypted_signatures: after.encrypted_signatures,
        path_mapping: after.path_mapping,
        file_id_to_mount_path: after.file_id_to_mount_path,
        ..before
    })
}

impl FileLedger {
    fn forget_missing(&mut self, path: &SyncPath, encrypted_path: &SyncPath, with_id: bool)
        requires
            old(self).wf(),
        ensures
            final(self).wf(),
            missing_forgotten(*old(self), *final(self), path@, encrypted_path@, with_id),
    {
        self.decrypted_signatures.remove(path);
        self.decrypted_hashes.remove(path);
        self.decrypted_metadata_hashes.remove(path);
        self.encrypted_signatures.remove(encrypted_path);
        let keep_mapping = |_e: &SyncPath, at: &SyncPath| -> (res: bool)
            ensures
                res == !same_path(at@, path@),
            { !at.same(path) };
        self.path_mapping.retain(
            keep_mapping,
            Ghost(|_e: PathView, at: SyncPath| !same_path(at@, path@)),
        );
        if with_id {
            let keep_id = |_id: &String, at: &SyncPath| -> (res: bool)
                ensures
                    res == !same_path(at@, path@),
                { !at.same(path) };
            self.file_id_to_mount_path.retain(
                keep_id,
                Ghost(|_id: Seq<char>, at: SyncPath| !same_path(at@, path@)),
            );
        }
    }
}

/// The pending deletions after a missing file was dealt with.
pub open spec fn deletions_noted(
    before: PendingWork,
    after: PendingWork,
    step: MissingStep,
    path: PathView,
    encrypted_path: PathView,
    healthy: bool,
) -> bool {
    let deletions = before.pending_deletions@;
    &&& after == (PendingWork {
        pending_deletions: after.pending_deletions,
        pending_deletions_dirty: after.pending_deletions_dirty,
        ..before
    })
    &&& match step {
        MissingStep::StillOpen | MissingStep::LinkKept | MissingStep::LinkGone | MissingStep::Gone => {
            &&& after.pending_deletions@ == deletions.remove(encrypted_path)
            &&& after.pending_deletions_dirty == (before.pending_deletions_dirty
                || deletions.contains_key(encrypted_path))
        },
        MissingStep::NewlyPending => {
            &&& after.pending_deletions@ == deletions.insert(
                encrypted_path,
                after.pending_deletions@[encrypted_path],
            )
            &&& deletion_view(after.pending_deletions@[encrypted_path]) == (path, 1u32, healthy)
            &&& after.pending_deletions_dirty
        },
        _ => {
            &&& after.pending_deletions@ == deletions
            &&& after.pending_deletions_dirty == before.pending_deletions_dirty
        },
    }
}

impl PendingWork {
    fn note_missing(
        &mut self,
        step: MissingStep,
        path: &SyncPath,
        encrypted_path: &SyncPath,
        healthy: bool,
    )
        requires
            old(self).wf(),
        ensures
            final(self).wf(),
            deletions_noted(*old(self), *final(self), step, path@, encrypted_path@, healthy),
    {
        match step {
            MissingStep::StillOpen | MissingStep::LinkKept | MissingStep::LinkGone
            | MissingStep::Gone => {
                if self.pending_deletions.remove(encrypted_path).is_some() {
                    self.pending_deletions_dirty = true;
                }
            },
            MissingStep::NewlyPending => {
                self.pending_deletions.insert(
                    encrypted_path.duplicate(),
                    PendingDeletion {
                        mount_path: path.duplicate(),
                        consecutive_missing_scans: 1,
                        had_healthy_scan: healthy,
                    },
                );
                self.pending_deletions_dirty = true;
            },
            _ => {},
        }
    }
}

fn is_healthy(health: &ScanHealth) -> (res: bool)
    ensures
        res == (health is Healthy),
{
    match health {
        ScanHealth::Healthy => true,
        ScanHealth::Unhealthy { .. } => false,
    }
}

impl SyncTracker {
    /// Whether deletions are concluded from files that are not in the mount.
    pub fn infers_deletions(&self) -> (res: bool)
        ensures
            res == (!self.held.mount_readonly_active && !self.suppress_deletion_inference),
    {
        !self.held.mount_readonly_active && !self.suppress_deletion_inference
    }

    /// Where a file with an identifier is mounted, if that is elsewhere and it is there.
    pub fn moved_to(&self, path: &SyncPath, id: &Option<String>, present: &PathSet) -> (res: Option<
        SyncPath,
    >)
        requires
            self.wf(),
            present.wf(),
        ensures
            crate::config::opt_path(res) == place_of(
                path_values(self.files.file_id_to_mount_path@),
                opt_text(*id),
                path@,
                present@.keys(),
            ),
    {
        match id {
            Some(text) => match self.files.file_id_to_mount_path.get(text) {
                Some(other) => {
                    if !other.same(path) && present.contains_key(other) {
                        Some(other.duplicate())
                    } else {
                        None
                    }
                },
                None => None,
            },
            None => None,
        }
    }

    fn decide_missing(
        &self,
        path: &SyncPath,
        encrypted_path: &SyncPath,
        current: &PathSet,
        protected: &PathSet,
        present: &PathSet,
        facts: &MissingFacts,
    ) -> (res: MissingStep)
        requires
            self.wf(),
            current.wf(),
            protected.wf(),
            present.wf(),
        ensures
            res == missing_step(
                *self,
                path@,
                encrypted_path@,
                current@.keys(),
                protected@.keys(),
                present@.keys(),
                *facts,
            ),
    {
        if current.contains_key(path) {
            return MissingStep::Here;
        }
        if protected.contains_key(path) {
            return MissingStep::Protected;
        }
        if self.work.pending_open_unlinked.contains_key(path) {
            return MissingStep::StillOpen;
        }
        let elsewhere = self.moved_to(path, &facts.encrypted_id, present).is_some();
        let same_there = facts.new_encrypted_exists && same_opt_text(
            &facts.new_encrypted_id,
            &facts.encrypted_id,
        );
        if self.held.unsupported_hard_link_paths.contains_key(path) {
            return if !facts.encrypted_exists {
                MissingStep::LinkGone
            } else if elsewhere && same_there {
                MissingStep::LinkMoved
            } else {
                MissingStep::LinkKept
            };
        }
        if !facts.encrypted_exists {
            MissingStep::Gone
        } else if elsewhere && same_there {
            MissingStep::Renamed
        } else if elsewhere && !facts.new_encrypted_exists {
            MissingStep::Deferred
        } else if self.work.pending_deletions.contains_key(encrypted_path) {
            MissingStep::AlreadyPending
        } else {
            MissingStep::NewlyPending
        }
    }

    /// Deals with a file that was mounted. Gives what becomes of it, and the permissions that it
    /// gets where it is no longer held back.
    pub fn note_missing_file(
        &mut self,
        path: &SyncPath,
        encrypted_path: &SyncPath,
        current: &PathSet,
        protected: &PathSet,
        present: &PathSet,
        facts: &MissingFacts,
    ) -> (res: (MissingStep, Option<u32>))
        requires
            old(self).wf(),
            current.wf(),
            protected.wf(),
            present.wf(),
        ensures
            final(self).wf(),
            res.0 == missing_step(
                *old(self),
                path@,
                encrypted_path@,
                current@.keys(),
                protected@.keys(),
                present@.keys(),
                *facts,
            ),
            if forgets(res.0) {
                &&& missing_forgotten(
                    old(self).files,
                    final(self).files,
                    path@,
                    encrypted_path@,
                    res.0 != MissingStep::Renamed,
                )
                &&& copy_forgotten(old(self).copies, final(self).copies, path@)
            } else {
                &&& final(self).files == old(self).files
                &&& final(self).copies == old(self).copies
            },
            deletions_noted(
                old(self).work,
                final(self).work,
                res.0,
                path@,
                encrypted_path@,
                old(self).scan_health is Healthy,
            ),
            if res.0 == MissingStep::LinkMoved || res.0 == MissingStep::LinkGone {
                &&& hard_link_released(
                    old(self).held,
                    final(self).held,
                    path@,
                    facts.tracked_exists,
                )
                &&& res.1 == released_mode(old(self).held, path@, facts.tracked_exists)
            } else {
                &&& final(self).held == old(self).held
                &&& res.1 is None
            },
            *final(self) == (SyncTracker {
                files: final(self).files,
                copies: final(self).copies,
                work: final(self).work,
                held: final(self).held,
                ..*old(self)
            }),
    {
        let step = self.decide_missing(path, encrypted_path, current, protected, present, facts);
        let forgotten = match step {
            MissingStep::LinkMoved | MissingStep::LinkGone | MissingStep::Renamed
            | MissingStep::Gone => true,
            _ => false,
        };
        if forgotten {
            let with_id = !(step == MissingStep::Renamed);
            self.files.forget_missing(path, encrypted_path, with_id);
            self.copies.forget_copy(path);
        }
        let healthy = is_healthy(&self.scan_health);
        self.work.note_missing(step, path, encrypted_path, healthy);
        let mode = match step {
            MissingStep::LinkMoved | MissingStep::LinkGone => self.held.release_hard_link(
                path,
                facts.tracked_exists,
            ),
            _ => None,
        };
        (step, mode)
    }

    /// Whether a mounted directory was removed: it is known, not the root, was not found, and did
    /// not only wait for room.
    pub fn directory_was_removed(
        &self,
        mount_root: &SyncPath,
        path: &SyncPath,
        current_directories: &PathSet,
        protected: &PathSet,
    ) -> (res: bool)
        requires
            self.wf(),
            current_directories.wf(),
            protected.wf(),
        ensures
            res == (self.files.decrypted_directory_signatures@.contains_key(path@) && !same_path(
                path@,
                mount_root@,
            ) && !current_directories@.contains_key(path@)
                && !protected@.contains_key(path@)),
    {
        self.files.decrypted_directory_signatures.contains_key(path) && !path.same(mount_root)
            && !current_directories.contains_key(path) && !protected.contains_key(path)
    }

    /// Forgets a directory on both sides, and the work that was pending for it.
    pub fn forget_directory(&mut self, path: &SyncPath, encrypted_path: &SyncPath)
        requires
            old(self).wf(),
        ensures
            final(self).wf(),
            directory_forgotten(old(self).files, final(self).files, path@, encrypted_path@),
            final(self).work.pending_writebacks@ == old(self).work.pending_writebacks@.remove(
                path@,
            ),
            final(self).work.pending_writebacks_dirty == (old(self).work.pending_writebacks_dirty
                || old(self).work.pending_writebacks@.contains_key(path@)),
            final(self).work.pending_refreshes@ == old(self).work.pending_refreshes@.remove(path@),
            final(self).work.pending_refreshes_dirty == (old(self).work.pending_refreshes_dirty
                || old(self).work.pending_refreshes@.contains_key(path@)),
            *final(self) == (SyncTracker {
                files: final(self).files,
                work: final(self).work,
                ..*old(self)
            }),
            final(self).work == (PendingWork {
                pending_writebacks: final(self).work.pending_writebacks,
                pending_writebacks_dirty: final(self).work.pending_writebacks_dirty,
                pending_refreshes: final(self).work.pending_refreshes,
                pending_refreshes_dirty: final(self).work.pending_refreshes_dirty,
                ..old(self).work
            }),
    {
        self.files.forget_directory_pair(path, encrypted_path);
        self.clear_pending_writeback(path);
        self.clear_pending_refresh(path);
    }

    /// Forgets a directory on both sides.
    pub fn forget_directory_tracking(&mut self, path: &SyncPath, encrypted_path: &SyncPath)
        requires
            old(self).wf(),
        ensures
            final(self).wf(),
            directory_forgotten(old(self).files, final(self).files, path@, encrypted_path@),
            *final(self) == (SyncTracker { files: final(self).files, ..*old(self) }),
    {
        self.files.forget_directory_pair(path, encrypted_path);
    }
}

/// The ledger after a directory was forgotten on both sides.
pub open spec fn directory_forgotten(
    before: FileLedger,
    after: FileLedger,
    path: PathView,
    encrypted_path: PathView,
) -> bool {
    &&& after.decrypted_directory_signatures@ == before.decrypted_directory_signatures@.remove(path)
    &&& after.decrypted_directory_metadata_hashes@
        == before.decrypted_directory_metadata_hashes@.remove(path)
    &&& after.encrypted_directory_signatures@ == before.encrypted_directory_signatures@.remove(
        encrypted_path,
    )
    &&& after == (FileLedger {
        decrypted_directory_signatures: after.decrypted_directory_signatures,
        decrypted_directory_metadata_hashes: after.decrypted_directory_metadata_hashes,
        encrypted_directory_signatures: after.encrypted_directory_signatures,
        ..before
    })
}

impl FileLedger {
    fn forget_directory_pair(&mut self, path: &SyncPath, encrypted_path: &SyncPath)
        requires
            old(self).wf(),
        ensures
            final(self).wf(),
            directory_forgotten(*old(self), *final(self), path@, encrypted_path@),
    {
        self.decrypted_directory_signatures.remove(path);
        self.decrypted_directory_metadata_hashes.remove(path);
        self.encrypted_directory_signatures.remove(encrypted_path);
    }
}

/// A directory to be removed after those below it.
#[derive(Debug)]
pub struct Nested {
    pub path: SyncPath,
}

/// The number of names on the way to a path.
pub open spec fn depth(path: PathView) -> int {
    path.names.len() + if path.absolute {
        1int
    } else {
        0int
    }
}

/// The number of names on the way to a path.
pub fn names_on_way(path: &SyncPath) -> (res: u128)
    ensures
        res == depth(path@),
{
    path.name_count() as u128 + if path.is_absolute() {
        1u128
    } else {
        0u128
    }
}

impl Ranked for Nested {
    open spec fn precedes(self, other: Self) -> bool {
        depth(self.path@) >= depth(other.path@)
    }

    proof fn comparable(a: Self, b: Self) {
    }

    fn comes_first(&self, other: &Self) -> (res: bool) {
        names_on_way(&self.path) >= names_on_way(&other.path)
    }
}

/// Puts directories in the order in which they can be removed, the deepest first.
pub fn deepest_first(directories: Vec<Nested>) -> (res: Vec<Nested>)
    ensures
        res@ == ranked(directories@),
{
    sort_ranked(directories)
}

/// What is held back at the end of a scan: only files that were found.
pub open spec fn held_at_end(before: HeldBack, after: HeldBack, current: Set<PathKey>) -> bool {
    &&& after.pending_stable@ == before.pending_stable@.restrict(current)
    &&& after.pending_temp@ == before.pending_temp@.restrict(current)
    &&& after.pending_sparse@ == before.pending_sparse@.restrict(current)
    &&& after.unsupported_transactional_paths@ == before.unsupported_transactional_paths@.restrict(
        current,
    )
    &&& after.hard_link_block_restore_modes@ == before.hard_link_block_restore_modes@.restrict(
        current,
    )
    &&& after == (HeldBack {
        pending_stable: after.pending_stable,
        pending_temp: after.pending_temp,
        pending_sparse: after.pending_sparse,
        unsupported_transactional_paths: after.unsupported_transactional_paths,
        hard_link_block_restore_modes: after.hard_link_block_restore_modes,
        ..before
    })
}

/// Keeps the entries of the paths that are in a set.
pub fn keep_only<T>(map: &mut PathMap<T>, kept: &PathSet)
    requires
        old(map).wf(),
        kept.wf(),
    ensures
        final(map).wf(),
        final(map)@ == old(map)@.restrict(kept@.keys()),
{
    let ghost before = *map;
    let keep = |p: &SyncPath, _v: &T| -> (res: bool)
        requires
            kept.wf(),
        ensures
            res == kept@.contains_key(p@),
        { kept.contains_key(p) };
    map.retain(keep, Ghost(|p: PathView, _v: T| kept@.contains_key(p)));
    proof {
        before.entries();
        assert(map@.map =~= before@.restrict(kept@.keys()).map);
    }
}

fn keep_either<T>(map: &mut PathMap<T>, a: &PathSet, b: &PathSet) -> (changed: bool)
    requires
        old(map).wf(),
        a.wf(),
        b.wf(),
    ensures
        final(map).wf(),
        final(map)@ == old(map)@.restrict(a@.keys().union(b@.keys())),
        changed == (final(map)@.len() != old(map)@.len()),
{
    let ghost before = *map;
    let n: usize = map.len();
    let keep = |p: &SyncPath, _v: &T| -> (res: bool)
        requires
            a.wf(),
            b.wf(),
        ensures
            res == (a@.contains_key(p@) || b@.contains_key(p@)),
        { a.contains_key(p) || b.contains_key(p) };
    map.retain(
        keep,
        Ghost(|p: PathView, _v: T| a@.contains_key(p) || b@.contains_key(p)),
    );
    proof {
        before.entries();
        assert(map@.map =~= before@.restrict(a@.keys().union(b@.keys())).map);
    }
    map.len() != n
}

impl HeldBack {
    fn end_scan(&mut self, current: &PathSet)
        requires
            old(self).wf(),
            current.wf(),
        ensures
            final(self).wf(),
            held_at_end(*old(self), *final(self), current@.keys()),
    {
        keep_only(&mut self.pending_stable, current);
        keep_only(&mut self.pending_temp, current);
        keep_only(&mut self.pending_sparse, current);
        keep_only(&mut self.unsupported_transactional_paths, current);
        keep_only(&mut self.hard_link_block_restore_modes, current);
    }
}

impl SyncTracker {
    /// Ends a scan of the mount: drops what was held or pending for files and directories that
    /// were not found.
    pub fn end_scan(&mut self, current: &PathSet, current_directories: &PathSet)
        requires
            old(self).wf(),
            current.wf(),
            current_directories.wf(),
        ensures
            final(self).wf(),
            held_at_end(old(self).held, final(self).held, current@.keys()),
            final(self).files.decrypted_directory_signatures@
                == old(self).files.decrypted_directory_signatures@.restrict(
                current_directories@.keys(),
            ),
            final(self).files.decrypted_directory_metadata_hashes@
                == old(self).files.decrypted_directory_metadata_hashes@.restrict(
                current_directories@.keys(),
            ),
            final(self).work.pending_writebacks@ == old(self).work.pending_writebacks@.restrict(
                current@.keys().union(current_directories@.keys()),
            ),
            final(self).work.pending_writebacks_dirty == (old(self).work.pending_writebacks_dirty
                || final(self).work.pending_writebacks@.len()
                != old(self).work.pending_writebacks@.len()),
            *final(self) == (SyncTracker {
                held: final(self).held,
                files: final(self).files,
                work: final(self).work,
                ..*old(self)
            }),
            final(self).files == (FileLedger {
                decrypted_directory_signatures: final(self).files.decrypted_directory_signatures,
                decrypted_directory_metadata_hashes: final(
                    self).files.decrypted_directory_metadata_hashes,
                ..old(self).files
            }),
            final(self).work == (PendingWork {
                pending_writebacks: final(self).work.pending_writebacks,
                pending_writebacks_dirty: final(self).work.pending_writebacks_dirty,
                ..old(self).work
            }),
    {
        self.held.end_scan(current);
        keep_only(&mut self.files.decrypted_directory_signatures, current_directories);
        keep_only(&mut self.files.decrypted_directory_metadata_hashes, current_directories);
        if keep_either(&mut self.work.pending_writebacks, current, current_directories) {
            self.work.pending_writebacks_dirty = true;
        }
    }
}

/// What becomes of a mounted file when the encrypted side was read.
#[derive(Debug, Clone, Copy, PartialEq, Eq, Structural)]
pub enum TrackStep {
    /// It is no concern of the encrypted side.
    Ignore,
    /// Its encrypted form is there, or it never had one, or it was changed: it is no orphan.
    NoOrphan,
    /// It is gone as well.
    Gone,
    /// Its encrypted form is missing once more.
    Count,
}

/// The file had an encrypted form.
pub open spec fn had_encrypted_form(files: FileLedger, path: PathView, encrypted_path: PathView) -> bool {
    files.encrypted_signatures@.contains_key(encrypted_path) || (
    files.path_mapping@.contains_key(encrypted_path) && same_path(
        files.path_mapping@[encrypted_path]@,
        path,
    ))
}

/// What becomes of a mounted file when the encrypted side was read.
pub open spec fn track_step(
    tracker: SyncTracker,
    path: PathView,
    encrypted_path: PathView,
    expected: Set<PathKey>,
    look: FileLook,
) -> TrackStep {
    if has_marker(path, "conflict"@) || excluded(
        texts(tracker.settings.excluded_patterns@),
        path,
    ) {
        TrackStep::Ignore
    } else if expected.contains(path.key()) {
        TrackStep::NoOrphan
    } else if tracker.held.unsupported_hard_link_paths@.contains_key(path) {
        TrackStep::Ignore
    } else if !had_encrypted_form(tracker.files, path, encrypted_path) {
        TrackStep::NoOrphan
    } else {
        match look {
            FileLook::Missing => TrackStep::Gone,
            FileLook::Unreadable => TrackStep::Ignore,
            FileLook::Found { signature, content_hash, metadata_hash } => if locally_changed(
                tracker,
                path,
                signature,
                content_hash,
                metadata_hash,
            ) {
                TrackStep::NoOrphan
            } else {
                TrackStep::Count
            },
        }
    }
}

/// The content of the file was compared.
pub open spec fn track_compared(
    tracker: SyncTracker,
    path: PathView,
    encrypted_path: PathView,
    expected: Set<PathKey>,
    look: FileLook,
) -> bool {
    &&& !has_marker(path, "conflict"@)
    &&& !excluded(texts(tracker.settings.excluded_patterns@), path)
    &&& !expected.contains(path.key())
    &&& !tracker.held.unsupported_hard_link_paths@.contains_key(path)
    &&& had_encrypted_form(tracker.files, path, encrypted_path)
    &&& look is Found
    &&& content_in_doubt(tracker, path, look->signature)
}

/// The orphans after the encrypted side was read. Missing forms count only in scans without
/// faults.
pub open spec fn orphans_tracked(
    before: PendingWork,
    after: PendingWork,
    step: TrackStep,
    path: PathView,
    encrypted_path: PathView,
    healthy: bool,
) -> bool {
    let orphans = before.pending_orphans@;
    let known = orphan_view(orphans[path]);
    &&& after == (PendingWork {
        pending_orphans: after.pending_orphans,
        pending_orphans_dirty: after.pending_orphans_dirty,
        ..before
    })
    &&& match step {
        TrackStep::Ignore => {
            &&& after.pending_orphans@ == orphans
            &&& after.pending_orphans_dirty == before.pending_orphans_dirty
        },
        TrackStep::NoOrphan | TrackStep::Gone => {
            &&& after.pending_orphans@ == orphans.remove(path)
            &&& after.pending_orphans_dirty == (before.pending_orphans_dirty
                || orphans.contains_key(path))
        },
        TrackStep::Count => {
            let seen = if orphans.contains_key(path) {
                known.1 as int
            } else {
                0
            };
            &&& after.pending_orphans@ == orphans.insert(path, after.pending_orphans@[path])
            &&& orphan_view(after.pending_orphans@[path]) == (
                encrypted_path,
                (if healthy {
                    seen + 1
                } else {
                    seen
                }) as u32,
                healthy || (orphans.contains_key(path) && known.2),
            )
            &&& after.pending_orphans_dirty
        },
    }
}

impl PendingWork {
    fn track_orphan(
        &mut self,
        step: TrackStep,
        path: &SyncPath,
        encrypted_path: &SyncPath,
        healthy: bool,
    )
        requires
            old(self).wf(),
            step == TrackStep::Count && healthy && old(self).pending_orphans@.contains_key(path@)
                ==> old(self).pending_orphans@[path@].consecutive_missing_scans < u32::MAX,
        ensures
            final(self).wf(),
            orphans_tracked(*old(self), *final(self), step, path@, encrypted_path@, healthy),
    {
        match step {
            TrackStep::Ignore => {},
            TrackStep::NoOrphan | TrackStep::Gone => {
                if self.pending_orphans.remove(path).is_some() {
                    self.pending_orphans_dirty = true;
                }
            },
            TrackStep::Count => {
                let (seen, was_healthy): (u32, bool) = match self.pending_orphans.get(path) {
                    Some(p) => (p.consecutive_missing_scans, p.had_healthy_scan),
                    None => (0, false),
                };
                let count: u32 = if healthy {
                    seen + 1
                } else {
                    seen
                };
                self.pending_orphans.insert(
                    path.duplicate(),
                    PendingOrphan {
                        encrypted_path: encrypted_path.duplicate(),
                        consecutive_missing_scans: count,
                        had_healthy_scan: healthy || was_healthy,
                    },
                );
                self.pending_orphans_dirty = true;
            },
        }
    }
}

/// The ledger after the encrypted side was read.
pub open spec fn ledger_tracked(
    before: FileLedger,
    after: FileLedger,
    step: TrackStep,
    compared: bool,
    path: PathView,
    encrypted_path: PathView,
    look: FileLook,
) -> bool {
    if step == TrackStep::Gone {
        missing_forgotten(before, after, path, encrypted_path, true)
    } else {
        &&& after.decrypted_hashes@ == if compared && look->content_hash is Some {
            before.decrypted_hashes@.insert(path, look->content_hash->0)
        } else {
            before.decrypted_hashes@
        }
        &&& after.decrypted_metadata_hashes@ == if compared {
            digest_refreshed(before.decrypted_metadata_hashes@, path, look->metadata_hash)
        } else {
            before.decrypted_metadata_hashes@
        }
        &&& after == (FileLedger {
            decrypted_hashes: after.decrypted_hashes,
            decrypted_metadata_hashes: after.decrypted_metadata_hashes,
            ..before
        })
    }
}

impl FileLedger {
    fn track(
        &mut self,
        step: TrackStep,
        compared: bool,
        path: &SyncPath,
        encrypted_path: &SyncPath,
        look: FileLook,
    )
        requires
            old(self).wf(),
            compared ==> look is Found,
        ensures
            final(self).wf(),
            ledger_tracked(
                *old(self),
                *final(self),
                step,
                compared,
                path@,
                encrypted_path@,
                look,
            ),
    {
        if step == TrackStep::Gone {
            self.forget_missing(path, encrypted_path, true);
        } else if compared {
            if let FileLook::Found { content_hash, metadata_hash, .. } = look {
                if let Some(h) = content_hash {
                    self.decrypted_hashes.insert(path.duplicate(), h);
                }
                refresh_digest(&mut self.decrypted_metadata_hashes, path, metadata_hash);
            }
        }
    }
}

impl SyncTracker {
    fn decide_track(
        &self,
        path: &SyncPath,
        encrypted_path: &SyncPath,
        expected: &PathSet,
        look: FileLook,
    ) -> (res: (TrackStep, bool))
        requires
            self.wf(),
            expected.wf(),
        ensures
            res.0 == track_step(*self, path@, encrypted_path@, expected@.keys(), look),
            res.1 == track_compared(*self, path@, encrypted_path@, expected@.keys(), look),
    {
        if is_conflict_file(path) || self.is_path_excluded(path) {
            return (TrackStep::Ignore, false);
        }
        if expected.contains_key(path) {
            return (TrackStep::NoOrphan, false);
        }
        if self.held.unsupported_hard_link_paths.contains_key(path) {
            return (TrackStep::Ignore, false);
        }
        let mapped = match self.files.path_mapping.get(encrypted_path) {
            Some(at) => at.same(path),
            None => false,
        };
        if !self.files.encrypted_signatures.contains_key(encrypted_path) && !mapped {
            return (TrackStep::NoOrphan, false);
        }
        match look {
            FileLook::Missing => (TrackStep::Gone, false),
            FileLook::Unreadable => (TrackStep::Ignore, false),
            FileLook::Found { signature, content_hash, metadata_hash } => {
                let compared = self.needs_content_check(path, signature);
                if self.looks_changed(path, signature, content_hash, metadata_hash) {
                    (TrackStep::NoOrphan, compared)
                } else {
                    (TrackStep::Count, compared)
                }
            },
        }
    }

    /// Deals with a mounted file after the encrypted side was read.
    pub fn track_missing_encrypted_file(
        &mut self,
        path: &SyncPath,
        encrypted_path: &SyncPath,
        expected: &PathSet,
        look: FileLook,
    ) -> (res: TrackStep)
        requires
            old(self).wf(),
            expected.wf(),
            old(self).work.pending_orphans@.contains_key(path@)
                ==> old(self).work.pending_orphans@[path@].consecutive_missing_scans < u32::MAX,
        ensures
            final(self).wf(),
            res == track_step(*old(self), path@, encrypted_path@, expected@.keys(), look),
            ledger_tracked(
                old(self).files,
                final(self).files,
                res,
                track_compared(*old(self), path@, encrypted_path@, expected@.keys(), look),
                path@,
                encrypted_path@,
                look,
            ),
            orphans_tracked(
                old(self).work,
                final(self).work,
                res,
                path@,
                encrypted_path@,
                old(self).scan_health is Healthy,
            ),
            if res == TrackStep::Gone {
                copy_forgotten(old(self).copies, final(self).copies, path@)
            } else {
                final(self).copies == old(self).copies
            },
            *final(self) == (SyncTracker {
                files: final(self).files,
                work: final(self).work,
                copies: final(self).copies,
                ..*old(self)
            }),
    {
        let (step, compared) = self.decide_track(path, encrypted_path, expected, look);
        self.files.track(step, compared, path, encrypted_path, look);
        let healthy = is_healthy(&self.scan_health);
        self.work.track_orphan(step, path, encrypted_path, healthy);
        if step == TrackStep::Gone {
            self.copies.forget_copy(path);
        }
        step
    }

    /// What is done about a mounted directory whose encrypted form was not found.
    pub fn track_missing_encrypted_directory(
        &self,
        mount_root: &SyncPath,
        path: &SyncPath,
        encrypted_path: &SyncPath,
        expected_directories: &PathSet,
        protected: &PathSet,
        exists: bool,
        metadata_hash: Option<Digest>,
    ) -> (res: DirectoryTrack)
        requires
            self.wf(),
            expected_directories.wf(),
            protected.wf(),
        ensures
            res == directory_track(
                *self,
                mount_root@,
                path@,
                encrypted_path@,
                expected_directories@.keys(),
                protected@.keys(),
                exists,
                metadata_hash,
            ),
    {
        if path.same(mount_root) || expected_directories.contains_key(path)
            || protected.contains_key(path) {
            return DirectoryTrack::Keep;
        }
        if !self.files.encrypted_directory_signatures.contains_key(encrypted_path) {
            return DirectoryTrack::Keep;
        }
        if !exists {
            return DirectoryTrack::Forget;
        }
        if self.is_local_mount_directory_dirty(path, metadata_hash) {
            DirectoryTrack::Keep
        } else {
            DirectoryTrack::RemoveIfEmpty
        }
    }
}

/// What is done about a mounted directory whose encrypted form was not found.
#[derive(Debug, Clone, Copy, PartialEq, Eq, Structural)]
pub enum DirectoryTrack {
    /// It stays.
    Keep,
    /// It is gone itself and is forgotten.
    Forget,
    /// It is removed if it is empty, and forgotten then.
    RemoveIfEmpty,
}

/// What is done about a mounted directory whose encrypted form was not found. One that never had
/// one stays, and so does one whose metadata was changed.
pub open spec fn directory_track(
    tracker: SyncTracker,
    mount_root: PathView,
    path: PathView,
    encrypted_path: PathView,
    expected_directories: Set<PathKey>,
    protected: Set<PathKey>,
    exists: bool,
    metadata_hash: Option<Digest>,
) -> DirectoryTrack {
    if same_path(path, mount_root) || expected_directories.contains(path.key())
        || protected.contains(path.key())
        || !tracker.files.encrypted_directory_signatures@.contains_key(encrypted_path) {
        DirectoryTrack::Keep
    } else if !exists {
        DirectoryTrack::Forget
    } else if !digests_agree(
        tracker.files.decrypted_directory_metadata_hashes@,
        path,
        metadata_hash,
    ) {
        DirectoryTrack::Keep
    } else {
        DirectoryTrack::RemoveIfEmpty
    }
}

/// An encrypted file is removed at once only where a file with its identifier is mounted
/// elsewhere, is there, and is encrypted there under the same identifier.
pub proof fn removal_needs_a_new_home(
    tracker: SyncTracker,
    path: PathView,
    encrypted_path: PathView,
    current: Set<PathKey>,
    protected: Set<PathKey>,
    present: Set<PathKey>,
    facts: MissingFacts,
)
    requires
        removes_encrypted(
            missing_step(
                tracker,
                path,
                encrypted_path,
                current,
                protected,
                present,
                facts,
            ),
        ),
    ensures
        ({
            let place = place_of(
                path_values(tracker.files.file_id_to_mount_path@),
                opt_text(facts.encrypted_id),
                path,
                present,
            );
            &&& place is Some
            &&& !same_path(place->0, path)
            &&& present.contains(place->0.key())
            &&& facts.new_encrypted_exists
            &&& opt_text(facts.new_encrypted_id) == opt_text(facts.encrypted_id)
        }),
        !current.contains(path.key()),
        !protected.contains(path.key()),
        !tracker.work.pending_open_unlinked@.contains_key(path),
{
}

/// A deletion begins to be confirmed only for a file that was not found, was not waiting for room
/// and is not open.
pub proof fn pending_deletions_begin_with_absence(
    tracker: SyncTracker,
    path: PathView,
    encrypted_path: PathView,
    current: Set<PathKey>,
    protected: Set<PathKey>,
    present: Set<PathKey>,
    facts: MissingFacts,
)
    requires
        missing_step(tracker, path, encrypted_path, current, protected, present, facts)
            == MissingStep::NewlyPending,
    ensures
        !current.contains(path.key()),
        !protected.contains(path.key()),
        !tracker.work.pending_open_unlinked@.contains_key(path),
        !tracker.held.unsupported_hard_link_paths@.contains_key(path),
        facts.encrypted_exists,
{
}

} // verus!
