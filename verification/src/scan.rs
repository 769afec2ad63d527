//! What becomes of each file that is found in the mount.

use vstd::prelude::*;
use vstd::string::*;

use crate::config::STREAM_THRESHOLD_BYTES;
use crate::deletion::{
    content_in_doubt, digest_refreshed, digests_agree, locally_changed, refresh_digest,
};
use crate::errors::{error_message, opt_text};
use crate::held::{hard_link_held, released_mode, text_values};
use crate::local_only::{has_marker, is_conflict_file, is_recovered_pending_file};
use crate::names::{
    hard_link_block_reason, hard_link_reason, is_hard_linked, is_temp_like_name, temp_like,
    transactional_format_reason, transactional_reason,
};
use crate::path::{file_name_text, same_path, PathKey, PathSet, PathView, SyncPath, TextEntries};
use crate::pending::{
    path_values, same_digest, put_writeback, writeback_changes, writeback_recorded,
};
use crate::space::{low_space_readonly_error, readonly_message};
use crate::table::{filtered, TableKey};
use crate::tracker::{
    ClockNanos, Digest, FileLedger, FileSignature, HeldBack, PendingWork, StableEntry, SyncTracker,
    UtcNanos,
};

verus! {

/// How long a file with the name of a temporary file is left alone.
pub const TEMP_FILE_GRACE_SECS: u64 = 30;

/// At least so many seconds have passed.
pub open spec fn has_elapsed(clock: ClockNanos, since: ClockNanos, secs: u64) -> bool {
    (if clock >= since {
        clock - since
    } else {
        0
    }) >= secs * 1_000_000_000
}

/// Whether at least so many seconds have passed.
pub fn elapsed(clock: ClockNanos, since: ClockNanos, secs: u64) -> (res: bool)
    ensures
        res == has_elapsed(clock, since, secs),
{
    let passed: u64 = if clock >= since {
        clock - since
    } else {
        0
    };
    passed as u128 >= secs as u128 * 1_000_000_000u128
}

/// What a look at a mounted file and its encrypted form found.
#[derive(Debug, Clone, Copy)]
pub struct ScanFacts {
    pub signature: FileSignature,
    /// The number of names that the file has.
    pub links: u64,
    /// The permission bits of the file.
    pub mode: u32,
    pub encrypted_exists: bool,
    /// The digest of the content, where it is needed and could be taken.
    pub content_hash: Option<Digest>,
    pub metadata_hash: Option<Digest>,
    pub clock: ClockNanos,
    pub now: UtcNanos,
}

/// What a mounted file is to the sync.
#[derive(Debug, Clone, Copy, PartialEq, Eq, Structural)]
pub enum ScanGate {
    /// A conflict copy: it stays on this side.
    Conflict,
    /// A recovered copy: it stays on this side.
    Recovered,
    /// A file whose encrypted form is gone and which was not changed: it waits.
    Orphan,
    /// A file that may not last: it waits.
    Temporary,
    /// A file with more than one name: it is held back.
    HardLink,
    /// A file of a format that cannot be synced file by file: it is held back.
    Transactional,
    /// A file that is synced.
    Open,
}

/// The name of a path as text, or nothing.
pub open spec fn name_or_empty(path: PathView) -> Seq<char> {
    match file_name_text(path) {
        Some(name) => name,
        None => Seq::empty(),
    }
}

/// When a file with the name of a temporary file was first seen.
pub open spec fn first_seen(held: HeldBack, path: PathView, clock: ClockNanos) -> ClockNanos {
    if held.pending_temp@.contains_key(path) {
        held.pending_temp@[path]
    } else {
        clock
    }
}

/// The file is one whose encrypted form is gone, and was not changed.
pub open spec fn waits_as_orphan(tracker: SyncTracker, path: PathView, facts: ScanFacts) -> bool {
    !facts.encrypted_exists && tracker.work.pending_orphans@.contains_key(path) && !locally_changed(
        tracker,
        path,
        facts.signature,
        facts.content_hash,
        facts.metadata_hash,
    )
}

/// The file may not last, and was seen only a short time ago.
pub open spec fn waits_as_temporary(tracker: SyncTracker, path: PathView, facts: ScanFacts) -> bool {
    temp_like(name_or_empty(path)) && !facts.encrypted_exists && !has_elapsed(
        facts.clock,
        first_seen(tracker.held, path, facts.clock),
        TEMP_FILE_GRACE_SECS,
    )
}

/// What a mounted file is to the sync.
pub open spec fn gate_of(
    tracker: SyncTracker,
    mount_root: PathView,
    path: PathView,
    facts: ScanFacts,
) -> ScanGate {
    if has_marker(path, "conflict"@) {
        ScanGate::Conflict
    } else if has_marker(path, "recovered-pending"@) {
        ScanGate::Recovered
    } else if waits_as_orphan(tracker, path, facts) {
        ScanGate::Orphan
    } else if waits_as_temporary(tracker, path, facts) {
        ScanGate::Temporary
    } else if is_hard_linked(true, facts.links) {
        ScanGate::HardLink
    } else if transactional_reason(mount_root, path) is Some {
        ScanGate::Transactional
    } else {
        ScanGate::Open
    }
}

/// What was decided comes after the question whether the file is a copy that stays on this side.
pub open spec fn is_synced_name(gate: ScanGate) -> bool {
    gate != ScanGate::Conflict && gate != ScanGate::Recovered
}

/// The content was compared to tell whether an orphan was changed.
pub open spec fn orphan_was_compared(
    tracker: SyncTracker,
    path: PathView,
    facts: ScanFacts,
    gate: ScanGate,
) -> bool {
    is_synced_name(gate) && !facts.encrypted_exists && tracker.work.pending_orphans@.contains_key(
        path,
    ) && content_in_doubt(tracker, path, facts.signature)
}

/// The ledger after a mounted file passed a gate. Where the file stops there, it counts as seen.
pub open spec fn ledger_scanned(
    before: FileLedger,
    after: FileLedger,
    gate: ScanGate,
    compared: bool,
    path: PathView,
    facts: ScanFacts,
) -> bool {
    let metadata = if compared {
        digest_refreshed(before.decrypted_metadata_hashes@, path, facts.metadata_hash)
    } else {
        before.decrypted_metadata_hashes@
    };
    &&& after.decrypted_signatures@ == if gate == ScanGate::Open || gate == ScanGate::Recovered {
        before.decrypted_signatures@
    } else {
        before.decrypted_signatures@.insert(path, facts.signature)
    }
    &&& after.decrypted_hashes@ == if compared && facts.content_hash is Some {
        before.decrypted_hashes@.insert(path, facts.content_hash->0)
    } else {
        before.decrypted_hashes@
    }
    &&& after.decrypted_metadata_hashes@ == if gate == ScanGate::Conflict || gate
        == ScanGate::HardLink || gate == ScanGate::Transactional {
        digest_refreshed(metadata, path, facts.metadata_hash)
    } else {
        metadata
    }
    &&& after.file_id_to_mount_path@ == if gate == ScanGate::HardLink {
        filtered(
            before.file_id_to_mount_path@,
            |_id: Seq<char>, at: SyncPath| !same_path(at@, path),
        )
    } else {
        before.file_id_to_mount_path@
    }
    &&& after == (FileLedger {
        decrypted_signatures: after.decrypted_signatures,
        decrypted_hashes: after.decrypted_hashes,
        decrypted_metadata_hashes: after.decrypted_metadata_hashes,
        file_id_to_mount_path: after.file_id_to_mount_path,
        ..before
    })
}

/// The pending work after a mounted file passed a gate.
pub open spec fn work_scanned(
    before: PendingWork,
    after: PendingWork,
    gate: ScanGate,
    path: PathView,
    encrypted_path: PathView,
) -> bool {
    let past_orphans = is_synced_name(gate) && gate != ScanGate::Orphan;
    let blocked = gate == ScanGate::HardLink;
    let drops_writeback = blocked || gate == ScanGate::Transactional;
    &&& after.pending_open_unlinked@ == before.pending_open_unlinked@.remove(path)
    &&& after.pending_open_unlinked_dirty == (before.pending_open_unlinked_dirty
        || before.pending_open_unlinked@.contains_key(path))
    &&& after.pending_orphans@ == if past_orphans {
        before.pending_orphans@.remove(path)
    } else {
        before.pending_orphans@
    }
    &&& after.pending_orphans_dirty == (before.pending_orphans_dirty || (past_orphans
        && before.pending_orphans@.contains_key(path)))
    &&& after.pending_writebacks@ == if drops_writeback {
        before.pending_writebacks@.remove(path)
    } else {
        before.pending_writebacks@
    }
    &&& after.pending_writebacks_dirty == (before.pending_writebacks_dirty || (drops_writeback
        && before.pending_writebacks@.contains_key(path)))
    &&& after.pending_refreshes@ == if blocked {
        before.pending_refreshes@.remove(path)
    } else {
        before.pending_refreshes@
    }
    &&& after.pending_refreshes_dirty == (before.pending_refreshes_dirty || (blocked
        && before.pending_refreshes@.contains_key(path)))
    &&& after.pending_deletions@ == if blocked {
        before.pending_deletions@.remove(encrypted_path)
    } else {
        before.pending_deletions@
    }
    &&& after.pending_deletions_dirty == (before.pending_deletions_dirty || (blocked
        && before.pending_deletions@.contains_key(encrypted_path)))
    &&& after == (PendingWork {
        pending_open_unlinked: after.pending_open_unlinked,
        pending_open_unlinked_dirty: after.pending_open_unlinked_dirty,
        pending_orphans: after.pending_orphans,
        pending_orphans_dirty: after.pending_orphans_dirty,
        pending_writebacks: after.pending_writebacks,
        pending_writebacks_dirty: after.pending_writebacks_dirty,
        pending_refreshes: after.pending_refreshes,
        pending_refreshes_dirty: after.pending_refreshes_dirty,
        pending_deletions: after.pending_deletions,
        pending_deletions_dirty: after.pending_deletions_dirty,
        ..before
    })
}

/// What is held back after a mounted file passed a gate.
pub open spec fn held_scanned(
    before: HeldBack,
    after: HeldBack,
    gate: ScanGate,
    path: PathView,
    reason: Seq<char>,
    facts: ScanFacts,
) -> bool {
    match gate {
        ScanGate::Conflict | ScanGate::Recovered | ScanGate::Orphan => after == before,
        ScanGate::Temporary => {
            &&& after.pending_temp@ == if before.pending_temp@.contains_key(path) {
                before.pending_temp@
            } else {
                before.pending_temp@.insert(path, facts.clock)
            }
            &&& after == (HeldBack { pending_temp: after.pending_temp, ..before })
        },
        ScanGate::HardLink => hard_link_held(before, after, path, reason, facts.mode),
        ScanGate::Transactional | ScanGate::Open => {
            let blocked = gate == ScanGate::Transactional;
            &&& after.pending_temp@ == before.pending_temp@.remove(path)
            &&& after.pending_sparse@ == before.pending_sparse@.remove(path)
            &&& after.unsupported_hard_link_paths@ == before.unsupported_hard_link_paths@.remove(
                path,
            )
            &&& after.hard_link_block_restore_modes@
                == before.hard_link_block_restore_modes@.remove(path)
            &&& after.mount_readonly_restore_modes@ == if before.hard_link_block_restore_modes@
                .contains_key(path) && before.mount_readonly_active {
                before.mount_readonly_restore_modes@.insert(
                    path,
                    before.hard_link_block_restore_modes@[path],
                )
            } else {
                before.mount_readonly_restore_modes@
            }
            &&& text_values(after.unsupported_transactional_paths@) == if blocked {
                text_values(before.unsupported_transactional_paths@).insert(path, reason)
            } else {
                text_values(before.unsupported_transactional_paths@)
            }
            &&& after.pending_stable@ == if blocked {
                before.pending_stable@.remove(path)
            } else {
                before.pending_stable@
            }
            &&& after.mount_readonly_active == before.mount_readonly_active
        },
    }
}

/// The permissions that a mounted file gets when it passed a gate.
pub open spec fn scanned_mode(
    held: HeldBack,
    gate: ScanGate,
    path: PathView,
    facts: ScanFacts,
) -> Option<u32> {
    match gate {
        ScanGate::HardLink => if facts.mode & !0o222u32 != facts.mode {
            Some(facts.mode & !0o222u32)
        } else {
            None
        },
        ScanGate::Transactional | ScanGate::Open => released_mode(held, path, true),
        _ => None,
    }
}

/// Why a mounted file is held back at a gate.
pub open spec fn gate_reason(
    mount_root: PathView,
    path: PathView,
    links: u64,
    gate: ScanGate,
) -> Seq<char> {
    match gate {
        ScanGate::HardLink => hard_link_reason(path.text, true, links)->0,
        ScanGate::Transactional => transactional_reason(mount_root, path)->0,
        _ => Seq::empty(),
    }
}

impl FileLedger {
    fn scan(
        &mut self,
        gate: ScanGate,
        compared: bool,
        path: &SyncPath,
        facts: ScanFacts,
    )
        requires
            old(self).wf(),
        ensures
            final(self).wf(),
            ledger_scanned(*old(self), *final(self), gate, compared, path@, facts),
    {
        if compared {
            if let Some(h) = facts.content_hash {
                self.decrypted_hashes.insert(path.duplicate(), h);
            }
            refresh_digest(&mut self.decrypted_metadata_hashes, path, facts.metadata_hash);
        }
        match gate {
            ScanGate::Open | ScanGate::Recovered => {},
            _ => {
                self.decrypted_signatures.insert(path.duplicate(), facts.signature);
            },
        }
        match gate {
            ScanGate::Conflict | ScanGate::HardLink | ScanGate::Transactional => {
                refresh_digest(&mut self.decrypted_metadata_hashes, path, facts.metadata_hash);
            },
            _ => {},
        }
        if gate == ScanGate::HardLink {
            let keep = |_id: &String, at: &SyncPath| -> (res: bool)
                ensures
                    res == !same_path(at@, path@),
                { !at.same(path) };
            self.file_id_to_mount_path.retain(
                keep,
                Ghost(|_id: Seq<char>, at: SyncPath| !same_path(at@, path@)),
            );
        }
    }
}

impl PendingWork {
    fn scan(&mut self, gate: ScanGate, path: &SyncPath, encrypted_path: &SyncPath)
        requires
            old(self).wf(),
        ensures
            final(self).wf(),
            work_scanned(*old(self), *final(self), gate, path@, encrypted_path@),
    {
        if self.pending_open_unlinked.remove(path).is_some() {
            self.pending_open_unlinked_dirty = true;
        }
        match gate {
            ScanGate::Conflict | ScanGate::Recovered | ScanGate::Orphan => {},
            _ => {
                if self.pending_orphans.remove(path).is_some() {
                    self.pending_orphans_dirty = true;
                }
            },
        }
        match gate {
            ScanGate::HardLink | ScanGate::Transactional => {
                if self.pending_writebacks.remove(path).is_some() {
                    self.pending_writebacks_dirty = true;
                }
            },
            _ => {},
        }
        if gate == ScanGate::HardLink {
            if self.pending_refreshes.remove(path).is_some() {
                self.pending_refreshes_dirty = true;
            }
            if self.pending_deletions.remove(encrypted_path).is_some() {
                self.pending_deletions_dirty = true;
            }
        }
    }
}

impl HeldBack {
    fn scan(&mut self, gate: ScanGate, path: &SyncPath, reason: &str, facts: ScanFacts) -> (res:
        Option<u32>)
        requires
            old(self).wf(),
        ensures
            final(self).wf(),
            held_scanned(*old(self), *final(self), gate, path@, reason@, facts),
            res == scanned_mode(*old(self), gate, path@, facts),
    {
        match gate {
            ScanGate::Conflict | ScanGate::Recovered | ScanGate::Orphan => None,
            ScanGate::Temporary => {
                if !self.pending_temp.contains_key(path) {
                    self.pending_temp.insert(path.duplicate(), facts.clock);
                }
                None
            },
            ScanGate::HardLink => self.hold_hard_link(path, reason, facts.mode),
            ScanGate::Transactional => {
                self.pending_temp.remove(path);
                self.pending_sparse.remove(path);
                let res = self.release_hard_link(path, true);
                let ghost before = self.unsupported_transactional_paths@;
                self.unsupported_transactional_paths.insert(path.duplicate(), reason.to_owned());
                assert(text_values(self.unsupported_transactional_paths@) =~= text_values(
                    before,
                ).insert(path@, reason@));
                self.pending_stable.remove(path);
                res
            },
            ScanGate::Open => {
                self.pending_temp.remove(path);
                self.pending_sparse.remove(path);
                self.release_hard_link(path, true)
            },
        }
    }
}

impl SyncTracker {
    /// What a mounted file is to the sync.
    pub fn scan_gate(&self, mount_root: &SyncPath, path: &SyncPath, facts: ScanFacts) -> (res:
        ScanGate)
        requires
            self.wf(),
        ensures
            res == gate_of(*self, mount_root@, path@, facts),
    {
        if is_conflict_file(path) {
            return ScanGate::Conflict;
        }
        if is_recovered_pending_file(path) {
            return ScanGate::Recovered;
        }
        if !facts.encrypted_exists && self.work.pending_orphans.contains_key(path)
            && !self.looks_changed(
            path,
            facts.signature,
            facts.content_hash,
            facts.metadata_hash,
        ) {
            return ScanGate::Orphan;
        }
        if !facts.encrypted_exists {
            let temporary = match path.file_name_text() {
                Some(name) => is_temp_like_name(name.as_str()),
                None => is_temp_like_name(""),
            };
            proof {
                reveal_strlit("");
                assert(""@ =~= Seq::<char>::empty());
            }
            if temporary {
                let since: ClockNanos = match self.held.pending_temp.get(path) {
                    Some(seen) => *seen,
                    None => facts.clock,
                };
                if !elapsed(facts.clock, since, TEMP_FILE_GRACE_SECS) {
                    return ScanGate::Temporary;
                }
            }
        }
        if hard_link_block_reason(path, true, facts.links).is_some() {
            return ScanGate::HardLink;
        }
        if transactional_format_reason(mount_root, path).is_some() {
            return ScanGate::Transactional;
        }
        ScanGate::Open
    }

    /// Takes note of a mounted file that was found. Gives what the file is to the sync, and the
    /// permissions that it gets where they change.
    pub fn scan_file(
        &mut self,
        mount_root: &SyncPath,
        path: &SyncPath,
        encrypted_path: &SyncPath,
        facts: ScanFacts,
    ) -> (res: (ScanGate, Option<u32>))
        requires
            old(self).wf(),
        ensures
            final(self).wf(),
            res.0 == gate_of(*old(self), mount_root@, path@, facts),
            res.1 == scanned_mode(old(self).held, res.0, path@, facts),
            ledger_scanned(
                old(self).files,
                final(self).files,
                res.0,
                orphan_was_compared(*old(self), path@, facts, res.0),
                path@,
                facts,
            ),
            work_scanned(old(self).work, final(self).work, res.0, path@, encrypted_path@),
            held_scanned(
                old(self).held,
                final(self).held,
                res.0,
                path@,
                gate_reason(mount_root@, path@, facts.links, res.0),
                facts,
            ),
            *final(self) == (SyncTracker {
                files: final(self).files,
                work: final(self).work,
                held: final(self).held,
                ..*old(self)
            }),
    {
        let gate = self.scan_gate(mount_root, path, facts);
        let synced_name = match gate {
            ScanGate::Conflict | ScanGate::Recovered => false,
            _ => true,
        };
        let compared = synced_name && !facts.encrypted_exists
            && self.work.pending_orphans.contains_key(path) && self.needs_content_check(
            path,
            facts.signature,
        );
        let reason: String = match gate {
            ScanGate::HardLink => match hard_link_block_reason(path, true, facts.links) {
                Some(reason) => reason,
                None => "".to_owned(),
            },
            ScanGate::Transactional => match transactional_format_reason(mount_root, path) {
                Some(reason) => reason,
                None => "".to_owned(),
            },
            _ => "".to_owned(),
        };
        proof {
            reveal_strlit("");
            assert(""@ =~= Seq::<char>::empty());
        }
        self.files.scan(gate, compared, path, facts);
        self.work.scan(gate, path, encrypted_path);
        let mode = self.held.scan(gate, path, reason.as_str(), facts);
        (gate, mode)
    }
}

/// Another file that is there has the identifier of a mounted file.
pub open spec fn id_is_taken(
    ids: TextEntries<PathView>,
    id: Option<Seq<char>>,
    path: PathView,
    present: Set<PathKey>,
) -> bool {
    match id {
        Some(text) => ids.contains_key(text) && !same_path(ids[text], path) && present.contains(
            ids[text].key(),
        ),
        None => false,
    }
}

/// The identifiers after that of a mounted file was settled.
pub open spec fn ids_settled(
    ids: TextEntries<PathView>,
    id: Option<Seq<char>>,
    path: PathView,
    present: Set<PathKey>,
) -> TextEntries<PathView> {
    if id is Some && !id_is_taken(ids, id, path, present) {
        ids.insert(id->0, path)
    } else {
        ids
    }
}

/// How much of a file is read for its digest at most, where none is known yet.
pub open spec fn baseline_limit(threshold: u64) -> u64 {
    if threshold == 0 {
        STREAM_THRESHOLD_BYTES
    } else {
        threshold
    }
}

/// A mounted file with an encrypted form differs only in the time of change of its metadata.
pub open spec fn only_touched(tracker: SyncTracker, path: PathView, facts: ScanFacts) -> bool {
    facts.encrypted_exists && content_in_doubt(tracker, path, facts.signature)
}

/// The digest of the content is taken of a file that was only touched: one is known, or the file
/// is not too large.
pub open spec fn digest_wanted(tracker: SyncTracker, path: PathView, len: u64) -> bool {
    tracker.files.decrypted_hashes@.contains_key(path) || len <= baseline_limit(
        tracker.settings.stream_threshold_bytes,
    )
}

/// A file that was only touched is not encrypted anew: its metadata agrees, and so does its
/// content where a digest of it is known. Where none is known, it must have been possible to take
/// one, unless the file is too large for that.
pub open spec fn touch_is_harmless(tracker: SyncTracker, path: PathView, facts: ScanFacts) -> bool {
    let known = tracker.files.decrypted_hashes@;
    digests_agree(tracker.files.decrypted_metadata_hashes@, path, facts.metadata_hash) && if known
        .contains_key(path) {
        facts.content_hash == Some(known[path])
    } else if facts.signature.len <= baseline_limit(tracker.settings.stream_threshold_bytes) {
        facts.content_hash is Some
    } else {
        true
    }
}

/// What is done with a mounted file that is synced.
#[derive(Debug, Clone, Copy, PartialEq, Eq, Structural)]
pub enum ContentStep {
    /// It is as it was encrypted.
    Unchanged,
    /// It has to stay the same for a while first.
    WaitStable,
    /// There is no room to encrypt it.
    WaitSpace,
    /// It is encrypted now.
    Encrypt,
}

/// The file is large enough to be encrypted piece by piece.
pub open spec fn streams(threshold: u64, len: u64) -> bool {
    threshold != 0 && len >= threshold
}

/// The file was the same long enough: in two scans, and for some time where it is large.
pub open spec fn is_stable(tracker: SyncTracker, path: PathView, facts: ScanFacts) -> bool {
    let stable = tracker.held.pending_stable@;
    let age = tracker.settings.stream_stability_age_secs;
    stable.contains_key(path) && stable[path].signature == facts.signature && (streams(
        tracker.settings.stream_threshold_bytes,
        facts.signature.len,
    ) && age > 0 ==> has_elapsed(facts.clock, stable[path].first_seen, age))
}

/// A mounted file has to be encrypted: it has no encrypted form, or it was changed.
pub open spec fn needs_encryption(tracker: SyncTracker, path: PathView, facts: ScanFacts) -> bool {
    let known = tracker.files.decrypted_signatures@;
    !(only_touched(tracker, path, facts) && touch_is_harmless(tracker, path, facts)) && (
    !facts.encrypted_exists || !known.contains_key(path) || known[path] != facts.signature)
}

/// What is done with a mounted file that is synced.
pub open spec fn content_step(tracker: SyncTracker, path: PathView, facts: ScanFacts) -> ContentStep {
    if !needs_encryption(tracker, path, facts) {
        ContentStep::Unchanged
    } else if !is_stable(tracker, path, facts) {
        ContentStep::WaitStable
    } else if tracker.held.mount_readonly_active {
        ContentStep::WaitSpace
    } else {
        ContentStep::Encrypt
    }
}

/// The digests after the content of a mounted file was looked at.
pub open spec fn digests_noted(
    before: FileLedger,
    after: FileLedger,
    step: ContentStep,
    touched: bool,
    wanted: bool,
    path: PathView,
    facts: ScanFacts,
) -> bool {
    let metadata = if touched {
        digest_refreshed(before.decrypted_metadata_hashes@, path, facts.metadata_hash)
    } else {
        before.decrypted_metadata_hashes@
    };
    &&& after.decrypted_hashes@ == if touched && wanted && facts.content_hash is Some {
        before.decrypted_hashes@.insert(path, facts.content_hash->0)
    } else {
        before.decrypted_hashes@
    }
    &&& after.decrypted_metadata_hashes@ == if step == ContentStep::WaitStable {
        digest_refreshed(metadata, path, facts.metadata_hash)
    } else {
        metadata
    }
    &&& after == (FileLedger {
        decrypted_hashes: after.decrypted_hashes,
        decrypted_metadata_hashes: after.decrypted_metadata_hashes,
        ..before
    })
}

/// The files that are waited for to stay the same, after a mounted file was looked at.
pub open spec fn stable_noted(
    before: HeldBack,
    after: HeldBack,
    step: ContentStep,
    skipped: bool,
    path: PathView,
    facts: ScanFacts,
) -> bool {
    let stable = before.pending_stable@;
    &&& after.pending_stable@ == match step {
        ContentStep::WaitStable | ContentStep::WaitSpace => stable.insert(
            path,
            StableEntry { signature: facts.signature, first_seen: facts.clock },
        ),
        ContentStep::Encrypt => stable.remove(path),
        ContentStep::Unchanged => if skipped {
            stable.remove(path)
        } else {
            stable
        },
    }
    &&& after == (HeldBack { pending_stable: after.pending_stable, ..before })
}

/// The message with which a file waits for room.
pub open spec fn refusal_message(shown: Seq<char>) -> Seq<char> {
    "Format error: "@ + readonly_message(shown)
}

/// The pending writebacks after a mounted file was looked at: it waits, with the reason where room
/// is short, and no longer does where it turned out to be unchanged.
pub open spec fn writeback_noted(
    before: PendingWork,
    after: PendingWork,
    step: ContentStep,
    skipped: bool,
    path: PathView,
    encrypted_path: PathView,
    now: UtcNanos,
) -> bool {
    let writebacks = before.pending_writebacks@;
    &&& after == (PendingWork {
        pending_writebacks: after.pending_writebacks,
        pending_writebacks_dirty: after.pending_writebacks_dirty,
        ..before
    })
    &&& match step {
        ContentStep::Unchanged => {
            &&& after.pending_writebacks@ == if skipped {
                writebacks.remove(path)
            } else {
                writebacks
            }
            &&& after.pending_writebacks_dirty == (before.pending_writebacks_dirty || (skipped
                && writebacks.contains_key(path)))
        },
        ContentStep::WaitSpace => {
            &&& writeback_recorded(
                writebacks,
                after.pending_writebacks@,
                path,
                encrypted_path,
                Some(refusal_message(path.text)),
                true,
                now,
            )
            &&& after.pending_writebacks_dirty
        },
        ContentStep::WaitStable | ContentStep::Encrypt => {
            &&& writeback_recorded(
                writebacks,
                after.pending_writebacks@,
                path,
                encrypted_path,
                None,
                false,
                now,
            )
            &&& after.pending_writebacks_dirty == (before.pending_writebacks_dirty
                || writeback_changes(writebacks, path, encrypted_path, None, false, now))
        },
    }
}

impl FileLedger {
    fn note_digests(
        &mut self,
        step: ContentStep,
        touched: bool,
        wanted: bool,
        path: &SyncPath,
        facts: ScanFacts,
    )
        requires
            old(self).wf(),
        ensures
            final(self).wf(),
            digests_noted(*old(self), *final(self), step, touched, wanted, path@, facts),
    {
        if touched {
            if wanted {
                if let Some(h) = facts.content_hash {
                    self.decrypted_hashes.insert(path.duplicate(), h);
                }
            }
            refresh_digest(&mut self.decrypted_metadata_hashes, path, facts.metadata_hash);
        }
        if step == ContentStep::WaitStable {
            refresh_digest(&mut self.decrypted_metadata_hashes, path, facts.metadata_hash);
        }
    }
}

impl HeldBack {
    fn note_stable(&mut self, step: ContentStep, skipped: bool, path: &SyncPath, facts: ScanFacts)
        requires
            old(self).wf(),
        ensures
            final(self).wf(),
            stable_noted(*old(self), *final(self), step, skipped, path@, facts),
    {
        match step {
            ContentStep::WaitStable | ContentStep::WaitSpace => {
                self.pending_stable.insert(
                    path.duplicate(),
                    StableEntry { signature: facts.signature, first_seen: facts.clock },
                );
            },
            ContentStep::Encrypt => {
                self.pending_stable.remove(path);
            },
            ContentStep::Unchanged => {
                if skipped {
                    self.pending_stable.remove(path);
                }
            },
        }
    }
}

impl PendingWork {
    /// Notes that a file waits to be encrypted.
    pub(crate) fn await_encryption(
        &mut self,
        path: &SyncPath,
        encrypted_path: &SyncPath,
        now: UtcNanos,
    )
        requires
            old(self).wf(),
        ensures
            final(self).wf(),
            writeback_recorded(
                old(self).pending_writebacks@,
                final(self).pending_writebacks@,
                path@,
                encrypted_path@,
                None,
                false,
                now,
            ),
            final(self).pending_writebacks_dirty == (old(self).pending_writebacks_dirty
                || writeback_changes(
                old(self).pending_writebacks@,
                path@,
                encrypted_path@,
                None,
                false,
                now,
            )),
            *final(self) == (PendingWork {
                pending_writebacks: final(self).pending_writebacks,
                pending_writebacks_dirty: final(self).pending_writebacks_dirty,
                ..*old(self)
            }),
    {
        if put_writeback(&mut self.pending_writebacks, path, encrypted_path, None, false, now) {
            self.pending_writebacks_dirty = true;
        }
    }

    /// Notes that a file waits to be encrypted, and for room.
    pub(crate) fn await_space(
        &mut self,
        path: &SyncPath,
        encrypted_path: &SyncPath,
        now: UtcNanos,
    )
        requires
            old(self).wf(),
        ensures
            final(self).wf(),
            writeback_recorded(
                old(self).pending_writebacks@,
                final(self).pending_writebacks@,
                path@,
                encrypted_path@,
                Some(refusal_message(path@.text)),
                true,
                now,
            ),
            final(self).pending_writebacks_dirty,
            *final(self) == (PendingWork {
                pending_writebacks: final(self).pending_writebacks,
                pending_writebacks_dirty: true,
                ..*old(self)
            }),
    {
        let ghost writebacks = self.pending_writebacks@;
        put_writeback(&mut self.pending_writebacks, path, encrypted_path, None, false, now);
        let err = low_space_readonly_error(path);
        proof {
            reveal(error_message);
        }
        put_writeback(
            &mut self.pending_writebacks,
            path,
            encrypted_path,
            Some(err.message()),
            true,
            now,
        );
        proof {
            let after = self.pending_writebacks@;
            assert(after =~= writebacks.insert(path@, after[path@]));
        }
        self.pending_writebacks_dirty = true;
    }

    fn note_writeback(
        &mut self,
        step: ContentStep,
        skipped: bool,
        path: &SyncPath,
        encrypted_path: &SyncPath,
        now: UtcNanos,
    )
        requires
            old(self).wf(),
        ensures
            final(self).wf(),
            writeback_noted(
                *old(self),
                *final(self),
                step,
                skipped,
                path@,
                encrypted_path@,
                now,
            ),
    {
        match step {
            ContentStep::Unchanged => {
                if skipped {
                    if self.pending_writebacks.remove(path).is_some() {
                        self.pending_writebacks_dirty = true;
                    }
                }
            },
            ContentStep::WaitSpace => {
                self.await_space(path, encrypted_path, now);
            },
            ContentStep::WaitStable | ContentStep::Encrypt => {
                self.await_encryption(path, encrypted_path, now);
            },
        }
    }
}

impl SyncTracker {
    /// Settles the identifier of a mounted file. Where another file that is there has it, it is
    /// to be taken off this one.
    pub fn settle_file_id(&mut self, path: &SyncPath, id: Option<String>, present: &PathSet) -> (
    taken: bool)
        requires
            old(self).wf(),
            present.wf(),
        ensures
            final(self).wf(),
            taken == id_is_taken(
                path_values(old(self).files.file_id_to_mount_path@),
                opt_text(id),
                path@,
                present@.keys(),
            ),
            path_values(final(self).files.file_id_to_mount_path@) == ids_settled(
                path_values(old(self).files.file_id_to_mount_path@),
                opt_text(id),
                path@,
                present@.keys(),
            ),
            *final(self) == (SyncTracker { files: final(self).files, ..*old(self) }),
            final(self).files == (FileLedger {
                file_id_to_mount_path: final(self).files.file_id_to_mount_path,
                ..old(self).files
            }),
    {
        match id {
            Some(text) => {
                if let Some(other) = self.files.file_id_to_mount_path.get(&text) {
                    if !other.same(path) && present.contains_key(other) {
                        return true;
                    }
                }
                let ghost before = self.files.file_id_to_mount_path@;
                let ghost key = text@;
                self.files.file_id_to_mount_path.insert(text, path.duplicate());
                assert(path_values(self.files.file_id_to_mount_path@) =~= path_values(
                    before,
                ).insert(key, path@));
                false
            },
            None => false,
        }
    }

    /// Whether a file is large enough to be encrypted piece by piece.
    pub fn should_stream_file(&self, size_bytes: u64) -> (res: bool)
        ensures
            res == streams(self.settings.stream_threshold_bytes, size_bytes),
    {
        self.settings.stream_threshold_bytes != 0 && size_bytes
            >= self.settings.stream_threshold_bytes
    }

    /// Whether the digest of a mounted file's content has to be taken to tell what is done with
    /// it.
    pub fn wants_content_hash(
        &self,
        path: &SyncPath,
        signature: FileSignature,
        encrypted_exists: bool,
    ) -> (res: bool)
        requires
            self.wf(),
        ensures
            res == (encrypted_exists && content_in_doubt(*self, path@, signature) && digest_wanted(
                *self,
                path@,
                signature.len,
            )),
    {
        encrypted_exists && self.needs_content_check(path, signature) && (
        self.files.decrypted_hashes.contains_key(path) || signature.len <= self.hash_limit())
    }

    fn hash_limit(&self) -> (res: u64)
        ensures
            res == baseline_limit(self.settings.stream_threshold_bytes),
    {
        if self.settings.stream_threshold_bytes == 0 {
            STREAM_THRESHOLD_BYTES
        } else {
            self.settings.stream_threshold_bytes
        }
    }

    fn harmless(&self, path: &SyncPath, facts: ScanFacts) -> (res: bool)
        requires
            self.wf(),
        ensures
            res == (only_touched(*self, path@, facts) && touch_is_harmless(*self, path@, facts)),
    {
        if !facts.encrypted_exists || !self.needs_content_check(path, facts.signature) {
            return false;
        }
        if !crate::deletion::check_digest(
            &self.files.decrypted_metadata_hashes,
            path,
            facts.metadata_hash,
        ) {
            return false;
        }
        match self.files.decrypted_hashes.get(path) {
            Some(previous) => match facts.content_hash {
                Some(current) => same_digest(previous, &current),
                None => false,
            },
            None => facts.signature.len > self.hash_limit() || facts.content_hash.is_some(),
        }
    }

    fn stable_ready(&self, path: &SyncPath, facts: ScanFacts) -> (res: bool)
        requires
            self.wf(),
        ensures
            res == is_stable(*self, path@, facts),
    {
        match self.held.pending_stable.get(path) {
            Some(entry) => {
                if !(entry.signature == facts.signature) {
                    false
                } else if self.should_stream_file(facts.signature.len)
                    && self.settings.stream_stability_age_secs > 0 {
                    elapsed(
                        facts.clock,
                        entry.first_seen,
                        self.settings.stream_stability_age_secs,
                    )
                } else {
                    true
                }
            },
            None => false,
        }
    }

    /// Looks at a mounted file that is synced, and says whether it is encrypted now.
    pub fn scan_content(
        &mut self,
        path: &SyncPath,
        encrypted_path: &SyncPath,
        facts: ScanFacts,
    ) -> (res: ContentStep)
        requires
            old(self).wf(),
        ensures
            final(self).wf(),
            res == content_step(*old(self), path@, facts),
            digests_noted(
                old(self).files,
                final(self).files,
                res,
                only_touched(*old(self), path@, facts),
                digest_wanted(*old(self), path@, facts.signature.len),
                path@,
                facts,
            ),
            ({
                let skipped = only_touched(*old(self), path@, facts) && touch_is_harmless(
                    *old(self),
                    path@,
                    facts,
                );
                &&& stable_noted(old(self).held, final(self).held, res, skipped, path@, facts)
                &&& writeback_noted(
                    old(self).work,
                    final(self).work,
                    res,
                    skipped,
                    path@,
                    encrypted_path@,
                    facts.now,
                )
            }),
            *final(self) == (SyncTracker {
                files: final(self).files,
                work: final(self).work,
                held: final(self).held,
                ..*old(self)
            }),
    {
        let skip = self.harmless(path, facts);
        let same = match self.files.decrypted_signatures.get(path) {
            Some(stored) => *stored == facts.signature,
            None => false,
        };
        let stable = self.stable_ready(path, facts);
        let step = if skip || (facts.encrypted_exists && same) {
            ContentStep::Unchanged
        } else if !stable {
            ContentStep::WaitStable
        } else if self.held.mount_readonly_active {
            ContentStep::WaitSpace
        } else {
            ContentStep::Encrypt
        };
        let touched = facts.encrypted_exists && self.needs_content_check(path, facts.signature);
        let wanted = self.files.decrypted_hashes.contains_key(path) || facts.signature.len
            <= self.hash_limit();
        self.files.note_digests(step, touched, wanted, path, facts);
        self.held.note_stable(step, skip, path, facts);
        self.work.note_writeback(step, skip, path, encrypted_path, facts.now);
        step
    }
}

} // verus!
