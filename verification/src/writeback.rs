//! Encrypting mounted files: what follows on it, and trying again.

use vstd::prelude::*;
use vstd::string::*;

use crate::deletion::digest_refreshed;
use crate::errors::{error_message, is_low_space_error, low_space_error, MountSyncError};
use crate::exclusion::{excluded, texts};
use crate::local_only::{has_marker, is_conflict_file, is_recovered_pending_file};
use crate::path::{PathMap, PathView, SyncPath};
use crate::path_order::{ranked, sort_ranked, Ranked};
use crate::pending::{path_values, put_writeback, writeback_changes, writeback_recorded};
use crate::scan::{elapsed, has_elapsed, refusal_message, streams};
use crate::space::low_space_readonly_error;
use crate::status::{drains_fast, should_fast_drain_pending_writeback};
use crate::tracker::{
    ClockNanos, Digest, FileLedger, FileSignature, HeldBack, PendingWork, PendingWriteback,
    StableEntry, SyncTracker, UtcNanos,
};

verus! {

/// The pending writebacks after a file was encrypted, or was found to be left out.
pub open spec fn writeback_cleared(before: PendingWork, after: PendingWork, path: PathView) -> bool {
    &&& after.pending_writebacks@ == before.pending_writebacks@.remove(path)
    &&& after.pending_writebacks_dirty == (before.pending_writebacks_dirty
        || before.pending_writebacks@.contains_key(path))
    &&& after == (PendingWork {
        pending_writebacks: after.pending_writebacks,
        pending_writebacks_dirty: after.pending_writebacks_dirty,
        ..before
    })
}

/// The pending writebacks after a file could not be encrypted.
pub open spec fn writeback_failed(
    before: PendingWork,
    after: PendingWork,
    path: PathView,
    encrypted_path: PathView,
    err: MountSyncError,
    now: UtcNanos,
) -> bool {
    &&& writeback_recorded(
        before.pending_writebacks@,
        after.pending_writebacks@,
        path,
        encrypted_path,
        Some(error_message(err)),
        low_space_error(err),
        now,
    )
    &&& after.pending_writebacks_dirty == (before.pending_writebacks_dirty || writeback_changes(
        before.pending_writebacks@,
        path,
        encrypted_path,
        Some(error_message(err)),
        low_space_error(err),
        now,
    ))
    &&& after == (PendingWork {
        pending_writebacks: after.pending_writebacks,
        pending_writebacks_dirty: after.pending_writebacks_dirty,
        ..before
    })
}

/// A file is waited for again to stay the same.
pub open spec fn waits_again(
    before: HeldBack,
    after: HeldBack,
    path: PathView,
    signature: FileSignature,
    clock: ClockNanos,
) -> bool {
    &&& after.pending_stable@ == before.pending_stable@.insert(
        path,
        StableEntry { signature, first_seen: clock },
    )
    &&& after == (HeldBack { pending_stable: after.pending_stable, ..before })
}

/// The ledger after a file was encrypted: its encrypted form and its identifier are known.
pub open spec fn encryption_noted(
    before: FileLedger,
    after: FileLedger,
    path: PathView,
    encrypted_path: PathView,
    encrypted_signature: FileSignature,
    file_id: Seq<char>,
) -> bool {
    &&& after.encrypted_signatures@ == before.encrypted_signatures@.insert(
        encrypted_path,
        encrypted_signature,
    )
    &&& path_values(after.file_id_to_mount_path@) == path_values(
        before.file_id_to_mount_path@,
    ).insert(file_id, path)
    &&& after == (FileLedger {
        encrypted_signatures: after.encrypted_signatures,
        file_id_to_mount_path: after.file_id_to_mount_path,
        ..before
    })
}

/// The ledger after a mounted file was looked at to the end: it counts as seen.
pub open spec fn scan_noted(
    before: FileLedger,
    after: FileLedger,
    path: PathView,
    encrypted_path: PathView,
    signature: FileSignature,
    metadata_hash: Option<Digest>,
    encrypted_signature: Option<FileSignature>,
) -> bool {
    &&& after.decrypted_signatures@ == before.decrypted_signatures@.insert(path, signature)
    &&& after.decrypted_metadata_hashes@ == digest_refreshed(
        before.decrypted_metadata_hashes@,
        path,
        metadata_hash,
    )
    &&& after.encrypted_signatures@ == if encrypted_signature is Some
        && !before.encrypted_signatures@.contains_key(encrypted_path) {
        before.encrypted_signatures@.insert(encrypted_path, encrypted_signature->0)
    } else {
        before.encrypted_signatures@
    }
    &&& after == (FileLedger {
        decrypted_signatures: after.decrypted_signatures,
        decrypted_metadata_hashes: after.decrypted_metadata_hashes,
        encrypted_signatures: after.encrypted_signatures,
        ..before
    })
}

impl PendingWork {
    pub(crate) fn drop_writeback(&mut self, path: &SyncPath)
        requires
            old(self).wf(),
        ensures
            final(self).wf(),
            writeback_cleared(*old(self), *final(self), path@),
    {
        if self.pending_writebacks.remove(path).is_some() {
            self.pending_writebacks_dirty = true;
        }
    }

    pub(crate) fn fail_writeback(
        &mut self,
        path: &SyncPath,
        encrypted_path: &SyncPath,
        err: &MountSyncError,
        now: UtcNanos,
    )
        requires
            old(self).wf(),
        ensures
            final(self).wf(),
            writeback_failed(*old(self), *final(self), path@, encrypted_path@, *err, now),
    {
        let message = err.message();
        let low = is_low_space_error(err);
        if put_writeback(
            &mut self.pending_writebacks,
            path,
            encrypted_path,
            Some(message),
            low,
            now,
        ) {
            self.pending_writebacks_dirty = true;
        }
    }
}

impl HeldBack {
    fn wait_again(&mut self, path: &SyncPath, signature: FileSignature, clock: ClockNanos)
        requires
            old(self).wf(),
        ensures
            final(self).wf(),
            waits_again(*old(self), *final(self), path@, signature, clock),
    {
        self.pending_stable.insert(path.duplicate(), StableEntry { signature, first_seen: clock });
    }
}

impl FileLedger {
    fn note_encryption(
        &mut self,
        path: &SyncPath,
        encrypted_path: &SyncPath,
        encrypted_signature: FileSignature,
        file_id: String,
    )
        requires
            old(self).wf(),
        ensures
            final(self).wf(),
            encryption_noted(
                *old(self),
                *final(self),
                path@,
                encrypted_path@,
                encrypted_signature,
                file_id@,
            ),
    {
        let ghost ids = self.file_id_to_mount_path@;
        let ghost id = file_id@;
        self.encrypted_signatures.insert(encrypted_path.duplicate(), encrypted_signature);
        self.file_id_to_mount_path.insert(file_id, path.duplicate());
        assert(path_values(self.file_id_to_mount_path@) =~= path_values(ids).insert(id, path@));
    }

    fn note_scan(
        &mut self,
        path: &SyncPath,
        encrypted_path: &SyncPath,
        signature: FileSignature,
        metadata_hash: Option<Digest>,
        encrypted_signature: Option<FileSignature>,
    )
        requires
            old(self).wf(),
        ensures
            final(self).wf(),
            scan_noted(
                *old(self),
                *final(self),
                path@,
                encrypted_path@,
                signature,
                metadata_hash,
                encrypted_signature,
            ),
    {
        self.decrypted_signatures.insert(path.duplicate(), signature);
        crate::deletion::refresh_digest(&mut self.decrypted_metadata_hashes, path, metadata_hash);
        if let Some(sig) = encrypted_signature {
            if !self.encrypted_signatures.contains_key(encrypted_path) {
                self.encrypted_signatures.insert(encrypted_path.duplicate(), sig);
            }
        }
    }
}

impl SyncTracker {
    /// Takes note of how the encryption of a mounted file went. Says whether the file counts as
    /// seen. One that could not be encrypted waits, with the error; one that is left out does
    /// not.
    pub fn finish_scan_encryption(
        &mut self,
        path: &SyncPath,
        encrypted_path: &SyncPath,
        signature: FileSignature,
        outcome: Result<(FileSignature, String), MountSyncError>,
        clock: ClockNanos,
        now: UtcNanos,
    ) -> (seen: bool)
        requires
            old(self).wf(),
        ensures
            final(self).wf(),
            seen == (outcome is Ok),
            match outcome {
                Ok((encrypted_signature, file_id)) => {
                    &&& encryption_noted(
                        old(self).files,
                        final(self).files,
                        path@,
                        encrypted_path@,
                        encrypted_signature,
                        file_id@,
                    )
                    &&& writeback_cleared(old(self).work, final(self).work, path@)
                    &&& final(self).held == old(self).held
                },
                Err(err) => {
                    &&& final(self).files == old(self).files
                    &&& if err is PathExcluded {
                        &&& writeback_cleared(old(self).work, final(self).work, path@)
                        &&& final(self).held == old(self).held
                    } else {
                        &&& writeback_failed(
                            old(self).work,
                            final(self).work,
                            path@,
                            encrypted_path@,
                            err,
                            now,
                        )
                        &&& waits_again(
                            old(self).held,
                            final(self).held,
                            path@,
                            signature,
                            clock,
                        )
                    }
                },
            },
            *final(self) == (SyncTracker {
                files: final(self).files,
                work: final(self).work,
                held: final(self).held,
                ..*old(self)
            }),
    {
        match outcome {
            Ok((encrypted_signature, file_id)) => {
                self.files.note_encryption(path, encrypted_path, encrypted_signature, file_id);
                self.work.drop_writeback(path);
                true
            },
            Err(err) => {
                let left_out = match &err {
                    MountSyncError::PathExcluded(_) => true,
                    _ => false,
                };
                if left_out {
                    self.work.drop_writeback(path);
                } else {
                    self.work.fail_writeback(path, encrypted_path, &err, now);
                    self.held.wait_again(path, signature, clock);
                }
                false
            },
        }
    }

    /// Takes note of a mounted file that was looked at to the end.
    pub fn note_scanned(
        &mut self,
        path: &SyncPath,
        encrypted_path: &SyncPath,
        signature: FileSignature,
        metadata_hash: Option<Digest>,
        encrypted_signature: Option<FileSignature>,
    )
        requires
            old(self).wf(),
        ensures
            final(self).wf(),
            scan_noted(
                old(self).files,
                final(self).files,
                path@,
                encrypted_path@,
                signature,
                metadata_hash,
                encrypted_signature,
            ),
            final(self).held.pending_stable@ == old(self).held.pending_stable@.remove(path@),
            final(self).held == (HeldBack {
                pending_stable: final(self).held.pending_stable,
                ..old(self).held
            }),
            *final(self) == (SyncTracker {
                files: final(self).files,
                held: final(self).held,
                ..*old(self)
            }),
    {
        self.files.note_scan(path, encrypted_path, signature, metadata_hash, encrypted_signature);
        self.held.pending_stable.remove(path);
    }
}

/// A change that is not encrypted yet, as it is tried again.
#[derive(Debug)]
pub struct RetryEntry {
    pub mount_path: SyncPath,
    pub encrypted_path: SyncPath,
    pub last_observed_at: UtcNanos,
}

impl Ranked for RetryEntry {
    open spec fn precedes(self, other: Self) -> bool {
        self.last_observed_at >= other.last_observed_at
    }

    proof fn comparable(a: Self, b: Self) {
    }

    fn comes_first(&self, other: &Self) -> (res: bool) {
        self.last_observed_at >= other.last_observed_at
    }
}

/// The entries of the pending writebacks.
pub open spec fn is_retry_of(entries: Seq<RetryEntry>, map: PathMap<PendingWriteback>) -> bool {
    &&& entries.len() == map.keys@.len()
    &&& forall|i: int|
        0 <= i < entries.len() ==> {
            &&& (#[trigger] entries[i]).mount_path@ == map.keys@[i]@
            &&& entries[i].encrypted_path@ == map.values@[i].encrypted_path@
            &&& entries[i].last_observed_at == map.values@[i].last_observed_at
        }
}

/// What a look at a file that is tried again found.
#[derive(Debug, Clone, Copy)]
pub struct RetryFacts {
    pub mount_exists: bool,
    pub encrypted_exists: bool,
    /// Whether it is a file, and its signature, where it is there.
    pub found: Option<(bool, FileSignature)>,
    pub clock: ClockNanos,
    pub now: UtcNanos,
}

/// What is done with a change that is not encrypted yet.
#[derive(Debug, Clone, Copy, PartialEq, Eq, Structural)]
pub enum RetryStep {
    /// Nothing.
    Skip,
    /// It is left out, and no longer waits.
    LeftOut,
    /// Its file is gone and has an encrypted form: it no longer waits.
    Stale,
    /// It has to stay the same for a while first.
    WaitStable,
    /// There is no room to encrypt it.
    WaitSpace,
    /// It is encrypted now.
    Encrypt,
}

/// The file was the same long enough.
pub open spec fn retry_stable(
    tracker: SyncTracker,
    path: PathView,
    signature: FileSignature,
    clock: ClockNanos,
) -> bool {
    let stable = tracker.held.pending_stable@;
    let age = tracker.settings.stream_stability_age_secs;
    stable.contains_key(path) && stable[path].signature == signature && (streams(
        tracker.settings.stream_threshold_bytes,
        signature.len,
    ) && age > 0 ==> has_elapsed(clock, stable[path].first_seen, age))
}

/// What is done with a change that is not encrypted yet.
pub open spec fn retry_step(
    tracker: SyncTracker,
    path: PathView,
    facts: RetryFacts,
) -> RetryStep {
    if !tracker.work.pending_writebacks@.contains_key(path) {
        RetryStep::Skip
    } else if excluded(texts(tracker.settings.excluded_patterns@), path) {
        RetryStep::LeftOut
    } else if !drains_fast(tracker.work.pending_writebacks@[path]) {
        RetryStep::Skip
    } else if !facts.mount_exists {
        if facts.encrypted_exists {
            RetryStep::Stale
        } else {
            RetryStep::Skip
        }
    } else {
        match facts.found {
            Some((true, signature)) => if has_marker(path, "conflict"@) || has_marker(
                path,
                "recovered-pending"@,
            ) {
                RetryStep::Skip
            } else if !retry_stable(tracker, path, signature, facts.clock) {
                RetryStep::WaitStable
            } else if tracker.held.mount_readonly_active {
                RetryStep::WaitSpace
            } else {
                RetryStep::Encrypt
            },
            _ => RetryStep::Skip,
        }
    }
}

/// The files that are waited for to stay the same, after a change was looked at again. One that
/// is already waited for in its present state goes on to be.
pub open spec fn retry_waits(
    before: HeldBack,
    after: HeldBack,
    step: RetryStep,
    path: PathView,
    facts: RetryFacts,
) -> bool {
    let stable = before.pending_stable@;
    let signature = (facts.found->0).1;
    let entry = StableEntry { signature, first_seen: facts.clock };
    &&& after.pending_stable@ == match step {
        RetryStep::LeftOut | RetryStep::Encrypt => stable.remove(path),
        RetryStep::WaitStable => if stable.contains_key(path) && stable[path].signature
            == signature {
            stable
        } else {
            stable.insert(path, entry)
        },
        RetryStep::WaitSpace => stable.insert(path, entry),
        RetryStep::Skip | RetryStep::Stale => stable,
    }
    &&& after == (HeldBack { pending_stable: after.pending_stable, ..before })
}

/// The pending writebacks after a change was looked at again.
pub open spec fn retry_noted(
    before: PendingWork,
    after: PendingWork,
    step: RetryStep,
    path: PathView,
    encrypted_path: PathView,
    now: UtcNanos,
) -> bool {
    match step {
        RetryStep::LeftOut | RetryStep::Stale => writeback_cleared(before, after, path),
        RetryStep::WaitSpace => {
            &&& writeback_recorded(
                before.pending_writebacks@,
                after.pending_writebacks@,
                path,
                encrypted_path,
                Some(refusal_message(path.text)),
                true,
                now,
            )
            &&& after.pending_writebacks_dirty == (before.pending_writebacks_dirty
                || writeback_changes(
                before.pending_writebacks@,
                path,
                encrypted_path,
                Some(refusal_message(path.text)),
                true,
                now,
            ))
            &&& after == (PendingWork {
                pending_writebacks: after.pending_writebacks,
                pending_writebacks_dirty: after.pending_writebacks_dirty,
                ..before
            })
        },
        _ => after == before,
    }
}

impl HeldBack {
    fn note_retry(&mut self, step: RetryStep, path: &SyncPath, facts: RetryFacts)
        requires
            old(self).wf(),
            step == RetryStep::WaitStable || step == RetryStep::WaitSpace ==> facts.found is Some,
        ensures
            final(self).wf(),
            retry_waits(*old(self), *final(self), step, path@, facts),
    {
        match step {
            RetryStep::LeftOut | RetryStep::Encrypt => {
                self.pending_stable.remove(path);
            },
            RetryStep::WaitStable => {
                if let Some((_, signature)) = facts.found {
                    let same = match self.pending_stable.get(path) {
                        Some(entry) => entry.signature == signature,
                        None => false,
                    };
                    if !same {
                        self.pending_stable.insert(
                            path.duplicate(),
                            StableEntry { signature, first_seen: facts.clock },
                        );
                    }
                }
            },
            RetryStep::WaitSpace => {
                if let Some((_, signature)) = facts.found {
                    self.pending_stable.insert(
                        path.duplicate(),
                        StableEntry { signature, first_seen: facts.clock },
                    );
                }
            },
            RetryStep::Skip | RetryStep::Stale => {},
        }
    }
}

impl PendingWork {
    fn note_retry(
        &mut self,
        step: RetryStep,
        path: &SyncPath,
        encrypted_path: &SyncPath,
        now: UtcNanos,
    )
        requires
            old(self).wf(),
        ensures
            final(self).wf(),
            retry_noted(*old(self), *final(self), step, path@, encrypted_path@, now),
    {
        match step {
            RetryStep::LeftOut | RetryStep::Stale => {
                self.drop_writeback(path);
            },
            RetryStep::WaitSpace => {
                let err = low_space_readonly_error(path);
                proof {
                    reveal(error_message);
                }
                if put_writeback(
                    &mut self.pending_writebacks,
                    path,
                    encrypted_path,
                    Some(err.message()),
                    true,
                    now,
                ) {
                    self.pending_writebacks_dirty = true;
                }
            },
            _ => {},
        }
    }
}

impl SyncTracker {
    /// The changes that are not encrypted yet, those seen last first.
    pub fn retry_order(&self) -> (res: Vec<RetryEntry>)
        requires
            self.wf(),
        ensures
            exists|entries: Seq<RetryEntry>|
                is_retry_of(entries, self.work.pending_writebacks) && res@ == #[trigger] ranked(
                    entries,
                ),
    {
        let map = &self.work.pending_writebacks;
        let mut entries: Vec<RetryEntry> = Vec::new();
        let mut i: usize = 0;
        proof {
            map.entries();
        }
        while i < map.keys.len()
            invariant
                i <= map.keys@.len(),
                map.keys@.len() == map.values@.len(),
                entries@.len() == i,
                forall|k: int|
                    0 <= k < i ==> {
                        &&& (#[trigger] entries@[k]).mount_path@ == map.keys@[k]@
                        &&& entries@[k].encrypted_path@ == map.values@[k].encrypted_path@
                        &&& entries@[k].last_observed_at == map.values@[k].last_observed_at
                    },
            decreases map.keys@.len() - i,
        {
            entries.push(
                RetryEntry {
                    mount_path: map.keys[i].duplicate(),
                    encrypted_path: map.values[i].encrypted_path.duplicate(),
                    last_observed_at: map.values[i].last_observed_at,
                },
            );
            i += 1;
        }
        let ghost given = entries@;
        assert(is_retry_of(given, self.work.pending_writebacks));
        let res = sort_ranked(entries);
        assert(res@ == ranked(given));
        res
    }

    fn retry_is_stable(&self, path: &SyncPath, signature: FileSignature, clock: ClockNanos) -> (res:
        bool)
        requires
            self.wf(),
        ensures
            res == retry_stable(*self, path@, signature, clock),
    {
        match self.held.pending_stable.get(path) {
            Some(entry) => {
                if !(entry.signature == signature) {
                    false
                } else if self.should_stream_file(signature.len)
                    && self.settings.stream_stability_age_secs > 0 {
                    elapsed(clock, entry.first_seen, self.settings.stream_stability_age_secs)
                } else {
                    true
                }
            },
            None => false,
        }
    }

    fn decide_retry(&self, path: &SyncPath, facts: RetryFacts) -> (res: RetryStep)
        requires
            self.wf(),
        ensures
            res == retry_step(*self, path@, facts),
    {
        match self.work.pending_writebacks.get(path) {
            None => {
                return RetryStep::Skip;
            },
            Some(entry) => {
                if self.is_path_excluded(path) {
                    return RetryStep::LeftOut;
                }
                if !should_fast_drain_pending_writeback(entry) {
                    return RetryStep::Skip;
                }
            },
        }
        if !facts.mount_exists {
            return if facts.encrypted_exists {
                RetryStep::Stale
            } else {
                RetryStep::Skip
            };
        }
        match facts.found {
            Some((true, signature)) => {
                if is_conflict_file(path) || is_recovered_pending_file(path) {
                    RetryStep::Skip
                } else if !self.retry_is_stable(path, signature, facts.clock) {
                    RetryStep::WaitStable
                } else if self.held.mount_readonly_active {
                    RetryStep::WaitSpace
                } else {
                    RetryStep::Encrypt
                }
            },
            _ => RetryStep::Skip,
        }
    }

    /// Looks again at a change that is not encrypted yet, and says whether it is encrypted now.
    pub fn retry_pending_writeback(
        &mut self,
        path: &SyncPath,
        encrypted_path: &SyncPath,
        facts: RetryFacts,
    ) -> (res: RetryStep)
        requires
            old(self).wf(),
        ensures
            final(self).wf(),
            res == retry_step(*old(self), path@, facts),
            retry_waits(old(self).held, final(self).held, res, path@, facts),
            retry_noted(
                old(self).work,
                final(self).work,
                res,
                path@,
                encrypted_path@,
                facts.now,
            ),
            *final(self) == (SyncTracker {
                work: final(self).work,
                held: final(self).held,
                ..*old(self)
            }),
    {
        let step = self.decide_retry(path, facts);
        self.held.note_retry(step, path, facts);
        self.work.note_retry(step, path, encrypted_path, facts.now);
        step
    }

    /// Takes note of how the encryption of a file that was tried again went. An error that is
    /// neither one of a changing file nor one of a full volume is given back.
    pub fn finish_retry(
        &mut self,
        path: &SyncPath,
        encrypted_path: &SyncPath,
        signature: FileSignature,
        metadata_hash: Option<Digest>,
        outcome: Result<(FileSignature, String), MountSyncError>,
        clock: ClockNanos,
        now: UtcNanos,
    ) -> (res: Result<(), MountSyncError>)
        requires
            old(self).wf(),
        ensures
            final(self).wf(),
            match outcome {
                Ok((encrypted_signature, file_id)) => {
                    &&& res is Ok
                    &&& retried(
                        old(self).files,
                        final(self).files,
                        path@,
                        encrypted_path@,
                        signature,
                        metadata_hash,
                        encrypted_signature,
                        file_id@,
                    )
                    &&& writeback_cleared(old(self).work, final(self).work, path@)
                    &&& final(self).held == old(self).held
                },
                Err(err) => {
                    let waits = err is UnstableFile || low_space_error(err);
                    &&& res == if waits {
                        Ok::<(), MountSyncError>(())
                    } else {
                        Err::<(), MountSyncError>(err)
                    }
                    &&& final(self).files == old(self).files
                    &&& writeback_failed(
                        old(self).work,
                        final(self).work,
                        path@,
                        encrypted_path@,
                        err,
                        now,
                    )
                    &&& if waits {
                        waits_again(old(self).held, final(self).held, path@, signature, clock)
                    } else {
                        final(self).held == old(self).held
                    }
                },
            },
            *final(self) == (SyncTracker {
                files: final(self).files,
                work: final(self).work,
                held: final(self).held,
                ..*old(self)
            }),
    {
        match outcome {
            Ok((encrypted_signature, file_id)) => {
                self.files.note_retried(
                    path,
                    encrypted_path,
                    signature,
                    metadata_hash,
                    encrypted_signature,
                    file_id,
                );
                self.work.drop_writeback(path);
                Ok(())
            },
            Err(err) => {
                let unstable = match &err {
                    MountSyncError::UnstableFile(_) => true,
                    _ => false,
                };
                let waits = unstable || is_low_space_error(&err);
                self.work.fail_writeback(path, encrypted_path, &err, now);
                if waits {
                    self.held.wait_again(path, signature, clock);
                    Ok(())
                } else {
                    Err(err)
                }
            },
        }
    }
}

/// The ledger after a file that was tried again was encrypted.
pub open spec fn retried(
    before: FileLedger,
    after: FileLedger,
    path: PathView,
    encrypted_path: PathView,
    signature: FileSignature,
    metadata_hash: Option<Digest>,
    encrypted_signature: FileSignature,
    file_id: Seq<char>,
) -> bool {
    &&& after.encrypted_signatures@ == before.encrypted_signatures@.insert(
        encrypted_path,
        encrypted_signature,
    )
    &&& path_values(after.file_id_to_mount_path@) == path_values(
        before.file_id_to_mount_path@,
    ).insert(file_id, path)
    &&& after.decrypted_signatures@ == before.decrypted_signatures@.insert(path, signature)
    &&& after.decrypted_metadata_hashes@ == digest_refreshed(
        before.decrypted_metadata_hashes@,
        path,
        metadata_hash,
    )
    &&& after == (FileLedger {
        encrypted_signatures: after.encrypted_signatures,
        file_id_to_mount_path: after.file_id_to_mount_path,
        decrypted_signatures: after.decrypted_signatures,
        decrypted_metadata_hashes: after.decrypted_metadata_hashes,
        ..before
    })
}

impl FileLedger {
    fn note_retried(
        &mut self,
        path: &SyncPath,
        encrypted_path: &SyncPath,
        signature: FileSignature,
        metadata_hash: Option<Digest>,
        encrypted_signature: FileSignature,
        file_id: String,
    )
        requires
            old(self).wf(),
        ensures
            final(self).wf(),
            retried(
                *old(self),
                *final(self),
                path@,
                encrypted_path@,
                signature,
                metadata_hash,
                encrypted_signature,
                file_id@,
            ),
    {
        self.note_encryption(path, encrypted_path, encrypted_signature, file_id);
        self.decrypted_signatures.insert(path.duplicate(), signature);
        crate::deletion::refresh_digest(&mut self.decrypted_metadata_hashes, path, metadata_hash);
    }
}

} // verus!
