//! Bringing encrypted files into the mount: where they go, whether they are written, and what
//! follows on it.

use vstd::prelude::*;
use vstd::string::*;

use crate::deletion::{
    check_digest, content_in_doubt, digest_refreshed, digests_agree, locally_changed,
    refresh_digest,
};
use crate::errors::{error_message, is_format, opt_text, MountSyncError};
use crate::held::{hard_link_held, hard_link_released, released_mode};
use crate::local_only::{conflict_path_for, local_copy_path};
use crate::names::{
    decrypted_target, decrypted_target_path, hard_link_block_reason, hard_link_reason,
    is_hard_linked, sanitize_mount_file_name, sanitized_name, set_file_name, with_file_name,
    MAX_COMPONENT_LEN,
};
use crate::orphans::FileLook;
use crate::path::{file_name_text, same_path, PathKey, PathSet, PathView, SyncPath};
use crate::pending::{collision_resolved, path_values, same_digest};
use crate::settings::seeded;
use crate::space::{
    budget, budget_message, ensure_space_budget, low_space_readonly_error, readonly_message,
    LOW_SPACE_ATOMIC_WRITE_OVERHEAD_BYTES, LOW_SPACE_DIRECTORY_CREATE_BYTES,
    LOW_SPACE_JOURNAL_RESERVE_BYTES, LOW_SPACE_WARNING_RESERVE_BYTES,
};
use crate::table::{filtered, TableKey};
use crate::text::{replaced, text_bytes};
use crate::tracker::{Digest, FileLedger, FileSignature, HeldBack, PendingWork, SyncTracker};

verus! {

/// Where an encrypted file is to be mounted.
#[derive(Debug)]
pub struct Destination {
    pub target: SyncPath,
    /// The name that the file would have if every name could be used.
    pub raw_name: String,
    /// That name, where another one is used.
    pub original_name: Option<String>,
    /// The file was mounted before, and goes to the same place.
    pub known: bool,
}

/// A mounted file cannot have this name.
pub open spec fn unfit_name(name: Seq<char>) -> bool {
    replaced(name, '/', '_') != name || name.len() == 0 || name == "."@ || name == ".."@
        || text_bytes(replaced(name, '/', '_')) > MAX_COMPONENT_LEN
}

/// The name of a path, or `decrypted` where it has none.
pub open spec fn raw_name(target: PathView) -> Seq<char> {
    match file_name_text(target) {
        Some(name) => name,
        None => "decrypted"@,
    }
}

/// Where an encrypted file is to be mounted, the name that it would have, and that name again
/// where it is not used.
pub open spec fn destination(
    files: FileLedger,
    file_id: Seq<char>,
    plain_target: PathView,
) -> (PathView, Seq<char>, Option<Seq<char>>, bool) {
    let name = raw_name(plain_target);
    if files.file_id_to_mount_path@.contains_key(file_id) {
        (files.file_id_to_mount_path@[file_id]@, name, None, true)
    } else if unfit_name(name) {
        (with_file_name(plain_target, sanitized_name(name, file_id)), name, Some(name), false)
    } else {
        (plain_target, name, None, false)
    }
}

/// What a look at the place of an encrypted file found.
#[derive(Debug, Clone, Copy)]
pub struct DecryptFacts {
    pub target_exists: bool,
    /// Whether there is a file, the number of its names and its permissions.
    pub target_links: Option<(bool, u64, u32)>,
    /// The place where the file was mounted last is there.
    pub cached_exists: bool,
    /// The signature and the digest of the metadata of the file that is mounted, where it could
    /// be looked at.
    pub seen: Option<FileSignature>,
    pub seen_metadata: Option<Digest>,
    /// The encrypted file holds what is needed to decrypt it.
    pub has_key: bool,
}

/// What is done with an encrypted file.
#[derive(Debug, Clone, Copy, PartialEq, Eq, Structural)]
pub enum DecryptGate {
    /// Its deletion is being confirmed: it is not mounted again.
    PendingDeletion,
    /// Its place is held back as hard-linked.
    LinkKnown,
    /// Its place was found to be hard-linked and is held back from now on.
    LinkFound,
    /// Its place was deleted and a process still has it open.
    StillOpen,
    /// It is unchanged and mounted where it was. A file that was noted from before counts as
    /// mounted there, though it was not decrypted since.
    UnchangedCached,
    /// It is unchanged and mounted.
    Unchanged,
    /// It is unchanged and was deleted from the mount.
    DeletedHere,
    /// It cannot be decrypted.
    NoKey,
    /// It is decrypted.
    Proceed,
}

/// The encrypted file is as it was when it was last dealt with.
pub open spec fn encrypted_unchanged(
    files: FileLedger,
    encrypted_path: PathView,
    signature: FileSignature,
) -> bool {
    files.encrypted_signatures@.contains_key(encrypted_path)
        && files.encrypted_signatures@[encrypted_path].same_content(signature)
}

/// The encrypted file was mounted somewhere, and what was mounted is known.
pub open spec fn is_cached(files: FileLedger, encrypted_path: PathView) -> bool {
    files.path_mapping@.contains_key(encrypted_path) && files.decrypted_signatures@.contains_key(
        files.path_mapping@[encrypted_path]@,
    )
}

/// The place of an encrypted file is hard-linked.
pub open spec fn target_is_linked(facts: DecryptFacts) -> bool {
    facts.target_exists && match facts.target_links {
        Some((is_file, links, _)) => is_hard_linked(is_file, links),
        None => false,
    }
}

/// What is done with an encrypted file.
pub open spec fn decrypt_gate(
    tracker: SyncTracker,
    encrypted_path: PathView,
    target: PathView,
    known: bool,
    signature: FileSignature,
    facts: DecryptFacts,
) -> DecryptGate {
    let unchanged = encrypted_unchanged(tracker.files, encrypted_path, signature);
    if tracker.work.pending_deletions@.contains_key(encrypted_path) {
        DecryptGate::PendingDeletion
    } else if tracker.held.unsupported_hard_link_paths@.contains_key(target) {
        DecryptGate::LinkKnown
    } else if target_is_linked(facts) {
        DecryptGate::LinkFound
    } else if tracker.work.pending_open_unlinked@.contains_key(target) && !facts.target_exists {
        DecryptGate::StillOpen
    } else if known && unchanged && facts.target_exists {
        if tracker.files.path_mapping@.contains_key(encrypted_path) && facts.cached_exists {
            DecryptGate::UnchangedCached
        } else {
            DecryptGate::Unchanged
        }
    } else if known && unchanged {
        DecryptGate::DeletedHere
    } else if unchanged && facts.cached_exists && is_cached(tracker.files, encrypted_path) {
        DecryptGate::UnchangedCached
    } else if !facts.has_key {
        DecryptGate::NoKey
    } else {
        DecryptGate::Proceed
    }
}

/// The mounted path that an encrypted file has when it passed a gate.
pub open spec fn ready_path(
    tracker: SyncTracker,
    gate: DecryptGate,
    encrypted_path: PathView,
    target: PathView,
) -> PathView {
    match gate {
        DecryptGate::PendingDeletion =>
            tracker.work.pending_deletions@[encrypted_path].mount_path@,
        DecryptGate::UnchangedCached => tracker.files.path_mapping@[encrypted_path]@,
        _ => target,
    }
}

/// The ledger after an encrypted file passed a gate.
pub open spec fn ledger_gated(
    before: FileLedger,
    after: FileLedger,
    gate: DecryptGate,
    encrypted_path: PathView,
    ready: PathView,
    signature: FileSignature,
    facts: DecryptFacts,
) -> bool {
    let mapped = gate != DecryptGate::UnchangedCached && gate != DecryptGate::Proceed;
    let noted = gate == DecryptGate::PendingDeletion || gate == DecryptGate::StillOpen || gate
        == DecryptGate::DeletedHere || gate == DecryptGate::NoKey;
    let seen = (gate == DecryptGate::Unchanged || gate == DecryptGate::UnchangedCached)
        && !before.decrypted_signatures@.contains_key(ready) && facts.seen is Some;
    &&& path_values(after.path_mapping@) == if mapped {
        path_values(before.path_mapping@).insert(encrypted_path, ready)
    } else {
        path_values(before.path_mapping@)
    }
    &&& after.encrypted_signatures@ == if noted {
        before.encrypted_signatures@.insert(encrypted_path, signature)
    } else {
        before.encrypted_signatures@
    }
    &&& after.decrypted_signatures@ == if seen {
        before.decrypted_signatures@.insert(ready, facts.seen->0)
    } else {
        before.decrypted_signatures@
    }
    &&& after.decrypted_metadata_hashes@ == if seen {
        digest_refreshed(before.decrypted_metadata_hashes@, ready, facts.seen_metadata)
    } else {
        before.decrypted_metadata_hashes@
    }
    &&& after.file_id_to_mount_path@ == if gate == DecryptGate::LinkFound {
        filtered(
            before.file_id_to_mount_path@,
            |_id: Seq<char>, at: SyncPath| !same_path(at@, ready),
        )
    } else {
        before.file_id_to_mount_path@
    }
    &&& after == (FileLedger {
        path_mapping: after.path_mapping,
        encrypted_signatures: after.encrypted_signatures,
        decrypted_signatures: after.decrypted_signatures,
        decrypted_metadata_hashes: after.decrypted_metadata_hashes,
        file_id_to_mount_path: after.file_id_to_mount_path,
        ..before
    })
}

/// The pending work after an encrypted file passed a gate: none is left for a place that is held
/// back.
pub open spec fn work_gated(
    before: PendingWork,
    after: PendingWork,
    gate: DecryptGate,
    target: PathView,
) -> bool {
    if gate == DecryptGate::LinkFound {
        &&& after.pending_writebacks@ == before.pending_writebacks@.remove(target)
        &&& after.pending_writebacks_dirty == (before.pending_writebacks_dirty
            || before.pending_writebacks@.contains_key(target))
        &&& after.pending_refreshes@ == before.pending_refreshes@.remove(target)
        &&& after.pending_refreshes_dirty == (before.pending_refreshes_dirty
            || before.pending_refreshes@.contains_key(target))
        &&& after == (PendingWork {
            pending_writebacks: after.pending_writebacks,
            pending_writebacks_dirty: after.pending_writebacks_dirty,
            pending_refreshes: after.pending_refreshes,
            pending_refreshes_dirty: after.pending_refreshes_dirty,
            ..before
        })
    } else {
        after == before
    }
}

/// What was decided comes after the look at the links of the place, which found none.
pub open spec fn links_were_fine(gate: DecryptGate, facts: DecryptFacts) -> bool {
    gate != DecryptGate::PendingDeletion && gate != DecryptGate::LinkKnown && gate
        != DecryptGate::LinkFound && facts.target_exists && facts.target_links is Some
}

/// What is held back after an encrypted file passed a gate.
pub open spec fn held_gated(
    before: HeldBack,
    after: HeldBack,
    gate: DecryptGate,
    target: PathView,
    facts: DecryptFacts,
) -> bool {
    if gate == DecryptGate::LinkFound {
        match facts.target_links {
            Some((is_file, links, mode)) => hard_link_held(
                before,
                after,
                target,
                hard_link_reason(target.text, is_file, links)->0,
                mode,
            ),
            None => false,
        }
    } else if links_were_fine(gate, facts) {
        hard_link_released(before, after, target, true)
    } else {
        after == before
    }
}

/// The permissions that the place of an encrypted file gets.
pub open spec fn gated_mode(
    held: HeldBack,
    gate: DecryptGate,
    target: PathView,
    facts: DecryptFacts,
) -> Option<u32> {
    if gate == DecryptGate::LinkFound {
        match facts.target_links {
            Some((_, _, mode)) => if mode & !0o222u32 != mode {
                Some(mode & !0o222u32)
            } else {
                None
            },
            None => None,
        }
    } else if links_were_fine(gate, facts) {
        released_mode(held, target, true)
    } else {
        None
    }
}

impl FileLedger {
    fn gate(
        &mut self,
        gate: DecryptGate,
        encrypted_path: &SyncPath,
        ready: &SyncPath,
        signature: FileSignature,
        facts: DecryptFacts,
    )
        requires
            old(self).wf(),
        ensures
            final(self).wf(),
            ledger_gated(
                *old(self),
                *final(self),
                gate,
                encrypted_path@,
                ready@,
                signature,
                facts,
            ),
    {
        match gate {
            DecryptGate::UnchangedCached | DecryptGate::Proceed => {},
            _ => {
                let ghost before = self.path_mapping@;
                self.path_mapping.insert(encrypted_path.duplicate(), ready.duplicate());
                assert(path_values(self.path_mapping@) =~= path_values(before).insert(
                    encrypted_path@,
                    ready@,
                ));
            },
        }
        match gate {
            DecryptGate::PendingDeletion | DecryptGate::StillOpen | DecryptGate::DeletedHere
            | DecryptGate::NoKey => {
                self.encrypted_signatures.insert(encrypted_path.duplicate(), signature);
            },
            DecryptGate::Unchanged | DecryptGate::UnchangedCached => {
                if !self.decrypted_signatures.contains_key(ready) {
                    if let Some(seen) = facts.seen {
                        self.decrypted_signatures.insert(ready.duplicate(), seen);
                        refresh_digest(
                            &mut self.decrypted_metadata_hashes,
                            ready,
                            facts.seen_metadata,
                        );
                    }
                }
            },
            DecryptGate::LinkFound => {
                let keep = |_id: &String, at: &SyncPath| -> (res: bool)
                    ensures
                        res == !same_path(at@, ready@),
                    { !at.same(ready) };
                self.file_id_to_mount_path.retain(
                    keep,
                    Ghost(|_id: Seq<char>, at: SyncPath| !same_path(at@, ready@)),
                );
            },
            _ => {},
        }
    }
}

impl PendingWork {
    fn gate(&mut self, gate: DecryptGate, target: &SyncPath)
        requires
            old(self).wf(),
        ensures
            final(self).wf(),
            work_gated(*old(self), *final(self), gate, target@),
    {
        if gate == DecryptGate::LinkFound {
            if self.pending_writebacks.remove(target).is_some() {
                self.pending_writebacks_dirty = true;
            }
            if self.pending_refreshes.remove(target).is_some() {
                self.pending_refreshes_dirty = true;
            }
        }
    }
}

impl HeldBack {
    fn gate(&mut self, gate: DecryptGate, target: &SyncPath, facts: DecryptFacts) -> (res: Option<
        u32,
    >)
        requires
            old(self).wf(),
            gate == DecryptGate::LinkFound ==> target_is_linked(facts),
        ensures
            final(self).wf(),
            held_gated(*old(self), *final(self), gate, target@, facts),
            res == gated_mode(*old(self), gate, target@, facts),
    {
        match gate {
            DecryptGate::PendingDeletion | DecryptGate::LinkKnown => None,
            DecryptGate::LinkFound => {
                match facts.target_links {
                    Some((is_file, links, mode)) => match hard_link_block_reason(
                        target,
                        is_file,
                        links,
                    ) {
                        Some(reason) => self.hold_hard_link(target, reason.as_str(), mode),
                        None => None,
                    },
                    None => None,
                }
            },
            _ => {
                if facts.target_exists && facts.target_links.is_some() {
                    self.release_hard_link(target, true)
                } else {
                    None
                }
            },
        }
    }
}

impl SyncTracker {
    /// Where an encrypted file is to be mounted. A file that was mounted before goes to the same
    /// place; another gets a name that a mounted file can have.
    pub fn decrypt_destination(
        &self,
        encrypted_root: &SyncPath,
        encrypted_path: &SyncPath,
        mount_root: &SyncPath,
        file_id: &String,
        stored_name: &Option<String>,
    ) -> (res: Result<Destination, MountSyncError>)
        requires
            self.wf(),
        ensures
            ({
                let plain = decrypted_target(
                    encrypted_root@,
                    encrypted_path@,
                    mount_root@,
                    opt_text(*stored_name),
                );
                match res {
                    Ok(d) => plain is Some && (
                        d.target@,
                        d.raw_name@,
                        opt_text(d.original_name),
                        d.known,
                    ) == destination(self.files, file_id@, plain->0),
                    Err(err) => plain is None && is_format(
                        err,
                        "Encrypted file is outside the selected root"@,
                    ),
                }
            }),
    {
        let plain = match decrypted_target_path(
            encrypted_root,
            encrypted_path,
            mount_root,
            stored_name,
        ) {
            Ok(path) => path,
            Err(err) => {
                return Err(err);
            },
        };
        let raw_name = match plain.file_name_text() {
            Some(name) => name,
            None => "decrypted".to_owned(),
        };
        if let Some(known) = self.files.file_id_to_mount_path.get(file_id) {
            return Ok(
                Destination {
                    target: known.duplicate(),
                    raw_name,
                    original_name: None,
                    known: true,
                },
            );
        }
        let (sanitized, changed) = sanitize_mount_file_name(raw_name.as_str(), file_id.as_str());
        if changed {
            let target = set_file_name(&plain, sanitized.as_str());
            let original_name = Some(raw_name.as_str().to_owned());
            Ok(Destination { target, raw_name, original_name, known: false })
        } else {
            Ok(Destination { target: plain, raw_name, original_name: None, known: false })
        }
    }

    fn decide_decrypt(
        &self,
        encrypted_path: &SyncPath,
        target: &SyncPath,
        known: bool,
        signature: FileSignature,
        facts: DecryptFacts,
    ) -> (res: DecryptGate)
        requires
            self.wf(),
        ensures
            res == decrypt_gate(
                *self,
                encrypted_path@,
                target@,
                known,
                signature,
                facts,
            ),
    {
        if self.work.pending_deletions.contains_key(encrypted_path) {
            return DecryptGate::PendingDeletion;
        }
        if self.held.unsupported_hard_link_paths.contains_key(target) {
            return DecryptGate::LinkKnown;
        }
        let linked = facts.target_exists && match facts.target_links {
            Some((is_file, links, _)) => hard_link_block_reason(target, is_file, links).is_some(),
            None => false,
        };
        if linked {
            return DecryptGate::LinkFound;
        }
        if self.work.pending_open_unlinked.contains_key(target) && !facts.target_exists {
            return DecryptGate::StillOpen;
        }
        let unchanged = match self.files.encrypted_signatures.get(encrypted_path) {
            Some(stored) => stored.content_signature_eq(&signature),
            None => false,
        };
        if known && unchanged && facts.target_exists {
            return if self.files.path_mapping.contains_key(encrypted_path) && facts.cached_exists {
                DecryptGate::UnchangedCached
            } else {
                DecryptGate::Unchanged
            };
        }
        if known && unchanged {
            return DecryptGate::DeletedHere;
        }
        if unchanged && facts.cached_exists {
            if let Some(cached) = self.files.path_mapping.get(encrypted_path) {
                if self.files.decrypted_signatures.contains_key(cached) {
                    return DecryptGate::UnchangedCached;
                }
            }
        }
        if !facts.has_key {
            DecryptGate::NoKey
        } else {
            DecryptGate::Proceed
        }
    }

    /// Decides whether an encrypted file is decrypted, and takes note of it where it is not.
    /// Gives what was decided, the mounted path that it has there, and the permissions
    /// that its place gets where they change.
    pub fn begin_decrypt(
        &mut self,
        encrypted_path: &SyncPath,
        target: &SyncPath,
        known: bool,
        signature: FileSignature,
        facts: DecryptFacts,
    ) -> (res: (DecryptGate, SyncPath, Option<u32>))
        requires
            old(self).wf(),
        ensures
            final(self).wf(),
            res.0 == decrypt_gate(
                *old(self),
                encrypted_path@,
                target@,
                known,
                signature,
                facts,
            ),
            res.1@ == ready_path(*old(self), res.0, encrypted_path@, target@),
            res.2 == gated_mode(old(self).held, res.0, target@, facts),
            ledger_gated(
                old(self).files,
                final(self).files,
                res.0,
                encrypted_path@,
                res.1@,
                signature,
                facts,
            ),
            work_gated(old(self).work, final(self).work, res.0, target@),
            held_gated(old(self).held, final(self).held, res.0, target@, facts),
            *final(self) == (SyncTracker {
                files: final(self).files,
                work: final(self).work,
                held: final(self).held,
                ..*old(self)
            }),
    {
        let gate = self.decide_decrypt(encrypted_path, target, known, signature, facts);
        let ready = match gate {
            DecryptGate::PendingDeletion => match self.work.pending_deletions.get(encrypted_path) {
                Some(pending) => pending.mount_path.duplicate(),
                None => target.duplicate(),
            },
            DecryptGate::UnchangedCached => match self.files.path_mapping.get(encrypted_path) {
                Some(cached) => cached.duplicate(),
                None => target.duplicate(),
            },
            _ => target.duplicate(),
        };
        self.files.gate(gate, encrypted_path, &ready, signature, facts);
        self.work.gate(gate, target);
        let mode = self.held.gate(gate, target, facts);
        (gate, ready, mode)
    }

    /// Settles the place of an encrypted file that is decrypted: a file that was not mounted
    /// before makes way for others. Gives the place, and the name that the file would have where
    /// another is used.
    pub fn choose_target(
        &mut self,
        mount_root: &SyncPath,
        dest: Destination,
        file_id: &str,
        target_exists: bool,
        target_file_id: &Option<String>,
    ) -> (res: (SyncPath, Option<String>))
        requires
            old(self).wf(),
        ensures
            final(self).wf(),
            if dest.known {
                &&& res.0@ == dest.target@
                &&& opt_text(res.1) == opt_text(dest.original_name)
                &&& *final(self) == *old(self)
            } else {
                let resolved = collision_resolved(
                    path_values(old(self).files.mount_collision_keys@),
                    mount_root@,
                    dest.target@,
                    file_id@,
                    target_exists,
                    opt_text(*target_file_id),
                );
                &&& (res.0@, path_values(final(self).files.mount_collision_keys@)) == resolved
                &&& opt_text(res.1) == if !same_path(resolved.0, dest.target@)
                    && dest.original_name is None {
                    Some(dest.raw_name@)
                } else {
                    opt_text(dest.original_name)
                }
                &&& *final(self) == (SyncTracker { files: final(self).files, ..*old(self) })
                &&& final(self).files == (FileLedger {
                    mount_collision_keys: final(self).files.mount_collision_keys,
                    ..old(self).files
                })
            },
    {
        if dest.known {
            return (dest.target, dest.original_name);
        }
        let resolved = self.resolve_mount_collision_target(
            mount_root,
            &dest.target,
            file_id,
            target_exists,
            target_file_id,
        );
        if !resolved.same(&dest.target) && dest.original_name.is_none() {
            (resolved, Some(dest.raw_name))
        } else {
            (resolved, dest.original_name)
        }
    }

    /// Whether the place of an encrypted file holds local changes. Where its content was compared
    /// the digests are noted. From now on the encrypted file is mounted there.
    pub fn target_is_dirty(
        &mut self,
        encrypted_path: &SyncPath,
        target: &SyncPath,
        look: FileLook,
    ) -> (res: bool)
        requires
            old(self).wf(),
        ensures
            final(self).wf(),
            res == match look {
                FileLook::Found { signature, content_hash, metadata_hash } => locally_changed(
                    *old(self),
                    target@,
                    signature,
                    content_hash,
                    metadata_hash,
                ),
                _ => false,
            },
            dirt_noted(
                old(self).files,
                final(self).files,
                look is Found && content_in_doubt(*old(self), target@, look->signature),
                target@,
                look,
            ),
            path_values(final(self).files.path_mapping@) == path_values(
                old(self).files.path_mapping@,
            ).insert(encrypted_path@, target@),
            final(self).files == (FileLedger {
                decrypted_hashes: final(self).files.decrypted_hashes,
                decrypted_metadata_hashes: final(self).files.decrypted_metadata_hashes,
                path_mapping: final(self).files.path_mapping,
                ..old(self).files
            }),
            *final(self) == (SyncTracker { files: final(self).files, ..*old(self) }),
    {
        let dirty = match look {
            FileLook::Found { signature, content_hash, metadata_hash } =>
                self.is_local_mount_path_dirty_with_signature(
                target,
                signature,
                content_hash,
                metadata_hash,
            ),
            _ => false,
        };
        let ghost before = self.files.path_mapping@;
        self.files.path_mapping.insert(encrypted_path.duplicate(), target.duplicate());
        assert(path_values(self.files.path_mapping@) =~= path_values(before).insert(
            encrypted_path@,
            target@,
        ));
        dirty
    }

    /// Whether the place of an encrypted file changed since it was looked at first. Where its
    /// content was compared the digests are noted.
    pub fn target_was_touched(
        &mut self,
        target: &SyncPath,
        initial: Option<FileSignature>,
        look: FileLook,
    ) -> (res: bool)
        requires
            old(self).wf(),
        ensures
            final(self).wf(),
            res == touched_since(old(self).files, target@, initial, look),
            dirt_noted(
                old(self).files,
                final(self).files,
                recheck_compares(initial, look),
                target@,
                look,
            ),
            final(self).files == (FileLedger {
                decrypted_hashes: final(self).files.decrypted_hashes,
                decrypted_metadata_hashes: final(self).files.decrypted_metadata_hashes,
                ..old(self).files
            }),
            *final(self) == (SyncTracker { files: final(self).files, ..*old(self) }),
    {
        match look {
            FileLook::Found { signature, content_hash, metadata_hash } => match initial {
                Some(previous) => {
                    if previous.ctime_only_change(&signature) {
                        let metadata_same = check_digest(
                            &self.files.decrypted_metadata_hashes,
                            target,
                            metadata_hash,
                        );
                        let content_same = match content_hash {
                            Some(h) => match self.files.decrypted_hashes.get(target) {
                                Some(known) => same_digest(known, &h),
                                None => true,
                            },
                            None => false,
                        };
                        if let Some(h) = content_hash {
                            self.files.decrypted_hashes.insert(target.duplicate(), h);
                        }
                        refresh_digest(
                            &mut self.files.decrypted_metadata_hashes,
                            target,
                            metadata_hash,
                        );
                        !(content_same && metadata_same)
                    } else {
                        !(previous == signature)
                    }
                },
                None => true,
            },
            _ => false,
        }
    }

    /// Plans where an encrypted file is written: to its place, or to a conflict copy beside it.
    /// Refuses where there is no room.
    pub fn plan_decrypt_write(
        &self,
        target: &SyncPath,
        conflict: bool,
        content_size: u64,
        stamp: &str,
        taken: &PathSet,
        room: Option<u64>,
        journal_room: Option<u64>,
    ) -> (res: Result<SyncPath, MountSyncError>)
        requires
            taken.wf(),
        ensures
            refresh_allowed(
                *self,
                res,
                target@,
                written_at(target@, conflict, stamp@, taken@.keys()),
                plus_overhead(content_size),
                "plaintext refresh"@,
                room,
                journal_room,
            ),
    {
        let place = if conflict {
            conflict_path_for(target, stamp, taken)
        } else {
            target.duplicate()
        };
        let needed: u64 = content_size.saturating_add(LOW_SPACE_ATOMIC_WRITE_OVERHEAD_BYTES);
        self.refresh_room(target, place, needed, "plaintext refresh", room, journal_room)
    }

    /// Plans to make a directory in the mount. Refuses where there is no room.
    pub fn plan_directory_refresh(
        &self,
        target: &SyncPath,
        room: Option<u64>,
        journal_room: Option<u64>,
    ) -> (res: Result<SyncPath, MountSyncError>)
        ensures
            refresh_allowed(
                *self,
                res,
                target@,
                target@,
                LOW_SPACE_DIRECTORY_CREATE_BYTES,
                "directory metadata refresh"@,
                room,
                journal_room,
            ),
    {
        self.refresh_room(
            target,
            target.duplicate(),
            LOW_SPACE_DIRECTORY_CREATE_BYTES,
            "directory metadata refresh",
            room,
            journal_room,
        )
    }

    fn refresh_room(
        &self,
        target: &SyncPath,
        place: SyncPath,
        needed: u64,
        operation: &str,
        room: Option<u64>,
        journal_room: Option<u64>,
    ) -> (res: Result<SyncPath, MountSyncError>)
        ensures
            refresh_allowed(
                *self,
                res,
                target@,
                place@,
                needed,
                operation@,
                room,
                journal_room,
            ),
    {
        if self.held.mount_readonly_active {
            return Err(low_space_readonly_error(target));
        }
        match ensure_space_budget(
            &place,
            room,
            needed,
            LOW_SPACE_WARNING_RESERVE_BYTES,
            operation,
        ) {
            Ok(()) => {},
            Err(err) => {
                return Err(err);
            },
        }
        if let Some(journal) = self.journal_budget_path() {
            match ensure_space_budget(
                journal,
                journal_room,
                LOW_SPACE_JOURNAL_RESERVE_BYTES,
                LOW_SPACE_JOURNAL_RESERVE_BYTES,
                "pending refresh journal",
            ) {
                Ok(()) => {},
                Err(err) => {
                    return Err(err);
                },
            }
        }
        Ok(place)
    }

    /// Notes that an encrypted file could not be brought into the mount for want of room.
    pub fn defer_low_space_refresh(
        &mut self,
        encrypted_path: &SyncPath,
        target: &SyncPath,
        signature: FileSignature,
        err: &MountSyncError,
    )
        requires
            old(self).wf(),
        ensures
            final(self).wf(),
            final(self).work.pending_refreshes@ == old(self).work.pending_refreshes@.insert(
                target@,
                final(self).work.pending_refreshes@[target@],
            ),
            final(self).work.pending_refreshes@[target@].encrypted_path@ == encrypted_path@,
            opt_text(final(self).work.pending_refreshes@[target@].last_error) == Some(
                error_message(*err),
            ),
            final(self).work.pending_refreshes_dirty == ({
                let had = old(self).work.pending_refreshes@.contains_key(target@);
                let entry = old(self).work.pending_refreshes@[target@];
                old(self).work.pending_refreshes_dirty || !had || !same_path(
                    entry.encrypted_path@,
                    encrypted_path@,
                ) || opt_text(entry.last_error) != Some(error_message(*err))
            }),
            final(self).files.encrypted_signatures@ == old(self).files.encrypted_signatures@.insert(
                encrypted_path@,
                signature,
            ),
            path_values(final(self).files.path_mapping@) == path_values(
                old(self).files.path_mapping@,
            ).insert(encrypted_path@, target@),
            final(self).files == (FileLedger {
                encrypted_signatures: final(self).files.encrypted_signatures,
                path_mapping: final(self).files.path_mapping,
                ..old(self).files
            }),
            final(self).work == (PendingWork {
                pending_refreshes: final(self).work.pending_refreshes,
                pending_refreshes_dirty: final(self).work.pending_refreshes_dirty,
                ..old(self).work
            }),
            *final(self) == (SyncTracker {
                files: final(self).files,
                work: final(self).work,
                ..*old(self)
            }),
    {
        self.record_pending_refresh(target, encrypted_path, err);
        let ghost before = self.files.path_mapping@;
        self.files.encrypted_signatures.insert(encrypted_path.duplicate(), signature);
        self.files.path_mapping.insert(encrypted_path.duplicate(), target.duplicate());
        assert(path_values(self.files.path_mapping@) =~= path_values(before).insert(
            encrypted_path@,
            target@,
        ));
    }

    /// Notes that an encrypted file was decrypted. For a conflict copy the place keeps what is
    /// known of it.
    pub fn finish_decrypt(
        &mut self,
        encrypted_path: &SyncPath,
        target: &SyncPath,
        written_to: &SyncPath,
        conflict: bool,
        signature: FileSignature,
        file_id: String,
        written: WrittenFile,
    )
        requires
            old(self).wf(),
        ensures
            final(self).wf(),
            decrypt_noted(
                old(self).files,
                final(self).files,
                encrypted_path@,
                target@,
                written_to@,
                conflict,
                signature,
                file_id@,
                written,
            ),
            final(self).work.pending_refreshes@ == old(self).work.pending_refreshes@.remove(
                target@,
            ),
            final(self).work.pending_refreshes_dirty == (old(self).work.pending_refreshes_dirty
                || old(self).work.pending_refreshes@.contains_key(target@)),
            final(self).work == (PendingWork {
                pending_refreshes: final(self).work.pending_refreshes,
                pending_refreshes_dirty: final(self).work.pending_refreshes_dirty,
                ..old(self).work
            }),
            *final(self) == (SyncTracker {
                files: final(self).files,
                work: final(self).work,
                ..*old(self)
            }),
    {
        self.files.note_decrypt(
            encrypted_path,
            target,
            written_to,
            conflict,
            signature,
            file_id,
            written,
        );
        self.clear_pending_refresh(target);
    }
}

/// What is known of a file that was just written into the mount.
#[derive(Debug, Clone, Copy)]
pub struct WrittenFile {
    /// Its signature, where it could be looked at.
    pub seen: Option<FileSignature>,
    /// The digest of its content, where it was at hand.
    pub content_hash: Option<Digest>,
    /// The digest of its metadata: of that which was stored with it, and for a conflict copy of
    /// that which it has.
    pub metadata_hash: Option<Digest>,
}

/// The ledger after an encrypted file was decrypted.
pub open spec fn decrypt_noted(
    before: FileLedger,
    after: FileLedger,
    encrypted_path: PathView,
    target: PathView,
    written_to: PathView,
    conflict: bool,
    signature: FileSignature,
    file_id: Seq<char>,
    written: WrittenFile,
) -> bool {
    &&& after.decrypted_signatures@ == if written.seen is Some {
        before.decrypted_signatures@.insert(written_to, written.seen->0)
    } else {
        before.decrypted_signatures@
    }
    &&& after.decrypted_hashes@ == if conflict {
        before.decrypted_hashes@.remove(written_to)
    } else {
        digest_refreshed(before.decrypted_hashes@, written_to, written.content_hash)
    }
    &&& after.decrypted_metadata_hashes@ == if conflict && written.seen is None {
        before.decrypted_metadata_hashes@
    } else {
        digest_refreshed(before.decrypted_metadata_hashes@, written_to, written.metadata_hash)
    }
    &&& path_values(after.file_id_to_mount_path@) == path_values(
        before.file_id_to_mount_path@,
    ).insert(file_id, target)
    &&& after.encrypted_signatures@ == before.encrypted_signatures@.insert(
        encrypted_path,
        signature,
    )
    &&& after == (FileLedger {
        decrypted_signatures: after.decrypted_signatures,
        decrypted_hashes: after.decrypted_hashes,
        decrypted_metadata_hashes: after.decrypted_metadata_hashes,
        file_id_to_mount_path: after.file_id_to_mount_path,
        encrypted_signatures: after.encrypted_signatures,
        ..before
    })
}

impl FileLedger {
    fn note_decrypt(
        &mut self,
        encrypted_path: &SyncPath,
        target: &SyncPath,
        written_to: &SyncPath,
        conflict: bool,
        signature: FileSignature,
        file_id: String,
        written: WrittenFile,
    )
        requires
            old(self).wf(),
        ensures
            final(self).wf(),
            decrypt_noted(
                *old(self),
                *final(self),
                encrypted_path@,
                target@,
                written_to@,
                conflict,
                signature,
                file_id@,
                written,
            ),
    {
        if let Some(seen) = written.seen {
            self.decrypted_signatures.insert(written_to.duplicate(), seen);
        }
        if conflict {
            self.decrypted_hashes.remove(written_to);
        } else {
            refresh_digest(&mut self.decrypted_hashes, written_to, written.content_hash);
        }
        if !conflict || written.seen.is_some() {
            refresh_digest(
                &mut self.decrypted_metadata_hashes,
                written_to,
                written.metadata_hash,
            );
        }
        let ghost ids = self.file_id_to_mount_path@;
        let ghost id = file_id@;
        self.file_id_to_mount_path.insert(file_id, target.duplicate());
        assert(path_values(self.file_id_to_mount_path@) =~= path_values(ids).insert(id, target@));
        self.encrypted_signatures.insert(encrypted_path.duplicate(), signature);
    }
}

/// The digests after the content of a place was compared.
pub open spec fn dirt_noted(
    before: FileLedger,
    after: FileLedger,
    compared: bool,
    target: PathView,
    look: FileLook,
) -> bool {
    &&& after.decrypted_hashes@ == if compared && look->content_hash is Some {
        before.decrypted_hashes@.insert(target, look->content_hash->0)
    } else {
        before.decrypted_hashes@
    }
    &&& after.decrypted_metadata_hashes@ == if compared {
        digest_refreshed(before.decrypted_metadata_hashes@, target, look->metadata_hash)
    } else {
        before.decrypted_metadata_hashes@
    }
}

/// The second look at a place compares its content: only the time of change of the metadata
/// differs.
pub open spec fn recheck_compares(initial: Option<FileSignature>, look: FileLook) -> bool {
    look is Found && initial is Some && initial->0.same_content(look->signature)
        && initial->0.ctime_ns != look->signature.ctime_ns
}

/// A place changed since it was looked at first.
pub open spec fn touched_since(
    files: FileLedger,
    target: PathView,
    initial: Option<FileSignature>,
    look: FileLook,
) -> bool {
    if !(look is Found) {
        false
    } else if initial is None {
        true
    } else if recheck_compares(initial, look) {
        let known = files.decrypted_hashes@;
        let content_same = look->content_hash is Some && (known.contains_key(target)
            ==> known[target] == look->content_hash->0);
        !(content_same && digests_agree(
            files.decrypted_metadata_hashes@,
            target,
            look->metadata_hash,
        ))
    } else {
        initial->0 != look->signature
    }
}

/// Where an encrypted file is written.
pub open spec fn written_at(
    target: PathView,
    conflict: bool,
    stamp: Seq<char>,
    taken: Set<PathKey>,
) -> PathView {
    if conflict {
        local_copy_path(target, "conflict"@, "conflict"@, stamp, taken)
    } else {
        target
    }
}

/// The room that a file takes while it is written, as far as a `u64` can hold it.
pub open spec fn plus_overhead(size: u64) -> u64 {
    budget(size, LOW_SPACE_ATOMIC_WRITE_OVERHEAD_BYTES)
}

/// The journal by which the room for journals is judged.
pub open spec fn budget_journal(tracker: SyncTracker) -> Option<SyncPath> {
    if tracker.journals.pending_writeback_path is Some {
        tracker.journals.pending_writeback_path
    } else if tracker.journals.pending_refresh_path is Some {
        tracker.journals.pending_refresh_path
    } else if tracker.journals.pending_open_unlinked_path is Some {
        tracker.journals.pending_open_unlinked_path
    } else if tracker.journals.pending_metadata_path is Some {
        tracker.journals.pending_metadata_path
    } else if tracker.journals.pending_orphan_path is Some {
        tracker.journals.pending_orphan_path
    } else {
        tracker.journals.pending_deletion_path
    }
}

/// There is too little room.
pub open spec fn lacks_room(room: Option<u64>, needed: u64, reserve: u64) -> bool {
    room matches Some(r) && r < budget(needed, reserve)
}

/// Whether a file may be written to a place in the mount: not while it is read-only for want of
/// room, and only where there is room for the file and for the journal.
pub open spec fn refresh_allowed(
    tracker: SyncTracker,
    res: Result<SyncPath, MountSyncError>,
    target: PathView,
    place: PathView,
    needed: u64,
    operation: Seq<char>,
    room: Option<u64>,
    journal_room: Option<u64>,
) -> bool {
    let journal = budget_journal(tracker);
    if tracker.held.mount_readonly_active {
        res matches Err(err) && is_format(err, readonly_message(target.text))
    } else if lacks_room(room, needed, LOW_SPACE_WARNING_RESERVE_BYTES) {
        res matches Err(err) && is_format(
            err,
            budget_message(
                operation,
                place.text,
                needed,
                LOW_SPACE_WARNING_RESERVE_BYTES,
                room->0,
            ),
        )
    } else if journal is Some && lacks_room(
        journal_room,
        LOW_SPACE_JOURNAL_RESERVE_BYTES,
        LOW_SPACE_JOURNAL_RESERVE_BYTES,
    ) {
        res matches Err(err) && is_format(
            err,
            budget_message(
                "pending refresh journal"@,
                journal->0@.text,
                LOW_SPACE_JOURNAL_RESERVE_BYTES,
                LOW_SPACE_JOURNAL_RESERVE_BYTES,
                journal_room->0,
            ),
        )
    } else {
        res matches Ok(path) && path@ == place
    }
}

/// A file that was noted from before with its signatures, and is still there on both sides, is not
/// decrypted again as long as its encrypted form is the same: it is left as it is.
pub proof fn seeded_files_are_not_decrypted(
    before: SyncTracker,
    after: SyncTracker,
    encrypted_path: PathView,
    decrypted_path: SyncPath,
    encrypted_signature: FileSignature,
    decrypted_signature: FileSignature,
    target: PathView,
    known: bool,
    facts: DecryptFacts,
)
    requires
        seeded(
            before,
            after,
            encrypted_path,
            decrypted_path,
            encrypted_signature,
            decrypted_signature,
        ),
        facts.cached_exists,
    ensures
        decrypt_gate(after, encrypted_path, target, known, encrypted_signature, facts)
            != DecryptGate::Proceed,
        decrypt_gate(after, encrypted_path, target, known, encrypted_signature, facts)
            != DecryptGate::NoKey,
        crate::course::next_decrypt_step(
            crate::course::DecryptStep::Begin,
            crate::course::DecryptEvent::Gate(
                decrypt_gate(after, encrypted_path, target, known, encrypted_signature, facts),
            ),
        ) == crate::course::DecryptStep::Ready,
{
}

/// A place that holds local changes is never written over: the encrypted file goes to another
/// path, which no file has as long as fewer than a thousand copies are there.
pub proof fn local_changes_are_not_overwritten(
    target: PathView,
    stamp: Seq<char>,
    taken: Set<PathKey>,
)
    requires
        taken.contains(target.key()),
        crate::local_only::first_free(target, "conflict"@, "conflict"@, stamp, taken, 0) < 999,
    ensures
        !same_path(written_at(target, true, stamp, taken), target),
        !taken.contains(written_at(target, true, stamp, taken).key()),
{
    crate::local_only::free_copy_is_free(target, "conflict"@, "conflict"@, stamp, taken, 0);
}

} // verus!
