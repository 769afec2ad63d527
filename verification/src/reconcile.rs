//! The start of a mount that was not left cleanly: each file is held against what is known of it.

use vstd::prelude::*;
use vstd::string::*;

use crate::deletion::{content_in_doubt, digest_refreshed, locally_changed};
use crate::local_only::{conflict_path_for, local_copy_path};
use crate::path::{join, strip_prefix, PathEntries, PathKey, PathMap, PathSet, PathView, SyncPath};
use crate::pending::path_values;
use crate::table::selected;
use crate::text::{concat3, decimal, decimal_text};
use crate::tracker::{
    path_views, queued, ConflictKind, ConflictPolicy, ConflictPolicyResolution, Digest, FileLedger,
    FileSignature, SyncTracker, UtcNanos,
};

verus! {

/// What is to be done about a file at the start of a mount.
#[derive(Debug)]
pub enum ReconciliationAction {
    /// Nothing.
    Unchanged { path: SyncPath },
    /// It was changed here: it is encrypted.
    LocalModified { mount_path: SyncPath },
    /// It is new here: it is encrypted.
    LocalCreated { mount_path: SyncPath },
    /// It was deleted here: its encrypted form is deleted.
    LocalDeleted { mount_path: SyncPath, encrypted_path: SyncPath },
    /// Its encrypted form was changed: it is decrypted.
    RemoteModified { mount_path: SyncPath, encrypted_path: SyncPath },
    /// It was changed on both sides.
    Conflict { mount_path: SyncPath, encrypted_path: SyncPath, kind: ConflictKind },
}

/// What is to be done about a file, as plain values.
pub enum ActionView {
    Unchanged { path: PathView },
    LocalModified { mount_path: PathView },
    LocalCreated { mount_path: PathView },
    LocalDeleted { mount_path: PathView, encrypted_path: PathView },
    RemoteModified { mount_path: PathView, encrypted_path: PathView },
    Conflict { mount_path: PathView, encrypted_path: PathView, kind: ConflictKind },
}

impl View for ReconciliationAction {
    type V = ActionView;

    open spec fn view(&self) -> ActionView {
        match self {
            ReconciliationAction::Unchanged { path } => ActionView::Unchanged { path: path@ },
            ReconciliationAction::LocalModified { mount_path } => ActionView::LocalModified {
                mount_path: mount_path@,
            },
            ReconciliationAction::LocalCreated { mount_path } => ActionView::LocalCreated {
                mount_path: mount_path@,
            },
            ReconciliationAction::LocalDeleted { mount_path, encrypted_path } =>
                ActionView::LocalDeleted {
                mount_path: mount_path@,
                encrypted_path: encrypted_path@,
            },
            ReconciliationAction::RemoteModified { mount_path, encrypted_path } =>
                ActionView::RemoteModified {
                mount_path: mount_path@,
                encrypted_path: encrypted_path@,
            },
            ReconciliationAction::Conflict { mount_path, encrypted_path, kind } =>
                ActionView::Conflict {
                mount_path: mount_path@,
                encrypted_path: encrypted_path@,
                kind: *kind,
            },
        }
    }
}

/// The actions as plain values.
pub open spec fn action_views(actions: Seq<ReconciliationAction>) -> Seq<ActionView> {
    actions.map_values(|a: ReconciliationAction| a@)
}

/// What was found and done at the start of a mount.
#[derive(Debug)]
pub struct ReconciliationSummary {
    pub unchanged_count: usize,
    pub local_modified: Vec<SyncPath>,
    pub local_created: Vec<SyncPath>,
    pub local_deleted: Vec<SyncPath>,
    pub remote_modified: Vec<SyncPath>,
    pub conflicts: Vec<(SyncPath, ConflictKind)>,
}

/// The conflicts as plain values.
pub open spec fn conflict_views(conflicts: Seq<(SyncPath, ConflictKind)>) -> Seq<
    (PathView, ConflictKind),
> {
    conflicts.map_values(|c: (SyncPath, ConflictKind)| (c.0@, c.1))
}

impl Default for ReconciliationSummary {
    fn default() -> (res: ReconciliationSummary)
        ensures
            res.unchanged_count == 0,
            res.local_modified@.len() == 0,
            res.local_created@.len() == 0,
            res.local_deleted@.len() == 0,
            res.remote_modified@.len() == 0,
            res.conflicts@.len() == 0,
    {
        ReconciliationSummary {
            unchanged_count: 0,
            local_modified: Vec::new(),
            local_created: Vec::new(),
            local_deleted: Vec::new(),
            remote_modified: Vec::new(),
            conflicts: Vec::new(),
        }
    }
}

/// The encrypted form of a file differs from what is known of it. Where it cannot be looked at, or
/// nothing is known, it does not.
pub open spec fn remote_changed(
    files: FileLedger,
    encrypted_path: PathView,
    now: Option<FileSignature>,
) -> bool {
    files.encrypted_signatures@.contains_key(encrypted_path) && now is Some && now->0
        != files.encrypted_signatures@[encrypted_path]
}

/// What is to be done about a file that is in the mount. Only a file that is known on both sides
/// can be unchanged, changed on the other side, or in conflict.
pub open spec fn action_for(
    tracker: SyncTracker,
    encrypted_of: PathEntries<PathView>,
    path: PathView,
    signature: FileSignature,
    content_hash: Option<Digest>,
    metadata_hash: Option<Digest>,
    encrypted_now: Option<FileSignature>,
) -> ActionView {
    let known = tracker.files.decrypted_signatures@.contains_key(path);
    let paired = encrypted_of.contains_key(path);
    if known && paired {
        let encrypted_path = encrypted_of[path];
        let here = locally_changed(tracker, path, signature, content_hash, metadata_hash);
        let there = remote_changed(tracker.files, encrypted_path, encrypted_now);
        if here && there {
            ActionView::Conflict {
                mount_path: path,
                encrypted_path,
                kind: ConflictKind::LocalRemoteBothModified,
            }
        } else if here {
            ActionView::LocalModified { mount_path: path }
        } else if there {
            ActionView::RemoteModified { mount_path: path, encrypted_path }
        } else {
            ActionView::Unchanged { path }
        }
    } else if known {
        ActionView::LocalModified { mount_path: path }
    } else {
        ActionView::LocalCreated { mount_path: path }
    }
}

/// A known file was deleted while the mount was not running: it is not in the mount, and its
/// encrypted form is there.
pub open spec fn was_deleted(
    encrypted_of: PathEntries<PathView>,
    current: Set<PathKey>,
    present: Set<PathKey>,
) -> spec_fn(PathView) -> bool {
    |p: PathView|
        !current.contains(p.key()) && encrypted_of.contains_key(p) && present.contains(
            encrypted_of[p].key(),
        )
}

/// The deletions of some files.
pub open spec fn deletions_of(
    encrypted_of: PathEntries<PathView>,
    paths: Seq<PathView>,
) -> Seq<ActionView> {
    paths.map_values(
        |p: PathView|
            ActionView::LocalDeleted { mount_path: p, encrypted_path: encrypted_of[p] },
    )
}

/// The number of deletions among the actions.
pub open spec fn deletion_count(actions: Seq<ActionView>) -> nat
    decreases actions.len(),
{
    if actions.len() == 0 {
        0
    } else {
        deletion_count(actions.drop_last()) + if actions.last() is LocalDeleted {
            1nat
        } else {
            0nat
        }
    }
}

/// The message of a start that would delete too much.
pub open spec fn too_many_deletions(count: nat, mountpoint: Seq<char>, limit: usize) -> Seq<char> {
    "Startup reconciliation aborted: refusing to queue "@ + decimal(count)
        + " local deletions for mount "@ + mountpoint + " (safety threshold "@ + decimal(
        limit as nat,
    ) + ")."@
}

/// Whether a start goes on: it deletes no more than is allowed.
pub fn check_deletion_limit(
    actions: &Vec<ReconciliationAction>,
    mountpoint: &SyncPath,
    limit: usize,
) -> (res: Result<(), String>)
    ensures
        match res {
            Ok(()) => deletion_count(action_views(actions@)) <= limit,
            Err(message) => deletion_count(action_views(actions@)) > limit && message@
                == too_many_deletions(deletion_count(action_views(actions@)), mountpoint@.text, limit),
        },
{
    let ghost all = action_views(actions@);
    let mut count: usize = 0;
    let mut i: usize = 0;
    while i < actions.len()
        invariant
            i <= actions@.len(),
            all == action_views(actions@),
            count <= i,
            count == deletion_count(all.take(i as int)),
        decreases actions@.len() - i,
    {
        proof {
            assert(all.take(i + 1).drop_last() =~= all.take(i as int));
            assert(all.take(i + 1).last() == actions@[i as int]@);
        }
        if let ReconciliationAction::LocalDeleted { .. } = &actions[i] {
            count += 1;
        }
        i += 1;
    }
    assert(all.take(all.len() as int) =~= all);
    if count <= limit {
        return Ok(());
    }
    let shown = mountpoint.display();
    let number = decimal_text(count as u64);
    let most = decimal_text(limit as u64);
    let mut message = concat3(
        "Startup reconciliation aborted: refusing to queue ",
        number.as_str(),
        " local deletions for mount ",
    );
    message.append(shown.as_str());
    message.append(" (safety threshold ");
    message.append(most.as_str());
    message.append(").");
    Err(message)
}

/// What is done with the local file of a conflict.
#[derive(Debug, Clone, Copy, PartialEq, Eq, Structural)]
pub enum ConflictStep {
    /// It is kept aside, and the other version takes its place.
    KeepBoth,
    /// It is encrypted over the other version.
    UseLocal,
    /// It is removed, and the other version takes its place.
    UseRemote,
}

/// What is done with the local file of a conflict. Of two versions whose times lie close together,
/// or are not known, neither counts as newer.
pub open spec fn conflict_step(
    policy: ConflictPolicy,
    local: Option<UtcNanos>,
    remote: Option<UtcNanos>,
) -> ConflictStep {
    match policy.default_resolution {
        ConflictPolicyResolution::KeepBoth => ConflictStep::KeepBoth,
        ConflictPolicyResolution::LocalWins => ConflictStep::UseLocal,
        ConflictPolicyResolution::RemoteWins => ConflictStep::UseRemote,
        ConflictPolicyResolution::NewerWins => match (local, remote) {
            (Some(l), Some(r)) => {
                let apart = if l > r {
                    l - r
                } else {
                    r - l
                };
                if apart <= policy.timestamp_threshold_secs * 1_000_000_000 {
                    ConflictStep::KeepBoth
                } else if l > r {
                    ConflictStep::UseLocal
                } else {
                    ConflictStep::UseRemote
                }
            },
            _ => ConflictStep::KeepBoth,
        },
    }
}

/// What is done with the local file of a conflict.
pub fn resolve_startup_conflict(
    policy: ConflictPolicy,
    local: Option<UtcNanos>,
    remote: Option<UtcNanos>,
) -> (res: ConflictStep)
    ensures
        res == conflict_step(policy, local, remote),
{
    match policy.default_resolution {
        ConflictPolicyResolution::KeepBoth => ConflictStep::KeepBoth,
        ConflictPolicyResolution::LocalWins => ConflictStep::UseLocal,
        ConflictPolicyResolution::RemoteWins => ConflictStep::UseRemote,
        ConflictPolicyResolution::NewerWins => match (local, remote) {
            (Some(l), Some(r)) => {
                let threshold: u128 = policy.timestamp_threshold_secs as u128
                    * 1_000_000_000u128;
                if within(l, r, threshold) {
                    ConflictStep::KeepBoth
                } else if l > r {
                    ConflictStep::UseLocal
                } else {
                    ConflictStep::UseRemote
                }
            },
            _ => ConflictStep::KeepBoth,
        },
    }
}

/// Whether two times lie at most so many nanoseconds apart.
fn within(a: UtcNanos, b: UtcNanos, most: u128) -> (res: bool)
    ensures
        res == ((if a > b {
            a - b
        } else {
            b - a
        }) <= most),
{
    let (low, high): (i128, i128) = if a > b {
        (b, a)
    } else {
        (a, b)
    };
    if low >= 0 || high < 0 {
        let apart: i128 = high - low;
        return apart as u128 <= most;
    }
    let below: u128 = if low == i128::MIN {
        170141183460469231731687303715884105728u128
    } else {
        (-low) as u128
    };
    below + high as u128 <= most
}

/// The actions as they are applied.
pub open spec fn queues_local(action: ActionView, step: ConflictStep) -> Option<PathView> {
    match action {
        ActionView::LocalModified { mount_path } => Some(mount_path),
        ActionView::LocalCreated { mount_path } => Some(mount_path),
        ActionView::Conflict { mount_path, .. } => if step == ConflictStep::UseLocal {
            Some(mount_path)
        } else {
            None
        },
        _ => None,
    }
}

/// The summary with one more action.
pub open spec fn summed_up(
    before: ReconciliationSummary,
    after: ReconciliationSummary,
    action: ActionView,
) -> bool {
    &&& after.unchanged_count == before.unchanged_count + if action is Unchanged {
        1int
    } else {
        0int
    }
    &&& path_views(after.local_modified@) == match action {
        ActionView::LocalModified { mount_path } => path_views(before.local_modified@).push(
            mount_path,
        ),
        _ => path_views(before.local_modified@),
    }
    &&& path_views(after.local_created@) == match action {
        ActionView::LocalCreated { mount_path } => path_views(before.local_created@).push(
            mount_path,
        ),
        _ => path_views(before.local_created@),
    }
    &&& path_views(after.local_deleted@) == match action {
        ActionView::LocalDeleted { mount_path, .. } => path_views(before.local_deleted@).push(
            mount_path,
        ),
        _ => path_views(before.local_deleted@),
    }
    &&& path_views(after.remote_modified@) == match action {
        ActionView::RemoteModified { mount_path, .. } => path_views(before.remote_modified@).push(
            mount_path,
        ),
        _ => path_views(before.remote_modified@),
    }
    &&& conflict_views(after.conflicts@) == match action {
        ActionView::Conflict { mount_path, kind, .. } => conflict_views(before.conflicts@).push(
            (mount_path, kind),
        ),
        _ => conflict_views(before.conflicts@),
    }
}

fn push_view(paths: &mut Vec<SyncPath>, path: &SyncPath)
    ensures
        path_views(final(paths)@) == path_views(old(paths)@).push(path@),
{
    paths.push(path.duplicate());
    assert(path_views(paths@) =~= path_views(old(paths)@).push(path@));
}

/// Adds an action to the summary.
pub fn sum_up(summary: &mut ReconciliationSummary, action: &ReconciliationAction)
    requires
        old(summary).unchanged_count < usize::MAX,
    ensures
        summed_up(*old(summary), *final(summary), action@),
{
    match action {
        ReconciliationAction::Unchanged { .. } => {
            summary.unchanged_count += 1;
        },
        ReconciliationAction::LocalModified { mount_path } => {
            push_view(&mut summary.local_modified, mount_path);
        },
        ReconciliationAction::LocalCreated { mount_path } => {
            push_view(&mut summary.local_created, mount_path);
        },
        ReconciliationAction::LocalDeleted { mount_path, .. } => {
            push_view(&mut summary.local_deleted, mount_path);
        },
        ReconciliationAction::RemoteModified { mount_path, .. } => {
            push_view(&mut summary.remote_modified, mount_path);
        },
        ReconciliationAction::Conflict { mount_path, kind, .. } => {
            let ghost before = conflict_views(summary.conflicts@);
            summary.conflicts.push((mount_path.duplicate(), *kind));
            assert(conflict_views(summary.conflicts@) =~= before.push((mount_path@, *kind)));
        },
    }
}

/// Where the local file of a conflict is kept aside.
pub open spec fn kept_aside_at(
    recovery_dir: PathView,
    mountpoint: PathView,
    path: PathView,
    stamp: Seq<char>,
    taken: Set<PathKey>,
) -> Option<PathView> {
    match strip_prefix(path, mountpoint) {
        Some(relative) => Some(
            join(
                recovery_dir,
                local_copy_path(
                    relative,
                    "conflict"@,
                    "conflict"@,
                    stamp,
                    taken,
                ),
            ),
        ),
        None => None,
    }
}

/// Where the local file of a conflict is kept aside. The paths that are taken are relative ones.
pub fn recovery_destination(
    recovery_dir: &SyncPath,
    mountpoint: &SyncPath,
    path: &SyncPath,
    stamp: &str,
    taken: &PathSet,
) -> (res: Result<SyncPath, String>)
    requires
        taken.wf(),
    ensures
        match res {
            Ok(destination) => kept_aside_at(
                recovery_dir@,
                mountpoint@,
                path@,
                stamp@,
                taken@.keys(),
            ) == Some(destination@),
            Err(message) => kept_aside_at(
                recovery_dir@,
                mountpoint@,
                path@,
                stamp@,
                taken@.keys(),
            ) is None
                && message@ == "Path "@ + path@.text + " not under mountpoint "@
                + mountpoint@.text,
        },
{
    match path.strip_prefix(mountpoint) {
        Some(relative) => {
            let copy = conflict_path_for(&relative, stamp, taken);
            Ok(recovery_dir.join(&copy))
        },
        None => {
            let shown = path.display();
            let root = mountpoint.display();
            let mut message = concat3("Path ", shown.as_str(), " not under mountpoint ");
            message.append(root.as_str());
            Err(message)
        },
    }
}

/// What was seen of a mounted file at the start of a mount.
#[derive(Debug, Clone, Copy)]
pub struct SeenFile {
    pub signature: FileSignature,
    /// The digests, as far as they are needed and could be taken.
    pub content_hash: Option<Digest>,
    pub metadata_hash: Option<Digest>,
    /// The signature of its encrypted form, where that could be looked at.
    pub encrypted_now: Option<FileSignature>,
}

/// A file that was found in the mount at its start.
#[derive(Debug)]
pub struct MountedFile {
    pub path: SyncPath,
    /// What was seen of it, unless it was gone again.
    pub seen: Option<SeenFile>,
}

/// That by which the files are told apart.
pub open spec fn mounted_keys(files: Seq<MountedFile>) -> Seq<PathKey> {
    files.map_values(|f: MountedFile| f.path@.key())
}

/// How many files come before the first that does not lie in the mount.
pub open spec fn inside_count(files: Seq<MountedFile>, mountpoint: PathView, from: int) -> int
    decreases files.len() - from,
{
    if from >= files.len() || from < 0 {
        files.len() as int
    } else if strip_prefix(files[from].path@, mountpoint) is None {
        from
    } else {
        inside_count(files, mountpoint, from + 1)
    }
}

/// What is to be done about the files that are in the mount.
pub open spec fn file_actions(
    tracker: SyncTracker,
    encrypted_of: PathEntries<PathView>,
    files: Seq<MountedFile>,
) -> Seq<ActionView>
    decreases files.len(),
{
    if files.len() == 0 {
        Seq::empty()
    } else {
        let front = file_actions(tracker, encrypted_of, files.drop_last());
        let file = files.last();
        match file.seen {
            Some(seen) => front.push(
                action_for(
                    tracker,
                    encrypted_of,
                    file.path@,
                    seen.signature,
                    seen.content_hash,
                    seen.metadata_hash,
                    seen.encrypted_now,
                ),
            ),
            None => front,
        }
    }
}

/// What is to be done at the start of a mount.
pub open spec fn start_actions(
    tracker: SyncTracker,
    encrypted_of: PathEntries<PathView>,
    files: Seq<MountedFile>,
    mount_has_entries: bool,
    present: Set<PathKey>,
) -> Seq<ActionView> {
    file_actions(tracker, encrypted_of, files) + if mount_has_entries {
        deletions_of(
            encrypted_of,
            selected(
                tracker.files.decrypted_signatures.order(),
                was_deleted(encrypted_of, mounted_keys(files).to_set(), present),
            ),
        )
    } else {
        Seq::empty()
    }
}

/// The content of a file is compared.
pub open spec fn is_compared(
    tracker: SyncTracker,
    encrypted_of: PathEntries<PathView>,
    file: MountedFile,
) -> bool {
    file.seen matches Some(seen) && encrypted_of.contains_key(file.path@) && content_in_doubt(
        tracker,
        file.path@,
        seen.signature,
    )
}

/// The digests of content after some files were compared.
pub open spec fn hashes_compared(
    tracker: SyncTracker,
    encrypted_of: PathEntries<PathView>,
    files: Seq<MountedFile>,
) -> PathEntries<Digest>
    decreases files.len(),
{
    if files.len() == 0 {
        tracker.files.decrypted_hashes@
    } else {
        let front = hashes_compared(tracker, encrypted_of, files.drop_last());
        let file = files.last();
        if is_compared(tracker, encrypted_of, file) && file.seen->0.content_hash is Some {
            front.insert(file.path@, file.seen->0.content_hash->0)
        } else {
            front
        }
    }
}

/// The digests of metadata after some files were compared.
pub open spec fn metadata_compared(
    tracker: SyncTracker,
    encrypted_of: PathEntries<PathView>,
    files: Seq<MountedFile>,
) -> PathEntries<Digest>
    decreases files.len(),
{
    if files.len() == 0 {
        tracker.files.decrypted_metadata_hashes@
    } else {
        let front = metadata_compared(tracker, encrypted_of, files.drop_last());
        let file = files.last();
        if is_compared(tracker, encrypted_of, file) {
            digest_refreshed(front, file.path@, file.seen->0.metadata_hash)
        } else {
            front
        }
    }
}

proof fn compared_elsewhere(
    tracker: SyncTracker,
    encrypted_of: PathEntries<PathView>,
    files: Seq<MountedFile>,
    path: PathView,
)
    requires
        !mounted_keys(files).contains(path.key()),
    ensures
        hashes_compared(tracker, encrypted_of, files).contains_key(path)
            == tracker.files.decrypted_hashes@.contains_key(path),
        hashes_compared(tracker, encrypted_of, files)[path]
            == tracker.files.decrypted_hashes@[path],
        metadata_compared(tracker, encrypted_of, files).contains_key(path)
            == tracker.files.decrypted_metadata_hashes@.contains_key(path),
        metadata_compared(tracker, encrypted_of, files)[path]
            == tracker.files.decrypted_metadata_hashes@[path],
    decreases files.len(),
{
    if files.len() > 0 {
        let front = files.drop_last();
        assert(mounted_keys(files)[files.len() - 1] == files.last().path@.key());
        assert(!mounted_keys(front).contains(path.key())) by {
            if mounted_keys(front).contains(path.key()) {
                let i = choose|i: int| 0 <= i < front.len() && mounted_keys(front)[i] == path.key();
                assert(mounted_keys(files)[i] == path.key());
            }
        }
        compared_elsewhere(tracker, encrypted_of, front, path);
    }
}

impl SyncTracker {
    /// What is to be done about a file that is in the mount. Where its content was compared, the
    /// digests are noted.
    pub fn reconcile_file(
        &mut self,
        encrypted_of: &PathMap<SyncPath>,
        path: &SyncPath,
        signature: FileSignature,
        content_hash: Option<Digest>,
        metadata_hash: Option<Digest>,
        encrypted_now: Option<FileSignature>,
    ) -> (res: ReconciliationAction)
        requires
            old(self).wf(),
            encrypted_of.wf(),
        ensures
            final(self).wf(),
            res@ == action_for(
                *old(self),
                path_values(encrypted_of@),
                path@,
                signature,
                content_hash,
                metadata_hash,
                encrypted_now,
            ),
            ({
                let compared = encrypted_of@.contains_key(path@) && content_in_doubt(
                    *old(self),
                    path@,
                    signature,
                );
                &&& final(self).files.decrypted_hashes@ == if compared && content_hash is Some {
                    old(self).files.decrypted_hashes@.insert(path@, content_hash->0)
                } else {
                    old(self).files.decrypted_hashes@
                }
                &&& final(self).files.decrypted_metadata_hashes@ == if compared {
                    digest_refreshed(
                        old(self).files.decrypted_metadata_hashes@,
                        path@,
                        metadata_hash,
                    )
                } else {
                    old(self).files.decrypted_metadata_hashes@
                }
            }),
            *final(self) == (SyncTracker { files: final(self).files, ..*old(self) }),
            final(self).files == (FileLedger {
                decrypted_hashes: final(self).files.decrypted_hashes,
                decrypted_metadata_hashes: final(self).files.decrypted_metadata_hashes,
                ..old(self).files
            }),
    {
        let known = self.files.decrypted_signatures.contains_key(path);
        if !known {
            return ReconciliationAction::LocalCreated { mount_path: path.duplicate() };
        }
        let encrypted_path = match encrypted_of.get(path) {
            Some(encrypted_path) => encrypted_path,
            None => {
                return ReconciliationAction::LocalModified { mount_path: path.duplicate() };
            },
        };
        let there = match self.files.encrypted_signatures.get(encrypted_path) {
            Some(stored) => match encrypted_now {
                Some(current) => !(current == *stored),
                None => false,
            },
            None => false,
        };
        let here = self.is_local_mount_path_dirty_with_signature(
            path,
            signature,
            content_hash,
            metadata_hash,
        );
        if here && there {
            ReconciliationAction::Conflict {
                mount_path: path.duplicate(),
                encrypted_path: encrypted_path.duplicate(),
                kind: ConflictKind::LocalRemoteBothModified,
            }
        } else if here {
            ReconciliationAction::LocalModified { mount_path: path.duplicate() }
        } else if there {
            ReconciliationAction::RemoteModified {
                mount_path: path.duplicate(),
                encrypted_path: encrypted_path.duplicate(),
            }
        } else {
            ReconciliationAction::Unchanged { path: path.duplicate() }
        }
    }

    /// The files that were deleted while the mount was not running. From a mount that is empty
    /// nothing is concluded.
    pub fn reconcile_deletions(
        &self,
        encrypted_of: &PathMap<SyncPath>,
        mount_has_entries: bool,
        current: &PathSet,
        present: &PathSet,
    ) -> (res: Vec<ReconciliationAction>)
        requires
            self.wf(),
            encrypted_of.wf(),
            current.wf(),
            present.wf(),
        ensures
            action_views(res@) == if mount_has_entries {
                deletions_of(
                    path_values(encrypted_of@),
                    selected(
                        self.files.decrypted_signatures.order(),
                        was_deleted(path_values(encrypted_of@), current@.keys(), present@.keys()),
                    ),
                )
            } else {
                Seq::empty()
            },
    {
        let mut res: Vec<ReconciliationAction> = Vec::new();
        if !mount_has_entries {
            assert(action_views(res@) =~= Seq::<ActionView>::empty());
            return res;
        }
        let table = &self.files.decrypted_signatures;
        let ghost order = table.order();
        let ghost map = path_values(encrypted_of@);
        let ghost gone = was_deleted(map, current@.keys(), present@.keys());
        let mut i: usize = 0;
        assert(action_views(res@) =~= deletions_of(map, selected(order.take(0), gone)));
        while i < table.keys.len()
            invariant
                i <= table.keys@.len(),
                order == table.order(),
                encrypted_of.wf(),
                current.wf(),
                present.wf(),
                map == path_values(encrypted_of@),
                gone == was_deleted(map, current@.keys(), present@.keys()),
                action_views(res@) == deletions_of(map, selected(order.take(i as int), gone)),
            decreases table.keys@.len() - i,
        {
            let path = &table.keys[i];
            let ghost before = action_views(res@);
            proof {
                assert(order[i as int] == path@);
                assert(order.take(i + 1).drop_last() =~= order.take(i as int));
                assert(order.take(i + 1).last() == path@);
            }
            let mut deleted = false;
            if !current.contains_key(path) {
                if let Some(encrypted_path) = encrypted_of.get(path) {
                    if present.contains_key(encrypted_path) {
                        deleted = true;
                        res.push(
                            ReconciliationAction::LocalDeleted {
                                mount_path: path.duplicate(),
                                encrypted_path: encrypted_path.duplicate(),
                            },
                        );
                    }
                }
            }
            proof {
                let front = selected(order.take(i as int), gone);
                assert(deleted == gone(path@));
                if deleted {
                    let added = ActionView::LocalDeleted {
                        mount_path: path@,
                        encrypted_path: map[path@],
                    };
                    assert(action_views(res@) =~= before.push(added));
                    assert(deletions_of(map, front.push(path@)) =~= deletions_of(map, front).push(
                        added,
                    ));
                }
            }
            i += 1;
        }
        assert(order.take(order.len() as int) =~= order);
        res
    }

    /// What is to be done at the start of a mount that was not left cleanly: about each file that
    /// is in the mount, and about those that were deleted. Nothing is done where a file does not
    /// lie in the mount, or where more would be deleted than is allowed.
    pub fn reconcile_mount(
        &mut self,
        mountpoint: &SyncPath,
        encrypted_of: &PathMap<SyncPath>,
        files: &Vec<MountedFile>,
        mount_has_entries: bool,
        present: &PathSet,
        limit: usize,
    ) -> (res: Result<Vec<ReconciliationAction>, String>)
        requires
            old(self).wf(),
            encrypted_of.wf(),
            present.wf(),
            mounted_keys(files@).no_duplicates(),
        ensures
            final(self).wf(),
            ({
                let inside = inside_count(files@, mountpoint@, 0);
                let actions = start_actions(
                    *old(self),
                    path_values(encrypted_of@),
                    files@,
                    mount_has_entries,
                    present@.keys(),
                );
                &&& match res {
                    Ok(found) => {
                        &&& inside == files@.len()
                        &&& action_views(found@) == actions
                        &&& deletion_count(actions) <= limit
                    },
                    Err(message) => if inside < files@.len() {
                        message@ == "Path "@ + files@[inside].path@.text
                            + " not under mountpoint"@
                    } else {
                        &&& deletion_count(actions) > limit
                        &&& message@ == too_many_deletions(
                            deletion_count(actions),
                            mountpoint@.text,
                            limit,
                        )
                    },
                }
                &&& final(self).files.decrypted_hashes@ == hashes_compared(
                    *old(self),
                    path_values(encrypted_of@),
                    files@.take(inside),
                )
                &&& final(self).files.decrypted_metadata_hashes@ == metadata_compared(
                    *old(self),
                    path_values(encrypted_of@),
                    files@.take(inside),
                )
            }),
            *final(self) == (SyncTracker { files: final(self).files, ..*old(self) }),
            final(self).files == (FileLedger {
                decrypted_hashes: final(self).files.decrypted_hashes,
                decrypted_metadata_hashes: final(self).files.decrypted_metadata_hashes,
                ..old(self).files
            }),
    {
        let ghost before = *self;
        let ghost map = path_values(encrypted_of@);
        let ghost all = files@;
        let mut actions: Vec<ReconciliationAction> = Vec::new();
        let mut current: PathSet = PathSet::new();
        let mut i: usize = 0;
        assert(action_views(actions@) =~= file_actions(before, map, all.take(0)));
        assert(current@.keys() =~= mounted_keys(all.take(0)).to_set());
        while i < files.len()
            invariant
                i <= all.len(),
                all == files@,
                mounted_keys(all).no_duplicates(),
                map == path_values(encrypted_of@),
                encrypted_of.wf(),
                self.wf(),
                before == *old(self),
                before.wf(),
                current.wf(),
                inside_count(all, mountpoint@, 0) == inside_count(all, mountpoint@, i as int),
                action_views(actions@) == file_actions(before, map, all.take(i as int)),
                current@.keys() == mounted_keys(all.take(i as int)).to_set(),
                self.files.decrypted_hashes@ == hashes_compared(before, map, all.take(i as int)),
                self.files.decrypted_metadata_hashes@ == metadata_compared(
                    before,
                    map,
                    all.take(i as int),
                ),
                *self == (SyncTracker { files: self.files, ..before }),
                self.files == (FileLedger {
                    decrypted_hashes: self.files.decrypted_hashes,
                    decrypted_metadata_hashes: self.files.decrypted_metadata_hashes,
                    ..before.files
                }),
            decreases all.len() - i,
        {
            let file = &files[i];
            let ghost done = all.take(i as int);
            let ghost next = all.take(i + 1);
            proof {
                assert(next.drop_last() =~= done);
                assert(next.last() == *file);
                assert(mounted_keys(all)[i as int] == file.path@.key());
                assert(!mounted_keys(done).contains(file.path@.key())) by {
                    if mounted_keys(done).contains(file.path@.key()) {
                        let k = choose|k: int|
                            0 <= k < done.len() && mounted_keys(done)[k] == file.path@.key();
                        assert(mounted_keys(all)[k] == file.path@.key());
                    }
                }
                compared_elsewhere(before, map, done, file.path@);
            }
            if file.path.strip_prefix(mountpoint).is_none() {
                let shown = file.path.display();
                return Err(concat3("Path ", shown.as_str(), " not under mountpoint"));
            }
            if let Some(seen) = file.seen {
                let ghost so_far = action_views(actions@);
                let action = self.reconcile_file(
                    encrypted_of,
                    &file.path,
                    seen.signature,
                    seen.content_hash,
                    seen.metadata_hash,
                    seen.encrypted_now,
                );
                let ghost added = action@;
                actions.push(action);
                assert(action_views(actions@) =~= so_far.push(added));
            }
            let ghost known = current@;
            current.insert(file.path.duplicate(), ());
            proof {
                assert(mounted_keys(next) =~= mounted_keys(done).push(file.path@.key()));
                assert(current@.keys() =~= mounted_keys(next).to_set()) by {
                    assert forall|p: PathKey| #[trigger] current@.keys().contains(p)
                        == mounted_keys(next).to_set().contains(p) by {
                        let whole = mounted_keys(next);
                        if mounted_keys(done).contains(p) {
                            let k = choose|k: int|
                                0 <= k < done.len() && mounted_keys(done)[k] == p;
                            assert(whole[k] == p);
                        }
                        if p == file.path@.key() {
                            assert(whole[whole.len() - 1] == p);
                        }
                        if whole.contains(p) {
                            let k = choose|k: int| 0 <= k < whole.len() && whole[k] == p;
                            if k < done.len() {
                                assert(mounted_keys(done)[k] == p);
                            }
                        }
                    }
                }
            }
            i += 1;
        }
        assert(all.take(all.len() as int) =~= all);
        let mut deleted = self.reconcile_deletions(
            encrypted_of,
            mount_has_entries,
            &current,
            present,
        );
        let ghost first = actions@;
        let ghost second = deleted@;
        actions.append(&mut deleted);
        assert(action_views(actions@) =~= action_views(first) + action_views(second));
        match check_deletion_limit(&actions, mountpoint, limit) {
            Ok(()) => Ok(actions),
            Err(message) => Err(message),
        }
    }

    /// Applies an action: queues what is to be encrypted or deleted. What is done with the local
    /// file of a conflict is given.
    pub fn apply_reconciliation(&mut self, action: &ReconciliationAction, step: ConflictStep)
        requires
            old(self).wf(),
        ensures
            final(self).wf(),
            path_views(final(self).pending_local_creates@) == queued(
                path_views(old(self).pending_local_creates@),
                queues_local(action@, step),
            ),
            path_views(final(self).pending_local_deletes@) == queued(
                path_views(old(self).pending_local_deletes@),
                match action@ {
                    ActionView::LocalDeleted { encrypted_path, .. } => Some(encrypted_path),
                    _ => None,
                },
            ),
            *final(self) == (SyncTracker {
                pending_local_creates: final(self).pending_local_creates,
                pending_local_deletes: final(self).pending_local_deletes,
                ..*old(self)
            }),
    {
        match action {
            ReconciliationAction::LocalModified { mount_path } => {
                self.queue_local_create(mount_path.duplicate());
            },
            ReconciliationAction::LocalCreated { mount_path } => {
                self.queue_local_create(mount_path.duplicate());
            },
            ReconciliationAction::LocalDeleted { encrypted_path, .. } => {
                self.queue_local_delete(encrypted_path.duplicate());
            },
            ReconciliationAction::Conflict { mount_path, .. } => {
                if step == ConflictStep::UseLocal {
                    self.queue_local_create(mount_path.duplicate());
                }
            },
            _ => {},
        }
    }
}

/// A file that was changed here is never dropped or written over silently: it is queued to be
/// encrypted, or it is in conflict.
pub proof fn local_changes_are_kept(
    tracker: SyncTracker,
    encrypted_of: PathEntries<PathView>,
    path: PathView,
    signature: FileSignature,
    content_hash: Option<Digest>,
    metadata_hash: Option<Digest>,
    encrypted_now: Option<FileSignature>,
)
    requires
        locally_changed(tracker, path, signature, content_hash, metadata_hash),
    ensures
        ({
            let action = action_for(
                tracker,
                encrypted_of,
                path,
                signature,
                content_hash,
                metadata_hash,
                encrypted_now,
            );
            action is LocalModified || action is LocalCreated || action is Conflict
        }),
{
}

/// Under the default policy the local file of a conflict is kept, whatever the times.
pub proof fn default_policy_keeps_both(local: Option<UtcNanos>, remote: Option<UtcNanos>)
    ensures
        conflict_step(
            ConflictPolicy {
                default_resolution: ConflictPolicyResolution::KeepBoth,
                timestamp_threshold_secs: 5,
            },
            local,
            remote,
        ) == ConflictStep::KeepBoth,
{
}

} // verus!
