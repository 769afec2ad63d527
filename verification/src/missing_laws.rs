//! What becomes of files that are gone: from the mount, and from the encrypted side.

use vstd::prelude::*;

use crate::deletion::{
    deletion_verdict, mounted_at, mounts_forgotten, scanned, settled_deletions, DeletionVerdict,
};
use crate::errors::opt_text;
use crate::exclusion::{excluded, texts};
use crate::local_only::has_marker;
use crate::missing::{
    deletions_noted, directory_track, forgets, ledger_tracked, missing_forgotten, missing_step,
    orphans_tracked, track_compared, track_step, DirectoryTrack, MissingFacts, MissingStep,
    TrackStep,
};
use crate::orphans::FileLook;
use crate::path::{same_path, PathEntries, PathKey, PathView};
use crate::pending::path_values;
use crate::tracker::{Digest, FileLedger, FileSignature, SyncTracker};

verus! {

/// A file with the identifier that stands in the encrypted file is mounted at another path, and is
/// there.
pub open spec fn lives_elsewhere(
    tracker: SyncTracker,
    path: PathView,
    present: Set<PathKey>,
    facts: MissingFacts,
) -> bool {
    &&& facts.encrypted_id is Some
    &&& tracker.files.file_id_to_mount_path@.contains_key(facts.encrypted_id->0@)
    &&& ({
        let place = tracker.files.file_id_to_mount_path@[facts.encrypted_id->0@]@;
        place.key() != path.key() && present.contains(place.key())
    })
}

/// A file was not found, and nothing but its absence speaks of it: it was not only waiting for
/// room, is not open, and is not held back as hard-linked.
pub open spec fn is_missing(
    tracker: SyncTracker,
    path: PathView,
    current: Set<PathKey>,
    protected: Set<PathKey>,
) -> bool {
    &&& !current.contains(path.key())
    &&& !protected.contains(path.key())
    &&& !tracker.work.pending_open_unlinked@.contains_key(path)
    &&& !tracker.held.unsupported_hard_link_paths@.contains_key(path)
}

proof fn elsewhere_in_values(
    tracker: SyncTracker,
    path: PathView,
    present: Set<PathKey>,
    facts: MissingFacts,
)
    ensures
        lives_elsewhere(tracker, path, present, facts) <==> crate::missing::place_of(
            path_values(tracker.files.file_id_to_mount_path@),
            opt_text(facts.encrypted_id),
            path,
            present,
        ) is Some,
{
    if facts.encrypted_id is Some {
        let ids = tracker.files.file_id_to_mount_path@;
        let id = facts.encrypted_id->0@;
        assert(path_values(ids).contains_key(id) == ids.contains_key(id));
        if ids.contains_key(id) {
            assert(path_values(ids)[id] == ids[id]@);
        }
    }
}

/// A file that is missing while its encrypted form is there, and that lives nowhere else, is on its
/// way to be deleted: a deletion of its encrypted form is pending afterwards, the one that was
/// pending before, or a new one which has seen this one absence, and whether this scan was without
/// faults.
pub proof fn missing_files_are_deleted_in_time(
    before: SyncTracker,
    after: SyncTracker,
    path: PathView,
    encrypted_path: PathView,
    current: Set<PathKey>,
    protected: Set<PathKey>,
    present: Set<PathKey>,
    facts: MissingFacts,
)
    requires
        is_missing(before, path, current, protected),
        facts.encrypted_exists,
        !lives_elsewhere(before, path, present, facts),
        deletions_noted(
            before.work,
            after.work,
            missing_step(before, path, encrypted_path, current, protected, present, facts),
            path,
            encrypted_path,
            before.scan_health is Healthy,
        ),
    ensures
        after.work.pending_deletions@.contains_key(encrypted_path),
        ({
            let step = missing_step(
                before,
                path,
                encrypted_path,
                current,
                protected,
                present,
                facts,
            );
            let pending = after.work.pending_deletions@[encrypted_path];
            if before.work.pending_deletions@.contains_key(encrypted_path) {
                &&& step == MissingStep::AlreadyPending
                &&& pending == before.work.pending_deletions@[encrypted_path]
            } else {
                &&& step == MissingStep::NewlyPending
                &&& pending.mount_path@ == path
                &&& pending.consecutive_missing_scans == 1
                &&& pending.had_healthy_scan == (before.scan_health is Healthy)
                &&& after.work.pending_deletions_dirty
            }
        }),
{
    elsewhere_in_values(before, path, present, facts);
}

/// A missing file is taken for a renamed one, or is waited for, only if a file with its identifier
/// is mounted at another path and is there. It counts as renamed if that one has an encrypted form
/// with the same identifier, it is waited for if it has none yet, and the deletion is pending if
/// its encrypted form belongs to another file.
pub proof fn renamed_files_are_told_from_deleted_ones(
    tracker: SyncTracker,
    path: PathView,
    encrypted_path: PathView,
    current: Set<PathKey>,
    protected: Set<PathKey>,
    present: Set<PathKey>,
    facts: MissingFacts,
)
    ensures
        ({
            let step = missing_step(
                tracker,
                path,
                encrypted_path,
                current,
                protected,
                present,
                facts,
            );
            let elsewhere = lives_elsewhere(tracker, path, present, facts);
            let same = facts.new_encrypted_exists && opt_text(facts.new_encrypted_id) == opt_text(
                facts.encrypted_id,
            );
            let pending = step == MissingStep::AlreadyPending || step == MissingStep::NewlyPending;
            &&& step == MissingStep::Deferred ==> elsewhere && !facts.new_encrypted_exists
                && facts.encrypted_exists
            &&& step == MissingStep::Renamed ==> elsewhere && same && facts.encrypted_exists
            &&& step == MissingStep::LinkMoved ==> elsewhere && same && facts.encrypted_exists
            &&& is_missing(tracker, path, current, protected) && facts.encrypted_exists
                && elsewhere ==> {
                &&& same <==> step == MissingStep::Renamed
                &&& !facts.new_encrypted_exists <==> step == MissingStep::Deferred
                &&& facts.new_encrypted_exists && !same <==> pending
            }
        }),
{
    elsewhere_in_values(tracker, path, present, facts);
}

/// Nothing is concluded of a file that was found, that only waited for room, or that a process has
/// open, and none of these loses its encrypted form: no deletion begins.
pub proof fn files_that_are_here_are_not_deleted(
    before: SyncTracker,
    after: SyncTracker,
    path: PathView,
    encrypted_path: PathView,
    current: Set<PathKey>,
    protected: Set<PathKey>,
    present: Set<PathKey>,
    facts: MissingFacts,
)
    requires
        current.contains(path.key()) || protected.contains(path.key())
            || before.work.pending_open_unlinked@.contains_key(path),
        deletions_noted(
            before.work,
            after.work,
            missing_step(before, path, encrypted_path, current, protected, present, facts),
            path,
            encrypted_path,
            before.scan_health is Healthy,
        ),
    ensures
        ({
            let step = missing_step(
                before,
                path,
                encrypted_path,
                current,
                protected,
                present,
                facts,
            );
            &&& step == MissingStep::Here || step == MissingStep::Protected || step
                == MissingStep::StillOpen
            &&& current.contains(path.key()) <==> step == MissingStep::Here
            &&& !current.contains(path.key()) && !protected.contains(path.key()) ==> step
                == MissingStep::StillOpen && !after.work.pending_deletions@.contains_key(
                encrypted_path,
            )
        }),
        after.work.pending_deletions@.contains_key(encrypted_path)
            ==> before.work.pending_deletions@.contains_key(encrypted_path),
{
}

/// The ledger after a missing file was dealt with.
pub open spec fn ledger_after(
    before: FileLedger,
    after: FileLedger,
    step: MissingStep,
    path: PathView,
    encrypted_path: PathView,
) -> bool {
    if forgets(step) {
        missing_forgotten(before, after, path, encrypted_path, step != MissingStep::Renamed)
    } else {
        after == before
    }
}

/// A file that has no encrypted form any longer is forgotten, and no deletion is pending for it.
pub proof fn files_gone_on_both_sides_are_forgotten(
    before: SyncTracker,
    after: SyncTracker,
    path: PathView,
    encrypted_path: PathView,
    current: Set<PathKey>,
    protected: Set<PathKey>,
    present: Set<PathKey>,
    facts: MissingFacts,
)
    requires
        is_missing(before, path, current, protected),
        !facts.encrypted_exists,
        ({
            let step = missing_step(
                before,
                path,
                encrypted_path,
                current,
                protected,
                present,
                facts,
            );
            &&& ledger_after(before.files, after.files, step, path, encrypted_path)
            &&& deletions_noted(
                before.work,
                after.work,
                step,
                path,
                encrypted_path,
                before.scan_health is Healthy,
            )
        }),
    ensures
        missing_step(before, path, encrypted_path, current, protected, present, facts)
            == MissingStep::Gone,
        !after.work.pending_deletions@.contains_key(encrypted_path),
        !after.files.decrypted_signatures@.contains_key(path),
        !after.files.decrypted_hashes@.contains_key(path),
        !after.files.encrypted_signatures@.contains_key(encrypted_path),
        forall|id: Seq<char>|
            #![trigger after.files.file_id_to_mount_path@.contains_key(id)]
            after.files.file_id_to_mount_path@.contains_key(id) ==> !same_path(
                after.files.file_id_to_mount_path@[id]@,
                path,
            ),
        forall|e: PathView|
            #![trigger after.files.path_mapping@.contains_key(e)]
            after.files.path_mapping@.contains_key(e) ==> !same_path(
                after.files.path_mapping@[e]@,
                path,
            ),
{
}

/// A file that has an encrypted form and lives nowhere else is not forgotten yet, whatever is
/// concluded of it. One that was renamed is forgotten at its old path, and its identifier stays
/// with the new one.
pub proof fn files_with_an_encrypted_form_are_remembered(
    before: SyncTracker,
    after: SyncTracker,
    path: PathView,
    encrypted_path: PathView,
    current: Set<PathKey>,
    protected: Set<PathKey>,
    present: Set<PathKey>,
    facts: MissingFacts,
)
    requires
        facts.encrypted_exists,
        ledger_after(
            before.files,
            after.files,
            missing_step(before, path, encrypted_path, current, protected, present, facts),
            path,
            encrypted_path,
        ),
    ensures
        !lives_elsewhere(before, path, present, facts) ==> after.files == before.files,
        missing_step(before, path, encrypted_path, current, protected, present, facts)
            == MissingStep::Renamed ==> {
            &&& !after.files.decrypted_signatures@.contains_key(path)
            &&& !after.files.encrypted_signatures@.contains_key(encrypted_path)
            &&& after.files.file_id_to_mount_path@ == before.files.file_id_to_mount_path@
        },
{
    elsewhere_in_values(before, path, present, facts);
}

/// Dealing with one missing file leaves the deletions of all others as they are.
pub proof fn deletions_are_noted_one_by_one(
    before: SyncTracker,
    after: SyncTracker,
    step: MissingStep,
    path: PathView,
    encrypted_path: PathView,
    healthy: bool,
    other: PathView,
)
    requires
        deletions_noted(before.work, after.work, step, path, encrypted_path, healthy),
        !same_path(other, encrypted_path),
    ensures
        after.work.pending_deletions@.contains_key(other)
            == before.work.pending_deletions@.contains_key(other),
        after.work.pending_deletions@[other] == before.work.pending_deletions@[other],
{
}

/// A file that is held back as hard-linked keeps its encrypted form, unless it lives elsewhere: no
/// deletion is pending for it.
pub proof fn linked_files_keep_their_encrypted_form(
    before: SyncTracker,
    after: SyncTracker,
    path: PathView,
    encrypted_path: PathView,
    current: Set<PathKey>,
    protected: Set<PathKey>,
    present: Set<PathKey>,
    facts: MissingFacts,
)
    requires
        !current.contains(path.key()),
        !protected.contains(path.key()),
        !before.work.pending_open_unlinked@.contains_key(path),
        before.held.unsupported_hard_link_paths@.contains_key(path),
        !lives_elsewhere(before, path, present, facts),
        deletions_noted(
            before.work,
            after.work,
            missing_step(before, path, encrypted_path, current, protected, present, facts),
            path,
            encrypted_path,
            before.scan_health is Healthy,
        ),
    ensures
        missing_step(before, path, encrypted_path, current, protected, present, facts)
            == if facts.encrypted_exists {
            MissingStep::LinkKept
        } else {
            MissingStep::LinkGone
        },
        !after.work.pending_deletions@.contains_key(encrypted_path),
{
    elsewhere_in_values(before, path, present, facts);
}

/// One more look at the mount counts every deletion that is looked at up by one where the file is
/// missing, and starts it anew where the file is back. A look without faults is remembered. The
/// other deletions stay as they are, and none comes or goes.
pub proof fn looks_are_counted(
    deletions: PathEntries<(PathView, u32, bool)>,
    files: Seq<PathKey>,
    present: Set<PathKey>,
    healthy: bool,
    e: PathView,
)
    requires
        deletions.contains_key(e),
        deletions[e].1 < u32::MAX,
    ensures
        ({
            let after = scanned(deletions, files, present, healthy);
            let (mount_path, count, seen) = deletions[e];
            &&& after.contains_key(e)
            &&& after[e].0 == mount_path
            &&& files.contains(e.key()) && !present.contains(mount_path.key()) ==> after[e].1
                == count + 1 && after[e].2 == (seen || healthy)
            &&& files.contains(e.key()) && present.contains(mount_path.key()) ==> after[e].1 == 0
                && after[e].2 == seen
            &&& !files.contains(e.key()) ==> after[e] == deletions[e]
        }),
        scanned(deletions, files, present, healthy).map.dom() =~= deletions.map.dom(),
{
}

/// The deletions after so many looks at the mount that find the same.
pub open spec fn looked_at(
    deletions: PathEntries<(PathView, u32, bool)>,
    files: Seq<PathKey>,
    present: Set<PathKey>,
    healthy: bool,
    looks: nat,
) -> PathEntries<(PathView, u32, bool)>
    decreases looks,
{
    if looks == 0 {
        deletions
    } else {
        scanned(
            looked_at(deletions, files, present, healthy, (looks - 1) as nat),
            files,
            present,
            healthy,
        )
    }
}

/// A file that stays away through so many looks at the mount is counted as missing so many times
/// more, and one look without faults among them is enough to know of one.
pub proof fn absences_add_up(
    deletions: PathEntries<(PathView, u32, bool)>,
    files: Seq<PathKey>,
    present: Set<PathKey>,
    healthy: bool,
    looks: nat,
    e: PathView,
)
    requires
        deletions.contains_key(e),
        files.contains(e.key()),
        !present.contains(deletions[e].0.key()),
        deletions[e].1 + looks <= u32::MAX,
    ensures
        ({
            let after = looked_at(deletions, files, present, healthy, looks);
            &&& after.contains_key(e)
            &&& after[e].0 == deletions[e].0
            &&& after[e].1 == deletions[e].1 + looks
            &&& after[e].2 == (deletions[e].2 || (healthy && looks > 0))
        }),
    decreases looks,
{
    if looks > 0 {
        let less = (looks - 1) as nat;
        absences_add_up(deletions, files, present, healthy, less, e);
        looks_are_counted(looked_at(deletions, files, present, healthy, less), files, present, healthy, e);
    }
}

/// A deletion is settled as soon as nothing speaks against it: one under the roots, whose file no
/// process has open and whose metadata is stored, is dropped if the file is back, and carried out if
/// it was missing in enough scans, one of them without faults. It waits otherwise, and only then.
pub proof fn deletions_are_settled(
    tracker: SyncTracker,
    encrypted_path: PathView,
    encrypted_root: PathView,
    mount_root: PathView,
    present: Set<PathKey>,
)
    requires
        encrypted_root.names.is_prefix_of(encrypted_path.names),
        encrypted_root.absolute == encrypted_path.absolute,
        ({
            let mounted = tracker.work.pending_deletions@[encrypted_path].mount_path@;
            &&& mount_root.names.is_prefix_of(mounted.names)
            &&& mount_root.absolute == mounted.absolute
        }),
    ensures
        ({
            let pending = tracker.work.pending_deletions@[encrypted_path];
            let enough = tracker.settings.deletion_config.min_consecutive_missing_scans;
            let held = tracker.work.pending_open_unlinked@.contains_key(pending.mount_path@)
                || tracker.work.pending_metadata@.contains_key(encrypted_path);
            let back = present.contains(pending.mount_path@.key());
            let verdict = deletion_verdict(
                tracker,
                encrypted_path,
                encrypted_root,
                mount_root,
                present,
            );
            &&& held ==> verdict == DeletionVerdict::Wait
            &&& !held && back ==> verdict == DeletionVerdict::Cancel
            &&& !held && !back && pending.consecutive_missing_scans >= enough
                && pending.had_healthy_scan ==> verdict == DeletionVerdict::Delete
            &&& pending.consecutive_missing_scans < enough && !back ==> verdict
                == DeletionVerdict::Wait
            &&& !pending.had_healthy_scan && !back ==> verdict == DeletionVerdict::Wait
        }),
{
}

/// A deletion that is settled is not pending any longer, one that waits is, and a file whose
/// deletion was carried out is forgotten at the path where it was mounted.
pub proof fn settled_deletions_are_forgotten(
    before: SyncTracker,
    after: SyncTracker,
    encrypted_root: PathView,
    mount_root: PathView,
    present: Set<PathKey>,
    confirmed: Seq<PathView>,
    i: int,
)
    requires
        after.work.pending_deletions@ == before.work.pending_deletions@.remove_keys(
            settled_deletions(before, encrypted_root, mount_root, present),
        ),
        mounts_forgotten(
            before.files,
            after.files,
            mounted_at(before.files.path_mapping@, confirmed),
        ),
        0 <= i < confirmed.len(),
        before.files.path_mapping@.contains_key(confirmed[i]),
    ensures
        ({
            let at = before.files.path_mapping@[confirmed[i]]@;
            &&& !after.files.decrypted_signatures@.contains_key(at)
            &&& !after.files.decrypted_hashes@.contains_key(at)
            &&& !after.files.decrypted_metadata_hashes@.contains_key(at)
        }),
        forall|e: PathView|
            #![trigger after.work.pending_deletions@.contains_key(e)]
            before.work.pending_deletions@.contains_key(e) && same_path(
                before.work.pending_deletions@.stored(e),
                e,
            ) ==> (after.work.pending_deletions@.contains_key(e) <==> deletion_verdict(
                before,
                before.work.pending_deletions@.stored(e),
                encrypted_root,
                mount_root,
                present,
            ) == DeletionVerdict::Wait),
{
    let at = before.files.path_mapping@[confirmed[i]]@;
    assert(mounted_at(before.files.path_mapping@, confirmed).contains(at.key()));
}

/// A mounted file whose encrypted form is gone, though it had one, and that was not changed here
/// counts as an orphan once more in a scan without faults, and keeps its count in one with faults.
pub proof fn orphans_are_counted(
    before: SyncTracker,
    after: SyncTracker,
    path: PathView,
    encrypted_path: PathView,
    expected: Set<PathKey>,
    signature: FileSignature,
    content_hash: Option<Digest>,
    metadata_hash: Option<Digest>,
)
    requires
        !has_marker(path, "conflict"@),
        !excluded(texts(before.settings.excluded_patterns@), path),
        !expected.contains(path.key()),
        !before.held.unsupported_hard_link_paths@.contains_key(path),
        before.files.encrypted_signatures@.contains_key(encrypted_path),
        before.files.decrypted_signatures@.contains_key(path),
        before.files.decrypted_signatures@[path] == signature,
        before.work.pending_orphans@.contains_key(path)
            ==> before.work.pending_orphans@[path].consecutive_missing_scans < u32::MAX,
        orphans_tracked(
            before.work,
            after.work,
            track_step(
                before,
                path,
                encrypted_path,
                expected,
                FileLook::Found { signature, content_hash, metadata_hash },
            ),
            path,
            encrypted_path,
            before.scan_health is Healthy,
        ),
    ensures
        ({
            let healthy = before.scan_health is Healthy;
            let had = before.work.pending_orphans@;
            let now = after.work.pending_orphans@[path];
            &&& after.work.pending_orphans@.contains_key(path)
            &&& now.encrypted_path@ == encrypted_path
            &&& now.consecutive_missing_scans == (if had.contains_key(path) {
                had[path].consecutive_missing_scans as int
            } else {
                0
            }) + if healthy {
                1int
            } else {
                0int
            }
            &&& now.had_healthy_scan == (healthy || (had.contains_key(path)
                && had[path].had_healthy_scan))
        }),
{
}

/// A mounted file whose encrypted form is there, or that never had one, is no orphan.
pub proof fn files_with_an_encrypted_form_are_no_orphans(
    before: SyncTracker,
    after: SyncTracker,
    path: PathView,
    encrypted_path: PathView,
    expected: Set<PathKey>,
    look: FileLook,
    healthy: bool,
)
    requires
        !has_marker(path, "conflict"@),
        !excluded(texts(before.settings.excluded_patterns@), path),
        expected.contains(path.key()) || (!before.held.unsupported_hard_link_paths@.contains_key(
            path,
        ) && !before.files.encrypted_signatures@.contains_key(encrypted_path)
            && !before.files.path_mapping@.contains_key(encrypted_path)),
        orphans_tracked(
            before.work,
            after.work,
            track_step(before, path, encrypted_path, expected, look),
            path,
            encrypted_path,
            healthy,
        ),
    ensures
        track_step(before, path, encrypted_path, expected, look) == TrackStep::NoOrphan,
        !after.work.pending_orphans@.contains_key(path),
{
}

/// A mounted file that is gone on both sides is forgotten; no other step forgets anything.
pub proof fn only_gone_files_are_forgotten(
    before: SyncTracker,
    after: SyncTracker,
    path: PathView,
    encrypted_path: PathView,
    expected: Set<PathKey>,
    look: FileLook,
)
    requires
        ledger_tracked(
            before.files,
            after.files,
            track_step(before, path, encrypted_path, expected, look),
            track_compared(before, path, encrypted_path, expected, look),
            path,
            encrypted_path,
            look,
        ),
        !(look is Missing),
    ensures
        after.files.decrypted_signatures@ == before.files.decrypted_signatures@,
        after.files.encrypted_signatures@ == before.files.encrypted_signatures@,
        after.files.path_mapping@ == before.files.path_mapping@,
        after.files.file_id_to_mount_path@ == before.files.file_id_to_mount_path@,
{
}

/// A mounted directory whose encrypted form is gone, though it had one, is removed if its metadata
/// is the noted one, and stays if it is not. The root stays, and so does one that is expected, only
/// waits for room or never had an encrypted form.
pub proof fn directories_follow_the_other_side(
    tracker: SyncTracker,
    mount_root: PathView,
    path: PathView,
    encrypted_path: PathView,
    expected: Set<PathKey>,
    protected: Set<PathKey>,
    exists: bool,
    metadata_hash: Option<Digest>,
)
    ensures
        ({
            let track = directory_track(
                tracker,
                mount_root,
                path,
                encrypted_path,
                expected,
                protected,
                exists,
                metadata_hash,
            );
            let noted = tracker.files.decrypted_directory_metadata_hashes@;
            let lost = path.key() != mount_root.key() && !expected.contains(path.key())
                && !protected.contains(path.key())
                && tracker.files.encrypted_directory_signatures@.contains_key(encrypted_path);
            let same = match metadata_hash {
                Some(hash) => noted.contains_key(path) && noted[path] == hash,
                None => !noted.contains_key(path),
            };
            &&& !lost ==> track == DirectoryTrack::Keep
            &&& lost && !exists ==> track == DirectoryTrack::Forget
            &&& lost && exists && same ==> track == DirectoryTrack::RemoveIfEmpty
            &&& lost && exists && !same ==> track == DirectoryTrack::Keep
        }),
{
}

} // verus!
