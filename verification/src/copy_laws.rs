//! What is known of conflict copies and recovered copies, and where files go whose place is taken.

use vstd::prelude::*;

use crate::conflicts::{
    baseline_noted, copies_kept, copy_place, recovered_move, settled_kind, settled_live_path,
};
use crate::local_only::{
    copy_path, first_free, free_copy_is_free, live_path, local_copy_path,
};
use crate::names::collision_path;
use crate::path::{
    join, parse, same_path, starts_with, strip_prefix, PathEntries, PathKey, PathView, TextEntries,
};
use crate::pending::{collision_key, collision_resolved, writeback_changes, writeback_recorded};
use crate::text::trim;
use crate::tracker::{ConflictBaseline, ConflictKind, Digest, FileSignature, PendingWriteback, UtcNanos};

verus! {

/// A copy that is seen for the first time counts as not edited, whatever it holds.
pub proof fn new_copies_are_not_edited(
    before: PathEntries<ConflictBaseline>,
    entry: ConflictBaseline,
    path: PathView,
    signature: FileSignature,
    kind: ConflictKind,
    live: PathView,
    id: u128,
    created_at: UtcNanos,
    content_hash: Option<Digest>,
)
    requires
        !before.contains_key(path),
        baseline_noted(
            before,
            entry,
            path,
            signature,
            kind,
            live,
            id,
            created_at,
            content_hash,
        ),
    ensures
        !entry.edited,
        entry.id == id,
        entry.created_at == created_at,
        entry.content_hash == content_hash,
        entry.signature == signature,
        entry.kind == kind,
        entry.live_path@ == live,
{
}

/// A copy counts as edited exactly if it did before, or its content is another than at the first
/// look: by its digest, where one was taken then, and else by its times and its length. The digest
/// of the first look, the identifier and the time stay.
pub proof fn edited_copies_are_noticed(
    before: PathEntries<ConflictBaseline>,
    entry: ConflictBaseline,
    path: PathView,
    signature: FileSignature,
    kind: ConflictKind,
    live: PathView,
    id: u128,
    created_at: UtcNanos,
    content_hash: Option<Digest>,
)
    requires
        before.contains_key(path),
        baseline_noted(
            before,
            entry,
            path,
            signature,
            kind,
            live,
            id,
            created_at,
            content_hash,
        ),
    ensures
        ({
            let known = before[path];
            &&& known.content_hash is Some ==> (entry.edited <==> known.edited || content_hash
                is None || content_hash->0 != known.content_hash->0)
            &&& known.content_hash is None ==> (entry.edited <==> {
                ||| known.edited
                ||| known.signature.modified_ns != signature.modified_ns
                ||| known.signature.ctime_ns != signature.ctime_ns
                ||| known.signature.len != signature.len
            })
            &&& known.content_hash is Some ==> entry.content_hash == known.content_hash
            &&& known.content_hash is None ==> entry.content_hash == content_hash
            &&& entry.id == known.id
            &&& entry.created_at == known.created_at
            &&& entry.signature == signature
        }),
{
}

/// A copy that stays as it was at the first look is not taken for edited in any later one.
pub proof fn untouched_copies_stay_unedited(
    before: PathEntries<ConflictBaseline>,
    between: PathEntries<ConflictBaseline>,
    last: ConflictBaseline,
    path: PathView,
    signature: FileSignature,
    kind: ConflictKind,
    live: PathView,
    id: u128,
    created_at: UtcNanos,
    content_hash: Option<Digest>,
    later_id: u128,
    later: UtcNanos,
)
    requires
        !before.contains_key(path),
        between.contains_key(path),
        baseline_noted(
            before,
            between[path],
            path,
            signature,
            kind,
            live,
            id,
            created_at,
            content_hash,
        ),
        baseline_noted(
            between,
            last,
            path,
            signature,
            kind,
            live,
            later_id,
            later,
            content_hash,
        ),
    ensures
        !last.edited,
        last.id == id,
        last.created_at == created_at,
        last.content_hash == content_hash,
{
}

/// The kind of a conflict is the given one, else the one that is written on the copy; only where
/// neither tells, the reason does, and a copy of which nothing is known counts as a collision.
pub proof fn known_kinds_are_kept(
    given: Option<ConflictKind>,
    kind_attribute: Option<Seq<char>>,
    reason: Option<Seq<char>>,
)
    ensures
        given is Some ==> settled_kind(given, kind_attribute, reason) == given->0,
        given is None && kind_attribute is None ==> settled_kind(given, kind_attribute, reason)
            == if reason == Some("deleted_open_recovery"@) {
            ConflictKind::DeletedOpenRecovery
        } else {
            ConflictKind::DecryptCollision
        },
        given is None ==> settled_kind(given, kind_attribute, reason) == settled_kind(
            Some(settled_kind(given, kind_attribute, reason)),
            None,
            None,
        ),
{
}

/// A copy belongs to the file whose path is written on it, and else to the one that its name tells.
pub proof fn copies_belong_to_the_written_path(path: PathView, attribute: Option<Seq<char>>)
    ensures
        attribute is Some && trim(attribute->0).len() > 0 ==> settled_live_path(path, attribute)
            == parse(trim(attribute->0)),
        attribute is None || trim(attribute->0).len() == 0 ==> settled_live_path(path, attribute)
            == live_path(path, "conflict"@, "conflict"@),
{
}

/// A copy stays known exactly if it was seen as one and is there.
pub proof fn seen_copies_stay_known<T>(
    before: PathEntries<T>,
    seen: Set<PathKey>,
    present: Set<PathKey>,
    path: PathView,
)
    requires
        before.contains_key(path) ==> same_path(before.stored(path), path),
    ensures
        copies_kept(before, seen, present).contains_key(path) <==> before.contains_key(path)
            && seen.contains(path.key()) && present.contains(path.key()),
        copies_kept(before, seen, present).contains_key(path) ==> copies_kept(
            before,
            seen,
            present,
        )[path] == before[path],
{
}

/// A copy of a file lies beside the file, at a path that is free as long as fewer than a thousand
/// are taken, and the first of them that is.
pub proof fn copies_go_to_free_paths(
    path: PathView,
    marker: Seq<char>,
    fallback: Seq<char>,
    stamp: Seq<char>,
    taken: Set<PathKey>,
    index: int,
)
    requires
        0 <= index < 999,
        !taken.contains(copy_path(path, marker, fallback, stamp, index).key()),
    ensures
        !taken.contains(local_copy_path(path, marker, fallback, stamp, taken).key()),
        0 <= first_free(path, marker, fallback, stamp, taken, 0) <= index,
        local_copy_path(path, marker, fallback, stamp, taken) == copy_path(
            path,
            marker,
            fallback,
            stamp,
            first_free(path, marker, fallback, stamp, taken, 0),
        ),
        forall|earlier: int|
            0 <= earlier < first_free(path, marker, fallback, stamp, taken, 0) ==> taken.contains(
                (#[trigger] copy_path(path, marker, fallback, stamp, earlier)).key(),
            ),
{
    free_path_is_first(path, marker, fallback, stamp, taken, 0, index);
    free_copy_is_free(path, marker, fallback, stamp, taken, 0);
}

proof fn free_path_is_first(
    path: PathView,
    marker: Seq<char>,
    fallback: Seq<char>,
    stamp: Seq<char>,
    taken: Set<PathKey>,
    from: int,
    index: int,
)
    requires
        0 <= from <= index < 999,
        !taken.contains(copy_path(path, marker, fallback, stamp, index).key()),
    ensures
        from <= first_free(path, marker, fallback, stamp, taken, from) <= index,
        forall|earlier: int|
            from <= earlier < first_free(path, marker, fallback, stamp, taken, from)
                ==> taken.contains(
                (#[trigger] copy_path(path, marker, fallback, stamp, earlier)).key(),
            ),
    decreases index - from,
{
    if from < index && taken.contains(copy_path(path, marker, fallback, stamp, from).key()) {
        free_path_is_first(path, marker, fallback, stamp, taken, from + 1, index);
    }
}

/// A copy that was set aside goes back to the place that it had in the mount, as long as that is
/// free; where it is taken, it goes to a free path beside its file. What lies elsewhere is left.
pub proof fn copies_go_back_to_their_place(
    quarantined_root: PathView,
    live_root: PathView,
    path: PathView,
    marker: Seq<char>,
    live_fallback: Seq<char>,
    stamp: Seq<char>,
    taken: Set<PathKey>,
    index: int,
)
    requires
        starts_with(path, quarantined_root),
        0 <= index < 999,
        ({
            let target = join(live_root, strip_prefix(path, quarantined_root)->0);
            !taken.contains(
                copy_path(
                    live_path(target, marker, live_fallback),
                    marker,
                    marker,
                    stamp,
                    index,
                ).key(),
            )
        }),
    ensures
        ({
            let target = join(live_root, strip_prefix(path, quarantined_root)->0);
            let place = copy_place(
                quarantined_root,
                live_root,
                path,
                marker,
                live_fallback,
                stamp,
                taken,
            );
            &&& place is Some
            &&& !taken.contains(target.key()) ==> place == Some(target)
            &&& !taken.contains(place->0.key())
        }),
{
    let target = join(live_root, strip_prefix(path, quarantined_root)->0);
    copies_go_to_free_paths(
        live_path(target, marker, live_fallback),
        marker,
        marker,
        stamp,
        taken,
        index,
    );
}

/// A file whose changes were not encrypted is brought back from where it was set aside, at the place
/// that it had in the mount, to a free path beside that place; what was not in the mount is not.
pub proof fn unwritten_files_are_brought_back(
    quarantined_root: PathView,
    live_root: PathView,
    mount_path: PathView,
    stamp: Seq<char>,
    taken: Set<PathKey>,
)
    ensures
        recovered_move(quarantined_root, live_root, mount_path, stamp, taken) is Some
            <==> starts_with(mount_path, live_root),
        starts_with(mount_path, live_root) ==> {
            let relative = strip_prefix(mount_path, live_root)->0;
            let moved = recovered_move(quarantined_root, live_root, mount_path, stamp, taken)->0;
            &&& moved.0 == join(quarantined_root, relative)
            &&& moved.1 == local_copy_path(
                join(live_root, relative),
                "recovered-pending"@,
                "recovered-pending"@,
                stamp,
                taken,
            )
        },
{
}

/// A file keeps its own place, and gets it if nothing lies there and no other file has a place with
/// the same name but for case; otherwise it goes to a path that its identifier makes its own. What
/// is outside of the mount stays where it is.
pub proof fn files_keep_their_place(
    index: TextEntries<PathView>,
    mount_root: PathView,
    target: PathView,
    file_id: Seq<char>,
    target_exists: bool,
    target_file_id: Option<Seq<char>>,
)
    ensures
        ({
            let key = collision_key(mount_root, target);
            let place = collision_resolved(
                index,
                mount_root,
                target,
                file_id,
                target_exists,
                target_file_id,
            ).0;
            let own = target_exists && target_file_id is Some && target_file_id->0 == file_id;
            let free = !target_exists && (key is Some ==> !index.contains_key(key->0) || same_path(
                index[key->0],
                target,
            ));
            &&& key is None || own || free ==> place == target
            &&& key is Some && !own && !free ==> place == collision_path(target, file_id)
        }),
{
}

/// Of two files whose places have the same name but for case, the one that comes second goes to
/// another path; the first keeps its place however often it comes.
pub proof fn second_files_go_elsewhere(
    index: TextEntries<PathView>,
    mount_root: PathView,
    first: PathView,
    second: PathView,
    first_id: Seq<char>,
    second_id: Seq<char>,
)
    requires
        collision_key(mount_root, first) is Some,
        collision_key(mount_root, first) == collision_key(mount_root, second),
        !same_path(first, second),
        !index.contains_key(collision_key(mount_root, first)->0),
    ensures
        ({
            let placed = collision_resolved(index, mount_root, first, first_id, false, None);
            let next = collision_resolved(placed.1, mount_root, second, second_id, false, None);
            let again = collision_resolved(placed.1, mount_root, first, first_id, false, None);
            &&& placed.0 == first
            &&& placed.1.contains_key(collision_key(mount_root, first)->0)
            &&& placed.1[collision_key(mount_root, first)->0] == first
            &&& next.0 == collision_path(second, second_id)
            &&& again.0 == first
        }),
{
}

/// Settling the place of one file leaves the places of all others that are told apart from it.
pub proof fn one_place_is_settled(
    index: TextEntries<PathView>,
    mount_root: PathView,
    target: PathView,
    file_id: Seq<char>,
    target_exists: bool,
    target_file_id: Option<Seq<char>>,
    other: Seq<char>,
)
    requires
        collision_key(mount_root, target) != Some(other),
        collision_key(mount_root, collision_path(target, file_id)) != Some(other),
    ensures
        ({
            let after = collision_resolved(
                index,
                mount_root,
                target,
                file_id,
                target_exists,
                target_file_id,
            ).1;
            &&& after.contains_key(other) == index.contains_key(other)
            &&& index.contains_key(other) ==> after[other] == index[other]
        }),
{
}

/// A change that waits is known since it was seen first, and the last look tells where its encrypted
/// form is, what went wrong and whether room was wanting; what waits for other files stays, and the
/// journal is written whenever anything of that is new.
pub proof fn waiting_changes_keep_their_age(
    before: PathEntries<PendingWriteback>,
    after: PathEntries<PendingWriteback>,
    path: PathView,
    encrypted_path: PathView,
    last_error: Option<Seq<char>>,
    low_space: bool,
    now: UtcNanos,
    other: PathView,
)
    requires
        writeback_recorded(before, after, path, encrypted_path, last_error, low_space, now),
        !same_path(other, path),
    ensures
        after.contains_key(path),
        after[path].first_observed_at == if before.contains_key(path) {
            before[path].first_observed_at
        } else {
            now
        },
        after[path].last_observed_at == now,
        after[path].encrypted_path@ == encrypted_path,
        after[path].low_space == low_space,
        after[path].last_error is Some <==> last_error is Some,
        last_error is Some ==> after[path].last_error->0@ == last_error->0,
        after.contains_key(other) == before.contains_key(other),
        before.contains_key(other) ==> after[other] == before[other],
        !writeback_changes(before, path, encrypted_path, last_error, low_space, now) ==> {
            &&& before.contains_key(path)
            &&& before[path].low_space == low_space
            &&& before[path].last_observed_at == now
            &&& same_path(before[path].encrypted_path@, encrypted_path)
        },
{
}

} // verus!
