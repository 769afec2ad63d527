//! What the files hold after a copy was resolved.

use vstd::prelude::*;
use vstd::string::*;
use vstd::utf8::encode_utf8;

use crate::path::{
    file_name_text, join, kept_names, parse, starts_with, NameView, PathKey, PathView,
};
use crate::path_laws::{first_piece_of, leading_dot};
use crate::resolution::{
    archived_at, conflict_refusal, conflict_steps, copy_dropped, first_with_id, recovery_refusal,
    recovery_steps, saved_at, ConflictResolutionAction, RecoveryCopyResolutionAction, StepView,
};
use crate::text::split;
use crate::tracker::{ConflictBaseline, SyncTracker};

verus! {

/// The files that are there, with what they hold.
pub type Files = Map<PathKey, Seq<u8>>;

/// The files after the content of one was put in the place of another.
pub open spec fn copied(files: Files, source: PathView, target: PathView) -> Files {
    if files.contains_key(source.key()) {
        files.insert(target.key(), files[source.key()])
    } else {
        files
    }
}

/// The files after one step of a resolution was carried out.
pub open spec fn carried_out(files: Files, step: StepView) -> Files {
    match step {
        StepView::Archive { source, target } => copied(files, source, target),
        StepView::Replace { source, destination } => copied(files, source, destination),
        StepView::ReplaceKeepingMetadata { source, destination } => copied(
            files,
            source,
            destination,
        ),
        StepView::MakeOrdinary { .. } => files,
        StepView::WriteText { destination, text } => files.insert(
            destination.key(),
            encode_utf8(text),
        ),
        StepView::Remove { path } => files.remove(path.key()),
    }
}

/// The files after all steps of a resolution were carried out in their order.
pub open spec fn resolved(files: Files, steps: Seq<StepView>) -> Files
    decreases steps.len(),
{
    if steps.len() == 0 {
        files
    } else {
        carried_out(resolved(files, steps.drop_last()), steps.last())
    }
}

/// Some archived file holds a content, and all lie in the archive.
pub open spec fn is_archived(
    files: Files,
    archive_paths: Seq<PathView>,
    dir: PathView,
    content: Seq<u8>,
) -> bool {
    exists|i: int|
        0 <= i < archive_paths.len() && #[trigger] starts_with(archive_paths[i], dir)
            && files.contains_key(archive_paths[i].key()) && files[archive_paths[i].key()]
            == content
}

/// A path is none of those given.
pub open spec fn is_none_of(key: PathKey, paths: Seq<PathView>) -> bool {
    forall|i: int| 0 <= i < paths.len() ==> (#[trigger] paths[i]).key() != key
}

/// The name of an archived file begins with the letter of its label.
proof fn archive_names(dir: PathView, label: Seq<char>, source: PathView)
    requires
        label.len() > 0,
        label[0] != '/',
        label[0] != '.',
    ensures
        starts_with(archived_at(dir, label, source), dir),
        archived_at(dir, label, source).absolute == dir.absolute,
        archived_at(dir, label, source).names.len() > dir.names.len(),
        ({
            let name = archived_at(dir, label, source).names[dir.names.len() as int];
            name matches NameView::Text(text) && text.len() > 0 && text[0] == label[0]
        }),
{
    reveal_strlit("_");
    reveal_strlit(".");
    let text = label + "_"@ + match file_name_text(source) {
        Some(name) => name,
        None => "unknown"@,
    };
    assert(text[0] == label[0]);
    let pieces = split(text, '/');
    first_piece_of(text);
    leading_dot(pieces);
    assert(pieces[0] != "."@);
    let relative = parse(text);
    assert(relative.names == kept_names(false, pieces));
    assert(relative.names[0] == NameView::Text(pieces[0]));
    let at = join(dir, relative);
    assert(at.names =~= dir.names + relative.names);
    assert(at.names[dir.names.len() as int] == relative.names[0]);
    assert(dir.names.is_prefix_of(at.names));
}

/// Archived files are where no file of the mount is, and one labelled with one letter is not where
/// one labelled with another is.
proof fn archives_are_apart(
    dir: PathView,
    a: Seq<char>,
    first: PathView,
    b: Seq<char>,
    second: PathView,
)
    requires
        a.len() > 0,
        b.len() > 0,
        a[0] != '/',
        a[0] != '.',
        b[0] != '/',
        b[0] != '.',
        a[0] != b[0],
    ensures
        archived_at(dir, a, first).key() != archived_at(dir, b, second).key(),
        starts_with(archived_at(dir, a, first), dir),
        starts_with(archived_at(dir, b, second), dir),
{
    archive_names(dir, a, first);
    archive_names(dir, b, second);
}

/// A path outside a folder is not the same as one in it.
proof fn outside_is_not_inside(outside: PathView, inside: PathView, dir: PathView)
    requires
        !starts_with(outside, dir),
        starts_with(inside, dir),
    ensures
        outside.key() != inside.key(),
{
}

/// The two ways to write a plan with its last steps apart.
proof fn resolved_in_order(files: Files, steps: Seq<StepView>, step: StepView)
    ensures
        resolved(files, steps.push(step)) == carried_out(resolved(files, steps), step),
{
    assert(steps.push(step).drop_last() =~= steps);
}

proof fn two_steps(files: Files, a: StepView, b: StepView)
    ensures
        resolved(files, seq![a, b]) == carried_out(carried_out(files, a), b),
{
    let none = Seq::<StepView>::empty();
    resolved_in_order(files, none, a);
    resolved_in_order(files, none.push(a), b);
    assert(none.push(a).push(b) =~= seq![a, b]);
}

proof fn three_steps(files: Files, a: StepView, b: StepView, c: StepView)
    ensures
        resolved(files, seq![a, b, c]) == carried_out(carried_out(carried_out(files, a), b), c),
{
    two_steps(files, a, b);
    resolved_in_order(files, seq![a, b], c);
    assert(seq![a, b].push(c) =~= seq![a, b, c]);
}

proof fn four_steps(files: Files, a: StepView, b: StepView, c: StepView, d: StepView)
    ensures
        resolved(files, seq![a, b, c, d]) == carried_out(
            carried_out(carried_out(carried_out(files, a), b), c),
            d,
        ),
{
    three_steps(files, a, b, c);
    resolved_in_order(files, seq![a, b, c], d);
    assert(seq![a, b, c].push(d) =~= seq![a, b, c, d]);
}

proof fn five_steps(files: Files, a: StepView, b: StepView, c: StepView, d: StepView, e: StepView)
    ensures
        resolved(files, seq![a, b, c, d, e]) == carried_out(
            carried_out(carried_out(carried_out(carried_out(files, a), b), c), d),
            e,
        ),
{
    four_steps(files, a, b, c, d);
    resolved_in_order(files, seq![a, b, c, d], e);
    assert(seq![a, b, c, d].push(e) =~= seq![a, b, c, d, e]);
}

/// What the files hold after a conflict was resolved, whichever way was chosen: the copy is gone.
/// Whatever the mounted file or the copy held and is not in the mount any longer is in the archive,
/// and no other file is touched. `KeepMountedFile` and `ArchiveAndDismiss` leave the mounted file as
/// it was, `UseConflictCopy` puts what the copy held in its place whether or not it was there,
/// `MergeText` the merged text, and `SaveConflictAsNew` puts what the copy held at the destination
/// and leaves the mounted file. The file that is given for encryption is the one that was written.
pub proof fn conflicts_are_resolved_as_asked(
    files: Files,
    action: ConflictResolutionAction,
    copy: PathView,
    live: PathView,
    live_exists: bool,
    dir: PathView,
    destination: PathView,
    text: Seq<char>,
    other: PathKey,
)
    requires
        files.contains_key(copy.key()),
        live_exists == files.contains_key(live.key()),
        copy.key() != live.key(),
        !starts_with(copy, dir),
        !starts_with(live, dir),
        !starts_with(destination, dir),
        action == ConflictResolutionAction::MergeText ==> live_exists,
        action == ConflictResolutionAction::SaveConflictAsNew ==> !files.contains_key(
            destination.key(),
        ),
        action == ConflictResolutionAction::ArchiveAndDismiss ==> !live_exists,
    ensures
        ({
            let (steps, archive_paths, to_encrypt) = conflict_steps(
                action,
                copy,
                live,
                live_exists,
                dir,
                destination,
                text,
            );
            let after = resolved(files, steps);
            let held = files[copy.key()];
            &&& !after.contains_key(copy.key())
            &&& match action {
                ConflictResolutionAction::KeepMountedFile => {
                    &&& after.contains_key(live.key()) == live_exists
                    &&& live_exists ==> after[live.key()] == files[live.key()]
                    &&& is_archived(after, archive_paths, dir, held)
                    &&& to_encrypt is None
                },
                ConflictResolutionAction::UseConflictCopy => {
                    &&& after.contains_key(live.key())
                    &&& after[live.key()] == held
                    &&& live_exists ==> is_archived(
                        after,
                        archive_paths,
                        dir,
                        files[live.key()],
                    )
                    &&& to_encrypt == Some(live)
                },
                ConflictResolutionAction::MergeText => {
                    &&& after.contains_key(live.key())
                    &&& after[live.key()] == encode_utf8(text)
                    &&& is_archived(after, archive_paths, dir, held)
                    &&& is_archived(after, archive_paths, dir, files[live.key()])
                    &&& to_encrypt == Some(live)
                },
                ConflictResolutionAction::SaveConflictAsNew => {
                    &&& after.contains_key(destination.key())
                    &&& after[destination.key()] == held
                    &&& live_exists ==> after.contains_key(live.key()) && after[live.key()]
                        == files[live.key()]
                    &&& is_archived(after, archive_paths, dir, held)
                    &&& to_encrypt == Some(destination)
                },
                ConflictResolutionAction::ArchiveAndDismiss => {
                    &&& !after.contains_key(live.key())
                    &&& is_archived(after, archive_paths, dir, held)
                    &&& to_encrypt is None
                },
            }
            &&& other != copy.key() && (to_encrypt is Some ==> other != to_encrypt->0.key())
                && is_none_of(other, archive_paths) ==> {
                &&& after.contains_key(other) == files.contains_key(other)
                &&& files.contains_key(other) ==> after[other] == files[other]
            }
        }),
{
    reveal_strlit("conflict");
    reveal_strlit("live");
    let copy_archive = archived_at(dir, "conflict"@, copy);
    let live_archive = archived_at(dir, "live"@, live);
    archives_are_apart(dir, "conflict"@, copy, "live"@, live);
    outside_is_not_inside(copy, copy_archive, dir);
    outside_is_not_inside(copy, live_archive, dir);
    outside_is_not_inside(live, copy_archive, dir);
    outside_is_not_inside(live, live_archive, dir);
    outside_is_not_inside(destination, copy_archive, dir);
    let plan = conflict_steps(action, copy, live, live_exists, dir, destination, text);
    let steps = plan.0;
    let paths = plan.1;
    match action {
        ConflictResolutionAction::UseConflictCopy => {
            if live_exists {
                assert(steps =~= seq![steps[0], steps[1], steps[2], steps[3]]);
                four_steps(files, steps[0], steps[1], steps[2], steps[3]);
                assert(starts_with(paths[0], dir));
            } else {
                assert(steps =~= seq![steps[0], steps[1], steps[2]]);
                three_steps(files, steps[0], steps[1], steps[2]);
            }
        },
        ConflictResolutionAction::MergeText => {
            four_steps(files, steps[0], steps[1], steps[2], steps[3]);
            assert(steps =~= seq![steps[0], steps[1], steps[2], steps[3]]);
            assert(starts_with(paths[0], dir));
            assert(starts_with(paths[1], dir));
        },
        ConflictResolutionAction::SaveConflictAsNew => {
            four_steps(files, steps[0], steps[1], steps[2], steps[3]);
            assert(steps =~= seq![steps[0], steps[1], steps[2], steps[3]]);
            assert(starts_with(paths[0], dir));
        },
        _ => {
            two_steps(files, steps[0], steps[1]);
            assert(steps =~= seq![steps[0], steps[1]]);
            assert(starts_with(paths[0], dir));
        },
    }
    if is_none_of(other, paths) {
        if paths.len() > 0 {
            assert(paths[0].key() != other);
        }
        if paths.len() > 1 {
            assert(paths[1].key() != other);
        }
    }
}

/// What the files hold after a recovered copy was resolved: the copy is gone and is in the archive,
/// with the mounted file if that was replaced, and no other file is touched. `ReplaceMountedFile`
/// puts what the copy held in the place of the mounted file whether or not it was there, `SaveAsNew`
/// puts it at the destination and leaves the mounted file, and `ArchiveAndDismiss` leaves the mounted
/// file. The file that is given for encryption is the one that was written.
pub proof fn recovered_copies_are_resolved_as_asked(
    files: Files,
    action: RecoveryCopyResolutionAction,
    copy: PathView,
    live: PathView,
    live_exists: bool,
    dir: PathView,
    destination: PathView,
    other: PathKey,
)
    requires
        files.contains_key(copy.key()),
        live_exists == files.contains_key(live.key()),
        copy.key() != live.key(),
        !starts_with(copy, dir),
        !starts_with(live, dir),
        !starts_with(destination, dir),
        action == RecoveryCopyResolutionAction::SaveAsNew ==> !files.contains_key(
            destination.key(),
        ),
    ensures
        ({
            let (steps, archive_paths, to_encrypt) = recovery_steps(
                action,
                copy,
                live,
                live_exists,
                dir,
                destination,
            );
            let after = resolved(files, steps);
            let held = files[copy.key()];
            &&& !after.contains_key(copy.key())
            &&& is_archived(after, archive_paths, dir, held)
            &&& match action {
                RecoveryCopyResolutionAction::ReplaceMountedFile => {
                    &&& after.contains_key(live.key())
                    &&& after[live.key()] == held
                    &&& live_exists ==> is_archived(
                        after,
                        archive_paths,
                        dir,
                        files[live.key()],
                    )
                    &&& to_encrypt == Some(live)
                },
                RecoveryCopyResolutionAction::SaveAsNew => {
                    &&& after.contains_key(destination.key())
                    &&& after[destination.key()] == held
                    &&& live_exists ==> after.contains_key(live.key()) && after[live.key()]
                        == files[live.key()]
                    &&& to_encrypt == Some(destination)
                },
                RecoveryCopyResolutionAction::ArchiveAndDismiss => {
                    &&& after.contains_key(live.key()) == live_exists
                    &&& live_exists ==> after[live.key()] == files[live.key()]
                    &&& to_encrypt is None
                },
            }
            &&& other != copy.key() && (to_encrypt is Some ==> other != to_encrypt->0.key())
                && is_none_of(other, archive_paths) ==> {
                &&& after.contains_key(other) == files.contains_key(other)
                &&& files.contains_key(other) ==> after[other] == files[other]
            }
        }),
{
    reveal_strlit("recovery");
    reveal_strlit("live");
    let copy_archive = archived_at(dir, "recovery"@, copy);
    let live_archive = archived_at(dir, "live"@, live);
    archives_are_apart(dir, "recovery"@, copy, "live"@, live);
    outside_is_not_inside(copy, copy_archive, dir);
    outside_is_not_inside(copy, live_archive, dir);
    outside_is_not_inside(live, copy_archive, dir);
    outside_is_not_inside(live, live_archive, dir);
    outside_is_not_inside(destination, copy_archive, dir);
    let plan = recovery_steps(action, copy, live, live_exists, dir, destination);
    let steps = plan.0;
    let paths = plan.1;
    match action {
        RecoveryCopyResolutionAction::ReplaceMountedFile => {
            if live_exists {
                assert(steps =~= seq![steps[0], steps[1], steps[2], steps[3], steps[4]]);
                five_steps(files, steps[0], steps[1], steps[2], steps[3], steps[4]);
                assert(starts_with(paths[0], dir));
                assert(starts_with(paths[1], dir));
            } else {
                assert(steps =~= seq![steps[0], steps[1], steps[2], steps[3]]);
                four_steps(files, steps[0], steps[1], steps[2], steps[3]);
                assert(starts_with(paths[0], dir));
            }
        },
        RecoveryCopyResolutionAction::SaveAsNew => {
            four_steps(files, steps[0], steps[1], steps[2], steps[3]);
            assert(steps =~= seq![steps[0], steps[1], steps[2], steps[3]]);
            assert(starts_with(paths[0], dir));
        },
        RecoveryCopyResolutionAction::ArchiveAndDismiss => {
            two_steps(files, steps[0], steps[1]);
            assert(steps =~= seq![steps[0], steps[1]]);
            assert(starts_with(paths[0], dir));
        },
    }
    if is_none_of(other, paths) {
        if paths.len() > 0 {
            assert(paths[0].key() != other);
        }
        if paths.len() > 1 {
            assert(paths[1].key() != other);
        }
    }
}

/// A conflict is refused only where what is asked cannot be done: a merge without a text or without
/// a mounted file, a new file without a place or in the place of another, and a dismissal while the
/// mounted file is there. To keep the mounted file or to take the copy is never refused.
pub proof fn conflicts_are_refused_for_a_reason(
    action: ConflictResolutionAction,
    merged_text: Option<Seq<char>>,
    live_exists: bool,
    mount_root: PathView,
    destination: Option<PathView>,
    present: Set<PathKey>,
)
    ensures
        conflict_refusal(
            action,
            merged_text,
            live_exists,
            mount_root,
            destination,
            present,
        ) is Some <==> match action {
            ConflictResolutionAction::KeepMountedFile => false,
            ConflictResolutionAction::UseConflictCopy => false,
            ConflictResolutionAction::MergeText => merged_text is None || !live_exists,
            ConflictResolutionAction::SaveConflictAsNew => destination is None || present.contains(
                join(mount_root, destination->0).key(),
            ),
            ConflictResolutionAction::ArchiveAndDismiss => live_exists,
        },
        destination is Some ==> saved_at(mount_root, destination) == join(
            mount_root,
            destination->0,
        ),
{
}

/// A recovered copy is refused only where it is to be saved without a place or in the place of
/// another file.
pub proof fn recovered_copies_are_refused_for_a_reason(
    action: RecoveryCopyResolutionAction,
    mount_root: PathView,
    destination: Option<PathView>,
    present: Set<PathKey>,
)
    ensures
        recovery_refusal(action, mount_root, destination, present) is Some <==> action
            == RecoveryCopyResolutionAction::SaveAsNew && (destination is None || present.contains(
            join(mount_root, destination->0).key(),
        )),
{
}

/// A conflict is found by its identifier if one has it, and it is the first of those.
pub proof fn conflicts_are_found_by_identifier(
    values: Seq<ConflictBaseline>,
    id: u128,
    from: int,
)
    requires
        0 <= from,
    ensures
        match first_with_id(values, id, from) {
            Some(i) => {
                &&& from <= i < values.len()
                &&& values[i].id == id
                &&& forall|k: int| from <= k < i ==> (#[trigger] values[k]).id != id
            },
            None => forall|k: int| from <= k < values.len() ==> (#[trigger] values[k]).id != id,
        },
    decreases values.len() - from,
{
    if from < values.len() && values[from].id != id {
        conflicts_are_found_by_identifier(values, id, from + 1);
    }
}

/// Nothing is known any longer of a copy that was resolved, and what is known of other files stays.
pub proof fn resolved_copies_are_forgotten(
    before: SyncTracker,
    after: SyncTracker,
    copy: PathView,
    other: PathView,
)
    requires
        copy_dropped(before, after, copy),
    ensures
        !after.files.decrypted_signatures@.contains_key(copy),
        !after.files.decrypted_hashes@.contains_key(copy),
        !after.files.decrypted_metadata_hashes@.contains_key(copy),
        !after.held.pending_stable@.contains_key(copy),
        other.key() != copy.key() ==> {
            &&& after.files.decrypted_signatures@.contains_key(other)
                == before.files.decrypted_signatures@.contains_key(other)
            &&& after.files.decrypted_signatures@[other] == before.files.decrypted_signatures@[other]
            &&& after.held.pending_stable@.contains_key(other)
                == before.held.pending_stable@.contains_key(other)
            &&& after.held.pending_stable@[other] == before.held.pending_stable@[other]
        },
        after.work == before.work,
        after.files.encrypted_signatures@ == before.files.encrypted_signatures@,
{
}

} // verus!
