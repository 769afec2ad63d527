//! How room is counted, and which volume it is counted on.

use vstd::prelude::*;

use crate::encrypt::{
    ciphertext_budget, desired_id, encrypt_method, header_lacks, metadata_settled, EncryptMethod,
};
use crate::header::EncryptedFileMetadata;
use crate::path::{
    parent, same_path, starts_with, PathKey, PathView, TextEntries,
};
use crate::retention::{name_time, retained_at, retention_over, RetentionNote};
use crate::runner::{fuse_obstacle, journal_name, FuseFacts};
use crate::space::{budget, holding, nearest_present, space_warnings, SpaceWarningState, Volume};
use crate::text::trim;
use crate::tracker::{FileMetadataData, PendingWork, SyncTracker, UtcNanos};

verus! {

/// What is needed and what is kept in reserve add up, as far as that can be counted; more of either
/// never makes less.
pub proof fn needs_add_up(required: u64, reserve: u64, more: u64)
    requires
        required <= more,
    ensures
        required + reserve <= u64::MAX ==> budget(required, reserve) == required + reserve,
        required + reserve > u64::MAX ==> budget(required, reserve) == u64::MAX,
        budget(required, reserve) == budget(reserve, required),
        budget(required, reserve) <= budget(more, reserve),
        budget(required, reserve) >= required,
{
}

proof fn holding_is_the_longest(volumes: Seq<Volume>, path: PathView, n: int)
    requires
        0 <= n <= volumes.len(),
    ensures
        match holding(volumes, path, n) {
            Some(i) => {
                &&& 0 <= i < n
                &&& starts_with(path, volumes[i].mount_point@)
                &&& forall|j: int|
                    0 <= j < n && starts_with(path, (#[trigger] volumes[j]).mount_point@)
                        ==> volumes[j].mount_point_len <= volumes[i].mount_point_len && (j > i
                        ==> volumes[j].mount_point_len < volumes[i].mount_point_len)
            },
            None => forall|j: int|
                0 <= j < n ==> !starts_with(path, (#[trigger] volumes[j]).mount_point@),
        },
    decreases n,
{
    if n > 0 {
        holding_is_the_longest(volumes, path, n - 1);
    }
}

/// The room at a path is that of the volume which is mounted deepest above it, and of the last of
/// these where several are; it is unknown only where none is.
pub proof fn the_deepest_volume_holds_a_path(volumes: Seq<Volume>, path: PathView)
    ensures
        match holding(volumes, path, volumes.len() as int) {
            Some(i) => {
                &&& 0 <= i < volumes.len()
                &&& starts_with(path, volumes[i].mount_point@)
                &&& forall|j: int|
                    0 <= j < volumes.len() && starts_with(
                        path,
                        (#[trigger] volumes[j]).mount_point@,
                    ) ==> volumes[j].mount_point_len <= volumes[i].mount_point_len && (j > i
                        ==> volumes[j].mount_point_len < volumes[i].mount_point_len)
            },
            None => forall|j: int|
                0 <= j < volumes.len() ==> !starts_with(path, (#[trigger] volumes[j]).mount_point@),
        },
{
    holding_is_the_longest(volumes, path, volumes.len() as int);
}

/// The directory that is asked for its room is there, is the path itself or lies above it, and no
/// deeper one is there.
pub proof fn the_nearest_directory_is_found(path: PathView, present: Set<PathKey>)
    ensures
        match nearest_present(path, present) {
            Some(found) => {
                &&& present.contains(found.key())
                &&& found.names.is_prefix_of(path.names)
                &&& found.absolute == path.absolute
                &&& forall|n: int|
                    found.names.len() < n <= path.names.len() ==> !present.contains(
                        #[trigger] above(path, n),
                    )
            },
            None => forall|n: int|
                0 <= n <= path.names.len() ==> !present.contains(#[trigger] above(path, n)),
        },
    decreases path.names.len(),
{
    assert(above(path, path.names.len() as int) == path.key()) by {
        assert(path.names.take(path.names.len() as int) =~= path.names);
    }
    if !present.contains(path.key()) && path.names.len() > 0 {
        let up = parent(path)->0;
        assert(up.names =~= path.names.drop_last());
        the_nearest_directory_is_found(up, present);
        assert forall|n: int| 0 <= n <= up.names.len() implies #[trigger] above(path, n) == above(
            up,
            n,
        ) by {
            assert(path.names.take(n) =~= up.names.take(n));
        }
    }
}

/// What tells the directory apart that the first names of a path make.
pub open spec fn above(path: PathView, n: int) -> PathKey {
    PathView { absolute: path.absolute, names: path.names.take(n), text: path.text }.key()
}

/// A warning is told for each volume that is short of room, and for no other.
pub proof fn short_volumes_are_told(state: SpaceWarningState)
    ensures
        space_warnings(state).len() == (if state.mount_low {
            1int
        } else {
            0
        }) + (if state.encrypted_low {
            1int
        } else {
            0
        }) + (if state.journal_low {
            1int
        } else {
            0
        }),
        state.mount_low ==> space_warnings(state).contains("mount volume below reserve"@),
        state.encrypted_low ==> space_warnings(state).contains("encrypted volume below reserve"@),
        state.journal_low ==> space_warnings(state).contains("journal volume below reserve"@),
        space_warnings(state).len() == 0 <==> !state.mount_low && !state.encrypted_low
            && !state.journal_low,
{
    let told = space_warnings(state);
    let n = told.len() as int;
    if state.mount_low {
        assert(told[0] == "mount volume below reserve"@);
    }
    if state.journal_low {
        assert(told[n - 1] == "journal volume below reserve"@);
    }
    if state.encrypted_low {
        assert(told[if state.mount_low {
            1
        } else {
            0
        }] == "encrypted volume below reserve"@);
    }
}

/// The encryption of a file needs room for all of it and 4 MiB more; that of a file with holes for
/// its data and twice its encrypted form besides. A longer file never needs less.
pub proof fn encryption_needs_room(len: u64, longer: u64, packed: u64, ciphertext: u64)
    requires
        len <= longer,
    ensures
        len <= u64::MAX - 4_194_304 ==> ciphertext_budget(len, None) == len + 4_194_304,
        ciphertext_budget(len, None) <= ciphertext_budget(longer, None),
        packed + 2 * ciphertext <= u64::MAX - 4_194_304 ==> ciphertext_budget(
            len,
            Some((packed, ciphertext)),
        ) == packed + 2 * ciphertext + 4_194_304,
        ciphertext_budget(len, Some((packed, ciphertext))) >= packed,
        ciphertext_budget(len, Some((packed, ciphertext))) == ciphertext_budget(
            longer,
            Some((packed, ciphertext)),
        ),
{
}

/// A file with holes is encrypted without them; any other piece by piece exactly if it is as long as
/// the threshold or longer, there is a threshold, and the size of a piece can be had; else as a
/// whole. The pieces have the size that was set.
pub proof fn large_files_are_encrypted_in_pieces(tracker: SyncTracker, len: u64, sparse: bool)
    ensures
        ({
            let size = tracker.settings.stream_chunk_size_bytes;
            let threshold = tracker.settings.stream_threshold_bytes;
            let method = encrypt_method(tracker, len, sparse);
            let usable = 0 < size <= usize::MAX;
            &&& method is Sparse <==> sparse
            &&& method is Streaming <==> !sparse && threshold > 0 && len >= threshold && usable
            &&& method matches EncryptMethod::Streaming { chunk_size } ==> chunk_size == size
            &&& method matches EncryptMethod::Sparse { chunk_size } ==> usable ==> chunk_size
                == size
            &&& method matches EncryptMethod::Sparse { chunk_size } ==> !usable ==> chunk_size
                == 4_194_304
        }),
{
}

/// A file keeps the identifier that is written on it, unless another file that is there has the same;
/// only then, or where none is written, it takes that of its encrypted form.
pub proof fn identifiers_are_not_shared(
    ids: TextEntries<PathView>,
    path: PathView,
    attribute: Option<Seq<char>>,
    encrypted_id: Option<Seq<char>>,
    present: Set<PathKey>,
)
    ensures
        attribute is None ==> desired_id(ids, path, attribute, encrypted_id, present)
            == encrypted_id,
        attribute is Some ==> {
            let written = attribute->0;
            let shared = ids.contains_key(written) && !same_path(ids[written], path)
                && present.contains(ids[written].key());
            desired_id(ids, path, attribute, encrypted_id, present) == if shared {
                encrypted_id
            } else {
                attribute
            }
        },
{
}

/// A header can be written exactly if the wrapped key, both nonces and the digest are known.
pub proof fn headers_need_their_parts(metadata: EncryptedFileMetadata)
    ensures
        header_lacks(metadata) is None <==> {
            &&& metadata.wrapped_file_key is Some
            &&& metadata.key_wrap_nonce is Some
            &&& metadata.key_wrap_aad_hash is Some
            &&& metadata.content_nonce is Some
        },
{
}

/// Metadata that could not be stored waits, and the journal is written; metadata that was stored
/// does not wait any more. What waits for other files stays.
pub proof fn unstored_metadata_waits(
    before: PendingWork,
    after: PendingWork,
    encrypted_path: PathView,
    unstored: Option<FileMetadataData>,
    other: PathView,
)
    requires
        metadata_settled(before, after, encrypted_path, unstored),
        !same_path(other, encrypted_path),
    ensures
        after.pending_metadata@.contains_key(encrypted_path) <==> unstored is Some,
        unstored is Some ==> after.pending_metadata@[encrypted_path] == unstored->0
            && after.pending_metadata_dirty,
        before.pending_metadata@.contains_key(encrypted_path) ==> after.pending_metadata_dirty,
        after.pending_metadata@.contains_key(other) == before.pending_metadata@.contains_key(other),
        before.pending_metadata@.contains_key(other) ==> after.pending_metadata@[other]
            == before.pending_metadata@[other],
        after.pending_writebacks == before.pending_writebacks,
{
}

/// A deleted file is kept for all the days that it is to be kept, and not a second longer than one
/// more; nothing that was deleted in the future is removed, and what is over stays so.
pub proof fn deleted_files_are_kept_for_days(at: int, now: int, later: int, days: u32)
    requires
        now <= later,
    ensures
        now - at <= days * 86_400 * 1_000_000_000 ==> !retention_over(at, now, days),
        now - at >= (days * 86_400 + 1) * 1_000_000_000 ==> retention_over(at, now, days),
        now < at ==> !retention_over(at, now, days),
        retention_over(at, now, days) ==> retention_over(at, later, days),
{
    assert(days * 86_400 * 1_000_000_000 == 86_400_000_000_000 * days) by (nonlinear_arith);
    assert((days * 86_400 + 1) * 1_000_000_000 == 86_400_000_000_000 * days + 1_000_000_000)
        by (nonlinear_arith);
}

/// When a file was deleted is told by its note; a note that cannot be read keeps the file, and only
/// where there is none, the name tells, and then the time of the file.
pub proof fn notes_tell_when_files_were_deleted(
    name: Seq<char>,
    note: RetentionNote,
    modified: Option<UtcNanos>,
    now: UtcNanos,
    days: u32,
)
    ensures
        note matches RetentionNote::DeletedAt(at) ==> retained_at(name, note, modified, now) == Some(
            at as int,
        ),
        note is Unreadable ==> retained_at(name, note, modified, now) == Some(now as int)
            && !retention_over(now as int, now as int, days),
        note is Absent && modified is None && retained_at(name, note, modified, now) is Some
            ==> name_time(name) is Some,
        note is Absent && name_time(name) is None ==> retained_at(
            name,
            note,
            modified,
            now,
        ) == match modified {
            Some(at) => Some(at as int),
            None => None,
        },
{
}

/// A file system in user space can be had exactly on Linux, if its device is there and can be
/// opened, and one of the two programs is there.
pub proof fn user_file_systems_have_their_needs(facts: FuseFacts)
    ensures
        fuse_obstacle(facts) is None <==> {
            &&& facts.linux
            &&& facts.device_exists
            &&& facts.open_error is None
            &&& facts.has_fusermount3 || facts.has_fusermount
        },
{
}

/// A journal that belongs to a scope has it in its name; without one, or with a blank one, it has
/// the plain name.
pub proof fn journals_are_named_by_scope(base: Seq<char>, scope: Option<Seq<char>>)
    ensures
        scope is None || trim(scope->0).len() == 0 ==> journal_name(base, scope) == base
            + ".json"@,
        scope is Some && trim(scope->0).len() > 0 ==> journal_name(base, scope) == base + "_"@
            + scope->0 + ".json"@,
{
}

} // verus!
