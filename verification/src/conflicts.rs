//! Conflict copies and recovered copies: what is written on them, and how they are tracked.

use vstd::arithmetic::power::pow;
use vstd::prelude::*;
use vstd::string::*;

use crate::deletion::digest_refreshed;
use crate::digest::hex_char;
use crate::errors::opt_text;
use crate::header::{uuid_of, uuid_parse};
use crate::local_only::{
    conflict_path_for, derive_live_path_from_conflict_path,
    derive_live_path_from_recovered_pending_path, live_path, local_copy_path, marked_time,
    parse_local_only_timestamp, recovered_pending_path_for,
};
use crate::path::{
    from_utf8, join, parse, strip_prefix, PathEntries, PathKey, PathMap, PathSet, PathView,
    SyncPath,
};
use crate::pending::same_digest;
use crate::table::filtered;
use crate::text::{concat3, same_text, trim, trim_text};
use crate::tracker::{
    ConflictBaseline, ConflictKind, Digest, FileLedger, FileSignature, HeldBack, LocalCopies,
    SyncTracker, UtcNanos,
};

verus! {

/// The string that `serde_json` reads from a text.
pub uninterp spec fn json_string_of(text: Seq<char>) -> Option<Seq<char>>;

/// A digit of an identifier to the base of sixteen, counted from the highest.
pub open spec fn uuid_digit(id: u128, k: int) -> int {
    (id as int / pow(16, (31 - k) as nat)) % 16
}

/// How many hyphens stand before a position of a written identifier.
pub open spec fn hyphens_before(i: int) -> int {
    if i > 23 {
        4
    } else if i > 18 {
        3
    } else if i > 13 {
        2
    } else if i > 8 {
        1
    } else {
        0
    }
}

/// An identifier as it is written: its digits to the base of sixteen in groups of eight, three
/// times four and twelve, with hyphens between them.
pub open spec fn uuid_shown(id: u128) -> Seq<char> {
    Seq::new(
        36,
        |i: int|
            if i == 8 || i == 13 || i == 18 || i == 23 {
                '-'
            } else {
                hex_char(uuid_digit(id, i - hyphens_before(i)))
            },
    )
}

/// A small letter or an underscore.
pub open spec fn is_plain_char(c: char) -> bool {
    ('a' <= c && c <= 'z') || c == '_'
}

/// Only small letters and underscores.
pub open spec fn is_plain(text: Seq<char>) -> bool {
    forall|i: int| 0 <= i < text.len() ==> is_plain_char(#[trigger] text[i])
}

/// `serde_json::from_str`: the string that a JSON text writes. One of small letters and
/// underscores stands in it as it is, between quotes.
#[verifier::external_body]
fn json_string(text: &str) -> (res: Option<String>)
    ensures
        opt_text(res) == json_string_of(text@),
        forall|inner: Seq<char>| #[trigger]
            is_plain(inner) && text@ == "\""@ + inner + "\""@ ==> opt_text(res) == Some(inner),
{
    serde_json::from_str::<String>(text).ok()
}

/// `uuid::Uuid::to_string`: an identifier as text, in small digits with hyphens, from which it can
/// be read back.
#[verifier::external_body]
pub(crate) fn uuid_text(id: u128) -> (res: String)
    ensures
        res@ == uuid_shown(id),
        uuid_of(res@) == Some(id),
{
    uuid::Uuid::from_u128(id).to_string()
}

/// A text without white space at its ends, unless nothing is left of it.
pub open spec fn told(text: Seq<char>) -> Option<Seq<char>> {
    if trim(text).len() == 0 {
        None
    } else {
        Some(trim(text))
    }
}

/// The bytes of an attribute as text: none where they are no text or blank.
pub fn attribute_text(value: Vec<u8>) -> (res: Option<String>)
    ensures
        opt_text(res) == match attribute_chars(value@) {
            Some(text) => told(text),
            None => None,
        },
{
    match from_utf8(value) {
        Some(text) => told_text(text.as_str()),
        None => None,
    }
}

/// The text that bytes encode.
pub open spec fn attribute_chars(bytes: Seq<u8>) -> Option<Seq<char>> {
    if vstd::utf8::valid_utf8(bytes) {
        Some(vstd::utf8::decode_utf8(bytes))
    } else {
        None
    }
}

fn told_text(text: &str) -> (res: Option<String>)
    ensures
        opt_text(res) == told(text@),
{
    let inner = trim_text(text);
    if inner.as_str().unicode_len() == 0 {
        None
    } else {
        Some(inner)
    }
}

/// What is written on a conflict copy as the reason why it stays on this side.
pub open spec fn reason_text(kind: ConflictKind) -> Seq<char> {
    match kind {
        ConflictKind::DecryptCollision => "conflict"@,
        ConflictKind::DeletedOpenRecovery => "deleted_open_recovery"@,
        ConflictKind::LocalRemoteBothModified => "both_modified_conflict"@,
        ConflictKind::LocalEditRemoteDelete => "local_edit_remote_delete"@,
        ConflictKind::LocalDeleteRemoteEdit => "local_delete_remote_edit"@,
    }
}

/// What is written on a conflict copy as its kind.
pub open spec fn kind_text(kind: ConflictKind) -> Seq<char> {
    match kind {
        ConflictKind::DecryptCollision => "decrypt_collision"@,
        ConflictKind::DeletedOpenRecovery => "deleted_open_recovery"@,
        ConflictKind::LocalRemoteBothModified => "both_modified_conflict"@,
        ConflictKind::LocalEditRemoteDelete => "local_edit_remote_delete"@,
        ConflictKind::LocalDeleteRemoteEdit => "local_delete_remote_edit"@,
    }
}

/// The kind that has a name.
pub open spec fn named_kind(name: Seq<char>) -> Option<ConflictKind> {
    if name == "decrypt_collision"@ {
        Some(ConflictKind::DecryptCollision)
    } else if name == "deleted_open_recovery"@ {
        Some(ConflictKind::DeletedOpenRecovery)
    } else if name == "local_remote_both_modified"@ {
        Some(ConflictKind::LocalRemoteBothModified)
    } else if name == "local_edit_remote_delete"@ {
        Some(ConflictKind::LocalEditRemoteDelete)
    } else if name == "local_delete_remote_edit"@ {
        Some(ConflictKind::LocalDeleteRemoteEdit)
    } else {
        None
    }
}

/// The kind that is read from what is written on a conflict copy.
pub open spec fn kind_of_text(raw: Seq<char>) -> Option<ConflictKind> {
    match json_string_of("\""@ + trim(raw) + "\""@) {
        Some(name) => named_kind(name),
        None => None,
    }
}

/// The kind of a conflict copy: the given one, else that which is written on it, else that which
/// its reason tells.
pub open spec fn settled_kind(
    given: Option<ConflictKind>,
    kind_attribute: Option<Seq<char>>,
    reason: Option<Seq<char>>,
) -> ConflictKind {
    let read = match kind_attribute {
        Some(raw) => kind_of_text(raw),
        None => None,
    };
    if given is Some {
        given->0
    } else if read is Some {
        read->0
    } else if reason == Some("deleted_open_recovery"@) {
        ConflictKind::DeletedOpenRecovery
    } else {
        ConflictKind::DecryptCollision
    }
}

impl ConflictKind {
    /// What is written on a conflict copy as the reason why it stays on this side.
    pub fn local_only_reason(self) -> (res: &'static str)
        ensures
            res@ == reason_text(self),
    {
        match self {
            ConflictKind::DecryptCollision => "conflict",
            ConflictKind::DeletedOpenRecovery => "deleted_open_recovery",
            ConflictKind::LocalRemoteBothModified => "both_modified_conflict",
            ConflictKind::LocalEditRemoteDelete => "local_edit_remote_delete",
            ConflictKind::LocalDeleteRemoteEdit => "local_delete_remote_edit",
        }
    }

    /// What is written on a conflict copy as its kind.
    pub fn attribute(self) -> (res: &'static str)
        ensures
            res@ == kind_text(self),
    {
        match self {
            ConflictKind::DecryptCollision => "decrypt_collision",
            ConflictKind::DeletedOpenRecovery => "deleted_open_recovery",
            ConflictKind::LocalRemoteBothModified => "both_modified_conflict",
            ConflictKind::LocalEditRemoteDelete => "local_edit_remote_delete",
            ConflictKind::LocalDeleteRemoteEdit => "local_delete_remote_edit",
        }
    }
}

/// The kind that is read from what is written on a conflict copy. What was written for a kind is
/// read as that kind, except where both sides changed the file: that is written by another name
/// than it is read.
pub fn read_conflict_kind_attr(raw: &str) -> (res: Option<ConflictKind>)
    ensures
        res == kind_of_text(raw@),
        forall|kind: ConflictKind|
            raw@ == #[trigger] kind_text(kind) && kind != ConflictKind::LocalRemoteBothModified
                ==> res == Some(kind),
{
    let inner = trim_text(raw);
    let quoted = concat3("\"", inner.as_str(), "\"");
    let name = json_string(quoted.as_str());
    proof {
        assert forall|kind: ConflictKind|
            raw@ == #[trigger] kind_text(kind) && kind
                != ConflictKind::LocalRemoteBothModified implies opt_text(name) == Some(
            kind_text(kind),
        ) && named_kind(kind_text(kind)) == Some(kind) by {
            kind_texts_are_plain(kind);
            assert(is_plain(kind_text(kind)));
        }
    }
    match name {
        Some(name) => {
            let text = name.as_str();
            if same_text(text, "decrypt_collision") {
                Some(ConflictKind::DecryptCollision)
            } else if same_text(text, "deleted_open_recovery") {
                Some(ConflictKind::DeletedOpenRecovery)
            } else if same_text(text, "local_remote_both_modified") {
                Some(ConflictKind::LocalRemoteBothModified)
            } else if same_text(text, "local_edit_remote_delete") {
                Some(ConflictKind::LocalEditRemoteDelete)
            } else if same_text(text, "local_delete_remote_edit") {
                Some(ConflictKind::LocalDeleteRemoteEdit)
            } else {
                None
            }
        },
        None => None,
    }
}

proof fn kind_texts_are_plain(kind: ConflictKind)
    ensures
        is_plain(kind_text(kind)),
        trim(kind_text(kind)) == kind_text(kind),
        kind != ConflictKind::LocalRemoteBothModified ==> named_kind(kind_text(kind)) == Some(kind),
{
    reveal_strlit("decrypt_collision");
    reveal_strlit("deleted_open_recovery");
    reveal_strlit("both_modified_conflict");
    reveal_strlit("local_remote_both_modified");
    reveal_strlit("local_edit_remote_delete");
    reveal_strlit("local_delete_remote_edit");
    let text = kind_text(kind);
    assert(text.len() > 0);
    assert("local_delete_remote_edit"@[6] == 'd');
    assert("local_edit_remote_delete"@[6] == 'e');
    assert("decrypt_collision"@[2] == 'c');
    assert("deleted_open_recovery"@[2] == 'l');
    assert("local_remote_both_modified"@.len() == 26);
    assert("local_edit_remote_delete"@.len() == 24);
    assert(is_plain(text));
    assert(is_plain_char(text[0]));
    assert(is_plain_char(text.last()));
}

/// The kind of a conflict copy.
pub fn conflict_kind(
    given: Option<ConflictKind>,
    kind_attribute: &Option<String>,
    reason: &Option<String>,
) -> (res: ConflictKind)
    ensures
        res == settled_kind(given, opt_text(*kind_attribute), opt_text(*reason)),
{
    if let Some(kind) = given {
        return kind;
    }
    if let Some(raw) = kind_attribute {
        if let Some(kind) = read_conflict_kind_attr(raw.as_str()) {
            return kind;
        }
    }
    match reason {
        Some(text) => {
            if same_text(text.as_str(), "deleted_open_recovery") {
                ConflictKind::DeletedOpenRecovery
            } else {
                ConflictKind::DecryptCollision
            }
        },
        None => ConflictKind::DecryptCollision,
    }
}

/// The identifier that is written on a conflict copy.
pub fn read_conflict_id_attr(raw: &str) -> (res: Option<u128>)
    ensures
        res == uuid_of(trim(raw@)),
{
    let inner = trim_text(raw);
    uuid_parse(inner.as_str())
}

/// What is written on a conflict copy as its identifier.
pub fn conflict_id_attr(id: u128) -> (res: String)
    ensures
        res@ == uuid_shown(id),
        uuid_of(res@) == Some(id),
{
    uuid_text(id)
}

/// The file that a conflict copy belongs to: the path that is written on it, else that which its
/// name tells.
pub open spec fn settled_live_path(path: PathView, attribute: Option<Seq<char>>) -> PathView {
    match attribute {
        Some(raw) => if trim(raw).len() == 0 {
            live_path(path, "conflict"@, "conflict"@)
        } else {
            parse(trim(raw))
        },
        None => live_path(path, "conflict"@, "conflict"@),
    }
}

/// The file that a conflict copy belongs to.
pub fn conflict_live_path(path: &SyncPath, attribute: &Option<String>) -> (res: SyncPath)
    ensures
        res@ == settled_live_path(path@, opt_text(*attribute)),
{
    if let Some(raw) = attribute {
        let inner = trim_text(raw.as_str());
        if inner.as_str().unicode_len() != 0 {
            return SyncPath::from_text(inner.as_str());
        }
    }
    derive_live_path_from_conflict_path(path)
}

/// The time at which a conflict copy was made: that in its name, else now.
pub open spec fn copy_made_at(path: PathView, marker: Seq<char>, now: UtcNanos) -> UtcNanos {
    match marked_time(path, marker) {
        Some(secs) => (secs * 1_000_000_000) as i128,
        None => now,
    }
}

/// The time at which a copy was made.
pub fn copy_time(path: &SyncPath, marker: &str, now: UtcNanos) -> (res: UtcNanos)
    ensures
        res == copy_made_at(path@, marker@, now),
{
    match parse_local_only_timestamp(path, marker) {
        Some(secs) => secs as i128 * 1_000_000_000i128,
        None => now,
    }
}

/// A conflict copy was changed: the digests of its content differ, or one is not known and its
/// signature differs.
pub open spec fn copy_changed(
    known: ConflictBaseline,
    signature: FileSignature,
    content_hash: Option<Digest>,
) -> bool {
    match known.content_hash {
        Some(previous) => content_hash != Some(previous),
        None => known.signature != signature,
    }
}

/// What is known of a conflict copy after a look at it. It keeps its identifier, the time when
/// it was found and the first digest of its content; once changed it stays so.
pub open spec fn baseline_noted(
    before: PathEntries<ConflictBaseline>,
    entry: ConflictBaseline,
    path: PathView,
    signature: FileSignature,
    kind: ConflictKind,
    live: PathView,
    id: u128,
    created_at: UtcNanos,
    content_hash: Option<Digest>,
) -> bool {
    let had = before.contains_key(path);
    let known = before[path];
    &&& entry.live_path@ == live
    &&& entry.kind == kind
    &&& entry.signature == signature
    &&& entry.id == if had {
        known.id
    } else {
        id
    }
    &&& entry.created_at == if had {
        known.created_at
    } else {
        created_at
    }
    &&& entry.content_hash == if had && known.content_hash is Some {
        known.content_hash
    } else {
        content_hash
    }
    &&& entry.edited == (had && (known.edited || copy_changed(known, signature, content_hash)))
}

fn note_baseline(
    map: &mut PathMap<ConflictBaseline>,
    path: &SyncPath,
    signature: FileSignature,
    kind: ConflictKind,
    live: SyncPath,
    id: u128,
    created_at: UtcNanos,
    content_hash: Option<Digest>,
)
    requires
        old(map).wf(),
    ensures
        final(map).wf(),
        final(map)@ == old(map)@.insert(path@, final(map)@[path@]),
        baseline_noted(
            old(map)@,
            final(map)@[path@],
            path@,
            signature,
            kind,
            live@,
            id,
            created_at,
            content_hash,
        ),
{
    let mut entry = ConflictBaseline {
        id,
        live_path: live,
        kind,
        created_at,
        signature,
        content_hash,
        edited: false,
    };
    if let Some(known) = map.get(path) {
        entry.id = known.id;
        entry.created_at = known.created_at;
        match known.content_hash {
            Some(previous) => {
                let same = match content_hash {
                    Some(current) => same_digest(&previous, &current),
                    None => false,
                };
                entry.edited = known.edited || !same;
                entry.content_hash = Some(previous);
            },
            None => {
                entry.edited = known.edited || !(known.signature == signature);
            },
        }
    }
    map.insert(path.duplicate(), entry);
}

/// The paths of copies that are still there.
pub open spec fn copies_kept<T>(
    before: PathEntries<T>,
    seen: Set<PathKey>,
    present: Set<PathKey>,
) -> PathEntries<T> {
    filtered(before, |p: PathView, _v: T| seen.contains(p.key()) && present.contains(p.key()))
}

fn keep_seen<T>(map: &mut PathMap<T>, seen: &PathSet, present: &PathSet) -> (changed: bool)
    requires
        old(map).wf(),
        seen.wf(),
        present.wf(),
    ensures
        final(map).wf(),
        final(map)@ == copies_kept(old(map)@, seen@.keys(), present@.keys()),
        changed == (final(map)@.len() != old(map)@.len()),
{
    let before: usize = map.len();
    let keep = |p: &SyncPath, _v: &T| -> (res: bool)
        requires
            seen.wf(),
            present.wf(),
        ensures
            res == (seen@.contains_key(p@) && present@.contains_key(p@)),
        { seen.contains_key(p) && present.contains_key(p) };
    map.retain(
        keep,
        Ghost(
            |p: PathView, _v: T|
                seen@.keys().contains(p.key()) && present@.keys().contains(p.key()),
        ),
    );
    map.len() != before
}

impl SyncTracker {
    /// Notes a conflict copy that was found in the mount.
    pub fn update_conflict_file_tracking_with_kind(
        &mut self,
        path: &SyncPath,
        signature: FileSignature,
        kind: ConflictKind,
        live: SyncPath,
        id: u128,
        now: UtcNanos,
        content_hash: Option<Digest>,
    )
        requires
            old(self).wf(),
        ensures
            final(self).wf(),
            final(self).copies.conflict_baselines@ == old(self).copies.conflict_baselines@.insert(
                path@,
                final(self).copies.conflict_baselines@[path@],
            ),
            baseline_noted(
                old(self).copies.conflict_baselines@,
                final(self).copies.conflict_baselines@[path@],
                path@,
                signature,
                kind,
                live@,
                id,
                copy_made_at(path@, "conflict"@, now),
                content_hash,
            ),
            final(self).copies.conflict_registry_dirty,
            *final(self) == (SyncTracker { copies: final(self).copies, ..*old(self) }),
            final(self).copies == (LocalCopies {
                conflict_baselines: final(self).copies.conflict_baselines,
                conflict_registry_dirty: true,
                ..old(self).copies
            }),
    {
        let created_at: UtcNanos = copy_time(path, "conflict", now);
        note_baseline(
            &mut self.copies.conflict_baselines,
            path,
            signature,
            kind,
            live,
            id,
            created_at,
            content_hash,
        );
        self.copies.conflict_registry_dirty = true;
    }

    /// Forgets the conflict copies that were not found in a scan or are gone.
    pub fn prune_conflict_tracking(&mut self, current_conflicts: &PathSet, present: &PathSet)
        requires
            old(self).wf(),
            current_conflicts.wf(),
            present.wf(),
        ensures
            final(self).wf(),
            final(self).copies.conflict_baselines@ == copies_kept(
                old(self).copies.conflict_baselines@,
                current_conflicts@.keys(),
                present@.keys(),
            ),
            final(self).copies.conflict_registry_dirty == (old(self).copies.conflict_registry_dirty
                || final(self).copies.conflict_baselines@.len()
                != old(self).copies.conflict_baselines@.len()),
            *final(self) == (SyncTracker { copies: final(self).copies, ..*old(self) }),
            final(self).copies == (LocalCopies {
                conflict_baselines: final(self).copies.conflict_baselines,
                conflict_registry_dirty: final(self).copies.conflict_registry_dirty,
                ..old(self).copies
            }),
    {
        if keep_seen(&mut self.copies.conflict_baselines, current_conflicts, present) {
            self.copies.conflict_registry_dirty = true;
        }
    }

    /// Notes a recovered copy that was found in the mount.
    pub fn note_recovered_pending_copy(
        &mut self,
        path: &SyncPath,
        signature: FileSignature,
        metadata_hash: Option<Digest>,
    )
        requires
            old(self).wf(),
        ensures
            final(self).wf(),
            final(self).copies.recovered_pending_paths@
                == old(self).copies.recovered_pending_paths@.insert(path@, ()),
            final(self).copies.recovery_registry_dirty,
            final(self).files.decrypted_signatures@ == old(self).files.decrypted_signatures@.insert(
                path@,
                signature,
            ),
            final(self).files.decrypted_metadata_hashes@ == digest_refreshed(
                old(self).files.decrypted_metadata_hashes@,
                path@,
                metadata_hash,
            ),
            final(self).files.decrypted_hashes@ == old(self).files.decrypted_hashes@.remove(path@),
            final(self).held.pending_stable@ == old(self).held.pending_stable@.remove(path@),
            *final(self) == (SyncTracker {
                copies: final(self).copies,
                files: final(self).files,
                held: final(self).held,
                ..*old(self)
            }),
            final(self).copies == (LocalCopies {
                recovered_pending_paths: final(self).copies.recovered_pending_paths,
                recovery_registry_dirty: true,
                ..old(self).copies
            }),
            final(self).files == (FileLedger {
                decrypted_signatures: final(self).files.decrypted_signatures,
                decrypted_metadata_hashes: final(self).files.decrypted_metadata_hashes,
                decrypted_hashes: final(self).files.decrypted_hashes,
                ..old(self).files
            }),
            final(self).held == (HeldBack {
                pending_stable: final(self).held.pending_stable,
                ..old(self).held
            }),
    {
        self.copies.recovered_pending_paths.insert(path.duplicate(), ());
        self.files.decrypted_signatures.insert(path.duplicate(), signature);
        self.refresh_decrypted_metadata_hash(path, metadata_hash);
        self.files.decrypted_hashes.remove(path);
        self.held.pending_stable.remove(path);
        self.copies.recovery_registry_dirty = true;
    }

    /// Forgets the recovered copies that were not found in a scan or are gone.
    pub fn prune_recovered_pending_tracking(
        &mut self,
        current_recovered: &PathSet,
        present: &PathSet,
    )
        requires
            old(self).wf(),
            current_recovered.wf(),
            present.wf(),
        ensures
            final(self).wf(),
            final(self).copies.recovered_pending_paths@ == copies_kept(
                old(self).copies.recovered_pending_paths@,
                current_recovered@.keys(),
                present@.keys(),
            ),
            final(self).copies.recovery_registry_dirty == (old(self).copies.recovery_registry_dirty
                || final(self).copies.recovered_pending_paths@.len()
                != old(self).copies.recovered_pending_paths@.len()),
            *final(self) == (SyncTracker { copies: final(self).copies, ..*old(self) }),
            final(self).copies == (LocalCopies {
                recovered_pending_paths: final(self).copies.recovered_pending_paths,
                recovery_registry_dirty: final(self).copies.recovery_registry_dirty,
                ..old(self).copies
            }),
    {
        if keep_seen(&mut self.copies.recovered_pending_paths, current_recovered, present) {
            self.copies.recovery_registry_dirty = true;
        }
    }
}

/// Where a file that waited to be encrypted is taken from and brought to, after its mount was put
/// aside: beside its place in the new mount, as a recovered copy.
pub open spec fn recovered_move(
    quarantined_root: PathView,
    live_root: PathView,
    mount_path: PathView,
    stamp: Seq<char>,
    taken: Set<PathKey>,
) -> Option<(PathView, PathView)> {
    match strip_prefix(mount_path, live_root) {
        Some(relative) => Some(
            (
                join(quarantined_root, relative),
                local_copy_path(
                    join(live_root, relative),
                    "recovered-pending"@,
                    "recovered-pending"@,
                    stamp,
                    taken,
                ),
            ),
        ),
        None => None,
    }
}

/// Where a file that waited to be encrypted is taken from and brought to, after its mount was put
/// aside. None where it is outside the mount.
pub fn materialize_recovered_pending_copy(
    quarantined_root: &SyncPath,
    live_root: &SyncPath,
    mount_path: &SyncPath,
    stamp: &str,
    taken: &PathSet,
) -> (res: Option<(SyncPath, SyncPath)>)
    requires
        taken.wf(),
    ensures
        (match res {
            Some((from, to)) => Some((from@, to@)),
            None => None,
        }) == recovered_move(quarantined_root@, live_root@, mount_path@, stamp@, taken@.keys()),
{
    match mount_path.strip_prefix(live_root) {
        Some(relative) => {
            let from = quarantined_root.join(&relative);
            let place = live_root.join(&relative);
            let to = recovered_pending_path_for(&place, stamp, taken);
            Some((from, to))
        },
        None => None,
    }
}

/// Where a copy from a mount that was put aside is brought to: its place in the new mount, or
/// beside it under a new name where that is taken.
pub open spec fn copy_place(
    quarantined_root: PathView,
    live_root: PathView,
    path: PathView,
    marker: Seq<char>,
    live_fallback: Seq<char>,
    stamp: Seq<char>,
    taken: Set<PathKey>,
) -> Option<PathView> {
    match strip_prefix(path, quarantined_root) {
        Some(relative) => {
            let target = join(live_root, relative);
            Some(
                if taken.contains(target.key()) {
                    local_copy_path(
                        live_path(target, marker, live_fallback),
                        marker,
                        marker,
                        stamp,
                        taken,
                    )
                } else {
                    target
                },
            )
        },
        None => None,
    }
}

/// Where a conflict copy from a mount that was put aside is brought to.
pub fn materialize_conflict_copy(
    quarantined_root: &SyncPath,
    live_root: &SyncPath,
    path: &SyncPath,
    stamp: &str,
    taken: &PathSet,
) -> (res: Option<SyncPath>)
    requires
        taken.wf(),
    ensures
        crate::config::opt_path(res) == copy_place(
            quarantined_root@,
            live_root@,
            path@,
            "conflict"@,
            "conflict"@,
            stamp@,
            taken@.keys(),
        ),
{
    match path.strip_prefix(quarantined_root) {
        Some(relative) => {
            let target = live_root.join(&relative);
            if taken.contains_key(&target) {
                let live = derive_live_path_from_conflict_path(&target);
                Some(conflict_path_for(&live, stamp, taken))
            } else {
                Some(target)
            }
        },
        None => None,
    }
}

/// Where a recovered copy from a mount that was put aside is brought to.
pub fn materialize_existing_recovered_pending_copy(
    quarantined_root: &SyncPath,
    live_root: &SyncPath,
    path: &SyncPath,
    stamp: &str,
    taken: &PathSet,
) -> (res: Option<SyncPath>)
    requires
        taken.wf(),
    ensures
        crate::config::opt_path(res) == copy_place(
            quarantined_root@,
            live_root@,
            path@,
            "recovered-pending"@,
            "recovered"@,
            stamp@,
            taken@.keys(),
        ),
{
    match path.strip_prefix(quarantined_root) {
        Some(relative) => {
            let target = live_root.join(&relative);
            if taken.contains_key(&target) {
                let live = derive_live_path_from_recovered_pending_path(&target);
                Some(recovered_pending_path_for(&live, stamp, taken))
            } else {
                Some(target)
            }
        },
        None => None,
    }
}

/// A conflict copy that was once changed stays marked as changed, whatever is found later, and
/// keeps its identifier and its time.
pub proof fn edited_copies_stay_edited(
    before: PathEntries<ConflictBaseline>,
    entry: ConflictBaseline,
    path: PathView,
    signature: FileSignature,
    kind: ConflictKind,
    live: PathView,
    id: u128,
    created_at: UtcNanos,
    content_hash: Option<Digest>,
)
    requires
        before.contains_key(path),
        baseline_noted(
            before,
            entry,
            path,
            signature,
            kind,
            live,
            id,
            created_at,
            content_hash,
        ),
    ensures
        before[path].edited ==> entry.edited,
        entry.id == before[path].id,
        entry.created_at == before[path].created_at,
{
}

} // verus!
