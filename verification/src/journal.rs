//! The journals: what is written of the state of a mount, and how it is read back.

use vstd::prelude::*;
use vstd::string::*;

use crate::config::{copy_opt_path, opt_path};
use crate::encrypt::opt_bytes;
use crate::errors::{copy_opt_text, opt_text};
use crate::path::{
    copy_bytes, same_path, view_keys, PathEntries, PathKey, PathMap, PathView, SyncPath,
};
use crate::pending::{owner_views, path_values};
use crate::settings::inverted;
use crate::table::{Entries, Table, TableKey};
use crate::tracker::{
    path_views, Digest, FileLedger, FileMetadataData, FileSignature, Journals, OpenUnlinkedOwner,
    PendingDeletion, PendingOpenUnlinked, PendingOrphan, PendingRefresh, PendingWork,
    PendingWriteback, SyncTracker, UtcNanos,
};

verus! {

/// A key that can be written to a journal.
pub trait JournalKey: TableKey {
    /// A copy of the key.
    fn copy_key(&self) -> (res: Self)
        ensures
            res@ == self@,
    ;
}

impl JournalKey for SyncPath {
    fn copy_key(&self) -> (res: Self) {
        self.duplicate()
    }
}

impl JournalKey for String {
    fn copy_key(&self) -> (res: Self) {
        self.as_str().to_owned()
    }
}

/// A value that can be written to a journal.
pub trait Journaled: Sized {
    /// The value as plain values.
    type Plain;

    /// The value as plain values.
    spec fn plain(&self) -> Self::Plain;

    /// What becomes of the value when it is read back.
    spec fn restored(plain: Self::Plain) -> Self::Plain;

    /// A copy of the value.
    fn copy_value(&self) -> (res: Self)
        ensures
            res.plain() == self.plain(),
    ;

    /// The value as it is read back.
    fn restore(self) -> (res: Self)
        ensures
            res.plain() == Self::restored(self.plain()),
    ;
}

impl Journaled for PendingDeletion {
    type Plain = (PathView, u32, bool);

    open spec fn plain(&self) -> (PathView, u32, bool) {
        (self.mount_path@, self.consecutive_missing_scans, self.had_healthy_scan)
    }

    open spec fn restored(plain: (PathView, u32, bool)) -> (PathView, u32, bool) {
        plain
    }

    fn copy_value(&self) -> (res: Self) {
        PendingDeletion {
            mount_path: self.mount_path.duplicate(),
            consecutive_missing_scans: self.consecutive_missing_scans,
            had_healthy_scan: self.had_healthy_scan,
        }
    }

    fn restore(self) -> (res: Self) {
        self
    }
}

impl Journaled for PendingOrphan {
    type Plain = (PathView, u32, bool);

    open spec fn plain(&self) -> (PathView, u32, bool) {
        (self.encrypted_path@, self.consecutive_missing_scans, self.had_healthy_scan)
    }

    open spec fn restored(plain: (PathView, u32, bool)) -> (PathView, u32, bool) {
        plain
    }

    fn copy_value(&self) -> (res: Self) {
        PendingOrphan {
            encrypted_path: self.encrypted_path.duplicate(),
            consecutive_missing_scans: self.consecutive_missing_scans,
            had_healthy_scan: self.had_healthy_scan,
        }
    }

    fn restore(self) -> (res: Self) {
        self
    }
}

/// A change that is not encrypted yet, as plain values.
pub struct WritebackView {
    pub encrypted_path: PathView,
    pub last_error: Option<Seq<char>>,
    pub low_space: bool,
    pub first_observed_at: UtcNanos,
    pub last_observed_at: UtcNanos,
}

impl Journaled for PendingWriteback {
    type Plain = WritebackView;

    open spec fn plain(&self) -> WritebackView {
        WritebackView {
            encrypted_path: self.encrypted_path@,
            last_error: opt_text(self.last_error),
            low_space: self.low_space,
            first_observed_at: self.first_observed_at,
            last_observed_at: self.last_observed_at,
        }
    }

    /// It was not seen last before it was seen first.
    open spec fn restored(plain: WritebackView) -> WritebackView {
        WritebackView {
            last_observed_at: if plain.last_observed_at < plain.first_observed_at {
                plain.first_observed_at
            } else {
                plain.last_observed_at
            },
            ..plain
        }
    }

    fn copy_value(&self) -> (res: Self) {
        PendingWriteback {
            encrypted_path: self.encrypted_path.duplicate(),
            last_error: copy_opt_text(&self.last_error),
            low_space: self.low_space,
            first_observed_at: self.first_observed_at,
            last_observed_at: self.last_observed_at,
        }
    }

    fn restore(self) -> (res: Self) {
        let last: UtcNanos = if self.last_observed_at < self.first_observed_at {
            self.first_observed_at
        } else {
            self.last_observed_at
        };
        PendingWriteback {
            encrypted_path: self.encrypted_path,
            last_error: self.last_error,
            low_space: self.low_space,
            first_observed_at: self.first_observed_at,
            last_observed_at: last,
        }
    }
}

impl Journaled for PendingRefresh {
    type Plain = (PathView, Option<Seq<char>>);

    open spec fn plain(&self) -> (PathView, Option<Seq<char>>) {
        (self.encrypted_path@, opt_text(self.last_error))
    }

    open spec fn restored(plain: (PathView, Option<Seq<char>>)) -> (PathView, Option<Seq<char>>) {
        plain
    }

    fn copy_value(&self) -> (res: Self) {
        PendingRefresh {
            encrypted_path: self.encrypted_path.duplicate(),
            last_error: copy_opt_text(&self.last_error),
        }
    }

    fn restore(self) -> (res: Self) {
        self
    }
}

/// A file that was deleted while open, as plain values.
pub struct OpenUnlinkedView {
    pub encrypted_path: Option<PathView>,
    pub encrypted_version_exists: bool,
    pub had_unsynced_local_writeback: bool,
    pub first_seen_at: UtcNanos,
    pub last_seen_at: UtcNanos,
    pub owners: Seq<(i32, Seq<char>)>,
}

fn copy_owners(owners: &Vec<OpenUnlinkedOwner>) -> (res: Vec<OpenUnlinkedOwner>)
    ensures
        owner_views(res@) == owner_views(owners@),
{
    let ghost all = owner_views(owners@);
    let mut res: Vec<OpenUnlinkedOwner> = Vec::new();
    let mut i: usize = 0;
    assert(owner_views(res@) =~= all.take(0));
    while i < owners.len()
        invariant
            i <= owners@.len(),
            all == owner_views(owners@),
            owner_views(res@) == all.take(i as int),
        decreases owners@.len() - i,
    {
        let ghost before = owner_views(res@);
        res.push(
            OpenUnlinkedOwner { pid: owners[i].pid, name: owners[i].name.as_str().to_owned() },
        );
        assert(owner_views(res@) =~= before.push((owners@[i as int].pid, owners@[i as int].name@)));
        assert(all.take(i + 1) =~= all.take(i as int).push(all[i as int]));
        i += 1;
    }
    assert(all.take(all.len() as int) =~= all);
    res
}

impl Journaled for PendingOpenUnlinked {
    type Plain = OpenUnlinkedView;

    open spec fn plain(&self) -> OpenUnlinkedView {
        OpenUnlinkedView {
            encrypted_path: opt_path(self.encrypted_path),
            encrypted_version_exists: self.encrypted_version_exists,
            had_unsynced_local_writeback: self.had_unsynced_local_writeback,
            first_seen_at: self.first_seen_at,
            last_seen_at: self.last_seen_at,
            owners: owner_views(self.owners@),
        }
    }

    open spec fn restored(plain: OpenUnlinkedView) -> OpenUnlinkedView {
        plain
    }

    fn copy_value(&self) -> (res: Self) {
        PendingOpenUnlinked {
            encrypted_path: copy_opt_path(&self.encrypted_path),
            encrypted_version_exists: self.encrypted_version_exists,
            had_unsynced_local_writeback: self.had_unsynced_local_writeback,
            first_seen_at: self.first_seen_at,
            last_seen_at: self.last_seen_at,
            owners: copy_owners(&self.owners),
        }
    }

    fn restore(self) -> (res: Self) {
        self
    }
}

/// What is stored about an encrypted file, as plain values.
pub struct MetadataView {
    pub file_path: Seq<char>,
    pub file_id: Option<Seq<char>>,
    pub group_id: Option<u128>,
    pub epoch_id: u64,
    pub header_version: Option<u32>,
    pub wrapped_file_key: Option<Seq<u8>>,
    pub key_wrap_nonce: Option<Seq<u8>>,
    pub key_wrap_aad_hash: Option<Seq<u8>>,
    pub content_nonce: Option<Seq<u8>>,
    pub content_chunk_size: Option<u64>,
    pub algorithm: Seq<char>,
    pub file_size: u64,
    pub modified_at: UtcNanos,
    pub integrity_hash: Digest,
    pub encrypted_size: u64,
    pub encrypted_at: UtcNanos,
    pub version: u32,
}

fn copy_part(part: &Option<Vec<u8>>) -> (res: Option<Vec<u8>>)
    ensures
        opt_bytes(res) == opt_bytes(*part),
{
    match part {
        Some(bytes) => Some(copy_bytes(bytes)),
        None => None,
    }
}

impl Journaled for FileMetadataData {
    type Plain = MetadataView;

    open spec fn plain(&self) -> MetadataView {
        MetadataView {
            file_path: self.file_path@,
            file_id: opt_text(self.file_id),
            group_id: self.group_id,
            epoch_id: self.epoch_id,
            header_version: self.header_version,
            wrapped_file_key: opt_bytes(self.wrapped_file_key),
            key_wrap_nonce: opt_bytes(self.key_wrap_nonce),
            key_wrap_aad_hash: opt_bytes(self.key_wrap_aad_hash),
            content_nonce: opt_bytes(self.content_nonce),
            content_chunk_size: self.content_chunk_size,
            algorithm: self.algorithm@,
            file_size: self.file_size,
            modified_at: self.modified_at,
            integrity_hash: self.integrity_hash,
            encrypted_size: self.encrypted_size,
            encrypted_at: self.encrypted_at,
            version: self.version,
        }
    }

    open spec fn restored(plain: MetadataView) -> MetadataView {
        plain
    }

    fn copy_value(&self) -> (res: Self) {
        FileMetadataData {
            file_path: self.file_path.as_str().to_owned(),
            file_id: copy_opt_text(&self.file_id),
            group_id: self.group_id,
            epoch_id: self.epoch_id,
            header_version: self.header_version,
            wrapped_file_key: copy_part(&self.wrapped_file_key),
            key_wrap_nonce: copy_part(&self.key_wrap_nonce),
            key_wrap_aad_hash: copy_part(&self.key_wrap_aad_hash),
            content_nonce: copy_part(&self.content_nonce),
            content_chunk_size: self.content_chunk_size,
            algorithm: self.algorithm.as_str().to_owned(),
            file_size: self.file_size,
            modified_at: self.modified_at,
            integrity_hash: self.integrity_hash,
            encrypted_size: self.encrypted_size,
            encrypted_at: self.encrypted_at,
            version: self.version,
        }
    }

    fn restore(self) -> (res: Self) {
        self
    }
}

impl Journaled for FileSignature {
    type Plain = FileSignature;

    open spec fn plain(&self) -> FileSignature {
        *self
    }

    open spec fn restored(plain: FileSignature) -> FileSignature {
        plain
    }

    fn copy_value(&self) -> (res: Self) {
        *self
    }

    fn restore(self) -> (res: Self) {
        self
    }
}

impl Journaled for SyncPath {
    type Plain = PathView;

    open spec fn plain(&self) -> PathView {
        self@
    }

    open spec fn restored(plain: PathView) -> PathView {
        plain
    }

    fn copy_value(&self) -> (res: Self) {
        self.duplicate()
    }

    fn restore(self) -> (res: Self) {
        self
    }
}

impl Journaled for Digest {
    type Plain = Digest;

    open spec fn plain(&self) -> Digest {
        *self
    }

    open spec fn restored(plain: Digest) -> Digest {
        plain
    }

    fn copy_value(&self) -> (res: Self) {
        *self
    }

    fn restore(self) -> (res: Self) {
        self
    }
}

/// The records of a journal as plain values.
pub open spec fn record_views<K: JournalKey, T: Journaled>(records: Seq<(K, T)>) -> Seq<
    (K::V, T::Plain),
> {
    records.map_values(|r: (K, T)| (r.0@, r.1.plain()))
}

/// The entries of a map as plain values.
pub open spec fn plain_values<K: TableKey, T: Journaled>(map: Entries<K, T>) -> Entries<
    K,
    T::Plain,
> {
    map.map_values(|t: T| t.plain())
}

/// The entries of a table in order, as plain values.
pub open spec fn table_records<K: JournalKey, T: Journaled>(table: Table<K, T>) -> Seq<
    (K::V, T::Plain),
> {
    Seq::new(table.keys@.len(), |i: int| (table.keys@[i]@, table.values@[i].plain()))
}

/// The map that is read from records. Of several with one key the last counts.
pub open spec fn read_back<K: JournalKey, T: Journaled>(records: Seq<(K::V, T::Plain)>) -> Entries<
    K,
    T::Plain,
>
    decreases records.len(),
{
    if records.len() == 0 {
        Entries::<K, T::Plain>::empty()
    } else {
        read_back::<K, T>(records.drop_last()).insert(
            records.last().0,
            T::restored(records.last().1),
        )
    }
}

fn records_of<K: JournalKey, T: Journaled>(table: &Table<K, T>) -> (res: Vec<(K, T)>)
    requires
        table.wf(),
    ensures
        record_views(res@) == table_records(*table),
{
    let mut res: Vec<(K, T)> = Vec::new();
    let mut i: usize = 0;
    proof {
        table.entries();
        assert(record_views(res@) =~= table_records(*table).take(0));
    }
    while i < table.keys.len()
        invariant
            i <= table.keys@.len(),
            table.keys@.len() == table.values@.len(),
            record_views(res@) == table_records(*table).take(i as int),
        decreases table.keys@.len() - i,
    {
        let ghost before = record_views(res@);
        let key = table.keys[i].copy_key();
        let value = table.values[i].copy_value();
        let ghost added = (key@, value.plain());
        res.push((key, value));
        proof {
            assert(record_views(res@) =~= before.push(added));
            assert(table_records(*table).take(i + 1) =~= table_records(*table).take(i as int).push(
                table_records(*table)[i as int],
            ));
        }
        i += 1;
    }
    assert(table_records(*table).take(table.keys@.len() as int) =~= table_records(*table));
    res
}

fn table_of<K: JournalKey, T: Journaled>(records: Vec<(K, T)>) -> (res: Table<K, T>)
    ensures
        res.wf(),
        plain_values(res@) == read_back::<K, T>(record_views(records@)),
{
    let ghost all = record_views(records@);
    let ghost given = records@;
    let mut left = records;
    let mut turned: Vec<(K, T)> = Vec::new();
    while left.len() > 0
        invariant
            given == left@ + turned@.reverse(),
        decreases left@.len(),
    {
        if let Some(record) = left.pop() {
            turned.push(record);
            assert(given =~= left@ + turned@.reverse());
        }
    }
    let mut table: Table<K, T> = Table::new();
    let ghost mut done: int = 0;
    proof {
        assert(given =~= turned@.reverse());
        assert(plain_values(table@).map =~= read_back::<K, T>(all.take(0)).map);
    }
    while turned.len() > 0
        invariant
            0 <= done <= given.len(),
            all == record_views(given),
            turned@.len() == given.len() - done,
            forall|k: int| 0 <= k < turned@.len() ==> turned@[k] == given[given.len() - 1 - k],
            table.wf(),
            plain_values(table@) == read_back::<K, T>(all.take(done)),
        decreases turned@.len(),
    {
        if let Some((key, value)) = turned.pop() {
            let ghost before = table@;
            let ghost k = key@;
            proof {
                assert((key, value) == given[done]);
                assert(all.take(done + 1).drop_last() =~= all.take(done));
                assert(all.take(done + 1).last() == (key@, value.plain()));
                done = done + 1;
            }
            let restored = value.restore();
            let ghost v = restored.plain();
            table.insert(key, restored);
            assert(plain_values(table@).map =~= plain_values(before).insert(k, v).map);
        }
    }
    assert(all.take(done) =~= all);
    table
}

/// What is written of a well-formed table is read back as it was, if every entry is one that is
/// read back as it is.
pub proof fn journal_round_trip<K: JournalKey, T: Journaled>(table: Table<K, T>)
    requires
        table.wf(),
        forall|i: int|
            0 <= i < table.values@.len() ==> T::restored((#[trigger] table.values@[i]).plain())
                == table.values@[i].plain(),
    ensures
        read_back::<K, T>(table_records(table)) == plain_values(table@),
{
    table.entries();
    let records = table_records(table);
    read_back_prefix::<K, T>(table, records.len() as int);
    assert(records.take(records.len() as int) =~= records);
    let read = read_back::<K, T>(records);
    let goal = plain_values(table@);
    assert forall|k: K::Key| #[trigger] goal.map.contains_key(k) implies read.map.contains_key(k)
        && read.map[k] == goal.map[k] by {
        assert(table@.map.contains_key(k));
        let i = choose|i: int|
            0 <= i < table.keys@.len() && K::key_of((#[trigger] table.keys@[i])@) == k
                && table@.map[k] == (table.keys@[i]@, table.values@[i]);
        assert(records[i].0 == table.keys@[i]@);
    }
    assert forall|k: K::Key| #[trigger] read.map.contains_key(k) implies goal.map.contains_key(
        k,
    ) by {
        let i = choose|i: int| 0 <= i < records.len() && K::key_of((#[trigger] records[i]).0) == k;
        assert(table@.contains_key(table.keys@[i]@));
    }
    assert(read.map =~= goal.map);
}

proof fn read_back_prefix<K: JournalKey, T: Journaled>(table: Table<K, T>, n: int)
    requires
        table.wf(),
        0 <= n <= table.keys@.len(),
        forall|i: int|
            0 <= i < table.values@.len() ==> T::restored((#[trigger] table.values@[i]).plain())
                == table.values@[i].plain(),
    ensures
        ({
            let records = table_records(table);
            let read = read_back::<K, T>(records.take(n));
            &&& forall|k: K::Key| #[trigger]
                read.map.contains_key(k) ==> exists|i: int|
                    0 <= i < n && K::key_of((#[trigger] records[i]).0) == k
            &&& forall|i: int|
                0 <= i < n ==> read.map.contains_key(K::key_of((#[trigger] records[i]).0))
                    && read.map[K::key_of(records[i].0)] == records[i]
        }),
    decreases n,
{
    table.entries();
    let records = table_records(table);
    if n > 0 {
        read_back_prefix::<K, T>(table, n - 1);
        let front = read_back::<K, T>(records.take(n - 1));
        let read = read_back::<K, T>(records.take(n));
        assert(records.take(n).drop_last() =~= records.take(n - 1));
        assert(records.take(n).last() == records[n - 1]);
        assert(T::restored(table.values@[n - 1].plain()) == table.values@[n - 1].plain());
        assert(read == front.insert(records[n - 1].0, records[n - 1].1));
        assert(!front.map.contains_key(K::key_of(records[n - 1].0))) by {
            if front.map.contains_key(K::key_of(records[n - 1].0)) {
                let i = choose|i: int|
                    0 <= i < n - 1 && K::key_of((#[trigger] records[i]).0) == K::key_of(
                        records[n - 1].0,
                    );
                assert(table.key_order()[i] == table.key_order()[n - 1]);
            }
        }
        assert forall|i: int| 0 <= i < n implies read.map.contains_key(
            K::key_of((#[trigger] records[i]).0),
        ) && read.map[K::key_of(records[i].0)] == records[i] by {
            if i < n - 1 {
                assert(table.key_order()[i] != table.key_order()[n - 1]);
                assert(table.key_order()[i] == K::key_of(records[i].0));
                assert(table.key_order()[n - 1] == K::key_of(records[n - 1].0));
            }
        }
        assert forall|k: K::Key| #[trigger] read.map.contains_key(k) implies exists|i: int|
            0 <= i < n && K::key_of((#[trigger] records[i]).0) == k by {
            if k == K::key_of(records[n - 1].0) {
                assert(K::key_of(records[n - 1].0) == k);
            } else {
                assert(front.map.contains_key(k));
                let i = choose|i: int| 0 <= i < n - 1 && K::key_of((#[trigger] records[i]).0) == k;
                assert(K::key_of(records[i].0) == k);
            }
        }
    }
}

/// What is known of the files on both sides, as it is written down at the end of a mount.
pub struct SyncBaseline {
    pub encrypted_signatures: Vec<(SyncPath, FileSignature)>,
    pub decrypted_signatures: Vec<(SyncPath, FileSignature)>,
    pub path_mappings: Vec<(SyncPath, SyncPath)>,
    pub file_id_mappings: Vec<(String, SyncPath)>,
    pub decrypted_hashes: Vec<(SyncPath, Digest)>,
    pub decrypted_metadata_hashes: Vec<(SyncPath, Digest)>,
}

impl SyncTracker {
    /// Sets where the pending deletions are written.
    pub fn set_pending_deletion_path(&mut self, path: SyncPath)
        ensures
            *final(self) == (SyncTracker {
                journals: Journals { pending_deletion_path: Some(path), ..old(self).journals },
                ..*old(self)
            }),
    {
        self.journals.pending_deletion_path = Some(path);
    }

    /// Sets where the orphans are written.
    pub fn set_pending_orphan_path(&mut self, path: SyncPath)
        ensures
            *final(self) == (SyncTracker {
                journals: Journals { pending_orphan_path: Some(path), ..old(self).journals },
                ..*old(self)
            }),
    {
        self.journals.pending_orphan_path = Some(path);
    }

    /// Sets where the pending writebacks are written.
    pub fn set_pending_writeback_path(&mut self, path: SyncPath)
        ensures
            *final(self) == (SyncTracker {
                journals: Journals { pending_writeback_path: Some(path), ..old(self).journals },
                ..*old(self)
            }),
    {
        self.journals.pending_writeback_path = Some(path);
    }

    /// Sets where the pending refreshes are written.
    pub fn set_pending_refresh_path(&mut self, path: SyncPath)
        ensures
            *final(self) == (SyncTracker {
                journals: Journals { pending_refresh_path: Some(path), ..old(self).journals },
                ..*old(self)
            }),
    {
        self.journals.pending_refresh_path = Some(path);
    }

    /// Sets where the files that were deleted while open are written.
    pub fn set_pending_open_unlinked_path(&mut self, path: SyncPath)
        ensures
            *final(self) == (SyncTracker {
                journals: Journals { pending_open_unlinked_path: Some(path), ..old(self).journals },
                ..*old(self)
            }),
    {
        self.journals.pending_open_unlinked_path = Some(path);
    }

    /// Sets where the metadata still to be stored is written.
    pub fn set_pending_metadata_path(&mut self, path: SyncPath)
        ensures
            *final(self) == (SyncTracker {
                journals: Journals { pending_metadata_path: Some(path), ..old(self).journals },
                ..*old(self)
            }),
    {
        self.journals.pending_metadata_path = Some(path);
    }

    /// Sets where what is known of the files is written.
    pub fn set_sync_baseline_path(&mut self, path: SyncPath)
        ensures
            *final(self) == (SyncTracker {
                journals: Journals { sync_baseline_path: Some(path), ..old(self).journals },
                ..*old(self)
            }),
    {
        self.journals.sync_baseline_path = Some(path);
    }

    /// The pending deletions as they are written.
    pub fn pending_deletion_records(&self) -> (res: Vec<(SyncPath, PendingDeletion)>)
        requires
            self.wf(),
        ensures
            record_views(res@) == table_records(self.work.pending_deletions),
    {
        records_of(&self.work.pending_deletions)
    }

    /// Takes over the pending deletions that were read.
    pub fn load_pending_deletions(&mut self, records: Vec<(SyncPath, PendingDeletion)>)
        requires
            old(self).wf(),
        ensures
            final(self).wf(),
            plain_values(final(self).work.pending_deletions@) == read_back::<
                SyncPath,
                PendingDeletion,
            >(record_views(records@)),
            *final(self) == (SyncTracker { work: final(self).work, ..*old(self) }),
            final(self).work == (PendingWork {
                pending_deletions: final(self).work.pending_deletions,
                ..old(self).work
            }),
    {
        self.work.pending_deletions = table_of(records);
    }

    /// The orphans as they are written.
    pub fn pending_orphan_records(&self) -> (res: Vec<(SyncPath, PendingOrphan)>)
        requires
            self.wf(),
        ensures
            record_views(res@) == table_records(self.work.pending_orphans),
    {
        records_of(&self.work.pending_orphans)
    }

    /// Takes over the orphans that were read.
    pub fn load_pending_orphans(&mut self, records: Vec<(SyncPath, PendingOrphan)>)
        requires
            old(self).wf(),
        ensures
            final(self).wf(),
            plain_values(final(self).work.pending_orphans@) == read_back::<SyncPath, PendingOrphan>(
                record_views(records@),
            ),
            *final(self) == (SyncTracker { work: final(self).work, ..*old(self) }),
            final(self).work == (PendingWork {
                pending_orphans: final(self).work.pending_orphans,
                ..old(self).work
            }),
    {
        self.work.pending_orphans = table_of(records);
    }

    /// The pending writebacks as they are written.
    pub fn pending_writeback_records(&self) -> (res: Vec<(SyncPath, PendingWriteback)>)
        requires
            self.wf(),
        ensures
            record_views(res@) == table_records(self.work.pending_writebacks),
    {
        records_of(&self.work.pending_writebacks)
    }

    /// Takes over the pending writebacks that were read.
    pub fn load_pending_writebacks(&mut self, records: Vec<(SyncPath, PendingWriteback)>)
        requires
            old(self).wf(),
        ensures
            final(self).wf(),
            plain_values(final(self).work.pending_writebacks@) == read_back::<
                SyncPath,
                PendingWriteback,
            >(record_views(records@)),
            *final(self) == (SyncTracker { work: final(self).work, ..*old(self) }),
            final(self).work == (PendingWork {
                pending_writebacks: final(self).work.pending_writebacks,
                ..old(self).work
            }),
    {
        self.work.pending_writebacks = table_of(records);
    }

    /// The pending refreshes as they are written.
    pub fn pending_refresh_records(&self) -> (res: Vec<(SyncPath, PendingRefresh)>)
        requires
            self.wf(),
        ensures
            record_views(res@) == table_records(self.work.pending_refreshes),
    {
        records_of(&self.work.pending_refreshes)
    }

    /// Takes over the pending refreshes that were read.
    pub fn load_pending_refreshes(&mut self, records: Vec<(SyncPath, PendingRefresh)>)
        requires
            old(self).wf(),
        ensures
            final(self).wf(),
            plain_values(final(self).work.pending_refreshes@) == read_back::<
                SyncPath,
                PendingRefresh,
            >(record_views(records@)),
            *final(self) == (SyncTracker { work: final(self).work, ..*old(self) }),
            final(self).work == (PendingWork {
                pending_refreshes: final(self).work.pending_refreshes,
                ..old(self).work
            }),
    {
        self.work.pending_refreshes = table_of(records);
    }

    /// The files that were deleted while open, as they are written.
    pub fn pending_open_unlinked_records(&self) -> (res: Vec<(SyncPath, PendingOpenUnlinked)>)
        requires
            self.wf(),
        ensures
            record_views(res@) == table_records(self.work.pending_open_unlinked),
    {
        records_of(&self.work.pending_open_unlinked)
    }

    /// Takes over the files that were deleted while open, as they were read.
    pub fn load_pending_open_unlinked(&mut self, records: Vec<(SyncPath, PendingOpenUnlinked)>)
        requires
            old(self).wf(),
        ensures
            final(self).wf(),
            plain_values(final(self).work.pending_open_unlinked@) == read_back::<
                SyncPath,
                PendingOpenUnlinked,
            >(record_views(records@)),
            *final(self) == (SyncTracker { work: final(self).work, ..*old(self) }),
            final(self).work == (PendingWork {
                pending_open_unlinked: final(self).work.pending_open_unlinked,
                ..old(self).work
            }),
    {
        self.work.pending_open_unlinked = table_of(records);
    }

    /// The metadata still to be stored, as it is written.
    pub fn pending_metadata_records(&self) -> (res: Vec<(SyncPath, FileMetadataData)>)
        requires
            self.wf(),
        ensures
            record_views(res@) == table_records(self.work.pending_metadata),
    {
        records_of(&self.work.pending_metadata)
    }

    /// Takes over the metadata still to be stored, as it was read.
    pub fn load_pending_metadata(&mut self, records: Vec<(SyncPath, FileMetadataData)>)
        requires
            old(self).wf(),
        ensures
            final(self).wf(),
            plain_values(final(self).work.pending_metadata@) == read_back::<
                SyncPath,
                FileMetadataData,
            >(record_views(records@)),
            *final(self) == (SyncTracker { work: final(self).work, ..*old(self) }),
            final(self).work == (PendingWork {
                pending_metadata: final(self).work.pending_metadata,
                ..old(self).work
            }),
    {
        self.work.pending_metadata = table_of(records);
    }

    /// What is known of the files on both sides, as it is written.
    pub fn sync_baseline(&self) -> (res: SyncBaseline)
        requires
            self.wf(),
        ensures
            is_baseline_of(res, *self),
    {
        SyncBaseline {
            encrypted_signatures: records_of(&self.files.encrypted_signatures),
            decrypted_signatures: records_of(&self.files.decrypted_signatures),
            path_mappings: records_of(&self.files.path_mapping),
            file_id_mappings: records_of(&self.files.file_id_to_mount_path),
            decrypted_hashes: records_of(&self.files.decrypted_hashes),
            decrypted_metadata_hashes: records_of(&self.files.decrypted_metadata_hashes),
        }
    }

    /// Takes over what is known of the files on both sides, as it was read. Where nothing could be
    /// read, what is known stays.
    pub fn load_sync_baseline(&mut self, baseline: Option<SyncBaseline>)
        requires
            old(self).wf(),
        ensures
            final(self).wf(),
            match baseline {
                Some(read) => baseline_taken_over(*old(self), *final(self), read),
                None => *final(self) == *old(self),
            },
    {
        if let Some(read) = baseline {
            self.files.encrypted_signatures = table_of(read.encrypted_signatures);
            self.files.decrypted_signatures = table_of(read.decrypted_signatures);
            self.files.path_mapping = table_of(read.path_mappings);
            self.files.file_id_to_mount_path = table_of(read.file_id_mappings);
            self.files.decrypted_hashes = table_of(read.decrypted_hashes);
            self.files.decrypted_metadata_hashes = table_of(read.decrypted_metadata_hashes);
        }
    }
}

/// The baseline holds what a state knows of the files on both sides.
pub open spec fn is_baseline_of(baseline: SyncBaseline, tracker: SyncTracker) -> bool {
    let files = tracker.files;
    &&& record_views(baseline.encrypted_signatures@) == table_records(files.encrypted_signatures)
    &&& record_views(baseline.decrypted_signatures@) == table_records(files.decrypted_signatures)
    &&& record_views(baseline.path_mappings@) == table_records(files.path_mapping)
    &&& record_views(baseline.file_id_mappings@) == table_records(files.file_id_to_mount_path)
    &&& record_views(baseline.decrypted_hashes@) == table_records(files.decrypted_hashes)
    &&& record_views(baseline.decrypted_metadata_hashes@) == table_records(
        files.decrypted_metadata_hashes,
    )
}

/// The state after a baseline was taken over: what was known of the files before is gone.
pub open spec fn baseline_taken_over(
    before: SyncTracker,
    after: SyncTracker,
    baseline: SyncBaseline,
) -> bool {
    let files = after.files;
    &&& plain_values(files.encrypted_signatures@) == read_back::<SyncPath, FileSignature>(
        record_views(baseline.encrypted_signatures@),
    )
    &&& plain_values(files.decrypted_signatures@) == read_back::<SyncPath, FileSignature>(
        record_views(baseline.decrypted_signatures@),
    )
    &&& plain_values(files.path_mapping@) == read_back::<SyncPath, SyncPath>(
        record_views(baseline.path_mappings@),
    )
    &&& plain_values(files.file_id_to_mount_path@) == read_back::<String, SyncPath>(
        record_views(baseline.file_id_mappings@),
    )
    &&& plain_values(files.decrypted_hashes@) == read_back::<SyncPath, Digest>(
        record_views(baseline.decrypted_hashes@),
    )
    &&& plain_values(files.decrypted_metadata_hashes@) == read_back::<SyncPath, Digest>(
        record_views(baseline.decrypted_metadata_hashes@),
    )
    &&& after == (SyncTracker { files, ..before })
    &&& files == (FileLedger {
        encrypted_signatures: files.encrypted_signatures,
        decrypted_signatures: files.decrypted_signatures,
        path_mapping: files.path_mapping,
        file_id_to_mount_path: files.file_id_to_mount_path,
        decrypted_hashes: files.decrypted_hashes,
        decrypted_metadata_hashes: files.decrypted_metadata_hashes,
        ..before.files
    })
}

/// No two encrypted files are mounted at one path.
pub open spec fn one_to_one(mapping: PathEntries<PathView>) -> bool {
    forall|a: PathView, b: PathView|
        #![trigger mapping[a], mapping[b]]
        mapping.contains_key(a) && mapping.contains_key(b) && same_path(mapping[a], mapping[b])
            ==> same_path(a, b)
}

proof fn places_differ(table: PathMap<SyncPath>)
    requires
        table.wf(),
        one_to_one(path_values(table@)),
    ensures
        view_keys(path_views(table.values@)).no_duplicates(),
{
    table.entries();
    let to = path_views(table.values@);
    let mapping = path_values(table@);
    assert forall|i: int, j: int|
        0 <= i < to.len() && 0 <= j < to.len() && i != j implies view_keys(to)[i] != view_keys(
        to,
    )[j] by {
        let a = table.keys@[i]@;
        let b = table.keys@[j]@;
        assert(table@.contains_key(a) && table@.contains_key(b));
        assert(mapping[a] == to[i]);
        assert(mapping[b] == to[j]);
        assert(table.key_order()[i] == a.key());
        assert(table.key_order()[j] == b.key());
    }
}

proof fn inverted_at(from: Seq<PathView>, to: Seq<PathView>, i: int)
    requires
        from.len() == to.len(),
        0 <= i < to.len(),
        view_keys(to).no_duplicates(),
    ensures
        inverted(from, to).contains_key(to[i]),
        inverted(from, to).map[to[i].key()] == (to[i], from[i]),
    decreases to.len(),
{
    let n = to.len() - 1;
    let front = to.drop_last();
    assert forall|a: int, b: int|
        0 <= a < front.len() && 0 <= b < front.len() && a != b implies view_keys(front)[a]
        != view_keys(front)[b] by {
        assert(view_keys(to)[a] == view_keys(front)[a]);
        assert(view_keys(to)[b] == view_keys(front)[b]);
    }
    if i < n {
        inverted_at(from.drop_last(), front, i);
        assert(view_keys(to)[i] == to[i].key());
        assert(view_keys(to)[n] == to[n].key());
    } else if inverted(from.drop_last(), front).contains_key(to[n]) {
        inverted_has_places(from.drop_last(), front, to[n].key());
        let j = choose|j: int| 0 <= j < front.len() && (#[trigger] front[j]).key() == to[n].key();
        assert(view_keys(to)[j] == view_keys(to)[n]);
    }
}

proof fn inverted_has_places(from: Seq<PathView>, to: Seq<PathView>, place: PathKey)
    requires
        inverted(from, to).map.contains_key(place),
    ensures
        from.len() == to.len(),
        exists|i: int| 0 <= i < to.len() && (#[trigger] to[i]).key() == place,
    decreases to.len(),
{
    if to.len() > 0 && from.len() == to.len() {
        if to.last().key() == place {
            assert(to[to.len() - 1].key() == place);
        } else {
            inverted_has_places(from.drop_last(), to.drop_last(), place);
            let i = choose|i: int|
                0 <= i < to.drop_last().len() && (#[trigger] to.drop_last()[i]).key() == place;
            assert(to[i].key() == place);
        }
    }
}

proof fn leads_back_alike(a: PathMap<SyncPath>, b: PathMap<SyncPath>, place: PathKey)
    requires
        a.wf(),
        b.wf(),
        path_values(a@) == path_values(b@),
        one_to_one(path_values(a@)),
        inverted(a.order(), path_views(a.values@)).map.contains_key(place),
    ensures
        inverted(b.order(), path_views(b.values@)).map.contains_key(place),
        inverted(b.order(), path_views(b.values@)).map[place] == inverted(
            a.order(),
            path_views(a.values@),
        ).map[place],
{
    a.entries();
    b.entries();
    places_differ(a);
    places_differ(b);
    let to = path_views(a.values@);
    inverted_has_places(a.order(), to, place);
    let i = choose|i: int| 0 <= i < to.len() && (#[trigger] to[i]).key() == place;
    inverted_at(a.order(), to, i);
    let from = a.keys@[i]@;
    assert(a.order()[i] == from);
    assert(a@.contains_key(from));
    assert(path_values(a@).map[from.key()] == (from, to[i]));
    assert(path_values(b@).map.contains_key(from.key()));
    assert(b@.map.contains_key(from.key()));
    let j = choose|j: int|
        0 <= j < b.keys@.len() && (#[trigger] b.keys@[j])@.key() == from.key()
            && b@.map[from.key()] == (b.keys@[j]@, b.values@[j]);
    assert(path_values(b@).map[from.key()] == (b.keys@[j]@, b.values@[j]@));
    assert(b.order()[j] == from);
    assert(path_views(b.values@)[j] == to[i]);
    inverted_at(b.order(), path_views(b.values@), j);
}

/// What one state wrote down of the files on both sides, another knows after it took it over: the
/// signatures, the digests, where each file is mounted and, where no two are mounted at one path,
/// which encrypted file each mounted path leads back to. What the other knew before is gone.
pub proof fn baseline_round_trip(
    writer: SyncTracker,
    baseline: SyncBaseline,
    before: SyncTracker,
    after: SyncTracker,
)
    requires
        writer.wf(),
        after.wf(),
        is_baseline_of(baseline, writer),
        baseline_taken_over(before, after, baseline),
    ensures
        after.files.encrypted_signatures@ == writer.files.encrypted_signatures@,
        after.files.decrypted_signatures@ == writer.files.decrypted_signatures@,
        path_values(after.files.path_mapping@) == path_values(writer.files.path_mapping@),
        path_values(after.files.file_id_to_mount_path@) == path_values(
            writer.files.file_id_to_mount_path@,
        ),
        after.files.decrypted_hashes@ == writer.files.decrypted_hashes@,
        after.files.decrypted_metadata_hashes@ == writer.files.decrypted_metadata_hashes@,
        one_to_one(path_values(writer.files.path_mapping@)) ==> inverted(
            after.files.path_mapping.order(),
            path_views(after.files.path_mapping.values@),
        ) == inverted(
            writer.files.path_mapping.order(),
            path_views(writer.files.path_mapping.values@),
        ),
{
    journal_round_trip::<SyncPath, FileSignature>(writer.files.encrypted_signatures);
    journal_round_trip::<SyncPath, FileSignature>(writer.files.decrypted_signatures);
    journal_round_trip::<SyncPath, SyncPath>(writer.files.path_mapping);
    journal_round_trip::<String, SyncPath>(writer.files.file_id_to_mount_path);
    journal_round_trip::<SyncPath, Digest>(writer.files.decrypted_hashes);
    journal_round_trip::<SyncPath, Digest>(writer.files.decrypted_metadata_hashes);
    plain_is_same(after.files.encrypted_signatures@, writer.files.encrypted_signatures@);
    plain_is_same(after.files.decrypted_signatures@, writer.files.decrypted_signatures@);
    digests_are_same(after.files.decrypted_hashes@, writer.files.decrypted_hashes@);
    digests_are_same(
        after.files.decrypted_metadata_hashes@,
        writer.files.decrypted_metadata_hashes@,
    );
    assert(plain_values(after.files.path_mapping@) =~= path_values(after.files.path_mapping@));
    assert(plain_values(writer.files.path_mapping@) =~= path_values(writer.files.path_mapping@));
    assert(plain_values(after.files.file_id_to_mount_path@) =~= path_values(
        after.files.file_id_to_mount_path@,
    ));
    assert(plain_values(writer.files.file_id_to_mount_path@) =~= path_values(
        writer.files.file_id_to_mount_path@,
    ));
    if one_to_one(path_values(writer.files.path_mapping@)) {
        let a = inverted(
            after.files.path_mapping.order(),
            path_views(after.files.path_mapping.values@),
        );
        let w = inverted(
            writer.files.path_mapping.order(),
            path_views(writer.files.path_mapping.values@),
        );
        assert forall|place: PathKey| #[trigger] a.map.contains_key(place) implies w.map.contains_key(
            place,
        ) && w.map[place] == a.map[place] by {
            leads_back_alike(after.files.path_mapping, writer.files.path_mapping, place);
        }
        assert forall|place: PathKey| #[trigger] w.map.contains_key(place) implies a.map.contains_key(
            place,
        ) by {
            leads_back_alike(writer.files.path_mapping, after.files.path_mapping, place);
        }
        assert(a.map =~= w.map);
    }
}

proof fn plain_is_same(a: PathEntries<FileSignature>, b: PathEntries<FileSignature>)
    requires
        plain_values(a) == plain_values(b),
    ensures
        a == b,
{
    assert(plain_values(a).map =~= a.map);
    assert(plain_values(b).map =~= b.map);
}

proof fn digests_are_same(a: PathEntries<Digest>, b: PathEntries<Digest>)
    requires
        plain_values(a) == plain_values(b),
    ensures
        a == b,
{
    assert(plain_values(a).map =~= a.map);
    assert(plain_values(b).map =~= b.map);
}

} // verus!
