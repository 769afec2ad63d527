//! The lists of copies that someone has to decide about.

use vstd::prelude::*;

use crate::conflicts::copy_made_at;
use crate::path::{strip_prefix, PathEntries, PathMap, PathView, SyncPath};
use crate::path_order::ranked;
use crate::resolution::{
    conflict_is_shown, conflict_record_for_path, order_conflict_records, order_recovery_records,
    recovered_from, recovery_copy_record_for_path, shows_conflict, CopyLook, MountConflictRecord,
    MountRecoveryCopyRecord,
};
use crate::table::selected;
use crate::tracker::{SyncTracker, UtcNanos};

verus! {

/// The conflicts that are shown: those whose copies were looked at and are there.
pub open spec fn conflict_shown(
    tracker: SyncTracker,
    mount_root: PathView,
    looks: PathEntries<CopyLook>,
) -> spec_fn(PathView) -> bool {
    |p: PathView|
        looks.contains_key(p) && conflict_is_shown(
            mount_root,
            p,
            tracker.copies.conflict_baselines@[p],
            looks[p],
        )
}

/// The records show the conflicts at the paths.
pub open spec fn show_conflicts(
    records: Seq<MountConflictRecord>,
    paths: Seq<PathView>,
    tracker: SyncTracker,
    mount_root: PathView,
    looks: PathEntries<CopyLook>,
) -> bool {
    &&& records.len() == paths.len()
    &&& forall|i: int|
        0 <= i < records.len() ==> shows_conflict(
            #[trigger] records[i],
            mount_root,
            paths[i],
            tracker.copies.conflict_baselines@[paths[i]],
            looks[paths[i]],
        )
}

/// The recovered copies that are shown.
pub open spec fn recovery_shown(
    mount_root: PathView,
    looks: PathEntries<CopyLook>,
) -> spec_fn(PathView) -> bool {
    |p: PathView|
        looks.contains_key(p) && strip_prefix(p, mount_root) is Some && strip_prefix(
            recovered_from(p),
            mount_root,
        ) is Some && looks[p].copy_size is Some
}

/// The records show the recovered copies at the paths.
pub open spec fn show_recoveries(
    records: Seq<MountRecoveryCopyRecord>,
    paths: Seq<PathView>,
    mount_root: PathView,
    looks: PathEntries<CopyLook>,
    now: UtcNanos,
) -> bool {
    &&& records.len() == paths.len()
    &&& forall|i: int|
        0 <= i < records.len() ==> {
            let record = #[trigger] records[i];
            let look = looks[paths[i]];
            &&& Some(record.recovery_relative_path@) == strip_prefix(paths[i], mount_root)
            &&& Some(record.live_relative_path@) == strip_prefix(
                recovered_from(paths[i]),
                mount_root,
            )
            &&& record.created_at == copy_made_at(paths[i], "recovered-pending"@, now)
            &&& record.live_exists == look.live_exists
            &&& record.text_preview_supported == (look.copy_is_text && look.live_exists
                && look.live_is_text)
            &&& record.live_size_bytes == look.live_size
            &&& Some(record.recovery_size_bytes) == look.copy_size
        }
}

impl SyncTracker {
    /// The conflicts, in the order in which they are shown.
    pub fn conflict_records(&self, mount_root: &SyncPath, looks: &PathMap<CopyLook>) -> (res: Vec<
        MountConflictRecord,
    >)
        requires
            self.wf(),
            looks.wf(),
        ensures
            exists|records: Seq<MountConflictRecord>|
                show_conflicts(
                    records,
                    selected(
                        self.copies.conflict_baselines.order(),
                        conflict_shown(*self, mount_root@, looks@),
                    ),
                    *self,
                    mount_root@,
                    looks@,
                ) && res@ == #[trigger] ranked(records),
    {
        let table = &self.copies.conflict_baselines;
        let ghost order = table.order();
        let ghost shown = conflict_shown(*self, mount_root@, looks@);
        let mut records: Vec<MountConflictRecord> = Vec::new();
        let mut i: usize = 0;
        while i < table.keys.len()
            invariant
                i <= table.keys@.len(),
                *table == self.copies.conflict_baselines,
                table.wf(),
                looks.wf(),
                order == table.order(),
                shown == conflict_shown(*self, mount_root@, looks@),
                show_conflicts(
                    records@,
                    selected(order.take(i as int), shown),
                    *self,
                    mount_root@,
                    looks@,
                ),
            decreases table.keys@.len() - i,
        {
            let path = &table.keys[i];
            proof {
                table.entries();
                assert(table@.contains_key(table.keys@[i as int]@));
                assert(table@[path@] == table.values@[i as int]);
                assert(order[i as int] == path@);
                assert(order.take(i + 1).drop_last() =~= order.take(i as int));
                assert(order.take(i + 1).last() == path@);
            }
            if let Some(look) = looks.get(path) {
                if let Some(record) = conflict_record_for_path(
                    mount_root,
                    path,
                    &table.values[i],
                    *look,
                ) {
                    records.push(record);
                }
            }
            i += 1;
        }
        assert(order.take(order.len() as int) =~= order);
        let ghost found = records@;
        let res = order_conflict_records(records);
        assert(res@ == ranked(found));
        res
    }

    /// The recovered copies, in the order in which they are shown.
    pub fn recovery_copy_records(
        &self,
        mount_root: &SyncPath,
        looks: &PathMap<CopyLook>,
        now: UtcNanos,
    ) -> (res: Vec<MountRecoveryCopyRecord>)
        requires
            self.wf(),
            looks.wf(),
        ensures
            exists|records: Seq<MountRecoveryCopyRecord>|
                show_recoveries(
                    records,
                    selected(
                        self.copies.recovered_pending_paths.order(),
                        recovery_shown(mount_root@, looks@),
                    ),
                    mount_root@,
                    looks@,
                    now,
                ) && res@ == #[trigger] ranked(records),
    {
        let table = &self.copies.recovered_pending_paths;
        let ghost order = table.order();
        let ghost shown = recovery_shown(mount_root@, looks@);
        let mut records: Vec<MountRecoveryCopyRecord> = Vec::new();
        let mut i: usize = 0;
        while i < table.keys.len()
            invariant
                i <= table.keys@.len(),
                looks.wf(),
                order == table.order(),
                shown == recovery_shown(mount_root@, looks@),
                show_recoveries(
                    records@,
                    selected(order.take(i as int), shown),
                    mount_root@,
                    looks@,
                    now,
                ),
            decreases table.keys@.len() - i,
        {
            let path = &table.keys[i];
            proof {
                assert(order[i as int] == path@);
                assert(order.take(i + 1).drop_last() =~= order.take(i as int));
                assert(order.take(i + 1).last() == path@);
            }
            if let Some(look) = looks.get(path) {
                if let Some(record) = recovery_copy_record_for_path(mount_root, path, *look, now) {
                    records.push(record);
                }
            }
            i += 1;
        }
        assert(order.take(order.len() as int) =~= order);
        let ghost found = records@;
        let res = order_recovery_records(records);
        assert(res@ == ranked(found));
        res
    }
}

} // verus!
