//! What a mount tells of itself: what is pending, and whether it is safe to unmount.

use vstd::prelude::*;
use vstd::string::*;

use crate::errors::{copy_opt_text, opt_text, pending_writeback_error_is_terminal, says_terminal};
use crate::exclusion::texts;
use crate::path::{PathEntries, PathMap, PathView, SyncPath};
use crate::pending::owner_views;
use crate::safety::{reason_summary, LowSpaceMode, MountSafetyReason};
use crate::sorting::{
    copy_texts, drop_repeated, pair_texts, pairs_in_order, second_texts, sort_by_first, first_n,
    first_occurrences, in_order, keep_first, occurrences_stand_once, sort_texts,
};
use crate::space::{space_warnings, SpaceWarningState};
use crate::text::{concat2, concat3, decimal, decimal_text, signed_decimal, signed_decimal_text};
use crate::tracker::{
    ConflictBaseline, HeldBack, LocalCopies, OpenUnlinkedOwner, PendingOpenUnlinked, PendingRefresh,
    PendingWork, PendingWriteback, ScanHealth, SyncTracker, UtcNanos,
};

verus! {

pub const MAX_OPEN_UNLINKED_PATHS_IN_STATUS: usize = 16;
pub const MAX_CONFLICT_PATHS_IN_STATUS: usize = 16;
pub const MAX_RECOVERED_PENDING_PATHS_IN_STATUS: usize = 16;

/// The most paths of other kinds that are told.
pub const MAX_PATHS_IN_STATUS: usize = 16;

/// What a mount tells of itself.
#[derive(Debug)]
pub struct MountSyncRuntimeStatus {
    pub safe_to_unmount: bool,
    pub pending_writeback_count: usize,
    pub pending_writeback_oldest_age_ms: Option<u64>,
    pub pending_writeback_paths: Vec<String>,
    pub pending_refresh_count: usize,
    pub pending_open_unlinked_count: usize,
    pub pending_conflict_count: usize,
    pub edited_conflict_count: usize,
    pub recovered_pending_copy_count: usize,
    pub pending_low_space_path_count: usize,
    pub low_space_mode: LowSpaceMode,
    pub low_space_paths: Vec<String>,
    pub open_unlinked_paths: Vec<String>,
    pub conflict_paths: Vec<String>,
    pub edited_conflict_paths: Vec<String>,
    pub recovered_pending_copy_paths: Vec<String>,
    pub unsafe_reasons: Vec<MountSafetyReason>,
    pub preflight_warnings: Vec<String>,
    pub last_error: Option<String>,
    pub updated_at: UtcNanos,
}

impl MountSyncRuntimeStatus {
    /// The state of a mount of which nothing is known yet: it is not said to be safe to unmount.
    pub fn unknown(now: UtcNanos) -> (res: MountSyncRuntimeStatus)
        ensures
            !res.safe_to_unmount,
            res.pending_writeback_count == 0,
            res.pending_writeback_oldest_age_ms is None,
            res.pending_writeback_paths@.len() == 0,
            res.pending_refresh_count == 0,
            res.pending_open_unlinked_count == 0,
            res.pending_conflict_count == 0,
            res.edited_conflict_count == 0,
            res.recovered_pending_copy_count == 0,
            res.pending_low_space_path_count == 0,
            res.low_space_mode == LowSpaceMode::Healthy,
            res.low_space_paths@.len() == 0,
            res.open_unlinked_paths@.len() == 0,
            res.conflict_paths@.len() == 0,
            res.edited_conflict_paths@.len() == 0,
            res.recovered_pending_copy_paths@.len() == 0,
            res.unsafe_reasons@.len() == 0,
            res.preflight_warnings@.len() == 0,
            res.last_error is None,
            res.updated_at == now,
    {
        MountSyncRuntimeStatus {
            safe_to_unmount: false,
            pending_writeback_count: 0,
            pending_writeback_oldest_age_ms: None,
            pending_writeback_paths: Vec::new(),
            pending_refresh_count: 0,
            pending_open_unlinked_count: 0,
            pending_conflict_count: 0,
            edited_conflict_count: 0,
            recovered_pending_copy_count: 0,
            pending_low_space_path_count: 0,
            low_space_mode: LowSpaceMode::Healthy,
            low_space_paths: Vec::new(),
            open_unlinked_paths: Vec::new(),
            conflict_paths: Vec::new(),
            edited_conflict_paths: Vec::new(),
            recovered_pending_copy_paths: Vec::new(),
            unsafe_reasons: Vec::new(),
            preflight_warnings: Vec::new(),
            last_error: None,
            updated_at: now,
        }
    }
}

/// A reason as plain values.
#[verifier::ext_equal]
pub enum ReasonView {
    PendingWriteback {
        count: nat,
        oldest_age_ms: u64,
        sample_paths: Seq<Seq<char>>,
        last_error: Option<Seq<char>>,
    },
    PendingRefresh { count: nat },
    Conflict { count: nat, edited_count: nat, sample_paths: Seq<Seq<char>> },
    DeletedOpen { count: nat, sample_paths: Seq<Seq<char>> },
    TransactionalBlocked { count: nat, sample_paths: Seq<Seq<char>> },
    HardLinkBlocked { count: nat, sample_paths: Seq<Seq<char>> },
    LowSpaceDegraded { mode: LowSpaceMode, count: nat, sample_paths: Seq<Seq<char>> },
    RecoveryCopiesPresent { count: nat, sample_paths: Seq<Seq<char>> },
}

impl View for MountSafetyReason {
    type V = ReasonView;

    open spec fn view(&self) -> ReasonView {
        match self {
            MountSafetyReason::PendingWriteback {
                count,
                oldest_age_ms,
                sample_paths,
                last_error,
            } => ReasonView::PendingWriteback {
                count: *count as nat,
                oldest_age_ms: *oldest_age_ms,
                sample_paths: texts(sample_paths@),
                last_error: opt_text(*last_error),
            },
            MountSafetyReason::PendingRefresh { count } => ReasonView::PendingRefresh {
                count: *count as nat,
            },
            MountSafetyReason::Conflict { count, edited_count, sample_paths } => {
                ReasonView::Conflict {
                    count: *count as nat,
                    edited_count: *edited_count as nat,
                    sample_paths: texts(sample_paths@),
                }
            },
            MountSafetyReason::DeletedOpen { count, sample_paths } => ReasonView::DeletedOpen {
                count: *count as nat,
                sample_paths: texts(sample_paths@),
            },
            MountSafetyReason::TransactionalBlocked { count, sample_paths } => {
                ReasonView::TransactionalBlocked {
                    count: *count as nat,
                    sample_paths: texts(sample_paths@),
                }
            },
            MountSafetyReason::HardLinkBlocked { count, sample_paths } => {
                ReasonView::HardLinkBlocked {
                    count: *count as nat,
                    sample_paths: texts(sample_paths@),
                }
            },
            MountSafetyReason::LowSpaceDegraded { mode, count, sample_paths } => {
                ReasonView::LowSpaceDegraded {
                    mode: *mode,
                    count: *count as nat,
                    sample_paths: texts(sample_paths@),
                }
            },
            MountSafetyReason::RecoveryCopiesPresent { count, sample_paths } => {
                ReasonView::RecoveryCopiesPresent {
                    count: *count as nat,
                    sample_paths: texts(sample_paths@),
                }
            },
        }
    }
}

/// The reasons as plain values.
pub open spec fn reason_views(reasons: Seq<MountSafetyReason>) -> Seq<ReasonView> {
    reasons.map_values(|r: MountSafetyReason| r@)
}

/// The reasons as they are told.
pub open spec fn summaries(reasons: Seq<MountSafetyReason>) -> Seq<Seq<char>> {
    reasons.map_values(|r: MountSafetyReason| reason_summary(r))
}

/// The paths as they are shown.
pub open spec fn displays(paths: Seq<SyncPath>) -> Seq<Seq<char>> {
    paths.map_values(|p: SyncPath| p@.text)
}

/// The paths that a map shows are those that it holds, each once and as it is stored.
pub proof fn shown_paths_are_stored<T>(map: PathMap<T>, text: Seq<char>)
    requires
        map.wf(),
    ensures
        displays(map.keys@).len() == map@.len(),
        displays(map.keys@).contains(text) <==> exists|path: PathView| #[trigger]
            map@.contains_key(path) && map@.stored(path).text == text,
{
    map.entries();
    let shown = displays(map.keys@);
    if shown.contains(text) {
        let i = choose|i: int| 0 <= i < shown.len() && shown[i] == text;
        assert(map@.contains_key(map.keys@[i]@));
    }
    if exists|path: PathView| #[trigger]
        map@.contains_key(path) && map@.stored(path).text == text {
        let path = choose|path: PathView| #[trigger]
            map@.contains_key(path) && map@.stored(path).text == text;
        let i = choose|i: int|
            0 <= i < map.keys@.len() && (#[trigger] map.keys@[i])@.key() == path.key()
                && map@.stored(path) == map.keys@[i]@;
        assert(shown[i] == text);
    }
}

/// A map to which one path was added shows that path as it was written.
pub proof fn one_path_is_shown<T>(map: PathMap<T>, path: PathView, value: T)
    requires
        map.wf(),
        map@ == PathEntries::<T>::empty().insert(path, value),
    ensures
        displays(map.keys@) == seq![path.text],
{
    map.entries();
    assert(map@.map =~= Map::empty().insert(path.key(), (path, value)));
    assert(map.keys@.len() == 1);
    assert(map@.contains_key(map.keys@[0]@));
    assert(displays(map.keys@) =~= seq![path.text]);
}

/// The paths among the first `n` of a map whose values are flagged, as they are shown.
pub open spec fn flagged<T>(
    keys: Seq<SyncPath>,
    values: Seq<T>,
    flag: spec_fn(T) -> bool,
    n: int,
) -> Seq<Seq<char>>
    decreases n,
{
    if n <= 0 {
        Seq::empty()
    } else {
        let front = flagged(keys, values, flag, n - 1);
        if flag(values[n - 1]) {
            front.push(keys[n - 1]@.text)
        } else {
            front
        }
    }
}

/// The paths of a map whose values are flagged, as they are shown.
pub open spec fn flagged_in<T>(map: PathMap<T>, flag: spec_fn(T) -> bool) -> Seq<Seq<char>> {
    flagged(map.keys@, map.values@, flag, map.values@.len() as int)
}

pub(crate) proof fn flagged_is_short<T>(
    keys: Seq<SyncPath>,
    values: Seq<T>,
    flag: spec_fn(T) -> bool,
    n: int,
)
    requires
        0 <= n,
    ensures
        flagged(keys, values, flag, n).len() <= n,
        (flagged(keys, values, flag, n).len() == 0) == (forall|i: int|
            0 <= i < n ==> !flag(#[trigger] values[i])),
    decreases n,
{
    if n > 0 {
        flagged_is_short(keys, values, flag, n - 1);
    }
}

/// The paths of a map as they are shown.
fn shown_keys<T>(map: &PathMap<T>) -> (res: Vec<String>)
    requires
        map.wf(),
    ensures
        texts(res@) == displays(map.keys@),
        res@.len() == map.keys@.len(),
{
    let mut res: Vec<String> = Vec::new();
    let ghost all = displays(map.keys@);
    let mut i: usize = 0;
    while i < map.keys.len()
        invariant
            i <= map.keys@.len(),
            all == displays(map.keys@),
            texts(res@) == all.take(i as int),
            res@.len() == i,
        decreases map.keys@.len() - i,
    {
        let ghost before = texts(res@);
        let shown = map.keys[i].display();
        let ghost t = shown@;
        res.push(shown);
        proof {
            assert(texts(res@) =~= before.push(t));
            assert(all[i as int] == t);
            assert(all.take(i + 1) =~= all.take(i as int).push(t));
        }
        i += 1;
    }
    assert(all.take(all.len() as int) =~= all);
    res
}

fn flagged_keys<T, F: Fn(&T) -> bool>(
    map: &PathMap<T>,
    is_flagged: F,
    Ghost(flag): Ghost<spec_fn(T) -> bool>,
) -> (res: Vec<String>)
    requires
        map.wf(),
        forall|v: &T| #[trigger] is_flagged.requires((v,)),
        forall|v: &T, r: bool| #[trigger] is_flagged.ensures((v,), r) ==> r == flag(*v),
    ensures
        texts(res@) == flagged_in(*map, flag),
{
    let mut res: Vec<String> = Vec::new();
    proof {
        map.entries();
    }
    let mut i: usize = 0;
    assert(texts(res@) =~= flagged(map.keys@, map.values@, flag, 0));
    while i < map.keys.len()
        invariant
            i <= map.keys@.len() == map.values@.len(),
            forall|v: &T| #[trigger] is_flagged.requires((v,)),
            forall|v: &T, r: bool| #[trigger] is_flagged.ensures((v,), r) ==> r == flag(*v),
            texts(res@) == flagged(map.keys@, map.values@, flag, i as int),
        decreases map.keys@.len() - i,
    {
        let ghost before = texts(res@);
        if is_flagged(&map.values[i]) {
            let shown = map.keys[i].display();
            let ghost t = shown@;
            res.push(shown);
            proof {
                assert(texts(res@) =~= before.push(t));
            }
        }
        i += 1;
    }
    res
}

/// The paths of a map in order, as many as `limit`.
pub open spec fn sample(order: Seq<SyncPath>, limit: int) -> Seq<Seq<char>> {
    first_n(in_order(displays(order)), limit)
}

/// The first paths of a map in order, as many as `limit`.
pub fn sample_paths<T>(map: &PathMap<T>, limit: usize) -> (res: Vec<String>)
    requires
        map.wf(),
    ensures
        texts(res@) == sample(map.keys@, limit as int),
{
    let shown = shown_keys(map);
    keep_first(sort_texts(shown), limit)
}

/// The first paths of a map, as many as `limit`, in order.
fn told_paths<T>(map: &PathMap<T>, limit: usize) -> (res: Vec<String>)
    requires
        map.wf(),
    ensures
        texts(res@) == in_order(first_n(displays(map.keys@), limit as int)),
{
    let shown = shown_keys(map);
    sort_texts(keep_first(shown, limit))
}

/// The age of something first seen at a time, in milliseconds: zero for a time in the future.
pub open spec fn age_ms(first: UtcNanos, now: UtcNanos) -> u64 {
    if now <= first {
        0
    } else if (now - first) / 1_000_000 > u64::MAX {
        u64::MAX
    } else {
        ((now - first) / 1_000_000) as u64
    }
}

fn age_in_ms(first: UtcNanos, now: UtcNanos) -> (res: u64)
    ensures
        res == age_ms(first, now),
{
    if now <= first {
        return 0;
    }
    match now.checked_sub(first) {
        Some(age) => {
            let ms: i128 = age / 1_000_000;
            if ms > u64::MAX as i128 {
                u64::MAX
            } else {
                ms as u64
            }
        },
        None => u64::MAX,
    }
}

/// The age of the oldest change that is not encrypted yet.
pub open spec fn oldest_age(pending: Seq<PendingWriteback>, now: UtcNanos) -> Option<u64>
    decreases pending.len(),
{
    if pending.len() == 0 {
        None
    } else {
        let age = age_ms(pending.last().first_observed_at, now);
        match oldest_age(pending.drop_last(), now) {
            Some(older) => Some(
                if age >= older {
                    age
                } else {
                    older
                },
            ),
            None => Some(age),
        }
    }
}

/// The age of the oldest change that is not encrypted yet, in milliseconds.
pub fn pending_writeback_oldest_age_ms_from(pending: &Vec<PendingWriteback>, now: UtcNanos) -> (res:
    Option<u64>)
    ensures
        res == oldest_age(pending@, now),
{
    let mut res: Option<u64> = None;
    let mut i: usize = 0;
    while i < pending.len()
        invariant
            i <= pending@.len(),
            res == oldest_age(pending@.take(i as int), now),
        decreases pending@.len() - i,
    {
        proof {
            assert(pending@.take(i + 1).drop_last() =~= pending@.take(i as int));
        }
        let age: u64 = age_in_ms(pending[i].first_observed_at, now);
        res = match res {
            Some(older) => if age >= older {
                Some(age)
            } else {
                Some(older)
            },
            None => Some(age),
        };
        i += 1;
    }
    assert(pending@.take(pending@.len() as int) =~= pending@);
    res
}

/// A change that is not encrypted yet is tried again soon.
pub open spec fn drains_fast(pending: PendingWriteback) -> bool {
    !pending.low_space && !says_terminal(opt_text(pending.last_error))
}

/// Whether a change that is not encrypted yet is tried again soon.
pub fn should_fast_drain_pending_writeback(pending: &PendingWriteback) -> (res: bool)
    ensures
        res == drains_fast(*pending),
{
    !pending.low_space && !pending_writeback_error_is_terminal(&pending.last_error)
}

/// The first text that is there.
pub open spec fn first_some(values: Seq<Option<Seq<char>>>) -> Option<Seq<char>>
    decreases values.len(),
{
    if values.len() == 0 {
        None
    } else {
        match values[0] {
            Some(text) => Some(text),
            None => first_some(values.drop_first()),
        }
    }
}

/// The errors of the changes that are not encrypted yet.
pub open spec fn writeback_errors(pending: Seq<PendingWriteback>) -> Seq<Option<Seq<char>>> {
    pending.map_values(|p: PendingWriteback| opt_text(p.last_error))
}

/// The errors of the changes that are not decrypted yet.
pub open spec fn refresh_errors(pending: Seq<PendingRefresh>) -> Seq<Option<Seq<char>>> {
    pending.map_values(|p: PendingRefresh| opt_text(p.last_error))
}

fn first_writeback_error(pending: &Vec<PendingWriteback>) -> (res: Option<String>)
    ensures
        opt_text(res) == first_some(writeback_errors(pending@)),
{
    let ghost all = writeback_errors(pending@);
    let mut i: usize = 0;
    assert(all.skip(0) =~= all);
    while i < pending.len()
        invariant
            i <= pending@.len(),
            all == writeback_errors(pending@),
            first_some(all) == first_some(all.skip(i as int)),
        decreases pending@.len() - i,
    {
        assert(all.skip(i as int)[0] == opt_text(pending@[i as int].last_error));
        if pending[i].last_error.is_some() {
            return copy_opt_text(&pending[i].last_error);
        }
        assert(all.skip(i as int).drop_first() =~= all.skip(i + 1));
        i += 1;
    }
    None
}

fn first_refresh_error(pending: &Vec<PendingRefresh>) -> (res: Option<String>)
    ensures
        opt_text(res) == first_some(refresh_errors(pending@)),
{
    let ghost all = refresh_errors(pending@);
    let mut i: usize = 0;
    assert(all.skip(0) =~= all);
    while i < pending.len()
        invariant
            i <= pending@.len(),
            all == refresh_errors(pending@),
            first_some(all) == first_some(all.skip(i as int)),
        decreases pending@.len() - i,
    {
        assert(all.skip(i as int)[0] == opt_text(pending@[i as int].last_error));
        if pending[i].last_error.is_some() {
            return copy_opt_text(&pending[i].last_error);
        }
        assert(all.skip(i as int).drop_first() =~= all.skip(i + 1));
        i += 1;
    }
    None
}

/// A process as it is told.
pub open spec fn owner_label(owner: (i32, Seq<char>)) -> Seq<char> {
    if owner.1.len() == 0 {
        "pid "@ + signed_decimal(owner.0 as int)
    } else {
        owner.1 + " ("@ + signed_decimal(owner.0 as int) + ")"@
    }
}

/// Texts with a comma between each two.
pub open spec fn with_commas(values: Seq<Seq<char>>) -> Seq<char>
    decreases values.len(),
{
    if values.len() == 0 {
        Seq::empty()
    } else if values.len() == 1 {
        values[0]
    } else {
        with_commas(values.drop_last()) + ", "@ + values.last()
    }
}

/// The first three processes, and how many more there are.
pub open spec fn owner_labels(owners: Seq<(i32, Seq<char>)>) -> Seq<Seq<char>> {
    let labels = owners.map_values(|o: (i32, Seq<char>)| owner_label(o));
    if owners.len() > 3 {
        labels.take(3).push("+"@ + decimal((owners.len() - 3) as nat) + " more"@)
    } else {
        labels
    }
}

/// The processes that have a file open, as they are told.
pub fn format_open_unlinked_owners(owners: &Vec<OpenUnlinkedOwner>) -> (res: String)
    ensures
        res@ == with_commas(owner_labels(owner_views(owners@))),
{
    let ghost labels = owner_labels(owner_views(owners@));
    let n: usize = if owners.len() > 3 {
        3
    } else {
        owners.len()
    };
    let mut res = String::new();
    let mut i: usize = 0;
    assert(labels.take(0) =~= Seq::empty());
    while i < n
        invariant
            i <= n <= owners@.len(),
            n <= 3,
            n == 3 || n == owners@.len(),
            labels == owner_labels(owner_views(owners@)),
            res@ == with_commas(labels.take(i as int)),
        decreases n - i,
    {
        let ghost next = labels.take(i + 1);
        let ghost o = owner_views(owners@)[i as int];
        proof {
            assert(next.drop_last() =~= labels.take(i as int));
            assert(next.last() == owner_label(o));
            assert(o == (owners@[i as int].pid, owners@[i as int].name@));
        }
        let pid = signed_decimal_text(owners[i].pid);
        let label = if owners[i].name.unicode_len() == 0 {
            concat2("pid ", pid.as_str())
        } else {
            let mut text = concat3(owners[i].name.as_str(), " (", pid.as_str());
            text.append(")");
            text
        };
        assert(label@ =~= owner_label(o));
        if i > 0 {
            res.append(", ");
        }
        res.append(label.as_str());
        assert(res@ =~= with_commas(next));
        i += 1;
    }
    if owners.len() > 3 {
        let more = decimal_text((owners.len() - 3) as u64);
        res.append(", ");
        res.append("+");
        res.append(more.as_str());
        res.append(" more");
        proof {
            assert(labels.drop_last() =~= labels.take(3));
            assert(labels.last() == "+"@ + decimal((owners@.len() - 3) as nat) + " more"@);
            assert(res@ =~= with_commas(labels));
        }
    } else {
        assert(labels.take(n as int) =~= labels);
    }
    res
}

/// The first texts, as many as three, each behind the same words and before the same words.
pub open spec fn framed(values: Seq<Seq<char>>, head: Seq<char>, tail: Seq<char>) -> Seq<
    Seq<char>,
> {
    first_n(values, 3).map_values(|t: Seq<char>| head + t + tail)
}

fn push_framed(out: &mut Vec<String>, values: &Vec<String>, head: &str, tail: &str)
    ensures
        texts(final(out)@) == texts(old(out)@) + framed(texts(values@), head@, tail@),
{
    let ghost before = texts(out@);
    let ghost all = framed(texts(values@), head@, tail@);
    let n: usize = if values.len() > 3 {
        3
    } else {
        values.len()
    };
    let mut i: usize = 0;
    assert(before + all.take(0) =~= before);
    while i < n
        invariant
            i <= n <= values@.len(),
            all == framed(texts(values@), head@, tail@),
            all.len() == n,
            texts(out@) == before + all.take(i as int),
        decreases n - i,
    {
        let ghost now = texts(out@);
        let text = concat3(head, values[i].as_str(), tail);
        let ghost t = text@;
        out.push(text);
        proof {
            assert(texts(out@) =~= now.push(t));
            assert(first_n(texts(values@), 3)[i as int] == values@[i as int]@);
            assert(all[i as int] == t);
            assert(all.take(i + 1) =~= all.take(i as int).push(t));
            assert(before + all.take(i + 1) =~= (before + all.take(i as int)).push(t));
        }
        i += 1;
    }
    assert(all.take(n as int) =~= all);
}

/// A sentence that begins with a number.
pub open spec fn counted(count: nat, words: Seq<char>) -> Seq<char> {
    decimal(count) + words
}

fn counted_text(count: usize, words: &str) -> (res: String)
    ensures
        res@ == counted(count as nat, words@),
{
    let digits = decimal_text(count as u64);
    concat2(digits.as_str(), words)
}

/// The warnings about files that are not synced because of their format.
pub open spec fn transactional_warnings(held: HeldBack) -> Seq<Seq<char>> {
    let map = held.unsupported_transactional_paths;
    if map.keys@.len() == 0 {
        Seq::empty()
    } else {
        seq![
            counted(
                map.keys@.len(),
                " transactional path(s) blocked; sync mount does not provide atomic-set guarantees for databases, packages, or bundle-style formats"@,
            ),
        ] + framed(displays(map.keys@), "Transactional sync blocked: "@, ""@)
    }
}

/// The warnings about files that are not synced because of their links.
pub open spec fn hard_link_warnings(held: HeldBack) -> Seq<Seq<char>> {
    let map = held.unsupported_hard_link_paths;
    if map.keys@.len() == 0 {
        Seq::empty()
    } else {
        seq![
            counted(
                map.keys@.len(),
                " hard-linked file(s) blocked; sync mount does not preserve hard-link semantics"@,
            ),
        ] + framed(
            displays(map.keys@),
            "Hard-link sync blocked: "@,
            ". Break the hard link or replace it with an independent copy to resume protected sync."@,
        )
    }
}

/// A conflict copy was edited.
pub open spec fn was_edited() -> spec_fn(ConflictBaseline) -> bool {
    |b: ConflictBaseline| b.edited
}

/// The warnings about conflict copies.
pub open spec fn conflict_warnings(copies: LocalCopies) -> Seq<Seq<char>> {
    let map = copies.conflict_baselines;
    let edited = flagged_in(map, was_edited()).len();
    if map.keys@.len() == 0 {
        Seq::empty()
    } else {
        seq![
            counted(
                map.keys@.len(),
                " unresolved conflict file(s) remain local-only until they are resolved or merged back"@,
            ),
        ] + (if edited > 0 {
            seq![
                counted(
                    edited,
                    " conflict file(s) were edited locally and are still not protected by encrypted sync"@,
                ),
            ]
        } else {
            Seq::empty()
        }) + framed(
            in_order(displays(map.keys@)),
            "Conflict file still unresolved: "@,
            ""@,
        )
    }
}

/// The warnings about recovered copies.
pub open spec fn recovery_warnings(copies: LocalCopies) -> Seq<Seq<char>> {
    let map = copies.recovered_pending_paths;
    if map.keys@.len() == 0 {
        Seq::empty()
    } else {
        seq![
            counted(
                map.keys@.len(),
                " recovered pending-work file(s) were recreated as local-only read-only copies after an unclean mount restart"@,
            ),
        ] + framed(in_order(displays(map.keys@)), "Recovered pending work copy: "@, ""@)
    }
}

fn transactional_format_warnings(held: &HeldBack) -> (res: Vec<String>)
    requires
        held.wf(),
    ensures
        texts(res@) == transactional_warnings(*held),
{
    let mut res: Vec<String> = Vec::new();
    let n: usize = held.unsupported_transactional_paths.keys.len();
    if n == 0 {
        assert(texts(res@) =~= Seq::empty());
        return res;
    }
    res.push(
        counted_text(
            n,
            " transactional path(s) blocked; sync mount does not provide atomic-set guarantees for databases, packages, or bundle-style formats",
        ),
    );
    let ghost head = texts(res@);
    let shown = shown_keys(&held.unsupported_transactional_paths);
    push_framed(&mut res, &shown, "Transactional sync blocked: ", "");
    assert(head =~= seq![head[0]]);
    res
}

fn hard_link_block_warnings(held: &HeldBack) -> (res: Vec<String>)
    requires
        held.wf(),
    ensures
        texts(res@) == hard_link_warnings(*held),
{
    let mut res: Vec<String> = Vec::new();
    let n: usize = held.unsupported_hard_link_paths.keys.len();
    if n == 0 {
        assert(texts(res@) =~= Seq::empty());
        return res;
    }
    res.push(
        counted_text(
            n,
            " hard-linked file(s) blocked; sync mount does not preserve hard-link semantics",
        ),
    );
    let ghost head = texts(res@);
    let shown = shown_keys(&held.unsupported_hard_link_paths);
    push_framed(
        &mut res,
        &shown,
        "Hard-link sync blocked: ",
        ". Break the hard link or replace it with an independent copy to resume protected sync.",
    );
    assert(head =~= seq![head[0]]);
    res
}

fn edited_conflicts(copies: &LocalCopies) -> (res: Vec<String>)
    requires
        copies.wf(),
    ensures
        texts(res@) == flagged_in(copies.conflict_baselines, was_edited()),
        res@.len() <= copies.conflict_baselines.keys@.len(),
{
    let edited = |b: &ConflictBaseline| -> (r: bool)
        ensures
            r == b.edited,
        { b.edited };
    let res = flagged_keys(&copies.conflict_baselines, edited, Ghost(was_edited()));
    proof {
        copies.conflict_baselines.entries();
        flagged_is_short(
            copies.conflict_baselines.keys@,
            copies.conflict_baselines.values@,
            was_edited(),
            copies.conflict_baselines.values@.len() as int,
        );
        assert(texts(res@).len() == res@.len());
    }
    res
}

fn conflict_copy_warnings(copies: &LocalCopies) -> (res: Vec<String>)
    requires
        copies.wf(),
    ensures
        texts(res@) == conflict_warnings(*copies),
{
    let mut res: Vec<String> = Vec::new();
    let n: usize = copies.conflict_baselines.keys.len();
    if n == 0 {
        assert(texts(res@) =~= Seq::empty());
        return res;
    }
    let first = counted_text(
        n,
        " unresolved conflict file(s) remain local-only until they are resolved or merged back",
    );
    let ghost f = first@;
    res.push(first);
    let edited = edited_conflicts(copies);
    let ghost count = texts(edited@).len();
    let ghost middle: Seq<Seq<char>> = if count > 0 {
        seq![
            counted(
                count,
                " conflict file(s) were edited locally and are still not protected by encrypted sync"@,
            ),
        ]
    } else {
        Seq::empty()
    };
    if edited.len() > 0 {
        res.push(
            counted_text(
                edited.len(),
                " conflict file(s) were edited locally and are still not protected by encrypted sync",
            ),
        );
    }
    assert(texts(res@) =~= seq![f] + middle);
    let shown = shown_keys(&copies.conflict_baselines);
    let sorted = sort_texts(shown);
    push_framed(&mut res, &sorted, "Conflict file still unresolved: ", "");
    res
}

fn recovered_pending_copy_warnings(copies: &LocalCopies) -> (res: Vec<String>)
    requires
        copies.wf(),
    ensures
        texts(res@) == recovery_warnings(*copies),
{
    let mut res: Vec<String> = Vec::new();
    let n: usize = copies.recovered_pending_paths.keys.len();
    if n == 0 {
        assert(texts(res@) =~= Seq::empty());
        return res;
    }
    res.push(
        counted_text(
            n,
            " recovered pending-work file(s) were recreated as local-only read-only copies after an unclean mount restart",
        ),
    );
    let ghost head = texts(res@);
    let shown = shown_keys(&copies.recovered_pending_paths);
    let sorted = sort_texts(shown);
    push_framed(&mut res, &sorted, "Recovered pending work copy: ", "");
    assert(head =~= seq![head[0]]);
    res
}

/// A file that was deleted while open, as it is told.
pub open spec fn open_unlinked_line(shown: Seq<char>, pending: PendingOpenUnlinked) -> Seq<char> {
    let owners = with_commas(owner_labels(owner_views(pending.owners@)));
    if owners.len() == 0 {
        "Deleted-open file still active: "@ + shown
    } else {
        "Deleted-open file still active: "@ + shown + " ["@ + owners + "]"@
    }
}

/// The files that were deleted while open, with the texts by which they are ordered.
pub open spec fn open_unlinked_lines(map: PathMap<PendingOpenUnlinked>) -> Seq<
    (Seq<char>, Seq<char>),
> {
    Seq::new(
        map.keys@.len(),
        |i: int|
            (
                map.keys@[i]@.text,
                open_unlinked_line(map.keys@[i]@.text, map.values@[i]),
            ),
    )
}

/// The warnings about files that were deleted while open.
pub open spec fn open_unlinked_warnings(work: PendingWork) -> Seq<Seq<char>> {
    let map = work.pending_open_unlinked;
    if map.keys@.len() == 0 {
        Seq::empty()
    } else {
        seq![
            counted(
                map.keys@.len(),
                " deleted-open path(s) blocking unmount; HybridCipher is preserving the last encrypted version until those handles close"@,
            ),
        ] + first_n(second_texts(pairs_in_order(open_unlinked_lines(map))), 3)
    }
}

fn open_unlinked_path_warnings(work: &PendingWork) -> (res: Vec<String>)
    requires
        work.wf(),
    ensures
        texts(res@) == open_unlinked_warnings(*work),
{
    let map = &work.pending_open_unlinked;
    let mut res: Vec<String> = Vec::new();
    let n: usize = map.keys.len();
    if n == 0 {
        assert(texts(res@) =~= Seq::empty());
        return res;
    }
    proof {
        map.entries();
    }
    res.push(
        counted_text(
            n,
            " deleted-open path(s) blocking unmount; HybridCipher is preserving the last encrypted version until those handles close",
        ),
    );
    let ghost head = texts(res@);
    let mut lines: Vec<(String, String)> = Vec::new();
    let ghost all = open_unlinked_lines(*map);
    let mut i: usize = 0;
    assert(pair_texts(lines@) =~= all.take(0));
    while i < n
        invariant
            i <= n,
            n == map.keys@.len() == map.values@.len(),
            all == open_unlinked_lines(*map),
            pair_texts(lines@) == all.take(i as int),
        decreases n - i,
    {
        let ghost before = pair_texts(lines@);
        let shown = map.keys[i].display();
        let owners = format_open_unlinked_owners(&map.values[i].owners);
        let mut line = concat2("Deleted-open file still active: ", shown.as_str());
        if owners.unicode_len() > 0 {
            line.append(" [");
            line.append(owners.as_str());
            line.append("]");
        }
        let ghost pair = (shown@, line@);
        lines.push((shown, line));
        proof {
            assert(pair_texts(lines@) =~= before.push(pair));
            assert(all[i as int] == pair);
            assert(all.take(i + 1) =~= all.take(i as int).push(pair));
        }
        i += 1;
    }
    assert(all.take(n as int) =~= all);
    let sorted = sort_by_first(lines);
    let mut kept = keep_first(sorted, 3);
    let ghost a = res@;
    let ghost b = kept@;
    res.append(&mut kept);
    proof {
        assert(texts(res@) =~= texts(a) + texts(b));
        assert(head =~= seq![head[0]]);
    }
    res
}

/// A change that is not encrypted yet for want of space.
pub open spec fn lacks_space() -> spec_fn(PendingWriteback) -> bool {
    |p: PendingWriteback| p.low_space
}

/// The changes that are not encrypted or decrypted yet for want of space.
pub open spec fn low_space_paths(work: PendingWork) -> Seq<Seq<char>> {
    flagged_in(work.pending_writebacks, lacks_space()) + displays(work.pending_refreshes.keys@)
}

/// How far a mount is restricted for want of space.
pub open spec fn low_space_mode(work: PendingWork, warnings: SpaceWarningState) -> LowSpaceMode {
    let refreshes = work.pending_refreshes.keys@.len() > 0;
    let writebacks = flagged_in(work.pending_writebacks, lacks_space()).len() > 0;
    if refreshes && writebacks {
        LowSpaceMode::FullyDegraded
    } else if refreshes {
        LowSpaceMode::RefreshDegraded
    } else if writebacks {
        LowSpaceMode::WritebackDegraded
    } else if warnings.mount_low || warnings.encrypted_low || warnings.journal_low {
        LowSpaceMode::Warning
    } else {
        LowSpaceMode::Healthy
    }
}

fn low_space_writebacks(work: &PendingWork) -> (res: Vec<String>)
    requires
        work.wf(),
    ensures
        texts(res@) == flagged_in(work.pending_writebacks, lacks_space()),
        res@.len() <= work.pending_writebacks.keys@.len(),
{
    let low = |p: &PendingWriteback| -> (r: bool)
        ensures
            r == p.low_space,
        { p.low_space };
    let res = flagged_keys(&work.pending_writebacks, low, Ghost(lacks_space()));
    proof {
        work.pending_writebacks.entries();
        flagged_is_short(
            work.pending_writebacks.keys@,
            work.pending_writebacks.values@,
            lacks_space(),
            work.pending_writebacks.values@.len() as int,
        );
        assert(texts(res@).len() == res@.len());
    }
    res
}

/// One value, or none.
pub open spec fn given_if<A>(there: bool, value: A) -> Seq<A> {
    if there {
        seq![value]
    } else {
        Seq::empty()
    }
}

/// The paths of the changes that are not encrypted yet, as they are told.
pub open spec fn writeback_paths(work: PendingWork) -> Seq<Seq<char>> {
    in_order(first_n(displays(work.pending_writebacks.keys@), MAX_PATHS_IN_STATUS as int))
}

/// The age that is told of the oldest change that is not encrypted yet.
pub open spec fn told_age(work: PendingWork, now: UtcNanos) -> u64 {
    match oldest_age(work.pending_writebacks.values@, now) {
        Some(age) => age,
        None => 0,
    }
}

/// The reasons that come from what is still to be done and from the copies.
pub open spec fn reasons_of_work(tracker: SyncTracker, now: UtcNanos) -> Seq<ReasonView> {
    let work = tracker.work;
    let copies = tracker.copies;
    given_if(
        work.pending_writebacks.keys@.len() > 0,
        ReasonView::PendingWriteback {
            count: work.pending_writebacks.keys@.len(),
            oldest_age_ms: told_age(work, now),
            sample_paths: first_n(writeback_paths(work), 3),
            last_error: first_some(writeback_errors(work.pending_writebacks.values@)),
        },
    ) + given_if(
        work.pending_refreshes.keys@.len() > 0,
        ReasonView::PendingRefresh { count: work.pending_refreshes.keys@.len() },
    ) + given_if(
        copies.conflict_baselines.keys@.len() > 0,
        ReasonView::Conflict {
            count: copies.conflict_baselines.keys@.len(),
            edited_count: flagged_in(copies.conflict_baselines, was_edited()).len(),
            sample_paths: sample(copies.conflict_baselines.keys@, 3),
        },
    ) + given_if(
        work.pending_open_unlinked.keys@.len() > 0,
        ReasonView::DeletedOpen {
            count: work.pending_open_unlinked.keys@.len(),
            sample_paths: sample(work.pending_open_unlinked.keys@, 3),
        },
    )
}

/// The reasons that come from what is held back, from want of space and from recovered copies.
pub open spec fn reasons_of_limits(tracker: SyncTracker) -> Seq<ReasonView> {
    let held = tracker.held;
    let mode = low_space_mode(tracker.work, tracker.space_warnings);
    given_if(
        held.unsupported_transactional_paths.keys@.len() > 0,
        ReasonView::TransactionalBlocked {
            count: held.unsupported_transactional_paths.keys@.len(),
            sample_paths: sample(held.unsupported_transactional_paths.keys@, 3),
        },
    ) + given_if(
        held.unsupported_hard_link_paths.keys@.len() > 0,
        ReasonView::HardLinkBlocked {
            count: held.unsupported_hard_link_paths.keys@.len(),
            sample_paths: sample(held.unsupported_hard_link_paths.keys@, 3),
        },
    ) + given_if(
        mode != LowSpaceMode::Healthy,
        ReasonView::LowSpaceDegraded {
            mode,
            count: low_space_paths(tracker.work).len(),
            sample_paths: first_n(
                first_n(low_space_paths(tracker.work), MAX_PATHS_IN_STATUS as int),
                3,
            ),
        },
    ) + given_if(
        tracker.copies.recovered_pending_paths.keys@.len() > 0,
        ReasonView::RecoveryCopiesPresent {
            count: tracker.copies.recovered_pending_paths.keys@.len(),
            sample_paths: sample(tracker.copies.recovered_pending_paths.keys@, 3),
        },
    )
}

/// The reasons for which a mount is not safe to unmount.
pub open spec fn reasons(tracker: SyncTracker, now: UtcNanos) -> Seq<ReasonView> {
    reasons_of_work(tracker, now) + reasons_of_limits(tracker)
}

/// Nothing would be lost if the mount were emptied now.
pub open spec fn nothing_to_lose(tracker: SyncTracker) -> bool {
    &&& tracker.scan_health is Healthy
    &&& tracker.work.pending_open_unlinked.keys@.len() == 0
    &&& tracker.held.unsupported_transactional_paths.keys@.len() == 0
    &&& tracker.held.unsupported_hard_link_paths.keys@.len() == 0
    &&& tracker.work.pending_refreshes.keys@.len() == 0
    &&& tracker.work.pending_writebacks.keys@.len() == 0
    &&& tracker.work.pending_orphans.keys@.len() == 0
    &&& tracker.held.pending_stable.keys@.len() == 0
    &&& tracker.held.pending_temp.keys@.len() == 0
    &&& tracker.copies.conflict_baselines.keys@.len() == 0
    &&& tracker.copies.recovered_pending_paths.keys@.len() == 0
}

/// The first of some texts.
pub open spec fn first_text(values: Seq<Seq<char>>) -> Option<Seq<char>> {
    if values.len() > 0 {
        Some(values[0])
    } else {
        None
    }
}

/// The error that is told: of a change that is not encrypted or decrypted yet, else the first
/// warning that there is.
pub open spec fn told_error(tracker: SyncTracker) -> Option<Seq<char>> {
    first_some(
        seq![
            first_some(writeback_errors(tracker.work.pending_writebacks.values@)),
            first_some(refresh_errors(tracker.work.pending_refreshes.values@)),
            opt_text(tracker.last_open_unlinked_warning),
            first_text(conflict_warnings(tracker.copies)),
            first_text(recovery_warnings(tracker.copies)),
            first_text(open_unlinked_warnings(tracker.work)),
            first_text(hard_link_warnings(tracker.held)),
            first_text(transactional_warnings(tracker.held)),
            first_text(space_warnings(tracker.space_warnings)),
        ],
    )
}

/// The warnings, without repetitions.
pub open spec fn told_warnings(tracker: SyncTracker, told: Seq<MountSafetyReason>) -> Seq<
    Seq<char>,
> {
    first_occurrences(
        summaries(told) + open_unlinked_warnings(tracker.work) + hard_link_warnings(tracker.held)
            + transactional_warnings(tracker.held) + recovery_warnings(tracker.copies) + given_if(
            tracker.held.mount_readonly_active,
            "mount forced read-only due to low-space degraded mode"@,
        ) + space_warnings(tracker.space_warnings),
    )
}

fn append_texts(out: &mut Vec<String>, more: Vec<String>)
    ensures
        texts(final(out)@) == texts(old(out)@) + texts(more@),
{
    let ghost a = out@;
    let ghost b = more@;
    let mut more = more;
    out.append(&mut more);
    assert(texts(out@) =~= texts(a) + texts(b));
}

fn push_reason(out: &mut Vec<MountSafetyReason>, reason: MountSafetyReason)
    ensures
        reason_views(final(out)@) == reason_views(old(out)@) + seq![reason@],
{
    let ghost before = reason_views(out@);
    out.push(reason);
    assert(reason_views(out@) =~= before + seq![reason@]);
}

fn copy_first_three(values: &Vec<String>) -> (res: Vec<String>)
    ensures
        texts(res@) == first_n(texts(values@), 3),
{
    keep_first(copy_texts(values), 3)
}

fn told_first(values: &Vec<String>) -> (res: Option<String>)
    ensures
        opt_text(res) == first_text(texts(values@)),
{
    if values.len() > 0 {
        assert(texts(values@)[0] == values@[0]@);
        Some(values[0].clone())
    } else {
        None
    }
}

fn or_else(first: Option<String>, second: Option<String>) -> (res: Option<String>)
    ensures
        opt_text(res) == match opt_text(first) {
            Some(t) => Some(t),
            None => opt_text(second),
        },
{
    match first {
        Some(t) => Some(t),
        None => second,
    }
}

/// There is work that is tried again soon.
pub open spec fn drains_soon(tracker: SyncTracker) -> bool {
    tracker.held.pending_stable.keys@.len() > 0 || exists|i: int|
        0 <= i < tracker.work.pending_writebacks.values@.len() && drains_fast(
            #[trigger] tracker.work.pending_writebacks.values@[i],
        )
}

impl SyncTracker {
    /// Whether there is work that is tried again soon.
    pub fn has_fast_drain_work(&self) -> (res: bool)
        requires
            self.wf(),
        ensures
            res == drains_soon(*self),
    {
        if self.held.pending_stable.keys.len() > 0 {
            return true;
        }
        let mut i: usize = 0;
        while i < self.work.pending_writebacks.values.len()
            invariant
                i <= self.work.pending_writebacks.values@.len(),
                forall|k: int|
                    0 <= k < i ==> !drains_fast(#[trigger] self.work.pending_writebacks.values@[k]),
            decreases self.work.pending_writebacks.values@.len() - i,
        {
            if should_fast_drain_pending_writeback(&self.work.pending_writebacks.values[i]) {
                return true;
            }
            i += 1;
        }
        false
    }

    /// Whether the mount can be emptied without losing anything.
    pub fn can_cleanup_mountpoint(&self) -> (res: bool)
        ensures
            res == nothing_to_lose(*self),
    {
        let healthy = match &self.scan_health {
            ScanHealth::Healthy => true,
            ScanHealth::Unhealthy { .. } => false,
        };
        healthy && self.work.pending_open_unlinked.keys.len() == 0
            && self.held.unsupported_transactional_paths.keys.len() == 0
            && self.held.unsupported_hard_link_paths.keys.len() == 0
            && self.work.pending_refreshes.keys.len() == 0
            && self.work.pending_writebacks.keys.len() == 0 && self.work.pending_orphans.keys.len()
            == 0 && self.held.pending_stable.keys.len() == 0 && self.held.pending_temp.keys.len()
            == 0 && self.copies.conflict_baselines.keys.len() == 0
            && self.copies.recovered_pending_paths.keys.len() == 0
    }

    /// Whether the mount has to be read-only for want of space.
    pub fn low_space_readonly_required(&self) -> (res: bool)
        requires
            self.wf(),
        ensures
            res == (low_space_mode(self.work, self.space_warnings) != LowSpaceMode::Healthy),
    {
        let low = low_space_writebacks(&self.work);
        assert(texts(low@).len() == low@.len());
        self.space_warnings.any() || self.work.pending_refreshes.keys.len() > 0 || low.len() > 0
    }

    fn work_reasons(&self, now: UtcNanos, told_paths: &Vec<String>, edited: usize) -> (res: Vec<
        MountSafetyReason,
    >)
        requires
            self.wf(),
            texts(told_paths@) == writeback_paths(self.work),
            edited == flagged_in(self.copies.conflict_baselines, was_edited()).len(),
        ensures
            reason_views(res@) == reasons_of_work(*self, now),
    {
        let mut res: Vec<MountSafetyReason> = Vec::new();
        let work = &self.work;
        let copies = &self.copies;
        assert(reason_views(res@) =~= Seq::empty());
        if work.pending_writebacks.keys.len() > 0 {
            let age = pending_writeback_oldest_age_ms_from(&work.pending_writebacks.values, now);
            push_reason(
                &mut res,
                MountSafetyReason::PendingWriteback {
                    count: work.pending_writebacks.keys.len(),
                    oldest_age_ms: age.unwrap_or(0),
                    sample_paths: copy_first_three(told_paths),
                    last_error: first_writeback_error(&work.pending_writebacks.values),
                },
            );
        }
        if work.pending_refreshes.keys.len() > 0 {
            push_reason(
                &mut res,
                MountSafetyReason::PendingRefresh { count: work.pending_refreshes.keys.len() },
            );
        }
        if copies.conflict_baselines.keys.len() > 0 {
            push_reason(
                &mut res,
                MountSafetyReason::Conflict {
                    count: copies.conflict_baselines.keys.len(),
                    edited_count: edited,
                    sample_paths: sample_paths(&copies.conflict_baselines, 3),
                },
            );
        }
        if work.pending_open_unlinked.keys.len() > 0 {
            push_reason(
                &mut res,
                MountSafetyReason::DeletedOpen {
                    count: work.pending_open_unlinked.keys.len(),
                    sample_paths: sample_paths(&work.pending_open_unlinked, 3),
                },
            );
        }
        assert(reason_views(res@) =~= reasons_of_work(*self, now));
        res
    }

    fn limit_reasons(&self, mode: LowSpaceMode, count: usize, low_paths: &Vec<String>) -> (res: Vec<
        MountSafetyReason,
    >)
        requires
            self.wf(),
            mode == low_space_mode(self.work, self.space_warnings),
            count == low_space_paths(self.work).len(),
            texts(low_paths@) == first_n(low_space_paths(self.work), MAX_PATHS_IN_STATUS as int),
        ensures
            reason_views(res@) == reasons_of_limits(*self),
    {
        let mut res: Vec<MountSafetyReason> = Vec::new();
        let held = &self.held;
        assert(reason_views(res@) =~= Seq::empty());
        if held.unsupported_transactional_paths.keys.len() > 0 {
            push_reason(
                &mut res,
                MountSafetyReason::TransactionalBlocked {
                    count: held.unsupported_transactional_paths.keys.len(),
                    sample_paths: sample_paths(&held.unsupported_transactional_paths, 3),
                },
            );
        }
        if held.unsupported_hard_link_paths.keys.len() > 0 {
            push_reason(
                &mut res,
                MountSafetyReason::HardLinkBlocked {
                    count: held.unsupported_hard_link_paths.keys.len(),
                    sample_paths: sample_paths(&held.unsupported_hard_link_paths, 3),
                },
            );
        }
        if !(mode == LowSpaceMode::Healthy) {
            push_reason(
                &mut res,
                MountSafetyReason::LowSpaceDegraded {
                    mode,
                    count,
                    sample_paths: copy_first_three(low_paths),
                },
            );
        }
        if self.copies.recovered_pending_paths.keys.len() > 0 {
            push_reason(
                &mut res,
                MountSafetyReason::RecoveryCopiesPresent {
                    count: self.copies.recovered_pending_paths.keys.len(),
                    sample_paths: sample_paths(&self.copies.recovered_pending_paths, 3),
                },
            );
        }
        assert(reason_views(res@) =~= reasons_of_limits(*self));
        res
    }

    fn error_to_tell(&self) -> (res: Option<String>)
        requires
            self.wf(),
        ensures
            opt_text(res) == told_error(*self),
    {
        let conflicts = conflict_copy_warnings(&self.copies);
        let recoveries = recovered_pending_copy_warnings(&self.copies);
        let open = open_unlinked_path_warnings(&self.work);
        let links = hard_link_block_warnings(&self.held);
        let formats = transactional_format_warnings(&self.held);
        let space = self.space_warnings.warnings();
        let e8 = told_first(&space);
        let e7 = or_else(told_first(&formats), e8);
        let e6 = or_else(told_first(&links), e7);
        let e5 = or_else(told_first(&open), e6);
        let e4 = or_else(told_first(&recoveries), e5);
        let e3 = or_else(told_first(&conflicts), e4);
        let e2 = or_else(copy_opt_text(&self.last_open_unlinked_warning), e3);
        let e1 = or_else(first_refresh_error(&self.work.pending_refreshes.values), e2);
        let res = or_else(first_writeback_error(&self.work.pending_writebacks.values), e1);
        proof {
            let a = first_some(writeback_errors(self.work.pending_writebacks.values@));
            let b = first_some(refresh_errors(self.work.pending_refreshes.values@));
            let c = opt_text(self.last_open_unlinked_warning);
            let d = first_text(conflict_warnings(self.copies));
            let e = first_text(recovery_warnings(self.copies));
            let f = first_text(open_unlinked_warnings(self.work));
            let g = first_text(hard_link_warnings(self.held));
            let h = first_text(transactional_warnings(self.held));
            let k = first_text(space_warnings(self.space_warnings));
            let s0 = seq![a, b, c, d, e, f, g, h, k];
            let s1 = seq![b, c, d, e, f, g, h, k];
            let s2 = seq![c, d, e, f, g, h, k];
            let s3 = seq![d, e, f, g, h, k];
            let s4 = seq![e, f, g, h, k];
            let s5 = seq![f, g, h, k];
            let s6 = seq![g, h, k];
            let s7 = seq![h, k];
            let s8 = seq![k];
            assert(s0.drop_first() =~= s1);
            assert(s1.drop_first() =~= s2);
            assert(s2.drop_first() =~= s3);
            assert(s3.drop_first() =~= s4);
            assert(s4.drop_first() =~= s5);
            assert(s5.drop_first() =~= s6);
            assert(s6.drop_first() =~= s7);
            assert(s7.drop_first() =~= s8);
            assert(s8.drop_first() =~= Seq::<Option<Seq<char>>>::empty());
            assert(first_some(s8.drop_first()) is None);
            assert(first_some(s8) == k);
            assert(first_some(s7) == opt_text(e7));
            assert(first_some(s6) == opt_text(e6));
            assert(first_some(s5) == opt_text(e5));
            assert(first_some(s4) == opt_text(e4));
            assert(first_some(s3) == opt_text(e3));
            assert(first_some(s2) == opt_text(e2));
            assert(first_some(s1) == opt_text(e1));
            assert(first_some(s0) == opt_text(res));
        }
        res
    }

    fn warnings_to_tell(&self, told: &Vec<MountSafetyReason>) -> (res: Vec<String>)
        requires
            self.wf(),
        ensures
            texts(res@) == told_warnings(*self, told@),
    {
        let mut all: Vec<String> = Vec::new();
        let mut i: usize = 0;
        while i < told.len()
            invariant
                i <= told@.len(),
                texts(all@) == summaries(told@).take(i as int),
            decreases told@.len() - i,
        {
            let ghost before = texts(all@);
            let text = told[i].summary();
            let ghost t = text@;
            all.push(text);
            proof {
                assert(texts(all@) =~= before.push(t));
                assert(summaries(told@)[i as int] == t);
                assert(summaries(told@).take(i + 1) =~= summaries(told@).take(i as int).push(t));
            }
            i += 1;
        }
        assert(summaries(told@).take(told@.len() as int) =~= summaries(told@));
        append_texts(&mut all, open_unlinked_path_warnings(&self.work));
        append_texts(&mut all, hard_link_block_warnings(&self.held));
        append_texts(&mut all, transactional_format_warnings(&self.held));
        append_texts(&mut all, recovered_pending_copy_warnings(&self.copies));
        let ghost before = texts(all@);
        let ghost readonly = given_if(
            self.held.mount_readonly_active,
            "mount forced read-only due to low-space degraded mode"@,
        );
        if self.held.mount_readonly_active {
            all.push("mount forced read-only due to low-space degraded mode".to_owned());
        }
        assert(texts(all@) =~= before + readonly);
        append_texts(&mut all, self.space_warnings.warnings());
        drop_repeated(all)
    }

    /// What the mount tells of itself.
    pub fn runtime_status(&self, now: UtcNanos) -> (res: MountSyncRuntimeStatus)
        requires
            self.wf(),
        ensures
            status_of(*self, now, res),
    {
        let work = &self.work;
        let pending_writeback_paths = told_paths(&work.pending_writebacks, MAX_PATHS_IN_STATUS);
        let low = low_space_writebacks(work);
        let low_count: usize = low.len();
        let mut all_low = low;
        append_texts(&mut all_low, shown_keys(&work.pending_refreshes));
        let pending_low_space_path_count: usize = all_low.len();
        proof {
            assert(texts(all_low@).len() == all_low@.len());
            assert(flagged_in(work.pending_writebacks, lacks_space()).len() == low_count);
        }
        let refreshes = work.pending_refreshes.keys.len() > 0;
        let mode = if refreshes && low_count > 0 {
            LowSpaceMode::FullyDegraded
        } else if refreshes {
            LowSpaceMode::RefreshDegraded
        } else if low_count > 0 {
            LowSpaceMode::WritebackDegraded
        } else if self.space_warnings.any() {
            LowSpaceMode::Warning
        } else {
            LowSpaceMode::Healthy
        };
        let low_space_paths = keep_first(all_low, MAX_PATHS_IN_STATUS);
        let edited = edited_conflicts(&self.copies);
        let edited_conflict_count: usize = edited.len();
        assert(texts(edited@).len() == edited@.len());
        let edited_conflict_paths = sort_texts(keep_first(edited, MAX_CONFLICT_PATHS_IN_STATUS));
        let mut unsafe_reasons = self.work_reasons(
            now,
            &pending_writeback_paths,
            edited_conflict_count,
        );
        let mut more = self.limit_reasons(mode, pending_low_space_path_count, &low_space_paths);
        let ghost a = unsafe_reasons@;
        let ghost b = more@;
        unsafe_reasons.append(&mut more);
        assert(reason_views(unsafe_reasons@) =~= reason_views(a) + reason_views(b));
        let preflight_warnings = self.warnings_to_tell(&unsafe_reasons);
        MountSyncRuntimeStatus {
            safe_to_unmount: self.can_cleanup_mountpoint(),
            pending_writeback_count: work.pending_writebacks.keys.len(),
            pending_writeback_oldest_age_ms: pending_writeback_oldest_age_ms_from(
                &work.pending_writebacks.values,
                now,
            ),
            pending_writeback_paths,
            pending_refresh_count: work.pending_refreshes.keys.len(),
            pending_open_unlinked_count: work.pending_open_unlinked.keys.len(),
            pending_conflict_count: self.copies.conflict_baselines.keys.len(),
            edited_conflict_count,
            recovered_pending_copy_count: self.copies.recovered_pending_paths.keys.len(),
            pending_low_space_path_count,
            low_space_mode: mode,
            low_space_paths,
            open_unlinked_paths: told_paths(
                &work.pending_open_unlinked,
                MAX_OPEN_UNLINKED_PATHS_IN_STATUS,
            ),
            conflict_paths: told_paths(
                &self.copies.conflict_baselines,
                MAX_CONFLICT_PATHS_IN_STATUS,
            ),
            edited_conflict_paths,
            recovered_pending_copy_paths: told_paths(
                &self.copies.recovered_pending_paths,
                MAX_RECOVERED_PENDING_PATHS_IN_STATUS,
            ),
            unsafe_reasons,
            preflight_warnings,
            last_error: self.error_to_tell(),
            updated_at: now,
        }
    }
}

/// The status says what is so.
pub open spec fn status_of(tracker: SyncTracker, now: UtcNanos, s: MountSyncRuntimeStatus) -> bool {
    let work = tracker.work;
    let copies = tracker.copies;
    &&& s.safe_to_unmount == nothing_to_lose(tracker)
    &&& s.pending_writeback_count == work.pending_writebacks.keys@.len()
    &&& s.pending_writeback_oldest_age_ms == oldest_age(work.pending_writebacks.values@, now)
    &&& texts(s.pending_writeback_paths@) == writeback_paths(work)
    &&& s.pending_refresh_count == work.pending_refreshes.keys@.len()
    &&& s.pending_open_unlinked_count == work.pending_open_unlinked.keys@.len()
    &&& s.pending_conflict_count == copies.conflict_baselines.keys@.len()
    &&& s.edited_conflict_count == flagged_in(copies.conflict_baselines, was_edited()).len()
    &&& s.recovered_pending_copy_count == copies.recovered_pending_paths.keys@.len()
    &&& s.pending_low_space_path_count == low_space_paths(work).len()
    &&& s.low_space_mode == low_space_mode(work, tracker.space_warnings)
    &&& texts(s.low_space_paths@) == first_n(low_space_paths(work), MAX_PATHS_IN_STATUS as int)
    &&& texts(s.open_unlinked_paths@) == in_order(
        first_n(
            displays(work.pending_open_unlinked.keys@),
            MAX_OPEN_UNLINKED_PATHS_IN_STATUS as int,
        ),
    )
    &&& texts(s.conflict_paths@) == in_order(
        first_n(displays(copies.conflict_baselines.keys@), MAX_CONFLICT_PATHS_IN_STATUS as int),
    )
    &&& texts(s.edited_conflict_paths@) == in_order(
        first_n(
            flagged_in(copies.conflict_baselines, was_edited()),
            MAX_CONFLICT_PATHS_IN_STATUS as int,
        ),
    )
    &&& texts(s.recovered_pending_copy_paths@) == in_order(
        first_n(
            displays(copies.recovered_pending_paths.keys@),
            MAX_RECOVERED_PENDING_PATHS_IN_STATUS as int,
        ),
    )
    &&& reason_views(s.unsafe_reasons@) == reasons(tracker, now)
    &&& texts(s.preflight_warnings@) == told_warnings(tracker, s.unsafe_reasons@)
    &&& opt_text(s.last_error) == told_error(tracker)
    &&& s.updated_at == now
}

/// A mount is safe to unmount only if no reason against it is told but that a volume is short
/// of room.
pub proof fn safe_mount_has_no_reasons(tracker: SyncTracker, now: UtcNanos)
    requires
        tracker.wf(),
        nothing_to_lose(tracker),
    ensures
        forall|i: int|
            0 <= i < reasons(tracker, now).len() ==> (#[trigger] reasons(tracker, now)[i]
                matches ReasonView::LowSpaceDegraded { mode, count, .. } && mode
                == LowSpaceMode::Warning && count == 0),
        tracker.space_warnings == (SpaceWarningState {
            mount_low: false,
            encrypted_low: false,
            journal_low: false,
        }) ==> reasons(tracker, now).len() == 0,
{
    tracker.work.pending_writebacks.entries();
    let low = flagged_in(tracker.work.pending_writebacks, lacks_space());
    assert(low.len() == 0);
    assert(low_space_paths(tracker.work) =~= Seq::empty()) by {
        assert(displays(tracker.work.pending_refreshes.keys@).len() == 0);
    }
    assert(reasons_of_work(tracker, now) =~= Seq::empty());
}

/// A mount that has anything to lose in a way that a reason is told for is not safe to unmount.
pub proof fn reasons_forbid_unmount(tracker: SyncTracker, now: UtcNanos, i: int)
    requires
        tracker.wf(),
        0 <= i < reasons(tracker, now).len(),
        !(reasons(tracker, now)[i] is LowSpaceDegraded),
    ensures
        !nothing_to_lose(tracker),
{
    if nothing_to_lose(tracker) {
        safe_mount_has_no_reasons(tracker, now);
    }
}

/// The place of a kind of reason in the order in which the kinds are told.
pub open spec fn reason_place(reason: ReasonView) -> int {
    match reason {
        ReasonView::PendingWriteback { .. } => 0,
        ReasonView::PendingRefresh { .. } => 1,
        ReasonView::Conflict { .. } => 2,
        ReasonView::DeletedOpen { .. } => 3,
        ReasonView::TransactionalBlocked { .. } => 4,
        ReasonView::HardLinkBlocked { .. } => 5,
        ReasonView::LowSpaceDegraded { .. } => 6,
        ReasonView::RecoveryCopiesPresent { .. } => 7,
    }
}

/// A reason of the kind at a place is told.
pub open spec fn tells_kind(reasons: Seq<ReasonView>, place: int) -> bool {
    exists|i: int| 0 <= i < reasons.len() && reason_place(#[trigger] reasons[i]) == place
}

/// Each kind of reason is told once at most, in order, and all are of kinds before a place.
pub open spec fn kinds_in_order(reasons: Seq<ReasonView>, end: int) -> bool {
    &&& forall|i: int, j: int|
        0 <= i < j < reasons.len() ==> reason_place(#[trigger] reasons[i]) < reason_place(
            #[trigger] reasons[j],
        )
    &&& forall|i: int| 0 <= i < reasons.len() ==> reason_place(#[trigger] reasons[i]) < end
}

proof fn one_more_kind(before: Seq<ReasonView>, there: bool, reason: ReasonView)
    requires
        kinds_in_order(before, reason_place(reason)),
    ensures
        kinds_in_order(before + given_if(there, reason), reason_place(reason) + 1),
        forall|place: int| #[trigger]
            tells_kind(before + given_if(there, reason), place) <==> tells_kind(before, place) || (
            there && place == reason_place(reason)),
{
    let after = before + given_if(there, reason);
    assert forall|place: int| #[trigger] tells_kind(after, place) <==> tells_kind(before, place)
        || (there && place == reason_place(reason)) by {
        if tells_kind(before, place) {
            let i = choose|i: int|
                0 <= i < before.len() && reason_place(#[trigger] before[i]) == place;
            assert(after[i] == before[i]);
        }
        if there && place == reason_place(reason) {
            assert(after[before.len() as int] == reason);
        }
        if tells_kind(after, place) {
            let i = choose|i: int| 0 <= i < after.len() && reason_place(#[trigger] after[i]) == place;
            if i < before.len() {
                assert(before[i] == after[i]);
            }
        }
    }
}

proof fn one_after_another<A>(first: Seq<A>, a: Seq<A>, b: Seq<A>, c: Seq<A>, d: Seq<A>)
    ensures
        first + (a + b + c + d) == first + a + b + c + d,
{
    assert(first + (a + b + c + d) =~= first + a + b + c + d);
}

#[verifier::spinoff_prover]
#[verifier::rlimit(40)]
proof fn kinds_are_in_order(tracker: SyncTracker, now: UtcNanos)
    ensures
        kinds_in_order(reasons(tracker, now), 8),
        tells_kind(reasons(tracker, now), 0) <==> tracker.work.pending_writebacks.keys@.len() > 0,
        tells_kind(reasons(tracker, now), 1) <==> tracker.work.pending_refreshes.keys@.len() > 0,
        tells_kind(reasons(tracker, now), 2) <==> tracker.copies.conflict_baselines.keys@.len() > 0,
        tells_kind(reasons(tracker, now), 3) <==> tracker.work.pending_open_unlinked.keys@.len()
            > 0,
        tells_kind(reasons(tracker, now), 4)
            <==> tracker.held.unsupported_transactional_paths.keys@.len() > 0,
        tells_kind(reasons(tracker, now), 5)
            <==> tracker.held.unsupported_hard_link_paths.keys@.len() > 0,
        tells_kind(reasons(tracker, now), 6) <==> low_space_mode(
            tracker.work,
            tracker.space_warnings,
        ) != LowSpaceMode::Healthy,
        tells_kind(reasons(tracker, now), 7)
            <==> tracker.copies.recovered_pending_paths.keys@.len() > 0,
{
    let work = tracker.work;
    let copies = tracker.copies;
    let held = tracker.held;
    let mode = low_space_mode(work, tracker.space_warnings);
    let r0 = ReasonView::PendingWriteback {
        count: work.pending_writebacks.keys@.len(),
        oldest_age_ms: told_age(work, now),
        sample_paths: first_n(writeback_paths(work), 3),
        last_error: first_some(writeback_errors(work.pending_writebacks.values@)),
    };
    let r1 = ReasonView::PendingRefresh { count: work.pending_refreshes.keys@.len() };
    let r2 = ReasonView::Conflict {
        count: copies.conflict_baselines.keys@.len(),
        edited_count: flagged_in(copies.conflict_baselines, was_edited()).len(),
        sample_paths: sample(copies.conflict_baselines.keys@, 3),
    };
    let r3 = ReasonView::DeletedOpen {
        count: work.pending_open_unlinked.keys@.len(),
        sample_paths: sample(work.pending_open_unlinked.keys@, 3),
    };
    let r4 = ReasonView::TransactionalBlocked {
        count: held.unsupported_transactional_paths.keys@.len(),
        sample_paths: sample(held.unsupported_transactional_paths.keys@, 3),
    };
    let r5 = ReasonView::HardLinkBlocked {
        count: held.unsupported_hard_link_paths.keys@.len(),
        sample_paths: sample(held.unsupported_hard_link_paths.keys@, 3),
    };
    let r6 = ReasonView::LowSpaceDegraded {
        mode,
        count: low_space_paths(work).len(),
        sample_paths: first_n(first_n(low_space_paths(work), MAX_PATHS_IN_STATUS as int), 3),
    };
    let r7 = ReasonView::RecoveryCopiesPresent {
        count: copies.recovered_pending_paths.keys@.len(),
        sample_paths: sample(copies.recovered_pending_paths.keys@, 3),
    };
    let b0 = work.pending_writebacks.keys@.len() > 0;
    let b1 = work.pending_refreshes.keys@.len() > 0;
    let b2 = copies.conflict_baselines.keys@.len() > 0;
    let b3 = work.pending_open_unlinked.keys@.len() > 0;
    let b4 = held.unsupported_transactional_paths.keys@.len() > 0;
    let b5 = held.unsupported_hard_link_paths.keys@.len() > 0;
    let b6 = mode != LowSpaceMode::Healthy;
    let b7 = copies.recovered_pending_paths.keys@.len() > 0;
    let none = Seq::<ReasonView>::empty();
    let s0 = none + given_if(b0, r0);
    let s1 = s0 + given_if(b1, r1);
    let s2 = s1 + given_if(b2, r2);
    let s3 = s2 + given_if(b3, r3);
    let s4 = s3 + given_if(b4, r4);
    let s5 = s4 + given_if(b5, r5);
    let s6 = s5 + given_if(b6, r6);
    let s7 = s6 + given_if(b7, r7);
    one_more_kind(none, b0, r0);
    one_more_kind(s0, b1, r1);
    one_more_kind(s1, b2, r2);
    one_more_kind(s2, b3, r3);
    one_more_kind(s3, b4, r4);
    one_more_kind(s4, b5, r5);
    one_more_kind(s5, b6, r6);
    one_more_kind(s6, b7, r7);
    assert(none + given_if(b0, r0) =~= given_if(b0, r0));
    assert(reasons_of_work(tracker, now) == s3);
    let l4 = given_if(b4, r4);
    let l5 = given_if(b5, r5);
    let l6 = given_if(b6, r6);
    let l7 = given_if(b7, r7);
    assert(reasons_of_limits(tracker) == l4 + l5 + l6 + l7);
    one_after_another(s3, l4, l5, l6, l7);
    assert(reasons(tracker, now) == s7);
}

/// The status tells each kind of reason once at most and in a fixed order, and a kind exactly if
/// there is something of it. Its warnings hold how each reason is told, and no text twice.
pub proof fn status_tells_each_reason_once(
    tracker: SyncTracker,
    now: UtcNanos,
    status: MountSyncRuntimeStatus,
)
    requires
        status_of(tracker, now, status),
    ensures
        kinds_in_order(reason_views(status.unsafe_reasons@), 8),
        tells_kind(reason_views(status.unsafe_reasons@), 0)
            <==> tracker.work.pending_writebacks.keys@.len() > 0,
        tells_kind(reason_views(status.unsafe_reasons@), 1)
            <==> tracker.work.pending_refreshes.keys@.len() > 0,
        tells_kind(reason_views(status.unsafe_reasons@), 2)
            <==> tracker.copies.conflict_baselines.keys@.len() > 0,
        tells_kind(reason_views(status.unsafe_reasons@), 3)
            <==> tracker.work.pending_open_unlinked.keys@.len() > 0,
        tells_kind(reason_views(status.unsafe_reasons@), 4)
            <==> tracker.held.unsupported_transactional_paths.keys@.len() > 0,
        tells_kind(reason_views(status.unsafe_reasons@), 5)
            <==> tracker.held.unsupported_hard_link_paths.keys@.len() > 0,
        tells_kind(reason_views(status.unsafe_reasons@), 6) <==> status.low_space_mode
            != LowSpaceMode::Healthy,
        tells_kind(reason_views(status.unsafe_reasons@), 7)
            <==> tracker.copies.recovered_pending_paths.keys@.len() > 0,
        texts(status.preflight_warnings@).no_duplicates(),
        forall|i: int|
            0 <= i < status.unsafe_reasons@.len() ==> texts(status.preflight_warnings@).contains(
                reason_summary(#[trigger] status.unsafe_reasons@[i]),
            ),
{
    kinds_are_in_order(tracker, now);
    let all = summaries(status.unsafe_reasons@) + open_unlinked_warnings(tracker.work)
        + hard_link_warnings(tracker.held) + transactional_warnings(tracker.held)
        + recovery_warnings(tracker.copies) + given_if(
        tracker.held.mount_readonly_active,
        "mount forced read-only due to low-space degraded mode"@,
    ) + space_warnings(tracker.space_warnings);
    occurrences_stand_once(all);
    assert forall|i: int| 0 <= i < status.unsafe_reasons@.len() implies texts(
        status.preflight_warnings@,
    ).contains(reason_summary(#[trigger] status.unsafe_reasons@[i])) by {
        let told = reason_summary(status.unsafe_reasons@[i]);
        assert(summaries(status.unsafe_reasons@)[i] == told);
        assert(all[i] == told);
        assert(all.contains(told));
    }
}

} // verus!
