//! Files with holes: where their data lies, and how it is read, packed and digested.

use vstd::prelude::*;

verus! {

/// A part of a file that holds data.
#[derive(Debug, Clone, Copy, PartialEq, Eq, Structural)]
pub struct SparseExtent {
    pub offset: u64,
    pub length: u64,
}

/// Where the data of a file with holes lies.
#[derive(Debug)]
pub struct SparseFileMetadata {
    pub logical_size: u64,
    pub extents: Vec<SparseExtent>,
}

/// How much data the parts hold together.
pub open spec fn packed_len(extents: Seq<SparseExtent>) -> nat
    decreases extents.len(),
{
    if extents.len() == 0 {
        0
    } else {
        packed_len(extents.drop_last()) + extents.last().length as nat
    }
}

/// The bytes of a part.
pub open spec fn extent_bytes(content: Seq<u8>, extent: SparseExtent) -> Seq<u8> {
    content.subrange(extent.offset as int, extent.offset + extent.length)
}

/// The bytes of all parts, one after the other.
pub open spec fn packed(content: Seq<u8>, extents: Seq<SparseExtent>) -> Seq<u8>
    decreases extents.len(),
{
    if extents.len() == 0 {
        Seq::empty()
    } else {
        packed(content, extents.drop_last()) + extent_bytes(content, extents.last())
    }
}

/// Zeros.
pub open spec fn zeros(n: nat) -> Seq<u8> {
    Seq::new(n, |i: int| 0u8)
}

/// Bytes in which some were written over.
pub open spec fn written_over(base: Seq<u8>, offset: int, data: Seq<u8>) -> Seq<u8> {
    base.take(offset) + data + base.skip(offset + data.len())
}

/// A file of zeros, into which the packed bytes were written part by part.
pub open spec fn unpacked(data: Seq<u8>, extents: Seq<SparseExtent>, size: nat) -> Seq<u8>
    decreases extents.len(),
{
    if extents.len() == 0 {
        zeros(size)
    } else {
        let split = data.len() - extents.last().length;
        written_over(
            unpacked(data.take(split), extents.drop_last(), size),
            extents.last().offset as int,
            data.skip(split),
        )
    }
}

/// Every part lies within the file.
pub open spec fn within(extents: Seq<SparseExtent>, size: int) -> bool {
    forall|i: int|
        0 <= i < extents.len() ==> (#[trigger] extents[i]).offset + extents[i].length <= size
}

/// Each part ends before the next begins.
pub open spec fn in_order(extents: Seq<SparseExtent>) -> bool {
    forall|i: int, j: int|
        0 <= i < j < extents.len() ==> (#[trigger] extents[i]).offset + extents[i].length <= (
        #[trigger] extents[j]).offset
}

/// A byte lies in a part.
pub open spec fn lies_in(extent: SparseExtent, at: int) -> bool {
    extent.offset <= at < extent.offset + extent.length
}

/// A byte lies in one of the parts.
pub open spec fn covered(extents: Seq<SparseExtent>, at: int) -> bool {
    exists|i: int| 0 <= i < extents.len() && lies_in(#[trigger] extents[i], at)
}

/// Outside of the parts there are only zeros.
pub open spec fn zero_outside(content: Seq<u8>, extents: Seq<SparseExtent>) -> bool {
    forall|at: int|
        0 <= at < content.len() && !covered(extents, at) ==> #[trigger] content[at] == 0u8
}

/// A piece of a file as it is digested.
#[derive(Debug, Clone, Copy, PartialEq, Eq, Structural)]
pub enum SparseRun {
    /// So many zeros.
    Zeros(u64),
    /// The bytes of a part.
    Data(SparseExtent),
}

/// Where the last part ends.
pub open spec fn parts_end(extents: Seq<SparseExtent>) -> u64 {
    if extents.len() == 0 {
        0
    } else if extents.last().offset + extents.last().length > u64::MAX {
        u64::MAX
    } else {
        (extents.last().offset + extents.last().length) as u64
    }
}

/// The hole between two places.
pub open spec fn hole(from: u64, to: u64) -> Seq<SparseRun> {
    if to > from {
        seq![SparseRun::Zeros((to - from) as u64)]
    } else {
        Seq::empty()
    }
}

/// The pieces of a file up to the end of its last part.
pub open spec fn runs_of(extents: Seq<SparseExtent>) -> Seq<SparseRun>
    decreases extents.len(),
{
    if extents.len() == 0 {
        Seq::empty()
    } else {
        (runs_of(extents.drop_last()) + hole(
            parts_end(extents.drop_last()),
            extents.last().offset,
        )).push(SparseRun::Data(extents.last()))
    }
}

/// The pieces of a file.
pub open spec fn sparse_runs(extents: Seq<SparseExtent>, size: u64) -> Seq<SparseRun> {
    runs_of(extents) + hole(parts_end(extents), size)
}

/// The bytes of a piece.
pub open spec fn run_bytes(content: Seq<u8>, run: SparseRun) -> Seq<u8> {
    match run {
        SparseRun::Zeros(n) => zeros(n as nat),
        SparseRun::Data(extent) => extent_bytes(content, extent),
    }
}

/// The bytes of all pieces, one after the other.
pub open spec fn all_bytes(content: Seq<u8>, runs: Seq<SparseRun>) -> Seq<u8>
    decreases runs.len(),
{
    if runs.len() == 0 {
        Seq::empty()
    } else {
        all_bytes(content, runs.drop_last()) + run_bytes(content, runs.last())
    }
}

impl SparseFileMetadata {
    /// How much data the file holds, as far as that can be counted.
    pub fn packed_size(&self) -> (res: u64)
        ensures
            res == if packed_len(self.extents@) > u64::MAX {
                u64::MAX as nat
            } else {
                packed_len(self.extents@)
            },
    {
        let mut total: u64 = 0;
        let mut i: usize = 0;
        while i < self.extents.len()
            invariant
                i <= self.extents@.len(),
                total == if packed_len(self.extents@.take(i as int)) > u64::MAX {
                    u64::MAX as nat
                } else {
                    packed_len(self.extents@.take(i as int))
                },
            decreases self.extents@.len() - i,
        {
            proof {
                let next = self.extents@.take(i + 1);
                assert(next.drop_last() =~= self.extents@.take(i as int));
            }
            total = total.saturating_add(self.extents[i].length);
            i += 1;
        }
        assert(self.extents@.take(self.extents@.len() as int) =~= self.extents@);
        total
    }

    /// Whether the file holds less data than it is long.
    pub fn is_effectively_sparse(&self) -> (res: bool)
        ensures
            res == (packed_len(self.extents@) < self.logical_size),
    {
        self.packed_size() < self.logical_size
    }

    /// The pieces of the file, as they are digested.
    pub fn runs(&self) -> (res: Vec<SparseRun>)
        ensures
            res@ == sparse_runs(self.extents@, self.logical_size),
    {
        let mut res: Vec<SparseRun> = Vec::new();
        let mut end: u64 = 0;
        let mut i: usize = 0;
        assert(self.extents@.take(0) =~= Seq::<SparseExtent>::empty());
        while i < self.extents.len()
            invariant
                i <= self.extents@.len(),
                end == parts_end(self.extents@.take(i as int)),
                res@ == runs_of(self.extents@.take(i as int)),
            decreases self.extents@.len() - i,
        {
            let extent = self.extents[i];
            proof {
                let next = self.extents@.take(i + 1);
                assert(next.drop_last() =~= self.extents@.take(i as int));
                assert(next.last() == extent);
            }
            let ghost before = res@;
            if extent.offset > end {
                res.push(SparseRun::Zeros(extent.offset - end));
            }
            assert(res@ =~= before + hole(end, extent.offset));
            res.push(SparseRun::Data(extent));
            end = extent.offset.saturating_add(extent.length);
            i += 1;
        }
        assert(self.extents@.take(self.extents@.len() as int) =~= self.extents@);
        let ghost before = res@;
        if self.logical_size > end {
            res.push(SparseRun::Zeros(self.logical_size - end));
        }
        assert(res@ =~= before + hole(end, self.logical_size));
        res
    }
}

/// What is asked of a file to find its data.
#[derive(Debug, Clone, Copy, PartialEq, Eq, Structural)]
pub enum SeekStep {
    /// Where data begins, from a place on.
    FindData(u64),
    /// Where the data that begins at a place ends.
    FindHole(u64),
    /// All data was found.
    Finished,
    /// The file cannot be asked.
    Unsupported,
}

/// What was found.
#[derive(Debug, Clone, Copy, PartialEq, Eq, Structural)]
pub enum SeekOutcome {
    At(u64),
    /// There is no more data.
    NoMore,
    Unsupported,
}

/// A search for the data of a file.
pub struct ExtentScan {
    pub logical_size: u64,
    pub extents: Vec<SparseExtent>,
    pub step: SeekStep,
}

/// What is asked next, from a place on.
pub open spec fn search_from(size: u64, at: u64) -> SeekStep {
    if at < size {
        SeekStep::FindData(at)
    } else {
        SeekStep::Finished
    }
}

/// What is asked next.
pub open spec fn next_seek(size: u64, step: SeekStep, outcome: SeekOutcome) -> SeekStep {
    match (step, outcome) {
        (SeekStep::FindData(_), SeekOutcome::At(at)) => SeekStep::FindHole(at),
        (SeekStep::FindData(_), SeekOutcome::NoMore) => SeekStep::Finished,
        (SeekStep::FindData(_), SeekOutcome::Unsupported) => SeekStep::Unsupported,
        (SeekStep::FindHole(_), SeekOutcome::At(at)) => search_from(size, at),
        (SeekStep::FindHole(_), SeekOutcome::Unsupported) => SeekStep::Unsupported,
        _ => step,
    }
}

/// The parts that were found.
pub open spec fn found_parts(
    extents: Seq<SparseExtent>,
    step: SeekStep,
    outcome: SeekOutcome,
) -> Seq<SparseExtent> {
    match (step, outcome) {
        (SeekStep::FindHole(data), SeekOutcome::At(end)) => if end > data {
            extents.push(SparseExtent { offset: data, length: (end - data) as u64 })
        } else {
            extents
        },
        _ => extents,
    }
}

/// The place from which on is searched.
pub open spec fn search_place(step: SeekStep) -> int {
    match step {
        SeekStep::FindData(at) => at as int,
        SeekStep::FindHole(at) => at as int,
        _ => u64::MAX as int,
    }
}

impl ExtentScan {
    /// The parts that were found are in order, and end before the place that is searched.
    pub open spec fn in_order(&self) -> bool {
        &&& in_order(self.extents@)
        &&& within(self.extents@, search_place(self.step))
    }

    /// A search at its beginning. An empty file has no data.
    pub fn new(logical_size: u64) -> (res: ExtentScan)
        ensures
            res.logical_size == logical_size,
            res.extents@.len() == 0,
            res.step == search_from(logical_size, 0),
            res.in_order(),
    {
        let step = if logical_size > 0 {
            SeekStep::FindData(0)
        } else {
            SeekStep::Finished
        };
        ExtentScan { logical_size, extents: Vec::new(), step }
    }

    /// Takes in what was found. Where nothing is found before the place that is searched, the
    /// parts stay in order.
    pub fn advance(&mut self, outcome: SeekOutcome)
        ensures
            final(self).logical_size == old(self).logical_size,
            final(self).step == next_seek(old(self).logical_size, old(self).step, outcome),
            final(self).extents@ == found_parts(old(self).extents@, old(self).step, outcome),
            old(self).in_order() && (outcome matches SeekOutcome::At(at) ==> at >= search_place(
                old(self).step,
            )) ==> final(self).in_order(),
    {
        let ghost before = *self;
        match self.step {
            SeekStep::FindData(_) => match outcome {
                SeekOutcome::At(at) => {
                    self.step = SeekStep::FindHole(at);
                },
                SeekOutcome::NoMore => {
                    self.step = SeekStep::Finished;
                },
                SeekOutcome::Unsupported => {
                    self.step = SeekStep::Unsupported;
                },
            },
            SeekStep::FindHole(data) => match outcome {
                SeekOutcome::At(end) => {
                    if end > data {
                        self.extents.push(SparseExtent { offset: data, length: end - data });
                    }
                    self.step = if end < self.logical_size {
                        SeekStep::FindData(end)
                    } else {
                        SeekStep::Finished
                    };
                },
                SeekOutcome::NoMore => {},
                SeekOutcome::Unsupported => {
                    self.step = SeekStep::Unsupported;
                },
            },
            _ => {},
        }
    }

    /// What was found, if the file was searched to its end and holds less data than it is long.
    pub fn finish(self) -> (res: Option<SparseFileMetadata>)
        ensures
            match res {
                Some(sparse) => {
                    &&& self.step == SeekStep::Finished
                    &&& packed_len(self.extents@) < self.logical_size
                    &&& sparse.logical_size == self.logical_size
                    &&& sparse.extents@ == self.extents@
                },
                None => self.step != SeekStep::Finished || packed_len(self.extents@)
                    >= self.logical_size,
            },
    {
        let finished = match self.step {
            SeekStep::Finished => true,
            _ => false,
        };
        let sparse = SparseFileMetadata { logical_size: self.logical_size, extents: self.extents };
        if finished && sparse.is_effectively_sparse() {
            Some(sparse)
        } else {
            None
        }
    }
}

/// How far the parts of a file were read.
#[derive(Debug, Clone, Copy, PartialEq, Eq, Structural)]
pub struct PackCursor {
    /// The part that is read.
    pub index: usize,
    /// How much of it was read.
    pub taken: u64,
}

impl PackCursor {
    /// The cursor is at a byte of a part, or behind the last part.
    pub open spec fn fits(&self, extents: Seq<SparseExtent>) -> bool {
        self.index <= extents.len() && (self.index < extents.len() ==> self.taken
            <= extents[self.index as int].length) && (self.index == extents.len() ==> self.taken
            == 0)
    }

    /// How many packed bytes were read.
    pub open spec fn position(&self, extents: Seq<SparseExtent>) -> nat {
        packed_len(extents.take(self.index as int)) + self.taken as nat
    }

    /// A cursor before the first part.
    pub fn new() -> (res: PackCursor)
        ensures
            res.index == 0,
            res.taken == 0,
    {
        PackCursor { index: 0, taken: 0 }
    }

    /// Where to read next, and how much at most. Parts that were read are left behind. Nothing is
    /// given once all parts were read.
    pub fn next_read(&mut self, sparse: &SparseFileMetadata, most: usize) -> (res: Option<
        (u64, usize),
    >)
        requires
            old(self).fits(sparse.extents@),
            most > 0,
            within(sparse.extents@, u64::MAX as int),
        ensures
            final(self).fits(sparse.extents@),
            final(self).position(sparse.extents@) == old(self).position(sparse.extents@),
            match res {
                Some((offset, len)) => {
                    let extent = sparse.extents@[final(self).index as int];
                    &&& final(self).index < sparse.extents@.len()
                    &&& offset == extent.offset + final(self).taken
                    &&& 0 < len <= most
                    &&& len == if extent.length - final(self).taken < most {
                        extent.length - final(self).taken
                    } else {
                        most as int
                    }
                },
                None => final(self).index == sparse.extents@.len(),
            },
    {
        let ghost all = sparse.extents@;
        while self.index < sparse.extents.len() && self.taken
            == sparse.extents[self.index].length
            invariant
                all == sparse.extents@,
                self.fits(all),
                self.position(all) == old(self).position(all),
            decreases all.len() - self.index,
        {
            proof {
                let next = all.take(self.index + 1);
                assert(next.drop_last() =~= all.take(self.index as int));
            }
            self.index = self.index + 1;
            self.taken = 0;
        }
        if self.index == sparse.extents.len() {
            return None;
        }
        let extent = sparse.extents[self.index];
        assert(all[self.index as int].offset + all[self.index as int].length <= u64::MAX);
        let left: u64 = extent.length - self.taken;
        let len: usize = if left < most as u64 {
            left as usize
        } else {
            most
        };
        Some((extent.offset + self.taken, len))
    }

    /// Notes that some bytes were read.
    pub fn took(&mut self, sparse: &SparseFileMetadata, count: usize)
        requires
            old(self).fits(sparse.extents@),
            old(self).index < sparse.extents@.len(),
            old(self).taken + count <= sparse.extents@[old(self).index as int].length,
        ensures
            final(self).fits(sparse.extents@),
            final(self).position(sparse.extents@) == old(self).position(sparse.extents@) + count,
            *final(self) == (PackCursor { taken: final(self).taken, ..*old(self) }),
            final(self).taken == old(self).taken + count,
    {
        self.taken = self.taken + count as u64;
    }
}

/// The packed bytes are as many as the parts hold.
pub proof fn packed_has_its_size(content: Seq<u8>, extents: Seq<SparseExtent>)
    requires
        within(extents, content.len() as int),
    ensures
        packed(content, extents).len() == packed_len(extents),
    decreases extents.len(),
{
    if extents.len() > 0 {
        let front = extents.drop_last();
        assert forall|i: int| 0 <= i < front.len() implies (#[trigger] front[i]).offset
            + front[i].length <= content.len() by {
            assert(front[i] == extents[i]);
        }
        packed_has_its_size(content, front);
        assert(extents[extents.len() - 1].offset + extents[extents.len() - 1].length
            <= content.len());
    }
}

/// What is read at a cursor is what stands at its position in the packed bytes.
pub proof fn reading_in_order_packs(
    content: Seq<u8>,
    extents: Seq<SparseExtent>,
    cursor: PackCursor,
    count: int,
)
    requires
        within(extents, content.len() as int),
        cursor.fits(extents),
        cursor.index < extents.len(),
        0 <= count <= extents[cursor.index as int].length - cursor.taken,
    ensures
        ({
            let at = extents[cursor.index as int].offset + cursor.taken;
            content.subrange(at, at + count) == packed(content, extents).subrange(
                cursor.position(extents) as int,
                cursor.position(extents) + count,
            )
        }),
    decreases extents.len(),
{
    packed_has_its_size(content, extents);
    let front = extents.drop_last();
    assert forall|i: int| 0 <= i < front.len() implies (#[trigger] front[i]).offset
        + front[i].length <= content.len() by {
        assert(front[i] == extents[i]);
    }
    packed_has_its_size(content, front);
    let at = extents[cursor.index as int].offset + cursor.taken;
    let from = cursor.position(extents) as int;
    assert(extents.take(extents.len() as int) =~= extents);
    if cursor.index == extents.len() - 1 {
        assert(extents.take(cursor.index as int) =~= front);
        assert(content.subrange(at, at + count) =~= packed(content, extents).subrange(
            from,
            from + count,
        ));
    } else {
        assert(front.take(cursor.index as int) =~= extents.take(cursor.index as int));
        assert(front[cursor.index as int] == extents[cursor.index as int]);
        reading_in_order_packs(content, front, cursor, count);
        positions_are_inside(front, cursor);
        assert(packed(content, extents).subrange(from, from + count) =~= packed(
            content,
            front,
        ).subrange(from, from + count));
    }
}

proof fn positions_are_inside(extents: Seq<SparseExtent>, cursor: PackCursor)
    requires
        cursor.fits(extents),
        cursor.index < extents.len(),
    ensures
        cursor.position(extents) + (extents[cursor.index as int].length - cursor.taken)
            <= packed_len(extents),
    decreases extents.len(),
{
    let front = extents.drop_last();
    if cursor.index < extents.len() - 1 {
        assert(front.take(cursor.index as int) =~= extents.take(cursor.index as int));
        positions_are_inside(front, cursor);
    } else {
        assert(extents.take(cursor.index as int) =~= front);
    }
}

proof fn unpacked_size(content: Seq<u8>, extents: Seq<SparseExtent>)
    requires
        within(extents, content.len() as int),
    ensures
        unpacked(packed(content, extents), extents, content.len()).len() == content.len(),
    decreases extents.len(),
{
    if extents.len() > 0 {
        let front = extents.drop_last();
        let last = extents.last();
        let data = packed(content, extents);
        let split = data.len() - last.length;
        assert forall|i: int| 0 <= i < front.len() implies (#[trigger] front[i]).offset
            + front[i].length <= content.len() by {
            assert(front[i] == extents[i]);
        }
        assert(extents[extents.len() - 1] == last);
        packed_has_its_size(content, extents);
        packed_has_its_size(content, front);
        assert(data.take(split) =~= packed(content, front));
        assert(data.skip(split) =~= extent_bytes(content, last));
        unpacked_size(content, front);
    }
}

proof fn unpacked_byte(content: Seq<u8>, extents: Seq<SparseExtent>, at: int)
    requires
        within(extents, content.len() as int),
        0 <= at < content.len(),
    ensures
        unpacked(packed(content, extents), extents, content.len())[at] == if covered(extents, at) {
            content[at]
        } else {
            0u8
        },
    decreases extents.len(),
{
    if extents.len() > 0 {
        let front = extents.drop_last();
        let last = extents.last();
        let data = packed(content, extents);
        let split = data.len() - last.length;
        assert forall|i: int| 0 <= i < front.len() implies (#[trigger] front[i]).offset
            + front[i].length <= content.len() by {
            assert(front[i] == extents[i]);
        }
        assert(extents[extents.len() - 1] == last);
        packed_has_its_size(content, extents);
        packed_has_its_size(content, front);
        assert(data.take(split) =~= packed(content, front));
        assert(data.skip(split) =~= extent_bytes(content, last));
        unpacked_size(content, front);
        unpacked_byte(content, front, at);
        if covered(front, at) {
            let i = choose|i: int| 0 <= i < front.len() && lies_in(#[trigger] front[i], at);
            assert(lies_in(extents[i], at));
        }
        if covered(extents, at) && !lies_in(last, at) {
            let i = choose|i: int| 0 <= i < extents.len() && lies_in(#[trigger] extents[i], at);
            assert(lies_in(front[i], at));
        }
    }
}

/// What is packed can be unpacked again: a file with zeros outside of its parts is the same
/// afterwards.
pub proof fn unpacking_restores(content: Seq<u8>, extents: Seq<SparseExtent>)
    requires
        within(extents, content.len() as int),
        zero_outside(content, extents),
    ensures
        unpacked(packed(content, extents), extents, content.len()) == content,
{
    let res = unpacked(packed(content, extents), extents, content.len());
    assert forall|at: int| 0 <= at < content.len() implies res[at] == content[at] by {
        unpacked_byte(content, extents, at);
    }
    unpacked_size(content, extents);
    assert(res =~= content);
}

proof fn runs_reach(content: Seq<u8>, extents: Seq<SparseExtent>, all: Seq<SparseExtent>)
    requires
        extents.len() <= all.len(),
        extents == all.take(extents.len() as int),
        content.len() <= u64::MAX,
        within(all, content.len() as int),
        in_order(all),
        zero_outside(content, all),
    ensures
        parts_end(extents) <= content.len(),
        all_bytes(content, runs_of(extents)) == content.take(parts_end(extents) as int),
    decreases extents.len(),
{
    if extents.len() > 0 {
        let front = extents.drop_last();
        let last = extents.last();
        let n = extents.len() as int;
        assert(front =~= all.take(n - 1));
        assert(all[n - 1] == last);
        runs_reach(content, front, all);
        let end = parts_end(front);
        if n > 1 {
            assert(all[n - 2] == front.last());
            assert(all[n - 2].offset + all[n - 2].length <= all[n - 1].offset);
        }
        let before = runs_of(front) + hole(end, last.offset);
        gap_is_zero(content, all, n, end as int);
        if last.offset > end {
            assert(before.drop_last() =~= runs_of(front));
            assert(all_bytes(content, before) =~= content.take(last.offset as int));
        } else {
            assert(before =~= runs_of(front));
            assert(all_bytes(content, before) =~= content.take(last.offset as int));
        }
        assert(runs_of(extents).drop_last() =~= before);
        assert(all_bytes(content, runs_of(extents)) =~= content.take(parts_end(extents) as int));
    } else {
        assert(content.take(0) =~= Seq::<u8>::empty());
    }
}

proof fn gap_is_zero(content: Seq<u8>, all: Seq<SparseExtent>, n: int, end: int)
    requires
        1 <= n <= all.len() + 1,
        within(all, content.len() as int),
        in_order(all),
        zero_outside(content, all),
        n == 1 ==> end == 0,
        n > 1 ==> end == all[n - 2].offset + all[n - 2].length,
    ensures
        forall|at: int|
            end <= at < (if n <= all.len() {
                all[n - 1].offset as int
            } else {
                content.len() as int
            }) ==> #[trigger] content[at] == 0u8,
{
    let to = if n <= all.len() {
        all[n - 1].offset as int
    } else {
        content.len() as int
    };
    assert forall|at: int| end <= at < to implies #[trigger] content[at] == 0u8 by {
        if n <= all.len() {
            assert(all[n - 1].offset + all[n - 1].length <= content.len());
        }
        if covered(all, at) {
            let i = choose|i: int| 0 <= i < all.len() && lies_in(#[trigger] all[i], at);
            if i < n - 2 {
                assert(all[i].offset + all[i].length <= all[n - 2].offset);
            } else if i >= n {
                assert(all[n - 1].offset + all[n - 1].length <= all[i].offset);
            }
            assert(false);
        }
    }
}

/// The pieces of a file give its bytes: digesting them is digesting the file.
pub proof fn runs_give_the_content(content: Seq<u8>, sparse: SparseFileMetadata)
    requires
        content.len() == sparse.logical_size,
        within(sparse.extents@, content.len() as int),
        in_order(sparse.extents@),
        zero_outside(content, sparse.extents@),
    ensures
        all_bytes(content, sparse_runs(sparse.extents@, sparse.logical_size)) == content,
{
    let all = sparse.extents@;
    assert(all.take(all.len() as int) =~= all);
    runs_reach(content, all, all);
    let end = parts_end(all);
    let n = all.len() as int + 1;
    if all.len() > 0 {
        assert(all[n - 2] == all.last());
    }
    gap_is_zero(content, all, n, end as int);
    let runs = sparse_runs(all, sparse.logical_size);
    if sparse.logical_size > end {
        assert(runs.drop_last() =~= runs_of(all));
        assert(all_bytes(content, runs) =~= content);
    } else {
        assert(runs =~= runs_of(all));
        assert(all_bytes(content, runs) =~= content);
    }
}

} // verus!
