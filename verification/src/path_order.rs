//! The order of paths, and sorting by it.

use vstd::prelude::*;
use vstd::string::*;
use vstd::utf8::encode_utf8;

use crate::path::{NameView, PathName, PathView, SyncPath};
use crate::text::same_text;

verus! {

/// Which of two byte strings comes first: negative for `a`, positive for `b`.
pub open spec fn bytes_rank(a: Seq<u8>, b: Seq<u8>) -> int
    decreases a.len(),
{
    if a.len() == 0 && b.len() == 0 {
        0
    } else if a.len() == 0 {
        -1
    } else if b.len() == 0 {
        1
    } else if a[0] != b[0] {
        if a[0] < b[0] {
            -1
        } else {
            1
        }
    } else {
        bytes_rank(a.drop_first(), b.drop_first())
    }
}

/// The bytes of a name.
pub open spec fn name_bytes(name: NameView) -> Seq<u8> {
    match name {
        NameView::Text(text) => encode_utf8(text),
        NameView::Raw(bytes) => bytes,
    }
}

/// The class of a name: `.` comes before `..`, and that before all others.
pub open spec fn name_class(name: NameView) -> int {
    if name == NameView::Text("."@) {
        0
    } else if name == NameView::Text(".."@) {
        1
    } else {
        2
    }
}

/// Which of two names comes first.
pub open spec fn name_rank(a: NameView, b: NameView) -> int {
    if name_class(a) < name_class(b) {
        -1
    } else if name_class(a) > name_class(b) {
        1
    } else {
        bytes_rank(name_bytes(a), name_bytes(b))
    }
}

/// Which of two sequences of names comes first.
pub open spec fn names_rank(a: Seq<NameView>, b: Seq<NameView>) -> int
    decreases a.len(),
{
    if a.len() == 0 && b.len() == 0 {
        0
    } else if a.len() == 0 {
        -1
    } else if b.len() == 0 {
        1
    } else if name_rank(a[0], b[0]) != 0 {
        name_rank(a[0], b[0])
    } else {
        names_rank(a.drop_first(), b.drop_first())
    }
}

/// Which of two paths comes first: they are ordered name by name, the root before any name.
pub open spec fn path_rank(a: PathView, b: PathView) -> int {
    if a.absolute == b.absolute {
        names_rank(a.names, b.names)
    } else if a.absolute {
        if b.names.len() == 0 {
            1
        } else {
            -1
        }
    } else {
        if a.names.len() == 0 {
            -1
        } else {
            1
        }
    }
}

fn rank_bytes(a: &[u8], b: &[u8]) -> (res: i8)
    ensures
        res == bytes_rank(a@, b@),
{
    let mut i: usize = 0;
    assert(a@.skip(0) =~= a@);
    assert(b@.skip(0) =~= b@);
    while i < a.len() && i < b.len()
        invariant
            i <= a@.len(),
            i <= b@.len(),
            bytes_rank(a@, b@) == bytes_rank(a@.skip(i as int), b@.skip(i as int)),
        decreases a@.len() - i,
    {
        if a[i] != b[i] {
            return if a[i] < b[i] {
                -1
            } else {
                1
            };
        }
        assert(a@.skip(i as int).drop_first() =~= a@.skip(i + 1));
        assert(b@.skip(i as int).drop_first() =~= b@.skip(i + 1));
        i += 1;
    }
    if i == a.len() && i == b.len() {
        0
    } else if i == a.len() {
        -1
    } else {
        1
    }
}

fn class_of(name: &PathName) -> (res: i8)
    ensures
        res == name_class(name@),
{
    match name {
        PathName::Text(text) => {
            proof {
                reveal_strlit(".");
                reveal_strlit("..");
                assert("."@.len() != ".."@.len());
            }
            if same_text(text.as_str(), ".") {
                0
            } else if same_text(text.as_str(), "..") {
                1
            } else {
                2
            }
        },
        PathName::Raw(_) => 2,
    }
}

fn rank_names(a: &PathName, b: &PathName) -> (res: i8)
    ensures
        res == name_rank(a@, b@),
{
    let x: i8 = class_of(a);
    let y: i8 = class_of(b);
    if x < y {
        return -1;
    }
    if x > y {
        return 1;
    }
    match (a, b) {
        (PathName::Text(s), PathName::Text(t)) => rank_bytes(
            s.as_str().as_bytes(),
            t.as_str().as_bytes(),
        ),
        (PathName::Text(s), PathName::Raw(t)) => rank_bytes(s.as_str().as_bytes(), t.as_slice()),
        (PathName::Raw(s), PathName::Text(t)) => rank_bytes(s.as_slice(), t.as_str().as_bytes()),
        (PathName::Raw(s), PathName::Raw(t)) => rank_bytes(s.as_slice(), t.as_slice()),
    }
}

impl SyncPath {
    /// Which of two paths comes first: negative for this one, positive for the other.
    pub fn rank(&self, other: &SyncPath) -> (res: i8)
        ensures
            res == path_rank(self@, other@),
    {
        if self.is_absolute() != other.is_absolute() {
            if self.is_absolute() {
                return if other.name_count() == 0 {
                    1
                } else {
                    -1
                };
            }
            return if self.name_count() == 0 {
                -1
            } else {
                1
            };
        }
        let ghost a = self@.names;
        let ghost b = other@.names;
        let mut i: usize = 0;
        assert(a.skip(0) =~= a);
        assert(b.skip(0) =~= b);
        while i < self.name_count() && i < other.name_count()
            invariant
                i <= a.len(),
                i <= b.len(),
                self@.absolute == other@.absolute,
                a == self@.names,
                b == other@.names,
                names_rank(a, b) == names_rank(a.skip(i as int), b.skip(i as int)),
            decreases a.len() - i,
        {
            let order: i8 = rank_names(self.name(i), other.name(i));
            if order != 0 {
                return order;
            }
            assert(a.skip(i as int).drop_first() =~= a.skip(i + 1));
            assert(b.skip(i as int).drop_first() =~= b.skip(i + 1));
            i += 1;
        }
        if i == self.name_count() && i == other.name_count() {
            0
        } else if i == self.name_count() {
            -1
        } else {
            1
        }
    }
}

/// One of two byte strings comes first, whichever is asked.
pub proof fn bytes_rank_turned(a: Seq<u8>, b: Seq<u8>)
    ensures
        bytes_rank(a, b) == -bytes_rank(b, a),
    decreases a.len(),
{
    if a.len() > 0 && b.len() > 0 && a[0] == b[0] {
        bytes_rank_turned(a.drop_first(), b.drop_first());
    }
}

proof fn names_rank_turned(a: Seq<NameView>, b: Seq<NameView>)
    ensures
        names_rank(a, b) == -names_rank(b, a),
    decreases a.len(),
{
    if a.len() > 0 && b.len() > 0 {
        bytes_rank_turned(name_bytes(a[0]), name_bytes(b[0]));
        names_rank_turned(a.drop_first(), b.drop_first());
    }
}

/// If one path comes before another, the other comes after it.
pub proof fn path_rank_turned(a: PathView, b: PathView)
    ensures
        path_rank(a, b) == -path_rank(b, a),
{
    names_rank_turned(a.names, b.names);
}

/// Two byte strings are in the same place of the order only if they are the same.
pub proof fn bytes_rank_zero(a: Seq<u8>, b: Seq<u8>)
    ensures
        bytes_rank(a, b) == 0 <==> a == b,
    decreases a.len(),
{
    if a.len() > 0 && b.len() > 0 && a[0] == b[0] {
        bytes_rank_zero(a.drop_first(), b.drop_first());
        if a.drop_first() == b.drop_first() {
            assert(a =~= seq![a[0]] + a.drop_first());
            assert(b =~= seq![b[0]] + b.drop_first());
        }
    } else if a.len() == 0 && b.len() == 0 {
        assert(a =~= b);
    }
}

/// A value that has a place in an order.
pub trait Ranked: Sized {
    /// This one comes before the other, or either may come first.
    spec fn precedes(self, other: Self) -> bool;

    /// Of two values one comes first.
    proof fn comparable(a: Self, b: Self)
        ensures
            a.precedes(b) || b.precedes(a),
    ;

    /// Whether this one comes before the other, or either may come first.
    fn comes_first(&self, other: &Self) -> (res: bool)
        ensures
            res == self.precedes(*other),
    ;
}

/// The values with one more put behind those that come before it.
pub open spec fn put_ranked<T: Ranked>(sorted: Seq<T>, value: T) -> Seq<T>
    decreases sorted.len(),
{
    if sorted.len() == 0 || sorted.last().precedes(value) {
        sorted.push(value)
    } else {
        put_ranked(sorted.drop_last(), value).push(sorted.last())
    }
}

/// The values in order.
pub open spec fn ranked<T: Ranked>(values: Seq<T>) -> Seq<T>
    decreases values.len(),
{
    if values.len() == 0 {
        Seq::empty()
    } else {
        put_ranked(ranked(values.drop_last()), values.last())
    }
}

/// Each value comes before the next.
pub open spec fn is_ranked<T: Ranked>(values: Seq<T>) -> bool {
    forall|i: int, j: int|
        0 <= i < values.len() && j == i + 1 && j < values.len() ==> (
        #[trigger] values[i]).precedes(#[trigger] values[j])
}

proof fn put_ranked_is_ranked<T: Ranked>(sorted: Seq<T>, value: T)
    requires
        is_ranked(sorted),
    ensures
        is_ranked(put_ranked(sorted, value)),
        put_ranked(sorted, value).len() == sorted.len() + 1,
        put_ranked(sorted, value).last() == value || (sorted.len() > 0 && put_ranked(
            sorted,
            value,
        ).last() == sorted.last()),
        put_ranked(sorted, value).to_multiset() == sorted.to_multiset().insert(value),
    decreases sorted.len(),
{
    broadcast use vstd::seq_lib::group_to_multiset_ensures;

    if sorted.len() == 0 || sorted.last().precedes(value) {
    } else {
        put_ranked_is_ranked(sorted.drop_last(), value);
        T::comparable(sorted.last(), value);
        let front = put_ranked(sorted.drop_last(), value);
        if sorted.len() > 1 {
            assert(sorted[sorted.len() - 2].precedes(sorted[sorted.len() - 1]));
        }
        assert(front.last().precedes(sorted.last()));
        let all = front.push(sorted.last());
        assert(is_ranked(all)) by {
            assert forall|i: int, j: int|
                0 <= i < all.len() && j == i + 1 && j < all.len() implies (#[trigger] all[i])
                .precedes(#[trigger] all[j]) by {
                if j < front.len() {
                    assert(front[i].precedes(front[j]));
                }
            }
        }
        assert(sorted =~= sorted.drop_last().push(sorted.last()));
        assert(sorted.drop_last().to_multiset().insert(value).insert(sorted.last())
            =~= sorted.drop_last().to_multiset().insert(sorted.last()).insert(value));
    }
}

/// Sorting keeps the values and puts each before the next.
pub proof fn ranked_is_sorted<T: Ranked>(values: Seq<T>)
    ensures
        is_ranked(ranked(values)),
        ranked(values).to_multiset() == values.to_multiset(),
    decreases values.len(),
{
    broadcast use vstd::seq_lib::group_to_multiset_ensures;

    if values.len() > 0 {
        ranked_is_sorted(values.drop_last());
        put_ranked_is_ranked(ranked(values.drop_last()), values.last());
        assert(values =~= values.drop_last().push(values.last()));
    } else {
        assert(values =~= Seq::<T>::empty());
    }
}

/// Two sequences of the same values hold the same values.
pub proof fn same_values<T>(a: Seq<T>, b: Seq<T>)
    requires
        a.to_multiset() == b.to_multiset(),
    ensures
        a.len() == b.len(),
        forall|v: T| #[trigger] a.contains(v) <==> b.contains(v),
{
    broadcast use vstd::seq_lib::group_to_multiset_ensures;

    assert(a.to_multiset().len() == a.len());
    assert(b.to_multiset().len() == b.len());
    assert forall|v: T| #[trigger] a.contains(v) <==> b.contains(v) by {
        assert(a.contains(v) <==> a.to_multiset().count(v) > 0);
        assert(b.contains(v) <==> b.to_multiset().count(v) > 0);
    }
}

fn insert_ranked<T: Ranked>(sorted: &mut Vec<T>, value: T)
    ensures
        final(sorted)@ == put_ranked(old(sorted)@, value),
{
    let ghost given = sorted@;
    let mut at: usize = sorted.len();
    assert(given.take(given.len() as int) =~= given);
    assert(given.skip(given.len() as int) =~= Seq::<T>::empty());
    assert(put_ranked(given, value) =~= put_ranked(given.take(at as int), value) + given.skip(
        at as int,
    ));
    while at > 0 && !sorted[at - 1].comes_first(&value)
        invariant
            at <= sorted@.len(),
            sorted@ == given,
            put_ranked(given, value) == put_ranked(given.take(at as int), value) + given.skip(
                at as int,
            ),
        decreases at,
    {
        proof {
            let head = given.take(at as int);
            assert(head.last() == given[at - 1]);
            assert(head.drop_last() =~= given.take(at - 1));
            assert(put_ranked(head, value) == put_ranked(given.take(at - 1), value).push(
                given[at - 1],
            ));
            assert(put_ranked(given, value) =~= put_ranked(given.take(at - 1), value)
                + given.skip(at - 1));
        }
        at -= 1;
    }
    proof {
        let head = given.take(at as int);
        if at > 0 {
            assert(head.last() == given[at - 1]);
        }
        assert(put_ranked(head, value) == head.push(value));
        assert(given.insert(at as int, value) =~= head.push(value) + given.skip(at as int));
    }
    sorted.insert(at, value);
}

/// Puts values in order.
pub fn sort_ranked<T: Ranked>(values: Vec<T>) -> (res: Vec<T>)
    ensures
        res@ == ranked(values@),
{
    let ghost given = values@;
    let mut left = values;
    let mut turned: Vec<T> = Vec::new();
    while left.len() > 0
        invariant
            given == left@ + turned@.reverse(),
        decreases left@.len(),
    {
        let ghost before = left@;
        let ghost back = turned@;
        if let Some(value) = left.pop() {
            turned.push(value);
            assert(given =~= left@ + turned@.reverse());
        }
    }
    let mut sorted: Vec<T> = Vec::new();
    let ghost mut done: int = 0;
    proof {
        assert(given =~= turned@.reverse());
        assert(given.take(0) =~= Seq::<T>::empty());
    }
    while turned.len() > 0
        invariant
            0 <= done <= given.len(),
            turned@.len() == given.len() - done,
            forall|k: int| 0 <= k < turned@.len() ==> turned@[k] == given[given.len() - 1 - k],
            sorted@ == ranked(given.take(done)),
        decreases turned@.len(),
    {
        if let Some(value) = turned.pop() {
            proof {
                assert(value == given[done]);
                assert(given.take(done + 1).drop_last() =~= given.take(done));
                assert(given.take(done + 1).last() == value);
                done = done + 1;
            }
            insert_ranked(&mut sorted, value);
        }
    }
    assert(given.take(done) =~= given);
    sorted
}

} // verus!
