//! Texts in order.

use vstd::prelude::*;
use vstd::string::*;

use crate::exclusion::texts;
use crate::text::chars_of;

verus! {

/// `a` comes before `b`, or is the same: by the first characters in which they differ, and a
/// text before those that it begins.
pub open spec fn text_le(a: Seq<char>, b: Seq<char>) -> bool
    decreases a.len(),
{
    if a.len() == 0 {
        true
    } else if b.len() == 0 {
        false
    } else if a[0] != b[0] {
        a[0] < b[0]
    } else {
        text_le(a.drop_first(), b.drop_first())
    }
}

/// Any two texts can be compared.
pub proof fn text_le_total(a: Seq<char>, b: Seq<char>)
    ensures
        text_le(a, b) || text_le(b, a),
    decreases a.len(),
{
    if a.len() > 0 && b.len() > 0 && a[0] == b[0] {
        text_le_total(a.drop_first(), b.drop_first());
    }
}

/// What comes before something that comes before a third comes before the third.
pub proof fn text_le_transitive(a: Seq<char>, b: Seq<char>, c: Seq<char>)
    requires
        text_le(a, b),
        text_le(b, c),
    ensures
        text_le(a, c),
    decreases a.len(),
{
    if a.len() > 0 && b.len() > 0 && c.len() > 0 && a[0] == b[0] && b[0] == c[0] {
        text_le_transitive(a.drop_first(), b.drop_first(), c.drop_first());
    }
}

/// Whether a text comes before another, or is the same.
pub fn comes_before(a: &str, b: &str) -> (res: bool)
    ensures
        res == text_le(a@, b@),
{
    let x = chars_of(a);
    let y = chars_of(b);
    let mut i: usize = 0;
    assert(x@.skip(0) =~= x@);
    assert(y@.skip(0) =~= y@);
    while i < x.len() && i < y.len()
        invariant
            i <= x.len(),
            i <= y.len(),
            x@ == a@,
            y@ == b@,
            text_le(a@, b@) == text_le(x@.skip(i as int), y@.skip(i as int)),
        decreases x.len() - i,
    {
        if x[i] != y[i] {
            return x[i] < y[i];
        }
        assert(x@.skip(i as int).drop_first() =~= x@.skip(i + 1));
        assert(y@.skip(i as int).drop_first() =~= y@.skip(i + 1));
        i += 1;
    }
    i == x.len()
}

/// The texts with one more put behind those that come before it.
pub open spec fn put_in_order(sorted: Seq<Seq<char>>, text: Seq<char>) -> Seq<Seq<char>>
    decreases sorted.len(),
{
    if sorted.len() == 0 || text_le(sorted.last(), text) {
        sorted.push(text)
    } else {
        put_in_order(sorted.drop_last(), text).push(sorted.last())
    }
}

/// The texts in order.
pub open spec fn in_order(values: Seq<Seq<char>>) -> Seq<Seq<char>>
    decreases values.len(),
{
    if values.len() == 0 {
        Seq::empty()
    } else {
        put_in_order(in_order(values.drop_last()), values.last())
    }
}

/// Each text comes before those that follow it.
pub open spec fn is_ordered(values: Seq<Seq<char>>) -> bool {
    forall|i: int, j: int| 0 <= i <= j < values.len() ==> text_le(values[i], values[j])
}

proof fn put_keeps_order(sorted: Seq<Seq<char>>, text: Seq<char>)
    requires
        is_ordered(sorted),
    ensures
        is_ordered(put_in_order(sorted, text)),
        put_in_order(sorted, text).to_multiset() == sorted.to_multiset().insert(text),
        put_in_order(sorted, text).len() == sorted.len() + 1,
    decreases sorted.len(),
{
    broadcast use vstd::seq_lib::group_to_multiset_ensures;

    let res = put_in_order(sorted, text);
    if sorted.len() == 0 || text_le(sorted.last(), text) {
        assert forall|i: int, j: int| 0 <= i <= j < res.len() implies text_le(res[i], res[j]) by {
            if j == sorted.len() {
                if i == j {
                    text_le_total(text, text);
                } else {
                    assert(text_le(sorted[i], sorted[sorted.len() - 1]));
                    text_le_transitive(sorted[i], sorted.last(), text);
                }
            }
        }
    } else {
        let front = sorted.drop_last();
        let put = put_in_order(front, text);
        put_keeps_order(front, text);
        text_le_total(sorted.last(), text);
        assert(sorted =~= front.push(sorted.last()));
        assert forall|i: int, j: int| 0 <= i <= j < res.len() implies text_le(res[i], res[j]) by {
            if j == put.len() {
                if i == j {
                    text_le_total(res[i], res[i]);
                } else {
                    assert(put.to_multiset().contains(put[i])) by {
                        assert(put.contains(put[i]));
                    }
                    if put[i] != text {
                        assert(front.to_multiset().contains(put[i]));
                        assert(front.contains(put[i]));
                        let k = choose|k: int| 0 <= k < front.len() && front[k] == put[i];
                        assert(text_le(sorted[k], sorted[sorted.len() - 1]));
                    }
                }
            }
        }
        assert(res.to_multiset() =~= sorted.to_multiset().insert(text));
    }
}

/// To order texts puts each before those that come after it, and neither loses nor adds any.
pub proof fn in_order_is_ordered(values: Seq<Seq<char>>)
    ensures
        is_ordered(in_order(values)),
        in_order(values).to_multiset() == values.to_multiset(),
        in_order(values).len() == values.len(),
    decreases values.len(),
{
    broadcast use vstd::seq_lib::group_to_multiset_ensures;

    if values.len() > 0 {
        in_order_is_ordered(values.drop_last());
        put_keeps_order(in_order(values.drop_last()), values.last());
        assert(values =~= values.drop_last().push(values.last()));
    } else {
        assert(values =~= Seq::empty());
    }
}

fn insert_in_order(sorted: &mut Vec<String>, text: String)
    ensures
        texts(final(sorted)@) == put_in_order(texts(old(sorted)@), text@),
{
    let ghost before = texts(sorted@);
    let mut p: usize = sorted.len();
    proof {
        assert(before.take(p as int) =~= before);
        assert(put_in_order(before.take(p as int), text@) + before.skip(p as int) =~= put_in_order(
            before,
            text@,
        ));
    }
    while p > 0 && !comes_before(sorted[p - 1].as_str(), text.as_str())
        invariant
            p <= sorted@.len(),
            before == texts(sorted@),
            put_in_order(before, text@) == put_in_order(before.take(p as int), text@)
                + before.skip(p as int),
        decreases p,
    {
        proof {
            let head = before.take(p as int);
            assert(head.last() == sorted@[p - 1]@);
            assert(head.drop_last() =~= before.take(p - 1));
            assert(put_in_order(head, text@) + before.skip(p as int) =~= put_in_order(
                head.drop_last(),
                text@,
            ) + before.skip(p - 1));
        }
        p -= 1;
    }
    proof {
        let head = before.take(p as int);
        if p > 0 {
            assert(head.last() == sorted@[p - 1]@);
        }
        assert(put_in_order(head, text@) == head.push(text@));
    }
    let ghost t = text@;
    sorted.insert(p, text);
    assert(texts(sorted@) =~= before.take(p as int).push(t) + before.skip(p as int));
}

/// Puts texts in order.
pub fn sort_texts(values: Vec<String>) -> (res: Vec<String>)
    ensures
        texts(res@) == in_order(texts(values@)),
{
    let mut res: Vec<String> = Vec::new();
    let ghost all = texts(values@);
    let mut i: usize = 0;
    assert(texts(res@) =~= in_order(all.take(0)));
    while i < values.len()
        invariant
            i <= values@.len(),
            all == texts(values@),
            texts(res@) == in_order(all.take(i as int)),
        decreases values@.len() - i,
    {
        proof {
            assert(all.take(i + 1).drop_last() =~= all.take(i as int));
            assert(all.take(i + 1).last() == values@[i as int]@);
        }
        insert_in_order(&mut res, values[i].clone());
        i += 1;
    }
    assert(all.take(all.len() as int) =~= all);
    res
}

/// The first texts, as many as `n`.
pub open spec fn first_n(values: Seq<Seq<char>>, n: int) -> Seq<Seq<char>> {
    if values.len() > n {
        values.take(n)
    } else {
        values
    }
}

/// Keeps the first texts, as many as `n`.
pub fn keep_first(values: Vec<String>, n: usize) -> (res: Vec<String>)
    ensures
        texts(res@) == first_n(texts(values@), n as int),
{
    let mut res = values;
    let ghost before = res@;
    if res.len() > n {
        res.truncate(n);
        assert(texts(res@) =~= texts(before).take(n as int));
    }
    res
}

/// A copy of a vector of texts.
pub fn copy_texts(values: &Vec<String>) -> (res: Vec<String>)
    ensures
        texts(res@) == texts(values@),
{
    let mut res: Vec<String> = Vec::new();
    let mut i: usize = 0;
    while i < values.len()
        invariant
            i <= values@.len(),
            texts(res@) == texts(values@).take(i as int),
        decreases values@.len() - i,
    {
        let ghost before = texts(res@);
        res.push(values[i].clone());
        assert(texts(res@) =~= before.push(values@[i as int]@));
        assert(texts(values@).take(i + 1) =~= texts(values@).take(i as int).push(
            values@[i as int]@,
        ));
        i += 1;
    }
    assert(texts(values@).take(values@.len() as int) =~= texts(values@));
    res
}

/// The texts without those that stand earlier already.
pub open spec fn first_occurrences(values: Seq<Seq<char>>) -> Seq<Seq<char>>
    decreases values.len(),
{
    if values.len() == 0 {
        Seq::empty()
    } else {
        let front = first_occurrences(values.drop_last());
        if front.contains(values.last()) {
            front
        } else {
            front.push(values.last())
        }
    }
}

/// Without those that stand earlier already each text stands once, and none is lost.
pub proof fn occurrences_stand_once(values: Seq<Seq<char>>)
    ensures
        first_occurrences(values).no_duplicates(),
        forall|t: Seq<char>| #[trigger]
            first_occurrences(values).contains(t) <==> values.contains(t),
    decreases values.len(),
{
    if values.len() > 0 {
        let front = values.drop_last();
        let kept = first_occurrences(front);
        occurrences_stand_once(front);
        assert(values =~= front.push(values.last()));
        assert forall|t: Seq<char>| #[trigger]
            first_occurrences(values).contains(t) <==> values.contains(t) by {
            if values.contains(t) {
                let i = choose|i: int| 0 <= i < values.len() && values[i] == t;
                if i < front.len() {
                    assert(front[i] == t);
                    assert(kept.contains(t));
                    let k = choose|k: int| 0 <= k < kept.len() && kept[k] == t;
                    assert(first_occurrences(values)[k] == t);
                } else if !kept.contains(t) {
                    assert(kept.push(t)[kept.len() as int] == t);
                }
            }
            if first_occurrences(values).contains(t) {
                let k = choose|k: int|
                    0 <= k < first_occurrences(values).len() && first_occurrences(values)[k] == t;
                if k < kept.len() {
                    assert(kept[k] == t);
                    assert(kept.contains(t));
                    assert(front.contains(t));
                    let i = choose|i: int| 0 <= i < front.len() && front[i] == t;
                    assert(values[i] == t);
                } else {
                    assert(values[values.len() - 1] == t);
                }
            }
        }
    }
}

/// Drops the texts that stand earlier already.
pub fn drop_repeated(values: Vec<String>) -> (res: Vec<String>)
    ensures
        texts(res@) == first_occurrences(texts(values@)),
{
    let mut res: Vec<String> = Vec::new();
    let ghost all = texts(values@);
    let mut i: usize = 0;
    assert(texts(res@) =~= first_occurrences(all.take(0)));
    while i < values.len()
        invariant
            i <= values@.len(),
            all == texts(values@),
            texts(res@) == first_occurrences(all.take(i as int)),
        decreases values@.len() - i,
    {
        let ghost before = texts(res@);
        proof {
            assert(all.take(i + 1).drop_last() =~= all.take(i as int));
            assert(all.take(i + 1).last() == values@[i as int]@);
        }
        if !has_same(&res, values[i].as_str()) {
            res.push(values[i].clone());
            assert(texts(res@) =~= before.push(values@[i as int]@));
        }
        i += 1;
    }
    assert(all.take(all.len() as int) =~= all);
    res
}

fn has_same(values: &Vec<String>, text: &str) -> (res: bool)
    ensures
        res == texts(values@).contains(text@),
{
    let mut i: usize = 0;
    while i < values.len()
        invariant
            i <= values@.len(),
            forall|k: int| 0 <= k < i ==> texts(values@)[k] != text@,
        decreases values@.len() - i,
    {
        assert(texts(values@)[i as int] == values@[i as int]@);
        if crate::text::same_text(values[i].as_str(), text) {
            return true;
        }
        i += 1;
    }
    false
}

/// Pairs of a text to order by and another text.
pub open spec fn pair_texts(values: Seq<(String, String)>) -> Seq<(Seq<char>, Seq<char>)> {
    values.map_values(|p: (String, String)| (p.0@, p.1@))
}

/// The pairs with one more put behind those whose first texts come before its own.
pub open spec fn put_pair_in_order(
    sorted: Seq<(Seq<char>, Seq<char>)>,
    pair: (Seq<char>, Seq<char>),
) -> Seq<(Seq<char>, Seq<char>)>
    decreases sorted.len(),
{
    if sorted.len() == 0 || text_le(sorted.last().0, pair.0) {
        sorted.push(pair)
    } else {
        put_pair_in_order(sorted.drop_last(), pair).push(sorted.last())
    }
}

/// The pairs in the order of their first texts.
pub open spec fn pairs_in_order(values: Seq<(Seq<char>, Seq<char>)>) -> Seq<(Seq<char>, Seq<char>)>
    decreases values.len(),
{
    if values.len() == 0 {
        Seq::empty()
    } else {
        put_pair_in_order(pairs_in_order(values.drop_last()), values.last())
    }
}

/// The second texts of pairs.
pub open spec fn second_texts(values: Seq<(Seq<char>, Seq<char>)>) -> Seq<Seq<char>> {
    values.map_values(|p: (Seq<char>, Seq<char>)| p.1)
}

fn insert_pair_in_order(sorted: &mut Vec<(String, String)>, pair: (String, String))
    ensures
        pair_texts(final(sorted)@) == put_pair_in_order(
            pair_texts(old(sorted)@),
            (pair.0@, pair.1@),
        ),
{
    let ghost before = pair_texts(sorted@);
    let ghost t = (pair.0@, pair.1@);
    let mut p: usize = sorted.len();
    proof {
        assert(before.take(p as int) =~= before);
        assert(put_pair_in_order(before.take(p as int), t) + before.skip(p as int)
            =~= put_pair_in_order(before, t));
    }
    while p > 0 && !comes_before(sorted[p - 1].0.as_str(), pair.0.as_str())
        invariant
            p <= sorted@.len(),
            before == pair_texts(sorted@),
            t == (pair.0@, pair.1@),
            put_pair_in_order(before, t) == put_pair_in_order(before.take(p as int), t)
                + before.skip(p as int),
        decreases p,
    {
        proof {
            let head = before.take(p as int);
            assert(head.last() == (sorted@[p - 1].0@, sorted@[p - 1].1@));
            assert(head.drop_last() =~= before.take(p - 1));
            assert(put_pair_in_order(head, t) + before.skip(p as int) =~= put_pair_in_order(
                head.drop_last(),
                t,
            ) + before.skip(p - 1));
        }
        p -= 1;
    }
    proof {
        let head = before.take(p as int);
        if p > 0 {
            assert(head.last() == (sorted@[p - 1].0@, sorted@[p - 1].1@));
        }
        assert(put_pair_in_order(head, t) == head.push(t));
    }
    sorted.insert(p, pair);
    assert(pair_texts(sorted@) =~= before.take(p as int).push(t) + before.skip(p as int));
}

/// Puts pairs in the order of their first texts, and gives the second ones.
pub fn sort_by_first(values: Vec<(String, String)>) -> (res: Vec<String>)
    ensures
        texts(res@) == second_texts(pairs_in_order(pair_texts(values@))),
{
    let mut sorted: Vec<(String, String)> = Vec::new();
    let ghost all = pair_texts(values@);
    let mut i: usize = 0;
    assert(pair_texts(sorted@) =~= pairs_in_order(all.take(0)));
    while i < values.len()
        invariant
            i <= values@.len(),
            all == pair_texts(values@),
            pair_texts(sorted@) == pairs_in_order(all.take(i as int)),
        decreases values@.len() - i,
    {
        proof {
            assert(all.take(i + 1).drop_last() =~= all.take(i as int));
            assert(all.take(i + 1).last() == (values@[i as int].0@, values@[i as int].1@));
        }
        insert_pair_in_order(&mut sorted, (values[i].0.clone(), values[i].1.clone()));
        i += 1;
    }
    assert(all.take(all.len() as int) =~= all);
    let mut res: Vec<String> = Vec::new();
    let ghost goal = second_texts(pair_texts(sorted@));
    let mut k: usize = 0;
    while k < sorted.len()
        invariant
            k <= sorted@.len(),
            goal == second_texts(pair_texts(sorted@)),
            texts(res@) == goal.take(k as int),
        decreases sorted@.len() - k,
    {
        let ghost before = texts(res@);
        res.push(sorted[k].1.clone());
        proof {
            assert(texts(res@) =~= before.push(sorted@[k as int].1@));
            assert(goal[k as int] == sorted@[k as int].1@);
            assert(goal.take(k + 1) =~= goal.take(k as int).push(goal[k as int]));
        }
        k += 1;
    }
    assert(goal.take(goal.len() as int) =~= goal);
    res
}

} // verus!
