//! A small map from keys to values that remembers the order of insertion.

use vstd::prelude::*;

verus! {

/// A key of a [`Table`]. What its view says beyond `key_of` does not tell it from other keys.
pub trait TableKey: View + Sized {
    /// What tells keys apart.
    type Key;

    /// That by which a key is the same as another.
    spec fn key_of(view: Self::V) -> Self::Key;

    /// Whether two keys are the same.
    fn same(&self, other: &Self) -> (res: bool)
        ensures
            res == (Self::key_of(self@) == Self::key_of(other@)),
    ;
}

/// A map in which each key stands once, in the order in which it came.
pub struct Table<K: TableKey, T> {
    pub keys: Vec<K>,
    pub values: Vec<T>,
}

/// What a [`Table`] holds: for each key that it has, the key as it was stored first, and its
/// value.
#[verifier::ext_equal]
#[verifier::reject_recursive_types(K)]
pub struct Entries<K: TableKey, T> {
    pub map: Map<K::Key, (K::V, T)>,
}

impl<K: TableKey, T> Entries<K, T> {
    /// No key has a value.
    pub open spec fn empty() -> Self {
        Entries { map: Map::empty() }
    }

    /// The keys that have a value.
    pub open spec fn keys(self) -> Set<K::Key> {
        self.map.dom()
    }

    /// The number of keys.
    pub open spec fn len(self) -> nat {
        self.map.dom().len()
    }

    /// A key has a value.
    pub open spec fn contains_key(self, key: K::V) -> bool {
        self.map.contains_key(K::key_of(key))
    }

    /// The value of a key.
    pub open spec fn spec_index(self, key: K::V) -> T {
        self.map[K::key_of(key)].1
    }

    /// A key as it is stored.
    pub open spec fn stored(self, key: K::V) -> K::V {
        self.map[K::key_of(key)].0
    }

    /// The entries after a key was given a value. A key that is there stays as it is stored.
    pub open spec fn insert(self, key: K::V, value: T) -> Self {
        let kept = if self.contains_key(key) {
            self.stored(key)
        } else {
            key
        };
        Entries { map: self.map.insert(K::key_of(key), (kept, value)) }
    }

    /// The entries without a key.
    pub open spec fn remove(self, key: K::V) -> Self {
        Entries { map: self.map.remove(K::key_of(key)) }
    }

    /// The entries without some keys.
    pub open spec fn remove_keys(self, keys: Set<K::Key>) -> Self {
        Entries { map: self.map.remove_keys(keys) }
    }

    /// The entries of some keys.
    pub open spec fn restrict(self, keys: Set<K::Key>) -> Self {
        Entries { map: self.map.restrict(keys) }
    }

    /// The entries with other values in place of theirs.
    pub open spec fn map_values<U>(self, f: spec_fn(T) -> U) -> Entries<K, U> {
        Entries { map: self.map.map_values(|e: (K::V, T)| (e.0, f(e.1))) }
    }
}

/// The entries for which `kept` holds.
pub open spec fn filtered<K: TableKey, T>(
    entries: Entries<K, T>,
    kept: spec_fn(K::V, T) -> bool,
) -> Entries<K, T> {
    entries.restrict(
        Set::new(
            |k: K::Key| entries.map.contains_key(k) && kept(entries.map[k].0, entries.map[k].1),
        ),
    )
}

/// The elements for which `chosen` holds, in order.
pub open spec fn selected<A>(s: Seq<A>, chosen: spec_fn(A) -> bool) -> Seq<A>
    decreases s.len(),
{
    if s.len() == 0 {
        Seq::empty()
    } else {
        let front = selected(s.drop_last(), chosen);
        if chosen(s.last()) {
            front.push(s.last())
        } else {
            front
        }
    }
}

/// An element is selected exactly if it is there and chosen.
pub proof fn selected_contains<A>(s: Seq<A>, chosen: spec_fn(A) -> bool)
    ensures
        forall|a: A| #[trigger] selected(s, chosen).contains(a) <==> s.contains(a) && chosen(a),
    decreases s.len(),
{
    if s.len() > 0 {
        let front = s.drop_last();
        selected_contains(front, chosen);
        assert forall|a: A| #[trigger] selected(s, chosen).contains(a) <==> s.contains(a) && chosen(
            a,
        ) by {
            assert(s =~= front.push(s.last()));
            if selected(s, chosen).contains(a) {
                let i = choose|i: int|
                    0 <= i < selected(s, chosen).len() && selected(s, chosen)[i] == a;
                if i < selected(front, chosen).len() {
                    assert(selected(front, chosen)[i] == a);
                    assert(selected(front, chosen).contains(a));
                    let j = choose|j: int| 0 <= j < front.len() && front[j] == a;
                    assert(s[j] == a);
                } else {
                    assert(a == s.last());
                    assert(s[s.len() - 1] == a);
                }
            }
            if s.contains(a) && chosen(a) {
                let j = choose|j: int| 0 <= j < s.len() && s[j] == a;
                if j < front.len() {
                    assert(front[j] == a);
                    assert(front.contains(a));
                    assert(selected(front, chosen).contains(a));
                    let i = choose|i: int|
                        0 <= i < selected(front, chosen).len() && selected(front, chosen)[i] == a;
                    assert(selected(s, chosen)[i] == a);
                } else {
                    assert(selected(s, chosen).last() == a);
                    assert(selected(s, chosen)[selected(s, chosen).len() - 1] == a);
                }
            }
        }
    }
}

/// What is selected from distinct elements is distinct.
pub proof fn selected_distinct<A>(s: Seq<A>, chosen: spec_fn(A) -> bool)
    requires
        s.no_duplicates(),
    ensures
        selected(s, chosen).no_duplicates(),
    decreases s.len(),
{
    if s.len() > 0 {
        let front = s.drop_last();
        selected_distinct(front, chosen);
        selected_contains(front, chosen);
        assert forall|i: int, j: int|
            0 <= i < selected(s, chosen).len() && 0 <= j < selected(s, chosen).len() && i
                != j implies selected(s, chosen)[i] != selected(s, chosen)[j] by {
            let f = selected(front, chosen);
            if i < f.len() {
                assert(f.contains(f[i]));
                let k = choose|k: int| 0 <= k < front.len() && front[k] == f[i];
                assert(s[k] == f[i]);
            }
            if j < f.len() {
                assert(f.contains(f[j]));
                let k = choose|k: int| 0 <= k < front.len() && front[k] == f[j];
                assert(s[k] == f[j]);
            }
        }
    }
}

proof fn removed_entry<K: TableKey, T>(before: Table<K, T>, after: Table<K, T>, i: int)
    requires
        before.wf(),
        0 <= i < before.keys@.len(),
        after.keys@ == before.keys@.remove(i),
        after.values@ == before.values@.remove(i),
    ensures
        after.wf(),
        after@ == before@.remove(before.keys@[i]@),
        after.order() == before.order().remove(i),
{
    let key = K::key_of(before.keys@[i]@);
    before.entries();
    assert(after.order() =~= before.order().remove(i));
    assert(after.key_order() =~= before.key_order().remove(i));
    assert(before.key_order()[i] == key);
    assert forall|a: int, b: int|
        0 <= a < after.key_order().len() && 0 <= b < after.key_order().len() && a
            != b implies after.key_order()[a] != after.key_order()[b] by {
        let a1 = if a < i { a } else { a + 1 };
        let b1 = if b < i { b } else { b + 1 };
        assert(after.key_order()[a] == before.key_order()[a1]);
        assert(after.key_order()[b] == before.key_order()[b1]);
    }
    after.entries();
    let goal = before@.map.remove(key);
    assert forall|k: K::Key| goal.contains_key(k) implies #[trigger] after@.map.contains_key(k) by {
        let j = before.key_order().index_of(k);
        assert(before.key_order()[j] == k);
        if j < i {
            assert(after.key_order()[j] == k);
        } else {
            assert(j != i);
            assert(after.key_order()[j - 1] == k);
        }
    }
    assert forall|k: K::Key| #[trigger] after@.map.contains_key(k) implies goal.contains_key(k)
        && after@.map[k] == goal[k] by {
        let j = after.key_order().index_of(k);
        assert(after.key_order()[j] == k);
        let j1 = if j < i { j } else { j + 1 };
        assert(after.keys@[j] == before.keys@[j1]);
        assert(before.key_order()[j1] == k);
        assert(before@.contains_key(before.keys@[j1]@));
        assert(after@.contains_key(after.keys@[j]@));
        assert(j1 != i);
        assert(k != key);
    }
    assert(after@.map =~= goal);
}

impl<K: TableKey, T> View for Table<K, T> {
    type V = Entries<K, T>;

    closed spec fn view(&self) -> Entries<K, T> {
        Entries {
            map: Map::new(
                |k: K::Key| self.key_order().contains(k),
                |k: K::Key|
                    (
                        self.keys@[self.key_order().index_of(k)]@,
                        self.values@[self.key_order().index_of(k)],
                    ),
            ),
        }
    }
}

impl<K: TableKey, T> Table<K, T> {
    /// The keys in order, as they are stored.
    pub open spec fn order(&self) -> Seq<K::V> {
        self.keys@.map_values(|k: K| k@)
    }

    /// What tells the keys apart, in order.
    pub open spec fn key_order(&self) -> Seq<K::Key> {
        self.keys@.map_values(|k: K| K::key_of(k@))
    }

    /// Each key has one value and stands once.
    pub closed spec fn wf(&self) -> bool {
        &&& self.keys@.len() == self.values@.len()
        &&& self.key_order().no_duplicates()
    }

    /// The map of a well-formed table has one entry for each position.
    pub proof fn entries(&self)
        requires
            self.wf(),
        ensures
            self.keys@.len() == self.values@.len(),
            self.key_order().no_duplicates(),
            self.order().no_duplicates(),
            self@.keys() == self.key_order().to_set(),
            self@.keys().finite(),
            self@.len() == self.keys@.len(),
            forall|i: int|
                0 <= i < self.keys@.len() ==> #[trigger] self@.contains_key(self.keys@[i]@)
                    && self@[self.keys@[i]@] == self.values@[i] && self@.stored(self.keys@[i]@)
                    == self.keys@[i]@,
            forall|k: K::V|
                #[trigger] self@.contains_key(k) ==> exists|i: int|
                    0 <= i < self.keys@.len() && K::key_of((#[trigger] self.keys@[i])@) == K::key_of(k)
                        && self@[k] == self.values@[i] && self@.stored(k) == self.keys@[i]@,
            forall|k: K::Key|
                #[trigger] self@.map.contains_key(k) ==> exists|i: int|
                    0 <= i < self.keys@.len() && K::key_of((#[trigger] self.keys@[i])@) == k && self@.map[k] == (
                        self.keys@[i]@,
                        self.values@[i],
                    ),
    {
        let order = self.key_order();
        assert(self@.map.dom() =~= order.to_set());
        order.unique_seq_to_set();
        assert(self.order().no_duplicates()) by {
            assert forall|i: int, j: int|
                0 <= i < self.order().len() && 0 <= j < self.order().len() && i
                    != j implies self.order()[i] != self.order()[j] by {
                assert(order[i] == K::key_of(self.order()[i]));
                assert(order[j] == K::key_of(self.order()[j]));
            }
        }
        assert forall|i: int| 0 <= i < self.keys@.len() implies #[trigger] self@.contains_key(
            self.keys@[i]@,
        ) && self@[self.keys@[i]@] == self.values@[i] && self@.stored(self.keys@[i]@)
            == self.keys@[i]@ by {
            assert(order[i] == K::key_of(self.keys@[i]@));
            assert(order.contains(order[i]));
            assert(order.index_of(order[i]) == i);
        }
        assert forall|k: K::V| #[trigger] self@.contains_key(k) implies exists|i: int|
            0 <= i < self.keys@.len() && K::key_of((#[trigger] self.keys@[i])@) == K::key_of(k) && self@[k]
                == self.values@[i] && self@.stored(k) == self.keys@[i]@ by {
            let i = order.index_of(K::key_of(k));
            assert(order[i] == K::key_of(k));
            assert(K::key_of(self.keys@[i]@) == K::key_of(k));
        }
        assert forall|k: K::Key| #[trigger] self@.map.contains_key(k) implies exists|i: int|
            0 <= i < self.keys@.len() && K::key_of((#[trigger] self.keys@[i])@) == k && self@.map[k] == (
                self.keys@[i]@,
                self.values@[i],
            ) by {
            let i = order.index_of(k);
            assert(order[i] == k);
            assert(K::key_of(self.keys@[i]@) == k);
        }
    }

    /// An empty table.
    pub fn new() -> (res: Self)
        ensures
            res.wf(),
            res@ == Entries::<K, T>::empty(),
            res.keys@.len() == 0,
    {
        let res = Table { keys: Vec::new(), values: Vec::new() };
        assert(res@.map =~= Map::empty());
        res
    }

    /// The position of a key.
    pub fn find(&self, key: &K) -> (res: Option<usize>)
        requires
            self.wf(),
        ensures
            match res {
                Some(i) => i < self.keys@.len() && K::key_of(self.keys@[i as int]@) == K::key_of(
                    key@,
                ) && self@.contains_key(key@) && self@[key@] == self.values@[i as int]
                    && self@.stored(key@) == self.keys@[i as int]@,
                None => !self@.contains_key(key@),
            },
    {
        proof {
            self.entries();
        }
        let mut i: usize = 0;
        while i < self.keys.len()
            invariant
                i <= self.keys.len(),
                self.wf(),
                forall|j: int| 0 <= j < i ==> K::key_of(self.keys@[j]@) != K::key_of(key@),
            decreases self.keys.len() - i,
        {
            if self.keys[i].same(key) {
                proof {
                    self.entries();
                    assert(self@.contains_key(self.keys@[i as int]@));
                }
                return Some(i);
            }
            i += 1;
        }
        None
    }

    /// Whether a key has a value.
    pub fn contains_key(&self, key: &K) -> (res: bool)
        requires
            self.wf(),
        ensures
            res == self@.contains_key(key@),
    {
        match self.find(key) {
            Some(_) => true,
            None => false,
        }
    }

    /// The value of a key.
    pub fn get(&self, key: &K) -> (res: Option<&T>)
        requires
            self.wf(),
        ensures
            match res {
                Some(v) => self@.contains_key(key@) && *v == self@[key@],
                None => !self@.contains_key(key@),
            },
    {
        match self.find(key) {
            Some(i) => Some(&self.values[i]),
            None => None,
        }
    }

    /// Gives a key a value, in place of the one it had. A key that is there stays as it is
    /// stored.
    pub fn insert(&mut self, key: K, value: T)
        requires
            old(self).wf(),
        ensures
            final(self).wf(),
            final(self)@ == old(self)@.insert(key@, value),
            final(self).keys@ == if old(self)@.contains_key(key@) {
                old(self).keys@
            } else {
                old(self).keys@.push(key)
            },
            final(self).order() == if old(self)@.contains_key(key@) {
                old(self).order()
            } else {
                old(self).order().push(key@)
            },
            !old(self)@.contains_key(key@) ==> final(self).values@ == old(self).values@.push(value),
    {
        proof {
            self.entries();
        }
        let ghost before = *self;
        let ghost k0 = K::key_of(key@);
        let ghost goal = before@.insert(key@, value).map;
        match self.find(&key) {
            Some(i) => {
                self.values.set(i, value);
                proof {
                    assert(self.order() =~= before.order());
                    assert(self.key_order() =~= before.key_order());
                    self.entries();
                    assert(before.key_order()[i as int] == k0);
                    assert forall|k: K::Key| #[trigger] self@.map.contains_key(k) implies self@.map[k]
                        == goal[k] by {
                        let j = before.key_order().index_of(k);
                        assert(before.key_order()[j] == k);
                    }
                    assert(self@.map =~= goal);
                }
            },
            None => {
                let ghost whole = key;
                self.keys.push(key);
                self.values.push(value);
                proof {
                    assert(self.order() =~= before.order().push(whole@));
                    assert(self.key_order() =~= before.key_order().push(k0));
                    assert forall|i: int, j: int|
                        0 <= i < self.key_order().len() && 0 <= j < self.key_order().len() && i
                            != j implies self.key_order()[i] != self.key_order()[j] by {
                        if i < before.keys@.len() {
                            assert(before.key_order().contains(before.key_order()[i]));
                        }
                        if j < before.keys@.len() {
                            assert(before.key_order().contains(before.key_order()[j]));
                        }
                    }
                    self.entries();
                    let n = before.keys@.len() as int;
                    assert(self.key_order()[n] == k0);
                    assert(self@.contains_key(self.keys@[n]@));
                    assert forall|k: K::Key| goal.contains_key(
                        k,
                    ) implies #[trigger] self@.map.contains_key(k) by {
                        if k != k0 {
                            let j = before.key_order().index_of(k);
                            assert(self.key_order()[j] == k);
                        }
                    }
                    assert forall|k: K::Key| #[trigger]
                        self@.map.contains_key(k) implies goal.contains_key(k) && self@.map[k]
                        == goal[k] by {
                        let j = self.key_order().index_of(k);
                        assert(self.key_order()[j] == k);
                        assert(self@.contains_key(self.keys@[j]@));
                        if j < n {
                            assert(before.key_order()[j] == k);
                            assert(before.keys@[j] == self.keys@[j]);
                            assert(before@.contains_key(before.keys@[j]@));
                        }
                    }
                    assert(self@.map =~= goal);
                }
            },
        }
    }

    /// Gives the key at a position another value.
    pub fn set_at(&mut self, i: usize, value: T)
        requires
            old(self).wf(),
            i < old(self).keys@.len(),
        ensures
            final(self).wf(),
            final(self).keys@ == old(self).keys@,
            final(self).values@ == old(self).values@.update(i as int, value),
            final(self)@ == old(self)@.insert(old(self).keys@[i as int]@, value),
    {
        let ghost before = *self;
        proof {
            self.entries();
        }
        self.values.set(i, value);
        proof {
            assert(self.key_order() =~= before.key_order());
            self.entries();
            let goal = before@.insert(before.keys@[i as int]@, value).map;
            assert(before.key_order()[i as int] == K::key_of(before.keys@[i as int]@));
            assert(before@.contains_key(before.keys@[i as int]@));
            assert forall|k: K::Key| #[trigger] self@.map.contains_key(k) implies self@.map[k]
                == goal[k] by {
                let j = before.key_order().index_of(k);
                assert(before.key_order()[j] == k);
            }
            assert(self@.map =~= goal);
        }
    }

    /// Takes a key out, and gives the value that it had.
    pub fn remove(&mut self, key: &K) -> (res: Option<T>)
        requires
            old(self).wf(),
        ensures
            final(self).wf(),
            final(self)@ == old(self)@.remove(key@),
            match res {
                Some(v) => old(self)@.contains_key(key@) && v == old(self)@[key@],
                None => !old(self)@.contains_key(key@) && *final(self) == *old(self),
            },
            match res {
                Some(v) => exists|i: int| #[trigger]
                    is_at(*old(self), key@, i) && final(self).keys@ == old(self).keys@.remove(i)
                        && final(self).values@ == old(self).values@.remove(i),
                None => true,
            },
    {
        let ghost before = *self;
        proof {
            self.entries();
        }
        match self.find(key) {
            Some(i) => {
                self.keys.remove(i);
                let value = self.values.remove(i);
                proof {
                    removed_entry(before, *self, i as int);
                    assert(is_at(before, key@, i as int));
                }
                Some(value)
            },
            None => {
                assert(self@.map =~= before@.remove(key@).map);
                None
            },
        }
    }

    /// Takes the entry at a position out.
    pub fn remove_at(&mut self, i: usize) -> (res: (K, T))
        requires
            old(self).wf(),
            i < old(self).keys@.len(),
        ensures
            final(self).wf(),
            res.0 == old(self).keys@[i as int],
            res.1 == old(self).values@[i as int],
            final(self).keys@ == old(self).keys@.remove(i as int),
            final(self).values@ == old(self).values@.remove(i as int),
            final(self)@ == old(self)@.remove(res.0@),
    {
        let ghost before = *self;
        proof {
            self.entries();
        }
        let key = self.keys.remove(i);
        let value = self.values.remove(i);
        proof {
            removed_entry(before, *self, i as int);
        }
        (key, value)
    }

    /// Keeps the entries for which `keep` holds.
    pub(crate) fn retain<F: Fn(&K, &T) -> bool>(
        &mut self,
        keep: F,
        Ghost(kept): Ghost<spec_fn(K::V, T) -> bool>,
    )
        requires
            old(self).wf(),
            forall|k: &K, v: &T| #[trigger] keep.requires((k, v)),
            forall|k: &K, v: &T, r: bool| #[trigger]
                keep.ensures((k, v), r) ==> r == kept(k@, *v),
        ensures
            final(self).wf(),
            final(self)@ == filtered(old(self)@, kept),
    {
        let ghost before = *self;
        let mut i: usize = 0;
        while i < self.keys.len()
            invariant
                i <= self.keys@.len(),
                self.wf(),
                forall|k: &K, v: &T| #[trigger] keep.requires((k, v)),
                forall|k: &K, v: &T, r: bool| #[trigger]
                    keep.ensures((k, v), r) ==> r == kept(k@, *v),
                forall|k: K::Key| #[trigger]
                    self@.map.contains_key(k) ==> before@.map.contains_key(k) && self@.map[k]
                        == before@.map[k],
                forall|k: K::Key|
                    before@.map.contains_key(k) && !#[trigger] self@.map.contains_key(k) ==> !kept(
                        before@.map[k].0,
                        before@.map[k].1,
                    ),
                forall|j: int|
                    0 <= j < i ==> kept((#[trigger] self.keys@[j])@, self.values@[j]),
            decreases self.keys@.len() - i,
        {
            proof {
                self.entries();
                assert(self@.contains_key(self.keys@[i as int]@));
            }
            if keep(&self.keys[i], &self.values[i]) {
                i += 1;
            } else {
                let _removed = self.remove_at(i);
            }
        }
        proof {
            self.entries();
            assert forall|k: K::Key| #[trigger] self@.map.contains_key(k) implies kept(
                self@.map[k].0,
                self@.map[k].1,
            ) by {
                let j = choose|j: int|
                    0 <= j < self.keys@.len() && K::key_of((#[trigger] self.keys@[j])@) == k && self@.map[k] == (
                        self.keys@[j]@,
                        self.values@[j],
                    );
                assert(kept(self.keys@[j]@, self.values@[j]));
            }
            assert(self@.map =~= filtered(before@, kept).map);
        }
    }

    /// Takes out the keys that another table has.
    pub fn remove_keys_of<U>(&mut self, other: &Table<K, U>)
        requires
            old(self).wf(),
            other.wf(),
        ensures
            final(self).wf(),
            final(self)@ == old(self)@.remove_keys(other@.keys()),
    {
        let ghost before = *self;
        let keep = |k: &K, _v: &T| -> (res: bool)
            requires
                other.wf(),
            ensures
                res == !other@.contains_key(k@),
            { !other.contains_key(k) };
        self.retain(keep, Ghost(|k: K::V, _v: T| !other@.contains_key(k)));
        proof {
            before.entries();
            assert(self@.map =~= before@.remove_keys(other@.keys()).map);
        }
    }

    /// Whether two tables have a key in common.
    pub fn meets<U>(&self, other: &Table<K, U>) -> (res: bool)
        requires
            self.wf(),
            other.wf(),
        ensures
            res == exists|k: K::V| #[trigger] self@.contains_key(k) && other@.contains_key(k),
    {
        proof {
            self.entries();
        }
        let mut i: usize = 0;
        while i < self.keys.len()
            invariant
                i <= self.keys@.len(),
                self.wf(),
                other.wf(),
                forall|j: int| 0 <= j < i ==> !other@.contains_key((#[trigger] self.keys@[j])@),
            decreases self.keys@.len() - i,
        {
            if other.contains_key(&self.keys[i]) {
                proof {
                    self.entries();
                    assert(self@.contains_key(self.keys@[i as int]@));
                }
                return true;
            }
            i += 1;
        }
        proof {
            self.entries();
            assert forall|k: K::V| #[trigger] self@.contains_key(k) implies !other@.contains_key(
                k,
            ) by {
                let j = choose|j: int|
                    0 <= j < self.keys@.len() && K::key_of((#[trigger] self.keys@[j])@) == K::key_of(
                        k,
                    );
                assert(!other@.contains_key(self.keys@[j]@));
            }
        }
        false
    }

    /// The number of keys.
    pub fn len(&self) -> (res: usize)
        requires
            self.wf(),
        ensures
            res == self@.len(),
            res == self.keys@.len(),
    {
        proof {
            self.entries();
        }
        self.keys.len()
    }

    /// Whether there is no key.
    pub fn is_empty(&self) -> (res: bool)
        requires
            self.wf(),
        ensures
            res == (self@ == Entries::<K, T>::empty()),
            res == (self.keys@.len() == 0),
            res == (self@.len() == 0),
    {
        proof {
            self.entries();
            if self.keys@.len() == 0 {
                assert(self@.map =~= Map::empty());
            } else {
                assert(self@.contains_key(self.keys@[0]@));
            }
        }
        self.keys.len() == 0
    }

    /// Takes every key out.
    pub fn clear(&mut self)
        ensures
            final(self).wf(),
            final(self)@ == Entries::<K, T>::empty(),
            final(self).keys@.len() == 0,
    {
        self.keys.clear();
        self.values.clear();
        assert(self@.map =~= Map::empty());
    }
}

/// Tables with keys that are stored alike hold alike what is made alike of their values.
pub proof fn mapped_alike<K: TableKey, T, U>(
    a: Table<K, T>,
    b: Table<K, T>,
    f: spec_fn(T) -> U,
    g: spec_fn(T) -> U,
)
    requires
        a.wf(),
        b.wf(),
        a.order() == b.order(),
        forall|i: int| 0 <= i < a.keys@.len() ==> f(#[trigger] a.values@[i]) == g(b.values@[i]),
    ensures
        a@.map_values(f) == b@.map_values(g),
{
    a.entries();
    b.entries();
    assert(a.keys@.len() == b.keys@.len()) by {
        assert(a.order().len() == a.keys@.len());
        assert(b.order().len() == b.keys@.len());
    }
    assert forall|i: int| 0 <= i < a.keys@.len() implies (#[trigger] a.keys@[i])@ == b.keys@[i]@ by {
        assert(a.order()[i] == a.keys@[i]@);
        assert(b.order()[i] == b.keys@[i]@);
    }
    assert forall|i: int| 0 <= i < a.key_order().len() implies #[trigger] a.key_order()[i]
        == b.key_order()[i] by {
        assert(a.keys@[i]@ == b.keys@[i]@);
    }
    assert(a.key_order() =~= b.key_order());
    assert forall|k: K::Key| #[trigger] a@.map.contains_key(k) implies a@.map_values(f).map[k]
        == b@.map_values(g).map[k] by {
        let i = choose|i: int|
            0 <= i < a.keys@.len() && K::key_of((#[trigger] a.keys@[i])@) == k && a@.map[k] == (
                a.keys@[i]@,
                a.values@[i],
            );
        assert(b@.contains_key(b.keys@[i]@));
        assert(f(a.values@[i]) == g(b.values@[i]));
    }
    assert(a@.map_values(f).map =~= b@.map_values(g).map);
}

/// Tables with keys that are stored alike and the same values hold the same.
pub proof fn held_alike<K: TableKey, T>(a: Table<K, T>, b: Table<K, T>)
    requires
        a.wf(),
        b.wf(),
        a.order() == b.order(),
        a.values@ == b.values@,
    ensures
        a@ == b@,
{
    let same = |v: T| v;
    mapped_alike(a, b, same, same);
    assert(a@.map =~= a@.map_values(same).map);
    assert(b@.map =~= b@.map_values(same).map);
}

/// A key stands at a position of a table.
pub open spec fn is_at<K: TableKey, T>(table: Table<K, T>, key: K::V, i: int) -> bool {
    0 <= i < table.keys@.len() && K::key_of(table.keys@[i]@) == K::key_of(key)
}

} // verus!
