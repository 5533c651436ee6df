//! A table of state records by text identifier: what the user interface keeps
//! for each form, control, timer and the like.

use vstd::prelude::*;

verus! {

/// The map that a list of entries stands for: a later entry with the same
/// key stands over an earlier one.
pub open spec fn key_map<T>(s: Seq<(String, T)>) -> Map<Seq<char>, T>
    decreases s.len(),
{
    if s.len() == 0 {
        Map::empty()
    } else {
        key_map(s.drop_last()).insert(s.last().0@, s.last().1)
    }
}

/// Entry `i` is the last one with its key.
pub open spec fn last_of_key<T>(s: Seq<(String, T)>, i: int) -> bool {
    &&& 0 <= i < s.len()
    &&& forall|j: int| i < j < s.len() ==> (#[trigger] s[j]).0@ != s[i].0@
}

/// The entries whose key is not `k`, in order.
pub open spec fn without_key<T>(s: Seq<(String, T)>, k: Seq<char>) -> Seq<(String, T)>
    decreases s.len(),
{
    if s.len() == 0 {
        s
    } else if s.last().0@ == k {
        without_key(s.drop_last(), k)
    } else {
        without_key(s.drop_last(), k).push(s.last())
    }
}

/// A key is in the map when some entry has it.
pub proof fn lemma_key_map_contains<T>(s: Seq<(String, T)>, k: Seq<char>)
    ensures
        key_map(s).contains_key(k) <==> exists|j: int| 0 <= j < s.len() && (#[trigger] s[j]).0@ == k,
    decreases s.len(),
{
    if s.len() > 0 {
        let t = s.drop_last();
        lemma_key_map_contains(t, k);
        if key_map(s).contains_key(k) {
            if s.last().0@ == k {
                assert(s[s.len() - 1].0@ == k);
            } else {
                let j = choose|j: int| 0 <= j < t.len() && (#[trigger] t[j]).0@ == k;
                assert(s[j] == t[j]);
            }
        }
        if exists|j: int| 0 <= j < s.len() && (#[trigger] s[j]).0@ == k {
            let j = choose|j: int| 0 <= j < s.len() && (#[trigger] s[j]).0@ == k;
            if j < s.len() - 1 {
                assert(t[j] == s[j]);
            }
        }
    }
}

/// The last entry of a key holds what the map gives for it.
pub proof fn lemma_key_map_value<T>(s: Seq<(String, T)>, i: int)
    requires
        last_of_key(s, i),
    ensures
        key_map(s).contains_key(s[i].0@),
        key_map(s)[s[i].0@] == s[i].1,
    decreases s.len(),
{
    if i < s.len() - 1 {
        let t = s.drop_last();
        assert(s[s.len() - 1] == s.last());
        assert(t[i] == s[i]);
        assert forall|j: int| i < j < t.len() implies (#[trigger] t[j]).0@ != t[i].0@ by {
            assert(t[j] == s[j]);
        }
        lemma_key_map_value(t, i);
    }
}

/// Putting a new record in the last entry of a key is inserting into the map.
pub proof fn lemma_key_map_update<T>(s: Seq<(String, T)>, i: int, e: (String, T))
    requires
        last_of_key(s, i),
        e.0@ == s[i].0@,
    ensures
        key_map(s.update(i, e)) == key_map(s).insert(e.0@, e.1),
    decreases s.len(),
{
    let u = s.update(i, e);
    let t = s.drop_last();
    if i == s.len() - 1 {
        assert(u.drop_last() =~= t);
        assert(key_map(u) =~= key_map(s).insert(e.0@, e.1));
    } else {
        assert(s[s.len() - 1] == s.last());
        assert forall|j: int| i < j < t.len() implies (#[trigger] t[j]).0@ != t[i].0@ by {
            assert(t[j] == s[j]);
        }
        lemma_key_map_update(t, i, e);
        assert(u.drop_last() =~= t.update(i, e));
        assert(u.last() == s.last());
        assert(key_map(u) =~= key_map(s).insert(e.0@, e.1));
    }
}

/// The same, for every new record at once.
pub proof fn lemma_key_map_update_all<T>(s: Seq<(String, T)>, i: int)
    requires
        last_of_key(s, i),
    ensures
        forall|v: T| #[trigger] key_map(s.update(i, (s[i].0, v))) == key_map(s).insert(s[i].0@, v),
{
    assert forall|v: T| #[trigger] key_map(s.update(i, (s[i].0, v))) == key_map(s).insert(s[i].0@, v) by {
        lemma_key_map_update(s, i, (s[i].0, v));
    }
}

/// Leaving out every entry of a key is removing it from the map.
pub proof fn lemma_key_map_without<T>(s: Seq<(String, T)>, k: Seq<char>)
    ensures
        key_map(without_key(s, k)) == key_map(s).remove(k),
    decreases s.len(),
{
    if s.len() == 0 {
        assert(key_map(s).remove(k) =~= Map::empty());
    } else {
        lemma_key_map_without(s.drop_last(), k);
        let w = without_key(s.drop_last(), k);
        if s.last().0@ != k {
            assert(w.push(s.last()).drop_last() =~= w);
        }
        assert(key_map(without_key(s, k)) =~= key_map(s).remove(k));
    }
}

/// State records by text identifier.
///
/// The records are held in a vector of pairs, searched from the last entry,
/// not in a `HashMap`: the identifiers are texts, and vstd's specification of
/// `HashMap` holds only for key types that obey its key model
/// (`obeys_key_model`), which vstd grants to primitive types and not to
/// `String`. The view is the map from each identifier to its latest record;
/// the order of the entries, which a `HashMap` leaves open, is not part of it.
pub struct Registry<T> {
    entries: Vec<(String, T)>,
}

impl<T> View for Registry<T> {
    type V = Map<Seq<char>, T>;

    closed spec fn view(&self) -> Map<Seq<char>, T> {
        key_map(self.entries@)
    }
}

impl<T> Registry<T> {
    /// Entry `i` is where the record of its key lies.
    pub closed spec fn is_slot(&self, i: int) -> bool {
        last_of_key(self.entries@, i)
    }

    /// The key of entry `i`.
    pub closed spec fn key_at(&self, i: int) -> Seq<char> {
        self.entries@[i].0@
    }

    /// The number of entries.
    pub closed spec fn count(&self) -> nat {
        self.entries@.len()
    }

    /// The record in entry `i`.
    pub closed spec fn record_at(&self, i: int) -> T {
        self.entries@[i].1
    }

    /// A slot holds the record of its key.
    pub proof fn lemma_slot(&self, i: int)
        requires
            self.is_slot(i),
        ensures
            self@.contains_key(self.key_at(i)),
            self@[self.key_at(i)] == self.record_at(i),
    {
        lemma_key_map_value(self.entries@, i);
    }

    /// Every key of the map has a slot, and every entry's key is in the map.
    pub proof fn lemma_keys(&self)
        ensures
            forall|k: Seq<char>| #[trigger] self@.contains_key(k) ==> exists|i: int|
                self.is_slot(i) && self.key_at(i) == k,
            forall|i: int| 0 <= i < self.count() ==> #[trigger] self@.contains_key(self.key_at(i)),
    {
        let s = self.entries@;
        assert forall|k: Seq<char>| #[trigger] self@.contains_key(k) implies exists|i: int|
            self.is_slot(i) && self.key_at(i) == k by {
            lemma_key_map_contains(s, k);
            let j0 = choose|j: int| 0 <= j < s.len() && (#[trigger] s[j]).0@ == k;
            let i = choose|i: int|
                j0 <= i < s.len() && s[i].0@ == k && forall|j: int| i < j < s.len() ==> (#[trigger] s[j]).0@ != k;
            assert(self.is_slot(i) && self.key_at(i) == k) by {
                lemma_last_after(s, k, j0);
            }
        }
        assert forall|i: int| 0 <= i < self.count() implies #[trigger] self@.contains_key(self.key_at(i)) by {
            lemma_key_map_contains(s, self.key_at(i));
            assert(s[i].0@ == self.key_at(i));
        }
    }

    /// An empty table.
    pub fn new() -> (r: Registry<T>)
        ensures
            r@ == Map::<Seq<char>, T>::empty(),
            r.count() == 0,
    {
        Registry { entries: Vec::new() }
    }

    /// The number of entries.
    pub fn entry_count(&self) -> (n: usize)
        ensures
            n == self.count(),
    {
        self.entries.len()
    }

    /// The key of entry `i`.
    pub fn entry_key(&self, i: usize) -> (r: &String)
        requires
            i < self.count(),
        ensures
            r@ == self.key_at(i as int),
    {
        &self.entries[i].0
    }

    /// The slot of `k`, if the table holds it.
    pub fn find(&self, k: &String) -> (r: Option<usize>)
        ensures
            r matches Some(i) ==> self.is_slot(i as int) && self.key_at(i as int) == k@,
            r is None <==> !self@.contains_key(k@),
    {
        let mut i = self.entries.len();
        while i > 0
            invariant
                i <= self.entries.len(),
                forall|j: int| i <= j < self.entries@.len() ==> (#[trigger] self.entries@[j]).0@ != k@,
            decreases i,
        {
            if self.entries[i - 1].0 == *k {
                proof {
                    lemma_key_map_value(self.entries@, i - 1);
                }
                return Some(i - 1);
            }
            i = i - 1;
        }
        proof {
            lemma_key_map_contains(self.entries@, k@);
        }
        None
    }

    /// The record in slot `i`.
    pub fn value_at(&self, i: usize) -> (r: &T)
        requires
            self.is_slot(i as int),
        ensures
            self@.contains_key(self.key_at(i as int)),
            *r == self@[self.key_at(i as int)],
    {
        proof {
            self.lemma_slot(i as int);
        }
        &self.entries[i].1
    }

    /// The record in entry `i`, whatever its key.
    pub fn record(&self, i: usize) -> (r: &T)
        requires
            i < self.count(),
        ensures
            *r == self.record_at(i as int),
    {
        &self.entries[i].1
    }

    /// The record of `k`, if the table holds it.
    pub fn get(&self, k: &String) -> (r: Option<&T>)
        ensures
            r is Some <==> self@.contains_key(k@),
            r matches Some(v) ==> *v == self@[k@],
    {
        match self.find(k) {
            Some(i) => Some(self.value_at(i)),
            None => None,
        }
    }

    /// Changes the record in slot `i` in place.
    pub fn value_mut(&mut self, i: usize) -> (r: &mut T)
        requires
            old(self).is_slot(i as int),
        ensures
            old(self)@.contains_key(old(self).key_at(i as int)),
            *r == old(self)@[old(self).key_at(i as int)],
            final(self)@ == old(self)@.insert(old(self).key_at(i as int), *final(r)),
    {
        proof {
            old(self).lemma_slot(i as int);
            lemma_key_map_update_all(old(self).entries@, i as int);
        }
        &mut self.entries[i].1
    }

    /// Changes the record in entry `i` in place, whatever its key.
    pub fn record_mut(&mut self, i: usize) -> (r: &mut T)
        requires
            i < old(self).count(),
        ensures
            *r == old(self).record_at(i as int),
            final(self).count() == old(self).count(),
            forall|j: int| 0 <= j < old(self).count() ==> #[trigger] final(self).key_at(j) == old(self).key_at(j),
            forall|j: int|
                0 <= j < old(self).count() && j != i ==> #[trigger] final(self).record_at(j) == old(self).record_at(j),
            final(self).record_at(i as int) == *final(r),
    {
        &mut self.entries[i].1
    }

    /// Two tables with the same keys in the same entries, whose records are
    /// related entry by entry by `f`, are related key by key by `f`.
    pub proof fn lemma_pointwise(a: &Registry<T>, b: &Registry<T>, f: spec_fn(Seq<char>, T) -> T)
        requires
            b.count() == a.count(),
            forall|j: int| 0 <= j < a.count() ==> #[trigger] b.key_at(j) == a.key_at(j),
            forall|j: int| 0 <= j < a.count() ==> #[trigger] b.record_at(j) == f(a.key_at(j), a.record_at(j)),
        ensures
            b@.dom() == a@.dom(),
            forall|k: Seq<char>| #[trigger] a@.contains_key(k) ==> b@[k] == f(k, a@[k]),
    {
        assert forall|k: Seq<char>| a@.contains_key(k) <==> b@.contains_key(k) by {
            lemma_key_map_contains(a.entries@, k);
            lemma_key_map_contains(b.entries@, k);
            if a@.contains_key(k) {
                let j = choose|j: int| 0 <= j < a.entries@.len() && (#[trigger] a.entries@[j]).0@ == k;
                assert(b.key_at(j) == a.key_at(j));
                assert(b.entries@[j].0@ == k);
            }
            if b@.contains_key(k) {
                let j = choose|j: int| 0 <= j < b.entries@.len() && (#[trigger] b.entries@[j]).0@ == k;
                assert(b.key_at(j) == a.key_at(j));
                assert(a.entries@[j].0@ == k);
            }
        }
        assert(b@.dom() =~= a@.dom());
        assert forall|k: Seq<char>| #[trigger] a@.contains_key(k) implies b@[k] == f(k, a@[k]) by {
            a.lemma_keys();
            let i = choose|i: int| a.is_slot(i) && a.key_at(i) == k;
            a.lemma_slot(i);
            assert(b.key_at(i) == a.key_at(i));
            assert forall|j: int| i < j < b.entries@.len() implies (#[trigger] b.entries@[j]).0@ != b.entries@[i].0@ by {
                assert(b.key_at(j) == a.key_at(j));
                assert(a.entries@[j].0@ != a.entries@[i].0@);
            }
            assert(b.is_slot(i));
            b.lemma_slot(i);
        }
    }

    /// Puts `v` under `k`, in place of what was there.
    pub fn insert(&mut self, k: String, v: T)
        ensures
            final(self)@ == old(self)@.insert(k@, v),
    {
        match self.find(&k) {
            Some(i) => {
                let ghost s = self.entries@;
                let ghost e = (k, v);
                proof {
                    lemma_key_map_update(s, i as int, e);
                }
                self.entries.set(i, (k, v));
            },
            None => {
                let ghost s = self.entries@;
                self.entries.push((k, v));
                proof {
                    assert(self.entries@.drop_last() =~= s);
                }
            },
        }
    }

    /// Takes the record of `k` out of the table; whether there was one.
    pub fn remove(&mut self, k: &String) -> (r: bool)
        ensures
            r == old(self)@.contains_key(k@),
            final(self)@ == old(self)@.remove(k@),
    {
        let ghost s = self.entries@;
        let present = self.find(k).is_some();
        let n = self.entries.len();
        let mut i: usize = 0;
        let mut j: usize = 0;
        while i < n
            invariant
                n == s.len(),
                i <= s.len(),
                j <= self.entries@.len(),
                self.entries@ == without_key(s.take(i as int), k@) + s.skip(i as int),
                j == without_key(s.take(i as int), k@).len(),
            decreases s.len() - i,
        {
            let ghost w = without_key(s.take(i as int), k@);
            proof {
                assert(s.take(i + 1).drop_last() =~= s.take(i as int));
                assert(s.take(i + 1).last() == s[i as int]);
                assert(self.entries@[j as int] == s[i as int]);
            }
            let m = self.entries.len();
            proof {
                assert(j < m);
            }
            if self.entries[j].0 == *k {
                self.entries.remove(j);
                proof {
                    assert(self.entries@ =~= w + s.skip(i + 1));
                }
            } else {
                proof {
                    assert(self.entries@ =~= w.push(s[i as int]) + s.skip(i + 1));
                }
                j = j + 1;
            }
            i = i + 1;
        }
        proof {
            assert(s.take(s.len() as int) =~= s);
            assert(self.entries@ =~= without_key(s, k@));
            lemma_key_map_without(s, k@);
        }
        present
    }
}

/// After an entry of key `k` there is a last one.
proof fn lemma_last_after<T>(s: Seq<(String, T)>, k: Seq<char>, j0: int)
    requires
        0 <= j0 < s.len(),
        s[j0].0@ == k,
    ensures
        exists|i: int|
            j0 <= i < s.len() && s[i].0@ == k && forall|j: int| i < j < s.len() ==> (#[trigger] s[j]).0@ != k,
    decreases s.len() - j0,
{
    if exists|j: int| j0 < j < s.len() && (#[trigger] s[j]).0@ == k {
        let j1 = choose|j: int| j0 < j < s.len() && (#[trigger] s[j]).0@ == k;
        lemma_last_after(s, k, j1);
    } else {
        assert(j0 <= j0 < s.len() && s[j0].0@ == k && forall|j: int| j0 < j < s.len() ==> (#[trigger] s[j]).0@
            != k);
    }
}

} // verus!
