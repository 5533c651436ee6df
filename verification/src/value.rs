//! The values that scripts compute with, and the dictionaries among them.

use vstd::prelude::*;
use crate::number::{num_eq, number_eq};

verus! {

/// A value of the language.
#[derive(Debug)]
pub enum Value {
    /// A number, held as its IEEE-754 binary64 bit pattern.
    Number(u64),
    String(String),
    Bool(bool),
    Null,
    Array(Vec<Value>),
    Dictionary(Dict),
    /// The identifier of a form.
    FormObject(String),
    /// A function of the host, by name.
    BuiltinFunction(String),
    /// A function of the script, by the handle that the interpreter gave it.
    Function(u64),
    /// A plotting figure, by the number that the plotter gave it when it
    /// made it.
    Figure(u64),
}

/// A dictionary: pairs of a text key and a value, no key twice, in the order
/// in which their keys first arrived.
///
/// The pairs are held in a vector, not in a `HashMap`: the keys are texts,
/// and vstd's specification of `HashMap` holds only for key types that obey
/// its key model (`obeys_key_model`), which vstd grants to primitive types
/// and not to `String`; it could only be had by assuming it. A vector with
/// the invariant that no key occurs twice gives every property that the
/// dictionary functions state.
#[derive(Debug)]
pub struct Dict {
    pub(crate) entries: Vec<(String, Value)>,
}

/// The keys of a list of pairs are pairwise different.
pub open spec fn keys_distinct(s: Seq<(Seq<char>, Value)>) -> bool {
    forall|i: int, j: int| 0 <= i < j < s.len() ==> #[trigger] s[i].0 != #[trigger] s[j].0
}

/// Index of the pair with key `k` (the last one, should there be several), or -1.
pub open spec fn key_position(s: Seq<(Seq<char>, Value)>, k: Seq<char>) -> int
    decreases s.len(),
{
    if s.len() == 0 {
        -1
    } else if s.last().0 == k {
        s.len() - 1
    } else {
        key_position(s.drop_last(), k)
    }
}

pub open spec fn entries_model(e: Seq<(String, Value)>) -> Seq<(Seq<char>, Value)> {
    e.map_values(|p: (String, Value)| (p.0@, p.1))
}

impl Dict {
    /// The pairs of the dictionary, in order.
    pub closed spec fn pairs(self) -> Seq<(Seq<char>, Value)> {
        entries_model(self.entries@)
    }

    #[verifier::type_invariant]
    spec fn distinct_keys(self) -> bool {
        keys_distinct(self.pairs())
    }

    pub open spec fn keys(self) -> Seq<Seq<char>> {
        self.pairs().map_values(|p: (Seq<char>, Value)| p.0)
    }

    pub open spec fn vals(self) -> Seq<Value> {
        self.pairs().map_values(|p: (Seq<char>, Value)| p.1)
    }

    pub open spec fn contains_key(self, k: Seq<char>) -> bool {
        key_position(self.pairs(), k) >= 0
    }

    /// The value under `k`, when there is one.
    pub open spec fn lookup(self, k: Seq<char>) -> Option<Value> {
        let i = key_position(self.pairs(), k);
        if i >= 0 {
            Some(self.pairs()[i].1)
        } else {
            None
        }
    }

    /// An empty dictionary.
    pub fn new() -> (d: Dict)
        ensures
            d.pairs() == Seq::<(Seq<char>, Value)>::empty(),
    {
        let d = Dict { entries: Vec::new() };
        proof {
            assert(d.pairs() =~= Seq::<(Seq<char>, Value)>::empty());
        }
        d
    }

    /// Number of pairs.
    pub fn len(&self) -> (n: usize)
        ensures
            n == self.pairs().len(),
    {
        self.entries.len()
    }

    /// The `i`-th pair.
    pub fn entry(&self, i: usize) -> (r: (&String, &Value))
        requires
            i < self.pairs().len(),
        ensures
            r.0@ == self.pairs()[i as int].0,
            *r.1 == self.pairs()[i as int].1,
    {
        let e = &self.entries[i];
        (&e.0, &e.1)
    }

    /// The pairs, keys distinct.
    pub fn well_formed(&self)
        ensures
            keys_distinct(self.pairs()),
    {
        proof {
            use_type_invariant(self);
        }
    }

    /// Where the key `k` stands, if anywhere.
    pub fn position(&self, k: &String) -> (r: Option<usize>)
        ensures
            r matches Some(i) ==> i as int == key_position(self.pairs(), k@),
            r is None ==> key_position(self.pairs(), k@) == -1,
    {
        let mut i = self.entries.len();
        proof {
            assert(self.pairs().subrange(0, i as int) =~= self.pairs());
        }
        while i > 0
            invariant
                i <= self.entries.len(),
                key_position(self.pairs(), k@) == key_position(self.pairs().subrange(0, i as int), k@),
            decreases i,
        {
            let ghost s = self.pairs().subrange(0, i as int);
            proof {
                assert(s.drop_last() =~= self.pairs().subrange(0, i - 1));
            }
            if self.entries[i - 1].0 == *k {
                return Some(i - 1);
            }
            i = i - 1;
        }
        proof {
            assert(self.pairs().subrange(0, 0) =~= Seq::<(Seq<char>, Value)>::empty());
        }
        None
    }

    /// Sets the value under `k`: the pair keeps its place when the key is
    /// there already, else it goes last.
    pub fn insert(&mut self, k: String, v: Value)
        ensures
            ({
                let i = key_position(old(self).pairs(), k@);
                final(self).pairs() == if i >= 0 {
                    old(self).pairs().update(i, (k@, v))
                } else {
                    old(self).pairs().push((k@, v))
                }
            }),
    {
        proof {
            use_type_invariant(&*self);
            lemma_key_position(old(self).pairs(), k@);
        }
        let pos = self.position(&k);
        let ghost kk = k@;
        match pos {
            Some(i) => {
                let mut entries = Vec::new();
                std::mem::swap(&mut entries, &mut self.entries);
                entries.set(i, (k, v));
                proof {
                    assert(entries_model(entries@) =~= old(self).pairs().update(i as int, (kk, v)));
                }
                self.entries = entries;
            },
            None => {
                let mut entries = Vec::new();
                std::mem::swap(&mut entries, &mut self.entries);
                entries.push((k, v));
                proof {
                    assert(entries_model(entries@) =~= old(self).pairs().push((kk, v)));
                }
                self.entries = entries;
            },
        }
    }

    /// Takes the pair with key `k` out, giving back its value.
    pub fn remove(&mut self, k: &String) -> (r: Option<Value>)
        ensures
            ({
                let i = key_position(old(self).pairs(), k@);
                if i >= 0 {
                    &&& final(self).pairs() == old(self).pairs().remove(i)
                    &&& r == Some(old(self).pairs()[i].1)
                } else {
                    &&& final(self).pairs() == old(self).pairs()
                    &&& r is None
                }
            }),
    {
        proof {
            use_type_invariant(&*self);
            lemma_key_position_range(old(self).pairs(), k@);
        }
        let pos = self.position(k);
        match pos {
            Some(i) => {
                proof {
                    lemma_remove_keeps_distinct(old(self).pairs(), i as int);
                }
                let mut entries = Vec::new();
                std::mem::swap(&mut entries, &mut self.entries);
                let (_, v) = entries.remove(i);
                proof {
                    assert(entries_model(entries@) =~= old(self).pairs().remove(i as int));
                }
                self.entries = entries;
                Some(v)
            },
            None => None,
        }
    }

    /// The pairs, taken out of the dictionary.
    pub fn into_entries(self) -> (r: Vec<(String, Value)>)
        ensures
            entries_model(r@) == self.pairs(),
            keys_distinct(self.pairs()),
    {
        proof {
            use_type_invariant(&self);
        }
        self.entries
    }

    /// Removes every pair.
    pub fn clear(&mut self)
        ensures
            final(self).pairs() == Seq::<(Seq<char>, Value)>::empty(),
    {
        self.entries = Vec::new();
        proof {
            assert(self.pairs() =~= Seq::<(Seq<char>, Value)>::empty());
        }
    }
}

/// Where `key_position` points.
pub proof fn lemma_key_position_range(s: Seq<(Seq<char>, Value)>, k: Seq<char>)
    ensures
        -1 <= key_position(s, k) < s.len(),
        key_position(s, k) >= 0 ==> s[key_position(s, k)].0 == k,
        key_position(s, k) == -1 ==> forall|j: int| 0 <= j < s.len() ==> s[j].0 != k,
        forall|j: int| key_position(s, k) < j < s.len() ==> s[j].0 != k,
    decreases s.len(),
{
    if s.len() > 0 {
        lemma_key_position_range(s.drop_last(), k);
        assert forall|j: int| key_position(s, k) < j < s.len() implies s[j].0 != k by {
            if j < s.len() - 1 {
                assert(s[j] == s.drop_last()[j]);
            }
        }
        if key_position(s, k) == -1 {
            assert forall|j: int| 0 <= j < s.len() implies s[j].0 != k by {
                if j < s.len() - 1 {
                    assert(s[j] == s.drop_last()[j]);
                }
            }
        }
        if key_position(s, k) >= 0 && key_position(s, k) < s.len() - 1 {
            assert(s[key_position(s, k)] == s.drop_last()[key_position(s, k)]);
        }
    }
}

/// The model of a list of entries without its first one.
pub proof fn lemma_entries_model_drop_first(e: Seq<(String, Value)>)
    requires
        e.len() > 0,
    ensures
        entries_model(e.remove(0)) == entries_model(e).subrange(1, e.len() as int),
        entries_model(e).len() == e.len(),
        entries_model(e)[0] == (e[0].0@, e[0].1),
{
    assert(entries_model(e.remove(0)) =~= entries_model(e).subrange(1, e.len() as int));
}

/// Replacing a pair by one with the same key, or adding a pair with a new key,
/// keeps the keys distinct.
pub proof fn lemma_key_position(s: Seq<(Seq<char>, Value)>, k: Seq<char>)
    requires
        keys_distinct(s),
    ensures
        -1 <= key_position(s, k) < s.len(),
        key_position(s, k) >= 0 ==> s[key_position(s, k)].0 == k,
        key_position(s, k) == -1 ==> forall|j: int| 0 <= j < s.len() ==> s[j].0 != k,
        key_position(s, k) >= 0 ==> forall|j: int|
            0 <= j < s.len() && j != key_position(s, k) ==> s[j].0 != k,
        forall|v: Value|
            #![trigger s.push((k, v))]
            key_position(s, k) == -1 ==> keys_distinct(s.push((k, v))),
        forall|v: Value|
            #![trigger s.update(key_position(s, k), (k, v))]
            key_position(s, k) >= 0 ==> keys_distinct(s.update(key_position(s, k), (k, v))),
{
    lemma_key_position_range(s, k);
    let p = key_position(s, k);
    assert forall|v: Value| p == -1 implies keys_distinct(#[trigger] s.push((k, v))) by {
        let t = s.push((k, v));
        assert forall|i: int, j: int| 0 <= i < j < t.len() implies #[trigger] t[i].0 != #[trigger] t[j].0 by {
            assert(t[i] == s[i]);
            if j < s.len() {
                assert(t[j] == s[j]);
            }
        }
    }
    assert forall|v: Value| p >= 0 implies keys_distinct(#[trigger] s.update(p, (k, v))) by {
        let t = s.update(p, (k, v));
        assert forall|i: int, j: int| 0 <= i < j < t.len() implies #[trigger] t[i].0 != #[trigger] t[j].0 by {
            if i != p && j != p {
                assert(t[i] == s[i] && t[j] == s[j]);
            } else if i == p {
                assert(t[j] == s[j]);
            } else {
                assert(t[i] == s[i]);
            }
        }
    }
}

proof fn lemma_remove_keeps_distinct(s: Seq<(Seq<char>, Value)>, i: int)
    requires
        keys_distinct(s),
        0 <= i < s.len(),
    ensures
        keys_distinct(s.remove(i)),
{
    let t = s.remove(i);
    assert forall|a: int, b: int| 0 <= a < b < t.len() implies #[trigger] t[a].0 != #[trigger] t[b].0 by {
        let a2 = if a < i { a } else { a + 1 };
        let b2 = if b < i { b } else { b + 1 };
        assert(t[a] == s[a2] && t[b] == s[b2]);
    }
}

/// Equality of values as scripts see it: numbers by their value, texts,
/// truth values and identifiers by their content, arrays element by element,
/// and dictionaries when they have as many pairs and each pair of the first
/// has its key in the second, with an equal value under it.
pub closed spec fn value_eq(a: Value, b: Value) -> bool
    decreases a,
{
    match a {
        Value::Number(x) => match b {
            Value::Number(y) => num_eq(x, y),
            _ => false,
        },
        Value::String(x) => match b {
            Value::String(y) => x@ == y@,
            _ => false,
        },
        Value::Bool(x) => match b {
            Value::Bool(y) => x == y,
            _ => false,
        },
        Value::Null => b is Null,
        Value::Array(x) => match b {
            Value::Array(y) => x.len() == y.len() && forall|i: int|
                0 <= i < x.len() ==> value_eq(#[trigger] x@[i], y@[i]),
            _ => false,
        },
        Value::Dictionary(x) => match b {
            Value::Dictionary(y) => x.entries.len() == y.entries.len() && forall|i: int|
                0 <= i < x.entries.len() ==> {
                    let j = key_position(entries_model(y.entries@), (#[trigger] x.entries@[i]).0@);
                    j >= 0 && value_eq(x.entries@[i].1, y.entries@[j].1)
                },
            _ => false,
        },
        Value::FormObject(x) => match b {
            Value::FormObject(y) => x@ == y@,
            _ => false,
        },
        Value::BuiltinFunction(x) => match b {
            Value::BuiltinFunction(y) => x@ == y@,
            _ => false,
        },
        Value::Function(x) => match b {
            Value::Function(y) => x == y,
            _ => false,
        },
        Value::Figure(x) => match b {
            Value::Figure(y) => x == y,
            _ => false,
        },
    }
}

/// Equality of values of the same plain kind is equality of their contents:
/// truth values are equal exactly when they are the same, texts and
/// identifiers exactly when they read the same, handles exactly when they are
/// the same number.
pub proof fn law_plain_values_equal(x: bool, y: bool, s: String, t: String, h: u64, k: u64)
    ensures
        value_eq(Value::Bool(x), Value::Bool(y)) <==> x == y,
        value_eq(Value::String(s), Value::String(t)) <==> s@ == t@,
        value_eq(Value::FormObject(s), Value::FormObject(t)) <==> s@ == t@,
        value_eq(Value::BuiltinFunction(s), Value::BuiltinFunction(t)) <==> s@ == t@,
        value_eq(Value::Function(h), Value::Function(k)) <==> h == k,
        value_eq(Value::Figure(h), Value::Figure(k)) <==> h == k,
        value_eq(Value::Null, Value::Null),
{
}

/// A value equals the truth value `b` exactly when it is that truth value.
pub proof fn law_equal_to_flag(v: Value, b: bool)
    ensures
        value_eq(v, Value::Bool(b)) <==> v == Value::Bool(b),
{
}

/// The pairs of a dictionary are its entries, keys by their text.
pub(crate) proof fn lemma_pairs_of_entries(d: Dict)
    ensures
        d.pairs() == entries_model(d.entries@),
{
}

/// `a == b` for values of the language.
pub fn values_equal(a: &Value, b: &Value) -> (r: bool)
    ensures
        r == value_eq(*a, *b),
    decreases *a,
{
    match a {
        Value::Number(x) => match b {
            Value::Number(y) => number_eq(*x, *y),
            _ => false,
        },
        Value::String(x) => match b {
            Value::String(y) => *x == *y,
            _ => false,
        },
        Value::Bool(x) => match b {
            Value::Bool(y) => *x == *y,
            _ => false,
        },
        Value::Null => match b {
            Value::Null => true,
            _ => false,
        },
        Value::Array(x) => match b {
            Value::Array(y) => {
                if x.len() != y.len() {
                    return false;
                }
                let mut i: usize = 0;
                while i < x.len()
                    invariant
                        i <= x.len() == y.len(),
                        *a == Value::Array(*x),
                        *b == Value::Array(*y),
                        forall|j: int| 0 <= j < i ==> value_eq(#[trigger] x@[j], y@[j]),
                    decreases x.len() - i,
                {
                    proof {
                        let ghost av = *a;
                        match av {
                            Value::Array(xx) => {
                                assert(xx == *x);
                                assert(decreases_to!(xx => xx@));
                                assert(decreases_to!(xx@ => xx@[i as int]));
                                assert(decreases_to!(av => xx));
                            },
                            _ => {},
                        }
                    }
                    if !values_equal(&x[i], &y[i]) {
                        assert(!value_eq(x@[i as int], y@[i as int]));
                        assert(*a == Value::Array(*x));
                        assert(*b == Value::Array(*y));
                        assert(!value_eq(*a, *b));
                        return false;
                    }
                    i = i + 1;
                }
                true
            },
            _ => false,
        },
        Value::Dictionary(x) => match b {
            Value::Dictionary(y) => {
                if x.entries.len() != y.entries.len() {
                    return false;
                }
                let mut i: usize = 0;
                while i < x.entries.len()
                    invariant
                        i <= x.entries.len() == y.entries.len(),
                        *a == Value::Dictionary(*x),
                        *b == Value::Dictionary(*y),
                        forall|j: int|
                            0 <= j < i ==> {
                                let p = key_position(entries_model(y.entries@), (#[trigger] x.entries@[j]).0@);
                                p >= 0 && value_eq(x.entries@[j].1, y.entries@[p].1)
                            },
                    decreases x.entries.len() - i,
                {
                    let pos = y.position(&x.entries[i].0);
                    proof {
                        lemma_key_position_range(y.pairs(), x.entries@[i as int].0@);
                    }
                    match pos {
                        None => {
                            assert(!value_eq(*a, *b));
                            return false;
                        },
                        Some(p) => {
                            proof {
                                let e = x.entries@[i as int];
                                let ghost av = *a;
                                match av {
                                    Value::Dictionary(xx) => {
                                        assert(xx == *x);
                                        assert(decreases_to!(av => xx));
                                    },
                                    _ => {},
                                }
                                assert(decreases_to!(*x => x.entries));
                                assert(decreases_to!(x.entries => x.entries[i as int]));
                                assert(decreases_to!(e => e.1));
                            }
                            if !values_equal(&x.entries[i].1, &y.entries[p].1) {
                                assert(!value_eq(x.entries@[i as int].1, y.entries@[p as int].1));
                                assert(!value_eq(*a, *b));
                                return false;
                            }
                        },
                    }
                    i = i + 1;
                }
                true
            },
            _ => false,
        },
        Value::FormObject(x) => match b {
            Value::FormObject(y) => *x == *y,
            _ => false,
        },
        Value::BuiltinFunction(x) => match b {
            Value::BuiltinFunction(y) => *x == *y,
            _ => false,
        },
        Value::Function(x) => match b {
            Value::Function(y) => *x == *y,
            _ => false,
        },
        Value::Figure(x) => match b {
            Value::Figure(y) => *x == *y,
            _ => false,
        },
    }
}

/// `b` is a copy of `a`: the same kind of value with the same contents,
/// numbers bit for bit, arrays element by element and dictionaries pair by
/// pair in the same order.
pub closed spec fn copy_of(a: Value, b: Value) -> bool
    decreases a,
{
    match a {
        Value::Number(x) => b == Value::Number(x),
        Value::String(x) => b matches Value::String(y) && y@ == x@,
        Value::Bool(x) => b == Value::Bool(x),
        Value::Null => b is Null,
        Value::Array(x) => match b {
            Value::Array(y) => x.len() == y.len() && forall|i: int|
                0 <= i < x.len() ==> copy_of(#[trigger] x@[i], y@[i]),
            _ => false,
        },
        Value::Dictionary(x) => match b {
            Value::Dictionary(y) => x.entries.len() == y.entries.len() && forall|i: int|
                0 <= i < x.entries.len() ==> (#[trigger] x.entries@[i]).0@ == y.entries@[i].0@
                    && copy_of(x.entries@[i].1, y.entries@[i].1),
            _ => false,
        },
        Value::FormObject(x) => b matches Value::FormObject(y) && y@ == x@,
        Value::BuiltinFunction(x) => b matches Value::BuiltinFunction(y) && y@ == x@,
        Value::Function(x) => b == Value::Function(x),
        Value::Figure(x) => b == Value::Figure(x),
    }
}

/// A copy of a text is that text.
pub proof fn lemma_copy_of_text(a: Value, b: Value)
    requires
        copy_of(a, b),
        a is String,
    ensures
        b is String,
        b->String_0@ == a->String_0@,
{
}

/// A copy of a value: the same contents, held anew.
pub fn copy_value(a: &Value) -> (r: Value)
    ensures
        copy_of(*a, r),
    decreases *a,
{
    match a {
        Value::Number(x) => Value::Number(*x),
        Value::String(x) => Value::String(x.clone()),
        Value::Bool(x) => Value::Bool(*x),
        Value::Null => Value::Null,
        Value::Array(x) => {
            let mut out: Vec<Value> = Vec::new();
            let mut i: usize = 0;
            while i < x.len()
                invariant
                    i <= x.len(),
                    *a == Value::Array(*x),
                    out@.len() == i,
                    forall|j: int| 0 <= j < i ==> copy_of(#[trigger] x@[j], out@[j]),
                decreases x.len() - i,
            {
                proof {
                    let ghost av = *a;
                    match av {
                        Value::Array(xx) => {
                            assert(xx == *x);
                            assert(decreases_to!(xx => xx@));
                            assert(decreases_to!(xx@ => xx@[i as int]));
                            assert(decreases_to!(av => xx));
                        },
                        _ => {},
                    }
                }
                let c = copy_value(&x[i]);
                out.push(c);
                i = i + 1;
            }
            Value::Array(out)
        },
        Value::Dictionary(x) => {
            proof {
                use_type_invariant(x);
            }
            let mut out: Vec<(String, Value)> = Vec::new();
            let mut i: usize = 0;
            while i < x.entries.len()
                invariant
                    i <= x.entries.len(),
                    *a == Value::Dictionary(*x),
                    keys_distinct(x.pairs()),
                    out@.len() == i,
                    forall|j: int|
                        0 <= j < i ==> (#[trigger] x.entries@[j]).0@ == out@[j].0@
                            && copy_of(x.entries@[j].1, out@[j].1),
                decreases x.entries.len() - i,
            {
                proof {
                    let e = x.entries@[i as int];
                    let ghost av = *a;
                    match av {
                        Value::Dictionary(xx) => {
                            assert(xx == *x);
                            assert(decreases_to!(av => xx));
                        },
                        _ => {},
                    }
                    assert(decreases_to!(*x => x.entries));
                    assert(decreases_to!(x.entries => x.entries[i as int]));
                    assert(decreases_to!(e => e.1));
                }
                let k = x.entries[i].0.clone();
                let v = copy_value(&x.entries[i].1);
                out.push((k, v));
                i = i + 1;
            }
            proof {
                assert forall|p: int, q: int| 0 <= p < q < out@.len() implies
                    #[trigger] entries_model(out@)[p].0 != #[trigger] entries_model(out@)[q].0 by {
                    assert(x.pairs()[p].0 == x.entries@[p].0@);
                    assert(x.pairs()[q].0 == x.entries@[q].0@);
                    assert(x.entries@[p].0@ == out@[p].0@);
                    assert(x.entries@[q].0@ == out@[q].0@);
                }
            }
            let d = Dict { entries: out };
            Value::Dictionary(d)
        },
        Value::FormObject(x) => Value::FormObject(x.clone()),
        Value::BuiltinFunction(x) => Value::BuiltinFunction(x.clone()),
        Value::Function(x) => Value::Function(*x),
        Value::Figure(x) => Value::Figure(*x),
    }
}

/// Takes the two arguments of a call out of the argument list.
pub fn take_two(args: Vec<Value>) -> (r: (Value, Value))
    requires
        args.len() == 2,
    ensures
        r.0 == args@[0],
        r.1 == args@[1],
{
    let mut args = args;
    let b = args.pop().unwrap();
    let a = args.pop().unwrap();
    (a, b)
}

/// Takes the three arguments of a call out of the argument list.
pub fn take_three(args: Vec<Value>) -> (r: (Value, Value, Value))
    requires
        args.len() == 3,
    ensures
        r.0 == args@[0],
        r.1 == args@[1],
        r.2 == args@[2],
{
    let mut args = args;
    let c = args.pop().unwrap();
    let b = args.pop().unwrap();
    let a = args.pop().unwrap();
    (a, b, c)
}

/// Takes the single argument of a call out of the argument list.
pub fn take_one(args: Vec<Value>) -> (r: Value)
    requires
        args.len() == 1,
    ensures
        r == args@[0],
{
    let mut args = args;
    args.pop().unwrap()
}

} // verus!
