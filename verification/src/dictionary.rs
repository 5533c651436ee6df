//! The dictionary built-ins. Keys are texts: a key argument that is not a
//! text stands for its debug rendering. The dictionary that a function changes
//! is the one it received: the changed dictionary is its result.

use vstd::prelude::*;
use crate::array::is_count;
use crate::number::number_from_usize;
use crate::text::{arity_message, fails_with, arity_error, text};
use crate::render::{debug_form, debug_string, number_texts, writes_numbers};
use crate::value::{
    Value, Dict, key_position, entries_model, keys_distinct, value_eq, values_equal, take_one,
    take_two, take_three, lemma_key_position_range, lemma_entries_model_drop_first,
};

verus! {

/// The key that a value stands for: a text for itself, anything else for its
/// debug form.
pub open spec fn dict_key(v: Value, nt: spec_fn(u64) -> (Seq<char>, Seq<char>)) -> Seq<char> {
    match v {
        Value::String(s) => s@,
        _ => debug_form(v, nt),
    }
}

pub(crate) fn key_of<F: Fn(u64) -> (String, String)>(v: &Value, decimals: &F) -> (k: String)
    requires
        writes_numbers(*decimals),
    ensures
        k@ == dict_key(*v, number_texts(*decimals)),
{
    match v {
        Value::String(s) => s.clone(),
        _ => debug_string(v, decimals),
    }
}

/// The pairs after setting `k` to `v`.
pub open spec fn pairs_insert(s: Seq<(Seq<char>, Value)>, k: Seq<char>, v: Value) -> Seq<(Seq<char>, Value)> {
    let i = key_position(s, k);
    if i >= 0 {
        s.update(i, (k, v))
    } else {
        s.push((k, v))
    }
}

/// The pairs after taking the key `k` out.
pub open spec fn pairs_remove(s: Seq<(Seq<char>, Value)>, k: Seq<char>) -> Seq<(Seq<char>, Value)> {
    let i = key_position(s, k);
    if i >= 0 {
        s.remove(i)
    } else {
        s
    }
}

/// The pairs of `s1` after setting each pair of `s2`, in order.
pub open spec fn pairs_merge(s1: Seq<(Seq<char>, Value)>, s2: Seq<(Seq<char>, Value)>) -> Seq<(Seq<char>, Value)>
    decreases s2.len(),
{
    if s2.len() == 0 {
        s1
    } else {
        let last = s2.last();
        pairs_insert(pairs_merge(s1, s2.drop_last()), last.0, last.1)
    }
}

/// `v` is the text `t`.
pub open spec fn is_text(v: Value, t: Seq<char>) -> bool {
    v matches Value::String(s) && s@ == t
}

/// `v` is the two-element array of the text `k` and the value `x`.
pub open spec fn is_pair(v: Value, k: Seq<char>, x: Value) -> bool {
    v matches Value::Array(p) && p@.len() == 2 && is_text(p@[0], k) && p@[1] == x
}

/// `add(d, k, v)`: `d` with `v` under `k`.
pub fn add<F: Fn(u64) -> (String, String)>(args: Vec<Value>, decimals: &F) -> (r: Result<Value, String>)
    requires
        writes_numbers(*decimals),
    ensures
        args.len() != 3 ==> fails_with(r, arity_message("add"@, "3 arguments"@, args.len() as nat)),
        args.len() == 3 ==> match args@[0] {
            Value::Dictionary(d) => r matches Ok(Value::Dictionary(d2)) && d2.pairs() == pairs_insert(
                d.pairs(),
                dict_key(args@[1], number_texts(*decimals)),
                args@[2],
            ),
            _ => fails_with(r, "add() expects a dictionary as the first argument"@),
        },
{
    if args.len() != 3 {
        return Err(arity_error("add", "3 arguments", args.len()));
    }
    let (a, k, v) = take_three(args);
    let key = key_of(&k, decimals);
    match a {
        Value::Dictionary(mut d) => {
            d.insert(key, v);
            Ok(Value::Dictionary(d))
        },
        _ => Err(text("add() expects a dictionary as the first argument")),
    }
}

/// `update(d, k, v)`: `d` with `v` under `k`.
pub fn update<F: Fn(u64) -> (String, String)>(args: Vec<Value>, decimals: &F) -> (r: Result<Value, String>)
    requires
        writes_numbers(*decimals),
    ensures
        args.len() != 3 ==> fails_with(r, arity_message("update"@, "3 arguments"@, args.len() as nat)),
        args.len() == 3 ==> match args@[0] {
            Value::Dictionary(d) => r matches Ok(Value::Dictionary(d2)) && d2.pairs() == pairs_insert(
                d.pairs(),
                dict_key(args@[1], number_texts(*decimals)),
                args@[2],
            ),
            _ => fails_with(r, "update() expects a dictionary as the first argument"@),
        },
{
    if args.len() != 3 {
        return Err(arity_error("update", "3 arguments", args.len()));
    }
    let (a, k, v) = take_three(args);
    let key = key_of(&k, decimals);
    match a {
        Value::Dictionary(mut d) => {
            d.insert(key, v);
            Ok(Value::Dictionary(d))
        },
        _ => Err(text("update() expects a dictionary as the first argument")),
    }
}

/// `"Key '<k>' not found"`.
pub open spec fn key_missing_text(prefix: Seq<char>, k: Seq<char>) -> Seq<char> {
    prefix + "Key '"@ + k + "' not found"@
}

fn key_missing(prefix: &str, k: &String) -> (s: String)
    ensures
        s@ == key_missing_text(prefix@, k@),
{
    let mut s = text(prefix);
    s.append("Key '");
    s.append(k.as_str());
    s.append("' not found");
    s
}

/// `get(d, k)`: the value under `k`.
pub fn get<F: Fn(u64) -> (String, String)>(args: Vec<Value>, decimals: &F) -> (r: Result<Value, String>)
    requires
        writes_numbers(*decimals),
    ensures
        args.len() != 2 ==> fails_with(r, arity_message("get"@, "2 arguments"@, args.len() as nat)),
        args.len() == 2 ==> match args@[0] {
            Value::Dictionary(d) => match d.lookup(dict_key(args@[1], number_texts(*decimals))) {
                Some(v) => r == Ok::<Value, String>(v),
                None => fails_with(r, key_missing_text(""@, dict_key(args@[1], number_texts(*decimals)))),
            },
            _ => fails_with(r, "get() expects a dictionary as the first argument"@),
        },
{
    if args.len() != 2 {
        return Err(arity_error("get", "2 arguments", args.len()));
    }
    let (a, k) = take_two(args);
    match a {
        Value::Dictionary(mut d) => {
            let key = key_of(&k, decimals);
            match d.remove(&key) {
                Some(v) => Ok(v),
                None => Err(key_missing("", &key)),
            }
        },
        _ => Err(text("get() expects a dictionary as the first argument")),
    }
}

/// `remove(d, k)`: `d` without the key `k`.
pub fn remove<F: Fn(u64) -> (String, String)>(args: Vec<Value>, decimals: &F) -> (r: Result<Value, String>)
    requires
        writes_numbers(*decimals),
    ensures
        args.len() != 2 ==> fails_with(r, arity_message("remove"@, "2 arguments"@, args.len() as nat)),
        args.len() == 2 ==> match args@[0] {
            Value::Dictionary(d) => r matches Ok(Value::Dictionary(d2)) && d2.pairs() == pairs_remove(
                d.pairs(),
                dict_key(args@[1], number_texts(*decimals)),
            ),
            _ => fails_with(r, "remove() expects a dictionary as the first argument"@),
        },
{
    if args.len() != 2 {
        return Err(arity_error("remove", "2 arguments", args.len()));
    }
    let (a, k) = take_two(args);
    let key = key_of(&k, decimals);
    match a {
        Value::Dictionary(mut d) => {
            let _ = d.remove(&key);
            Ok(Value::Dictionary(d))
        },
        _ => Err(text("remove() expects a dictionary as the first argument")),
    }
}

/// `containskey(d, k)`: whether `d` has the key `k`.
pub fn containskey<F: Fn(u64) -> (String, String)>(args: Vec<Value>, decimals: &F) -> (r: Result<Value, String>)
    requires
        writes_numbers(*decimals),
    ensures
        args.len() != 2 ==> fails_with(r, arity_message("containskey"@, "2 arguments"@, args.len() as nat)),
        args.len() == 2 ==> match args@[0] {
            Value::Dictionary(d) => r == Ok::<Value, String>(Value::Bool(d.contains_key(dict_key(args@[1], number_texts(*decimals))))),
            _ => fails_with(r, "containskey() expects a dictionary as the first argument"@),
        },
{
    if args.len() != 2 {
        return Err(arity_error("containskey", "2 arguments", args.len()));
    }
    match &args[0] {
        Value::Dictionary(d) => {
            let key = key_of(&args[1], decimals);
            Ok(Value::Bool(d.position(&key).is_some()))
        },
        _ => Err(text("containskey() expects a dictionary as the first argument")),
    }
}

/// `containsvalue(d, v)`: whether a value of `d` equals `v`.
pub fn containsvalue(args: Vec<Value>) -> (r: Result<Value, String>)
    ensures
        args.len() != 2 ==> fails_with(r, arity_message("containsvalue"@, "2 arguments"@, args.len() as nat)),
        args.len() == 2 ==> match args@[0] {
            Value::Dictionary(d) => r == Ok::<Value, String>(Value::Bool(
                exists|i: int| 0 <= i < d.pairs().len() && value_eq(#[trigger] d.pairs()[i].1, args@[1]),
            )),
            _ => fails_with(r, "containsvalue() expects a dictionary as the first argument"@),
        },
{
    if args.len() != 2 {
        return Err(arity_error("containsvalue", "2 arguments", args.len()));
    }
    match &args[0] {
        Value::Dictionary(d) => {
            let n = d.len();
            let mut i: usize = 0;
            let mut found = false;
            while i < n && !found
                invariant
                    n == d.pairs().len(),
                    i <= n,
                    args.len() == 2,
                    found ==> exists|j: int| 0 <= j < n && value_eq(#[trigger] d.pairs()[j].1, args@[1]),
                    !found ==> forall|j: int| 0 <= j < i ==> !value_eq(#[trigger] d.pairs()[j].1, args@[1]),
                decreases n - i + if found { 0int } else { 1int },
            {
                let (_, v) = d.entry(i);
                if values_equal(v, &args[1]) {
                    found = true;
                    assert(value_eq(d.pairs()[i as int].1, args@[1]));
                } else {
                    i = i + 1;
                }
            }
            Ok(Value::Bool(found))
        },
        _ => Err(text("containsvalue() expects a dictionary as the first argument")),
    }
}

/// `size(d)`: the number of keys.
pub fn size(args: Vec<Value>) -> (r: Result<Value, String>)
    ensures
        args.len() != 1 ==> fails_with(r, arity_message("size"@, "1 argument"@, args.len() as nat)),
        args.len() == 1 ==> match args@[0] {
            Value::Dictionary(d) => r matches Ok(v) && is_count(v, d.pairs().len()),
            _ => fails_with(r, "size() expects a dictionary"@),
        },
{
    if args.len() != 1 {
        return Err(arity_error("size", "1 argument", args.len()));
    }
    match &args[0] {
        Value::Dictionary(d) => Ok(Value::Number(number_from_usize(d.len()))),
        _ => Err(text("size() expects a dictionary")),
    }
}

/// `keys(d)`: the keys, as texts.
pub fn keys(args: Vec<Value>) -> (r: Result<Value, String>)
    ensures
        args.len() != 1 ==> fails_with(r, arity_message("keys"@, "1 argument"@, args.len() as nat)),
        args.len() == 1 ==> match args@[0] {
            Value::Dictionary(d) => r matches Ok(Value::Array(w)) && w@.len() == d.pairs().len()
                && forall|i: int| 0 <= i < w@.len() ==> is_text(#[trigger] w@[i], d.pairs()[i].0),
            _ => fails_with(r, "keys() expects a dictionary"@),
        },
{
    if args.len() != 1 {
        return Err(arity_error("keys", "1 argument", args.len()));
    }
    match &args[0] {
        Value::Dictionary(d) => {
            let n = d.len();
            let mut out: Vec<Value> = Vec::new();
            let mut i: usize = 0;
            while i < n
                invariant
                    n == d.pairs().len(),
                    i <= n,
                    out@.len() == i,
                    forall|j: int| 0 <= j < i ==> is_text(#[trigger] out@[j], d.pairs()[j].0),
                decreases n - i,
            {
                let (k, _) = d.entry(i);
                out.push(Value::String(k.clone()));
                i = i + 1;
            }
            Ok(Value::Array(out))
        },
        _ => Err(text("keys() expects a dictionary")),
    }
}

/// `values(d)`: the values, in the order of their keys.
pub fn values(args: Vec<Value>) -> (r: Result<Value, String>)
    ensures
        args.len() != 1 ==> fails_with(r, arity_message("values"@, "1 argument"@, args.len() as nat)),
        args.len() == 1 ==> match args@[0] {
            Value::Dictionary(d) => r matches Ok(Value::Array(w)) && w@ == d.vals(),
            _ => fails_with(r, "values() expects a dictionary"@),
        },
{
    if args.len() != 1 {
        return Err(arity_error("values", "1 argument", args.len()));
    }
    match take_one(args) {
        Value::Dictionary(d) => {
            let ghost m = d.pairs();
            let mut e = d.into_entries();
            let mut out: Vec<Value> = Vec::new();
            let ghost mut i: int = 0;
            while e.len() > 0
                invariant
                    0 <= i <= m.len(),
                    e@.len() == m.len() - i,
                    entries_model(e@) == m.subrange(i, m.len() as int),
                    out@ == m.subrange(0, i).map_values(|p: (Seq<char>, Value)| p.1),
                decreases e.len(),
            {
                let ghost e0 = e@;
                let (_, v) = e.remove(0);
                proof {
                    lemma_entries_model_drop_first(e0);
                    assert(m.subrange(i, m.len() as int).subrange(1, e0.len() as int) =~= m.subrange(i + 1, m.len() as int));
                    assert(entries_model(e0)[0] == m[i]);
                    assert(m[i].1 == v);
                    assert(entries_model(e@) =~= m.subrange(i + 1, m.len() as int));
                    assert(out@.push(v) =~= m.subrange(0, i + 1).map_values(|p: (Seq<char>, Value)| p.1));
                    i = i + 1;
                }
                out.push(v);
            }
            proof {
                assert(m.subrange(0, i) =~= m);
            }
            Ok(Value::Array(out))
        },
        _ => Err(text("values() expects a dictionary")),
    }
}

/// `items(d)`: the pairs, each as the array of its key and its value.
pub fn items(args: Vec<Value>) -> (r: Result<Value, String>)
    ensures
        args.len() != 1 ==> fails_with(r, arity_message("items"@, "1 argument"@, args.len() as nat)),
        args.len() == 1 ==> match args@[0] {
            Value::Dictionary(d) => r matches Ok(Value::Array(w)) && w@.len() == d.pairs().len()
                && forall|i: int| 0 <= i < w@.len() ==> is_pair(#[trigger] w@[i], d.pairs()[i].0, d.pairs()[i].1),
            _ => fails_with(r, "items() expects a dictionary"@),
        },
{
    if args.len() != 1 {
        return Err(arity_error("items", "1 argument", args.len()));
    }
    match take_one(args) {
        Value::Dictionary(d) => {
            let ghost m = d.pairs();
            let mut e = d.into_entries();
            let mut out: Vec<Value> = Vec::new();
            let ghost mut i: int = 0;
            while e.len() > 0
                invariant
                    0 <= i <= m.len(),
                    e@.len() == m.len() - i,
                    entries_model(e@) == m.subrange(i, m.len() as int),
                    out@.len() == i,
                    forall|j: int| 0 <= j < i ==> is_pair(#[trigger] out@[j], m[j].0, m[j].1),
                decreases e.len(),
            {
                let ghost e0 = e@;
                let (k, v) = e.remove(0);
                proof {
                    lemma_entries_model_drop_first(e0);
                    assert(m.subrange(i, m.len() as int).subrange(1, e0.len() as int) =~= m.subrange(i + 1, m.len() as int));
                    assert(entries_model(e0)[0] == m[i]);
                    assert(m[i].0 == k@ && m[i].1 == v);
                    assert(entries_model(e@) =~= m.subrange(i + 1, m.len() as int));
                }
                let mut p: Vec<Value> = Vec::new();
                p.push(Value::String(k));
                p.push(v);
                out.push(Value::Array(p));
                proof {
                    i = i + 1;
                }
            }
            Ok(Value::Array(out))
        },
        _ => Err(text("items() expects a dictionary")),
    }
}

/// `isempty(d)`: whether `d` has no keys.
pub fn isempty(args: Vec<Value>) -> (r: Result<Value, String>)
    ensures
        args.len() != 1 ==> fails_with(r, arity_message("isempty"@, "1 argument"@, args.len() as nat)),
        args.len() == 1 ==> match args@[0] {
            Value::Dictionary(d) => r == Ok::<Value, String>(Value::Bool(d.pairs().len() == 0)),
            _ => fails_with(r, "isempty() expects a dictionary"@),
        },
{
    if args.len() != 1 {
        return Err(arity_error("isempty", "1 argument", args.len()));
    }
    match &args[0] {
        Value::Dictionary(d) => Ok(Value::Bool(d.len() == 0)),
        _ => Err(text("isempty() expects a dictionary")),
    }
}

/// `clear(d)`: `d` without keys.
pub fn clear(args: Vec<Value>) -> (r: Result<Value, String>)
    ensures
        args.len() != 1 ==> fails_with(r, arity_message("clear"@, "1 argument"@, args.len() as nat)),
        args.len() == 1 ==> match args@[0] {
            Value::Dictionary(d) => r matches Ok(Value::Dictionary(d2)) && d2.pairs().len() == 0,
            _ => fails_with(r, "clear() expects a dictionary"@),
        },
{
    if args.len() != 1 {
        return Err(arity_error("clear", "1 argument", args.len()));
    }
    match take_one(args) {
        Value::Dictionary(mut d) => {
            d.clear();
            Ok(Value::Dictionary(d))
        },
        _ => Err(text("clear() expects a dictionary")),
    }
}

/// `merge(d, e)`: `d` with each pair of `e` set in it.
pub fn merge(args: Vec<Value>) -> (r: Result<Value, String>)
    ensures
        args.len() != 2 ==> fails_with(r, arity_message("merge"@, "2 arguments"@, args.len() as nat)),
        args.len() == 2 ==> match (args@[0], args@[1]) {
            (Value::Dictionary(d), Value::Dictionary(e)) => r matches Ok(Value::Dictionary(d2))
                && d2.pairs() == pairs_merge(d.pairs(), e.pairs()),
            _ => fails_with(r, "merge() expects two dictionaries"@),
        },
{
    if args.len() != 2 {
        return Err(arity_error("merge", "2 arguments", args.len()));
    }
    let (a, b) = take_two(args);
    match (a, b) {
        (Value::Dictionary(mut d1), Value::Dictionary(d2)) => {
            let ghost m1 = d1.pairs();
            let ghost m2 = d2.pairs();
            let mut e = d2.into_entries();
            let ghost mut i: int = 0;
            proof {
                assert(m2.subrange(0, 0).len() == 0);
            }
            while e.len() > 0
                invariant
                    0 <= i <= m2.len(),
                    e@.len() == m2.len() - i,
                    entries_model(e@) == m2.subrange(i, m2.len() as int),
                    d1.pairs() == pairs_merge(m1, m2.subrange(0, i)),
                decreases e.len(),
            {
                let ghost e0 = e@;
                let (k, v) = e.remove(0);
                proof {
                    lemma_entries_model_drop_first(e0);
                    assert(m2.subrange(i, m2.len() as int).subrange(1, e0.len() as int) =~= m2.subrange(i + 1, m2.len() as int));
                    assert(entries_model(e0)[0] == m2[i]);
                    assert(m2[i].0 == k@ && m2[i].1 == v);
                    assert(entries_model(e@) =~= m2.subrange(i + 1, m2.len() as int));
                    assert(m2.subrange(0, i + 1).drop_last() =~= m2.subrange(0, i));
                }
                d1.insert(k, v);
                proof {
                    i = i + 1;
                }
            }
            proof {
                assert(m2.subrange(0, i) =~= m2);
            }
            Ok(Value::Dictionary(d1))
        },
        _ => Err(text("merge() expects two dictionaries")),
    }
}

/// `copy(d)`: a dictionary with the pairs of `d`.
pub fn copy(args: Vec<Value>) -> (r: Result<Value, String>)
    ensures
        args.len() != 1 ==> fails_with(r, arity_message("copy"@, "1 argument"@, args.len() as nat)),
        args.len() == 1 ==> match args@[0] {
            Value::Dictionary(d) => r matches Ok(Value::Dictionary(d2)) && d2.pairs() == d.pairs(),
            _ => fails_with(r, "copy() expects a dictionary"@),
        },
{
    if args.len() != 1 {
        return Err(arity_error("copy", "1 argument", args.len()));
    }
    match take_one(args) {
        Value::Dictionary(d) => Ok(Value::Dictionary(d)),
        _ => Err(text("copy() expects a dictionary")),
    }
}

/// `pop(d, k)`: the value under `k` (which leaves the dictionary).
pub fn pop<F: Fn(u64) -> (String, String)>(args: Vec<Value>, decimals: &F) -> (r: Result<Value, String>)
    requires
        writes_numbers(*decimals),
    ensures
        args.len() != 2 ==> fails_with(r, arity_message("pop"@, "2 arguments"@, args.len() as nat)),
        args.len() == 2 ==> match args@[0] {
            Value::Dictionary(d) => match d.lookup(dict_key(args@[1], number_texts(*decimals))) {
                Some(v) => r == Ok::<Value, String>(v),
                None => fails_with(r, key_missing_text("pop(): "@, dict_key(args@[1], number_texts(*decimals)))),
            },
            _ => fails_with(r, "pop() expects a dictionary as the first argument"@),
        },
{
    if args.len() != 2 {
        return Err(arity_error("pop", "2 arguments", args.len()));
    }
    let (a, k) = take_two(args);
    let key = key_of(&k, decimals);
    match a {
        Value::Dictionary(mut d) => match d.remove(&key) {
            Some(v) => Ok(v),
            None => Err(key_missing("pop(): ", &key)),
        },
        _ => Err(text("pop() expects a dictionary as the first argument")),
    }
}

/// `popitem(d)`: the first pair, as the array of its key and its value.
pub fn popitem(args: Vec<Value>) -> (r: Result<Value, String>)
    ensures
        args.len() != 1 ==> fails_with(r, arity_message("popitem"@, "1 argument"@, args.len() as nat)),
        args.len() == 1 ==> match args@[0] {
            Value::Dictionary(d) => if d.pairs().len() > 0 {
                r matches Ok(p) && is_pair(p, d.pairs()[0].0, d.pairs()[0].1)
            } else {
                fails_with(r, "popitem(): dictionary is empty"@)
            },
            _ => fails_with(r, "popitem() expects a dictionary as the first argument"@),
        },
{
    if args.len() != 1 {
        return Err(arity_error("popitem", "1 argument", args.len()));
    }
    match take_one(args) {
        Value::Dictionary(d) => {
            let mut e = d.into_entries();
            if e.len() > 0 {
                let (k, v) = e.remove(0);
                let mut p: Vec<Value> = Vec::new();
                p.push(Value::String(k));
                p.push(v);
                Ok(Value::Array(p))
            } else {
                Err(text("popitem(): dictionary is empty"))
            }
        },
        _ => Err(text("popitem() expects a dictionary as the first argument")),
    }
}

/// `setdefault(d, k, v)`: the value under `k`, or `v` when there is none.
pub fn setdefault<F: Fn(u64) -> (String, String)>(args: Vec<Value>, decimals: &F) -> (r: Result<Value, String>)
    requires
        writes_numbers(*decimals),
    ensures
        args.len() != 3 ==> fails_with(r, arity_message("setdefault"@, "3 arguments"@, args.len() as nat)),
        args.len() == 3 ==> match args@[0] {
            Value::Dictionary(d) => match d.lookup(dict_key(args@[1], number_texts(*decimals))) {
                Some(v) => r == Ok::<Value, String>(v),
                None => r == Ok::<Value, String>(args@[2]),
            },
            _ => fails_with(r, "setdefault() expects a dictionary as the first argument"@),
        },
{
    if args.len() != 3 {
        return Err(arity_error("setdefault", "3 arguments", args.len()));
    }
    let (a, k, v) = take_three(args);
    let key = key_of(&k, decimals);
    match a {
        Value::Dictionary(mut d) => match d.remove(&key) {
            Some(existing) => Ok(existing),
            None => Ok(v),
        },
        _ => Err(text("setdefault() expects a dictionary as the first argument")),
    }
}

#[verifier::external_type_specification]
#[verifier::external_body]
pub struct ExJsonError(serde_json::Error);

/// The text that `serde_json::to_string` gives for the JSON object whose
/// members are the given pairs of a key and a JSON string.
pub uninterp spec fn json_object_text(pairs: Seq<(Seq<char>, Seq<char>)>) -> Seq<char>;

pub open spec fn text_pairs_model(p: Seq<(String, String)>) -> Seq<(Seq<char>, Seq<char>)> {
    p.map_values(|e: (String, String)| (e.0@, e.1@))
}

/// `serde_json::to_string` of a `serde_json::Map` built from the pairs, each
/// value a JSON string. serde_json documents that serialising fails only
/// where a `Serialize` impl decides to or where a map has keys that are not
/// strings; neither can happen here, so the call succeeds, and the contract
/// names the text it gives.
#[verifier::external_body]
fn json_object_string(pairs: &Vec<(String, String)>) -> (r: Result<String, serde_json::Error>)
    ensures
        r is Ok,
        r matches Ok(s) ==> s@ == json_object_text(text_pairs_model(pairs@)),
{
    let m: serde_json::Map<String, serde_json::Value> = pairs.iter().map(
        |p| (p.0.clone(), serde_json::Value::String(p.1.clone())),
    ).collect();
    serde_json::to_string(&m)
}

/// The `Display` text of a `serde_json::Error`; nothing is stated of it.
#[verifier::external_body]
fn json_error_string(e: &serde_json::Error) -> String {
    format!("{}", e)
}

/// The pairs of a dictionary with each value replaced by its debug form.
pub open spec fn debug_pairs(s: Seq<(Seq<char>, Value)>, nt: spec_fn(u64) -> (Seq<char>, Seq<char>)) -> Seq<(Seq<char>, Seq<char>)> {
    s.map_values(|p: (Seq<char>, Value)| (p.0, debug_form(p.1, nt)))
}

/// `tojson(d)`: the JSON object of the keys of `d`, each with the debug
/// form of its value as a JSON string.
pub fn tojson<F: Fn(u64) -> (String, String)>(args: Vec<Value>, decimals: &F) -> (r: Result<Value, String>)
    requires
        writes_numbers(*decimals),
    ensures
        args.len() != 1 ==> fails_with(r, arity_message("tojson"@, "1 argument"@, args.len() as nat)),
        args.len() == 1 ==> match args@[0] {
            Value::Dictionary(d) => r matches Ok(Value::String(t)) && t@ == json_object_text(
                debug_pairs(d.pairs(), number_texts(*decimals)),
            ),
            _ => fails_with(r, "tojson() expects a dictionary"@),
        },
{
    if args.len() != 1 {
        return Err(arity_error("tojson", "1 argument", args.len()));
    }
    match &args[0] {
        Value::Dictionary(d) => {
            let n = d.len();
            let mut pairs: Vec<(String, String)> = Vec::new();
            let mut i: usize = 0;
            while i < n
                invariant
                    n == d.pairs().len(),
                    i <= n,
                    pairs@.len() == i,
                    writes_numbers(*decimals),
                    text_pairs_model(pairs@) == debug_pairs(d.pairs(), number_texts(*decimals)).subrange(0, i as int),
                decreases n - i,
            {
                let (k, v) = d.entry(i);
                let dv = debug_string(v, decimals);
                let ghost before = pairs@;
                pairs.push((k.clone(), dv));
                proof {
                    assert(pairs@[i as int].0@ == d.pairs()[i as int].0);
                    assert(pairs@[i as int].1@ == debug_form(d.pairs()[i as int].1, number_texts(*decimals)));
                    assert(text_pairs_model(pairs@)[i as int] == debug_pairs(d.pairs(), number_texts(*decimals))[i as int]);
                    assert forall|j: int| 0 <= j < i implies text_pairs_model(pairs@)[j] == text_pairs_model(before)[j] by {
                        assert(pairs@[j] == before[j]);
                    }
                    assert(text_pairs_model(pairs@) =~= debug_pairs(d.pairs(), number_texts(*decimals)).subrange(0, i + 1));
                }
                i = i + 1;
            }
            proof {
                assert(debug_pairs(d.pairs(), number_texts(*decimals)).subrange(0, n as int) =~= debug_pairs(d.pairs(), number_texts(*decimals)));
            }
            match json_object_string(&pairs) {
                Ok(s) => Ok(Value::String(s)),
                Err(e) => {
                    let mut m = text("tojson() error: ");
                    let et = json_error_string(&e);
                    let ghost head = m@;
                    m.append(et.as_str());
                    assert(m@ == "tojson() error: "@ + et@);
                    Err(m)
                },
            }
        },
        _ => Err(text("tojson() expects a dictionary")),
    }
}

} // verus!
