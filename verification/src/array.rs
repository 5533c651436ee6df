//! The array built-ins. Each takes the arguments of the script's call and
//! gives back the value of the call or the text of an error. The array that a
//! function changes is the one it received: the changed array is its result.

use vstd::prelude::*;
use vstd::multiset::Multiset;
use crate::number::{
    NumOrder, num_order, num_less, holds_integer, nearest_representable, saturating_usize, abs_int,
    bit_length, number_order, number_from_usize, number_from_i64, number_to_usize,
};
use crate::text::{arity_message, fails_with, arity_error, text};
use crate::value::{Value, value_eq, values_equal, take_one, take_two, take_three};

verus! {

/// `v` is a number that holds the whole number `n`, without sign.
pub open spec fn is_count(v: Value, n: nat) -> bool {
    v matches Value::Number(b) && holds_integer(b, nearest_representable(n), false)
}

/// `i` is the first index of `s` whose element equals `t`.
pub open spec fn is_first_match(s: Seq<Value>, t: Value, i: int) -> bool {
    &&& 0 <= i < s.len()
    &&& value_eq(s[i], t)
    &&& forall|j: int| 0 <= j < i ==> !value_eq(#[trigger] s[j], t)
}

/// The first index of `s` whose element equals `t`, or -1.
pub open spec fn first_match(s: Seq<Value>, t: Value) -> int {
    if exists|i: int| is_first_match(s, t, i) {
        choose|i: int| is_first_match(s, t, i)
    } else {
        -1
    }
}

pub proof fn lemma_first_match(s: Seq<Value>, t: Value, i: int)
    requires
        is_first_match(s, t, i),
    ensures
        first_match(s, t) == i,
{
    let k = choose|k: int| is_first_match(s, t, k);
    assert(is_first_match(s, t, k));
    if k < i {
        assert(!value_eq(s[k], t));
    } else if k > i {
        assert(!value_eq(s[i], t));
    }
}

/// Where some element equals `t`, a first one does.
pub proof fn lemma_some_first_match(s: Seq<Value>, t: Value, i: int)
    requires
        0 <= i < s.len(),
        value_eq(s[i], t),
    ensures
        first_match(s, t) >= 0,
    decreases i,
{
    if forall|j: int| 0 <= j < i ==> !value_eq(#[trigger] s[j], t) {
        assert(is_first_match(s, t, i));
        lemma_first_match(s, t, i);
    } else {
        let j = choose|j: int| 0 <= j < i && !!value_eq(#[trigger] s[j], t);
        lemma_some_first_match(s, t, j);
    }
}

pub proof fn lemma_no_match(s: Seq<Value>, t: Value)
    requires
        forall|j: int| 0 <= j < s.len() ==> !value_eq(#[trigger] s[j], t),
    ensures
        first_match(s, t) == -1,
{
    if exists|i: int| is_first_match(s, t, i) {
        let k = choose|k: int| is_first_match(s, t, k);
        assert(value_eq(s[k], t));
    }
}

/// The first index of `s` whose element equals `t`, if any.
pub fn find_value(s: &Vec<Value>, t: &Value) -> (r: Option<usize>)
    ensures
        r matches Some(i) ==> first_match(s@, *t) == i,
        r is None ==> first_match(s@, *t) == -1,
{
    let mut i: usize = 0;
    while i < s.len()
        invariant
            i <= s.len(),
            forall|j: int| 0 <= j < i ==> !value_eq(#[trigger] s@[j], *t),
        decreases s.len() - i,
    {
        if values_equal(&s[i], t) {
            proof {
                lemma_first_match(s@, *t, i as int);
            }
            return Some(i);
        }
        i = i + 1;
    }
    proof {
        lemma_no_match(s@, *t);
    }
    None
}

/// Order of texts: character by character, a text before its extensions.
pub open spec fn text_order(x: Seq<char>, y: Seq<char>) -> NumOrder
    decreases x.len(),
{
    if x.len() == 0 && y.len() == 0 {
        NumOrder::Equal
    } else if x.len() == 0 {
        NumOrder::Less
    } else if y.len() == 0 {
        NumOrder::Greater
    } else if (x[0] as u32) < (y[0] as u32) {
        NumOrder::Less
    } else if (x[0] as u32) > (y[0] as u32) {
        NumOrder::Greater
    } else {
        text_order(x.drop_first(), y.drop_first())
    }
}

pub open spec fn reverse_order(o: NumOrder) -> NumOrder {
    match o {
        NumOrder::Less => NumOrder::Greater,
        NumOrder::Equal => NumOrder::Equal,
        NumOrder::Greater => NumOrder::Less,
    }
}

/// The order by which `array_sort` arranges values: numbers by value (NaN
/// beside everything), texts as `text_order` says, and any other pair as equal.
#[verifier::opaque]
pub open spec fn sort_order(a: Value, b: Value) -> NumOrder {
    match (a, b) {
        (Value::Number(x), Value::Number(y)) => match num_order(x, y) {
            Some(o) => o,
            None => NumOrder::Equal,
        },
        (Value::String(x), Value::String(y)) => text_order(x@, y@),
        _ => NumOrder::Equal,
    }
}

pub proof fn lemma_text_order_reverse(x: Seq<char>, y: Seq<char>)
    ensures
        text_order(y, x) == reverse_order(text_order(x, y)),
    decreases x.len(),
{
    if x.len() > 0 && y.len() > 0 && (x[0] as u32) == (y[0] as u32) {
        lemma_text_order_reverse(x.drop_first(), y.drop_first());
    }
}

pub proof fn lemma_num_less_asym(a: u64, b: u64)
    ensures
        !(num_less(a, b) && num_less(b, a)),
{
}

pub proof fn lemma_sort_order_reverse(a: Value, b: Value)
    ensures
        sort_order(b, a) == reverse_order(sort_order(a, b)),
{
    reveal(sort_order);
    match (a, b) {
        (Value::Number(x), Value::Number(y)) => {
            lemma_num_less_asym(x, y);
        },
        (Value::String(x), Value::String(y)) => {
            lemma_text_order_reverse(x@, y@);
        },
        _ => {},
    }
}

/// `text_order` for two texts.
pub fn text_order_of(x: &String, y: &String) -> (r: NumOrder)
    ensures
        r == text_order(x@, y@),
{
    let nx = x.as_str().unicode_len();
    let ny = y.as_str().unicode_len();
    let mut i: usize = 0;
    proof {
        assert(x@.skip(0) =~= x@);
        assert(y@.skip(0) =~= y@);
    }
    while i < nx && i < ny
        invariant
            nx == x@.len(),
            ny == y@.len(),
            i <= nx,
            i <= ny,
            text_order(x@, y@) == text_order(x@.skip(i as int), y@.skip(i as int)),
        decreases nx - i,
    {
        let cx = x.as_str().get_char(i);
        let cy = y.as_str().get_char(i);
        proof {
            assert(x@.skip(i as int)[0] == cx);
            assert(y@.skip(i as int)[0] == cy);
            assert(x@.skip(i as int).drop_first() =~= x@.skip(i + 1));
            assert(y@.skip(i as int).drop_first() =~= y@.skip(i + 1));
        }
        if (cx as u32) < (cy as u32) {
            return NumOrder::Less;
        }
        if (cx as u32) > (cy as u32) {
            return NumOrder::Greater;
        }
        i = i + 1;
    }
    if i == nx && i == ny {
        NumOrder::Equal
    } else if i == nx {
        NumOrder::Less
    } else {
        NumOrder::Greater
    }
}

/// `sort_order` for two values.
pub fn sort_order_of(a: &Value, b: &Value) -> (r: NumOrder)
    ensures
        r == sort_order(*a, *b),
{
    reveal(sort_order);
    match (a, b) {
        (Value::Number(x), Value::Number(y)) => match number_order(*x, *y) {
            Some(o) => o,
            None => NumOrder::Equal,
        },
        (Value::String(x), Value::String(y)) => text_order_of(x, y),
        _ => NumOrder::Equal,
    }
}

/// No element of `s` comes after its successor.
pub open spec fn adjacent_in_order(s: Seq<Value>) -> bool {
    forall|i: int| 0 <= i < s.len() - 1 ==> sort_order(#[trigger] s[i], s[i + 1]) != NumOrder::Greater
}

/// Putting `x` where its left neighbour does not come after it and its right
/// neighbour does keeps neighbours in order.
pub proof fn lemma_insert_in_order(s: Seq<Value>, p: int, x: Value)
    requires
        adjacent_in_order(s),
        0 <= p <= s.len(),
        p == 0 || sort_order(s[p - 1], x) != NumOrder::Greater,
        p == s.len() || sort_order(s[p], x) == NumOrder::Greater,
    ensures
        adjacent_in_order(s.insert(p, x)),
{
    let t = s.insert(p, x);
    assert forall|i: int| 0 <= i < t.len() - 1 implies sort_order(#[trigger] t[i], t[i + 1]) != NumOrder::Greater by {
        if i < p - 1 {
            assert(t[i] == s[i] && t[i + 1] == s[i + 1]);
        } else if i == p - 1 {
            assert(t[i] == s[i] && t[i + 1] == x);
        } else if i == p {
            assert(t[i] == x && t[i + 1] == s[p]);
            lemma_sort_order_reverse(s[p], x);
        } else {
            assert(t[i] == s[i - 1] && t[i + 1] == s[i]);
        }
    }
}

/// Moving the first element of `before` into `out` at `p` keeps the elements.
proof fn lemma_move_one(before: Seq<Value>, out: Seq<Value>, p: int)
    requires
        before.len() > 0,
        0 <= p <= out.len(),
    ensures
        out.insert(p, before[0]).to_multiset().add(before.remove(0).to_multiset())
            == out.to_multiset().add(before.to_multiset()),
{
    vstd::seq_lib::to_multiset_remove(before, 0);
    vstd::seq_lib::to_multiset_insert(out, p, before[0]);
    vstd::seq_lib::to_multiset_contains(before, before[0]);
    assert(before.contains(before[0]));
    let x = before[0];
    let a = out.to_multiset();
    let b = before.to_multiset();
    assert(a.insert(x).add(b.remove(x)) =~= a.add(b));
}

/// Where `x` goes in `out`: after the last element that does not come after it.
fn insertion_point(out: &Vec<Value>, x: &Value) -> (p: usize)
    ensures
        p <= out.len(),
        p == 0 || sort_order(out@[p - 1], *x) != NumOrder::Greater,
        p == out.len() || sort_order(out@[p as int], *x) == NumOrder::Greater,
        forall|k: int| p <= k < out.len() ==> sort_order(#[trigger] out@[k], *x) == NumOrder::Greater,
{
    let mut p = out.len();
    while p > 0 && sort_order_of(&out[p - 1], x) == NumOrder::Greater
        invariant
            p <= out.len(),
            p < out.len() ==> sort_order(out@[p as int], *x) == NumOrder::Greater,
            forall|k: int| p <= k < out.len() ==> sort_order(#[trigger] out@[k], *x) == NumOrder::Greater,
        decreases p,
    {
        p = p - 1;
    }
    p
}

/// `w` holds the elements of `a`, the element at `k` being the one at
/// `idx[k]` in `a`, each taken once; and an element stands before one that
/// came before it in `a` only where that one comes after it in sort order.
#[verifier::opaque]
pub open spec fn arranged_by(a: Seq<Value>, w: Seq<Value>, idx: Seq<int>) -> bool {
    &&& idx.len() == w.len()
    &&& w.len() == a.len()
    &&& forall|k: int| 0 <= k < w.len() ==> 0 <= #[trigger] idx[k] < a.len() && w[k] == a[idx[k]]
    &&& forall|k1: int, k2: int|
        0 <= k1 < w.len() && 0 <= k2 < w.len() && k1 != k2 ==> #[trigger] idx[k1] != #[trigger] idx[k2]
    &&& forall|k1: int, k2: int|
        0 <= k1 < k2 < w.len() && #[trigger] idx[k1] > #[trigger] idx[k2] ==> sort_order(w[k2], w[k1])
            == NumOrder::Greater
}

/// `w` is `a` sorted stably: its elements rearranged so that of two
/// elements, the one that came later in `a` ends first only where the other
/// comes after it in sort order.
pub open spec fn stably_arranged(a: Seq<Value>, w: Seq<Value>) -> bool {
    exists|idx: Seq<int>| arranged_by(a, w, idx)
}

/// Putting the next element of `a` at `p`, past only elements that come
/// after it, keeps the arrangement stable.
proof fn lemma_arranged_insert(a: Seq<Value>, w: Seq<Value>, idx: Seq<int>, x: Value, p: int)
    requires
        arranged_by(a, w, idx),
        0 <= p <= w.len(),
        forall|k: int| p <= k < w.len() ==> sort_order(#[trigger] w[k], x) == NumOrder::Greater,
    ensures
        arranged_by(a.push(x), w.insert(p, x), idx.insert(p, a.len() as int)),
{
    reveal(arranged_by);
    let w2 = w.insert(p, x);
    let idx2 = idx.insert(p, a.len() as int);
    let a2 = a.push(x);
    assert forall|k: int| 0 <= k < w2.len() implies 0 <= #[trigger] idx2[k] < a2.len() && w2[k] == a2[idx2[k]] by {
        if k < p {
            assert(idx2[k] == idx[k] && w2[k] == w[k]);
        } else if k > p {
            assert(idx2[k] == idx[k - 1] && w2[k] == w[k - 1]);
        }
    }
    assert forall|k1: int, k2: int| 0 <= k1 < w2.len() && 0 <= k2 < w2.len() && k1 != k2 implies #[trigger] idx2[k1]
        != #[trigger] idx2[k2] by {
        let j1 = if k1 < p { k1 } else { k1 - 1 };
        let j2 = if k2 < p { k2 } else { k2 - 1 };
        if k1 != p && k2 != p {
            assert(idx2[k1] == idx[j1] && idx2[k2] == idx[j2]);
        } else if k1 == p {
            assert(idx2[k2] == idx[j2]);
        } else {
            assert(idx2[k1] == idx[j1]);
        }
    }
    assert forall|k1: int, k2: int| 0 <= k1 < k2 < w2.len() && #[trigger] idx2[k1] > #[trigger] idx2[k2] implies sort_order(
        w2[k2],
        w2[k1],
    ) == NumOrder::Greater by {
        let j1 = if k1 < p { k1 } else { k1 - 1 };
        let j2 = if k2 < p { k2 } else { k2 - 1 };
        if k1 == p {
            assert(w2[k2] == w[j2] && w2[k1] == x);
        } else if k2 == p {
            assert(idx2[k1] == idx[j1]);
        } else {
            assert(idx2[k1] == idx[j1] && idx2[k2] == idx[j2]);
            assert(w2[k1] == w[j1] && w2[k2] == w[j2]);
        }
    }
}

/// The elements of `s` in the order of `sort_order`, by insertion: an
/// element goes after the elements before it that do not come after it.
#[verifier::rlimit(60)]
pub fn sort_values(s: Vec<Value>) -> (r: Vec<Value>)
    ensures
        r@.to_multiset() == s@.to_multiset(),
        adjacent_in_order(r@),
        stably_arranged(s@, r@),
{
    let ghost total = s@;
    let mut rest = s;
    let mut out: Vec<Value> = Vec::new();
    let ghost mut c: int = 0;
    let ghost mut idx: Seq<int> = Seq::empty();
    proof {
        assert(total.skip(0) =~= total);
        assert(total.take(0) =~= Seq::<Value>::empty());
        reveal(arranged_by);
        assert(arranged_by(total.take(0), out@, idx));
    }
    proof {
        vstd::seq_lib::to_multiset_len(out@);
        vstd::multiset::lemma_multiset_empty_len(out@.to_multiset());
    }
    while rest.len() > 0
        invariant
            out@.to_multiset().add(rest@.to_multiset()) == total.to_multiset(),
            adjacent_in_order(out@),
            0 <= c <= total.len(),
            rest@ == total.skip(c),
            arranged_by(total.take(c), out@, idx),
        decreases rest.len(),
    {
        let ghost before = rest@;
        let x = rest.remove(0);
        let p = insertion_point(&out, &x);
        let ghost old_out = out@;
        proof {
            lemma_insert_in_order(old_out, p as int, x);
            assert(x == total[c]);
            lemma_arranged_insert(total.take(c), old_out, idx, x, p as int);
            assert(total.take(c).push(x) =~= total.take(c + 1));
            assert(rest@ =~= total.skip(c + 1));
            idx = idx.insert(p as int, c);
            c = c + 1;
        }
        out.insert(p, x);
        proof {
            lemma_move_one(before, old_out, p as int);
        }
    }
    proof {
        vstd::seq_lib::to_multiset_len(rest@);
        vstd::multiset::lemma_multiset_empty_len(rest@.to_multiset());
        assert(out@.to_multiset() =~= total.to_multiset());
        assert(c == total.len());
        assert(total.take(c) =~= total);
        assert(arranged_by(total, out@, idx));
    }
    out
}

/// `array_length(a)`: the number of elements.
pub fn array_length(args: Vec<Value>) -> (r: Result<Value, String>)
    ensures
        args.len() != 1 ==> fails_with(r, arity_message("array_length"@, "1 argument"@, args.len() as nat)),
        args.len() == 1 ==> match args@[0] {
            Value::Array(a) => r matches Ok(v) && is_count(v, a.len() as nat),
            _ => fails_with(r, "array_length() expects an array"@),
        },
{
    if args.len() != 1 {
        return Err(arity_error("array_length", "1 argument", args.len()));
    }
    match &args[0] {
        Value::Array(arr) => Ok(Value::Number(number_from_usize(arr.len()))),
        _ => Err(text("array_length() expects an array")),
    }
}

/// `array_append(a, v)`: `a` with `v` added at its end.
pub fn array_append(args: Vec<Value>) -> (r: Result<Value, String>)
    ensures
        args.len() != 2 ==> fails_with(r, arity_message("array_append"@, "2 arguments"@, args.len() as nat)),
        args.len() == 2 ==> match args@[0] {
            Value::Array(a) => r matches Ok(Value::Array(w)) && w@ == a@.push(args@[1]),
            _ => fails_with(r, "array_append() expects an array"@),
        },
{
    if args.len() != 2 {
        return Err(arity_error("array_append", "2 arguments", args.len()));
    }
    let (a, v) = take_two(args);
    match a {
        Value::Array(mut arr) => {
            arr.push(v);
            Ok(Value::Array(arr))
        },
        _ => Err(text("array_append() expects an array")),
    }
}

/// `array_copy(a)`: a shallow copy of `a`.
pub fn array_copy(args: Vec<Value>) -> (r: Result<Value, String>)
    ensures
        args.len() != 1 ==> fails_with(r, arity_message("array_copy"@, "1 argument"@, args.len() as nat)),
        args.len() == 1 ==> match args@[0] {
            Value::Array(a) => r matches Ok(Value::Array(w)) && w@ == a@,
            _ => fails_with(r, "array_copy() expects an array"@),
        },
{
    if args.len() != 1 {
        return Err(arity_error("array_copy", "1 argument", args.len()));
    }
    match take_one(args) {
        Value::Array(arr) => Ok(Value::Array(arr)),
        _ => Err(text("array_copy() expects an array")),
    }
}

/// `array_clear(a)`: `a` without elements.
pub fn array_clear(args: Vec<Value>) -> (r: Result<Value, String>)
    ensures
        args.len() != 1 ==> fails_with(r, arity_message("array_clear"@, "1 argument"@, args.len() as nat)),
        args.len() == 1 ==> match args@[0] {
            Value::Array(a) => r matches Ok(Value::Array(w)) && w@ == Seq::<Value>::empty(),
            _ => fails_with(r, "array_clear() expects an array"@),
        },
{
    if args.len() != 1 {
        return Err(arity_error("array_clear", "1 argument", args.len()));
    }
    match take_one(args) {
        Value::Array(mut arr) => {
            arr.clear();
            Ok(Value::Array(arr))
        },
        _ => Err(text("array_clear() expects an array")),
    }
}

/// `array_remove(a, v)`: `a` without the first element that equals `v`.
pub fn array_remove(args: Vec<Value>) -> (r: Result<Value, String>)
    ensures
        args.len() != 2 ==> fails_with(r, arity_message("array_remove"@, "2 arguments"@, args.len() as nat)),
        args.len() == 2 ==> match args@[0] {
            Value::Array(a) => r matches Ok(Value::Array(w)) && w@ == (if first_match(a@, args@[1]) >= 0 {
                a@.remove(first_match(a@, args@[1]))
            } else {
                a@
            }),
            _ => fails_with(r, "array_remove() expects an array"@),
        },
{
    if args.len() != 2 {
        return Err(arity_error("array_remove", "2 arguments", args.len()));
    }
    let (a, target) = take_two(args);
    match a {
        Value::Array(mut arr) => {
            match find_value(&arr, &target) {
                Some(i) => {
                    arr.remove(i);
                },
                None => {},
            }
            Ok(Value::Array(arr))
        },
        _ => Err(text("array_remove() expects an array")),
    }
}

/// `array_reverse(a)`: the elements of `a`, last first.
pub fn array_reverse(args: Vec<Value>) -> (r: Result<Value, String>)
    ensures
        args.len() != 1 ==> fails_with(r, arity_message("array_reverse"@, "1 argument"@, args.len() as nat)),
        args.len() == 1 ==> match args@[0] {
            Value::Array(a) => r matches Ok(Value::Array(w)) && w@ == a@.reverse(),
            _ => fails_with(r, "array_reverse() expects an array"@),
        },
{
    if args.len() != 1 {
        return Err(arity_error("array_reverse", "1 argument", args.len()));
    }
    match take_one(args) {
        Value::Array(arr) => {
            let ghost a = arr@;
            let mut rest = arr;
            let mut out: Vec<Value> = Vec::new();
            while rest.len() > 0
                invariant
                    rest@ + out@.reverse() == a,
                decreases rest.len(),
            {
                let x = rest.pop().unwrap();
                proof {
                    assert(rest@.push(x) + out@.reverse() =~= rest@ + out@.push(x).reverse());
                }
                out.push(x);
            }
            proof {
                assert(out@.reverse() =~= a);
                assert(out@ =~= a.reverse());
            }
            Ok(Value::Array(out))
        },
        _ => Err(text("array_reverse() expects an array")),
    }
}

/// `array_insert(a, i, v)`: `a` with `v` put at index `i`.
pub fn array_insert(args: Vec<Value>) -> (r: Result<Value, String>)
    ensures
        args.len() != 3 ==> fails_with(r, arity_message("array_insert"@, "3 arguments"@, args.len() as nat)),
        args.len() == 3 ==> match args@[1] {
            Value::Number(n) => match args@[0] {
                Value::Array(a) => if saturating_usize(n) <= a.len() {
                    r matches Ok(Value::Array(w)) && w@ == a@.insert(saturating_usize(n) as int, args@[2])
                } else {
                    fails_with(r, "array_insert(): Index out of bounds"@)
                },
                _ => fails_with(r, "array_insert() expects an array"@),
            },
            _ => fails_with(r, "array_insert(): Index must be a number"@),
        },
{
    if args.len() != 3 {
        return Err(arity_error("array_insert", "3 arguments", args.len()));
    }
    let (a, idx, v) = take_three(args);
    let index = match idx {
        Value::Number(n) => number_to_usize(n),
        _ => {
            return Err(text("array_insert(): Index must be a number"));
        },
    };
    match a {
        Value::Array(mut arr) => {
            if index <= arr.len() {
                arr.insert(index, v);
                Ok(Value::Array(arr))
            } else {
                Err(text("array_insert(): Index out of bounds"))
            }
        },
        _ => Err(text("array_insert() expects an array")),
    }
}

/// `array_sort(a)`: the elements of `a` arranged by `sort_order`.
pub fn array_sort(args: Vec<Value>) -> (r: Result<Value, String>)
    ensures
        args.len() != 1 ==> fails_with(r, arity_message("array_sort"@, "1 argument"@, args.len() as nat)),
        args.len() == 1 ==> match args@[0] {
            Value::Array(a) => r matches Ok(Value::Array(w)) && w@.to_multiset() == a@.to_multiset()
                && adjacent_in_order(w@) && stably_arranged(a@, w@),
            _ => fails_with(r, "array_sort() expects an array"@),
        },
{
    if args.len() != 1 {
        return Err(arity_error("array_sort", "1 argument", args.len()));
    }
    match take_one(args) {
        Value::Array(arr) => Ok(Value::Array(sort_values(arr))),
        _ => Err(text("array_sort() expects an array")),
    }
}

/// What `array_indexof` gives: the index of the first element equal to the
/// value, or -1.
pub open spec fn index_found(args: Seq<Value>, r: Result<Value, String>) -> bool {
    &&& (args.len() != 2 ==> fails_with(r, arity_message("array_indexof"@, "2 arguments"@, args.len() as nat)))
    &&& (args.len() == 2 ==> match args[0] {
        Value::Array(a) => if first_match(a@, args[1]) >= 0 {
            r matches Ok(v) && is_count(v, first_match(a@, args[1]) as nat)
        } else {
            r matches Ok(Value::Number(b)) && holds_integer(b, 1, true)
        },
        _ => fails_with(r, "array_indexof() expects an array"@),
    })
}

/// `array_indexof(a, v)`: index of the first element equal to `v`, or -1.
pub fn array_indexof(args: Vec<Value>) -> (r: Result<Value, String>)
    ensures
        index_found(args@, r),
{
    if args.len() != 2 {
        return Err(arity_error("array_indexof", "2 arguments", args.len()));
    }
    match &args[0] {
        Value::Array(arr) => match find_value(arr, &args[1]) {
            Some(i) => Ok(Value::Number(number_from_usize(i))),
            None => {
                let b = number_from_i64(-1);
                proof {
                    lemma2_to64_for_one();
                }
                Ok(Value::Number(b))
            },
        },
        _ => Err(text("array_indexof() expects an array")),
    }
}

proof fn lemma2_to64_for_one()
    ensures
        nearest_representable(abs_int(-1)) == 1,
{
    assert(bit_length(1) == 1) by {
        assert(bit_length(0) == 0);
    }
}

/// `array_pop(a)`: the last element of `a`, or null when `a` is empty.
pub fn array_pop(args: Vec<Value>) -> (r: Result<Value, String>)
    ensures
        args.len() != 1 ==> fails_with(r, arity_message("array_pop"@, "1 argument"@, args.len() as nat)),
        args.len() == 1 ==> match args@[0] {
            Value::Array(a) => r == Ok::<Value, String>(if a.len() > 0 { a@.last() } else { Value::Null }),
            _ => fails_with(r, "array_pop() expects an array"@),
        },
{
    if args.len() != 1 {
        return Err(arity_error("array_pop", "1 argument", args.len()));
    }
    match take_one(args) {
        Value::Array(mut arr) => match arr.pop() {
            Some(item) => Ok(item),
            None => Ok(Value::Null),
        },
        _ => Err(text("array_pop() expects an array")),
    }
}

/// `array_shift(a)`: the first element of `a`, or null when `a` is empty.
pub fn array_shift(args: Vec<Value>) -> (r: Result<Value, String>)
    ensures
        args.len() != 1 ==> fails_with(r, arity_message("array_shift"@, "1 argument"@, args.len() as nat)),
        args.len() == 1 ==> match args@[0] {
            Value::Array(a) => r == Ok::<Value, String>(if a.len() > 0 { a@[0] } else { Value::Null }),
            _ => fails_with(r, "array_shift() expects an array"@),
        },
{
    if args.len() != 1 {
        return Err(arity_error("array_shift", "1 argument", args.len()));
    }
    match take_one(args) {
        Value::Array(mut arr) => {
            if arr.len() > 0 {
                Ok(arr.remove(0))
            } else {
                Ok(Value::Null)
            }
        },
        _ => Err(text("array_shift() expects an array")),
    }
}

/// `array_unshift(a, v)`: `a` with `v` put first.
pub fn array_unshift(args: Vec<Value>) -> (r: Result<Value, String>)
    ensures
        args.len() != 2 ==> fails_with(r, arity_message("array_unshift"@, "2 arguments"@, args.len() as nat)),
        args.len() == 2 ==> match args@[0] {
            Value::Array(a) => r matches Ok(Value::Array(w)) && w@ == a@.insert(0, args@[1]),
            _ => fails_with(r, "array_unshift() expects an array"@),
        },
{
    if args.len() != 2 {
        return Err(arity_error("array_unshift", "2 arguments", args.len()));
    }
    let (a, v) = take_two(args);
    match a {
        Value::Array(mut arr) => {
            arr.insert(0, v);
            Ok(Value::Array(arr))
        },
        _ => Err(text("array_unshift() expects an array")),
    }
}

/// `array_slice(a, start, end)`: the elements of `a` from `start` up to
/// `end` (cut at the length of `a`).
pub fn array_slice(args: Vec<Value>) -> (r: Result<Value, String>)
    ensures
        args.len() != 3 ==> fails_with(r, arity_message("array_slice"@, "3 arguments"@, args.len() as nat)),
        args.len() == 3 ==> match (args@[0], args@[1], args@[2]) {
            (Value::Array(a), Value::Number(x), Value::Number(y)) => {
                let s = saturating_usize(x);
                let e = if saturating_usize(y) < a.len() { saturating_usize(y) } else { a.len() as nat };
                if s <= e {
                    r matches Ok(Value::Array(w)) && w@ == a@.subrange(s as int, e as int)
                } else {
                    fails_with(r, "array_slice(): Invalid slice indices"@)
                }
            },
            _ => fails_with(r, "array_slice() expects an array and two numbers"@),
        },
{
    if args.len() != 3 {
        return Err(arity_error("array_slice", "3 arguments", args.len()));
    }
    let (a, x, y) = take_three(args);
    match (a, x, y) {
        (Value::Array(mut arr), Value::Number(start), Value::Number(end)) => {
            let s = number_to_usize(start);
            let e0 = number_to_usize(end);
            let e = if e0 < arr.len() { e0 } else { arr.len() };
            if s <= e && s <= arr.len() {
                arr.truncate(e);
                let part = arr.split_off(s);
                Ok(Value::Array(part))
            } else {
                Err(text("array_slice(): Invalid slice indices"))
            }
        },
        _ => Err(text("array_slice() expects an array and two numbers")),
    }
}

/// `array_splice(a, start, count, ...)`: the `count` elements of `a` from
/// `start` on (fewer where `a` ends first). The values after `count` would go
/// in their place in `a`, which the call does not give back.
pub fn array_splice(args: Vec<Value>) -> (r: Result<Value, String>)
    requires
        args.len() >= 3 && args@[0] is Array && args@[1] is Number && args@[2] is Number && saturating_usize(
            args@[1]->Number_0,
        ) <= args@[0]->Array_0.len() ==> saturating_usize(args@[1]->Number_0) + saturating_usize(args@[2]->Number_0)
            <= usize::MAX,
    ensures
        args.len() < 3 ==> fails_with(r, arity_message("array_splice"@, "at least 3 arguments"@, args.len() as nat)),
        args.len() >= 3 ==> match args@[1] {
            Value::Number(x) => match args@[2] {
                Value::Number(y) => match args@[0] {
                    Value::Array(a) => {
                        let s = saturating_usize(x);
                        let e = if s + saturating_usize(y) < a.len() { s + saturating_usize(y) } else { a.len() as nat };
                        if s <= a.len() {
                            r matches Ok(Value::Array(w)) && w@ == a@.subrange(s as int, e as int)
                        } else {
                            fails_with(r, "array_splice(): Start index out of bounds"@)
                        }
                    },
                    _ => fails_with(r, "array_splice() expects an array"@),
                },
                _ => fails_with(r, "array_splice(): Count must be a number"@),
            },
            _ => fails_with(r, "array_splice(): Start must be a number"@),
        },
{
    if args.len() < 3 {
        return Err(arity_error("array_splice", "at least 3 arguments", args.len()));
    }
    let start = match &args[1] {
        Value::Number(n) => number_to_usize(*n),
        _ => {
            return Err(text("array_splice(): Start must be a number"));
        },
    };
    let count = match &args[2] {
        Value::Number(n) => number_to_usize(*n),
        _ => {
            return Err(text("array_splice(): Count must be a number"));
        },
    };
    let mut args = args;
    let ghost a0 = args@[0];
    let mut rest = args.split_off(1);
    let a = args.pop().unwrap();
    assert(a == a0);
    match a {
        Value::Array(mut arr) => {
            if start <= arr.len() {
                let end = if start + count < arr.len() { start + count } else { arr.len() };
                arr.truncate(end);
                let removed = arr.split_off(start);
                Ok(Value::Array(removed))
            } else {
                Err(text("array_splice(): Start index out of bounds"))
            }
        },
        _ => Err(text("array_splice() expects an array")),
    }
}

/// `array_concat(a, b)`: the elements of `a`, then those of `b`.
pub fn array_concat(args: Vec<Value>) -> (r: Result<Value, String>)
    ensures
        args.len() != 2 ==> fails_with(r, arity_message("array_concat"@, "2 arguments"@, args.len() as nat)),
        args.len() == 2 ==> match (args@[0], args@[1]) {
            (Value::Array(a), Value::Array(b)) => r matches Ok(Value::Array(w)) && w@ == a@ + b@,
            _ => fails_with(r, "array_concat() expects two arrays"@),
        },
{
    if args.len() != 2 {
        return Err(arity_error("array_concat", "2 arguments", args.len()));
    }
    let (a, b) = take_two(args);
    match (a, b) {
        (Value::Array(mut x), Value::Array(mut y)) => {
            x.append(&mut y);
            Ok(Value::Array(x))
        },
        _ => Err(text("array_concat() expects two arrays")),
    }
}

/// What `array_includes` gives: whether some element equals the value.
pub open spec fn inclusion_found(args: Seq<Value>, r: Result<Value, String>) -> bool {
    &&& (args.len() != 2 ==> fails_with(r, arity_message("array_includes"@, "2 arguments"@, args.len() as nat)))
    &&& (args.len() == 2 ==> match args[0] {
        Value::Array(a) => r == Ok::<Value, String>(Value::Bool(
            exists|i: int| 0 <= i < a.len() && value_eq(#[trigger] a@[i], args[1]),
        )),
        _ => fails_with(r, "array_includes() expects an array"@),
    })
}

/// `array_includes(a, v)`: whether an element of `a` equals `v`.
pub fn array_includes(args: Vec<Value>) -> (r: Result<Value, String>)
    ensures
        inclusion_found(args@, r),
{
    if args.len() != 2 {
        return Err(arity_error("array_includes", "2 arguments", args.len()));
    }
    match &args[0] {
        Value::Array(arr) => {
            let found = find_value(arr, &args[1]);
            proof {
                let a = arr@;
                let t = args@[1];
                if found is None {
                    if exists|i: int| 0 <= i < a.len() && value_eq(#[trigger] a[i], t) {
                        let i = choose|i: int| 0 <= i < a.len() && value_eq(#[trigger] a[i], t);
                        lemma_first_exists(a, t, i);
                    }
                } else {
                    let k = first_match(a, t);
                    assert(exists|k: int| is_first_match(a, t, k));
                    let k2 = choose|k: int| is_first_match(a, t, k);
                    assert(value_eq(a[k2], t));
                }
            }
            Ok(Value::Bool(found.is_some()))
        },
        _ => Err(text("array_includes() expects an array")),
    }
}

/// When some element equals `t`, a first one does.
pub proof fn lemma_first_exists(s: Seq<Value>, t: Value, i: int)
    requires
        0 <= i < s.len(),
        value_eq(s[i], t),
    ensures
        first_match(s, t) >= 0,
    decreases i,
{
    if forall|j: int| 0 <= j < i ==> !value_eq(#[trigger] s[j], t) {
        lemma_first_match(s, t, i);
    } else {
        let j = choose|j: int| 0 <= j < i && !!value_eq(#[trigger] s[j], t);
        lemma_first_exists(s, t, j);
    }
}

} // verus!
