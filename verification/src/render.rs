//! Values written as text. The debug form is what `{:?}` writes of a value;
//! the shown form is what a value reads as where a control shows it, and what
//! `tostring` gives. Numbers are written by the caller's `decimals`, which
//! gives, for the bit pattern of a binary64 number, its `Display` text and its
//! `Debug` text (what `x.to_string()` and `format!("{:?}", x)` give).

use vstd::prelude::*;
use crate::text::{decimal, decimal_string_u64, text};
use crate::value::{Dict, Value};

verus! {

/// What `format!("{:?}", s)` gives of a text: the text in double quotes, with
/// the escapes of `str::escape_debug`.
pub uninterp spec fn quoted_text(s: Seq<char>) -> Seq<char>;

/// `<str as Debug>::fmt`, through `format!("{:?}", s)`. The contract names the
/// text that comes back; it does not spell out the escapes.
#[verifier::external_body]
pub(crate) fn quoted(s: &str) -> (r: String)
    ensures
        r@ == quoted_text(s@),
{
    format!("{:?}", s)
}

/// `w` writes numbers: it accepts every bit pattern, and gives the same two
/// texts each time it is given the same pattern.
pub open spec fn writes_numbers<F: Fn(u64) -> (String, String)>(w: F) -> bool {
    &&& forall|b: u64| #[trigger] w.requires((b,))
    &&& forall|b: u64, x: (String, String), y: (String, String)|
        #![trigger w.ensures((b,), x), w.ensures((b,), y)]
        w.ensures((b,), x) && w.ensures((b,), y) ==> x.0@ == y.0@ && x.1@ == y.1@
}

/// The two texts that `w` gives for each bit pattern: the shown text first,
/// the debug text second.
pub open spec fn number_texts<F: Fn(u64) -> (String, String)>(w: F) -> spec_fn(u64) -> (Seq<char>, Seq<char>) {
    |b: u64|
        {
            let x = choose|x: (String, String)| w.ensures((b,), x);
            (x.0@, x.1@)
        }
}

/// The two texts of the number of bit pattern `b`.
pub(crate) fn write_number<F: Fn(u64) -> (String, String)>(w: &F, b: u64) -> (r: (String, String))
    requires
        writes_numbers(*w),
    ensures
        r.0@ == number_texts(*w)(b).0,
        r.1@ == number_texts(*w)(b).1,
{
    let r = w(b);
    proof {
        let x = choose|x: (String, String)| w.ensures((b,), x);
        assert(w.ensures((b,), x));
    }
    r
}

/// `true` or `false`.
pub open spec fn flag_text(b: bool) -> Seq<char> {
    if b {
        "true"@
    } else {
        "false"@
    }
}

/// What stands before item `i` of a list: nothing before the first, `, `
/// before each other.
pub open spec fn sep(i: nat) -> Seq<char> {
    if i == 0 {
        Seq::empty()
    } else {
        ", "@
    }
}

/// The debug form of a value: its variant's name and its content in
/// brackets; texts quoted, numbers as `nt` writes them in debug form, arrays
/// and dictionaries with the debug forms of their elements.
pub open spec fn debug_form(v: Value, nt: spec_fn(u64) -> (Seq<char>, Seq<char>)) -> Seq<char>
    decreases v, 0nat,
{
    match v {
        Value::Number(b) => "Number("@ + nt(b).1 + ")"@,
        Value::String(s) => "String("@ + quoted_text(s@) + ")"@,
        Value::Bool(b) => "Bool("@ + flag_text(b) + ")"@,
        Value::Null => "Null"@,
        Value::Array(x) => "Array(["@ + items_debug(x, nt, x.len() as nat) + "])"@,
        Value::Dictionary(d) => "Dictionary({"@ + dict_debug(d, nt) + "})"@,
        Value::FormObject(t) => "FormObject("@ + quoted_text(t@) + ")"@,
        Value::BuiltinFunction(t) => "BuiltinFunction("@ + quoted_text(t@) + ")"@,
        Value::Function(h) => "Function("@ + decimal(h as nat) + ")"@,
        Value::Figure(n) => "Figure("@ + decimal(n as nat) + ")"@,
    }
}

/// The debug forms of the first `n` items, separated by `, `.
pub open spec fn items_debug(x: Vec<Value>, nt: spec_fn(u64) -> (Seq<char>, Seq<char>), n: nat) -> Seq<char>
    decreases x, n,
{
    if n == 0 || n > x.len() {
        Seq::empty()
    } else {
        proof {
            assert(decreases_to!(x => x@));
            assert(decreases_to!(x@ => x@[n - 1]));
        }
        items_debug(x, nt, (n - 1) as nat) + sep((n - 1) as nat) + debug_form(x@[n - 1], nt)
    }
}

/// The pairs of a dictionary in debug form: each quoted key, `: ` and the
/// debug form of its value, separated by `, `.
pub closed spec fn dict_debug(d: Dict, nt: spec_fn(u64) -> (Seq<char>, Seq<char>)) -> Seq<char>
    decreases d, 0nat,
{
    entries_debug(d.entries, nt, d.entries.len() as nat)
}

/// The first `n` pairs in debug form.
pub closed spec fn entries_debug(e: Vec<(String, Value)>, nt: spec_fn(u64) -> (Seq<char>, Seq<char>), n: nat) -> Seq<char>
    decreases e, n,
{
    if n == 0 || n > e.len() {
        Seq::empty()
    } else {
        proof {
            assert(decreases_to!(e => e@));
            assert(decreases_to!(e@ => e@[n - 1]));
            assert(decreases_to!(e@[n - 1] => e@[n - 1].1));
        }
        entries_debug(e, nt, (n - 1) as nat) + sep((n - 1) as nat) + quoted_text(e@[n - 1].0@) + ": "@
            + debug_form(e@[n - 1].1, nt)
    }
}

/// The first `n` pairs as `tostring` writes them: each key as it is, `: ` and
/// the debug form of its value, separated by `, `.
pub open spec fn entries_shown(e: Seq<(String, Value)>, nt: spec_fn(u64) -> (Seq<char>, Seq<char>), n: nat) -> Seq<char>
    decreases n,
{
    if n == 0 || n > e.len() {
        Seq::empty()
    } else {
        entries_shown(e, nt, (n - 1) as nat) + sep((n - 1) as nat) + e[n - 1].0@ + ": "@ + debug_form(e[n - 1].1, nt)
    }
}

/// The pairs of a dictionary as `tostring` writes them.
pub closed spec fn dict_shown(d: Dict, nt: spec_fn(u64) -> (Seq<char>, Seq<char>)) -> Seq<char> {
    entries_shown(d.entries@, nt, d.entries.len() as nat)
}

/// The pairs of a dictionary as `tostring` writes them are those of its
/// entries.
pub(crate) proof fn lemma_dict_shown(d: Dict, nt: spec_fn(u64) -> (Seq<char>, Seq<char>))
    ensures
        dict_shown(d, nt) == entries_shown(d.entries@, nt, d.entries@.len()),
{
}

/// The shown form of a value: a text is itself, a number its shown text, a
/// truth value `true` or `false`, null `null`, an array its items' debug
/// forms in square brackets, a dictionary its pairs in braces, a built-in
/// function `<function>`, anything else its debug form.
pub open spec fn shown_form(v: Value, nt: spec_fn(u64) -> (Seq<char>, Seq<char>)) -> Seq<char> {
    match v {
        Value::String(s) => s@,
        Value::Number(b) => nt(b).0,
        Value::Bool(b) => flag_text(b),
        Value::Array(x) => "["@ + items_debug(x, nt, x.len() as nat) + "]"@,
        Value::Dictionary(d) => "{"@ + dict_shown(d, nt) + "}"@,
        Value::BuiltinFunction(_) => "<function>"@,
        Value::Null => "null"@,
        _ => debug_form(v, nt),
    }
}

/// `open`, then `mid`, then `close`.
fn enclosed(open: &str, mid: &str, close: &str) -> (r: String)
    ensures
        r@ == open@ + mid@ + close@,
{
    let mut r = text(open);
    r.append(mid);
    r.append(close);
    r
}

fn flag_string(b: bool) -> (r: String)
    ensures
        r@ == flag_text(b),
{
    if b {
        text("true")
    } else {
        text("false")
    }
}

/// The debug forms of the items of `x`, separated by `, `.
fn items_debug_string<F: Fn(u64) -> (String, String)>(v: &Value, x: &Vec<Value>, w: &F) -> (s: String)
    requires
        writes_numbers(*w),
        *v == Value::Array(*x),
    ensures
        s@ == items_debug(*x, number_texts(*w), x.len() as nat),
    decreases *v, 1nat,
{
    let ghost nt = number_texts(*w);
    let mut s = String::new();
    let mut i: usize = 0;
    while i < x.len()
        invariant
            i <= x.len(),
            *v == Value::Array(*x),
            writes_numbers(*w),
            nt == number_texts(*w),
            s@ == items_debug(*x, nt, i as nat),
        decreases x.len() - i,
    {
        proof {
            let ghost av = *v;
            match av {
                Value::Array(xx) => {
                    assert(xx == *x);
                    assert(decreases_to!(xx => xx@));
                    assert(decreases_to!(xx@ => xx@[i as int]));
                    assert(decreases_to!(av => xx));
                },
                _ => {},
            }
        }
        let ghost before = s@;
        if i > 0 {
            s.append(", ");
        }
        let d = debug_string(&x[i], w);
        s.append(d.as_str());
        proof {
            assert(s@ == before + sep(i as nat) + debug_form(x@[i as int], nt));
        }
        i = i + 1;
    }
    s
}

/// The pairs of `d` in debug form.
fn dict_debug_string<F: Fn(u64) -> (String, String)>(v: &Value, d: &Dict, w: &F) -> (s: String)
    requires
        writes_numbers(*w),
        *v == Value::Dictionary(*d),
    ensures
        s@ == dict_debug(*d, number_texts(*w)),
    decreases *v, 1nat,
{
    let ghost nt = number_texts(*w);
    let e = &d.entries;
    let mut s = String::new();
    let mut i: usize = 0;
    while i < e.len()
        invariant
            i <= e.len(),
            *v == Value::Dictionary(*d),
            *e == d.entries,
            writes_numbers(*w),
            nt == number_texts(*w),
            s@ == entries_debug(*e, nt, i as nat),
        decreases e.len() - i,
    {
        proof {
            let ghost av = *v;
            match av {
                Value::Dictionary(dd) => {
                    assert(dd == *d);
                    assert(decreases_to!(av => dd));
                    assert(decreases_to!(dd => dd.entries));
                    assert(decreases_to!(dd.entries => dd.entries@));
                    assert(decreases_to!(dd.entries@ => dd.entries@[i as int]));
                    assert(decreases_to!(dd.entries@[i as int] => dd.entries@[i as int].1));
                },
                _ => {},
            }
        }
        let ghost before = s@;
        if i > 0 {
            s.append(", ");
        }
        let k = quoted(e[i].0.as_str());
        s.append(k.as_str());
        s.append(": ");
        let dv = debug_string(&e[i].1, w);
        s.append(dv.as_str());
        proof {
            assert(s@ == before + sep(i as nat) + quoted_text(e@[i as int].0@) + ": "@ + debug_form(
                e@[i as int].1,
                nt,
            ));
        }
        i = i + 1;
    }
    s
}

/// The debug form of a value, with numbers as `decimals` writes them.
pub fn debug_string<F: Fn(u64) -> (String, String)>(v: &Value, decimals: &F) -> (s: String)
    requires
        writes_numbers(*decimals),
    ensures
        s@ == debug_form(*v, number_texts(*decimals)),
    decreases *v, 2nat,
{
    match v {
        Value::Number(b) => {
            let t = write_number(decimals, *b);
            enclosed("Number(", t.1.as_str(), ")")
        },
        Value::String(t) => {
            let q = quoted(t.as_str());
            enclosed("String(", q.as_str(), ")")
        },
        Value::Bool(b) => {
            let f = flag_string(*b);
            enclosed("Bool(", f.as_str(), ")")
        },
        Value::Null => text("Null"),
        Value::Array(x) => {
            let s = items_debug_string(v, x, decimals);
            enclosed("Array([", s.as_str(), "])")
        },
        Value::Dictionary(d) => {
            let s = dict_debug_string(v, d, decimals);
            enclosed("Dictionary({", s.as_str(), "})")
        },
        Value::FormObject(t) => {
            let q = quoted(t.as_str());
            enclosed("FormObject(", q.as_str(), ")")
        },
        Value::BuiltinFunction(t) => {
            let q = quoted(t.as_str());
            enclosed("BuiltinFunction(", q.as_str(), ")")
        },
        Value::Function(h) => {
            let n = decimal_string_u64(*h);
            enclosed("Function(", n.as_str(), ")")
        },
        Value::Figure(n) => {
            let t = decimal_string_u64(*n);
            enclosed("Figure(", t.as_str(), ")")
        },
    }
}

/// The pairs of `d` as `tostring` writes them.
fn dict_shown_string<F: Fn(u64) -> (String, String)>(d: &Dict, w: &F) -> (s: String)
    requires
        writes_numbers(*w),
    ensures
        s@ == dict_shown(*d, number_texts(*w)),
{
    let ghost nt = number_texts(*w);
    let e = &d.entries;
    let mut s = String::new();
    let mut i: usize = 0;
    while i < e.len()
        invariant
            i <= e.len(),
            writes_numbers(*w),
            nt == number_texts(*w),
            s@ == entries_shown(e@, nt, i as nat),
        decreases e.len() - i,
    {
        let ghost before = s@;
        if i > 0 {
            s.append(", ");
        }
        s.append(e[i].0.as_str());
        s.append(": ");
        let dv = debug_string(&e[i].1, w);
        s.append(dv.as_str());
        proof {
            assert(s@ == before + sep(i as nat) + e@[i as int].0@ + ": "@ + debug_form(e@[i as int].1, nt));
        }
        i = i + 1;
    }
    s
}

/// The shown form of a value, with numbers as `decimals` writes them.
pub fn shown_string<F: Fn(u64) -> (String, String)>(v: &Value, decimals: &F) -> (s: String)
    requires
        writes_numbers(*decimals),
    ensures
        s@ == shown_form(*v, number_texts(*decimals)),
{
    match v {
        Value::String(t) => t.clone(),
        Value::Number(b) => {
            let t = write_number(decimals, *b);
            t.0
        },
        Value::Bool(b) => flag_string(*b),
        Value::Array(x) => {
            let s = items_debug_string(v, x, decimals);
            enclosed("[", s.as_str(), "]")
        },
        Value::Dictionary(d) => {
            let s = dict_shown_string(d, decimals);
            enclosed("{", s.as_str(), "}")
        },
        Value::BuiltinFunction(_) => text("<function>"),
        Value::Null => text("null"),
        _ => debug_string(v, decimals),
    }
}

} // verus!
