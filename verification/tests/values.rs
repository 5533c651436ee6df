use easybite::array::{
    array_append, array_clear, array_concat, array_copy, array_includes, array_indexof,
    array_insert, array_length, array_pop, array_remove, array_reverse, array_shift,
    array_slice, array_sort, array_splice, array_unshift,
};
use easybite::conversion::{
    isalnum, isdict, isdigit, isdouble, isint, islist, isstring, parse_int, toint, typeof_,
    IntParse,
};
use easybite::dictionary::{
    add, clear, containskey, containsvalue, copy, get, isempty, items, keys, merge, pop,
    popitem, remove, setdefault, size, tojson, update, values,
};
use easybite::conversion::{todouble, tostring};
use easybite::render::debug_string;
use easybite::value::{values_equal, Dict, Value};

/// How a number reads: its `f64` `Display` text and its `Debug` text.
fn decimals(b: u64) -> (String, String) {
    let x = f64::from_bits(b);
    (x.to_string(), format!("{:?}", x))
}

fn num(x: f64) -> Value {
    Value::Number(x.to_bits())
}

fn s(t: &str) -> Value {
    Value::String(t.to_string())
}

fn arr(v: Vec<Value>) -> Value {
    Value::Array(v)
}

fn dict(pairs: Vec<(&str, Value)>) -> Value {
    let mut d = Dict::new();
    for (k, v) in pairs {
        d.insert(k.to_string(), v);
    }
    Value::Dictionary(d)
}

fn as_num(v: &Value) -> f64 {
    match v {
        Value::Number(b) => f64::from_bits(*b),
        other => panic!("not a number: {:?}", other),
    }
}

fn as_text(v: &Value) -> String {
    match v {
        Value::String(t) => t.clone(),
        other => panic!("not a text: {:?}", other),
    }
}

fn as_items(v: Value) -> Vec<Value> {
    match v {
        Value::Array(a) => a,
        other => panic!("not an array: {:?}", other),
    }
}

fn nums(v: Value) -> Vec<f64> {
    as_items(v).iter().map(as_num).collect()
}

fn err(r: Result<Value, String>) -> String {
    match r {
        Err(e) => e,
        Ok(v) => panic!("expected an error, got {:?}", v),
    }
}

fn same(a: &Value, b: &Value) -> bool {
    values_equal(a, b)
}

// ---------------------------------------------------------------- arrays

#[test]
fn array_length_counts_items() {
    let r = array_length(vec![arr(vec![num(1.0), num(2.0), num(3.0)])]).unwrap();
    assert_eq!(as_num(&r), 3.0);
    assert_eq!(err(array_length(vec![])), "array_length() expects 1 argument, got 0");
    assert_eq!(err(array_length(vec![num(1.0)])), "array_length() expects an array");
}

#[test]
fn array_append_adds_at_end() {
    let r = array_append(vec![arr(vec![num(1.0)]), num(2.0)]).unwrap();
    assert_eq!(nums(r), vec![1.0, 2.0]);
    assert_eq!(err(array_append(vec![num(1.0), num(2.0)])), "array_append() expects an array");
    assert_eq!(
        err(array_append(vec![num(1.0)])),
        "array_append() expects 2 arguments, got 1"
    );
}

#[test]
fn array_copy_and_clear() {
    let r = array_copy(vec![arr(vec![num(4.0), num(5.0)])]).unwrap();
    assert_eq!(nums(r), vec![4.0, 5.0]);
    let r = array_clear(vec![arr(vec![num(4.0), num(5.0)])]).unwrap();
    assert!(as_items(r).is_empty());
    assert_eq!(err(array_clear(vec![s("x")])), "array_clear() expects an array");
}

#[test]
fn array_remove_takes_first_equal_item() {
    let r = array_remove(vec![arr(vec![num(1.0), num(2.0), num(1.0)]), num(1.0)]).unwrap();
    assert_eq!(nums(r), vec![2.0, 1.0]);
    let r = array_remove(vec![arr(vec![num(1.0)]), num(9.0)]).unwrap();
    assert_eq!(nums(r), vec![1.0]);
}

#[test]
fn array_reverse_twice_is_identity() {
    let once = array_reverse(vec![arr(vec![num(1.0), num(2.0), num(3.0)])]).unwrap();
    let once_items = nums(array_copy(vec![once]).unwrap());
    assert_eq!(once_items, vec![3.0, 2.0, 1.0]);
    let twice = array_reverse(vec![array_reverse(vec![arr(vec![num(1.0), num(2.0), num(3.0)])]).unwrap()]).unwrap();
    assert_eq!(nums(twice), vec![1.0, 2.0, 3.0]);
}

#[test]
fn array_insert_at_index() {
    let r = array_insert(vec![arr(vec![num(1.0), num(3.0)]), num(1.0), num(2.0)]).unwrap();
    assert_eq!(nums(r), vec![1.0, 2.0, 3.0]);
    let r = array_insert(vec![arr(vec![num(1.0)]), num(1.0), num(2.0)]).unwrap();
    assert_eq!(nums(r), vec![1.0, 2.0]);
    assert_eq!(
        err(array_insert(vec![arr(vec![num(1.0)]), num(5.0), num(2.0)])),
        "array_insert(): Index out of bounds"
    );
    assert_eq!(
        err(array_insert(vec![arr(vec![]), s("0"), num(2.0)])),
        "array_insert(): Index must be a number"
    );
}

#[test]
fn array_sort_orders_numbers_and_texts() {
    let r = array_sort(vec![arr(vec![num(3.0), num(1.0), num(2.0)])]).unwrap();
    assert_eq!(nums(r), vec![1.0, 2.0, 3.0]);
    let r = array_sort(vec![arr(vec![s("pear"), s("apple"), s("fig")])]).unwrap();
    let t: Vec<String> = as_items(r).iter().map(as_text).collect();
    assert_eq!(t, vec!["apple", "fig", "pear"]);
}

#[test]
fn array_indexof_and_includes() {
    let a = || arr(vec![s("a"), s("b"), s("c")]);
    assert_eq!(as_num(&array_indexof(vec![a(), s("b")]).unwrap()), 1.0);
    assert_eq!(as_num(&array_indexof(vec![a(), s("z")]).unwrap()), -1.0);
    assert!(matches!(array_includes(vec![a(), s("c")]).unwrap(), Value::Bool(true)));
    assert!(matches!(array_includes(vec![a(), s("z")]).unwrap(), Value::Bool(false)));
}

#[test]
fn array_pop_and_shift() {
    assert_eq!(as_num(&array_pop(vec![arr(vec![num(1.0), num(2.0)])]).unwrap()), 2.0);
    assert!(matches!(array_pop(vec![arr(vec![])]).unwrap(), Value::Null));
    assert_eq!(as_num(&array_shift(vec![arr(vec![num(1.0), num(2.0)])]).unwrap()), 1.0);
    assert!(matches!(array_shift(vec![arr(vec![])]).unwrap(), Value::Null));
}

#[test]
fn array_unshift_puts_first() {
    let r = array_unshift(vec![arr(vec![num(2.0)]), num(1.0)]).unwrap();
    assert_eq!(nums(r), vec![1.0, 2.0]);
}

#[test]
fn array_slice_bounds() {
    let a = || arr(vec![num(0.0), num(1.0), num(2.0), num(3.0)]);
    assert_eq!(nums(array_slice(vec![a(), num(1.0), num(3.0)]).unwrap()), vec![1.0, 2.0]);
    assert_eq!(nums(array_slice(vec![a(), num(2.0), num(99.0)]).unwrap()), vec![2.0, 3.0]);
    assert_eq!(
        err(array_slice(vec![a(), num(3.0), num(1.0)])),
        "array_slice(): Invalid slice indices"
    );
    assert_eq!(
        err(array_slice(vec![a(), s("1"), num(1.0)])),
        "array_slice() expects an array and two numbers"
    );
}

#[test]
fn array_splice_returns_removed() {
    let a = arr(vec![num(0.0), num(1.0), num(2.0), num(3.0)]);
    let r = array_splice(vec![a, num(1.0), num(2.0), num(9.0)]).unwrap();
    assert_eq!(nums(r), vec![1.0, 2.0]);
    assert_eq!(
        err(array_splice(vec![arr(vec![]), num(1.0), num(0.0)])),
        "array_splice(): Start index out of bounds"
    );
    assert_eq!(
        err(array_splice(vec![arr(vec![])])),
        "array_splice() expects at least 3 arguments, got 1"
    );
}

#[test]
fn array_concat_joins() {
    let r = array_concat(vec![arr(vec![num(1.0)]), arr(vec![num(2.0), num(3.0)])]).unwrap();
    assert_eq!(nums(r), vec![1.0, 2.0, 3.0]);
    assert_eq!(err(array_concat(vec![arr(vec![]), num(1.0)])), "array_concat() expects two arrays");
}

// ----------------------------------------------------------- conversions

#[test]
fn toint_truncates_numbers() {
    assert_eq!(as_num(&toint(vec![num(3.7)]).unwrap()), 3.0);
    assert_eq!(as_num(&toint(vec![num(-3.7)]).unwrap()), -3.0);
    assert!(as_num(&toint(vec![num(f64::NAN)]).unwrap()).is_nan());
    assert_eq!(as_num(&toint(vec![num(f64::INFINITY)]).unwrap()), f64::INFINITY);
}

#[test]
fn toint_reads_texts_and_flags() {
    assert_eq!(as_num(&toint(vec![s("42")]).unwrap()), 42.0);
    assert_eq!(as_num(&toint(vec![s("-17")]).unwrap()), -17.0);
    assert_eq!(as_num(&toint(vec![s("+5")]).unwrap()), 5.0);
    assert_eq!(as_num(&toint(vec![Value::Bool(true)]).unwrap()), 1.0);
    assert_eq!(as_num(&toint(vec![Value::Bool(false)]).unwrap()), 0.0);
    assert_eq!(
        as_num(&toint(vec![s("9223372036854775807")]).unwrap()),
        9223372036854775807i64 as f64
    );
}

#[test]
fn toint_errors() {
    assert_eq!(
        err(toint(vec![s("4x")])),
        "toint(): cannot convert string '4x' to integer: invalid digit found in string"
    );
    assert_eq!(
        err(toint(vec![s("")])),
        "toint(): cannot convert string '' to integer: cannot parse integer from empty string"
    );
    assert_eq!(
        err(toint(vec![s("99999999999999999999")])),
        "toint(): cannot convert string '99999999999999999999' to integer: number too large to fit in target type"
    );
    assert_eq!(err(toint(vec![Value::Null])), "toint(): unsupported type");
    assert_eq!(err(toint(vec![])), "toint() expects 1 argument, got 0");
}

#[test]
fn parse_int_matches_std() {
    for t in ["0", "12", "-12", "+3", "-", "+", "", "1a", "-9223372036854775808", "9223372036854775808", "-9223372036854775809"] {
        let expected = match t.parse::<i64>() {
            Ok(i) => IntParse::Parsed(i),
            Err(e) => match e.kind() {
                std::num::IntErrorKind::Empty => IntParse::Empty,
                std::num::IntErrorKind::PosOverflow => IntParse::PosOverflow,
                std::num::IntErrorKind::NegOverflow => IntParse::NegOverflow,
                _ => IntParse::InvalidDigit,
            },
        };
        assert_eq!(parse_int(&t.to_string()), expected, "text {:?}", t);
    }
}

#[test]
fn type_tests() {
    assert!(matches!(isint(vec![num(2.0)]).unwrap(), Value::Bool(true)));
    assert!(matches!(isint(vec![num(2.5)]).unwrap(), Value::Bool(false)));
    assert!(matches!(isint(vec![s("2")]).unwrap(), Value::Bool(false)));
    assert!(matches!(isdouble(vec![num(2.5)]).unwrap(), Value::Bool(true)));
    assert!(matches!(isdouble(vec![num(2.0)]).unwrap(), Value::Bool(false)));
    assert!(matches!(isstring(vec![s("")]).unwrap(), Value::Bool(true)));
    assert!(matches!(islist(vec![arr(vec![])]).unwrap(), Value::Bool(true)));
    assert!(matches!(isdict(vec![dict(vec![])]).unwrap(), Value::Bool(true)));
    assert!(matches!(isdict(vec![arr(vec![])]).unwrap(), Value::Bool(false)));
}

#[test]
fn character_classes() {
    assert!(matches!(isdigit(vec![s("0123")]).unwrap(), Value::Bool(true)));
    assert!(matches!(isdigit(vec![s("12a")]).unwrap(), Value::Bool(false)));
    assert!(matches!(isdigit(vec![s("")]).unwrap(), Value::Bool(true)));
    assert!(matches!(isalnum(vec![s("abc123")]).unwrap(), Value::Bool(true)));
    assert!(matches!(isalnum(vec![s("é9")]).unwrap(), Value::Bool(true)));
    assert!(matches!(isalnum(vec![s("a b")]).unwrap(), Value::Bool(false)));
    assert!(matches!(isalnum(vec![num(1.0)]).unwrap(), Value::Bool(false)));
}

#[test]
fn typeof_names() {
    assert_eq!(as_text(&typeof_(vec![num(1.0)]).unwrap()), "number");
    assert_eq!(as_text(&typeof_(vec![s("x")]).unwrap()), "string");
    assert_eq!(as_text(&typeof_(vec![Value::Bool(true)]).unwrap()), "bool");
    assert_eq!(as_text(&typeof_(vec![arr(vec![])]).unwrap()), "list");
    assert_eq!(as_text(&typeof_(vec![dict(vec![])]).unwrap()), "dict");
    assert_eq!(as_text(&typeof_(vec![Value::BuiltinFunction("f".to_string())]).unwrap()), "function");
    assert_eq!(as_text(&typeof_(vec![Value::Null]).unwrap()), "null");
    assert_eq!(as_text(&typeof_(vec![Value::Function(7)]).unwrap()), "unknown");
    assert_eq!(err(typeof_(vec![])), "typeof() expects 1 argument, got 0");
}

// ---------------------------------------------------------- dictionaries

#[test]
fn dictionary_read_after_write() {
    let d = add(vec![dict(vec![("a", num(1.0))]), s("b"), num(2.0)], &decimals).unwrap();
    assert_eq!(as_num(&get(vec![d, s("b")], &decimals).unwrap()), 2.0);
    let d = update(vec![dict(vec![("a", num(1.0))]), s("a"), num(5.0)], &decimals).unwrap();
    assert_eq!(as_num(&get(vec![d, s("a")], &decimals).unwrap()), 5.0);
}

#[test]
fn dictionary_write_keeps_other_keys() {
    let d = add(vec![dict(vec![("a", num(1.0))]), s("b"), num(2.0)], &decimals).unwrap();
    assert_eq!(as_num(&get(vec![d, s("a")], &decimals).unwrap()), 1.0);
}

#[test]
fn dictionary_key_of_non_text_is_its_debug_text() {
    let d = add(vec![dict(vec![]), Value::Bool(true), num(2.0)], &decimals).unwrap();
    let k = keys(vec![d]).unwrap();
    let k: Vec<String> = as_items(k).iter().map(as_text).collect();
    assert_eq!(k, vec![format!("{:?}", Value::Bool(true))]);
}

#[test]
fn dictionary_remove_forgets() {
    let d = remove(vec![dict(vec![("a", num(1.0)), ("b", num(2.0))]), s("a")], &decimals).unwrap();
    assert_eq!(err(get(vec![d, s("a")], &decimals)), "Key 'a' not found");
}

#[test]
fn dictionary_errors() {
    assert_eq!(err(add(vec![num(1.0), s("a"), num(1.0)], &decimals)), "add() expects a dictionary as the first argument");
    assert_eq!(err(add(vec![], &decimals)), "add() expects 3 arguments, got 0");
    assert_eq!(err(get(vec![dict(vec![])], &decimals)), "get() expects 2 arguments, got 1");
    assert_eq!(err(size(vec![num(1.0)])), "size() expects a dictionary");
    assert_eq!(err(pop(vec![dict(vec![]), s("q")], &decimals)), "pop(): Key 'q' not found");
    assert_eq!(err(popitem(vec![dict(vec![])])), "popitem(): dictionary is empty");
    assert_eq!(err(merge(vec![dict(vec![]), num(1.0)])), "merge() expects two dictionaries");
    assert_eq!(err(tojson(vec![num(1.0)], &decimals)), "tojson() expects a dictionary");
}

#[test]
fn dictionary_queries() {
    let d = || dict(vec![("a", num(1.0)), ("b", s("x"))]);
    assert!(matches!(containskey(vec![d(), s("a")], &decimals).unwrap(), Value::Bool(true)));
    assert!(matches!(containskey(vec![d(), s("z")], &decimals).unwrap(), Value::Bool(false)));
    assert!(matches!(containsvalue(vec![d(), s("x")]).unwrap(), Value::Bool(true)));
    assert!(matches!(containsvalue(vec![d(), num(2.0)]).unwrap(), Value::Bool(false)));
    assert_eq!(as_num(&size(vec![d()]).unwrap()), 2.0);
    assert!(matches!(isempty(vec![d()]).unwrap(), Value::Bool(false)));
    assert!(matches!(isempty(vec![dict(vec![])]).unwrap(), Value::Bool(true)));
}

#[test]
fn dictionary_listings_in_order() {
    let d = || dict(vec![("a", num(1.0)), ("b", num(2.0))]);
    let k: Vec<String> = as_items(keys(vec![d()]).unwrap()).iter().map(as_text).collect();
    assert_eq!(k, vec!["a", "b"]);
    assert_eq!(nums(values(vec![d()]).unwrap()), vec![1.0, 2.0]);
    let it = as_items(items(vec![d()]).unwrap());
    assert_eq!(it.len(), 2);
    match &it[1] {
        Value::Array(p) => {
            assert_eq!(as_text(&p[0]), "b");
            assert_eq!(as_num(&p[1]), 2.0);
        }
        other => panic!("not a pair: {:?}", other),
    }
}

#[test]
fn dictionary_clear_copy_merge() {
    let c = clear(vec![dict(vec![("a", num(1.0))])]).unwrap();
    assert_eq!(as_num(&size(vec![c]).unwrap()), 0.0);
    let c = copy(vec![dict(vec![("a", num(1.0))])]).unwrap();
    assert_eq!(as_num(&get(vec![c, s("a")], &decimals).unwrap()), 1.0);
    let m = merge(vec![
        dict(vec![("a", num(1.0)), ("b", num(2.0))]),
        dict(vec![("b", num(20.0)), ("c", num(30.0))]),
    ])
    .unwrap();
    let k: Vec<String> = as_items(keys(vec![m]).unwrap()).iter().map(as_text).collect();
    assert_eq!(k, vec!["a", "b", "c"]);
    let m = merge(vec![dict(vec![("b", num(2.0))]), dict(vec![("b", num(20.0))])]).unwrap();
    assert_eq!(as_num(&get(vec![m, s("b")], &decimals).unwrap()), 20.0);
}

#[test]
fn dictionary_pop_popitem_setdefault() {
    assert_eq!(as_num(&pop(vec![dict(vec![("a", num(1.0))]), s("a")], &decimals).unwrap()), 1.0);
    let p = as_items(popitem(vec![dict(vec![("x", num(1.0)), ("y", num(2.0))])]).unwrap());
    assert_eq!(as_text(&p[0]), "x");
    assert_eq!(as_num(&p[1]), 1.0);
    assert_eq!(as_num(&setdefault(vec![dict(vec![("a", num(1.0))]), s("a"), num(9.0)], &decimals).unwrap()), 1.0);
    assert_eq!(as_num(&setdefault(vec![dict(vec![]), s("a"), num(9.0)], &decimals).unwrap()), 9.0);
}

#[test]
fn dictionary_tojson_debug_values() {
    let j = tojson(vec![dict(vec![("a", num(1.0)), ("b", s("x"))])], &decimals).unwrap();
    let mut m = serde_json::Map::new();
    m.insert("a".to_string(), serde_json::Value::String("Number(1.0)".to_string()));
    m.insert("b".to_string(), serde_json::Value::String("String(\"x\")".to_string()));
    let expected = serde_json::to_string(&m).unwrap();
    assert_eq!(as_text(&j), expected);
}

#[test]
fn values_equal_compares_numbers_by_value() {
    assert!(same(&num(0.0), &num(-0.0)));
    assert!(!same(&num(f64::NAN), &num(f64::NAN)));
    assert!(same(&arr(vec![s("a")]), &arr(vec![s("a")])));
    assert!(!same(&s("a"), &num(1.0)));
}

#[test]
fn whole_numbers_round_trip_through_counts() {
    let items: Vec<Value> = (0..7).map(|i| num(i as f64)).collect();
    let n = as_num(&array_length(vec![arr(items)]).unwrap());
    assert_eq!(n, 7.0);
    let r = array_insert(vec![arr(vec![num(0.0), num(1.0), num(2.0)]), num(n - 5.0), s("x")]).unwrap();
    assert_eq!(as_text(&as_items(r)[2]), "x");
}

#[test]
fn every_number_is_int_or_double() {
    for x in [0.0, -0.0, 1.0, -7.0, 0.5, -2.25, 1e300, f64::INFINITY, f64::NEG_INFINITY, f64::NAN] {
        let i = matches!(isint(vec![num(x)]).unwrap(), Value::Bool(true));
        let d = matches!(isdouble(vec![num(x)]).unwrap(), Value::Bool(true));
        assert_eq!(i, x.fract() == 0.0, "isint {}", x);
        assert_eq!(d, x.fract() != 0.0, "isdouble {}", x);
        assert!(i != d, "exactly one for {}", x);
    }
}

#[test]
fn tostring_writes_the_shown_form() {
    let t = |v: Value| as_text(&tostring(vec![v], &decimals).unwrap());
    assert_eq!(t(num(3.0)), "3");
    assert_eq!(t(num(2.5)), "2.5");
    assert_eq!(t(s("hi")), "hi");
    assert_eq!(t(Value::Bool(false)), "false");
    assert_eq!(t(Value::Null), "null");
    assert_eq!(t(arr(vec![num(1.0), s("a")])), "[Number(1.0), String(\"a\")]");
    assert_eq!(t(dict(vec![("k", num(2.0))])), "{k: Number(2.0)}");
    assert_eq!(t(Value::BuiltinFunction("f".to_string())), "<function>");
    assert_eq!(t(Value::Function(7)), "Function(7)");
    assert_eq!(err(tostring(vec![], &decimals)), "tostring() expects 1 argument, got 0");
}

#[test]
fn debug_form_of_nested_values() {
    let v = arr(vec![dict(vec![("a", Value::Bool(true))]), Value::Null, s("q\"")]);
    assert_eq!(
        debug_string(&v, &decimals),
        "Array([Dictionary({\"a\": Bool(true)}), Null, String(\"q\\\"\")])"
    );
}

#[test]
fn number_keys_stand_for_their_debug_form() {
    let d = add(vec![dict(vec![]), num(2.5), s("v")], &decimals).unwrap();
    let k = as_items(keys(vec![d]).unwrap());
    assert_eq!(as_text(&k[0]), "Number(2.5)");
    let d = add(vec![dict(vec![]), num(2.5), s("v")], &decimals).unwrap();
    assert_eq!(as_text(&get(vec![d, num(2.5)], &decimals).unwrap()), "v");
}

#[test]
fn sort_keeps_equal_numbers_in_their_order() {
    let w = as_items(array_sort(vec![arr(vec![num(1.0), num(-0.0), num(0.0), num(-1.0)])]).unwrap());
    let bits: Vec<u64> = w.iter().map(|v| match v { Value::Number(b) => *b, _ => panic!() }).collect();
    assert_eq!(bits, vec![(-1.0f64).to_bits(), (-0.0f64).to_bits(), 0.0f64.to_bits(), 1.0f64.to_bits()]);
    let w = as_items(array_sort(vec![arr(vec![num(0.0), num(-0.0)])]).unwrap());
    let bits: Vec<u64> = w.iter().map(|v| match v { Value::Number(b) => *b, _ => panic!() }).collect();
    assert_eq!(bits, vec![0.0f64.to_bits(), (-0.0f64).to_bits()]);
}

fn parse_number(t: String) -> Result<u64, String> {
    t.parse::<f64>().map(f64::to_bits).map_err(|e| e.to_string())
}

#[test]
fn todouble_reads_numbers_texts_and_flags() {
    let d = |v: Value| match todouble(vec![v], &parse_number) {
        Ok(Value::Number(b)) => f64::from_bits(b),
        other => panic!("unexpected {:?}", other),
    };
    assert_eq!(d(num(2.5)), 2.5);
    assert_eq!(d(s("3.25")), 3.25);
    assert_eq!(d(s("-1e3")), -1000.0);
    assert_eq!(d(Value::Bool(true)), 1.0);
    assert_eq!(d(Value::Bool(false)), 0.0);
    assert_eq!(
        err(todouble(vec![s("abc")], &parse_number)),
        "todouble(): cannot convert string 'abc' to double: invalid float literal"
    );
    assert_eq!(err(todouble(vec![Value::Null], &parse_number)), "todouble(): unsupported type");
    assert_eq!(err(todouble(vec![], &parse_number)), "todouble() expects 1 argument, got 0");
}
