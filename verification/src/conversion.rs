//! The conversion and type-test built-ins.

use vstd::prelude::*;
use crate::number::{
    is_nan, is_infinite, is_finite, is_negative, is_integral, int_part, holds_integer,
    nearest_representable, abs_int, number_trunc, number_is_integral, number_from_i64,
    number_from_u64,
};
use crate::text::{arity_message, fails_with, arity_error, text};
use crate::render::{number_texts, shown_form, shown_string, writes_numbers};
use crate::value::Value;

verus! {

/// Outcome of reading a text as a signed 64-bit whole number.
#[derive(PartialEq, Eq, Structural, Clone, Copy, Debug)]
pub enum IntParse {
    Parsed(i64),
    Empty,
    InvalidDigit,
    PosOverflow,
    NegOverflow,
}

pub open spec fn is_ascii_digit(c: char) -> bool {
    '0' <= c && c <= '9'
}

pub open spec fn digit_value(c: char) -> int {
    (c as u32) - ('0' as u32)
}

/// Reads the digits `d` after the sign, continuing from `acc`.
pub open spec fn parse_digits(d: Seq<char>, acc: int, negative: bool) -> IntParse
    decreases d.len(),
{
    if d.len() == 0 {
        IntParse::Parsed(acc as i64)
    } else if !is_ascii_digit(d[0]) {
        IntParse::InvalidDigit
    } else {
        let next = if negative {
            acc * 10 - digit_value(d[0])
        } else {
            acc * 10 + digit_value(d[0])
        };
        if next > i64::MAX {
            IntParse::PosOverflow
        } else if next < i64::MIN {
            IntParse::NegOverflow
        } else {
            parse_digits(d.drop_first(), next, negative)
        }
    }
}

/// `i64::from_str`: an optional `+` or `-`, then decimal digits; the first
/// character that is not a digit, or the first digit that leaves the range,
/// decides the error.
pub open spec fn parse_i64(s: Seq<char>) -> IntParse {
    if s.len() == 0 {
        IntParse::Empty
    } else if (s[0] == '+' || s[0] == '-') && s.len() == 1 {
        IntParse::InvalidDigit
    } else if s[0] == '+' {
        parse_digits(s.drop_first(), 0, false)
    } else if s[0] == '-' {
        parse_digits(s.drop_first(), 0, true)
    } else {
        parse_digits(s, 0, false)
    }
}

/// The text of each error of `parse_i64` (that of `ParseIntError`).
pub open spec fn parse_error_text(p: IntParse) -> Seq<char> {
    match p {
        IntParse::Empty => "cannot parse integer from empty string"@,
        IntParse::InvalidDigit => "invalid digit found in string"@,
        IntParse::PosOverflow => "number too large to fit in target type"@,
        IntParse::NegOverflow => "number too small to fit in target type"@,
        IntParse::Parsed(_) => Seq::empty(),
    }
}

/// `i64::from_str` on a text.
pub fn parse_int(s: &String) -> (r: IntParse)
    ensures
        r == parse_i64(s@),
{
    let n = s.as_str().unicode_len();
    if n == 0 {
        return IntParse::Empty;
    }
    let c0 = s.as_str().get_char(0);
    if (c0 == '+' || c0 == '-') && n == 1 {
        return IntParse::InvalidDigit;
    }
    let negative = c0 == '-';
    let mut i: usize = if c0 == '+' || c0 == '-' { 1 } else { 0 };
    let ghost d = s@.skip(i as int);
    proof {
        if c0 == '+' || c0 == '-' {
            assert(d =~= s@.drop_first());
        } else {
            assert(d =~= s@);
        }
    }
    let mut acc: i64 = 0;
    while i < n
        invariant
            n == s@.len(),
            i <= n,
            parse_i64(s@) == parse_digits(s@.skip(i as int), acc as int, negative),
        decreases n - i,
    {
        let c = s.as_str().get_char(i);
        proof {
            assert(s@.skip(i as int)[0] == c);
            assert(s@.skip(i as int).drop_first() =~= s@.skip(i + 1));
        }
        if !('0' <= c && c <= '9') {
            return IntParse::InvalidDigit;
        }
        let dv = (c as u32 - '0' as u32) as i128;
        let next: i128 = if negative { acc as i128 * 10 - dv } else { acc as i128 * 10 + dv };
        if next > i64::MAX as i128 {
            return IntParse::PosOverflow;
        }
        if next < i64::MIN as i128 {
            return IntParse::NegOverflow;
        }
        acc = next as i64;
        i = i + 1;
    }
    proof {
        assert(s@.skip(i as int).len() == 0);
    }
    IntParse::Parsed(acc)
}

/// The text of a `ParseIntError`.
fn parse_error_string(p: IntParse) -> (r: String)
    ensures
        r@ == parse_error_text(p),
{
    match p {
        IntParse::Empty => text("cannot parse integer from empty string"),
        IntParse::InvalidDigit => text("invalid digit found in string"),
        IntParse::PosOverflow => text("number too large to fit in target type"),
        IntParse::NegOverflow => text("number too small to fit in target type"),
        IntParse::Parsed(_) => String::new(),
    }
}

/// `toint` of a text that does not read as a whole number.
pub open spec fn toint_error_text(s: Seq<char>) -> Seq<char> {
    "toint(): cannot convert string '"@ + s + "' to integer: "@ + parse_error_text(parse_i64(s))
}

/// `toint(v)`: numbers rounded toward zero, texts read as whole numbers,
/// true as 1 and false as 0.
pub fn toint(args: Vec<Value>) -> (r: Result<Value, String>)
    ensures
        args.len() != 1 ==> fails_with(r, arity_message("toint"@, "1 argument"@, args.len() as nat)),
        args.len() == 1 ==> match args@[0] {
            Value::Number(n) => r matches Ok(Value::Number(t)) && (is_nan(n) ==> is_nan(t)) && (
            is_infinite(n) ==> t == n) && (is_finite(n) ==> holds_integer(t, int_part(n), is_negative(n))),
            Value::String(s) => match parse_i64(s@) {
                IntParse::Parsed(i) => r matches Ok(Value::Number(t)) && holds_integer(
                    t,
                    nearest_representable(abs_int(i as int)),
                    i < 0,
                ),
                _ => fails_with(r, toint_error_text(s@)),
            },
            Value::Bool(b) => r matches Ok(Value::Number(t)) && holds_integer(t, if b { 1 } else { 0 }, false),
            _ => fails_with(r, "toint(): unsupported type"@),
        },
{
    if args.len() != 1 {
        return Err(arity_error("toint", "1 argument", args.len()));
    }
    match &args[0] {
        Value::Number(n) => Ok(Value::Number(number_trunc(*n))),
        Value::String(s) => match parse_int(s) {
            IntParse::Parsed(i) => Ok(Value::Number(number_from_i64(i))),
            other => {
                let mut m = text("toint(): cannot convert string '");
                m.append(s.as_str());
                m.append("' to integer: ");
                let e = parse_error_string(other);
                m.append(e.as_str());
                Err(m)
            },
        },
        Value::Bool(b) => {
            let t = number_from_u64(if *b { 1 } else { 0 }, false);
            proof {
                assert(crate::number::bit_length(1) == 1) by {
                    assert(crate::number::bit_length(0) == 0);
                }
                assert(crate::number::bit_length(0) == 0);
            }
            Ok(Value::Number(t))
        },
        _ => Err(text("toint(): unsupported type")),
    }
}

/// `tostring(v)`: the shown form of `v`, numbers written by `decimals`.
pub fn tostring<F: Fn(u64) -> (String, String)>(args: Vec<Value>, decimals: &F) -> (r: Result<Value, String>)
    requires
        writes_numbers(*decimals),
    ensures
        args.len() != 1 ==> fails_with(r, arity_message("tostring"@, "1 argument"@, args.len() as nat)),
        args.len() == 1 ==> (r matches Ok(Value::String(t)) && t@ == shown_form(args@[0], number_texts(*decimals))),
{
    if args.len() != 1 {
        return Err(arity_error("tostring", "1 argument", args.len()));
    }
    Ok(Value::String(shown_string(&args[0], decimals)))
}

/// Two outcomes of reading a number are the same: the same bit pattern, or
/// errors of the same text.
pub open spec fn same_read(x: Result<u64, String>, y: Result<u64, String>) -> bool {
    match (x, y) {
        (Ok(a), Ok(b)) => a == b,
        (Err(a), Err(b)) => a@ == b@,
        _ => false,
    }
}

/// `p` reads numbers: it accepts every text, and gives the same outcome each
/// time it is given the same text.
pub open spec fn reads_numbers<P: Fn(String) -> Result<u64, String>>(p: P) -> bool {
    &&& forall|s: String| #[trigger] p.requires((s,))
    &&& forall|s: String, x: Result<u64, String>, y: Result<u64, String>|
        #![trigger p.ensures((s,), x), p.ensures((s,), y)]
        p.ensures((s,), x) && p.ensures((s,), y) ==> same_read(x, y)
}

/// What `p` gives for the text `s`: the bit pattern of the number read, or
/// the text of the error.
pub open spec fn number_read<P: Fn(String) -> Result<u64, String>>(p: P, s: String) -> Result<u64, Seq<char>> {
    let x = choose|x: Result<u64, String>| p.ensures((s,), x);
    match x {
        Ok(b) => Ok(b),
        Err(m) => Err(m@),
    }
}

/// `todouble(v)`: a number as it is, a text read by `parse` (which reads it
/// as `f64` does, giving the bit pattern or the text of the error), true as 1
/// and false as 0.
pub fn todouble<P: Fn(String) -> Result<u64, String>>(args: Vec<Value>, parse: &P) -> (r: Result<Value, String>)
    requires
        reads_numbers(*parse),
    ensures
        args.len() != 1 ==> fails_with(r, arity_message("todouble"@, "1 argument"@, args.len() as nat)),
        args.len() == 1 ==> match args@[0] {
            Value::Number(n) => r == Ok::<Value, String>(Value::Number(n)),
            Value::String(s) => match number_read(*parse, s) {
                Ok(b) => r == Ok::<Value, String>(Value::Number(b)),
                Err(m) => fails_with(r, "todouble(): cannot convert string '"@ + s@ + "' to double: "@ + m),
            },
            Value::Bool(b) => r matches Ok(Value::Number(t)) && holds_integer(t, if b { 1 } else { 0 }, false),
            _ => fails_with(r, "todouble(): unsupported type"@),
        },
{
    if args.len() != 1 {
        return Err(arity_error("todouble", "1 argument", args.len()));
    }
    match &args[0] {
        Value::Number(n) => Ok(Value::Number(*n)),
        Value::String(s) => {
            let x = parse(s.clone());
            proof {
                let c = choose|c: Result<u64, String>| parse.ensures((*s,), c);
                assert(parse.ensures((*s,), x));
                assert(same_read(c, x));
            }
            match x {
                Ok(b) => Ok(Value::Number(b)),
                Err(e) => {
                    let mut m = text("todouble(): cannot convert string '");
                    m.append(s.as_str());
                    m.append("' to double: ");
                    m.append(e.as_str());
                    Err(m)
                },
            }
        },
        Value::Bool(b) => {
            let t = number_from_u64(if *b { 1 } else { 0 }, false);
            proof {
                assert(crate::number::bit_length(1) == 1) by {
                    assert(crate::number::bit_length(0) == 0);
                }
                assert(crate::number::bit_length(0) == 0);
            }
            Ok(Value::Number(t))
        },
        _ => Err(text("todouble(): unsupported type")),
    }
}

/// `isint(v)`: whether `v` is a number without fractional part.
pub fn isint(args: Vec<Value>) -> (r: Result<Value, String>)
    ensures
        args.len() != 1 ==> fails_with(r, arity_message("isint"@, "1 argument"@, args.len() as nat)),
        args.len() == 1 ==> r == Ok::<Value, String>(Value::Bool(
            args@[0] matches Value::Number(n) && is_integral(n),
        )),
{
    if args.len() != 1 {
        return Err(arity_error("isint", "1 argument", args.len()));
    }
    match &args[0] {
        Value::Number(n) => Ok(Value::Bool(number_is_integral(*n))),
        _ => Ok(Value::Bool(false)),
    }
}

/// `isdouble(v)`: whether `v` is a number with a fractional part (NaN and
/// the infinities count as such).
pub fn isdouble(args: Vec<Value>) -> (r: Result<Value, String>)
    ensures
        args.len() != 1 ==> fails_with(r, arity_message("isdouble"@, "1 argument"@, args.len() as nat)),
        args.len() == 1 ==> r == Ok::<Value, String>(Value::Bool(
            args@[0] matches Value::Number(n) && !is_integral(n),
        )),
{
    if args.len() != 1 {
        return Err(arity_error("isdouble", "1 argument", args.len()));
    }
    match &args[0] {
        Value::Number(n) => Ok(Value::Bool(!number_is_integral(*n))),
        _ => Ok(Value::Bool(false)),
    }
}

/// Whether `c` is alphabetic or numeric by the Unicode tables (the result
/// of `char::is_alphanumeric`).
pub uninterp spec fn unicode_alphanumeric(c: char) -> bool;

/// `char::is_alphanumeric`. The contract names the result, and states what
/// the documentation gives for ASCII: letters and digits, nothing else.
#[verifier::external_body]
fn char_is_alphanumeric(c: char) -> (r: bool)
    ensures
        r == unicode_alphanumeric(c),
        (c as u32) < 128 ==> (r <==> (is_ascii_digit(c) || ('a' <= c && c <= 'z') || ('A' <= c && c <= 'Z'))),
{
    c.is_alphanumeric()
}

/// Whether every character of the text satisfies `is_alphanumeric`.
pub open spec fn all_alphanumeric(s: Seq<char>) -> bool {
    forall|i: int| 0 <= i < s.len() ==> unicode_alphanumeric(#[trigger] s[i])
}

/// Whether every character of the text is a decimal digit.
pub open spec fn all_digits(s: Seq<char>) -> bool {
    forall|i: int| 0 <= i < s.len() ==> is_ascii_digit(#[trigger] s[i])
}

/// `isalnum(v)`: whether `v` is a text of letters and digits only.
pub fn isalnum(args: Vec<Value>) -> (r: Result<Value, String>)
    ensures
        args.len() != 1 ==> fails_with(r, arity_message("isalnum"@, "1 argument"@, args.len() as nat)),
        args.len() == 1 ==> r == Ok::<Value, String>(Value::Bool(
            args@[0] matches Value::String(s) && all_alphanumeric(s@),
        )),
{
    if args.len() != 1 {
        return Err(arity_error("isalnum", "1 argument", args.len()));
    }
    match &args[0] {
        Value::String(s) => {
            let n = s.as_str().unicode_len();
            let mut i: usize = 0;
            while i < n
                invariant
                    n == s@.len(),
                    i <= n,
                    args.len() == 1,
                    args@[0] == Value::String(*s),
                    forall|j: int| 0 <= j < i ==> unicode_alphanumeric(#[trigger] s@[j]),
                decreases n - i,
            {
                if !char_is_alphanumeric(s.as_str().get_char(i)) {
                    return Ok(Value::Bool(false));
                }
                i = i + 1;
            }
            Ok(Value::Bool(true))
        },
        _ => Ok(Value::Bool(false)),
    }
}

/// `isdigit(v)`: whether `v` is a text of decimal digits only.
pub fn isdigit(args: Vec<Value>) -> (r: Result<Value, String>)
    ensures
        args.len() != 1 ==> fails_with(r, arity_message("isdigit"@, "1 argument"@, args.len() as nat)),
        args.len() == 1 ==> r == Ok::<Value, String>(Value::Bool(
            args@[0] matches Value::String(s) && all_digits(s@),
        )),
{
    if args.len() != 1 {
        return Err(arity_error("isdigit", "1 argument", args.len()));
    }
    match &args[0] {
        Value::String(s) => {
            let n = s.as_str().unicode_len();
            let mut i: usize = 0;
            while i < n
                invariant
                    n == s@.len(),
                    i <= n,
                    args.len() == 1,
                    args@[0] == Value::String(*s),
                    forall|j: int| 0 <= j < i ==> is_ascii_digit(#[trigger] s@[j]),
                decreases n - i,
            {
                let c = s.as_str().get_char(i);
                if !('0' <= c && c <= '9') {
                    return Ok(Value::Bool(false));
                }
                i = i + 1;
            }
            Ok(Value::Bool(true))
        },
        _ => Ok(Value::Bool(false)),
    }
}

/// `isstring(v)`.
pub fn isstring(args: Vec<Value>) -> (r: Result<Value, String>)
    ensures
        args.len() != 1 ==> fails_with(r, arity_message("isstring"@, "1 argument"@, args.len() as nat)),
        args.len() == 1 ==> r == Ok::<Value, String>(Value::Bool(args@[0] is String)),
{
    if args.len() != 1 {
        return Err(arity_error("isstring", "1 argument", args.len()));
    }
    match &args[0] {
        Value::String(_) => Ok(Value::Bool(true)),
        _ => Ok(Value::Bool(false)),
    }
}

/// `islist(v)`.
pub fn islist(args: Vec<Value>) -> (r: Result<Value, String>)
    ensures
        args.len() != 1 ==> fails_with(r, arity_message("islist"@, "1 argument"@, args.len() as nat)),
        args.len() == 1 ==> r == Ok::<Value, String>(Value::Bool(args@[0] is Array)),
{
    if args.len() != 1 {
        return Err(arity_error("islist", "1 argument", args.len()));
    }
    match &args[0] {
        Value::Array(_) => Ok(Value::Bool(true)),
        _ => Ok(Value::Bool(false)),
    }
}

/// `isdict(v)`.
pub fn isdict(args: Vec<Value>) -> (r: Result<Value, String>)
    ensures
        args.len() != 1 ==> fails_with(r, arity_message("isdict"@, "1 argument"@, args.len() as nat)),
        args.len() == 1 ==> r == Ok::<Value, String>(Value::Bool(args@[0] is Dictionary)),
{
    if args.len() != 1 {
        return Err(arity_error("isdict", "1 argument", args.len()));
    }
    match &args[0] {
        Value::Dictionary(_) => Ok(Value::Bool(true)),
        _ => Ok(Value::Bool(false)),
    }
}

/// The name of the type of a value, as `typeof` gives it.
pub open spec fn kind_name(v: Value) -> Seq<char> {
    match v {
        Value::Number(_) => "number"@,
        Value::String(_) => "string"@,
        Value::Bool(_) => "bool"@,
        Value::Array(_) => "list"@,
        Value::Dictionary(_) => "dict"@,
        Value::BuiltinFunction(_) => "function"@,
        Value::Null => "null"@,
        _ => "unknown"@,
    }
}

/// `typeof(v)`: the name of the type of `v`.
pub fn typeof_(args: Vec<Value>) -> (r: Result<Value, String>)
    ensures
        args.len() != 1 ==> fails_with(r, arity_message("typeof"@, "1 argument"@, args.len() as nat)),
        args.len() == 1 ==> (r matches Ok(Value::String(t)) && t@ == kind_name(args@[0])),
{
    if args.len() != 1 {
        return Err(arity_error("typeof", "1 argument", args.len()));
    }
    let t = match &args[0] {
        Value::Number(_) => "number",
        Value::String(_) => "string",
        Value::Bool(_) => "bool",
        Value::Array(_) => "list",
        Value::Dictionary(_) => "dict",
        Value::BuiltinFunction(_) => "function",
        Value::Null => "null",
        _ => "unknown",
    };
    Ok(Value::String(text(t)))
}

} // verus!
