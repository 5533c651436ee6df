//! Reading a colour from its text: a name (`"red"`), six hexadecimal digits
//! after `#` or `0x`, or three decimal channels separated by commas
//! (`"255, 0, 0"`).

use vstd::prelude::*;
use crate::text::same_text;
use crate::ui::{lowercase, lowercase_text, Color};

verus! {

/// `char::is_whitespace`: the characters of the Unicode White_Space property.
pub open spec fn is_white_space(c: char) -> bool {
    let u = c as u32;
    ||| 9 <= u <= 13
    ||| u == 32
    ||| u == 0x85
    ||| u == 0xA0
    ||| u == 0x1680
    ||| 0x2000 <= u <= 0x200A
    ||| u == 0x2028
    ||| u == 0x2029
    ||| u == 0x202F
    ||| u == 0x205F
    ||| u == 0x3000
}

/// Whether a character is white space.
pub fn white_space(c: char) -> (r: bool)
    ensures
        r == is_white_space(c),
{
    let u = c as u32;
    (9 <= u && u <= 13) || u == 32 || u == 0x85 || u == 0xA0 || u == 0x1680 || (0x2000 <= u && u <= 0x200A)
        || u == 0x2028 || u == 0x2029 || u == 0x202F || u == 0x205F || u == 0x3000
}

/// The number of white-space characters at the start of `t`.
pub open spec fn leading_space(t: Seq<char>) -> nat
    decreases t.len(),
{
    if t.len() > 0 && is_white_space(t[0]) {
        1 + leading_space(t.subrange(1, t.len() as int))
    } else {
        0
    }
}

/// The number of white-space characters at the end of `t`.
pub open spec fn trailing_space(t: Seq<char>) -> nat
    decreases t.len(),
{
    if t.len() > 0 && is_white_space(t.last()) {
        1 + trailing_space(t.drop_last())
    } else {
        0
    }
}

/// `str::trim`: `t` without white space at either end.
pub open spec fn trimmed(t: Seq<char>) -> Seq<char> {
    let u = t.subrange(leading_space(t) as int, t.len() as int);
    u.subrange(0, u.len() - trailing_space(u))
}

/// The index of the first `c` in `s`, or -1.
pub open spec fn first_index(s: Seq<char>, c: char) -> int
    decreases s.len(),
{
    if s.len() == 0 {
        -1
    } else if s[0] == c {
        0
    } else {
        let k = first_index(s.subrange(1, s.len() as int), c);
        if k < 0 {
            -1
        } else {
            k + 1
        }
    }
}

/// The digits of an unsigned number, without the `+` that may come first.
pub open spec fn unsigned_digits(t: Seq<char>) -> Seq<char> {
    if t.len() > 0 && t[0] == '+' {
        t.subrange(1, t.len() as int)
    } else {
        t
    }
}

pub open spec fn is_decimal_digit(c: char) -> bool {
    '0' <= c <= '9'
}

/// The value of a hexadecimal digit, or 16 for any other character.
pub open spec fn hex_digit_value(c: char) -> nat {
    if '0' <= c <= '9' {
        (c as u32 - '0' as u32) as nat
    } else if 'a' <= c <= 'f' {
        (c as u32 - 'a' as u32 + 10) as nat
    } else if 'A' <= c <= 'F' {
        (c as u32 - 'A' as u32 + 10) as nat
    } else {
        16
    }
}

/// The value of a sequence of decimal digits.
pub open spec fn decimal_value(d: Seq<char>) -> nat
    decreases d.len(),
{
    if d.len() == 0 {
        0
    } else {
        10 * decimal_value(d.drop_last()) + (d.last() as u32 - '0' as u32) as nat
    }
}

/// The value of a sequence of hexadecimal digits.
pub open spec fn hex_value(d: Seq<char>) -> nat
    decreases d.len(),
{
    if d.len() == 0 {
        0
    } else {
        16 * hex_value(d.drop_last()) + hex_digit_value(d.last())
    }
}

/// `u8::from_str`: an optional `+`, then decimal digits, worth at most 255.
pub open spec fn parse_u8(t: Seq<char>) -> Option<u8> {
    let d = unsigned_digits(t);
    if d.len() > 0 && (forall|k: int| 0 <= k < d.len() ==> is_decimal_digit(#[trigger] d[k])) && decimal_value(d)
        <= 255 {
        Some(decimal_value(d) as u8)
    } else {
        None
    }
}

/// `u32::from_str_radix(t, 16)` for a text of six characters.
pub open spec fn parse_hex6(t: Seq<char>) -> Option<nat> {
    let d = unsigned_digits(t);
    if t.len() == 6 && d.len() > 0 && forall|k: int| 0 <= k < d.len() ==> #[trigger] hex_digit_value(d[k]) < 16 {
        Some(hex_value(d))
    } else {
        None
    }
}

/// An opaque colour of the given channels.
pub open spec fn rgb(r: nat, g: nat, b: nat) -> Color {
    Color { r: r as u8, g: g as u8, b: b as u8, a: 255 }
}

/// The colours that have a name.
pub open spec fn named_color(s: Seq<char>) -> Option<Color> {
    if s == "red"@ {
        Some(rgb(255, 0, 0))
    } else if s == "green"@ {
        Some(rgb(0, 255, 0))
    } else if s == "blue"@ {
        Some(rgb(0, 0, 255))
    } else if s == "white"@ {
        Some(rgb(255, 255, 255))
    } else if s == "black"@ {
        Some(rgb(0, 0, 0))
    } else if s == "yellow"@ {
        Some(rgb(255, 255, 0))
    } else if s == "cyan"@ {
        Some(rgb(0, 255, 255))
    } else if s == "magenta"@ {
        Some(rgb(255, 0, 255))
    } else {
        None
    }
}

/// The colour of six hexadecimal digits after `#` or `0x`.
pub open spec fn hex_color(s: Seq<char>) -> Option<Color> {
    let h = if s.len() >= 1 && s[0] == '#' {
        Some(s.subrange(1, s.len() as int))
    } else if s.len() >= 2 && s[0] == '0' && s[1] == 'x' {
        Some(s.subrange(2, s.len() as int))
    } else {
        None
    };
    match h {
        Some(h) => match parse_hex6(h) {
            Some(v) => Some(rgb(v / 65536 % 256, v / 256 % 256, v % 256)),
            None => None,
        },
        None => None,
    }
}

/// The three parts of a text with exactly two commas.
pub open spec fn comma_parts(s: Seq<char>) -> Option<(Seq<char>, Seq<char>, Seq<char>)> {
    let i = first_index(s, ',');
    if i < 0 {
        None
    } else {
        let rest = s.subrange(i + 1, s.len() as int);
        let j = first_index(rest, ',');
        if j < 0 {
            None
        } else {
            let last = rest.subrange(j + 1, rest.len() as int);
            if first_index(last, ',') >= 0 {
                None
            } else {
                Some((s.subrange(0, i), rest.subrange(0, j), last))
            }
        }
    }
}

/// The colour of three decimal channels separated by commas.
pub open spec fn rgb_text_color(s: Seq<char>) -> Option<Color> {
    match comma_parts(s) {
        Some((a, b, c)) => match (parse_u8(trimmed(a)), parse_u8(trimmed(b)), parse_u8(trimmed(c))) {
            (Some(r), Some(g), Some(bl)) => Some(rgb(r as nat, g as nat, bl as nat)),
            _ => None,
        },
        None => None,
    }
}

/// The colour that a text names, if any: by name (in any case), then by
/// hexadecimal digits, then by decimal channels.
pub open spec fn parsed_color(s: Seq<char>) -> Option<Color> {
    match named_color(lowercase_text(s)) {
        Some(c) => Some(c),
        None => match hex_color(s) {
            Some(c) => Some(c),
            None => rgb_text_color(s),
        },
    }
}

/// The colour of a name.
pub fn color_by_name(s: &String) -> (r: Option<Color>)
    ensures
        r == named_color(s@),
{
    if same_text(s, "red") {
        Some(Color { r: 255, g: 0, b: 0, a: 255 })
    } else if same_text(s, "green") {
        Some(Color { r: 0, g: 255, b: 0, a: 255 })
    } else if same_text(s, "blue") {
        Some(Color { r: 0, g: 0, b: 255, a: 255 })
    } else if same_text(s, "white") {
        Some(Color { r: 255, g: 255, b: 255, a: 255 })
    } else if same_text(s, "black") {
        Some(Color { r: 0, g: 0, b: 0, a: 255 })
    } else if same_text(s, "yellow") {
        Some(Color { r: 255, g: 255, b: 0, a: 255 })
    } else if same_text(s, "cyan") {
        Some(Color { r: 0, g: 255, b: 255, a: 255 })
    } else if same_text(s, "magenta") {
        Some(Color { r: 255, g: 0, b: 255, a: 255 })
    } else {
        None
    }
}

/// Where the first `c` at or after `lo` stands in `s`, if anywhere.
fn find_char(s: &str, lo: usize, c: char) -> (r: Option<usize>)
    requires
        lo <= s@.len(),
    ensures
        ({
            let k = first_index(s@.subrange(lo as int, s@.len() as int), c);
            match r {
                Some(i) => lo <= i < s@.len() && k == i - lo,
                None => k == -1,
            }
        }),
{
    let n = s.unicode_len();
    let mut i = lo;
    while i < n
        invariant
            n == s@.len(),
            lo <= i <= n,
            first_index(s@.subrange(lo as int, n as int), c) == if first_index(
                s@.subrange(i as int, n as int),
                c,
            ) < 0 {
                -1
            } else {
                first_index(s@.subrange(i as int, n as int), c) + (i - lo)
            },
        decreases n - i,
    {
        proof {
            let t = s@.subrange(i as int, n as int);
            assert(t.subrange(1, t.len() as int) =~= s@.subrange(i + 1, n as int));
        }
        if s.get_char(i) == c {
            return Some(i);
        }
        i = i + 1;
    }
    None
}

/// `parse_u8(trimmed(..))` of the characters `lo..hi` of `s`.
fn parse_channel(s: &str, lo: usize, hi: usize) -> (r: Option<u8>)
    requires
        lo <= hi <= s@.len(),
    ensures
        r == parse_u8(trimmed(s@.subrange(lo as int, hi as int))),
{
    let ghost t = s@.subrange(lo as int, hi as int);
    let mut a = lo;
    while a < hi && white_space(s.get_char(a))
        invariant
            lo <= a <= hi <= s@.len(),
            leading_space(t) == (a - lo) + leading_space(s@.subrange(a as int, hi as int)),
        decreases hi - a,
    {
        proof {
            let u = s@.subrange(a as int, hi as int);
            assert(u.subrange(1, u.len() as int) =~= s@.subrange(a + 1, hi as int));
        }
        a = a + 1;
    }
    let ghost u = s@.subrange(a as int, hi as int);
    proof {
        assert(leading_space(u) == 0);
        assert(t.subrange(leading_space(t) as int, t.len() as int) =~= u);
    }
    let mut b = hi;
    while b > a && white_space(s.get_char(b - 1))
        invariant
            lo <= a <= b <= hi <= s@.len(),
            trailing_space(u) == (hi - b) + trailing_space(s@.subrange(a as int, b as int)),
        decreases b - a,
    {
        proof {
            let w = s@.subrange(a as int, b as int);
            assert(w.drop_last() =~= s@.subrange(a as int, b - 1));
        }
        b = b - 1;
    }
    let ghost d0 = s@.subrange(a as int, b as int);
    proof {
        assert(trailing_space(d0) == 0);
        assert(u.subrange(0, u.len() - trailing_space(u)) =~= d0);
        assert(trimmed(t) == d0);
    }
    let mut start = a;
    if start < b && s.get_char(start) == '+' {
        start = start + 1;
    }
    let ghost d = s@.subrange(start as int, b as int);
    proof {
        assert(unsigned_digits(d0) =~= d);
    }
    if start == b {
        return None;
    }
    let mut v: u32 = 0;
    let mut k = start;
    while k < b
        invariant
            a <= start <= k <= b <= s@.len(),
            d == s@.subrange(start as int, b as int),
            t == s@.subrange(lo as int, hi as int),
            trimmed(t) == d0,
            unsigned_digits(d0) == d,
            d.len() > 0,
            v <= 256,
            v == if decimal_value(s@.subrange(start as int, k as int)) > 256 {
                256
            } else {
                decimal_value(s@.subrange(start as int, k as int))
            },
            forall|m: int| start <= m < k ==> is_decimal_digit(#[trigger] s@[m]),
        decreases b - k,
    {
        let c = s.get_char(k);
        if !('0' <= c && c <= '9') {
            proof {
                assert(!is_decimal_digit(d[k - start]));
            }
            return None;
        }
        let ghost p = s@.subrange(start as int, k as int);
        let ghost p1 = s@.subrange(start as int, k + 1);
        proof {
            assert(p1.drop_last() =~= p);
            assert(p1.last() == c);
        }
        let dig = (c as u32) - ('0' as u32);
        let w = 10 * v + dig;
        v = if w > 256 { 256 } else { w };
        k = k + 1;
    }
    proof {
        assert(s@.subrange(start as int, b as int) =~= d);
        assert forall|m: int| 0 <= m < d.len() implies is_decimal_digit(#[trigger] d[m]) by {
            assert(d[m] == s@[start + m]);
        }
    }
    if v > 255 {
        None
    } else {
        Some(v as u8)
    }
}

/// `parse_hex6` of the characters from `lo` to the end of `s`.
fn parse_hex_tail(s: &str, lo: usize) -> (r: Option<u32>)
    requires
        lo <= s@.len(),
    ensures
        ({
            let p = parse_hex6(s@.subrange(lo as int, s@.len() as int));
            match r {
                Some(v) => p == Some(v as nat),
                None => p is None,
            }
        }),
{
    let n = s.unicode_len();
    let ghost t = s@.subrange(lo as int, n as int);
    if n - lo != 6 {
        return None;
    }
    let mut start = lo;
    if s.get_char(lo) == '+' {
        start = lo + 1;
    }
    let ghost d = s@.subrange(start as int, n as int);
    proof {
        assert(unsigned_digits(t) =~= d);
    }
    let mut v: u32 = 0;
    let mut k = start;
    while k < n
        invariant
            n == s@.len(),
            lo <= start <= k <= n,
            n - lo == 6,
            t == s@.subrange(lo as int, n as int),
            unsigned_digits(t) == d,
            d == s@.subrange(start as int, n as int),
            v as nat == hex_value(s@.subrange(start as int, k as int)),
            v < 0x100_0000,
            k - start <= 6,
            v < pow16((k - start) as nat),
            forall|m: int| start <= m < k ==> hex_digit_value(#[trigger] s@[m]) < 16,
        decreases n - k,
    {
        let c = s.get_char(k);
        let h: u32 = if '0' <= c && c <= '9' {
            (c as u32) - ('0' as u32)
        } else if 'a' <= c && c <= 'f' {
            (c as u32) - ('a' as u32) + 10
        } else if 'A' <= c && c <= 'F' {
            (c as u32) - ('A' as u32) + 10
        } else {
            proof {
                assert(hex_digit_value(d[k - start]) >= 16);
            }
            return None;
        };
        let ghost p = s@.subrange(start as int, k as int);
        let ghost p1 = s@.subrange(start as int, k + 1);
        proof {
            assert(p1.drop_last() =~= p);
            assert(p1.last() == c);
            assert(h as nat == hex_digit_value(c));
            assert(16 * v + h < 16 * pow16((k - start) as nat)) by (nonlinear_arith)
                requires
                    v < pow16((k - start) as nat),
                    h < 16,
            ;
            assert(pow16((k + 1 - start) as nat) == 16 * pow16((k - start) as nat));
            lemma_pow16_bound((k + 1 - start) as nat);
        }
        v = 16 * v + h;
        k = k + 1;
    }
    proof {
        assert forall|m: int| 0 <= m < d.len() implies hex_digit_value(#[trigger] d[m]) < 16 by {
            assert(d[m] == s@[start + m]);
        }
    }
    if start == n {
        return None;
    }
    Some(v)
}

/// `16^k`.
pub open spec fn pow16(k: nat) -> nat
    decreases k,
{
    if k == 0 {
        1
    } else {
        16 * pow16((k - 1) as nat)
    }
}

/// `16^k` for up to six digits stays within 24 bits.
proof fn lemma_pow16_bound(k: nat)
    requires
        k <= 6,
    ensures
        pow16(k) <= 0x100_0000,
{
    reveal_with_fuel(pow16, 7);
}

/// The colour of six hexadecimal digits after `#` or `0x`, if the text has them.
fn hex_text_color(t: &str) -> (r: Option<Color>)
    ensures
        r == hex_color(t@),
{
    let n = t.unicode_len();
    let lo: usize = if n >= 1 && t.get_char(0) == '#' {
        1
    } else if n >= 2 && t.get_char(0) == '0' && t.get_char(1) == 'x' {
        2
    } else {
        0
    };
    if lo == 0 {
        return None;
    }
    match parse_hex_tail(t, lo) {
        Some(v) => Some(Color { r: ((v / 65536) % 256) as u8, g: ((v / 256) % 256) as u8, b: (v % 256) as u8, a: 255 }),
        None => None,
    }
}

/// The colour of three decimal channels separated by commas, if the text has them.
fn channels_color(t: &str) -> (r: Option<Color>)
    ensures
        r == rgb_text_color(t@),
{
    let n = t.unicode_len();
    proof {
        assert(t@.subrange(0, n as int) =~= t@);
    }
    let i = match find_char(t, 0, ',') {
        Some(i) => i,
        None => return None,
    };
    let ghost rest = t@.subrange(i + 1, n as int);
    let j = match find_char(t, i + 1, ',') {
        Some(j) => j,
        None => return None,
    };
    proof {
        assert(rest.subrange(j - i, rest.len() as int) =~= t@.subrange(j + 1, n as int));
        assert(rest.subrange(0, j - i - 1) =~= t@.subrange(i + 1, j as int));
    }
    if find_char(t, j + 1, ',').is_some() {
        return None;
    }
    let r = parse_channel(t, 0, i);
    let g = parse_channel(t, i + 1, j);
    let b = parse_channel(t, j + 1, n);
    match (r, g, b) {
        (Some(r), Some(g), Some(b)) => Some(Color { r, g, b, a: 255 }),
        _ => None,
    }
}

/// The colour that a text names, if any (`parse_color`).
pub fn parse_color(s: &String) -> (r: Option<Color>)
    ensures
        r == parsed_color(s@),
{
    let low = lowercase(s);
    match color_by_name(&low) {
        Some(c) => return Some(c),
        None => {},
    }
    match hex_text_color(s.as_str()) {
        Some(c) => return Some(c),
        None => {},
    }
    channels_color(s.as_str())
}

} // verus!
