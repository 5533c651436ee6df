//! Single-precision (binary32) values, which the user interface keeps for
//! sizes, positions and the like, held as their 32-bit patterns, and the
//! conversions between them and numbers.
//!
//! A finite single with exponent field `E` and fraction field `F` encodes
//! `(-1)^s * significand * 2^(scale - 149)`, where the significand is `F`
//! (for `E == 0`) or `F + 2^23`, and the scale is `max(E, 1) - 1`.

use vstd::prelude::*;
use vstd::arithmetic::power2::{
    pow2,
    lemma_pow2_pos,
    lemma_pow2_adds,
    lemma_pow2_strictly_increases,
    lemma2_to64,
    lemma2_to64_rest,
};
use vstd::arithmetic::div_mod::{
    lemma_fundamental_div_mod,
    lemma_fundamental_div_mod_converse,
    lemma_small_mod,
    lemma_basic_div,
};
use vstd::arithmetic::mul::{lemma_mul_inequality, lemma_mul_is_associative};
use crate::number::{
    bit_length,
    exp_field,
    frac_field,
    fields,
    is_infinite,
    is_nan,
    is_negative,
    is_finite,
    lemma_bit_length_bounds,
    lemma_fields,
    lemma_compose,
    bit_len,
    lemma_bit_length_le,
    lemma_shifted_div_mod,
    magnitude,
    pow2_u64,
    round_half_even,
    significand,
    scale,
    FRAC_UNIT,
    SIGN_BIT,
    num_less,
    num_order,
    number_order,
    signed_magnitude,
    NumOrder,
};

verus! {

pub open spec fn abs32(c: u32) -> nat {
    (c % 0x8000_0000) as nat
}

pub open spec fn is_negative32(c: u32) -> bool {
    c >= 0x8000_0000
}

pub open spec fn exp32(c: u32) -> nat {
    abs32(c) / 0x80_0000
}

pub open spec fn frac32(c: u32) -> nat {
    abs32(c) % 0x80_0000
}

pub open spec fn is_nan32(c: u32) -> bool {
    exp32(c) == 255 && frac32(c) != 0
}

pub open spec fn is_infinite32(c: u32) -> bool {
    exp32(c) == 255 && frac32(c) == 0
}

pub open spec fn is_finite32(c: u32) -> bool {
    exp32(c) < 255
}

pub open spec fn significand32(c: u32) -> nat {
    if exp32(c) == 0 {
        frac32(c)
    } else {
        frac32(c) + 0x80_0000
    }
}

pub open spec fn scale32(c: u32) -> nat {
    if exp32(c) == 0 {
        0
    } else {
        (exp32(c) - 1) as nat
    }
}

/// The absolute value of a finite single, multiplied by `2^149`.
pub open spec fn magnitude32(c: u32) -> nat {
    significand32(c) * pow2(scale32(c))
}

/// For the absolute value of a number, multiplied by `2^1074`: the single
/// nearest to it (ties to the even one), multiplied by `2^149`, as if the
/// exponent of singles had no upper bound.
pub open spec fn narrowed_units(m: nat) -> nat {
    if bit_length(m) <= 949 {
        round_half_even(m, 925)
    } else {
        let k = (bit_length(m) - 24) as nat;
        round_half_even(m, k) * pow2((k - 925) as nat)
    }
}

/// `c` is `b as f32`: NaN stays NaN; otherwise the sign is kept and the value
/// rounded to the nearest single, ties to even, going to infinity beyond the
/// largest single.
pub open spec fn narrows_to(b: u64, c: u32) -> bool {
    if is_nan(b) {
        is_nan32(c)
    } else {
        &&& is_negative32(c) == is_negative(b)
        &&& if is_infinite(b) || narrowed_units(magnitude(b)) >= pow2(277) {
            is_infinite32(c)
        } else {
            is_finite32(c) && magnitude32(c) == narrowed_units(magnitude(b))
        }
    }
}

/// `b` is `c as f64`: the same value exactly.
pub open spec fn widens_to(c: u32, b: u64) -> bool {
    if is_nan32(c) {
        is_nan(b)
    } else {
        &&& is_negative(b) == is_negative32(c)
        &&& if is_infinite32(c) {
            is_infinite(b)
        } else {
            is_finite(b) && magnitude(b) == magnitude32(c) * pow2(925)
        }
    }
}

/// The single that `b as f32` gives, bit for bit.
pub open spec fn narrowed(b: u64) -> u32 {
    let sp: nat = if is_negative(b) { 0x8000_0000 } else { 0 };
    let e = exp_field(b);
    if is_nan(b) {
        (sp + 0x7fc0_0000) as u32
    } else if is_infinite(b) {
        (sp + 0x7f80_0000) as u32
    } else if e == 0 {
        sp as u32
    } else {
        let t: nat = if e <= 897 { (926 - e) as nat } else { 29 };
        let r = round_half_even(significand(b), t);
        let mag: nat = if e <= 897 { r } else { ((e - 897) * 0x80_0000 + r) as nat };
        if mag >= 0x7f80_0000 {
            (sp + 0x7f80_0000) as u32
        } else {
            (sp + mag) as u32
        }
    }
}

/// The number that `c as f64` gives, bit for bit.
pub open spec fn widened(c: u32) -> u64 {
    let sp: nat = if is_negative32(c) { 0x8000_0000_0000_0000 } else { 0 };
    let e = exp32(c);
    let f = frac32(c);
    if e == 255 {
        if f != 0 {
            (sp + 0x7FF8_0000_0000_0000) as u64
        } else {
            (sp + 0x7FF0_0000_0000_0000) as u64
        }
    } else if e == 0 && f == 0 {
        sp as u64
    } else if e == 0 {
        let p = bit_length(f);
        (sp + (873 + p) * 0x10_0000_0000_0000 + (f * pow2((53 - p) as nat) - 0x10_0000_0000_0000)) as u64
    } else {
        (sp + (e + 896) * 0x10_0000_0000_0000 + f * 0x2000_0000) as u64
    }
}

/// The fields of a single assembled from a sign part, an exponent and a fraction.
pub proof fn lemma_compose32(c: u32, sp: u32, e: nat, f: nat)
    requires
        sp == 0 || sp == 0x8000_0000,
        e < 256,
        f < 0x80_0000,
        c as int == sp + e * 0x80_0000 + f,
    ensures
        is_negative32(c) == (sp != 0),
        exp32(c) == e,
        frac32(c) == f,
{
    let x = e * 0x80_0000 + f;
    assert(x < 0x8000_0000);
    lemma_fundamental_div_mod_converse(c as int, 0x8000_0000, (sp / 0x8000_0000) as int, x as int);
    lemma_fundamental_div_mod_converse(x as int, 0x80_0000, e as int, f as int);
}

/// A number of `k` binary digits.
pub proof fn lemma_bit_length_exact(n: nat, k: nat)
    requires
        k > 0,
        pow2((k - 1) as nat) <= n < pow2(k),
    ensures
        bit_length(n) == k,
{
    lemma_bit_length_bounds(n);
    let b = bit_length(n);
    if b > k {
        if (b - 1) as nat > k {
            lemma_pow2_strictly_increases(k, (b - 1) as nat);
        }
    }
    if b < k {
        if b < (k - 1) as nat {
            lemma_pow2_strictly_increases(b, (k - 1) as nat);
        }
    }
}

/// Rounding away `s + k` binary digits of `m * 2^s` is rounding away `k` of `m`.
pub proof fn lemma_round_shift(m: nat, s: nat, k: nat)
    requires
        k > 0,
    ensures
        round_half_even(m * pow2(s), s + k) == round_half_even(m, k),
{
    lemma_shifted_div_mod(m, s, k);
    lemma_pow2_adds(s, k);
    lemma_pow2_pos(s);
    let ps = pow2(s);
    let pk = pow2(k);
    let r = m % pk;
    assert((2 * (ps * r) > ps * pk) == (2 * r > pk)) by (nonlinear_arith)
        requires
            ps > 0,
    ;
    assert((2 * (ps * r) == ps * pk) == (2 * r == pk)) by (nonlinear_arith)
        requires
            ps > 0,
    ;
}

/// A number below half of `2^k` rounds to zero.
pub proof fn lemma_round_small(m: nat, k: nat)
    requires
        k > 0,
        2 * m < pow2(k),
    ensures
        round_half_even(m, k) == 0,
{
    lemma_pow2_pos(k);
    lemma_basic_div(m as int, pow2(k) as int);
    lemma_small_mod(m, pow2(k));
}

/// A 53-digit significand rounded to 24 digits.
pub proof fn lemma_round_range(sig: nat)
    requires
        0x10_0000_0000_0000 <= sig < 0x20_0000_0000_0000,
    ensures
        0x80_0000 <= round_half_even(sig, 29) <= 0x100_0000,
{
    lemma2_to64();
    let p = pow2(29);
    lemma_fundamental_div_mod(sig as int, p as int);
    let q = sig / p;
    let r = sig % p;
    assert(0x80_0000 <= q < 0x100_0000) by (nonlinear_arith)
        requires
            sig == p * q + r,
            0 <= r < p,
            p == 0x2000_0000,
            0x10_0000_0000_0000 <= sig < 0x20_0000_0000_0000,
    ;
}

/// Where a single of `r * 2^d` units lies against the largest one.
pub proof fn lemma_units_bound(r: nat, d: nat)
    requires
        0x80_0000 <= r <= 0x100_0000,
    ensures
        (r * pow2(d) >= pow2(277)) == (d * 0x80_0000 + r >= 255 * 0x80_0000),
{
    lemma2_to64();
    lemma_pow2_adds(23, d);
    lemma_pow2_adds(24, d);
    lemma_mul_inequality(0x80_0000, r as int, pow2(d) as int);
    lemma_mul_inequality(r as int, 0x100_0000, pow2(d) as int);
    if d >= 254 {
        if 23 + d > 277 {
            lemma_pow2_strictly_increases(277, 23 + d);
        }
    } else if d == 253 {
        lemma_pow2_pos(253);
        if r < 0x100_0000 {
            assert(r * pow2(253) < 0x100_0000 * pow2(253)) by (nonlinear_arith)
                requires
                    r < 0x100_0000,
                    pow2(253) > 0,
            ;
        }
    } else {
        lemma_pow2_strictly_increases(24 + d, 277);
    }
}

/// `x as f32`.
pub fn number_to_single(b: u64) -> (c: u32)
    ensures
        narrows_to(b, c),
        c == narrowed(b),
{
    let (e, f) = fields(b);
    proof {
        lemma_fields(b);
        lemma2_to64();
        lemma2_to64_rest();
    }
    let sp: u32 = if b >= SIGN_BIT { 0x8000_0000 } else { 0 };
    if e == 2047 {
        if f != 0 {
            let c = sp + 0x7fc0_0000;
            proof {
                lemma_compose32(c, sp, 255, 0x40_0000);
            }
            return c;
        }
        let c = sp + 0x7f80_0000;
        proof {
            lemma_compose32(c, sp, 255, 0);
        }
        return c;
    }
    if e == 0 {
        proof {
            lemma_compose32(sp, sp, 0, 0);
            assert(magnitude32(sp) == 0) by {
                assert(0 * pow2(0) == 0) by (nonlinear_arith);
            }
            let m = magnitude(b);
            assert(m == f as nat * 1);
            lemma_bit_length_bounds(m);
            if bit_length(m) > 52 {
                lemma_pow2_strictly_increases(52, (bit_length(m) - 1) as nat);
            }
            lemma_pow2_strictly_increases(53, 925);
            lemma_round_small(m, 925);
            lemma_pow2_pos(277);
        }
        return sp;
    }
    let sig: u64 = f + FRAC_UNIT;
    let t: u64 = if e <= 897 { 926 - e } else { 29 };
    let r: u64 = if t >= 54 {
        0
    } else {
        let pk = pow2_u64(t);
        let q = sig / pk;
        let rem = sig % pk;
        proof {
            lemma_pow2_pos(t as nat);
        }
        if 2 * rem > pk || (2 * rem == pk && q % 2 == 1) {
            q + 1
        } else {
            q
        }
    };
    let ghost m = magnitude(b);
    let ghost s = (e - 1) as nat;
    proof {
        assert(significand(b) == sig as nat);
        assert(scale(b) == s);
        if t >= 54 {
            if t > 54 {
                lemma_pow2_strictly_increases(54, t as nat);
            }
            lemma_round_small(sig as nat, t as nat);
        }
        assert(r as nat == round_half_even(sig as nat, t as nat));
        lemma_pow2_pos(s);
        lemma_pow2_adds(52, s);
        lemma_pow2_adds(53, s);
        lemma_mul_inequality(pow2(52) as int, sig as int, pow2(s) as int);
        assert(sig * pow2(s) < pow2(53) * pow2(s)) by (nonlinear_arith)
            requires
                sig < pow2(53),
                pow2(s) > 0,
        ;
        lemma_pow2_pos(s);
        lemma_bit_length_exact(m, 53 + s);
        lemma_round_shift(sig as nat, s, t as nat);
    }
    if e <= 897 {
        proof {
            assert(narrowed_units(m) == r as nat);
            if t == 29 {
                lemma_round_range(sig as nat);
            } else {
                assert(2 * sig < 2 * pow2(53));
                let pt = pow2(t as nat);
                lemma_pow2_adds(24, (t - 24) as nat);
                lemma_pow2_strictly_increases(29, t as nat);
                lemma_fundamental_div_mod(sig as int, pt as int);
                assert(sig as nat / pt < 0x100_0000) by (nonlinear_arith)
                    requires
                        sig as nat == pt * (sig as nat / pt) + sig as nat % pt,
                        sig as nat % pt >= 0,
                        pt >= 0x4000_0000,
                        sig < 0x20_0000_0000_0000,
                ;
            }
            assert(r <= 0x100_0000);
            lemma_pow2_strictly_increases(25, 277);
        }
        let c = sp + r as u32;
        proof {
            if r < 0x80_0000 {
                lemma_compose32(c, sp, 0, r as nat);
                assert(magnitude32(c) == r * pow2(0));
            } else if r < 0x100_0000 {
                lemma_compose32(c, sp, 1, (r - 0x80_0000) as nat);
                assert(magnitude32(c) == r * pow2(0));
            } else {
                lemma_compose32(c, sp, 2, 0);
                assert(magnitude32(c) == 0x80_0000 * pow2(1));
            }
        }
        return c;
    }
    let d = e - 897;
    proof {
        lemma_round_range(sig as nat);
        assert(bit_length(m) == e + 52);
        assert(narrowed_units(m) == r * pow2(d as nat));
        lemma_units_bound(r as nat, d as nat);
    }
    let mag = d * 0x80_0000 + r;
    if mag >= 0x7f80_0000 {
        let c = sp + 0x7f80_0000;
        proof {
            lemma_compose32(c, sp, 255, 0);
        }
        return c;
    }
    let c = sp + mag as u32;
    proof {
        if r < 0x100_0000 {
            lemma_compose32(c, sp, (d + 1) as nat, (r - 0x80_0000) as nat);
            assert(magnitude32(c) == r * pow2(d as nat));
        } else {
            lemma_compose32(c, sp, (d + 2) as nat, 0);
            lemma_pow2_adds(1, d as nat);
            assert(magnitude32(c) == 0x80_0000 * pow2((d + 1) as nat));
            lemma_mul_is_associative(0x80_0000, 2, pow2(d as nat) as int);
        }
    }
    c
}

/// `x as f64` for a single `x`: exact.
pub fn single_to_number(c: u32) -> (b: u64)
    ensures
        widens_to(c, b),
        b == widened(c),
{
    let a = c % 0x8000_0000;
    let e = a / 0x80_0000;
    let f = a % 0x80_0000;
    let sp: u64 = if c >= 0x8000_0000 { SIGN_BIT } else { 0 };
    proof {
        lemma2_to64();
        lemma2_to64_rest();
        assert(e as nat == exp32(c) && f as nat == frac32(c));
    }
    if e == 255 {
        if f != 0 {
            let b = sp + 0x7FF8_0000_0000_0000;
            proof {
                lemma_compose(b, sp, 2047, 0x8_0000_0000_0000);
            }
            return b;
        }
        let b = sp + 0x7FF0_0000_0000_0000;
        proof {
            lemma_compose(b, sp, 2047, 0);
        }
        return b;
    }
    if e == 0 && f == 0 {
        proof {
            lemma_compose(sp, sp, 0, 0);
            assert(magnitude(sp) == 0 * pow2(0));
            assert(magnitude32(c) == 0 * pow2(0));
            assert(0 * pow2(925) == 0) by (nonlinear_arith);
        }
        return sp;
    }
    if e == 0 {
        let p = bit_len(f as u64);
        proof {
            lemma_bit_length_bounds(f as nat);
            lemma_bit_length_le(f as nat, 23);
        }
        let sh = pow2_u64(53 - p);
        proof {
            lemma_pow2_adds((p - 1) as nat, (53 - p) as nat);
            lemma_pow2_adds(p as nat, (53 - p) as nat);
            lemma_mul_inequality(pow2((p - 1) as nat) as int, f as int, sh as int);
            assert(f * sh < pow2(p as nat) * sh) by (nonlinear_arith)
                requires
                    f < pow2(p as nat),
                    sh > 0,
            ;
        }
        let sig = f as u64 * sh;
        let e64 = 873 + p;
        let b = sp + e64 * FRAC_UNIT + (sig - FRAC_UNIT);
        proof {
            lemma_compose(b, sp, e64 as nat, (sig - FRAC_UNIT) as nat);
            assert(significand(b) == sig);
            assert(scale(b) == 872 + p);
            lemma_pow2_adds((53 - p) as nat, (872 + p) as nat);
            lemma_mul_is_associative(f as int, sh as int, pow2((872 + p) as nat) as int);
            assert(magnitude32(c) == f * pow2(0));
        }
        return b;
    }
    let e64 = e as u64 + 896;
    let fw = f as u64 * 0x2000_0000;
    let b = sp + e64 * FRAC_UNIT + fw;
    proof {
        lemma_compose(b, sp, e64 as nat, fw as nat);
        let s32 = (e - 1) as nat;
        assert(significand(b) == (f + 0x80_0000) * pow2(29));
        assert(scale(b) == s32 + 896);
        lemma_pow2_adds(29, s32 + 896);
        lemma_pow2_adds(s32, 925);
        lemma_mul_is_associative((f + 0x80_0000) as int, pow2(29) as int, pow2(s32 + 896) as int);
        lemma_mul_is_associative((f + 0x80_0000) as int, pow2(s32) as int, pow2(925) as int);
    }
    b
}

/// The value of a finite single, multiplied by `2^149`.
pub open spec fn signed_magnitude32(c: u32) -> int {
    if is_negative32(c) {
        -magnitude32(c)
    } else {
        magnitude32(c) as int
    }
}

/// `a < b` for singles on the extended real line; false when either is NaN.
pub open spec fn single_less(a: u32, b: u32) -> bool {
    &&& !is_nan32(a)
    &&& !is_nan32(b)
    &&& if is_infinite32(a) {
        is_negative32(a) && !(is_infinite32(b) && is_negative32(b))
    } else if is_infinite32(b) {
        !is_negative32(b)
    } else {
        signed_magnitude32(a) < signed_magnitude32(b)
    }
}

/// Widening keeps the order of singles.
pub proof fn lemma_widen_order(a: u32, wa: u64, b: u32, wb: u64)
    requires
        widens_to(a, wa),
        widens_to(b, wb),
    ensures
        num_less(wa, wb) == single_less(a, b),
{
    if !is_nan32(a) && !is_nan32(b) && !is_infinite32(a) && !is_infinite32(b) {
        let k = pow2(925);
        lemma_pow2_pos(925);
        let x = signed_magnitude32(a);
        let y = signed_magnitude32(b);
        assert(signed_magnitude(wa) == x * k) by (nonlinear_arith)
            requires
                is_negative(wa) == is_negative32(a),
                magnitude(wa) == magnitude32(a) * k,
                x == (if is_negative32(a) { -magnitude32(a) } else { magnitude32(a) as int }),
                signed_magnitude(wa) == (if is_negative(wa) { -magnitude(wa) } else { magnitude(wa) as int }),
        ;
        assert(signed_magnitude(wb) == y * k) by (nonlinear_arith)
            requires
                is_negative(wb) == is_negative32(b),
                magnitude(wb) == magnitude32(b) * k,
                y == (if is_negative32(b) { -magnitude32(b) } else { magnitude32(b) as int }),
                signed_magnitude(wb) == (if is_negative(wb) { -magnitude(wb) } else { magnitude(wb) as int }),
        ;
        assert((x * k < y * k) == (x < y)) by (nonlinear_arith)
            requires
                k > 0,
        ;
    }
}

/// `a < b` for singles.
pub fn single_lt(a: u32, b: u32) -> (r: bool)
    ensures
        r == single_less(a, b),
{
    let wa = single_to_number(a);
    let wb = single_to_number(b);
    proof {
        lemma_widen_order(a, wa, b, wb);
    }
    match number_order(wa, wb) {
        Some(NumOrder::Less) => true,
        _ => false,
    }
}

/// `x.clamp(lo, hi)` for singles whose bounds are ordered and not NaN: the
/// bound that `x` passes, else `x`.
pub fn single_clamp(x: u32, lo: u32, hi: u32) -> (r: u32)
    requires
        !is_nan32(lo),
        !is_nan32(hi),
        !single_less(hi, lo),
    ensures
        r == if single_less(x, lo) {
            lo
        } else if single_less(hi, x) {
            hi
        } else {
            x
        },
{
    if single_lt(x, lo) {
        lo
    } else if single_lt(hi, x) {
        hi
    } else {
        x
    }
}

/// `r` may be `a.max(b)`: NaN gives way to the other argument, the greater
/// value wins, and of two equal values either may come back.
pub open spec fn single_max_of(a: u32, b: u32, r: u32) -> bool {
    if is_nan32(a) {
        r == b
    } else if is_nan32(b) {
        r == a
    } else if single_less(a, b) {
        r == b
    } else if single_less(b, a) {
        r == a
    } else {
        r == a || r == b
    }
}

/// `r` may be `a.min(b)`: NaN gives way to the other argument, the lesser
/// value wins, and of two equal values either may come back.
pub open spec fn single_min_of(a: u32, b: u32, r: u32) -> bool {
    if is_nan32(a) {
        r == b
    } else if is_nan32(b) {
        r == a
    } else if single_less(a, b) {
        r == a
    } else if single_less(b, a) {
        r == b
    } else {
        r == a || r == b
    }
}

/// `a.max(b)` for singles.
pub fn single_max(a: u32, b: u32) -> (r: u32)
    ensures
        single_max_of(a, b, r),
{
    if is_nan_single(a) {
        b
    } else if is_nan_single(b) {
        a
    } else if single_lt(a, b) {
        b
    } else {
        a
    }
}

/// `a.min(b)` for singles.
pub fn single_min(a: u32, b: u32) -> (r: u32)
    ensures
        single_min_of(a, b, r),
{
    if is_nan_single(a) {
        b
    } else if is_nan_single(b) {
        a
    } else if single_lt(b, a) {
        b
    } else {
        a
    }
}

/// Whether a single is NaN.
pub fn is_nan_single(c: u32) -> (r: bool)
    ensures
        r == is_nan32(c),
{
    let a = c % 0x8000_0000;
    a / 0x80_0000 == 255 && a % 0x80_0000 != 0
}

} // verus!
