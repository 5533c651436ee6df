//! Numbers of the language are IEEE-754 binary64 values. The library holds
//! each one as its 64-bit pattern and gives every operation that the built-in
//! functions perform on numbers (comparison, equality, truncation, the
//! integral test and the conversions to and from machine integers) a
//! definition over the exact value that the pattern encodes.
//!
//! A finite pattern with sign `s`, exponent field `E` and fraction field `F`
//! encodes `(-1)^s * significand * 2^(scale - 1074)`, where the significand is
//! `F` (for `E == 0`) or `F + 2^52`, and the scale is `max(E, 1) - 1`.
//! `magnitude` is the absolute value multiplied by `2^1074`: a natural number.

use vstd::prelude::*;
use vstd::arithmetic::power2::{
    pow2,
    lemma_pow2_pos,
    lemma_pow2_adds,
    lemma_pow2_strictly_increases,
    lemma_pow2_unfold,
    lemma2_to64,
    lemma2_to64_rest,
};
use vstd::arithmetic::div_mod::{
    lemma_mod_breakdown,
    lemma_div_by_multiple,
    lemma_mod_multiples_basic,
    lemma_div_denominator,
    lemma_mod_multiples_vanish,
    lemma_fundamental_div_mod,
    lemma_div_is_ordered,
    lemma_small_mod,
    lemma_basic_div,
    lemma_mod_decreases,
    lemma_fundamental_div_mod_converse,
};
use vstd::arithmetic::mul::{
    lemma_mul_strict_inequality,
    lemma_mul_inequality,
    lemma_mul_is_associative,
    lemma_mul_is_commutative,
};

verus! {

/// Weight of the lowest bit of the exponent field.
pub const FRAC_UNIT: u64 = 0x10_0000_0000_0000;

/// The sign bit.
pub const SIGN_BIT: u64 = 0x8000_0000_0000_0000;

/// Pattern of positive infinity (exponent field all ones, fraction zero).
pub const INFINITY_BITS: u64 = 0x7FF0_0000_0000_0000;

/// The pattern of the quiet NaN that the library produces.
pub const NAN_BITS: u64 = 0x7FF8_0000_0000_0000;

/// Result of comparing two numbers that are not NaN.
#[derive(PartialEq, Eq, Structural, Clone, Copy, Debug)]
pub enum NumOrder {
    Less,
    Equal,
    Greater,
}

pub open spec fn abs_bits(b: u64) -> nat {
    (b % 0x8000_0000_0000_0000) as nat
}

pub open spec fn is_negative(b: u64) -> bool {
    b >= 0x8000_0000_0000_0000
}

pub open spec fn exp_field(b: u64) -> nat {
    abs_bits(b) / 0x10_0000_0000_0000
}

pub open spec fn frac_field(b: u64) -> nat {
    abs_bits(b) % 0x10_0000_0000_0000
}

pub open spec fn is_nan(b: u64) -> bool {
    exp_field(b) == 2047 && frac_field(b) != 0
}

pub open spec fn is_infinite(b: u64) -> bool {
    exp_field(b) == 2047 && frac_field(b) == 0
}

pub open spec fn is_finite(b: u64) -> bool {
    exp_field(b) < 2047
}

pub open spec fn significand(b: u64) -> nat {
    if exp_field(b) == 0 {
        frac_field(b)
    } else {
        frac_field(b) + 0x10_0000_0000_0000
    }
}

pub open spec fn scale(b: u64) -> nat {
    if exp_field(b) == 0 {
        0
    } else {
        (exp_field(b) - 1) as nat
    }
}

/// The absolute value of a finite number, multiplied by `2^1074`.
pub open spec fn magnitude(b: u64) -> nat {
    significand(b) * pow2(scale(b))
}

/// The value of a finite number, multiplied by `2^1074`.
pub open spec fn signed_magnitude(b: u64) -> int {
    if is_negative(b) {
        -magnitude(b)
    } else {
        magnitude(b) as int
    }
}

/// A finite number whose value is a whole number.
pub open spec fn is_integral(b: u64) -> bool {
    is_finite(b) && magnitude(b) % pow2(1074) == 0
}

/// The absolute value of a finite number, rounded toward zero.
pub open spec fn int_part(b: u64) -> nat {
    magnitude(b) / pow2(1074)
}

/// `a < b` on the extended real line; false when either is NaN.
pub open spec fn num_less(a: u64, b: u64) -> bool {
    &&& !is_nan(a)
    &&& !is_nan(b)
    &&& if is_infinite(a) {
        is_negative(a) && !(is_infinite(b) && is_negative(b))
    } else if is_infinite(b) {
        !is_negative(b)
    } else {
        signed_magnitude(a) < signed_magnitude(b)
    }
}

/// `a == b` as numbers: NaN equals nothing, and the two zeros are equal.
pub open spec fn num_eq(a: u64, b: u64) -> bool {
    &&& !is_nan(a)
    &&& !is_nan(b)
    &&& if is_infinite(a) || is_infinite(b) {
        is_infinite(a) && is_infinite(b) && is_negative(a) == is_negative(b)
    } else {
        signed_magnitude(a) == signed_magnitude(b)
    }
}

/// The partial order of numbers: `None` when either is NaN.
pub open spec fn num_order(a: u64, b: u64) -> Option<NumOrder> {
    if is_nan(a) || is_nan(b) {
        None
    } else if num_less(a, b) {
        Some(NumOrder::Less)
    } else if num_less(b, a) {
        Some(NumOrder::Greater)
    } else {
        Some(NumOrder::Equal)
    }
}

/// Number of binary digits of `n`.
pub open spec fn bit_length(n: nat) -> nat
    decreases n,
{
    if n == 0 {
        0
    } else {
        1 + bit_length(n / 2)
    }
}

/// `n / 2^k` rounded to the nearest whole number, ties to even.
pub open spec fn round_half_even(n: nat, k: nat) -> nat {
    let q = n / pow2(k);
    let r = n % pow2(k);
    if k > 0 && (2 * r > pow2(k) || (2 * r == pow2(k) && q % 2 == 1)) {
        q + 1
    } else {
        q
    }
}

/// The whole number nearest to `n` that a binary64 value holds: `n` itself
/// when it has at most 53 binary digits, else `n` rounded to 53 digits.
pub open spec fn nearest_representable(n: nat) -> nat {
    if bit_length(n) <= 53 {
        n
    } else {
        let k = (bit_length(n) - 53) as nat;
        round_half_even(n, k) * pow2(k)
    }
}

/// The pattern `b` holds the whole number `n` with the given sign.
pub open spec fn holds_integer(b: u64, n: nat, negative: bool) -> bool {
    &&& is_integral(b)
    &&& int_part(b) == n
    &&& is_negative(b) == negative
}

/// Decomposition of a pattern into its fields.
pub proof fn lemma_fields(b: u64)
    ensures
        abs_bits(b) == exp_field(b) * 0x10_0000_0000_0000 + frac_field(b),
        exp_field(b) <= 2047,
        frac_field(b) < 0x10_0000_0000_0000,
        b as int == (if is_negative(b) { 0x8000_0000_0000_0000int } else { 0 }) + abs_bits(b),
        significand(b) < 0x20_0000_0000_0000,
        exp_field(b) > 0 ==> significand(b) >= 0x10_0000_0000_0000,
{
}

/// `(m * 2^s) / 2^(s + k) == m / 2^k` and
/// `(m * 2^s) % 2^(s + k) == 2^s * (m % 2^k)`.
pub proof fn lemma_shifted_div_mod(m: nat, s: nat, k: nat)
    ensures
        (m * pow2(s)) / pow2(s + k) == m / pow2(k),
        (m * pow2(s)) % pow2(s + k) == pow2(s) * (m % pow2(k)),
{
    lemma_pow2_pos(s);
    lemma_pow2_pos(k);
    lemma_pow2_adds(s, k);
    let x = (m * pow2(s)) as int;
    let y = pow2(s) as int;
    let z = pow2(k) as int;
    lemma_div_by_multiple(m as int, y);
    lemma_mod_multiples_basic(m as int, y);
    lemma_mod_breakdown(x, y, z);
    lemma_div_denominator(x, y, z);
}

/// A magnitude whose scale is at least 1074 is a whole number.
pub proof fn lemma_large_scale(m: nat, s: nat)
    requires
        s >= 1074,
    ensures
        (m * pow2(s)) % pow2(1074) == 0,
        (m * pow2(s)) / pow2(1074) == m * pow2((s - 1074) as nat),
{
    let d = (s - 1074) as nat;
    lemma_pow2_pos(1074);
    lemma_pow2_adds(d, 1074);
    lemma_mul_is_associative(m as int, pow2(d) as int, pow2(1074) as int);
    lemma_mod_multiples_basic((m * pow2(d)) as int, pow2(1074) as int);
    lemma_div_by_multiple((m * pow2(d)) as int, pow2(1074) as int);
}

/// Patterns that are not NaN are ordered by magnitude as their low 63 bits are.
pub proof fn lemma_abs_order(a: u64, b: u64)
    requires
        !is_nan(a),
        !is_nan(b),
        abs_bits(a) < abs_bits(b),
    ensures
        !is_infinite(a),
        is_infinite(b) || magnitude(a) < magnitude(b),
{
    lemma_fields(a);
    lemma_fields(b);
    if !is_infinite(b) {
        let ea = exp_field(a);
        let eb = exp_field(b);
        let ma = significand(a);
        let mb = significand(b);
        let sa = scale(a);
        let sb = scale(b);
        let pa = pow2(sa);
        let pb = pow2(sb);
        lemma_pow2_pos(sa);
        lemma_pow2_pos(sb);
        assert(magnitude(a) == ma * pa);
        assert(magnitude(b) == mb * pb);
        assert(ea < eb || (ea == eb && frac_field(a) < frac_field(b)));
        if ea == eb {
            assert(ma < mb);
            lemma_mul_strict_inequality(ma as int, mb as int, pa as int);
        } else if ea == 0 {
            assert(sa == 0);
            lemma2_to64();
            lemma2_to64_rest();
            assert(pa == 1);
            assert(ma * pa == ma) by (nonlinear_arith)
                requires
                    pa == 1,
            ;
            assert(mb >= 0x10_0000_0000_0000);
            lemma_mul_inequality(1, pb as int, mb as int);
            assert(mb * pb >= mb) by (nonlinear_arith)
                requires
                    pb >= 1,
            ;
        } else {
            // ma * 2^sa < 2^53 * 2^sa == 2^52 * 2^(sa+1) <= 2^52 * 2^sb <= mb * 2^sb
            lemma2_to64();
            lemma2_to64_rest();
            assert(sa + 1 <= sb);
            lemma_mul_strict_inequality(ma as int, 0x20_0000_0000_0000, pa as int);
            lemma_pow2_unfold(sa + 1);
            let pa1 = pow2(sa + 1);
            assert(pa1 == 2 * pa);
            if sa + 1 < sb {
                lemma_pow2_strictly_increases(sa + 1, sb);
            }
            assert(pa1 <= pb);
            assert(0x20_0000_0000_0000 * pa <= 0x10_0000_0000_0000 * pb) by (nonlinear_arith)
                requires
                    pa1 == 2 * pa,
                    pa1 <= pb,
            ;
            assert(0x10_0000_0000_0000 * pb <= mb * pb) by (nonlinear_arith)
                requires
                    0x10_0000_0000_0000 <= mb,
                    pb >= 1,
            ;
        }
    }
}

/// A finite pattern has magnitude zero exactly when its low 63 bits are zero.
pub proof fn lemma_zero_magnitude(b: u64)
    requires
        is_finite(b),
    ensures
        (magnitude(b) == 0) == (abs_bits(b) == 0),
{
    lemma_fields(b);
    let m = significand(b);
    let p = pow2(scale(b));
    lemma_pow2_pos(scale(b));
    assert(magnitude(b) == m * p);
    if abs_bits(b) != 0 {
        assert(m > 0);
        assert(m * p >= m) by (nonlinear_arith)
            requires
                p >= 1,
                m > 0,
        ;
    } else {
        assert(m == 0);
        assert(m * p == 0) by (nonlinear_arith)
            requires
                m == 0,
        ;
    }
}

/// `2^k` for `k < 64`.
pub fn pow2_u64(k: u64) -> (r: u64)
    requires
        k < 64,
    ensures
        r as nat == pow2(k as nat),
{
    let mut r: u64 = 1;
    let mut i: u64 = 0;
    proof {
        lemma2_to64();
        lemma2_to64_rest();
    }
    while i < k
        invariant
            i <= k < 64,
            r as nat == pow2(i as nat),
        decreases k - i,
    {
        proof {
            lemma_pow2_unfold((i + 1) as nat);
            lemma_pow2_strictly_increases((i + 1) as nat, 64);
            lemma2_to64();
            lemma2_to64_rest();
        }
        r = r * 2;
        i = i + 1;
    }
    r
}

/// The exponent and fraction fields of a pattern.
pub(crate) fn fields(b: u64) -> (r: (u64, u64))
    ensures
        r.0 as nat == exp_field(b),
        r.1 as nat == frac_field(b),
{
    let a = b % SIGN_BIT;
    (a / FRAC_UNIT, a % FRAC_UNIT)
}

/// Whether the pattern is a NaN.
pub fn number_is_nan(b: u64) -> (r: bool)
    ensures
        r == is_nan(b),
{
    let (e, f) = fields(b);
    e == 2047 && f != 0
}

/// `a == b` for numbers (the `==` of binary64).
pub fn number_eq(a: u64, b: u64) -> (r: bool)
    ensures
        r == num_eq(a, b),
{
    if number_is_nan(a) || number_is_nan(b) {
        return false;
    }
    let aa = a % SIGN_BIT;
    let ab = b % SIGN_BIT;
    proof {
        lemma_fields(a);
        lemma_fields(b);
        if is_finite(a) {
            lemma_zero_magnitude(a);
        }
        if is_finite(b) {
            lemma_zero_magnitude(b);
        }
        if aa < ab {
            lemma_abs_order(a, b);
        } else if ab < aa {
            lemma_abs_order(b, a);
        }
    }
    if aa == 0 && ab == 0 {
        return true;
    }
    a == b
}

/// The partial order of numbers (`partial_cmp` of binary64).
pub fn number_order(a: u64, b: u64) -> (r: Option<NumOrder>)
    ensures
        r == num_order(a, b),
{
    if number_is_nan(a) || number_is_nan(b) {
        return None;
    }
    let aa = a % SIGN_BIT;
    let ab = b % SIGN_BIT;
    let na = a >= SIGN_BIT;
    let nb = b >= SIGN_BIT;
    proof {
        lemma_fields(a);
        lemma_fields(b);
        if is_finite(a) {
            lemma_zero_magnitude(a);
        }
        if is_finite(b) {
            lemma_zero_magnitude(b);
        }
        if aa < ab {
            lemma_abs_order(a, b);
        } else if ab < aa {
            lemma_abs_order(b, a);
        }
    }
    if aa == 0 && ab == 0 {
        return Some(NumOrder::Equal);
    }
    if na && !nb {
        Some(NumOrder::Less)
    } else if !na && nb {
        Some(NumOrder::Greater)
    } else if aa == ab {
        Some(NumOrder::Equal)
    } else if (aa < ab) != na {
        Some(NumOrder::Less)
    } else {
        Some(NumOrder::Greater)
    }
}

/// Whether the number is a whole number (`x.fract() == 0.0`).
pub fn number_is_integral(b: u64) -> (r: bool)
    ensures
        r == is_integral(b),
{
    let (e, f) = fields(b);
    proof {
        lemma_fields(b);
        lemma2_to64();
        lemma2_to64_rest();
        lemma_pow2_pos(scale(b));
    }
    if e == 2047 {
        return false;
    }
    if e >= 1075 {
        proof {
            lemma_large_scale(significand(b), scale(b));
        }
        return true;
    }
    if e == 0 {
        proof {
            lemma_pow2_strictly_increases(52, 1074);
            assert(scale(b) == 0);
            assert(significand(b) == f);
            assert(pow2(0) == 1);
            assert(magnitude(b) == f as nat * 1);
            lemma2_to64();
            lemma2_to64_rest();
            assert(pow2(52) == 0x10_0000_0000_0000);
            assert(f < pow2(1074));
            lemma_small_mod(f as nat, pow2(1074));
        }
        return f == 0;
    }
    let k = 1075 - e;
    let ghost m = significand(b);
    let ghost s = scale(b);
    proof {
        assert(s + k == 1074);
        lemma_shifted_div_mod(m, s, k as nat);
        assert(magnitude(b) % pow2(1074) == pow2(s) * (m % pow2(k as nat)));
    }
    if k > 52 {
        proof {
            if k > 53 {
                lemma_pow2_strictly_increases(53, k as nat);
            }
            lemma2_to64();
            lemma2_to64_rest();
            assert(pow2(53) == 0x20_0000_0000_0000);
            assert(m < pow2(k as nat));
            lemma_small_mod(m, pow2(k as nat));
            assert(m % pow2(k as nat) == m);
            assert(m > 0);
            assert(pow2(s) * m > 0) by (nonlinear_arith)
                requires
                    pow2(s) > 0,
                    m > 0,
            ;
        }
        return false;
    }
    let p = pow2_u64(k);
    proof {
        lemma_pow2_adds(k as nat, (52 - k) as nat);
        lemma2_to64();
        lemma2_to64_rest();
        assert(pow2(52) == 0x10_0000_0000_0000);
        assert(pow2(52) == p * pow2((52 - k) as nat));
        lemma_pow2_pos((52 - k) as nat);
        lemma_mod_multiples_vanish(pow2((52 - k) as nat) as int, f as int, p as int);
        assert(m == p * pow2((52 - k) as nat) + f);
        assert(m % pow2(k as nat) == f % p);
        if f % p != 0 {
            assert(pow2(s) * (f % p) > 0) by (nonlinear_arith)
                requires
                    pow2(s) > 0,
                    f % p > 0,
            ;
        } else {
            assert(pow2(s) * (f % p) == 0) by (nonlinear_arith)
                requires
                    f % p == 0,
            ;
        }
    }
    f % p == 0
}

/// The fields of a pattern assembled from a sign part, an exponent and a fraction.
pub proof fn lemma_compose(r: u64, sp: u64, e: nat, f: nat)
    requires
        sp == 0 || sp == 0x8000_0000_0000_0000,
        e < 2048,
        f < 0x10_0000_0000_0000,
        r as int == sp + e * 0x10_0000_0000_0000 + f,
    ensures
        is_negative(r) == (sp != 0),
        exp_field(r) == e,
        frac_field(r) == f,
{
    let x = e * 0x10_0000_0000_0000 + f;
    assert(x < 0x8000_0000_0000_0000);
    lemma_fundamental_div_mod_converse(r as int, 0x8000_0000_0000_0000, (sp / 0x8000_0000_0000_0000) as int, x as int);
    lemma_fundamental_div_mod_converse(x as int, 0x10_0000_0000_0000, e as int, f as int);
}

/// A number whose magnitude is `n * 2^1074` holds the whole number `n`.
pub proof fn lemma_whole(n: nat)
    ensures
        (n * pow2(1074)) % pow2(1074) == 0,
        (n * pow2(1074)) / pow2(1074) == n,
{
    lemma_pow2_pos(1074);
    lemma_mod_multiples_basic(n as int, pow2(1074) as int);
    lemma_div_by_multiple(n as int, pow2(1074) as int);
}

/// `x.trunc()`: the whole number between zero and `x` nearest to `x`.
#[verifier::spinoff_prover]
pub fn number_trunc(b: u64) -> (r: u64)
    ensures
        is_nan(b) ==> is_nan(r),
        is_infinite(b) ==> r == b,
        is_finite(b) ==> holds_integer(r, int_part(b), is_negative(b)),
{
    let (e, f) = fields(b);
    proof {
        lemma_fields(b);
        lemma_pow2_pos(scale(b));
    }
    if e == 2047 {
        return b;
    }
    if e >= 1075 {
        proof {
            lemma_large_scale(significand(b), scale(b));
        }
        return b;
    }
    let sp = b - b % SIGN_BIT;
    let ghost m = significand(b);
    let ghost s = scale(b);
    if e <= 1022 {
        proof {
            lemma_compose(sp, sp, 0, 0);
            lemma2_to64();
            lemma2_to64_rest();
            assert(significand(sp) == 0);
            assert(magnitude(sp) == 0) by {
                assert(0 * pow2(scale(sp)) == 0) by (nonlinear_arith);
            }
            lemma_whole(0);
            assert(0 * pow2(1074) == 0) by (nonlinear_arith);
            if e == 0 {
                assert(pow2(0) == 1);
                assert(magnitude(b) == m * 1);
                lemma_pow2_strictly_increases(52, 1074);
                lemma_basic_div(m as int, pow2(1074) as int);
            } else {
                let k = (1074 - s) as nat;
                lemma_shifted_div_mod(m, s, k);
                if k > 53 {
                    lemma_pow2_strictly_increases(53, k);
                }
                assert(m < pow2(k));
                lemma_basic_div(m as int, pow2(k) as int);
                assert(magnitude(b) / pow2(1074) == 0);
            }
            assert(int_part(b) == 0);
            assert(is_integral(sp));
            assert(int_part(sp) == 0);
            assert(is_negative(sp) == is_negative(b));
        }
        return sp;
    }
    let k = 1075 - e;
    let p = pow2_u64(k);
    proof {
        lemma_pow2_pos(k as nat);
        lemma_mod_decreases(f as nat, p as nat);
    }
    let g = f - f % p;
    let r = sp + e * FRAC_UNIT + g;
    proof {
        lemma_compose(r, sp, e as nat, g as nat);
        let pn = p as nat;
        lemma2_to64();
        lemma2_to64_rest();
        lemma_pow2_adds(k as nat, (52 - k) as nat);
        assert(pow2(52) == 0x10_0000_0000_0000);
        lemma_pow2_pos((52 - k) as nat);
        lemma_mod_multiples_vanish(pow2((52 - k) as nat) as int, f as int, pn as int);
        assert(m % pn == f as nat % pn);
        let mr = significand(r);
        assert(mr == m - m % pn);
        assert(scale(r) == s);
        assert(s + k == 1074);
        lemma_shifted_div_mod(m, s, k as nat);
        lemma_shifted_div_mod(mr, s, k as nat);
        lemma_fundamental_div_mod(m as int, pn as int);
        assert(mr == pn * (m / pn));
        lemma_mod_multiples_basic((m / pn) as int, pn as int);
        lemma_div_by_multiple((m / pn) as int, pn as int);
        assert(pn * (m / pn) == (m / pn) * pn) by (nonlinear_arith);
        assert(mr % pn == 0);
        assert(mr / pn == m / pn);
        assert(pow2(s) * (mr % pn) == 0) by (nonlinear_arith)
            requires
                mr % pn == 0,
        ;
    }
    r
}

/// `x as u64`: NaN and negative numbers give 0, numbers beyond the range give
/// `u64::MAX`, the others their whole part.
pub open spec fn saturating_u64(b: u64) -> nat {
    if is_nan(b) || is_negative(b) {
        0
    } else if is_infinite(b) || int_part(b) > u64::MAX {
        u64::MAX as nat
    } else {
        int_part(b)
    }
}

/// `x as u64` (saturating conversion toward zero).
pub fn number_to_u64(b: u64) -> (r: u64)
    ensures
        r as nat == saturating_u64(b),
{
    let (e, f) = fields(b);
    proof {
        lemma_fields(b);
        lemma_pow2_pos(scale(b));
        lemma2_to64();
        lemma2_to64_rest();
    }
    if e == 2047 && f != 0 {
        return 0;
    }
    if b >= SIGN_BIT {
        return 0;
    }
    if e == 2047 {
        return u64::MAX;
    }
    let ghost m = significand(b);
    let ghost s = scale(b);
    let whole: u64;
    if e >= 1087 {
        proof {
            lemma_large_scale(m, s);
            let d = (s - 1074) as nat;
            if d > 12 {
                lemma_pow2_strictly_increases(12, d);
            }
            assert(m * pow2(d) >= 0x10_0000_0000_0000 * pow2(12)) by (nonlinear_arith)
                requires
                    m >= 0x10_0000_0000_0000,
                    pow2(d) >= pow2(12),
            ;
        }
        return u64::MAX;
    } else if e >= 1075 {
        let d = e - 1075;
        let pd = pow2_u64(d);
        let mm = f + FRAC_UNIT;
        proof {
            lemma_large_scale(m, s);
            if d < 11 {
                lemma_pow2_strictly_increases(d as nat, 11);
            }
            assert(mm * pd <= 0x1F_FFFF_FFFF_FFFF * 0x800) by (nonlinear_arith)
                requires
                    mm <= 0x1F_FFFF_FFFF_FFFF,
                    pd <= 0x800,
            ;
        }
        whole = mm * pd;
    } else if e == 0 {
        proof {
            assert(pow2(0) == 1);
            assert(magnitude(b) == m * 1);
            lemma_pow2_strictly_increases(52, 1074);
            lemma_basic_div(m as int, pow2(1074) as int);
        }
        whole = 0;
    } else {
        let k = 1075 - e;
        let mm = f + FRAC_UNIT;
        proof {
            lemma_shifted_div_mod(m, s, k as nat);
        }
        if k >= 64 {
            proof {
                lemma_pow2_strictly_increases(53, k as nat);
                lemma_basic_div(m as int, pow2(k as nat) as int);
            }
            whole = 0;
        } else {
            let p = pow2_u64(k);
            whole = mm / p;
        }
    }
    whole
}

/// `x as usize`: NaN and negative numbers give 0, numbers beyond the range give
/// `usize::MAX`, the others their whole part.
pub open spec fn saturating_usize(b: u64) -> nat {
    if is_nan(b) || is_negative(b) {
        0
    } else if is_infinite(b) || int_part(b) > usize::MAX {
        usize::MAX as nat
    } else {
        int_part(b)
    }
}

/// `x as usize` (saturating conversion toward zero).
pub fn number_to_usize(b: u64) -> (r: usize)
    ensures
        r as nat == saturating_usize(b),
{
    let w = number_to_u64(b);
    if w as u128 > usize::MAX as u128 {
        usize::MAX
    } else {
        w as usize
    }
}

/// `x as i64`: NaN gives 0, numbers beyond the range give the nearest bound,
/// the others their whole part, rounded toward zero.
pub open spec fn saturating_i64(b: u64) -> int {
    if is_nan(b) {
        0
    } else if is_negative(b) {
        if is_infinite(b) || int_part(b) > 0x8000_0000_0000_0000 {
            i64::MIN as int
        } else {
            -(int_part(b) as int)
        }
    } else if is_infinite(b) || int_part(b) > i64::MAX {
        i64::MAX as int
    } else {
        int_part(b) as int
    }
}

/// `x as i64` (saturating conversion toward zero).
pub fn number_to_i64(b: u64) -> (r: i64)
    ensures
        r as int == saturating_i64(b),
{
    if number_is_nan(b) {
        return 0;
    }
    if b < SIGN_BIT {
        let w = number_to_u64(b);
        if w > i64::MAX as u64 {
            i64::MAX
        } else {
            w as i64
        }
    } else {
        let a = b - SIGN_BIT;
        proof {
            assert(abs_bits(a) == abs_bits(b));
        }
        let w = number_to_u64(a);
        if w >= SIGN_BIT {
            i64::MIN
        } else {
            -(w as i64)
        }
    }
}

pub proof fn lemma_bit_length_bounds(n: nat)
    ensures
        n < pow2(bit_length(n)),
        n > 0 ==> pow2((bit_length(n) - 1) as nat) <= n,
    decreases n,
{
    lemma2_to64();
    if n > 0 {
        lemma_bit_length_bounds(n / 2);
        lemma_pow2_unfold(bit_length(n));
        if n / 2 > 0 {
            lemma_pow2_unfold(bit_length(n / 2));
        }
    }
}

pub proof fn lemma_bit_length_le(n: nat, j: nat)
    requires
        n < pow2(j),
    ensures
        bit_length(n) <= j,
{
    lemma_bit_length_bounds(n);
    if bit_length(n) > j {
        if (bit_length(n) - 1) as nat > j {
            lemma_pow2_strictly_increases(j, (bit_length(n) - 1) as nat);
        }
    }
}

/// Number of binary digits of `n`.
pub(crate) fn bit_len(n: u64) -> (p: u64)
    ensures
        p as nat == bit_length(n as nat),
        p <= 64,
{
    let mut m = n;
    let mut p: u64 = 0;
    proof {
        lemma2_to64();
        lemma_bit_length_le(n as nat, 64);
    }
    while m > 0
        invariant
            bit_length(n as nat) == p + bit_length(m as nat),
            bit_length(n as nat) <= 64,
        decreases m,
    {
        m = m / 2;
        p = p + 1;
    }
    p
}

/// `n as f64` for a whole number `n` with the given sign.
pub fn number_from_u64(n: u64, negative: bool) -> (r: u64)
    ensures
        holds_integer(r, nearest_representable(n as nat), negative),
{
    let sp: u64 = if negative { SIGN_BIT } else { 0 };
    proof {
        lemma2_to64();
        lemma2_to64_rest();
    }
    if n == 0 {
        proof {
            lemma_compose(sp, sp, 0, 0);
            assert(magnitude(sp) == 0) by {
                assert(0 * pow2(scale(sp)) == 0) by (nonlinear_arith);
            }
            lemma_whole(0);
            assert(0 * pow2(1074) == 0) by (nonlinear_arith);
        }
        return sp;
    }
    let p = bit_len(n);
    proof {
        lemma_bit_length_bounds(n as nat);
    }
    if p <= 53 {
        let sh = pow2_u64(53 - p);
        proof {
            lemma_pow2_adds((p - 1) as nat, (53 - p) as nat);
            lemma_pow2_adds(p as nat, (53 - p) as nat);
            lemma_mul_inequality(pow2((p - 1) as nat) as int, n as int, sh as int);
            lemma_mul_strict_inequality(n as int, pow2(p as nat) as int, sh as int);
        }
        let sig = n * sh;
        let e = p + 1022;
        let r = sp + e * FRAC_UNIT + (sig - FRAC_UNIT);
        proof {
            lemma_compose(r, sp, e as nat, (sig - FRAC_UNIT) as nat);
            assert(significand(r) == sig);
            assert(scale(r) == p + 1021);
            lemma_pow2_adds((53 - p) as nat, (p + 1021) as nat);
            lemma_mul_is_associative(n as int, sh as int, pow2((p + 1021) as nat) as int);
            assert(magnitude(r) == n * pow2(1074));
            lemma_whole(n as nat);
        }
        return r;
    }
    let k = p - 53;
    let pk = pow2_u64(k);
    let q = n / pk;
    let rem = n % pk;
    proof {
        lemma_pow2_adds(52, k as nat);
        lemma_pow2_adds(53, k as nat);
        lemma_pow2_pos(k as nat);
        lemma_fundamental_div_mod(n as int, pk as int);
        lemma_div_is_ordered(pow2((p - 1) as nat) as int, n as int, pk as int);
        lemma_div_by_multiple(pow2(52) as int, pk as int);
        if q >= 0x20_0000_0000_0000 {
            assert(pk * q >= pk * 0x20_0000_0000_0000) by (nonlinear_arith)
                requires
                    q >= 0x20_0000_0000_0000,
                    pk > 0,
            ;
        }
    }
    let up = 2 * rem > pk || (2 * rem == pk && q % 2 == 1);
    let q2 = if up { q + 1 } else { q };
    proof {
        assert(q2 == round_half_even(n as nat, k as nat));
        assert(nearest_representable(n as nat) == q2 * pow2(k as nat));
    }
    if q2 == 0x20_0000_0000_0000 {
        let e = p + 1023;
        let r = sp + e * FRAC_UNIT;
        proof {
            lemma_compose(r, sp, e as nat, 0);
            assert(significand(r) == pow2(52));
            assert(scale(r) == p + 1022);
            lemma_pow2_adds(52, (p + 1022) as nat);
            lemma_pow2_adds((53 + k) as nat, 1074);
            lemma_mul_is_associative(pow2(53) as int, pow2(k as nat) as int, pow2(1074) as int);
            assert(magnitude(r) == (q2 * pow2(k as nat)) * pow2(1074));
            lemma_whole((q2 as nat) * pow2(k as nat));
        }
        r
    } else {
        let e = p + 1022;
        let r = sp + e * FRAC_UNIT + (q2 - FRAC_UNIT);
        proof {
            lemma_compose(r, sp, e as nat, (q2 - FRAC_UNIT) as nat);
            assert(significand(r) == q2);
            assert(scale(r) == p + 1021);
            lemma_pow2_adds(k as nat, 1074);
            lemma_mul_is_associative(q2 as int, pow2(k as nat) as int, pow2(1074) as int);
            assert(magnitude(r) == (q2 * pow2(k as nat)) * pow2(1074));
            lemma_whole((q2 as nat) * pow2(k as nat));
        }
        r
    }
}

/// `n as f64` for a machine-sized length or index.
pub fn number_from_usize(n: usize) -> (r: u64)
    ensures
        holds_integer(r, nearest_representable(n as nat), false),
{
    number_from_u64(n as u64, false)
}

/// `i as f64` for a signed whole number.
pub fn number_from_i64(i: i64) -> (r: u64)
    ensures
        holds_integer(r, nearest_representable(abs_int(i as int)), i < 0),
{
    let n: u64 = if i >= 0 {
        i as u64
    } else if i == i64::MIN {
        0x8000_0000_0000_0000
    } else {
        (-i) as u64
    };
    number_from_u64(n, i < 0)
}

pub open spec fn abs_int(i: int) -> nat {
    if i < 0 {
        (-i) as nat
    } else {
        i as nat
    }
}

} // verus!
