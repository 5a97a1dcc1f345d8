//! Exact fixed-point scalar arithmetic.
//!
//! Every geometric and color quantity in this crate is an `i64` holding a
//! multiple of `1 / SCALE`. Products and quotients truncate toward zero and
//! every operation saturates at the `i64` range, so each operation is a total
//! function of its arguments with an exact specification.

use vstd::prelude::*;
use vstd::arithmetic::div_mod::lemma_fundamental_div_mod_converse;

verus! {

/// Number of raw units in one: a raw value `v` stands for `v / 65536`.
pub const SCALE: i64 = 65536;

/// Saturation of a mathematical result at the `i64` range.
pub open spec fn clamp64(x: int) -> int {
    if x > i64::MAX as int {
        i64::MAX as int
    } else if x < i64::MIN as int {
        i64::MIN as int
    } else {
        x
    }
}

pub open spec fn abs_s(a: int) -> int {
    if a >= 0 {
        a
    } else {
        -a
    }
}

/// Truncating (round toward zero) division, as machine division does it.
pub open spec fn tdiv(a: int, b: int) -> int
    recommends
        b != 0,
{
    let q = abs_s(a) / abs_s(b);
    if (a < 0) == (b < 0) {
        q
    } else {
        -q
    }
}

/// Fixed-point product: `a * b / SCALE`, truncated, saturated.
pub open spec fn fx_mul_s(a: int, b: int) -> int {
    clamp64(tdiv(a * b, SCALE as int))
}

/// Fixed-point quotient: `a * SCALE / b`, truncated, saturated; zero when `b == 0`.
pub open spec fn fx_div_s(a: int, b: int) -> int {
    if b == 0 {
        0
    } else {
        clamp64(tdiv(a * (SCALE as int), b))
    }
}

pub open spec fn sat_add_s(a: int, b: int) -> int {
    clamp64(a + b)
}

pub open spec fn sat_sub_s(a: int, b: int) -> int {
    clamp64(a - b)
}

pub open spec fn sat_neg_s(a: int) -> int {
    clamp64(-a)
}

/// `r` is the integer square root, rounded down, of `n`.
pub open spec fn is_isqrt(n: int, r: int) -> bool {
    0 <= r && r * r <= n && n < (r + 1) * (r + 1)
}

/// The integer square root of `n`, rounded down (meaningful for `n >= 0`).
pub open spec fn sqrt_floor(n: int) -> int {
    choose|r: int| is_isqrt(n, r)
}

/// Fixed-point square root of a nonnegative value: `floor(sqrt(a * SCALE))`
/// in raw units; zero for a negative argument.
pub open spec fn fx_sqrt_s(a: int) -> int {
    if a < 0 {
        0
    } else {
        sqrt_floor(a * (SCALE as int))
    }
}

/// The integer square root is unique, so any witness pins `sqrt_floor` down.
pub proof fn lemma_isqrt_unique(n: int, r: int)
    requires
        is_isqrt(n, r),
    ensures
        sqrt_floor(n) == r,
{
    assert(exists|x: int| is_isqrt(n, x));
    let w = sqrt_floor(n);
    assert(is_isqrt(n, w));
    if w < r {
        assert((w + 1) * (w + 1) <= r * r) by (nonlinear_arith)
            requires
                0 <= w + 1,
                w + 1 <= r,
        ;
        assert(false);
    }
    if r < w {
        assert((r + 1) * (r + 1) <= w * w) by (nonlinear_arith)
            requires
                0 <= r + 1,
                r + 1 <= w,
        ;
        assert(false);
    }
}

/// A product of a nonnegative value with an exact multiple of a positive
/// divisor divides back out exactly.
pub proof fn lemma_mul_div_exact(a: int, b: int)
    requires
        b > 0,
    ensures
        (a * b) / b == a,
{
    lemma_fundamental_div_mod_converse(a * b, b, a, 0);
}

/// Bounding a product by bounds on its nonnegative factors.
pub proof fn lemma_mul_le(a: int, b: int, c: int, d: int)
    requires
        0 <= a <= c,
        0 <= b <= d,
    ensures
        a * b <= c * d,
{
    assert(a * b <= c * d) by (nonlinear_arith)
        requires
            0 <= a <= c,
            0 <= b <= d,
    ;
}

/// The absolute value of a product is the product of absolute values.
pub proof fn lemma_abs_mul(x: int, y: int)
    ensures
        abs_s(x * y) == abs_s(x) * abs_s(y),
        x * y < 0 <==> ((x < 0) != (y < 0)) && x != 0 && y != 0,
{
    assert(abs_s(x * y) == abs_s(x) * abs_s(y) && (x * y < 0 <==> ((x < 0) != (y < 0)) && x != 0
        && y != 0)) by (nonlinear_arith);
}

/// Multiplying by one raw unit of one is the identity.
pub proof fn lemma_fx_mul_one(a: int)
    requires
        i64::MIN as int <= a <= i64::MAX as int,
    ensures
        fx_mul_s(a, SCALE as int) == a,
{
    lemma_abs_mul(a, SCALE as int);
    lemma_mul_div_exact(abs_s(a), SCALE as int);
    assert(abs_s(a) * (SCALE as int) == abs_s(a * (SCALE as int)));
}

/// Multiplying by minus one raw unit of one negates, up to saturation.
pub proof fn lemma_fx_mul_neg_one(a: int)
    ensures
        fx_mul_s(a, -(SCALE as int)) == clamp64(-a),
{
    lemma_abs_mul(a, -(SCALE as int));
    lemma_mul_div_exact(abs_s(a), SCALE as int);
    assert(abs_s(a * -(SCALE as int)) == abs_s(a) * (SCALE as int));
}

/// Multiplying by zero gives zero.
pub proof fn lemma_fx_mul_zero(a: int)
    ensures
        fx_mul_s(a, 0) == 0,
        fx_mul_s(0, a) == 0,
{
    lemma_mul_div_exact(0, SCALE as int);
    assert(a * 0 == 0) by (nonlinear_arith);
    assert(0 * a == 0) by (nonlinear_arith);
    assert(abs_s(0) == 0 * (SCALE as int));
}

/// A square of a multiple of 256 is exact in fixed point.
pub proof fn lemma_fx_mul_sq_mult256(v: int)
    requires
        v % 256 == 0,
        -0x80000000 <= v <= 0x80000000,
    ensures
        fx_mul_s(v, v) == (v / 256) * (v / 256),
        0 <= (v / 256) * (v / 256) <= 0x400000000000,
{
    let m = v / 256;
    assert(v == 256 * m);
    assert(v * v == 65536 * (m * m)) by (nonlinear_arith)
        requires
            v == 256 * m,
    ;
    assert(0 <= m * m <= 0x400000000000) by (nonlinear_arith)
        requires
            -0x800000 <= m <= 0x800000,
    ;
    lemma_mul_div_exact(m * m, 65536);
    assert((m * m) * 65536 == v * v);
}

/// Scaling a moderate nonnegative value by four raw units is exact.
pub proof fn lemma_fx_mul_four(c: int)
    requires
        0 <= c <= 0x400000000000,
    ensures
        fx_mul_s(262144, c) == 4 * c,
{
    lemma_mul_div_exact(4 * c, 65536);
    assert(262144 * c == (4 * c) * 65536);
}

/// Magnitude of a signed value, exact even at `i64::MIN`.
fn abs64(a: i64) -> (r: u64)
    ensures
        r as int == abs_s(a as int),
{
    if a >= 0 {
        a as u64
    } else {
        let w: i128 = -(a as i128);
        w as u64
    }
}

/// Reassembles a sign and a magnitude into a saturated `i64`.
fn sign_mag_to_i64(neg: bool, q: u128) -> (r: i64)
    ensures
        r as int == clamp64(
            if neg {
                -(q as int)
            } else {
                q as int
            },
        ),
{
    if neg {
        if q >= 9223372036854775808u128 {
            i64::MIN
        } else {
            -(q as i64)
        }
    } else {
        if q > 9223372036854775807u128 {
            i64::MAX
        } else {
            q as i64
        }
    }
}

/// Fixed-point multiplication.
pub fn fx_mul(a: i64, b: i64) -> (r: i64)
    ensures
        r as int == fx_mul_s(a as int, b as int),
{
    let neg: bool = (a < 0) != (b < 0);
    let pa: u128 = abs64(a) as u128;
    let pb: u128 = abs64(b) as u128;
    proof {
        lemma_mul_le(pa as int, pb as int, 0x8000000000000000, 0x8000000000000000);
        lemma_abs_mul(a as int, b as int);
    }
    let prod: u128 = pa * pb;
    let q: u128 = prod / 65536u128;
    proof {
        assert(q as int == abs_s(a as int * b as int) / (SCALE as int));
    }
    sign_mag_to_i64(neg, q)
}

/// Fixed-point division; zero when the divisor is zero.
pub fn fx_div(a: i64, b: i64) -> (r: i64)
    ensures
        r as int == fx_div_s(a as int, b as int),
{
    if b == 0 {
        return 0;
    }
    let neg: bool = (a < 0) != (b < 0);
    let num: u128 = (abs64(a) as u128) * 65536u128;
    let den: u128 = abs64(b) as u128;
    let q: u128 = num / den;
    proof {
        lemma_abs_mul(a as int, SCALE as int);
        assert(num as int == abs_s(a as int * (SCALE as int)));
        assert(q as int == abs_s(a as int * (SCALE as int)) / abs_s(b as int));
        assert((a as int * (SCALE as int) < 0) == ((a as int) < 0 && a != 0));
    }
    sign_mag_to_i64(neg, q)
}

/// Saturating addition.
pub fn sat_add(a: i64, b: i64) -> (r: i64)
    ensures
        r as int == sat_add_s(a as int, b as int),
{
    let s: i128 = a as i128 + b as i128;
    if s > i64::MAX as i128 {
        i64::MAX
    } else if s < i64::MIN as i128 {
        i64::MIN
    } else {
        s as i64
    }
}

/// Saturating subtraction.
pub fn sat_sub(a: i64, b: i64) -> (r: i64)
    ensures
        r as int == sat_sub_s(a as int, b as int),
{
    let s: i128 = a as i128 - b as i128;
    if s > i64::MAX as i128 {
        i64::MAX
    } else if s < i64::MIN as i128 {
        i64::MIN
    } else {
        s as i64
    }
}

/// Saturating negation.
pub fn sat_neg(a: i64) -> (r: i64)
    ensures
        r as int == sat_neg_s(a as int),
{
    if a == i64::MIN {
        i64::MAX
    } else {
        -a
    }
}

/// Converts a whole number of units into a saturated raw value.
pub fn int_to_fx(x: i64) -> (r: i64)
    ensures
        r as int == clamp64(x as int * (SCALE as int)),
{
    let s: i128 = (x as i128) * 65536i128;
    if s > i64::MAX as i128 {
        i64::MAX
    } else if s < i64::MIN as i128 {
        i64::MIN
    } else {
        s as i64
    }
}

/// Integer square root, rounded down, by bisection.
fn isqrt(n: u128) -> (r: u128)
    ensures
        is_isqrt(n as int, r as int),
{
    if n == 0 {
        return 0;
    }
    let mut lo: u128 = 0;
    let mut hi: u128 = 0x10000000000000000u128;
    proof {
        assert((hi as int) * (hi as int) == 0x100000000000000000000000000000000int);
    }
    while hi - lo > 1
        invariant
            lo < hi,
            hi <= 0x10000000000000000u128,
            (lo as int) * (lo as int) <= n as int,
            (n as int) < (hi as int) * (hi as int),
        decreases hi - lo,
    {
        let mid: u128 = lo + (hi - lo) / 2;
        proof {
            lemma_mul_le(mid as int, mid as int, 0xFFFFFFFFFFFFFFFF, 0xFFFFFFFFFFFFFFFF);
        }
        let sq: u128 = mid * mid;
        if sq <= n {
            lo = mid;
        } else {
            hi = mid;
        }
    }
    lo
}

/// Fixed-point square root of a nonnegative raw value.
pub fn fx_sqrt(a: i64) -> (r: i64)
    requires
        a >= 0,
    ensures
        r as int == fx_sqrt_s(a as int),
{
    let n: u128 = (a as u128) * 65536u128;
    let rt: u128 = isqrt(n);
    proof {
        if rt as int > 0xFFFFFFFFFF {
            lemma_mul_le(0x10000000000, 0x10000000000, rt as int, rt as int);
            assert(false);
        }
        lemma_isqrt_unique(n as int, rt as int);
    }
    rt as i64
}

} // verus!
