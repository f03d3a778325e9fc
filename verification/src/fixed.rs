//! Saturating fixed-point scalar arithmetic.
//!
//! A raw `i64` value `a` stands for the real number `a / SCALE`.  Every
//! operation clamps its result into `[-SAT_MAX, SAT_MAX]`, so all of them
//! are total, and each executable function returns exactly the value of
//! its spec-level mirror (`spec_fadd`, `spec_fmul`, ...), which makes the
//! whole simulation a deterministic function of its inputs.

use vstd::prelude::*;

verus! {

/// Number of raw units in one real unit: a raw value `a` means `a / SCALE`.
pub const SCALE: i64 = 1_000_000_000;

/// Largest raw value a scalar may take; arithmetic saturates here (and at
/// `-SAT_MAX`) instead of overflowing.  Chosen below `i64::MAX / 2` so the
/// exact sum of two in-range values always fits an `i64`, and so the sum of
/// three squared in-range values always fits a `u128`.
pub const SAT_MAX: i64 = 0x3fff_ffff_ffff_ffff;

/// Absolute value over mathematical integers.
pub open spec fn abs_i(a: int) -> int {
    if a < 0 {
        -a
    } else {
        a
    }
}

/// Clamp a mathematical integer into the representable range.
pub open spec fn sat_i(a: int) -> int {
    if a > SAT_MAX {
        SAT_MAX as int
    } else if a < -(SAT_MAX as int) {
        -(SAT_MAX as int)
    } else {
        a
    }
}

/// Whether a mathematical integer lies in the representable range.
pub open spec fn in_range(a: int) -> bool {
    -(SAT_MAX as int) <= a <= SAT_MAX as int
}

/// Saturating addition.
pub open spec fn spec_fadd(a: int, b: int) -> int {
    sat_i(a + b)
}

/// Saturating subtraction.
pub open spec fn spec_fsub(a: int, b: int) -> int {
    sat_i(a - b)
}

/// Saturating negation.
pub open spec fn spec_fneg(a: int) -> int {
    sat_i(-a)
}

/// Saturating fixed-point multiplication: the product of the magnitudes is
/// rescaled by `SCALE` (rounding toward zero), clamped, and given the sign
/// of the exact product.
pub open spec fn spec_fmul(a: int, b: int) -> int {
    let m = abs_i(a) * abs_i(b) / (SCALE as int);
    let ms = if m > SAT_MAX { SAT_MAX as int } else { m };
    if (a < 0) != (b < 0) {
        -ms
    } else {
        ms
    }
}

/// Saturating fixed-point division (rounding toward zero); unspecified for
/// `b == 0`, which every caller rules out.
pub open spec fn spec_fdiv(a: int, b: int) -> int
    recommends
        b != 0,
{
    let m = abs_i(a) * (SCALE as int) / abs_i(b);
    let ms = if m > SAT_MAX { SAT_MAX as int } else { m };
    if (a < 0) != (b < 0) {
        -ms
    } else {
        ms
    }
}

/// Saturating product of a non-negative step count with a raw scalar; used
/// for the elapsed time `k * dt` of the `k`-th trajectory point.
pub open spec fn spec_fmul_int(k: int, a: int) -> int
    recommends
        k >= 0,
{
    let m = k * abs_i(a);
    let ms = if m > SAT_MAX { SAT_MAX as int } else { m };
    if a < 0 {
        -ms
    } else {
        ms
    }
}

/// Multiplying by zero gives zero.
pub proof fn lemma_fmul_zero(a: int, b: int)
    requires
        a == 0 || b == 0,
    ensures
        spec_fmul(a, b) == 0,
{
    assert(abs_i(a) * abs_i(b) == 0) by (nonlinear_arith)
        requires
            abs_i(a) == 0 || abs_i(b) == 0,
    ;
    vstd::arithmetic::div_mod::lemma_div_of0(SCALE as int);
}

/// A fixed-point product always lies in the representable range.
pub proof fn lemma_fmul_in_range(a: int, b: int)
    ensures
        in_range(spec_fmul(a, b)),
{
    assert(abs_i(a) * abs_i(b) >= 0) by (nonlinear_arith)
        requires
            abs_i(a) >= 0,
            abs_i(b) >= 0,
    ;
    vstd::arithmetic::div_mod::lemma_div_pos_is_pos(abs_i(a) * abs_i(b), SCALE as int);
}

/// Magnitude of a raw scalar as a `u64`.
fn abs_u(a: i64) -> (r: u64)
    ensures
        r as int == abs_i(a as int),
{
    if a < 0 {
        (-(a as i128)) as u64
    } else {
        a as u64
    }
}

/// Clamp a non-negative magnitude and reattach the sign.
fn sign_clamp(m: u128, neg: bool) -> (r: i64)
    ensures
        neg ==> r as int == -(if m > SAT_MAX { SAT_MAX as int } else { m as int }),
        !neg ==> r as int == (if m > SAT_MAX { SAT_MAX as int } else { m as int }),
{
    let c: i64 = if m > SAT_MAX as u128 {
        SAT_MAX
    } else {
        m as i64
    };
    if neg {
        -c
    } else {
        c
    }
}

/// Saturating addition on raw scalars.
pub fn fadd(a: i64, b: i64) -> (r: i64)
    ensures
        r as int == spec_fadd(a as int, b as int),
{
    let s: i128 = a as i128 + b as i128;
    if s > SAT_MAX as i128 {
        SAT_MAX
    } else if s < -(SAT_MAX as i128) {
        -SAT_MAX
    } else {
        s as i64
    }
}

/// Saturating subtraction on raw scalars.
pub fn fsub(a: i64, b: i64) -> (r: i64)
    ensures
        r as int == spec_fsub(a as int, b as int),
{
    let s: i128 = a as i128 - b as i128;
    if s > SAT_MAX as i128 {
        SAT_MAX
    } else if s < -(SAT_MAX as i128) {
        -SAT_MAX
    } else {
        s as i64
    }
}

/// Saturating negation on raw scalars.
pub fn fneg(a: i64) -> (r: i64)
    ensures
        r as int == spec_fneg(a as int),
{
    let s: i128 = -(a as i128);
    if s > SAT_MAX as i128 {
        SAT_MAX
    } else if s < -(SAT_MAX as i128) {
        -SAT_MAX
    } else {
        s as i64
    }
}

/// Saturating fixed-point multiplication on raw scalars.
pub fn fmul(a: i64, b: i64) -> (r: i64)
    ensures
        r as int == spec_fmul(a as int, b as int),
{
    let neg = (a < 0) != (b < 0);
    let ua = abs_u(a);
    let ub = abs_u(b);
    proof {
        assert((ua as int) * (ub as int) <= 0x8000_0000_0000_0000int * 0x8000_0000_0000_0000int)
            by (nonlinear_arith)
            requires
                0 <= ua as int <= 0x8000_0000_0000_0000int,
                0 <= ub as int <= 0x8000_0000_0000_0000int,
        ;
    }
    let p: u128 = (ua as u128) * (ub as u128);
    let q: u128 = p / (SCALE as u128);
    sign_clamp(q, neg)
}

/// Saturating fixed-point division on raw scalars.
pub fn fdiv(a: i64, b: i64) -> (r: i64)
    requires
        b != 0,
    ensures
        r as int == spec_fdiv(a as int, b as int),
{
    let neg = (a < 0) != (b < 0);
    let ua = abs_u(a);
    let ub = abs_u(b);
    let p: u128 = (ua as u128) * (SCALE as u128);
    let q: u128 = p / (ub as u128);
    sign_clamp(q, neg)
}

/// Floor of the square root of a non-negative mathematical integer.
pub open spec fn sqrt_floor(n: int) -> int
    decreases n,
{
    if n <= 0 {
        0
    } else {
        let p = sqrt_floor(n - 1);
        if (p + 1) * (p + 1) <= n {
            p + 1
        } else {
            p
        }
    }
}

/// `sqrt_floor(n)` is the unique non-negative root `r` with
/// `r * r <= n < (r + 1) * (r + 1)`.
pub proof fn lemma_sqrt_floor_bounds(n: int)
    requires
        n >= 0,
    ensures
        0 <= sqrt_floor(n),
        sqrt_floor(n) * sqrt_floor(n) <= n,
        n < (sqrt_floor(n) + 1) * (sqrt_floor(n) + 1),
    decreases n,
{
    if n == 0 {
    } else {
        lemma_sqrt_floor_bounds(n - 1);
        let p = sqrt_floor(n - 1);
        if (p + 1) * (p + 1) <= n {
            assert(n - 1 < (p + 1) * (p + 1));
            assert(n == (p + 1) * (p + 1));
            assert((p + 2) * (p + 2) > (p + 1) * (p + 1)) by (nonlinear_arith)
                requires
                    p >= 0,
            ;
        }
    }
}

/// Any root meeting the floor-sqrt characterization equals `sqrt_floor(n)`.
pub proof fn lemma_sqrt_floor_unique(n: int, r: int)
    requires
        0 <= r,
        r * r <= n,
        n < (r + 1) * (r + 1),
    ensures
        r == sqrt_floor(n),
{
    lemma_sqrt_floor_bounds(n);
    let s = sqrt_floor(n);
    if r < s {
        assert((r + 1) * (r + 1) <= s * s) by (nonlinear_arith)
            requires
                0 <= r,
                r + 1 <= s,
        ;
    } else if s < r {
        assert((s + 1) * (s + 1) <= r * r) by (nonlinear_arith)
            requires
                0 <= s,
                s + 1 <= r,
        ;
    }
}

/// Floor of the square root of a `u128`, by binary search on the result.
pub fn isqrt(n: u128) -> (r: u64)
    ensures
        r as int == sqrt_floor(n as int),
{
    let mut lo: u128 = 0;
    let mut hi: u128 = 0x1_0000_0000_0000_0000;
    proof {
        assert((n as int) < 0x1_0000_0000_0000_0000int * 0x1_0000_0000_0000_0000int)
            by (nonlinear_arith)
            requires
                n as int <= 0xffff_ffff_ffff_ffff_ffff_ffff_ffff_ffffint,
        ;
    }
    while lo + 1 < hi
        invariant
            0 <= lo < hi <= 0x1_0000_0000_0000_0000,
            (lo as int) * (lo as int) <= n as int,
            (n as int) < (hi as int) * (hi as int),
        decreases hi - lo,
    {
        let mid: u128 = lo + (hi - lo) / 2;
        proof {
            assert((mid as int) * (mid as int) <= 0xffff_ffff_ffff_ffffint
                * 0xffff_ffff_ffff_ffffint) by (nonlinear_arith)
                requires
                    0 <= mid as int <= 0xffff_ffff_ffff_ffffint,
            ;
        }
        if mid * mid <= n {
            lo = mid;
        } else {
            hi = mid;
        }
    }
    proof {
        lemma_sqrt_floor_unique(n as int, lo as int);
    }
    lo as u64
}

/// Saturating product of a step count with a raw scalar.
pub fn fmul_int(k: u64, a: i64) -> (r: i64)
    ensures
        r as int == spec_fmul_int(k as int, a as int),
{
    let ua = abs_u(a);
    proof {
        assert((k as int) * (ua as int) <= 0xffff_ffff_ffff_ffffint * 0x8000_0000_0000_0000int)
            by (nonlinear_arith)
            requires
                0 <= k as int <= 0xffff_ffff_ffff_ffffint,
                0 <= ua as int <= 0x8000_0000_0000_0000int,
        ;
    }
    let p: u128 = (k as u128) * (ua as u128);
    sign_clamp(p, a < 0)
}

} // verus!
