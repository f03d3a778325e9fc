//! Fixed-point sine and cosine for the launch-angle computation.
//!
//! An angle is a raw fixed-point scalar in radians.  The angle is first
//! reduced into `[0, TWO_PI)`, folded into the first quadrant, and the
//! sine there is evaluated by the odd Taylor polynomial through the
//! eleventh power.  The executable functions return exactly the value of
//! their spec-level mirrors; the polynomial itself is the definition of
//! sine for this crate's arithmetic.

use vstd::arithmetic::div_mod::lemma_fundamental_div_mod;
use vstd::arithmetic::div_mod::lemma_fundamental_div_mod_converse_mod;
use vstd::arithmetic::div_mod::lemma_mod_bound;
use vstd::prelude::*;

use crate::fixed::fadd;
use crate::fixed::fmul;
use crate::fixed::fsub;
use crate::fixed::spec_fadd;
use crate::fixed::spec_fmul;
use crate::fixed::spec_fsub;

verus! {

/// One full turn (two pi radians) in raw fixed-point units.
pub const TWO_PI: i64 = 6_283_185_307;

/// Half a turn (pi radians) in raw fixed-point units.
pub const PI: i64 = 3_141_592_653;

/// A quarter turn (pi over two radians) in raw fixed-point units.
pub const HALF_PI: i64 = 1_570_796_326;

/// Taylor coefficient 1/3! in raw fixed-point units.
pub const C3: i64 = 166_666_666;

/// Taylor coefficient 1/5! in raw fixed-point units.
pub const C5: i64 = 8_333_333;

/// Taylor coefficient 1/7! in raw fixed-point units.
pub const C7: i64 = 198_412;

/// Taylor coefficient 1/9! in raw fixed-point units.
pub const C9: i64 = 2_755;

/// Taylor coefficient 1/11! in raw fixed-point units.
pub const C11: i64 = 25;

/// Odd Taylor polynomial of sine through the eleventh power, evaluated
/// with the saturating fixed-point operations.
pub open spec fn spec_sin_poly(t: int) -> int {
    let t2 = spec_fmul(t, t);
    let t3 = spec_fmul(t2, t);
    let t5 = spec_fmul(t3, t2);
    let t7 = spec_fmul(t5, t2);
    let t9 = spec_fmul(t7, t2);
    let t11 = spec_fmul(t9, t2);
    spec_fsub(
        spec_fadd(
            spec_fsub(spec_fadd(spec_fsub(t, spec_fmul(t3, C3 as int)), spec_fmul(t5, C5 as int)),
                spec_fmul(t7, C7 as int)),
            spec_fmul(t9, C9 as int),
        ),
        spec_fmul(t11, C11 as int),
    )
}

/// An angle reduced into `[0, TWO_PI)` by the Euclidean remainder.
pub open spec fn spec_reduce(x: int) -> int {
    x % (TWO_PI as int)
}

/// Sine of an angle already reduced into `[0, TWO_PI)`: fold into the
/// first quadrant, evaluate the polynomial, and restore the sign of the
/// half-turn.
pub open spec fn spec_fsin_reduced(m: int) -> int {
    if m <= HALF_PI {
        spec_sin_poly(m)
    } else if m <= PI {
        spec_sin_poly((PI as int) - m)
    } else if m <= (PI as int) + (HALF_PI as int) {
        -spec_sin_poly(m - (PI as int))
    } else {
        -spec_sin_poly((TWO_PI as int) - m)
    }
}

/// Sine of a raw angle.
pub open spec fn spec_fsin(x: int) -> int {
    spec_fsin_reduced(spec_reduce(x))
}

/// Cosine of a raw angle, as the sine shifted by a quarter turn.
pub open spec fn spec_fcos(x: int) -> int {
    spec_fsin(x + (HALF_PI as int))
}

/// Reduce a (widened) raw angle into `[0, TWO_PI)`.
fn reduce(x: i128) -> (m: i64)
    requires
        i128::MIN < x,
    ensures
        m as int == spec_reduce(x as int),
        0 <= m < TWO_PI,
{
    let t: u128 = TWO_PI as u128;
    if x >= 0 {
        let m0: u128 = (x as u128) % t;
        m0 as i64
    } else {
        let n: u128 = (-x) as u128;
        let m0: u128 = n % t;
        proof {
            let ti = TWO_PI as int;
            lemma_fundamental_div_mod(n as int, ti);
            lemma_mod_bound(n as int, ti);
            let q0 = (n as int) / ti;
            if m0 == 0 {
                lemma_fundamental_div_mod_converse_mod(x as int, ti, -q0, 0);
            } else {
                lemma_fundamental_div_mod_converse_mod(
                    x as int,
                    ti,
                    -q0 - 1,
                    ti - (m0 as int),
                );
            }
        }
        if m0 == 0 {
            0
        } else {
            (t - m0) as i64
        }
    }
}

/// Taylor polynomial of sine on a first-quadrant argument.
fn sin_poly(t: i64) -> (r: i64)
    ensures
        r as int == spec_sin_poly(t as int),
{
    let t2 = fmul(t, t);
    let t3 = fmul(t2, t);
    let t5 = fmul(t3, t2);
    let t7 = fmul(t5, t2);
    let t9 = fmul(t7, t2);
    let t11 = fmul(t9, t2);
    let mut s = fsub(t, fmul(t3, C3));
    s = fadd(s, fmul(t5, C5));
    s = fsub(s, fmul(t7, C7));
    s = fadd(s, fmul(t9, C9));
    fsub(s, fmul(t11, C11))
}

/// Sine of a reduced angle in `[0, TWO_PI)`.
fn fsin_reduced(m: i64) -> (r: i64)
    requires
        0 <= m < TWO_PI,
    ensures
        r as int == spec_fsin_reduced(m as int),
{
    if m <= HALF_PI {
        sin_poly(m)
    } else if m <= PI {
        sin_poly(PI - m)
    } else if m <= PI + HALF_PI {
        let p = sin_poly(m - PI);
        -p
    } else {
        let p = sin_poly(TWO_PI - m);
        -p
    }
}

/// Fixed-point sine of a raw angle in radians.
pub fn fsin(x: i64) -> (r: i64)
    ensures
        r as int == spec_fsin(x as int),
{
    let m = reduce(x as i128);
    fsin_reduced(m)
}

/// Fixed-point cosine of a raw angle in radians.
pub fn fcos(x: i64) -> (r: i64)
    ensures
        r as int == spec_fcos(x as int),
{
    let m = reduce(x as i128 + HALF_PI as i128);
    fsin_reduced(m)
}

} // verus!
