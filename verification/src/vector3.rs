//! Three-component vectors over the saturating fixed-point scalars.
//!
//! `Vec3` is the executable type; its view is the ghost triple `V3` of
//! mathematical integers, over which the componentwise operations, the
//! cross product and the Euclidean magnitude are mirrored exactly.

use vstd::prelude::*;

use crate::fixed::abs_i;
use crate::fixed::fadd;
use crate::fixed::fdiv;
use crate::fixed::fmul;
use crate::fixed::fneg;
use crate::fixed::fsub;
use crate::fixed::isqrt;
use crate::fixed::lemma_sqrt_floor_unique;
use crate::fixed::spec_fadd;
use crate::fixed::spec_fdiv;
use crate::fixed::spec_fmul;
use crate::fixed::spec_fneg;
use crate::fixed::spec_fsub;
use crate::fixed::sqrt_floor;
use crate::fixed::SAT_MAX;

verus! {

/// Mathematical view of a `Vec3`: one `int` per component.
pub ghost struct V3 {
    pub x: int,
    pub y: int,
    pub z: int,
}

/// A 3-component vector of raw fixed-point scalars.
#[derive(Clone, Copy, Debug, PartialEq, Eq, Structural)]
pub struct Vec3 {
    pub x: i64,
    pub y: i64,
    pub z: i64,
}

impl View for Vec3 {
    type V = V3;

    open spec fn view(&self) -> V3 {
        V3 { x: self.x as int, y: self.y as int, z: self.z as int }
    }
}

/// The zero vector.
pub open spec fn v3_zero() -> V3 {
    V3 { x: 0, y: 0, z: 0 }
}

/// Componentwise saturating sum.
pub open spec fn v3_add(a: V3, b: V3) -> V3 {
    V3 { x: spec_fadd(a.x, b.x), y: spec_fadd(a.y, b.y), z: spec_fadd(a.z, b.z) }
}

/// Componentwise saturating difference.
pub open spec fn v3_sub(a: V3, b: V3) -> V3 {
    V3 { x: spec_fsub(a.x, b.x), y: spec_fsub(a.y, b.y), z: spec_fsub(a.z, b.z) }
}

/// Componentwise saturating negation.
pub open spec fn v3_neg(a: V3) -> V3 {
    V3 { x: spec_fneg(a.x), y: spec_fneg(a.y), z: spec_fneg(a.z) }
}

/// Componentwise saturating scaling by a raw scalar.
pub open spec fn v3_scale(s: int, a: V3) -> V3 {
    V3 { x: spec_fmul(s, a.x), y: spec_fmul(s, a.y), z: spec_fmul(s, a.z) }
}

/// Componentwise saturating division by a raw scalar.
pub open spec fn v3_div_s(a: V3, s: int) -> V3
    recommends
        s != 0,
{
    V3 { x: spec_fdiv(a.x, s), y: spec_fdiv(a.y, s), z: spec_fdiv(a.z, s) }
}

/// Standard 3D cross product over the saturating fixed-point scalars.
pub open spec fn v3_cross(a: V3, b: V3) -> V3 {
    V3 {
        x: spec_fsub(spec_fmul(a.y, b.z), spec_fmul(a.z, b.y)),
        y: spec_fsub(spec_fmul(a.z, b.x), spec_fmul(a.x, b.z)),
        z: spec_fsub(spec_fmul(a.x, b.y), spec_fmul(a.y, b.x)),
    }
}

/// Sum of the squared raw components (an exact integer, never saturated).
pub open spec fn v3_sumsq(a: V3) -> int {
    a.x * a.x + a.y * a.y + a.z * a.z
}

/// Euclidean magnitude: the floor square root of the raw sum of squares,
/// clamped into the representable range.  Because the components mean
/// `raw / SCALE`, the raw root of the raw sum of squares is again a raw
/// fixed-point scalar, with no rescaling needed.
pub open spec fn v3_mag(a: V3) -> int {
    let r = sqrt_floor(v3_sumsq(a));
    if r > SAT_MAX {
        SAT_MAX as int
    } else {
        r
    }
}

impl Vec3 {
    /// Build a vector from its raw components.
    pub fn new(x: i64, y: i64, z: i64) -> (r: Vec3)
        ensures
            r@ == (V3 { x: x as int, y: y as int, z: z as int }),
    {
        Vec3 { x, y, z }
    }

    /// Componentwise saturating sum.
    pub fn plus(&self, other: &Vec3) -> (r: Vec3)
        ensures
            r@ == v3_add(self@, other@),
    {
        Vec3 { x: fadd(self.x, other.x), y: fadd(self.y, other.y), z: fadd(self.z, other.z) }
    }

    /// Componentwise saturating difference.
    pub fn minus(&self, other: &Vec3) -> (r: Vec3)
        ensures
            r@ == v3_sub(self@, other@),
    {
        Vec3 { x: fsub(self.x, other.x), y: fsub(self.y, other.y), z: fsub(self.z, other.z) }
    }

    /// Componentwise saturating negation.
    pub fn negated(&self) -> (r: Vec3)
        ensures
            r@ == v3_neg(self@),
    {
        Vec3 { x: fneg(self.x), y: fneg(self.y), z: fneg(self.z) }
    }

    /// Componentwise saturating scaling by a raw scalar.
    pub fn scaled(&self, s: i64) -> (r: Vec3)
        ensures
            r@ == v3_scale(s as int, self@),
    {
        Vec3 { x: fmul(s, self.x), y: fmul(s, self.y), z: fmul(s, self.z) }
    }

    /// Componentwise saturating division by a raw scalar.
    pub fn divided_by(&self, s: i64) -> (r: Vec3)
        requires
            s != 0,
        ensures
            r@ == v3_div_s(self@, s as int),
    {
        Vec3 { x: fdiv(self.x, s), y: fdiv(self.y, s), z: fdiv(self.z, s) }
    }

    /// Standard 3D cross product.
    pub fn cross(&self, other: &Vec3) -> (r: Vec3)
        ensures
            r@ == v3_cross(self@, other@),
    {
        Vec3 {
            x: fsub(fmul(self.y, other.z), fmul(self.z, other.y)),
            y: fsub(fmul(self.z, other.x), fmul(self.x, other.z)),
            z: fsub(fmul(self.x, other.y), fmul(self.y, other.x)),
        }
    }

    /// Euclidean magnitude `sqrt(x^2 + y^2 + z^2)`, clamped at `SAT_MAX`.
    pub fn magnitude(&self) -> (r: i64)
        ensures
            r as int == v3_mag(self@),
    {
        let ux = sq_abs(self.x);
        let uy = sq_abs(self.y);
        let uz = sq_abs(self.z);
        let s: u128 = ux + uy + uz;
        let root: u64 = isqrt(s);
        if root > SAT_MAX as u64 {
            SAT_MAX
        } else {
            root as i64
        }
    }
}

/// Square of a raw scalar as an exact non-negative `u128`.
fn sq_abs(a: i64) -> (r: u128)
    ensures
        r as int == (a as int) * (a as int),
        r as int <= 0x8000_0000_0000_0000int * 0x8000_0000_0000_0000int,
{
    let ua: u64 = if a < 0 {
        (-(a as i128)) as u64
    } else {
        a as u64
    };
    proof {
        assert((ua as int) * (ua as int) == (a as int) * (a as int) && (ua as int) * (ua as int)
            <= 0x8000_0000_0000_0000int * 0x8000_0000_0000_0000int) by (nonlinear_arith)
            requires
                ua as int == abs_i(a as int),
                0 <= ua as int <= 0x8000_0000_0000_0000int,
        ;
    }
    (ua as u128) * (ua as u128)
}

/// The cross product is antisymmetric: swapping the arguments negates it.
/// This holds exactly, saturation included, because the saturation bounds
/// are symmetric around zero.
pub proof fn lemma_cross_antisymmetric(a: V3, b: V3)
    ensures
        v3_cross(a, b) == v3_neg(v3_cross(b, a)),
{
    lemma_cross_comp(a.y, b.z, a.z, b.y);
    lemma_cross_comp(a.z, b.x, a.x, b.z);
    lemma_cross_comp(a.x, b.y, a.y, b.x);
}

/// The cross product of a vector with itself is the zero vector.
pub proof fn lemma_cross_self_zero(a: V3)
    ensures
        v3_cross(a, a) == v3_zero(),
{
    lemma_fmul_comm(a.y, a.z);
    lemma_fmul_comm(a.z, a.x);
    lemma_fmul_comm(a.x, a.y);
}

/// One component of the antisymmetry: with `m = fmul` and `s = fsub`,
/// `s(m(p,q), m(r,t)) == fneg(s(m(q... )))` once `fmul`'s commutativity and
/// the symmetric clamp are unfolded.
proof fn lemma_cross_comp(p: int, q: int, r: int, t: int)
    ensures
        spec_fsub(spec_fmul(p, q), spec_fmul(r, t)) == spec_fneg(
            spec_fsub(spec_fmul(t, r), spec_fmul(q, p)),
        ),
{
    lemma_fmul_comm(p, q);
    lemma_fmul_comm(r, t);
}

/// Fixed-point multiplication is commutative.
proof fn lemma_fmul_comm(a: int, b: int)
    ensures
        spec_fmul(a, b) == spec_fmul(b, a),
{
    assert(abs_i(a) * abs_i(b) == abs_i(b) * abs_i(a)) by (nonlinear_arith);
}

} // verus!
