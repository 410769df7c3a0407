//! Vectors, rays, and the reflection laws.
//!
//! `Vec3` is a three-component fixed-point vector. Every operation returns a
//! new value and is proved equal to its spec-level mirror, so downstream
//! contracts (intersection, shading) compose exactly.

use vstd::prelude::*;

use crate::fixed::{
    fx_abs, fx_add, fx_div, fx_max, fx_min, fx_mul, fx_neg, fx_sqrt, fx_sub, spec_abs, spec_add,
    spec_div, spec_max, spec_min, spec_mul, spec_neg, spec_sqrt, spec_sub, EPS, SCALE, TWO,
};

verus! {

/// A point or direction in space; each component counts millionths of a unit.
#[derive(Clone, Copy, Debug, PartialEq, Eq, Structural)]
pub struct Vec3 {
    pub x: i64,
    pub y: i64,
    pub z: i64,
}

/// Component-wise sum.
pub open spec fn spec_vadd(a: Vec3, b: Vec3) -> Vec3 {
    Vec3 { x: spec_add(a.x, b.x), y: spec_add(a.y, b.y), z: spec_add(a.z, b.z) }
}

/// Component-wise difference.
pub open spec fn spec_vsub(a: Vec3, b: Vec3) -> Vec3 {
    Vec3 { x: spec_sub(a.x, b.x), y: spec_sub(a.y, b.y), z: spec_sub(a.z, b.z) }
}

/// Every component scaled by `s`.
pub open spec fn spec_vscale(a: Vec3, s: i64) -> Vec3 {
    Vec3 { x: spec_mul(a.x, s), y: spec_mul(a.y, s), z: spec_mul(a.z, s) }
}

/// Every component divided by `s`.
pub open spec fn spec_vdiv(a: Vec3, s: i64) -> Vec3 {
    Vec3 { x: spec_div(a.x, s), y: spec_div(a.y, s), z: spec_div(a.z, s) }
}

/// Component-wise negation.
pub open spec fn spec_vneg(a: Vec3) -> Vec3 {
    Vec3 { x: spec_neg(a.x), y: spec_neg(a.y), z: spec_neg(a.z) }
}

/// Dot product, summed left to right.
pub open spec fn spec_dot(a: Vec3, b: Vec3) -> i64 {
    spec_add(spec_add(spec_mul(a.x, b.x), spec_mul(a.y, b.y)), spec_mul(a.z, b.z))
}

/// Cross product.
pub open spec fn spec_cross(a: Vec3, b: Vec3) -> Vec3 {
    Vec3 {
        x: spec_sub(spec_mul(a.y, b.z), spec_mul(a.z, b.y)),
        y: spec_sub(spec_mul(a.z, b.x), spec_mul(a.x, b.z)),
        z: spec_sub(spec_mul(a.x, b.y), spec_mul(a.y, b.x)),
    }
}

/// Euclidean length.
pub open spec fn spec_length(a: Vec3) -> i64 {
    spec_sqrt(spec_dot(a, a))
}

/// Unit-length rescaling; a vector shorter than [`EPS`] is returned unchanged
/// (the documented degeneracy policy — no division blow-up on near-zero
/// vectors).
pub open spec fn spec_normalized(a: Vec3) -> Vec3 {
    let len = spec_length(a);
    if len < EPS {
        a
    } else {
        spec_vdiv(a, len)
    }
}

/// Component-wise (Hadamard) product.
pub open spec fn spec_hadamard(a: Vec3, b: Vec3) -> Vec3 {
    Vec3 { x: spec_mul(a.x, b.x), y: spec_mul(a.y, b.y), z: spec_mul(a.z, b.z) }
}

/// Mirror `i` about the plane orthogonal to `n`: `i - n * (2 * dot(i, n))`.
/// Assumes `n` has unit length; that is the caller's responsibility.
pub open spec fn spec_reflect(i: Vec3, n: Vec3) -> Vec3 {
    spec_vsub(i, spec_vscale(n, spec_mul(TWO, spec_dot(i, n))))
}

/// Component-wise minimum.
pub open spec fn spec_vmin(a: Vec3, b: Vec3) -> Vec3 {
    Vec3 { x: spec_min(a.x, b.x), y: spec_min(a.y, b.y), z: spec_min(a.z, b.z) }
}

/// Component-wise maximum.
pub open spec fn spec_vmax(a: Vec3, b: Vec3) -> Vec3 {
    Vec3 { x: spec_max(a.x, b.x), y: spec_max(a.y, b.y), z: spec_max(a.z, b.z) }
}

/// Component-wise absolute value.
pub open spec fn spec_vabs(a: Vec3) -> Vec3 {
    Vec3 { x: spec_abs(a.x), y: spec_abs(a.y), z: spec_abs(a.z) }
}

impl Vec3 {
    /// A vector from its three components.
    pub fn new(x: i64, y: i64, z: i64) -> (r: Vec3)
        ensures
            r == (Vec3 { x, y, z }),
    {
        Vec3 { x, y, z }
    }

    /// A vector with the same value in all three components.
    pub fn splat(v: i64) -> (r: Vec3)
        ensures
            r == (Vec3 { x: v, y: v, z: v }),
    {
        Vec3 { x: v, y: v, z: v }
    }

    /// Component-wise sum.
    pub fn plus(self, o: Vec3) -> (r: Vec3)
        ensures
            r == spec_vadd(self, o),
    {
        Vec3 { x: fx_add(self.x, o.x), y: fx_add(self.y, o.y), z: fx_add(self.z, o.z) }
    }

    /// Component-wise difference.
    pub fn minus(self, o: Vec3) -> (r: Vec3)
        ensures
            r == spec_vsub(self, o),
    {
        Vec3 { x: fx_sub(self.x, o.x), y: fx_sub(self.y, o.y), z: fx_sub(self.z, o.z) }
    }

    /// Every component scaled by `s`.
    pub fn scale(self, s: i64) -> (r: Vec3)
        ensures
            r == spec_vscale(self, s),
    {
        Vec3 { x: fx_mul(self.x, s), y: fx_mul(self.y, s), z: fx_mul(self.z, s) }
    }

    /// Every component divided by `s`.
    pub fn div_scalar(self, s: i64) -> (r: Vec3)
        ensures
            r == spec_vdiv(self, s),
    {
        Vec3 { x: fx_div(self.x, s), y: fx_div(self.y, s), z: fx_div(self.z, s) }
    }

    /// Component-wise negation.
    pub fn neg(self) -> (r: Vec3)
        ensures
            r == spec_vneg(self),
    {
        Vec3 { x: fx_neg(self.x), y: fx_neg(self.y), z: fx_neg(self.z) }
    }

    /// Dot product.
    pub fn dot(self, o: Vec3) -> (r: i64)
        ensures
            r == spec_dot(self, o),
    {
        fx_add(fx_add(fx_mul(self.x, o.x), fx_mul(self.y, o.y)), fx_mul(self.z, o.z))
    }

    /// Cross product.
    pub fn cross(self, o: Vec3) -> (r: Vec3)
        ensures
            r == spec_cross(self, o),
    {
        Vec3 {
            x: fx_sub(fx_mul(self.y, o.z), fx_mul(self.z, o.y)),
            y: fx_sub(fx_mul(self.z, o.x), fx_mul(self.x, o.z)),
            z: fx_sub(fx_mul(self.x, o.y), fx_mul(self.y, o.x)),
        }
    }

    /// Euclidean length.
    pub fn length(self) -> (r: i64)
        ensures
            r == spec_length(self),
    {
        fx_sqrt(self.dot(self))
    }

    /// Unit-length rescaling with the near-zero passthrough policy.
    pub fn normalized(self) -> (r: Vec3)
        ensures
            r == spec_normalized(self),
    {
        let len = self.length();
        if len < EPS {
            self
        } else {
            self.div_scalar(len)
        }
    }

    /// Component-wise (Hadamard) product.
    pub fn hadamard(self, o: Vec3) -> (r: Vec3)
        ensures
            r == spec_hadamard(self, o),
    {
        Vec3 { x: fx_mul(self.x, o.x), y: fx_mul(self.y, o.y), z: fx_mul(self.z, o.z) }
    }

    /// Mirror `i` about the plane orthogonal to the unit normal `n`.
    pub fn reflect(i: Vec3, n: Vec3) -> (r: Vec3)
        ensures
            r == spec_reflect(i, n),
    {
        i.minus(n.scale(fx_mul(TWO, i.dot(n))))
    }

    /// Component-wise minimum.
    pub fn min(self, o: Vec3) -> (r: Vec3)
        ensures
            r == spec_vmin(self, o),
    {
        Vec3 { x: fx_min(self.x, o.x), y: fx_min(self.y, o.y), z: fx_min(self.z, o.z) }
    }

    /// Component-wise maximum.
    pub fn max(self, o: Vec3) -> (r: Vec3)
        ensures
            r == spec_vmax(self, o),
    {
        Vec3 { x: fx_max(self.x, o.x), y: fx_max(self.y, o.y), z: fx_max(self.z, o.z) }
    }

    /// Component-wise absolute value.
    pub fn abs(self) -> (r: Vec3)
        ensures
            r == spec_vabs(self),
    {
        Vec3 { x: fx_abs(self.x), y: fx_abs(self.y), z: fx_abs(self.z) }
    }
}

/// A half-line: origin plus a direction normalized at construction.
#[derive(Clone, Copy, Debug, PartialEq, Eq, Structural)]
pub struct Ray {
    pub origin: Vec3,
    pub dir: Vec3,
}

/// The point at parameter `t` along a ray.
pub open spec fn spec_ray_at(r: Ray, t: i64) -> Vec3 {
    spec_vadd(r.origin, spec_vscale(r.dir, t))
}

impl Ray {
    /// A ray through `origin`; `dir` is normalized here, so the stored
    /// direction has unit length whenever `dir` is not degenerate.
    pub fn new(origin: Vec3, dir: Vec3) -> (r: Ray)
        ensures
            r == (Ray { origin, dir: spec_normalized(dir) }),
    {
        Ray { origin, dir: dir.normalized() }
    }

    /// The point at parameter `t` along this ray.
    pub fn at(&self, t: i64) -> (p: Vec3)
        ensures
            p == spec_ray_at(*self, t),
    {
        self.origin.plus(self.dir.scale(t))
    }
}

/// Clamp a scalar into `[0, 1]`; used only at the color-output stage.
pub open spec fn spec_clamp01(v: i64) -> i64 {
    if v < 0 {
        0
    } else if v > SCALE {
        SCALE
    } else {
        v
    }
}

/// Clamp a scalar into `[0, 1]`.
pub fn clamp01(v: i64) -> (r: i64)
    ensures
        r == spec_clamp01(v),
{
    if v < 0 {
        0
    } else if v > SCALE {
        SCALE
    } else {
        v
    }
}

/// A vector at exact (unbounded-integer) precision, for stating the algebraic
/// laws of reflection without fixed-point rounding.
pub struct WideVec3 {
    pub x: int,
    pub y: int,
    pub z: int,
}

/// Exact dot product.
pub open spec fn wide_dot(a: WideVec3, b: WideVec3) -> int {
    a.x * b.x + a.y * b.y + a.z * b.z
}

/// Exact reflection, scaled by `dot(n, n)` to stay in the integers:
/// `dot(n, n) * i - (2 * dot(i, n)) * n`. For a unit normal at fixed-point
/// scale (`dot(n, n) == SCALE * SCALE`) this is the reflection of `i`
/// magnified by the constant factor `SCALE * SCALE`.
pub open spec fn wide_reflect(i: WideVec3, n: WideVec3) -> WideVec3 {
    WideVec3 {
        x: wide_dot(n, n) * i.x - 2 * wide_dot(i, n) * n.x,
        y: wide_dot(n, n) * i.y - 2 * wide_dot(i, n) * n.y,
        z: wide_dot(n, n) * i.z - 2 * wide_dot(i, n) * n.z,
    }
}

/// Law: at exact precision, reflection flips the component along the normal —
/// `dot(reflect(i, n), n) == -dot(i, n)` up to the `dot(n, n)` scaling that
/// keeps the statement in the integers.
pub proof fn lemma_reflect_flips_normal_component(i: WideVec3, n: WideVec3)
    ensures
        wide_dot(wide_reflect(i, n), n) == -(wide_dot(n, n) * wide_dot(i, n)),
{
    let dnn = wide_dot(n, n);
    let din = wide_dot(i, n);
    let r = wide_reflect(i, n);
    assert(r.x * n.x == dnn * (i.x * n.x) - 2 * din * (n.x * n.x)) by (nonlinear_arith)
        requires
            r.x == dnn * i.x - 2 * din * n.x,
    ;
    assert(r.y * n.y == dnn * (i.y * n.y) - 2 * din * (n.y * n.y)) by (nonlinear_arith)
        requires
            r.y == dnn * i.y - 2 * din * n.y,
    ;
    assert(r.z * n.z == dnn * (i.z * n.z) - 2 * din * (n.z * n.z)) by (nonlinear_arith)
        requires
            r.z == dnn * i.z - 2 * din * n.z,
    ;
    lemma_scale_sum(dnn, i.x * n.x, i.y * n.y, i.z * n.z);
    lemma_scale_sum(2 * din, n.x * n.x, n.y * n.y, n.z * n.z);
    assert(wide_dot(r, n) == dnn * din - (2 * din) * dnn);
    assert(dnn * din - (2 * din) * dnn == -(dnn * din)) by (nonlinear_arith);
}

/// Multiplication distributes over a three-term sum.
proof fn lemma_scale_sum(s: int, a: int, b: int, c: int)
    by (nonlinear_arith)
    ensures
        s * a + s * b + s * c == s * (a + b + c),
{
}

/// Law: at exact precision, reflection preserves length —
/// `dot(reflect(i, n), reflect(i, n)) == dot(i, i)` up to the square of the
/// `dot(n, n)` scaling factor.
pub proof fn lemma_reflect_preserves_length(i: WideVec3, n: WideVec3)
    ensures
        wide_dot(wide_reflect(i, n), wide_reflect(i, n)) == wide_dot(n, n) * wide_dot(n, n)
            * wide_dot(i, i),
{
    let dnn = wide_dot(n, n);
    let din = wide_dot(i, n);
    let dii = wide_dot(i, i);
    let r = wide_reflect(i, n);
    lemma_reflect_component_square(r.x, dnn, din, i.x, n.x);
    lemma_reflect_component_square(r.y, dnn, din, i.y, n.y);
    lemma_reflect_component_square(r.z, dnn, din, i.z, n.z);
    lemma_scale_sum(dnn * dnn, i.x * i.x, i.y * i.y, i.z * i.z);
    lemma_scale_sum(4 * (dnn * din), i.x * n.x, i.y * n.y, i.z * n.z);
    lemma_scale_sum(4 * (din * din), n.x * n.x, n.y * n.y, n.z * n.z);
    assert(wide_dot(r, r) == (dnn * dnn) * dii - (4 * (dnn * din)) * din + (4 * (din * din))
        * dnn);
    assert((4 * (dnn * din)) * din == (4 * (din * din)) * dnn) by (nonlinear_arith);
}

/// One squared component of the exact reflection, expanded.
proof fn lemma_reflect_component_square(rc: int, c: int, d: int, ic: int, nc: int)
    requires
        rc == c * ic - 2 * d * nc,
    ensures
        rc * rc == (c * c) * (ic * ic) - (4 * (c * d)) * (ic * nc) + (4 * (d * d)) * (nc * nc),
{
    let a = c * ic;
    let b = d * nc;
    assert(rc == a - 2 * b) by (nonlinear_arith)
        requires
            rc == c * ic - 2 * d * nc,
            a == c * ic,
            b == d * nc,
    ;
    assert(rc * rc == a * a - 4 * (a * b) + 4 * (b * b)) by (nonlinear_arith)
        requires
            rc == a - 2 * b,
    ;
    lemma_mul_rearrange(c, c, ic, ic);
    lemma_mul_rearrange(c, d, ic, nc);
    lemma_mul_rearrange(d, d, nc, nc);
    assert(4 * ((c * d) * (ic * nc)) == (4 * (c * d)) * (ic * nc)) by (nonlinear_arith);
    assert(4 * ((d * d) * (nc * nc)) == (4 * (d * d)) * (nc * nc)) by (nonlinear_arith);
}

/// Products regroup: `(p * u) * (q * v) == (p * q) * (u * v)`.
proof fn lemma_mul_rearrange(p: int, q: int, u: int, v: int)
    by (nonlinear_arith)
    ensures
        (p * u) * (q * v) == (p * q) * (u * v),
{
}

} // verus!
