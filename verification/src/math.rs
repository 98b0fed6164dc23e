//! Fixed-point vectors, quaternions and 4x4 matrices.
//!
//! Matrices are column-major, like the GPU expects them: `c0` through `c3`
//! are the columns. The scalar `1` is represented by [`FX_ONE`].

use vstd::prelude::*;
use crate::fixed::FX_ONE;
use crate::fixed::FX_LIMIT;
use crate::fixed::abs_int;
use crate::fixed::spec_fx_mul;
use crate::fixed::spec_fx_div;
use crate::fixed::fx_mul;
use crate::fixed::lemma_mul_le;

verus! {

/// A 3-vector of fixed-point scalars.
#[derive(Clone, Copy, Debug, PartialEq, Eq, Structural)]
pub struct Vec3 {
    pub x: i64,
    pub y: i64,
    pub z: i64,
}

/// A 4-vector of fixed-point scalars; also one column of a matrix.
#[derive(Clone, Copy, Debug, PartialEq, Eq, Structural)]
pub struct Vec4 {
    pub x: i64,
    pub y: i64,
    pub z: i64,
    pub w: i64,
}

/// A quaternion with vector part `x, y, z` and scalar part `w`.
#[derive(Clone, Copy, Debug, PartialEq, Eq, Structural)]
pub struct Quat {
    pub x: i64,
    pub y: i64,
    pub z: i64,
    pub w: i64,
}

/// A column-major 4x4 matrix of fixed-point scalars.
#[derive(Clone, Copy, Debug, PartialEq, Eq, Structural)]
pub struct Mat4 {
    pub c0: Vec4,
    pub c1: Vec4,
    pub c2: Vec4,
    pub c3: Vec4,
}

/// Magnitude bound on the components of a well-formed position vector.
pub const POS_MAX: i64 = FX_LIMIT;

/// Magnitude bound on the components of a well-formed scale vector.
pub const SCALE_MAX: i64 = FX_LIMIT;

/// Magnitude bound on the components of a well-formed rotation quaternion
/// (unit quaternions stay well below it).
pub const QUAT_MAX: i64 = 4_000_000;

pub open spec fn vec3_bounded(v: Vec3, m: int) -> bool {
    abs_int(v.x as int) <= m && abs_int(v.y as int) <= m && abs_int(v.z as int) <= m
}

pub open spec fn quat_bounded(q: Quat, m: int) -> bool {
    abs_int(q.x as int) <= m && abs_int(q.y as int) <= m && abs_int(q.z as int) <= m
        && abs_int(q.w as int) <= m
}

impl Vec3 {
    /// The zero vector.
    pub fn zero() -> (r: Vec3)
        ensures
            r == (Vec3 { x: 0, y: 0, z: 0 }),
    {
        Vec3 { x: 0, y: 0, z: 0 }
    }
}

impl Quat {
    /// The identity rotation.
    pub fn identity() -> (r: Quat)
        ensures
            r == (Quat { x: 0, y: 0, z: 0, w: FX_ONE }),
    {
        Quat { x: 0, y: 0, z: 0, w: FX_ONE }
    }
}

impl Mat4 {
    /// The identity matrix.
    pub fn identity() -> (r: Mat4)
        ensures
            r == spec_mat4_identity(),
    {
        Mat4 {
            c0: Vec4 { x: FX_ONE, y: 0, z: 0, w: 0 },
            c1: Vec4 { x: 0, y: FX_ONE, z: 0, w: 0 },
            c2: Vec4 { x: 0, y: 0, z: FX_ONE, w: 0 },
            c3: Vec4 { x: 0, y: 0, z: 0, w: FX_ONE },
        }
    }
}

pub open spec fn spec_mat4_identity() -> Mat4 {
    Mat4 {
        c0: Vec4 { x: FX_ONE as i64, y: 0, z: 0, w: 0 },
        c1: Vec4 { x: 0, y: FX_ONE as i64, z: 0, w: 0 },
        c2: Vec4 { x: 0, y: 0, z: FX_ONE as i64, w: 0 },
        c3: Vec4 { x: 0, y: 0, z: 0, w: FX_ONE as i64 },
    }
}

/// The translation matrix for `p`: identity columns with `p` in the last one.
pub open spec fn spec_translate(p: Vec3) -> Mat4 {
    Mat4 {
        c0: Vec4 { x: FX_ONE as i64, y: 0, z: 0, w: 0 },
        c1: Vec4 { x: 0, y: FX_ONE as i64, z: 0, w: 0 },
        c2: Vec4 { x: 0, y: 0, z: FX_ONE as i64, w: 0 },
        c3: Vec4 { x: p.x, y: p.y, z: p.z, w: FX_ONE as i64 },
    }
}

/// The non-uniform scale matrix with `s` on the diagonal.
pub open spec fn spec_scale(s: Vec3) -> Mat4 {
    Mat4 {
        c0: Vec4 { x: s.x, y: 0, z: 0, w: 0 },
        c1: Vec4 { x: 0, y: s.y, z: 0, w: 0 },
        c2: Vec4 { x: 0, y: 0, z: s.z, w: 0 },
        c3: Vec4 { x: 0, y: 0, z: 0, w: FX_ONE as i64 },
    }
}

/// One entry of the rotation block: `2 a b` in fixed point.
pub open spec fn spec_two_mul(a: int, b: int) -> int {
    spec_fx_mul(2 * a, b)
}

/// The rotation matrix of the quaternion `q`.
pub open spec fn spec_rotate(q: Quat) -> Mat4 {
    let xx2 = spec_two_mul(q.x as int, q.x as int);
    let yy2 = spec_two_mul(q.y as int, q.y as int);
    let zz2 = spec_two_mul(q.z as int, q.z as int);
    let xy2 = spec_two_mul(q.x as int, q.y as int);
    let xz2 = spec_two_mul(q.x as int, q.z as int);
    let yz2 = spec_two_mul(q.y as int, q.z as int);
    let wx2 = spec_two_mul(q.w as int, q.x as int);
    let wy2 = spec_two_mul(q.w as int, q.y as int);
    let wz2 = spec_two_mul(q.w as int, q.z as int);
    Mat4 {
        c0: Vec4 {
            x: (FX_ONE as int - yy2 - zz2) as i64,
            y: (xy2 + wz2) as i64,
            z: (xz2 - wy2) as i64,
            w: 0,
        },
        c1: Vec4 {
            x: (xy2 - wz2) as i64,
            y: (FX_ONE as int - xx2 - zz2) as i64,
            z: (yz2 + wx2) as i64,
            w: 0,
        },
        c2: Vec4 {
            x: (xz2 + wy2) as i64,
            y: (yz2 - wx2) as i64,
            z: (FX_ONE as int - xx2 - yy2) as i64,
            w: 0,
        },
        c3: Vec4 { x: 0, y: 0, z: 0, w: FX_ONE as i64 },
    }
}

/// One entry of a matrix product: the fixed-point dot product of a row of
/// `a` and a column of `b`.
pub open spec fn spec_dot4(a0: int, a1: int, a2: int, a3: int, b0: int, b1: int, b2: int, b3: int) -> int {
    spec_fx_mul(a0, b0) + spec_fx_mul(a1, b1) + spec_fx_mul(a2, b2) + spec_fx_mul(a3, b3)
}

/// The fixed-point matrix product `a * b`.
pub open spec fn spec_mat_mul(a: Mat4, b: Mat4) -> Mat4 {
    Mat4 {
        c0: spec_mat_mul_col(a, b.c0),
        c1: spec_mat_mul_col(a, b.c1),
        c2: spec_mat_mul_col(a, b.c2),
        c3: spec_mat_mul_col(a, b.c3),
    }
}

/// The fixed-point matrix-vector product `a * v`.
pub open spec fn spec_mat_mul_col(a: Mat4, v: Vec4) -> Vec4 {
    Vec4 {
        x: spec_dot4(
            a.c0.x as int, a.c1.x as int, a.c2.x as int, a.c3.x as int,
            v.x as int, v.y as int, v.z as int, v.w as int,
        ) as i64,
        y: spec_dot4(
            a.c0.y as int, a.c1.y as int, a.c2.y as int, a.c3.y as int,
            v.x as int, v.y as int, v.z as int, v.w as int,
        ) as i64,
        z: spec_dot4(
            a.c0.z as int, a.c1.z as int, a.c2.z as int, a.c3.z as int,
            v.x as int, v.y as int, v.z as int, v.w as int,
        ) as i64,
        w: spec_dot4(
            a.c0.w as int, a.c1.w as int, a.c2.w as int, a.c3.w as int,
            v.x as int, v.y as int, v.z as int, v.w as int,
        ) as i64,
    }
}

/// The model matrix of a transform, computed directly: the 3x3 block is the
/// rotation of `q` with each column scaled by the matching component of `s`,
/// the last column is the translation `p`.
pub open spec fn spec_model_matrix(p: Vec3, q: Quat, s: Vec3) -> Mat4 {
    let r = spec_rotate(q);
    Mat4 {
        c0: Vec4 {
            x: spec_fx_mul(r.c0.x as int, s.x as int) as i64,
            y: spec_fx_mul(r.c0.y as int, s.x as int) as i64,
            z: spec_fx_mul(r.c0.z as int, s.x as int) as i64,
            w: 0,
        },
        c1: Vec4 {
            x: spec_fx_mul(r.c1.x as int, s.y as int) as i64,
            y: spec_fx_mul(r.c1.y as int, s.y as int) as i64,
            z: spec_fx_mul(r.c1.z as int, s.y as int) as i64,
            w: 0,
        },
        c2: Vec4 {
            x: spec_fx_mul(r.c2.x as int, s.z as int) as i64,
            y: spec_fx_mul(r.c2.y as int, s.z as int) as i64,
            z: spec_fx_mul(r.c2.z as int, s.z as int) as i64,
            w: 0,
        },
        c3: Vec4 { x: p.x, y: p.y, z: p.z, w: FX_ONE as i64 },
    }
}

proof fn lemma_fx_mul_zero(a: int)
    ensures
        spec_fx_mul(0, a) == 0,
        spec_fx_mul(a, 0) == 0,
{
    assert(0 * a == 0) by (nonlinear_arith);
    assert(a * 0 == 0) by (nonlinear_arith);
    assert(0int / (FX_ONE as int) == 0);
}

proof fn lemma_fx_mul_one(a: int)
    ensures
        spec_fx_mul(FX_ONE as int, a) == a,
        spec_fx_mul(a, FX_ONE as int) == a,
{
    if a >= 0 {
        assert((FX_ONE as int) * a == a * (FX_ONE as int)) by (nonlinear_arith);
        vstd::arithmetic::div_mod::lemma_div_multiples_vanish(a, FX_ONE as int);
        assert((FX_ONE as int) * a / (FX_ONE as int) == a);
    } else {
        assert(-((FX_ONE as int) * a) == (FX_ONE as int) * (-a)) by (nonlinear_arith);
        assert(-(a * (FX_ONE as int)) == (FX_ONE as int) * (-a)) by (nonlinear_arith);
        vstd::arithmetic::div_mod::lemma_div_multiples_vanish(-a, FX_ONE as int);
    }
}

/// The direct model-matrix formula agrees with the composition
/// `Translate(p) * Rotate(q) * Scale(s)` of the three matrices.
pub proof fn lemma_model_matrix_is_trs(p: Vec3, q: Quat, s: Vec3)
    ensures
        spec_model_matrix(p, q, s)
            == spec_mat_mul(spec_mat_mul(spec_translate(p), spec_rotate(q)), spec_scale(s)),
{
    let t = spec_translate(p);
    let r = spec_rotate(q);
    let sc = spec_scale(s);
    lemma_fx_mul_zero(r.c0.x as int);
    lemma_fx_mul_zero(r.c0.y as int);
    lemma_fx_mul_zero(r.c0.z as int);
    lemma_fx_mul_zero(r.c0.w as int);
    lemma_fx_mul_zero(r.c1.x as int);
    lemma_fx_mul_zero(r.c1.y as int);
    lemma_fx_mul_zero(r.c1.z as int);
    lemma_fx_mul_zero(r.c1.w as int);
    lemma_fx_mul_zero(r.c2.x as int);
    lemma_fx_mul_zero(r.c2.y as int);
    lemma_fx_mul_zero(r.c2.z as int);
    lemma_fx_mul_zero(r.c2.w as int);
    lemma_fx_mul_zero(r.c3.x as int);
    lemma_fx_mul_zero(r.c3.y as int);
    lemma_fx_mul_zero(r.c3.z as int);
    lemma_fx_mul_zero(r.c3.w as int);
    lemma_fx_mul_zero(p.x as int);
    lemma_fx_mul_zero(p.y as int);
    lemma_fx_mul_zero(p.z as int);
    lemma_fx_mul_zero(s.x as int);
    lemma_fx_mul_zero(s.y as int);
    lemma_fx_mul_zero(s.z as int);
    lemma_fx_mul_zero(FX_ONE as int);
    lemma_fx_mul_zero(0);
    lemma_fx_mul_one(r.c0.x as int);
    lemma_fx_mul_one(r.c0.y as int);
    lemma_fx_mul_one(r.c0.z as int);
    lemma_fx_mul_one(r.c0.w as int);
    lemma_fx_mul_one(r.c1.x as int);
    lemma_fx_mul_one(r.c1.y as int);
    lemma_fx_mul_one(r.c1.z as int);
    lemma_fx_mul_one(r.c1.w as int);
    lemma_fx_mul_one(r.c2.x as int);
    lemma_fx_mul_one(r.c2.y as int);
    lemma_fx_mul_one(r.c2.z as int);
    lemma_fx_mul_one(r.c2.w as int);
    lemma_fx_mul_one(r.c3.x as int);
    lemma_fx_mul_one(r.c3.y as int);
    lemma_fx_mul_one(r.c3.z as int);
    lemma_fx_mul_one(r.c3.w as int);
    lemma_fx_mul_one(p.x as int);
    lemma_fx_mul_one(p.y as int);
    lemma_fx_mul_one(p.z as int);
    lemma_fx_mul_one(s.x as int);
    lemma_fx_mul_one(s.y as int);
    lemma_fx_mul_one(s.z as int);
    lemma_fx_mul_one(FX_ONE as int);
    lemma_fx_mul_one(0);
    let tr = spec_mat_mul(t, r);
    assert(tr == Mat4 {
        c0: r.c0,
        c1: r.c1,
        c2: r.c2,
        c3: Vec4 { x: p.x, y: p.y, z: p.z, w: FX_ONE as i64 },
    });
    assert(spec_mat_mul(tr, sc) == spec_model_matrix(p, q, s));
}

/// Compute `2 a b` in fixed point.
fn two_mul(a: i64, b: i64) -> (r: i64)
    requires
        abs_int(a as int) <= QUAT_MAX,
        abs_int(b as int) <= QUAT_MAX,
    ensures
        r == spec_two_mul(a as int, b as int),
        abs_int(r as int) <= 32 * (FX_ONE as int),
{
    let r = fx_mul(2 * a, b);
    proof {
        assert(abs_int(2 * (a as int)) <= 2 * (QUAT_MAX as int));
        lemma_mul_le(
            abs_int(2 * (a as int)),
            abs_int(b as int),
            2 * (QUAT_MAX as int),
            QUAT_MAX as int,
        );
        vstd::arithmetic::div_mod::lemma_div_is_ordered(
            abs_int(2 * (a as int)) * abs_int(b as int),
            2 * (QUAT_MAX as int) * (QUAT_MAX as int),
            FX_ONE as int,
        );
    }
    r
}

/// Compute the model matrix `Translate(p) * Rotate(q) * Scale(s)` directly.
pub fn model_matrix(p: Vec3, q: Quat, s: Vec3) -> (r: Mat4)
    requires
        vec3_bounded(p, POS_MAX as int),
        quat_bounded(q, QUAT_MAX as int),
        vec3_bounded(s, SCALE_MAX as int),
    ensures
        r == spec_model_matrix(p, q, s),
{
    let xx2 = two_mul(q.x, q.x);
    let yy2 = two_mul(q.y, q.y);
    let zz2 = two_mul(q.z, q.z);
    let xy2 = two_mul(q.x, q.y);
    let xz2 = two_mul(q.x, q.z);
    let yz2 = two_mul(q.y, q.z);
    let wx2 = two_mul(q.w, q.x);
    let wy2 = two_mul(q.w, q.y);
    let wz2 = two_mul(q.w, q.z);
    let r00 = FX_ONE - yy2 - zz2;
    let r01 = xy2 + wz2;
    let r02 = xz2 - wy2;
    let r10 = xy2 - wz2;
    let r11 = FX_ONE - xx2 - zz2;
    let r12 = yz2 + wx2;
    let r20 = xz2 + wy2;
    let r21 = yz2 - wx2;
    let r22 = FX_ONE - xx2 - yy2;
    Mat4 {
        c0: Vec4 { x: fx_mul(r00, s.x), y: fx_mul(r01, s.x), z: fx_mul(r02, s.x), w: 0 },
        c1: Vec4 { x: fx_mul(r10, s.y), y: fx_mul(r11, s.y), z: fx_mul(r12, s.y), w: 0 },
        c2: Vec4 { x: fx_mul(r20, s.z), y: fx_mul(r21, s.z), z: fx_mul(r22, s.z), w: 0 },
        c3: Vec4 { x: p.x, y: p.y, z: p.z, w: FX_ONE },
    }
}

} // verus!

verus! {

/// `r` is the integer square root of `n`.
pub open spec fn is_isqrt(n: int, r: int) -> bool {
    0 <= r && r * r <= n && n < (r + 1) * (r + 1)
}

/// The integer square root of `n`: the unique `r >= 0` with
/// `r * r <= n < (r + 1) * (r + 1)`.
pub open spec fn spec_isqrt(n: int) -> int
    recommends
        n >= 0,
{
    choose|r: int| is_isqrt(n, r)
}

/// A value with the square-root property is the square root.
pub proof fn lemma_isqrt_unique(n: int, r: int)
    requires
        0 <= r,
        r * r <= n,
        n < (r + 1) * (r + 1),
    ensures
        spec_isqrt(n) == r,
{
    assert(is_isqrt(n, r));
    let s = spec_isqrt(n);
    assert(is_isqrt(n, s));
    assert(s == r) by (nonlinear_arith)
        requires
            0 <= r,
            r * r <= n,
            n < (r + 1) * (r + 1),
            0 <= s,
            s * s <= n,
            n < (s + 1) * (s + 1),
    ;
}

/// The dot product over plain integers (no fixed-point rescaling).
pub open spec fn spec_dot(a: Vec3, b: Vec3) -> int {
    (a.x as int) * (b.x as int) + (a.y as int) * (b.y as int) + (a.z as int) * (b.z as int)
}

/// The squared length over plain integers (no fixed-point rescaling).
pub open spec fn spec_norm_sq(v: Vec3) -> int {
    spec_dot(v, v)
}

/// The combination `a f + b r + c u` over plain integers.
pub open spec fn spec_combine(f: Vec3, r: Vec3, u: Vec3, a: int, b: int, c: int) -> (int, int, int) {
    (
        a * (f.x as int) + b * (r.x as int) + c * (u.x as int),
        a * (f.y as int) + b * (r.y as int) + c * (u.y as int),
        a * (f.z as int) + b * (r.z as int) + c * (u.z as int),
    )
}

/// The heart of "diagonal movement is not faster": a movement vector built
/// from coefficients `a, b, c` over a pairwise-orthogonal basis of equal
/// squared length `n2` has squared length exactly `(a^2 + b^2 + c^2) * n2`.
/// Normalizing it and scaling by `speed * dt` therefore yields the same
/// magnitude whichever keys built it.
pub proof fn lemma_combination_norm_sq(f: Vec3, r: Vec3, u: Vec3, a: int, b: int, c: int, n2: int)
    requires
        spec_dot(f, r) == 0,
        spec_dot(f, u) == 0,
        spec_dot(r, u) == 0,
        spec_norm_sq(f) == n2,
        spec_norm_sq(r) == n2,
        spec_norm_sq(u) == n2,
    ensures
        ({
            let (x, y, z) = spec_combine(f, r, u, a, b, c);
            x * x + y * y + z * z == (a * a + b * b + c * c) * n2
        }),
{
    let fx = f.x as int;
    let fy = f.y as int;
    let fz = f.z as int;
    let rx = r.x as int;
    let ry = r.y as int;
    let rz = r.z as int;
    let ux = u.x as int;
    let uy = u.y as int;
    let uz = u.z as int;
    lemma_coord_expand(a, b, c, fx, rx, ux);
    lemma_coord_expand(a, b, c, fy, ry, uy);
    lemma_coord_expand(a, b, c, fz, rz, uz);
    lemma_mul_distrib3(a * a, fx * fx, fy * fy, fz * fz);
    lemma_mul_distrib3(b * b, rx * rx, ry * ry, rz * rz);
    lemma_mul_distrib3(c * c, ux * ux, uy * uy, uz * uz);
    lemma_mul_distrib3(a * b, fx * rx, fy * ry, fz * rz);
    lemma_mul_distrib3(a * c, fx * ux, fy * uy, fz * uz);
    lemma_mul_distrib3(b * c, rx * ux, ry * uy, rz * uz);
    assert(a * a * n2 + b * b * n2 + c * c * n2 == (a * a + b * b + c * c) * n2)
        by (nonlinear_arith);
}

/// One coordinate of the expansion: the square of a three-term combination.
proof fn lemma_coord_expand(a: int, b: int, c: int, p: int, q: int, w: int)
    ensures
        (a * p + b * q + c * w) * (a * p + b * q + c * w) == a * a * (p * p) + b * b * (q * q) + c
            * c * (w * w) + 2 * ((a * b) * (p * q)) + 2 * ((a * c) * (p * w)) + 2 * ((b * c) * (q
            * w)),
{
    let aa = a * p;
    let bb = b * q;
    let cc = c * w;
    assert((aa + bb + cc) * (aa + bb + cc) == aa * aa + bb * bb + cc * cc + 2 * (aa * bb) + 2 * (aa
        * cc) + 2 * (bb * cc)) by (nonlinear_arith);
    lemma_mul4(a, p, a, p);
    lemma_mul4(b, q, b, q);
    lemma_mul4(c, w, c, w);
    lemma_mul4(a, p, b, q);
    lemma_mul4(a, p, c, w);
    lemma_mul4(b, q, c, w);
}

/// Products regroup: `(a p)(b q) == (a b)(p q)`.
proof fn lemma_mul4(a: int, p: int, b: int, q: int)
    ensures
        (a * p) * (b * q) == (a * b) * (p * q),
{
    assert((a * p) * (b * q) == (a * b) * (p * q)) by (nonlinear_arith);
}

/// Multiplication distributes over a three-term sum.
proof fn lemma_mul_distrib3(k: int, p: int, q: int, w: int)
    ensures
        k * (p + q + w) == k * p + k * q + k * w,
{
    assert(k * (p + q + w) == k * p + k * q + k * w) by (nonlinear_arith);
}

/// Componentwise sum.
pub open spec fn spec_add3(a: Vec3, b: Vec3) -> Vec3 {
    Vec3 { x: (a.x + b.x) as i64, y: (a.y + b.y) as i64, z: (a.z + b.z) as i64 }
}

/// Componentwise difference.
pub open spec fn spec_sub3(a: Vec3, b: Vec3) -> Vec3 {
    Vec3 { x: (a.x - b.x) as i64, y: (a.y - b.y) as i64, z: (a.z - b.z) as i64 }
}

/// Each component scaled by the fixed-point factor `s`.
pub open spec fn spec_scale3(v: Vec3, s: int) -> Vec3 {
    Vec3 {
        x: spec_fx_mul(v.x as int, s) as i64,
        y: spec_fx_mul(v.y as int, s) as i64,
        z: spec_fx_mul(v.z as int, s) as i64,
    }
}

/// The fixed-point cross product `a x b`.
pub open spec fn spec_cross3(a: Vec3, b: Vec3) -> Vec3 {
    Vec3 {
        x: (spec_fx_mul(a.y as int, b.z as int) - spec_fx_mul(a.z as int, b.y as int)) as i64,
        y: (spec_fx_mul(a.z as int, b.x as int) - spec_fx_mul(a.x as int, b.z as int)) as i64,
        z: (spec_fx_mul(a.x as int, b.y as int) - spec_fx_mul(a.y as int, b.x as int)) as i64,
    }
}

/// The normalized vector: each component rescaled by the integer square
/// root of the squared length. The zero vector stays zero.
#[verifier::opaque]
pub open spec fn spec_normalize3(v: Vec3) -> Vec3 {
    let n2 = spec_norm_sq(v);
    if n2 == 0 {
        v
    } else {
        let n = spec_isqrt(n2);
        Vec3 {
            x: spec_fx_div(v.x as int, n) as i64,
            y: spec_fx_div(v.y as int, n) as i64,
            z: spec_fx_div(v.z as int, n) as i64,
        }
    }
}

/// Bound on vector components accepted by the vector helpers: 64 units.
pub const VEC_MAX: i64 = 64_000_000;

/// Componentwise sum.
pub fn add3(a: Vec3, b: Vec3) -> (r: Vec3)
    requires
        vec3_bounded(a, VEC_MAX as int),
        vec3_bounded(b, VEC_MAX as int),
    ensures
        r == spec_add3(a, b),
        vec3_bounded(r, 2 * VEC_MAX as int),
{
    Vec3 { x: a.x + b.x, y: a.y + b.y, z: a.z + b.z }
}

/// Componentwise difference.
pub fn sub3(a: Vec3, b: Vec3) -> (r: Vec3)
    requires
        vec3_bounded(a, VEC_MAX as int),
        vec3_bounded(b, VEC_MAX as int),
    ensures
        r == spec_sub3(a, b),
        vec3_bounded(r, 2 * VEC_MAX as int),
{
    Vec3 { x: a.x - b.x, y: a.y - b.y, z: a.z - b.z }
}

/// Each component scaled by the fixed-point factor `s`.
pub fn scale3(v: Vec3, s: i64) -> (r: Vec3)
    requires
        vec3_bounded(v, VEC_MAX as int),
        -FX_LIMIT <= s <= FX_LIMIT,
    ensures
        r == spec_scale3(v, s as int),
{
    Vec3 { x: fx_mul(v.x, s), y: fx_mul(v.y, s), z: fx_mul(v.z, s) }
}

/// The fixed-point cross product `a x b`.
pub fn cross3(a: Vec3, b: Vec3) -> (r: Vec3)
    requires
        vec3_bounded(a, VEC_MAX as int),
        vec3_bounded(b, VEC_MAX as int),
    ensures
        r == spec_cross3(a, b),
        vec3_bounded(r, 2 * ((VEC_MAX as int) * (VEC_MAX as int) / (FX_ONE as int))),
{
    proof {
        lemma_cross_bound(a, b);
    }
    Vec3 {
        x: fx_mul(a.y, b.z) - fx_mul(a.z, b.y),
        y: fx_mul(a.z, b.x) - fx_mul(a.x, b.z),
        z: fx_mul(a.x, b.y) - fx_mul(a.y, b.x),
    }
}

proof fn lemma_cross_bound(a: Vec3, b: Vec3)
    requires
        vec3_bounded(a, VEC_MAX as int),
        vec3_bounded(b, VEC_MAX as int),
    ensures
        forall|p: int, q: int|
            abs_int(p) <= VEC_MAX as int && abs_int(q) <= VEC_MAX as int
                ==> abs_int(#[trigger] spec_fx_mul(p, q)) <= (VEC_MAX as int) * (VEC_MAX as int) / (
            FX_ONE as int),
{
    assert forall|p: int, q: int|
        abs_int(p) <= VEC_MAX as int && abs_int(q) <= VEC_MAX as int implies abs_int(
        #[trigger] spec_fx_mul(p, q),
    ) <= (VEC_MAX as int) * (VEC_MAX as int) / (FX_ONE as int) by {
        lemma_fx_mul_abs_le(p, q, VEC_MAX as int, VEC_MAX as int);
    }
}

/// The magnitude of a fixed-point product is at most the product of the
/// magnitude bounds, rescaled.
pub proof fn lemma_fx_mul_abs_le(a: int, b: int, m: int, n: int)
    requires
        abs_int(a) <= m,
        abs_int(b) <= n,
        0 <= m,
        0 <= n,
    ensures
        abs_int(spec_fx_mul(a, b)) <= m * n / (FX_ONE as int),
{
    assert(abs_int(a * b) == abs_int(a) * abs_int(b) && abs_int(a) * abs_int(b) <= m * n)
        by (nonlinear_arith)
        requires
            abs_int(a) <= m,
            abs_int(b) <= n,
            0 <= m,
            0 <= n,
    ;
    vstd::arithmetic::div_mod::lemma_div_is_ordered(abs_int(a * b), m * n, FX_ONE as int);
    vstd::arithmetic::div_mod::lemma_div_pos_is_pos(abs_int(a * b), FX_ONE as int);
}

/// The squared length of `v`, over plain integers.
pub fn norm_sq3(v: Vec3) -> (r: u64)
    requires
        vec3_bounded(v, VEC_MAX as int),
    ensures
        r == spec_norm_sq(v),
{
    let ax: u64 = if v.x < 0 { (-v.x) as u64 } else { v.x as u64 };
    let ay: u64 = if v.y < 0 { (-v.y) as u64 } else { v.y as u64 };
    let az: u64 = if v.z < 0 { (-v.z) as u64 } else { v.z as u64 };
    proof {
        lemma_mul_le(ax as int, ax as int, VEC_MAX as int, VEC_MAX as int);
        lemma_mul_le(ay as int, ay as int, VEC_MAX as int, VEC_MAX as int);
        lemma_mul_le(az as int, az as int, VEC_MAX as int, VEC_MAX as int);
        assert(ax as int * ax as int == v.x as int * v.x as int) by (nonlinear_arith)
            requires
                ax == abs_int(v.x as int),
        ;
        assert(ay as int * ay as int == v.y as int * v.y as int) by (nonlinear_arith)
            requires
                ay == abs_int(v.y as int),
        ;
        assert(az as int * az as int == v.z as int * v.z as int) by (nonlinear_arith)
            requires
                az == abs_int(v.z as int),
        ;
    }
    ax * ax + ay * ay + az * az
}

/// Normalize `v` to (fixed-point) unit length; the zero vector is returned
/// unchanged. Every component of the result stays within one unit.
pub fn normalize3(v: Vec3) -> (r: Vec3)
    requires
        vec3_bounded(v, VEC_MAX as int),
    ensures
        r == spec_normalize3(v),
        vec3_bounded(r, FX_ONE as int) || (r == v && spec_norm_sq(v) == 0),
{
    proof {
        reveal(spec_normalize3);
    }
    let n2 = norm_sq3(v);
    if n2 == 0 {
        v
    } else {
        let n = crate::fixed::isqrt(n2);
        proof {
            lemma_isqrt_unique(n2 as int, n as int);
            let cx = v.x as int;
            let cy = v.y as int;
            let cz = v.z as int;
            assert(n2 as int == cx * cx + cy * cy + cz * cz);
            assert(cx * cx <= n2 && cy * cy <= n2 && cz * cz <= n2) by (nonlinear_arith)
                requires
                    n2 == cx * cx + cy * cy + cz * cz,
            ;
            lemma_component_le_isqrt(cx, n2 as int, n as int);
            lemma_component_le_isqrt(cy, n2 as int, n as int);
            lemma_component_le_isqrt(cz, n2 as int, n as int);
            assert(n >= 1) by (nonlinear_arith)
                requires
                    n2 > 0,
                    (n as int) * (n as int) <= n2 as int,
                    (n2 as int) < (n as int + 1) * (n as int + 1),
                    n >= 0,
            ;
        }
        let rx = crate::fixed::fx_div(v.x, n as i64);
        let ry = crate::fixed::fx_div(v.y, n as i64);
        let rz = crate::fixed::fx_div(v.z, n as i64);
        proof {
            lemma_fx_div_unit(v.x as int, n as int);
            lemma_fx_div_unit(v.y as int, n as int);
            lemma_fx_div_unit(v.z as int, n as int);
        }
        Vec3 { x: rx, y: ry, z: rz }
    }
}

/// A component is never larger than the square root of the squared length.
proof fn lemma_component_le_isqrt(c: int, n2: int, n: int)
    requires
        c * c <= n2,
        0 <= n,
        n * n <= n2,
        n2 < (n + 1) * (n + 1),
    ensures
        abs_int(c) <= n,
{
    assert(abs_int(c) <= n) by (nonlinear_arith)
        requires
            c * c <= n2,
            0 <= n,
            n2 < (n + 1) * (n + 1),
    ;
}

/// Dividing a component by a bound at least as large yields at most one
/// fixed-point unit.
proof fn lemma_fx_div_unit(c: int, n: int)
    requires
        abs_int(c) <= n,
        0 < n,
    ensures
        abs_int(spec_fx_div(c, n)) <= FX_ONE as int,
{
    assert(abs_int(c * (FX_ONE as int)) == abs_int(c) * (FX_ONE as int)) by (nonlinear_arith);
    assert(abs_int(c) * (FX_ONE as int) <= n * (FX_ONE as int)) by (nonlinear_arith)
        requires
            abs_int(c) <= n,
    ;
    vstd::arithmetic::div_mod::lemma_div_is_ordered(
        abs_int(c) * (FX_ONE as int),
        n * (FX_ONE as int),
        n,
    );
    assert(n * (FX_ONE as int) == (FX_ONE as int) * n) by (nonlinear_arith);
    vstd::arithmetic::div_mod::lemma_div_multiples_vanish(FX_ONE as int, n);
    vstd::arithmetic::div_mod::lemma_div_pos_is_pos(abs_int(c) * (FX_ONE as int), n);
    assert(abs_int(c * (FX_ONE as int)) / n <= FX_ONE as int);
}

} // verus!

verus! {

/// The fixed-point dot product of two 3-vectors.
pub open spec fn spec_fxdot3(a: Vec3, b: Vec3) -> int {
    spec_fx_mul(a.x as int, b.x as int) + spec_fx_mul(a.y as int, b.y as int) + spec_fx_mul(
        a.z as int,
        b.z as int,
    )
}

/// Compute the fixed-point dot product of a direction-scale vector and a
/// position-scale vector.
pub fn fxdot3(a: Vec3, b: Vec3) -> (r: i64)
    requires
        vec3_bounded(a, VEC_MAX as int),
        vec3_bounded(b, (FX_LIMIT / 8) as int),
    ensures
        r == spec_fxdot3(a, b),
        abs_int(r as int) <= 3 * ((VEC_MAX as int) * ((FX_LIMIT / 8) as int) / (FX_ONE as int)),
{
    proof {
        lemma_fx_mul_abs_le(a.x as int, b.x as int, VEC_MAX as int, (FX_LIMIT / 8) as int);
        lemma_fx_mul_abs_le(a.y as int, b.y as int, VEC_MAX as int, (FX_LIMIT / 8) as int);
        lemma_fx_mul_abs_le(a.z as int, b.z as int, VEC_MAX as int, (FX_LIMIT / 8) as int);
        assert((VEC_MAX as int) * ((FX_LIMIT / 8) as int) / (FX_ONE as int) <= 0x1_0000_0000_0000int)
            by (nonlinear_arith);
    }
    let tx = fx_mul(a.x, b.x);
    let ty = fx_mul(a.y, b.y);
    let tz = fx_mul(a.z, b.z);
    tx + ty + tz
}

/// Every entry of the matrix has magnitude at most `k`.
pub open spec fn mat4_bounded(m: Mat4, k: int) -> bool {
    abs_int(m.c0.x as int) <= k && abs_int(m.c0.y as int) <= k && abs_int(m.c0.z as int) <= k
        && abs_int(m.c0.w as int) <= k && abs_int(m.c1.x as int) <= k && abs_int(m.c1.y as int)
        <= k && abs_int(m.c1.z as int) <= k && abs_int(m.c1.w as int) <= k && abs_int(
        m.c2.x as int,
    ) <= k && abs_int(m.c2.y as int) <= k && abs_int(m.c2.z as int) <= k && abs_int(m.c2.w as int)
        <= k && abs_int(m.c3.x as int) <= k && abs_int(m.c3.y as int) <= k && abs_int(
        m.c3.z as int,
    ) <= k && abs_int(m.c3.w as int) <= k
}

/// One entry of a matrix product.
fn dot4(a0: i64, a1: i64, a2: i64, a3: i64, b0: i64, b1: i64, b2: i64, b3: i64) -> (r: i64)
    requires
        abs_int(a0 as int) <= FX_LIMIT as int,
        abs_int(a1 as int) <= FX_LIMIT as int,
        abs_int(a2 as int) <= FX_LIMIT as int,
        abs_int(a3 as int) <= FX_LIMIT as int,
        abs_int(b0 as int) <= FX_LIMIT as int,
        abs_int(b1 as int) <= FX_LIMIT as int,
        abs_int(b2 as int) <= FX_LIMIT as int,
        abs_int(b3 as int) <= FX_LIMIT as int,
    ensures
        r == spec_dot4(
            a0 as int, a1 as int, a2 as int, a3 as int,
            b0 as int, b1 as int, b2 as int, b3 as int,
        ),
{
    proof {
        lemma_fx_mul_abs_le(a0 as int, b0 as int, FX_LIMIT as int, FX_LIMIT as int);
        lemma_fx_mul_abs_le(a1 as int, b1 as int, FX_LIMIT as int, FX_LIMIT as int);
        lemma_fx_mul_abs_le(a2 as int, b2 as int, FX_LIMIT as int, FX_LIMIT as int);
        lemma_fx_mul_abs_le(a3 as int, b3 as int, FX_LIMIT as int, FX_LIMIT as int);
    }
    fx_mul(a0, b0) + fx_mul(a1, b1) + fx_mul(a2, b2) + fx_mul(a3, b3)
}

/// The fixed-point matrix product `a * b`.
pub fn mat_mul(a: &Mat4, b: &Mat4) -> (r: Mat4)
    requires
        mat4_bounded(*a, FX_LIMIT as int),
        mat4_bounded(*b, FX_LIMIT as int),
    ensures
        r == spec_mat_mul(*a, *b),
{
    Mat4 {
        c0: mat_mul_col(a, &b.c0),
        c1: mat_mul_col(a, &b.c1),
        c2: mat_mul_col(a, &b.c2),
        c3: mat_mul_col(a, &b.c3),
    }
}

fn mat_mul_col(a: &Mat4, v: &Vec4) -> (r: Vec4)
    requires
        mat4_bounded(*a, FX_LIMIT as int),
        abs_int(v.x as int) <= FX_LIMIT as int,
        abs_int(v.y as int) <= FX_LIMIT as int,
        abs_int(v.z as int) <= FX_LIMIT as int,
        abs_int(v.w as int) <= FX_LIMIT as int,
    ensures
        r == spec_mat_mul_col(*a, *v),
{
    Vec4 {
        x: dot4(a.c0.x, a.c1.x, a.c2.x, a.c3.x, v.x, v.y, v.z, v.w),
        y: dot4(a.c0.y, a.c1.y, a.c2.y, a.c3.y, v.x, v.y, v.z, v.w),
        z: dot4(a.c0.z, a.c1.z, a.c2.z, a.c3.z, v.x, v.y, v.z, v.w),
        w: dot4(a.c0.w, a.c1.w, a.c2.w, a.c3.w, v.x, v.y, v.z, v.w),
    }
}

} // verus!

verus! {

/// The cross product of bounded vectors is bounded: each component is the
/// difference of two rescaled products.
pub proof fn lemma_cross3_bounded(a: Vec3, b: Vec3, m: int, n: int)
    requires
        vec3_bounded(a, m),
        vec3_bounded(b, n),
        0 <= m,
        0 <= n,
    ensures
        vec3_bounded(spec_cross3(a, b), 2 * (m * n / (FX_ONE as int))),
{
    lemma_fx_mul_abs_le(a.y as int, b.z as int, m, n);
    lemma_fx_mul_abs_le(a.z as int, b.y as int, m, n);
    lemma_fx_mul_abs_le(a.z as int, b.x as int, m, n);
    lemma_fx_mul_abs_le(a.x as int, b.z as int, m, n);
    lemma_fx_mul_abs_le(a.x as int, b.y as int, m, n);
    lemma_fx_mul_abs_le(a.y as int, b.x as int, m, n);
}

/// A scaled vector is bounded by the rescaled product of the bounds.
pub proof fn lemma_scale3_bounded(v: Vec3, s: int, m: int, n: int)
    requires
        vec3_bounded(v, m),
        abs_int(s) <= n,
        0 <= m,
        0 <= n,
    ensures
        vec3_bounded(spec_scale3(v, s), m * n / (FX_ONE as int)),
{
    lemma_fx_mul_abs_le(v.x as int, s, m, n);
    lemma_fx_mul_abs_le(v.y as int, s, m, n);
    lemma_fx_mul_abs_le(v.z as int, s, m, n);
}

} // verus!

verus! {

/// A vector scaled by a small plain integer (no fixed-point rescaling).
pub open spec fn spec_iscale3(v: Vec3, k: int) -> Vec3 {
    Vec3 { x: (k * v.x) as i64, y: (k * v.y) as i64, z: (k * v.z) as i64 }
}

/// Scale a vector by a coefficient in `{-1, 0, 1}`.
pub fn iscale3(v: Vec3, k: i64) -> (r: Vec3)
    requires
        -1 <= k <= 1,
        vec3_bounded(v, VEC_MAX as int),
    ensures
        r == spec_iscale3(v, k as int),
        abs_int(r.x as int) <= abs_int(v.x as int),
        abs_int(r.y as int) <= abs_int(v.y as int),
        abs_int(r.z as int) <= abs_int(v.z as int),
{
    proof {
        assert(k * v.x == if k == 1 { v.x as int } else if k == -1 { -(v.x as int) } else { 0 })
            by (nonlinear_arith)
            requires
                -1 <= k <= 1,
        ;
        assert(k * v.y == if k == 1 { v.y as int } else if k == -1 { -(v.y as int) } else { 0 })
            by (nonlinear_arith)
            requires
                -1 <= k <= 1,
        ;
        assert(k * v.z == if k == 1 { v.z as int } else if k == -1 { -(v.z as int) } else { 0 })
            by (nonlinear_arith)
            requires
                -1 <= k <= 1,
        ;
    }
    Vec3 { x: k * v.x, y: k * v.y, z: k * v.z }
}

} // verus!
