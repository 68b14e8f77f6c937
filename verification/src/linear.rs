//! Executable fixed-point vectors and matrices, each with a view into the
//! exact model of [`crate::math`].
//!
//! Components are `i128`; every operation's contract says that its result's
//! view is the exact model-level result, under machine-limit preconditions
//! that rule overflow out.

use vstd::prelude::*;

use crate::math::{
    m3_bounded, m3_mul, m3_mul_v, m3_orthogonal, m3_transpose, v3_add, v3_bounded, v3_cross,
    v3_scale, v3_sub, v3_zero, M3, V3,
};
use crate::SCALE;

verus! {

/// `x` fits in an `i128`.
pub open spec fn fits(x: int) -> bool {
    i128::MIN <= x <= i128::MAX
}

/// A three-component fixed-point vector.
#[derive(Clone, Copy, Debug, PartialEq, Eq, Structural)]
pub struct Vec3 {
    pub x: i128,
    pub y: i128,
    pub z: i128,
}

impl View for Vec3 {
    type V = V3;

    open spec fn view(&self) -> V3 {
        V3 { x: self.x as int, y: self.y as int, z: self.z as int }
    }
}

/// A row-major 3x3 fixed-point matrix.
#[derive(Clone, Copy, Debug, PartialEq, Eq, Structural)]
pub struct Mat3 {
    pub xx: i128, pub xy: i128, pub xz: i128,
    pub yx: i128, pub yy: i128, pub yz: i128,
    pub zx: i128, pub zy: i128, pub zz: i128,
}

impl View for Mat3 {
    type V = M3;

    open spec fn view(&self) -> M3 {
        M3 {
            xx: self.xx as int, xy: self.xy as int, xz: self.xz as int,
            yx: self.yx as int, yy: self.yy as int, yz: self.yz as int,
            zx: self.zx as int, zy: self.zy as int, zz: self.zz as int,
        }
    }
}

/// The three products of a row-column dot product, each partial sum, and the
/// total all fit in an `i128`.
pub open spec fn dot3_fits(m1: int, m2: int, m3: int, v1: int, v2: int, v3: int) -> bool {
    &&& fits(m1 * v1)
    &&& fits(m2 * v2)
    &&& fits(m3 * v3)
    &&& fits(m1 * v1 + m2 * v2)
    &&& fits(m1 * v1 + m2 * v2 + m3 * v3)
}

/// Componentwise addition of `a` and `b` stays in range.
pub open spec fn add_fits(a: V3, b: V3) -> bool {
    fits(a.x + b.x) && fits(a.y + b.y) && fits(a.z + b.z)
}

/// Componentwise difference of `a` and `b` stays in range.
pub open spec fn sub_fits(a: V3, b: V3) -> bool {
    fits(a.x - b.x) && fits(a.y - b.y) && fits(a.z - b.z)
}

/// Scaling `a` by `k` stays in range.
pub open spec fn scale_fits(k: int, a: V3) -> bool {
    fits(k * a.x) && fits(k * a.y) && fits(k * a.z)
}

/// Every product and difference of the cross product of `a` and `b` stays in
/// range.
pub open spec fn cross_fits(a: V3, b: V3) -> bool {
    &&& fits(a.y * b.z) && fits(a.z * b.y) && fits(a.y * b.z - a.z * b.y)
    &&& fits(a.z * b.x) && fits(a.x * b.z) && fits(a.z * b.x - a.x * b.z)
    &&& fits(a.x * b.y) && fits(a.y * b.x) && fits(a.x * b.y - a.y * b.x)
}

/// Applying `m` to `v` stays in range, row by row.
pub open spec fn mul_v_fits(m: M3, v: V3) -> bool {
    &&& dot3_fits(m.xx, m.xy, m.xz, v.x, v.y, v.z)
    &&& dot3_fits(m.yx, m.yy, m.yz, v.x, v.y, v.z)
    &&& dot3_fits(m.zx, m.zy, m.zz, v.x, v.y, v.z)
}

/// Every entry of the matrix product of `a` and `b` stays in range.
pub open spec fn mul_fits(a: M3, b: M3) -> bool {
    &&& dot3_fits(a.xx, a.xy, a.xz, b.xx, b.yx, b.zx)
    &&& dot3_fits(a.xx, a.xy, a.xz, b.xy, b.yy, b.zy)
    &&& dot3_fits(a.xx, a.xy, a.xz, b.xz, b.yz, b.zz)
    &&& dot3_fits(a.yx, a.yy, a.yz, b.xx, b.yx, b.zx)
    &&& dot3_fits(a.yx, a.yy, a.yz, b.xy, b.yy, b.zy)
    &&& dot3_fits(a.yx, a.yy, a.yz, b.xz, b.yz, b.zz)
    &&& dot3_fits(a.zx, a.zy, a.zz, b.xx, b.yx, b.zx)
    &&& dot3_fits(a.zx, a.zy, a.zz, b.xy, b.yy, b.zy)
    &&& dot3_fits(a.zx, a.zy, a.zz, b.xz, b.yz, b.zz)
}

impl Vec3 {
    pub fn new(x: i128, y: i128, z: i128) -> (r: Vec3)
        ensures
            r@ == (V3 { x: x as int, y: y as int, z: z as int }),
    {
        Vec3 { x, y, z }
    }

    pub fn zero() -> (r: Vec3)
        ensures
            r@ == v3_zero(),
    {
        Vec3 { x: 0, y: 0, z: 0 }
    }

    pub fn add(&self, other: &Vec3) -> (r: Vec3)
        requires
            add_fits(self@, other@),
        ensures
            r@ == v3_add(self@, other@),
    {
        Vec3 { x: self.x + other.x, y: self.y + other.y, z: self.z + other.z }
    }

    pub fn sub(&self, other: &Vec3) -> (r: Vec3)
        requires
            sub_fits(self@, other@),
        ensures
            r@ == v3_sub(self@, other@),
    {
        Vec3 { x: self.x - other.x, y: self.y - other.y, z: self.z - other.z }
    }

    pub fn scale(&self, k: i128) -> (r: Vec3)
        requires
            scale_fits(k as int, self@),
        ensures
            r@ == v3_scale(k as int, self@),
    {
        Vec3 { x: k * self.x, y: k * self.y, z: k * self.z }
    }

    pub fn cross(&self, other: &Vec3) -> (r: Vec3)
        requires
            cross_fits(self@, other@),
        ensures
            r@ == v3_cross(self@, other@),
    {
        Vec3 {
            x: self.y * other.z - self.z * other.y,
            y: self.z * other.x - self.x * other.z,
            z: self.x * other.y - self.y * other.x,
        }
    }

    /// True exactly when every component lies in `[-limit, limit]`.
    pub fn within(&self, limit: i128) -> (r: bool)
        requires
            limit >= 0,
        ensures
            r == v3_bounded(self@, limit as int),
    {
        -limit <= self.x && self.x <= limit
            && -limit <= self.y && self.y <= limit
            && -limit <= self.z && self.z <= limit
    }
}

impl Mat3 {
    pub fn new(
        xx: i128, xy: i128, xz: i128,
        yx: i128, yy: i128, yz: i128,
        zx: i128, zy: i128, zz: i128,
    ) -> (r: Mat3)
        ensures
            r@ == (M3 {
                xx: xx as int, xy: xy as int, xz: xz as int,
                yx: yx as int, yy: yy as int, yz: yz as int,
                zx: zx as int, zy: zy as int, zz: zz as int,
            }),
    {
        Mat3 { xx, xy, xz, yx, yy, yz, zx, zy, zz }
    }

    /// The identity orientation: the rotation that maps every vector to
    /// itself, at the fixed-point scale.
    pub fn identity() -> (r: Mat3)
        ensures
            r@ == crate::math::m3_diag(SCALE as int),
            m3_orthogonal(r@, SCALE as int),
    {
        let r = Mat3 {
            xx: SCALE, xy: 0, xz: 0,
            yx: 0, yy: SCALE, yz: 0,
            zx: 0, zy: 0, zz: SCALE,
        };
        proof {
            assert(m3_transpose(r@) == r@);
            assert(m3_mul(r@, r@) == crate::math::m3_diag((SCALE as int) * (SCALE as int)));
        }
        r
    }

    pub fn transpose(&self) -> (r: Mat3)
        ensures
            r@ == m3_transpose(self@),
    {
        Mat3 {
            xx: self.xx, xy: self.yx, xz: self.zx,
            yx: self.xy, yy: self.yy, yz: self.zy,
            zx: self.xz, zy: self.yz, zz: self.zz,
        }
    }

    pub fn mul(&self, other: &Mat3) -> (r: Mat3)
        requires
            mul_fits(self@, other@),
        ensures
            r@ == m3_mul(self@, other@),
    {
        Mat3 {
            xx: self.xx * other.xx + self.xy * other.yx + self.xz * other.zx,
            xy: self.xx * other.xy + self.xy * other.yy + self.xz * other.zy,
            xz: self.xx * other.xz + self.xy * other.yz + self.xz * other.zz,
            yx: self.yx * other.xx + self.yy * other.yx + self.yz * other.zx,
            yy: self.yx * other.xy + self.yy * other.yy + self.yz * other.zy,
            yz: self.yx * other.xz + self.yy * other.yz + self.yz * other.zz,
            zx: self.zx * other.xx + self.zy * other.yx + self.zz * other.zx,
            zy: self.zx * other.xy + self.zy * other.yy + self.zz * other.zy,
            zz: self.zx * other.xz + self.zy * other.yz + self.zz * other.zz,
        }
    }

    pub fn mul_v(&self, v: &Vec3) -> (r: Vec3)
        requires
            mul_v_fits(self@, v@),
        ensures
            r@ == m3_mul_v(self@, v@),
    {
        Vec3 {
            x: self.xx * v.x + self.xy * v.y + self.xz * v.z,
            y: self.yx * v.x + self.yy * v.y + self.yz * v.z,
            z: self.zx * v.x + self.zy * v.y + self.zz * v.z,
        }
    }

    /// True exactly when every entry lies in `[-limit, limit]`.
    pub fn within(&self, limit: i128) -> (r: bool)
        requires
            limit >= 0,
        ensures
            r == m3_bounded(self@, limit as int),
    {
        -limit <= self.xx && self.xx <= limit
            && -limit <= self.xy && self.xy <= limit
            && -limit <= self.xz && self.xz <= limit
            && -limit <= self.yx && self.yx <= limit
            && -limit <= self.yy && self.yy <= limit
            && -limit <= self.yz && self.yz <= limit
            && -limit <= self.zx && self.zx <= limit
            && -limit <= self.zy && self.zy <= limit
            && -limit <= self.zz && self.zz <= limit
    }

    /// Runtime check that `self / SCALE` is an exact orthogonal
    /// transformation. Entries must first be known to lie within `SCALE`
    /// (see [`Mat3::within`]) so the products cannot overflow.
    pub fn is_orthogonal(&self) -> (r: bool)
        requires
            m3_bounded(self@, SCALE as int),
        ensures
            r == m3_orthogonal(self@, SCALE as int),
    {
        proof {
            lemma_products_fit(self@);
        }
        let t = self.transpose();
        let left = self.mul(&t);
        let right = t.mul(self);
        let s2: i128 = SCALE * SCALE;
        let d = Mat3 {
            xx: s2, xy: 0, xz: 0,
            yx: 0, yy: s2, yz: 0,
            zx: 0, zy: 0, zz: s2,
        };
        let r = left == d && right == d;
        proof {
            assert(d@ == crate::math::m3_diag((SCALE * SCALE) as int));
            assert(r == m3_orthogonal(self@, SCALE as int));
        }
        r
    }
}

/// Products of entries bounded by `SCALE` fit comfortably in an `i128`.
proof fn lemma_products_fit(m: M3)
    requires
        m3_bounded(m, SCALE as int),
    ensures
        mul_fits(m, m3_transpose(m)),
        mul_fits(m3_transpose(m), m),
{
    lemma_mul_fits_from_bounds(m, m3_transpose(m), SCALE as int, SCALE as int);
    lemma_mul_fits_from_bounds(m3_transpose(m), m, SCALE as int, SCALE as int);
}

/// Entry bounds on two matrices are enough for their product to stay in
/// range, as long as three times the product of the bounds fits.
pub proof fn lemma_mul_fits_from_bounds(a: M3, b: M3, ba: int, bb: int)
    requires
        m3_bounded(a, ba),
        m3_bounded(b, bb),
        ba >= 0,
        bb >= 0,
        3 * (ba * bb) <= i128::MAX,
    ensures
        mul_fits(a, b),
{
    crate::math::lemma_m3_mul_bound(a, b, ba, bb);
    lemma_dot3_fits(a.xx, a.xy, a.xz, b.xx, b.yx, b.zx, ba, bb);
    lemma_dot3_fits(a.xx, a.xy, a.xz, b.xy, b.yy, b.zy, ba, bb);
    lemma_dot3_fits(a.xx, a.xy, a.xz, b.xz, b.yz, b.zz, ba, bb);
    lemma_dot3_fits(a.yx, a.yy, a.yz, b.xx, b.yx, b.zx, ba, bb);
    lemma_dot3_fits(a.yx, a.yy, a.yz, b.xy, b.yy, b.zy, ba, bb);
    lemma_dot3_fits(a.yx, a.yy, a.yz, b.xz, b.yz, b.zz, ba, bb);
    lemma_dot3_fits(a.zx, a.zy, a.zz, b.xx, b.yx, b.zx, ba, bb);
    lemma_dot3_fits(a.zx, a.zy, a.zz, b.xy, b.yy, b.zy, ba, bb);
    lemma_dot3_fits(a.zx, a.zy, a.zz, b.xz, b.yz, b.zz, ba, bb);
}

/// Bounds on the factors keep one row-column dot product in range.
pub proof fn lemma_dot3_fits(m1: int, m2: int, m3: int, v1: int, v2: int, v3: int, bm: int, bv: int)
    requires
        -bm <= m1 <= bm,
        -bm <= m2 <= bm,
        -bm <= m3 <= bm,
        -bv <= v1 <= bv,
        -bv <= v2 <= bv,
        -bv <= v3 <= bv,
        bm >= 0,
        bv >= 0,
        3 * (bm * bv) <= i128::MAX,
    ensures
        dot3_fits(m1, m2, m3, v1, v2, v3),
{
    crate::math::lemma_mul_bound(m1, v1, bm, bv);
    crate::math::lemma_mul_bound(m2, v2, bm, bv);
    crate::math::lemma_mul_bound(m3, v3, bm, bv);
}

/// Entry and component bounds are enough for a matrix application to stay in
/// range.
pub proof fn lemma_mul_v_fits_from_bounds(m: M3, v: V3, bm: int, bv: int)
    requires
        m3_bounded(m, bm),
        v3_bounded(v, bv),
        bm >= 0,
        bv >= 0,
        3 * (bm * bv) <= i128::MAX,
    ensures
        mul_v_fits(m, v),
{
    lemma_dot3_fits(m.xx, m.xy, m.xz, v.x, v.y, v.z, bm, bv);
    lemma_dot3_fits(m.yx, m.yy, m.yz, v.x, v.y, v.z, bm, bv);
    lemma_dot3_fits(m.zx, m.zy, m.zz, v.x, v.y, v.z, bm, bv);
}

/// Component bounds are enough for a cross product to stay in range.
pub proof fn lemma_cross_fits_from_bounds(a: V3, b: V3, ba: int, bb: int)
    requires
        v3_bounded(a, ba),
        v3_bounded(b, bb),
        ba >= 0,
        bb >= 0,
        2 * (ba * bb) <= i128::MAX,
    ensures
        cross_fits(a, b),
{
    crate::math::lemma_mul_bound(a.y, b.z, ba, bb);
    crate::math::lemma_mul_bound(a.z, b.y, ba, bb);
    crate::math::lemma_mul_bound(a.z, b.x, ba, bb);
    crate::math::lemma_mul_bound(a.x, b.z, ba, bb);
    crate::math::lemma_mul_bound(a.x, b.y, ba, bb);
    crate::math::lemma_mul_bound(a.y, b.x, ba, bb);
}

/// Component bounds are enough for a scalar multiple to stay in range.
pub proof fn lemma_scale_fits_from_bounds(k: int, a: V3, bk: int, ba: int)
    requires
        -bk <= k <= bk,
        v3_bounded(a, ba),
        bk >= 0,
        ba >= 0,
        bk * ba <= i128::MAX,
    ensures
        scale_fits(k, a),
{
    crate::math::lemma_mul_bound(k, a.x, bk, ba);
    crate::math::lemma_mul_bound(k, a.y, bk, ba);
    crate::math::lemma_mul_bound(k, a.z, bk, ba);
}

} // verus!
