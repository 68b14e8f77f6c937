//! Exact mathematical model of the propagation algebra: three-component
//! integer vectors, 3x3 integer matrices, and the lemmas the library's
//! contracts rest on.
//!
//! An orientation is modelled as a matrix `m` together with a positive scale
//! `s`: the rotation it stands for is `m / s`, and `m` is orthogonal exactly
//! when `m * transpose(m) == transpose(m) * m == diag(s * s)`.

use vstd::prelude::*;

verus! {

/// A three-component vector over the mathematical integers.
pub ghost struct V3 {
    pub x: int,
    pub y: int,
    pub z: int,
}

/// A 3x3 matrix over the mathematical integers, row major: `xy` is the entry
/// in row x, column y.
pub ghost struct M3 {
    pub xx: int, pub xy: int, pub xz: int,
    pub yx: int, pub yy: int, pub yz: int,
    pub zx: int, pub zy: int, pub zz: int,
}

pub open spec fn v3_zero() -> V3 {
    V3 { x: 0, y: 0, z: 0 }
}

pub open spec fn v3_add(a: V3, b: V3) -> V3 {
    V3 { x: a.x + b.x, y: a.y + b.y, z: a.z + b.z }
}

pub open spec fn v3_sub(a: V3, b: V3) -> V3 {
    V3 { x: a.x - b.x, y: a.y - b.y, z: a.z - b.z }
}

pub open spec fn v3_scale(k: int, a: V3) -> V3 {
    V3 { x: k * a.x, y: k * a.y, z: k * a.z }
}

pub open spec fn v3_dot(a: V3, b: V3) -> int {
    a.x * b.x + a.y * b.y + a.z * b.z
}

pub open spec fn v3_cross(a: V3, b: V3) -> V3 {
    V3 {
        x: a.y * b.z - a.z * b.y,
        y: a.z * b.x - a.x * b.z,
        z: a.x * b.y - a.y * b.x,
    }
}

/// Every component of `a` lies in `[-b, b]`.
pub open spec fn v3_bounded(a: V3, b: int) -> bool {
    -b <= a.x <= b && -b <= a.y <= b && -b <= a.z <= b
}

pub open spec fn m3_transpose(m: M3) -> M3 {
    M3 {
        xx: m.xx, xy: m.yx, xz: m.zx,
        yx: m.xy, yy: m.yy, yz: m.zy,
        zx: m.xz, zy: m.yz, zz: m.zz,
    }
}

/// The diagonal matrix with `k` on the diagonal.
pub open spec fn m3_diag(k: int) -> M3 {
    M3 {
        xx: k, xy: 0, xz: 0,
        yx: 0, yy: k, yz: 0,
        zx: 0, zy: 0, zz: k,
    }
}

pub open spec fn m3_scale(k: int, m: M3) -> M3 {
    M3 {
        xx: k * m.xx, xy: k * m.xy, xz: k * m.xz,
        yx: k * m.yx, yy: k * m.yy, yz: k * m.yz,
        zx: k * m.zx, zy: k * m.zy, zz: k * m.zz,
    }
}

pub open spec fn m3_mul(a: M3, b: M3) -> M3 {
    M3 {
        xx: a.xx * b.xx + a.xy * b.yx + a.xz * b.zx,
        xy: a.xx * b.xy + a.xy * b.yy + a.xz * b.zy,
        xz: a.xx * b.xz + a.xy * b.yz + a.xz * b.zz,
        yx: a.yx * b.xx + a.yy * b.yx + a.yz * b.zx,
        yy: a.yx * b.xy + a.yy * b.yy + a.yz * b.zy,
        yz: a.yx * b.xz + a.yy * b.yz + a.yz * b.zz,
        zx: a.zx * b.xx + a.zy * b.yx + a.zz * b.zx,
        zy: a.zx * b.xy + a.zy * b.yy + a.zz * b.zy,
        zz: a.zx * b.xz + a.zy * b.yz + a.zz * b.zz,
    }
}

pub open spec fn m3_mul_v(m: M3, v: V3) -> V3 {
    V3 {
        x: m.xx * v.x + m.xy * v.y + m.xz * v.z,
        y: m.yx * v.x + m.yy * v.y + m.yz * v.z,
        z: m.zx * v.x + m.zy * v.y + m.zz * v.z,
    }
}

/// Every entry of `m` lies in `[-b, b]`.
pub open spec fn m3_bounded(m: M3, b: int) -> bool {
    &&& -b <= m.xx <= b && -b <= m.xy <= b && -b <= m.xz <= b
    &&& -b <= m.yx <= b && -b <= m.yy <= b && -b <= m.yz <= b
    &&& -b <= m.zx <= b && -b <= m.zy <= b && -b <= m.zz <= b
}

/// `m / s` is an orthogonal transformation: rows and columns are mutually
/// orthogonal with squared length `s * s`.
pub open spec fn m3_orthogonal(m: M3, s: int) -> bool {
    &&& s > 0
    &&& m3_mul(m, m3_transpose(m)) == m3_diag(s * s)
    &&& m3_mul(m3_transpose(m), m) == m3_diag(s * s)
}

/// Bound on a product from bounds on its factors.
pub proof fn lemma_mul_bound(a: int, b: int, ca: int, cb: int)
    by (nonlinear_arith)
    requires
        -ca <= a <= ca,
        -cb <= b <= cb,
    ensures
        -(ca * cb) <= a * b <= ca * cb,
{
}

/// An orthogonal matrix of scale `s` has every entry in `[-s, s]`: each row's
/// squared length is `s * s`, so no single entry can exceed `s`.
pub proof fn lemma_orthogonal_entry_bound(m: M3, s: int)
    requires
        m3_orthogonal(m, s),
    ensures
        m3_bounded(m, s),
{
    assert(m.xx * m.xx + m.xy * m.xy + m.xz * m.xz == s * s);
    assert(m.yx * m.yx + m.yy * m.yy + m.yz * m.yz == s * s);
    assert(m.zx * m.zx + m.zy * m.zy + m.zz * m.zz == s * s);
    lemma_entry_bound_from_row(m.xx, m.xy, m.xz, s);
    lemma_entry_bound_from_row(m.xy, m.xx, m.xz, s);
    lemma_entry_bound_from_row(m.xz, m.xx, m.xy, s);
    lemma_entry_bound_from_row(m.yx, m.yy, m.yz, s);
    lemma_entry_bound_from_row(m.yy, m.yx, m.yz, s);
    lemma_entry_bound_from_row(m.yz, m.yx, m.yy, s);
    lemma_entry_bound_from_row(m.zx, m.zy, m.zz, s);
    lemma_entry_bound_from_row(m.zy, m.zx, m.zz, s);
    lemma_entry_bound_from_row(m.zz, m.zx, m.zy, s);
}

/// If `a*a + b*b + c*c == s*s` with `s > 0` then `-s <= a <= s`.
proof fn lemma_entry_bound_from_row(a: int, b: int, c: int, s: int)
    by (nonlinear_arith)
    requires
        s > 0,
        a * a + b * b + c * c == s * s,
    ensures
        -s <= a <= s,
{
}

/// One entry of the associativity identity: a row of the left factor, the
/// whole middle matrix, and a column of the right factor.
proof fn lemma_assoc_entry(
    a1: int, a2: int, a3: int,
    b11: int, b12: int, b13: int,
    b21: int, b22: int, b23: int,
    b31: int, b32: int, b33: int,
    c1: int, c2: int, c3: int,
)
    ensures
        (a1 * b11 + a2 * b21 + a3 * b31) * c1
            + (a1 * b12 + a2 * b22 + a3 * b32) * c2
            + (a1 * b13 + a2 * b23 + a3 * b33) * c3
            == a1 * (b11 * c1 + b12 * c2 + b13 * c3)
                + a2 * (b21 * c1 + b22 * c2 + b23 * c3)
                + a3 * (b31 * c1 + b32 * c2 + b33 * c3),
{
    broadcast use vstd::arithmetic::mul::group_mul_properties;
}

/// Matrix multiplication is associative.
pub proof fn lemma_m3_mul_assoc(a: M3, b: M3, c: M3)
    ensures
        m3_mul(m3_mul(a, b), c) == m3_mul(a, m3_mul(b, c)),
{
    lemma_assoc_entry(a.xx, a.xy, a.xz, b.xx, b.xy, b.xz, b.yx, b.yy, b.yz, b.zx, b.zy, b.zz, c.xx, c.yx, c.zx);
    lemma_assoc_entry(a.xx, a.xy, a.xz, b.xx, b.xy, b.xz, b.yx, b.yy, b.yz, b.zx, b.zy, b.zz, c.xy, c.yy, c.zy);
    lemma_assoc_entry(a.xx, a.xy, a.xz, b.xx, b.xy, b.xz, b.yx, b.yy, b.yz, b.zx, b.zy, b.zz, c.xz, c.yz, c.zz);
    lemma_assoc_entry(a.yx, a.yy, a.yz, b.xx, b.xy, b.xz, b.yx, b.yy, b.yz, b.zx, b.zy, b.zz, c.xx, c.yx, c.zx);
    lemma_assoc_entry(a.yx, a.yy, a.yz, b.xx, b.xy, b.xz, b.yx, b.yy, b.yz, b.zx, b.zy, b.zz, c.xy, c.yy, c.zy);
    lemma_assoc_entry(a.yx, a.yy, a.yz, b.xx, b.xy, b.xz, b.yx, b.yy, b.yz, b.zx, b.zy, b.zz, c.xz, c.yz, c.zz);
    lemma_assoc_entry(a.zx, a.zy, a.zz, b.xx, b.xy, b.xz, b.yx, b.yy, b.yz, b.zx, b.zy, b.zz, c.xx, c.yx, c.zx);
    lemma_assoc_entry(a.zx, a.zy, a.zz, b.xx, b.xy, b.xz, b.yx, b.yy, b.yz, b.zx, b.zy, b.zz, c.xy, c.yy, c.zy);
    lemma_assoc_entry(a.zx, a.zy, a.zz, b.xx, b.xy, b.xz, b.yx, b.yy, b.yz, b.zx, b.zy, b.zz, c.xz, c.yz, c.zz);
}

/// Transposition reverses a product.
pub proof fn lemma_m3_transpose_mul(a: M3, b: M3)
    by (nonlinear_arith)
    ensures
        m3_transpose(m3_mul(a, b)) == m3_mul(m3_transpose(b), m3_transpose(a)),
{
}

/// Multiplying by a diagonal matrix on the left scales every entry.
pub proof fn lemma_m3_mul_diag_left(k: int, m: M3)
    by (nonlinear_arith)
    ensures
        m3_mul(m3_diag(k), m) == m3_scale(k, m),
{
}

/// A scalar factor inside a three-term product sum moves out front.
proof fn lemma_scale_entry(k: int, a1: int, a2: int, a3: int, b1: int, b2: int, b3: int)
    ensures
        a1 * (k * b1) + a2 * (k * b2) + a3 * (k * b3) == k * (a1 * b1 + a2 * b2 + a3 * b3),
        (k * a1) * b1 + (k * a2) * b2 + (k * a3) * b3 == k * (a1 * b1 + a2 * b2 + a3 * b3),
{
    broadcast use vstd::arithmetic::mul::group_mul_properties;
}

/// A three-term product sum distributes over a componentwise difference.
proof fn lemma_sub_entry(c1: int, c2: int, c3: int, x1: int, x2: int, x3: int, y1: int, y2: int, y3: int)
    ensures
        c1 * (x1 - y1) + c2 * (x2 - y2) + c3 * (x3 - y3)
            == (c1 * x1 + c2 * x2 + c3 * x3) - (c1 * y1 + c2 * y2 + c3 * y3),
{
    broadcast use vstd::arithmetic::mul::group_mul_properties;
}

/// A scalar factor moves through a matrix product.
pub proof fn lemma_m3_mul_scale_right(k: int, a: M3, b: M3)
    ensures
        m3_mul(a, m3_scale(k, b)) == m3_scale(k, m3_mul(a, b)),
{
    lemma_scale_entry(k, a.xx, a.xy, a.xz, b.xx, b.yx, b.zx);
    lemma_scale_entry(k, a.xx, a.xy, a.xz, b.xy, b.yy, b.zy);
    lemma_scale_entry(k, a.xx, a.xy, a.xz, b.xz, b.yz, b.zz);
    lemma_scale_entry(k, a.yx, a.yy, a.yz, b.xx, b.yx, b.zx);
    lemma_scale_entry(k, a.yx, a.yy, a.yz, b.xy, b.yy, b.zy);
    lemma_scale_entry(k, a.yx, a.yy, a.yz, b.xz, b.yz, b.zz);
    lemma_scale_entry(k, a.zx, a.zy, a.zz, b.xx, b.yx, b.zx);
    lemma_scale_entry(k, a.zx, a.zy, a.zz, b.xy, b.yy, b.zy);
    lemma_scale_entry(k, a.zx, a.zy, a.zz, b.xz, b.yz, b.zz);
}

/// Applying a product of matrices equals applying them one after the other.
pub proof fn lemma_m3_mul_v_compose(a: M3, b: M3, v: V3)
    ensures
        m3_mul_v(m3_mul(a, b), v) == m3_mul_v(a, m3_mul_v(b, v)),
{
    lemma_assoc_entry(a.xx, a.xy, a.xz, b.xx, b.xy, b.xz, b.yx, b.yy, b.yz, b.zx, b.zy, b.zz, v.x, v.y, v.z);
    lemma_assoc_entry(a.yx, a.yy, a.yz, b.xx, b.xy, b.xz, b.yx, b.yy, b.yz, b.zx, b.zy, b.zz, v.x, v.y, v.z);
    lemma_assoc_entry(a.zx, a.zy, a.zz, b.xx, b.xy, b.xz, b.yx, b.yy, b.yz, b.zx, b.zy, b.zz, v.x, v.y, v.z);
}

/// A matrix acts linearly on vector differences.
pub proof fn lemma_m3_mul_v_sub(m: M3, a: V3, b: V3)
    ensures
        m3_mul_v(m, v3_sub(a, b)) == v3_sub(m3_mul_v(m, a), m3_mul_v(m, b)),
{
    lemma_sub_entry(m.xx, m.xy, m.xz, a.x, a.y, a.z, b.x, b.y, b.z);
    lemma_sub_entry(m.yx, m.yy, m.yz, a.x, a.y, a.z, b.x, b.y, b.z);
    lemma_sub_entry(m.zx, m.zy, m.zz, a.x, a.y, a.z, b.x, b.y, b.z);
}

/// A scalar factor on the matrix becomes a scalar factor on the image.
pub proof fn lemma_m3_scale_mul_v(k: int, m: M3, v: V3)
    ensures
        m3_mul_v(m3_scale(k, m), v) == v3_scale(k, m3_mul_v(m, v)),
{
    lemma_scale_entry(k, m.xx, m.xy, m.xz, v.x, v.y, v.z);
    lemma_scale_entry(k, m.yx, m.yy, m.yz, v.x, v.y, v.z);
    lemma_scale_entry(k, m.zx, m.zy, m.zz, v.x, v.y, v.z);
}

/// Expansion of a squared difference.
#[verifier::rlimit(50)]
proof fn lemma_square_diff(p: int, q: int)
    by (nonlinear_arith)
    ensures
        (p - q) * (p - q) == p * p - 2 * (p * q) + q * q,
{
}

/// Regrouping of degree-four monomials built from two products.
#[verifier::rlimit(50)]
proof fn lemma_regroup_products(p: int, q: int, r: int, s: int)
    by (nonlinear_arith)
    ensures
        (p * q) * (p * q) == (p * p) * (q * q),
        (p * q) * (r * s) == (p * s) * (r * q),
{
}

/// Expansion of a product of two three-term sums.
proof fn lemma_expand_product_sums(x1: int, x2: int, x3: int, y1: int, y2: int, y3: int)
    ensures
        (x1 + x2 + x3) * (y1 + y2 + y3)
            == x1 * y1 + x1 * y2 + x1 * y3
                + x2 * y1 + x2 * y2 + x2 * y3
                + x3 * y1 + x3 * y2 + x3 * y3,
{
    broadcast use vstd::arithmetic::mul::group_mul_properties;
}

/// A scalar factor on the vector becomes a scalar factor on the image.
pub proof fn lemma_m3_mul_v_scale(k: int, m: M3, v: V3)
    ensures
        m3_mul_v(m, v3_scale(k, v)) == v3_scale(k, m3_mul_v(m, v)),
{
    lemma_scale_entry(k, m.xx, m.xy, m.xz, v.x, v.y, v.z);
    lemma_scale_entry(k, m.yx, m.yy, m.yz, v.x, v.y, v.z);
    lemma_scale_entry(k, m.zx, m.zy, m.zz, v.x, v.y, v.z);
}

/// A diagonal matrix acts as a scalar.
pub proof fn lemma_m3_mul_v_diag(k: int, v: V3)
    ensures
        m3_mul_v(m3_diag(k), v) == v3_scale(k, v),
{
    vstd::arithmetic::mul::lemma_mul_basics(v.x);
    vstd::arithmetic::mul::lemma_mul_basics(v.y);
    vstd::arithmetic::mul::lemma_mul_basics(v.z);
}

/// Lagrange's identity in three dimensions: the squared length of a cross
/// product is the product of the squared lengths minus the squared dot
/// product.
pub proof fn lemma_cross_norm(a: V3, b: V3)
    ensures
        v3_dot(v3_cross(a, b), v3_cross(a, b))
            == v3_dot(a, a) * v3_dot(b, b) - v3_dot(a, b) * v3_dot(a, b),
{
    broadcast use vstd::arithmetic::mul::group_mul_properties;

    let p1: int = a.y * b.z;
    let q1: int = a.z * b.y;
    let p2: int = a.z * b.x;
    let q2: int = a.x * b.z;
    let p3: int = a.x * b.y;
    let q3: int = a.y * b.x;
    lemma_square_diff(p1, q1);
    lemma_square_diff(p2, q2);
    lemma_square_diff(p3, q3);
    // Each square and each mixed product, regrouped into the monomials that
    // the right-hand side expands to.
    lemma_regroup_products(a.y, b.z, a.z, b.y);
    lemma_regroup_products(a.z, b.y, a.y, b.z);
    lemma_regroup_products(a.z, b.x, a.x, b.z);
    lemma_regroup_products(a.x, b.z, a.z, b.x);
    lemma_regroup_products(a.x, b.y, a.y, b.x);
    lemma_regroup_products(a.y, b.x, a.x, b.y);
    // The two factors of the right-hand side, expanded term by term.
    lemma_expand_product_sums(a.x * a.x, a.y * a.y, a.z * a.z, b.x * b.x, b.y * b.y, b.z * b.z);
    lemma_expand_product_sums(a.x * b.x, a.y * b.y, a.z * b.z, a.x * b.x, a.y * b.y, a.z * b.z);
    lemma_regroup_products(a.x, b.x, a.x, b.x);
    lemma_regroup_products(a.y, b.y, a.y, b.y);
    lemma_regroup_products(a.z, b.z, a.z, b.z);
    lemma_regroup_products(a.x, b.x, a.y, b.y);
    lemma_regroup_products(a.y, b.y, a.x, b.x);
    lemma_regroup_products(a.x, b.x, a.z, b.z);
    lemma_regroup_products(a.z, b.z, a.x, b.x);
    lemma_regroup_products(a.y, b.y, a.z, b.z);
    lemma_regroup_products(a.z, b.z, a.y, b.y);
}

/// The image of a vector under a bounded matrix is bounded: each component is
/// a sum of three products.
pub proof fn lemma_m3_mul_v_bound(m: M3, v: V3, bm: int, bv: int)
    requires
        m3_bounded(m, bm),
        v3_bounded(v, bv),
        bm >= 0,
        bv >= 0,
    ensures
        v3_bounded(m3_mul_v(m, v), 3 * (bm * bv)),
{
    lemma_mul_bound(m.xx, v.x, bm, bv);
    lemma_mul_bound(m.xy, v.y, bm, bv);
    lemma_mul_bound(m.xz, v.z, bm, bv);
    lemma_mul_bound(m.yx, v.x, bm, bv);
    lemma_mul_bound(m.yy, v.y, bm, bv);
    lemma_mul_bound(m.yz, v.z, bm, bv);
    lemma_mul_bound(m.zx, v.x, bm, bv);
    lemma_mul_bound(m.zy, v.y, bm, bv);
    lemma_mul_bound(m.zz, v.z, bm, bv);
}

/// Every entry of a product of bounded matrices is a sum of three products.
pub proof fn lemma_m3_mul_bound(a: M3, b: M3, ba: int, bb: int)
    requires
        m3_bounded(a, ba),
        m3_bounded(b, bb),
        ba >= 0,
        bb >= 0,
    ensures
        m3_bounded(m3_mul(a, b), 3 * (ba * bb)),
{
    lemma_mul_bound(a.xx, b.xx, ba, bb);
    lemma_mul_bound(a.xy, b.yx, ba, bb);
    lemma_mul_bound(a.xz, b.zx, ba, bb);
    lemma_mul_bound(a.xx, b.xy, ba, bb);
    lemma_mul_bound(a.xy, b.yy, ba, bb);
    lemma_mul_bound(a.xz, b.zy, ba, bb);
    lemma_mul_bound(a.xx, b.xz, ba, bb);
    lemma_mul_bound(a.xy, b.yz, ba, bb);
    lemma_mul_bound(a.xz, b.zz, ba, bb);
    lemma_mul_bound(a.yx, b.xx, ba, bb);
    lemma_mul_bound(a.yy, b.yx, ba, bb);
    lemma_mul_bound(a.yz, b.zx, ba, bb);
    lemma_mul_bound(a.yx, b.xy, ba, bb);
    lemma_mul_bound(a.yy, b.yy, ba, bb);
    lemma_mul_bound(a.yz, b.zy, ba, bb);
    lemma_mul_bound(a.yx, b.xz, ba, bb);
    lemma_mul_bound(a.yy, b.yz, ba, bb);
    lemma_mul_bound(a.yz, b.zz, ba, bb);
    lemma_mul_bound(a.zx, b.xx, ba, bb);
    lemma_mul_bound(a.zy, b.yx, ba, bb);
    lemma_mul_bound(a.zz, b.zx, ba, bb);
    lemma_mul_bound(a.zx, b.xy, ba, bb);
    lemma_mul_bound(a.zy, b.yy, ba, bb);
    lemma_mul_bound(a.zz, b.zy, ba, bb);
    lemma_mul_bound(a.zx, b.xz, ba, bb);
    lemma_mul_bound(a.zy, b.yz, ba, bb);
    lemma_mul_bound(a.zz, b.zz, ba, bb);
}

/// The cross product of bounded vectors is bounded: each component is a
/// difference of two products.
pub proof fn lemma_v3_cross_bound(a: V3, b: V3, ba: int, bb: int)
    requires
        v3_bounded(a, ba),
        v3_bounded(b, bb),
        ba >= 0,
        bb >= 0,
    ensures
        v3_bounded(v3_cross(a, b), 2 * (ba * bb)),
{
    lemma_mul_bound(a.y, b.z, ba, bb);
    lemma_mul_bound(a.z, b.y, ba, bb);
    lemma_mul_bound(a.z, b.x, ba, bb);
    lemma_mul_bound(a.x, b.z, ba, bb);
    lemma_mul_bound(a.x, b.y, ba, bb);
    lemma_mul_bound(a.y, b.x, ba, bb);
}

/// Scaling a bounded vector is bounded.
pub proof fn lemma_v3_scale_bound(k: int, a: V3, bk: int, ba: int)
    requires
        -bk <= k <= bk,
        v3_bounded(a, ba),
        bk >= 0,
        ba >= 0,
    ensures
        v3_bounded(v3_scale(k, a), bk * ba),
{
    lemma_mul_bound(k, a.x, bk, ba);
    lemma_mul_bound(k, a.y, bk, ba);
    lemma_mul_bound(k, a.z, bk, ba);
}

} // verus!
