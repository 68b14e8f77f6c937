//! The library's laws: order-independence of accumulation, frame invariance
//! and covariance of contributions, and how torque relates to the moment
//! arm. Each is stated over the spec functions the executable contracts use.

use vstd::prelude::*;
use vstd::seq_lib::{commutative_foldl, lemma_fold_left_permutation};

use crate::math::{
    lemma_cross_norm, lemma_m3_mul_assoc, lemma_m3_mul_diag_left, lemma_m3_mul_scale_right,
    lemma_m3_mul_v_compose, lemma_m3_mul_v_diag, lemma_m3_mul_v_scale, lemma_m3_mul_v_sub,
    lemma_m3_transpose_mul, m3_diag, m3_mul, m3_mul_v, m3_orthogonal, m3_scale, m3_transpose,
    v3_add, v3_cross, v3_dot, v3_scale, v3_sub, v3_zero, M3, V3,
};
use crate::pose::{spec_relative_rotation, spec_relative_translation};
use crate::propagate::{
    spec_application_point, spec_contribution_force, spec_contribution_torque, spec_force_delta,
    spec_force_sum, spec_torque_delta, spec_torque_sum, Body, Descendant,
};
use crate::SCALE_SQ;

verus! {

/// `spec_force_sum` is the fold of the per-descendant force deltas.
proof fn lemma_force_sum_as_fold(
    descs: Seq<Descendant>,
    bodies: Seq<Body>,
    j: int,
    f: spec_fn(V3, Descendant) -> V3,
)
    requires
        forall|acc: V3, d: Descendant| #[trigger] f(acc, d) == v3_add(acc, spec_force_delta(d, j, bodies)),
    ensures
        spec_force_sum(descs, bodies, j) == descs.fold_left(v3_zero(), f),
    decreases descs.len(),
{
    if descs.len() > 0 {
        lemma_force_sum_as_fold(descs.drop_last(), bodies, j, f);
    }
}

/// `spec_torque_sum` is the fold of the per-descendant torque deltas.
proof fn lemma_torque_sum_as_fold(
    descs: Seq<Descendant>,
    bodies: Seq<Body>,
    j: int,
    f: spec_fn(V3, Descendant) -> V3,
)
    requires
        forall|acc: V3, d: Descendant| #[trigger] f(acc, d) == v3_add(acc, spec_torque_delta(d, j, bodies)),
    ensures
        spec_torque_sum(descs, bodies, j) == descs.fold_left(v3_zero(), f),
    decreases descs.len(),
{
    if descs.len() > 0 {
        lemma_torque_sum_as_fold(descs.drop_last(), bodies, j, f);
    }
}

/// Accumulation is order-independent: two passes over the same descendants
/// in any two orders sum to the same net force and the same net torque on
/// every body. Together with the aggregation step's own contract — the final
/// accumulator is the old value plus this sum — no iteration order is
/// observable.
pub proof fn lemma_sum_order_irrelevant(
    descs1: Seq<Descendant>,
    descs2: Seq<Descendant>,
    bodies: Seq<Body>,
    j: int,
)
    requires
        descs1.to_multiset() == descs2.to_multiset(),
    ensures
        spec_force_sum(descs1, bodies, j) == spec_force_sum(descs2, bodies, j),
        spec_torque_sum(descs1, bodies, j) == spec_torque_sum(descs2, bodies, j),
{
    let f = |acc: V3, d: Descendant| v3_add(acc, spec_force_delta(d, j, bodies));
    let g = |acc: V3, d: Descendant| v3_add(acc, spec_torque_delta(d, j, bodies));
    assert(commutative_foldl(f)) by {
        assert forall|x: Descendant, y: Descendant, v: V3| #[trigger] f(f(v, x), y) == f(f(v, y), x) by {}
    }
    assert(commutative_foldl(g)) by {
        assert forall|x: Descendant, y: Descendant, v: V3| #[trigger] g(g(v, x), y) == g(g(v, y), x) by {}
    }
    lemma_force_sum_as_fold(descs1, bodies, j, f);
    lemma_force_sum_as_fold(descs2, bodies, j, f);
    lemma_torque_sum_as_fold(descs1, bodies, j, g);
    lemma_torque_sum_as_fold(descs2, bodies, j, g);
    lemma_fold_left_permutation(descs1, descs2, f, v3_zero());
    lemma_fold_left_permutation(descs1, descs2, g, v3_zero());
}

/// A `Global` descriptor's contribution to the net force is the effective
/// force itself (at accumulator scale), whatever the poses of the descendant
/// and the ancestor: rotating either or both changes nothing about it.
pub proof fn lemma_global_frame_invariance(d1: Descendant, d2: Descendant, a1: Body, a2: Body)
    requires
        d1.descriptor == d2.descriptor,
        d1.descriptor.is_global(),
    ensures
        spec_contribution_force(d1, a1)
            == v3_scale(SCALE_SQ as int, d1.descriptor.spec_effective_force()),
        spec_contribution_force(d1, a1) == spec_contribution_force(d2, a2),
{
}

/// Rotating both world poses by one rotation `g` (of scale `s`) leaves the
/// relative pose unchanged up to the representation factor `s * s`: the same
/// relative rotation and the same relative translation, carried at the
/// composed fixed-point scale.
pub proof fn lemma_joint_rotation_preserves_relative_pose(
    g: M3,
    s: int,
    ra: M3,
    rc: M3,
    ta: V3,
    tc: V3,
)
    requires
        m3_orthogonal(g, s),
    ensures
        spec_relative_rotation(m3_mul(g, rc), m3_mul(g, ra))
            == m3_scale(s * s, spec_relative_rotation(rc, ra)),
        spec_relative_translation(m3_mul_v(g, tc), m3_mul(g, ra), m3_mul_v(g, ta))
            == v3_scale(s * s, spec_relative_translation(tc, ra, ta)),
{
    let gt = m3_transpose(g);
    let rat = m3_transpose(ra);
    lemma_m3_transpose_mul(g, ra);
    // Rotation part: (g ra)^T (g rc) = ra^T (g^T g) rc = s^2 (ra^T rc).
    lemma_m3_mul_assoc(rat, gt, m3_mul(g, rc));
    lemma_m3_mul_assoc(gt, g, rc);
    assert(m3_mul(gt, g) == m3_diag(s * s));
    lemma_m3_mul_diag_left(s * s, rc);
    lemma_m3_mul_scale_right(s * s, rat, rc);
    // Translation part: (g ra)^T (g tc - g ta) = ra^T (g^T g) (tc - ta).
    let diff = v3_sub(tc, ta);
    lemma_m3_mul_v_sub(g, tc, ta);
    lemma_m3_mul_v_compose(rat, gt, m3_mul_v(g, diff));
    lemma_m3_mul_v_compose(gt, g, diff);
    lemma_m3_mul_v_diag(s * s, diff);
    lemma_m3_mul_v_scale(s * s, rat, diff);
}

/// Local-frame covariance: a `Local` descriptor's contribution depends on
/// the descendant's orientation only *relative to* the ancestor. Rotating
/// descendant and ancestor together by the same rotation `g` of scale `s`
/// yields the same contribution force, carried at the extra representation
/// factor `s * s` that the rotated poses introduce.
pub proof fn lemma_local_frame_covariance(
    d1: Descendant,
    a1: Body,
    d2: Descendant,
    a2: Body,
    g: M3,
    s: int,
)
    requires
        m3_orthogonal(g, s),
        d2.descriptor == d1.descriptor,
        d1.descriptor.is_local(),
        d2.pose.rotation@ == m3_mul(g, d1.pose.rotation@),
        a2.pose.rotation@ == m3_mul(g, a1.pose.rotation@),
    ensures
        spec_relative_rotation(d2.pose.rotation@, a2.pose.rotation@)
            == m3_scale(s * s, spec_relative_rotation(d1.pose.rotation@, a1.pose.rotation@)),
        spec_contribution_force(d2, a2) == v3_scale(s * s, spec_contribution_force(d1, a1)),
{
    lemma_joint_rotation_preserves_relative_pose(
        g,
        s,
        a1.pose.rotation@,
        d1.pose.rotation@,
        v3_zero(),
        v3_zero(),
    );
    let rel1 = spec_relative_rotation(d1.pose.rotation@, a1.pose.rotation@);
    let eff = d1.descriptor.spec_effective_force();
    crate::math::lemma_m3_scale_mul_v(s * s, rel1, eff);
}

/// A contribution whose application point coincides with the (scaled)
/// center of mass exerts no torque.
pub proof fn lemma_torque_zero_at_com(d: Descendant, a: Body)
    requires
        spec_application_point(d, a)
            == v3_scale(crate::SCALE as int, a.center_of_mass@),
    ensures
        spec_contribution_torque(d, a) == v3_zero(),
{
}

/// Moving the application point away from the center of mass perpendicular
/// to the force produces torque of squared magnitude `|arm|^2 * |force|^2`
/// — magnitude `|arm| * |force|`.
pub proof fn lemma_torque_magnitude_perpendicular(arm: V3, f: V3)
    requires
        v3_dot(arm, f) == 0,
    ensures
        v3_dot(v3_cross(arm, f), v3_cross(arm, f)) == v3_dot(arm, arm) * v3_dot(f, f),
{
    lemma_cross_norm(arm, f);
}

} // verus!
