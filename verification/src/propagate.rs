//! The per-frame propagation core: the reset step that clears every
//! non-persistent accumulator, and the aggregation step that sums every
//! descendant's contribution into its ancestor's accumulator.

use vstd::prelude::*;

use crate::accumulator::ForceAccumulator;
use crate::force::InternalForce;
use crate::linear::{
    lemma_cross_fits_from_bounds, lemma_mul_fits_from_bounds, lemma_mul_v_fits_from_bounds,
    lemma_scale_fits_from_bounds, Vec3,
};
use crate::math::{
    lemma_m3_mul_bound, lemma_m3_mul_v_bound, lemma_orthogonal_entry_bound, lemma_v3_cross_bound,
    lemma_v3_scale_bound, m3_bounded, m3_transpose, v3_add, v3_bounded, v3_cross, v3_scale,
    v3_sub, v3_zero, V3,
};
use crate::pose::{spec_relative_rotation, spec_relative_translation, Pose};
use crate::{SCALE, SCALE_SQ};

verus! {

/// Largest magnitude of a pose translation or center-of-mass component that
/// the aggregation step accepts.
pub const COORD_LIMIT: i128 = 1048576;

/// Largest magnitude of a declared force-vector component.
pub const FORCE_LIMIT: i128 = 1048576;

/// Largest magnitude of a strength multiplier.
pub const STRENGTH_LIMIT: i128 = 1024;

/// Most descendants one aggregation pass accepts.
pub const MAX_DESCENDANTS: usize = 1048576;

/// Largest magnitude of an effective (strength-scaled) force component:
/// `FORCE_LIMIT * STRENGTH_LIMIT`.
pub const EFFECTIVE_FORCE_LIMIT: i128 = 1073741824;

/// Entry bound of a relative rotation (a product of two orientations):
/// `3 * SCALE * SCALE`.
pub const REL_ROTATION_LIMIT: i128 = 12884901888;

/// Largest magnitude of one contribution's world-space force component:
/// `3 * REL_ROTATION_LIMIT * EFFECTIVE_FORCE_LIMIT`.
pub const CONTRIB_FORCE_LIMIT: i128 = 41505174165846491136;

/// Largest magnitude of a relative translation component:
/// `3 * SCALE * 2 * COORD_LIMIT`.
pub const REL_TRANSLATION_LIMIT: i128 = 412316860416;

/// Largest magnitude of a moment-arm component:
/// `REL_TRANSLATION_LIMIT + SCALE * COORD_LIMIT`.
pub const ARM_LIMIT: i128 = 481036337152;

/// Largest magnitude of one contribution's torque component:
/// `2 * ARM_LIMIT * CONTRIB_FORCE_LIMIT`.
pub const CONTRIB_TORQUE_LIMIT: i128 = 39930993907189226147146150969344;

/// Largest accumulator component the aggregation step accepts on entry:
/// `MAX_DESCENDANTS * CONTRIB_TORQUE_LIMIT`; a full pass then stays within
/// twice this.
pub const ACCUM_LIMIT: i128 = 41870681867224849996469922398830854144;

/// One entity as the propagation core sees it. `physical` says whether the
/// entity participates in rigid-body dynamics — only then may descendants
/// direct forces at it. The pose is world-space, refreshed by the host before
/// this core runs; the center of mass is in the entity's local frame, at
/// plain coordinate scale.
#[derive(Clone, Copy, Debug, PartialEq, Eq, Structural)]
pub struct Body {
    pub physical: bool,
    pub pose: Pose,
    pub center_of_mass: Vec3,
    pub accumulator: ForceAccumulator,
}

/// One entity that declares an internal force: a handle to its physical
/// ancestor, the force descriptor, and its own world-space pose. `physical`
/// says whether the declaring entity is itself physically simulated — it
/// must not be: the mechanism affects ancestors, never the declaring entity,
/// so a physical declarer is flagged and skipped.
#[derive(Clone, Copy, Debug, PartialEq, Eq, Structural)]
pub struct Descendant {
    pub ancestor: usize,
    pub descriptor: InternalForce,
    pub pose: Pose,
    pub physical: bool,
}

/// An advisory finding. None of these stops the simulation; each names the
/// descendant (and where it resolves, the ancestor) it was raised for.
#[derive(Clone, Copy, Debug, PartialEq, Eq, Structural)]
pub enum Diagnostic {
    /// The declaring entity is itself a physical ancestor: a no-op
    /// misconfiguration — the mechanism only affects ancestors, not the
    /// entity itself. The contribution is skipped.
    DescriptorOnPhysicalEntity { descendant: usize },
    /// The descendant's ancestor handle does not resolve to a physical body:
    /// it is out of range or names a non-physical entity. The contribution is
    /// skipped.
    UnresolvedAncestor { descendant: usize },
    /// The ancestor's accumulator is marked persistent while receiving
    /// propagated forces. The contribution is still applied; the resulting
    /// compounding is flagged every frame it recurs.
    PersistentAccumulator { descendant: usize, ancestor: usize },
    /// The composed scale between descendant and ancestor is not unit. Scale
    /// is not applied to the force; the configuration is flagged and the
    /// contribution proceeds as if the scale were unit.
    NonUnitScale { descendant: usize, ancestor: usize },
}

/// The descendant's handle resolves to a physical body.
pub open spec fn spec_resolves(d: Descendant, bodies: Seq<Body>) -> bool {
    d.ancestor < bodies.len() && bodies[d.ancestor as int].physical
}

/// The descendant contributes: it is not itself physical and its handle
/// resolves.
pub open spec fn spec_contributes(d: Descendant, bodies: Seq<Body>) -> bool {
    !d.physical && spec_resolves(d, bodies)
}

/// Every body field the aggregation step reads or adds to is within its
/// limit, and the pose is a well-formed orientation.
pub open spec fn body_bounded(b: Body) -> bool {
    &&& b.pose.wf()
    &&& v3_bounded(b.pose.translation@, COORD_LIMIT as int)
    &&& v3_bounded(b.center_of_mass@, COORD_LIMIT as int)
    &&& v3_bounded(b.accumulator.force@, ACCUM_LIMIT as int)
    &&& v3_bounded(b.accumulator.torque@, ACCUM_LIMIT as int)
}

/// Every descendant field the aggregation step reads is within its limit,
/// and the pose is a well-formed orientation.
pub open spec fn descendant_bounded(d: Descendant) -> bool {
    &&& d.pose.wf()
    &&& v3_bounded(d.pose.translation@, COORD_LIMIT as int)
    &&& v3_bounded(d.descriptor.spec_naive_force(), FORCE_LIMIT as int)
    &&& -STRENGTH_LIMIT <= d.descriptor.spec_strength() <= STRENGTH_LIMIT
}

/// The world-space force one descendant contributes to ancestor `a`, at
/// fixed-point scale `SCALE * SCALE`: the effective force, rotated by the
/// relative orientation when the descriptor is `Local` and taken as declared
/// when it is `Global`.
pub open spec fn spec_contribution_force(d: Descendant, a: Body) -> V3 {
    d.descriptor.spec_world_force(
        spec_relative_rotation(d.pose.rotation@, a.pose.rotation@),
        SCALE_SQ as int,
    )
}

/// The point where the contribution applies: the descendant's position in
/// the ancestor's local frame, at fixed-point scale `SCALE`.
pub open spec fn spec_application_point(d: Descendant, a: Body) -> V3 {
    spec_relative_translation(d.pose.translation@, a.pose.rotation@, a.pose.translation@)
}

/// The torque one descendant contributes about the ancestor's center of
/// mass: `(application_point - com) x force`, with the center of mass
/// brought to the application point's fixed-point scale.
pub open spec fn spec_contribution_torque(d: Descendant, a: Body) -> V3 {
    v3_cross(
        v3_sub(spec_application_point(d, a), v3_scale(SCALE as int, a.center_of_mass@)),
        spec_contribution_force(d, a),
    )
}

/// What `d` adds to body `j`'s net force: its contribution when it
/// contributes at all and its handle names exactly that body, zero
/// otherwise.
pub open spec fn spec_force_delta(d: Descendant, j: int, bodies: Seq<Body>) -> V3 {
    if spec_contributes(d, bodies) && d.ancestor == j {
        spec_contribution_force(d, bodies[j])
    } else {
        v3_zero()
    }
}

/// What `d` adds to body `j`'s net torque.
pub open spec fn spec_torque_delta(d: Descendant, j: int, bodies: Seq<Body>) -> V3 {
    if spec_contributes(d, bodies) && d.ancestor == j {
        spec_contribution_torque(d, bodies[j])
    } else {
        v3_zero()
    }
}

/// The sum of every descendant's force delta to body `j`, in iteration
/// order.
pub open spec fn spec_force_sum(descs: Seq<Descendant>, bodies: Seq<Body>, j: int) -> V3
    decreases descs.len(),
{
    if descs.len() == 0 {
        v3_zero()
    } else {
        v3_add(
            spec_force_sum(descs.drop_last(), bodies, j),
            spec_force_delta(descs.last(), j, bodies),
        )
    }
}

/// The sum of every descendant's torque delta to body `j`, in iteration
/// order.
pub open spec fn spec_torque_sum(descs: Seq<Descendant>, bodies: Seq<Body>, j: int) -> V3
    decreases descs.len(),
{
    if descs.len() == 0 {
        v3_zero()
    } else {
        v3_add(
            spec_torque_sum(descs.drop_last(), bodies, j),
            spec_torque_delta(descs.last(), j, bodies),
        )
    }
}

/// The diagnostics one descendant raises: a physical declarer or an
/// unresolved handle ends its processing; otherwise a persistent
/// accumulator is flagged first, then a non-unit relative scale.
pub open spec fn spec_diagnostics_for(d: Descendant, i: usize, bodies: Seq<Body>) -> Seq<Diagnostic> {
    if d.physical {
        seq![Diagnostic::DescriptorOnPhysicalEntity { descendant: i }]
    } else if !spec_resolves(d, bodies) {
        seq![Diagnostic::UnresolvedAncestor { descendant: i }]
    } else {
        let a = bodies[d.ancestor as int];
        (if a.accumulator.persistent {
            seq![Diagnostic::PersistentAccumulator { descendant: i, ancestor: d.ancestor }]
        } else {
            Seq::empty()
        }) + (if !d.pose.spec_scale_matches(a.pose) {
            seq![Diagnostic::NonUnitScale { descendant: i, ancestor: d.ancestor }]
        } else {
            Seq::empty()
        })
    }
}

/// The diagnostics of the first `n` descendants, in order.
pub open spec fn spec_diagnostics_upto(
    descs: Seq<Descendant>,
    bodies: Seq<Body>,
    n: int,
) -> Seq<Diagnostic>
    decreases n,
{
    if n <= 0 {
        Seq::empty()
    } else {
        spec_diagnostics_upto(descs, bodies, n - 1)
            + spec_diagnostics_for(descs[n - 1], (n - 1) as usize, bodies)
    }
}

/// Every diagnostic one aggregation pass raises, in order.
pub open spec fn spec_diagnostics(descs: Seq<Descendant>, bodies: Seq<Body>) -> Seq<Diagnostic> {
    spec_diagnostics_upto(descs, bodies, descs.len() as int)
}

/// The reset step: clears every non-persistent accumulator to zero, whatever
/// it held, and leaves persistent ones — and everything else — untouched.
/// Scheduled strictly before the aggregation step each frame; without it the
/// aggregation's pure summation would compound frame over frame.
pub fn manually_clear_forces(bodies: &mut Vec<Body>)
    ensures
        final(bodies)@.len() == old(bodies)@.len(),
        forall|j: int| 0 <= j < old(bodies)@.len() && old(bodies)@[j].accumulator.persistent
            ==> final(bodies)@[j] == old(bodies)@[j],
        forall|j: int| 0 <= j < old(bodies)@.len() && !old(bodies)@[j].accumulator.persistent
            ==> {
                &&& final(bodies)@[j].accumulator.force@ == v3_zero()
                &&& final(bodies)@[j].accumulator.torque@ == v3_zero()
                &&& final(bodies)@[j].accumulator.persistent
                    == old(bodies)@[j].accumulator.persistent
                &&& final(bodies)@[j].physical == old(bodies)@[j].physical
                &&& final(bodies)@[j].pose == old(bodies)@[j].pose
                &&& final(bodies)@[j].center_of_mass == old(bodies)@[j].center_of_mass
            },
{
    let ghost orig = bodies@;
    let n = bodies.len();
    for i in 0..n
        invariant
            n == bodies@.len(),
            bodies@.len() == orig.len(),
            forall|j: int| i <= j < orig.len() ==> bodies@[j] == orig[j],
            forall|j: int| 0 <= j < i && orig[j].accumulator.persistent
                ==> bodies@[j] == orig[j],
            forall|j: int| 0 <= j < i && !orig[j].accumulator.persistent
                ==> {
                    &&& bodies@[j].accumulator.force@ == v3_zero()
                    &&& bodies@[j].accumulator.torque@ == v3_zero()
                    &&& bodies@[j].accumulator.persistent == orig[j].accumulator.persistent
                    &&& bodies@[j].physical == orig[j].physical
                    &&& bodies@[j].pose == orig[j].pose
                    &&& bodies@[j].center_of_mass == orig[j].center_of_mass
                },
    {
        if !bodies[i].accumulator.persistent {
            let body = &mut bodies[i];
            body.accumulator.clear();
        }
    }
}

/// Extending a prefix sum by one descendant adds exactly that descendant's
/// delta.
pub proof fn lemma_sum_take_succ(descs: Seq<Descendant>, bodies: Seq<Body>, j: int, i: int)
    requires
        0 <= i < descs.len(),
    ensures
        spec_force_sum(descs.take(i + 1), bodies, j)
            == v3_add(spec_force_sum(descs.take(i), bodies, j), spec_force_delta(descs[i], j, bodies)),
        spec_torque_sum(descs.take(i + 1), bodies, j)
            == v3_add(spec_torque_sum(descs.take(i), bodies, j), spec_torque_delta(descs[i], j, bodies)),
{
    let s1 = descs.take(i + 1);
    assert(s1.drop_last() =~= descs.take(i));
    assert(s1.last() == descs[i]);
}

/// All the bounds one contribution's arithmetic needs, derived from the
/// bounds on its descendant and its ancestor.
proof fn lemma_contribution_bounds(d: Descendant, a: Body)
    requires
        descendant_bounded(d),
        body_bounded(a),
    ensures
        m3_bounded(m3_transpose(a.pose.rotation@), SCALE as int),
        m3_bounded(d.pose.rotation@, SCALE as int),
        m3_bounded(
            spec_relative_rotation(d.pose.rotation@, a.pose.rotation@),
            REL_ROTATION_LIMIT as int,
        ),
        v3_bounded(d.descriptor.spec_effective_force(), EFFECTIVE_FORCE_LIMIT as int),
        v3_bounded(spec_contribution_force(d, a), CONTRIB_FORCE_LIMIT as int),
        v3_bounded(spec_application_point(d, a), REL_TRANSLATION_LIMIT as int),
        v3_bounded(v3_scale(SCALE as int, a.center_of_mass@), SCALE as int * COORD_LIMIT as int),
        v3_bounded(
            v3_sub(spec_application_point(d, a), v3_scale(SCALE as int, a.center_of_mass@)),
            ARM_LIMIT as int,
        ),
        v3_bounded(spec_contribution_torque(d, a), CONTRIB_TORQUE_LIMIT as int),
{
    lemma_orthogonal_entry_bound(a.pose.rotation@, SCALE as int);
    lemma_orthogonal_entry_bound(d.pose.rotation@, SCALE as int);
    let at = m3_transpose(a.pose.rotation@);
    let rel = spec_relative_rotation(d.pose.rotation@, a.pose.rotation@);
    lemma_m3_mul_bound(at, d.pose.rotation@, SCALE as int, SCALE as int);
    let eff = d.descriptor.spec_effective_force();
    lemma_v3_scale_bound(
        d.descriptor.spec_strength(),
        d.descriptor.spec_naive_force(),
        STRENGTH_LIMIT as int,
        FORCE_LIMIT as int,
    );
    if d.descriptor.is_global() {
        lemma_v3_scale_bound(SCALE_SQ as int, eff, SCALE_SQ as int, EFFECTIVE_FORCE_LIMIT as int);
    } else {
        lemma_m3_mul_v_bound(rel, eff, REL_ROTATION_LIMIT as int, EFFECTIVE_FORCE_LIMIT as int);
    }
    let diff = v3_sub(d.pose.translation@, a.pose.translation@);
    lemma_m3_mul_v_bound(at, diff, SCALE as int, 2 * COORD_LIMIT as int);
    lemma_v3_scale_bound(SCALE as int, a.center_of_mass@, SCALE as int, COORD_LIMIT as int);
    let arm = v3_sub(spec_application_point(d, a), v3_scale(SCALE as int, a.center_of_mass@));
    lemma_v3_cross_bound(arm, spec_contribution_force(d, a), ARM_LIMIT as int, CONTRIB_FORCE_LIMIT as int);
}

/// The aggregation step. For each descendant whose handle resolves to a
/// physical body, the descendant's world-space force (at fixed-point scale
/// `SCALE * SCALE`) is added to that body's net force and the matching
/// torque about the body's center of mass to its net torque — a pure running
/// sum on top of whatever the accumulator held. A descendant whose handle
/// does not resolve contributes nothing. Diagnostics are returned for every
/// unresolved handle, every persistent accumulator that received a
/// contribution, and every non-unit relative scale; none of them stops the
/// pass.
#[verifier::loop_isolation(false)]
#[verifier::rlimit(60)]
pub fn propagate_internal_forces(bodies: &mut Vec<Body>, descendants: &Vec<Descendant>)
    -> (diagnostics: Vec<Diagnostic>)
    requires
        descendants@.len() <= MAX_DESCENDANTS,
        forall|j: int| 0 <= j < old(bodies)@.len() ==> body_bounded(#[trigger] old(bodies)@[j]),
        forall|i: int| 0 <= i < descendants@.len() ==> descendant_bounded(#[trigger] descendants@[i]),
    ensures
        final(bodies)@.len() == old(bodies)@.len(),
        forall|j: int| 0 <= j < old(bodies)@.len() && !old(bodies)@[j].physical
            ==> final(bodies)@[j] == old(bodies)@[j],
        forall|j: int| 0 <= j < old(bodies)@.len() && old(bodies)@[j].physical
            ==> {
                &&& final(bodies)@[j].physical == old(bodies)@[j].physical
                &&& final(bodies)@[j].pose == old(bodies)@[j].pose
                &&& final(bodies)@[j].center_of_mass == old(bodies)@[j].center_of_mass
                &&& final(bodies)@[j].accumulator.persistent
                    == old(bodies)@[j].accumulator.persistent
                &&& final(bodies)@[j].accumulator.force@ == v3_add(
                    old(bodies)@[j].accumulator.force@,
                    spec_force_sum(descendants@, old(bodies)@, j),
                )
                &&& final(bodies)@[j].accumulator.torque@ == v3_add(
                    old(bodies)@[j].accumulator.torque@,
                    spec_torque_sum(descendants@, old(bodies)@, j),
                )
            },
        diagnostics@ == spec_diagnostics(descendants@, old(bodies)@),
{
    let ghost orig = bodies@;
    let mut diagnostics: Vec<Diagnostic> = Vec::new();
    let n = descendants.len();
    for i in 0..n
        invariant
            bodies@.len() == orig.len(),
            forall|j: int| 0 <= j < orig.len() && !orig[j].physical
                ==> bodies@[j] == orig[j],
            forall|j: int| 0 <= j < orig.len() && orig[j].physical
                ==> {
                    &&& (#[trigger] bodies@[j]).physical == orig[j].physical
                    &&& bodies@[j].pose == orig[j].pose
                    &&& bodies@[j].center_of_mass == orig[j].center_of_mass
                    &&& bodies@[j].accumulator.persistent == orig[j].accumulator.persistent
                    &&& bodies@[j].accumulator.force@ == v3_add(
                        orig[j].accumulator.force@,
                        spec_force_sum(descendants@.take(i as int), orig, j),
                    )
                    &&& bodies@[j].accumulator.torque@ == v3_add(
                        orig[j].accumulator.torque@,
                        spec_torque_sum(descendants@.take(i as int), orig, j),
                    )
                    &&& v3_bounded(
                        bodies@[j].accumulator.force@,
                        ACCUM_LIMIT as int + (i as int) * (CONTRIB_FORCE_LIMIT as int),
                    )
                    &&& v3_bounded(
                        bodies@[j].accumulator.torque@,
                        ACCUM_LIMIT as int + (i as int) * (CONTRIB_TORQUE_LIMIT as int),
                    )
                },
            diagnostics@ == spec_diagnostics_upto(descendants@, orig, i as int),
    {
        let d = descendants[i];
        let contributes = !d.physical && d.ancestor < bodies.len() && bodies[d.ancestor].physical;
        proof {
            assert(contributes == spec_contributes(d, orig));
        }
        if contributes {
            let a_idx = d.ancestor;
            proof {
                assert(bodies@[a_idx as int].pose == orig[a_idx as int].pose);
                lemma_contribution_bounds(d, orig[a_idx as int]);
                lemma_mul_fits_from_bounds(
                    m3_transpose(orig[a_idx as int].pose.rotation@),
                    d.pose.rotation@,
                    SCALE as int,
                    SCALE as int,
                );
                lemma_mul_v_fits_from_bounds(
                    m3_transpose(orig[a_idx as int].pose.rotation@),
                    v3_sub(d.pose.translation@, orig[a_idx as int].pose.translation@),
                    SCALE as int,
                    2 * COORD_LIMIT as int,
                );
                lemma_scale_fits_from_bounds(
                    d.descriptor.spec_strength(),
                    d.descriptor.spec_naive_force(),
                    STRENGTH_LIMIT as int,
                    FORCE_LIMIT as int,
                );
                lemma_scale_fits_from_bounds(
                    SCALE_SQ as int,
                    d.descriptor.spec_effective_force(),
                    SCALE_SQ as int,
                    EFFECTIVE_FORCE_LIMIT as int,
                );
                lemma_mul_v_fits_from_bounds(
                    spec_relative_rotation(d.pose.rotation@, orig[a_idx as int].pose.rotation@),
                    d.descriptor.spec_effective_force(),
                    REL_ROTATION_LIMIT as int,
                    EFFECTIVE_FORCE_LIMIT as int,
                );
                lemma_scale_fits_from_bounds(
                    SCALE as int,
                    orig[a_idx as int].center_of_mass@,
                    SCALE as int,
                    COORD_LIMIT as int,
                );
                lemma_cross_fits_from_bounds(
                    v3_sub(
                        spec_application_point(d, orig[a_idx as int]),
                        v3_scale(SCALE as int, orig[a_idx as int].center_of_mass@),
                    ),
                    spec_contribution_force(d, orig[a_idx as int]),
                    ARM_LIMIT as int,
                    CONTRIB_FORCE_LIMIT as int,
                );
            }
            let persistent = bodies[a_idx].accumulator.persistent;
            if persistent {
                diagnostics.push(Diagnostic::PersistentAccumulator { descendant: i, ancestor: a_idx });
            }
            let scale_matches = d.pose.scale == bodies[a_idx].pose.scale;
            if !scale_matches {
                diagnostics.push(Diagnostic::NonUnitScale { descendant: i, ancestor: a_idx });
            }
            let rel = d.pose.reparented_to(&bodies[a_idx].pose);
            let eff = d.descriptor.compute_naive_force();
            let world_force = match d.descriptor {
                InternalForce::Global { .. } => eff.scale(SCALE_SQ),
                InternalForce::Local { .. } => rel.rotation.mul_v(&eff),
            };
            let com_scaled = bodies[a_idx].center_of_mass.scale(SCALE);
            proof {
                assert(world_force@ == spec_contribution_force(d, orig[a_idx as int]));
                assert(rel.translation@ == spec_application_point(d, orig[a_idx as int]));
            }
            let body = &mut bodies[a_idx];
            body.accumulator.apply_force_at_point(&world_force, &rel.translation, &com_scaled);
            proof {
                let ii = i as int;
                let ai = a_idx as int;
                assert forall|j: int| 0 <= j < orig.len() && orig[j].physical implies
                    spec_force_sum(descendants@.take(ii + 1), orig, j)
                        == v3_add(
                            spec_force_sum(descendants@.take(ii), orig, j),
                            spec_force_delta(d, j, orig),
                        )
                    && spec_torque_sum(descendants@.take(ii + 1), orig, j)
                        == v3_add(
                            spec_torque_sum(descendants@.take(ii), orig, j),
                            spec_torque_delta(d, j, orig),
                        ) by {
                    lemma_sum_take_succ(descendants@, orig, j, ii);
                }
                assert(spec_force_delta(d, ai, orig) == spec_contribution_force(d, orig[ai]));
                assert(spec_torque_delta(d, ai, orig) == spec_contribution_torque(d, orig[ai]));
                assert(scale_matches == d.pose.spec_scale_matches(orig[ai].pose));
                assert(spec_diagnostics_upto(descendants@, orig, ii + 1)
                    == spec_diagnostics_upto(descendants@, orig, ii)
                        + spec_diagnostics_for(descendants@[ii], ii as usize, orig));
                assert(diagnostics@ =~= spec_diagnostics_upto(descendants@, orig, ii + 1));
            }
        } else {
            if d.physical {
                diagnostics.push(Diagnostic::DescriptorOnPhysicalEntity { descendant: i });
            } else {
                diagnostics.push(Diagnostic::UnresolvedAncestor { descendant: i });
            }
            proof {
                assert forall|j: int| 0 <= j < orig.len() && orig[j].physical implies
                    spec_force_sum(descendants@.take(i as int + 1), orig, j)
                        == spec_force_sum(descendants@.take(i as int), orig, j)
                    && spec_torque_sum(descendants@.take(i as int + 1), orig, j)
                        == spec_torque_sum(descendants@.take(i as int), orig, j) by {
                    lemma_sum_take_succ(descendants@, orig, j, i as int);
                }
                assert(diagnostics@ =~= spec_diagnostics_upto(descendants@, orig, i as int + 1));
            }
        }
    }
    proof {
        assert(descendants@.take(descendants@.len() as int) =~= descendants@);
    }
    diagnostics
}

} // verus!
