use internal_forces::accumulator::ForceAccumulator;
use internal_forces::force::InternalForce;
use internal_forces::linear::{Mat3, Vec3};
use internal_forces::pose::Pose;
use internal_forces::propagate::{
    manually_clear_forces, propagate_internal_forces, Body, Descendant, Diagnostic,
};
use internal_forces::{ParentingSystemSet, SCALE, SCALE_SQ};

fn dynamic_body(pose: Pose) -> Body {
    Body {
        physical: true,
        pose,
        center_of_mass: Vec3::zero(),
        accumulator: ForceAccumulator::new(false),
    }
}

/// A rotation of 180 degrees about the vertical (Y) axis, at fixed-point
/// scale: X and Z flip sign, Y is kept.
fn rot_y_180() -> Mat3 {
    Mat3::new(-SCALE, 0, 0, 0, SCALE, 0, 0, 0, -SCALE)
}

#[test]
fn scenario_local_at_origin() {
    // Ancestor at the origin, descendant at the ancestor's origin with zero
    // relative rotation and a local force of (0, 300, 0).
    let mut bodies = vec![dynamic_body(Pose::identity())];
    let descendants = vec![Descendant {
        ancestor: 0,
        descriptor: InternalForce::new_local(Vec3::new(0, 300, 0)),
        pose: Pose::identity(),
        physical: false,
    }];

    manually_clear_forces(&mut bodies);
    let diagnostics = propagate_internal_forces(&mut bodies, &descendants);

    assert!(diagnostics.is_empty());
    assert_eq!(bodies[0].accumulator.force, Vec3::new(0, 300 * SCALE_SQ, 0));
    assert_eq!(bodies[0].accumulator.torque, Vec3::zero());
}

#[test]
fn scenario_ancestor_rotated_half_turn() {
    // Ancestor rotated 180 degrees about Y; descendant unrotated in world
    // space, hence rotated 180 degrees relative to the ancestor. A local
    // force (0, -1, 0) keeps its Y component under that relative rotation:
    // the same value direct rotation of the vector gives.
    let mut bodies = vec![dynamic_body(Pose::new(rot_y_180(), Vec3::zero()))];
    let descendants = vec![Descendant {
        ancestor: 0,
        descriptor: InternalForce::new_local(Vec3::new(0, -1, 0)),
        pose: Pose::identity(),
        physical: false,
    }];

    manually_clear_forces(&mut bodies);
    let diagnostics = propagate_internal_forces(&mut bodies, &descendants);

    assert!(diagnostics.is_empty());
    assert_eq!(bodies[0].accumulator.force, Vec3::new(0, -SCALE_SQ, 0));
}

#[test]
fn scenario_local_sideways_under_half_turn() {
    // Same relative half turn as above, but the declared force points along
    // +X, so the relative rotation must flip it to -X; treating it as global
    // would leave it unchanged.
    let mut bodies = vec![dynamic_body(Pose::new(rot_y_180(), Vec3::zero()))];
    let descendants = vec![Descendant {
        ancestor: 0,
        descriptor: InternalForce::new_local(Vec3::new(1, 0, 0)),
        pose: Pose::identity(),
        physical: false,
    }];

    manually_clear_forces(&mut bodies);
    propagate_internal_forces(&mut bodies, &descendants);

    assert_eq!(bodies[0].accumulator.force, Vec3::new(-SCALE_SQ, 0, 0));
}

#[test]
fn scenario_opposing_global_forces_cancel() {
    // Two descendants with global forces (0,1,0) and (0,-1,0) at
    // equal-and-opposite offsets along the force axis: net force and net
    // torque both cancel.
    let mut bodies = vec![dynamic_body(Pose::identity())];
    let descendants = vec![
        Descendant {
            ancestor: 0,
            descriptor: InternalForce::new_global(Vec3::new(0, 1, 0)),
            pose: Pose::new(Mat3::identity(), Vec3::new(0, 1, 0)),
            physical: false,
        },
        Descendant {
            ancestor: 0,
            descriptor: InternalForce::new_global(Vec3::new(0, -1, 0)),
            pose: Pose::new(Mat3::identity(), Vec3::new(0, -1, 0)),
            physical: false,
        },
    ];

    manually_clear_forces(&mut bodies);
    let diagnostics = propagate_internal_forces(&mut bodies, &descendants);

    assert!(diagnostics.is_empty());
    assert_eq!(bodies[0].accumulator.force, Vec3::zero());
    assert_eq!(bodies[0].accumulator.torque, Vec3::zero());
}

#[test]
fn scenario_unresolved_ancestor_is_flagged_and_skipped() {
    // The descendant's handle points at a non-physical entity: a diagnostic
    // is raised, the referenced entity is untouched, and nothing panics.
    let mut non_ancestor = dynamic_body(Pose::identity());
    non_ancestor.physical = false;
    non_ancestor.accumulator.force = Vec3::new(7, 8, 9);
    let before = non_ancestor;

    let mut bodies = vec![dynamic_body(Pose::identity()), non_ancestor];
    let descendants = vec![
        Descendant {
            ancestor: 1,
            descriptor: InternalForce::new_global(Vec3::new(0, 5, 0)),
            pose: Pose::identity(),
            physical: false,
        },
        // out of range entirely
        Descendant {
            ancestor: 17,
            descriptor: InternalForce::new_global(Vec3::new(0, 5, 0)),
            pose: Pose::identity(),
            physical: false,
        },
    ];

    let diagnostics = propagate_internal_forces(&mut bodies, &descendants);

    assert_eq!(
        diagnostics,
        vec![
            Diagnostic::UnresolvedAncestor { descendant: 0 },
            Diagnostic::UnresolvedAncestor { descendant: 1 },
        ],
    );
    assert_eq!(bodies[1], before);
    assert_eq!(bodies[0].accumulator.force, Vec3::zero());
}

#[test]
fn descriptor_on_physical_entity_is_flagged_and_skipped() {
    // The declaring entity is itself physically simulated: the mechanism
    // only affects ancestors, so the contribution is a flagged no-op.
    let mut bodies = vec![dynamic_body(Pose::identity())];
    let descendants = vec![Descendant {
        ancestor: 0,
        descriptor: InternalForce::new_global(Vec3::new(0, 5, 0)),
        pose: Pose::identity(),
        physical: true,
    }];

    let diagnostics = propagate_internal_forces(&mut bodies, &descendants);

    assert_eq!(
        diagnostics,
        vec![Diagnostic::DescriptorOnPhysicalEntity { descendant: 0 }],
    );
    assert_eq!(bodies[0].accumulator.force, Vec3::zero());
}

#[test]
fn persistent_accumulator_is_flagged_but_still_accumulates() {
    let mut body = dynamic_body(Pose::identity());
    body.accumulator = ForceAccumulator {
        force: Vec3::new(1, 2, 3),
        torque: Vec3::zero(),
        persistent: true,
    };
    let mut bodies = vec![body];
    let descendants = vec![Descendant {
        ancestor: 0,
        descriptor: InternalForce::new_global(Vec3::new(0, 1, 0)),
        pose: Pose::identity(),
        physical: false,
    }];

    // The reset step leaves a persistent accumulator alone.
    manually_clear_forces(&mut bodies);
    assert_eq!(bodies[0].accumulator.force, Vec3::new(1, 2, 3));

    // The aggregation step flags it and still applies the contribution.
    let diagnostics = propagate_internal_forces(&mut bodies, &descendants);
    assert_eq!(
        diagnostics,
        vec![Diagnostic::PersistentAccumulator { descendant: 0, ancestor: 0 }],
    );
    assert_eq!(bodies[0].accumulator.force, Vec3::new(1, 2 + SCALE_SQ, 3));
}

#[test]
fn non_unit_scale_is_flagged_but_still_accumulates() {
    let mut bodies = vec![dynamic_body(Pose::identity())];
    let mut child_pose = Pose::identity();
    child_pose.scale = Vec3::new(2 * SCALE, 2 * SCALE, 2 * SCALE);
    let descendants = vec![Descendant {
        ancestor: 0,
        descriptor: InternalForce::new_global(Vec3::new(0, 1, 0)),
        pose: child_pose,
        physical: false,
    }];

    let diagnostics = propagate_internal_forces(&mut bodies, &descendants);
    assert_eq!(
        diagnostics,
        vec![Diagnostic::NonUnitScale { descendant: 0, ancestor: 0 }],
    );
    // The scale is not applied: the contribution is as if the scale were unit.
    assert_eq!(bodies[0].accumulator.force, Vec3::new(0, SCALE_SQ, 0));
}

#[test]
fn accumulation_is_order_independent() {
    let d1 = Descendant {
        ancestor: 0,
        descriptor: InternalForce::new_local(Vec3::new(3, 0, 7)),
        pose: Pose::new(rot_y_180(), Vec3::new(2, 5, -1)),
        physical: false,
    };
    let d2 = Descendant {
        ancestor: 0,
        descriptor: InternalForce::new_global(Vec3::new(-4, 9, 0)),
        pose: Pose::new(Mat3::identity(), Vec3::new(-3, 0, 6)),
        physical: false,
    };

    let mut bodies_fwd = vec![dynamic_body(Pose::new(rot_y_180(), Vec3::new(1, 1, 1)))];
    let mut bodies_rev = bodies_fwd.clone();

    propagate_internal_forces(&mut bodies_fwd, &vec![d1, d2]);
    propagate_internal_forces(&mut bodies_rev, &vec![d2, d1]);

    assert_eq!(bodies_fwd[0].accumulator.force, bodies_rev[0].accumulator.force);
    assert_eq!(bodies_fwd[0].accumulator.torque, bodies_rev[0].accumulator.torque);
}

#[test]
fn reparenting_is_exact() {
    // Child at (3,4,5), ancestor at (1,1,1) facing backwards (half turn
    // about Y): the child's position in the ancestor's frame is the offset
    // (2,3,4) with X and Z flipped, at one factor of the rotation scale; the
    // relative rotation is the half turn itself, at two factors.
    let child = Pose::new(Mat3::identity(), Vec3::new(3, 4, 5));
    let ancestor = Pose::new(rot_y_180(), Vec3::new(1, 1, 1));

    let rel = child.reparented_to(&ancestor);

    assert_eq!(rel.translation, Vec3::new(-2 * SCALE, 3 * SCALE, -4 * SCALE));
    assert_eq!(
        rel.rotation,
        Mat3::new(
            -SCALE * SCALE, 0, 0,
            0, SCALE * SCALE, 0,
            0, 0, -SCALE * SCALE,
        ),
    );
}

#[test]
fn torque_is_arm_cross_force() {
    // A force applied at the center of mass produces no torque; offsetting
    // the point perpendicular to the force produces exactly (arm x force).
    let mut acc = ForceAccumulator::new(false);
    acc.apply_force_at_point(&Vec3::new(0, 3, 0), &Vec3::new(1, 0, 0), &Vec3::new(1, 0, 0));
    assert_eq!(acc.torque, Vec3::zero());
    assert_eq!(acc.force, Vec3::new(0, 3, 0));

    let mut acc2 = ForceAccumulator::new(false);
    acc2.apply_force_at_point(&Vec3::new(0, 3, 0), &Vec3::new(2, 0, 0), &Vec3::new(1, 0, 0));
    // arm = (1,0,0), force = (0,3,0): torque = (0,0,3)
    assert_eq!(acc2.torque, Vec3::new(0, 0, 3));
}

#[test]
fn reset_discipline_ordering() {
    let clear = ParentingSystemSet::ManuallyClearForces;
    let prop = ParentingSystemSet::PropagateInternalForces;
    assert!(clear.runs_before(&prop));
    assert!(!prop.runs_before(&clear));
    assert!(!clear.runs_before(&clear));
}
