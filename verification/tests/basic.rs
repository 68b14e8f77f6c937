use internal_forces::accumulator::ForceAccumulator;
use internal_forces::force::InternalForce;
use internal_forces::linear::{Mat3, Vec3};
use internal_forces::pose::Pose;
use internal_forces::propagate::{manually_clear_forces, propagate_internal_forces, Body, Descendant};
use internal_forces::SCALE_SQ;

fn dynamic_body(pose: Pose) -> Body {
    Body {
        physical: true,
        pose,
        center_of_mass: Vec3::zero(),
        accumulator: ForceAccumulator::new(false),
    }
}

#[test]
fn local_moves_up() {
    let starting_y: i128 = 100;

    // parent: a dynamic body with a non-persistent accumulator
    let parent = dynamic_body(Pose::new(Mat3::identity(), Vec3::new(0, starting_y, 0)));
    // child at the parent's own position, pushing straight up in its frame
    let child = Descendant {
        ancestor: 0,
        descriptor: InternalForce::new_local(Vec3::new(0, 300, 0)),
        pose: Pose::new(Mat3::identity(), Vec3::new(0, starting_y, 0)),
        physical: false,
    };

    let mut bodies = vec![parent];
    let descendants = vec![child];

    assert_eq!(bodies[0].accumulator.force, Vec3::zero());

    manually_clear_forces(&mut bodies);
    let diagnostics = propagate_internal_forces(&mut bodies, &descendants);

    assert!(diagnostics.is_empty());
    assert!(bodies[0].accumulator.force.y > 0);
    assert_eq!(bodies[0].accumulator.force, Vec3::new(0, 300 * SCALE_SQ, 0));
}

#[test]
fn external_forces_clear() {
    let force = Vec3::new(0, 0, 100);
    let mut bodies = vec![dynamic_body(Pose::identity())];
    bodies[0].accumulator.force = force;

    for i in 0..10 {
        manually_clear_forces(&mut bodies);
        let current = bodies[0].accumulator.force;
        assert_eq!(current, Vec3::zero());
        bodies[0].accumulator.force = Vec3::new(i, 0, 100);
    }
}

#[test]
fn invariant_constant_external_force() {
    let internal_force = Vec3::new(0, 0, 100);

    let mut bodies = vec![dynamic_body(Pose::identity())];
    let descendants = vec![Descendant {
        ancestor: 0,
        descriptor: InternalForce::new_global(internal_force),
        pose: Pose::identity(),
        physical: false,
    }];

    assert_eq!(bodies[0].accumulator.force, Vec3::zero());

    for _ in 0..10 {
        manually_clear_forces(&mut bodies);
        let diagnostics = propagate_internal_forces(&mut bodies, &descendants);
        assert!(diagnostics.is_empty());
        assert_eq!(
            bodies[0].accumulator.force,
            Vec3::new(0, 0, 100 * SCALE_SQ),
        );
    }
}
