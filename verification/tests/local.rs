use internal_forces::accumulator::ForceAccumulator;
use internal_forces::force::InternalForce;
use internal_forces::linear::{Mat3, Vec3};
use internal_forces::pose::Pose;
use internal_forces::propagate::{manually_clear_forces, propagate_internal_forces, Body, Descendant};

#[test]
fn rotates() {
    let parent = Body {
        physical: true,
        pose: Pose::identity(),
        center_of_mass: Vec3::zero(),
        accumulator: ForceAccumulator::new(false),
    };

    // child offset along +X with an internal force pointing down:
    // the parent should be torqued clockwise about Z
    let child = Descendant {
        ancestor: 0,
        descriptor: InternalForce::new_local(Vec3::new(0, -1000, 0)),
        pose: Pose::new(Mat3::identity(), Vec3::new(5, 0, 0)),
        physical: false,
    };

    let mut bodies = vec![parent];
    let descendants = vec![child];

    // hasn't been torqued yet
    assert!(bodies[0].accumulator.torque.z == 0);

    manually_clear_forces(&mut bodies);
    let diagnostics = propagate_internal_forces(&mut bodies, &descendants);
    assert!(diagnostics.is_empty());

    // the force has no sideways component
    assert!(bodies[0].accumulator.force.z == 0);

    // clockwise about Z: negative torque
    assert!(
        bodies[0].accumulator.torque.z < 0,
        "Parent hasn't been torqued: {:?}",
        bodies[0].accumulator.torque,
    );
}
