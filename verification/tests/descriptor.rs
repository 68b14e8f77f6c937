use internal_forces::force::InternalForce;
use internal_forces::linear::{Mat3, Vec3};
use internal_forces::SCALE;

fn rot_y_180() -> Mat3 {
    Mat3::new(-SCALE, 0, 0, 0, SCALE, 0, 0, 0, -SCALE)
}

#[test]
fn constructors_pick_the_right_frame() {
    let v = Vec3::new(1, 2, 3);
    assert_eq!(
        InternalForce::new_local(v),
        InternalForce::Local { force: v, strength: 1 },
    );
    assert_eq!(InternalForce::new_relative(v), InternalForce::new_local(v));
    assert_eq!(
        InternalForce::new_global(v),
        InternalForce::Global { force: v, strength: 1 },
    );
    assert_eq!(InternalForce::new_absolute(v), InternalForce::new_global(v));
}

#[test]
fn forward_right_up_maps_onto_axes() {
    // forward is -Z, right is +X, up is +Y
    assert_eq!(
        InternalForce::new_forward_right_up(1, 2, 3),
        InternalForce::Local { force: Vec3::new(2, 3, -1), strength: 1 },
    );
}

#[test]
fn default_is_zero_local_with_unit_strength() {
    assert_eq!(
        InternalForce::default(),
        InternalForce::Local { force: Vec3::zero(), strength: 1 },
    );
    let by_trait: InternalForce = Default::default();
    assert_eq!(by_trait, InternalForce::default());
}

#[test]
fn strength_accessors() {
    let mut f = InternalForce::new_local(Vec3::new(0, 10, 0));
    assert_eq!(f.get_strength(), 1);

    f.set_strength(5);
    assert_eq!(f.get_strength(), 5);

    *f.get_mut_strength() = 7;
    assert_eq!(f.get_strength(), 7);

    let g = f.with_strength(2);
    assert_eq!(g.get_strength(), 2);
    assert_eq!(g.get_naive_force(), Vec3::new(0, 10, 0));
}

#[test]
fn force_vector_can_be_replaced_in_place() {
    let mut f = InternalForce::new_global(Vec3::new(1, 1, 1)).with_strength(9);
    *f.get_mut_force() = Vec3::new(4, 5, 6);
    assert_eq!(f.get_naive_force(), Vec3::new(4, 5, 6));
    assert_eq!(f.get_strength(), 9);
}

#[test]
fn naive_and_effective_force() {
    let f = InternalForce::new_global(Vec3::new(1, -2, 3)).with_strength(4);
    assert_eq!(f.get_naive_force(), Vec3::new(1, -2, 3));
    assert_eq!(f.compute_naive_force(), Vec3::new(4, -8, 12));
}

#[test]
fn global_force_ignores_orientation() {
    let f = InternalForce::new_global(Vec3::new(1, 2, 3));
    let world = f.compute_global_force(&rot_y_180());
    assert_eq!(world, Vec3::new(SCALE, 2 * SCALE, 3 * SCALE));
}

#[test]
fn local_force_follows_orientation() {
    let f = InternalForce::new_local(Vec3::new(1, 2, 3));
    let world = f.compute_global_force(&rot_y_180());
    assert_eq!(world, Vec3::new(-SCALE, 2 * SCALE, -3 * SCALE));
}

#[test]
fn orthogonality_check_accepts_rotations_only() {
    assert!(Mat3::identity().is_orthogonal());
    assert!(rot_y_180().is_orthogonal());
    let skewed = Mat3::new(SCALE, 1, 0, 0, SCALE, 0, 0, 0, SCALE);
    assert!(skewed.within(SCALE));
    assert!(!skewed.is_orthogonal());
}

#[test]
fn vector_algebra_is_exact() {
    let a = Vec3::new(1, 2, 3);
    let b = Vec3::new(4, 5, 6);
    assert_eq!(a.add(&b), Vec3::new(5, 7, 9));
    assert_eq!(b.sub(&a), Vec3::new(3, 3, 3));
    assert_eq!(a.scale(-2), Vec3::new(-2, -4, -6));
    assert_eq!(a.cross(&b), Vec3::new(-3, 6, -3));
    assert_eq!(b.cross(&a), Vec3::new(3, -6, 3));
    assert!(a.within(3));
    assert!(!a.within(2));
}
