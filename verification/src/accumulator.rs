//! The per-ancestor force accumulator: the net force and net torque the
//! current frame's contributions have summed to, plus the persistence flag
//! that opts an entity out of the reset discipline.

use vstd::prelude::*;

use crate::linear::{add_fits, cross_fits, sub_fits, Vec3};
use crate::math::{v3_add, v3_cross, v3_sub, v3_zero, V3};

verus! {

/// Accumulated external force and torque on one physically simulated entity,
/// valid only within the current frame. When `persistent` is false the
/// accumulator is cleared at the start of every frame and rebuilt from
/// scratch; when it is true its owner manages it and this library leaves it
/// alone (and flags it if it nevertheless receives propagated forces).
#[derive(Clone, Copy, Debug, PartialEq, Eq, Structural)]
pub struct ForceAccumulator {
    pub force: Vec3,
    pub torque: Vec3,
    pub persistent: bool,
}

/// Adding `force` at `point` about `com` stays within machine limits: the
/// force sum, the arm, and the torque cross product and sum all fit.
pub open spec fn apply_fits(acc: ForceAccumulator, force: V3, point: V3, com: V3) -> bool {
    &&& add_fits(acc.force@, force)
    &&& sub_fits(point, com)
    &&& cross_fits(v3_sub(point, com), force)
    &&& add_fits(acc.torque@, v3_cross(v3_sub(point, com), force))
}

impl ForceAccumulator {
    /// A zeroed accumulator with the given persistence.
    pub fn new(persistent: bool) -> (r: ForceAccumulator)
        ensures
            r.force@ == v3_zero(),
            r.torque@ == v3_zero(),
            r.persistent == persistent,
    {
        ForceAccumulator { force: Vec3::zero(), torque: Vec3::zero(), persistent }
    }

    /// Clears force and torque to zero. The persistence flag is left as it
    /// is; whether clearing should happen at all is the caller's decision
    /// (see [`crate::propagate::manually_clear_forces`]).
    pub fn clear(&mut self)
        ensures
            final(self).force@ == v3_zero(),
            final(self).torque@ == v3_zero(),
            final(self).persistent == old(self).persistent,
    {
        self.force = Vec3::zero();
        self.torque = Vec3::zero();
    }

    /// Applies `force` at `point`, both expressed in the same frame and at
    /// the same fixed-point scale as the accumulator's contents, with `com`
    /// the center of mass in that frame: the net force grows by `force` and
    /// the net torque by `(point - com) x force`. Pure accumulation — the
    /// previous contents are never overwritten.
    pub fn apply_force_at_point(&mut self, force: &Vec3, point: &Vec3, com: &Vec3)
        requires
            apply_fits(*old(self), force@, point@, com@),
        ensures
            final(self).force@ == v3_add(old(self).force@, force@),
            final(self).torque@ == v3_add(
                old(self).torque@,
                v3_cross(v3_sub(point@, com@), force@),
            ),
            final(self).persistent == old(self).persistent,
    {
        self.force = self.force.add(force);
        let arm = point.sub(com);
        self.torque = self.torque.add(&arm.cross(force));
    }
}

} // verus!
