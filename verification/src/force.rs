//! The force descriptor a non-physical descendant entity carries: a declared
//! force vector, the reference frame it is expressed in, and a scalar
//! strength multiplier.

use vstd::prelude::*;

use crate::linear::{mul_v_fits, scale_fits, Mat3, Vec3};
use crate::math::{m3_mul_v, m3_orthogonal, v3_scale, M3, V3};
use crate::SCALE;

verus! {

/// A declared internal force. `Global` is expressed directly in world space
/// and bypasses every orientation; `Local` is expressed in the descendant's
/// authored frame and is reoriented by the descendant's pose relative to its
/// ancestor at the instant it is applied.
#[derive(Clone, Copy, Debug, PartialEq, Eq, Structural)]
pub enum InternalForce {
    /// A force applied in world space, independent of either entity's
    /// orientation.
    Global { force: Vec3, strength: i128 },
    /// A force applied in the local space of the parent entity, relative to
    /// the child entity.
    Local { force: Vec3, strength: i128 },
}

impl InternalForce {
    /// The declared vector, before strength scaling, whichever frame it is
    /// expressed in.
    pub open spec fn spec_naive_force(self) -> V3 {
        match self {
            InternalForce::Global { force, .. } => force@,
            InternalForce::Local { force, .. } => force@,
        }
    }

    pub open spec fn spec_strength(self) -> int {
        match self {
            InternalForce::Global { strength, .. } => strength as int,
            InternalForce::Local { strength, .. } => strength as int,
        }
    }

    /// The declared vector with the strength multiplier applied.
    pub open spec fn spec_effective_force(self) -> V3 {
        v3_scale(self.spec_strength(), self.spec_naive_force())
    }

    pub open spec fn is_global(self) -> bool {
        self is Global
    }

    pub open spec fn is_local(self) -> bool {
        self is Local
    }

    /// `self` with the strength replaced and everything else kept.
    pub open spec fn spec_with_strength(self, strength: i128) -> InternalForce {
        match self {
            InternalForce::Global { force, .. } => InternalForce::Global { force, strength },
            InternalForce::Local { force, .. } => InternalForce::Local { force, strength },
        }
    }

    /// `self` with the declared vector replaced and everything else kept.
    pub open spec fn spec_with_force(self, force: Vec3) -> InternalForce {
        match self {
            InternalForce::Global { strength, .. } => InternalForce::Global { force, strength },
            InternalForce::Local { strength, .. } => InternalForce::Local { force, strength },
        }
    }

    /// The world-space force this descriptor exerts when applied through the
    /// orientation `m` (given at matrix scale `s`, so the result is `s` times
    /// the real force): a `Global` descriptor ignores `m`, a `Local` one is
    /// rotated by it.
    pub open spec fn spec_world_force(self, m: M3, s: int) -> V3 {
        if self.is_global() {
            v3_scale(s, self.spec_effective_force())
        } else {
            m3_mul_v(m, self.spec_effective_force())
        }
    }

    /// The zero force, in the local frame, with the default strength.
    pub fn default() -> (r: InternalForce)
        ensures
            r == (InternalForce::Local { force: Vec3 { x: 0, y: 0, z: 0 }, strength: 1i128 }),
    {
        InternalForce::Local { force: Vec3::zero(), strength: 1 }
    }

    pub fn get_strength(&self) -> (r: i128)
        ensures
            r == self.spec_strength(),
    {
        match self {
            InternalForce::Global { strength, .. } => *strength,
            InternalForce::Local { strength, .. } => *strength,
        }
    }

    pub fn get_mut_strength(&mut self) -> (r: &mut i128)
        ensures
            *r == old(self).spec_strength(),
            *final(self) == old(self).spec_with_strength(*final(r)),
    {
        match self {
            InternalForce::Global { strength, .. } => strength,
            InternalForce::Local { strength, .. } => strength,
        }
    }

    /// Mutable access to the declared vector, whichever frame it is
    /// expressed in.
    pub fn get_mut_force(&mut self) -> (r: &mut Vec3)
        ensures
            (*r)@ == old(self).spec_naive_force(),
            *final(self) == old(self).spec_with_force(*final(r)),
    {
        match self {
            InternalForce::Global { force, .. } => force,
            InternalForce::Local { force, .. } => force,
        }
    }

    pub fn set_strength(&mut self, strength: i128)
        ensures
            *final(self) == old(self).spec_with_strength(strength),
    {
        match self {
            InternalForce::Global { strength: s, .. } => *s = strength,
            InternalForce::Local { strength: s, .. } => *s = strength,
        }
    }

    pub fn with_strength(self, strength: i128) -> (r: InternalForce)
        ensures
            r == self.spec_with_strength(strength),
    {
        let mut updated = self;
        updated.set_strength(strength);
        updated
    }

    /// A force in the local space of the parent entity, with the default
    /// strength.
    pub fn new_local(force: Vec3) -> (r: InternalForce)
        ensures
            r == (InternalForce::Local { force, strength: 1i128 }),
    {
        InternalForce::Local { force, strength: 1 }
    }

    /// See [`InternalForce::new_local`].
    pub fn new_relative(force: Vec3) -> (r: InternalForce)
        ensures
            r == (InternalForce::Local { force, strength: 1i128 }),
    {
        Self::new_local(force)
    }

    /// A force in world space, with the default strength.
    pub fn new_global(force: Vec3) -> (r: InternalForce)
        ensures
            r == (InternalForce::Global { force, strength: 1i128 }),
    {
        InternalForce::Global { force, strength: 1 }
    }

    /// See [`InternalForce::new_global`].
    pub fn new_absolute(force: Vec3) -> (r: InternalForce)
        ensures
            r == (InternalForce::Global { force, strength: 1i128 }),
    {
        Self::new_global(force)
    }

    /// A local-frame force given as forward, right and up components, with
    /// forward along `-Z`, right along `+X` and up along `+Y`.
    pub fn new_forward_right_up(forward: i128, right: i128, up: i128) -> (r: InternalForce)
        requires
            forward != i128::MIN,
        ensures
            r == (InternalForce::Local {
                force: Vec3 { x: right, y: up, z: (-forward) as i128 },
                strength: 1i128,
            }),
    {
        Self::new_local(Vec3::new(right, up, -forward))
    }

    /// The declared vector *without* the strength applied. Naive because the
    /// frame it is expressed in depends on the variant.
    pub fn get_naive_force(&self) -> (r: Vec3)
        ensures
            r@ == self.spec_naive_force(),
    {
        match self {
            InternalForce::Global { force, .. } => *force,
            InternalForce::Local { force, .. } => *force,
        }
    }

    /// The declared vector *with* the strength applied. Naive because the
    /// frame it is expressed in depends on the variant.
    pub fn compute_naive_force(&self) -> (r: Vec3)
        requires
            scale_fits(self.spec_strength(), self.spec_naive_force()),
        ensures
            r@ == self.spec_effective_force(),
    {
        let f = self.get_naive_force();
        f.scale(self.get_strength())
    }

    /// The world-space force this descriptor exerts on an ancestor with world
    /// orientation `ancestor_rotation`, strength applied. The result carries
    /// one factor of [`SCALE`]: it is `SCALE` times the real-valued force.
    pub fn compute_global_force(&self, ancestor_rotation: &Mat3) -> (r: Vec3)
        requires
            m3_orthogonal(ancestor_rotation@, SCALE as int),
            scale_fits(self.spec_strength(), self.spec_naive_force()),
            scale_fits(SCALE as int, self.spec_effective_force()),
            mul_v_fits(ancestor_rotation@, self.spec_effective_force()),
        ensures
            r@ == self.spec_world_force(ancestor_rotation@, SCALE as int),
    {
        match self {
            InternalForce::Global { .. } => self.compute_naive_force().scale(SCALE),
            InternalForce::Local { .. } => ancestor_rotation.mul_v(&self.compute_naive_force()),
        }
    }
}

impl Default for InternalForce {
    /// The zero force, in the local frame, with the default strength.
    fn default() -> (r: InternalForce)
        ensures
            r == (InternalForce::Local { force: Vec3 { x: 0, y: 0, z: 0 }, strength: 1i128 }),
    {
        InternalForce::Local { force: Vec3::zero(), strength: 1 }
    }
}

} // verus!
