//! World-space poses and the relative-pose resolver: expressing a
//! descendant's pose in its ancestor's frame.

use vstd::prelude::*;

use crate::linear::{mul_fits, mul_v_fits, sub_fits, Mat3, Vec3};
use crate::math::{m3_mul, m3_mul_v, m3_orthogonal, m3_transpose, v3_sub, M3, V3};
use crate::SCALE;

verus! {

/// A world-space pose: an orientation at matrix scale [`SCALE`], a position,
/// and a scale vector. The scale is carried so that a non-unit scale can be
/// detected and flagged; it is validated but never applied — force
/// propagation under scaled hierarchies is out of contract.
#[derive(Clone, Copy, Debug, PartialEq, Eq, Structural)]
pub struct Pose {
    pub rotation: Mat3,
    pub translation: Vec3,
    pub scale: Vec3,
}

/// A pose expressed relative to an ancestor. The rotation carries the scale
/// `SCALE * SCALE` (it is the product of two `SCALE`-scaled orientations) and
/// the translation carries one factor of `SCALE`.
#[derive(Clone, Copy, Debug, PartialEq, Eq, Structural)]
pub struct RelativePose {
    pub rotation: Mat3,
    pub translation: Vec3,
}

/// The relative orientation of a descendant with world rotation `child` under
/// an ancestor with world rotation `ancestor`: `transpose(ancestor) * child`,
/// at scale `SCALE * SCALE`.
pub open spec fn spec_relative_rotation(child: M3, ancestor: M3) -> M3 {
    m3_mul(m3_transpose(ancestor), child)
}

/// The descendant's position expressed in the ancestor's frame:
/// `transpose(ancestor_rotation) * (child_pos - ancestor_pos)`, at scale
/// `SCALE`.
pub open spec fn spec_relative_translation(
    child_t: V3,
    ancestor_r: M3,
    ancestor_t: V3,
) -> V3 {
    m3_mul_v(m3_transpose(ancestor_r), v3_sub(child_t, ancestor_t))
}

impl Pose {
    /// A pose's orientation is a well-formed fixed-point rotation.
    pub open spec fn wf(self) -> bool {
        m3_orthogonal(self.rotation@, SCALE as int)
    }

    /// The unit scale vector at fixed-point scale.
    pub open spec fn spec_unit_scale() -> V3 {
        V3 { x: SCALE as int, y: SCALE as int, z: SCALE as int }
    }

    /// A pose at the origin with the identity orientation and unit scale.
    pub fn identity() -> (r: Pose)
        ensures
            r.wf(),
            r.rotation@ == crate::math::m3_diag(SCALE as int),
            r.translation@ == crate::math::v3_zero(),
            r.scale@ == Pose::spec_unit_scale(),
    {
        Pose {
            rotation: Mat3::identity(),
            translation: Vec3::zero(),
            scale: Vec3::new(SCALE, SCALE, SCALE),
        }
    }

    /// A pose with the given orientation and position, at unit scale.
    pub fn new(rotation: Mat3, translation: Vec3) -> (r: Pose)
        ensures
            r.rotation == rotation,
            r.translation == translation,
            r.scale@ == Pose::spec_unit_scale(),
    {
        Pose { rotation, translation, scale: Vec3::new(SCALE, SCALE, SCALE) }
    }

    /// The composed scale on the path from the ancestor to `self` is unit:
    /// the two world scales agree componentwise.
    pub open spec fn spec_scale_matches(self, ancestor: Pose) -> bool {
        self.scale@ == ancestor.scale@
    }

    /// `self` expressed in `ancestor`'s frame: rotation
    /// `transpose(R_a) * R_c` and translation
    /// `transpose(R_a) * (t_c - t_a)`. Exact, so in particular stable for
    /// near-identity rotations; the poses' scales are not consulted — a
    /// non-unit relative scale is the caller's to flag.
    pub fn reparented_to(&self, ancestor: &Pose) -> (r: RelativePose)
        requires
            mul_fits(m3_transpose(ancestor.rotation@), self.rotation@),
            sub_fits(self.translation@, ancestor.translation@),
            mul_v_fits(m3_transpose(ancestor.rotation@), v3_sub(self.translation@, ancestor.translation@)),
        ensures
            r.rotation@ == spec_relative_rotation(self.rotation@, ancestor.rotation@),
            r.translation@ == spec_relative_translation(
                self.translation@,
                ancestor.rotation@,
                ancestor.translation@,
            ),
    {
        let ancestor_inverse = ancestor.rotation.transpose();
        RelativePose {
            rotation: ancestor_inverse.mul(&self.rotation),
            translation: ancestor_inverse.mul_v(&self.translation.sub(&ancestor.translation)),
        }
    }
}

} // verus!
