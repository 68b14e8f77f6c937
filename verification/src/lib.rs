//! Propagation of internal forces from non-physical descendant entities onto
//! their physically simulated ancestors.
//!
//! A *descendant* entity declares a force through an [`force::InternalForce`]
//! descriptor together with a handle to its physical *ancestor*. Once per
//! simulation step the library clears every non-persistent force accumulator
//! and then sums every descendant's contribution — a world-frame force and the
//! torque it exerts about the ancestor's center of mass — into the ancestor's
//! accumulator, which an external integrator consumes later in the same step.
//!
//! All quantities are exact fixed-point integers: positions and force vectors
//! are plain integer coordinates, and an orientation is an integer matrix `M`
//! that stands for the rotation `M / SCALE`, so every law of the propagation
//! algebra holds exactly rather than up to rounding.

use vstd::prelude::*;

pub mod accumulator;
pub mod force;
pub mod laws;
pub mod linear;
pub mod math;
pub mod pose;
pub mod propagate;

verus! {

/// Fixed-point scale of every orientation: an exec-level rotation matrix `m`
/// stands for the real rotation `m / SCALE`.
pub const SCALE: i128 = 65536;

/// `SCALE * SCALE`: the scale a composed (relative) rotation carries, and the
/// factor by which an accumulated force is larger than the real force.
pub const SCALE_SQ: i128 = SCALE * SCALE;

/// The two steps this library contributes to a simulation schedule, in the
/// order they must run within one step: clearing comes strictly before
/// propagation, and propagation strictly before the integrator consumes the
/// accumulators.
#[derive(Debug, Hash, PartialEq, Eq, Clone, Copy)]
pub enum ParentingSystemSet {
    ManuallyClearForces,
    PropagateInternalForces,
}

impl ParentingSystemSet {
    /// Position of the step within one simulation tick; lower runs first.
    pub open spec fn spec_phase(self) -> int {
        match self {
            ParentingSystemSet::ManuallyClearForces => 0,
            ParentingSystemSet::PropagateInternalForces => 1,
        }
    }

    /// True exactly when `self` is scheduled strictly before `other` within a
    /// tick. Encodes the reset discipline: the clearing step precedes the
    /// propagation step, never the reverse.
    pub fn runs_before(&self, other: &ParentingSystemSet) -> (r: bool)
        ensures
            r == (self.spec_phase() < other.spec_phase()),
    {
        match (self, other) {
            (ParentingSystemSet::ManuallyClearForces, ParentingSystemSet::PropagateInternalForces) => true,
            _ => false,
        }
    }
}

} // verus!
