//! The ragdoll controller: hands bones of a skeleton from animation to
//! physics, one way, with no visible pop.
//!
//! Detaching a bone only makes its end joint integrable (nonzero inverse
//! mass): its position and velocity estimate are left exactly as the last
//! animated step wrote them, so the first physics state equals the last
//! animated state.  Kinematic joints keep zero inverse mass — integration
//! skips them — but still take part in constraint relaxation, which is what
//! keeps a partially detached skeleton coherent.

use vstd::prelude::*;
use vstd::math::abs;
use crate::fixed::{SCALE, FORCE_LIMIT};
use crate::util::Vec2;
use crate::particle::{spec_integrate, spec_relax, spec_apply_force};
use crate::skeleton::Skeleton;

verus! {

/// Who drives a bone this step.
#[derive(Debug, Clone, Copy, PartialEq, Eq, Structural)]
pub enum BoneState {
    /// The bone's end joint is written by animation and skipped by
    /// integration.
    Kinematic,
    /// The bone's end joint is integrated by physics.
    Dynamic,
}

/// The largest value the blend timer accumulates to.
pub const BLEND_TIMER_LIMIT: i64 = 0x100_0000;

/// The per-bone activation state and the blend timer of one skeleton.  The
/// controller owns no skeleton: each operation is handed the skeleton it
/// governs, which must be the one it was created for.
pub struct Ragdoll {
    pub states: Vec<BoneState>,
    pub blend_timer: i64,
}

impl Ragdoll {
    /// The controller fits the skeleton it governs.
    pub open spec fn fits(self, skeleton: Skeleton) -> bool {
        &&& self.states@.len() == skeleton.data.bones@.len()
        &&& 0 <= self.blend_timer <= BLEND_TIMER_LIMIT
    }

    /// A controller for `skeleton`: every bone kinematic, timer zero.
    pub fn new(skeleton: &Skeleton) -> (r: Ragdoll)
        requires
            skeleton.wf(),
        ensures
            r.fits(*skeleton),
            r.blend_timer == 0,
            r.states@.len() == skeleton.data.bones@.len(),
            forall|i: int| 0 <= i < r.states@.len() ==> r.states@[i] == BoneState::Kinematic,
    {
        let n = skeleton.bone_count();
        let mut states: Vec<BoneState> = Vec::new();
        let mut i: usize = 0;
        while i < n
            invariant
                i <= n,
                states@.len() == i,
                forall|j: int| 0 <= j < i ==> states@[j] == BoneState::Kinematic,
            decreases n - i,
        {
            states.push(BoneState::Kinematic);
            i += 1;
        }
        Ragdoll { states, blend_timer: 0 }
    }

    /// The state of one bone.
    pub fn bone_state(&self, bone: usize) -> (r: BoneState)
        requires
            bone < self.states@.len(),
        ensures
            r == self.states@[bone as int],
    {
        self.states[bone]
    }

    /// Hand one bone to physics.  Its end joint becomes integrable with
    /// unit inverse mass; its position and previous position are untouched,
    /// so its world position the instant after the call equals the world
    /// position the instant before, and its implied velocity equals the
    /// animated velocity.  The transition is one way: detaching a bone
    /// already dynamic changes nothing.
    pub fn detach_bone(&mut self, skeleton: &mut Skeleton, bone: usize)
        requires
            old(self).fits(*old(skeleton)),
            old(skeleton).wf(),
            bone < old(self).states@.len(),
        ensures
            final(self).fits(*final(skeleton)),
            final(skeleton).wf(),
            final(self).states@ == old(self).states@.update(bone as int, BoneState::Dynamic),
            final(self).blend_timer == old(self).blend_timer,
            final(skeleton).data.bones@ == old(skeleton).data.bones@,
            final(skeleton).animation_points@ == old(skeleton).animation_points@,
            final(skeleton).system.particles@.len() == old(skeleton).system.particles@.len(),
            forall|j: int|
                0 <= j < old(skeleton).system.particles@.len() ==> {
                    &&& (#[trigger] final(skeleton).system.particles@[j]).position == old(
                        skeleton,
                    ).system.particles@[j].position
                    &&& final(skeleton).system.particles@[j].previous_position == old(
                        skeleton,
                    ).system.particles@[j].previous_position
                },
            forall|j: int|
                0 <= j < old(skeleton).system.particles@.len() && j != bone as int + 1
                    ==> (#[trigger] final(skeleton).system.particles@[j]).inverse_mass == old(
                    skeleton,
                ).system.particles@[j].inverse_mass,
            final(skeleton).system.particles@[bone as int + 1].inverse_mass == SCALE,
            final(skeleton).system.constraints@ == old(skeleton).system.constraints@,
            final(skeleton).system.names@ == old(skeleton).system.names@,
            final(skeleton).system.damping == old(skeleton).system.damping,
    {
        skeleton.system.set_inverse_mass(bone + 1, SCALE);
        self.states.set(bone, BoneState::Dynamic);
    }

    /// Hand the whole skeleton to physics: the root joint and every bone's
    /// end joint become integrable; no position or velocity estimate moves.
    #[verifier::loop_isolation(false)]
    pub fn detach_all(&mut self, skeleton: &mut Skeleton)
        requires
            old(self).fits(*old(skeleton)),
            old(skeleton).wf(),
        ensures
            final(self).fits(*final(skeleton)),
            final(skeleton).wf(),
            final(self).states@.len() == old(self).states@.len(),
            forall|i: int|
                0 <= i < final(self).states@.len() ==> final(self).states@[i]
                    == BoneState::Dynamic,
            final(self).blend_timer == old(self).blend_timer,
            final(skeleton).data.bones@ == old(skeleton).data.bones@,
            final(skeleton).animation_points@ == old(skeleton).animation_points@,
            final(skeleton).system.particles@.len() == old(skeleton).system.particles@.len(),
            forall|j: int|
                0 <= j < old(skeleton).system.particles@.len() ==> {
                    &&& (#[trigger] final(skeleton).system.particles@[j]).position == old(
                        skeleton,
                    ).system.particles@[j].position
                    &&& final(skeleton).system.particles@[j].previous_position == old(
                        skeleton,
                    ).system.particles@[j].previous_position
                    &&& final(skeleton).system.particles@[j].inverse_mass == SCALE
                },
            final(skeleton).system.constraints@ == old(skeleton).system.constraints@,
            final(skeleton).system.names@ == old(skeleton).system.names@,
            final(skeleton).system.damping == old(skeleton).system.damping,
    {
        let m = skeleton.system.particle_count();
        let mut j: usize = 0;
        while j < m
            invariant
                j <= m,
                skeleton.system.wf(),
                skeleton.data.bones@ == old(skeleton).data.bones@,
                skeleton.animation_points@ == old(skeleton).animation_points@,
                skeleton.system.particles@.len() == m,
                skeleton.system.constraints@ == old(skeleton).system.constraints@,
                skeleton.system.names@ == old(skeleton).system.names@,
                skeleton.system.damping == old(skeleton).system.damping,
                forall|k: int|
                    0 <= k < j ==> {
                        &&& (#[trigger] skeleton.system.particles@[k]).position == old(
                            skeleton,
                        ).system.particles@[k].position
                        &&& skeleton.system.particles@[k].previous_position == old(
                            skeleton,
                        ).system.particles@[k].previous_position
                        &&& skeleton.system.particles@[k].inverse_mass == SCALE
                    },
                forall|k: int|
                    j <= k < m ==> skeleton.system.particles@[k] == old(
                        skeleton,
                    ).system.particles@[k],
            decreases m - j,
        {
            skeleton.system.set_inverse_mass(j, SCALE);
            j += 1;
        }
        let n = self.states.len();
        let mut i: usize = 0;
        while i < n
            invariant
                i <= n,
                self.states@.len() == n,
                self.blend_timer == old(self).blend_timer,
                forall|k: int| 0 <= k < i ==> self.states@[k] == BoneState::Dynamic,
            decreases n - i,
        {
            self.states.set(i, BoneState::Dynamic);
            i += 1;
        }
    }

    /// Inject an impulse into a bone's end joint.  Meaningful only on a
    /// dynamic bone; on a kinematic bone this is a no-op, not an error.
    pub fn apply_impulse(&self, skeleton: &mut Skeleton, bone: usize, force: Vec2)
        requires
            self.fits(*old(skeleton)),
            old(skeleton).wf(),
            bone < self.states@.len(),
            abs(force.x as int) <= FORCE_LIMIT,
            abs(force.y as int) <= FORCE_LIMIT,
        ensures
            final(skeleton).wf(),
            self.fits(*final(skeleton)),
            final(skeleton).data.bones@ == old(skeleton).data.bones@,
            final(skeleton).animation_points@ == old(skeleton).animation_points@,
            self.states@[bone as int] == BoneState::Dynamic ==> final(skeleton).system.particles@
                == old(skeleton).system.particles@.update(
                bone as int + 1,
                spec_apply_force(old(skeleton).system.particles@[bone as int + 1], force),
            ),
            self.states@[bone as int] == BoneState::Kinematic ==> *final(skeleton) == *old(
                skeleton,
            ),
            final(skeleton).system.constraints@ == old(skeleton).system.constraints@,
            final(skeleton).system.names@ == old(skeleton).system.names@,
            final(skeleton).system.damping == old(skeleton).system.damping,
    {
        match self.states[bone] {
            BoneState::Dynamic => {
                skeleton.system.apply_force(bone + 1, force);
            },
            BoneState::Kinematic => {},
        }
    }

    /// One simulation step of the governed skeleton: advance the blend
    /// timer (saturating), integrate the whole particle system — kinematic
    /// joints, having zero inverse mass, do not move — and relax every bone
    /// constraint, which both sets of joints take part in.
    pub fn step(&mut self, skeleton: &mut Skeleton, dt: i64, gravity: Vec2, iterations: usize)
        requires
            old(self).fits(*old(skeleton)),
            old(skeleton).wf(),
            0 < dt <= SCALE,
            abs(gravity.x as int) <= FORCE_LIMIT,
            abs(gravity.y as int) <= FORCE_LIMIT,
        ensures
            final(self).fits(*final(skeleton)),
            final(skeleton).wf(),
            final(self).states@ == old(self).states@,
            final(self).blend_timer == if old(self).blend_timer + dt > BLEND_TIMER_LIMIT {
                BLEND_TIMER_LIMIT as int
            } else {
                old(self).blend_timer + dt
            },
            final(skeleton).data.bones@ == old(skeleton).data.bones@,
            final(skeleton).animation_points@ == old(skeleton).animation_points@,
            final(skeleton).system.particles@ == spec_relax(
                spec_integrate(
                    old(skeleton).system.particles@,
                    dt as int,
                    gravity,
                    old(skeleton).system.damping as int,
                ),
                old(skeleton).system.constraints@,
                iterations as int,
            ),
            final(skeleton).system.constraints@ == old(skeleton).system.constraints@,
            final(skeleton).system.names@ == old(skeleton).system.names@,
            final(skeleton).system.damping == old(skeleton).system.damping,
    {
        if self.blend_timer + dt > BLEND_TIMER_LIMIT {
            self.blend_timer = BLEND_TIMER_LIMIT;
        } else {
            self.blend_timer = self.blend_timer + dt;
        }
        skeleton.system.integrate(dt, gravity);
        skeleton.system.relax(iterations);
    }
}

} // verus!
