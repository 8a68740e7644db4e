//! A rifle prop: a small rigid body carried at a skeleton's shoulder,
//! aimed by rotating its grip targets, and released into ragdoll physics
//! when dropped.
//!
//! While carried, the rifle is placed statically from the owning bone each
//! step and hands the skeleton two inverse-kinematics targets (grip and
//! trigger hand).  Once dropped it becomes a free rigid body: integrated,
//! relaxed and collided; a particle that has rested against the world for
//! over a second is settled by halving its mass response.

use vstd::prelude::*;
use vstd::math::abs;
use vstd::string::StringExecFns;
use crate::fixed::{SCALE, FORCE_LIMIT, spec_tdiv, tdiv};
use crate::util::{Vec2, Angle, spec_rotate_x, spec_rotate_y};
use crate::particle::{
    Particle, Constraint, ConstraintKind, ParticleTemplate, ParticleSystem, spec_integrate,
    spec_relax,
};
use crate::rigid_body::{RigidBody, Collider, spec_static_place};
use crate::skeleton::Skeleton;

verus! {

/// How far the grip sits along the aim from the shoulder, in fixed units.
pub const GRIP_REACH: i64 = 17408;

/// How far the grip sits across the aim.
pub const GRIP_DROP: i64 = 1024;

/// How far the trigger hand sits along the aim.
pub const TRIGGER_REACH: i64 = 6656;

/// How far the trigger hand sits across the aim.
pub const TRIGGER_DROP: i64 = 4096;

/// The largest recoil displacement the rifle accepts.
pub const RECOIL_LIMIT: i64 = 32768;

/// The largest value the ragdoll timer accumulates to.
pub const RIFLE_TIMER_LIMIT: i64 = 0x100_0000;

/// Relaxation passes per dynamic step.
pub const RIFLE_RELAX: usize = 5;

/// The settled mass response of a particle resting against the world.
pub const SETTLED_INV_MASS: i64 = 512;

/// The aim actually applied: the stored rotation when it points rightward,
/// its mirror image otherwise, so the rifle never renders inside out.
pub open spec fn spec_aim(direction: Angle) -> Angle {
    if direction.cos >= 0 {
        direction
    } else {
        Angle { cos: -(direction.cos as int) as i64, sin: direction.sin }
    }
}

/// The component-wise mirror applied while placing the rifle statically.
pub open spec fn spec_facing(direction: Angle) -> Vec2 {
    if direction.cos >= 0 {
        Vec2 { x: 1, y: 1 }
    } else {
        Vec2 { x: (-1) as i64, y: 1 }
    }
}

/// Where a hand target sits: `reach` along the aim from the shoulder, then
/// `drop` a quarter turn across it, clamped into the coordinate range.
pub open spec fn spec_hand_point(shoulder: Vec2, aim: Angle, reach: int, drop: int) -> Vec2 {
    let along_x = spec_rotate_x(aim, Vec2 { x: reach as i64, y: 0 });
    let along_y = spec_rotate_y(aim, Vec2 { x: reach as i64, y: 0 });
    let perp = Angle { cos: -(aim.sin as int) as i64, sin: aim.cos };
    let across_x = spec_rotate_x(perp, Vec2 { x: drop as i64, y: 0 });
    let across_y = spec_rotate_y(perp, Vec2 { x: drop as i64, y: 0 });
    Vec2 {
        x: crate::fixed::spec_clamp(shoulder.x + along_x + across_x) as i64,
        y: crate::fixed::spec_clamp(shoulder.y + along_y + across_y) as i64,
    }
}

/// A rifle prop.
pub struct StandardRifle {
    pub bone: String,
    pub color: u32,
    pub has_ragdoll: bool,
    pub ragdoll_timer: i64,
    pub gravity: Vec2,
    pub direction: Angle,
    pub recoil: i64,
    pub rigid: RigidBody,
}

impl StandardRifle {
    /// The state every operation preserves.  The carried/dropped flag and
    /// the rigid body's mode move together.
    pub open spec fn wf(self) -> bool {
        &&& self.rigid.wf()
        &&& self.has_ragdoll == self.rigid.dynamic
        &&& 0 <= self.recoil <= RECOIL_LIMIT
        &&& 0 <= self.ragdoll_timer <= RIFLE_TIMER_LIMIT
        &&& self.direction.wf()
        &&& abs(self.gravity.x as int) <= FORCE_LIMIT
        &&& abs(self.gravity.y as int) <= FORCE_LIMIT
    }

    /// The rifle's four authored particle offsets: center, barrel tip, and
    /// the two stock corners.
    pub open spec fn spec_layout_offsets() -> Seq<Vec2> {
        seq![
            Vec2 { x: 15360, y: 0 },
            Vec2 { x: 30720, y: 0 },
            Vec2 { x: 0, y: 0 },
            Vec2 { x: 0, y: 5120 },
        ]
    }

    /// The rifle's five authored struts, rest lengths matching the offsets:
    /// four solid (the barrel line from the stock through the center and
    /// the stock triangle) and one soft diagonal brace.
    pub open spec fn spec_layout_constraints() -> Seq<Constraint> {
        seq![
            Constraint {
                a: 0,
                b: 1,
                kind: ConstraintKind::Stick { rest_length: 15360 },
                stiffness: SCALE,
                solid: true,
            },
            Constraint {
                a: 0,
                b: 2,
                kind: ConstraintKind::Stick { rest_length: 15360 },
                stiffness: SCALE,
                solid: true,
            },
            Constraint {
                a: 0,
                b: 3,
                kind: ConstraintKind::Stick { rest_length: 16190 },
                stiffness: SCALE,
                solid: true,
            },
            Constraint {
                a: 2,
                b: 3,
                kind: ConstraintKind::Stick { rest_length: 5120 },
                stiffness: SCALE,
                solid: true,
            },
            Constraint {
                a: 3,
                b: 1,
                kind: ConstraintKind::Stick { rest_length: 31143 },
                stiffness: SCALE,
                solid: false,
            },
        ]
    }

    /// A rifle of the given draw color, carried at the root bone, aiming
    /// along the positive x-axis, with its authored strut layout: a barrel
    /// line from the stock through the center, a stock triangle, and a soft
    /// diagonal brace.
    pub fn new(color: u32) -> (r: StandardRifle)
        ensures
            r.wf(),
            !r.has_ragdoll,
            !r.rigid.dynamic,
            r.color == color,
            r.bone@ == "Root"@,
            r.recoil == 0,
            r.ragdoll_timer == 0,
            r.gravity == (Vec2 { x: 0, y: 0 }),
            r.direction == (Angle { cos: SCALE, sin: 0 }),
            r.rigid.template.offsets@ == StandardRifle::spec_layout_offsets(),
            r.rigid.template.constraints@ == StandardRifle::spec_layout_constraints(),
            r.rigid.system.constraints@ == StandardRifle::spec_layout_constraints(),
            r.rigid.template.names@.len() == 4,
            r.rigid.template.names@[0]@ == "Center"@,
            r.rigid.template.names@[1]@ == "Barrel"@,
            r.rigid.template.names@[2]@ == "StockMid"@,
            r.rigid.template.names@[3]@ == "StockLow"@,
            r.rigid.system.particles@.len() == 4,
            forall|i: int|
                0 <= i < 4 ==> #[trigger] r.rigid.system.particles@[i] == (Particle {
                    position: StandardRifle::spec_layout_offsets()[i],
                    previous_position: StandardRifle::spec_layout_offsets()[i],
                    inverse_mass: 0,
                }),
    {
        let mut names: Vec<String> = Vec::new();
        names.push(String::from_str("Center"));
        names.push(String::from_str("Barrel"));
        names.push(String::from_str("StockMid"));
        names.push(String::from_str("StockLow"));
        let mut offsets: Vec<Vec2> = Vec::new();
        offsets.push(Vec2 { x: 15360, y: 0 });
        offsets.push(Vec2 { x: 30720, y: 0 });
        offsets.push(Vec2 { x: 0, y: 0 });
        offsets.push(Vec2 { x: 0, y: 5120 });
        let mut constraints: Vec<Constraint> = Vec::new();
        constraints.push(
            Constraint {
                a: 0,
                b: 1,
                kind: ConstraintKind::Stick { rest_length: 15360 },
                stiffness: SCALE,
                solid: true,
            },
        );
        constraints.push(
            Constraint {
                a: 0,
                b: 2,
                kind: ConstraintKind::Stick { rest_length: 15360 },
                stiffness: SCALE,
                solid: true,
            },
        );
        constraints.push(
            Constraint {
                a: 0,
                b: 3,
                kind: ConstraintKind::Stick { rest_length: 16190 },
                stiffness: SCALE,
                solid: true,
            },
        );
        constraints.push(
            Constraint {
                a: 2,
                b: 3,
                kind: ConstraintKind::Stick { rest_length: 5120 },
                stiffness: SCALE,
                solid: true,
            },
        );
        constraints.push(
            Constraint {
                a: 3,
                b: 1,
                kind: ConstraintKind::Stick { rest_length: 31143 },
                stiffness: SCALE,
                solid: false,
            },
        );
        let template = ParticleTemplate { names, offsets, constraints };
        proof {
            assert(template.offsets@ =~= StandardRifle::spec_layout_offsets());
            assert(template.constraints@ =~= StandardRifle::spec_layout_constraints());
            assert forall|i: int|
                0 <= i < template.constraints@.len() implies (#[trigger] template.constraints@[
                i
            ]).wf(template.offsets@.len() as nat) by {
                if i == 0 {
                } else if i == 1 {
                } else if i == 2 {
                } else if i == 3 {
                } else {
                    assert(i == 4);
                }
            }
            assert forall|i: int|
                0 <= i < template.offsets@.len() implies (#[trigger] template.offsets@[
                i
            ]).in_bounds() by {
                if i == 0 {
                } else if i == 1 {
                } else if i == 2 {
                } else {
                    assert(i == 3);
                }
            }
        }
        let system = ParticleSystem::from_template(&template);
        let rigid = RigidBody { template, system, dynamic: false };
        StandardRifle {
            bone: String::from_str("Root"),
            color,
            has_ragdoll: false,
            ragdoll_timer: 0,
            gravity: Vec2 { x: 0, y: 0 },
            direction: Angle { cos: SCALE, sin: 0 },
            recoil: 0,
            rigid,
        }
    }

    /// Set the recoil displacement.
    pub fn set_recoil(&mut self, recoil: i64)
        requires
            old(self).wf(),
            0 <= recoil <= RECOIL_LIMIT,
        ensures
            final(self).wf(),
            *final(self) == (StandardRifle { recoil: recoil, ..*old(self) }),
    {
        self.recoil = recoil;
    }

    /// Set the aim rotation.
    pub fn set_aim_direction(&mut self, direction: Angle)
        requires
            old(self).wf(),
            direction.wf(),
        ensures
            final(self).wf(),
            *final(self) == (StandardRifle { direction: direction, ..*old(self) }),
    {
        self.direction = direction;
    }

    /// Set the bone the rifle hangs from.
    pub fn set_bone(&mut self, bone: String)
        requires
            old(self).wf(),
        ensures
            final(self).wf(),
            final(self).bone == bone,
            *final(self) == (StandardRifle { bone: bone, ..*old(self) }),
    {
        self.bone = bone;
    }

    /// Take the rifle back in hand.  Possible only while the rigid body has
    /// never been released; a released rifle stays a ragdoll.
    pub fn attach(&mut self, _skeleton: &Skeleton)
        requires
            old(self).wf(),
        ensures
            final(self).wf(),
            !old(self).has_ragdoll ==> *final(self) == (StandardRifle {
                ragdoll_timer: 0,
                ..*old(self)
            }),
            old(self).has_ragdoll ==> *final(self) == *old(self),
    {
        if !self.has_ragdoll {
            self.ragdoll_timer = 0;
        }
    }

    /// Whether the rifle is still carried.
    pub fn attached(&self) -> (r: bool)
        ensures
            r == !self.has_ragdoll,
    {
        !self.has_ragdoll
    }

    /// Drop the rifle: release its rigid body into physics.  One way, and
    /// idempotent — dropping an already dropped rifle changes nothing.
    pub fn detach(&mut self, _skeleton: &Skeleton)
        requires
            old(self).wf(),
        ensures
            final(self).wf(),
            final(self).has_ragdoll,
            old(self).has_ragdoll ==> *final(self) == *old(self),
            !old(self).has_ragdoll ==> {
                &&& final(self).rigid.dynamic
                &&& final(self).rigid.system.particles@ == crate::rigid_body::spec_make_dynamic(
                    false,
                    old(self).rigid.system.particles@,
                ).1
                &&& final(self).ragdoll_timer == old(self).ragdoll_timer
                &&& final(self).recoil == old(self).recoil
            },
    {
        if !self.has_ragdoll {
            self.has_ragdoll = true;
            self.rigid.make_dynamic();
        }
    }

    /// Kick the dropped rifle with an impulse and restart its settle timer.
    pub fn apply_force(&mut self, force: Vec2)
        requires
            old(self).wf(),
            abs(force.x as int) <= FORCE_LIMIT,
            abs(force.y as int) <= FORCE_LIMIT,
        ensures
            final(self).wf(),
            final(self).ragdoll_timer == 0,
            final(self).has_ragdoll == old(self).has_ragdoll,
            final(self).rigid.system.particles@.len() == old(self).rigid.system.particles@.len(),
            forall|i: int|
                0 <= i < old(self).rigid.system.particles@.len() ==> #[trigger] final(self).rigid.system.particles@[i] == crate::particle::spec_apply_force(
                    old(self).rigid.system.particles@[i],
                    force,
                ),
    {
        self.ragdoll_timer = 0;
        self.rigid.apply_dynamic_force(force);
    }

    /// The inverse-kinematics requests the rifle hands its carrier: a grip
    /// target for the leading hand and a trigger target for the other,
    /// placed from the carrying bone's animation-space end.  None once the
    /// rifle is dropped.
    pub fn get_iks(&self, skeleton: &Skeleton) -> (r: Option<Vec<(String, Vec2, bool)>>)
        requires
            self.wf(),
            skeleton.wf(),
            exists|i: int|
                0 <= i < skeleton.data.bones@.len() && (#[trigger] skeleton.data.bones@[i]).name@
                    == self.bone@,
        ensures
            r is Some <==> !self.has_ragdoll,
            r matches Some(iks) ==> {
                &&& iks@.len() == 2
                &&& iks@[0].0@ == "L.Hand"@
                &&& iks@[1].0@ == "R.Hand"@
                &&& iks@[0].2 == true
                &&& iks@[1].2 == true
                &&& exists|i: int|
                    0 <= i < skeleton.data.bones@.len() && (#[trigger] skeleton.data.bones@[
                        i
                    ]).name@ == self.bone@ && iks@[0].1 == spec_hand_point(
                        skeleton.animation_points@[i + 1],
                        spec_aim(self.direction),
                        GRIP_REACH - self.recoil,
                        GRIP_DROP as int,
                    ) && iks@[1].1 == spec_hand_point(
                        skeleton.animation_points@[i + 1],
                        spec_aim(self.direction),
                        TRIGGER_REACH - spec_tdiv(self.recoil as int, 2),
                        TRIGGER_DROP as int,
                    )
            },
    {
        if self.has_ragdoll {
            return None;
        }
        let bone = match skeleton.get_bone_index(&self.bone) {
            Some(i) => i,
            None => {
                proof {
                    assert(false);
                }
                return None;
            },
        };
        let shoulder = skeleton.get_bone_end_ik(bone);
        let aim = if self.direction.cos >= 0 {
            self.direction
        } else {
            self.direction.mirrored()
        };
        let grip = hand_point(shoulder, aim, GRIP_REACH - self.recoil, GRIP_DROP);
        let trigger = hand_point(shoulder, aim, TRIGGER_REACH - tdiv(self.recoil, 2), TRIGGER_DROP);
        let mut iks: Vec<(String, Vec2, bool)> = Vec::new();
        iks.push((String::from_str("L.Hand"), grip, true));
        iks.push((String::from_str("R.Hand"), trigger, true));
        Some(iks)
    }

    /// Place the carried rifle statically at its bone's world-space end,
    /// pulled back by the recoil and mirrored to the aim's side.  Does
    /// nothing once the rifle is dropped.
    pub fn fixate(&mut self, skeleton: &Skeleton)
        requires
            old(self).wf(),
            skeleton.wf(),
            exists|i: int|
                0 <= i < skeleton.data.bones@.len() && (#[trigger] skeleton.data.bones@[i]).name@
                    == old(self).bone@,
        ensures
            final(self).wf(),
            old(self).has_ragdoll ==> *final(self) == *old(self),
            !old(self).has_ragdoll ==> {
                &&& final(self).has_ragdoll == old(self).has_ragdoll
                &&& final(self).rigid.system.particles@.len() == old(self).rigid.system.particles@.len()
                &&& exists|i: int|
                    0 <= i < skeleton.data.bones@.len() && (#[trigger] skeleton.data.bones@[
                        i
                    ]).name@ == old(self).bone@ && forall|j: int|
                        0 <= j < old(self).rigid.system.particles@.len() ==> #[trigger] final(self).rigid.system.particles@[j] == (Particle {
                            position: spec_static_place(
                                old(self).rigid.template.offsets@[j],
                                Vec2 { x: -(old(self).recoil as int) as i64, y: 0 },
                                spec_facing(old(self).direction),
                                spec_aim(old(self).direction),
                                skeleton.system.particles@[i + 1].position,
                            ),
                            previous_position: spec_static_place(
                                old(self).rigid.template.offsets@[j],
                                Vec2 { x: -(old(self).recoil as int) as i64, y: 0 },
                                spec_facing(old(self).direction),
                                spec_aim(old(self).direction),
                                skeleton.system.particles@[i + 1].position,
                            ),
                            inverse_mass: old(self).rigid.system.particles@[j].inverse_mass,
                        })
            },
    {
        if !self.has_ragdoll {
            let bone = match skeleton.get_bone_index(&self.bone) {
                Some(i) => i,
                None => {
                    proof {
                        assert(false);
                    }
                    return ;
                },
            };
            let shoulder = skeleton.get_bone_end_world(bone);
            let facing = if self.direction.cos >= 0 {
                Vec2 { x: 1, y: 1 }
            } else {
                Vec2 { x: -1, y: 1 }
            };
            let aim = if self.direction.cos >= 0 {
                self.direction
            } else {
                self.direction.mirrored()
            };
            self.rigid.step_static(shoulder, Vec2 { x: -self.recoil, y: 0 }, facing, aim);
        }
    }

    /// Set the gravity a dropped rifle falls under.
    pub fn set_gravity(&mut self, gravity: Vec2)
        requires
            old(self).wf(),
            abs(gravity.x as int) <= FORCE_LIMIT,
            abs(gravity.y as int) <= FORCE_LIMIT,
        ensures
            final(self).wf(),
            *final(self) == (StandardRifle { gravity: gravity, ..*old(self) }),
    {
        self.gravity = gravity;
    }

    /// One simulation step of the dropped rifle: advance the settle timer,
    /// integrate, relax and collide the rigid body, and settle (halve the
    /// mass response of) every particle the world corrected once the rifle
    /// has been loose for over a second.  A carried rifle does not step.
    /// The returned list carries the collider's answer for each particle.
    #[verifier::loop_isolation(false)]
    pub fn step<C: Collider>(&mut self, dt: i64, collider: &C) -> (collided: Vec<Option<Vec2>>)
        requires
            old(self).wf(),
            0 < dt <= SCALE,
        ensures
            final(self).wf(),
            !old(self).has_ragdoll ==> *final(self) == *old(self) && collided@.len() == 0,
            old(self).has_ragdoll ==> {
                let stepped = spec_relax(
                    spec_integrate(
                        old(self).rigid.system.particles@,
                        dt as int,
                        old(self).gravity,
                        old(self).rigid.system.damping as int,
                    ),
                    old(self).rigid.system.constraints@,
                    RIFLE_RELAX as int,
                );
                let new_timer = if old(self).ragdoll_timer + dt > RIFLE_TIMER_LIMIT {
                    RIFLE_TIMER_LIMIT as int
                } else {
                    old(self).ragdoll_timer + dt
                };
                &&& final(self).ragdoll_timer == new_timer
                &&& final(self).has_ragdoll
                &&& collided@.len() == old(self).rigid.system.particles@.len()
                &&& final(self).rigid.system.particles@.len() == old(self).rigid.system.particles@.len()
                &&& forall|i: int|
                    0 <= i < collided@.len() && collided@[i] is None ==> #[trigger] final(self).rigid.system.particles@[i] == stepped[i]
                &&& forall|i: int|
                    0 <= i < collided@.len() && collided@[i] is Some ==> {
                        &&& (#[trigger] final(self).rigid.system.particles@[i]).position == (Vec2 {
                            x: crate::fixed::spec_clamp(collided@[i]->Some_0.x as int) as i64,
                            y: crate::fixed::spec_clamp(collided@[i]->Some_0.y as int) as i64,
                        })
                        &&& final(self).rigid.system.particles@[i].previous_position
                            == stepped[i].previous_position
                        &&& final(self).rigid.system.particles@[i].position.in_bounds()
                        &&& final(self).rigid.system.particles@[i].inverse_mass == if new_timer
                            > SCALE {
                            SETTLED_INV_MASS as int
                        } else {
                            stepped[i].inverse_mass as int
                        }
                    }
            },
    {
        if !self.has_ragdoll {
            let collided: Vec<Option<Vec2>> = Vec::new();
            return collided;
        }
        if self.ragdoll_timer + dt > RIFLE_TIMER_LIMIT {
            self.ragdoll_timer = RIFLE_TIMER_LIMIT;
        } else {
            self.ragdoll_timer = self.ragdoll_timer + dt;
        }
        let collided = self.rigid.step_dynamic(dt, self.gravity, collider, RIFLE_RELAX);
        proof {
            let mid = spec_integrate(
                old(self).rigid.system.particles@,
                dt as int,
                old(self).gravity,
                old(self).rigid.system.damping as int,
            );
            crate::particle::lemma_integrate_props(
                old(self).rigid.system.particles@,
                dt as int,
                old(self).gravity,
                old(self).rigid.system.damping as int,
            );
            crate::particle::lemma_relax_props(
                mid,
                old(self).rigid.system.constraints@,
                RIFLE_RELAX as int,
            );
        }
        if self.ragdoll_timer > SCALE {
            let ghost before_settle = self.rigid.system.particles@;
            let n = self.rigid.particle_count();
            let mut i: usize = 0;
            while i < n
                invariant
                    i <= n,
                    self.rigid.wf(),
                    self.rigid.dynamic == old(self).rigid.dynamic,
                    self.rigid.template == old(self).rigid.template,
                    self.has_ragdoll,
                    self.recoil == old(self).recoil,
                    self.direction == old(self).direction,
                    self.gravity == old(self).gravity,
                    self.color == old(self).color,
                    self.bone == old(self).bone,
                    0 <= self.recoil <= RECOIL_LIMIT,
                    self.direction.wf(),
                    abs(self.gravity.x as int) <= FORCE_LIMIT,
                    abs(self.gravity.y as int) <= FORCE_LIMIT,
                    self.ragdoll_timer as int == (if old(self).ragdoll_timer + dt
                        > RIFLE_TIMER_LIMIT {
                        RIFLE_TIMER_LIMIT as int
                    } else {
                        old(self).ragdoll_timer + dt
                    }),
                    0 <= self.ragdoll_timer <= RIFLE_TIMER_LIMIT,
                    self.ragdoll_timer > SCALE,
                    n == before_settle.len(),
                    collided@.len() == n,
                    self.rigid.system.particles@.len() == n,
                    self.rigid.system.constraints@ == old(self).rigid.system.constraints@,
                    self.rigid.system.names@ == old(self).rigid.system.names@,
                    self.rigid.system.damping == old(self).rigid.system.damping,
                    forall|j: int|
                        0 <= j < i && collided@[j] is Some ==> #[trigger] self.rigid.system.particles@[j]
                            == (Particle {
                            position: before_settle[j].position,
                            previous_position: before_settle[j].previous_position,
                            inverse_mass: SETTLED_INV_MASS,
                        }),
                    forall|j: int|
                        0 <= j < i && collided@[j] is None ==> #[trigger] self.rigid.system.particles@[j]
                            == before_settle[j],
                    forall|j: int|
                        i <= j < n ==> self.rigid.system.particles@[j] == before_settle[j],
                decreases n - i,
            {
                if collided[i].is_some() {
                    self.rigid.set_particle_inverse_mass(i, SETTLED_INV_MASS);
                }
                i += 1;
            }
        }
        collided
    }

    /// The rifle's draw list: one colored world-space segment per strut,
    /// recomputed fresh each call.
    pub fn draw(&self) -> (segments: Vec<(Vec2, Vec2, u32)>)
        requires
            self.wf(),
        ensures
            segments@.len() == self.rigid.system.constraints@.len(),
            forall|k: int|
                0 <= k < segments@.len() ==> #[trigger] segments@[k] == (
                    self.rigid.system.particles@[
                        self.rigid.system.constraints@[k].a as int
                    ].position,
                    self.rigid.system.particles@[
                        self.rigid.system.constraints@[k].b as int
                    ].position,
                    self.color,
                ),
    {
        let bare = if self.has_ragdoll {
            self.rigid.visit_dynamic()
        } else {
            self.rigid.visit_static()
        };
        let mut segments: Vec<(Vec2, Vec2, u32)> = Vec::new();
        let n = bare.len();
        let mut i: usize = 0;
        while i < n
            invariant
                i <= n,
                n == bare@.len(),
                bare@.len() == self.rigid.system.constraints@.len(),
                forall|k: int|
                    0 <= k < bare@.len() ==> #[trigger] bare@[k] == (
                        self.rigid.system.particles@[
                            self.rigid.system.constraints@[k].a as int
                        ].position,
                        self.rigid.system.particles@[
                            self.rigid.system.constraints@[k].b as int
                        ].position,
                    ),
                segments@.len() == i,
                forall|k: int|
                    0 <= k < i ==> #[trigger] segments@[k] == (
                        self.rigid.system.particles@[
                            self.rigid.system.constraints@[k].a as int
                        ].position,
                        self.rigid.system.particles@[
                            self.rigid.system.constraints@[k].b as int
                        ].position,
                        self.color,
                    ),
            decreases n - i,
        {
            let seg = bare[i];
            segments.push((seg.0, seg.1, self.color));
            i += 1;
        }
        segments
    }
}

/// A hand target: `reach` along the aim from the shoulder, `drop` across
/// it, exactly `spec_hand_point`.
fn hand_point(shoulder: Vec2, aim: Angle, reach: i64, drop: i64) -> (r: Vec2)
    requires
        shoulder.in_bounds(),
        aim.wf(),
        abs(reach as int) <= 0x8000_0000,
        abs(drop as int) <= 0x8000_0000,
    ensures
        r == spec_hand_point(shoulder, aim, reach as int, drop as int),
        r.in_bounds(),
{
    let along = aim.offset(reach);
    let across = aim.perp().offset(drop);
    Vec2 {
        x: crate::fixed::clamp_coord(shoulder.x + along.x + across.x),
        y: crate::fixed::clamp_coord(shoulder.y + along.y + across.y),
    }
}

} // verus!
