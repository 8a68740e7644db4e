//! Rigid props: a small particle-constraint assembly that is either carried
//! (static: every particle kinematically placed from an external transform)
//! or free (dynamic: integrated, relaxed and collided each step).  The mode
//! switch is one way — a released prop never snaps back by itself.

use vstd::prelude::*;
use vstd::math::abs;
use crate::fixed::{SCALE, FORCE_LIMIT, INV_MASS_LIMIT, spec_clamp, mul64, clamp_coord};
use crate::util::{Vec2, Angle, spec_rotate_x, spec_rotate_y};
use crate::particle::{
    Particle, ParticleTemplate, ParticleSystem, TemplateError, spec_integrate, spec_relax,
    spec_apply_force, template_input_ok,
};

verus! {

/// The narrow query through which external world geometry participates:
/// given a proposed particle position, either no correction, or the clamped
/// position with the sign of the horizontal and vertical push.
///
/// The engine promises nothing about what an implementation answers; every
/// contract downstream states what holds whatever comes back.
pub trait Collider {
    /// Clamp a proposed position against the world, if it must move.
    fn query(&self, p: Vec2) -> Option<(Vec2, i64, i64)>;
}

/// Where a static step places one particle: the template offset shifted by
/// `offset`, mirrored component-wise by `facing`, rotated, moved to the
/// anchor, and clamped into the coordinate range.
pub open spec fn spec_static_place(
    template_off: Vec2,
    offset: Vec2,
    facing: Vec2,
    rotation: Angle,
    anchor: Vec2,
) -> Vec2 {
    let local = Vec2 {
        x: ((template_off.x + offset.x) * facing.x) as i64,
        y: ((template_off.y + offset.y) * facing.y) as i64,
    };
    Vec2 {
        x: spec_clamp(anchor.x + spec_rotate_x(rotation, local)) as i64,
        y: spec_clamp(anchor.y + spec_rotate_y(rotation, local)) as i64,
    }
}

/// The one-way mode switch on the model level: freeing a static body makes
/// every particle movable with unit inverse mass and touches nothing else;
/// a body already dynamic is left exactly as it is.
pub open spec fn spec_make_dynamic(dynamic: bool, ps: Seq<Particle>) -> (bool, Seq<Particle>) {
    if dynamic {
        (true, ps)
    } else {
        (
            true,
            Seq::new(
                ps.len(),
                |i: int| Particle {
                    position: ps[i].position,
                    previous_position: ps[i].previous_position,
                    inverse_mass: SCALE,
                },
            ),
        )
    }
}

/// Law: the static-to-dynamic transition happens at most once.  Freeing a
/// body twice is the same as freeing it once — the second call changes no
/// position, no velocity estimate and no mass.
pub proof fn lemma_make_dynamic_idempotent(dynamic: bool, ps: Seq<Particle>)
    ensures
        spec_make_dynamic(
            spec_make_dynamic(dynamic, ps).0,
            spec_make_dynamic(dynamic, ps).1,
        ) == spec_make_dynamic(dynamic, ps),
{
}

/// An immutable description of a prop: named particle offsets and named
/// constraint pairs, with a flag marking the solid (always relaxed) pairs.
pub struct RigidBodyData {
    pub points: Vec<(String, Vec2)>,
    pub constraints: Vec<(String, String, bool)>,
}

/// A live prop: a particle system cloned from a validated template, plus
/// the one-way static/dynamic mode flag.
pub struct RigidBody {
    pub template: ParticleTemplate,
    pub system: ParticleSystem,
    pub dynamic: bool,
}

impl RigidBody {
    /// The state every operation preserves.
    pub open spec fn wf(self) -> bool {
        &&& self.template.wf()
        &&& self.system.wf()
        &&& self.system.particles@.len() == self.template.offsets@.len()
        &&& self.system.constraints@ == self.template.constraints@
    }

    /// Build a prop from its description; the template is validated here,
    /// once, and the particles start at their offsets, immovable (carried).
    pub fn new(data: RigidBodyData) -> (r: Result<RigidBody, TemplateError>)
        ensures
            r is Ok <==> template_input_ok(data.points@, data.constraints@),
            r matches Ok(rb) ==> {
                &&& rb.wf()
                &&& !rb.dynamic
                &&& rb.system.particles@.len() == data.points@.len()
                &&& forall|i: int|
                    0 <= i < data.points@.len() ==> #[trigger] rb.system.particles@[i] == (Particle {
                        position: data.points@[i].1,
                        previous_position: data.points@[i].1,
                        inverse_mass: 0,
                    })
            },
    {
        let pts_len = data.points.len();
        let ghost points_view = data.points@;
        let template = match ParticleTemplate::new(data.points, data.constraints) {
            Ok(t) => t,
            Err(e) => {
                return Err(e);
            },
        };
        let system = ParticleSystem::from_template(&template);
        Ok(RigidBody { template, system, dynamic: false })
    }

    /// Whether the prop has been released into physics.
    pub fn is_dynamic(&self) -> (r: bool)
        ensures
            r == self.dynamic,
    {
        self.dynamic
    }

    /// How many particles the prop owns.
    pub fn particle_count(&self) -> (r: usize)
        ensures
            r == self.system.particles@.len(),
    {
        self.system.particle_count()
    }

    /// Read one particle.
    pub fn get_particle(&self, i: usize) -> (r: Particle)
        requires
            i < self.system.particles@.len(),
        ensures
            r == self.system.particles@[i as int],
    {
        self.system.get_particle(i)
    }

    /// Kinematic placement while the prop is carried: every particle is
    /// hard-set (position and previous position alike) from the template
    /// offsets under the given transform.  No integration, no relaxation.
    /// Static-only: released props may no longer be carried.
    #[verifier::loop_isolation(false)]
    pub fn step_static(&mut self, anchor: Vec2, offset: Vec2, facing: Vec2, rotation: Angle)
        requires
            old(self).wf(),
            !old(self).dynamic,
            anchor.in_bounds(),
            offset.in_bounds(),
            facing.x == 1 || facing.x == -1,
            facing.y == 1 || facing.y == -1,
            rotation.wf(),
        ensures
            final(self).wf(),
            final(self).dynamic == old(self).dynamic,
            final(self).template == old(self).template,
            final(self).system.particles@.len() == old(self).system.particles@.len(),
            forall|i: int|
                0 <= i < old(self).system.particles@.len() ==> #[trigger] final(self).system.particles@[i] == (Particle {
                    position: spec_static_place(
                        old(self).template.offsets@[i],
                        offset,
                        facing,
                        rotation,
                        anchor,
                    ),
                    previous_position: spec_static_place(
                        old(self).template.offsets@[i],
                        offset,
                        facing,
                        rotation,
                        anchor,
                    ),
                    inverse_mass: old(self).system.particles@[i].inverse_mass,
                }),
            final(self).system.constraints@ == old(self).system.constraints@,
            final(self).system.names@ == old(self).system.names@,
            final(self).system.damping == old(self).system.damping,
    {
        let n = self.system.particle_count();
        let mut i: usize = 0;
        while i < n
            invariant
                i <= n,
                self.system.wf(),
                self.template == old(self).template,
                self.dynamic == old(self).dynamic,
                self.system.particles@.len() == n,
                self.system.constraints@ == old(self).system.constraints@,
                self.system.names@ == old(self).system.names@,
                self.system.damping == old(self).system.damping,
                forall|j: int|
                    0 <= j < i ==> #[trigger] self.system.particles@[j] == (Particle {
                        position: spec_static_place(
                            old(self).template.offsets@[j],
                            offset,
                            facing,
                            rotation,
                            anchor,
                        ),
                        previous_position: spec_static_place(
                            old(self).template.offsets@[j],
                            offset,
                            facing,
                            rotation,
                            anchor,
                        ),
                        inverse_mass: old(self).system.particles@[j].inverse_mass,
                    }),
                forall|j: int|
                    i <= j < n ==> self.system.particles@[j] == old(self).system.particles@[j],
            decreases n - i,
        {
            let toff = self.template.offsets[i];
            let lx = mul64(toff.x + offset.x, facing.x);
            let ly = mul64(toff.y + offset.y, facing.y);
            let local = Vec2 { x: lx, y: ly };
            let rotated = rotation.rotate(local);
            let pos = Vec2 {
                x: clamp_coord(anchor.x + rotated.x),
                y: clamp_coord(anchor.y + rotated.y),
            };
            self.system.set_particle_position(i, pos);
            i += 1;
        }
    }

    /// The one-way release into physics.  Positions and velocity estimates
    /// are left exactly as they are — the carried pose becomes the first
    /// dynamic state, so the hand-off shows no pop — and calling this again
    /// later changes nothing at all.
    #[verifier::loop_isolation(false)]
    pub fn make_dynamic(&mut self)
        requires
            old(self).wf(),
        ensures
            final(self).wf(),
            final(self).template == old(self).template,
            final(self).dynamic == spec_make_dynamic(
                old(self).dynamic,
                old(self).system.particles@,
            ).0,
            final(self).system.particles@ == spec_make_dynamic(
                old(self).dynamic,
                old(self).system.particles@,
            ).1,
            old(self).dynamic ==> *final(self) == *old(self),
            final(self).system.constraints@ == old(self).system.constraints@,
            final(self).system.names@ == old(self).system.names@,
            final(self).system.damping == old(self).system.damping,
    {
        if self.dynamic {
            return ;
        }
        self.dynamic = true;
        let n = self.system.particle_count();
        let mut i: usize = 0;
        while i < n
            invariant
                i <= n,
                self.system.wf(),
                self.dynamic,
                self.template == old(self).template,
                self.system.particles@.len() == n,
                self.system.constraints@ == old(self).system.constraints@,
                self.system.names@ == old(self).system.names@,
                self.system.damping == old(self).system.damping,
                forall|j: int|
                    0 <= j < i ==> #[trigger] self.system.particles@[j] == (Particle {
                        position: old(self).system.particles@[j].position,
                        previous_position: old(self).system.particles@[j].previous_position,
                        inverse_mass: SCALE,
                    }),
                forall|j: int|
                    i <= j < n ==> self.system.particles@[j] == old(self).system.particles@[j],
            decreases n - i,
        {
            self.system.set_inverse_mass(i, SCALE);
            i += 1;
        }
        proof {
            assert(self.system.particles@ =~= spec_make_dynamic(
                old(self).dynamic,
                old(self).system.particles@,
            ).1);
        }
    }

    /// Inject an impulse into every particle — a release kick or a hit.
    #[verifier::loop_isolation(false)]
    pub fn apply_dynamic_force(&mut self, force: Vec2)
        requires
            old(self).wf(),
            abs(force.x as int) <= FORCE_LIMIT,
            abs(force.y as int) <= FORCE_LIMIT,
        ensures
            final(self).wf(),
            final(self).template == old(self).template,
            final(self).dynamic == old(self).dynamic,
            final(self).system.particles@.len() == old(self).system.particles@.len(),
            forall|i: int|
                0 <= i < old(self).system.particles@.len() ==> #[trigger] final(self).system.particles@[i] == spec_apply_force(old(self).system.particles@[i], force),
            final(self).system.constraints@ == old(self).system.constraints@,
            final(self).system.names@ == old(self).system.names@,
            final(self).system.damping == old(self).system.damping,
    {
        let n = self.system.particle_count();
        let mut i: usize = 0;
        while i < n
            invariant
                i <= n,
                self.system.wf(),
                self.template == old(self).template,
                self.dynamic == old(self).dynamic,
                self.system.particles@.len() == n,
                self.system.constraints@ == old(self).system.constraints@,
                self.system.names@ == old(self).system.names@,
                self.system.damping == old(self).system.damping,
                forall|j: int|
                    0 <= j < i ==> #[trigger] self.system.particles@[j] == spec_apply_force(
                        old(self).system.particles@[j],
                        force,
                    ),
                forall|j: int|
                    i <= j < n ==> self.system.particles@[j] == old(self).system.particles@[j],
            decreases n - i,
        {
            self.system.apply_force(i, force);
            i += 1;
        }
    }

    /// One dynamic step: Verlet integration, `iterations` relaxation passes,
    /// then one collider query per particle.  The physics part is pinned
    /// exactly; where the collider corrected a particle, its stored position
    /// is the collider's answer clamped into range (velocity estimate and
    /// mass untouched), and the returned list carries each answer.
    #[verifier::loop_isolation(false)]
    pub fn step_dynamic<C: Collider>(
        &mut self,
        dt: i64,
        gravity: Vec2,
        collider: &C,
        iterations: usize,
    ) -> (collided: Vec<Option<Vec2>>)
        requires
            old(self).wf(),
            old(self).dynamic,
            0 < dt <= SCALE,
            abs(gravity.x as int) <= FORCE_LIMIT,
            abs(gravity.y as int) <= FORCE_LIMIT,
        ensures
            final(self).wf(),
            final(self).template == old(self).template,
            final(self).dynamic == old(self).dynamic,
            collided@.len() == old(self).system.particles@.len(),
            final(self).system.particles@.len() == old(self).system.particles@.len(),
            forall|i: int|
                0 <= i < old(self).system.particles@.len() && collided@[i] is None ==> #[trigger] final(self).system.particles@[i] == spec_relax(
                    spec_integrate(
                        old(self).system.particles@,
                        dt as int,
                        gravity,
                        old(self).system.damping as int,
                    ),
                    old(self).system.constraints@,
                    iterations as int,
                )[i],
            forall|i: int|
                0 <= i < old(self).system.particles@.len() && collided@[i] is Some ==> {
                    &&& (#[trigger] final(self).system.particles@[i]).position == (Vec2 {
                        x: spec_clamp(collided@[i]->Some_0.x as int) as i64,
                        y: spec_clamp(collided@[i]->Some_0.y as int) as i64,
                    })
                    &&& final(self).system.particles@[i].previous_position
                        == spec_relax(
                        spec_integrate(
                            old(self).system.particles@,
                            dt as int,
                            gravity,
                            old(self).system.damping as int,
                        ),
                        old(self).system.constraints@,
                        iterations as int,
                    )[i].previous_position
                    &&& final(self).system.particles@[i].inverse_mass == spec_relax(
                        spec_integrate(
                            old(self).system.particles@,
                            dt as int,
                            gravity,
                            old(self).system.damping as int,
                        ),
                        old(self).system.constraints@,
                        iterations as int,
                    )[i].inverse_mass
                    &&& final(self).system.particles@[i].position.in_bounds()
                },
            final(self).system.constraints@ == old(self).system.constraints@,
            final(self).system.names@ == old(self).system.names@,
            final(self).system.damping == old(self).system.damping,
    {
        self.system.integrate(dt, gravity);
        self.system.relax(iterations);
        let ghost settled = self.system.particles@;
        let n = self.system.particle_count();
        let mut collided: Vec<Option<Vec2>> = Vec::new();
        let mut i: usize = 0;
        while i < n
            invariant
                i <= n,
                self.system.wf(),
                self.template == old(self).template,
                self.dynamic == old(self).dynamic,
                self.system.particles@.len() == n,
                settled.len() == n,
                collided@.len() == i,
                self.system.constraints@ == old(self).system.constraints@,
                self.system.names@ == old(self).system.names@,
                self.system.damping == old(self).system.damping,
                forall|j: int|
                    0 <= j < i && collided@[j] is None ==> #[trigger] self.system.particles@[j]
                        == settled[j],
                forall|j: int|
                    0 <= j < i && collided@[j] is Some ==> {
                        &&& (#[trigger] self.system.particles@[j]).position == (Vec2 {
                            x: spec_clamp(collided@[j]->Some_0.x as int) as i64,
                            y: spec_clamp(collided@[j]->Some_0.y as int) as i64,
                        })
                        &&& self.system.particles@[j].previous_position
                            == settled[j].previous_position
                        &&& self.system.particles@[j].inverse_mass == settled[j].inverse_mass
                        &&& self.system.particles@[j].position.in_bounds()
                    },
                forall|j: int| i <= j < n ==> self.system.particles@[j] == settled[j],
            decreases n - i,
        {
            let p = self.system.get_particle(i);
            match collider.query(p.position) {
                Some((corrected, _, _)) => {
                    self.system.set_position(i, corrected.clamped());
                    collided.push(Some(corrected));
                },
                None => {
                    collided.push(None);
                },
            }
            i += 1;
        }
        collided
    }

    /// The prop's line segments while carried: one per constraint pair,
    /// solid and soft alike, recomputed fresh from the current particles.
    pub fn visit_static(&self) -> (segments: Vec<(Vec2, Vec2)>)
        requires
            self.wf(),
        ensures
            segments@.len() == self.system.constraints@.len(),
            forall|k: int|
                0 <= k < segments@.len() ==> #[trigger] segments@[k] == (
                    self.system.particles@[self.system.constraints@[k].a as int].position,
                    self.system.particles@[self.system.constraints@[k].b as int].position,
                ),
    {
        self.segments()
    }

    /// The prop's line segments while free; the same geometry, recomputed
    /// fresh each call.
    pub fn visit_dynamic(&self) -> (segments: Vec<(Vec2, Vec2)>)
        requires
            self.wf(),
        ensures
            segments@.len() == self.system.constraints@.len(),
            forall|k: int|
                0 <= k < segments@.len() ==> #[trigger] segments@[k] == (
                    self.system.particles@[self.system.constraints@[k].a as int].position,
                    self.system.particles@[self.system.constraints@[k].b as int].position,
                ),
    {
        self.segments()
    }

    /// One world-space segment per constraint.
    #[verifier::loop_isolation(false)]
    fn segments(&self) -> (segments: Vec<(Vec2, Vec2)>)
        requires
            self.wf(),
        ensures
            segments@.len() == self.system.constraints@.len(),
            forall|k: int|
                0 <= k < segments@.len() ==> #[trigger] segments@[k] == (
                    self.system.particles@[self.system.constraints@[k].a as int].position,
                    self.system.particles@[self.system.constraints@[k].b as int].position,
                ),
    {
        let nc = self.system.constraints.len();
        let mut segments: Vec<(Vec2, Vec2)> = Vec::new();
        let mut k: usize = 0;
        while k < nc
            invariant
                k <= nc,
                segments@.len() == k,
                forall|j: int|
                    0 <= j < k ==> #[trigger] segments@[j] == (
                        self.system.particles@[self.system.constraints@[j].a as int].position,
                        self.system.particles@[self.system.constraints@[j].b as int].position,
                    ),
            decreases nc - k,
        {
            let c = self.system.constraints[k];
            let pa = self.system.get_particle(c.a);
            let pb = self.system.get_particle(c.b);
            segments.push((pa.position, pb.position));
            k += 1;
        }
        segments
    }

    /// Overwrite one particle's inverse mass — the hook through which an
    /// owner settles a particle that has come to rest against the world.
    pub fn set_particle_inverse_mass(&mut self, index: usize, inverse_mass: i64)
        requires
            old(self).wf(),
            index < old(self).system.particles@.len(),
            0 <= inverse_mass <= INV_MASS_LIMIT,
        ensures
            final(self).wf(),
            final(self).template == old(self).template,
            final(self).dynamic == old(self).dynamic,
            final(self).system.particles@ == old(self).system.particles@.update(
                index as int,
                Particle {
                    position: old(self).system.particles@[index as int].position,
                    previous_position: old(self).system.particles@[index as int].previous_position,
                    inverse_mass: inverse_mass,
                },
            ),
            final(self).system.constraints@ == old(self).system.constraints@,
            final(self).system.names@ == old(self).system.names@,
            final(self).system.damping == old(self).system.damping,
    {
        self.system.set_inverse_mass(index, inverse_mass);
    }
}

} // verus!
