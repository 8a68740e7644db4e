//! The particle-constraint physics substrate.
//!
//! A `ParticleSystem` owns point masses in Verlet form (current and previous
//! position) and a fixed, ordered list of constraints.  `integrate` advances
//! free particles, `relax` projects the constraints in list order, and both
//! are pinned bit for bit to spec functions, so a step of the simulation is
//! a mathematical function of the state: there is no hidden nondeterminism.

use vstd::prelude::*;
use vstd::math::abs;
use crate::fixed::{
    SCALE, COORD_LIMIT, REST_LIMIT, INV_MASS_LIMIT, FORCE_LIMIT, spec_clamp, spec_tdiv, spec_sqrt,
    is_isqrt, clamp_coord, mul64, tdiv, isqrt, lemma_abs_mul_bound, lemma_tdiv_quotient_bound,
    lemma_tdiv_scaled, lemma_tdiv_abs_le, lemma_sqrt_exists,
};
use crate::util::Vec2;

verus! {

/// A point mass in Verlet form.  A particle with `inverse_mass == 0` is
/// immovable: integration skips it and relaxation assigns it no share of any
/// correction.
#[derive(Debug, Clone, Copy, PartialEq, Eq, Structural)]
pub struct Particle {
    pub position: Vec2,
    pub previous_position: Vec2,
    pub inverse_mass: i64,
}

impl Particle {
    /// Positions in range and a nonnegative, bounded inverse mass.
    pub open spec fn wf(self) -> bool {
        &&& self.position.in_bounds()
        &&& self.previous_position.in_bounds()
        &&& 0 <= self.inverse_mass <= INV_MASS_LIMIT
    }
}

/// What a constraint enforces between its particles.
#[derive(Debug, Clone, Copy, PartialEq, Eq, Structural)]
pub enum ConstraintKind {
    /// Keep particles `a` and `b` at distance `rest_length`.
    Stick { rest_length: i64 },
    /// Keep the distance between the two outer particles `a` and `b` of the
    /// joint at `joint` inside `[min_span, max_span]`.  For bone segments of
    /// fixed length this clamps, by the law of cosines, the angle the two
    /// segments form at the joint.
    Angular { joint: usize, min_span: i64, max_span: i64 },
}

/// A binary or ternary relation between particles, enforced by iterative
/// projection in fixed list order.
#[derive(Debug, Clone, Copy, PartialEq, Eq, Structural)]
pub struct Constraint {
    pub a: usize,
    pub b: usize,
    pub kind: ConstraintKind,
    /// Fraction of the error removed per pass, in `[0, SCALE]`.
    pub stiffness: i64,
    /// Solid constraints are enforced by every relaxation pass; soft ones
    /// only shape static placement and drawing.
    pub solid: bool,
}

impl Constraint {
    /// Indices in range and parameters inside the engine's limits.
    pub open spec fn wf(self, n: nat) -> bool {
        &&& (self.a as nat) < n
        &&& (self.b as nat) < n
        &&& self.a != self.b
        &&& 0 <= self.stiffness <= SCALE
        &&& match self.kind {
            ConstraintKind::Stick { rest_length } => 0 <= rest_length <= REST_LIMIT,
            ConstraintKind::Angular { joint, min_span, max_span } => (joint as nat) < n && 0
                <= min_span <= max_span <= REST_LIMIT,
        }
    }
}

/// Every particle of the sequence is well formed.
pub open spec fn ps_bounded(ps: Seq<Particle>) -> bool {
    forall|i: int| 0 <= i < ps.len() ==> ps[i].wf()
}

/// Particles and constraints are well formed together.
pub open spec fn ps_wf(ps: Seq<Particle>, cs: Seq<Constraint>) -> bool {
    &&& ps_bounded(ps)
    &&& forall|i: int| 0 <= i < cs.len() ==> cs[i].wf(ps.len())
}

/// Verlet integration of one particle:
/// `position + (position - previous_position) * damping + gravity * inverse_mass * dt^2`,
/// with `previous_position` set to the old position and the result clamped
/// into the coordinate range.  An immovable particle is left untouched.
pub open spec fn spec_integrate_particle(p: Particle, dt: int, g: Vec2, damping: int) -> Particle {
    if p.inverse_mass == 0 {
        p
    } else {
        let vx = spec_tdiv((p.position.x - p.previous_position.x) * damping, SCALE as int);
        let vy = spec_tdiv((p.position.y - p.previous_position.y) * damping, SCALE as int);
        let ax = spec_tdiv(
            spec_tdiv(spec_tdiv(g.x * p.inverse_mass, SCALE as int) * dt, SCALE as int) * dt,
            SCALE as int,
        );
        let ay = spec_tdiv(
            spec_tdiv(spec_tdiv(g.y * p.inverse_mass, SCALE as int) * dt, SCALE as int) * dt,
            SCALE as int,
        );
        Particle {
            position: Vec2 {
                x: spec_clamp(p.position.x + vx + ax) as i64,
                y: spec_clamp(p.position.y + vy + ay) as i64,
            },
            previous_position: p.position,
            inverse_mass: p.inverse_mass,
        }
    }
}

/// Verlet integration of every particle.
pub open spec fn spec_integrate(ps: Seq<Particle>, dt: int, g: Vec2, damping: int) -> Seq<
    Particle,
> {
    Seq::new(ps.len(), |i: int| spec_integrate_particle(ps[i], dt, g, damping))
}

/// One projection of the pair `(a, b)` toward distance `rest`.  The error is
/// scaled by `stiffness / SCALE` and split between the endpoints by their
/// share of the summed inverse mass, so an immovable endpoint absorbs none
/// of the correction.  A coincident pair or a fully immovable pair is left
/// unchanged.
pub open spec fn spec_project_pair(
    ps: Seq<Particle>,
    a: int,
    b: int,
    rest: int,
    stiffness: int,
) -> Seq<Particle> {
    let pa = ps[a];
    let pb = ps[b];
    let dx = pa.position.x - pb.position.x;
    let dy = pa.position.y - pb.position.y;
    let dist = spec_sqrt(dx * dx + dy * dy);
    let wsum = pa.inverse_mass + pb.inverse_mass;
    if dist == 0 || wsum == 0 {
        ps
    } else {
        let corr = spec_tdiv((dist - rest) * stiffness, SCALE as int);
        let ux = spec_tdiv(dx * corr, dist);
        let uy = spec_tdiv(dy * corr, dist);
        let na = Particle {
            position: Vec2 {
                x: spec_clamp(pa.position.x - spec_tdiv(ux * pa.inverse_mass, wsum)) as i64,
                y: spec_clamp(pa.position.y - spec_tdiv(uy * pa.inverse_mass, wsum)) as i64,
            },
            previous_position: pa.previous_position,
            inverse_mass: pa.inverse_mass,
        };
        let nb = Particle {
            position: Vec2 {
                x: spec_clamp(pb.position.x + spec_tdiv(ux * pb.inverse_mass, wsum)) as i64,
                y: spec_clamp(pb.position.y + spec_tdiv(uy * pb.inverse_mass, wsum)) as i64,
            },
            previous_position: pb.previous_position,
            inverse_mass: pb.inverse_mass,
        };
        ps.update(a, na).update(b, nb)
    }
}

/// The current distance between the particles `a` and `b`.
pub open spec fn spec_pair_span(ps: Seq<Particle>, a: int, b: int) -> int {
    let dx = ps[a].position.x - ps[b].position.x;
    let dy = ps[a].position.y - ps[b].position.y;
    spec_sqrt(dx * dx + dy * dy)
}

/// The effect of one constraint.  Soft constraints are skipped.  A stick
/// projects its pair to the rest length; an angular constraint projects the
/// outer pair back to the nearer bound of its allowed span, and does nothing
/// while the span is inside the bounds.
pub open spec fn spec_apply_constraint(ps: Seq<Particle>, c: Constraint) -> Seq<Particle> {
    if !c.solid {
        ps
    } else {
        match c.kind {
            ConstraintKind::Stick { rest_length } => spec_project_pair(
                ps,
                c.a as int,
                c.b as int,
                rest_length as int,
                c.stiffness as int,
            ),
            ConstraintKind::Angular { joint, min_span, max_span } => {
                let span = spec_pair_span(ps, c.a as int, c.b as int);
                if span < min_span {
                    spec_project_pair(ps, c.a as int, c.b as int, min_span as int, c.stiffness as int)
                } else if span > max_span {
                    spec_project_pair(ps, c.a as int, c.b as int, max_span as int, c.stiffness as int)
                } else {
                    ps
                }
            },
        }
    }
}

/// The first `k` constraints applied in list order.
pub open spec fn spec_relax_prefix(ps: Seq<Particle>, cs: Seq<Constraint>, k: int) -> Seq<Particle>
    decreases k,
{
    if k <= 0 {
        ps
    } else {
        spec_apply_constraint(spec_relax_prefix(ps, cs, k - 1), cs[k - 1])
    }
}

/// One full pass over the constraint list.
pub open spec fn spec_relax_pass(ps: Seq<Particle>, cs: Seq<Constraint>) -> Seq<Particle> {
    spec_relax_prefix(ps, cs, cs.len() as int)
}

/// `n` relaxation passes.
pub open spec fn spec_relax(ps: Seq<Particle>, cs: Seq<Constraint>, n: int) -> Seq<Particle>
    decreases n,
{
    if n <= 0 {
        ps
    } else {
        spec_relax_pass(spec_relax(ps, cs, n - 1), cs)
    }
}

/// An impulse folded into the velocity estimate: `previous_position` moves
/// against the force, scaled by the particle's inverse mass, so the next
/// integration step carries the extra velocity.  Immovable particles ignore
/// impulses.
pub open spec fn spec_apply_force(p: Particle, force: Vec2) -> Particle {
    if p.inverse_mass == 0 {
        p
    } else {
        Particle {
            position: p.position,
            previous_position: Vec2 {
                x: spec_clamp(
                    p.previous_position.x - spec_tdiv(force.x * p.inverse_mass, SCALE as int),
                ) as i64,
                y: spec_clamp(
                    p.previous_position.y - spec_tdiv(force.y * p.inverse_mass, SCALE as int),
                ) as i64,
            },
            inverse_mass: p.inverse_mass,
        }
    }
}

/// The index of the first occurrence of `name`, when the sequence holds it.
pub open spec fn spec_name_index(names: Seq<Seq<char>>, name: Seq<char>) -> int {
    choose|i: int|
        0 <= i < names.len() && names[i] == name && (forall|j: int|
            0 <= j < i ==> names[j] != name)
}

/// Whether some entry of the sequence is `name`.
pub open spec fn spec_has_name(names: Seq<Seq<char>>, name: Seq<char>) -> bool {
    exists|i: int| 0 <= i < names.len() && names[i] == name
}

/// The views of a vector of names.
pub open spec fn names_view(names: Seq<String>) -> Seq<Seq<char>> {
    names.map(|i: int, s: String| s@)
}

/// The index of the first entry of `names` equal to `name`, if any.
///
/// Unknown names are a caller/template mismatch, so every mutating entry
/// point requires the name to exist; this lookup is how a caller checks.
pub fn find_name(names: &Vec<String>, name: &String) -> (r: Option<usize>)
    ensures
        r is Some <==> spec_has_name(names_view(names@), name@),
        r matches Some(i) ==> {
            &&& (i as int) < names@.len()
            &&& names@[i as int]@ == name@
            &&& forall|j: int| 0 <= j < i ==> names@[j]@ != name@
            &&& i as int == spec_name_index(names_view(names@), name@)
        },
{
    let n = names.len();
    let mut i: usize = 0;
    while i < n
        invariant
            i <= n,
            n == names@.len(),
            forall|j: int| 0 <= j < i ==> names@[j]@ != name@,
        decreases n - i,
    {
        if names[i].eq(name) {
            proof {
                let nv = names_view(names@);
                assert(nv[i as int] == name@);
                assert(forall|j: int| 0 <= j < i ==> nv[j] != name@);
                let w = spec_name_index(nv, name@);
                assert(0 <= w < nv.len() && nv[w] == name@ && (forall|j: int|
                    0 <= j < w ==> nv[j] != name@)) by {
                    assert(0 <= i < nv.len() && nv[i as int] == name@ && (forall|j: int|
                        0 <= j < i ==> nv[j] != name@));
                }
                assert(w == i as int);
            }
            return Some(i);
        }
        i += 1;
    }
    proof {
        assert(forall|j: int| 0 <= j < names@.len() ==> names_view(names@)[j] != name@);
    }
    None
}

/// An immutable blueprint: named particle offsets and named constraint
/// pairs, resolved once into indices.  Built by `ParticleTemplate::new`,
/// which validates it; live systems are cloned from it.
pub struct ParticleTemplate {
    pub names: Vec<String>,
    pub offsets: Vec<Vec2>,
    pub constraints: Vec<Constraint>,
}

/// Why a template was rejected at build time.
#[derive(Debug, Clone, Copy, PartialEq, Eq, Structural)]
pub enum TemplateError {
    /// A constraint names a point the template does not define.
    UnknownPoint,
    /// A constraint pair is coincident, so its rest length would be zero.
    ZeroLengthConstraint,
    /// A point offset lies outside the coordinate range.
    PointOutOfRange,
}

impl ParticleTemplate {
    /// Consistent name table and well-formed constraints.
    pub open spec fn wf(self) -> bool {
        &&& self.names@.len() == self.offsets@.len()
        &&& forall|i: int| 0 <= i < self.offsets@.len() ==> self.offsets@[i].in_bounds()
        &&& forall|i: int|
            0 <= i < self.constraints@.len() ==> self.constraints@[i].wf(self.offsets@.len() as nat)
    }
}

/// A live particle system: particles and constraints cloned from a template
/// (or laid out by a skeleton), plus the template's name table.  Relaxation
/// runs in constraint-list order, so repeated runs on equal states give
/// bit-identical results.
pub struct ParticleSystem {
    pub particles: Vec<Particle>,
    pub constraints: Vec<Constraint>,
    pub names: Vec<String>,
    pub damping: i64,
}

impl ParticleSystem {
    /// The state every operation preserves.
    pub open spec fn wf(self) -> bool {
        &&& ps_wf(self.particles@, self.constraints@)
        &&& self.names@.len() == self.particles@.len()
        &&& 0 <= self.damping <= SCALE
    }

    /// The name table as character sequences.
    pub open spec fn spec_names(self) -> Seq<Seq<char>> {
        names_view(self.names@)
    }

    /// Build a system directly from parts.
    pub fn with_parts(
        particles: Vec<Particle>,
        constraints: Vec<Constraint>,
        names: Vec<String>,
    ) -> (r: ParticleSystem)
        requires
            ps_wf(particles@, constraints@),
            names@.len() == particles@.len(),
        ensures
            r.particles@ == particles@,
            r.constraints@ == constraints@,
            r.names@ == names@,
            r.damping == SCALE,
            r.wf(),
    {
        ParticleSystem { particles, constraints, names, damping: SCALE }
    }

    /// Clone a template into a live system.  Every particle starts at its
    /// template offset, at rest and immovable (kinematically placed) until
    /// its owner frees it.
    pub fn from_template(t: &ParticleTemplate) -> (r: ParticleSystem)
        requires
            t.wf(),
        ensures
            r.wf(),
            r.particles@.len() == t.offsets@.len(),
            forall|i: int|
                0 <= i < t.offsets@.len() ==> r.particles@[i] == (Particle {
                    position: t.offsets@[i],
                    previous_position: t.offsets@[i],
                    inverse_mass: 0,
                }),
            r.constraints@ == t.constraints@,
            r.names@.len() == t.names@.len(),
            forall|i: int| 0 <= i < t.names@.len() ==> r.names@[i]@ == t.names@[i]@,
            r.damping == SCALE,
    {
        let n = t.offsets.len();
        let mut particles: Vec<Particle> = Vec::new();
        let mut names: Vec<String> = Vec::new();
        let mut i: usize = 0;
        while i < n
            invariant
                i <= n,
                n == t.offsets@.len(),
                t.wf(),
                particles@.len() == i,
                names@.len() == i,
                forall|j: int|
                    0 <= j < i ==> particles@[j] == (Particle {
                        position: t.offsets@[j],
                        previous_position: t.offsets@[j],
                        inverse_mass: 0,
                    }),
                forall|j: int| 0 <= j < i ==> names@[j]@ == t.names@[j]@,
            decreases n - i,
        {
            let off = t.offsets[i];
            particles.push(Particle { position: off, previous_position: off, inverse_mass: 0 });
            names.push(t.names[i].clone());
            i += 1;
        }
        let mut constraints: Vec<Constraint> = Vec::new();
        let mut k: usize = 0;
        let nc = t.constraints.len();
        while k < nc
            invariant
                k <= nc,
                nc == t.constraints@.len(),
                t.wf(),
                constraints@ == t.constraints@.take(k as int),
            decreases nc - k,
        {
            constraints.push(t.constraints[k]);
            proof {
                assert(constraints@ =~= t.constraints@.take(k as int + 1));
            }
            k += 1;
        }
        proof {
            assert(constraints@ =~= t.constraints@);
        }
        ParticleSystem { particles, constraints, names, damping: SCALE }
    }

    /// How many particles the system owns.
    pub fn particle_count(&self) -> (r: usize)
        ensures
            r == self.particles@.len(),
    {
        self.particles.len()
    }

    /// Read a particle.
    pub fn get_particle(&self, i: usize) -> (r: Particle)
        requires
            i < self.particles@.len(),
        ensures
            r == self.particles@[i as int],
    {
        self.particles[i]
    }

    /// The index the system's name table gives to `name`.
    pub fn get_index(&self, name: &String) -> (r: Option<usize>)
        ensures
            r is Some <==> spec_has_name(self.spec_names(), name@),
            r matches Some(i) ==> {
                &&& (i as int) < self.names@.len()
                &&& self.names@[i as int]@ == name@
                &&& i as int == spec_name_index(self.spec_names(), name@)
            },
    {
        find_name(&self.names, name)
    }

    /// Advance every free particle by Verlet integration; immovable
    /// particles are kinematically positioned by the owner and skipped.
    #[verifier::loop_isolation(false)]
    pub fn integrate(&mut self, dt: i64, gravity: Vec2)
        requires
            old(self).wf(),
            0 < dt <= SCALE,
            abs(gravity.x as int) <= FORCE_LIMIT,
            abs(gravity.y as int) <= FORCE_LIMIT,
        ensures
            final(self).wf(),
            final(self).particles@ == spec_integrate(
                old(self).particles@,
                dt as int,
                gravity,
                old(self).damping as int,
            ),
            final(self).constraints@ == old(self).constraints@,
            final(self).names@ == old(self).names@,
            final(self).damping == old(self).damping,
    {
        let n = self.particles.len();
        let mut i: usize = 0;
        while i < n
            invariant
                i <= n,
                self.particles@.len() == n,
                self.constraints@ == old(self).constraints@,
                self.names@ == old(self).names@,
                self.damping == old(self).damping,
                ps_bounded(self.particles@),
                forall|j: int|
                    0 <= j < i ==> self.particles@[j] == spec_integrate_particle(
                        old(self).particles@[j],
                        dt as int,
                        gravity,
                        old(self).damping as int,
                    ),
                forall|j: int| i <= j < n ==> self.particles@[j] == old(self).particles@[j],
            decreases n - i,
        {
            let p = self.particles[i];
            if p.inverse_mass > 0 {
                let nx = integrate_coord(
                    p.position.x,
                    p.previous_position.x,
                    p.inverse_mass,
                    dt,
                    gravity.x,
                    self.damping,
                );
                let ny = integrate_coord(
                    p.position.y,
                    p.previous_position.y,
                    p.inverse_mass,
                    dt,
                    gravity.y,
                    self.damping,
                );
                let np = Particle {
                    position: Vec2 { x: nx, y: ny },
                    previous_position: p.position,
                    inverse_mass: p.inverse_mass,
                };
                self.particles.set(i, np);
                proof {
                    assert(self.particles@[i as int] == spec_integrate_particle(
                        old(self).particles@[i as int],
                        dt as int,
                        gravity,
                        old(self).damping as int,
                    ));
                }
            } else {
                proof {
                    assert(self.particles@[i as int] == spec_integrate_particle(
                        old(self).particles@[i as int],
                        dt as int,
                        gravity,
                        old(self).damping as int,
                    ));
                }
            }
            i += 1;
        }
        proof {
            assert(self.particles@ =~= spec_integrate(
                old(self).particles@,
                dt as int,
                gravity,
                old(self).damping as int,
            ));
        }
    }

    /// Inject an impulse into one particle's velocity estimate.
    pub fn apply_force(&mut self, index: usize, force: Vec2)
        requires
            old(self).wf(),
            index < old(self).particles@.len(),
            abs(force.x as int) <= FORCE_LIMIT,
            abs(force.y as int) <= FORCE_LIMIT,
        ensures
            final(self).wf(),
            final(self).particles@ == old(self).particles@.update(
                index as int,
                spec_apply_force(old(self).particles@[index as int], force),
            ),
            final(self).constraints@ == old(self).constraints@,
            final(self).names@ == old(self).names@,
            final(self).damping == old(self).damping,
    {
        let p = self.particles[index];
        if p.inverse_mass > 0 {
            proof {
                lemma_abs_mul_bound(force.x as int, p.inverse_mass as int, FORCE_LIMIT as int, INV_MASS_LIMIT as int);
                lemma_abs_mul_bound(force.y as int, p.inverse_mass as int, FORCE_LIMIT as int, INV_MASS_LIMIT as int);
                lemma_tdiv_abs_le(force.x as int * p.inverse_mass as int, SCALE as int);
                lemma_tdiv_abs_le(force.y as int * p.inverse_mass as int, SCALE as int);
            }
            let ix = tdiv(mul64(force.x, p.inverse_mass), SCALE);
            let iy = tdiv(mul64(force.y, p.inverse_mass), SCALE);
            let np = Particle {
                position: p.position,
                previous_position: Vec2 {
                    x: clamp_coord(p.previous_position.x - ix),
                    y: clamp_coord(p.previous_position.y - iy),
                },
                inverse_mass: p.inverse_mass,
            };
            self.particles.set(index, np);
        } else {
            proof {
                assert(old(self).particles@.update(
                    index as int,
                    spec_apply_force(old(self).particles@[index as int], force),
                ) =~= old(self).particles@);
            }
        }
    }

    /// Hard-set a particle's position and previous position, zeroing its
    /// implied velocity: how an animated owner drives a kinematic particle.
    pub fn set_particle_position(&mut self, index: usize, pos: Vec2)
        requires
            old(self).wf(),
            index < old(self).particles@.len(),
            pos.in_bounds(),
        ensures
            final(self).wf(),
            final(self).particles@ == old(self).particles@.update(
                index as int,
                Particle {
                    position: pos,
                    previous_position: pos,
                    inverse_mass: old(self).particles@[index as int].inverse_mass,
                },
            ),
            final(self).constraints@ == old(self).constraints@,
            final(self).names@ == old(self).names@,
            final(self).damping == old(self).damping,
    {
        let im = self.particles[index].inverse_mass;
        self.particles.set(
            index,
            Particle { position: pos, previous_position: pos, inverse_mass: im },
        );
    }

    /// Overwrite a particle's position alone, keeping its previous position
    /// (and so its implied velocity): how a collision response displaces a
    /// dynamic particle.
    pub fn set_position(&mut self, index: usize, pos: Vec2)
        requires
            old(self).wf(),
            index < old(self).particles@.len(),
            pos.in_bounds(),
        ensures
            final(self).wf(),
            final(self).particles@ == old(self).particles@.update(
                index as int,
                Particle {
                    position: pos,
                    previous_position: old(self).particles@[index as int].previous_position,
                    inverse_mass: old(self).particles@[index as int].inverse_mass,
                },
            ),
            final(self).constraints@ == old(self).constraints@,
            final(self).names@ == old(self).names@,
            final(self).damping == old(self).damping,
    {
        let p = self.particles[index];
        self.particles.set(
            index,
            Particle {
                position: pos,
                previous_position: p.previous_position,
                inverse_mass: p.inverse_mass,
            },
        );
    }

    /// Set the damping factor that integration applies to the velocity
    /// estimate, as a fraction of `SCALE`.
    pub fn set_damping(&mut self, damping: i64)
        requires
            old(self).wf(),
            0 <= damping <= SCALE,
        ensures
            final(self).wf(),
            final(self).particles@ == old(self).particles@,
            final(self).constraints@ == old(self).constraints@,
            final(self).names@ == old(self).names@,
            final(self).damping == damping,
    {
        self.damping = damping;
    }

    /// Overwrite a particle's inverse mass.
    pub fn set_inverse_mass(&mut self, index: usize, inverse_mass: i64)
        requires
            old(self).wf(),
            index < old(self).particles@.len(),
            0 <= inverse_mass <= INV_MASS_LIMIT,
        ensures
            final(self).wf(),
            final(self).particles@ == old(self).particles@.update(
                index as int,
                Particle {
                    position: old(self).particles@[index as int].position,
                    previous_position: old(self).particles@[index as int].previous_position,
                    inverse_mass: inverse_mass,
                },
            ),
            final(self).constraints@ == old(self).constraints@,
            final(self).names@ == old(self).names@,
            final(self).damping == old(self).damping,
    {
        let p = self.particles[index];
        self.particles.set(
            index,
            Particle {
                position: p.position,
                previous_position: p.previous_position,
                inverse_mass: inverse_mass,
            },
        );
    }

    /// Project one constraint of the list.
    #[verifier::loop_isolation(false)]
    fn relax_constraint(&mut self, ci: usize)
        requires
            old(self).wf(),
            ci < old(self).constraints@.len(),
        ensures
            final(self).wf(),
            final(self).particles@ == spec_apply_constraint(
                old(self).particles@,
                old(self).constraints@[ci as int],
            ),
            final(self).constraints@ == old(self).constraints@,
            final(self).names@ == old(self).names@,
            final(self).damping == old(self).damping,
    {
        let c = self.constraints[ci];
        if !c.solid {
            return ;
        }
        match c.kind {
            ConstraintKind::Stick { rest_length } => {
                self.project_pair(c.a, c.b, rest_length, c.stiffness);
            },
            ConstraintKind::Angular { joint: _, min_span, max_span } => {
                let pa = self.particles[c.a];
                let pb = self.particles[c.b];
                let dx = pa.position.x - pb.position.x;
                let dy = pa.position.y - pb.position.y;
                proof {
                    lemma_abs_mul_bound(dx as int, dx as int, 0x4000_0000, 0x4000_0000);
                    lemma_abs_mul_bound(dy as int, dy as int, 0x4000_0000, 0x4000_0000);
                    assert(dx as int * dx as int >= 0 && dy as int * dy as int >= 0)
                        by (nonlinear_arith);
                }
                let d2 = mul64(dx, dx) + mul64(dy, dy);
                let root = isqrt(d2 as u64);
                proof {
                    assert(root as int <= 0x6000_0000) by (nonlinear_arith)
                        requires
                            is_isqrt(d2 as int, root as int),
                            d2 as int <= 0x2000_0000_0000_0000,
                    ;
                }
                let span = root as i64;
                if span < min_span {
                    self.project_pair(c.a, c.b, min_span, c.stiffness);
                } else if span > max_span {
                    self.project_pair(c.a, c.b, max_span, c.stiffness);
                } else {
                    proof {
                        assert(spec_apply_constraint(
                            old(self).particles@,
                            old(self).constraints@[ci as int],
                        ) == old(self).particles@);
                    }
                }
            },
        }
    }

    /// Move the pair `(a, b)` toward distance `rest`, exactly as
    /// `spec_project_pair` states.
    fn project_pair(&mut self, a: usize, b: usize, rest: i64, stiffness: i64)
        requires
            old(self).wf(),
            a < old(self).particles@.len(),
            b < old(self).particles@.len(),
            a != b,
            0 <= rest <= REST_LIMIT,
            0 <= stiffness <= SCALE,
        ensures
            final(self).wf(),
            final(self).particles@ == spec_project_pair(
                old(self).particles@,
                a as int,
                b as int,
                rest as int,
                stiffness as int,
            ),
            final(self).constraints@ == old(self).constraints@,
            final(self).names@ == old(self).names@,
            final(self).damping == old(self).damping,
    {
        let pa = self.particles[a];
        let pb = self.particles[b];
        let dx = pa.position.x - pb.position.x;
        let dy = pa.position.y - pb.position.y;
        proof {
            lemma_abs_mul_bound(dx as int, dx as int, 0x4000_0000, 0x4000_0000);
            lemma_abs_mul_bound(dy as int, dy as int, 0x4000_0000, 0x4000_0000);
            assert(dx as int * dx as int >= 0 && dy as int * dy as int >= 0) by (nonlinear_arith);
        }
        let d2 = mul64(dx, dx) + mul64(dy, dy);
        let root = isqrt(d2 as u64);
        proof {
            assert(root as int <= 0x6000_0000) by (nonlinear_arith)
                requires
                    is_isqrt(d2 as int, root as int),
                    d2 as int <= 0x2000_0000_0000_0000,
            ;
        }
        let dist = root as i64;
        let wsum = pa.inverse_mass + pb.inverse_mass;
        if dist == 0 || wsum == 0 {
            return ;
        }
        proof {
            assert(abs(dx as int) <= dist as int && abs(dy as int) <= dist as int)
                by (nonlinear_arith)
                requires
                    is_isqrt(d2 as int, dist as int),
                    d2 as int == dx as int * dx as int + dy as int * dy as int,
                    dx as int * dx as int >= 0,
                    dy as int * dy as int >= 0,
            ;
            lemma_abs_mul_bound(
                dist as int - rest as int,
                stiffness as int,
                abs(dist as int - rest as int) as int,
                SCALE as int,
            );
        }
        let diff = dist - rest;
        let corr = tdiv(mul64(diff, stiffness), SCALE);
        proof {
            lemma_tdiv_quotient_bound(diff as int * stiffness as int, SCALE as int, abs(diff as int) as int);
            lemma_abs_mul_bound(dx as int, corr as int, 0x4000_0000, 0x8000_0000);
            lemma_abs_mul_bound(dy as int, corr as int, 0x4000_0000, 0x8000_0000);
            lemma_tdiv_scaled(corr as int, dx as int, dist as int);
            lemma_tdiv_scaled(corr as int, dy as int, dist as int);
            assert(dx as int * corr as int == corr as int * dx as int) by (nonlinear_arith);
            assert(dy as int * corr as int == corr as int * dy as int) by (nonlinear_arith);
        }
        let ux = tdiv(mul64(dx, corr), dist);
        let uy = tdiv(mul64(dy, corr), dist);
        proof {
            lemma_abs_mul_bound(ux as int, pa.inverse_mass as int, 0x8000_0000, INV_MASS_LIMIT as int);
            lemma_abs_mul_bound(uy as int, pa.inverse_mass as int, 0x8000_0000, INV_MASS_LIMIT as int);
            lemma_abs_mul_bound(ux as int, pb.inverse_mass as int, 0x8000_0000, INV_MASS_LIMIT as int);
            lemma_abs_mul_bound(uy as int, pb.inverse_mass as int, 0x8000_0000, INV_MASS_LIMIT as int);
            lemma_tdiv_scaled(ux as int, pa.inverse_mass as int, wsum as int);
            lemma_tdiv_scaled(uy as int, pa.inverse_mass as int, wsum as int);
            lemma_tdiv_scaled(ux as int, pb.inverse_mass as int, wsum as int);
            lemma_tdiv_scaled(uy as int, pb.inverse_mass as int, wsum as int);
        }
        let max = mul64(ux, pa.inverse_mass);
        let may = mul64(uy, pa.inverse_mass);
        let mbx = mul64(ux, pb.inverse_mass);
        let mby = mul64(uy, pb.inverse_mass);
        let na = Particle {
            position: Vec2 {
                x: clamp_coord(pa.position.x - tdiv(max, wsum)),
                y: clamp_coord(pa.position.y - tdiv(may, wsum)),
            },
            previous_position: pa.previous_position,
            inverse_mass: pa.inverse_mass,
        };
        let nb = Particle {
            position: Vec2 {
                x: clamp_coord(pb.position.x + tdiv(mbx, wsum)),
                y: clamp_coord(pb.position.y + tdiv(mby, wsum)),
            },
            previous_position: pb.previous_position,
            inverse_mass: pb.inverse_mass,
        };
        self.particles.set(a, na);
        self.particles.set(b, nb);
    }

    /// Run `iterations` passes of constraint projection, each pass in
    /// constraint-list order (the order the template fixed), so repeated
    /// runs on identical input give bit-identical output.
    #[verifier::loop_isolation(false)]
    pub fn relax(&mut self, iterations: usize)
        requires
            old(self).wf(),
        ensures
            final(self).wf(),
            final(self).particles@ == spec_relax(
                old(self).particles@,
                old(self).constraints@,
                iterations as int,
            ),
            final(self).constraints@ == old(self).constraints@,
            final(self).names@ == old(self).names@,
            final(self).damping == old(self).damping,
    {
        let mut it: usize = 0;
        while it < iterations
            invariant
                it <= iterations,
                self.wf(),
                self.particles@ == spec_relax(
                    old(self).particles@,
                    old(self).constraints@,
                    it as int,
                ),
                self.constraints@ == old(self).constraints@,
                self.names@ == old(self).names@,
                self.damping == old(self).damping,
            decreases iterations - it,
        {
            let nc = self.constraints.len();
            let ghost pass_start = self.particles@;
            let mut ci: usize = 0;
            while ci < nc
                invariant
                    ci <= nc,
                    nc == self.constraints@.len(),
                    self.wf(),
                    self.particles@ == spec_relax_prefix(
                        pass_start,
                        old(self).constraints@,
                        ci as int,
                    ),
                    self.constraints@ == old(self).constraints@,
                    self.names@ == old(self).names@,
                    self.damping == old(self).damping,
                decreases nc - ci,
            {
                self.relax_constraint(ci);
                ci += 1;
            }
            it += 1;
        }
    }
}

/// The name of each point of a template input.
pub open spec fn pts_names(points: Seq<(String, Vec2)>) -> Seq<Seq<char>> {
    points.map(|i: int, p: (String, Vec2)| p.0@)
}

/// The distance between two offsets.
pub open spec fn spec_span(a: Vec2, b: Vec2) -> int {
    spec_sqrt((a.x - b.x) * (a.x - b.x) + (a.y - b.y) * (a.y - b.y))
}

/// A constraint pair of a template input is acceptable: both names exist and
/// the implied rest length is positive and within range.  A zero rest length
/// (a coincident or repeated point) is rejected at build time.
pub open spec fn link_ok(points: Seq<(String, Vec2)>, l: (String, String, bool)) -> bool {
    let nv = pts_names(points);
    &&& spec_has_name(nv, l.0@)
    &&& spec_has_name(nv, l.1@)
    &&& 0 < spec_span(
        points[spec_name_index(nv, l.0@)].1,
        points[spec_name_index(nv, l.1@)].1,
    ) <= REST_LIMIT
}

/// A whole template input is acceptable.
pub open spec fn template_input_ok(
    points: Seq<(String, Vec2)>,
    links: Seq<(String, String, bool)>,
) -> bool {
    &&& forall|i: int| 0 <= i < points.len() ==> (#[trigger] points[i]).1.in_bounds()
    &&& forall|k: int| 0 <= k < links.len() ==> link_ok(points, #[trigger] links[k])
}

/// The rest length `links[k]` resolves to.
pub open spec fn link_span(points: Seq<(String, Vec2)>, l: (String, String, bool)) -> int {
    spec_span(
        points[spec_name_index(pts_names(points), l.0@)].1,
        points[spec_name_index(pts_names(points), l.1@)].1,
    )
}

/// The distance between two in-range points, with its floor square root.
pub fn span_between(a: Vec2, b: Vec2) -> (r: i64)
    requires
        a.in_bounds(),
        b.in_bounds(),
    ensures
        r as int == spec_span(a, b),
        0 <= r <= 0x6000_0000,
{
    let dx = a.x - b.x;
    let dy = a.y - b.y;
    proof {
        lemma_abs_mul_bound(dx as int, dx as int, 0x4000_0000, 0x4000_0000);
        lemma_abs_mul_bound(dy as int, dy as int, 0x4000_0000, 0x4000_0000);
        assert(dx as int * dx as int >= 0 && dy as int * dy as int >= 0) by (nonlinear_arith);
    }
    let d2 = mul64(dx, dx) + mul64(dy, dy);
    let root = isqrt(d2 as u64);
    proof {
        assert(root as int <= 0x6000_0000) by (nonlinear_arith)
            requires
                is_isqrt(d2 as int, root as int),
                d2 as int <= 0x2000_0000_0000_0000,
        ;
    }
    root as i64
}

/// Whether a vector lies in the coordinate range.
pub fn vec2_in_bounds(v: Vec2) -> (r: bool)
    ensures
        r == v.in_bounds(),
{
    -COORD_LIMIT <= v.x && v.x <= COORD_LIMIT && -COORD_LIMIT <= v.y && v.y <= COORD_LIMIT
}

impl ParticleTemplate {
    /// Build and validate a template from named points and named constraint
    /// pairs (the flag marks a solid pair).  Malformed inputs — an offset out
    /// of range, an unknown name, a zero or oversized rest length — are
    /// fatal here, at build time, never at step time.
    #[verifier::loop_isolation(false)]
    #[verifier::rlimit(80)]
    pub fn new(points: Vec<(String, Vec2)>, links: Vec<(String, String, bool)>) -> (r: Result<
        ParticleTemplate,
        TemplateError,
    >)
        ensures
            r is Ok <==> template_input_ok(points@, links@),
            r matches Ok(t) ==> {
                &&& t.wf()
                &&& t.names@.len() == points@.len()
                &&& forall|i: int| 0 <= i < points@.len() ==> t.names@[i]@ == points@[i].0@
                &&& t.offsets@.len() == points@.len()
                &&& forall|i: int| 0 <= i < points@.len() ==> t.offsets@[i] == points@[i].1
                &&& t.constraints@.len() == links@.len()
                &&& forall|k: int|
                    0 <= k < links@.len() ==> #[trigger] t.constraints@[k] == (Constraint {
                        a: spec_name_index(pts_names(points@), links@[k].0@) as usize,
                        b: spec_name_index(pts_names(points@), links@[k].1@) as usize,
                        kind: ConstraintKind::Stick {
                            rest_length: link_span(points@, links@[k]) as i64,
                        },
                        stiffness: SCALE,
                        solid: links@[k].2,
                    })
            },
            r matches Err(e) ==> !template_input_ok(points@, links@),
            r == Err::<ParticleTemplate, TemplateError>(TemplateError::PointOutOfRange) ==> exists|i: int|
                0 <= i < points@.len() && !(#[trigger] points@[i]).1.in_bounds(),
    {
        let n = points.len();
        let mut i: usize = 0;
        while i < n
            invariant
                i <= n,
                forall|j: int| 0 <= j < i ==> (#[trigger] points@[j]).1.in_bounds(),
            decreases n - i,
        {
            if !vec2_in_bounds(points[i].1) {
                return Err(TemplateError::PointOutOfRange);
            }
            i += 1;
        }
        let mut names: Vec<String> = Vec::new();
        let mut offsets: Vec<Vec2> = Vec::new();
        let mut i: usize = 0;
        while i < n
            invariant
                i <= n,
                names@.len() == i,
                offsets@.len() == i,
                forall|j: int| 0 <= j < i ==> names@[j] == points@[j].0,
                forall|j: int| 0 <= j < i ==> offsets@[j] == points@[j].1,
            decreases n - i,
        {
            names.push(points[i].0.clone());
            offsets.push(points[i].1);
            i += 1;
        }
        proof {
            assert(names_view(names@) =~= pts_names(points@));
        }
        let mut constraints: Vec<Constraint> = Vec::new();
        let nl = links.len();
        let mut k: usize = 0;
        while k < nl
            invariant
                k <= nl,
                nl == links@.len(),
                names@.len() == n,
                offsets@.len() == n,
                n == points@.len(),
                names_view(names@) == pts_names(points@),
                forall|j: int| 0 <= j < n ==> (#[trigger] points@[j]).1.in_bounds(),
                forall|j: int| 0 <= j < n ==> offsets@[j] == points@[j].1,
                constraints@.len() == k,
                forall|j: int| 0 <= j < k ==> (#[trigger] constraints@[j]).wf(n as nat),
                forall|j: int| 0 <= j < k ==> link_ok(points@, #[trigger] links@[j]),
                forall|j: int|
                    0 <= j < k ==> #[trigger] constraints@[j] == (Constraint {
                        a: spec_name_index(pts_names(points@), links@[j].0@) as usize,
                        b: spec_name_index(pts_names(points@), links@[j].1@) as usize,
                        kind: ConstraintKind::Stick {
                            rest_length: link_span(points@, links@[j]) as i64,
                        },
                        stiffness: SCALE,
                        solid: links@[j].2,
                    }),
            decreases nl - k,
        {
            let ia = match find_name(&names, &links[k].0) {
                Some(ia) => ia,
                None => {
                    return Err(TemplateError::UnknownPoint);
                },
            };
            let ib = match find_name(&names, &links[k].1) {
                Some(ib) => ib,
                None => {
                    return Err(TemplateError::UnknownPoint);
                },
            };
            let span = span_between(offsets[ia], offsets[ib]);
            if span <= 0 || span > REST_LIMIT {
                return Err(TemplateError::ZeroLengthConstraint);
            }
            proof {
                if ia == ib {
                    let z = offsets@[ia as int];
                    assert((z.x - z.x) * (z.x - z.x) + (z.y - z.y) * (z.y - z.y) == 0);
                    lemma_sqrt_exists(0);
                    crate::fixed::lemma_sqrt_unique(0, 0, spec_sqrt(0));
                    assert(spec_span(z, z) == 0);
                }
                assert(ia != ib);
                assert(link_ok(points@, links@[k as int]));
            }
            constraints.push(
                Constraint {
                    a: ia,
                    b: ib,
                    kind: ConstraintKind::Stick { rest_length: span },
                    stiffness: SCALE,
                    solid: links[k].2,
                },
            );
            k += 1;
        }
        Ok(ParticleTemplate { names, offsets, constraints })
    }
}

/// Integration keeps the particle count, every bound, and each particle's
/// inverse mass; an immovable particle keeps its whole state.
pub proof fn lemma_integrate_props(ps: Seq<Particle>, dt: int, g: Vec2, damping: int)
    requires
        ps_bounded(ps),
    ensures
        spec_integrate(ps, dt, g, damping).len() == ps.len(),
        ps_bounded(spec_integrate(ps, dt, g, damping)),
        forall|j: int|
            0 <= j < ps.len() ==> spec_integrate(ps, dt, g, damping)[j].inverse_mass == ps[j].inverse_mass,
        forall|j: int|
            0 <= j < ps.len() && ps[j].inverse_mass == 0 ==> spec_integrate(ps, dt, g, damping)[j]
                == ps[j],
{
    let r = spec_integrate(ps, dt, g, damping);
    assert forall|j: int| 0 <= j < ps.len() implies r[j].wf() && r[j].inverse_mass
        == ps[j].inverse_mass && (ps[j].inverse_mass == 0 ==> r[j] == ps[j]) by {
        assert(r[j] == spec_integrate_particle(ps[j], dt, g, damping));
    }
}

/// One pair projection keeps the particle count, every bound, and each
/// particle's inverse mass and previous position; a particle with zero
/// inverse mass keeps its position.
proof fn lemma_project_pair_props(ps: Seq<Particle>, a: int, b: int, rest: int, stiffness: int)
    requires
        ps_bounded(ps),
        0 <= a < ps.len(),
        0 <= b < ps.len(),
        a != b,
    ensures
        spec_project_pair(ps, a, b, rest, stiffness).len() == ps.len(),
        ps_bounded(spec_project_pair(ps, a, b, rest, stiffness)),
        forall|j: int|
            #![trigger ps[j]]
            0 <= j < ps.len() ==> {
                let r = spec_project_pair(ps, a, b, rest, stiffness)[j];
                r.inverse_mass == ps[j].inverse_mass && r.previous_position
                    == ps[j].previous_position
            },
        forall|j: int|
            0 <= j < ps.len() && ps[j].inverse_mass == 0 ==> spec_project_pair(
                ps,
                a,
                b,
                rest,
                stiffness,
            )[j].position == ps[j].position,
{
    let pa = ps[a];
    let pb = ps[b];
    let dx = pa.position.x - pb.position.x;
    let dy = pa.position.y - pb.position.y;
    let dist = spec_sqrt(dx * dx + dy * dy);
    let wsum = pa.inverse_mass + pb.inverse_mass;
    if dist == 0 || wsum == 0 {
    } else {
        assert(wsum >= 1);
        let corr = spec_tdiv((dist - rest) * stiffness, SCALE as int);
        let ux = spec_tdiv(dx * corr, dist);
        let uy = spec_tdiv(dy * corr, dist);
        if pa.inverse_mass == 0 {
            assert(ux * pa.inverse_mass == 0) by (nonlinear_arith)
                requires
                    pa.inverse_mass == 0,
            ;
            assert(uy * pa.inverse_mass == 0) by (nonlinear_arith)
                requires
                    pa.inverse_mass == 0,
            ;
            assert(spec_tdiv(0, wsum) == 0) by (nonlinear_arith)
                requires
                    wsum >= 1,
            ;
        }
        if pb.inverse_mass == 0 {
            assert(ux * pb.inverse_mass == 0) by (nonlinear_arith)
                requires
                    pb.inverse_mass == 0,
            ;
            assert(uy * pb.inverse_mass == 0) by (nonlinear_arith)
                requires
                    pb.inverse_mass == 0,
            ;
            assert(spec_tdiv(0, wsum) == 0) by (nonlinear_arith)
                requires
                    wsum >= 1,
            ;
        }
    }
}

/// `lemma_project_pair_props`, lifted over one constraint.
proof fn lemma_apply_constraint_props(ps: Seq<Particle>, c: Constraint)
    requires
        ps_bounded(ps),
        c.wf(ps.len() as nat),
    ensures
        spec_apply_constraint(ps, c).len() == ps.len(),
        ps_bounded(spec_apply_constraint(ps, c)),
        forall|j: int|
            #![trigger ps[j]]
            0 <= j < ps.len() ==> {
                let r = spec_apply_constraint(ps, c)[j];
                r.inverse_mass == ps[j].inverse_mass && r.previous_position
                    == ps[j].previous_position
            },
        forall|j: int|
            0 <= j < ps.len() && ps[j].inverse_mass == 0 ==> spec_apply_constraint(ps, c)[j].position
                == ps[j].position,
{
    if c.solid {
        match c.kind {
            ConstraintKind::Stick { rest_length } => {
                lemma_project_pair_props(ps, c.a as int, c.b as int, rest_length as int, c.stiffness as int);
            },
            ConstraintKind::Angular { joint, min_span, max_span } => {
                let span = spec_pair_span(ps, c.a as int, c.b as int);
                if span < min_span {
                    lemma_project_pair_props(ps, c.a as int, c.b as int, min_span as int, c.stiffness as int);
                } else if span > max_span {
                    lemma_project_pair_props(ps, c.a as int, c.b as int, max_span as int, c.stiffness as int);
                }
            },
        }
    }
}

/// `lemma_apply_constraint_props`, lifted over a prefix of the list.
proof fn lemma_relax_prefix_props(ps: Seq<Particle>, cs: Seq<Constraint>, k: int)
    requires
        ps_wf(ps, cs),
        0 <= k <= cs.len(),
    ensures
        spec_relax_prefix(ps, cs, k).len() == ps.len(),
        ps_bounded(spec_relax_prefix(ps, cs, k)),
        forall|j: int|
            #![trigger ps[j]]
            0 <= j < ps.len() ==> {
                let r = spec_relax_prefix(ps, cs, k)[j];
                r.inverse_mass == ps[j].inverse_mass && r.previous_position
                    == ps[j].previous_position
            },
        forall|j: int|
            0 <= j < ps.len() && ps[j].inverse_mass == 0 ==> spec_relax_prefix(ps, cs, k)[j].position
                == ps[j].position,
    decreases k,
{
    if k > 0 {
        lemma_relax_prefix_props(ps, cs, k - 1);
        lemma_apply_constraint_props(spec_relax_prefix(ps, cs, k - 1), cs[k - 1]);
    }
}

/// `lemma_apply_constraint_props`, lifted over whole passes.
pub proof fn lemma_relax_props(ps: Seq<Particle>, cs: Seq<Constraint>, n: int)
    requires
        ps_wf(ps, cs),
        0 <= n,
    ensures
        spec_relax(ps, cs, n).len() == ps.len(),
        ps_bounded(spec_relax(ps, cs, n)),
        forall|j: int|
            #![trigger ps[j]]
            0 <= j < ps.len() ==> {
                let r = spec_relax(ps, cs, n)[j];
                r.inverse_mass == ps[j].inverse_mass && r.previous_position
                    == ps[j].previous_position
            },
        forall|j: int|
            0 <= j < ps.len() && ps[j].inverse_mass == 0 ==> spec_relax(ps, cs, n)[j].position
                == ps[j].position,
    decreases n,
{
    if n > 0 {
        lemma_relax_props(ps, cs, n - 1);
        lemma_relax_prefix_props(spec_relax(ps, cs, n - 1), cs, cs.len() as int);
    }
}

/// Law (stick convergence, shown on the axis-aligned record): in a
/// two-particle system whose pair lies on one horizontal line, with one
/// endpoint immovable and the other free, a single fully-stiff projection
/// brings the distance exactly to the rest length — and, being exact, a
/// further pass keeps it there, so the distance error never grows from
/// pass to pass.
pub proof fn lemma_stick_projection_reaches_rest(ps: Seq<Particle>, rest: int)
    requires
        ps.len() == 2,
        ps_bounded(ps),
        ps[0].inverse_mass == 0,
        ps[1].inverse_mass > 0,
        ps[0].position.y == ps[1].position.y,
        ps[0].position.x != ps[1].position.x,
        0 <= rest <= REST_LIMIT,
        abs(ps[0].position.x as int) + rest <= COORD_LIMIT,
    ensures
        ({
            let r = spec_project_pair(ps, 0, 1, rest, SCALE as int);
            &&& r[0] == ps[0]
            &&& r[1].position.y == ps[0].position.y
            &&& abs(r[1].position.x - r[0].position.x) == rest
        }),
{
    let pa = ps[0];
    let pb = ps[1];
    let dx = pa.position.x - pb.position.x;
    let dy = pa.position.y - pb.position.y;
    assert(dy == 0);
    assert(dy * dy == 0) by (nonlinear_arith)
        requires
            dy == 0,
    ;
    assert(is_isqrt(dx * dx + dy * dy, abs(dx) as int)) by (nonlinear_arith)
        requires
            dy * dy == 0,
            dx != 0,
    ;
    lemma_sqrt_exists(dx * dx + dy * dy);
    crate::fixed::lemma_sqrt_unique(dx * dx + dy * dy, abs(dx) as int, spec_sqrt(dx * dx + dy * dy));
    let dist = spec_sqrt(dx * dx + dy * dy);
    assert(dist == abs(dx));
    assert(dist > 0);
    let wsum = pa.inverse_mass + pb.inverse_mass;
    assert(wsum == pb.inverse_mass);
    let diff = dist - rest;
    crate::fixed::lemma_tdiv_exact(diff, SCALE as int);
    let corr = spec_tdiv(diff * SCALE, SCALE as int);
    assert(corr == diff);
    let s = if dx >= 0 { 1 as int } else { -1 as int };
    assert(dx * corr == (s * diff) * dist) by (nonlinear_arith)
        requires
            corr == diff,
            dist == abs(dx),
            s == (if dx >= 0 { 1 as int } else { -1 as int }),
    ;
    crate::fixed::lemma_tdiv_exact(s * diff, dist);
    let ux = spec_tdiv(dx * corr, dist);
    assert(ux == s * diff);
    assert(dy * corr == 0 * dist) by (nonlinear_arith)
        requires
            dy == 0,
    ;
    crate::fixed::lemma_tdiv_exact(0, dist);
    let uy = spec_tdiv(dy * corr, dist);
    assert(uy == 0);
    assert(ux * pa.inverse_mass == 0 * wsum) by (nonlinear_arith)
        requires
            pa.inverse_mass == 0,
    ;
    assert(uy * pa.inverse_mass == 0 * wsum) by (nonlinear_arith)
        requires
            pa.inverse_mass == 0,
    ;
    crate::fixed::lemma_tdiv_exact(0, wsum);
    assert(ux * pb.inverse_mass == ux * wsum) by (nonlinear_arith)
        requires
            wsum == pb.inverse_mass,
    ;
    assert(uy * pb.inverse_mass == uy * wsum) by (nonlinear_arith)
        requires
            wsum == pb.inverse_mass,
    ;
    crate::fixed::lemma_tdiv_exact(ux, wsum);
    crate::fixed::lemma_tdiv_exact(uy, wsum);
    let bx = pb.position.x + ux;
    assert(bx - pa.position.x == if dx >= 0 { -rest } else { rest }) by (nonlinear_arith)
        requires
            ux == s * diff,
            s == (if dx >= 0 { 1 as int } else { -1 as int }),
            diff == dist - rest,
            dist == abs(dx),
            dx == pa.position.x - pb.position.x,
            bx == pb.position.x + ux,
    ;
    assert(abs(bx as int) <= COORD_LIMIT);
    assert(spec_clamp(bx as int) == bx);
    assert(spec_clamp(pb.position.y + uy) == pb.position.y);
    assert(spec_clamp(pa.position.x - 0) == pa.position.x);
    assert(spec_clamp(pa.position.y - 0) == pa.position.y);
    let r = spec_project_pair(ps, 0, 1, rest, SCALE as int);
    assert(r[0] == ps[0]);
    assert(r[1].position.x == bx);
    assert(r[1].position.y == pb.position.y);
}

/// Law: the simulation hides no nondeterminism.  A step — integration
/// followed by any number of relaxation passes — is a mathematical function
/// of the particle state, the constraint list, the timestep and the gravity
/// vector, so identical inputs give bit-identical outputs; `integrate` and
/// `relax` are pinned to exactly these functions by their contracts.
pub proof fn lemma_step_deterministic(
    ps1: Seq<Particle>,
    cs1: Seq<Constraint>,
    ps2: Seq<Particle>,
    cs2: Seq<Constraint>,
    dt: int,
    g: Vec2,
    damping: int,
    n: int,
)
    requires
        ps1 == ps2,
        cs1 == cs2,
    ensures
        spec_relax(spec_integrate(ps1, dt, g, damping), cs1, n) == spec_relax(
            spec_integrate(ps2, dt, g, damping),
            cs2,
            n,
        ),
{
}

/// Law: a particle with zero inverse mass never changes position, neither
/// under integration nor under any number of relaxation passes, whatever
/// the forces and constraints.
pub proof fn lemma_immovable_particle_fixed(
    ps: Seq<Particle>,
    cs: Seq<Constraint>,
    dt: int,
    g: Vec2,
    damping: int,
    n: int,
    i: int,
)
    requires
        ps_wf(ps, cs),
        0 <= n,
        0 <= i < ps.len(),
        ps[i].inverse_mass == 0,
    ensures
        spec_integrate(ps, dt, g, damping)[i].position == ps[i].position,
        spec_relax(ps, cs, n)[i].position == ps[i].position,
        spec_relax(spec_integrate(ps, dt, g, damping), cs, n)[i].position == ps[i].position,
{
    lemma_integrate_props(ps, dt, g, damping);
    lemma_relax_props(ps, cs, n);
    let mid = spec_integrate(ps, dt, g, damping);
    assert(ps_wf(mid, cs));
    lemma_relax_props(mid, cs, n);
}

/// One coordinate of the Verlet update, matching `spec_integrate_particle`.
fn integrate_coord(pos: i64, prev: i64, inverse_mass: i64, dt: i64, g: i64, damping: i64) -> (r:
    i64)
    requires
        abs(pos as int) <= COORD_LIMIT,
        abs(prev as int) <= COORD_LIMIT,
        0 < inverse_mass <= INV_MASS_LIMIT,
        0 < dt <= SCALE,
        abs(g as int) <= FORCE_LIMIT,
        0 <= damping <= SCALE,
    ensures
        r as int == spec_clamp(
            pos + spec_tdiv((pos - prev) * damping, SCALE as int) + spec_tdiv(
                spec_tdiv(spec_tdiv(g * inverse_mass, SCALE as int) * dt, SCALE as int) * dt,
                SCALE as int,
            ),
        ),
{
    proof {
        lemma_abs_mul_bound(
            pos as int - prev as int,
            damping as int,
            abs(pos as int - prev as int) as int,
            SCALE as int,
        );
        lemma_tdiv_quotient_bound(
            (pos as int - prev as int) * damping as int,
            SCALE as int,
            abs(pos as int - prev as int) as int,
        );
        lemma_abs_mul_bound(g as int, inverse_mass as int, FORCE_LIMIT as int, INV_MASS_LIMIT as int);
        lemma_tdiv_quotient_bound(g as int * inverse_mass as int, SCALE as int, 0x1000_0000);
    }
    let v = tdiv(mul64(pos - prev, damping), SCALE);
    let g1 = tdiv(mul64(g, inverse_mass), SCALE);
    proof {
        lemma_abs_mul_bound(g1 as int, dt as int, 0x1000_0000, SCALE as int);
        lemma_tdiv_quotient_bound(g1 as int * dt as int, SCALE as int, 0x1000_0000);
    }
    let g2 = tdiv(mul64(g1, dt), SCALE);
    proof {
        lemma_abs_mul_bound(g2 as int, dt as int, 0x1000_0000, SCALE as int);
        lemma_tdiv_quotient_bound(g2 as int * dt as int, SCALE as int, 0x1000_0000);
    }
    let g3 = tdiv(mul64(g2, dt), SCALE);
    clamp_coord(pos + v + g3)
}

} // verus!
