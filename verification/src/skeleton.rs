//! The skeletal layer: a bone hierarchy mapped onto a particle system, one
//! particle per joint and one stick constraint per bone.
//!
//! A skeleton is posed forward (an authored local rotation per bone,
//! composed down the hierarchy and hard-written into the joints) or inverse
//! (a two-bone chain solved toward a world target by alternating
//! forward-reaching and backward-reaching passes).  Relaxation then
//! re-enforces the rigid bone lengths.  Bone transforms are recomputed from
//! the particles on every read, so a read can never be stale.

use vstd::prelude::*;
use vstd::math::abs;
use crate::fixed::{
    SCALE, COORD_LIMIT, REST_LIMIT, spec_clamp, spec_tdiv, spec_sqrt, is_isqrt, clamp_coord,
    mul64, tdiv, isqrt, lemma_abs_mul_bound, lemma_tdiv_scaled, lemma_tdiv_exact,
    lemma_sqrt_exists, lemma_sqrt_unique,
};
use crate::util::{Vec2, Angle, spec_rotate_x, spec_rotate_y};
use crate::particle::{
    Particle, Constraint, ConstraintKind, ParticleSystem, spec_relax, span_between, spec_span,
};
use crate::Space;

verus! {

/// One bone of an immutable hierarchy description: a name, the index of the
/// parent bone (a bone's start joint is its parent's end joint; the first
/// bone is the root and is its own parent), and a rest length.
pub struct BoneDesc {
    pub name: String,
    pub parent: usize,
    pub length: i64,
}

/// An immutable bone-hierarchy description, root first, each parent before
/// its children.
pub struct SkeletalData {
    pub bones: Vec<BoneDesc>,
}

/// An authored pose: a world-space origin for the root joint and one
/// local-space rotation per bone.
pub struct BonePose {
    pub rotation: Angle,
}

/// Why a hierarchy description was rejected at build time.
#[derive(Debug, Clone, Copy, PartialEq, Eq, Structural)]
pub enum SkeletonError {
    /// A bone's rest length is zero, negative, or over the range limit.
    BadBoneLength,
    /// A bone names a parent at or after itself, or the first bone is not
    /// its own parent.
    BadHierarchy,
}

/// A valid hierarchy: the first bone is the root (its own parent), every
/// later bone's parent comes before it, and every rest length is positive
/// and within range.
pub open spec fn skeletal_ok(bones: Seq<BoneDesc>) -> bool {
    &&& bones.len() < usize::MAX
    &&& forall|i: int|
        0 <= i < bones.len() ==> {
            &&& 0 < (#[trigger] bones[i]).length <= REST_LIMIT
            &&& if i == 0 {
                bones[0].parent == 0
            } else {
                (bones[i].parent as int) < i
            }
        }
}

/// The joint a bone starts at: joint 0 for the root, the parent's end joint
/// otherwise.  Bone `i` ends at joint `i + 1`.
pub open spec fn start_joint(bones: Seq<BoneDesc>, i: int) -> int {
    if i == 0 {
        0
    } else {
        bones[i].parent + 1
    }
}

/// The stick constraint of each bone: its two joints at its rest length,
/// solid, fully stiff.
pub open spec fn spec_bone_constraints(bones: Seq<BoneDesc>) -> Seq<Constraint> {
    Seq::new(
        bones.len(),
        |i: int| Constraint {
            a: start_joint(bones, i) as usize,
            b: (i + 1) as usize,
            kind: ConstraintKind::Stick { rest_length: bones[i].length },
            stiffness: SCALE,
            solid: true,
        },
    )
}

/// The world rotation of each of the first `k` bones under a pose: the
/// root's is its own local rotation, every other bone's is its parent's
/// world rotation composed with its local one.
pub open spec fn spec_fk_rots(bones: Seq<BoneDesc>, poses: Seq<BonePose>, k: int) -> Seq<Angle>
    decreases k,
{
    if k <= 0 {
        Seq::empty()
    } else {
        let prev = spec_fk_rots(bones, poses, k - 1);
        let r = if k - 1 == 0 {
            poses[0].rotation
        } else {
            prev[bones[k - 1].parent as int].spec_compose(poses[k - 1].rotation)
        };
        prev.push(r)
    }
}

/// The joint positions a pose resolves to: joint 0 at the origin, and each
/// bone's end joint one rest length from its start joint, in the bone's
/// world direction, clamped into range.
pub open spec fn spec_fk_points(
    bones: Seq<BoneDesc>,
    poses: Seq<BonePose>,
    origin: Vec2,
    k: int,
) -> Seq<Vec2>
    decreases k,
{
    if k <= 0 {
        seq![origin]
    } else {
        let prev = spec_fk_points(bones, poses, origin, k - 1);
        let rot = spec_fk_rots(bones, poses, k)[k - 1];
        let start = prev[start_joint(bones, k - 1)];
        let len = bones[k - 1].length;
        let end = Vec2 {
            x: spec_clamp(start.x + spec_rotate_x(rot, Vec2 { x: len, y: 0 })) as i64,
            y: spec_clamp(start.y + spec_rotate_y(rot, Vec2 { x: len, y: 0 })) as i64,
        };
        prev.push(end)
    }
}

/// The joint positions a freshly built skeleton starts from: the root
/// joint at the origin and each bone's end joint one rest length straight
/// below its start joint, clamped into range.
pub open spec fn spec_rest_points(bones: Seq<BoneDesc>, k: int) -> Seq<Vec2>
    decreases k,
{
    if k <= 0 {
        seq![Vec2 { x: 0, y: 0 }]
    } else {
        let prev = spec_rest_points(bones, k - 1);
        let start = prev[start_joint(bones, k - 1)];
        prev.push(Vec2 { x: start.x, y: spec_clamp(start.y + bones[k - 1].length) as i64 })
    }
}

/// The point at `dist` from `from` in the direction of `toward` (or `from`
/// itself when the two coincide), clamped into range.
pub open spec fn spec_place_at(from: Vec2, toward: Vec2, dist: int) -> Vec2 {
    let dx = toward.x - from.x;
    let dy = toward.y - from.y;
    let d = spec_sqrt(dx * dx + dy * dy);
    if d == 0 {
        from
    } else {
        Vec2 {
            x: spec_clamp(from.x + spec_tdiv(dx * dist, d)) as i64,
            y: spec_clamp(from.y + spec_tdiv(dy * dist, d)) as i64,
        }
    }
}

/// How close the chain end must come to its target for the solver to stop.
pub const IK_TOLERANCE: i64 = 16;

/// How many forward/backward passes the solver will spend at most.
pub const IK_ITERATIONS: usize = 10;

/// One forward-reaching then backward-reaching pass of the two-bone solver:
/// anchor `j0`; reach the end to the target and pull the middle joint after
/// it, then re-anchor at `j0` and restore both rest lengths root-outward.
pub open spec fn spec_ik_pass(
    j0: Vec2,
    j1: Vec2,
    j2: Vec2,
    target: Vec2,
    l1: int,
    l2: int,
) -> (Vec2, Vec2) {
    let f2 = target;
    let f1 = spec_place_at(f2, j1, l2);
    let b1 = spec_place_at(j0, f1, l1);
    let b2 = spec_place_at(b1, f2, l2);
    (b1, b2)
}

/// Whether the chain end is within tolerance of the target.
pub open spec fn spec_ik_done(j2: Vec2, target: Vec2) -> bool {
    spec_span(j2, target) <= IK_TOLERANCE
}

/// The solver state after one step: unchanged once converged, else one pass.
pub open spec fn spec_ik_step(j0: Vec2, j1: Vec2, j2: Vec2, target: Vec2, l1: int, l2: int) -> (
    Vec2,
    Vec2,
) {
    if spec_ik_done(j2, target) {
        (j1, j2)
    } else {
        spec_ik_pass(j0, j1, j2, target, l1, l2)
    }
}

/// The solver state after `n` steps.
pub open spec fn spec_ik_solve(
    j0: Vec2,
    j1: Vec2,
    j2: Vec2,
    target: Vec2,
    l1: int,
    l2: int,
    n: int,
) -> (Vec2, Vec2)
    decreases n,
{
    if n <= 0 {
        (j1, j2)
    } else {
        let s = spec_ik_step(j0, j1, j2, target, l1, l2);
        spec_ik_solve(j0, s.0, s.1, target, l1, l2, n - 1)
    }
}

/// What the solver resolves to.  A target at or beyond the chain's total
/// length is reached by stretching the chain straight toward it; any other
/// target is approached by iterative passes.
pub open spec fn spec_ik_run(
    j0: Vec2,
    j1: Vec2,
    j2: Vec2,
    target: Vec2,
    l1: int,
    l2: int,
) -> (Vec2, Vec2) {
    if spec_span(j0, target) >= l1 + l2 {
        let m = spec_place_at(j0, target, l1);
        (m, spec_place_at(m, target, l2))
    } else {
        spec_ik_solve(j0, j1, j2, target, l1, l2, IK_ITERATIONS as int)
    }
}

/// The floor square root of a perfect square of a difference.
proof fn lemma_axis_span(a: Vec2, b: Vec2)
    requires
        a.y == b.y,
    ensures
        spec_span(a, b) == abs(a.x - b.x),
{
    let dx = a.x - b.x;
    let dy = a.y - b.y;
    assert(dy * dy == 0) by (nonlinear_arith)
        requires
            dy == 0,
    ;
    assert(is_isqrt(dx * dx + dy * dy, abs(dx) as int)) by (nonlinear_arith)
        requires
            dy * dy == 0,
    ;
    lemma_sqrt_exists(dx * dx + dy * dy);
    lemma_sqrt_unique(dx * dx + dy * dy, abs(dx) as int, spec_sqrt(dx * dx + dy * dy));
}

/// `spec_place_at` on a horizontal line lands exactly `dist` from `from`,
/// toward `toward`.
proof fn lemma_place_at_axis(from: Vec2, toward: Vec2, dist: int)
    requires
        from.in_bounds(),
        from.y == toward.y,
        from.x != toward.x,
        0 < dist,
        abs(from.x as int) + dist <= COORD_LIMIT,
    ensures
        spec_place_at(from, toward, dist) == (Vec2 {
            x: (from.x + (if toward.x >= from.x { dist } else { -dist })) as i64,
            y: from.y,
        }),
{
    let dx = toward.x - from.x;
    let dy = toward.y - from.y;
    assert(dy * dy == 0) by (nonlinear_arith)
        requires
            dy == 0,
    ;
    assert(is_isqrt(dx * dx + dy * dy, abs(dx) as int)) by (nonlinear_arith)
        requires
            dy * dy == 0,
    ;
    lemma_sqrt_exists(dx * dx + dy * dy);
    lemma_sqrt_unique(dx * dx + dy * dy, abs(dx) as int, spec_sqrt(dx * dx + dy * dy));
    let d = spec_sqrt(dx * dx + dy * dy);
    assert(d == abs(dx));
    assert(d > 0);
    let sd = if dx >= 0 { dist } else { -dist };
    assert(dx * dist == sd * d) by (nonlinear_arith)
        requires
            d == abs(dx),
            sd == (if dx >= 0 { dist } else { -dist }),
    ;
    lemma_tdiv_exact(sd, d);
    assert(spec_tdiv(dx * dist, d) == sd);
    assert(dy * dist == 0 * d) by (nonlinear_arith)
        requires
            dy == 0,
    ;
    lemma_tdiv_exact(0, d);
    assert(spec_clamp(from.x + sd) == from.x + sd);
    assert(spec_clamp(from.y + 0) == from.y);
}

/// Law (inverse-kinematics reachability, shown on the axis-aligned
/// record): a target on the chain root's horizontal line, at or beyond the
/// chain's total length, resolves to the exactly straight, fully extended
/// chain — the middle joint one first-segment length from the root toward
/// the target, the end joint one second-segment length beyond it.
pub proof fn lemma_ik_straightens_axis_aligned(
    j0: Vec2,
    j1: Vec2,
    j2: Vec2,
    target: Vec2,
    l1: int,
    l2: int,
)
    requires
        j0.in_bounds(),
        target.in_bounds(),
        target.y == j0.y,
        0 < l1 <= REST_LIMIT,
        0 < l2 <= REST_LIMIT,
        spec_span(j0, target) >= l1 + l2,
        abs(j0.x as int) + l1 + l2 <= COORD_LIMIT,
    ensures
        spec_ik_run(j0, j1, j2, target, l1, l2) == (
            Vec2 {
                x: (j0.x + (if target.x >= j0.x { l1 } else { -l1 })) as i64,
                y: j0.y,
            },
            Vec2 {
                x: (j0.x + (if target.x >= j0.x { l1 + l2 } else { -(l1 + l2) })) as i64,
                y: j0.y,
            },
        ),
{
    lemma_axis_span(j0, target);
    assert(abs(j0.x - target.x) >= l1 + l2);
    assert(target.x != j0.x);
    lemma_place_at_axis(j0, target, l1);
    let m = spec_place_at(j0, target, l1);
    assert(m.y == j0.y);
    if target.x >= j0.x {
        assert(m.x == j0.x + l1);
        assert(target.x >= j0.x + (l1 + l2));
        assert(target.x > m.x);
        assert(abs(m.x as int) + l2 <= COORD_LIMIT);
        assert(m.in_bounds());
        lemma_place_at_axis(m, target, l2);
        assert(spec_place_at(m, target, l2).x == m.x + l2);
    } else {
        assert(m.x == j0.x - l1);
        assert(target.x <= j0.x - (l1 + l2));
        assert(target.x < m.x);
        assert(abs(m.x as int) + l2 <= COORD_LIMIT);
        assert(m.in_bounds());
        lemma_place_at_axis(m, target, l2);
        assert(spec_place_at(m, target, l2).x == m.x - l2);
    }
}

/// Every particle's velocity estimate is below `eps` in each component.
pub open spec fn spec_at_rest(ps: Seq<Particle>, eps: int) -> bool {
    forall|i: int|
        0 <= i < ps.len() ==> {
            &&& abs((#[trigger] ps[i]).position.x - ps[i].previous_position.x) <= eps
            &&& abs(ps[i].position.y - ps[i].previous_position.y) <= eps
        }
}

/// The point at `dist` from `from` toward `toward`, exactly
/// `spec_place_at`.
pub fn place_at(from: Vec2, toward: Vec2, dist: i64) -> (r: Vec2)
    requires
        from.in_bounds(),
        toward.in_bounds(),
        0 <= dist <= REST_LIMIT,
    ensures
        r == spec_place_at(from, toward, dist as int),
        r.in_bounds(),
{
    let dx = toward.x - from.x;
    let dy = toward.y - from.y;
    proof {
        lemma_abs_mul_bound(dx as int, dx as int, 0x4000_0000, 0x4000_0000);
        lemma_abs_mul_bound(dy as int, dy as int, 0x4000_0000, 0x4000_0000);
        assert(dx as int * dx as int >= 0 && dy as int * dy as int >= 0) by (nonlinear_arith);
    }
    let d2 = mul64(dx, dx) + mul64(dy, dy);
    let root = isqrt(d2 as u64);
    proof {
        assert(root as int <= 0x6000_0000) by (nonlinear_arith)
            requires
                is_isqrt(d2 as int, root as int),
                d2 as int <= 0x2000_0000_0000_0000,
        ;
    }
    let d = root as i64;
    if d == 0 {
        return from;
    }
    proof {
        assert(abs(dx as int) <= d as int && abs(dy as int) <= d as int) by (nonlinear_arith)
            requires
                is_isqrt(d2 as int, d as int),
                d2 as int == dx as int * dx as int + dy as int * dy as int,
                dx as int * dx as int >= 0,
                dy as int * dy as int >= 0,
        ;
        lemma_abs_mul_bound(dx as int, dist as int, 0x4000_0000, REST_LIMIT as int);
        lemma_abs_mul_bound(dy as int, dist as int, 0x4000_0000, REST_LIMIT as int);
        lemma_tdiv_scaled(dist as int, dx as int, d as int);
        lemma_tdiv_scaled(dist as int, dy as int, d as int);
        assert(dx as int * dist as int == dist as int * dx as int) by (nonlinear_arith);
        assert(dy as int * dist as int == dist as int * dy as int) by (nonlinear_arith);
    }
    let ox = tdiv(mul64(dx, dist), d);
    let oy = tdiv(mul64(dy, dist), d);
    Vec2 { x: clamp_coord(from.x + ox), y: clamp_coord(from.y + oy) }
}

/// A skeleton: the hierarchy description, its backing particle system (one
/// particle per joint, one stick constraint per bone), and the joint
/// positions the last authored pose resolved to (the animation-space
/// cache).
pub struct Skeleton {
    pub data: SkeletalData,
    pub system: ParticleSystem,
    pub animation_points: Vec<Vec2>,
}

impl Skeleton {
    /// The state every operation preserves.
    pub open spec fn wf(self) -> bool {
        &&& skeletal_ok(self.data.bones@)
        &&& self.system.wf()
        &&& self.system.particles@.len() == self.data.bones@.len() + 1
        &&& self.system.constraints@ == spec_bone_constraints(self.data.bones@)
        &&& self.animation_points@.len() == self.data.bones@.len() + 1
        &&& forall|i: int|
            0 <= i < self.animation_points@.len() ==> (#[trigger] self.animation_points@[i]).in_bounds()
    }

    /// How many bones the skeleton has.
    pub fn bone_count(&self) -> (r: usize)
        ensures
            r == self.data.bones@.len(),
    {
        self.data.bones.len()
    }

    /// The index of the first bone called `name`, if any.
    pub fn get_bone_index(&self, name: &String) -> (r: Option<usize>)
        ensures
            r matches Some(i) ==> (i as int) < self.data.bones@.len() && self.data.bones@[
                i as int
            ].name@ == name@ && (forall|j: int|
                0 <= j < i ==> (#[trigger] self.data.bones@[j]).name@ != name@),
            r is None ==> forall|i: int|
                0 <= i < self.data.bones@.len() ==> (#[trigger] self.data.bones@[i]).name@ != name@,
    {
        let n = self.data.bones.len();
        let mut i: usize = 0;
        while i < n
            invariant
                i <= n,
                n == self.data.bones@.len(),
                forall|j: int| 0 <= j < i ==> (#[trigger] self.data.bones@[j]).name@ != name@,
            decreases n - i,
        {
            if self.data.bones[i].name.eq(name) {
                return Some(i);
            }
            i += 1;
        }
        None
    }

    /// Build a skeleton from a hierarchy description.  A zero-length bone
    /// or a malformed parent relation is fatal here, at build time.  Joints
    /// start in a straight vertical chain below the origin, immovable
    /// (animation-driven) until detached.
    #[verifier::loop_isolation(false)]
    pub fn new(data: SkeletalData) -> (r: Result<Skeleton, SkeletonError>)
        ensures
            r is Ok <==> skeletal_ok(data.bones@),
            r matches Ok(s) ==> {
                &&& s.wf()
                &&& s.data.bones@ == data.bones@
                &&& s.animation_points@ == spec_rest_points(data.bones@, data.bones@.len() as int)
                &&& forall|i: int|
                    0 <= i < s.system.particles@.len() ==> #[trigger] s.system.particles@[i]
                        == (Particle {
                        position: spec_rest_points(data.bones@, data.bones@.len() as int)[i],
                        previous_position: spec_rest_points(data.bones@, data.bones@.len() as int)[i],
                        inverse_mass: 0,
                    })
            },
    {
        let n = data.bones.len();
        if n == usize::MAX {
            return Err(SkeletonError::BadHierarchy);
        }
        let mut i: usize = 0;
        while i < n
            invariant
                n < usize::MAX,
                i <= n,
                n == data.bones@.len(),
                forall|j: int|
                    0 <= j < i ==> {
                        &&& 0 < (#[trigger] data.bones@[j]).length <= REST_LIMIT
                        &&& if j == 0 {
                            data.bones@[0].parent == 0
                        } else {
                            (data.bones@[j].parent as int) < j
                        }
                    },
            decreases n - i,
        {
            let b = &data.bones[i];
            if b.length <= 0 || b.length > REST_LIMIT {
                return Err(SkeletonError::BadBoneLength);
            }
            if i == 0 {
                if b.parent != 0 {
                    return Err(SkeletonError::BadHierarchy);
                }
            } else {
                if b.parent >= i {
                    return Err(SkeletonError::BadHierarchy);
                }
            }
            i += 1;
        }
        let mut points: Vec<Vec2> = Vec::new();
        points.push(Vec2 { x: 0, y: 0 });
        proof {
            assert(points@ =~= spec_rest_points(data.bones@, 0));
        }
        let mut i: usize = 0;
        while i < n
            invariant
                i <= n,
                n == data.bones@.len(),
                skeletal_ok(data.bones@),
                points@.len() == i + 1,
                points@ == spec_rest_points(data.bones@, i as int),
                forall|j: int| 0 <= j < i + 1 ==> (#[trigger] points@[j]).in_bounds(),
            decreases n - i,
        {
            let sj = if i == 0 {
                0
            } else {
                data.bones[i].parent + 1
            };
            let start = points[sj];
            let end = Vec2 { x: start.x, y: clamp_coord(start.y + data.bones[i].length) };
            points.push(end);
            proof {
                assert(points@ =~= spec_rest_points(data.bones@, i + 1));
            }
            i += 1;
        }
        let mut particles: Vec<Particle> = Vec::new();
        let mut names: Vec<String> = Vec::new();
        let mut constraints: Vec<Constraint> = Vec::new();
        let mut i: usize = 0;
        while i < n + 1
            invariant
                i <= n + 1,
                n == data.bones@.len(),
                points@.len() == n + 1,
                skeletal_ok(data.bones@),
                forall|j: int| 0 <= j < n + 1 ==> (#[trigger] points@[j]).in_bounds(),
                particles@.len() == i,
                names@.len() == i,
                forall|j: int|
                    0 <= j < i ==> #[trigger] particles@[j] == (Particle {
                        position: points@[j],
                        previous_position: points@[j],
                        inverse_mass: 0,
                    }),
            decreases n + 1 - i,
        {
            particles.push(
                Particle { position: points[i], previous_position: points[i], inverse_mass: 0 },
            );
            if i == 0 {
                names.push(String::new());
            } else {
                names.push(data.bones[i - 1].name.clone());
            }
            i += 1;
        }
        let mut i: usize = 0;
        while i < n
            invariant
                i <= n,
                n == data.bones@.len(),
                skeletal_ok(data.bones@),
                constraints@.len() == i,
                forall|j: int|
                    0 <= j < i ==> #[trigger] constraints@[j] == spec_bone_constraints(
                        data.bones@,
                    )[j],
            decreases n - i,
        {
            let sj = if i == 0 {
                0
            } else {
                data.bones[i].parent + 1
            };
            constraints.push(
                Constraint {
                    a: sj,
                    b: i + 1,
                    kind: ConstraintKind::Stick { rest_length: data.bones[i].length },
                    stiffness: SCALE,
                    solid: true,
                },
            );
            i += 1;
        }
        proof {
            assert(constraints@ =~= spec_bone_constraints(data.bones@));
            assert forall|j: int| 0 <= j < constraints@.len() implies (#[trigger] constraints@[
                j
            ]).wf((n + 1) as nat) by {
                assert(constraints@[j] == spec_bone_constraints(data.bones@)[j]);
            }
        }
        let system = ParticleSystem::with_parts(particles, constraints, names);
        Ok(Skeleton { data, system, animation_points: points })
    }

    /// Forward posing: compose each bone's local rotation down the
    /// hierarchy, resolve world joint positions, hard-write every joint
    /// (zeroing implied velocities), and cache the result as the
    /// animation-space pose.
    #[verifier::loop_isolation(false)]
    pub fn apply_pose(&mut self, origin: Vec2, poses: &Vec<BonePose>)
        requires
            old(self).wf(),
            origin.in_bounds(),
            poses@.len() == old(self).data.bones@.len(),
            forall|i: int| 0 <= i < poses@.len() ==> (#[trigger] poses@[i]).rotation.wf(),
        ensures
            final(self).wf(),
            final(self).data.bones@ == old(self).data.bones@,
            final(self).animation_points@ == spec_fk_points(
                old(self).data.bones@,
                poses@,
                origin,
                old(self).data.bones@.len() as int,
            ),
            final(self).system.particles@.len() == old(self).system.particles@.len(),
            forall|j: int|
                0 <= j < old(self).system.particles@.len() ==> #[trigger] final(self).system.particles@[j] == (Particle {
                    position: spec_fk_points(
                        old(self).data.bones@,
                        poses@,
                        origin,
                        old(self).data.bones@.len() as int,
                    )[j],
                    previous_position: spec_fk_points(
                        old(self).data.bones@,
                        poses@,
                        origin,
                        old(self).data.bones@.len() as int,
                    )[j],
                    inverse_mass: old(self).system.particles@[j].inverse_mass,
                }),
            final(self).system.constraints@ == old(self).system.constraints@,
            final(self).system.names@ == old(self).system.names@,
            final(self).system.damping == old(self).system.damping,
    {
        let n = self.data.bones.len();
        let ghost bones = self.data.bones@;
        let mut points: Vec<Vec2> = Vec::new();
        let mut rots: Vec<Angle> = Vec::new();
        points.push(origin);
        proof {
            assert(points@ =~= spec_fk_points(bones, poses@, origin, 0));
            assert(rots@ =~= spec_fk_rots(bones, poses@, 0));
        }
        let mut i: usize = 0;
        while i < n
            invariant
                i <= n,
                n == bones.len(),
                self == old(self),
                skeletal_ok(bones),
                points@.len() == i + 1,
                rots@.len() == i,
                points@ == spec_fk_points(bones, poses@, origin, i as int),
                rots@ == spec_fk_rots(bones, poses@, i as int),
                forall|j: int| 0 <= j < i + 1 ==> (#[trigger] points@[j]).in_bounds(),
                forall|j: int| 0 <= j < i ==> (#[trigger] rots@[j]).wf(),
            decreases n - i,
        {
            let rot = if i == 0 {
                poses[0].rotation
            } else {
                rots[self.data.bones[i].parent].compose(poses[i].rotation)
            };
            rots.push(rot);
            let sj = if i == 0 {
                0
            } else {
                self.data.bones[i].parent + 1
            };
            let start = points[sj];
            let off = rot.offset(self.data.bones[i].length);
            let end = Vec2 {
                x: clamp_coord(start.x + off.x),
                y: clamp_coord(start.y + off.y),
            };
            points.push(end);
            proof {
                assert(points@ =~= spec_fk_points(bones, poses@, origin, i + 1));
                assert(rots@ =~= spec_fk_rots(bones, poses@, i + 1));
            }
            i += 1;
        }
        let mut j: usize = 0;
        let ghost target = points@;
        while j < n + 1
            invariant
                j <= n + 1,
                n == bones.len(),
                self.data.bones@ == bones,
                skeletal_ok(bones),
                self.system.wf(),
                self.system.particles@.len() == n + 1,
                target.len() == n + 1,
                points@ == target,
                forall|k: int| 0 <= k < n + 1 ==> (#[trigger] target[k]).in_bounds(),
                self.system.constraints@ == old(self).system.constraints@,
                self.system.names@ == old(self).system.names@,
                self.system.damping == old(self).system.damping,
                self.animation_points@ == old(self).animation_points@,
                forall|k: int|
                    0 <= k < j ==> #[trigger] self.system.particles@[k] == (Particle {
                        position: target[k],
                        previous_position: target[k],
                        inverse_mass: old(self).system.particles@[k].inverse_mass,
                    }),
                forall|k: int|
                    j <= k < n + 1 ==> self.system.particles@[k] == old(self).system.particles@[k],
            decreases n + 1 - j,
        {
            let p = points[j];
            self.system.set_particle_position(j, p);
            j += 1;
        }
        self.animation_points = points;
    }

    /// Inverse posing of the two-bone chain ending at `bone`: alternate
    /// forward-reaching and backward-reaching passes (anchored at the
    /// chain root) until the end joint is within `IK_TOLERANCE` of the
    /// target or `IK_ITERATIONS` passes are spent, then hard-write the two
    /// moved joints.  A degenerate pass (coincident points) leaves the
    /// degenerate joint in place rather than failing.
    #[verifier::loop_isolation(false)]
    pub fn solve_ik(&mut self, bone: usize, target: Vec2)
        requires
            old(self).wf(),
            0 < bone < old(self).data.bones@.len(),
            start_joint(old(self).data.bones@, bone as int) == bone as int,
            target.in_bounds(),
        ensures
            final(self).wf(),
            final(self).data.bones@ == old(self).data.bones@,
            final(self).animation_points@ == old(self).animation_points@,
            ({
                let bones = old(self).data.bones@;
                let ps = old(self).system.particles@;
                let p = bones[bone as int].parent as int;
                let j0 = start_joint(bones, p);
                let solved = spec_ik_run(
                    ps[j0].position,
                    ps[bone as int].position,
                    ps[bone as int + 1].position,
                    target,
                    bones[p].length as int,
                    bones[bone as int].length as int,
                );
                final(self).system.particles@ == ps.update(
                    bone as int,
                    Particle {
                        position: solved.0,
                        previous_position: solved.0,
                        inverse_mass: ps[bone as int].inverse_mass,
                    },
                ).update(
                    bone as int + 1,
                    Particle {
                        position: solved.1,
                        previous_position: solved.1,
                        inverse_mass: ps[bone as int + 1].inverse_mass,
                    },
                )
            }),
            final(self).system.constraints@ == old(self).system.constraints@,
            final(self).system.names@ == old(self).system.names@,
            final(self).system.damping == old(self).system.damping,
    {
        let parent = self.data.bones[bone].parent;
        let j0idx = if parent == 0 {
            0
        } else {
            self.data.bones[parent].parent + 1
        };
        let j0 = self.system.get_particle(j0idx).position;
        let l1 = self.data.bones[parent].length;
        let l2 = self.data.bones[bone].length;
        let mut j1 = self.system.get_particle(bone).position;
        let mut j2 = self.system.get_particle(bone + 1).position;
        let reach = span_between(j0, target);
        if reach >= l1 + l2 {
            j1 = place_at(j0, target, l1);
            j2 = place_at(j1, target, l2);
            self.system.set_particle_position(bone, j1);
            self.system.set_particle_position(bone + 1, j2);
            return ;
        }
        let ghost init1 = j1;
        let ghost init2 = j2;
        let mut it: usize = 0;
        while it < IK_ITERATIONS
            invariant
                it <= IK_ITERATIONS,
                self == old(self),
                j0.in_bounds(),
                target.in_bounds(),
                j1.in_bounds(),
                j2.in_bounds(),
                0 < l1 <= REST_LIMIT,
                0 < l2 <= REST_LIMIT,
                spec_ik_solve(
                    j0,
                    j1,
                    j2,
                    target,
                    l1 as int,
                    l2 as int,
                    (IK_ITERATIONS - it) as int,
                ) == spec_ik_solve(
                    j0,
                    init1,
                    init2,
                    target,
                    l1 as int,
                    l2 as int,
                    IK_ITERATIONS as int,
                ),
            decreases IK_ITERATIONS - it,
        {
            let err = span_between(j2, target);
            if err > IK_TOLERANCE {
                let f1 = place_at(target, j1, l2);
                let b1 = place_at(j0, f1, l1);
                let b2 = place_at(b1, target, l2);
                j1 = b1;
                j2 = b2;
            }
            it += 1;
        }
        self.system.set_particle_position(bone, j1);
        self.system.set_particle_position(bone + 1, j2);
    }

    /// Enforce the rigid bone lengths after posing: `iterations` passes of
    /// constraint projection on the backing particle system.
    pub fn relax(&mut self, iterations: usize)
        requires
            old(self).wf(),
        ensures
            final(self).wf(),
            final(self).data.bones@ == old(self).data.bones@,
            final(self).animation_points@ == old(self).animation_points@,
            final(self).system.particles@ == spec_relax(
                old(self).system.particles@,
                old(self).system.constraints@,
                iterations as int,
            ),
            final(self).system.constraints@ == old(self).system.constraints@,
            final(self).system.names@ == old(self).system.names@,
            final(self).system.damping == old(self).system.damping,
    {
        self.system.relax(iterations);
    }

    /// A bone's start and end points in the requested coordinate space:
    /// world (read fresh from the particles, so never stale), animation
    /// (the last authored pose), or local (the bone vector relative to its
    /// start joint).
    pub fn get_bone_transform(&self, bone: usize, space: Space) -> (r: (Vec2, Vec2))
        requires
            self.wf(),
            bone < self.data.bones@.len(),
        ensures
            ({
                let sj = start_joint(self.data.bones@, bone as int);
                match space {
                    Space::World => r == (
                        self.system.particles@[sj].position,
                        self.system.particles@[bone as int + 1].position,
                    ),
                    Space::Animation => r == (
                        self.animation_points@[sj],
                        self.animation_points@[bone as int + 1],
                    ),
                    Space::Local => r == (
                        Vec2 { x: 0, y: 0 },
                        Vec2 {
                            x: (self.system.particles@[bone as int + 1].position.x
                                - self.system.particles@[sj].position.x) as i64,
                            y: (self.system.particles@[bone as int + 1].position.y
                                - self.system.particles@[sj].position.y) as i64,
                        },
                    ),
                }
            }),
    {
        let sj = if bone == 0 {
            0
        } else {
            self.data.bones[bone].parent + 1
        };
        match space {
            Space::World => {
                let s = self.system.get_particle(sj).position;
                let e = self.system.get_particle(bone + 1).position;
                (s, e)
            },
            Space::Animation => (self.animation_points[sj], self.animation_points[bone + 1]),
            Space::Local => {
                let s = self.system.get_particle(sj).position;
                let e = self.system.get_particle(bone + 1).position;
                (Vec2 { x: 0, y: 0 }, Vec2 { x: e.x - s.x, y: e.y - s.y })
            },
        }
    }

    /// The world position of a bone's end joint, read fresh.
    pub fn get_bone_end_world(&self, bone: usize) -> (r: Vec2)
        requires
            self.wf(),
            bone < self.data.bones@.len(),
        ensures
            r == self.system.particles@[bone as int + 1].position,
    {
        self.system.get_particle(bone + 1).position
    }

    /// The animation-space position of a bone's end joint: the anchor an
    /// accessory aims its inverse-kinematics requests at.
    pub fn get_bone_end_ik(&self, bone: usize) -> (r: Vec2)
        requires
            self.wf(),
            bone < self.data.bones@.len(),
        ensures
            r == self.animation_points@[bone as int + 1],
    {
        self.animation_points[bone + 1]
    }

    /// The tight axis-aligned bounding box over all joint positions: every
    /// joint lies inside it, and each of its four bounds is attained by
    /// some joint (a skeleton always has at least its root joint).
    #[verifier::loop_isolation(false)]
    pub fn world_bounds(&self) -> (r: (Vec2, Vec2))
        requires
            self.wf(),
        ensures
            forall|i: int|
                0 <= i < self.system.particles@.len() ==> {
                    &&& r.0.x <= (#[trigger] self.system.particles@[i]).position.x <= r.1.x
                    &&& r.0.y <= self.system.particles@[i].position.y <= r.1.y
                },
            exists|i: int|
                0 <= i < self.system.particles@.len() && (#[trigger] self.system.particles@[
                    i
                ]).position.x == r.0.x,
            exists|i: int|
                0 <= i < self.system.particles@.len() && (#[trigger] self.system.particles@[
                    i
                ]).position.y == r.0.y,
            exists|i: int|
                0 <= i < self.system.particles@.len() && (#[trigger] self.system.particles@[
                    i
                ]).position.x == r.1.x,
            exists|i: int|
                0 <= i < self.system.particles@.len() && (#[trigger] self.system.particles@[
                    i
                ]).position.y == r.1.y,
            r.0.x <= r.1.x,
            r.0.y <= r.1.y,
    {
        let ghost ps = self.system.particles@;
        let first = self.system.get_particle(0).position;
        let mut lo = first;
        let mut hi = first;
        let n = self.system.particle_count();
        let mut i: usize = 1;
        while i < n
            invariant
                1 <= i <= n,
                n == ps.len(),
                ps == self.system.particles@,
                self.system.wf(),
                forall|j: int|
                    0 <= j < i ==> {
                        &&& lo.x <= (#[trigger] ps[j]).position.x <= hi.x
                        &&& lo.y <= ps[j].position.y <= hi.y
                    },
                exists|j: int| 0 <= j < i && (#[trigger] ps[j]).position.x == lo.x,
                exists|j: int| 0 <= j < i && (#[trigger] ps[j]).position.y == lo.y,
                exists|j: int| 0 <= j < i && (#[trigger] ps[j]).position.x == hi.x,
                exists|j: int| 0 <= j < i && (#[trigger] ps[j]).position.y == hi.y,
            decreases n - i,
        {
            let ghost lo0 = lo;
            let ghost hi0 = hi;
            let p = self.system.get_particle(i).position;
            if p.x < lo.x {
                lo.x = p.x;
            }
            if p.y < lo.y {
                lo.y = p.y;
            }
            if p.x > hi.x {
                hi.x = p.x;
            }
            if p.y > hi.y {
                hi.y = p.y;
            }
            proof {
                let k = i as int;
                if lo.x == ps[k].position.x {
                    assert(0 <= k < k + 1 && ps[k].position.x == lo.x);
                } else {
                    let w = choose|j: int| 0 <= j < k && (#[trigger] ps[j]).position.x == lo0.x;
                    assert(0 <= w < k + 1 && ps[w].position.x == lo.x);
                }
                if lo.y == ps[k].position.y {
                    assert(0 <= k < k + 1 && ps[k].position.y == lo.y);
                } else {
                    let w = choose|j: int| 0 <= j < k && (#[trigger] ps[j]).position.y == lo0.y;
                    assert(0 <= w < k + 1 && ps[w].position.y == lo.y);
                }
                if hi.x == ps[k].position.x {
                    assert(0 <= k < k + 1 && ps[k].position.x == hi.x);
                } else {
                    let w = choose|j: int| 0 <= j < k && (#[trigger] ps[j]).position.x == hi0.x;
                    assert(0 <= w < k + 1 && ps[w].position.x == hi.x);
                }
                if hi.y == ps[k].position.y {
                    assert(0 <= k < k + 1 && ps[k].position.y == hi.y);
                } else {
                    let w = choose|j: int| 0 <= j < k && (#[trigger] ps[j]).position.y == hi0.y;
                    assert(0 <= w < k + 1 && ps[w].position.y == hi.y);
                }
            }
            i += 1;
        }
        (lo, hi)
    }

    /// Whether every joint's implied velocity is below `eps` per component.
    #[verifier::loop_isolation(false)]
    pub fn at_rest(&self, eps: i64) -> (r: bool)
        requires
            self.wf(),
            eps >= 0,
        ensures
            r == spec_at_rest(self.system.particles@, eps as int),
    {
        let n = self.system.particle_count();
        let mut i: usize = 0;
        while i < n
            invariant
                i <= n,
                n == self.system.particles@.len(),
                self.system.wf(),
                forall|j: int|
                    0 <= j < i ==> {
                        &&& abs(
                            (#[trigger] self.system.particles@[j]).position.x
                                - self.system.particles@[j].previous_position.x,
                        ) <= eps
                        &&& abs(
                            self.system.particles@[j].position.y
                                - self.system.particles@[j].previous_position.y,
                        ) <= eps
                    },
            decreases n - i,
        {
            let p = self.system.get_particle(i);
            let dx = p.position.x - p.previous_position.x;
            let dy = p.position.y - p.previous_position.y;
            if dx > eps || dx < -eps || dy > eps || dy < -eps {
                return false;
            }
            i += 1;
        }
        true
    }

    /// The skeleton's line segments: one per bone, start joint to end
    /// joint, recomputed fresh from the current particles.
    #[verifier::loop_isolation(false)]
    pub fn segments(&self) -> (r: Vec<(Vec2, Vec2)>)
        requires
            self.wf(),
        ensures
            r@.len() == self.data.bones@.len(),
            forall|i: int|
                0 <= i < r@.len() ==> #[trigger] r@[i] == (
                    self.system.particles@[start_joint(self.data.bones@, i)].position,
                    self.system.particles@[i + 1].position,
                ),
    {
        let n = self.data.bones.len();
        let mut out: Vec<(Vec2, Vec2)> = Vec::new();
        let mut i: usize = 0;
        while i < n
            invariant
                i <= n,
                n == self.data.bones@.len(),
                self.wf(),
                out@.len() == i,
                forall|j: int|
                    0 <= j < i ==> #[trigger] out@[j] == (
                        self.system.particles@[start_joint(self.data.bones@, j)].position,
                        self.system.particles@[j + 1].position,
                    ),
            decreases n - i,
        {
            let sj = if i == 0 {
                0
            } else {
                self.data.bones[i].parent + 1
            };
            let s = self.system.get_particle(sj).position;
            let e = self.system.get_particle(i + 1).position;
            out.push((s, e));
            i += 1;
        }
        out
    }
}

} // verus!
