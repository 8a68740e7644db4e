//! Scenario tests for the particle-constraint substrate and rigid props.

use lean::fixed::{COORD_LIMIT, SCALE};
use lean::{
    Constraint, ConstraintKind, Particle, ParticleSystem, ParticleTemplate, RigidBody,
    RigidBodyData, TemplateError, Vec2,
};

fn p(x: i64, y: i64, inverse_mass: i64) -> Particle {
    Particle {
        position: Vec2 { x, y },
        previous_position: Vec2 { x, y },
        inverse_mass,
    }
}

fn stick(a: usize, b: usize, rest: i64) -> Constraint {
    Constraint {
        a,
        b,
        kind: ConstraintKind::Stick { rest_length: rest },
        stiffness: SCALE,
        solid: true,
    }
}

fn dist(a: Vec2, b: Vec2) -> f64 {
    let dx = (a.x - b.x) as f64;
    let dy = (a.y - b.y) as f64;
    (dx * dx + dy * dy).sqrt()
}

fn demo_template() -> ParticleTemplate {
    let points = vec![
        (String::from("A"), Vec2 { x: 0, y: 0 }),
        (String::from("B"), Vec2 { x: 30720, y: 0 }),
        (String::from("C"), Vec2 { x: 0, y: 30720 }),
    ];
    let links = vec![
        (String::from("A"), String::from("B"), true),
        (String::from("B"), String::from("C"), true),
        (String::from("C"), String::from("A"), true),
    ];
    ParticleTemplate::new(points, links).expect("valid template")
}

#[test]
fn integrate_then_relax_is_deterministic() {
    let t = demo_template();
    let mut s1 = ParticleSystem::from_template(&t);
    let mut s2 = ParticleSystem::from_template(&t);
    for sys in [&mut s1, &mut s2] {
        for i in 0..sys.particle_count() {
            sys.set_inverse_mass(i, SCALE);
        }
        for _ in 0..30 {
            sys.integrate(17, Vec2 { x: 0, y: 10035 });
            sys.relax(5);
        }
    }
    for i in 0..s1.particle_count() {
        assert_eq!(s1.get_particle(i), s2.get_particle(i));
    }
}

#[test]
fn immovable_particle_never_moves() {
    let anchor = Particle {
        position: Vec2 { x: 1000, y: 2000 },
        previous_position: Vec2 { x: 900, y: 1900 },
        inverse_mass: 0,
    };
    let particles = vec![anchor, p(40000, 2000, SCALE)];
    let constraints = vec![stick(0, 1, 30720)];
    let names = vec![String::from("anchor"), String::from("free")];
    let mut sys = ParticleSystem::with_parts(particles, constraints, names);
    for _ in 0..20 {
        sys.integrate(17, Vec2 { x: 4000, y: 10035 });
        sys.relax(8);
    }
    let a = sys.get_particle(0);
    assert_eq!(a.position, Vec2 { x: 1000, y: 2000 });
    assert_eq!(a.previous_position, Vec2 { x: 900, y: 1900 });
    assert_eq!(a.inverse_mass, 0);
}

#[test]
fn stick_converges_toward_rest_length() {
    // Rest length 30 units, initial distance 45, one immovable endpoint:
    // the error must shrink monotonically and end within 0.01 units after
    // ten relaxation passes.
    let particles = vec![p(0, 0, 0), p(46080, 0, SCALE)];
    let constraints = vec![stick(0, 1, 30720)];
    let names = vec![String::from("pin"), String::from("bob")];
    let mut sys = ParticleSystem::with_parts(particles, constraints, names);
    let rest = 30720.0;
    let mut err = (dist(sys.get_particle(0).position, sys.get_particle(1).position) - rest).abs();
    for _ in 0..10 {
        sys.relax(1);
        let e = (dist(sys.get_particle(0).position, sys.get_particle(1).position) - rest).abs();
        assert!(e <= err + 1e-9, "error grew from {err} to {e}");
        err = e;
    }
    assert!(err <= 0.01 * SCALE as f64, "final error {err}");
}

#[test]
fn verlet_integration_exact_values() {
    // One free unit-mass particle under gravity (0, 9.8) at dt = 17/1024:
    // the acceleration term is g * dt * dt, truncated at each rescale, so
    // the first two steps land at exactly 2 and 6 fixed steps down.
    let particles = vec![p(0, 0, SCALE)];
    let mut sys = ParticleSystem::with_parts(particles, Vec::new(), vec![String::from("m")]);
    sys.integrate(17, Vec2 { x: 0, y: 10035 });
    assert_eq!(sys.get_particle(0).position, Vec2 { x: 0, y: 2 });
    assert_eq!(sys.get_particle(0).previous_position, Vec2 { x: 0, y: 0 });
    sys.integrate(17, Vec2 { x: 0, y: 10035 });
    assert_eq!(sys.get_particle(0).position, Vec2 { x: 0, y: 6 });
}

#[test]
fn damping_scales_carried_velocity() {
    // A particle carrying one unit of velocity per step, no gravity, with
    // damping 0.5: the next step carries exactly half the displacement.
    let moving = Particle {
        position: Vec2 { x: 1024, y: 0 },
        previous_position: Vec2 { x: 0, y: 0 },
        inverse_mass: SCALE,
    };
    let mut sys = ParticleSystem::with_parts(vec![moving], Vec::new(), vec![String::from("m")]);
    sys.set_damping(512);
    sys.integrate(17, Vec2 { x: 0, y: 0 });
    assert_eq!(sys.get_particle(0).position, Vec2 { x: 1536, y: 0 });
    assert_eq!(sys.get_particle(0).previous_position, Vec2 { x: 1024, y: 0 });
}

#[test]
fn template_rejects_unknown_point() {
    let points = vec![(String::from("A"), Vec2 { x: 0, y: 0 })];
    let links = vec![(String::from("A"), String::from("B"), true)];
    assert_eq!(
        ParticleTemplate::new(points, links).err(),
        Some(TemplateError::UnknownPoint)
    );
}

#[test]
fn template_rejects_zero_length_constraint() {
    let points = vec![
        (String::from("A"), Vec2 { x: 5, y: 5 }),
        (String::from("B"), Vec2 { x: 5, y: 5 }),
    ];
    let links = vec![(String::from("A"), String::from("B"), true)];
    assert_eq!(
        ParticleTemplate::new(points, links).err(),
        Some(TemplateError::ZeroLengthConstraint)
    );
}

#[test]
fn template_rejects_point_out_of_range() {
    let points = vec![(String::from("A"), Vec2 { x: COORD_LIMIT + 1, y: 0 })];
    assert_eq!(
        ParticleTemplate::new(points, Vec::new()).err(),
        Some(TemplateError::PointOutOfRange)
    );
}

#[test]
fn template_resolves_names_in_order() {
    let t = demo_template();
    let sys = ParticleSystem::from_template(&t);
    assert_eq!(sys.get_index(&String::from("A")), Some(0));
    assert_eq!(sys.get_index(&String::from("B")), Some(1));
    assert_eq!(sys.get_index(&String::from("C")), Some(2));
    assert_eq!(sys.get_index(&String::from("D")), None);
}

#[test]
fn from_template_places_particles_at_offsets() {
    let t = demo_template();
    let sys = ParticleSystem::from_template(&t);
    assert_eq!(sys.particle_count(), 3);
    let q = sys.get_particle(1);
    assert_eq!(q.position, Vec2 { x: 30720, y: 0 });
    assert_eq!(q.previous_position, Vec2 { x: 30720, y: 0 });
    assert_eq!(q.inverse_mass, 0);
}

#[test]
fn set_particle_position_zeroes_velocity() {
    let t = demo_template();
    let mut sys = ParticleSystem::from_template(&t);
    sys.set_inverse_mass(0, SCALE);
    sys.apply_force(0, Vec2 { x: 5000, y: 0 });
    sys.set_particle_position(0, Vec2 { x: 77, y: 88 });
    let q = sys.get_particle(0);
    assert_eq!(q.position, Vec2 { x: 77, y: 88 });
    assert_eq!(q.previous_position, Vec2 { x: 77, y: 88 });
}

#[test]
fn apply_force_adjusts_velocity_estimate() {
    let t = demo_template();
    let mut sys = ParticleSystem::from_template(&t);
    sys.set_inverse_mass(0, SCALE);
    sys.apply_force(0, Vec2 { x: 2048, y: -1024 });
    let q = sys.get_particle(0);
    assert_eq!(q.position, Vec2 { x: 0, y: 0 });
    assert_eq!(q.previous_position, Vec2 { x: -2048, y: 1024 });
}

fn rifle_like_body() -> RigidBody {
    let data = RigidBodyData {
        points: vec![
            (String::from("Center"), Vec2 { x: 15360, y: 0 }),
            (String::from("Barrel"), Vec2 { x: 30720, y: 0 }),
            (String::from("StockLow"), Vec2 { x: 0, y: 5120 }),
        ],
        constraints: vec![
            (String::from("Center"), String::from("Barrel"), true),
            (String::from("Center"), String::from("StockLow"), true),
            (String::from("StockLow"), String::from("Barrel"), false),
        ],
    };
    RigidBody::new(data).expect("valid rigid body")
}

#[test]
fn make_dynamic_is_one_way_and_idempotent() {
    let mut rb = rifle_like_body();
    assert!(!rb.is_dynamic());
    rb.make_dynamic();
    assert!(rb.is_dynamic());
    // Give the particles a velocity estimate, then release again: the
    // second call must not re-zero it or touch anything else.
    rb.apply_dynamic_force(Vec2 { x: 3000, y: -500 });
    let before: Vec<Particle> = (0..rb.particle_count()).map(|i| rb.get_particle(i)).collect();
    rb.make_dynamic();
    assert!(rb.is_dynamic());
    for (i, b) in before.iter().enumerate() {
        assert_eq!(rb.get_particle(i), *b);
    }
}

#[test]
fn make_dynamic_frees_every_particle_without_moving_it() {
    let mut rb = rifle_like_body();
    let before: Vec<Particle> = (0..rb.particle_count()).map(|i| rb.get_particle(i)).collect();
    rb.make_dynamic();
    for (i, b) in before.iter().enumerate() {
        let q = rb.get_particle(i);
        assert_eq!(q.position, b.position);
        assert_eq!(q.previous_position, b.previous_position);
        assert_eq!(q.inverse_mass, SCALE);
    }
}

#[test]
fn step_static_is_pure_kinematic_placement() {
    let mut rb = rifle_like_body();
    let anchor = Vec2 { x: 100000, y: 50000 };
    let identity = lean::Angle { cos: SCALE, sin: 0 };
    rb.step_static(anchor, Vec2 { x: 0, y: 0 }, Vec2 { x: 1, y: 1 }, identity);
    // Identity transform: every particle sits at anchor + its offset, with
    // zero implied velocity.
    let q = rb.get_particle(0);
    assert_eq!(q.position, Vec2 { x: 115360, y: 50000 });
    assert_eq!(q.previous_position, q.position);
    let q = rb.get_particle(2);
    assert_eq!(q.position, Vec2 { x: 100000, y: 55120 });
}

#[test]
fn soft_constraints_are_not_relaxed() {
    // Two particles tied only by a soft link keep their separation error.
    let particles = vec![p(0, 0, SCALE), p(40960, 0, SCALE)];
    let soft = Constraint {
        a: 0,
        b: 1,
        kind: ConstraintKind::Stick { rest_length: 10240 },
        stiffness: SCALE,
        solid: false,
    };
    let names = vec![String::from("a"), String::from("b")];
    let mut sys = ParticleSystem::with_parts(particles, vec![soft], names);
    sys.relax(10);
    assert_eq!(sys.get_particle(0).position, Vec2 { x: 0, y: 0 });
    assert_eq!(sys.get_particle(1).position, Vec2 { x: 40960, y: 0 });
}

#[test]
fn angular_constraint_clamps_span() {
    // A hinge: outer particles pushed apart when closer than the minimum
    // span allowed at the shared joint.
    let particles = vec![p(0, 0, SCALE), p(10240, 0, 0), p(1024, 1024, SCALE)];
    let angular = Constraint {
        a: 0,
        b: 2,
        kind: ConstraintKind::Angular {
            joint: 1,
            min_span: 8192,
            max_span: 16384,
        },
        stiffness: SCALE,
        solid: true,
    };
    let names = vec![String::from("a"), String::from("j"), String::from("b")];
    let mut sys = ParticleSystem::with_parts(particles, vec![angular], names);
    for _ in 0..20 {
        sys.relax(1);
    }
    let span = dist(sys.get_particle(0).position, sys.get_particle(2).position);
    assert!(span >= 8192.0 - 16.0, "span {span} still under the minimum");
    assert!(span <= 16384.0 + 16.0, "span {span} over the maximum");
    // The joint particle itself is never touched by the angular projection.
    assert_eq!(sys.get_particle(1).position, Vec2 { x: 10240, y: 0 });
}
