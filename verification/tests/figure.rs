//! Scenario tests for the skeleton, the ragdoll hand-off and the rifle.

use lean::fixed::SCALE;
use lean::library::StandardRifle;
use lean::{
    Angle, BoneDesc, BonePose, BoneState, Collider, Ragdoll, SkeletalData, Skeleton,
    SkeletonError, Space, Vec2,
};

fn bone(name: &str, parent: usize, length: i64) -> BoneDesc {
    BoneDesc {
        name: String::from(name),
        parent,
        length,
    }
}

fn three_bone_skeleton() -> Skeleton {
    let data = SkeletalData {
        bones: vec![
            bone("Root", 0, 51200),
            bone("Upper", 0, 51200),
            bone("Lower", 1, 51200),
        ],
    };
    Skeleton::new(data).expect("valid skeleton")
}

fn fdist(a: Vec2, b: Vec2) -> f64 {
    let dx = (a.x - b.x) as f64;
    let dy = (a.y - b.y) as f64;
    (dx * dx + dy * dy).sqrt()
}

fn straight_down_pose(n: usize) -> Vec<BonePose> {
    let mut poses = vec![BonePose {
        rotation: Angle { cos: 0, sin: SCALE },
    }];
    for _ in 1..n {
        poses.push(BonePose {
            rotation: Angle { cos: SCALE, sin: 0 },
        });
    }
    poses
}

#[test]
fn skeleton_rejects_zero_length_bone() {
    let data = SkeletalData {
        bones: vec![bone("Root", 0, 0)],
    };
    assert_eq!(Skeleton::new(data).err(), Some(SkeletonError::BadBoneLength));
}

#[test]
fn skeleton_rejects_forward_parent() {
    let data = SkeletalData {
        bones: vec![bone("Root", 0, 51200), bone("Upper", 5, 51200)],
    };
    assert_eq!(Skeleton::new(data).err(), Some(SkeletonError::BadHierarchy));
}

#[test]
fn new_skeleton_starts_in_a_vertical_chain() {
    let s = three_bone_skeleton();
    let expected = [
        Vec2 { x: 0, y: 0 },
        Vec2 { x: 0, y: 51200 },
        Vec2 { x: 0, y: 102400 },
        Vec2 { x: 0, y: 153600 },
    ];
    for (i, e) in expected.iter().enumerate() {
        let q = s.system.get_particle(i);
        assert_eq!(q.position, *e);
        assert_eq!(q.previous_position, *e);
        assert_eq!(q.inverse_mass, 0);
        let (_, anim_end) = if i > 0 {
            s.get_bone_transform(i - 1, Space::Animation)
        } else {
            (Vec2 { x: 0, y: 0 }, Vec2 { x: 0, y: 0 })
        };
        if i > 0 {
            assert_eq!(anim_end, *e);
        }
    }
}

#[test]
fn apply_pose_writes_world_joints() {
    let mut s = three_bone_skeleton();
    let poses = straight_down_pose(3);
    s.apply_pose(Vec2 { x: 10240, y: 2048 }, &poses);
    // Straight down: every joint hangs one rest length below its parent.
    let (root_start, root_end) = s.get_bone_transform(0, Space::World);
    assert_eq!(root_start, Vec2 { x: 10240, y: 2048 });
    assert_eq!(root_end, Vec2 { x: 10240, y: 53248 });
    let (_, lower_end) = s.get_bone_transform(2, Space::World);
    assert_eq!(lower_end, Vec2 { x: 10240, y: 155648 });
    // The animation cache holds the same pose.
    let (_, anim_end) = s.get_bone_transform(2, Space::Animation);
    assert_eq!(anim_end, lower_end);
    // Local space reports the bone vector.
    let (lo, hi) = s.get_bone_transform(1, Space::Local);
    assert_eq!(lo, Vec2 { x: 0, y: 0 });
    assert_eq!(hi, Vec2 { x: 0, y: 51200 });
}

#[test]
fn detach_keeps_positions_and_velocity() {
    let mut s = three_bone_skeleton();
    let poses = straight_down_pose(3);
    s.apply_pose(Vec2 { x: 0, y: 0 }, &poses);
    // Give the animated joints an implied velocity by re-posing elsewhere
    // through the physics write path.
    let mut r = Ragdoll::new(&s);
    let before: Vec<_> = (0..4).map(|i| s.system.get_particle(i)).collect();
    r.detach_all(&mut s);
    for (i, b) in before.iter().enumerate() {
        let q = s.system.get_particle(i);
        assert_eq!(q.position, b.position, "joint {i} popped on detach");
        assert_eq!(
            q.previous_position, b.previous_position,
            "joint {i} velocity changed on detach"
        );
        assert_eq!(q.inverse_mass, SCALE);
    }
    for i in 0..3 {
        assert_eq!(r.bone_state(i), BoneState::Dynamic);
    }
}

#[test]
fn detach_single_bone_frees_only_its_joint() {
    let mut s = three_bone_skeleton();
    let mut r = Ragdoll::new(&s);
    r.detach_bone(&mut s, 2);
    assert_eq!(r.bone_state(2), BoneState::Dynamic);
    assert_eq!(r.bone_state(0), BoneState::Kinematic);
    assert_eq!(s.system.get_particle(3).inverse_mass, SCALE);
    assert_eq!(s.system.get_particle(1).inverse_mass, 0);
}

#[test]
fn impulse_on_kinematic_bone_is_noop() {
    let mut s = three_bone_skeleton();
    let mut r = Ragdoll::new(&s);
    let before = s.system.get_particle(1);
    r.apply_impulse(&mut s, 0, Vec2 { x: 9000, y: 9000 });
    assert_eq!(s.system.get_particle(1), before);
    r.detach_bone(&mut s, 0);
    r.apply_impulse(&mut s, 0, Vec2 { x: 9000, y: 9000 });
    assert_ne!(s.system.get_particle(1), before);
}

#[test]
fn ik_reaches_fully_extended_target() {
    let data = SkeletalData {
        bones: vec![bone("Upper", 0, 25600), bone("Lower", 0, 25600)],
    };
    let mut s = Skeleton::new(data).expect("valid skeleton");
    // Total length L = 50 units; target exactly L to the right of the root.
    let target = Vec2 { x: 51200, y: 0 };
    s.solve_ik(1, target);
    let end = s.system.get_particle(2).position;
    let mid = s.system.get_particle(1).position;
    assert!(fdist(end, target) <= 1024.0, "end missed the target: {end:?}");
    assert!(
        fdist(mid, Vec2 { x: 25600, y: 0 }) <= 1024.0,
        "chain is not straight: {mid:?}"
    );
}

#[test]
fn ik_folds_onto_root_for_zero_distance_target() {
    let data = SkeletalData {
        bones: vec![bone("Upper", 0, 25600), bone("Lower", 0, 25600)],
    };
    let mut s = Skeleton::new(data).expect("valid skeleton");
    let root = s.system.get_particle(0).position;
    s.solve_ik(1, root);
    let end = s.system.get_particle(2).position;
    let mid = s.system.get_particle(1).position;
    // The chain folds back: the end joint returns to the root, while the
    // middle joint stays one rigid segment away.
    assert!(fdist(end, root) <= 32.0, "end did not fold to root: {end:?}");
    assert!((fdist(mid, root) - 25600.0).abs() <= 32.0);
}

#[test]
fn detached_skeleton_falls_and_keeps_bone_lengths() {
    let mut s = three_bone_skeleton();
    let poses = straight_down_pose(3);
    s.apply_pose(Vec2 { x: 0, y: 0 }, &poses);
    let start_y: Vec<i64> = (0..4).map(|i| s.system.get_particle(i).position.y).collect();
    let mut r = Ragdoll::new(&s);
    r.detach_all(&mut s);
    let gravity = Vec2 { x: 0, y: 10035 };
    for _ in 0..60 {
        r.step(&mut s, 17, gravity, 10);
    }
    for i in 0..4 {
        let y = s.system.get_particle(i).position.y;
        assert!(
            y > start_y[i],
            "joint {i} did not fall: {y} <= {}",
            start_y[i]
        );
    }
    for b in 0..3 {
        let (start, end) = s.get_bone_transform(b, Space::World);
        let len = fdist(start, end);
        assert!(
            (len - 51200.0).abs() <= 1024.0,
            "bone {b} length drifted to {len}"
        );
    }
}

#[test]
fn world_bounds_cover_all_joints() {
    let mut s = three_bone_skeleton();
    let poses = straight_down_pose(3);
    s.apply_pose(Vec2 { x: -1000, y: 500 }, &poses);
    let (lo, hi) = s.world_bounds();
    for i in 0..4 {
        let q = s.system.get_particle(i).position;
        assert!(lo.x <= q.x && q.x <= hi.x);
        assert!(lo.y <= q.y && q.y <= hi.y);
    }
    assert_eq!(lo, Vec2 { x: -1000, y: 500 });
    assert_eq!(hi, Vec2 { x: -1000, y: 154100 });
}

#[test]
fn at_rest_reflects_joint_velocities() {
    let mut s = three_bone_skeleton();
    assert!(s.at_rest(0));
    let mut r = Ragdoll::new(&s);
    r.detach_all(&mut s);
    r.step(&mut s, 17, Vec2 { x: 0, y: 10035 }, 5);
    r.step(&mut s, 17, Vec2 { x: 0, y: 10035 }, 5);
    assert!(!s.at_rest(0));
    assert!(s.at_rest(1 << 20));
}

struct Floor {
    y: i64,
}

impl Collider for Floor {
    fn query(&self, p: Vec2) -> Option<(Vec2, i64, i64)> {
        if p.y > self.y {
            Some((Vec2 { x: p.x, y: self.y }, 0, 1))
        } else {
            None
        }
    }
}

#[test]
fn rifle_starts_carried_with_its_strut_layout() {
    let rifle = StandardRifle::new(0x00ff_00ff);
    assert!(rifle.attached());
    assert_eq!(rifle.rigid.particle_count(), 4);
    let segments = rifle.draw();
    assert_eq!(segments.len(), 5);
    for seg in &segments {
        assert_eq!(seg.2, 0x00ff_00ff);
    }
    assert_eq!(rifle.rigid.system.get_index(&String::from("Barrel")), Some(1));
}

#[test]
fn rifle_hands_out_grip_and_trigger_targets() {
    let s = three_bone_skeleton();
    let rifle = StandardRifle::new(1);
    let iks = rifle.get_iks(&s).expect("carried rifle offers targets");
    assert_eq!(iks.len(), 2);
    assert_eq!(iks[0].0, "L.Hand");
    assert_eq!(iks[1].0, "R.Hand");
    assert!(iks[0].2 && iks[1].2);
    // Identity aim, zero recoil, shoulder at the root bone's end (0, 50):
    // grip sits 17 units along the aim and 1 across, trigger 6.5 and 4.
    assert_eq!(iks[0].1, Vec2 { x: 17408, y: 52224 });
    assert_eq!(iks[1].1, Vec2 { x: 6656, y: 55296 });
}

#[test]
fn rifle_recoil_pulls_targets_back() {
    let s = three_bone_skeleton();
    let mut rifle = StandardRifle::new(1);
    rifle.set_recoil(2048);
    let iks = rifle.get_iks(&s).expect("carried rifle offers targets");
    assert_eq!(iks[0].1, Vec2 { x: 17408 - 2048, y: 52224 });
    assert_eq!(iks[1].1, Vec2 { x: 6656 - 1024, y: 55296 });
}

#[test]
fn rifle_detach_is_one_way() {
    let s = three_bone_skeleton();
    let mut rifle = StandardRifle::new(1);
    rifle.detach(&s);
    assert!(!rifle.attached());
    assert!(rifle.get_iks(&s).is_none());
    let before: Vec<_> = (0..4).map(|i| rifle.rigid.get_particle(i)).collect();
    rifle.detach(&s);
    for (i, b) in before.iter().enumerate() {
        assert_eq!(rifle.rigid.get_particle(i), *b);
    }
    // Re-attaching cannot un-ragdoll a released rifle.
    rifle.attach(&s);
    assert!(!rifle.attached());
}

#[test]
fn rifle_fixate_places_it_at_the_shoulder() {
    let mut s = three_bone_skeleton();
    s.apply_pose(Vec2 { x: 0, y: 0 }, &straight_down_pose(3));
    let mut rifle = StandardRifle::new(1);
    rifle.set_aim_direction(Angle { cos: SCALE, sin: 0 });
    rifle.fixate(&s);
    // Identity aim: the center particle sits its offset right of the
    // shoulder (the root bone's world end).
    assert_eq!(
        rifle.rigid.get_particle(0).position,
        Vec2 { x: 15360, y: 51200 }
    );
    assert_eq!(
        rifle.rigid.get_particle(1).position,
        Vec2 { x: 30720, y: 51200 }
    );
}

#[test]
fn dropped_rifle_falls_onto_the_floor_and_settles() {
    let s = three_bone_skeleton();
    let mut rifle = StandardRifle::new(1);
    rifle.set_gravity(Vec2 { x: 0, y: 10035 });
    rifle.detach(&s);
    let floor = Floor { y: 20480 };
    let mut saw_collision = false;
    for _ in 0..240 {
        let collided = rifle.step(17, &floor);
        if collided.iter().any(|c| c.is_some()) {
            saw_collision = true;
        }
    }
    assert!(saw_collision, "the rifle never reached the floor");
    for i in 0..4 {
        let q = rifle.rigid.get_particle(i);
        assert!(q.position.y <= floor.y, "particle {i} sank through the floor");
    }
    // After resting against the world for over a second, collided
    // particles are settled to the reduced mass response.
    assert!((0..4).any(|i| rifle.rigid.get_particle(i).inverse_mass == 512));
}

#[test]
fn carried_rifle_does_not_step() {
    let mut rifle = StandardRifle::new(1);
    rifle.set_gravity(Vec2 { x: 0, y: 10035 });
    let floor = Floor { y: 20480 };
    let before: Vec<_> = (0..4).map(|i| rifle.rigid.get_particle(i)).collect();
    let collided = rifle.step(17, &floor);
    assert!(collided.is_empty());
    for (i, b) in before.iter().enumerate() {
        assert_eq!(rifle.rigid.get_particle(i), *b);
    }
}
