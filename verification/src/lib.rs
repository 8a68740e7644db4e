//! A procedural 2D stick-figure animation engine: a Verlet particle system
//! with stick and angular constraints, a skeleton layer that poses bones by
//! forward or inverse kinematics, a ragdoll controller that hands bones from
//! animation to physics, and a rigid-body variant for attachable props.
//!
//! All coordinates, masses and times are fixed-point numbers: an `i64` that
//! stores `SCALE` units per 1.0.  This keeps every step of the simulation
//! exact and reproducible.

use vstd::prelude::*;

pub mod fixed;
pub mod util;
pub mod particle;
pub mod rigid_body;
pub mod skeleton;
pub mod ragdoll;
pub mod library;

pub use util::Angle;
pub use util::Vec2;
pub use particle::Constraint;
pub use particle::ConstraintKind;
pub use particle::Particle;
pub use particle::ParticleSystem;
pub use particle::ParticleTemplate;
pub use particle::TemplateError;
pub use rigid_body::Collider;
pub use rigid_body::RigidBody;
pub use rigid_body::RigidBodyData;
pub use skeleton::BoneDesc;
pub use skeleton::BonePose;
pub use skeleton::SkeletalData;
pub use skeleton::Skeleton;
pub use skeleton::SkeletonError;
pub use ragdoll::BoneState;
pub use ragdoll::Ragdoll;

verus! {

/// Coordinate space in which a cached bone transform is expressed.
#[derive(Debug, Eq, PartialEq, Copy, Clone, Structural)]
pub enum Space {
    World,
    Local,
    Animation,
}

} // verus!
