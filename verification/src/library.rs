//! Ready-made accessories built on the engine's rigid-body layer.

pub mod standard_rifle;

pub use standard_rifle::StandardRifle;
