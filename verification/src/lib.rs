//! The rules of a small cube sandbox, stated and proved apart from any engine.
//!
//! Lengths and speeds are whole thousandths of a world unit, times are whole
//! nanoseconds, so that every rule is exact integer arithmetic.

pub mod input;
pub mod layers;
pub mod motion;
pub mod scene;
pub mod spawner;
