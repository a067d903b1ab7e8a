//! Per-frame coordination core of a 3D character controller.
//!
//! The crate turns raw player intent and camera state into kinematic
//! movement, layers a jump/fall state machine on a kinematic body,
//! reconciles the controlled character's visibility and facing with the
//! camera's viewing mode, and maps movement speed to a camera
//! field-of-view value.
//!
//! All spatial quantities are fixed-point integers with [`fixed::SCALE`]
//! subunits per world unit, so every rule is stated and proved exactly.
//! The engine-facing edges (input polling, collision resolution, asset
//! loading, rendering) live outside this crate and exchange plain values
//! with it.

pub mod animation;
pub mod body;
pub mod camera;
pub mod fixed;
pub mod follower;
pub mod intent;
pub mod jump;
pub mod speed_effects;
pub mod tick;
pub mod vector;
pub mod walker;
