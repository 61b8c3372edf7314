//! Game rules of a slingshot siege: a projectile is dragged back from a fixed
//! anchor, released, and flung at a tower of wooden and steel pieces.
//!
//! The crate holds the rules only. Rigid-body simulation, rendering and input
//! plumbing belong to the program around it, which reports positions, speeds
//! and contacts as plain values and carries out what the rules decide.
//!
//! All lengths are fixed-point: one world unit is [`units::UNIT`] steps.

pub mod chance;
pub mod clock;
pub mod destruction;
pub mod hover;
pub mod launch;
pub mod layout;
pub mod pieces;
pub mod respawn;
pub mod units;
pub mod world;
