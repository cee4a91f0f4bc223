//! Procedural growth of 3D pipe structures through a bounded voxel grid.
//!
//! The crate tracks occupied cells in a dense bitset ([`spaces::Spaces`]),
//! resolves legal axis-aligned moves ([`direction::Direction`]), picks mesh
//! variants and integer rotations for each placed segment ([`resolver`]),
//! and advances a growth state machine ([`machine::SimulationState`]) that
//! keeps a set of per-variant instance collections ([`groups`]) in lockstep
//! with the logical path.

mod candidates;
pub mod direction;
pub mod groups;
pub mod machine;
pub mod messages;
pub mod resolver;
mod rng;
pub mod rotation;
pub mod spaces;
pub mod util;
