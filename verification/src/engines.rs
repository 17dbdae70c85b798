//! The game-engine layer built on the physics vocabulary: axis-aligned
//! regions, simple bodies, and a concrete two-dimensional universe.

pub mod areas;
pub mod bodies;
pub mod universes;
