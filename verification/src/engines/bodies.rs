//! Bodies that populate a universe.

pub mod enemies;
