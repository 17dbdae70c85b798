//! Axis-aligned regions of a two-dimensional space.

pub mod boxes;
