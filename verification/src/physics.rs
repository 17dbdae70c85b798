//! The dimensional vocabulary the game layer is written in: fundamental
//! traits for mass, space and time, concrete units, and positions.

pub mod energy;
pub mod existence;
pub mod fundamental;
pub mod position;
pub mod units;
