//! Concrete units for the fundamental dimensions.

pub mod mass;
pub mod space;
pub mod time;
