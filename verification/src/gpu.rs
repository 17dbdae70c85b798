//! The graphics-device layer: plain-value models of the native API objects,
//! the capability-driven decisions (queue choice, swapchain configuration,
//! memory-type selection), and the ownership registry that enforces
//! children-before-parents teardown.

pub mod device;
pub mod instance;
pub mod registry;
pub mod surface;
pub mod system;
pub mod types;
