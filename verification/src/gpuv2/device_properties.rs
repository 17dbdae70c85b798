//! The adapter-wide data the buffer allocator reads: the memory types and
//! the alignment limits.
use vstd::prelude::*;
use crate::gpu::types::{MemoryProperties, PhysicalProperties};

verus! {

/// A snapshot of the adapter's memory types and static properties, taken
/// once after device creation; both are fixed for the adapter's lifetime.
#[derive(Clone, Debug)]
pub struct DeviceProperties {
    pub physical_memory: MemoryProperties,
    pub physical_props: PhysicalProperties,
}

} // verus!
