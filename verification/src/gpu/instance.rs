//! The API context: one native instance bound to one window, remembering
//! the layer and extension names it was created with.
use vstd::prelude::*;
use crate::gpu::types::Extent2d;

verus! {

/// An API instance. `instance` is the native handle the shell created;
/// `window_extent` is the logical size of the one window the instance was
/// built for; `extensions` is the full list the instance was enabled with
/// (loader-level names merged with the window's required names).
#[derive(Clone, Debug)]
pub struct Instance {
    pub instance: u64,
    pub window_extent: Extent2d,
    pub extensions: Vec<String>,
    pub layers: Vec<String>,
}

} // verus!
