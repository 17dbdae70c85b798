//! The typed GPU buffer allocator and the descriptor-set machinery built on
//! it, together with the shader-stage and push-constant descriptions a
//! pipeline is assembled from.
use vstd::prelude::*;
use crate::gpu::types::DestroyAction;

pub mod buffer;
pub mod buffer_set;
pub mod device_properties;
pub mod push_constants;
pub mod shaders;

verus! {

/// A component that owes native destructions when it is torn down. The
/// plan lists them in the exact order the shell must carry them out.
pub trait Cleanup {
    spec fn cleanup_plan(&self) -> Seq<DestroyAction>;

    fn cleanup(&self) -> (r: Vec<DestroyAction>)
        ensures
            r@ == self.cleanup_plan(),
    ;
}

} // verus!
