//! A native drawable binding, with the back-reference to the instance that
//! owns it: a surface never outlives its instance.
use vstd::prelude::*;

verus! {

/// A surface: the native handle plus the registry key of the owning
/// instance, used for cleanup and for instance-scoped capability queries.
#[derive(Clone, Copy, Debug, PartialEq, Eq, Structural)]
pub struct Surface {
    pub surface: u64,
    pub instance_id: usize,
}

} // verus!
