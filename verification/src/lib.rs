//! A verified model of a Vulkan-style renderer core: the chain from a bare
//! windowing surface to a running swapchain-backed render loop, together with
//! the generic GPU buffer / descriptor-set allocator layered on top, and the
//! small linear-algebra and physics layers the game engine is built from.
//!
//! Native API objects (instances, devices, buffers, images, ...) are
//! represented by plain handle values; every decision the renderer makes —
//! which queue family to use, how many swapchain images to ask for, how a
//! buffer element is aligned, in which order resources are torn down — is
//! executable, specified and verified here. The unverified shell that owns
//! the real window and issues the native calls feeds those decisions with the
//! plain values it queried and carries out the plans this crate computes.

pub mod engine;
pub mod engines;
pub mod gpu;
pub mod gpuv2;
pub mod matrix;
pub mod physics;
