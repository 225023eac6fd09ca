//! A context for the Vulkan graphics backend.

use vstd::prelude::*;

use crate::coregl::graphics_api::GraphicsContext;

verus! {

/// A vulkan context. The instance, the physical and logical devices and the
/// rest of the backend's handles live with the native layer that renders.
pub struct VulkanContext {

}

impl GraphicsContext for VulkanContext {

}

} // verus!
