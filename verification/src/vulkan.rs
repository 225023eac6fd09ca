//! The Vulkan backend's context.

pub mod vk_context;

pub use vk_context::VulkanContext;
