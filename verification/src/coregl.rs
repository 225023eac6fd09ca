//! The core graphics library, defining traits mostly.

pub mod graphics_api;
pub mod graphics_resource;
pub mod renderable;

pub use graphics_api::GraphicsAPI;
pub use graphics_api::GraphicsContext;
pub use graphics_resource::GraphicsResource;
pub use renderable::BatchRenderable;
pub use renderable::Renderable;
