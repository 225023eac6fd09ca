//! What can be rendered, alone or in a batch.

use vstd::prelude::*;

use crate::coregl::graphics_api::GraphicsAPI;

verus! {

/// Anything that can be rendered.
pub trait Renderable {
    /// The Graphics API used to render this.
    type API: GraphicsAPI;

    /// Render self given the graphics API.
    fn render(&mut self, api: &mut Self::API);
}

/// When something can be rendered in a batch.
///
/// Multiple instances of the same resource appearing in the world can be
/// rendered at the same time, requiring the resource to be only bound and
/// unbound once, instead of for each object.
///
/// The `PartialEq` is required to determine whether 2 renderables should be
/// in the same batch or not.
pub trait BatchRenderable: PartialEq {
    /// The Graphics API used to render this.
    type API: GraphicsAPI;

    /// Start by binding some resources.
    fn batch_start(&self, api: &mut Self::API);

    /// Actually render all the items.
    fn batch_render(&self, api: &mut Self::API);

    /// End by unbinding the resources bound in [`Self::batch_start`].
    fn batch_end(&self, api: &mut Self::API);
}

} // verus!
