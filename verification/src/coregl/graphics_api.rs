//! The graphics API and its context.

use vstd::prelude::*;

verus! {

/// A context of a graphics API, owning what the backend needs to render.
pub trait GraphicsContext {

}

/// The graphics api.
pub trait GraphicsAPI {
    /// The context.
    type Context: GraphicsContext;

    /// Get the context.
    fn get_ctx(&self) -> &Self::Context;

    /// Get the context mutably.
    fn get_ctx_mut(&mut self) -> &mut Self::Context;
}

} // verus!
