//! A graphics resource.

use vstd::prelude::*;

verus! {

/// A graphics resource.
///
/// An implementor should also implement the `Drop` trait, cleaning up any
/// resources it allocated.
pub trait GraphicsResource {

}

} // verus!
