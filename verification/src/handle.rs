//! Handles: the numbers by which the registry knows the resources of the
//! engine.

use vstd::prelude::*;

verus! {

/// An opaque, type-erased reference to a resource that the asset-loading
/// subsystem owns. The registry never looks behind it: it only stores the
/// reference, compares it and hands it back.
#[derive(Clone, Copy, Debug, PartialEq, Eq, Structural, Hash)]
pub struct RawHandle {
    pub id: u64,
}

/// A realized sprite atlas: the image it slices and the layout that says
/// where each tile lies.
#[derive(Clone, Copy, Debug, PartialEq, Eq, Structural, Hash)]
pub struct ResolvedAtlas {
    pub image_handle: RawHandle,
    pub layout_handle: RawHandle,
}

} // verus!
