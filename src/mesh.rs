//! Where a mesh comes from, and the Wavefront OBJ mesh format.
use vstd::prelude::*;

verus! {

/// The source of a mesh: an asset loaded from file (`F`), or a mesh generated
/// from a basic shape (`P`). Each shape request gives a mesh of its own.
pub enum MeshPrefab<F, P> {
    /// Load an asset mesh from file
    Asset(F),
    /// Generate a mesh from a basic shape
    Shape(P),
}

/// The Wavefront OBJ mesh format.
#[derive(Clone, Copy, Debug, PartialEq, Eq, PartialOrd, Ord, Hash, Default)]
pub struct ObjFormat;

impl ObjFormat {
    /// The name under which the format is registered.
    pub fn name(&self) -> (r: &'static str)
        ensures
            r@ == "WAVEFRONT_OBJ"@,
    {
        "WAVEFRONT_OBJ"
    }
}

} // verus!
