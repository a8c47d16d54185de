//! Loading of glTF scene nodes into entities: node extents, the shared
//! material set and the two-phase sub-asset protocol.
pub mod extent;
pub mod load;
pub mod material;
pub mod mesh;
pub mod pass;
pub mod prefab;

pub use extent::GltfNodeExtent;
pub use load::{LoadAction, LoadStage, NodeLoad};
pub use material::GltfMaterialSet;
pub use mesh::{MeshPrefab, ObjFormat};
pub use pass::{LoadPass, PassStatus};
pub use prefab::{Component, GltfPrefab, MaterialLookup};
