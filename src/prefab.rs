//! A scene node and the two phases that load it: sub-assets first, then
//! components onto its entity.
use crate::extent::GltfNodeExtent;
use crate::material::GltfMaterialSet;
use vstd::prelude::*;

verus! {

/// The data of one scene node, placed on one entity.
///
/// The payload types are those of the engine: `T` a transform, `G` raw mesh
/// geometry, `H` a handle to a submitted mesh, `M` a material, `A` animation
/// data, `S` skin data, `N` a name.
pub struct GltfPrefab<T, G, H, M, A, S, N> {
    /// `Transform` will almost always be placed, the only exception is for the main entity
    /// for certain scenarios (based on the data in the file)
    pub transform: Option<T>,
    /// Mesh geometry is placed on all entities with graphics primitives
    pub mesh: Option<G>,
    /// Mesh handle after sub asset loading is done
    pub mesh_handle: Option<H>,
    /// Material is placed on all entities with graphics primitives with material
    pub material: Option<M>,
    /// Loaded animations, if applicable, will always only be placed on the main entity
    pub animatable: Option<A>,
    /// Skin data is placed on entities involved in the skin, skeleton or graphical primitives
    /// using the skin
    pub skinnable: Option<S>,
    /// Node extent
    pub extent: Option<GltfNodeExtent>,
    /// Node name
    pub name: Option<N>,
    /// The scene's material batch, on the one node that fills the shared set
    pub materials: Option<Vec<(usize, M)>>,
    /// The index in the shared set of this node's material, until it is resolved
    pub material_id: Option<usize>,
}

/// The outcome of looking up a node's material in the shared set.
pub enum MaterialLookup<'a, M> {
    /// The node refers to no material of the set.
    NotRequested,
    /// The node refers to this index, which the set does not hold (yet).
    Missing(usize),
    /// The stored material that the node refers to.
    Found(&'a M),
}

/// A component that the second phase writes onto a node's entity.
#[derive(Clone, Copy, Debug, PartialEq, Eq, Structural)]
pub enum Component {
    /// The node's transform
    Transform,
    /// The handle of the node's mesh
    MeshHandle,
    /// The node's name
    Name,
    /// The node's loaded material
    Material,
    /// The node's animations
    Animation,
    /// The node's skin data
    Skin,
    /// A bounding sphere drawn from the node's extent
    BoundingSphere,
}

/// `c` alone where `present` holds, else nothing.
pub open spec fn when(present: bool, c: Component) -> Seq<Component> {
    if present { seq![c] } else { Seq::empty() }
}

/// The components that node `n` writes, in order.
pub open spec fn component_plan<T, G, H, M, A, S, N>(n: GltfPrefab<T, G, H, M, A, S, N>) -> Seq<Component> {
    when(n.transform is Some, Component::Transform)
        + when(n.mesh_handle is Some, Component::MeshHandle)
        + when(n.name is Some, Component::Name)
        + when(n.material is Some, Component::Material)
        + when(n.animatable is Some, Component::Animation)
        + when(n.skinnable is Some, Component::Skin)
        + when(n.extent is Some, Component::BoundingSphere)
}

impl<T, G, H, M, A, S, N> Default for GltfPrefab<T, G, H, M, A, S, N> {
    fn default() -> (r: GltfPrefab<T, G, H, M, A, S, N>)
        ensures
            r.transform is None && r.mesh is None && r.mesh_handle is None,
            r.material is None && r.animatable is None && r.skinnable is None,
            r.extent is None && r.name is None,
            r.materials is None && r.material_id is None,
    {
        GltfPrefab {
            transform: None,
            mesh: None,
            mesh_handle: None,
            material: None,
            animatable: None,
            skinnable: None,
            extent: None,
            name: None,
            materials: None,
            material_id: None,
        }
    }
}

impl<T, G, H, M, A, S, N> GltfPrefab<T, G, H, M, A, S, N> {
    /// Finds the material that the node refers to in the shared set. A missing
    /// index is reported, not passed over.
    pub fn material_lookup<'a>(&self, set: &'a GltfMaterialSet<M>) -> (r: MaterialLookup<'a, M>)
        ensures
            match self.material_id {
                None => r is NotRequested,
                Some(id) => if set@.contains_key(id) {
                    r == MaterialLookup::Found(&set@[id])
                } else {
                    r == MaterialLookup::<M>::Missing(id)
                },
            },
    {
        match self.material_id {
            None => MaterialLookup::NotRequested,
            Some(id) => match set.get(id) {
                Some(m) => MaterialLookup::Found(m),
                None => MaterialLookup::Missing(id),
            },
        }
    }

    /// Takes the loaded copy of the material that the node referred to; the
    /// reference is then resolved and cleared.
    pub fn adopt_material(&mut self, material: M)
        ensures
            *final(self) == (GltfPrefab {
                material: Some(material),
                material_id: None,
                ..*old(self)
            }),
    {
        self.material = Some(material);
        self.material_id = None;
    }

    /// Puts the handle of the node's submitted geometry in place.
    pub fn set_mesh_handle(&mut self, handle: H)
        ensures
            *final(self) == (GltfPrefab { mesh_handle: Some(handle), ..*old(self) }),
    {
        self.mesh_handle = Some(handle);
    }

    /// Second phase: the components to write onto the node's entity, in order.
    /// The writes stop at the first that fails.
    pub fn components(&self) -> (r: Vec<Component>)
        ensures
            r@ == component_plan(*self),
    {
        let mut r: Vec<Component> = Vec::new();
        if self.transform.is_some() {
            r.push(Component::Transform);
        }
        if self.mesh_handle.is_some() {
            r.push(Component::MeshHandle);
        }
        if self.name.is_some() {
            r.push(Component::Name);
        }
        if self.material.is_some() {
            r.push(Component::Material);
        }
        if self.animatable.is_some() {
            r.push(Component::Animation);
        }
        if self.skinnable.is_some() {
            r.push(Component::Skin);
        }
        if self.extent.is_some() {
            r.push(Component::BoundingSphere);
        }
        assert(r@ =~= component_plan(*self));
        r
    }
}

/// A node that holds only a name writes exactly one component onto its entity:
/// the name.
pub proof fn lemma_name_only_plan<T, G, H, M, A, S, N>(n: GltfPrefab<T, G, H, M, A, S, N>)
    requires
        n.name is Some,
        n.transform is None,
        n.mesh_handle is None,
        n.material is None,
        n.animatable is None,
        n.skinnable is None,
        n.extent is None,
    ensures
        component_plan(n) == seq![Component::Name],
{
    assert(component_plan(n) =~= seq![Component::Name]);
}

} // verus!
