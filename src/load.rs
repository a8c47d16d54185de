//! The first loading phase of one node, as a state machine: the library
//! decides each step, the engine does the work it names and reports back.
use crate::material::GltfMaterialSet;
use crate::prefab::GltfPrefab;
use vstd::prelude::*;

verus! {

/// The steps of the first phase, in the order they run.
#[derive(Clone, Copy, Debug, PartialEq, Eq, Structural)]
pub enum LoadStage {
    /// Resolve the node's own material batch and fill the shared set with it
    Materials,
    /// Take a loaded copy of the shared material the node refers to
    Lookup,
    /// Submit the node's raw geometry
    Mesh,
    /// Resolve the node's animations
    Animation,
    /// Nothing left to start
    Finished,
}

/// What the engine is to do next for a node.
pub enum LoadAction<G, M> {
    /// Resolve the sub-assets of these materials, store them with
    /// `GltfMaterialSet::insert_all`, and `report` whether any still loads.
    ResolveMaterials(Vec<(usize, M)>),
    /// Make a loaded copy of the shared material under this index and hand it
    /// to `GltfPrefab::adopt_material`.
    CloneMaterial(usize),
    /// Submit this geometry and hand its handle to `GltfPrefab::set_mesh_handle`.
    SubmitMesh(G),
    /// Resolve the node's animations and `report` whether they still load.
    ResolveAnimation,
    /// The first phase is over; true while some sub-asset still loads.
    Done(bool),
}

/// The position of a step in the phase.
pub open spec fn rank(s: LoadStage) -> nat {
    match s {
        LoadStage::Materials => 0,
        LoadStage::Lookup => 1,
        LoadStage::Mesh => 2,
        LoadStage::Animation => 3,
        LoadStage::Finished => 4,
    }
}

/// Whether the node's material reference can be resolved from `set`.
pub open spec fn lookup_due<T, G, H, M, A, S, N>(
    n: GltfPrefab<T, G, H, M, A, S, N>,
    set: Map<usize, M>,
) -> bool {
    n.material_id is Some && set.contains_key(n.material_id.unwrap())
}

/// The first step at or after `s` that has work for node `n`.
pub open spec fn first_due<T, G, H, M, A, S, N>(
    s: LoadStage,
    n: GltfPrefab<T, G, H, M, A, S, N>,
    set: Map<usize, M>,
) -> LoadStage {
    if rank(s) <= 0 && n.materials is Some {
        LoadStage::Materials
    } else if rank(s) <= 1 && lookup_due(n, set) {
        LoadStage::Lookup
    } else if rank(s) <= 2 && n.mesh is Some {
        LoadStage::Mesh
    } else if rank(s) <= 3 && n.animatable is Some {
        LoadStage::Animation
    } else {
        LoadStage::Finished
    }
}

/// The step after `s`.
pub open spec fn after(s: LoadStage) -> LoadStage {
    match s {
        LoadStage::Materials => LoadStage::Lookup,
        LoadStage::Lookup => LoadStage::Mesh,
        LoadStage::Mesh => LoadStage::Animation,
        LoadStage::Animation => LoadStage::Finished,
        LoadStage::Finished => LoadStage::Finished,
    }
}

fn rank_of(s: LoadStage) -> (r: u8)
    ensures
        r == rank(s),
{
    match s {
        LoadStage::Materials => 0,
        LoadStage::Lookup => 1,
        LoadStage::Mesh => 2,
        LoadStage::Animation => 3,
        LoadStage::Finished => 4,
    }
}

/// The first phase of one node: the next step to take, and whether work that
/// was started is still loading.
pub struct NodeLoad {
    stage: LoadStage,
    pending: bool,
}

impl View for NodeLoad {
    type V = (LoadStage, bool);

    closed spec fn view(&self) -> (LoadStage, bool) {
        (self.stage, self.pending)
    }
}

impl NodeLoad {
    /// A first phase that has not started.
    pub fn new() -> (r: NodeLoad)
        ensures
            r@ == (LoadStage::Materials, false),
    {
        NodeLoad { stage: LoadStage::Materials, pending: false }
    }

    /// Takes in whether the work of the last step is still loading.
    pub fn report(&mut self, still_loading: bool)
        ensures
            final(self)@ == (old(self)@.0, old(self)@.1 || still_loading),
    {
        self.pending = self.pending || still_loading;
    }

    /// The next step for `node`, skipping those with nothing to do. A node that
    /// owns the material batch empties the shared set before handing the batch
    /// out; a material reference that the set does not hold is passed over and
    /// kept on the node. Submitting geometry always leaves work loading.
    pub fn next<T, G, H, M, A, S, N>(
        &mut self,
        node: &mut GltfPrefab<T, G, H, M, A, S, N>,
        set: &mut GltfMaterialSet<M>,
    ) -> (action: LoadAction<G, M>)
        ensures
            ({
                let s = first_due(old(self)@.0, *old(node), old(set)@);
                &&& final(self)@.0 == after(s)
                &&& s is Materials ==> {
                    &&& action == LoadAction::<G, M>::ResolveMaterials(old(node).materials.unwrap())
                    &&& *final(node) == (GltfPrefab { materials: None, ..*old(node) })
                    &&& final(set)@ == Map::<usize, M>::empty()
                    &&& final(self)@.1 == old(self)@.1
                }
                &&& s is Lookup ==> {
                    &&& action == LoadAction::<G, M>::CloneMaterial(old(node).material_id.unwrap())
                    &&& *final(node) == *old(node)
                    &&& final(set)@ == old(set)@
                    &&& final(self)@.1 == old(self)@.1
                }
                &&& s is Mesh ==> {
                    &&& action == LoadAction::<G, M>::SubmitMesh(old(node).mesh.unwrap())
                    &&& *final(node) == (GltfPrefab { mesh: None, ..*old(node) })
                    &&& final(set)@ == old(set)@
                    &&& final(self)@.1 == true
                }
                &&& s is Animation ==> {
                    &&& action == LoadAction::<G, M>::ResolveAnimation
                    &&& *final(node) == *old(node)
                    &&& final(set)@ == old(set)@
                    &&& final(self)@.1 == old(self)@.1
                }
                &&& s is Finished ==> {
                    &&& action == LoadAction::<G, M>::Done(old(self)@.1)
                    &&& *final(node) == *old(node)
                    &&& final(set)@ == old(set)@
                    &&& final(self)@.1 == old(self)@.1
                }
            }),
    {
        let r = rank_of(self.stage);
        if r <= 0 && node.materials.is_some() {
            let batch = node.materials.take().unwrap();
            set.clear();
            self.stage = LoadStage::Lookup;
            return LoadAction::ResolveMaterials(batch);
        }
        if r <= 1 {
            if let Some(id) = node.material_id {
                if set.get(id).is_some() {
                    self.stage = LoadStage::Mesh;
                    return LoadAction::CloneMaterial(id);
                }
            }
        }
        if r <= 2 && node.mesh.is_some() {
            let mesh = node.mesh.take().unwrap();
            self.stage = LoadStage::Animation;
            self.pending = true;
            return LoadAction::SubmitMesh(mesh);
        }
        if r <= 3 && node.animatable.is_some() {
            self.stage = LoadStage::Finished;
            return LoadAction::ResolveAnimation;
        }
        self.stage = LoadStage::Finished;
        LoadAction::Done(self.pending)
    }
}

/// A node whose batch, geometry and material reference are resolved, and which
/// has no animations, is loaded: a second first phase on it has nothing to do,
/// and ends at once with no work loading.
pub proof fn lemma_loaded_node_is_idle<T, G, H, M, A, S, N>(
    n: GltfPrefab<T, G, H, M, A, S, N>,
    set: Map<usize, M>,
)
    requires
        n.materials is None,
        n.mesh is None,
        n.material_id is None,
        n.animatable is None,
    ensures
        first_due(LoadStage::Materials, n, set) == LoadStage::Finished,
{
}

/// The steps run in order and each at most once: the stage of a load only
/// moves forward.
pub proof fn lemma_stages_advance<T, G, H, M, A, S, N>(
    s: LoadStage,
    n: GltfPrefab<T, G, H, M, A, S, N>,
    set: Map<usize, M>,
)
    ensures
        rank(s) <= rank(first_due(s, n, set)),
        rank(first_due(s, n, set)) < rank(after(first_due(s, n, set))) || first_due(s, n, set)
            is Finished,
{
}

} // verus!
