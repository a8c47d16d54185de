//! The material set shared by the nodes of one scene while it loads.
use std::collections::HashMap;
use vstd::prelude::*;

verus! {

broadcast use vstd::std_specs::hash::group_hash_axioms;

/// `m` with each `(id, material)` pair of `entries` inserted, first to last.
pub open spec fn insert_all<M>(m: Map<usize, M>, entries: Seq<(usize, M)>) -> Map<usize, M>
    decreases entries.len(),
{
    if entries.len() == 0 {
        m
    } else {
        insert_all(m, entries.drop_last()).insert(entries.last().0, entries.last().1)
    }
}

/// Used during loading to hold the materials of the scenes of a file, by index.
pub struct GltfMaterialSet<M> {
    pub(crate) materials: HashMap<usize, M>,
}

impl<M> View for GltfMaterialSet<M> {
    type V = Map<usize, M>;

    closed spec fn view(&self) -> Map<usize, M> {
        self.materials@
    }
}

impl<M> Default for GltfMaterialSet<M> {
    fn default() -> (r: GltfMaterialSet<M>)
        ensures
            r@ == Map::<usize, M>::empty(),
    {
        GltfMaterialSet::new()
    }
}

impl<M> GltfMaterialSet<M> {
    /// An empty set.
    pub fn new() -> (r: GltfMaterialSet<M>)
        ensures
            r@ == Map::<usize, M>::empty(),
    {
        GltfMaterialSet { materials: HashMap::new() }
    }

    /// Removes every material.
    pub fn clear(&mut self)
        ensures
            final(self)@ == Map::<usize, M>::empty(),
    {
        self.materials.clear();
    }

    /// Stores `material` under `id`, replacing what was there.
    pub fn insert(&mut self, id: usize, material: M)
        ensures
            final(self)@ == old(self)@.insert(id, material),
    {
        self.materials.insert(id, material);
    }

    /// Stores each pair of `entries` in turn; a later pair wins over an earlier one
    /// with the same index.
    pub fn insert_all(&mut self, entries: Vec<(usize, M)>)
        ensures
            final(self)@ == insert_all(old(self)@, entries@),
    {
        let ghost start = self@;
        let ghost all = entries@;
        let mut rest = entries;
        let ghost mut k: int = 0;
        while rest.len() > 0
            invariant
                0 <= k,
                k + rest@.len() == all.len(),
                rest@ == all.subrange(k, all.len() as int),
                self@ == insert_all(start, all.subrange(0, k)),
            decreases rest.len(),
        {
            let (id, material) = rest.remove(0);
            proof {
                assert(all.subrange(0, k + 1).drop_last() =~= all.subrange(0, k));
                assert(rest@ =~= all.subrange(k + 1, all.len() as int));
            }
            self.materials.insert(id, material);
            proof {
                assert(all.subrange(0, k + 1).last() == (id, material));
                k = k + 1;
            }
        }
        assert(all.subrange(0, k) =~= all);
    }

    /// The material stored under `id`, if any.
    pub fn get(&self, id: usize) -> (r: Option<&M>)
        ensures
            r == (if self@.contains_key(id) { Some(&self@[id]) } else { None::<&M> }),
    {
        self.materials.get(&id)
    }

    /// The number of materials held.
    pub fn len(&self) -> (r: usize)
        ensures
            r == self@.len(),
    {
        self.materials.len()
    }
}

} // verus!
