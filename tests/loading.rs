use amethyst_assets::{Completion, ProgressCounter};
use gltf_prefab::{
    LoadAction, NodeLoad,
    Component, GltfMaterialSet, GltfNodeExtent, GltfPrefab, LoadPass, MaterialLookup, ObjFormat, PassStatus,
};

/// Transform, geometry, handle, material, animation, skin, name.
type Node = GltfPrefab<u8, Vec<u32>, u64, String, u16, u32, String>;

fn mat(s: &str) -> String {
    s.to_string()
}

#[test]
fn material_set_insert_overwrites_and_clear_empties() {
    let mut set: GltfMaterialSet<String> = GltfMaterialSet::new();
    assert_eq!(set.len(), 0);
    set.insert(5, mat("red"));
    set.insert(5, mat("blue"));
    set.insert(2, mat("green"));
    assert_eq!(set.len(), 2);
    assert_eq!(set.get(5), Some(&mat("blue")));
    assert_eq!(set.get(3), None);
    set.clear();
    assert_eq!(set.len(), 0);
    assert_eq!(set.get(5), None);
}

#[test]
fn material_set_insert_all_keeps_the_last_of_an_index() {
    let mut set: GltfMaterialSet<String> = GltfMaterialSet::default();
    set.insert(9, mat("old"));
    set.insert_all(vec![(1, mat("a")), (9, mat("b")), (1, mat("c"))]);
    assert_eq!(set.len(), 2);
    assert_eq!(set.get(1), Some(&mat("c")));
    assert_eq!(set.get(9), Some(&mat("b")));
}

#[test]
fn name_only_node_writes_only_the_name() {
    let mut node = Node::default();
    node.name = Some(mat("root"));
    assert_eq!(node.components(), vec![Component::Name]);
}

#[test]
fn empty_node_writes_nothing() {
    let node = Node::default();
    assert!(node.components().is_empty());
}

#[test]
fn full_node_writes_every_component_in_order() {
    let mut node = Node::default();
    node.transform = Some(1);
    node.mesh_handle = Some(2);
    node.name = Some(mat("n"));
    node.material = Some(mat("m"));
    node.animatable = Some(3);
    node.skinnable = Some(4);
    node.extent = Some(GltfNodeExtent::from([0, 0, 0]..[1, 1, 1]));
    assert_eq!(
        node.components(),
        vec![
            Component::Transform,
            Component::MeshHandle,
            Component::Name,
            Component::Material,
            Component::Animation,
            Component::Skin,
            Component::BoundingSphere,
        ]
    );
}

#[test]
fn a_failure_breaks_the_pass() {
    let mut pass = LoadPass::new();
    assert_eq!(pass.status_with(Completion::Complete), PassStatus::Ready);
    pass.record(Some(true));
    assert!(pass.more_work());
    assert!(!pass.failed());
    pass.record(None);
    pass.record(Some(false));
    assert!(pass.failed());
    assert_eq!(pass.status_with(Completion::Complete), PassStatus::Failed);
    assert_eq!(pass.status_with(Completion::Loading), PassStatus::Failed);
    assert_eq!(pass.status(&ProgressCounter::new()), PassStatus::Failed);
}

#[test]
fn a_failed_load_on_the_counter_breaks_the_pass() {
    let mut pass = LoadPass::new();
    pass.record(Some(true));
    assert_eq!(pass.status_with(Completion::Failed), PassStatus::Failed);
}

#[test]
fn a_clean_pass_is_ready_once_progress_drains() {
    let mut pass = LoadPass::new();
    pass.record(Some(false));
    pass.record(Some(false));
    assert!(!pass.more_work());
    assert_eq!(pass.status_with(Completion::Loading), PassStatus::Loading);
    assert_eq!(pass.status_with(Completion::Complete), PassStatus::Ready);
    assert_eq!(pass.status(&ProgressCounter::new()), PassStatus::Ready);
}

#[test]
fn obj_format_name() {
    assert_eq!(ObjFormat.name(), "WAVEFRONT_OBJ");
}

#[test]
fn node_without_material_requests_none() {
    let set: GltfMaterialSet<String> = GltfMaterialSet::new();
    let node = Node::default();
    assert!(matches!(node.material_lookup(&set), MaterialLookup::NotRequested));
}

/// Runs the first phase on `node` with stand-in loaders: a material resolves
/// to itself with " loaded" added, still loading when `materials_pending`; a
/// mesh gets the handle of its length; the animation reports `animation_pending`.
fn run_first_phase(
    node: &mut Node,
    set: &mut GltfMaterialSet<String>,
    materials_pending: bool,
    animation_pending: bool,
) -> (bool, Vec<&'static str>) {
    let mut load = NodeLoad::new();
    let mut steps = Vec::new();
    loop {
        match load.next(node, set) {
            LoadAction::ResolveMaterials(batch) => {
                steps.push("materials");
                let resolved = batch
                    .into_iter()
                    .map(|(id, m)| (id, format!("{} loaded", m)))
                    .collect();
                set.insert_all(resolved);
                load.report(materials_pending);
            }
            LoadAction::CloneMaterial(id) => {
                steps.push("clone");
                let copy = set.get(id).unwrap().clone();
                node.adopt_material(copy);
            }
            LoadAction::SubmitMesh(mesh) => {
                steps.push("mesh");
                node.set_mesh_handle(mesh.len() as u64);
            }
            LoadAction::ResolveAnimation => {
                steps.push("animation");
                load.report(animation_pending);
            }
            LoadAction::Done(more) => return (more, steps),
        }
    }
}

#[test]
fn geometry_is_replaced_by_a_handle_once() {
    let mut set: GltfMaterialSet<String> = GltfMaterialSet::new();
    let mut node = Node::default();
    node.mesh = Some(vec![1, 2, 3]);
    let (more, steps) = run_first_phase(&mut node, &mut set, false, false);
    assert!(more);
    assert_eq!(steps, vec!["mesh"]);
    assert_eq!(node.mesh, None);
    assert_eq!(node.mesh_handle, Some(3));

    let (more, steps) = run_first_phase(&mut node, &mut set, false, false);
    assert!(!more);
    assert!(steps.is_empty());
    assert_eq!(node.mesh, None);
    assert_eq!(node.mesh_handle, Some(3));
}

#[test]
fn empty_node_has_no_first_phase_work() {
    let mut set: GltfMaterialSet<String> = GltfMaterialSet::new();
    let mut node = Node::default();
    let (more, steps) = run_first_phase(&mut node, &mut set, true, true);
    assert!(!more);
    assert!(steps.is_empty());
}

#[test]
fn pending_work_is_the_union_of_the_steps() {
    let mut set: GltfMaterialSet<String> = GltfMaterialSet::new();
    let mut node = Node::default();
    node.animatable = Some(1);
    let (more, steps) = run_first_phase(&mut node, &mut set, false, false);
    assert!(!more);
    assert_eq!(steps, vec!["animation"]);
    let (more, _) = run_first_phase(&mut node, &mut set, false, true);
    assert!(more);

    let mut owner = Node::default();
    owner.materials = Some(vec![(0, mat("wood"))]);
    let (more, _) = run_first_phase(&mut owner, &mut set, true, false);
    assert!(more);
}

#[test]
fn owner_node_resets_and_fills_the_shared_set() {
    let mut set: GltfMaterialSet<String> = GltfMaterialSet::new();
    set.insert(1, mat("stale"));
    let mut owner = Node::default();
    owner.materials = Some(vec![(5, mat("steel")), (6, mat("glass"))]);
    let (more, steps) = run_first_phase(&mut owner, &mut set, false, false);
    assert!(!more);
    assert_eq!(steps, vec!["materials"]);
    assert!(owner.materials.is_none());
    assert_eq!(set.len(), 2);
    assert_eq!(set.get(1), None);
    assert_eq!(set.get(5), Some(&mat("steel loaded")));
}

#[test]
fn node_without_batch_leaves_the_shared_set() {
    let mut set: GltfMaterialSet<String> = GltfMaterialSet::new();
    set.insert(1, mat("kept"));
    let mut node = Node::default();
    node.material_id = Some(2);
    let _ = run_first_phase(&mut node, &mut set, false, false);
    assert_eq!(set.len(), 1);
    assert_eq!(set.get(1), Some(&mat("kept")));
}

#[test]
fn steps_run_in_order() {
    let mut set: GltfMaterialSet<String> = GltfMaterialSet::new();
    let mut node = Node::default();
    node.materials = Some(vec![(5, mat("steel"))]);
    node.material_id = Some(5);
    node.mesh = Some(vec![7]);
    node.animatable = Some(2);
    let (more, steps) = run_first_phase(&mut node, &mut set, false, false);
    assert!(more);
    assert_eq!(steps, vec!["materials", "clone", "mesh", "animation"]);
    assert_eq!(node.material, Some(mat("steel loaded")));
    assert_eq!(node.material_id, None);
    assert_eq!(node.mesh_handle, Some(1));
}

#[test]
fn material_id_resolves_after_the_owner_ran() {
    let mut set: GltfMaterialSet<String> = GltfMaterialSet::new();
    let mut owner = Node::default();
    owner.materials = Some(vec![(5, mat("steel"))]);
    let mut child = Node::default();
    child.material_id = Some(5);
    run_first_phase(&mut owner, &mut set, false, false);
    let (_, steps) = run_first_phase(&mut child, &mut set, false, false);
    assert_eq!(steps, vec!["clone"]);
    assert_eq!(child.material, Some(mat("steel loaded")));
    assert_eq!(child.material_id, None);
    assert!(matches!(child.material_lookup(&set), MaterialLookup::NotRequested));
}

#[test]
fn material_id_stays_unresolved_before_the_owner_ran() {
    let mut set: GltfMaterialSet<String> = GltfMaterialSet::new();
    let mut owner = Node::default();
    owner.materials = Some(vec![(5, mat("steel"))]);
    let mut child = Node::default();
    child.material_id = Some(5);
    let (more, steps) = run_first_phase(&mut child, &mut set, false, false);
    assert!(!more);
    assert!(steps.is_empty());
    assert_eq!(child.material, None);
    assert!(matches!(child.material_lookup(&set), MaterialLookup::Missing(5)));
    run_first_phase(&mut owner, &mut set, false, false);
    assert_eq!(child.material, None);
}
