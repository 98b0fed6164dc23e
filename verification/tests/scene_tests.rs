use mather_engine::fixed::FX_ONE;
use mather_engine::math::{Mat4, Quat, Vec3, Vec4};
use mather_engine::game_object::{
    Component, ComponentKind, GameObject, ModelComponent, Transform, UniformBlock,
};
use mather_engine::model::Model;

fn identity4() -> Mat4 {
    Mat4 {
        c0: Vec4 { x: FX_ONE, y: 0, z: 0, w: 0 },
        c1: Vec4 { x: 0, y: FX_ONE, z: 0, w: 0 },
        c2: Vec4 { x: 0, y: 0, z: FX_ONE, w: 0 },
        c3: Vec4 { x: 0, y: 0, z: 0, w: FX_ONE },
    }
}

#[test]
fn transform_cache_matches_direct_computation() {
    let mut t = Transform::new();
    t.set_position(Vec3 { x: 1_000_000, y: 2_000_000, z: 3_000_000 });
    t.set_scale(Vec3 { x: 2_000_000, y: 2_000_000, z: 2_000_000 });
    let m = t.model_matrix();
    assert_eq!(m, t.to_matrix());
    // Identity rotation, uniform scale of two, translation (1, 2, 3).
    assert_eq!(m.c0.x, 2_000_000);
    assert_eq!(m.c1.y, 2_000_000);
    assert_eq!(m.c2.z, 2_000_000);
    assert_eq!(m.c3, Vec4 { x: 1_000_000, y: 2_000_000, z: 3_000_000, w: FX_ONE });
    // Mutating marks the cache stale; recomputing matches the direct form
    // again — no stale value leaks through.
    t.set_rotation(Quat { x: 0, y: FX_ONE, z: 0, w: 0 });
    let m2 = t.model_matrix();
    assert_eq!(m2, t.to_matrix());
    assert_ne!(m, m2);
}

#[test]
fn transform_new_starts_dirty_with_identity_cache() {
    let t = Transform::new();
    assert!(t.dirty);
    assert_eq!(t.get_model_matrix(), identity4());
}

#[test]
fn inactive_object_is_left_unchanged() {
    let mut root = GameObject::new("root");
    let mut child = GameObject::new("child");
    child.add_component(Component::Model(ModelComponent::new()));
    root.add_child(child);
    root.active = false;
    root.update(16_000);
    assert!(!root.active);
    assert_eq!(root.name, "root");
    assert_eq!(root.children.len(), 1);
    assert_eq!(root.children[0].name, "child");
    assert_eq!(root.children[0].components.len(), 1);
    // Reactivating resumes normal propagation, which leaves the tree
    // readable and unchanged since every component kind is idle on update.
    root.active = true;
    root.update(16_000);
    assert!(root.active);
    assert_eq!(root.children[0].components.len(), 1);
}

#[test]
fn component_lookup_finds_first_match() {
    let mut go = GameObject::new("holder");
    assert!(go.get_component(ComponentKind::Model).is_none());
    go.add_component(Component::Transform(Transform::new()));
    let mut mc = ModelComponent::with_path("models/cube/cube.obj");
    mc.model_path = Some("models/cube/cube.obj".to_string());
    go.add_component(Component::Model(mc));
    match go.get_component(ComponentKind::Model) {
        Some(Component::Model(found)) => {
            assert_eq!(found.model_path.as_deref(), Some("models/cube/cube.obj"));
        }
        _ => panic!("expected the model component"),
    }
    match go.get_component(ComponentKind::Transform) {
        Some(Component::Transform(_)) => {}
        _ => panic!("expected the transform component"),
    }
}

#[test]
fn model_component_loads_only_with_a_path() {
    let block = UniformBlock { view_proj: identity4(), model: identity4() };
    let mut without_path = ModelComponent::new();
    without_path.load_model(Model::new(), block);
    assert!(without_path.model.is_none());
    assert!(without_path.uniform.is_none());

    let mut with_path = ModelComponent::with_path("models/cube/cube.obj");
    with_path.load_model(Model::new(), block);
    assert!(with_path.model.is_some());
    assert!(with_path.uniform.is_some());
}

#[test]
fn model_component_refreshes_uniform_block() {
    let block = UniformBlock { view_proj: identity4(), model: identity4() };
    let mut mc = ModelComponent::with_path("models/cube/cube.obj");
    mc.load_model(Model::new(), block);
    let mut vp = identity4();
    vp.c3.x = 5_000_000;
    let mut model = identity4();
    model.c3.y = 7_000_000;
    mc.update_transform(vp, model);
    let u = mc.uniform.unwrap();
    assert_eq!(u.view_proj.c3.x, 5_000_000);
    assert_eq!(u.model.c3.y, 7_000_000);
    // Without a block nothing changes.
    let mut empty = ModelComponent::new();
    empty.update_transform(vp, model);
    assert!(empty.uniform.is_none());
}
