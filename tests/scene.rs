use std::collections::{HashMap, HashSet};
use vox_rig::dealers::{Dealer, Dealt};
use vox_rig::mesh::{Indices, RawMesh, Vec3Bits};
use vox_rig::pose::find_entity;
use vox_rig::scene::{
    perpare_player_data, scene_walk_steps, find_binding, Placement, Position, RegionBinding,
    RigSlot, SceneError, SceneNode, Step,
};

fn small_mesh() -> RawMesh {
    let p = Vec3Bits { x: (-20.0f32).to_bits(), y: 0, z: 0 };
    RawMesh {
        positions: vec![p, p, p],
        normals: vec![],
        uvs: vec![],
        colors: vec![],
        indices: Indices::U16(vec![0, 1, 2]),
    }
}

fn transform(name: Option<&str>, child: u32, layer_id: u32) -> SceneNode {
    SceneNode::Transform {
        name: name.map(|s| s.to_string()),
        frames: vec![Some(Position { x: 1, y: 2, z: 3 })],
        child,
        layer_id,
    }
}

fn bind(name: &str, dealer: Dealer) -> RegionBinding {
    RegionBinding { name: name.to_string(), dealer }
}

/// A root group holding an unbound transform (layer 0) and a bound one
/// (layer 1, hidden), each over one shape.
fn two_part_scene() -> Vec<SceneNode> {
    vec![
        SceneNode::Group { children: vec![1, 3] },
        transform(Some("other"), 2, 0),
        SceneNode::Shape { models: vec![0] },
        transform(Some("body0"), 4, 1),
        SceneNode::Shape { models: vec![1] },
    ]
}

#[test]
fn unbound_shape_is_skipped_but_placed() {
    let nodes = two_part_scene();
    let bindings = vec![bind("body0", Dealer::Body0)];
    let meshes = vec![None, Some(small_mesh())];
    let mut layers = HashMap::new();
    layers.insert(1u32, true);
    let placed = perpare_player_data(&nodes, 0, &bindings, &meshes, &layers).unwrap();
    assert_eq!(placed.len(), 6);
    let translation = Some(Position { x: 1, y: 2, z: 3 });
    assert!(matches!(placed[0], Placement::Open { node: 1, hidden: false, translation: t } if t == translation));
    assert!(matches!(placed[1], Placement::Skipped { model_id: 0 }));
    assert!(matches!(placed[2], Placement::Close));
    assert!(matches!(placed[3], Placement::Open { node: 3, hidden: true, .. }));
    match &placed[4] {
        Placement::Piece { model_id: 1, dealt: Dealt::Skinned(rig) } => {
            assert_eq!(rig.joints.len(), 3);
            assert_eq!(rig.joint_weights.len(), 3);
        }
        _ => panic!("expected the bound shape to be built"),
    }
    assert!(matches!(placed[5], Placement::Close));
}

#[test]
fn no_bindings_builds_no_rig() {
    let nodes = two_part_scene();
    let placed = perpare_player_data(&nodes, 0, &vec![], &vec![None, None], &HashMap::new()).unwrap();
    assert_eq!(placed.len(), 6);
    assert!(placed.iter().all(|p| !matches!(p, Placement::Piece { .. })));
    assert!(matches!(placed[0], Placement::Open { node: 1, hidden: false, .. }));
    assert!(matches!(placed[3], Placement::Open { node: 3, hidden: false, .. }));
}

#[test]
fn waiting_for_a_mesh_then_building_once() {
    let nodes = two_part_scene();
    let bindings = vec![bind("body0", Dealer::Body0), bind("other", Dealer::Common)];
    let layers = HashMap::new();
    let mut slot = RigSlot::new();
    let pending = vec![Some(small_mesh()), None];
    assert_eq!(slot.poll(&nodes, 0, &bindings, &pending, &layers), Err(SceneError::NotReady));
    assert!(matches!(slot, RigSlot::Unbuilt));
    assert_eq!(slot.poll(&nodes, 0, &bindings, &pending, &layers), Err(SceneError::NotReady));
    assert!(matches!(slot, RigSlot::Unbuilt));
    let loaded = vec![Some(small_mesh()), Some(small_mesh())];
    assert_eq!(slot.poll(&nodes, 0, &bindings, &loaded, &layers), Ok(true));
    match &slot {
        RigSlot::Built(p) => {
            assert_eq!(p.iter().filter(|x| matches!(x, Placement::Piece { .. })).count(), 2);
        }
        RigSlot::Unbuilt => panic!("expected a build"),
    }
    assert_eq!(slot.poll(&nodes, 0, &bindings, &loaded, &layers), Ok(false));
    assert!(matches!(slot, RigSlot::Built(ref p) if p.len() == 6));
}

#[test]
fn dangling_child_is_malformed() {
    let nodes = vec![SceneNode::Group { children: vec![1, 7] }, SceneNode::Shape { models: vec![] }];
    assert_eq!(
        perpare_player_data(&nodes, 0, &vec![], &vec![], &HashMap::new()).err(),
        Some(SceneError::Malformed)
    );
    assert!(scene_walk_steps(&nodes, 0).is_none());
    assert!(scene_walk_steps(&nodes, 5).is_none());
}

#[test]
fn cycle_is_malformed() {
    let nodes = vec![transform(None, 1, 0), SceneNode::Group { children: vec![0] }];
    assert_eq!(
        perpare_player_data(&nodes, 0, &vec![], &vec![], &HashMap::new()).err(),
        Some(SceneError::Malformed)
    );
}

#[test]
fn steps_are_depth_first() {
    let nodes = two_part_scene();
    let steps = scene_walk_steps(&nodes, 0).unwrap();
    assert_eq!(
        steps,
        vec![
            Step::Open(1),
            Step::Shape { model_id: 0, owner: Some(1) },
            Step::Close,
            Step::Open(3),
            Step::Shape { model_id: 1, owner: Some(3) },
            Step::Close,
        ]
    );
}

#[test]
fn last_frame_with_a_translation_wins() {
    let nodes = vec![
        SceneNode::Transform {
            name: None,
            frames: vec![Some(Position { x: 1, y: 1, z: 1 }), Some(Position { x: 4, y: 5, z: 6 }), None],
            child: 1,
            layer_id: 0,
        },
        SceneNode::Group { children: vec![] },
    ];
    let placed = perpare_player_data(&nodes, 0, &vec![], &vec![], &HashMap::new()).unwrap();
    assert!(matches!(
        placed[0],
        Placement::Open { node: 0, translation: Some(Position { x: 4, y: 5, z: 6 }), .. }
    ));
}

#[test]
fn first_binding_of_a_name_wins() {
    let bindings = vec![bind("a", Dealer::Body1), bind("a", Dealer::Body0), bind("b", Dealer::Common)];
    assert_eq!(find_binding(&bindings, &"a".to_string()), Some(Dealer::Body1));
    assert_eq!(find_binding(&bindings, &"b".to_string()), Some(Dealer::Common));
    assert_eq!(find_binding(&bindings, &"c".to_string()), None);
}

#[test]
fn find_entity_depth_first() {
    let mut children = HashMap::new();
    children.insert(1u64, vec![2u64, 3]);
    children.insert(2, vec![4, 5]);
    children.insert(3, vec![6]);
    let mut marked = HashSet::new();
    marked.insert(6u64);
    marked.insert(5u64);
    assert_eq!(find_entity(1, &children, &marked), Ok(5));
    marked.insert(2);
    assert_eq!(find_entity(1, &children, &marked), Ok(2));
    assert_eq!(find_entity(3, &children, &marked), Ok(6));
    assert_eq!(find_entity(6, &children, &marked), Err(()));
}
