use animation_playground::bone_mask::{
    add_bones_mask, add_chain_to_mask_group, new_body_mask_graph, LOWER_BODY_MASK, LOWER_BODY_MASK_GROUP,
    UPPER_BODY_MASK_GROUP,
};
use animation_playground::bone_path::split_path;
use bevy::animation::graph::AnimationGraph;
use bevy::animation::AnimationTargetId;
use bevy::ecs::name::Name;

fn id(path: &str) -> AnimationTargetId {
    let names: Vec<Name> = path.split('/').map(|s| Name::new(s.to_string())).collect();
    AnimationTargetId::from_names(names.iter())
}

fn groups(graph: &AnimationGraph, path: &str) -> u64 {
    graph.mask_groups.get(&id(path)).copied().unwrap_or(0)
}

#[test]
fn split_path_matches_str_split() {
    for s in ["root", "root/pelvis", "", "/", "a//b", "/lead", "trail/", "neck_01/Head"] {
        let expected: Vec<String> = s.split('/').map(|p| p.to_string()).collect();
        assert_eq!(split_path(s), expected, "{s}");
    }
}

#[test]
fn chain_adds_parent_and_each_bone() {
    let mut graph = AnimationGraph::new();
    add_chain_to_mask_group(&mut graph, "root/pelvis", "thigh_r/calf_r", 3);
    assert_eq!(graph.mask_groups.len(), 3);
    assert_eq!(groups(&graph, "root/pelvis"), 1 << 3);
    assert_eq!(groups(&graph, "root/pelvis/thigh_r"), 1 << 3);
    assert_eq!(groups(&graph, "root/pelvis/thigh_r/calf_r"), 1 << 3);
    assert_eq!(groups(&graph, "root"), 0);
}

#[test]
fn chain_keeps_earlier_groups() {
    let mut graph = AnimationGraph::new();
    add_chain_to_mask_group(&mut graph, "root", "pelvis", 1);
    add_chain_to_mask_group(&mut graph, "root", "pelvis", 5);
    assert_eq!(groups(&graph, "root"), (1 << 1) | (1 << 5));
    assert_eq!(groups(&graph, "root/pelvis"), (1 << 1) | (1 << 5));
}

#[test]
fn body_masks_split_lower_and_upper_body() {
    let mut graph = AnimationGraph::new();
    add_bones_mask(&mut graph);
    let lower = 1u64 << LOWER_BODY_MASK_GROUP;
    let upper = 1u64 << UPPER_BODY_MASK_GROUP;
    assert_eq!(LOWER_BODY_MASK, lower);
    assert_eq!(groups(&graph, "root"), lower);
    assert_eq!(groups(&graph, "root/pelvis"), lower);
    assert_eq!(groups(&graph, "root/pelvis/spine_01/spine_02/spine_03"), upper);
    assert_eq!(groups(&graph, "root/pelvis/thigh_r/calf_r/foot_r/ball_r/ball_leaf_r"), lower);
    assert_eq!(groups(&graph, "root/pelvis/thigh_l/calf_l"), lower);
    assert_eq!(groups(&graph, "root/pelvis/spine_01"), upper);
    assert_eq!(groups(&graph, "root/pelvis/spine_01/spine_02/spine_03/neck_01/Head"), upper);
    assert_eq!(
        groups(
            &graph,
            "root/pelvis/spine_01/spine_02/spine_03/clavicle_l/upperarm_l/lowerarm_l/hand_l/index_01_l/index_02_l/index_03_l/index_04_leaf_l"
        ),
        upper
    );
    assert_eq!(groups(&graph, "root/pelvis/spine_01/spine_02/spine_03/clavicle_r"), upper);
    assert_eq!(graph.mask_groups.len(), 65);
}

#[test]
fn new_body_mask_graph_has_root_and_body_masks() {
    let graph = new_body_mask_graph();
    assert_eq!(graph.graph.node_count(), 1);
    assert_eq!(graph.graph.edge_count(), 0);
    assert_eq!(graph.root.index(), 0);
    assert_eq!(graph.mask_groups.len(), 65);
    assert_eq!(groups(&graph, "root/pelvis"), 1 << LOWER_BODY_MASK_GROUP);
    assert_eq!(groups(&graph, "root/pelvis/spine_01/spine_02/spine_03/neck_01"), 1 << UPPER_BODY_MASK_GROUP);
}

#[test]
fn mask_additions_keep_graph_shape() {
    let mut graph = AnimationGraph::new();
    let root = graph.root;
    graph.add_blend_with_mask(LOWER_BODY_MASK, 0.0, root);
    add_bones_mask(&mut graph);
    assert_eq!(graph.graph.node_count(), 2);
    assert_eq!(graph.graph.edge_count(), 1);
    assert_eq!(graph.root, root);
}

#[test]
fn chain_additions_commute_and_repeat() {
    let mut a = AnimationGraph::new();
    add_chain_to_mask_group(&mut a, "root", "pelvis/spine_01", 1);
    add_chain_to_mask_group(&mut a, "root/pelvis", "thigh_r", 2);
    add_chain_to_mask_group(&mut a, "root/pelvis", "thigh_r", 2);
    let mut b = AnimationGraph::new();
    add_chain_to_mask_group(&mut b, "root/pelvis", "thigh_r", 2);
    add_chain_to_mask_group(&mut b, "root", "pelvis/spine_01", 1);
    assert_eq!(a.mask_groups, b.mask_groups);
    assert_eq!(groups(&a, "root/pelvis"), (1 << 1) | (1 << 2));
}
