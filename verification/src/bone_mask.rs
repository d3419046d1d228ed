//! Assignment of skeleton bones to the mask groups of an animation graph.
//!
//! A bone is named by the path of bone names from the skeleton root; the
//! graph identifies it by the animation target id hashed from that path. The
//! lower body (root, pelvis, thighs, calves, feet, balls) goes to one mask
//! group and the upper body (spine, clavicles, arms, hands, fingers, neck,
//! head) to another, so that a blend node masking one group animates only the
//! other part of the body.

use vstd::prelude::*;
use bevy::animation::graph::AnimationGraph;
use bevy::animation::AnimationTargetId;
use bevy::asset::uuid::Uuid;
use bevy::ecs::name::Name;
use crate::bone_path::{
    is_separator, lemma_split_path_append, lemma_split_path_at, lemma_split_path_no_separator, split_path,
    split_path_spec,
};

verus! {

/// Mask group of the lower-body bones.
pub const LOWER_BODY_MASK_GROUP: u32 = 1;

/// Mask bitfield selecting the lower-body group.
pub const LOWER_BODY_MASK: u64 = 2;

/// Mask group of the upper-body bones.
pub const UPPER_BODY_MASK_GROUP: u32 = 2;

#[verifier::external_type_specification]
#[verifier::external_body]
pub struct ExAnimationGraph(AnimationGraph);

/// The mask groups recorded in an animation graph: for each animation
/// target, keyed by its id as a 128-bit integer, the bitfield of the groups
/// it belongs to (bit N set for group N).
pub uninterp spec fn graph_mask_groups(graph: AnimationGraph) -> Map<u128, u64>;

/// The shape of an animation graph: its number of nodes, its number of
/// edges, and the index of its root node.
pub uninterp spec fn graph_shape(graph: AnimationGraph) -> (nat, nat, nat);

/// The animation target id, as a 128-bit integer, that bevy derives by
/// hashing a path of names.
pub uninterp spec fn animation_target_id(names: Seq<Seq<char>>) -> u128;

/// The bitfield recorded for `target`; a target that is not recorded belongs
/// to no group.
pub open spec fn groups_of(masks: Map<u128, u64>, target: u128) -> u64 {
    if masks.contains_key(target) {
        masks[target]
    } else {
        0
    }
}

/// `masks` with `target` added to mask group `group`.
pub open spec fn with_target_in_group(masks: Map<u128, u64>, target: u128, group: u32) -> Map<
    u128,
    u64,
> {
    masks.insert(target, groups_of(masks, target) | (1u64 << group))
}

/// `target` belongs to mask group `group` in `masks`.
pub open spec fn in_group(masks: Map<u128, u64>, target: u128, group: u32) -> bool {
    groups_of(masks, target) & (1u64 << group) != 0
}

/// Adds `target` to mask group `group` of the graph by calling
/// `AnimationGraph::add_target_to_mask_group`, whose body is
/// `*self.mask_groups.entry(target).or_default() |= 1 << mask_group`: the
/// target's bitfield (zero when absent) gains bit `group`, and no other entry
/// changes. The method touches nothing but `mask_groups`, so the number of
/// nodes, the number of edges and the root stay as they were. The shift
/// overflows for groups of 64 and above, which are left out. That the node
/// contents (node types holding asset handles, masks, `f32` weights) stay as
/// they were is not stated: no plain value here stands for them.
#[verifier::external_body]
fn add_target_to_mask_group(graph: &mut AnimationGraph, target: u128, group: u32)
    requires
        group < 64,
    ensures
        graph_mask_groups(*final(graph)) == with_target_in_group(
            graph_mask_groups(*old(graph)),
            target,
            group,
        ),
        graph_shape(*final(graph)) == graph_shape(*old(graph)),
{
    graph.add_target_to_mask_group(AnimationTargetId(Uuid::from_u128(target)), group);
}

/// A new graph from `AnimationGraph::new`, whose body adds one default node
/// as the root (index 0 of an empty graph) and starts `mask_groups` empty:
/// one node, no edges, root 0, no mask groups.
#[verifier::external_body]
fn new_animation_graph() -> (created: AnimationGraph)
    ensures
        graph_mask_groups(created) =~= Map::empty(),
        graph_shape(created) == (1nat, 0nat, 0nat),
{
    AnimationGraph::new()
}

/// The id that `AnimationTargetId::from_names` hashes from the given path of
/// names, as a 128-bit integer. The hash depends on the names alone; what it
/// is is not stated.
#[verifier::external_body]
fn target_id_from_names(names: &Vec<String>) -> (id: u128)
    ensures
        id == animation_target_id(names.deep_view()),
{
    let names: Vec<Name> = names.iter().map(|s| Name::new(s.clone())).collect();
    AnimationTargetId::from_names(names.iter()).0.as_u128()
}

/// The path of the bone reached by following `prefix` and then the first
/// `k` names of `suffix`.
pub open spec fn chain_path(prefix: Seq<Seq<char>>, suffix: Seq<Seq<char>>, k: int) -> Seq<
    Seq<char>,
> {
    prefix + suffix.take(k)
}

/// `masks` with the bones of a chain, the first `count` of them, added to
/// `group`: the bone at `prefix`, then each bone along `suffix`.
pub open spec fn with_chain_in_group(
    masks: Map<u128, u64>,
    prefix: Seq<Seq<char>>,
    suffix: Seq<Seq<char>>,
    group: u32,
    count: nat,
) -> Map<u128, u64>
    decreases count,
{
    if count == 0 {
        masks
    } else {
        with_target_in_group(
            with_chain_in_group(masks, prefix, suffix, group, (count - 1) as nat),
            animation_target_id(chain_path(prefix, suffix, count - 1)),
            group,
        )
    }
}

/// `masks` with every bone of the chain `prefix`, `suffix` (both paths with
/// `/` between names) added to `group`.
pub open spec fn with_path_chain_in_group(
    masks: Map<u128, u64>,
    prefix: Seq<char>,
    suffix: Seq<char>,
    group: u32,
) -> Map<u128, u64> {
    with_chain_in_group(
        masks,
        split_path_spec(prefix),
        split_path_spec(suffix),
        group,
        split_path_spec(suffix).len() + 1,
    )
}

/// Adds every bone of a chain to mask group `group`.
///
/// The prefix is the path of the chain's parent bone and the suffix the chain
/// of bones below it: the parent bone and every bone along the suffix are
/// added.
pub fn add_chain_to_mask_group(graph: &mut AnimationGraph, prefix: &str, suffix: &str, group: u32)
    requires
        group < 64,
    ensures
        graph_mask_groups(*final(graph)) == with_path_chain_in_group(
            graph_mask_groups(*old(graph)),
            prefix@,
            suffix@,
            group,
        ),
        graph_shape(*final(graph)) == graph_shape(*old(graph)),
{
    let prefix_names = split_path(prefix);
    let suffix_names = split_path(suffix);
    let ghost start = graph_mask_groups(*graph);
    let ghost shape = graph_shape(*graph);
    let mut chain_length: usize = 0;
    loop
        invariant_except_break
            graph_mask_groups(*graph) == with_chain_in_group(
                start,
                prefix_names.deep_view(),
                suffix_names.deep_view(),
                group,
                chain_length as nat,
            ),
        invariant
            group < 64,
            prefix_names.deep_view() == split_path_spec(prefix@),
            suffix_names.deep_view() == split_path_spec(suffix@),
            chain_length <= suffix_names.len(),
            graph_shape(*graph) == shape,
        ensures
            graph_mask_groups(*graph) == with_chain_in_group(
                start,
                prefix_names.deep_view(),
                suffix_names.deep_view(),
                group,
                (suffix_names.len() + 1) as nat,
            ),
        decreases suffix_names.len() - chain_length,
    {
        let mut names: Vec<String> = Vec::new();
        let mut j: usize = 0;
        while j < prefix_names.len()
            invariant
                j <= prefix_names.len(),
                names@.len() == j,
                forall|i: int| 0 <= i < j ==> names@[i] == prefix_names@[i],
            decreases prefix_names.len() - j,
        {
            names.push(prefix_names[j].clone());
            j = j + 1;
        }
        let mut m: usize = 0;
        while m < chain_length
            invariant
                chain_length <= suffix_names.len(),
                m <= chain_length,
                names@.len() == prefix_names@.len() + m,
                forall|i: int| 0 <= i < prefix_names@.len() ==> names@[i] == prefix_names@[i],
                forall|i: int|
                    0 <= i < m ==> names@[prefix_names@.len() + i] == suffix_names@[i],
            decreases chain_length - m,
        {
            names.push(suffix_names[m].clone());
            m = m + 1;
        }
        proof {
            assert(names.deep_view() =~= chain_path(
                prefix_names.deep_view(),
                suffix_names.deep_view(),
                chain_length as int,
            ));
        }
        let target = target_id_from_names(&names);
        add_target_to_mask_group(graph, target, group);
        if chain_length == suffix_names.len() {
            break;
        }
        chain_length = chain_length + 1;
    }
}

/// Path of the topmost spine bone.
pub const SPINE: &'static str = "root/pelvis/spine_01/spine_02/spine_03";

/// Path of the right hand.
pub const HAND_R: &'static str = "root/pelvis/spine_01/spine_02/spine_03/clavicle_r/upperarm_r/lowerarm_r/hand_r";

/// Path of the left hand.
pub const HAND_L: &'static str = "root/pelvis/spine_01/spine_02/spine_03/clavicle_l/upperarm_l/lowerarm_l/hand_l";

/// The lower-body chains, as (parent path, chain) pairs: root and pelvis,
/// then each leg down to the tip of the foot.
pub open spec fn lower_body_chain_table() -> Seq<(&'static str, &'static str)> {
    seq![
        ("root", "pelvis"),
        ("root/pelvis", "thigh_r/calf_r/foot_r/ball_r/ball_leaf_r"),
        ("root/pelvis", "thigh_l/calf_l/foot_l/ball_l/ball_leaf_l"),
    ]
}

/// The upper-body chains, as (parent path, chain) pairs: the spine, each arm
/// down to the hand, each finger, and the neck and head.
///
/// The spine chain hangs from the first spine bone rather than from the
/// pelvis, so that the pelvis belongs to the lower body only: the upper body
/// is the spine and everything above it.
pub open spec fn upper_body_chain_table() -> Seq<(&'static str, &'static str)> {
    seq![
        ("root/pelvis/spine_01", "spine_02/spine_03"),
        (SPINE, "clavicle_r/upperarm_r/lowerarm_r/hand_r"),
        (HAND_R, "thumb_01_r/thumb_02_r/thumb_03_r/thumb_04_leaf_r"),
        (HAND_R, "ring_01_r/ring_02_r/ring_03_r/ring_04_leaf_r"),
        (HAND_R, "pinky_01_r/pinky_02_r/pinky_03_r/pinky_04_leaf_r"),
        (HAND_R, "middle_01_r/middle_02_r/middle_03_r/middle_04_leaf_r"),
        (HAND_R, "index_01_r/index_02_r/index_03_r/index_04_leaf_r"),
        (SPINE, "clavicle_l/upperarm_l/lowerarm_l/hand_l"),
        (HAND_L, "thumb_01_l/thumb_02_l/thumb_03_l/thumb_04_leaf_l"),
        (HAND_L, "ring_01_l/ring_02_l/ring_03_l/ring_04_leaf_l"),
        (HAND_L, "pinky_01_l/pinky_02_l/pinky_03_l/pinky_04_leaf_l"),
        (HAND_L, "middle_01_l/middle_02_l/middle_03_l/middle_04_leaf_l"),
        (HAND_L, "index_01_l/index_02_l/index_03_l/index_04_leaf_l"),
        (SPINE, "neck_01/Head"),
    ]
}

/// The lower-body chains.
pub fn lower_body_chains() -> (r: Vec<(&'static str, &'static str)>)
    ensures
        r@ == lower_body_chain_table(),
{
    let r = vec![
        ("root", "pelvis"),
        ("root/pelvis", "thigh_r/calf_r/foot_r/ball_r/ball_leaf_r"),
        ("root/pelvis", "thigh_l/calf_l/foot_l/ball_l/ball_leaf_l"),
    ];
    assert(r@ =~= lower_body_chain_table());
    r
}

/// The upper-body chains.
pub fn upper_body_chains() -> (r: Vec<(&'static str, &'static str)>)
    ensures
        r@ == upper_body_chain_table(),
{
    let r = vec![
        ("root/pelvis/spine_01", "spine_02/spine_03"),
        (SPINE, "clavicle_r/upperarm_r/lowerarm_r/hand_r"),
        (HAND_R, "thumb_01_r/thumb_02_r/thumb_03_r/thumb_04_leaf_r"),
        (HAND_R, "ring_01_r/ring_02_r/ring_03_r/ring_04_leaf_r"),
        (HAND_R, "pinky_01_r/pinky_02_r/pinky_03_r/pinky_04_leaf_r"),
        (HAND_R, "middle_01_r/middle_02_r/middle_03_r/middle_04_leaf_r"),
        (HAND_R, "index_01_r/index_02_r/index_03_r/index_04_leaf_r"),
        (SPINE, "clavicle_l/upperarm_l/lowerarm_l/hand_l"),
        (HAND_L, "thumb_01_l/thumb_02_l/thumb_03_l/thumb_04_leaf_l"),
        (HAND_L, "ring_01_l/ring_02_l/ring_03_l/ring_04_leaf_l"),
        (HAND_L, "pinky_01_l/pinky_02_l/pinky_03_l/pinky_04_leaf_l"),
        (HAND_L, "middle_01_l/middle_02_l/middle_03_l/middle_04_leaf_l"),
        (HAND_L, "index_01_l/index_02_l/index_03_l/index_04_leaf_l"),
        (SPINE, "neck_01/Head"),
    ];
    assert(r@ =~= upper_body_chain_table());
    r
}

/// `masks` with every bone of the first `count` chains added to `group`.
pub open spec fn with_chains_in_group(
    masks: Map<u128, u64>,
    chains: Seq<(&'static str, &'static str)>,
    group: u32,
    count: nat,
) -> Map<u128, u64>
    decreases count,
{
    if count == 0 {
        masks
    } else {
        with_path_chain_in_group(
            with_chains_in_group(masks, chains, group, (count - 1) as nat),
            chains[count - 1].0@,
            chains[count - 1].1@,
            group,
        )
    }
}

/// `masks` with the lower-body bones added to the lower-body group and then
/// the upper-body bones added to the upper-body group.
pub open spec fn with_body_masks(masks: Map<u128, u64>) -> Map<u128, u64> {
    with_chains_in_group(
        with_chains_in_group(
            masks,
            lower_body_chain_table(),
            LOWER_BODY_MASK_GROUP,
            lower_body_chain_table().len(),
        ),
        upper_body_chain_table(),
        UPPER_BODY_MASK_GROUP,
        upper_body_chain_table().len(),
    )
}

/// Adds every bone of each chain to mask group `group`.
fn add_chains_to_mask_group(
    graph: &mut AnimationGraph,
    chains: &Vec<(&'static str, &'static str)>,
    group: u32,
)
    requires
        group < 64,
    ensures
        graph_mask_groups(*final(graph)) == with_chains_in_group(
            graph_mask_groups(*old(graph)),
            chains@,
            group,
            chains@.len(),
        ),
        graph_shape(*final(graph)) == graph_shape(*old(graph)),
{
    let ghost start = graph_mask_groups(*graph);
    let ghost shape = graph_shape(*graph);
    let mut i: usize = 0;
    while i < chains.len()
        invariant
            group < 64,
            graph_shape(*graph) == shape,
            i <= chains@.len(),
            graph_mask_groups(*graph) == with_chains_in_group(start, chains@, group, i as nat),
        decreases chains@.len() - i,
    {
        let (prefix, suffix) = chains[i];
        add_chain_to_mask_group(graph, prefix, suffix, group);
        i = i + 1;
    }
}

/// Assigns the bones to mask groups by their hierarchical name paths.
///
/// Lower body: root, pelvis, thighs, calves, feet, balls.
/// Upper body: spine, clavicles, arms, hands, fingers, neck, head.
pub fn add_bones_mask(graph: &mut AnimationGraph)
    ensures
        graph_mask_groups(*final(graph)) == with_body_masks(graph_mask_groups(*old(graph))),
        graph_shape(*final(graph)) == graph_shape(*old(graph)),
{
    let lower = lower_body_chains();
    let upper = upper_body_chains();
    add_chains_to_mask_group(graph, &lower, LOWER_BODY_MASK_GROUP);
    add_chains_to_mask_group(graph, &upper, UPPER_BODY_MASK_GROUP);
}

proof fn lemma_bit_or_keeps(x: u64, g: u32, g2: u32)
    requires
        g < 64,
        g2 < 64,
    ensures
        x & (1u64 << g2) != 0 ==> (x | (1u64 << g)) & (1u64 << g2) != 0,
        (x | (1u64 << g)) & (1u64 << g) != 0,
{
    assert(x & (1u64 << g2) != 0 ==> (x | (1u64 << g)) & (1u64 << g2) != 0) by (bit_vector)
        requires
            g < 64,
            g2 < 64,
    ;
    assert((x | (1u64 << g)) & (1u64 << g) != 0) by (bit_vector)
        requires
            g < 64,
    ;
}

/// Adding a target to a group puts it in that group and takes no target out
/// of any group it was in.
pub proof fn lemma_add_target_keeps_groups(
    masks: Map<u128, u64>,
    target: u128,
    group: u32,
    other: u128,
    other_group: u32,
)
    requires
        group < 64,
        other_group < 64,
    ensures
        in_group(with_target_in_group(masks, target, group), target, group),
        in_group(masks, other, other_group) ==> in_group(
            with_target_in_group(masks, target, group),
            other,
            other_group,
        ),
{
    lemma_bit_or_keeps(groups_of(masks, target), group, other_group);
}

proof fn lemma_chain_keeps_groups(
    masks: Map<u128, u64>,
    prefix: Seq<Seq<char>>,
    suffix: Seq<Seq<char>>,
    group: u32,
    count: nat,
    other: u128,
    other_group: u32,
)
    requires
        group < 64,
        other_group < 64,
        in_group(masks, other, other_group),
    ensures
        in_group(with_chain_in_group(masks, prefix, suffix, group, count), other, other_group),
    decreases count,
{
    if count > 0 {
        lemma_chain_keeps_groups(masks, prefix, suffix, group, (count - 1) as nat, other, other_group);
        lemma_add_target_keeps_groups(
            with_chain_in_group(masks, prefix, suffix, group, (count - 1) as nat),
            animation_target_id(chain_path(prefix, suffix, count - 1)),
            group,
            other,
            other_group,
        );
    }
}

proof fn lemma_chain_covers(
    masks: Map<u128, u64>,
    prefix: Seq<Seq<char>>,
    suffix: Seq<Seq<char>>,
    group: u32,
    count: nat,
    k: int,
)
    requires
        group < 64,
        0 <= k < count,
    ensures
        in_group(
            with_chain_in_group(masks, prefix, suffix, group, count),
            animation_target_id(chain_path(prefix, suffix, k)),
            group,
        ),
    decreases count,
{
    let before = with_chain_in_group(masks, prefix, suffix, group, (count - 1) as nat);
    let id = animation_target_id(chain_path(prefix, suffix, k));
    lemma_add_target_keeps_groups(
        before,
        animation_target_id(chain_path(prefix, suffix, count - 1)),
        group,
        id,
        group,
    );
    if k < count - 1 {
        lemma_chain_covers(masks, prefix, suffix, group, (count - 1) as nat, k);
    }
}

proof fn lemma_chains_keep_groups(
    masks: Map<u128, u64>,
    chains: Seq<(&'static str, &'static str)>,
    group: u32,
    count: nat,
    other: u128,
    other_group: u32,
)
    requires
        group < 64,
        other_group < 64,
        in_group(masks, other, other_group),
    ensures
        in_group(with_chains_in_group(masks, chains, group, count), other, other_group),
    decreases count,
{
    if count > 0 {
        lemma_chains_keep_groups(masks, chains, group, (count - 1) as nat, other, other_group);
        let c = chains[count - 1];
        lemma_chain_keeps_groups(
            with_chains_in_group(masks, chains, group, (count - 1) as nat),
            split_path_spec(c.0@),
            split_path_spec(c.1@),
            group,
            split_path_spec(c.1@).len() + 1,
            other,
            other_group,
        );
    }
}

proof fn lemma_chains_cover(
    masks: Map<u128, u64>,
    chains: Seq<(&'static str, &'static str)>,
    group: u32,
    count: nat,
    i: int,
    k: int,
)
    requires
        group < 64,
        0 <= i < count,
        0 <= k <= split_path_spec(chains[i].1@).len(),
    ensures
        in_group(
            with_chains_in_group(masks, chains, group, count),
            animation_target_id(
                chain_path(split_path_spec(chains[i].0@), split_path_spec(chains[i].1@), k),
            ),
            group,
        ),
    decreases count,
{
    let id = animation_target_id(
        chain_path(split_path_spec(chains[i].0@), split_path_spec(chains[i].1@), k),
    );
    let before = with_chains_in_group(masks, chains, group, (count - 1) as nat);
    let c = chains[count - 1];
    if i == count - 1 {
        lemma_chain_covers(
            before,
            split_path_spec(c.0@),
            split_path_spec(c.1@),
            group,
            split_path_spec(c.1@).len() + 1,
            k,
        );
    } else {
        lemma_chains_cover(masks, chains, group, (count - 1) as nat, i, k);
        lemma_chain_keeps_groups(
            before,
            split_path_spec(c.0@),
            split_path_spec(c.1@),
            group,
            split_path_spec(c.1@).len() + 1,
            id,
            group,
        );
    }
}

/// After the bones are assigned, every bone along a lower-body chain (the
/// chain's parent bone and each bone of the chain) belongs to the lower-body
/// group, every bone along an upper-body chain to the upper-body group, and
/// every target keeps the groups it already had.
pub proof fn lemma_body_masks_cover_chains(masks: Map<u128, u64>)
    ensures
        forall|i: int, k: int|
            0 <= i < lower_body_chain_table().len() && 0 <= k <= split_path_spec(
                lower_body_chain_table()[i].1@,
            ).len() ==> #[trigger] in_group(
                with_body_masks(masks),
                animation_target_id(
                    chain_path(
                        split_path_spec(lower_body_chain_table()[i].0@),
                        split_path_spec(lower_body_chain_table()[i].1@),
                        k,
                    ),
                ),
                LOWER_BODY_MASK_GROUP,
            ),
        forall|i: int, k: int|
            0 <= i < upper_body_chain_table().len() && 0 <= k <= split_path_spec(
                upper_body_chain_table()[i].1@,
            ).len() ==> #[trigger] in_group(
                with_body_masks(masks),
                animation_target_id(
                    chain_path(
                        split_path_spec(upper_body_chain_table()[i].0@),
                        split_path_spec(upper_body_chain_table()[i].1@),
                        k,
                    ),
                ),
                UPPER_BODY_MASK_GROUP,
            ),
        forall|t: u128, g: u32|
            g < 64 && #[trigger] in_group(masks, t, g) ==> in_group(with_body_masks(masks), t, g),
{
    let lower = lower_body_chain_table();
    let upper = upper_body_chain_table();
    let after_lower = with_chains_in_group(masks, lower, LOWER_BODY_MASK_GROUP, lower.len());
    assert forall|i: int, k: int|
        0 <= i < lower.len() && 0 <= k <= split_path_spec(lower[i].1@).len() implies #[trigger] in_group(
        with_body_masks(masks),
        animation_target_id(
            chain_path(split_path_spec(lower[i].0@), split_path_spec(lower[i].1@), k),
        ),
        LOWER_BODY_MASK_GROUP,
    ) by {
        let id = animation_target_id(
            chain_path(split_path_spec(lower[i].0@), split_path_spec(lower[i].1@), k),
        );
        lemma_chains_cover(masks, lower, LOWER_BODY_MASK_GROUP, lower.len(), i, k);
        lemma_chains_keep_groups(
            after_lower,
            upper,
            UPPER_BODY_MASK_GROUP,
            upper.len(),
            id,
            LOWER_BODY_MASK_GROUP,
        );
    }
    assert forall|i: int, k: int|
        0 <= i < upper.len() && 0 <= k <= split_path_spec(upper[i].1@).len() implies #[trigger] in_group(
        with_body_masks(masks),
        animation_target_id(
            chain_path(split_path_spec(upper[i].0@), split_path_spec(upper[i].1@), k),
        ),
        UPPER_BODY_MASK_GROUP,
    ) by {
        lemma_chains_cover(after_lower, upper, UPPER_BODY_MASK_GROUP, upper.len(), i, k);
    }
    assert forall|t: u128, g: u32|
        g < 64 && #[trigger] in_group(masks, t, g) implies in_group(with_body_masks(masks), t, g) by {
        lemma_chains_keep_groups(masks, lower, LOWER_BODY_MASK_GROUP, lower.len(), t, g);
        lemma_chains_keep_groups(after_lower, upper, UPPER_BODY_MASK_GROUP, upper.len(), t, g);
    }
}

/// The first three bone names of every spine, arm, hand and head path.
pub open spec fn below_spine_01(path: Seq<Seq<char>>) -> bool {
    &&& path.len() >= 3
    &&& path[0] == "root"@
    &&& path[1] == "pelvis"@
    &&& path[2] == "spine_01"@
}

proof fn lemma_split_root_pelvis()
    ensures
        split_path_spec("root"@) == seq!["root"@],
        split_path_spec("pelvis"@) == seq!["pelvis"@],
        split_path_spec("root/pelvis"@) == seq!["root"@, "pelvis"@],
{
    reveal_strlit("root");
    reveal_strlit("pelvis");
    reveal_strlit("root/pelvis");
    lemma_split_path_no_separator("root"@);
    lemma_split_path_no_separator("pelvis"@);
    assert("root/pelvis"@ =~= "root"@.push('/') + "pelvis"@);
    lemma_split_path_append("root"@, "pelvis"@);
}

proof fn lemma_split_spine_01()
    ensures
        below_spine_01(split_path_spec("root/pelvis/spine_01"@)),
        split_path_spec("root/pelvis/spine_01"@).len() == 3,
{
    reveal_strlit("root/pelvis");
    reveal_strlit("spine_01");
    reveal_strlit("root/pelvis/spine_01");
    lemma_split_root_pelvis();
    lemma_split_path_no_separator("spine_01"@);
    assert("root/pelvis/spine_01"@ =~= "root/pelvis"@.push('/') + "spine_01"@);
    lemma_split_path_append("root/pelvis"@, "spine_01"@);
}

/// The spine, hand and neck paths that upper-body chains hang from all
/// start with root, pelvis and the first spine bone.
proof fn lemma_upper_prefixes_below_spine_01(j: int)
    requires
        0 <= j < upper_body_chain_table().len(),
    ensures
        below_spine_01(split_path_spec(upper_body_chain_table()[j].0@)),
{
    lemma_split_spine_01();
    reveal_strlit("root/pelvis/spine_01");
    let p = upper_body_chain_table()[j].0@;
    if j != 0 {
        reveal_strlit("root/pelvis/spine_01/spine_02/spine_03");
        reveal_strlit(
            "root/pelvis/spine_01/spine_02/spine_03/clavicle_r/upperarm_r/lowerarm_r/hand_r",
        );
        reveal_strlit(
            "root/pelvis/spine_01/spine_02/spine_03/clavicle_l/upperarm_l/lowerarm_l/hand_l",
        );
        assert(p.take(20) =~= "root/pelvis/spine_01"@);
        assert(is_separator(p[20]));
        lemma_split_path_at(p, 20);
    }
}

/// The leg chains start at the thighs.
proof fn lemma_leg_chains_start_at_thighs(i: int)
    requires
        1 <= i < lower_body_chain_table().len(),
    ensures
        split_path_spec(lower_body_chain_table()[i].1@)[0] == "thigh_r"@
            || split_path_spec(lower_body_chain_table()[i].1@)[0] == "thigh_l"@,
{
    reveal_strlit("thigh_r");
    reveal_strlit("thigh_l");
    reveal_strlit("thigh_r/calf_r/foot_r/ball_r/ball_leaf_r");
    reveal_strlit("thigh_l/calf_l/foot_l/ball_l/ball_leaf_l");
    let s = lower_body_chain_table()[i].1@;
    lemma_split_path_no_separator("thigh_r"@);
    lemma_split_path_no_separator("thigh_l"@);
    assert(s.take(7) =~= "thigh_r"@ || s.take(7) =~= "thigh_l"@);
    lemma_split_path_at(s, 7);
}

/// No bone is named by both a lower-body chain and an upper-body chain:
/// the lower body is root, pelvis and the legs, the upper body the spine and
/// everything above it.
pub proof fn lemma_body_chains_disjoint()
    ensures
        forall|i: int, k: int, j: int, m: int|
            0 <= i < lower_body_chain_table().len() && 0 <= k <= split_path_spec(
                lower_body_chain_table()[i].1@,
            ).len() && 0 <= j < upper_body_chain_table().len() && 0 <= m <= split_path_spec(
                upper_body_chain_table()[j].1@,
            ).len() ==> #[trigger] chain_path(
                split_path_spec(lower_body_chain_table()[i].0@),
                split_path_spec(lower_body_chain_table()[i].1@),
                k,
            ) != #[trigger] chain_path(
                split_path_spec(upper_body_chain_table()[j].0@),
                split_path_spec(upper_body_chain_table()[j].1@),
                m,
            ),
{
    let lower = lower_body_chain_table();
    let upper = upper_body_chain_table();
    assert forall|i: int, k: int, j: int, m: int|
        0 <= i < lower.len() && 0 <= k <= split_path_spec(lower[i].1@).len() && 0 <= j
            < upper.len() && 0 <= m <= split_path_spec(upper[j].1@).len() implies #[trigger] chain_path(
        split_path_spec(lower[i].0@),
        split_path_spec(lower[i].1@),
        k,
    ) != #[trigger] chain_path(split_path_spec(upper[j].0@), split_path_spec(upper[j].1@), m) by {
        let lp = chain_path(split_path_spec(lower[i].0@), split_path_spec(lower[i].1@), k);
        let up = chain_path(split_path_spec(upper[j].0@), split_path_spec(upper[j].1@), m);
        lemma_upper_prefixes_below_spine_01(j);
        let upre = split_path_spec(upper[j].0@);
        assert(up[0] == upre[0] && up[1] == upre[1] && up[2] == upre[2]);
        assert(below_spine_01(up));
        lemma_split_root_pelvis();
        reveal_strlit("spine_01");
        reveal_strlit("thigh_r");
        reveal_strlit("thigh_l");
        if i == 0 {
            assert(lp.len() <= 2);
        } else {
            lemma_leg_chains_start_at_thighs(i);
            if k > 0 {
                assert(lp[2] == split_path_spec(lower[i].1@)[0]);
                assert(lp[2] != up[2]);
            } else {
                assert(lp.len() == 2);
            }
        }
    }
}

/// A new animation graph (one root node, no edges) with the bones assigned
/// to the body mask groups.
pub fn new_body_mask_graph() -> (masked: AnimationGraph)
    ensures
        graph_mask_groups(masked) == with_body_masks(Map::empty()),
        graph_shape(masked) == (1nat, 0nat, 0nat),
{
    let mut graph = new_animation_graph();
    add_bones_mask(&mut graph);
    graph
}

proof fn lemma_bit_or_laws(x: u64, a: u64, b: u64)
    ensures
        (x | a) | a == x | a,
        (x | a) | b == (x | b) | a,
        0u64 | a == a,
{
    assert((x | a) | a == x | a) by (bit_vector);
    assert((x | a) | b == (x | b) | a) by (bit_vector);
    assert(0u64 | a == a) by (bit_vector);
}

/// Some of the first `count` bones of the chain has the id `target`.
pub open spec fn chain_touches(
    prefix: Seq<Seq<char>>,
    suffix: Seq<Seq<char>>,
    count: nat,
    target: u128,
) -> bool {
    exists|k: int|
        0 <= k < count && #[trigger] animation_target_id(chain_path(prefix, suffix, k)) == target
}

/// Adding a chain to a group records exactly the chain's bones and sets the
/// group's bit on each of them, leaving every other target as it was.
proof fn lemma_chain_effect(
    masks: Map<u128, u64>,
    prefix: Seq<Seq<char>>,
    suffix: Seq<Seq<char>>,
    group: u32,
    count: nat,
    target: u128,
)
    ensures
        with_chain_in_group(masks, prefix, suffix, group, count).contains_key(target) == (
        masks.contains_key(target) || chain_touches(prefix, suffix, count, target)),
        groups_of(with_chain_in_group(masks, prefix, suffix, group, count), target) == (if chain_touches(
            prefix,
            suffix,
            count,
            target,
        ) {
            groups_of(masks, target) | (1u64 << group)
        } else {
            groups_of(masks, target)
        }),
    decreases count,
{
    if count > 0 {
        let c = (count - 1) as nat;
        lemma_chain_effect(masks, prefix, suffix, group, c, target);
        let id = animation_target_id(chain_path(prefix, suffix, count - 1));
        lemma_bit_or_laws(groups_of(masks, target), 1u64 << group, 1u64 << group);
        if id == target {
            assert(chain_touches(prefix, suffix, count, target));
        } else {
            if chain_touches(prefix, suffix, count, target) {
                let k = choose|k: int|
                    0 <= k < count && #[trigger] animation_target_id(chain_path(prefix, suffix, k))
                        == target;
                assert(chain_touches(prefix, suffix, c, target));
            }
            if chain_touches(prefix, suffix, c, target) {
                let k = choose|k: int|
                    0 <= k < c && #[trigger] animation_target_id(chain_path(prefix, suffix, k))
                        == target;
                assert(chain_touches(prefix, suffix, count, target));
            }
        }
    } else {
        assert(!chain_touches(prefix, suffix, count, target));
    }
}

/// The chain of paths `prefix`, `suffix` touches `target`.
pub open spec fn path_chain_touches(prefix: Seq<char>, suffix: Seq<char>, target: u128) -> bool {
    chain_touches(
        split_path_spec(prefix),
        split_path_spec(suffix),
        split_path_spec(suffix).len() + 1,
        target,
    )
}

proof fn lemma_path_chain_effect(
    masks: Map<u128, u64>,
    prefix: Seq<char>,
    suffix: Seq<char>,
    group: u32,
    target: u128,
)
    ensures
        with_path_chain_in_group(masks, prefix, suffix, group).contains_key(target) == (
        masks.contains_key(target) || path_chain_touches(prefix, suffix, target)),
        groups_of(with_path_chain_in_group(masks, prefix, suffix, group), target) == (if path_chain_touches(
            prefix,
            suffix,
            target,
        ) {
            groups_of(masks, target) | (1u64 << group)
        } else {
            groups_of(masks, target)
        }),
{
    lemma_chain_effect(
        masks,
        split_path_spec(prefix),
        split_path_spec(suffix),
        group,
        split_path_spec(suffix).len() + 1,
        target,
    );
}

/// Adding the same chain to the same group twice gives the masks one
/// addition gives.
pub proof fn lemma_chain_addition_idempotent(
    masks: Map<u128, u64>,
    prefix: Seq<char>,
    suffix: Seq<char>,
    group: u32,
)
    ensures
        with_path_chain_in_group(
            with_path_chain_in_group(masks, prefix, suffix, group),
            prefix,
            suffix,
            group,
        ) == with_path_chain_in_group(masks, prefix, suffix, group),
{
    let once = with_path_chain_in_group(masks, prefix, suffix, group);
    let twice = with_path_chain_in_group(once, prefix, suffix, group);
    assert forall|t: u128| #[trigger] twice.contains_key(t) == once.contains_key(t) by {
        lemma_path_chain_effect(masks, prefix, suffix, group, t);
        lemma_path_chain_effect(once, prefix, suffix, group, t);
    }
    assert forall|t: u128| twice.contains_key(t) implies #[trigger] twice[t] == once[t] by {
        lemma_path_chain_effect(masks, prefix, suffix, group, t);
        lemma_path_chain_effect(once, prefix, suffix, group, t);
        lemma_bit_or_laws(groups_of(masks, t), 1u64 << group, 1u64 << group);
    }
    assert(twice =~= once);
}

/// Adding two chains gives the same masks in either order.
pub proof fn lemma_chain_additions_commute(
    masks: Map<u128, u64>,
    prefix1: Seq<char>,
    suffix1: Seq<char>,
    group1: u32,
    prefix2: Seq<char>,
    suffix2: Seq<char>,
    group2: u32,
)
    ensures
        with_path_chain_in_group(
            with_path_chain_in_group(masks, prefix1, suffix1, group1),
            prefix2,
            suffix2,
            group2,
        ) == with_path_chain_in_group(
            with_path_chain_in_group(masks, prefix2, suffix2, group2),
            prefix1,
            suffix1,
            group1,
        ),
{
    let a = with_path_chain_in_group(masks, prefix1, suffix1, group1);
    let ab = with_path_chain_in_group(a, prefix2, suffix2, group2);
    let b = with_path_chain_in_group(masks, prefix2, suffix2, group2);
    let ba = with_path_chain_in_group(b, prefix1, suffix1, group1);
    assert forall|t: u128| #[trigger] ab.contains_key(t) == ba.contains_key(t) by {
        lemma_path_chain_effect(masks, prefix1, suffix1, group1, t);
        lemma_path_chain_effect(a, prefix2, suffix2, group2, t);
        lemma_path_chain_effect(masks, prefix2, suffix2, group2, t);
        lemma_path_chain_effect(b, prefix1, suffix1, group1, t);
    }
    assert forall|t: u128| ab.contains_key(t) implies #[trigger] ab[t] == ba[t] by {
        lemma_path_chain_effect(masks, prefix1, suffix1, group1, t);
        lemma_path_chain_effect(a, prefix2, suffix2, group2, t);
        lemma_path_chain_effect(masks, prefix2, suffix2, group2, t);
        lemma_path_chain_effect(b, prefix1, suffix1, group1, t);
        lemma_bit_or_laws(groups_of(masks, t), 1u64 << group1, 1u64 << group2);
    }
    assert(ab =~= ba);
}

/// Some of the first `count` chains touches `target`.
pub open spec fn chains_touch(
    chains: Seq<(&'static str, &'static str)>,
    count: nat,
    target: u128,
) -> bool {
    exists|i: int|
        0 <= i < count && #[trigger] path_chain_touches(chains[i].0@, chains[i].1@, target)
}

proof fn lemma_chains_effect(
    masks: Map<u128, u64>,
    chains: Seq<(&'static str, &'static str)>,
    group: u32,
    count: nat,
    target: u128,
)
    ensures
        groups_of(with_chains_in_group(masks, chains, group, count), target) == (if chains_touch(
            chains,
            count,
            target,
        ) {
            groups_of(masks, target) | (1u64 << group)
        } else {
            groups_of(masks, target)
        }),
    decreases count,
{
    if count > 0 {
        let c = (count - 1) as nat;
        lemma_chains_effect(masks, chains, group, c, target);
        let before = with_chains_in_group(masks, chains, group, c);
        lemma_path_chain_effect(before, chains[count - 1].0@, chains[count - 1].1@, group, target);
        lemma_bit_or_laws(groups_of(masks, target), 1u64 << group, 1u64 << group);
        if path_chain_touches(chains[count - 1].0@, chains[count - 1].1@, target) {
            assert(chains_touch(chains, count, target));
        } else {
            if chains_touch(chains, count, target) {
                let i = choose|i: int|
                    0 <= i < count && #[trigger] path_chain_touches(
                        chains[i].0@,
                        chains[i].1@,
                        target,
                    );
                assert(chains_touch(chains, c, target));
            }
            if chains_touch(chains, c, target) {
                let i = choose|i: int|
                    0 <= i < c && #[trigger] path_chain_touches(chains[i].0@, chains[i].1@, target);
                assert(chains_touch(chains, count, target));
            }
        }
    } else {
        assert(!chains_touch(chains, count, target));
    }
}

/// The id of bone `k` of chain `i` of a table.
pub open spec fn table_bone_id(chains: Seq<(&'static str, &'static str)>, i: int, k: int) -> u128 {
    animation_target_id(
        chain_path(split_path_spec(chains[i].0@), split_path_spec(chains[i].1@), k),
    )
}

/// Bone `k` of chain `i` exists in the table.
pub open spec fn table_bone(chains: Seq<(&'static str, &'static str)>, i: int, k: int) -> bool {
    0 <= i < chains.len() && 0 <= k <= split_path_spec(chains[i].1@).len()
}

proof fn lemma_table_bone_touches(chains: Seq<(&'static str, &'static str)>, i: int, k: int)
    requires
        table_bone(chains, i, k),
    ensures
        chains_touch(chains, chains.len(), table_bone_id(chains, i, k)),
{
    let t = table_bone_id(chains, i, k);
    assert(chain_touches(
        split_path_spec(chains[i].0@),
        split_path_spec(chains[i].1@),
        split_path_spec(chains[i].1@).len() + 1,
        t,
    ));
    assert(path_chain_touches(chains[i].0@, chains[i].1@, t));
}

proof fn lemma_table_touch_has_bone(
    chains: Seq<(&'static str, &'static str)>,
    target: u128,
) -> (bone: (int, int))
    requires
        chains_touch(chains, chains.len(), target),
    ensures
        table_bone(chains, bone.0, bone.1),
        table_bone_id(chains, bone.0, bone.1) == target,
{
    let i = choose|i: int|
        0 <= i < chains.len() && #[trigger] path_chain_touches(chains[i].0@, chains[i].1@, target);
    let k = choose|k: int|
        0 <= k < split_path_spec(chains[i].1@).len() + 1 && #[trigger] animation_target_id(
            chain_path(split_path_spec(chains[i].0@), split_path_spec(chains[i].1@), k),
        ) == target;
    (i, k)
}

/// Starting from no mask groups, and provided bevy's hash gives every
/// lower-body bone an id different from every upper-body bone's, each
/// lower-body bone belongs to the lower-body group alone and each upper-body
/// bone to the upper-body group alone.
pub proof fn lemma_body_masks_exact_groups()
    requires
        forall|i: int, k: int, j: int, m: int|
            table_bone(lower_body_chain_table(), i, k) && table_bone(upper_body_chain_table(), j, m)
                ==> #[trigger] table_bone_id(lower_body_chain_table(), i, k)
                != #[trigger] table_bone_id(upper_body_chain_table(), j, m),
    ensures
        forall|i: int, k: int|
            table_bone(lower_body_chain_table(), i, k) ==> groups_of(
                with_body_masks(Map::empty()),
                #[trigger] table_bone_id(lower_body_chain_table(), i, k),
            ) == 1u64 << LOWER_BODY_MASK_GROUP,
        forall|j: int, m: int|
            table_bone(upper_body_chain_table(), j, m) ==> groups_of(
                with_body_masks(Map::empty()),
                #[trigger] table_bone_id(upper_body_chain_table(), j, m),
            ) == 1u64 << UPPER_BODY_MASK_GROUP,
{
    let lower = lower_body_chain_table();
    let upper = upper_body_chain_table();
    let empty = Map::<u128, u64>::empty();
    let after_lower = with_chains_in_group(empty, lower, LOWER_BODY_MASK_GROUP, lower.len());
    assert forall|i: int, k: int| table_bone(lower, i, k) implies groups_of(
        with_body_masks(empty),
        #[trigger] table_bone_id(lower, i, k),
    ) == 1u64 << LOWER_BODY_MASK_GROUP by {
        let t = table_bone_id(lower, i, k);
        lemma_table_bone_touches(lower, i, k);
        lemma_chains_effect(empty, lower, LOWER_BODY_MASK_GROUP, lower.len(), t);
        lemma_chains_effect(after_lower, upper, UPPER_BODY_MASK_GROUP, upper.len(), t);
        lemma_bit_or_laws(0, 1u64 << LOWER_BODY_MASK_GROUP, 0);
        if chains_touch(upper, upper.len(), t) {
            let (j, m) = lemma_table_touch_has_bone(upper, t);
            assert(table_bone_id(lower, i, k) != table_bone_id(upper, j, m));
        }
    }
    assert forall|j: int, m: int| table_bone(upper, j, m) implies groups_of(
        with_body_masks(empty),
        #[trigger] table_bone_id(upper, j, m),
    ) == 1u64 << UPPER_BODY_MASK_GROUP by {
        let t = table_bone_id(upper, j, m);
        lemma_table_bone_touches(upper, j, m);
        lemma_chains_effect(empty, lower, LOWER_BODY_MASK_GROUP, lower.len(), t);
        lemma_chains_effect(after_lower, upper, UPPER_BODY_MASK_GROUP, upper.len(), t);
        lemma_bit_or_laws(0, 1u64 << UPPER_BODY_MASK_GROUP, 0);
        if chains_touch(lower, lower.len(), t) {
            let (i, k) = lemma_table_touch_has_bone(lower, t);
            assert(table_bone_id(lower, i, k) != table_bone_id(upper, j, m));
        }
    }
}

} // verus!
