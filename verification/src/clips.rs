//! The animation assets the character uses: which named clips of the two
//! character animation libraries make up each blend, how the blends are laid
//! out, and which animations each layer's retarget group holds.

use vstd::prelude::*;
use crate::animation::{
    AnimationBlendChoice, CharacterAnimState, JumpPhase, GroundedMotion, LAYER_COUNT,
    LOCOMOTION_LAYER, UPPER_BODY_LAYER, animation_for_layer, locomotion_state_for,
};
use crate::control::{MovementIntent, target_speed_spec};

verus! {

/// One of the two loaded character animation libraries.
#[derive(Clone, Copy, PartialEq, Eq, Structural, Debug)]
pub enum CharacterLibrary {
    /// The first library (`UAL1.glb`).
    Ual1,
    /// The second library (`UAL2.glb`).
    Ual2,
}

/// A named animation clip of a library.
#[derive(Clone, Copy, Debug)]
pub struct ClipRef {
    pub library: CharacterLibrary,
    pub name: &'static str,
}

/// A ring of the two-dimensional locomotion blend: the clips played at one
/// speed, one per heading. Clip `i` plays at heading `i` eighths of a turn
/// clockwise from forward.
#[derive(Clone, Debug)]
pub struct LocomotionRing {
    /// The speed, in units per second, at which the ring's clips play.
    pub radius: u8,
    pub clips: Vec<ClipRef>,
}

/// A stop of the one-dimensional aim blend: the clip played at a blend time.
#[derive(Clone, Copy, Debug)]
pub struct AimStop {
    pub clip: ClipRef,
    pub time: i8,
}

/// The animations a layer's retarget group holds.
#[derive(Clone, Copy, PartialEq, Eq, Structural, Debug)]
pub enum AnimationAsset {
    LocomotionBlend,
    JumpStart,
    JumpLoop,
    JumpLand,
    AimBlend,
}

/// Whether an animation starts over when it reaches its end.
#[derive(Clone, Copy, PartialEq, Eq, Structural, Debug)]
pub enum RepeatMode {
    Never,
    Forever,
}

pub open spec fn clip(library: CharacterLibrary, name: &'static str) -> ClipRef {
    ClipRef { library, name }
}

/// The idle clip at the centre of the locomotion blend.
pub open spec fn idle_clip_spec() -> ClipRef {
    clip(CharacterLibrary::Ual1, "Idle_Loop")
}

/// The walking clips, by heading from forward, clockwise.
pub open spec fn walk_clip_table() -> Seq<ClipRef> {
    seq![
        clip(CharacterLibrary::Ual2, "Walk_Fwd_Loop"),
        clip(CharacterLibrary::Ual2, "Walk_Fwd_R_Loop"),
        clip(CharacterLibrary::Ual2, "Walk_R_Loop"),
        clip(CharacterLibrary::Ual2, "Walk_Bwd_R_Loop"),
        clip(CharacterLibrary::Ual2, "Walk_Bwd_Loop"),
        clip(CharacterLibrary::Ual2, "Walk_Bwd_L_Loop"),
        clip(CharacterLibrary::Ual2, "Walk_L_Loop"),
        clip(CharacterLibrary::Ual2, "Walk_Fwd_L"),
    ]
}

/// The jogging clips, by heading from forward, clockwise.
pub open spec fn jog_clip_table() -> Seq<ClipRef> {
    seq![
        clip(CharacterLibrary::Ual1, "Jog_Fwd_Loop"),
        clip(CharacterLibrary::Ual1, "Jog_Fwd_R_Loop"),
        clip(CharacterLibrary::Ual1, "Jog_Right_Loop"),
        clip(CharacterLibrary::Ual1, "Jog_Bwd_R_Loop"),
        clip(CharacterLibrary::Ual1, "Jog_Bwd_Loop"),
        clip(CharacterLibrary::Ual1, "Jog_Bwd_L_Loop"),
        clip(CharacterLibrary::Ual1, "Jog_Left_Loop"),
        clip(CharacterLibrary::Ual1, "Jog_Fwd_L_Loop"),
    ]
}

/// The jump clips: start, loop and landing.
pub open spec fn jump_clip_table() -> (ClipRef, ClipRef, ClipRef) {
    (
        clip(CharacterLibrary::Ual1, "Jump_Start"),
        clip(CharacterLibrary::Ual1, "Jump_Loop"),
        clip(CharacterLibrary::Ual1, "Jump_Land"),
    )
}

/// The stops of the aim blend: aiming down, level and up.
pub open spec fn aim_stop_table() -> Seq<AimStop> {
    seq![
        AimStop { clip: clip(CharacterLibrary::Ual1, "Pistol_Aim_Down"), time: -1i8 },
        AimStop { clip: clip(CharacterLibrary::Ual1, "Pistol_Aim_Neutral"), time: 0i8 },
        AimStop { clip: clip(CharacterLibrary::Ual1, "Pistol_Aim_Up"), time: 1i8 },
    ]
}

/// The retarget group of each layer: the animations it holds and how each
/// repeats. Layer 0 holds the locomotion blend and the jump clips, layer 1
/// the aim blend.
pub open spec fn retarget_group_table(layer: u32) -> Seq<(AnimationAsset, RepeatMode)> {
    if layer == LOCOMOTION_LAYER {
        seq![
            (AnimationAsset::LocomotionBlend, RepeatMode::Forever),
            (AnimationAsset::JumpStart, RepeatMode::Never),
            (AnimationAsset::JumpLoop, RepeatMode::Forever),
            (AnimationAsset::JumpLand, RepeatMode::Never),
        ]
    } else if layer == UPPER_BODY_LAYER {
        seq![(AnimationAsset::AimBlend, RepeatMode::Forever)]
    } else {
        Seq::empty()
    }
}

/// The speeds of the locomotion blend's rings: walking, then jogging.
pub open spec fn locomotion_ring_radii() -> Seq<u8> {
    seq![1u8, 2u8]
}

/// The asset a blend plays from.
pub open spec fn asset_of(blend: AnimationBlendChoice) -> AnimationAsset {
    match blend {
        AnimationBlendChoice::JumpStartClip => AnimationAsset::JumpStart,
        AnimationBlendChoice::JumpLoopClip => AnimationAsset::JumpLoop,
        AnimationBlendChoice::JumpLandClip => AnimationAsset::JumpLand,
        AnimationBlendChoice::LocomotionBlend2d { .. } => AnimationAsset::LocomotionBlend,
        AnimationBlendChoice::PistolAimBlend1d { .. } => AnimationAsset::AimBlend,
    }
}

/// The idle clip at the centre of the locomotion blend.
pub fn idle_clip() -> (r: ClipRef)
    ensures
        r == idle_clip_spec(),
{
    ClipRef { library: CharacterLibrary::Ual1, name: "Idle_Loop" }
}

/// The walking clips, one per eighth of a turn, clockwise from forward.
pub fn walk_clips() -> (r: Vec<ClipRef>)
    ensures
        r@ == walk_clip_table(),
{
    let r = vec![
        ClipRef { library: CharacterLibrary::Ual2, name: "Walk_Fwd_Loop" },
        ClipRef { library: CharacterLibrary::Ual2, name: "Walk_Fwd_R_Loop" },
        ClipRef { library: CharacterLibrary::Ual2, name: "Walk_R_Loop" },
        ClipRef { library: CharacterLibrary::Ual2, name: "Walk_Bwd_R_Loop" },
        ClipRef { library: CharacterLibrary::Ual2, name: "Walk_Bwd_Loop" },
        ClipRef { library: CharacterLibrary::Ual2, name: "Walk_Bwd_L_Loop" },
        ClipRef { library: CharacterLibrary::Ual2, name: "Walk_L_Loop" },
        ClipRef { library: CharacterLibrary::Ual2, name: "Walk_Fwd_L" },
    ];
    assert(r@ =~= walk_clip_table());
    r
}

/// The jogging clips, one per eighth of a turn, clockwise from forward.
pub fn jog_clips() -> (r: Vec<ClipRef>)
    ensures
        r@ == jog_clip_table(),
{
    let r = vec![
        ClipRef { library: CharacterLibrary::Ual1, name: "Jog_Fwd_Loop" },
        ClipRef { library: CharacterLibrary::Ual1, name: "Jog_Fwd_R_Loop" },
        ClipRef { library: CharacterLibrary::Ual1, name: "Jog_Right_Loop" },
        ClipRef { library: CharacterLibrary::Ual1, name: "Jog_Bwd_R_Loop" },
        ClipRef { library: CharacterLibrary::Ual1, name: "Jog_Bwd_Loop" },
        ClipRef { library: CharacterLibrary::Ual1, name: "Jog_Bwd_L_Loop" },
        ClipRef { library: CharacterLibrary::Ual1, name: "Jog_Left_Loop" },
        ClipRef { library: CharacterLibrary::Ual1, name: "Jog_Fwd_L_Loop" },
    ];
    assert(r@ =~= jog_clip_table());
    r
}

/// The jump clips: start, loop and landing.
pub fn jump_clips() -> (r: (ClipRef, ClipRef, ClipRef))
    ensures
        r == jump_clip_table(),
{
    (
        ClipRef { library: CharacterLibrary::Ual1, name: "Jump_Start" },
        ClipRef { library: CharacterLibrary::Ual1, name: "Jump_Loop" },
        ClipRef { library: CharacterLibrary::Ual1, name: "Jump_Land" },
    )
}

/// The stops of the aim blend, from aiming down at time -1 through level at
/// 0 to aiming up at 1.
pub fn aim_stops() -> (r: Vec<AimStop>)
    ensures
        r@ == aim_stop_table(),
{
    let r = vec![
        AimStop {
            clip: ClipRef { library: CharacterLibrary::Ual1, name: "Pistol_Aim_Down" },
            time: -1,
        },
        AimStop {
            clip: ClipRef { library: CharacterLibrary::Ual1, name: "Pistol_Aim_Neutral" },
            time: 0,
        },
        AimStop {
            clip: ClipRef { library: CharacterLibrary::Ual1, name: "Pistol_Aim_Up" },
            time: 1,
        },
    ];
    assert(r@ =~= aim_stop_table());
    r
}

/// The rings of the locomotion blend around the idle clip: walking at speed
/// 1, then jogging at speed 2.
pub fn locomotion_rings() -> (r: Vec<LocomotionRing>)
    ensures
        r@.len() == locomotion_ring_radii().len(),
        r@[0].radius == locomotion_ring_radii()[0],
        r@[0].clips@ == walk_clip_table(),
        r@[1].radius == locomotion_ring_radii()[1],
        r@[1].clips@ == jog_clip_table(),
{
    let mut r: Vec<LocomotionRing> = Vec::new();
    r.push(LocomotionRing { radius: 1, clips: walk_clips() });
    r.push(LocomotionRing { radius: 2, clips: jog_clips() });
    r
}

/// The animations of a layer's retarget group and how each repeats.
pub fn retarget_group(layer: u32) -> (r: Vec<(AnimationAsset, RepeatMode)>)
    ensures
        r@ == retarget_group_table(layer),
{
    if layer == LOCOMOTION_LAYER {
        let r = vec![
            (AnimationAsset::LocomotionBlend, RepeatMode::Forever),
            (AnimationAsset::JumpStart, RepeatMode::Never),
            (AnimationAsset::JumpLoop, RepeatMode::Forever),
            (AnimationAsset::JumpLand, RepeatMode::Never),
        ];
        assert(r@ =~= retarget_group_table(layer));
        r
    } else if layer == UPPER_BODY_LAYER {
        let r = vec![(AnimationAsset::AimBlend, RepeatMode::Forever)];
        assert(r@ =~= retarget_group_table(layer));
        r
    } else {
        let r: Vec<(AnimationAsset, RepeatMode)> = Vec::new();
        assert(r@ =~= retarget_group_table(layer));
        r
    }
}

/// Every blend the controller asks a layer to play comes from an animation
/// of that layer's retarget group, whatever the jump phase and motion.
pub proof fn lemma_layers_play_their_group(layer: u32, phase: JumpPhase, motion: GroundedMotion)
    requires
        layer < LAYER_COUNT,
    ensures
        ({
            let state = CharacterAnimState { locomotion: locomotion_state_for(phase, motion) };
            let played = animation_for_layer(layer, state).0;
            &&& played is Some
            &&& exists|i: int|
                0 <= i < retarget_group_table(layer).len() && #[trigger] retarget_group_table(
                    layer,
                )[i].0 == asset_of(played->0)
        }),
{
    let state = CharacterAnimState { locomotion: locomotion_state_for(phase, motion) };
    let group = retarget_group_table(layer);
    if layer == LOCOMOTION_LAYER {
        match phase {
            JumpPhase::Grounded => assert(group[0].0 == AnimationAsset::LocomotionBlend),
            JumpPhase::JumpStart => assert(group[1].0 == AnimationAsset::JumpStart),
            JumpPhase::JumpLoop => assert(group[2].0 == AnimationAsset::JumpLoop),
            JumpPhase::JumpLand => assert(group[3].0 == AnimationAsset::JumpLand),
        }
    } else {
        assert(group[0].0 == AnimationAsset::AimBlend);
    }
}

/// The rings of the locomotion blend sit at the speeds the player moves at:
/// the walking speed is the radius of the walking ring and the jogging speed
/// that of the jogging ring.
pub proof fn lemma_rings_match_movement_speeds(intent: MovementIntent)
    ensures
        target_speed_spec(intent) == locomotion_ring_radii()[if intent.jogging {
            1int
        } else {
            0int
        }],
{
}

} // verus!
