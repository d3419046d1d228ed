//! The locomotion controller: which animation each layer plays for the
//! character's current jump phase and motion, and when a layer has to be
//! restarted.
//!
//! Layer 0 plays the whole-body locomotion blend or one of the jump clips;
//! layer 1 plays the upper-body pistol aim blend, whose visibility is
//! governed by a blend weight elsewhere.

use vstd::prelude::*;
use crate::float_bits::{f32_bits_eq, f32_bits_eq_spec, is_nan_bits};

verus! {

/// Number of animation layers the controller drives.
pub const LAYER_COUNT: u32 = 2;

/// The whole-body layer: locomotion blend and jump clips.
pub const LOCOMOTION_LAYER: u32 = 0;

/// The upper-body layer: pistol aim blend.
pub const UPPER_BODY_LAYER: u32 = 1;

/// Cross-fade time into the jump start clip, in milliseconds.
pub const JUMP_START_TRANSITION_MILLIS: u64 = 80;

/// Cross-fade time into the jump loop clip, in milliseconds.
pub const JUMP_LOOP_TRANSITION_MILLIS: u64 = 50;

/// Cross-fade time into the jump landing clip, in milliseconds.
pub const JUMP_LAND_TRANSITION_MILLIS: u64 = 80;

/// Cross-fade time into the grounded locomotion blend, in milliseconds.
pub const LOCOMOTION_TRANSITION_MILLIS: u64 = 250;

/// Cross-fade time of the upper-body aim blend, and of the state the
/// character is spawned with, in milliseconds.
pub const UPPER_BODY_TRANSITION_MILLIS: u64 = 150;

/// Phase of the jump cycle.
#[derive(Clone, Copy, PartialEq, Eq, Structural, Debug)]
pub enum JumpPhase {
    Grounded,
    JumpStart,
    JumpLoop,
    JumpLand,
}

impl Default for JumpPhase {
    fn default() -> (r: Self)
        ensures
            r == JumpPhase::Grounded,
    {
        JumpPhase::Grounded
    }
}

/// Whether the upper-body layer should be blended in.
///
/// This is only a *desired* state: the blend weight of the upper-body node is
/// ramped toward it over time.
#[derive(Clone, Copy, PartialEq, Eq, Structural, Debug)]
pub enum UpperBodyState {
    Unarmed,
    PistolAim,
}

impl Default for UpperBodyState {
    fn default() -> (r: Self)
        ensures
            r == UpperBodyState::Unarmed,
    {
        UpperBodyState::Unarmed
    }
}

/// Speed and heading of the grounded character, each an `f32` carried as its
/// bit pattern. The speed is the length of the velocity, the heading its
/// angle in `[0, 2π]` measured clockwise from forward (rounding can turn a
/// heading just short of a full turn into exactly 2π).
#[derive(Clone, Copy, Debug)]
pub struct GroundedMotion {
    pub speed_bits: u32,
    pub angle_bits: u32,
}

/// What layer 0 is playing. The blend sample of the locomotion blend is kept
/// as `f32` bit patterns.
#[derive(Clone, Copy, Debug)]
pub enum ActiveAnimation {
    LocomotionBlend { speed_bits: u32, angle_bits: u32 },
    JumpStart,
    JumpLoop,
    JumpLand,
}

/// Equality of active animations as `f32` fields compare: two locomotion
/// blends are equal when their speeds and their angles are equal as `f32`.
pub open spec fn active_animation_eq(a: ActiveAnimation, b: ActiveAnimation) -> bool {
    match (a, b) {
        (
            ActiveAnimation::LocomotionBlend { speed_bits: s1, angle_bits: a1 },
            ActiveAnimation::LocomotionBlend { speed_bits: s2, angle_bits: a2 },
        ) => f32_bits_eq_spec(s1, s2) && f32_bits_eq_spec(a1, a2),
        (ActiveAnimation::JumpStart, ActiveAnimation::JumpStart) => true,
        (ActiveAnimation::JumpLoop, ActiveAnimation::JumpLoop) => true,
        (ActiveAnimation::JumpLand, ActiveAnimation::JumpLand) => true,
        _ => false,
    }
}

impl PartialEq for ActiveAnimation {
    fn eq(&self, other: &Self) -> (r: bool) {
        match (self, other) {
            (
                ActiveAnimation::LocomotionBlend { speed_bits: s1, angle_bits: a1 },
                ActiveAnimation::LocomotionBlend { speed_bits: s2, angle_bits: a2 },
            ) => f32_bits_eq(*s1, *s2) && f32_bits_eq(*a1, *a2),
            (ActiveAnimation::JumpStart, ActiveAnimation::JumpStart) => true,
            (ActiveAnimation::JumpLoop, ActiveAnimation::JumpLoop) => true,
            (ActiveAnimation::JumpLand, ActiveAnimation::JumpLand) => true,
            _ => false,
        }
    }
}

impl vstd::std_specs::cmp::PartialEqSpecImpl for ActiveAnimation {
    open spec fn obeys_eq_spec() -> bool {
        true
    }

    open spec fn eq_spec(&self, other: &ActiveAnimation) -> bool {
        active_animation_eq(*self, *other)
    }
}

/// The blend an animation layer is asked to play.
#[derive(Clone, Copy, Debug)]
pub enum AnimationBlendChoice {
    /// The jump start clip on its own.
    JumpStartClip,
    /// The jump loop clip on its own.
    JumpLoopClip,
    /// The jump landing clip on its own.
    JumpLandClip,
    /// The two-dimensional locomotion blend sampled at (speed, angle), both
    /// `f32` bit patterns.
    LocomotionBlend2d { speed_bits: u32, angle_bits: u32 },
    /// The one-dimensional pistol aim blend sampled at an `f32` time given by
    /// its bit pattern.
    PistolAimBlend1d { time_bits: u32 },
}

/// What layer 0 plays: the active animation, the blend that realises it and
/// the cross-fade time into it.
#[derive(Clone, Copy, Debug)]
pub struct LocomotionState {
    pub active: ActiveAnimation,
    pub blend: AnimationBlendChoice,
    pub transition_millis: u64,
}

/// The animation state the controller asks for.
#[derive(Clone, Copy, Debug)]
pub struct CharacterAnimState {
    pub locomotion: LocomotionState,
}

/// How an animation layer moves to a newly computed state.
#[derive(Clone, Copy, PartialEq, Eq, Structural, Debug)]
pub enum TransitionMode {
    /// Switch to the new blend and play it from the start.
    ChangeAndRestart,
    /// Keep what is playing.
    NoChange,
}

/// The discrete part of the character controller: its jump phase, the
/// desired upper-body state, the layer-0 state last applied, and whether any
/// state has been applied yet.
#[derive(Clone, Copy, Debug)]
pub struct LocomotionController {
    pub jump_phase: JumpPhase,
    pub upper_body: UpperBodyState,
    pub current_locomotion_state: LocomotionState,
    pub initialized: bool,
}

/// Layer-0 state for a jump phase and the grounded motion.
pub open spec fn locomotion_state_for(phase: JumpPhase, motion: GroundedMotion) -> LocomotionState {
    match phase {
        JumpPhase::JumpStart => LocomotionState {
            active: ActiveAnimation::JumpStart,
            blend: AnimationBlendChoice::JumpStartClip,
            transition_millis: JUMP_START_TRANSITION_MILLIS,
        },
        JumpPhase::JumpLoop => LocomotionState {
            active: ActiveAnimation::JumpLoop,
            blend: AnimationBlendChoice::JumpLoopClip,
            transition_millis: JUMP_LOOP_TRANSITION_MILLIS,
        },
        JumpPhase::JumpLand => LocomotionState {
            active: ActiveAnimation::JumpLand,
            blend: AnimationBlendChoice::JumpLandClip,
            transition_millis: JUMP_LAND_TRANSITION_MILLIS,
        },
        JumpPhase::Grounded => LocomotionState {
            active: ActiveAnimation::LocomotionBlend {
                speed_bits: motion.speed_bits,
                angle_bits: motion.angle_bits,
            },
            blend: AnimationBlendChoice::LocomotionBlend2d {
                speed_bits: motion.speed_bits,
                angle_bits: motion.angle_bits,
            },
            transition_millis: LOCOMOTION_TRANSITION_MILLIS,
        },
    }
}

/// How a layer moves from what the controller last applied to `new_state`.
pub open spec fn transition_mode_for(
    controller: LocomotionController,
    layer: u32,
    new_state: CharacterAnimState,
) -> TransitionMode {
    if !controller.initialized {
        TransitionMode::ChangeAndRestart
    } else if layer == LOCOMOTION_LAYER && !active_animation_eq(
        new_state.locomotion.active,
        controller.current_locomotion_state.active,
    ) {
        TransitionMode::ChangeAndRestart
    } else {
        TransitionMode::NoChange
    }
}

/// The blend and cross-fade time a layer plays for a state; layers past the
/// upper-body layer play nothing.
pub open spec fn animation_for_layer(layer: u32, state: CharacterAnimState) -> (
    Option<AnimationBlendChoice>,
    u64,
) {
    if layer == LOCOMOTION_LAYER {
        (Some(state.locomotion.blend), state.locomotion.transition_millis)
    } else if layer == UPPER_BODY_LAYER {
        (Some(AnimationBlendChoice::PistolAimBlend1d { time_bits: 0 }), UPPER_BODY_TRANSITION_MILLIS)
    } else {
        (None, 0)
    }
}

/// The layer-0 state a character is spawned with: the locomotion blend at
/// rest.
pub open spec fn spawn_locomotion_state() -> LocomotionState {
    LocomotionState {
        active: ActiveAnimation::LocomotionBlend { speed_bits: 0, angle_bits: 0 },
        blend: AnimationBlendChoice::LocomotionBlend2d { speed_bits: 0, angle_bits: 0 },
        transition_millis: UPPER_BODY_TRANSITION_MILLIS,
    }
}

impl LocomotionController {
    /// The controller of a freshly spawned character: grounded, unarmed,
    /// resting in the locomotion blend, with no state applied yet.
    pub fn new() -> (r: Self)
        ensures
            r.jump_phase == JumpPhase::Grounded,
            r.upper_body == UpperBodyState::Unarmed,
            r.current_locomotion_state == spawn_locomotion_state(),
            r.current_locomotion_state.active == (ActiveAnimation::LocomotionBlend {
                speed_bits: 0,
                angle_bits: 0,
            }),
            r.current_locomotion_state.blend == (AnimationBlendChoice::LocomotionBlend2d {
                speed_bits: 0,
                angle_bits: 0,
            }),
            r.current_locomotion_state.transition_millis == 150,
            !r.initialized,
    {
        LocomotionController {
            jump_phase: JumpPhase::Grounded,
            upper_body: UpperBodyState::Unarmed,
            current_locomotion_state: LocomotionState {
                active: ActiveAnimation::LocomotionBlend { speed_bits: 0, angle_bits: 0 },
                blend: AnimationBlendChoice::LocomotionBlend2d { speed_bits: 0, angle_bits: 0 },
                transition_millis: UPPER_BODY_TRANSITION_MILLIS,
            },
            initialized: false,
        }
    }

    /// The animation state for the current jump phase. While grounded, layer 0
    /// plays the locomotion blend sampled at the character's speed and
    /// heading; during a jump it plays the clip of the phase.
    pub fn compute_new_animation_state(&self, motion: GroundedMotion) -> (r: CharacterAnimState)
        ensures
            r.locomotion == locomotion_state_for(self.jump_phase, motion),
            self.jump_phase == JumpPhase::Grounded ==> {
                &&& r.locomotion.active == (ActiveAnimation::LocomotionBlend {
                    speed_bits: motion.speed_bits,
                    angle_bits: motion.angle_bits,
                })
                &&& r.locomotion.blend == (AnimationBlendChoice::LocomotionBlend2d {
                    speed_bits: motion.speed_bits,
                    angle_bits: motion.angle_bits,
                })
                &&& r.locomotion.transition_millis == 250
            },
            self.jump_phase == JumpPhase::JumpStart ==> {
                &&& r.locomotion.active is JumpStart
                &&& r.locomotion.blend is JumpStartClip
                &&& r.locomotion.transition_millis == 80
            },
            self.jump_phase == JumpPhase::JumpLoop ==> {
                &&& r.locomotion.active is JumpLoop
                &&& r.locomotion.blend is JumpLoopClip
                &&& r.locomotion.transition_millis == 50
            },
            self.jump_phase == JumpPhase::JumpLand ==> {
                &&& r.locomotion.active is JumpLand
                &&& r.locomotion.blend is JumpLandClip
                &&& r.locomotion.transition_millis == 80
            },
    {
        let locomotion = match self.jump_phase {
            JumpPhase::JumpStart => LocomotionState {
                active: ActiveAnimation::JumpStart,
                blend: AnimationBlendChoice::JumpStartClip,
                transition_millis: JUMP_START_TRANSITION_MILLIS,
            },
            JumpPhase::JumpLoop => LocomotionState {
                active: ActiveAnimation::JumpLoop,
                blend: AnimationBlendChoice::JumpLoopClip,
                transition_millis: JUMP_LOOP_TRANSITION_MILLIS,
            },
            JumpPhase::JumpLand => LocomotionState {
                active: ActiveAnimation::JumpLand,
                blend: AnimationBlendChoice::JumpLandClip,
                transition_millis: JUMP_LAND_TRANSITION_MILLIS,
            },
            JumpPhase::Grounded => LocomotionState {
                active: ActiveAnimation::LocomotionBlend {
                    speed_bits: motion.speed_bits,
                    angle_bits: motion.angle_bits,
                },
                blend: AnimationBlendChoice::LocomotionBlend2d {
                    speed_bits: motion.speed_bits,
                    angle_bits: motion.angle_bits,
                },
                transition_millis: LOCOMOTION_TRANSITION_MILLIS,
            },
        };
        CharacterAnimState { locomotion }
    }

    /// How `layer` moves to `new_state`. Before any state has been applied
    /// every layer restarts. Afterwards layer 0 restarts exactly when the
    /// active animation differs from the one last applied, and every other
    /// layer keeps playing: the upper-body layer always keeps its aim blend,
    /// whose visibility is a matter of blend weight.
    pub fn compute_animation_action(&self, layer: u32, new_state: &CharacterAnimState) -> (r:
        TransitionMode)
        ensures
            r == transition_mode_for(*self, layer, *new_state),
            !self.initialized ==> r == TransitionMode::ChangeAndRestart,
            self.initialized && layer != 0 ==> r == TransitionMode::NoChange,
            self.initialized && layer == 0 ==> match (
                new_state.locomotion.active,
                self.current_locomotion_state.active,
            ) {
                (
                    ActiveAnimation::LocomotionBlend { speed_bits: s1, angle_bits: a1 },
                    ActiveAnimation::LocomotionBlend { speed_bits: s2, angle_bits: a2 },
                ) => (r == TransitionMode::NoChange) == (f32_bits_eq_spec(s1, s2)
                    && f32_bits_eq_spec(a1, a2)),
                (ActiveAnimation::JumpStart, ActiveAnimation::JumpStart) => r
                    == TransitionMode::NoChange,
                (ActiveAnimation::JumpLoop, ActiveAnimation::JumpLoop) => r
                    == TransitionMode::NoChange,
                (ActiveAnimation::JumpLand, ActiveAnimation::JumpLand) => r
                    == TransitionMode::NoChange,
                _ => r == TransitionMode::ChangeAndRestart,
            },
    {
        if !self.initialized {
            return TransitionMode::ChangeAndRestart;
        }
        if layer == LOCOMOTION_LAYER {
            if new_state.locomotion.active != self.current_locomotion_state.active {
                TransitionMode::ChangeAndRestart
            } else {
                TransitionMode::NoChange
            }
        } else {
            TransitionMode::NoChange
        }
    }

    /// Records `new_state` as the state applied to the layers.
    pub fn set_current_animation_state(&mut self, new_state: &CharacterAnimState)
        ensures
            final(self).current_locomotion_state == new_state.locomotion,
            final(self).initialized,
            final(self).jump_phase == old(self).jump_phase,
            final(self).upper_body == old(self).upper_body,
    {
        self.current_locomotion_state = new_state.locomotion;
        self.initialized = true;
    }
}

/// The blend and cross-fade time, in milliseconds, that `layer` plays for
/// `state`: layer 0 the state's own blend, layer 1 the pistol aim blend at
/// time zero over 150 ms, and any other layer nothing.
pub fn animation_for_state(layer: u32, state: &CharacterAnimState) -> (r: (
    Option<AnimationBlendChoice>,
    u64,
))
    ensures
        r == animation_for_layer(layer, *state),
        layer == 0 ==> r == (Some(state.locomotion.blend), state.locomotion.transition_millis),
        layer == 1 ==> r == (Some(AnimationBlendChoice::PistolAimBlend1d { time_bits: 0 }), 150u64),
        layer >= 2 ==> r == (None::<AnimationBlendChoice>, 0u64),
{
    if layer == LOCOMOTION_LAYER {
        (Some(state.locomotion.blend), state.locomotion.transition_millis)
    } else if layer == UPPER_BODY_LAYER {
        (Some(AnimationBlendChoice::PistolAimBlend1d { time_bits: 0 }), UPPER_BODY_TRANSITION_MILLIS)
    } else {
        (None, 0)
    }
}

/// The speed and heading of a locomotion blend are numbers, not NaN.
pub open spec fn active_is_comparable(active: ActiveAnimation) -> bool {
    match active {
        ActiveAnimation::LocomotionBlend { speed_bits, angle_bits } => !is_nan_bits(speed_bits)
            && !is_nan_bits(angle_bits),
        _ => true,
    }
}

/// The blend that plays an active animation: its own jump clip, or the
/// locomotion blend sampled at its speed and heading.
pub open spec fn blend_realises(active: ActiveAnimation, blend: AnimationBlendChoice) -> bool {
    match (active, blend) {
        (ActiveAnimation::JumpStart, AnimationBlendChoice::JumpStartClip) => true,
        (ActiveAnimation::JumpLoop, AnimationBlendChoice::JumpLoopClip) => true,
        (ActiveAnimation::JumpLand, AnimationBlendChoice::JumpLandClip) => true,
        (
            ActiveAnimation::LocomotionBlend { speed_bits: s1, angle_bits: a1 },
            AnimationBlendChoice::LocomotionBlend2d { speed_bits: s2, angle_bits: a2 },
        ) => s1 == s2 && a1 == a2,
        _ => false,
    }
}

/// The state computed for any jump phase plays a blend that realises its
/// active animation, and so does the state a character is spawned with.
pub proof fn lemma_state_blend_realises_active(phase: JumpPhase, motion: GroundedMotion)
    ensures
        blend_realises(
            locomotion_state_for(phase, motion).active,
            locomotion_state_for(phase, motion).blend,
        ),
        blend_realises(spawn_locomotion_state().active, spawn_locomotion_state().blend),
{
}

/// Once a state has been applied, asking for the same state again changes
/// no layer, provided its speed and heading are numbers.
pub proof fn lemma_applied_state_is_kept(
    controller: LocomotionController,
    state: CharacterAnimState,
    layer: u32,
)
    requires
        active_is_comparable(state.locomotion.active),
    ensures
        transition_mode_for(
            LocomotionController {
                current_locomotion_state: state.locomotion,
                initialized: true,
                ..controller
            },
            layer,
            state,
        ) == TransitionMode::NoChange,
{
}

/// Once a state has been applied, a state computed for a different jump
/// phase restarts layer 0, whatever the motion.
pub proof fn lemma_phase_change_restarts(
    controller: LocomotionController,
    applied_phase: JumpPhase,
    applied_motion: GroundedMotion,
    phase: JumpPhase,
    motion: GroundedMotion,
)
    requires
        applied_phase != phase,
        controller.initialized,
        controller.current_locomotion_state == locomotion_state_for(applied_phase, applied_motion),
    ensures
        transition_mode_for(
            controller,
            LOCOMOTION_LAYER,
            CharacterAnimState { locomotion: locomotion_state_for(phase, motion) },
        ) == TransitionMode::ChangeAndRestart,
{
}

/// Before any state is applied every layer restarts; afterwards only layer 0
/// ever restarts.
pub proof fn lemma_only_locomotion_layer_restarts(
    controller: LocomotionController,
    layer: u32,
    state: CharacterAnimState,
)
    ensures
        !controller.initialized ==> transition_mode_for(controller, layer, state)
            == TransitionMode::ChangeAndRestart,
        controller.initialized && layer != LOCOMOTION_LAYER ==> transition_mode_for(
            controller,
            layer,
            state,
        ) == TransitionMode::NoChange,
{
}

/// Layers past the ones the controller drives play nothing.
pub proof fn lemma_layers_past_count_play_nothing(layer: u32, state: CharacterAnimState)
    requires
        layer >= LAYER_COUNT,
    ensures
        animation_for_layer(layer, state) == (None::<AnimationBlendChoice>, 0u64),
{
}

/// Once a state is applied, layer 0 keeps playing a grounded blend exactly
/// when the new speed and heading both equal, as `f32`, the applied ones: a
/// turn at constant speed, or a change of speed at constant heading,
/// restarts it.
pub proof fn lemma_locomotion_layer_follows_motion(
    controller: LocomotionController,
    speed: u32,
    angle: u32,
    new_speed: u32,
    new_angle: u32,
)
    requires
        controller.initialized,
        controller.current_locomotion_state.active == (ActiveAnimation::LocomotionBlend {
            speed_bits: speed,
            angle_bits: angle,
        }),
    ensures
        ({
            let new_state = CharacterAnimState {
                locomotion: locomotion_state_for(
                    JumpPhase::Grounded,
                    GroundedMotion { speed_bits: new_speed, angle_bits: new_angle },
                ),
            };
            (transition_mode_for(controller, LOCOMOTION_LAYER, new_state)
                == TransitionMode::NoChange) == (f32_bits_eq_spec(new_speed, speed)
                && f32_bits_eq_spec(new_angle, angle))
        }),
{
}

/// While grounded, the state carries the motion unchanged: its active
/// animation and its blend sample the given speed and heading, so two
/// motions give the same state only if they are the same motion.
pub proof fn lemma_grounded_state_carries_motion(m1: GroundedMotion, m2: GroundedMotion)
    ensures
        locomotion_state_for(JumpPhase::Grounded, m1).active == (ActiveAnimation::LocomotionBlend {
            speed_bits: m1.speed_bits,
            angle_bits: m1.angle_bits,
        }),
        locomotion_state_for(JumpPhase::Grounded, m1).blend == (
        AnimationBlendChoice::LocomotionBlend2d {
            speed_bits: m1.speed_bits,
            angle_bits: m1.angle_bits,
        }),
        locomotion_state_for(JumpPhase::Grounded, m1) == locomotion_state_for(
            JumpPhase::Grounded,
            m2,
        ) ==> m1.speed_bits == m2.speed_bits && m1.angle_bits == m2.angle_bits,
{
}

/// Layer 0 plays exactly the state's own blend with the state's own
/// cross-fade time, whatever the state.
pub proof fn lemma_locomotion_layer_plays_state_blend(state: CharacterAnimState)
    ensures
        animation_for_layer(LOCOMOTION_LAYER, state).0 == Some(state.locomotion.blend),
        animation_for_layer(LOCOMOTION_LAYER, state).1 == state.locomotion.transition_millis,
{
}

} // verus!
