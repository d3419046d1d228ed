use animation_playground::animation::{
    animation_for_state, ActiveAnimation, AnimationBlendChoice, CharacterAnimState, GroundedMotion,
    JumpPhase, LocomotionController, LocomotionState, TransitionMode, UpperBodyState, LAYER_COUNT,
};

fn motion(speed: f32, angle: f32) -> GroundedMotion {
    GroundedMotion { speed_bits: speed.to_bits(), angle_bits: angle.to_bits() }
}

fn controller_in(phase: JumpPhase) -> LocomotionController {
    let mut c = LocomotionController::new();
    c.jump_phase = phase;
    c
}

#[test]
fn spawned_controller_rests_in_locomotion_blend() {
    let c = LocomotionController::new();
    assert_eq!(c.jump_phase, JumpPhase::Grounded);
    assert_eq!(c.upper_body, UpperBodyState::Unarmed);
    assert!(!c.initialized);
    assert_eq!(c.current_locomotion_state.transition_millis, 150);
    assert!(matches!(
        c.current_locomotion_state.active,
        ActiveAnimation::LocomotionBlend { speed_bits: 0, angle_bits: 0 }
    ));
    assert!(matches!(
        c.current_locomotion_state.blend,
        AnimationBlendChoice::LocomotionBlend2d { speed_bits: 0, angle_bits: 0 }
    ));
}

#[test]
fn grounded_state_samples_locomotion_blend() {
    let c = controller_in(JumpPhase::Grounded);
    let s = c.compute_new_animation_state(motion(1.5, 0.25));
    assert_eq!(s.locomotion.transition_millis, 250);
    match s.locomotion.active {
        ActiveAnimation::LocomotionBlend { speed_bits, angle_bits } => {
            assert_eq!(f32::from_bits(speed_bits), 1.5);
            assert_eq!(f32::from_bits(angle_bits), 0.25);
        }
        _ => panic!("expected the locomotion blend"),
    }
    match s.locomotion.blend {
        AnimationBlendChoice::LocomotionBlend2d { speed_bits, angle_bits } => {
            assert_eq!(f32::from_bits(speed_bits), 1.5);
            assert_eq!(f32::from_bits(angle_bits), 0.25);
        }
        _ => panic!("expected the locomotion blend"),
    }
}

#[test]
fn jump_phases_play_their_clips() {
    let s = controller_in(JumpPhase::JumpStart).compute_new_animation_state(motion(1.0, 0.0));
    assert!(matches!(s.locomotion.active, ActiveAnimation::JumpStart));
    assert!(matches!(s.locomotion.blend, AnimationBlendChoice::JumpStartClip));
    assert_eq!(s.locomotion.transition_millis, 80);

    let s = controller_in(JumpPhase::JumpLoop).compute_new_animation_state(motion(1.0, 0.0));
    assert!(matches!(s.locomotion.active, ActiveAnimation::JumpLoop));
    assert!(matches!(s.locomotion.blend, AnimationBlendChoice::JumpLoopClip));
    assert_eq!(s.locomotion.transition_millis, 50);

    let s = controller_in(JumpPhase::JumpLand).compute_new_animation_state(motion(1.0, 0.0));
    assert!(matches!(s.locomotion.active, ActiveAnimation::JumpLand));
    assert!(matches!(s.locomotion.blend, AnimationBlendChoice::JumpLandClip));
    assert_eq!(s.locomotion.transition_millis, 80);
}

#[test]
fn uninitialized_controller_restarts_every_layer() {
    let c = LocomotionController::new();
    let s = c.compute_new_animation_state(motion(0.0, 0.0));
    for layer in 0..4 {
        assert_eq!(c.compute_animation_action(layer, &s), TransitionMode::ChangeAndRestart);
    }
}

#[test]
fn applied_state_is_kept() {
    let mut c = LocomotionController::new();
    let s = c.compute_new_animation_state(motion(1.2, 3.0));
    c.set_current_animation_state(&s);
    assert!(c.initialized);
    assert_eq!(c.compute_animation_action(0, &s), TransitionMode::NoChange);
    assert_eq!(c.compute_animation_action(1, &s), TransitionMode::NoChange);
}

#[test]
fn changed_motion_restarts_locomotion_layer() {
    let mut c = LocomotionController::new();
    let s = c.compute_new_animation_state(motion(1.0, 0.5));
    c.set_current_animation_state(&s);
    let t = c.compute_new_animation_state(motion(1.01, 0.5));
    assert_eq!(c.compute_animation_action(0, &t), TransitionMode::ChangeAndRestart);
    assert_eq!(c.compute_animation_action(1, &t), TransitionMode::NoChange);
}

#[test]
fn signed_zeros_compare_equal() {
    let mut c = LocomotionController::new();
    let s = c.compute_new_animation_state(motion(0.0, 0.0));
    c.set_current_animation_state(&s);
    let t = c.compute_new_animation_state(motion(-0.0, -0.0));
    assert_eq!(c.compute_animation_action(0, &t), TransitionMode::NoChange);
}

#[test]
fn nan_motion_never_compares_equal() {
    let mut c = LocomotionController::new();
    let s = c.compute_new_animation_state(motion(f32::NAN, 0.0));
    c.set_current_animation_state(&s);
    assert_eq!(c.compute_animation_action(0, &s), TransitionMode::ChangeAndRestart);
}

#[test]
fn phase_change_restarts_locomotion_layer() {
    let mut c = LocomotionController::new();
    let s = c.compute_new_animation_state(motion(0.0, 0.0));
    c.set_current_animation_state(&s);
    c.jump_phase = JumpPhase::JumpStart;
    let t = c.compute_new_animation_state(motion(0.0, 0.0));
    assert_eq!(c.compute_animation_action(0, &t), TransitionMode::ChangeAndRestart);
}

#[test]
fn set_current_state_keeps_phase_and_upper_body() {
    let mut c = controller_in(JumpPhase::JumpLoop);
    c.upper_body = UpperBodyState::PistolAim;
    let s = c.compute_new_animation_state(motion(0.0, 0.0));
    c.set_current_animation_state(&s);
    assert_eq!(c.jump_phase, JumpPhase::JumpLoop);
    assert_eq!(c.upper_body, UpperBodyState::PistolAim);
    assert!(matches!(c.current_locomotion_state.active, ActiveAnimation::JumpLoop));
}

#[test]
fn layers_play_their_blends() {
    let state = CharacterAnimState {
        locomotion: LocomotionState {
            active: ActiveAnimation::JumpLand,
            blend: AnimationBlendChoice::JumpLandClip,
            transition_millis: 80,
        },
    };
    let (blend, millis) = animation_for_state(0, &state);
    assert!(matches!(blend, Some(AnimationBlendChoice::JumpLandClip)));
    assert_eq!(millis, 80);
    let (blend, millis) = animation_for_state(1, &state);
    match blend {
        Some(AnimationBlendChoice::PistolAimBlend1d { time_bits }) => {
            assert_eq!(f32::from_bits(time_bits), 0.0)
        }
        _ => panic!("expected the aim blend"),
    }
    assert_eq!(millis, 150);
    let (blend, millis) = animation_for_state(LAYER_COUNT, &state);
    assert!(blend.is_none());
    assert_eq!(millis, 0);
}

#[test]
fn active_animation_equality_follows_float_equality() {
    let a = ActiveAnimation::LocomotionBlend { speed_bits: 1.0f32.to_bits(), angle_bits: 0 };
    let b = ActiveAnimation::LocomotionBlend { speed_bits: 1.0f32.to_bits(), angle_bits: (-0.0f32).to_bits() };
    assert!(a == b);
    assert!(a != ActiveAnimation::JumpStart);
    assert!(ActiveAnimation::JumpLoop == ActiveAnimation::JumpLoop);
    assert!(ActiveAnimation::JumpLoop != ActiveAnimation::JumpLand);
}
