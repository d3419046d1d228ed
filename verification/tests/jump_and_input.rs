use animation_playground::animation::{JumpPhase, LocomotionController, UpperBodyState};
use animation_playground::control::{
    movement_intent, upper_body_target_weight, KeyState, MovementIntent, JUMP_LAND_MILLIS,
    JUMP_LOOP_MILLIS, JUMP_START_MILLIS,
};
use animation_playground::float_bits::f32_bits_eq;

fn no_keys() -> KeyState {
    KeyState {
        key_w: false,
        arrow_up: false,
        key_s: false,
        arrow_down: false,
        key_a: false,
        arrow_left: false,
        key_d: false,
        arrow_right: false,
        shift_left: false,
        shift_right: false,
        key_e: false,
        mouse_right: false,
        space_just_pressed: false,
    }
}

#[test]
fn direction_keys_give_unit_axes() {
    let mut k = no_keys();
    k.key_w = true;
    k.key_d = true;
    assert_eq!(movement_intent(&k), MovementIntent { x: 1, y: 1, jogging: false });
    let mut k = no_keys();
    k.arrow_down = true;
    k.arrow_left = true;
    k.shift_right = true;
    assert_eq!(movement_intent(&k), MovementIntent { x: -1, y: -1, jogging: true });
}

#[test]
fn opposite_keys_cancel() {
    let mut k = no_keys();
    k.key_w = true;
    k.arrow_down = true;
    k.key_a = true;
    k.arrow_right = true;
    assert_eq!(movement_intent(&k), MovementIntent { x: 0, y: 0, jogging: false });
    let mut k = no_keys();
    k.key_w = true;
    k.arrow_up = true;
    assert_eq!(movement_intent(&k).y, 1);
}

#[test]
fn jogging_doubles_target_speed() {
    assert_eq!(MovementIntent { x: 1, y: 0, jogging: false }.target_speed(), 1);
    assert_eq!(MovementIntent { x: 1, y: 0, jogging: true }.target_speed(), 2);
}

#[test]
fn aim_keys_raise_the_upper_body() {
    let mut c = LocomotionController::new();
    let mut k = no_keys();
    k.mouse_right = true;
    assert_eq!(c.apply_input(&k), None);
    assert_eq!(c.upper_body, UpperBodyState::PistolAim);
    let mut k = no_keys();
    k.key_e = true;
    c.apply_input(&k);
    assert_eq!(c.upper_body, UpperBodyState::PistolAim);
    c.apply_input(&no_keys());
    assert_eq!(c.upper_body, UpperBodyState::Unarmed);
}

#[test]
fn upper_body_target_weights() {
    assert_eq!(upper_body_target_weight(UpperBodyState::PistolAim), 1);
    assert_eq!(upper_body_target_weight(UpperBodyState::Unarmed), 0);
}

#[test]
fn jump_key_starts_jump_from_ground() {
    let mut c = LocomotionController::new();
    let mut k = no_keys();
    k.space_just_pressed = true;
    assert_eq!(c.apply_input(&k), Some(JUMP_START_MILLIS));
    assert_eq!(c.jump_phase, JumpPhase::JumpStart);
    assert_eq!(JUMP_START_MILLIS, 800);
}

#[test]
fn jump_key_does_not_interrupt_a_jump() {
    let mut k = no_keys();
    k.space_just_pressed = true;
    for phase in [JumpPhase::JumpStart, JumpPhase::JumpLoop, JumpPhase::JumpLand] {
        let mut c = LocomotionController::new();
        c.jump_phase = phase;
        assert_eq!(c.apply_input(&k), None);
        assert_eq!(c.jump_phase, phase);
    }
}

#[test]
fn jump_cycle_returns_to_ground() {
    let mut c = LocomotionController::new();
    c.jump_phase = JumpPhase::JumpStart;
    assert_eq!(c.advance_jump_phase(), Some(JUMP_LOOP_MILLIS));
    assert_eq!(c.jump_phase, JumpPhase::JumpLoop);
    assert_eq!(c.advance_jump_phase(), Some(JUMP_LAND_MILLIS));
    assert_eq!(c.jump_phase, JumpPhase::JumpLand);
    assert_eq!(c.advance_jump_phase(), None);
    assert_eq!(c.jump_phase, JumpPhase::Grounded);
    assert_eq!(c.advance_jump_phase(), None);
    assert_eq!(c.jump_phase, JumpPhase::Grounded);
    assert_eq!((JUMP_LOOP_MILLIS, JUMP_LAND_MILLIS), (100, 600));
}

#[test]
fn timer_milliseconds_give_the_same_seconds() {
    assert_eq!(JUMP_START_MILLIS as f32 / 1000.0, 0.8f32);
    assert_eq!(JUMP_LOOP_MILLIS as f32 / 1000.0, 0.1f32);
    assert_eq!(JUMP_LAND_MILLIS as f32 / 1000.0, 0.6f32);
}

#[test]
fn bit_pattern_equality_matches_f32() {
    let samples = [0.0f32, -0.0, 1.0, -1.0, 0.5, f32::INFINITY, f32::NEG_INFINITY, f32::NAN, 1e-40];
    for a in samples {
        for b in samples {
            assert_eq!(f32_bits_eq(a.to_bits(), b.to_bits()), a == b, "{a} {b}");
        }
    }
    assert!(!f32_bits_eq(0x7fc0_0001, 0x7fc0_0001));
}
