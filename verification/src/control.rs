//! Player input and the jump cycle.
//!
//! A jump runs Grounded → JumpStart → JumpLoop → JumpLand → Grounded. It is
//! started by the jump key while grounded; each airborne phase lasts for a
//! timer, and when that timer finishes the next phase begins.

use vstd::prelude::*;
use crate::animation::{JumpPhase, LocomotionController, UpperBodyState};

verus! {

/// Duration of the jump start phase, in milliseconds.
pub const JUMP_START_MILLIS: u64 = 800;

/// Duration of the jump loop phase (the time until landing), in milliseconds.
pub const JUMP_LOOP_MILLIS: u64 = 100;

/// Duration of the landing phase, in milliseconds.
pub const JUMP_LAND_MILLIS: u64 = 600;

/// Keys and buttons that steer the character, as read for one frame.
#[derive(Clone, Copy, Debug)]
pub struct KeyState {
    pub key_w: bool,
    pub arrow_up: bool,
    pub key_s: bool,
    pub arrow_down: bool,
    pub key_a: bool,
    pub arrow_left: bool,
    pub key_d: bool,
    pub arrow_right: bool,
    pub shift_left: bool,
    pub shift_right: bool,
    /// The aim key `E` is held.
    pub key_e: bool,
    /// The right mouse button is held.
    pub mouse_right: bool,
    /// The jump key (space) went down this frame.
    pub space_just_pressed: bool,
}

/// The direction the player asks to move in, one unit per axis (x to the
/// right, y forward), and whether to jog rather than walk.
#[derive(Clone, Copy, PartialEq, Eq, Structural, Debug)]
pub struct MovementIntent {
    pub x: i8,
    pub y: i8,
    pub jogging: bool,
}

/// One unit toward the positive key minus one unit toward the negative key.
pub open spec fn axis_value(positive: bool, negative: bool) -> int {
    (if positive { 1int } else { 0int }) - (if negative { 1int } else { 0int })
}

pub open spec fn forward_held(keys: KeyState) -> bool {
    keys.key_w || keys.arrow_up
}

pub open spec fn backward_held(keys: KeyState) -> bool {
    keys.key_s || keys.arrow_down
}

pub open spec fn left_held(keys: KeyState) -> bool {
    keys.key_a || keys.arrow_left
}

pub open spec fn right_held(keys: KeyState) -> bool {
    keys.key_d || keys.arrow_right
}

pub open spec fn jog_held(keys: KeyState) -> bool {
    keys.shift_left || keys.shift_right
}

/// The player holds the right mouse button or `E` to aim.
pub open spec fn aim_held(keys: KeyState) -> bool {
    keys.mouse_right || keys.key_e
}

/// How long the timer runs once `phase` has begun, in milliseconds; the
/// grounded phase has no timer.
pub open spec fn phase_timer_millis(phase: JumpPhase) -> Option<u64> {
    match phase {
        JumpPhase::Grounded => None,
        JumpPhase::JumpStart => Some(JUMP_START_MILLIS),
        JumpPhase::JumpLoop => Some(JUMP_LOOP_MILLIS),
        JumpPhase::JumpLand => Some(JUMP_LAND_MILLIS),
    }
}

/// The phase after a frame of input: the jump key starts a jump from the
/// ground, and changes nothing otherwise.
pub open spec fn phase_after_input(phase: JumpPhase, keys: KeyState) -> JumpPhase {
    if keys.space_just_pressed && phase == JumpPhase::Grounded {
        JumpPhase::JumpStart
    } else {
        phase
    }
}

/// The phase that follows `phase` when its timer finishes. A grounded
/// character has no running timer and stays grounded.
pub open spec fn next_jump_phase(phase: JumpPhase) -> JumpPhase {
    match phase {
        JumpPhase::Grounded => JumpPhase::Grounded,
        JumpPhase::JumpStart => JumpPhase::JumpLoop,
        JumpPhase::JumpLoop => JumpPhase::JumpLand,
        JumpPhase::JumpLand => JumpPhase::Grounded,
    }
}

/// The movement the keys ask for: the held direction keys, opposite keys
/// cancelling, and jogging while either shift key is held.
pub fn movement_intent(keys: &KeyState) -> (r: MovementIntent)
    ensures
        r.x == axis_value(right_held(*keys), left_held(*keys)),
        r.y == axis_value(forward_held(*keys), backward_held(*keys)),
        r.jogging == jog_held(*keys),
        r.y == (if keys.key_w || keys.arrow_up { 1int } else { 0int }) - (if keys.key_s
            || keys.arrow_down {
            1int
        } else {
            0int
        }),
        r.x == (if keys.key_d || keys.arrow_right { 1int } else { 0int }) - (if keys.key_a
            || keys.arrow_left {
            1int
        } else {
            0int
        }),
        r.jogging == (keys.shift_left || keys.shift_right),
{
    let mut x: i8 = 0;
    let mut y: i8 = 0;
    if keys.key_w || keys.arrow_up {
        y = y + 1;
    }
    if keys.key_s || keys.arrow_down {
        y = y - 1;
    }
    if keys.key_a || keys.arrow_left {
        x = x - 1;
    }
    if keys.key_d || keys.arrow_right {
        x = x + 1;
    }
    MovementIntent { x, y, jogging: keys.shift_left || keys.shift_right }
}

/// Target speed, in units per second, toward the asked direction.
pub open spec fn target_speed_spec(intent: MovementIntent) -> u8 {
    if intent.jogging {
        2
    } else {
        1
    }
}

impl MovementIntent {
    /// Target speed, in units per second, toward the asked direction:
    /// 2 when jogging, 1 when walking.
    pub fn target_speed(&self) -> (r: u8)
        ensures
            r == target_speed_spec(*self),
            self.jogging ==> r == 2,
            !self.jogging ==> r == 1,
    {
        if self.jogging {
            2
        } else {
            1
        }
    }
}

/// The blend weight the upper-body layer ramps toward: 1 while aiming,
/// 0 otherwise.
pub fn upper_body_target_weight(state: UpperBodyState) -> (r: u8)
    ensures
        r == (if state == UpperBodyState::PistolAim { 1u8 } else { 0u8 }),
{
    match state {
        UpperBodyState::PistolAim => 1,
        UpperBodyState::Unarmed => 0,
    }
}

impl LocomotionController {
    /// Applies one frame of input to the discrete state: the upper body aims
    /// while an aim key is held, and the jump key starts a jump when the
    /// character is grounded. Returns the duration, in milliseconds, of the
    /// timer to start for the new phase when a jump begins.
    pub fn apply_input(&mut self, keys: &KeyState) -> (r: Option<u64>)
        ensures
            final(self).upper_body == (if aim_held(*keys) {
                UpperBodyState::PistolAim
            } else {
                UpperBodyState::Unarmed
            }),
            final(self).jump_phase == phase_after_input(old(self).jump_phase, *keys),
            keys.space_just_pressed && old(self).jump_phase == JumpPhase::Grounded ==> {
                &&& final(self).jump_phase == JumpPhase::JumpStart
                &&& r == Some(800u64)
            },
            !keys.space_just_pressed || old(self).jump_phase != JumpPhase::Grounded ==> {
                &&& final(self).jump_phase == old(self).jump_phase
                &&& r is None
            },
            final(self).upper_body == (if keys.mouse_right || keys.key_e {
                UpperBodyState::PistolAim
            } else {
                UpperBodyState::Unarmed
            }),
            r == (if final(self).jump_phase != old(self).jump_phase {
                phase_timer_millis(final(self).jump_phase)
            } else {
                None
            }),
            final(self).current_locomotion_state == old(self).current_locomotion_state,
            final(self).initialized == old(self).initialized,
    {
        self.upper_body = if keys.mouse_right || keys.key_e {
            UpperBodyState::PistolAim
        } else {
            UpperBodyState::Unarmed
        };
        if keys.space_just_pressed && self.jump_phase == JumpPhase::Grounded {
            self.jump_phase = JumpPhase::JumpStart;
            Some(JUMP_START_MILLIS)
        } else {
            None
        }
    }

    /// Moves on to the next jump phase because the timer of the current one
    /// has finished. Returns the duration, in milliseconds, of the timer to
    /// start for the new phase; landing returns to the ground, which starts
    /// no timer. A grounded controller is left as it is.
    pub fn advance_jump_phase(&mut self) -> (r: Option<u64>)
        ensures
            final(self).jump_phase == next_jump_phase(old(self).jump_phase),
            r == phase_timer_millis(final(self).jump_phase),
            old(self).jump_phase == JumpPhase::JumpStart ==> final(self).jump_phase
                == JumpPhase::JumpLoop && r == Some(100u64),
            old(self).jump_phase == JumpPhase::JumpLoop ==> final(self).jump_phase
                == JumpPhase::JumpLand && r == Some(600u64),
            old(self).jump_phase == JumpPhase::JumpLand ==> final(self).jump_phase
                == JumpPhase::Grounded && r is None,
            old(self).jump_phase == JumpPhase::Grounded ==> final(self).jump_phase
                == JumpPhase::Grounded && r is None,
            final(self).upper_body == old(self).upper_body,
            final(self).current_locomotion_state == old(self).current_locomotion_state,
            final(self).initialized == old(self).initialized,
    {
        match self.jump_phase {
            JumpPhase::JumpStart => {
                self.jump_phase = JumpPhase::JumpLoop;
                Some(JUMP_LOOP_MILLIS)
            },
            JumpPhase::JumpLoop => {
                self.jump_phase = JumpPhase::JumpLand;
                Some(JUMP_LAND_MILLIS)
            },
            JumpPhase::JumpLand => {
                self.jump_phase = JumpPhase::Grounded;
                None
            },
            JumpPhase::Grounded => None,
        }
    }
}

/// The jump cycle: a jump begins with the start phase, each airborne phase
/// runs on a timer of its own and hands over to the next, and after the
/// start, loop and landing phases the character is grounded again.
pub proof fn lemma_jump_cycle(phase: JumpPhase)
    ensures
        next_jump_phase(JumpPhase::JumpStart) == JumpPhase::JumpLoop,
        next_jump_phase(JumpPhase::JumpLoop) == JumpPhase::JumpLand,
        next_jump_phase(JumpPhase::JumpLand) == JumpPhase::Grounded,
        next_jump_phase(next_jump_phase(next_jump_phase(JumpPhase::JumpStart)))
            == JumpPhase::Grounded,
        phase != JumpPhase::Grounded <==> phase_timer_millis(phase) is Some,
        next_jump_phase(JumpPhase::Grounded) == JumpPhase::Grounded,
{
}

/// A jump cannot be interrupted or restarted: input changes the jump phase
/// only of a grounded character, and only to the start phase.
pub proof fn lemma_input_only_starts_jumps(phase: JumpPhase, keys: KeyState)
    ensures
        phase_after_input(phase, keys) != phase ==> phase == JumpPhase::Grounded
            && phase_after_input(phase, keys) == JumpPhase::JumpStart,
        phase != JumpPhase::Grounded ==> phase_after_input(phase, keys) == phase,
{
}

/// The movement asked for is at most one unit along each axis, and opposite
/// keys cancel.
pub proof fn lemma_movement_axes_bounded(keys: KeyState)
    ensures
        -1 <= axis_value(right_held(keys), left_held(keys)) <= 1,
        -1 <= axis_value(forward_held(keys), backward_held(keys)) <= 1,
        right_held(keys) && left_held(keys) ==> axis_value(right_held(keys), left_held(keys))
            == 0,
        forward_held(keys) && backward_held(keys) ==> axis_value(
            forward_held(keys),
            backward_held(keys),
        ) == 0,
{
}

/// Each direction key moves one unit along its axis when its opposite is
/// not held: W or Up forward, S or Down backward, D or Right to the right,
/// A or Left to the left.
pub proof fn lemma_each_direction_key_moves_one_unit(keys: KeyState)
    ensures
        (keys.key_w || keys.arrow_up) && !keys.key_s && !keys.arrow_down ==> axis_value(
            forward_held(keys),
            backward_held(keys),
        ) == 1,
        (keys.key_s || keys.arrow_down) && !keys.key_w && !keys.arrow_up ==> axis_value(
            forward_held(keys),
            backward_held(keys),
        ) == -1,
        (keys.key_d || keys.arrow_right) && !keys.key_a && !keys.arrow_left ==> axis_value(
            right_held(keys),
            left_held(keys),
        ) == 1,
        (keys.key_a || keys.arrow_left) && !keys.key_d && !keys.arrow_right ==> axis_value(
            right_held(keys),
            left_held(keys),
        ) == -1,
        !keys.key_w && !keys.arrow_up && !keys.key_s && !keys.arrow_down ==> axis_value(
            forward_held(keys),
            backward_held(keys),
        ) == 0,
        !keys.key_a && !keys.arrow_left && !keys.key_d && !keys.arrow_right ==> axis_value(
            right_held(keys),
            left_held(keys),
        ) == 0,
{
}

/// The jump key starts a jump from the ground whatever else is held, and
/// the started phase runs on the jump start timer.
pub proof fn lemma_jump_key_starts_jump(keys: KeyState)
    requires
        keys.space_just_pressed,
    ensures
        phase_after_input(JumpPhase::Grounded, keys) == JumpPhase::JumpStart,
        phase_timer_millis(phase_after_input(JumpPhase::Grounded, keys)) == Some(800u64),
{
}

} // verus!
