//! The blink waveform, and the four turn-indicator channels.

use vstd::prelude::*;
use crate::input::Input;
use crate::output::PowerOutput;
use crate::state::{State, SystemState};
use crate::time::{elapsed_ticks, TimeStamp};

verus! {

/// The blink waveform: whether a lamp that blinks for `state` is lit at `now`.
///
/// An inactive function lights nothing. An active one repeats a cycle of
/// `on_ticks` lit and `off_ticks` dark, which starts lit at the tick of
/// activation. Only the ticks elapsed since then count, taken modulo the
/// counter's range.
pub open spec fn is_on(state: State, now: TimeStamp, on_ticks: u32, off_ticks: u32) -> bool {
    match state {
        State::Inactive => false,
        State::Active(since) => elapsed_ticks(since, now) % (on_ticks + off_ticks) < on_ticks,
    }
}

/// The blinking function that drives the four turn-indicator channels.
pub enum BlinkSource {
    /// The hazard light: all four lamps blink together.
    Hazard,
    /// The left turn signal: the left lamps blink, the right ones are dark.
    TurnLeft,
    /// The right turn signal: the right lamps blink, the left ones are dark.
    TurnRight,
    /// None: all four lamps are dark.
    Idle,
}

/// Which blinking function drives the turn-indicator channels in `state`. The
/// hazard light goes before the left turn signal, and that before the right.
pub open spec fn blink_source(state: SystemState) -> BlinkSource {
    if state.hazard is Active {
        BlinkSource::Hazard
    } else if state.turn_left is Active {
        BlinkSource::TurnLeft
    } else if state.turn_right is Active {
        BlinkSource::TurnRight
    } else {
        BlinkSource::Idle
    }
}

/// Level of the two left turn-indicator channels.
pub open spec fn left_lamps_on(state: SystemState, now: TimeStamp, one_second_ticks: u32) -> bool {
    match blink_source(state) {
        BlinkSource::Hazard => is_on(state.hazard, now, one_second_ticks, one_second_ticks),
        BlinkSource::TurnLeft => is_on(state.turn_left, now, one_second_ticks, one_second_ticks),
        BlinkSource::TurnRight => false,
        BlinkSource::Idle => false,
    }
}

/// Level of the two right turn-indicator channels.
pub open spec fn right_lamps_on(state: SystemState, now: TimeStamp, one_second_ticks: u32) -> bool {
    match blink_source(state) {
        BlinkSource::Hazard => is_on(state.hazard, now, one_second_ticks, one_second_ticks),
        BlinkSource::TurnLeft => false,
        BlinkSource::TurnRight => is_on(state.turn_right, now, one_second_ticks, one_second_ticks),
        BlinkSource::Idle => false,
    }
}

/// `before` with the four turn-indicator channels set for `state` at `now`,
/// blinking one second lit and one second dark. The other channels are kept.
pub open spec fn with_turn_signals(
    before: PowerOutput,
    state: SystemState,
    now: TimeStamp,
    one_second_ticks: u32,
) -> PowerOutput {
    PowerOutput {
        turn_left_front: left_lamps_on(state, now, one_second_ticks),
        turn_left_rear: left_lamps_on(state, now, one_second_ticks),
        turn_right_front: right_lamps_on(state, now, one_second_ticks),
        turn_right_rear: right_lamps_on(state, now, one_second_ticks),
        ..before
    }
}

/// Evaluates the blink waveform of `state` at `cur_time`.
///
/// The cycle must not be empty.
pub fn caclulate_turn_signal(state: &State, cur_time: TimeStamp, on_time: u32, off_time: u32) -> (lit: bool)
    requires
        on_time + off_time > 0,
    ensures
        lit == is_on(*state, cur_time, on_time, off_time),
{
    match state {
        State::Active(start_time) => {
            let time_passed: u64 = cur_time.elapsed_since(*start_time) as u64;
            let cycle: u64 = on_time as u64 + off_time as u64;
            time_passed % cycle < on_time as u64
        },
        State::Inactive => false,
    }
}

/// Sets the four turn-indicator channels of `power_out` for `system_state` at
/// `now`, and leaves its other channels as they were.
///
/// The lamps follow the state alone: the controls are not consulted.
pub fn switch_turn_signals(
    system_state: &SystemState,
    _input: &Input,
    now: TimeStamp,
    one_second_ticks: u32,
    power_out: &mut PowerOutput,
)
    requires
        one_second_ticks > 0,
    ensures
        *final(power_out) == with_turn_signals(*old(power_out), *system_state, now, one_second_ticks),
{
    let mut left: bool = false;
    let mut right: bool = false;
    match system_state.hazard {
        State::Active(_) => {
            let lit = caclulate_turn_signal(&system_state.hazard, now, one_second_ticks, one_second_ticks);
            left = lit;
            right = lit;
        },
        State::Inactive => {
            match system_state.turn_left {
                State::Active(_) => {
                    left = caclulate_turn_signal(&system_state.turn_left, now, one_second_ticks, one_second_ticks);
                },
                State::Inactive => {
                    match system_state.turn_right {
                        State::Active(_) => {
                            right = caclulate_turn_signal(&system_state.turn_right, now, one_second_ticks, one_second_ticks);
                        },
                        State::Inactive => {},
                    }
                },
            }
        },
    }
    power_out.turn_left_front = left;
    power_out.turn_left_rear = left;
    power_out.turn_right_front = right;
    power_out.turn_right_rear = right;
}

} // verus!
