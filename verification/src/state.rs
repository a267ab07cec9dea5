//! Blink state: whether a blinking function is requested, and since when.

use vstd::prelude::*;
use crate::input::Input;
use crate::time::TimeStamp;

verus! {

/// State of one blinking function (left turn, right turn or hazard).
#[derive(Clone, Copy, Debug, PartialEq, Eq, Structural)]
pub enum State {
    /// Requested without interruption since the recorded tick.
    Active(TimeStamp),
    /// Not requested.
    Inactive,
}

/// The state that the engine carries from one tick to the next.
#[derive(Clone, Copy, Debug, PartialEq, Eq, Structural)]
pub struct SystemState {
    pub turn_left: State,
    pub turn_right: State,
    pub hazard: State,
}

/// The state of a blinking function after one tick on which its control reads
/// `input_flag` and the counter reads `now`.
///
/// A released control makes it inactive at once. A control that is newly held
/// records `now`; one that was already held keeps the tick it recorded then.
pub open spec fn advance(previous: State, input_flag: bool, now: TimeStamp) -> State {
    if !input_flag {
        State::Inactive
    } else if previous is Active {
        previous
    } else {
        State::Active(now)
    }
}

/// The carried state after one tick with the controls `input` at `now`: each
/// blinking function advances on its own control.
pub open spec fn advance_system(previous: SystemState, input: Input, now: TimeStamp) -> SystemState {
    SystemState {
        turn_left: advance(previous.turn_left, input.turn_left, now),
        turn_right: advance(previous.turn_right, input.turn_right, now),
        hazard: advance(previous.hazard, input.hazard_light, now),
    }
}

/// Advances one blinking function by one tick.
pub fn update_state(prev_state: State, input_flag: bool, now: TimeStamp) -> (next: State)
    ensures
        next == advance(prev_state, input_flag, now),
{
    if input_flag {
        match prev_state {
            State::Active(_) => prev_state,
            State::Inactive => State::Active(now),
        }
    } else {
        State::Inactive
    }
}

/// Advances all three blinking functions by one tick.
pub fn update_system_state(system: SystemState, input: &Input, now: TimeStamp) -> (next: SystemState)
    ensures
        next == advance_system(system, *input, now),
{
    SystemState {
        turn_left: update_state(system.turn_left, input.turn_left, now),
        turn_right: update_state(system.turn_right, input.turn_right, now),
        hazard: update_state(system.hazard, input.hazard_light, now),
    }
}

} // verus!
