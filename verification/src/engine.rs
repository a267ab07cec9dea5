//! One tick of the controller: from the carried state and a sample of the
//! controls to the next state and the level of every power channel.

use vstd::prelude::*;
use crate::input::Input;
use crate::lights::{switch_light_signals, with_lights};
use crate::output::PowerOutput;
use crate::signals::{left_lamps_on, right_lamps_on, switch_turn_signals, with_turn_signals};
use crate::state::{advance_system, update_system_state, SystemState};
use crate::time::TimeStamp;

verus! {

/// The record in which only the channels that mirror a control are set: the
/// brake light is lit while either brake is applied, the horn sounds while its
/// button is pressed.
pub open spec fn direct_channels(input: Input) -> PowerOutput {
    PowerOutput {
        brake_light: input.brake_front || input.brake_rear,
        horn: input.horn,
        ..PowerOutput::all_off()
    }
}

/// The level of every power channel for the blink state `state` and the
/// controls `input` at `now`, where one second lasts `one_second_ticks`.
///
/// Brake light and horn mirror their controls; the turn indicators follow the
/// blink state; the lights follow ignition, light switch and full beam.
pub open spec fn synthesize(
    state: SystemState,
    input: Input,
    now: TimeStamp,
    one_second_ticks: u32,
) -> PowerOutput {
    with_lights(with_turn_signals(direct_channels(input), state, now, one_second_ticks), input)
}

/// Decides the level of every power channel.
///
/// A second must last at least one tick.
pub fn switch_power_output(
    system: &SystemState,
    input: &Input,
    now: TimeStamp,
    one_second_ticks: u32,
) -> (power_output: PowerOutput)
    requires
        one_second_ticks > 0,
    ensures
        power_output == synthesize(*system, *input, now, one_second_ticks),
        power_output.brake_light == (input.brake_front || input.brake_rear),
        power_output.horn == input.horn,
        power_output.head_light_parking == (!input.ignition && input.light_on),
        power_output.head_light_lowbeam == (input.ignition && input.light_on),
        power_output.head_light_fullbeam == (input.ignition && input.light_on && input.full_beam),
        power_output.rear_light == input.light_on,
        power_output.turn_left_front == left_lamps_on(*system, now, one_second_ticks),
        power_output.turn_left_rear == left_lamps_on(*system, now, one_second_ticks),
        power_output.turn_right_front == right_lamps_on(*system, now, one_second_ticks),
        power_output.turn_right_rear == right_lamps_on(*system, now, one_second_ticks),
{
    let mut power_output = PowerOutput {
        turn_left_front: false,
        turn_left_rear: false,
        turn_right_front: false,
        turn_right_rear: false,
        head_light_parking: false,
        head_light_lowbeam: false,
        head_light_fullbeam: false,
        rear_light: false,
        brake_light: input.brake_front || input.brake_rear,
        horn: input.horn,
    };
    switch_turn_signals(system, input, now, one_second_ticks, &mut power_output);
    switch_light_signals(input, &mut power_output);
    power_output
}

/// Runs one tick: advances the blink state on the controls `input` sampled at
/// `now`, and decides the level of every power channel in the new state.
///
/// The caller keeps the returned state for the next tick and drives the
/// channels with the returned levels. A second must last at least one tick.
pub fn tick(
    system_state: SystemState,
    input: &Input,
    now: TimeStamp,
    one_second_ticks: u32,
) -> (next: (SystemState, PowerOutput))
    requires
        one_second_ticks > 0,
    ensures
        next.0 == advance_system(system_state, *input, now),
        next.1 == synthesize(next.0, *input, now, one_second_ticks),
{
    let new_system_state = update_system_state(system_state, input, now);
    let power_out = switch_power_output(&new_system_state, input, now, one_second_ticks);
    (new_system_state, power_out)
}

} // verus!
