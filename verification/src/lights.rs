//! The head and rear lights.

use vstd::prelude::*;
use crate::input::Input;
use crate::output::PowerOutput;

verus! {

/// `before` with the light channels set for the controls `input`. The channels
/// that are not named in a mode are kept.
///
/// With the ignition on, the light switch turns on low beam and rear light and
/// lets the full beam follow its control; with the switch off all three are
/// dark. The parking light is not driven while the ignition is on. With the
/// ignition off, the light switch turns on parking light and rear light, and
/// the beams are dark.
pub open spec fn with_lights(before: PowerOutput, input: Input) -> PowerOutput {
    match (input.ignition, input.light_on) {
        (true, true) => PowerOutput {
            head_light_lowbeam: true,
            head_light_fullbeam: input.full_beam,
            rear_light: true,
            ..before
        },
        (true, false) => PowerOutput {
            head_light_lowbeam: false,
            head_light_fullbeam: false,
            rear_light: false,
            ..before
        },
        (false, true) => PowerOutput {
            head_light_parking: true,
            head_light_lowbeam: false,
            head_light_fullbeam: false,
            rear_light: true,
            ..before
        },
        (false, false) => PowerOutput {
            head_light_parking: false,
            head_light_lowbeam: false,
            head_light_fullbeam: false,
            rear_light: false,
            ..before
        },
    }
}

/// Sets the light channels of `power_out` for the controls `input`.
///
/// The parking light is left as it was while the ignition is on: a caller that
/// wants it dark then starts from a record in which it is.
pub fn switch_light_signals(input: &Input, power_out: &mut PowerOutput)
    ensures
        *final(power_out) == with_lights(*old(power_out), *input),
{
    if input.ignition {
        if input.light_on {
            power_out.head_light_lowbeam = true;
            power_out.rear_light = true;
            power_out.head_light_fullbeam = input.full_beam;
        } else {
            power_out.head_light_lowbeam = false;
            power_out.rear_light = false;
            power_out.head_light_fullbeam = false;
        }
    } else {
        if input.light_on {
            power_out.head_light_parking = true;
            power_out.rear_light = true;
        } else {
            power_out.head_light_parking = false;
            power_out.rear_light = false;
        }
        power_out.head_light_lowbeam = false;
        power_out.head_light_fullbeam = false;
    }
}

} // verus!
