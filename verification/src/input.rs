//! The driver controls, as sampled once per tick.

use vstd::prelude::*;

verus! {

/// One sample of the driver controls. Every combination of flags is valid.
#[derive(Clone, Copy, Debug, PartialEq, Eq, Structural)]
pub struct Input {
    /// The ignition is switched on.
    pub ignition: bool,
    /// The front brake is applied.
    pub brake_front: bool,
    /// The rear brake is applied.
    pub brake_rear: bool,
    /// The left turn signal is requested.
    pub turn_left: bool,
    /// The right turn signal is requested.
    pub turn_right: bool,
    /// The hazard light is requested.
    pub hazard_light: bool,
    /// The lights are switched on.
    pub light_on: bool,
    /// The full beam is requested.
    pub full_beam: bool,
    /// The horn button is pressed.
    pub horn: bool,
    /// The kill switch stands on KILL.
    pub kill_switch: bool,
    /// The side stand is out.
    pub side_stand: bool,
}

/// Assembles one sample of the driver controls from the flags read on this
/// tick. Each field holds the flag of its name: none is invented, fixed or
/// carried over from an earlier sample.
pub fn read_input(
    ignition: bool,
    brake_front: bool,
    brake_rear: bool,
    turn_left: bool,
    turn_right: bool,
    hazard_light: bool,
    light_on: bool,
    full_beam: bool,
    horn: bool,
    kill_switch: bool,
    side_stand: bool,
) -> (input: Input)
    ensures
        input == (Input {
            ignition: ignition,
            brake_front: brake_front,
            brake_rear: brake_rear,
            turn_left: turn_left,
            turn_right: turn_right,
            hazard_light: hazard_light,
            light_on: light_on,
            full_beam: full_beam,
            horn: horn,
            kill_switch: kill_switch,
            side_stand: side_stand,
        }),
{
    Input {
        ignition,
        brake_front,
        brake_rear,
        turn_left,
        turn_right,
        hazard_light,
        light_on,
        full_beam,
        horn,
        kill_switch,
        side_stand,
    }
}

} // verus!
