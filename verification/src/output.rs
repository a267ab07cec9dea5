//! The power channels and the levels decided for them.

use vstd::prelude::*;

verus! {

/// The level decided for each power channel: `true` energises the channel.
#[derive(Clone, Copy, Debug, PartialEq, Eq, Structural)]
pub struct PowerOutput {
    pub turn_left_front: bool,
    pub turn_left_rear: bool,
    pub turn_right_front: bool,
    pub turn_right_rear: bool,
    pub head_light_parking: bool,
    pub head_light_lowbeam: bool,
    pub head_light_fullbeam: bool,
    pub rear_light: bool,
    pub brake_light: bool,
    pub horn: bool,
}

/// A physical output line: one lamp, or the horn.
#[derive(Clone, Copy, Debug, PartialEq, Eq, Structural)]
pub enum PowerChannel {
    TurnLeftFront,
    TurnLeftRear,
    TurnRightFront,
    TurnRightRear,
    HeadLightParking,
    HeadLightLowerBeam,
    HeadLightFullBeam,
    RearLight,
    BrakeLight,
    Horn,
}

impl PowerOutput {
    /// The record with every channel off.
    pub open spec fn all_off() -> PowerOutput {
        PowerOutput {
            turn_left_front: false,
            turn_left_rear: false,
            turn_right_front: false,
            turn_right_rear: false,
            head_light_parking: false,
            head_light_lowbeam: false,
            head_light_fullbeam: false,
            rear_light: false,
            brake_light: false,
            horn: false,
        }
    }

    /// The level that this record holds for `channel`.
    pub open spec fn level_of(self, channel: PowerChannel) -> bool {
        match channel {
            PowerChannel::TurnLeftFront => self.turn_left_front,
            PowerChannel::TurnLeftRear => self.turn_left_rear,
            PowerChannel::TurnRightFront => self.turn_right_front,
            PowerChannel::TurnRightRear => self.turn_right_rear,
            PowerChannel::HeadLightParking => self.head_light_parking,
            PowerChannel::HeadLightLowerBeam => self.head_light_lowbeam,
            PowerChannel::HeadLightFullBeam => self.head_light_fullbeam,
            PowerChannel::RearLight => self.rear_light,
            PowerChannel::BrakeLight => self.brake_light,
            PowerChannel::Horn => self.horn,
        }
    }

    /// The level to drive `channel` with.
    pub fn level(&self, channel: PowerChannel) -> (high: bool)
        ensures
            high == self.level_of(channel),
    {
        match channel {
            PowerChannel::TurnLeftFront => self.turn_left_front,
            PowerChannel::TurnLeftRear => self.turn_left_rear,
            PowerChannel::TurnRightFront => self.turn_right_front,
            PowerChannel::TurnRightRear => self.turn_right_rear,
            PowerChannel::HeadLightParking => self.head_light_parking,
            PowerChannel::HeadLightLowerBeam => self.head_light_lowbeam,
            PowerChannel::HeadLightFullBeam => self.head_light_fullbeam,
            PowerChannel::RearLight => self.rear_light,
            PowerChannel::BrakeLight => self.brake_light,
            PowerChannel::Horn => self.horn,
        }
    }
}

} // verus!
