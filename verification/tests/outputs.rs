use apc::{
    switch_light_signals, switch_power_output, switch_turn_signals, Input, PowerChannel,
    PowerOutput, State, SystemState, TimeStamp,
};

fn controls_released() -> Input {
    Input {
        ignition: false,
        brake_front: false,
        brake_rear: false,
        turn_left: false,
        turn_right: false,
        hazard_light: false,
        light_on: false,
        full_beam: false,
        horn: false,
        kill_switch: false,
        side_stand: false,
    }
}

fn dark() -> PowerOutput {
    PowerOutput {
        turn_left_front: false,
        turn_left_rear: false,
        turn_right_front: false,
        turn_right_rear: false,
        head_light_parking: false,
        head_light_lowbeam: false,
        head_light_fullbeam: false,
        rear_light: false,
        brake_light: false,
        horn: false,
    }
}

fn all_lit() -> PowerOutput {
    PowerOutput {
        turn_left_front: true,
        turn_left_rear: true,
        turn_right_front: true,
        turn_right_rear: true,
        head_light_parking: true,
        head_light_lowbeam: true,
        head_light_fullbeam: true,
        rear_light: true,
        brake_light: true,
        horn: true,
    }
}

fn nothing_blinks() -> SystemState {
    SystemState { turn_left: State::Inactive, turn_right: State::Inactive, hazard: State::Inactive }
}

fn indicators(out: &PowerOutput) -> [bool; 4] {
    [out.turn_left_front, out.turn_left_rear, out.turn_right_front, out.turn_right_rear]
}

fn lights(out: &PowerOutput) -> [bool; 4] {
    [out.head_light_parking, out.head_light_lowbeam, out.head_light_fullbeam, out.rear_light]
}

#[test]
fn idle_state_darkens_all_indicators() {
    let mut out = all_lit();
    switch_turn_signals(&nothing_blinks(), &controls_released(), TimeStamp(0), 1000, &mut out);
    assert_eq!(indicators(&out), [false, false, false, false]);
}

#[test]
fn left_turn_blinks_left_only() {
    let mut state = nothing_blinks();
    state.turn_left = State::Active(TimeStamp(100));
    let mut out = all_lit();
    switch_turn_signals(&state, &controls_released(), TimeStamp(100), 1000, &mut out);
    assert_eq!(indicators(&out), [true, true, false, false]);
    switch_turn_signals(&state, &controls_released(), TimeStamp(1099), 1000, &mut out);
    assert_eq!(indicators(&out), [true, true, false, false]);
    switch_turn_signals(&state, &controls_released(), TimeStamp(1100), 1000, &mut out);
    assert_eq!(indicators(&out), [false, false, false, false]);
    switch_turn_signals(&state, &controls_released(), TimeStamp(2100), 1000, &mut out);
    assert_eq!(indicators(&out), [true, true, false, false]);
}

#[test]
fn right_turn_blinks_right_only() {
    let mut state = nothing_blinks();
    state.turn_right = State::Active(TimeStamp(100));
    let mut out = all_lit();
    switch_turn_signals(&state, &controls_released(), TimeStamp(100), 1000, &mut out);
    assert_eq!(indicators(&out), [false, false, true, true]);
    switch_turn_signals(&state, &controls_released(), TimeStamp(1100), 1000, &mut out);
    assert_eq!(indicators(&out), [false, false, false, false]);
    switch_turn_signals(&state, &controls_released(), TimeStamp(2100), 1000, &mut out);
    assert_eq!(indicators(&out), [false, false, true, true]);
}

#[test]
fn left_turn_goes_before_right_turn() {
    let state = SystemState {
        turn_left: State::Active(TimeStamp(1000)),
        turn_right: State::Active(TimeStamp(0)),
        hazard: State::Inactive,
    };
    let mut out = dark();
    // The right signal would be lit at 2000, the left one is lit at 1000.
    switch_turn_signals(&state, &controls_released(), TimeStamp(1000), 1000, &mut out);
    assert_eq!(indicators(&out), [true, true, false, false]);
    // At 2000 the left signal is dark and the right one would be lit.
    switch_turn_signals(&state, &controls_released(), TimeStamp(2000), 1000, &mut out);
    assert_eq!(indicators(&out), [false, false, false, false]);
}

#[test]
fn hazard_goes_before_both_turn_signals() {
    let state = SystemState {
        turn_left: State::Active(TimeStamp(0)),
        turn_right: State::Active(TimeStamp(0)),
        hazard: State::Active(TimeStamp(1000)),
    };
    let mut out = dark();
    // Hazard is lit, the turn signals would be dark.
    switch_turn_signals(&state, &controls_released(), TimeStamp(1000), 1000, &mut out);
    assert_eq!(indicators(&out), [true, true, true, true]);
    // Hazard is dark, the turn signals would be lit.
    switch_turn_signals(&state, &controls_released(), TimeStamp(2000), 1000, &mut out);
    assert_eq!(indicators(&out), [false, false, false, false]);
}

#[test]
fn turn_signals_leave_the_other_channels_alone() {
    let mut state = nothing_blinks();
    state.hazard = State::Active(TimeStamp(0));
    let mut out = all_lit();
    switch_turn_signals(&state, &controls_released(), TimeStamp(1500), 1000, &mut out);
    let mut expected = all_lit();
    expected.turn_left_front = false;
    expected.turn_left_rear = false;
    expected.turn_right_front = false;
    expected.turn_right_rear = false;
    assert_eq!(out, expected);

    let mut out = dark();
    switch_turn_signals(&state, &controls_released(), TimeStamp(500), 1000, &mut out);
    let mut expected = dark();
    expected.turn_left_front = true;
    expected.turn_left_rear = true;
    expected.turn_right_front = true;
    expected.turn_right_rear = true;
    assert_eq!(out, expected);
}

#[test]
fn turn_signal_controls_are_not_consulted() {
    let mut state = nothing_blinks();
    state.turn_right = State::Active(TimeStamp(0));
    let mut input = controls_released();
    input.turn_left = true;
    input.hazard_light = true;
    let mut out = dark();
    switch_turn_signals(&state, &input, TimeStamp(10), 1000, &mut out);
    assert_eq!(indicators(&out), [false, false, true, true]);
}

#[test]
fn lights_with_ignition_on_and_switch_on() {
    let mut input = controls_released();
    input.ignition = true;
    input.light_on = true;
    let mut out = dark();
    switch_light_signals(&input, &mut out);
    assert_eq!(lights(&out), [false, true, false, true]);
    input.full_beam = true;
    switch_light_signals(&input, &mut out);
    assert_eq!(lights(&out), [false, true, true, true]);
    input.full_beam = false;
    switch_light_signals(&input, &mut out);
    assert_eq!(lights(&out), [false, true, false, true]);
}

#[test]
fn lights_with_ignition_on_and_switch_off() {
    let mut input = controls_released();
    input.ignition = true;
    input.full_beam = true;
    let mut out = dark();
    out.head_light_lowbeam = true;
    out.head_light_fullbeam = true;
    out.rear_light = true;
    switch_light_signals(&input, &mut out);
    assert_eq!(lights(&out), [false, false, false, false]);
}

#[test]
fn lights_with_ignition_off_and_switch_on() {
    let mut input = controls_released();
    input.light_on = true;
    input.full_beam = true;
    let mut out = dark();
    out.head_light_lowbeam = true;
    out.head_light_fullbeam = true;
    switch_light_signals(&input, &mut out);
    assert_eq!(lights(&out), [true, false, false, true]);
}

#[test]
fn lights_with_ignition_off_and_switch_off() {
    let mut input = controls_released();
    input.full_beam = true;
    let mut out = all_lit();
    switch_light_signals(&input, &mut out);
    assert_eq!(lights(&out), [false, false, false, false]);
}

#[test]
fn parking_light_is_kept_while_the_ignition_is_on() {
    let mut input = controls_released();
    input.ignition = true;
    let mut out = dark();
    out.head_light_parking = true;
    switch_light_signals(&input, &mut out);
    assert_eq!(lights(&out), [true, false, false, false]);
    input.light_on = true;
    switch_light_signals(&input, &mut out);
    assert_eq!(lights(&out), [true, true, false, true]);
}

#[test]
fn lights_leave_the_other_channels_alone() {
    let mut out = all_lit();
    switch_light_signals(&controls_released(), &mut out);
    let mut expected = all_lit();
    expected.head_light_parking = false;
    expected.head_light_lowbeam = false;
    expected.head_light_fullbeam = false;
    expected.rear_light = false;
    assert_eq!(out, expected);

    let mut input = controls_released();
    input.ignition = true;
    input.light_on = true;
    input.full_beam = true;
    let mut out = dark();
    switch_light_signals(&input, &mut out);
    let mut expected = dark();
    expected.head_light_lowbeam = true;
    expected.head_light_fullbeam = true;
    expected.rear_light = true;
    assert_eq!(out, expected);
}

#[test]
fn light_mode_matrix() {
    let states = [
        nothing_blinks(),
        SystemState {
            turn_left: State::Active(TimeStamp(3)),
            turn_right: State::Inactive,
            hazard: State::Active(TimeStamp(900)),
        },
    ];
    for state in states.iter() {
        for bits in 0..32u32 {
            let mut input = controls_released();
            input.brake_front = bits & 1 != 0;
            input.horn = bits & 2 != 0;
            input.turn_left = bits & 4 != 0;
            input.hazard_light = bits & 8 != 0;
            input.full_beam = bits & 16 != 0;
            for now in [0u32, 1500, u32::MAX] {
                input.ignition = true;
                input.light_on = true;
                let out = switch_power_output(state, &input, TimeStamp(now), 1000);
                assert_eq!(lights(&out), [false, true, input.full_beam, true]);

                input.ignition = true;
                input.light_on = false;
                let out = switch_power_output(state, &input, TimeStamp(now), 1000);
                assert_eq!(lights(&out), [false, false, false, false]);

                input.ignition = false;
                input.light_on = true;
                let out = switch_power_output(state, &input, TimeStamp(now), 1000);
                assert_eq!(lights(&out), [true, false, false, true]);

                input.ignition = false;
                input.light_on = false;
                let out = switch_power_output(state, &input, TimeStamp(now), 1000);
                assert_eq!(lights(&out), [false, false, false, false]);
            }
        }
    }
}

#[test]
fn brake_light_and_horn_mirror_their_controls() {
    let states = [
        nothing_blinks(),
        SystemState {
            turn_left: State::Active(TimeStamp(3)),
            turn_right: State::Active(TimeStamp(5)),
            hazard: State::Active(TimeStamp(900)),
        },
    ];
    for state in states.iter() {
        for bits in 0..8u32 {
            let mut input = controls_released();
            input.brake_front = bits & 1 != 0;
            input.brake_rear = bits & 2 != 0;
            input.horn = bits & 4 != 0;
            for now in [0u32, 999, 1000, 123_456_789, u32::MAX] {
                let out = switch_power_output(state, &input, TimeStamp(now), 1000);
                assert_eq!(out.brake_light, input.brake_front || input.brake_rear);
                assert_eq!(out.horn, input.horn);
            }
        }
    }
}

#[test]
fn kill_switch_and_side_stand_change_nothing() {
    let mut state = nothing_blinks();
    state.turn_left = State::Active(TimeStamp(0));
    let mut input = controls_released();
    input.ignition = true;
    input.light_on = true;
    input.brake_rear = true;
    let plain = switch_power_output(&state, &input, TimeStamp(10), 1000);
    input.kill_switch = true;
    input.side_stand = true;
    assert_eq!(switch_power_output(&state, &input, TimeStamp(10), 1000), plain);
}

#[test]
fn whole_record_for_a_left_turn_at_night() {
    let mut state = nothing_blinks();
    state.turn_left = State::Active(TimeStamp(2_000));
    let mut input = controls_released();
    input.ignition = true;
    input.light_on = true;
    input.full_beam = true;
    input.turn_left = true;
    input.brake_front = true;
    let out = switch_power_output(&state, &input, TimeStamp(2_500), 1000);
    assert_eq!(
        out,
        PowerOutput {
            turn_left_front: true,
            turn_left_rear: true,
            turn_right_front: false,
            turn_right_rear: false,
            head_light_parking: false,
            head_light_lowbeam: true,
            head_light_fullbeam: true,
            rear_light: true,
            brake_light: true,
            horn: false,
        }
    );
    let out = switch_power_output(&state, &input, TimeStamp(3_000), 1000);
    assert!(!out.turn_left_front && !out.turn_left_rear);
}

#[test]
fn level_picks_each_channel() {
    let channels = [
        PowerChannel::TurnLeftFront,
        PowerChannel::TurnLeftRear,
        PowerChannel::TurnRightFront,
        PowerChannel::TurnRightRear,
        PowerChannel::HeadLightParking,
        PowerChannel::HeadLightLowerBeam,
        PowerChannel::HeadLightFullBeam,
        PowerChannel::RearLight,
        PowerChannel::BrakeLight,
        PowerChannel::Horn,
    ];
    for lit in 0..channels.len() {
        let mut out = dark();
        match lit {
            0 => out.turn_left_front = true,
            1 => out.turn_left_rear = true,
            2 => out.turn_right_front = true,
            3 => out.turn_right_rear = true,
            4 => out.head_light_parking = true,
            5 => out.head_light_lowbeam = true,
            6 => out.head_light_fullbeam = true,
            7 => out.rear_light = true,
            8 => out.brake_light = true,
            _ => out.horn = true,
        }
        for (index, channel) in channels.iter().enumerate() {
            assert_eq!(out.level(*channel), index == lit);
        }
    }
}
