//! Laws of the engine, proved over its mathematical model.

use vstd::prelude::*;
use vstd::arithmetic::div_mod::lemma_fundamental_div_mod_converse;
use crate::engine::synthesize;
use crate::input::Input;
use crate::signals::{blink_source, is_on, BlinkSource};
use crate::state::{advance, advance_system, State, SystemState};
use crate::time::{elapsed_ticks, ticks_after, tick_modulus, TimeStamp};

verus! {

/// Reading the counter `ticks` after `since` and subtracting `since` again
/// gives back `ticks`, whether or not the counter overflowed in between.
pub proof fn lemma_elapsed_after(since: TimeStamp, ticks: int)
    requires
        0 <= ticks < tick_modulus(),
    ensures
        elapsed_ticks(since, ticks_after(since, ticks)) == ticks,
{
    let wrapped = (since.0 + ticks) % tick_modulus();
    assert(wrapped == since.0 + ticks || wrapped == since.0 + ticks - tick_modulus());
}

/// A blinking function is active after a tick exactly if its control was held
/// on that tick.
pub proof fn lemma_active_while_held(previous: State, input_flag: bool, now: TimeStamp)
    ensures
        advance(previous, input_flag, now) is Active <==> input_flag,
{
}

/// While a control stays held, the tick recorded at activation is kept: a
/// second tick with the control held, at whatever time, changes nothing.
pub proof fn lemma_activation_tick_is_kept(previous: State, first: TimeStamp, second: TimeStamp)
    ensures
        advance(previous, true, first) is Active,
        advance(advance(previous, true, first), true, second) == advance(previous, true, first),
{
}

/// Releasing a control forgets the recorded tick: when the control is held
/// again, the cycle starts anew at that tick.
pub proof fn lemma_release_restarts_cycle(previous: State, released: TimeStamp, held: TimeStamp)
    ensures
        advance(previous, false, released) == State::Inactive,
        advance(advance(previous, false, released), true, held) == State::Active(held),
{
}

/// A cycle starts lit: at the very tick of activation the lamp is lit, unless
/// the cycle has no lit phase at all.
pub proof fn lemma_lit_on_activation(now: TimeStamp, on_ticks: u32, off_ticks: u32)
    requires
        on_ticks + off_ticks > 0,
    ensures
        is_on(State::Active(now), now, on_ticks, off_ticks) == (on_ticks > 0),
{
    let period: int = on_ticks + off_ticks;
    assert(elapsed_ticks(now, now) == 0);
    assert(0int % period == 0) by (nonlinear_arith)
        requires
            period > 0,
    ;
}

/// The waveform depends on the ticks elapsed since activation alone, not on
/// where the counter stood then: `elapsed` ticks after an activation at
/// `since` it has the value that it has `elapsed` ticks after an activation at
/// tick zero, also where the counter has overflowed in between.
pub proof fn lemma_waveform_ignores_wraparound(since: TimeStamp, elapsed: u32, on_ticks: u32, off_ticks: u32)
    ensures
        is_on(State::Active(since), ticks_after(since, elapsed as int), on_ticks, off_ticks)
            == is_on(State::Active(TimeStamp(0)), TimeStamp(elapsed), on_ticks, off_ticks),
        is_on(State::Active(since), ticks_after(since, elapsed as int), on_ticks, off_ticks)
            == ((elapsed as int) % (on_ticks + off_ticks) < on_ticks),
{
    lemma_elapsed_after(since, elapsed as int);
    assert(elapsed_ticks(TimeStamp(0), TimeStamp(elapsed)) == elapsed);
}

/// The duty cycle: in every cycle after activation the lamp is lit for the
/// first `on_ticks` ticks and dark for the `off_ticks` that follow. `cycles`
/// counts the full cycles elapsed, `offset` the ticks into the current one.
pub proof fn lemma_duty_cycle(since: TimeStamp, on_ticks: u32, off_ticks: u32, cycles: nat, offset: nat)
    requires
        offset < on_ticks + off_ticks,
        cycles * (on_ticks + off_ticks) + offset < tick_modulus(),
    ensures
        is_on(
            State::Active(since),
            ticks_after(since, cycles * (on_ticks + off_ticks) + offset),
            on_ticks,
            off_ticks,
        ) == (offset < on_ticks),
{
    let period: int = on_ticks + off_ticks;
    let elapsed: int = cycles * period + offset;
    assert(0 <= cycles * period) by (nonlinear_arith)
        requires
            0 <= cycles,
            0 <= period,
    ;
    lemma_elapsed_after(since, elapsed);
    lemma_fundamental_div_mod_converse(elapsed, period, cycles as int, offset as int);
}

/// One blinking function at a time drives the four turn-indicator channels,
/// front and rear of a side always alike: the hazard light drives both sides,
/// a turn signal drives its own side and keeps the other dark, and with none
/// active all four are dark.
pub proof fn lemma_one_source_drives_indicators(
    state: SystemState,
    input: Input,
    now: TimeStamp,
    one_second_ticks: u32,
)
    ensures
        ({
            let out = synthesize(state, input, now, one_second_ticks);
            let hazard = is_on(state.hazard, now, one_second_ticks, one_second_ticks);
            let left = is_on(state.turn_left, now, one_second_ticks, one_second_ticks);
            let right = is_on(state.turn_right, now, one_second_ticks, one_second_ticks);
            &&& out.turn_left_front == out.turn_left_rear
            &&& out.turn_right_front == out.turn_right_rear
            &&& match blink_source(state) {
                BlinkSource::Hazard => out.turn_left_front == hazard && out.turn_right_front == hazard,
                BlinkSource::TurnLeft => out.turn_left_front == left && !out.turn_right_front,
                BlinkSource::TurnRight => !out.turn_left_front && out.turn_right_front == right,
                BlinkSource::Idle => !out.turn_left_front && !out.turn_right_front,
            }
        }),
{
}

/// The hazard light goes before the turn signals: while it is active, all four
/// turn-indicator channels show the hazard waveform, whatever the state of the
/// turn signals.
pub proof fn lemma_hazard_overrides_turn_signals(
    state: SystemState,
    input: Input,
    now: TimeStamp,
    one_second_ticks: u32,
)
    requires
        state.hazard is Active,
    ensures
        ({
            let out = synthesize(state, input, now, one_second_ticks);
            let hazard = is_on(state.hazard, now, one_second_ticks, one_second_ticks);
            &&& out.turn_left_front == hazard
            &&& out.turn_left_rear == hazard
            &&& out.turn_right_front == hazard
            &&& out.turn_right_rear == hazard
        }),
{
}

/// On a tick with the hazard control held, all four turn-indicator channels
/// show the hazard waveform, whatever the turn-signal controls read.
pub proof fn lemma_hazard_control_overrides_turn_controls(
    previous: SystemState,
    input: Input,
    now: TimeStamp,
    one_second_ticks: u32,
)
    requires
        input.hazard_light,
    ensures
        ({
            let state = advance_system(previous, input, now);
            let out = synthesize(state, input, now, one_second_ticks);
            let hazard = is_on(state.hazard, now, one_second_ticks, one_second_ticks);
            &&& state.hazard is Active
            &&& out.turn_left_front == hazard
            &&& out.turn_left_rear == hazard
            &&& out.turn_right_front == hazard
            &&& out.turn_right_rear == hazard
        }),
{
    lemma_hazard_overrides_turn_signals(advance_system(previous, input, now), input, now, one_second_ticks);
}

/// The light modes, by ignition and light switch.
pub proof fn lemma_light_modes(state: SystemState, input: Input, now: TimeStamp, one_second_ticks: u32)
    ensures
        ({
            let out = synthesize(state, input, now, one_second_ticks);
            &&& input.ignition && input.light_on ==> {
                &&& !out.head_light_parking
                &&& out.head_light_lowbeam
                &&& out.head_light_fullbeam == input.full_beam
                &&& out.rear_light
            }
            &&& input.ignition && !input.light_on ==> {
                &&& !out.head_light_parking
                &&& !out.head_light_lowbeam
                &&& !out.head_light_fullbeam
                &&& !out.rear_light
            }
            &&& !input.ignition && input.light_on ==> {
                &&& out.head_light_parking
                &&& !out.head_light_lowbeam
                &&& !out.head_light_fullbeam
                &&& out.rear_light
            }
            &&& !input.ignition && !input.light_on ==> {
                &&& !out.head_light_parking
                &&& !out.head_light_lowbeam
                &&& !out.head_light_fullbeam
                &&& !out.rear_light
            }
        }),
{
}

/// The light channels depend on ignition, light switch and full-beam control
/// alone: neither the blink state, nor the time, nor any other control
/// changes them.
pub proof fn lemma_lights_ignore_the_rest(
    state_a: SystemState,
    input_a: Input,
    now_a: TimeStamp,
    one_second_a: u32,
    state_b: SystemState,
    input_b: Input,
    now_b: TimeStamp,
    one_second_b: u32,
)
    requires
        input_a.ignition == input_b.ignition,
        input_a.light_on == input_b.light_on,
        input_a.full_beam == input_b.full_beam,
    ensures
        ({
            let a = synthesize(state_a, input_a, now_a, one_second_a);
            let b = synthesize(state_b, input_b, now_b, one_second_b);
            &&& a.head_light_parking == b.head_light_parking
            &&& a.head_light_lowbeam == b.head_light_lowbeam
            &&& a.head_light_fullbeam == b.head_light_fullbeam
            &&& a.rear_light == b.rear_light
        }),
{
}

/// Brake light and horn keep no state: the brake light is lit exactly while a
/// brake is applied, the horn sounds exactly while its button is pressed,
/// whatever the blink state and the time.
pub proof fn lemma_brake_and_horn_mirror_controls(
    state: SystemState,
    input: Input,
    now: TimeStamp,
    one_second_ticks: u32,
)
    ensures
        synthesize(state, input, now, one_second_ticks).brake_light == (input.brake_front
            || input.brake_rear),
        synthesize(state, input, now, one_second_ticks).horn == input.horn,
{
}

} // verus!
