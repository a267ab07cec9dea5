//! Decision engine of a vehicle auxiliary-power controller.
//!
//! Once per scheduling tick the host samples the driver controls and the
//! hardware tick counter and calls [`tick`]. The engine tracks since when each
//! blinking function (left turn, right turn, hazard) has been continuously
//! requested and decides which power channels are energised at that instant.
//! Every function is pure: the host reads the controls and the counter, and
//! writes the resulting levels to the pins.

pub mod engine;
pub mod input;
pub mod laws;
pub mod lights;
pub mod output;
pub mod signals;
pub mod state;
pub mod time;

pub use crate::engine::{switch_power_output, tick};
pub use crate::input::{read_input, Input};
pub use crate::lights::switch_light_signals;
pub use crate::output::{PowerChannel, PowerOutput};
pub use crate::signals::{caclulate_turn_signal, switch_turn_signals};
pub use crate::state::{update_state, update_system_state, State, SystemState};
pub use crate::time::TimeStamp;
