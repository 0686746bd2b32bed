//! Control logic of the nitrous fill box panel: valve and stream status,
//! the commands sent to the pad station, and the panel's state machine.

mod text;
pub mod badge;
pub mod endpoints;
pub mod laws;
pub mod panel;
pub mod reply;
pub mod status;

pub use status::{color_map, map_to_valve_state, valve_actions, ConnectionStatus, ValveState};
