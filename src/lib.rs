//! Garage door monitor: the door's logical state, the shared state record and
//! the rules that move it, the open-too-long alert policy and the status view.
pub mod alert;
pub mod door_state;
pub mod episode;
pub mod state;
pub mod status;

pub use door_state::{AtomicDoorState, DoorState};
pub use state::{State, Timestamp};
