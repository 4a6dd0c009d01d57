use vstd::prelude::*;

pub mod activity;
pub mod cancel_signal;
pub mod control_loop;
pub mod controller;
pub mod resource_cell;

pub use activity::{ActivityEvent, ActivityStep, CyclicActivity, TOGGLE_INTERVAL_MS};
pub use cancel_signal::CancelSignal;
pub use control_loop::{ControlError, ControlLoop, Edge, LoopCommand, LoopPhase};
pub use controller::{Controller, TaskView, TIME_LIMIT_MS};
pub use resource_cell::{AcquireError, ResourceCell};

verus! {

/// Logic level driven onto the output device.
#[derive(Clone, Copy, Debug, PartialEq, Eq, Structural)]
pub enum Level {
    Idle,
    Active,
}

} // verus!
