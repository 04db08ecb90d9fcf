//! Control core of a motorised multi-filament changer.
//!
//! Two steppers, a servo-driven cutter, an indicator and one sensor input
//! select, cut, unload and load one of four filament strands. The crate holds
//! the decisions and none of the hardware: [`changer::FilamentChanger`] is a
//! machine that names one action at a time for its host to perform, and takes
//! back what the action yielded.
//!
//! - [`signal`]: the actions and the events that pass between machine and host.
//! - [`profile`]: positions, step budgets, step periods and dwell times.
//! - [`decoder`]: from the length of a hold of the sensor to a command.
//! - [`script`]: queues of actions with run-length encoded step pulses.
//! - [`motion`]: the moves of the two steppers and the strokes of the cutter.
//! - [`state`]: the bookkeeping and the procedures that change it.
//! - [`changer`]: the machine.
//! - [`trace`]: the time a sequence of actions takes, and the levels it leaves.
//! - [`theorems`]: what holds of all of it.

pub mod changer;
pub mod decoder;
pub mod motion;
pub mod profile;
pub mod script;
pub mod signal;
pub mod state;
pub mod theorems;
pub mod trace;
