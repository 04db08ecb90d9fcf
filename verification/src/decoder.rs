//! Decoding of the duration-encoded command signal.
//!
//! A command is signalled by holding the sensor input asserted; how long it
//! was held selects the command. A hold that falls into no window is noise
//! and decodes to nothing: it is too short, or it falls into the gap that
//! keeps the longest selection apart from homing.

use vstd::prelude::*;
use crate::profile::SLOT_COUNT;

verus! {

/// First whole millisecond of the hold that selects each slot.
pub const WINDOW_START: [u64; 4] = [250, 751, 1251, 1751];

/// Last whole millisecond of the hold that selects each slot.
pub const WINDOW_END: [u64; 4] = [750, 1250, 1750, 2250];

/// Shortest hold, in whole milliseconds, that requests homing.
pub const HOME_THRESHOLD: u64 = 2750;

/// A decoded command.
#[derive(Clone, Copy, Debug, PartialEq, Eq, Structural)]
pub enum Command {
    /// Find the hard stop again.
    Home,
    /// Engage the given slot.
    Select(usize),
}

/// Whether a hold of `millis` whole milliseconds falls into the window of `slot`.
pub open spec fn in_window(millis: int, slot: int) -> bool {
    0 <= slot < SLOT_COUNT && WINDOW_START[slot] <= millis <= WINDOW_END[slot]
}

/// The command encoded by a hold of `millis` whole milliseconds.
pub open spec fn decoded(millis: int) -> Option<Command> {
    if millis >= HOME_THRESHOLD {
        Some(Command::Home)
    } else if in_window(millis, 0) {
        Some(Command::Select(0))
    } else if in_window(millis, 1) {
        Some(Command::Select(1))
    } else if in_window(millis, 2) {
        Some(Command::Select(2))
    } else if in_window(millis, 3) {
        Some(Command::Select(3))
    } else {
        None
    }
}

/// Decodes a hold of `millis` whole milliseconds.
pub fn decode(millis: u64) -> (command: Option<Command>)
    ensures
        command == decoded(millis as int),
        command matches Some(Command::Select(slot)) ==> slot < SLOT_COUNT,
{
    if millis >= HOME_THRESHOLD {
        return Some(Command::Home);
    }
    let mut slot: usize = 0;
    while slot < SLOT_COUNT
        invariant
            slot <= SLOT_COUNT,
            millis < HOME_THRESHOLD,
            forall|earlier: int| 0 <= earlier < slot ==> !#[trigger] in_window(millis as int, earlier),
        decreases SLOT_COUNT - slot,
    {
        if WINDOW_START[slot] <= millis && millis <= WINDOW_END[slot] {
            return Some(Command::Select(slot));
        }
        slot = slot + 1;
    }
    None
}

/// Decodes a hold of `micros` microseconds: the whole milliseconds count.
pub fn decode_hold(micros: u64) -> (command: Option<Command>)
    ensures
        command == decoded(micros as int / 1000),
        command matches Some(Command::Select(slot)) ==> slot < SLOT_COUNT,
{
    decode(micros / 1000)
}

} // verus!
