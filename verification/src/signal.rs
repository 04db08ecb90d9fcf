//! What the changer asks of its host, and what the host reports back.
//!
//! The changer owns no hardware. It names each output line it wants driven
//! and each reading it needs; the host performs one [`Action`] at a time and
//! answers with an [`Event`].

use vstd::prelude::*;

verus! {

/// A digital output line.
#[derive(Clone, Copy, Debug, PartialEq, Eq, Structural)]
pub enum Line {
    /// Direction input of the selector driver.
    SelectorDirection,
    /// Step input of the selector driver.
    SelectorStep,
    /// Enable input of the selector driver; the driver is energised while it is low.
    SelectorEnable,
    /// Direction input of the extruder driver.
    ExtruderDirection,
    /// Step input of the extruder driver.
    ExtruderStep,
    /// Enable input of the extruder driver; the driver is energised while it is low.
    ExtruderEnable,
    /// Status indicator.
    Indicator,
}

/// One thing for the host to do.
#[derive(Clone, Copy, Debug, PartialEq, Eq, Structural)]
pub enum Action {
    /// Drive `line` high or low.
    Drive { line: Line, high: bool },
    /// Set the cutter servo to the given pulse position.
    Servo { position: u16 },
    /// Suspend for the given number of microseconds.
    Sleep { micros: u64 },
    /// Sample the sensor input and report it as [`Event::Sensor`].
    ReadSensor,
    /// Read the monotonic clock and report it as [`Event::Clock`].
    ReadClock,
}

/// What the host reports after performing an action.
#[derive(Clone, Copy, Debug, PartialEq, Eq, Structural)]
pub enum Event {
    /// The action has been performed; it yields no reading.
    Done,
    /// Level of the sensor input.
    Sensor { asserted: bool },
    /// Microseconds on the monotonic clock.
    Clock { micros: u64 },
}

/// Microseconds from `earlier` to `later`, or zero if `later` is not after `earlier`.
pub open spec fn elapsed_between(earlier: u64, later: u64) -> u64 {
    if later >= earlier {
        (later - earlier) as u64
    } else {
        0
    }
}

/// Microseconds from `earlier` to `later` on the monotonic clock.
///
/// A reading that runs backwards counts as no time at all.
pub fn elapsed(earlier: u64, later: u64) -> (micros: u64)
    ensures
        micros == elapsed_between(earlier, later),
{
    if later >= earlier {
        later - earlier
    } else {
        0
    }
}

} // verus!
