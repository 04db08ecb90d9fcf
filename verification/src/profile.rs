//! The motion profile: positions, step budgets, step periods and dwell times.
//!
//! Positions and step budgets are in motor steps, times in microseconds,
//! servo positions in microseconds of pulse width.

use vstd::prelude::*;

verus! {

/// Number of filament slots.
pub const SLOT_COUNT: usize = 4;

/// Servo position at which the blade is clear of the filament.
pub const SERVO_RESTING_POSITION: u16 = 900;

/// Servo position at which the blade has passed through the filament.
pub const SERVO_CUTTING_POSITION: u16 = 1600;

/// Steps of the blind sweep against the hard stop.
pub const HOMING_STEPS: u32 = 2624;

/// Select position of slot 0.
pub const FILAMENT_START_OFFSET: u32 = 56;

/// Steps between the select positions of neighbouring slots.
pub const FILAMENT_DISTANCE: u32 = 800;

/// Select position of each slot.
pub const FILAMENT_POSITIONS: [u32; 4] = [56, 856, 1656, 2456];

/// Rest position of each slot: the select position of its partner.
pub const FILAMENT_RESTING_POSITIONS: [u32; 4] = [856, 56, 2456, 1656];

/// Largest select position, and so the longest selector move.
pub const MAX_POSITION: u32 = 2456;

/// Steps that retract a strand out of the shared path.
pub const UNLOAD_STEPS: u32 = 14500;

/// Steps of the fast part of loading.
pub const FAST_LOAD_STEPS: u32 = 15000;

/// Steps of the slow part of loading.
pub const SLOW_LOAD_STEPS: u32 = 12500;

/// Half-period of the fast part of loading.
pub const EXTRUDER_FAST_LOAD_STEP_SPEED: u64 = 133;

/// Half-period of the slow part of loading.
pub const EXTRUDER_SLOW_LOAD_STEP_SPEED: u64 = 240;

/// Half-period of unloading.
pub const EXTRUDER_STEP_SPEED: u64 = 100;

/// Half-period of selector moves between slots.
pub const SELECTOR_STEP_SPEED: u64 = 500;

/// Half-period of the first half of the homing sweep.
pub const HOMING_STEP_SPEED: u64 = 1000;

/// Time one selector step takes at the default speed.
pub const SELECTOR_STEP_PERIOD: u64 = 1000;

/// Time the longest selector move takes at the default speed.
pub const MAX_TRAVEL_TIME: u64 = 2_456_000;

/// Time the blade is held in the filament.
pub const CUT_HOLD: u64 = 750_000;

/// Pause between two strokes of the blade.
pub const CUT_PAUSE: u64 = 500_000;

/// Time the mechanism is given to settle before the homing sweep.
pub const HOMING_SETTLE: u64 = 2_000_000;

/// Time between two samples of an idle sensor.
pub const IDLE_POLL_INTERVAL: u64 = 25_000;

/// Time between two samples of an asserted sensor.
pub const HELD_POLL_INTERVAL: u64 = 10_000;

/// Time after which the indicator changes while the sensor is asserted.
pub const BLINK_INTERVAL: u64 = 500_000;

/// Select position of `slot`.
pub open spec fn select_position(slot: int) -> int {
    FILAMENT_START_OFFSET + slot * FILAMENT_DISTANCE
}

/// The slot whose select position is the rest position of `slot`.
pub open spec fn partner(slot: int) -> int {
    if slot % 2 == 0 {
        slot + 1
    } else {
        slot - 1
    }
}

/// Rest position of `slot`.
pub open spec fn rest_position(slot: int) -> int {
    select_position(partner(slot))
}

/// Level of the extruder's direction line that retracts the strand of `slot`.
pub open spec fn unload_direction(slot: int) -> bool {
    slot < 2
}

/// Level of the extruder's direction line that feeds the strand of `slot`.
pub open spec fn load_direction(slot: int) -> bool {
    slot >= 2
}

/// The select position of `slot`, read from the table.
pub fn filament_position(slot: usize) -> (position: u32)
    requires
        slot < SLOT_COUNT,
    ensures
        position == select_position(slot as int),
        position <= MAX_POSITION,
{
    FILAMENT_POSITIONS[slot]
}

/// The rest position of `slot`, read from the table.
pub fn filament_resting_position(slot: usize) -> (position: u32)
    requires
        slot < SLOT_COUNT,
    ensures
        position == rest_position(slot as int),
        position <= MAX_POSITION,
{
    FILAMENT_RESTING_POSITIONS[slot]
}

} // verus!
