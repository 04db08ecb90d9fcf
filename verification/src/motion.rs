//! The fixed motions of the two steppers and the cutter.
//!
//! Each motion is stated as the sequence of actions the host performs, and
//! built by a function that appends that sequence to a [`Script`].

use vstd::prelude::*;
use crate::profile::{
    CUT_HOLD, CUT_PAUSE, EXTRUDER_FAST_LOAD_STEP_SPEED, EXTRUDER_SLOW_LOAD_STEP_SPEED,
    EXTRUDER_STEP_SPEED, FAST_LOAD_STEPS, HOMING_SETTLE, HOMING_STEPS, HOMING_STEP_SPEED,
    SELECTOR_STEP_SPEED, SERVO_CUTTING_POSITION, SERVO_RESTING_POSITION, SLOW_LOAD_STEPS,
    UNLOAD_STEPS, load_direction, unload_direction,
};
use crate::script::{Script, pulse_train};
use crate::signal::{Action, Line};

verus! {

/// A selector move of `steps` steps with the direction line at `direction`.
///
/// The extruder driver is switched off before the selector driver is
/// switched on, and the selector driver stays on after the last step.
pub open spec fn selector_move(steps: nat, direction: bool, half_period: u64) -> Seq<Action> {
    seq![
        Action::Drive { line: Line::ExtruderEnable, high: true },
        Action::Drive { line: Line::SelectorEnable, high: false },
        Action::Drive { line: Line::SelectorDirection, high: direction },
    ] + pulse_train(Line::SelectorStep, steps, half_period)
}

/// An extruder move of `steps` steps with the direction line at `direction`.
///
/// The extruder driver is switched on for the move and off again after it;
/// the selector driver is left as it is.
pub open spec fn extruder_move(steps: nat, direction: bool, half_period: u64) -> Seq<Action> {
    seq![
        Action::Drive { line: Line::ExtruderEnable, high: false },
        Action::Drive { line: Line::ExtruderDirection, high: direction },
    ] + pulse_train(Line::ExtruderStep, steps, half_period) + seq![
        Action::Drive { line: Line::ExtruderEnable, high: true },
    ]
}

/// One stroke of the blade: into the filament, hold, and back.
pub open spec fn stroke() -> Seq<Action> {
    seq![
        Action::Servo { position: SERVO_CUTTING_POSITION },
        Action::Sleep { micros: CUT_HOLD },
        Action::Servo { position: SERVO_RESTING_POSITION },
    ]
}

/// The cut: three strokes with a pause after the first and after the second.
pub open spec fn cut() -> Seq<Action> {
    stroke() + seq![Action::Sleep { micros: CUT_PAUSE }] + stroke() + seq![
        Action::Sleep { micros: CUT_PAUSE },
    ] + stroke()
}

/// Steps between two selector positions.
pub open spec fn distance(from: u32, to: u32) -> nat {
    if to > from {
        (to - from) as nat
    } else {
        (from - to) as nat
    }
}

/// The selector move from position `from` to position `to` at the default
/// speed; the direction line is high towards higher positions.
pub open spec fn travel(from: u32, to: u32) -> Seq<Action> {
    selector_move(distance(from, to), to > from, SELECTOR_STEP_SPEED)
}

/// Retracting the strand of `slot`.
pub open spec fn unload(slot: usize) -> Seq<Action> {
    extruder_move(UNLOAD_STEPS as nat, unload_direction(slot as int), EXTRUDER_STEP_SPEED)
}

/// Feeding the strand of `slot`: a fast part, then a slow part.
pub open spec fn load(slot: usize) -> Seq<Action> {
    extruder_move(
        FAST_LOAD_STEPS as nat,
        load_direction(slot as int),
        EXTRUDER_FAST_LOAD_STEP_SPEED,
    ) + extruder_move(
        SLOW_LOAD_STEPS as nat,
        load_direction(slot as int),
        EXTRUDER_SLOW_LOAD_STEP_SPEED,
    )
}

/// Both drivers off.
pub open spec fn drivers_off() -> Seq<Action> {
    seq![
        Action::Drive { line: Line::ExtruderEnable, high: true },
        Action::Drive { line: Line::SelectorEnable, high: true },
    ]
}

/// The blind sweep against the hard stop.
///
/// Both drivers go off and the servo to rest; after the settling time the
/// selector is driven with its direction line low, half of the step budget
/// at the homing speed and the other half at half that speed; then both
/// drivers go off again.
pub open spec fn homing_sweep() -> Seq<Action> {
    drivers_off() + seq![
        Action::Servo { position: SERVO_RESTING_POSITION },
        Action::Sleep { micros: HOMING_SETTLE },
    ] + selector_move((HOMING_STEPS / 2) as nat, false, HOMING_STEP_SPEED) + selector_move(
        (HOMING_STEPS / 2) as nat,
        false,
        (2 * HOMING_STEP_SPEED) as u64,
    ) + drivers_off()
}

/// Appends a selector move; without a `speed` it runs at the default speed.
pub fn move_stepper_selector(
    script: &mut Script,
    steps: u32,
    direction: bool,
    speed: Option<u64>,
)
    ensures
        final(script)@ == old(script)@ + selector_move(
            steps as nat,
            direction,
            match speed {
                Some(half_period) => half_period,
                None => SELECTOR_STEP_SPEED,
            },
        ),
{
    let step_speed = match speed {
        Some(half_period) => half_period,
        None => SELECTOR_STEP_SPEED,
    };
    script.push(Action::Drive { line: Line::ExtruderEnable, high: true });
    script.push(Action::Drive { line: Line::SelectorEnable, high: false });
    script.push(Action::Drive { line: Line::SelectorDirection, high: direction });
    script.pulses(Line::SelectorStep, steps, step_speed);
}

/// Appends an extruder move.
pub fn move_stepper_extruder(script: &mut Script, steps: u32, direction: bool, speed: u64)
    ensures
        final(script)@ == old(script)@ + extruder_move(steps as nat, direction, speed),
{
    script.push(Action::Drive { line: Line::ExtruderEnable, high: false });
    script.push(Action::Drive { line: Line::ExtruderDirection, high: direction });
    script.pulses(Line::ExtruderStep, steps, speed);
    script.push(Action::Drive { line: Line::ExtruderEnable, high: true });
}

/// Appends the cut.
pub fn cut_filament(script: &mut Script)
    ensures
        final(script)@ == old(script)@ + cut(),
{
    let mut strokes: u8 = 0;
    while strokes < 3
        invariant
            strokes <= 3,
            strokes == 0 ==> script@ == old(script)@,
            strokes == 1 ==> script@ == old(script)@ + stroke(),
            strokes == 2 ==> script@ == old(script)@ + stroke() + seq![
                Action::Sleep { micros: CUT_PAUSE },
            ] + stroke(),
            strokes == 3 ==> script@ == old(script)@ + cut(),
        decreases 3 - strokes,
    {
        if strokes > 0 {
            script.push(Action::Sleep { micros: CUT_PAUSE });
        }
        script.push(Action::Servo { position: SERVO_CUTTING_POSITION });
        script.push(Action::Sleep { micros: CUT_HOLD });
        script.push(Action::Servo { position: SERVO_RESTING_POSITION });
        strokes = strokes + 1;
    }
}

/// Appends the selector move from `from` to `to`.
pub fn move_selector_to(script: &mut Script, from: u32, to: u32)
    ensures
        final(script)@ == old(script)@ + travel(from, to),
{
    if to > from {
        move_stepper_selector(script, to - from, true, None);
    } else {
        move_stepper_selector(script, from - to, false, None);
    }
}

/// Appends the blind sweep against the hard stop.
pub fn sweep_home(script: &mut Script)
    ensures
        final(script)@ == old(script)@ + homing_sweep(),
{
    script.push(Action::Drive { line: Line::ExtruderEnable, high: true });
    script.push(Action::Drive { line: Line::SelectorEnable, high: true });
    script.push(Action::Servo { position: SERVO_RESTING_POSITION });
    script.push(Action::Sleep { micros: HOMING_SETTLE });
    let homing_steps_half = HOMING_STEPS / 2;
    move_stepper_selector(script, homing_steps_half, false, Some(HOMING_STEP_SPEED));
    move_stepper_selector(script, homing_steps_half, false, Some(HOMING_STEP_SPEED * 2));
    script.push(Action::Drive { line: Line::ExtruderEnable, high: true });
    script.push(Action::Drive { line: Line::SelectorEnable, high: true });
}

} // verus!
