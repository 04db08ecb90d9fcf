//! What holds of the changer whatever the host reports.

use vstd::prelude::*;
use crate::changer::{Machine, Stage, idle_round};
use crate::decoder::{Command, HOME_THRESHOLD, WINDOW_END, WINDOW_START, decoded, in_window};
use crate::motion::{
    cut, distance, drivers_off, extruder_move, homing_sweep, load, selector_move, travel, unload,
};
use crate::profile::{
    FILAMENT_POSITIONS, FILAMENT_RESTING_POSITIONS, HOMING_SETTLE, HOMING_STEPS,
    HOMING_STEP_SPEED, MAX_POSITION, MAX_TRAVEL_TIME, SELECTOR_STEP_PERIOD, SELECTOR_STEP_SPEED,
    SERVO_RESTING_POSITION, SLOT_COUNT, load_direction, partner, rest_position, select_position,
    unload_direction,
};
use crate::script::pulse_train;
use crate::signal::{Action, Event, Line, elapsed_between};
use crate::state::{ChangerState, equalization, equalization_delay};
use crate::trace::{
    drives, duration, level_after, lemma_duration_concat, lemma_duration_pulse_train,
    lemma_duration_single, lemma_level_concat, lemma_level_last_driven, lemma_level_untouched,
};

verus! {

/// The two tables and the derived times agree with the spacing they are built from.
pub proof fn theorem_tables()
    ensures
        forall|slot: int|
            0 <= slot < SLOT_COUNT ==> FILAMENT_POSITIONS[slot] == #[trigger] select_position(
                slot,
            ),
        forall|slot: int|
            0 <= slot < SLOT_COUNT ==> FILAMENT_RESTING_POSITIONS[slot] == #[trigger] rest_position(
                slot,
            ),
        MAX_POSITION == select_position(SLOT_COUNT - 1),
        SELECTOR_STEP_PERIOD == 2 * SELECTOR_STEP_SPEED,
        MAX_TRAVEL_TIME == SELECTOR_STEP_PERIOD * MAX_POSITION,
{
}

/// The rest positions are the select positions with the slots swapped in
/// pairs, 0 with 1 and 2 with 3: no slot rests where it is selected.
pub proof fn theorem_rest_is_partner(slot: int)
    requires
        0 <= slot < SLOT_COUNT,
    ensures
        0 <= partner(slot) < SLOT_COUNT,
        partner(slot) != slot,
        partner(partner(slot)) == slot,
        partner(slot) / 2 == slot / 2,
        rest_position(slot) != select_position(slot),
        rest_position(partner(slot)) == select_position(slot),
{
}

/// The windows lie in order and apart: each ends before the next begins,
/// and the last ends before homing begins.
pub proof fn theorem_windows_are_ordered(slot: int)
    requires
        0 <= slot < SLOT_COUNT,
    ensures
        WINDOW_START[slot] <= WINDOW_END[slot],
        slot + 1 < SLOT_COUNT ==> WINDOW_END[slot] < WINDOW_START[slot + 1],
        WINDOW_END[slot] < HOME_THRESHOLD,
{
}

/// A hold encodes at most one command: a slot exactly when it falls into
/// the window of that slot, homing exactly from the threshold on, and
/// nothing exactly when it is below the threshold and in no window.
pub proof fn theorem_decoding_is_exact(millis: int)
    ensures
        forall|slot: int| #[trigger]
            in_window(millis, slot) <==> decoded(millis) == Some(Command::Select(slot as usize))
                && 0 <= slot < SLOT_COUNT,
        decoded(millis) == Some(Command::Home) <==> millis >= HOME_THRESHOLD,
        decoded(millis) matches Some(Command::Select(slot)) ==> slot < SLOT_COUNT,
        decoded(millis).is_none() <==> millis < HOME_THRESHOLD && forall|slot: int|
            !#[trigger] in_window(millis, slot),
{
}

/// A selector move takes its steps times two half-periods.
pub proof fn theorem_selector_move_duration(steps: nat, direction: bool, half_period: u64)
    ensures
        duration(selector_move(steps, direction, half_period)) == steps * (2 * half_period),
{
    let setup = seq![
        Action::Drive { line: Line::ExtruderEnable, high: true },
        Action::Drive { line: Line::SelectorEnable, high: false },
        Action::Drive { line: Line::SelectorDirection, high: direction },
    ];
    lemma_duration_without_waits(setup);
    lemma_duration_concat(setup, pulse_train(Line::SelectorStep, steps, half_period));
    lemma_duration_pulse_train(Line::SelectorStep, steps, half_period);
}

/// An extruder move takes its steps times two half-periods.
pub proof fn theorem_extruder_move_duration(steps: nat, direction: bool, half_period: u64)
    ensures
        duration(extruder_move(steps, direction, half_period)) == steps * (2 * half_period),
{
    let setup = seq![
        Action::Drive { line: Line::ExtruderEnable, high: false },
        Action::Drive { line: Line::ExtruderDirection, high: direction },
    ];
    let train = pulse_train(Line::ExtruderStep, steps, half_period);
    let off = seq![Action::Drive { line: Line::ExtruderEnable, high: true }];
    lemma_duration_without_waits(setup);
    lemma_duration_without_waits(off);
    lemma_duration_concat(setup, train);
    lemma_duration_concat(setup + train, off);
    lemma_duration_pulse_train(Line::ExtruderStep, steps, half_period);
}

/// Actions that are no waits take no time.
proof fn lemma_duration_without_waits(actions: Seq<Action>)
    requires
        forall|i: int| 0 <= i < actions.len() ==> !(#[trigger] actions[i] is Sleep),
    ensures
        duration(actions) == 0,
    decreases actions.len(),
{
    if actions.len() > 0 {
        lemma_duration_without_waits(actions.drop_last());
    }
}

/// Every selection takes the same time. From any position on the axis, the
/// move to the select position of any slot takes no longer than the longest
/// move; and if the host measures the move at what its waits add up to, the
/// move and the equalising wait together take exactly as long as the longest
/// move.
pub proof fn theorem_selection_time_is_constant(position: u32, slot: usize)
    requires
        position <= MAX_POSITION,
        slot < SLOT_COUNT,
    ensures
        duration(travel(position, select_position(slot as int) as u32)) <= MAX_TRAVEL_TIME,
        duration(
            travel(position, select_position(slot as int) as u32) + equalization(
                duration(travel(position, select_position(slot as int) as u32)) as u64,
            ),
        ) == MAX_TRAVEL_TIME,
{
    let target = select_position(slot as int) as u32;
    let steps = distance(position, target);
    let moved = travel(position, target);
    theorem_selector_move_duration(steps, target > position, SELECTOR_STEP_SPEED);
    assert(steps * (2 * SELECTOR_STEP_SPEED) <= MAX_TRAVEL_TIME) by (nonlinear_arith)
        requires
            steps <= 2456,
            SELECTOR_STEP_SPEED == 500,
            MAX_TRAVEL_TIME == 2_456_000,
    ;
    let measured = duration(moved) as u64;
    lemma_duration_concat(moved, equalization(measured));
    if equalization_delay(measured) > 0 {
        lemma_duration_single(Action::Sleep { micros: equalization_delay(measured) });
    }
}

/// The time from the start of a selector move to the end of the equalising
/// wait, when the host measured the move at `elapsed` microseconds.
pub open spec fn selection_time(elapsed: u64) -> nat {
    (elapsed + equalization_delay(elapsed)) as nat
}

/// Selections from one position take the same time to within a step. If for
/// each of two slots the host measures the selector move at less than one
/// step period above what its waits add up to, the two selections, each with
/// its equalising wait, differ by less than one step period.
pub proof fn theorem_selection_times_agree(
    position: u32,
    first: usize,
    second: usize,
    first_elapsed: u64,
    second_elapsed: u64,
)
    requires
        position <= MAX_POSITION,
        first < SLOT_COUNT,
        second < SLOT_COUNT,
        first_elapsed < duration(travel(position, select_position(first as int) as u32))
            + SELECTOR_STEP_PERIOD,
        second_elapsed < duration(travel(position, select_position(second as int) as u32))
            + SELECTOR_STEP_PERIOD,
    ensures
        selection_time(first_elapsed) - selection_time(second_elapsed) < SELECTOR_STEP_PERIOD,
        selection_time(second_elapsed) - selection_time(first_elapsed) < SELECTOR_STEP_PERIOD,
{
    theorem_selection_time_is_constant(position, first);
    theorem_selection_time_is_constant(position, second);
}

/// The extruder driver is off throughout a selector move: after the first
/// action of the move and after every later one, whatever the level of its
/// enable line was before.
pub proof fn theorem_extruder_off_during_selector_move(
    steps: nat,
    direction: bool,
    half_period: u64,
    before: bool,
    done: int,
)
    requires
        1 <= done <= selector_move(steps, direction, half_period).len(),
    ensures
        level_after(
            selector_move(steps, direction, half_period).take(done),
            Line::ExtruderEnable,
            before,
        ) == true,
{
    let part = selector_move(steps, direction, half_period).take(done);
    lemma_level_last_driven(part, Line::ExtruderEnable, before, 0, true);
}

/// A selector move leaves the selector driver on, to hold its place, and
/// the extruder driver off.
pub proof fn theorem_selector_holds_after_move(
    steps: nat,
    direction: bool,
    half_period: u64,
    before: bool,
)
    ensures
        level_after(selector_move(steps, direction, half_period), Line::SelectorEnable, before)
            == false,
        level_after(selector_move(steps, direction, half_period), Line::ExtruderEnable, before)
            == true,
{
    let whole = selector_move(steps, direction, half_period);
    lemma_level_last_driven(whole, Line::SelectorEnable, before, 1, false);
    lemma_level_last_driven(whole, Line::ExtruderEnable, before, 0, true);
}

/// An extruder move leaves the extruder driver off.
pub proof fn theorem_extruder_rests_after_move(
    steps: nat,
    direction: bool,
    half_period: u64,
    before: bool,
)
    ensures
        level_after(extruder_move(steps, direction, half_period), Line::ExtruderEnable, before)
            == true,
{
}

/// The homing sweep leaves both drivers off.
pub proof fn theorem_drivers_rest_after_homing(before: bool)
    ensures
        level_after(homing_sweep(), Line::SelectorEnable, before) == true,
        level_after(homing_sweep(), Line::ExtruderEnable, before) == true,
{
    let whole = homing_sweep();
    lemma_level_last_driven(whole, Line::ExtruderEnable, before, whole.len() - 2, true);
}

/// The selector driver is left as it was throughout an extruder move: after
/// any number of its actions the selector's enable line is at the level it
/// had before the move.
pub proof fn theorem_selector_kept_during_extruder_move(
    steps: nat,
    direction: bool,
    half_period: u64,
    before: bool,
    done: int,
)
    requires
        0 <= done <= extruder_move(steps, direction, half_period).len(),
    ensures
        level_after(
            extruder_move(steps, direction, half_period).take(done),
            Line::SelectorEnable,
            before,
        ) == before,
{
    let whole = extruder_move(steps, direction, half_period);
    let part = whole.take(done);
    lemma_level_untouched(part, Line::SelectorEnable, before);
}

/// Whether `actions` switch the selector driver off somewhere.
pub open spec fn releases_selector(actions: Seq<Action>) -> bool {
    exists|i: int|
        0 <= i < actions.len() && #[trigger] actions[i] == (Action::Drive {
            line: Line::SelectorEnable,
            high: true,
        })
}

/// Only homing switches the selector driver off. Releasing a strand,
/// selecting a slot, and feeding and parking all leave it on once the
/// selector has moved, so that it holds its place between moves.
pub proof fn theorem_only_homing_releases_selector(state: ChangerState, slot: usize, elapsed: u64)
    ensures
        !releases_selector(state.release_ops()),
        !releases_selector(state.select_ops(slot)),
        !releases_selector(state.settle_ops(elapsed)),
        releases_selector(homing_sweep()),
{
    assert(homing_sweep()[1] == Action::Drive { line: Line::SelectorEnable, high: true });
}

/// Slots 0 and 1 are retracted with the direction line at one level and fed
/// with it at the other; slots 2 and 3 the other way round. The level that
/// feeds a strand is never the level that retracts it.
pub proof fn theorem_direction_parity(slot: usize, other: usize)
    requires
        slot < SLOT_COUNT,
        other < SLOT_COUNT,
    ensures
        (slot < 2) == (other < 2) ==> unload_direction(slot as int) == unload_direction(
            other as int,
        ) && load_direction(slot as int) == load_direction(other as int),
        (slot < 2) != (other < 2) ==> unload_direction(slot as int) != unload_direction(
            other as int,
        ) && load_direction(slot as int) != load_direction(other as int),
        load_direction(slot as int) != unload_direction(slot as int),
        unload(slot)[1] == (Action::Drive {
            line: Line::ExtruderDirection,
            high: unload_direction(slot as int),
        }),
        load(slot)[1] == (Action::Drive {
            line: Line::ExtruderDirection,
            high: load_direction(slot as int),
        }),
{
}

/// A script is handed out as it stands. While actions are pending, one step
/// for each of them hands them out in order, whatever the events are, and
/// changes nothing else.
pub proof fn theorem_script_is_handed_out(machine: Machine, events: Seq<Event>)
    requires
        events.len() == machine.pending.len(),
    ensures
        machine.handed_out(events) == machine.pending,
        machine.after(events) == machine.drained(),
    decreases events.len(),
{
    if events.len() == 0 {
    } else {
        let next = machine.step(events[0]);
        theorem_script_is_handed_out(next, events.drop_first());
    }
}

/// Homing resets the bookkeeping: whatever the state was, homing leaves
/// nothing engaged and the position at zero, at power-up and on command.
pub proof fn theorem_homing_resets(machine: Machine, event: Event)
    ensures
        machine.dispatch(Some(Command::Home)).state == ChangerState::origin(),
        machine.stage is Boot ==> machine.react(event).state == ChangerState::origin(),
{
}

/// The machine always has an action for its host, and stays valid. A
/// reading that arrives when nothing is pending plans a script of at least
/// one action; so every step hands out an action, and leaves a valid
/// machine valid.
pub proof fn theorem_machine_goes_on(machine: Machine, event: Event)
    requires
        machine.wf(),
    ensures
        machine.react(event).pending.len() > 0,
        machine.react(event).wf(),
        machine.ready(event).pending.len() > 0,
        machine.step(event).wf(),
{
}

/// A hold that encodes nothing changes nothing. When the hold that ends at
/// the reading `micros` falls into no window, the bookkeeping stays as it is
/// and the host is asked for nothing but the idle pause and the next sample.
pub proof fn theorem_noise_changes_nothing(machine: Machine, since: u64, micros: u64)
    requires
        machine.stage == (Stage::Released { since }),
        decoded(elapsed_between(since, micros) as int / 1000).is_none(),
    ensures
        machine.react(Event::Clock { micros }).state == machine.state,
        machine.react(Event::Clock { micros }).pending == idle_round(),
        machine.react(Event::Clock { micros }).stage == Stage::Idle,
{
}

/// A change parks the selector. After a whole change to a slot, that slot is
/// engaged and the selector stands at its rest position, whatever was
/// engaged before and whatever the clock read.
pub proof fn theorem_change_parks(machine: Machine, slot: usize, begun: u64, moved: u64)
    requires
        machine.wf(),
        machine.stage is Released,
        slot < SLOT_COUNT,
    ensures
        machine.changed(slot, begun, moved).state == ChangerState::resting(slot),
        machine.changed(slot, begun, moved).stage == Stage::Idle,
        machine.changed(slot, begun, moved).wf(),
{
}

/// Selecting the engaged slot again moves nothing. After a whole change to a
/// slot, a second command for the same slot leaves the bookkeeping as it is
/// and asks the host for nothing but the idle pause and the next sample: no
/// line is driven and the servo is not moved.
pub proof fn theorem_repeated_selection_moves_nothing(
    machine: Machine,
    slot: usize,
    begun: u64,
    moved: u64,
)
    requires
        machine.wf(),
        machine.stage is Released,
        slot < SLOT_COUNT,
    ensures
        machine.changed(slot, begun, moved).dispatch(Some(Command::Select(slot))).state
            == machine.changed(slot, begun, moved).state,
        machine.changed(slot, begun, moved).dispatch(Some(Command::Select(slot))).pending
            == idle_round(),
        forall|i: int|
            0 <= i < idle_round().len() ==> !(#[trigger] idle_round()[i] is Drive) && !(
            idle_round()[i] is Servo),
{
}

/// Whether every step of the selector in `actions` finds the extruder driver
/// off, whatever the level of its enable line was before `actions`.
pub open spec fn guarded(actions: Seq<Action>) -> bool {
    forall|before: bool, i: int|
        0 <= i < actions.len() && drives(actions[i], Line::SelectorStep) ==> #[trigger] level_after(
            actions.take(i),
            Line::ExtruderEnable,
            before,
        )
}

proof fn lemma_guarded_concat(first: Seq<Action>, second: Seq<Action>)
    requires
        guarded(first),
        guarded(second),
    ensures
        guarded(first + second),
{
    let both = first + second;
    assert forall|before: bool, i: int|
        0 <= i < both.len() && drives(both[i], Line::SelectorStep) implies #[trigger] level_after(
        both.take(i),
        Line::ExtruderEnable,
        before,
    ) by {
        if i < first.len() {
            assert(both.take(i) =~= first.take(i));
        } else {
            let j = i - first.len();
            assert(both.take(i) =~= first + second.take(j));
            lemma_level_concat(first, second.take(j), Line::ExtruderEnable, before);
        }
    }
}

proof fn lemma_guarded_selector_move(steps: nat, direction: bool, half_period: u64)
    ensures
        guarded(selector_move(steps, direction, half_period)),
{
    let whole = selector_move(steps, direction, half_period);
    assert forall|before: bool, i: int|
        0 <= i < whole.len() && drives(whole[i], Line::SelectorStep) implies #[trigger] level_after(
        whole.take(i),
        Line::ExtruderEnable,
        before,
    ) by {
        theorem_extruder_off_during_selector_move(steps, direction, half_period, before, i);
    }
}

proof fn lemma_guarded_release(state: ChangerState)
    ensures
        guarded(state.release_ops()),
{
    if let Some(slot) = state.current_filament {
        let back = travel(state.current_position, select_position(slot as int) as u32);
        lemma_guarded_selector_move(
            distance(state.current_position, select_position(slot as int) as u32),
            select_position(slot as int) as u32 > state.current_position,
            SELECTOR_STEP_SPEED,
        );
        lemma_guarded_concat(cut(), back);
        lemma_guarded_concat(cut() + back, unload(slot));
    }
}

proof fn lemma_guarded_home(state: ChangerState)
    ensures
        guarded(state.home_ops()),
{
    let settle = seq![
        Action::Servo { position: SERVO_RESTING_POSITION },
        Action::Sleep { micros: HOMING_SETTLE },
    ];
    let fast = selector_move((HOMING_STEPS / 2) as nat, false, HOMING_STEP_SPEED);
    let slow = selector_move((HOMING_STEPS / 2) as nat, false, (2 * HOMING_STEP_SPEED) as u64);
    lemma_guarded_release(state);
    lemma_guarded_selector_move((HOMING_STEPS / 2) as nat, false, HOMING_STEP_SPEED);
    lemma_guarded_selector_move(
        (HOMING_STEPS / 2) as nat,
        false,
        (2 * HOMING_STEP_SPEED) as u64,
    );
    lemma_guarded_concat(drivers_off() + settle, fast);
    lemma_guarded_concat(drivers_off() + settle + fast, slow);
    lemma_guarded_concat(drivers_off() + settle + fast + slow, drivers_off());
    lemma_guarded_concat(state.release_ops(), homing_sweep());
}

proof fn lemma_guarded_settle(state: ChangerState, elapsed: u64)
    ensures
        guarded(state.settle_ops(elapsed)),
{
    if let Some(slot) = state.current_filament {
        lemma_guarded_selector_move(
            distance(state.current_position, rest_position(slot as int) as u32),
            rest_position(slot as int) as u32 > state.current_position,
            SELECTOR_STEP_SPEED,
        );
    }
    lemma_guarded_concat(equalization(elapsed) + state.load_ops(), state.park_ops());
}

/// The two drivers are never on together while the selector steps. In every
/// script that the machine plans, each step of the selector comes after the
/// extruder driver has been switched off within the same script, so that it
/// finds the extruder off whatever went before.
pub proof fn theorem_scripts_are_guarded(machine: Machine, event: Event)
    ensures
        guarded(machine.react(event).pending),
{
    lemma_guarded_home(machine.state);
    lemma_guarded_release(machine.state);
    match machine.stage {
        Stage::Boot => {
            lemma_guarded_concat(machine.state.home_ops(), seq![Action::ReadSensor]);
        },
        Stage::Released { since } => {
            lemma_guarded_concat(machine.state.home_ops(), idle_round());
            lemma_guarded_concat(machine.state.release_ops(), seq![Action::ReadClock]);
        },
        Stage::Selecting { target } => {
            lemma_guarded_selector_move(
                distance(machine.state.current_position, select_position(target as int) as u32),
                select_position(target as int) as u32 > machine.state.current_position,
                SELECTOR_STEP_SPEED,
            );
            lemma_guarded_concat(machine.state.select_ops(target), seq![Action::ReadClock]);
        },
        Stage::Equalizing { started } => {
            if let Event::Clock { micros } = event {
                let took = elapsed_between(started, micros);
                lemma_guarded_settle(machine.state, took);
                lemma_guarded_concat(machine.state.settle_ops(took), idle_round());
            }
        },
        _ => {},
    }
}

} // verus!
