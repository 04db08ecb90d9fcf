use filament_changer::profile::{filament_position, filament_resting_position};
use filament_changer::script::Script;
use filament_changer::signal::{Action, Line};
use filament_changer::state::ChangerState;

fn drain(script: &mut Script) -> Vec<Action> {
    let mut actions = Vec::new();
    while let Some(action) = script.next() {
        actions.push(action);
    }
    actions
}

fn total_wait(actions: &[Action]) -> u64 {
    let mut total = 0;
    for action in actions {
        if let Action::Sleep { micros } = action {
            total += micros;
        }
    }
    total
}

fn rising_edges(actions: &[Action], line: Line) -> usize {
    actions.iter().filter(|action| **action == Action::Drive { line, high: true }).count()
}

fn direction(actions: &[Action], line: Line) -> Vec<bool> {
    let mut levels = Vec::new();
    for action in actions {
        if let Action::Drive { line: driven, high } = action {
            if *driven == line {
                levels.push(*high);
            }
        }
    }
    levels
}

fn servo_moves(actions: &[Action]) -> usize {
    actions.iter().filter(|action| matches!(action, Action::Servo { .. })).count()
}

#[test]
fn the_tables_are_evenly_spaced_and_paired() {
    assert_eq!(filament_position(0), 56);
    assert_eq!(filament_position(1), 856);
    assert_eq!(filament_position(2), 1656);
    assert_eq!(filament_position(3), 2456);
    assert_eq!(filament_resting_position(0), 856);
    assert_eq!(filament_resting_position(1), 56);
    assert_eq!(filament_resting_position(2), 2456);
    assert_eq!(filament_resting_position(3), 1656);
    for slot in 0..4 {
        assert_ne!(filament_position(slot), filament_resting_position(slot));
    }
}

#[test]
fn a_new_state_has_nothing_engaged() {
    let state = ChangerState::new();
    assert_eq!(state.current_filament, None);
    assert_eq!(state.current_position, 0);
}

#[test]
fn moving_to_a_filament_engages_it() {
    let mut state = ChangerState::new();
    let mut script = Script::new();
    state.move_to_filament(&mut script, 2);
    assert_eq!(state, ChangerState { current_filament: Some(2), current_position: 1656 });
    let actions = drain(&mut script);
    assert_eq!(rising_edges(&actions, Line::SelectorStep), 1656);
    assert_eq!(direction(&actions, Line::SelectorDirection), vec![true]);
}

#[test]
fn parking_moves_to_the_partner_slot() {
    let mut state = ChangerState { current_filament: Some(3), current_position: 2456 };
    let mut script = Script::new();
    state.move_to_resting_position(&mut script);
    assert_eq!(state, ChangerState { current_filament: Some(3), current_position: 1656 });
    let actions = drain(&mut script);
    assert_eq!(rising_edges(&actions, Line::SelectorStep), 800);
    assert_eq!(direction(&actions, Line::SelectorDirection), vec![false]);
}

#[test]
fn parking_with_nothing_engaged_does_nothing() {
    let mut state = ChangerState { current_filament: None, current_position: 700 };
    let mut script = Script::new();
    state.move_to_resting_position(&mut script);
    assert_eq!(state, ChangerState { current_filament: None, current_position: 700 });
    assert!(script.is_empty());
}

#[test]
fn slots_0_and_1_unload_one_way_and_slots_2_and_3_the_other() {
    let mut unloads = Vec::new();
    let mut loads = Vec::new();
    for slot in 0..4 {
        let state = ChangerState { current_filament: Some(slot), current_position: 0 };
        let mut script = Script::new();
        state.unload_filament(&mut script);
        let actions = drain(&mut script);
        assert_eq!(rising_edges(&actions, Line::ExtruderStep), 14500);
        assert_eq!(total_wait(&actions), 14500 * 200);
        unloads.push(direction(&actions, Line::ExtruderDirection));
        state.load_filament(&mut script);
        let actions = drain(&mut script);
        assert_eq!(rising_edges(&actions, Line::ExtruderStep), 15000 + 12500);
        assert_eq!(total_wait(&actions), 15000 * 266 + 12500 * 480);
        loads.push(direction(&actions, Line::ExtruderDirection));
    }
    assert_eq!(unloads, vec![vec![true], vec![true], vec![false], vec![false]]);
    assert_eq!(
        loads,
        vec![vec![false, false], vec![false, false], vec![true, true], vec![true, true]]
    );
}

#[test]
fn unloading_by_a_given_length_takes_that_many_steps() {
    let state = ChangerState { current_filament: Some(1), current_position: 56 };
    let mut script = Script::new();
    state.unload_filament_by(&mut script, 1530, 100);
    let actions = drain(&mut script);
    assert_eq!(rising_edges(&actions, Line::ExtruderStep), 1530);
    assert_eq!(direction(&actions, Line::ExtruderDirection), vec![true]);
}

#[test]
fn loading_and_unloading_need_an_engaged_strand() {
    let state = ChangerState::new();
    let mut script = Script::new();
    state.unload_filament(&mut script);
    state.unload_filament_by(&mut script, 10, 100);
    state.load_filament(&mut script);
    assert!(script.is_empty());
}

#[test]
fn changing_to_the_engaged_slot_does_nothing() {
    let mut state = ChangerState { current_filament: Some(2), current_position: 2456 };
    let mut script = Script::new();
    assert_eq!(state.change_filament(&mut script, Some(2)), None);
    assert!(script.is_empty());
    assert_eq!(state, ChangerState { current_filament: Some(2), current_position: 2456 });
}

#[test]
fn changing_to_nothing_with_nothing_engaged_does_nothing() {
    let mut state = ChangerState { current_filament: None, current_position: 300 };
    let mut script = Script::new();
    assert_eq!(state.change_filament(&mut script, None), None);
    assert!(script.is_empty());
    assert_eq!(state, ChangerState { current_filament: None, current_position: 300 });
}

#[test]
fn the_first_change_releases_nothing() {
    let mut state = ChangerState::new();
    let mut script = Script::new();
    assert_eq!(state.change_filament(&mut script, Some(1)), Some(1));
    assert!(script.is_empty());
    assert_eq!(state, ChangerState::new());
}

#[test]
fn a_change_cuts_realigns_and_unloads_the_old_strand() {
    let mut state = ChangerState { current_filament: Some(0), current_position: 856 };
    let mut script = Script::new();
    assert_eq!(state.change_filament(&mut script, Some(3)), Some(3));
    assert_eq!(state, ChangerState { current_filament: Some(0), current_position: 56 });
    let actions = drain(&mut script);
    assert_eq!(actions[0], Action::Servo { position: 1600 });
    assert_eq!(servo_moves(&actions), 6);
    assert_eq!(servo_moves(&actions[..11]), 6);
    assert_eq!(rising_edges(&actions, Line::SelectorStep), 800);
    assert_eq!(direction(&actions, Line::SelectorDirection), vec![false]);
    assert_eq!(rising_edges(&actions, Line::ExtruderStep), 14500);
    assert_eq!(direction(&actions, Line::ExtruderDirection), vec![true]);
    assert_eq!(total_wait(&actions), 3 * 750_000 + 2 * 500_000 + 800_000 + 2_900_000);
    assert_eq!(*actions.last().unwrap(), Action::Drive { line: Line::ExtruderEnable, high: true });
}

#[test]
fn a_change_to_nothing_disengages() {
    let mut state = ChangerState { current_filament: Some(2), current_position: 2456 };
    let mut script = Script::new();
    assert_eq!(state.change_filament(&mut script, None), None);
    assert_eq!(state, ChangerState { current_filament: None, current_position: 1656 });
    let actions = drain(&mut script);
    assert_eq!(rising_edges(&actions, Line::ExtruderStep), 14500);
    assert_eq!(direction(&actions, Line::ExtruderDirection), vec![false]);
}

#[test]
fn the_remaining_time_fills_up_the_longest_move() {
    assert_eq!(ChangerState::remaining_time(0), 2_456_000);
    assert_eq!(ChangerState::remaining_time(56_000), 2_400_000);
    assert_eq!(ChangerState::remaining_time(2_455_999), 1);
    assert_eq!(ChangerState::remaining_time(2_456_000), 0);
    assert_eq!(ChangerState::remaining_time(2_456_001), 0);
    assert_eq!(ChangerState::remaining_time(u64::MAX), 0);
}

#[test]
fn settling_waits_loads_and_parks() {
    let mut state = ChangerState { current_filament: Some(0), current_position: 56 };
    let mut script = Script::new();
    state.settle(&mut script, 56_000);
    assert_eq!(state, ChangerState { current_filament: Some(0), current_position: 856 });
    let actions = drain(&mut script);
    assert_eq!(actions[0], Action::Sleep { micros: 2_400_000 });
    assert_eq!(rising_edges(&actions, Line::ExtruderStep), 27500);
    assert_eq!(rising_edges(&actions, Line::SelectorStep), 800);
    assert_eq!(total_wait(&actions), 2_400_000 + 15000 * 266 + 12500 * 480 + 800_000);
}

#[test]
fn settling_after_the_longest_move_does_not_wait() {
    let mut state = ChangerState { current_filament: Some(3), current_position: 2456 };
    let mut script = Script::new();
    state.settle(&mut script, 2_456_000);
    assert_eq!(state, ChangerState { current_filament: Some(3), current_position: 1656 });
    let actions = drain(&mut script);
    assert_eq!(actions[0], Action::Drive { line: Line::ExtruderEnable, high: false });
    assert_eq!(total_wait(&actions), 15000 * 266 + 12500 * 480 + 800_000);
}

#[test]
fn homing_from_rest_only_sweeps() {
    let mut state = ChangerState { current_filament: None, current_position: 1234 };
    let mut script = Script::new();
    state.home(&mut script);
    assert_eq!(state, ChangerState { current_filament: None, current_position: 0 });
    let actions = drain(&mut script);
    assert_eq!(actions[0], Action::Drive { line: Line::ExtruderEnable, high: true });
    assert_eq!(rising_edges(&actions, Line::SelectorStep), 2624);
    assert_eq!(rising_edges(&actions, Line::ExtruderStep), 0);
    assert_eq!(total_wait(&actions), 2_000_000 + 1312 * 2000 + 1312 * 4000);
}

#[test]
fn homing_with_a_strand_engaged_releases_it_first() {
    let mut state = ChangerState { current_filament: Some(1), current_position: 56 };
    let mut script = Script::new();
    state.home(&mut script);
    assert_eq!(state, ChangerState { current_filament: None, current_position: 0 });
    let actions = drain(&mut script);
    assert_eq!(actions[0], Action::Servo { position: 1600 });
    assert_eq!(rising_edges(&actions, Line::SelectorStep), 800 + 2624);
    assert_eq!(rising_edges(&actions, Line::ExtruderStep), 14500);
    assert_eq!(direction(&actions, Line::ExtruderDirection), vec![true]);
}
