use filament_changer::script::Script;
use filament_changer::signal::{Action, Line};

fn drain(script: &mut Script) -> Vec<Action> {
    let mut actions = Vec::new();
    while let Some(action) = script.next() {
        actions.push(action);
    }
    actions
}

#[test]
fn a_new_script_is_empty() {
    let mut script = Script::new();
    assert!(script.is_empty());
    assert_eq!(script.next(), None);
    assert!(script.is_empty());
}

#[test]
fn actions_come_out_in_the_order_pushed() {
    let mut script = Script::new();
    script.push(Action::ReadClock);
    script.push(Action::Sleep { micros: 7 });
    script.push(Action::Servo { position: 900 });
    assert!(!script.is_empty());
    assert_eq!(script.next(), Some(Action::ReadClock));
    assert_eq!(script.next(), Some(Action::Sleep { micros: 7 }));
    assert!(!script.is_empty());
    assert_eq!(script.next(), Some(Action::Servo { position: 900 }));
    assert!(script.is_empty());
    assert_eq!(script.next(), None);
}

#[test]
fn a_pulse_is_high_wait_low_wait() {
    let mut script = Script::new();
    script.pulses(Line::SelectorStep, 1, 500);
    assert_eq!(
        drain(&mut script),
        vec![
            Action::Drive { line: Line::SelectorStep, high: true },
            Action::Sleep { micros: 500 },
            Action::Drive { line: Line::SelectorStep, high: false },
            Action::Sleep { micros: 500 },
        ]
    );
}

#[test]
fn a_train_unfolds_into_four_actions_a_pulse() {
    let mut script = Script::new();
    script.push(Action::ReadSensor);
    script.pulses(Line::ExtruderStep, 3, 133);
    script.push(Action::ReadClock);
    let actions = drain(&mut script);
    assert_eq!(actions.len(), 1 + 4 * 3 + 1);
    assert_eq!(actions[0], Action::ReadSensor);
    for pulse in 0..3 {
        let at = 1 + 4 * pulse;
        assert_eq!(actions[at], Action::Drive { line: Line::ExtruderStep, high: true });
        assert_eq!(actions[at + 1], Action::Sleep { micros: 133 });
        assert_eq!(actions[at + 2], Action::Drive { line: Line::ExtruderStep, high: false });
        assert_eq!(actions[at + 3], Action::Sleep { micros: 133 });
    }
    assert_eq!(actions[13], Action::ReadClock);
}

#[test]
fn a_train_of_no_pulses_adds_nothing() {
    let mut script = Script::new();
    script.pulses(Line::SelectorStep, 0, 500);
    assert!(script.is_empty());
    script.push(Action::ReadClock);
    script.pulses(Line::SelectorStep, 0, 500);
    assert_eq!(drain(&mut script), vec![Action::ReadClock]);
}

#[test]
fn a_script_can_grow_while_it_is_handed_out() {
    let mut script = Script::new();
    script.pulses(Line::SelectorStep, 2, 10);
    assert_eq!(script.next(), Some(Action::Drive { line: Line::SelectorStep, high: true }));
    assert_eq!(script.next(), Some(Action::Sleep { micros: 10 }));
    script.push(Action::ReadSensor);
    let rest = drain(&mut script);
    assert_eq!(rest.len(), 7);
    assert_eq!(rest[0], Action::Drive { line: Line::SelectorStep, high: false });
    assert_eq!(rest[6], Action::ReadSensor);
    script.push(Action::ReadClock);
    assert_eq!(drain(&mut script), vec![Action::ReadClock]);
}

#[test]
fn a_long_train_hands_out_every_pulse() {
    let mut script = Script::new();
    script.pulses(Line::ExtruderStep, 15000, 133);
    let actions = drain(&mut script);
    assert_eq!(actions.len(), 60000);
    let rising = actions
        .iter()
        .filter(|action| **action == Action::Drive { line: Line::ExtruderStep, high: true })
        .count();
    assert_eq!(rising, 15000);
}
