use filament_changer::decoder::{decode, decode_hold, Command};

#[test]
fn hold_of_200_ms_is_no_command() {
    assert_eq!(decode(200), None);
}

#[test]
fn hold_of_500_ms_selects_slot_0() {
    assert_eq!(decode(500), Some(Command::Select(0)));
}

#[test]
fn hold_of_1000_ms_selects_slot_1() {
    assert_eq!(decode(1000), Some(Command::Select(1)));
}

#[test]
fn hold_of_1500_ms_selects_slot_2() {
    assert_eq!(decode(1500), Some(Command::Select(2)));
}

#[test]
fn hold_of_2000_ms_selects_slot_3() {
    assert_eq!(decode(2000), Some(Command::Select(3)));
}

#[test]
fn hold_of_2300_ms_falls_into_the_gap() {
    assert_eq!(decode(2300), None);
}

#[test]
fn hold_of_3000_ms_homes() {
    assert_eq!(decode(3000), Some(Command::Home));
}

#[test]
fn window_edges_are_inclusive() {
    assert_eq!(decode(0), None);
    assert_eq!(decode(249), None);
    assert_eq!(decode(250), Some(Command::Select(0)));
    assert_eq!(decode(750), Some(Command::Select(0)));
    assert_eq!(decode(751), Some(Command::Select(1)));
    assert_eq!(decode(1250), Some(Command::Select(1)));
    assert_eq!(decode(1251), Some(Command::Select(2)));
    assert_eq!(decode(1750), Some(Command::Select(2)));
    assert_eq!(decode(1751), Some(Command::Select(3)));
    assert_eq!(decode(2250), Some(Command::Select(3)));
    assert_eq!(decode(2251), None);
    assert_eq!(decode(2749), None);
    assert_eq!(decode(2750), Some(Command::Home));
    assert_eq!(decode(u64::MAX), Some(Command::Home));
}

#[test]
fn a_hold_counts_in_whole_milliseconds() {
    assert_eq!(decode_hold(249_999), None);
    assert_eq!(decode_hold(250_000), Some(Command::Select(0)));
    assert_eq!(decode_hold(750_999), Some(Command::Select(0)));
    assert_eq!(decode_hold(751_000), Some(Command::Select(1)));
    assert_eq!(decode_hold(2_250_999), Some(Command::Select(3)));
    assert_eq!(decode_hold(2_251_000), None);
    assert_eq!(decode_hold(2_749_999), None);
    assert_eq!(decode_hold(2_750_000), Some(Command::Home));
}
