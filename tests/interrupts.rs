use rppal_pfd::interrupts::{bit_is_set, interrupting_pins, level_in, pin_interrupt};
use rppal_pfd::{Level, PinPoll};

#[test]
fn flagged_pins_reported_in_order_with_captured_levels() {
    let found = interrupting_pins(0b0000_0011, 0b0000_0010, &[0, 1]);
    assert_eq!(found, vec![(0, Level::Low), (1, Level::High)]);
}

#[test]
fn unflagged_pins_are_left_out() {
    let found = interrupting_pins(0b1000_0100, 0b1111_1111, &[7, 0, 2, 5]);
    assert_eq!(found, vec![(7, Level::High), (2, Level::High)]);
}

#[test]
fn no_pins_no_report() {
    assert_eq!(interrupting_pins(0xFF, 0xFF, &[]), vec![]);
}

#[test]
fn edge_from_unwatched_pin_reports_nothing() {
    assert_eq!(interrupting_pins(0b0001_0000, 0xFF, &[0, 1, 2]), vec![]);
}

#[test]
fn single_pin_takes_captured_level() {
    assert_eq!(pin_interrupt(0b0000_0001, 0b0000_0000, 0), PinPoll::Interrupt(Level::Low));
    assert_eq!(pin_interrupt(0b1000_0000, 0b1000_0000, 7), PinPoll::Interrupt(Level::High));
}

#[test]
fn single_pin_edge_elsewhere_keeps_waiting() {
    assert_eq!(pin_interrupt(0b0000_0001, 0b0000_0000, 1), PinPoll::Elsewhere);
}

#[test]
fn bits_and_levels_of_a_port_byte() {
    assert!(bit_is_set(0b0010_0000, 5));
    assert!(!bit_is_set(0b0010_0000, 4));
    assert_eq!(level_in(0b0000_0100, 2), Level::High);
    assert_eq!(level_in(0b1111_1011, 2), Level::Low);
}
