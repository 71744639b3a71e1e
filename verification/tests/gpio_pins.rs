//! MSP432 GPIO pins and the interrupt-value adapter.

use alarm_mux::gpio::{Configuration, FloatingState, InterruptWithValue};
use alarm_mux::msp432_gpio::{Pin, PinNr};

#[test]
fn pin_bit_positions() {
    assert_eq!(Pin::new(PinNr::P01_0).pin, 0);
    assert_eq!(Pin::new(PinNr::P01_7).pin, 7);
    assert_eq!(Pin::new(PinNr::P02_3).pin, 3);
    assert_eq!(Pin::new(PinNr::P10_5).pin, 5);
    assert_eq!(Pin::new(PinNr::PJ_2).pin, 2);
}

#[test]
fn set_clear_toggle_drive_the_output_bit() {
    let mut pin = Pin::new(PinNr::P01_4);
    pin.set();
    assert_eq!(pin.registers.out, 0b0001_0000);
    pin.clear();
    assert_eq!(pin.registers.out, 0);
    assert_eq!(pin.toggle(), true);
    assert_eq!(pin.registers.out, 0b0001_0000);
    assert_eq!(pin.toggle(), false);
    assert_eq!(pin.registers.out, 0);
    // Other pins' bits are untouched.
    let mut other = Pin::new(PinNr::P01_1);
    other.registers.out = 0b1000_0001;
    other.set();
    assert_eq!(other.registers.out, 0b1000_0011);
}

#[test]
fn read_reports_the_input_bit() {
    let mut pin = Pin::new(PinNr::P03_2);
    assert!(!pin.read());
    pin.registers.input = 0b0000_0100;
    assert!(pin.read());
    pin.registers.input = 0b1111_1011;
    assert!(!pin.read());
}

#[test]
fn configuration_follows_select_and_direction_bits() {
    let mut pin = Pin::new(PinNr::P05_0);
    assert_eq!(pin.configuration(), Configuration::Input);
    assert_eq!(pin.make_output(), Configuration::Output);
    assert_eq!(pin.configuration(), Configuration::Output);
    assert_eq!(pin.make_input(), Configuration::Input);
    assert_eq!(pin.configuration(), Configuration::Input);
    pin.enable_primary_function();
    assert_eq!(pin.configuration(), Configuration::Function);
    assert_eq!((pin.registers.sel0, pin.registers.sel1), (1, 0));
    pin.enable_secondary_function();
    assert_eq!((pin.registers.sel0, pin.registers.sel1), (0, 1));
    assert_eq!(pin.configuration(), Configuration::Function);
    pin.enable_tertiary_function();
    assert_eq!((pin.registers.sel0, pin.registers.sel1), (1, 1));
    // Back to GPIO: the select bits fall away.
    assert_eq!(pin.make_output(), Configuration::Output);
    assert_eq!((pin.registers.sel0, pin.registers.sel1), (0, 0));
}

#[test]
fn disable_output_falls_back_to_input_and_disable_input_reports_state() {
    let mut pin = Pin::new(PinNr::P06_6);
    pin.make_output();
    assert_eq!(pin.disable_output(), Configuration::Input);
    assert_eq!(pin.disable_input(), Configuration::Input);
    pin.make_output();
    assert_eq!(pin.disable_input(), Configuration::Output);
}

#[test]
fn floating_state_round_trips() {
    let mut pin = Pin::new(PinNr::P07_1);
    assert_eq!(pin.floating_state(), FloatingState::PullNone);
    pin.set_floating_state(FloatingState::PullUp);
    assert_eq!(pin.floating_state(), FloatingState::PullUp);
    assert_eq!(pin.registers.ren, 0b10);
    assert_eq!(pin.registers.out, 0b10);
    pin.set_floating_state(FloatingState::PullDown);
    assert_eq!(pin.floating_state(), FloatingState::PullDown);
    assert_eq!(pin.registers.out, 0);
    pin.set_floating_state(FloatingState::PullNone);
    assert_eq!(pin.floating_state(), FloatingState::PullNone);
    assert_eq!(pin.registers.ren, 0);
}

#[test]
fn low_power_is_input_with_pull_up() {
    let mut pin = Pin::new(PinNr::P08_3);
    pin.make_output();
    pin.deactivate_to_low_power();
    assert_eq!(pin.configuration(), Configuration::Input);
    assert_eq!(pin.floating_state(), FloatingState::PullUp);
}

#[test]
fn interrupt_with_value_notifies_its_client() {
    let mut iv = InterruptWithValue::new();
    assert_eq!(iv.value(), 0);
    assert_eq!(iv.fired(), None);
    iv.set_value(31);
    assert_eq!(iv.value(), 31);
    // Without a client the notification goes nowhere.
    assert_eq!(iv.fired(), None);
    iv.set_client(5);
    assert_eq!(iv.fired(), Some((5, 31)));
    iv.set_value(32);
    assert_eq!(iv.fired(), Some((5, 32)));
}
