//! Tests for the generic multi-line sequencer driver.

use stepper::drivers::generic::{Generic, GenericStepError};
use stepper::pin::{Level, OutPin, PinBus};
use stepper::traits::{
    EnableDirectionControl, EnableStepControl, OutputPinAction, ReleaseCoils, SetDirection, Step,
};
use stepper::traits_async::SetDelayAsync;
use stepper::test_utils::NoDelay;
use stepper::Direction;

/// A fixed pair of pins driven together, as an embedding might hold them.
struct PinPair {
    pins: [OutPin; 2],
}

impl PinPair {
    fn new(pins: [OutPin; 2]) -> Self {
        Self { pins }
    }

    fn set_high(&mut self) {
        for pin in self.pins.iter_mut() {
            pin.set_level(Level::High)
        }
    }
}

#[test]
fn generic_test_stepping() {
    let steps = vec![0b01_u8, 0b10_u8];

    let pins = PinBus::new(vec![OutPin::new(0), OutPin::new(1)]);
    let driver = Generic::new(steps)
        .set_delay(NoDelay::new())
        .enable_direction_control(());
    let mut driver = driver.enable_step_control(pins);
    driver
        .dir(Direction::Backward)
        .expect("setting dit control to work");

    let mut delay = NoDelay::new();
    driver.step(&mut delay).expect("Stepping did not work");

    assert_eq!(driver.step_index(), Some(1));
    // The firing pattern 0b01 drives line 0 low and line 1 high.
    assert_eq!(driver.pin_bus().pin(0).level(), Level::Low);
    assert_eq!(driver.pin_bus().pin(1).level(), Level::High);
    assert_eq!(driver.pin_bus().pin(0).write_log().len(), 1);
    assert_eq!(driver.pin_bus().pin(1).write_log().len(), 1);
}

#[test]
fn generic_test_reverse_stepping() {
    let steps = vec![0b01_u8, 0b10_u8];

    {
        let pins = PinBus::new(vec![OutPin::new(0), OutPin::new(1)]);
        let driver = Generic::new(steps.clone())
            .set_delay(NoDelay::new())
            .enable_direction_control(());
        let mut driver = driver.enable_step_control(pins);
        driver
            .dir(Direction::Backward)
            .expect("setting dit control to work");

        assert_eq!(driver.step_index(), None);

        let mut delay = NoDelay::new();
        driver.step(&mut delay).expect("Stepping did not work");

        assert_eq!(driver.step_index(), Some(1));
        assert_eq!(driver.pin_bus().pin(0).level(), Level::Low);
        assert_eq!(driver.pin_bus().pin(1).level(), Level::High);
    }

    {
        let pins = PinBus::new(vec![OutPin::new(0), OutPin::new(1)]);
        let driver = Generic::new(steps)
            .set_delay(NoDelay::new())
            .enable_direction_control(());
        let mut driver = driver.enable_step_control(pins);
        driver
            .dir(Direction::Backward)
            .expect("setting dit control to work");

        driver.set_step(1).expect("step be set");
        assert_eq!(driver.step_index(), Some(1));

        let mut delay = NoDelay::new();
        driver.step(&mut delay).expect("Stepping did not work");

        assert_eq!(driver.step_index(), Some(0));
        assert_eq!(driver.pin_bus().pin(0).level(), Level::High);
        assert_eq!(driver.pin_bus().pin(1).level(), Level::Low);
    }
}

#[test]
fn require_enabling_dir_control_before_stepping() {
    let pins = PinBus::new(vec![OutPin::new(0)]);
    let mut driver = Generic::new(vec![0, 1]).enable_step_control(pins);
    match driver.step_leading() {
        Err(e) => assert_eq!(e, GenericStepError::MustCallEnableDirection),
        _ => assert!(false),
    }
    // The rejected step must not have moved the index.
    assert_eq!(driver.step_index(), None);
    assert_eq!(driver.pin_bus().pin(0).write_log().len(), 0);
}

#[test]
fn generic_forward_cycle_returns_to_start() {
    // Stepping forward as many times as the table has entries brings the
    // index back to where it started.
    let pins = PinBus::new(vec![OutPin::new(0), OutPin::new(1)]);
    let driver = Generic::new(vec![0b01, 0b10, 0b11]).enable_direction_control(());
    let mut driver = driver.enable_step_control(pins);
    driver.dir(Direction::Forward).expect("direction to be set");
    driver.set_step(1).expect("step be set");

    let mut delay = NoDelay::new();
    for _ in 0..3 {
        driver.step(&mut delay).expect("Stepping did not work");
    }
    assert_eq!(driver.step_index(), Some(1));
}

#[test]
fn generic_step_leading_actions_report_pattern() {
    let pins = PinBus::new(vec![OutPin::new(7), OutPin::new(9)]);
    let driver = Generic::new(vec![0b10]).enable_direction_control(());
    let mut driver = driver.enable_step_control(pins);
    driver.dir(Direction::Forward).expect("direction to be set");

    let actions = driver.step_leading().expect("leading edge to be issued");
    assert_eq!(actions.len(), 2);
    assert!(matches!(actions[0], OutputPinAction::SetLevel(7, Level::High)));
    assert!(matches!(actions[1], OutputPinAction::SetLevel(9, Level::Low)));

    let trailing = driver.step_trailing().expect("trailing edge to be issued");
    assert_eq!(trailing.len(), 2);
    assert!(matches!(trailing[0], OutputPinAction::NoOp));
    assert!(matches!(trailing[1], OutputPinAction::NoOp));
}

#[test]
fn generic_set_step_rejects_out_of_range() {
    let pins = PinBus::new(vec![OutPin::new(0)]);
    let mut driver = Generic::new(vec![0, 1]).enable_step_control(pins);
    assert_eq!(driver.set_step(2), Err(()));
    assert_eq!(driver.step_index(), None);
    assert_eq!(driver.set_step(1), Ok(()));
    assert_eq!(driver.step_index(), Some(1));
}

#[test]
fn release_coils() {
    let pins = PinBus::new(vec![OutPin::new(0)]);
    // The single firing pattern only ever drives the line high.
    let driver = Generic::new(vec![1, 1]).enable_direction_control(());
    let mut driver = driver.enable_step_control(pins);
    driver.dir(Direction::Forward).expect("direction to be set");

    let mut delay = NoDelay::new();
    driver.step(&mut delay).expect("stepping failed");
    assert_eq!(driver.step_index(), Some(1));
    assert_eq!(driver.pin_bus().pin(0).level(), Level::High);

    driver.release_coils().expect("Coil release did not work");
    // Releasing the coils must not change the step position.
    assert_eq!(driver.step_index(), Some(1));
    assert_eq!(driver.pin_bus().pin(0).level(), Level::Low);

    driver.release_coils().expect("Coil release did not work");
    assert_eq!(driver.step_index(), Some(1));
    assert_eq!(driver.pin_bus().pin(0).write_log().len(), 3);
}

#[test]
fn generic_test_mut_array() {
    let pin1 = OutPin::new(0);
    let pin2 = OutPin::new(1);

    let mut pair = PinPair::new([pin1, pin2]);
    pair.set_high();

    assert_eq!(pair.pins[0].level(), Level::High);
    assert_eq!(pair.pins[1].level(), Level::High);
}

#[test]
fn mod_test_mut_array() {
    let pin1 = OutPin::new(2);
    let pin2 = OutPin::new(3);

    let mut pair = PinPair::new([pin1, pin2]);
    pair.set_high();

    assert_eq!(pair.pins[0].write_log().len(), 1);
    assert_eq!(pair.pins[1].write_log().len(), 1);
}
