//! Tests for the software motion control layer.

use stepper::drivers::generic::Generic;
use stepper::drivers::stspin220::STSPIN220;
use stepper::step_mode::StepMode256;
use stepper::motion_control::{BusyError, FixedDelayProfile, MotionProfile, SoftwareMotionControl};
use stepper::pin::{Level, OutPin, PinBus};
use stepper::stepper::legacy_future::LegacyFuture;
use stepper::stepper::move_to::MoveToFuture;
use stepper::test_utils::NoDelay;
use stepper::traits::{
    EnableDirectionControl, EnableMotionControl, EnableStepControl, EnableStepModeControl,
    MotionControl, SetDirection,
};
use stepper::Direction;

fn high_low_counts(log: &Vec<Level>) -> (usize, usize) {
    let mut highs = 0;
    let mut lows = 0;
    for level in log.iter() {
        match level {
            Level::High => highs += 1,
            Level::Low => lows += 1,
        }
    }
    (highs, lows)
}

#[test]
fn generic_test_software_motion_control() {
    let steps = vec![0_u8, 1_u8];

    let pins = PinBus::new(vec![OutPin::new(0)]);
    let driver = Generic::new(steps).enable_direction_control(());
    let mut driver = driver.enable_step_control(pins);
    driver
        .dir(Direction::Backward)
        .expect("setting dir control to work");
    let stepper = driver.enable_motion_control((NoDelay::new(), FixedDelayProfile::new(1)));

    let num_steps = 10;
    let max_velocity = 1_u32;

    // Moving from the starting position 0 to position 10.
    let mut fut = MoveToFuture::new(stepper, max_velocity, num_steps);
    let res = fut.wait();
    assert_eq!(res, Ok(()));
    let stepper = fut.release();
    assert_eq!(stepper.current_step(), 10);
    assert_eq!(stepper.current_direction(), Direction::Forward);

    // The single line is driven high and low, once per executed step:
    // the first ten steps give 5 high and 5 low pulses.
    {
        let driver = stepper.driver().expect("driver to be accessible while idle");
        let (highs, lows) = high_low_counts(driver.pin_bus().pin(0).write_log());
        assert_eq!(highs, 5);
        assert_eq!(lows, 5);
    }

    // Moving to position 6 from position 10, 4 steps in total, adds 2
    // pulses each.
    let going_back_steps = 4;
    let mut fut2 = MoveToFuture::new(stepper, max_velocity, num_steps - going_back_steps);
    let res = fut2.wait();
    assert_eq!(res, Ok(()));
    let stepper = fut2.release();
    assert_eq!(stepper.current_step(), 6);
    assert_eq!(stepper.current_direction(), Direction::Backward);

    let driver = stepper.driver().expect("driver to be accessible while idle");
    let (highs, lows) = high_low_counts(driver.pin_bus().pin(0).write_log());
    assert_eq!(highs, 5 + 2);
    assert_eq!(lows, 5 + 2);
}

#[test]
fn move_while_busy_returns_busy_error() {
    let pins = PinBus::new(vec![OutPin::new(0)]);
    let driver = Generic::new(vec![0, 1]).enable_direction_control(());
    let driver = driver.enable_step_control(pins);
    let mut stepper = driver.enable_motion_control((NoDelay::new(), FixedDelayProfile::new(1)));

    assert_eq!(stepper.move_to_position(1, 5), Ok(()));
    // A second request while the first is in flight must fail with the
    // busy error and leave the in-flight move untouched.
    assert_eq!(stepper.move_to_position(1, 7), Err(BusyError::Busy));

    loop {
        match stepper.update() {
            Ok(true) => {},
            Ok(false) => break,
            Err(_) => panic!("motion failed"),
        }
    }
    // The first move's target still stands.
    assert_eq!(stepper.current_step(), 5);
}

#[test]
fn zero_length_move_completes_without_pin_activity() {
    let pins = PinBus::new(vec![OutPin::new(0)]);
    let driver = Generic::new(vec![0, 1]).enable_direction_control(());
    let driver = driver.enable_step_control(pins);
    let mut stepper = driver.enable_motion_control((NoDelay::new(), FixedDelayProfile::new(1)));

    assert_eq!(stepper.move_to_position(1, 0), Ok(()));
    // One update issues the direction, the next reports completion; no
    // step is ever fired.
    assert_eq!(stepper.update(), Ok(true));
    assert_eq!(stepper.update(), Ok(false));
    assert_eq!(stepper.current_step(), 0);

    let driver = stepper.driver().expect("driver to be accessible while idle");
    assert_eq!(driver.pin_bus().pin(0).write_log().len(), 0);
}

#[test]
fn reset_position_only_while_idle() {
    let pins = PinBus::new(vec![OutPin::new(0)]);
    let driver = Generic::new(vec![0, 1]).enable_direction_control(());
    let driver = driver.enable_step_control(pins);
    let mut stepper = driver.enable_motion_control((NoDelay::new(), FixedDelayProfile::new(1)));

    assert_eq!(stepper.reset_position(42), Ok(()));
    assert_eq!(stepper.current_step(), 42);

    assert_eq!(stepper.move_to_position(1, 44), Ok(()));
    // Resetting during an active move is rejected.
    assert_eq!(stepper.reset_position(0), Err(BusyError::Busy));

    loop {
        match stepper.update() {
            Ok(true) => {},
            Ok(false) => break,
            Err(_) => panic!("motion failed"),
        }
    }
    assert_eq!(stepper.current_step(), 44);
    assert_eq!(stepper.reset_position(0), Ok(()));
    assert_eq!(stepper.current_step(), 0);
}

#[test]
fn driver_inaccessible_while_moving() {
    let pins = PinBus::new(vec![OutPin::new(0)]);
    let driver = Generic::new(vec![0, 1]).enable_direction_control(());
    let driver = driver.enable_step_control(pins);
    let mut stepper = driver.enable_motion_control((NoDelay::new(), FixedDelayProfile::new(1)));

    assert!(stepper.driver().is_some());
    assert!(stepper.timer().is_some());

    assert_eq!(stepper.move_to_position(1, 2), Ok(()));
    // The motion starts on the first update; from then on the wrapped
    // resources are inaccessible until it completes.
    assert_eq!(stepper.update(), Ok(true));
    assert!(stepper.driver().is_none());
    assert!(stepper.timer().is_none());

    loop {
        match stepper.update() {
            Ok(true) => {},
            Ok(false) => break,
            Err(_) => panic!("motion failed"),
        }
    }
    assert!(stepper.driver().is_some());
    assert!(stepper.timer().is_some());
}

#[test]
fn fixed_delay_profile_yields_exact_step_count() {
    let mut profile = FixedDelayProfile::new(25);
    profile.enter_position_mode(1, 3);
    assert_eq!(profile.next_delay(), Some(25));
    assert_eq!(profile.next_delay(), Some(25));
    assert_eq!(profile.next_delay(), Some(25));
    assert_eq!(profile.next_delay(), None);
    assert_eq!(profile.next_delay(), None);
}

#[test]
fn software_motion_control_constructed_directly() {
    let pins = PinBus::new(vec![OutPin::new(0)]);
    let driver = Generic::new(vec![0, 1]).enable_direction_control(());
    let driver = driver.enable_step_control(pins);
    let mut stepper =
        SoftwareMotionControl::new(driver, NoDelay::new(), FixedDelayProfile::new(1));
    assert_eq!(stepper.current_step(), 0);
    assert_eq!(stepper.move_to_position(1, -3), Ok(()));
    loop {
        match stepper.update() {
            Ok(true) => {},
            Ok(false) => break,
            Err(_) => panic!("motion failed"),
        }
    }
    assert_eq!(stepper.current_step(), -3);
    assert_eq!(stepper.current_direction(), Direction::Backward);
}

#[test]
fn direct_ops_on_motion_control() {
    let driver = STSPIN220::new()
        .enable_direction_control(OutPin::new(4))
        .enable_step_control(OutPin::new(3))
        .enable_step_mode_control((OutPin::new(0), OutPin::new(1), OutPin::new(2)));
    let mut stepper =
        SoftwareMotionControl::new(driver, NoDelay::new(), FixedDelayProfile::new(1));

    // While idle, the wrapped driver can be driven directly, reusing the
    // owned delay source; the tracked position is not touched.
    assert_eq!(stepper.set_direction(Direction::Forward), Ok(()));
    assert_eq!(stepper.step(), Ok(()));
    assert_eq!(stepper.set_step_mode(StepMode256::M4), Ok(()));
    assert_eq!(stepper.current_step(), 0);

    // Once a motion is ongoing, the direct operations are rejected.
    assert_eq!(stepper.move_to_position(1, 2), Ok(()));
    assert_eq!(stepper.update(), Ok(true));
    assert_eq!(stepper.set_direction(Direction::Backward), Err(BusyError::Busy));
    assert_eq!(stepper.step(), Err(BusyError::Busy));
    assert_eq!(stepper.set_step_mode(StepMode256::M2), Err(BusyError::Busy));
}
