//! Tests for the STEP/DIR drivers and the signal state machines.

use stepper::drivers::dq542ma::DQ542MA;
use stepper::drivers::generic::{Generic, GenericStepError};
use stepper::drivers::stspin220::STSPIN220;
use stepper::pin::{Level, OutPin, PinBus};
use stepper::step_mode::StepMode256;
use stepper::stepper::legacy_future::{LegacyFuture, WrappedLegacyFuture};
use stepper::stepper::set_direction::SetDirectionFuture;
use stepper::stepper::set_step_mode::SetStepModeFuture;
use stepper::stepper::step::{toggle_pin, toggle_pins, StepFuture};
use stepper::test_utils::{NoDelay, OkTimer};
use stepper::traits::{
    EnableDirectionControl, EnableStepControl, EnableStepModeControl, OutputPinAction,
    SetDirection, SetStepMode, Step,
};
use stepper::util::delay::AsyncDelay;
use stepper::{Direction, Nanoseconds, Poll, SignalError};

#[test]
fn dq542ma_step_is_one_clean_pulse() {
    let driver = DQ542MA::new()
        .enable_direction_control(OutPin::new(1))
        .enable_step_control(OutPin::new(2));

    let mut fut = StepFuture::new(driver, NoDelay::new());
    // First poll issues the rising edge and starts the pulse countdown.
    assert_eq!(fut.poll(), Poll::Pending);
    // Second poll sees the countdown elapsed and issues the falling edge.
    assert_eq!(fut.poll(), Poll::Ready(Ok(())));
    // Further polls report completion without touching the pins again.
    assert_eq!(fut.poll(), Poll::Ready(Ok(())));

    let (driver, _delay) = fut.release();
    let mut driver = driver;
    let actions = driver.step_leading().expect("leading edge to be issued");
    assert_eq!(actions.len(), 1);
    assert!(matches!(actions[0], OutputPinAction::SetLevel(2, Level::High)));
}

#[test]
fn dq542ma_pulse_restores_idle_level() {
    let driver = DQ542MA::new()
        .enable_direction_control(OutPin::new(1))
        .enable_step_control(OutPin::new(2));

    let mut fut = StepFuture::new(driver, NoDelay::new());
    while let Poll::Pending = fut.poll() {}
    let (mut driver, _delay) = fut.release();

    // One High then one Low: the pin ends the step back at its idle low
    // level, exactly as before the step.
    let action = driver.dir(Direction::Forward).expect("direction to be set");
    assert!(matches!(action, OutputPinAction::SetLevel(1, Level::High)));
    assert_eq!(driver.pulse_length(), Nanoseconds::from_ticks(5050));
}

#[test]
fn stspin220_step_pulse_writes_high_then_low() {
    let driver = STSPIN220::new()
        .enable_direction_control(OutPin::new(4))
        .enable_step_control(OutPin::new(3));

    let mut fut = StepFuture::new(driver, NoDelay::new());
    assert_eq!(fut.poll(), Poll::Pending);
    assert_eq!(fut.poll(), Poll::Ready(Ok(())));

    let (mut driver, _delay) = fut.release();
    // The trailing edge leaves the step pin low again.
    let trailing = driver.step_trailing().expect("trailing edge to be issued");
    assert!(matches!(trailing[0], OutputPinAction::SetLevel(3, Level::Low)));
}

#[test]
fn stspin220_direction_levels() {
    let mut driver = STSPIN220::new().enable_direction_control(OutPin::new(4));

    let forward = driver.dir(Direction::Forward).expect("direction to be set");
    assert!(matches!(forward, OutputPinAction::SetLevel(4, Level::High)));

    let backward = driver.dir(Direction::Backward).expect("direction to be set");
    assert!(matches!(backward, OutputPinAction::SetLevel(4, Level::Low)));
}

#[test]
fn stspin220_mode_config_runs_reset_configure_release() {
    let driver = STSPIN220::new()
        .enable_direction_control(OutPin::new(4))
        .enable_step_control(OutPin::new(3))
        .enable_step_mode_control((OutPin::new(0), OutPin::new(1), OutPin::new(2)));

    let mut fut = SetStepModeFuture::new(StepMode256::M2, driver, NoDelay::new());
    // Apply the configuration, wait the setup time, re-enable, wait the
    // hold time.
    assert_eq!(fut.poll(), Poll::Pending);
    assert_eq!(fut.poll(), Poll::Pending);
    assert_eq!(fut.poll(), Poll::Ready(Ok(())));

    let (mut driver, _delay) = fut.release();
    // M2 sets (mode1, mode2, mode3, mode4) to (High, Low, High, Low),
    // with standby/reset pulled low for the configuration and released
    // high afterwards.
    let trailing = driver.step_trailing().expect("trailing edge to be issued");
    assert!(matches!(trailing[0], OutputPinAction::SetLevel(3, Level::Low)));
    assert_eq!(SetStepMode::setup_time(&driver), Nanoseconds::from_ticks(1_000));
    assert_eq!(driver.hold_time(), Nanoseconds::from_ticks(100_000));
}

#[test]
fn set_direction_future_issues_direction_once() {
    let driver = DQ542MA::new().enable_direction_control(OutPin::new(1));

    let mut fut = SetDirectionFuture::new(Direction::Backward, driver, NoDelay::new());
    assert_eq!(fut.poll(), Poll::Pending);
    assert_eq!(fut.poll(), Poll::Ready(Ok(())));
    assert_eq!(fut.poll(), Poll::Ready(Ok(())));

    let (mut driver, _delay) = fut.release();
    // Backward maps to a low level on the direction pin; the poll above
    // already recorded exactly one write.
    let action = driver.dir(Direction::Backward).expect("direction to be set");
    assert!(matches!(action, OutputPinAction::SetLevel(1, Level::Low)));
    assert_eq!(driver.setup_time(), Nanoseconds::from_ticks(500));
}

#[test]
fn set_direction_future_wait_runs_to_completion() {
    let driver = DQ542MA::new().enable_direction_control(OutPin::new(1));
    let mut fut = SetDirectionFuture::new(Direction::Forward, driver, NoDelay::new());
    assert_eq!(fut.wait(), Ok(()));
    let (_driver, _delay) = fut.release();
}

#[test]
fn wrapped_legacy_future_drives_the_machine() {
    let driver = DQ542MA::new().enable_direction_control(OutPin::new(1));
    let fut = SetDirectionFuture::new(Direction::Forward, driver, NoDelay::new());

    let mut wrapped = WrappedLegacyFuture::new(fut);
    assert_eq!(wrapped.poll(), Poll::Pending);
    assert_eq!(wrapped.poll(), Poll::Ready(Ok(())));
    let _fut = wrapped.wrapped_future();
}

#[test]
fn toggle_pin_writes_one_pulse() {
    let mut pin = OutPin::new(0);
    let mut delay = NoDelay::new();
    let res = toggle_pin(&mut pin, Nanoseconds::from_ticks(5050), &mut delay);
    assert_eq!(res, Ok(()));
    assert_eq!(pin.write_log().len(), 2);
    assert_eq!(pin.write_log()[0], Level::High);
    assert_eq!(pin.write_log()[1], Level::Low);
    assert_eq!(pin.level(), Level::Low);
}

#[test]
fn toggle_pins_pulses_every_line() {
    let mut pins = vec![OutPin::new(0), OutPin::new(1), OutPin::new(2)];
    let mut delay = NoDelay::new();
    let res = toggle_pins(&mut pins, Nanoseconds::from_ticks(100), &mut delay);
    assert_eq!(res, Ok(()));
    for pin in pins.iter() {
        assert_eq!(pin.write_log().len(), 2);
        assert_eq!(pin.write_log()[0], Level::High);
        assert_eq!(pin.write_log()[1], Level::Low);
    }
}

#[test]
fn async_delay_wraps_a_timer() {
    let timer: OkTimer<1000> = OkTimer::new();
    let mut delay: AsyncDelay<OkTimer<1000>, 1000> = AsyncDelay::from_timer(timer);
    assert_eq!(delay.delay_us(100), Ok(()));
    assert_eq!(delay.delay_ms(1), Ok(()));
}

#[test]
fn step_future_with_timer_backed_delay() {
    let driver = DQ542MA::new()
        .enable_direction_control(OutPin::new(1))
        .enable_step_control(OutPin::new(2));
    let timer: OkTimer<1000> = OkTimer::new();
    let delay: AsyncDelay<OkTimer<1000>, 1000> = AsyncDelay::from_timer(timer);

    let mut fut = StepFuture::new(driver, delay);
    assert_eq!(fut.wait(), Ok(()));
}

#[test]
fn nanoseconds_round_down_to_micros() {
    assert_eq!(Nanoseconds::from_ticks(5050).to_micros(), 5);
    assert_eq!(Nanoseconds::from_ticks(999).to_micros(), 0);
    assert_eq!(Nanoseconds::from_ticks(100_000).to_micros(), 100);
}

#[test]
fn capability_available_once_enabled() {
    // Enabling a capability makes its operations available; before that
    // the operations do not exist on the type at all, so misuse is ruled
    // out when the program is compiled.
    let driver = DQ542MA::new();
    let mut driver = driver.enable_direction_control(OutPin::new(1));
    driver.dir(Direction::Forward).expect("direction to be set");

    let mut driver = driver.enable_step_control(OutPin::new(2));
    driver.step_leading().expect("leading edge to be issued");
    driver.step_trailing().expect("trailing edge to be issued");
}

#[test]
fn step_future_reports_driver_error() {
    // A generic driver with no direction set declines to step; the pulse
    // machine reports that as a pin-unavailable error and touches nothing.
    let pins = PinBus::new(vec![OutPin::new(0)]);
    let driver = Generic::new(vec![0, 1]).enable_step_control(pins);
    let mut fut = StepFuture::new(driver, NoDelay::new());
    assert_eq!(
        fut.poll(),
        Poll::Ready(Err(SignalError::PinUnavailable(
            GenericStepError::MustCallEnableDirection
        )))
    );
    let (driver, _delay) = fut.release();
    assert_eq!(driver.step_index(), None);
}

#[test]
fn pin_bus_releases_its_pins() {
    let bus = PinBus::new(vec![OutPin::new(5), OutPin::new(6)]);
    assert_eq!(bus.width(), 2);
    let pins = bus.release();
    assert_eq!(pins.len(), 2);
    assert_eq!(pins[0].id(), 5);
    assert_eq!(pins[1].id(), 6);
}
