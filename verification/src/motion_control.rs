//! Software implementation of the motion control capability.
//!
//! Some drivers natively support motion control. [`SoftwareMotionControl`]
//! implements the [`MotionControl`] trait for those that don't: it wraps a
//! driver that supports [`SetDirection`] and [`Step`] and synthesizes
//! position moves by repeatedly issuing direction and step operations,
//! with the delay before each step supplied by an externally provided
//! motion profile.

use vstd::prelude::*;

use crate::traits::{EnableMotionControl, MotionControl, SetDirection, SetStepMode, Step};
use crate::traits_async::MotionControlAsync;
use crate::util::delay::{delay_wait, Delay};
use crate::Direction;
use crate::SignalError;

verus! {

/// An error that either reports an ongoing motion or wraps another error.
#[derive(Clone, Copy, PartialEq, Eq, Debug)]
pub enum BusyError<T> {
    /// A motion is ongoing; retry once it has completed
    Busy,
    /// Another error occurred
    Other(T),
}

/// A motion profile: given a target distance and a peak velocity, it
/// produces one delay value per step and reports when the sequence is
/// exhausted. The delay values themselves are opaque to this crate.
pub trait MotionProfile: Sized {
    /// The type the profile uses to represent velocity
    type Velocity: Copy;

    /// Steps left before the current sequence is exhausted.
    ///
    /// Implementations outside the verifier inherit the default, which
    /// leaves the value unspecified.
    open spec fn spec_remaining(&self) -> nat {
        vstd::pervasive::arbitrary()
    }

    /// Arrange a sequence of exactly `num_steps` delays for a move at the
    /// given peak velocity.
    fn enter_position_mode(&mut self, max_velocity: Self::Velocity, num_steps: u32)
        ensures
            final(self).spec_remaining() == num_steps as nat,
    ;

    /// The delay, in microseconds, before the next step, or `None` once
    /// the sequence is exhausted.
    fn next_delay(&mut self) -> (r: Option<u32>)
        ensures
            old(self).spec_remaining() == 0 ==> r is None && *final(self) == *old(self),
            old(self).spec_remaining() > 0 ==> r is Some && final(self).spec_remaining() == (old(
                self,
            ).spec_remaining() - 1) as nat,
    ;
}

/// A constant-speed motion profile: every step gets the same delay.
pub struct FixedDelayProfile {
    delay_us: u32,
    remaining: u32,
}

impl FixedDelayProfile {
    /// The delay issued before each step, in microseconds.
    pub closed spec fn spec_delay_us(&self) -> u32 {
        self.delay_us
    }

    /// Create a profile that issues the given delay before every step.
    pub fn new(delay_us: u32) -> (r: FixedDelayProfile)
        ensures
            r.spec_delay_us() == delay_us,
            r.spec_remaining() == 0,
    {
        FixedDelayProfile { delay_us, remaining: 0 }
    }
}

impl MotionProfile for FixedDelayProfile {
    type Velocity = u32;

    closed spec fn spec_remaining(&self) -> nat {
        self.remaining as nat
    }

    fn enter_position_mode(&mut self, max_velocity: u32, num_steps: u32)
        ensures
            final(self).spec_delay_us() == old(self).spec_delay_us(),
    {
        self.remaining = num_steps;
    }

    fn next_delay(&mut self) -> (r: Option<u32>)
        ensures
            final(self).spec_delay_us() == old(self).spec_delay_us(),
            r is Some ==> r == Some(old(self).spec_delay_us()),
    {
        if self.remaining > 0 {
            self.remaining = self.remaining - 1;
            Some(self.delay_us)
        } else {
            None
        }
    }
}

/// The step a position changes by in the given direction.
pub open spec fn dir_sign(direction: Direction) -> int {
    match direction {
        Direction::Forward => 1,
        Direction::Backward => -1,
    }
}

/// Where a move ends that starts at `position` and performs `remaining`
/// steps in `direction`.
pub open spec fn end_position(position: int, direction: Direction, remaining: nat) -> int {
    match direction {
        Direction::Forward => position + remaining,
        Direction::Backward => position - remaining,
    }
}

/// Software implementation of the motion control capability.
///
/// Wraps a driver, a delay source and a motion profile. A requested move
/// records the direction and hands the profile the distance; each
/// subsequent [`MotionControl::update`] issues the direction once and
/// then, per call, waits the profile's delay and fires one step, until
/// the profile is exhausted.
pub struct SoftwareMotionControl<Driver, Del, Profile> {
    driver: Driver,
    delay: Del,
    profile: Profile,
    new_motion: Option<Direction>,
    in_motion: bool,
    current_step: i32,
    current_direction: Direction,
    target: Ghost<int>,
    phase_mid: Ghost<Driver>,
}

impl<Driver, Del, Profile: MotionProfile> SoftwareMotionControl<Driver, Del, Profile> {
    /// The wrapped driver.
    pub closed spec fn spec_driver(&self) -> Driver {
        self.driver
    }

    /// The wrapped delay source.
    pub closed spec fn spec_delay(&self) -> Del {
        self.delay
    }

    /// The wrapped motion profile.
    pub closed spec fn spec_profile(&self) -> Profile {
        self.profile
    }

    /// The direction of a requested move that has not started yet.
    pub closed spec fn spec_new_motion(&self) -> Option<Direction> {
        self.new_motion
    }

    /// Whether a move has started and not yet completed.
    pub closed spec fn spec_in_motion(&self) -> bool {
        self.in_motion
    }

    /// The position the in-flight move is heading for.
    pub closed spec fn spec_target(&self) -> int {
        self.target@
    }

    /// The driver as it was between the phases of the last two-phase
    /// operation it ran: between the edges of a fired step, or between
    /// configuring and re-enabling for a mode change.
    pub closed spec fn spec_phase_mid(&self) -> Driver {
        self.phase_mid@
    }

    /// While a move is pending or in flight, the tracked position, the
    /// move's direction and the profile's remaining step count always
    /// agree on where the move ends, and that end lies in range.
    pub open spec fn wf(&self) -> bool {
        &&& (self.spec_new_motion() matches Some(d) ==> self.spec_target() == end_position(
            self.spec_current_step_int(),
            d,
            self.spec_profile().spec_remaining(),
        ) && i32::MIN <= self.spec_target() <= i32::MAX)
        &&& (self.spec_new_motion() is None && self.spec_in_motion() ==> self.spec_target()
            == end_position(
            self.spec_current_step_int(),
            self.spec_current_direction(),
            self.spec_profile().spec_remaining(),
        ) && i32::MIN <= self.spec_target() <= i32::MAX)
    }

    /// The tracked position.
    pub closed spec fn spec_current_step_int(&self) -> int {
        self.current_step as int
    }

    /// The direction of the last motion that was started.
    pub closed spec fn spec_current_direction(&self) -> Direction {
        self.current_direction
    }

    /// Construct a new instance of `SoftwareMotionControl`, wrapping the
    /// given driver, delay source and motion profile. The tracked
    /// position starts at zero.
    pub fn new(driver: Driver, delay: Del, profile: Profile) -> (r: SoftwareMotionControl<
        Driver,
        Del,
        Profile,
    >)
        ensures
            r.spec_driver() == driver,
            r.spec_delay() == delay,
            r.spec_profile() == profile,
            r.spec_new_motion() is None,
            !r.spec_in_motion(),
            r.spec_current_step_int() == 0,
            r.spec_current_direction() == Direction::Forward,
            r.wf(),
    {
        let ghost initial = driver;
        SoftwareMotionControl {
            driver,
            delay,
            profile,
            new_motion: None,
            in_motion: false,
            current_step: 0,
            // Only used during an ongoing movement, and overridden by
            // then; the initial value does not matter.
            current_direction: Direction::Forward,
            target: Ghost(0),
            phase_mid: Ghost(initial),
        }
    }

    /// Access a reference to the wrapped driver.
    ///
    /// This is only possible while there is no ongoing movement.
    pub fn driver(&self) -> (r: Option<&Driver>)
        ensures
            self.spec_in_motion() ==> r is None,
            !self.spec_in_motion() ==> r == Some(&self.spec_driver()),
    {
        if self.in_motion {
            None
        } else {
            Some(&self.driver)
        }
    }

    /// Access a reference to the wrapped delay source.
    ///
    /// This is only possible while there is no ongoing movement.
    pub fn timer(&self) -> (r: Option<&Del>)
        ensures
            self.spec_in_motion() ==> r is None,
            !self.spec_in_motion() ==> r == Some(&self.spec_delay()),
    {
        if self.in_motion {
            None
        } else {
            Some(&self.delay)
        }
    }

    /// Access a reference to the wrapped motion profile.
    pub fn profile(&self) -> (r: &Profile)
        ensures
            *r == self.spec_profile(),
    {
        &self.profile
    }

    /// Access the tracked position.
    pub fn current_step(&self) -> (r: i32)
        ensures
            r as int == self.spec_current_step_int(),
    {
        self.current_step
    }

    /// Access the direction of the last motion that was started.
    pub fn current_direction(&self) -> (r: Direction)
        ensures
            r == self.spec_current_direction(),
    {
        self.current_direction
    }
}

impl<Driver: SetDirection + Step, Del: Delay, Profile: MotionProfile> SoftwareMotionControl<
    Driver,
    Del,
    Profile,
> {
    /// Set the direction of the wrapped driver directly, reusing the
    /// delay source this value already owns for the setup wait.
    ///
    /// Returns the busy error, changing nothing, if a motion is ongoing.
    /// This bypasses motion control: the tracked position and direction
    /// are not touched.
    pub fn set_direction(&mut self, direction: Direction) -> (r: Result<
        (),
        BusyError<SignalError<(), (), ()>>,
    >)
        ensures
            old(self).spec_in_motion() ==> r == Err::<(), BusyError<SignalError<(), (), ()>>>(
                BusyError::Busy,
            ) && *final(self) == *old(self),
            !old(self).spec_in_motion() ==> ({
                &&& Driver::dir_rel(
                    old(self).spec_driver(),
                    final(self).spec_driver(),
                    direction,
                    old(self).spec_driver().spec_dir_action(direction),
                )
                &&& (r is Ok || r == Err::<(), BusyError<SignalError<(), (), ()>>>(
                    BusyError::Other(SignalError::Timer(())),
                ))
                &&& final(self).spec_profile() == old(self).spec_profile()
                &&& final(self).spec_current_step_int() == old(self).spec_current_step_int()
                &&& final(self).spec_current_direction() == old(self).spec_current_direction()
                &&& final(self).spec_new_motion() == old(self).spec_new_motion()
                &&& !final(self).spec_in_motion()
            }),
    {
        if self.in_motion {
            return Err(BusyError::Busy);
        }
        match self.driver.dir(direction) {
            Ok(_) => {},
            Err(_) => {
                // The contract of `dir` rules this arm out.
                return Err(BusyError::Other(SignalError::PinUnavailable(())));
            },
        }
        let setup_time = self.driver.setup_time();
        match delay_wait(&mut self.delay, setup_time.to_micros()) {
            Ok(_) => Ok(()),
            Err(_) => Err(BusyError::Other(SignalError::Timer(()))),
        }
    }

    /// Tell the wrapped driver to move the motor one step directly,
    /// reusing the delay source this value already owns for the pulse
    /// wait.
    ///
    /// Returns the busy error, changing nothing, if a motion is ongoing.
    /// This bypasses motion control: the tracked position is not touched.
    pub fn step(&mut self) -> (r: Result<(), BusyError<SignalError<(), (), ()>>>)
        ensures
            old(self).spec_in_motion() ==> r == Err::<(), BusyError<SignalError<(), (), ()>>>(
                BusyError::Busy,
            ) && *final(self) == *old(self),
            (!old(self).spec_in_motion() && !old(self).spec_driver().spec_step_ok()) ==> r
                == Err::<(), BusyError<SignalError<(), (), ()>>>(
                BusyError::Other(SignalError::PinUnavailable(())),
            ) && final(self).spec_driver() == old(self).spec_driver()
                && final(self).spec_current_step_int() == old(self).spec_current_step_int(),
            (!old(self).spec_in_motion() && old(self).spec_driver().spec_step_ok()) ==> ({
                &&& Driver::leading_rel(
                    old(self).spec_driver(),
                    final(self).spec_phase_mid(),
                    old(self).spec_driver().spec_leading_actions(),
                )
                &&& (r is Ok ==> Driver::trailing_rel(
                    final(self).spec_phase_mid(),
                    final(self).spec_driver(),
                    final(self).spec_phase_mid().spec_trailing_actions(),
                ))
                &&& (r is Err ==> r == Err::<(), BusyError<SignalError<(), (), ()>>>(
                    BusyError::Other(SignalError::Timer(()),
                )) && final(self).spec_driver() == final(self).spec_phase_mid())
                &&& final(self).spec_current_step_int() == old(self).spec_current_step_int()
                &&& !final(self).spec_in_motion()
            }),
    {
        if self.in_motion {
            return Err(BusyError::Busy);
        }
        match self.driver.step_leading() {
            Ok(_) => {},
            Err(_) => {
                return Err(BusyError::Other(SignalError::PinUnavailable(())));
            },
        }
        proof {
            self.phase_mid@ = self.driver;
        }
        let pulse_length = self.driver.pulse_length();
        match delay_wait(&mut self.delay, pulse_length.to_micros()) {
            Ok(_) => {},
            Err(_) => {
                return Err(BusyError::Other(SignalError::Timer(())));
            },
        }
        match self.driver.step_trailing() {
            Ok(_) => Ok(()),
            Err(_) => {
                // The contract of `step_trailing` rules this arm out.
                Err(BusyError::Other(SignalError::PinUnavailable(())))
            },
        }
    }
}

impl<
    Driver: SetDirection + Step + SetStepMode,
    Del: Delay,
    Profile: MotionProfile,
> SoftwareMotionControl<Driver, Del, Profile> {
    /// Set the microstepping mode of the wrapped driver directly,
    /// reusing the delay source this value already owns for the setup
    /// and hold waits.
    ///
    /// Returns the busy error, changing nothing, if a motion is ongoing.
    pub fn set_step_mode(&mut self, step_mode: Driver::StepMode) -> (r: Result<
        (),
        BusyError<SignalError<(), (), ()>>,
    >)
        ensures
            old(self).spec_in_motion() ==> r == Err::<(), BusyError<SignalError<(), (), ()>>>(
                BusyError::Busy,
            ) && *final(self) == *old(self),
            !old(self).spec_in_motion() ==> ({
                &&& Driver::apply_rel(
                    old(self).spec_driver(),
                    final(self).spec_phase_mid(),
                    step_mode,
                )
                &&& (r is Ok ==> Driver::enable_rel(
                    final(self).spec_phase_mid(),
                    final(self).spec_driver(),
                ))
                &&& (r is Err ==> r == Err::<(), BusyError<SignalError<(), (), ()>>>(
                    BusyError::Other(SignalError::Timer(()),
                )) && (final(self).spec_driver() == final(self).spec_phase_mid()
                    || Driver::enable_rel(final(self).spec_phase_mid(), final(self).spec_driver())))
                &&& final(self).spec_current_step_int() == old(self).spec_current_step_int()
                &&& !final(self).spec_in_motion()
            }),
    {
        if self.in_motion {
            return Err(BusyError::Busy);
        }
        match self.driver.apply_mode_config(step_mode) {
            Ok(_) => {},
            Err(_) => {
                // The contract of `apply_mode_config` rules this arm out.
                return Err(BusyError::Other(SignalError::PinUnavailable(())));
            },
        }
        proof {
            self.phase_mid@ = self.driver;
        }
        let setup_time = SetStepMode::setup_time(&self.driver);
        match delay_wait(&mut self.delay, setup_time.to_micros()) {
            Ok(_) => {},
            Err(_) => {
                return Err(BusyError::Other(SignalError::Timer(())));
            },
        }
        match self.driver.enable_driver() {
            Ok(_) => {},
            Err(_) => {
                // The contract of `enable_driver` rules this arm out.
                return Err(BusyError::Other(SignalError::PinUnavailable(())));
            },
        }
        let hold_time = self.driver.hold_time();
        match delay_wait(&mut self.delay, hold_time.to_micros()) {
            Ok(_) => Ok(()),
            Err(_) => Err(BusyError::Other(SignalError::Timer(()))),
        }
    }
}

impl<Driver: SetDirection + Step, Del: Delay, Profile: MotionProfile> MotionControl
    for SoftwareMotionControl<Driver, Del, Profile> {
    type Velocity = Profile::Velocity;

    type Error = BusyError<SignalError<(), (), ()>>;

    open spec fn spec_position(&self) -> int {
        self.spec_current_step_int()
    }

    open spec fn spec_busy(&self) -> bool {
        self.spec_in_motion() || self.spec_new_motion() is Some
    }

    open spec fn spec_direction(&self) -> Direction {
        self.spec_current_direction()
    }

    open spec fn spec_busy_err(&self) -> BusyError<SignalError<(), (), ()>> {
        BusyError::Busy
    }

    open spec fn spec_progress(&self) -> nat {
        (if self.spec_new_motion() is Some {
            1nat
        } else {
            0nat
        }) + self.spec_profile().spec_remaining()
    }

    /// Arrange a move: record the direction towards the target and hand
    /// the profile the absolute distance. No pin is touched, and the move
    /// itself is performed by the subsequent `update` calls.
    fn move_to_position(
        &mut self,
        max_velocity: Profile::Velocity,
        target_step: i32,
    ) -> (r: Result<(), BusyError<SignalError<(), (), ()>>>)
        ensures
            old(self).wf() ==> final(self).wf(),
            !old(self).spec_busy() ==> ({
                &&& final(self).spec_new_motion() == Some(
                    if target_step > old(self).spec_position() {
                        Direction::Forward
                    } else {
                        Direction::Backward
                    },
                )
                &&& !final(self).spec_in_motion()
                &&& final(self).spec_profile().spec_remaining() == (if target_step
                    >= old(self).spec_position() {
                    target_step - old(self).spec_position()
                } else {
                    old(self).spec_position() - target_step
                })
                &&& final(self).spec_driver() == old(self).spec_driver()
                &&& final(self).spec_delay() == old(self).spec_delay()
                &&& final(self).spec_target() == target_step as int
                &&& final(self).spec_current_direction() == old(self).spec_current_direction()
            }),
    {
        if self.in_motion || self.new_motion.is_some() {
            return Err(BusyError::Busy);
        }
        let distance: i64 = (target_step as i64) - (self.current_step as i64);
        let steps: u32 = if distance >= 0 {
            distance as u32
        } else {
            (-distance) as u32
        };
        self.profile.enter_position_mode(max_velocity, steps);
        let direction = if distance > 0 {
            Direction::Forward
        } else {
            Direction::Backward
        };
        self.new_motion = Some(direction);
        proof {
            self.target@ = target_step as int;
        }
        Ok(())
    }

    /// Overwrite the tracked position. Only legal while idle: resetting
    /// during an active move is rejected with the busy error.
    fn reset_position(&mut self, step: i32) -> (r: Result<
        (),
        BusyError<SignalError<(), (), ()>>,
    >)
        ensures
            old(self).wf() ==> final(self).wf(),
            !old(self).spec_busy() ==> ({
                &&& final(self).spec_driver() == old(self).spec_driver()
                &&& final(self).spec_delay() == old(self).spec_delay()
                &&& final(self).spec_profile() == old(self).spec_profile()
                &&& final(self).spec_new_motion() is None
                &&& !final(self).spec_in_motion()
                &&& final(self).spec_current_direction() == old(self).spec_current_direction()
            }),
    {
        if self.in_motion || self.new_motion.is_some() {
            return Err(BusyError::Busy);
        }
        self.current_step = step;
        Ok(())
    }

    /// Advance the motion by at most one phase.
    ///
    /// A pending move first has its direction issued to the driver. After
    /// that, each call waits the profile's delay for the next step and
    /// fires one full step, moving the tracked position one step in the
    /// recorded direction, until the profile is exhausted; then the move
    /// reports completion and the wrapped resources become accessible
    /// again. A timer fault or a driver that declines to step ends the
    /// motion with an error.
    #[verifier::rlimit(50)]
    fn update(&mut self) -> (r: Result<bool, BusyError<SignalError<(), (), ()>>>)
        ensures
            old(self).wf() ==> final(self).wf(),
            final(self).spec_target() == old(self).spec_target(),
            !old(self).spec_busy() ==> r == Ok::<bool, BusyError<SignalError<(), (), ()>>>(false)
                && *final(self) == *old(self),
            old(self).spec_new_motion() matches Some(d) ==> ({
                &&& r == Ok::<bool, BusyError<SignalError<(), (), ()>>>(true)
                &&& Driver::dir_rel(
                    old(self).spec_driver(),
                    final(self).spec_driver(),
                    d,
                    old(self).spec_driver().spec_dir_action(d),
                )
                &&& final(self).spec_new_motion() is None
                &&& final(self).spec_in_motion()
                &&& final(self).spec_current_direction() == d
                &&& final(self).spec_position() == old(self).spec_position()
                &&& final(self).spec_profile() == old(self).spec_profile()
            }),
            (old(self).spec_new_motion() is None && old(self).spec_in_motion() && old(
                self,
            ).spec_profile().spec_remaining() == 0) ==> ({
                &&& r == Ok::<bool, BusyError<SignalError<(), (), ()>>>(false)
                &&& final(self).spec_driver() == old(self).spec_driver()
                &&& !final(self).spec_busy()
                &&& (old(self).wf() ==> final(self).spec_position() == old(self).spec_target())
            }),
            (old(self).spec_new_motion() is None && old(self).spec_in_motion() && old(
                self,
            ).spec_profile().spec_remaining() > 0) ==> ({
                &&& (r == Ok::<bool, BusyError<SignalError<(), (), ()>>>(true) ==> ({
                    &&& Driver::leading_rel(
                        old(self).spec_driver(),
                        final(self).spec_phase_mid(),
                        old(self).spec_driver().spec_leading_actions(),
                    )
                    &&& Driver::trailing_rel(
                        final(self).spec_phase_mid(),
                        final(self).spec_driver(),
                        final(self).spec_phase_mid().spec_trailing_actions(),
                    )
                    &&& final(self).spec_position() == old(self).spec_position() + dir_sign(
                        old(self).spec_current_direction(),
                    )
                    &&& final(self).spec_in_motion()
                    &&& final(self).spec_new_motion() is None
                    &&& final(self).spec_current_direction() == old(
                        self,
                    ).spec_current_direction()
                }))
                &&& final(self).spec_profile().spec_remaining() == (old(
                    self,
                ).spec_profile().spec_remaining() - 1) as nat
                &&& (r matches Err(_) ==> final(self).spec_driver() == old(self).spec_driver()
                    && final(self).spec_position() == old(self).spec_position())
            }),
    {
        if let Some(direction) = self.new_motion {
            // Issue the direction; the commanded level is recorded on the
            // driver's own pin state.
            match self.driver.dir(direction) {
                Ok(_) => {},
                Err(_) => {
                    // The contract of `dir` rules this arm out.
                    self.new_motion = None;
                    self.in_motion = false;
                    return Err(BusyError::Other(SignalError::PinUnavailable(())));
                },
            }
            self.current_direction = direction;
            self.new_motion = None;
            self.in_motion = true;
            Ok(true)
        } else if self.in_motion {
            match self.profile.next_delay() {
                Some(step_delay) => {
                    match delay_wait(&mut self.delay, step_delay) {
                        Ok(_) => {},
                        Err(_) => {
                            self.in_motion = false;
                            return Err(BusyError::Other(SignalError::Timer(())));
                        },
                    }
                    match self.driver.step_leading() {
                        Ok(_) => {},
                        Err(_) => {
                            self.in_motion = false;
                            return Err(BusyError::Other(SignalError::PinUnavailable(())));
                        },
                    }
                    proof {
                        self.phase_mid@ = self.driver;
                    }
                    match self.driver.step_trailing() {
                        Ok(_) => {},
                        Err(_) => {
                            // The contract of `step_trailing` rules this
                            // arm out.
                            self.in_motion = false;
                            return Err(BusyError::Other(SignalError::PinUnavailable(())));
                        },
                    }
                    let stepped: Option<i32> = match self.current_direction {
                        Direction::Forward => self.current_step.checked_add(1),
                        Direction::Backward => self.current_step.checked_sub(1),
                    };
                    match stepped {
                        Some(s) => {
                            self.current_step = s;
                            Ok(true)
                        },
                        None => {
                            // Unreachable while the move bookkeeping is
                            // intact: the target bounds every position
                            // the move passes through.
                            self.in_motion = false;
                            Ok(false)
                        },
                    }
                },
                None => {
                    self.in_motion = false;
                    Ok(false)
                },
            }
        } else {
            Ok(false)
        }
    }
}

impl<Driver: SetDirection + Step, Del: Delay, Profile: MotionProfile> MotionControlAsync
    for SoftwareMotionControl<Driver, Del, Profile> {
    /// Arranging the move is the same non-blocking request as
    /// [`MotionControl::move_to_position`].
    fn move_to_position_async(
        &mut self,
        max_velocity: Profile::Velocity,
        target_step: i32,
    ) -> (r: Result<(), BusyError<SignalError<(), (), ()>>>) {
        self.move_to_position(max_velocity, target_step)
    }
}

impl<Driver: SetDirection + Step, Del: Delay, Profile: MotionProfile> EnableMotionControl<(
    Del,
    Profile,
)> for Driver {
    type WithMotionControl = SoftwareMotionControl<Driver, Del, Profile>;

    /// Enable software motion control, wrapping the driver together with
    /// the delay source and motion profile it will drive the move with.
    fn enable_motion_control(self, res: (Del, Profile)) -> (r: SoftwareMotionControl<
        Driver,
        Del,
        Profile,
    >)
        ensures
            r.spec_driver() == self,
            r.spec_delay() == res.0,
            r.spec_profile() == res.1,
            !r.spec_in_motion(),
            r.spec_new_motion() is None,
            r.spec_current_step_int() == 0,
            r.wf(),
    {
        let (delay, profile) = res;
        SoftwareMotionControl::new(self, delay, profile)
    }
}

} // verus!
