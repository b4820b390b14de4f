//! Generic driver.
//!
//! Platform-agnostic driver for motors driven through bare signal lines,
//! such as unipolar stepper driver boards. It is configured with a firing
//! sequence: an ordered table of bit patterns, one per micro-position,
//! whose width matches the number of signal lines. On each step the driver
//! drives every line to the bit of the pattern at the current index, then
//! advances the index by one forward or backward, wrapping at both ends.
//!
//! Direction is tracked purely in software state — no physical direction
//! pin exists, so direction changes ask for no pin action. Stepping before
//! a direction has ever been set is rejected: there is no sane default
//! direction to assume.

use vstd::prelude::*;

use crate::pin::{Level, OutPin, PinBus};
use crate::traits::{
    EnableDirectionControl, EnableStepControl, OutputPinAction, OutputStepFutureItem, ReleaseCoils,
    SetDirection, Step,
};
use crate::traits_async::{
    DelayAsyncEnabled, OutputFutureItem, ReleaseAsync, SetDelayAsync, SetDirectionAsync, StepAsync,
};
use crate::util::delay::{delay_wait, Delay};
use crate::Direction;
use crate::Nanoseconds;
use crate::SignalError;

verus! {

/// Errors that may occur during a step operation on the generic driver.
#[derive(Clone, Copy, PartialEq, Eq, Structural, Debug)]
pub enum GenericStepError {
    /// A direction must be set before the first step
    MustCallEnableDirection,
}

/// The level that line `i` of a bus of the given width is driven to by
/// the given firing pattern: bit `width - 1 - i` of the pattern.
pub open spec fn pattern_level(pattern: u8, width: int, i: int) -> Level {
    if (pattern >> ((width - 1 - i) as u8)) & 1 == 1 {
        Level::High
    } else {
        Level::Low
    }
}

/// The firing-table index after one step from `cur` in direction `dir`,
/// wrapping at both ends of a table of length `n`.
pub open spec fn next_index(cur: int, n: int, dir: Direction) -> int {
    match dir {
        Direction::Forward => if cur + 1 >= n {
            0
        } else {
            cur + 1
        },
        Direction::Backward => if cur == 0 {
            n - 1
        } else {
            cur - 1
        },
    }
}

/// The index reached after `k` steps from `start` in direction `dir`
/// through a table of length `n`.
pub open spec fn iterate_index(start: int, n: int, dir: Direction, k: nat) -> int
    decreases k,
{
    if k == 0 {
        start
    } else {
        next_index(iterate_index(start, n, dir, (k - 1) as nat), n, dir)
    }
}

proof fn lemma_iterate_forward(start: int, n: int, k: nat)
    requires
        1 <= n,
        0 <= start < n,
        k <= n,
    ensures
        iterate_index(start, n, Direction::Forward, k) == if start + k < n {
            start + k
        } else {
            start + k - n
        },
    decreases k,
{
    if k > 0 {
        lemma_iterate_forward(start, n, (k - 1) as nat);
    }
}

/// Law: the firing table is cyclic. Stepping forward through an `n`-entry
/// table `n` times returns the index to its starting value, and stepping
/// backward from index 0 wraps to `n - 1`, never to an out-of-range value.
pub proof fn lemma_firing_table_cycle(start: int, n: int)
    requires
        1 <= n,
        0 <= start < n,
    ensures
        iterate_index(start, n, Direction::Forward, n as nat) == start,
        next_index(0, n, Direction::Backward) == n - 1,
        forall|dir: Direction, cur: int|
            0 <= cur < n ==> 0 <= #[trigger] next_index(cur, n, dir) < n,
{
    lemma_iterate_forward(start, n, n as nat);
}

/// Generic multi-line sequencer driver.
///
/// The `Pins` slot is `()` until step control is enabled with a bus of
/// output pins; the `Delay` slot is `()` until a delay source is attached.
pub struct Generic<Pins, Delay> {
    pins: Pins,
    steps: Vec<u8>,
    step: Option<u8>,
    direction: Option<Direction>,
    delay: Delay,
}

impl<Pins, Del> Generic<Pins, Del> {
    /// The firing sequence: one bit pattern per micro-position.
    pub closed spec fn spec_steps(&self) -> Seq<u8> {
        self.steps@
    }

    /// The current index into the firing sequence, if one has been set.
    pub closed spec fn spec_step(&self) -> Option<u8> {
        self.step
    }

    /// The direction that was last set, if any.
    pub closed spec fn spec_direction(&self) -> Option<Direction> {
        self.direction
    }

    /// The pin resources currently attached.
    pub closed spec fn spec_pins_raw(&self) -> Pins {
        self.pins
    }

    /// The delay source currently attached.
    pub closed spec fn spec_delay(&self) -> Del {
        self.delay
    }

    /// The index the next step fires from: the current index, or 0 before
    /// one has been set.
    pub open spec fn spec_index_or_zero(&self) -> int {
        match self.spec_step() {
            Some(s) => s as int,
            None => 0,
        }
    }

    /// The current index into the firing sequence, if one has been set.
    pub fn step_index(&self) -> (r: Option<u8>)
        ensures
            r == self.spec_step(),
    {
        self.step
    }

    /// The direction that was last set, if any.
    pub fn direction(&self) -> (r: Option<Direction>)
        ensures
            r == self.spec_direction(),
    {
        self.direction
    }
}

impl Generic<(), ()> {
    /// Create a new instance of `Generic` from a firing sequence.
    ///
    /// The table must have between 1 and 256 entries: it is indexed
    /// circularly, and the index is carried as one byte.
    pub fn new(steps: Vec<u8>) -> (r: Generic<(), ()>)
        requires
            1 <= steps@.len() <= 256,
        ensures
            r.spec_steps() == steps@,
            r.spec_step() is None,
            r.spec_direction() is None,
    {
        Generic { pins: (), steps, step: None, direction: None, delay: () }
    }
}

impl<Pins, Del> SetDelayAsync<Del> for Generic<Pins, ()> {
    type AsyncEnabled = Generic<Pins, Del>;

    fn set_delay(self, delay: Del) -> (r: Generic<Pins, Del>)
        ensures
            r.spec_steps() == self.spec_steps(),
            r.spec_step() == self.spec_step(),
            r.spec_direction() == self.spec_direction(),
            r.spec_pins_raw() == self.spec_pins_raw(),
            r.spec_delay() == delay,
    {
        Generic {
            pins: self.pins,
            steps: self.steps,
            step: self.step,
            direction: self.direction,
            delay,
        }
    }
}

impl<Pins, Del> DelayAsyncEnabled<Del> for Generic<Pins, Del> {
    fn delay(self) -> (r: Del)
        ensures
            r == self.spec_delay(),
    {
        self.delay
    }
}

impl<Pins, Del> EnableDirectionControl<()> for Generic<Pins, Del> {
    type WithDirectionControl = Generic<Pins, Del>;

    /// Direction on this driver is software state only, so no hardware
    /// resource is needed and the driver is returned unchanged.
    fn enable_direction_control(self, _res: ()) -> (r: Generic<Pins, Del>)
        ensures
            r == self,
    {
        self
    }
}

impl<Pins, Del> SetDirection for Generic<Pins, Del> {
    open spec fn spec_setup_time(&self) -> u32 {
        0
    }

    open spec fn spec_dir_action(&self, direction: Direction) -> OutputPinAction<u32> {
        OutputPinAction::NoOp
    }

    open spec fn dir_rel(
        pre: Self,
        post: Self,
        direction: Direction,
        action: OutputPinAction<u32>,
    ) -> bool {
        &&& post.spec_steps() == pre.spec_steps()
        &&& post.spec_step() == pre.spec_step()
        &&& post.spec_direction() == Some(direction)
        &&& post.spec_pins_raw() == pre.spec_pins_raw()
        &&& post.spec_delay() == pre.spec_delay()
        &&& action == OutputPinAction::<u32>::NoOp
    }

    fn setup_time(&self) -> (r: Nanoseconds) {
        Nanoseconds::from_ticks(0)
    }

    fn dir(&mut self, direction: Direction) -> (r: Result<OutputPinAction<u32>, ()>) {
        self.direction = Some(direction);
        Ok(OutputPinAction::NoOp)
    }
}

impl<Del> EnableStepControl<PinBus> for Generic<(), Del> {
    type WithStepControl = Generic<PinBus, Del>;

    fn enable_step_control(self, res: PinBus) -> (r: Generic<PinBus, Del>)
        ensures
            r.spec_steps() == self.spec_steps(),
            r.spec_step() == self.spec_step(),
            r.spec_direction() == self.spec_direction(),
            r.spec_pins_raw() == res,
            r.spec_delay() == self.spec_delay(),
    {
        Generic {
            pins: res,
            steps: self.steps,
            step: self.step,
            direction: self.direction,
            delay: self.delay,
        }
    }
}

impl<Pins, Del> OutputStepFutureItem for Generic<Pins, Del> {
    type OutputStepFutureResult = ();

    type OutputStepFutureError = GenericStepError;
}

impl<Del> Generic<PinBus, Del> {
    /// The pins of the attached bus.
    pub open spec fn spec_pins(&self) -> Seq<OutPin> {
        self.spec_pins_raw().spec_pins()
    }

    /// A driver is well-formed when its firing table has between 1 and
    /// 256 entries, the current index lies inside the table, and the bus
    /// has at most eight lines.
    pub open spec fn wf(&self) -> bool {
        &&& 1 <= self.spec_steps().len() <= 256
        &&& (self.spec_step() matches Some(s) ==> (s as int) < self.spec_steps().len())
        &&& self.spec_pins().len() <= 8
    }

    /// Everything one step changes, besides the actions it reports: every
    /// line is driven to its bit of the pattern at the current index, and
    /// the index advances one position in the set direction, wrapping.
    pub open spec fn step_rel(pre: Self, post: Self) -> bool {
        let n = pre.spec_steps().len() as int;
        let cur = pre.spec_index_or_zero();
        let pat = pre.spec_steps()[cur];
        let w = pre.spec_pins().len() as int;
        let dir = pre.spec_direction()->0;
        &&& post.spec_steps() == pre.spec_steps()
        &&& post.spec_direction() == pre.spec_direction()
        &&& post.spec_delay() == pre.spec_delay()
        &&& post.spec_step() == Some(next_index(cur, n, dir) as u8)
        &&& post.spec_pins().len() == w
        &&& forall|i: int|
            0 <= i < w ==> #[trigger] post.spec_pins()[i].spec_id()
                == pre.spec_pins()[i].spec_id()
        &&& forall|i: int|
            0 <= i < w ==> #[trigger] post.spec_pins()[i].spec_writes() == pre.spec_pins()[
                i
            ].spec_writes().push(pattern_level(pat, w, i))
    }

    /// Access the attached pin bus.
    pub fn pin_bus(&self) -> (r: &PinBus)
        ensures
            *r == self.spec_pins_raw(),
    {
        &self.pins
    }

    /// Sets the current index into the firing sequence. Has to be less
    /// than the length of the table.
    pub fn set_step(&mut self, step: u8) -> (r: Result<(), ()>)
        ensures
            (step as int) < old(self).spec_steps().len() ==> r is Ok && final(self).spec_step()
                == Some(step),
            (step as int) >= old(self).spec_steps().len() ==> r is Err && *final(self) == *old(
                self,
            ),
            final(self).spec_steps() == old(self).spec_steps(),
            final(self).spec_direction() == old(self).spec_direction(),
            final(self).spec_pins_raw() == old(self).spec_pins_raw(),
            final(self).spec_delay() == old(self).spec_delay(),
    {
        if (step as usize) < self.steps.len() {
            self.step = Some(step);
            Ok(())
        } else {
            Err(())
        }
    }

    /// Rotate the motor one step in the direction that was previously
    /// set, waiting the inter-edge delay of 100 microseconds on the given
    /// delay source.
    ///
    /// Fails with `MustCallEnableDirection`, changing nothing, if no
    /// direction has been set; a timer fault is reported after the pins
    /// have already been driven.
    pub fn step<D2: Delay>(&mut self, delay: &mut D2) -> (r: Result<
        (),
        SignalError<GenericStepError, (), ()>,
    >)
        ensures
            !old(self).spec_step_ok() ==> r == Err::<(), SignalError<GenericStepError, (), ()>>(
                SignalError::PinUnavailable(GenericStepError::MustCallEnableDirection),
            ) && *final(self) == *old(self),
            old(self).spec_step_ok() ==> Self::step_rel(*old(self), *final(self)) && (r is Ok || r
                == Err::<(), SignalError<GenericStepError, (), ()>>(SignalError::Timer(()))),
    {
        match self.step_leading() {
            Err(e) => Err(SignalError::PinUnavailable(e)),
            Ok(_) => {
                match delay_wait(delay, 100) {
                    Err(_) => Err(SignalError::Timer(())),
                    Ok(_) => {
                        match self.step_trailing() {
                            Ok(_) => Ok(()),
                            Err(e) => Err(SignalError::PinUnavailable(e)),
                        }
                    },
                }
            },
        }
    }
}

impl<Del> Step for Generic<PinBus, Del> {
    type Error = GenericStepError;

    open spec fn spec_pulse_length(&self) -> u32 {
        0
    }

    /// The generic driver can step once it is well-formed and a direction
    /// has been set.
    open spec fn spec_step_ok(&self) -> bool {
        self.wf() && self.spec_direction() is Some
    }

    open spec fn spec_step_err(&self) -> GenericStepError {
        GenericStepError::MustCallEnableDirection
    }

    open spec fn spec_leading_actions(&self) -> Seq<OutputPinAction<u32>> {
        let pat = self.spec_steps()[self.spec_index_or_zero()];
        let w = self.spec_pins().len() as int;
        Seq::new(
            w as nat,
            |i: int| OutputPinAction::SetLevel(self.spec_pins()[i].spec_id(), pattern_level(pat, w, i)),
        )
    }

    open spec fn spec_trailing_actions(&self) -> Seq<OutputPinAction<u32>> {
        Seq::new(self.spec_pins().len(), |i: int| OutputPinAction::NoOp)
    }

    open spec fn leading_rel(pre: Self, post: Self, actions: Seq<OutputPinAction<u32>>) -> bool {
        let cur = pre.spec_index_or_zero();
        let pat = pre.spec_steps()[cur];
        let w = pre.spec_pins().len() as int;
        &&& Self::step_rel(pre, post)
        &&& actions.len() == w
        &&& forall|i: int|
            0 <= i < w ==> #[trigger] actions[i] == OutputPinAction::SetLevel(
                pre.spec_pins()[i].spec_id(),
                pattern_level(pat, w, i),
            )
    }

    open spec fn trailing_rel(pre: Self, post: Self, actions: Seq<OutputPinAction<u32>>) -> bool {
        &&& post == pre
        &&& actions.len() == pre.spec_pins().len()
        &&& forall|i: int|
            0 <= i < actions.len() ==> #[trigger] actions[i] == OutputPinAction::<u32>::NoOp
    }

    fn pulse_length(&self) -> (r: Nanoseconds) {
        Nanoseconds::from_ticks(0)
    }

    fn step_leading(&mut self) -> (r: Result<Vec<OutputPinAction<u32>>, GenericStepError>) {
        let n = self.steps.len();
        let w = self.pins.width();
        if n < 1 || n > 256 || w > 8 {
            return Err(GenericStepError::MustCallEnableDirection);
        }
        let direction = match self.direction {
            None => {
                return Err(GenericStepError::MustCallEnableDirection);
            },
            Some(d) => d,
        };
        let cur: usize = match self.step {
            Some(s) => s as usize,
            None => 0,
        };
        if cur >= n {
            return Err(GenericStepError::MustCallEnableDirection);
        }
        // Retain the firing pattern at the current index before the index
        // is advanced.
        let pattern = self.steps[cur];
        let next: usize = match direction {
            Direction::Forward => if cur + 1 >= n {
                0
            } else {
                cur + 1
            },
            Direction::Backward => if cur == 0 {
                n - 1
            } else {
                cur - 1
            },
        };
        self.step = Some(next as u8);
        let mut actions: Vec<OutputPinAction<u32>> = Vec::new();
        let mut i: usize = 0;
        while i < w
            invariant
                i <= w,
                w <= 8,
                w == self.spec_pins().len(),
                w == old(self).spec_pins().len(),
                self.spec_steps() == old(self).spec_steps(),
                self.spec_direction() == old(self).spec_direction(),
                self.spec_delay() == old(self).spec_delay(),
                self.spec_step() == Some(next as u8),
                cur < old(self).spec_steps().len(),
                pattern == old(self).spec_steps()[cur as int],
                forall|j: int|
                    0 <= j < i ==> #[trigger] self.spec_pins()[j].spec_id() == old(
                        self,
                    ).spec_pins()[j].spec_id(),
                forall|j: int|
                    0 <= j < i ==> #[trigger] self.spec_pins()[j].spec_writes() == old(
                        self,
                    ).spec_pins()[j].spec_writes().push(pattern_level(pattern, w as int, j)),
                forall|j: int|
                    i <= j < w ==> #[trigger] self.spec_pins()[j] == old(self).spec_pins()[j],
                actions@.len() == i,
                forall|j: int|
                    0 <= j < i ==> #[trigger] actions@[j] == OutputPinAction::SetLevel(
                        old(self).spec_pins()[j].spec_id(),
                        pattern_level(pattern, w as int, j),
                    ),
            decreases w - i,
        {
            let shift: u8 = (w - 1 - i) as u8;
            let bit: u8 = (pattern >> shift) & 1;
            let level = if bit == 1 {
                Level::High
            } else {
                Level::Low
            };
            self.pins.set_level(i, level);
            let id = self.pins.pin(i).id();
            actions.push(OutputPinAction::SetLevel(id, level));
            i += 1;
        }
        proof {
            assert(actions@ =~= old(self).spec_leading_actions());
        }
        Ok(actions)
    }

    fn step_trailing(&mut self) -> (r: Result<Vec<OutputPinAction<u32>>, GenericStepError>) {
        let w = self.pins.width();
        let mut actions: Vec<OutputPinAction<u32>> = Vec::new();
        let mut i: usize = 0;
        while i < w
            invariant
                i <= w,
                actions@.len() == i,
                forall|j: int|
                    0 <= j < i ==> #[trigger] actions@[j] == OutputPinAction::<u32>::NoOp,
            decreases w - i,
        {
            actions.push(OutputPinAction::NoOp);
            i += 1;
        }
        proof {
            assert(actions@ =~= old(self).spec_trailing_actions());
        }
        Ok(actions)
    }
}

impl<Pins, Del> SetDirectionAsync<(), Del> for Generic<Pins, Del> {
    type Error = ();

    /// Setting the direction records it in software state and touches no
    /// pin; this driver's setup time is zero, so there is nothing to wait
    /// for.
    open spec fn set_dir_rel(pre: Self, post: Self, direction: Direction) -> bool {
        &&& post.spec_steps() == pre.spec_steps()
        &&& post.spec_step() == pre.spec_step()
        &&& post.spec_direction() == Some(direction)
        &&& post.spec_pins_raw() == pre.spec_pins_raw()
        &&& post.spec_delay() == pre.spec_delay()
    }

    fn set_dir_async(&mut self, direction: Direction) -> (r: Result<(), ()>)
        ensures
            r is Ok,
    {
        match self.dir(direction) {
            Ok(_) => Ok(()),
            Err(_) => Err(()),
        }
    }
}

impl<Del> OutputFutureItem for Generic<PinBus, Del> {
    type OutputFutResult = ();

    type Error = SignalError<GenericStepError, (), ()>;
}

impl<Del, D2: Delay> StepAsync<D2> for Generic<PinBus, Del> {
    /// One whole step: either the driver declines because no direction
    /// has been set, or the firing pattern is driven and the index
    /// advances, with only a timer fault left to report.
    open spec fn step_async_rel(
        pre: Self,
        post: Self,
        r: Result<(), SignalError<GenericStepError, (), ()>>,
    ) -> bool {
        &&& !pre.spec_step_ok() ==> r == Err::<(), SignalError<GenericStepError, (), ()>>(
            SignalError::PinUnavailable(GenericStepError::MustCallEnableDirection),
        ) && post == pre
        &&& pre.spec_step_ok() ==> Self::step_rel(pre, post) && (r is Ok || r == Err::<
            (),
            SignalError<GenericStepError, (), ()>,
        >(SignalError::Timer(())))
    }

    fn step_async(&mut self, delay: &mut D2) -> (r: Result<
        (),
        SignalError<GenericStepError, (), ()>,
    >) {
        self.step(delay)
    }
}

impl<Del> ReleaseAsync<Del> for Generic<PinBus, Del> {
    type Error = ();

    /// Releasing drives every line low, exactly as
    /// [`ReleaseCoils::release_coils`] does.
    open spec fn release_async_rel(pre: Self, post: Self) -> bool {
        <Self as ReleaseCoils>::release_rel(pre, post)
    }

    fn release_async(&mut self) -> (r: Result<(), ()>) {
        self.release_coils()
    }
}

impl<Del> ReleaseCoils for Generic<PinBus, Del> {
    type Error = ();

    /// Releasing the coils drives every line low and leaves the tracked
    /// index and direction untouched.
    open spec fn release_rel(pre: Self, post: Self) -> bool {
        let w = pre.spec_pins().len() as int;
        &&& post.spec_steps() == pre.spec_steps()
        &&& post.spec_step() == pre.spec_step()
        &&& post.spec_direction() == pre.spec_direction()
        &&& post.spec_delay() == pre.spec_delay()
        &&& post.spec_pins().len() == w
        &&& forall|i: int|
            0 <= i < w ==> #[trigger] post.spec_pins()[i].spec_id()
                == pre.spec_pins()[i].spec_id()
        &&& forall|i: int|
            0 <= i < w ==> #[trigger] post.spec_pins()[i].spec_writes() == pre.spec_pins()[
                i
            ].spec_writes().push(Level::Low)
    }

    fn release_coils(&mut self) -> (r: Result<(), ()>) {
        let w = self.pins.width();
        let mut i: usize = 0;
        while i < w
            invariant
                i <= w,
                w == self.spec_pins().len(),
                w == old(self).spec_pins().len(),
                self.spec_steps() == old(self).spec_steps(),
                self.spec_direction() == old(self).spec_direction(),
                self.spec_delay() == old(self).spec_delay(),
                self.spec_step() == old(self).spec_step(),
                forall|j: int|
                    0 <= j < i ==> #[trigger] self.spec_pins()[j].spec_id() == old(
                        self,
                    ).spec_pins()[j].spec_id(),
                forall|j: int|
                    0 <= j < i ==> #[trigger] self.spec_pins()[j].spec_writes() == old(
                        self,
                    ).spec_pins()[j].spec_writes().push(Level::Low),
                forall|j: int|
                    i <= j < w ==> #[trigger] self.spec_pins()[j] == old(self).spec_pins()[j],
            decreases w - i,
        {
            self.pins.set_level(i, Level::Low);
            i += 1;
        }
        Ok(())
    }
}

} // verus!
