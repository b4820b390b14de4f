//! DQ542MA driver.
//!
//! Platform-agnostic driver for the DQ542MA stepper motor driver: a
//! STEP/DIR chip whose direction maps to a level on one pin and whose
//! step is a single High/Low pulse on another.

use vstd::prelude::*;

use crate::pin::{Level, OutPin};
use crate::traits::{
    EnableDirectionControl, EnableStepControl, OutputPinAction, SetDirection, Step as StepTrait,
};
use crate::Direction;
use crate::Nanoseconds;

verus! {

/// The level the direction pin is driven to for the given direction.
pub open spec fn spec_dir_level(direction: Direction) -> Level {
    match direction {
        Direction::Forward => Level::High,
        Direction::Backward => Level::Low,
    }
}

/// The DQ542MA driver.
///
/// Each slot is `()` until the capability that needs it is enabled with
/// the corresponding pin.
pub struct DQ542MA<Enable, Step, Dir> {
    enable: Enable,
    step: Step,
    dir: Dir,
}

impl<Enable, Step, Dir> DQ542MA<Enable, Step, Dir> {
    /// The enable pin slot.
    pub closed spec fn spec_enable(&self) -> Enable {
        self.enable
    }

    /// The step pin slot.
    pub closed spec fn spec_step_pin(&self) -> Step {
        self.step
    }

    /// The direction pin slot.
    pub closed spec fn spec_dir_pin(&self) -> Dir {
        self.dir
    }
}

impl DQ542MA<(), (), ()> {
    /// Create a new instance of `DQ542MA` with no capabilities enabled.
    pub fn new() -> (r: DQ542MA<(), (), ()>) {
        DQ542MA { enable: (), step: (), dir: () }
    }
}

impl<Step> EnableDirectionControl<OutPin> for DQ542MA<(), Step, ()> {
    type WithDirectionControl = DQ542MA<(), Step, OutPin>;

    fn enable_direction_control(self, res: OutPin) -> (r: DQ542MA<(), Step, OutPin>)
        ensures
            r.spec_step_pin() == self.spec_step_pin(),
            r.spec_dir_pin() == res,
    {
        DQ542MA { enable: self.enable, step: self.step, dir: res }
    }
}

impl<Step> SetDirection for DQ542MA<(), Step, OutPin> {
    open spec fn spec_setup_time(&self) -> u32 {
        500
    }

    open spec fn spec_dir_action(&self, direction: Direction) -> OutputPinAction<u32> {
        OutputPinAction::SetLevel(self.spec_dir_pin().spec_id(), spec_dir_level(direction))
    }

    open spec fn dir_rel(
        pre: Self,
        post: Self,
        direction: Direction,
        action: OutputPinAction<u32>,
    ) -> bool {
        &&& post.spec_step_pin() == pre.spec_step_pin()
        &&& post.spec_dir_pin().spec_id() == pre.spec_dir_pin().spec_id()
        &&& post.spec_dir_pin().spec_writes() == pre.spec_dir_pin().spec_writes().push(
            spec_dir_level(direction),
        )
        &&& action == OutputPinAction::SetLevel(
            pre.spec_dir_pin().spec_id(),
            spec_dir_level(direction),
        )
    }

    fn setup_time(&self) -> (r: Nanoseconds) {
        Nanoseconds::from_ticks(500)
    }

    fn dir(&mut self, direction: Direction) -> (r: Result<OutputPinAction<u32>, ()>) {
        let level = match direction {
            Direction::Forward => Level::High,
            Direction::Backward => Level::Low,
        };
        self.dir.set_level(level);
        Ok(OutputPinAction::SetLevel(self.dir.id(), level))
    }
}

impl<Dir> EnableStepControl<OutPin> for DQ542MA<(), (), Dir> {
    type WithStepControl = DQ542MA<(), OutPin, Dir>;

    fn enable_step_control(self, res: OutPin) -> (r: DQ542MA<(), OutPin, Dir>)
        ensures
            r.spec_step_pin() == res,
            r.spec_dir_pin() == self.spec_dir_pin(),
    {
        DQ542MA { enable: self.enable, step: res, dir: self.dir }
    }
}

impl<Dir> StepTrait for DQ542MA<(), OutPin, Dir> {
    type Error = ();

    open spec fn spec_pulse_length(&self) -> u32 {
        5050
    }

    open spec fn spec_step_ok(&self) -> bool {
        true
    }

    open spec fn spec_step_err(&self) -> () {
        ()
    }

    open spec fn spec_leading_actions(&self) -> Seq<OutputPinAction<u32>> {
        seq![OutputPinAction::SetLevel(self.spec_step_pin().spec_id(), Level::High)]
    }

    open spec fn spec_trailing_actions(&self) -> Seq<OutputPinAction<u32>> {
        seq![OutputPinAction::SetLevel(self.spec_step_pin().spec_id(), Level::Low)]
    }

    open spec fn leading_rel(pre: Self, post: Self, actions: Seq<OutputPinAction<u32>>) -> bool {
        &&& post.spec_dir_pin() == pre.spec_dir_pin()
        &&& post.spec_step_pin().spec_id() == pre.spec_step_pin().spec_id()
        &&& post.spec_step_pin().spec_writes() == pre.spec_step_pin().spec_writes().push(
            Level::High,
        )
        &&& actions.len() == 1
        &&& actions[0] == OutputPinAction::SetLevel(pre.spec_step_pin().spec_id(), Level::High)
    }

    open spec fn trailing_rel(pre: Self, post: Self, actions: Seq<OutputPinAction<u32>>) -> bool {
        &&& post.spec_dir_pin() == pre.spec_dir_pin()
        &&& post.spec_step_pin().spec_id() == pre.spec_step_pin().spec_id()
        &&& post.spec_step_pin().spec_writes() == pre.spec_step_pin().spec_writes().push(
            Level::Low,
        )
        &&& actions.len() == 1
        &&& actions[0] == OutputPinAction::SetLevel(pre.spec_step_pin().spec_id(), Level::Low)
    }

    fn pulse_length(&self) -> (r: Nanoseconds) {
        Nanoseconds::from_ticks(5050)
    }

    fn step_leading(&mut self) -> (r: Result<Vec<OutputPinAction<u32>>, ()>) {
        self.step.set_level(Level::High);
        let mut actions: Vec<OutputPinAction<u32>> = Vec::new();
        actions.push(OutputPinAction::SetLevel(self.step.id(), Level::High));
        proof {
            assert(actions@ =~= old(self).spec_leading_actions());
        }
        Ok(actions)
    }

    fn step_trailing(&mut self) -> (r: Result<Vec<OutputPinAction<u32>>, ()>) {
        self.step.set_level(Level::Low);
        let mut actions: Vec<OutputPinAction<u32>> = Vec::new();
        actions.push(OutputPinAction::SetLevel(self.step.id(), Level::Low));
        proof {
            assert(actions@ =~= old(self).spec_trailing_actions());
        }
        Ok(actions)
    }
}

/// Law: one step of this driver is a single clean pulse. The leading edge
/// is exactly one rising action on the step pin, the trailing edge exactly
/// one falling action on the same pin, and a pin that idled low before the
/// step is back at its pre-step level once the pulse is over.
pub proof fn lemma_step_pulse<Dir>(
    pre: DQ542MA<(), OutPin, Dir>,
    mid: DQ542MA<(), OutPin, Dir>,
    post: DQ542MA<(), OutPin, Dir>,
    leading: Seq<OutputPinAction<u32>>,
    trailing: Seq<OutputPinAction<u32>>,
)
    requires
        <DQ542MA<(), OutPin, Dir> as StepTrait>::leading_rel(pre, mid, leading),
        <DQ542MA<(), OutPin, Dir> as StepTrait>::trailing_rel(mid, post, trailing),
    ensures
        leading == seq![
            OutputPinAction::SetLevel(pre.spec_step_pin().spec_id(), Level::High),
        ],
        trailing == seq![
            OutputPinAction::SetLevel(pre.spec_step_pin().spec_id(), Level::Low),
        ],
        post.spec_step_pin().spec_writes() == pre.spec_step_pin().spec_writes().push(
            Level::High,
        ).push(Level::Low),
        post.spec_step_pin().spec_level() == Level::Low,
        pre.spec_step_pin().spec_level() == Level::Low ==> post.spec_step_pin().spec_level()
            == pre.spec_step_pin().spec_level(),
{
    assert(leading =~= seq![
        OutputPinAction::SetLevel(pre.spec_step_pin().spec_id(), Level::High),
    ]);
    assert(trailing =~= seq![
        OutputPinAction::SetLevel(pre.spec_step_pin().spec_id(), Level::Low),
    ]);
}

} // verus!
