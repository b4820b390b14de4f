//! STSPIN220 driver.
//!
//! Platform-agnostic driver for the STSPIN220 stepper motor driver: a
//! microstepping STEP/DIR chip. The microstepping mode is selected by a
//! fixed table of levels across four mode pins, applied while the chip is
//! held in standby and released again once the levels have settled.

use vstd::prelude::*;

use crate::pin::{Level, OutPin};
use crate::step_mode::StepMode256;
use crate::traits::{
    EnableDirectionControl, EnableStepControl, EnableStepModeControl, OutputPinAction,
    SetDirection, SetStepMode, Step as StepTrait,
};
use crate::Direction;
use crate::Nanoseconds;

verus! {

/// The level the direction pin is driven to for the given direction.
pub open spec fn spec_dir_level(direction: Direction) -> Level {
    match direction {
        Direction::Forward => Level::High,
        Direction::Backward => Level::Low,
    }
}

/// The levels of the four mode pins (mode1, mode2, step/mode3, dir/mode4)
/// that select the given microstepping mode, from the chip's datasheet.
pub open spec fn spec_mode_levels(step_mode: StepMode256) -> (Level, Level, Level, Level) {
    match step_mode {
        StepMode256::Full => (Level::Low, Level::Low, Level::Low, Level::Low),
        StepMode256::M2 => (Level::High, Level::Low, Level::High, Level::Low),
        StepMode256::M4 => (Level::Low, Level::High, Level::Low, Level::High),
        StepMode256::M8 => (Level::High, Level::High, Level::High, Level::Low),
        StepMode256::M16 => (Level::High, Level::High, Level::High, Level::High),
        StepMode256::M32 => (Level::Low, Level::High, Level::Low, Level::Low),
        StepMode256::M64 => (Level::High, Level::High, Level::Low, Level::High),
        StepMode256::M128 => (Level::High, Level::Low, Level::Low, Level::Low),
        StepMode256::M256 => (Level::High, Level::High, Level::Low, Level::Low),
    }
}

/// The STSPIN220 driver.
///
/// Each slot is `()` until the capability that needs it is enabled with
/// the corresponding pin. The step and direction pins double as mode pins
/// 3 and 4, so microstepping mode control requires step and direction
/// control to be enabled first.
pub struct STSPIN220<EnableFault, StandbyReset, Mode1, Mode2, StepMode3, DirMode4> {
    enable_fault: EnableFault,
    standby_reset: StandbyReset,
    mode1: Mode1,
    mode2: Mode2,
    step_mode3: StepMode3,
    dir_mode4: DirMode4,
}

impl<EnableFault, StandbyReset, Mode1, Mode2, StepMode3, DirMode4> STSPIN220<
    EnableFault,
    StandbyReset,
    Mode1,
    Mode2,
    StepMode3,
    DirMode4,
> {
    /// The enable/fault pin slot.
    pub closed spec fn spec_enable_fault(&self) -> EnableFault {
        self.enable_fault
    }

    /// The standby/reset pin slot.
    pub closed spec fn spec_standby_reset(&self) -> StandbyReset {
        self.standby_reset
    }

    /// The mode1 pin slot.
    pub closed spec fn spec_mode1(&self) -> Mode1 {
        self.mode1
    }

    /// The mode2 pin slot.
    pub closed spec fn spec_mode2(&self) -> Mode2 {
        self.mode2
    }

    /// The step (mode3) pin slot.
    pub closed spec fn spec_step_mode3(&self) -> StepMode3 {
        self.step_mode3
    }

    /// The direction (mode4) pin slot.
    pub closed spec fn spec_dir_mode4(&self) -> DirMode4 {
        self.dir_mode4
    }
}

impl STSPIN220<(), (), (), (), (), ()> {
    /// Create a new instance of `STSPIN220` with no capabilities enabled.
    pub fn new() -> (r: STSPIN220<(), (), (), (), (), ()>) {
        STSPIN220 {
            enable_fault: (),
            standby_reset: (),
            mode1: (),
            mode2: (),
            step_mode3: (),
            dir_mode4: (),
        }
    }
}

impl<EnableFault> EnableStepModeControl<(OutPin, OutPin, OutPin)> for STSPIN220<
    EnableFault,
    (),
    (),
    (),
    OutPin,
    OutPin,
> {
    type WithStepModeControl = STSPIN220<EnableFault, OutPin, OutPin, OutPin, OutPin, OutPin>;

    fn enable_step_mode_control(self, res: (OutPin, OutPin, OutPin)) -> (r: STSPIN220<
        EnableFault,
        OutPin,
        OutPin,
        OutPin,
        OutPin,
        OutPin,
    >)
        ensures
            r.spec_enable_fault() == self.spec_enable_fault(),
            r.spec_standby_reset() == res.0,
            r.spec_mode1() == res.1,
            r.spec_mode2() == res.2,
            r.spec_step_mode3() == self.spec_step_mode3(),
            r.spec_dir_mode4() == self.spec_dir_mode4(),
    {
        let (standby_reset, mode1, mode2) = res;
        STSPIN220 {
            enable_fault: self.enable_fault,
            standby_reset,
            mode1,
            mode2,
            step_mode3: self.step_mode3,
            dir_mode4: self.dir_mode4,
        }
    }
}

impl<EnableFault> SetStepMode for STSPIN220<EnableFault, OutPin, OutPin, OutPin, OutPin, OutPin> {
    type StepMode = StepMode256;

    open spec fn spec_setup_time(&self) -> u32 {
        1_000
    }

    open spec fn spec_hold_time(&self) -> u32 {
        100_000
    }

    /// Applying a mode forces the chip into standby (standby/reset low)
    /// and drives the four mode pins to the table entry for the mode.
    open spec fn apply_rel(pre: Self, post: Self, step_mode: StepMode256) -> bool {
        let levels = spec_mode_levels(step_mode);
        &&& post.spec_enable_fault() == pre.spec_enable_fault()
        &&& post.spec_standby_reset().spec_id() == pre.spec_standby_reset().spec_id()
        &&& post.spec_standby_reset().spec_writes() == pre.spec_standby_reset().spec_writes().push(
            Level::Low,
        )
        &&& post.spec_mode1().spec_id() == pre.spec_mode1().spec_id()
        &&& post.spec_mode1().spec_writes() == pre.spec_mode1().spec_writes().push(levels.0)
        &&& post.spec_mode2().spec_id() == pre.spec_mode2().spec_id()
        &&& post.spec_mode2().spec_writes() == pre.spec_mode2().spec_writes().push(levels.1)
        &&& post.spec_step_mode3().spec_id() == pre.spec_step_mode3().spec_id()
        &&& post.spec_step_mode3().spec_writes() == pre.spec_step_mode3().spec_writes().push(
            levels.2,
        )
        &&& post.spec_dir_mode4().spec_id() == pre.spec_dir_mode4().spec_id()
        &&& post.spec_dir_mode4().spec_writes() == pre.spec_dir_mode4().spec_writes().push(
            levels.3,
        )
    }

    /// Re-enabling the driver releases standby: standby/reset goes high
    /// and no other pin is touched.
    open spec fn enable_rel(pre: Self, post: Self) -> bool {
        &&& post.spec_enable_fault() == pre.spec_enable_fault()
        &&& post.spec_standby_reset().spec_id() == pre.spec_standby_reset().spec_id()
        &&& post.spec_standby_reset().spec_writes() == pre.spec_standby_reset().spec_writes().push(
            Level::High,
        )
        &&& post.spec_mode1() == pre.spec_mode1()
        &&& post.spec_mode2() == pre.spec_mode2()
        &&& post.spec_step_mode3() == pre.spec_step_mode3()
        &&& post.spec_dir_mode4() == pre.spec_dir_mode4()
    }

    fn setup_time(&self) -> (r: Nanoseconds) {
        Nanoseconds::from_ticks(1_000)
    }

    fn hold_time(&self) -> (r: Nanoseconds) {
        Nanoseconds::from_ticks(100_000)
    }

    fn apply_mode_config(&mut self, step_mode: StepMode256) -> (r: Result<(), ()>) {
        // Force the driver into standby mode.
        self.standby_reset.set_level(Level::Low);
        let (mode1, mode2, mode3, mode4) = match step_mode {
            StepMode256::Full => (Level::Low, Level::Low, Level::Low, Level::Low),
            StepMode256::M2 => (Level::High, Level::Low, Level::High, Level::Low),
            StepMode256::M4 => (Level::Low, Level::High, Level::Low, Level::High),
            StepMode256::M8 => (Level::High, Level::High, Level::High, Level::Low),
            StepMode256::M16 => (Level::High, Level::High, Level::High, Level::High),
            StepMode256::M32 => (Level::Low, Level::High, Level::Low, Level::Low),
            StepMode256::M64 => (Level::High, Level::High, Level::Low, Level::High),
            StepMode256::M128 => (Level::High, Level::Low, Level::Low, Level::Low),
            StepMode256::M256 => (Level::High, Level::High, Level::Low, Level::Low),
        };
        // Set the mode signals.
        self.mode1.set_level(mode1);
        self.mode2.set_level(mode2);
        self.step_mode3.set_level(mode3);
        self.dir_mode4.set_level(mode4);
        Ok(())
    }

    fn enable_driver(&mut self) -> (r: Result<(), ()>) {
        // Leave standby mode.
        self.standby_reset.set_level(Level::High);
        Ok(())
    }
}

impl<EnableFault, StandbyReset, Mode1, Mode2, StepMode3> EnableDirectionControl<OutPin> for STSPIN220<
    EnableFault,
    StandbyReset,
    Mode1,
    Mode2,
    StepMode3,
    (),
> {
    type WithDirectionControl = STSPIN220<EnableFault, StandbyReset, Mode1, Mode2, StepMode3, OutPin>;

    fn enable_direction_control(self, res: OutPin) -> (r: STSPIN220<
        EnableFault,
        StandbyReset,
        Mode1,
        Mode2,
        StepMode3,
        OutPin,
    >)
        ensures
            r.spec_enable_fault() == self.spec_enable_fault(),
            r.spec_standby_reset() == self.spec_standby_reset(),
            r.spec_mode1() == self.spec_mode1(),
            r.spec_mode2() == self.spec_mode2(),
            r.spec_step_mode3() == self.spec_step_mode3(),
            r.spec_dir_mode4() == res,
    {
        STSPIN220 {
            enable_fault: self.enable_fault,
            standby_reset: self.standby_reset,
            mode1: self.mode1,
            mode2: self.mode2,
            step_mode3: self.step_mode3,
            dir_mode4: res,
        }
    }
}

impl<EnableFault, StandbyReset, Mode1, Mode2, StepMode3> SetDirection for STSPIN220<
    EnableFault,
    StandbyReset,
    Mode1,
    Mode2,
    StepMode3,
    OutPin,
> {
    open spec fn spec_setup_time(&self) -> u32 {
        100
    }

    open spec fn spec_dir_action(&self, direction: Direction) -> OutputPinAction<u32> {
        OutputPinAction::SetLevel(self.spec_dir_mode4().spec_id(), spec_dir_level(direction))
    }

    open spec fn dir_rel(
        pre: Self,
        post: Self,
        direction: Direction,
        action: OutputPinAction<u32>,
    ) -> bool {
        &&& post.spec_enable_fault() == pre.spec_enable_fault()
        &&& post.spec_standby_reset() == pre.spec_standby_reset()
        &&& post.spec_mode1() == pre.spec_mode1()
        &&& post.spec_mode2() == pre.spec_mode2()
        &&& post.spec_step_mode3() == pre.spec_step_mode3()
        &&& post.spec_dir_mode4().spec_id() == pre.spec_dir_mode4().spec_id()
        &&& post.spec_dir_mode4().spec_writes() == pre.spec_dir_mode4().spec_writes().push(
            spec_dir_level(direction),
        )
        &&& action == OutputPinAction::SetLevel(
            pre.spec_dir_mode4().spec_id(),
            spec_dir_level(direction),
        )
    }

    fn setup_time(&self) -> (r: Nanoseconds) {
        Nanoseconds::from_ticks(100)
    }

    fn dir(&mut self, direction: Direction) -> (r: Result<OutputPinAction<u32>, ()>) {
        let level = match direction {
            Direction::Forward => Level::High,
            Direction::Backward => Level::Low,
        };
        self.dir_mode4.set_level(level);
        Ok(OutputPinAction::SetLevel(self.dir_mode4.id(), level))
    }
}

impl<EnableFault, StandbyReset, Mode1, Mode2, DirMode4> EnableStepControl<OutPin> for STSPIN220<
    EnableFault,
    StandbyReset,
    Mode1,
    Mode2,
    (),
    DirMode4,
> {
    type WithStepControl = STSPIN220<EnableFault, StandbyReset, Mode1, Mode2, OutPin, DirMode4>;

    fn enable_step_control(self, res: OutPin) -> (r: STSPIN220<
        EnableFault,
        StandbyReset,
        Mode1,
        Mode2,
        OutPin,
        DirMode4,
    >)
        ensures
            r.spec_enable_fault() == self.spec_enable_fault(),
            r.spec_standby_reset() == self.spec_standby_reset(),
            r.spec_mode1() == self.spec_mode1(),
            r.spec_mode2() == self.spec_mode2(),
            r.spec_step_mode3() == res,
            r.spec_dir_mode4() == self.spec_dir_mode4(),
    {
        STSPIN220 {
            enable_fault: self.enable_fault,
            standby_reset: self.standby_reset,
            mode1: self.mode1,
            mode2: self.mode2,
            step_mode3: res,
            dir_mode4: self.dir_mode4,
        }
    }
}

impl<EnableFault, StandbyReset, Mode1, Mode2, DirMode4> StepTrait for STSPIN220<
    EnableFault,
    StandbyReset,
    Mode1,
    Mode2,
    OutPin,
    DirMode4,
> {
    type Error = ();

    open spec fn spec_pulse_length(&self) -> u32 {
        100
    }

    open spec fn spec_step_ok(&self) -> bool {
        true
    }

    open spec fn spec_step_err(&self) -> () {
        ()
    }

    open spec fn spec_leading_actions(&self) -> Seq<OutputPinAction<u32>> {
        seq![OutputPinAction::SetLevel(self.spec_step_mode3().spec_id(), Level::High)]
    }

    open spec fn spec_trailing_actions(&self) -> Seq<OutputPinAction<u32>> {
        seq![OutputPinAction::SetLevel(self.spec_step_mode3().spec_id(), Level::Low)]
    }

    open spec fn leading_rel(pre: Self, post: Self, actions: Seq<OutputPinAction<u32>>) -> bool {
        &&& post.spec_enable_fault() == pre.spec_enable_fault()
        &&& post.spec_standby_reset() == pre.spec_standby_reset()
        &&& post.spec_mode1() == pre.spec_mode1()
        &&& post.spec_mode2() == pre.spec_mode2()
        &&& post.spec_dir_mode4() == pre.spec_dir_mode4()
        &&& post.spec_step_mode3().spec_id() == pre.spec_step_mode3().spec_id()
        &&& post.spec_step_mode3().spec_writes() == pre.spec_step_mode3().spec_writes().push(
            Level::High,
        )
        &&& actions.len() == 1
        &&& actions[0] == OutputPinAction::SetLevel(pre.spec_step_mode3().spec_id(), Level::High)
    }

    open spec fn trailing_rel(pre: Self, post: Self, actions: Seq<OutputPinAction<u32>>) -> bool {
        &&& post.spec_enable_fault() == pre.spec_enable_fault()
        &&& post.spec_standby_reset() == pre.spec_standby_reset()
        &&& post.spec_mode1() == pre.spec_mode1()
        &&& post.spec_mode2() == pre.spec_mode2()
        &&& post.spec_dir_mode4() == pre.spec_dir_mode4()
        &&& post.spec_step_mode3().spec_id() == pre.spec_step_mode3().spec_id()
        &&& post.spec_step_mode3().spec_writes() == pre.spec_step_mode3().spec_writes().push(
            Level::Low,
        )
        &&& actions.len() == 1
        &&& actions[0] == OutputPinAction::SetLevel(pre.spec_step_mode3().spec_id(), Level::Low)
    }

    fn pulse_length(&self) -> (r: Nanoseconds) {
        Nanoseconds::from_ticks(100)
    }

    fn step_leading(&mut self) -> (r: Result<Vec<OutputPinAction<u32>>, ()>) {
        self.step_mode3.set_level(Level::High);
        let mut actions: Vec<OutputPinAction<u32>> = Vec::new();
        actions.push(OutputPinAction::SetLevel(self.step_mode3.id(), Level::High));
        proof {
            assert(actions@ =~= old(self).spec_leading_actions());
        }
        Ok(actions)
    }

    fn step_trailing(&mut self) -> (r: Result<Vec<OutputPinAction<u32>>, ()>) {
        self.step_mode3.set_level(Level::Low);
        let mut actions: Vec<OutputPinAction<u32>> = Vec::new();
        actions.push(OutputPinAction::SetLevel(self.step_mode3.id(), Level::Low));
        proof {
            assert(actions@ =~= old(self).spec_trailing_actions());
        }
        Ok(actions)
    }
}

/// Law: one step of this driver is a single clean pulse. The leading edge
/// is exactly one rising action on the step pin, the trailing edge exactly
/// one falling action on the same pin, and a pin that idled low before the
/// step is back at its pre-step level once the pulse is over.
pub proof fn lemma_step_pulse<EnableFault, StandbyReset, Mode1, Mode2, DirMode4>(
    pre: STSPIN220<EnableFault, StandbyReset, Mode1, Mode2, OutPin, DirMode4>,
    mid: STSPIN220<EnableFault, StandbyReset, Mode1, Mode2, OutPin, DirMode4>,
    post: STSPIN220<EnableFault, StandbyReset, Mode1, Mode2, OutPin, DirMode4>,
    leading: Seq<OutputPinAction<u32>>,
    trailing: Seq<OutputPinAction<u32>>,
)
    requires
        <STSPIN220<EnableFault, StandbyReset, Mode1, Mode2, OutPin, DirMode4> as StepTrait>::leading_rel(
            pre,
            mid,
            leading,
        ),
        <STSPIN220<EnableFault, StandbyReset, Mode1, Mode2, OutPin, DirMode4> as StepTrait>::trailing_rel(
            mid,
            post,
            trailing,
        ),
    ensures
        leading == seq![
            OutputPinAction::SetLevel(pre.spec_step_mode3().spec_id(), Level::High),
        ],
        trailing == seq![
            OutputPinAction::SetLevel(pre.spec_step_mode3().spec_id(), Level::Low),
        ],
        post.spec_step_mode3().spec_writes() == pre.spec_step_mode3().spec_writes().push(
            Level::High,
        ).push(Level::Low),
        post.spec_step_mode3().spec_level() == Level::Low,
        pre.spec_step_mode3().spec_level() == Level::Low ==> post.spec_step_mode3().spec_level()
            == pre.spec_step_mode3().spec_level(),
{
    assert(leading =~= seq![
        OutputPinAction::SetLevel(pre.spec_step_mode3().spec_id(), Level::High),
    ]);
    assert(trailing =~= seq![
        OutputPinAction::SetLevel(pre.spec_step_mode3().spec_id(), Level::Low),
    ]);
}

} // verus!
