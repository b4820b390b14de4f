//! Digital output pins, modelled by their commanded signal history.

use vstd::prelude::*;

verus! {

/// Logic level of a digital output signal.
#[derive(Clone, Copy, PartialEq, Eq, Structural, Debug)]
pub enum Level {
    /// The signal is driven low
    Low,
    /// The signal is driven high
    High,
}

/// A digital output pin resource.
///
/// A pin records every level ever commanded on it, oldest first, so that
/// contracts can speak about the exact signal sequence a driver issues.
/// The embedding platform owns the physical pin and mirrors each commanded
/// level onto it. Before the first write, the pin is taken to idle low.
#[derive(Clone, Debug)]
pub struct OutPin {
    id: u32,
    writes: Vec<Level>,
}

impl OutPin {
    /// Identifier of the physical pin this value stands for.
    pub closed spec fn spec_id(&self) -> u32 {
        self.id
    }

    /// All levels ever commanded on this pin, oldest first.
    pub closed spec fn spec_writes(&self) -> Seq<Level> {
        self.writes@
    }

    /// Current commanded level: the last write, or `Low` before any write.
    pub open spec fn spec_level(&self) -> Level {
        if self.spec_writes().len() == 0 {
            Level::Low
        } else {
            self.spec_writes().last()
        }
    }

    /// Create a fresh pin resource with the given identifier.
    pub fn new(id: u32) -> (r: OutPin)
        ensures
            r.spec_id() == id,
            r.spec_writes() == Seq::<Level>::empty(),
    {
        OutPin { id, writes: Vec::new() }
    }

    /// The pin's identifier.
    pub fn id(&self) -> (r: u32)
        ensures
            r == self.spec_id(),
    {
        self.id
    }

    /// Command a new level on the pin.
    pub fn set_level(&mut self, level: Level)
        ensures
            final(self).spec_id() == old(self).spec_id(),
            final(self).spec_writes() == old(self).spec_writes().push(level),
            final(self).spec_level() == level,
    {
        self.writes.push(level);
    }

    /// The current commanded level.
    pub fn level(&self) -> (r: Level)
        ensures
            r == self.spec_level(),
    {
        if self.writes.len() == 0 {
            Level::Low
        } else {
            self.writes[self.writes.len() - 1]
        }
    }

    /// The full sequence of commanded levels, oldest first.
    pub fn write_log(&self) -> (r: &Vec<Level>)
        ensures
            r@ == self.spec_writes(),
    {
        &self.writes
    }
}

/// A bus of output pins driven together by one driver.
///
/// Firing patterns are given as eight-bit words, so a bus holds at most
/// eight lines; line `i` corresponds to bit `width - 1 - i` of a pattern.
pub struct PinBus {
    pins: Vec<OutPin>,
}

impl PinBus {
    /// The pins of the bus.
    pub closed spec fn spec_pins(&self) -> Seq<OutPin> {
        self.pins@
    }

    /// A bus is well-formed when it has at most eight lines.
    pub open spec fn wf(&self) -> bool {
        self.spec_pins().len() <= 8
    }

    /// Bundle pins into a bus.
    pub fn new(pins: Vec<OutPin>) -> (r: PinBus)
        requires
            pins@.len() <= 8,
        ensures
            r.spec_pins() == pins@,
            r.wf(),
    {
        PinBus { pins }
    }

    /// Number of lines on the bus.
    pub fn width(&self) -> (r: usize)
        ensures
            r == self.spec_pins().len(),
    {
        self.pins.len()
    }

    /// Read access to line `i`.
    pub fn pin(&self, i: usize) -> (r: &OutPin)
        requires
            i < self.spec_pins().len(),
        ensures
            *r == self.spec_pins()[i as int],
    {
        &self.pins[i]
    }

    /// Command a level on line `i`.
    pub fn set_level(&mut self, i: usize, level: Level)
        requires
            i < old(self).spec_pins().len(),
        ensures
            final(self).spec_pins().len() == old(self).spec_pins().len(),
            forall|j: int|
                0 <= j < final(self).spec_pins().len() && j != i ==> final(self).spec_pins()[j]
                    == old(self).spec_pins()[j],
            final(self).spec_pins()[i as int].spec_id() == old(self).spec_pins()[i as int].spec_id(),
            final(self).spec_pins()[i as int].spec_writes() == old(self).spec_pins()[
                i as int
            ].spec_writes().push(level),
    {
        let pin = &mut self.pins[i];
        pin.set_level(level);
    }

    /// Take the pins back out of the bus.
    pub fn release(self) -> (r: Vec<OutPin>)
        ensures
            r@ == self.spec_pins(),
    {
        self.pins
    }
}

} // verus!
