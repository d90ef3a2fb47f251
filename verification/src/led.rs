//! The onboard LED: a model of one GPIO output line.
//!
//! A `Led` tracks the drive level of the output pin. The platform glue that
//! owns the physical pin mirrors this level to the hardware after every
//! change; within the crate the view of a `Led` is the level the pin is
//! driven to.

use vstd::prelude::*;

use crate::gpio::Level;

verus! {

/// Controller of the onboard LED output line.
pub struct Led {
    level: Level,
}

impl View for Led {
    type V = Level;

    /// The level the output line is currently driven to.
    closed spec fn view(&self) -> Level {
        self.level
    }
}

impl Led {
    /// Initializes the onboard LED with the output driven low: the LED
    /// starts dark.
    pub fn new() -> (led: Led)
        ensures
            led@ == Level::Low,
    {
        Led { level: Level::Low }
    }

    /// Turns the LED on by driving the output high.
    pub fn on(&mut self)
        ensures
            final(self)@ == Level::High,
    {
        self.level = Level::High;
    }

    /// Turns the LED off by driving the output low.
    pub fn off(&mut self)
        ensures
            final(self)@ == Level::Low,
    {
        self.level = Level::Low;
    }

    /// Inverts the LED state: a lit LED goes dark and a dark one lights up.
    pub fn toggle(&mut self)
        ensures
            final(self)@ == (if old(self)@ == Level::High {
                Level::Low
            } else {
                Level::High
            }),
    {
        self.level = if self.level == Level::High {
            Level::Low
        } else {
            Level::High
        };
    }

    /// Reads back the level the output is driven to.
    pub fn level(&self) -> (level: Level)
        ensures
            level == self@,
    {
        self.level
    }
}

} // verus!
