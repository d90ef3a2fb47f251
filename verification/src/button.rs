//! The push-button: a model of one GPIO input line with a pull-up bias.
//!
//! A `Button` records the last logic level the control loop observed on the
//! line, or nothing before the first sample. The physical line is read, and
//! waited on, by the platform glue, which reports each observation as a
//! level event; within the crate the view of a `Button` is that last
//! observation.

use vstd::prelude::*;

use crate::gpio::Level;

verus! {

/// One digital input line configured with a pull-up resistor, so the idle
/// level is `High` and a press pulls the line `Low`.
pub struct Button {
    observed: Option<Level>,
}

impl View for Button {
    type V = Option<Level>;

    /// The last level observed on the line, if any was observed yet.
    closed spec fn view(&self) -> Option<Level> {
        self.observed
    }
}

impl Button {
    /// Records an observation of the line at the given level.
    pub fn observe(&mut self, level: Level)
        ensures
            final(self)@ == Some(level),
    {
        self.observed = Some(level);
    }

    /// The last level observed on the line, or `None` before the first
    /// sample.
    pub fn observed(&self) -> (level: Option<Level>)
        ensures
            level == self@,
    {
        self.observed
    }
}

/// Initializes the button input line. No level has been sampled yet, so the
/// model starts without an observation; the line itself idles high under
/// the pull-up until the button is pressed.
pub fn init() -> (button: Button)
    ensures
        button@ == None::<Level>,
{
    Button { observed: None }
}

} // verus!
