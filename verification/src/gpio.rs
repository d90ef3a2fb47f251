//! Logic levels of a digital GPIO line.

use vstd::prelude::*;

verus! {

/// The observed or driven logic level of one digital line.
///
/// With a pull-up biased button, `High` is the idle level and `Low` means
/// the button is pressed.
#[derive(Clone, Copy, PartialEq, Eq, Structural, Debug)]
pub enum Level {
    Low,
    High,
}

} // verus!
