//! Start-up configuration: builds the three collaborators the control loop
//! owns for the process lifetime.

use vstd::prelude::*;

use crate::button::{self, Button};
use crate::gpio::Level;
use crate::led::Led;
use crate::ws2812::{self, Strip, spec_all_black};

verus! {

/// Configures the peripherals the control loop drives: a strip driver for
/// `n` pixels with every pixel off, the onboard LED driven low, and the
/// button input with nothing observed yet.
pub fn setup(n: usize) -> (peripherals: (Strip, Led, Button))
    ensures
        peripherals.0@ == spec_all_black(n as nat),
        peripherals.0@.len() == n,
        peripherals.1@ == Level::Low,
        peripherals.2@ == None::<Level>,
{
    let strip = ws2812::init(n);
    let led = Led::new();
    let button = button::init();
    (strip, led, button)
}

} // verus!
