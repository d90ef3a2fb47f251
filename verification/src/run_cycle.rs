//! The debounced press/release cycle.
//!
//! One cycle converts a noisy button line into exactly one Pressed and one
//! Released event, applies the output effects for each, and ends with a
//! fixed debounce delay. The cycle is a state machine: `next_action` says
//! which wait the caller must perform in the current phase, the caller
//! performs it (sampling the line, suspending until an edge, or sleeping)
//! and reports the outcome as a `CycleEvent`, and `run_cycle_step` advances
//! the phase and applies the effects. The caller re-runs completed cycles in
//! an unbounded outer loop.
//!
//! On release the cycle clears the whole strip buffer rather than only the
//! lit pixel: with a single pixel ever lit per press the two are equivalent,
//! and the full clear leaves the strip in a well-defined state whatever was
//! on it before. A board without a strip runs the same cycle with a
//! zero-length strip, whose every transmit is empty.

use vstd::prelude::*;

use crate::button::Button;
use crate::gpio::Level;
use crate::led::Led;
use crate::ws2812::{Pixel, Strip, spec_clear_all, spec_scale, spec_turn_on};

verus! {

/// Milliseconds the cycle waits after a release before it completes, so
/// electrical noise from the edge cannot retrigger the next cycle.
pub const DEBOUNCE_MILLIS: u64 = 10;

/// Where the cycle stands between two waits.
#[derive(Clone, Copy, PartialEq, Eq, Structural, Debug)]
pub enum CyclePhase {
    /// The cycle just started and must sample the current line level.
    Sample,
    /// The line was low at the start of the cycle: the button was already
    /// pressed, and the cycle waits for a release before it arms, so that
    /// no spurious press fires.
    Resync,
    /// The line idles high: the cycle waits for the falling edge that is
    /// the press.
    Armed,
    /// The press was seen and the outputs are on: the cycle waits for the
    /// rising edge that is the release.
    Held,
    /// The release was seen and the outputs are off: the cycle waits out
    /// the debounce delay.
    Debounce,
    /// The cycle is over; the caller may start the next one.
    Complete,
}

/// What the caller observed while performing the requested action.
#[derive(Clone, Copy, PartialEq, Eq, Structural, Debug)]
pub enum CycleEvent {
    /// The sampled level of the line.
    LevelIs(Level),
    /// The awaited rising edge arrived: the line became high.
    WentHigh,
    /// The awaited falling edge arrived: the line became low.
    WentLow,
    /// The requested delay elapsed.
    DelayElapsed,
}

/// What the caller must do next on behalf of the cycle.
#[derive(Clone, Copy, PartialEq, Eq, Structural, Debug)]
pub enum CycleAction {
    /// Read the current level of the line and report it as `LevelIs`.
    SampleLevel,
    /// Suspend until the line becomes high and report `WentHigh`.
    WaitForHigh,
    /// Suspend until the line becomes low and report `WentLow`.
    WaitForLow,
    /// Suspend for the given number of milliseconds and report
    /// `DelayElapsed`.
    DelayMillis(u64),
}

/// Which pixel a press lights, with which color and intensity. These are
/// call-site parameters of the cycle, fixed for a whole run.
#[derive(Clone, Copy, PartialEq, Eq, Structural, Debug)]
pub struct CycleConfig {
    /// Index of the pixel to light; an out-of-range index lights nothing
    /// and leaves the strip black.
    pub target_index: usize,
    /// Color the pixel is lit with.
    pub color: Pixel,
    /// Brightness the color is scaled by before it is written.
    pub intensity: u8,
}

/// The action the cycle asks for in each phase; `None` once the cycle is
/// complete.
pub open spec fn spec_next_action(phase: CyclePhase) -> Option<CycleAction> {
    match phase {
        CyclePhase::Sample => Some(CycleAction::SampleLevel),
        CyclePhase::Resync => Some(CycleAction::WaitForHigh),
        CyclePhase::Armed => Some(CycleAction::WaitForLow),
        CyclePhase::Held => Some(CycleAction::WaitForHigh),
        CyclePhase::Debounce => Some(CycleAction::DelayMillis(DEBOUNCE_MILLIS)),
        CyclePhase::Complete => None,
    }
}

/// The phase the cycle moves to when `event` arrives in `phase`. An event
/// that does not answer the phase's own action leaves the phase unchanged.
pub open spec fn spec_next_phase(phase: CyclePhase, event: CycleEvent) -> CyclePhase {
    match (phase, event) {
        (CyclePhase::Sample, CycleEvent::LevelIs(Level::Low)) => CyclePhase::Resync,
        (CyclePhase::Sample, CycleEvent::LevelIs(Level::High)) => CyclePhase::Armed,
        (CyclePhase::Resync, CycleEvent::WentHigh) => CyclePhase::Armed,
        (CyclePhase::Armed, CycleEvent::WentLow) => CyclePhase::Held,
        (CyclePhase::Held, CycleEvent::WentHigh) => CyclePhase::Debounce,
        (CyclePhase::Debounce, CycleEvent::DelayElapsed) => CyclePhase::Complete,
        _ => phase,
    }
}

/// The press: the armed cycle sees the falling edge. This is the only
/// transition that turns the outputs on.
pub open spec fn spec_is_press(phase: CyclePhase, event: CycleEvent) -> bool {
    phase is Armed && event is WentLow
}

/// The release: the held cycle sees the rising edge. This is the only
/// transition that turns the outputs off.
pub open spec fn spec_is_release(phase: CyclePhase, event: CycleEvent) -> bool {
    phase is Held && event is WentHigh
}

/// What the button has observed after `event`: a sampled level or an edge
/// updates the observation, a delay leaves it as it was.
pub open spec fn spec_observe(before: Option<Level>, event: CycleEvent) -> Option<Level> {
    match event {
        CycleEvent::LevelIs(level) => Some(level),
        CycleEvent::WentHigh => Some(Level::High),
        CycleEvent::WentLow => Some(Level::Low),
        CycleEvent::DelayElapsed => before,
    }
}

/// Whether `event` is a possible outcome of the action the cycle asks for
/// in `phase`. The composed loop only ever delivers such events.
pub open spec fn spec_event_answers(phase: CyclePhase, event: CycleEvent) -> bool {
    match phase {
        CyclePhase::Sample => event is LevelIs,
        CyclePhase::Resync => event is WentHigh,
        CyclePhase::Armed => event is WentLow,
        CyclePhase::Held => event is WentHigh,
        CyclePhase::Debounce => event is DelayElapsed,
        CyclePhase::Complete => false,
    }
}

/// The level the button must have observed for the cycle to stand in a
/// given phase: an armed cycle has seen the line idle high, a resyncing or
/// held cycle has seen it low, and a debouncing cycle has seen the release.
pub open spec fn spec_phase_consistent(phase: CyclePhase, observed: Option<Level>) -> bool {
    &&& phase is Resync ==> observed == Some(Level::Low)
    &&& phase is Armed ==> observed == Some(Level::High)
    &&& phase is Held ==> observed == Some(Level::Low)
    &&& phase is Debounce ==> observed == Some(Level::High)
}

/// The action the caller must perform next, or `None` once the cycle is
/// complete and a new one may begin.
pub fn next_action(phase: CyclePhase) -> (action: Option<CycleAction>)
    ensures
        action == spec_next_action(phase),
{
    match phase {
        CyclePhase::Sample => Some(CycleAction::SampleLevel),
        CyclePhase::Resync => Some(CycleAction::WaitForHigh),
        CyclePhase::Armed => Some(CycleAction::WaitForLow),
        CyclePhase::Held => Some(CycleAction::WaitForHigh),
        CyclePhase::Debounce => Some(CycleAction::DelayMillis(DEBOUNCE_MILLIS)),
        CyclePhase::Complete => None,
    }
}

/// Advances the cycle by one observed event.
///
/// The button records the observation. On the press the onboard LED goes
/// high and the configured pixel is lit on an otherwise black strip; on the
/// release the LED goes low and the whole strip is cleared; every other
/// event leaves both outputs untouched. An event that does not answer the
/// current phase's action changes nothing but the button's observation.
pub fn run_cycle_step(
    phase: CyclePhase,
    event: CycleEvent,
    button: &mut Button,
    led: &mut Led,
    strip: &mut Strip,
    config: &CycleConfig,
) -> (next: CyclePhase)
    ensures
        next == spec_next_phase(phase, event),
        final(button)@ == spec_observe(old(button)@, event),
        final(strip)@.len() == old(strip)@.len(),
        spec_is_press(phase, event) ==> {
            &&& final(led)@ == Level::High
            &&& final(strip)@ == spec_turn_on(
                old(strip)@.len(),
                config.target_index as int,
                spec_scale(config.color, config.intensity),
            )
        },
        spec_is_release(phase, event) ==> {
            &&& final(led)@ == Level::Low
            &&& final(strip)@ == spec_clear_all(old(strip)@)
        },
        !spec_is_press(phase, event) && !spec_is_release(phase, event) ==> {
            &&& final(led)@ == old(led)@
            &&& final(strip)@ == old(strip)@
        },
{
    match event {
        CycleEvent::LevelIs(level) => button.observe(level),
        CycleEvent::WentHigh => button.observe(Level::High),
        CycleEvent::WentLow => button.observe(Level::Low),
        CycleEvent::DelayElapsed => (),
    }
    match (phase, event) {
        (CyclePhase::Sample, CycleEvent::LevelIs(Level::Low)) => CyclePhase::Resync,
        (CyclePhase::Sample, CycleEvent::LevelIs(Level::High)) => CyclePhase::Armed,
        (CyclePhase::Resync, CycleEvent::WentHigh) => CyclePhase::Armed,
        (CyclePhase::Armed, CycleEvent::WentLow) => {
            led.on();
            strip.turn_on_led(config.target_index, config.color, config.intensity);
            CyclePhase::Held
        },
        (CyclePhase::Held, CycleEvent::WentHigh) => {
            led.off();
            strip.turn_off_all_leds();
            CyclePhase::Debounce
        },
        (CyclePhase::Debounce, CycleEvent::DelayElapsed) => CyclePhase::Complete,
        _ => phase,
    }
}

/// A step on an event that answers the current phase's action preserves
/// consistency between the phase and the button's last observation: the
/// machine never stands armed without having seen the line high, nor held
/// without having seen it low.
pub proof fn lemma_step_preserves_consistency(
    phase: CyclePhase,
    event: CycleEvent,
    before: Option<Level>,
)
    requires
        spec_phase_consistent(phase, before),
        spec_event_answers(phase, event),
    ensures
        spec_phase_consistent(spec_next_phase(phase, event), spec_observe(before, event)),
{
}

/// No spurious press: the press effect can only fire when the line was last
/// observed high, so a button that is already down when the cycle starts
/// cannot trigger it — a release must be seen first.
pub proof fn lemma_press_only_after_idle(
    phase: CyclePhase,
    event: CycleEvent,
    before: Option<Level>,
)
    requires
        spec_phase_consistent(phase, before),
        spec_is_press(phase, event),
    ensures
        before == Some(Level::High),
        spec_observe(before, event) == Some(Level::Low),
{
}

} // verus!
