//! A button-driven LED controller, verified with Verus.
//!
//! The crate models the core of a small firmware loop: a push-button input
//! with a pull-up bias, an onboard LED output, and an addressable multi-pixel
//! strip whose in-memory buffer is transmitted in full after every mutation.
//! The press/release cycle is a state machine driven by level events; the
//! platform glue that performs the actual waits and transfers lives outside
//! this crate and only hands plain level events in and drive levels out.

pub mod button;
pub mod config;
pub mod gpio;
pub mod led;
pub mod run_cycle;
pub mod ws2812;
