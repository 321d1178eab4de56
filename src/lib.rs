//! Driver core for 1/4-multiplexed 32x16 LED dot-matrix panels arranged in a
//! rectangular grid: pixel addressing, the packed framebuffer, the interleaved
//! scan buffer and the row-scan sequencer, each with its contract.

use vstd::prelude::*;

pub mod geometry;
pub mod scan;
pub mod framebuffer;
pub mod panel;

verus! {

/// A fault reported by one of the panel's collaborators.
#[derive(Clone, Copy, Debug, PartialEq, Eq)]
pub enum Error {
    /// The serial bus transfer failed.
    Spi,
    /// The brightness (duty cycle) actuator failed.
    Pwm,
    /// A digital output line failed.
    Digital,
}

/// Marker for a driver whose bus transfers block until done.
pub struct Blocking;

/// Marker for a driver whose bus transfers are awaited.
pub struct Async;

} // verus!
