//! Clock-tree configuration and peripheral bus gating for a family of
//! STM32-style microcontrollers that share one register layout.
//!
//! The crate turns a declarative set of requested clock frequencies into a
//! fully resolved plan: divisors for the analog PLL network, prescaler codes
//! for the AHB and APB buses, flash wait-states, the routing of each audio
//! clock, and the frozen [`clocks::Clocks`] snapshot that peripheral drivers
//! consume.  Resolution is pure: no hardware is touched here.  A separate,
//! unverified layer applies a resolved plan to the memory-mapped registers in
//! the hardware-mandated order.
//!
//! The second half of the crate is the bus-gate model: per-peripheral clock
//! enable, low-power enable and reset bits that live in registers shared by
//! many peripherals.  Every operation is proved to touch exactly one bit and
//! leave every neighbouring bit unchanged.

use vstd::prelude::*;

pub mod audio;
pub mod clocks;
pub mod gates;
pub mod hertz;
pub mod pll;
pub mod prescaler;
pub mod rcc;
pub mod timer;
pub mod variant;

pub use hertz::Hertz;

verus! {

/// Marker trait used to close extension traits of this crate against
/// downstream implementations.
pub trait Sealed {}

} // verus!
