//! A plain frequency value.
//!
//! Frequencies are carried as a raw number of hertz in a `u32`, wrapped in a
//! dedicated type so that contracts and call sites cannot confuse a frequency
//! with an unrelated count.

use vstd::prelude::*;

verus! {

/// A frequency in hertz.
#[derive(Clone, Copy, Debug, PartialEq, Eq, Structural)]
pub struct Hertz(pub u32);

impl Hertz {
    /// Wraps a raw number of hertz.
    pub fn from_raw(raw: u32) -> (r: Hertz)
        ensures
            r.0 == raw,
    {
        Hertz(raw)
    }

    /// The raw number of hertz.
    pub fn raw(self) -> (r: u32)
        ensures
            r == self.0,
    {
        self.0
    }

    /// Builds a frequency given in kilohertz.
    pub fn khz(val: u32) -> (r: Hertz)
        requires
            val * 1_000 <= u32::MAX,
        ensures
            r.0 == val * 1_000,
    {
        Hertz(val * 1_000)
    }

    /// Builds a frequency given in megahertz.
    pub fn mhz(val: u32) -> (r: Hertz)
        requires
            val * 1_000_000 <= u32::MAX,
        ensures
            r.0 == val * 1_000_000,
    {
        Hertz(val * 1_000_000)
    }
}

} // verus!
