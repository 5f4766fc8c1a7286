//! Timer support: the pure arithmetic of the hardware timers.
//!
//! The timers themselves are peripherals and live outside this crate; what
//! belongs here is everything they decide from the frozen clock snapshot:
//! the reload value of the core count-down timer, the prescaler/auto-reload
//! split of a general-purpose timer, and the monotonic timer's bookkeeping.
//! The unverified hardware layer feeds these values into the timer
//! registers and hands cycle-counter readings back in.

use vstd::prelude::*;
use crate::clocks::Clocks;
use crate::hertz::Hertz;

verus! {

/// Interrupt events a timer can raise.
pub enum Event {
    /// Timer timed out / count down ended.
    TimeOut,
}

/// Errors of timer control operations.
#[derive(Debug, PartialEq, Eq, Structural, Copy, Clone)]
pub enum Error {
    /// The timer is disabled.
    Disabled,
}

/// The number of core cycles of one timeout period.
pub open spec fn spec_ticks(timclk: int, timeout: int) -> int {
    timclk / timeout
}

/// The prescaler value that brings the tick count into 16 bits.
pub open spec fn spec_psc(ticks: int) -> int {
    (ticks - 1) / 0x1_0000
}

/// The auto-reload value for that prescaler.
pub open spec fn spec_arr(ticks: int) -> int {
    ticks / (spec_psc(ticks) + 1)
}

/// Reload value for the core count-down timer: one timeout period of the
/// system clock, less the one count the hardware adds.  The reload value
/// must fit the timer's 24-bit counter.
pub fn syst_reload(sysclk: Hertz, timeout: Hertz) -> (r: u32)
    requires
        1 <= timeout.0 <= sysclk.0,
        sysclk.0 as int / timeout.0 as int <= 0x0100_0000,
    ensures
        r == sysclk.0 as int / timeout.0 as int - 1,
        r < 0x0100_0000,
{
    let rate: u32 = sysclk.raw() / timeout.raw();
    assert(rate >= 1) by {
        vstd::arithmetic::div_mod::lemma_div_by_self(timeout.0 as int);
        vstd::arithmetic::div_mod::lemma_div_is_ordered(
            timeout.0 as int,
            sysclk.0 as int,
            timeout.0 as int,
        );
    }
    rate - 1
}

/// Splits one timeout period of a timer kernel clock into a 16-bit
/// prescaler and a 16-bit auto-reload value.  A period too long for that
/// split (65536 or more ticks left after maximal prescaling) is excluded:
/// the hardware cannot express it.
pub fn timer_dividers(timclk: Hertz, timeout: Hertz) -> (r: (u16, u16))
    requires
        1 <= timeout.0 <= timclk.0,
        spec_arr(spec_ticks(timclk.0 as int, timeout.0 as int)) <= 0xFFFF,
    ensures
        r.0 == spec_psc(spec_ticks(timclk.0 as int, timeout.0 as int)),
        r.1 == spec_arr(spec_ticks(timclk.0 as int, timeout.0 as int)),
{
    let ticks: u32 = timclk.raw() / timeout.raw();
    assert(ticks >= 1) by {
        vstd::arithmetic::div_mod::lemma_div_by_self(timeout.0 as int);
        vstd::arithmetic::div_mod::lemma_div_is_ordered(
            timeout.0 as int,
            timclk.0 as int,
            timeout.0 as int,
        );
    }
    let psc: u32 = (ticks - 1) / 0x1_0000;
    assert(psc <= 0xFFFF) by {
        vstd::arithmetic::div_mod::lemma_div_is_ordered(
            ticks as int - 1,
            0xFFFF_FFFFint,
            0x1_0000int,
        );
    }
    let arr: u32 = ticks / (psc + 1);
    (psc as u16, arr as u16)
}

/// A monotonic, non-decreasing timer, driven by the free-running core
/// cycle counter at the AHB frequency.
#[derive(Clone, Copy, Debug)]
pub struct MonoTimer {
    /// The frequency the cycle counter runs at.
    pub frequency: Hertz,
}

impl MonoTimer {
    /// Creates a monotonic timer from the frozen snapshot: it runs at the
    /// AHB frequency.  Starting the cycle counter itself is hardware work
    /// and happens outside this crate.
    pub fn new(clocks: Clocks) -> (r: MonoTimer)
        ensures
            r.frequency == clocks.hclk,
    {
        MonoTimer { frequency: clocks.hclk }
    }

    /// Returns the frequency the monotonic timer is operating at.
    pub fn frequency(self) -> (r: Hertz)
        ensures
            r == self.frequency,
    {
        self.frequency
    }

    /// The instant with the given cycle-counter reading, as "now".
    pub fn instant_at(self, count: u32) -> (r: Instant)
        ensures
            r.now == count,
    {
        Instant { now: count }
    }
}

/// A measurement of the monotonic timer: one cycle-counter reading.
#[derive(Clone, Copy, Debug)]
pub struct Instant {
    /// The cycle-counter reading when the instant was taken.
    pub now: u32,
}

impl Instant {
    /// Ticks elapsed from this instant to the given later cycle-counter
    /// reading, accounting for the counter wrapping around.
    pub fn elapsed_since(self, count: u32) -> (r: u32)
        ensures
            count >= self.now ==> r == count - self.now,
            count < self.now ==> r == count + 0x1_0000_0000 - self.now,
    {
        if count >= self.now {
            count - self.now
        } else {
            (0xFFFF_FFFFu32 - self.now) + 1 + count
        }
    }
}

/// Marker for pins usable as a timer's first output channel.
pub trait PinC1<TIM> {}

/// Marker for pins usable as a timer's second output channel.
pub trait PinC2<TIM> {}

/// Marker for pins usable as a timer's third output channel.
pub trait PinC3<TIM> {}

/// Marker for pins usable as a timer's fourth output channel.
pub trait PinC4<TIM> {}

} // verus!
