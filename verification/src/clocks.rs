//! The frozen clock snapshot.
//!
//! A [`Clocks`] value records the frequencies that resolution settled on.
//! It is created exactly once, when a configuration is resolved, and is
//! then handed by value to every peripheral driver: its existence is the
//! program's evidence that the clock tree has been configured, and no
//! frequency in it changes afterwards.

use vstd::prelude::*;
use crate::hertz::Hertz;
use crate::pll::{abs_diff, PLL48_TARGET, PLL48_TOLERANCE};

verus! {

/// Frozen clock frequencies.
///
/// Absent optional lines (`None`) mean the corresponding PLL output or
/// audio line is not engaged.  Audio lines that the chip variant does not
/// route (the shared I2S line on per-bus chips and the other way round, or
/// the SAI lines on chips without SAI) are absent as well.
#[derive(Clone, Copy, Debug)]
pub struct Clocks {
    /// Frequency of the AHB bus.
    pub hclk: Hertz,
    /// Frequency of the first peripheral bus.
    pub pclk1: Hertz,
    /// Frequency of the second peripheral bus.
    pub pclk2: Hertz,
    /// Frequency of the timers on the first peripheral bus.
    pub timclk1: Hertz,
    /// Frequency of the timers on the second peripheral bus.
    pub timclk2: Hertz,
    /// Frequency of the system (core) clock.
    pub sysclk: Hertz,
    /// Frequency of the 48 MHz line, when the main PLL is engaged.
    pub pll48clk: Option<Hertz>,
    /// Frequency of the shared I2S clock line.
    pub i2s_clk: Option<Hertz>,
    /// Frequency of the I2S clock line of the first peripheral bus.
    pub i2s_apb1_clk: Option<Hertz>,
    /// Frequency of the I2S clock line of the second peripheral bus.
    pub i2s_apb2_clk: Option<Hertz>,
    /// Frequency of the first SAI clock line.
    pub sai1_clk: Option<Hertz>,
    /// Frequency of the second SAI clock line.
    pub sai2_clk: Option<Hertz>,
}

impl Clocks {
    /// The 48 MHz line is present and within the USB tolerance.
    pub open spec fn spec_pll48clk_valid(&self) -> bool {
        match self.pll48clk {
            Some(f) => abs_diff(f.0 as int, PLL48_TARGET as int) <= PLL48_TOLERANCE,
            None => false,
        }
    }

    /// Returns the frequency of the AHB bus.
    pub fn hclk(&self) -> (r: Hertz)
        ensures
            r == self.hclk,
    {
        self.hclk
    }

    /// Returns the frequency of the first peripheral bus.
    pub fn pclk1(&self) -> (r: Hertz)
        ensures
            r == self.pclk1,
    {
        self.pclk1
    }

    /// Returns the frequency of the second peripheral bus.
    pub fn pclk2(&self) -> (r: Hertz)
        ensures
            r == self.pclk2,
    {
        self.pclk2
    }

    /// Returns the frequency of the timers on the first peripheral bus.
    pub fn timclk1(&self) -> (r: Hertz)
        ensures
            r == self.timclk1,
    {
        self.timclk1
    }

    /// Returns the frequency of the timers on the second peripheral bus.
    pub fn timclk2(&self) -> (r: Hertz)
        ensures
            r == self.timclk2,
    {
        self.timclk2
    }

    /// Returns the frequency of the system (core) clock.
    pub fn sysclk(&self) -> (r: Hertz)
        ensures
            r == self.sysclk,
    {
        self.sysclk
    }

    /// Returns the frequency of the 48 MHz line, when engaged.
    pub fn pll48clk(&self) -> (r: Option<Hertz>)
        ensures
            r == self.pll48clk,
    {
        self.pll48clk
    }

    /// Returns true exactly when the 48 MHz line is present and within the
    /// ±0.25 % USB tolerance; using the USB peripheral requires this.
    pub fn is_pll48clk_valid(&self) -> (r: bool)
        ensures
            r == self.spec_pll48clk_valid(),
    {
        match self.pll48clk {
            Some(f) => {
                let raw: u32 = f.raw();
                let diff: u32 = if raw >= PLL48_TARGET {
                    raw - PLL48_TARGET
                } else {
                    PLL48_TARGET - raw
                };
                diff <= PLL48_TOLERANCE
            },
            None => false,
        }
    }

    /// Returns the frequency of the shared I2S clock line.
    pub fn i2s_clk(&self) -> (r: Option<Hertz>)
        ensures
            r == self.i2s_clk,
    {
        self.i2s_clk
    }

    /// Returns the frequency of the I2S clock line of the first peripheral
    /// bus.
    pub fn i2s_apb1_clk(&self) -> (r: Option<Hertz>)
        ensures
            r == self.i2s_apb1_clk,
    {
        self.i2s_apb1_clk
    }

    /// Returns the frequency of the I2S clock line of the second peripheral
    /// bus.
    pub fn i2s_apb2_clk(&self) -> (r: Option<Hertz>)
        ensures
            r == self.i2s_apb2_clk,
    {
        self.i2s_apb2_clk
    }

    /// Returns the frequency of the SAI A clock line.
    pub fn saia_clk(&self) -> (r: Option<Hertz>)
        ensures
            r == self.sai1_clk,
    {
        self.sai1_clk
    }

    /// Returns the frequency of the SAI B clock line.
    pub fn saib_clk(&self) -> (r: Option<Hertz>)
        ensures
            r == self.sai2_clk,
    {
        self.sai2_clk
    }

    /// Returns the frequency of the SAI1 clock line.
    pub fn sai1_clk(&self) -> (r: Option<Hertz>)
        ensures
            r == self.sai1_clk,
    {
        self.sai1_clk
    }

    /// Returns the frequency of the SAI2 clock line.
    pub fn sai2_clk(&self) -> (r: Option<Hertz>)
        ensures
            r == self.sai2_clk,
    {
        self.sai2_clk
    }
}

} // verus!
