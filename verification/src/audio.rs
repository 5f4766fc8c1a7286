//! Routing of the audio clocks.
//!
//! Each audio output (the I2S clock lines and, on chips that have it, the
//! SAI clock lines) is fed either from the external audio input pin or from
//! a PLL-derived line.  An output whose requested frequency equals the
//! declared external input frequency is routed to the pin; every other
//! requested output becomes a target for the shared audio PLL line.  Two
//! non-external outputs that share one PLL line must therefore request the
//! same frequency; a mismatch is a resolution failure, decided before any
//! divisor search runs.

use vstd::prelude::*;

verus! {

/// The routing decision for the I2S clock lines, before the audio PLL has
/// been solved: which lines are external, and the one frequency the shared
/// PLL line is asked for, if any.
#[derive(Clone, Copy, Debug)]
pub struct I2sClocks {
    /// The I2S line of the first peripheral bus is fed from the external pin.
    pub apb1_ext: bool,
    /// The I2S line of the second peripheral bus is fed from the external pin.
    pub apb2_ext: bool,
    /// Target for the shared I2S PLL line: the clock after the divider.
    pub pll_i2s_clk: Option<u32>,
}

/// One fully routed I2S clock line.
#[derive(Clone, Copy, Debug)]
pub struct RealI2sClock {
    /// The line is fed from the external pin rather than the PLL.
    pub i2s_ext: bool,
    /// The frequency that actually reaches the peripheral.
    pub i2s_clk: Option<u32>,
}

/// The fully routed I2S clock lines of both peripheral buses.  On chips with
/// a single shared I2S line both entries are identical.
#[derive(Clone, Copy, Debug)]
pub struct RealI2sClocks {
    /// The line serving the I2S peripherals on the first peripheral bus.
    pub apb1: RealI2sClock,
    /// The line serving the I2S peripherals on the second peripheral bus.
    pub apb2: RealI2sClock,
}

impl I2sClocks {
    /// Combines the routing decision with the solved PLL line frequency:
    /// an external line carries the external input frequency, a PLL-fed
    /// line carries the frequency the audio PLL actually produced.
    pub fn routed(&self, pll_i2s_clk: Option<u32>, i2s_ckin: Option<u32>) -> (r: RealI2sClocks)
        ensures
            r.apb1.i2s_ext == self.apb1_ext,
            r.apb2.i2s_ext == self.apb2_ext,
            r.apb1.i2s_clk == (if self.apb1_ext {
                i2s_ckin
            } else {
                pll_i2s_clk
            }),
            r.apb2.i2s_clk == (if self.apb2_ext {
                i2s_ckin
            } else {
                pll_i2s_clk
            }),
    {
        RealI2sClocks {
            apb1: RealI2sClock {
                i2s_ext: self.apb1_ext,
                i2s_clk: if self.apb1_ext {
                    i2s_ckin
                } else {
                    pll_i2s_clk
                },
            },
            apb2: RealI2sClock {
                i2s_ext: self.apb2_ext,
                i2s_clk: if self.apb2_ext {
                    i2s_ckin
                } else {
                    pll_i2s_clk
                },
            },
        }
    }
}

/// The routing decision for the SAI clock lines, before the audio PLL has
/// been solved.  On chips whose second SAI line cannot reach the external
/// pin, `sai2_ext` is always false.
#[derive(Clone, Copy, Debug)]
pub struct SaiClocks {
    /// The first SAI line is fed from the external pin.
    pub sai1_ext: bool,
    /// The second SAI line is fed from the external pin.
    pub sai2_ext: bool,
    /// Target for the shared SAI PLL line: the clock after the divider.
    pub pll_sai_clk: Option<u32>,
}

/// The fully routed SAI clock lines.
#[derive(Clone, Copy, Debug)]
pub struct RealSaiClocks {
    /// The first SAI line is fed from the external pin.
    pub sai1_ext: bool,
    /// The second SAI line is fed from the external pin.
    pub sai2_ext: bool,
    /// The frequency that actually reaches the first SAI peripheral.
    pub sai1_clk: Option<u32>,
    /// The frequency that actually reaches the second SAI peripheral.
    pub sai2_clk: Option<u32>,
}

impl SaiClocks {
    /// Combines the routing decision with the solved PLL line frequency,
    /// exactly as [`I2sClocks::routed`] does for the I2S lines.
    pub fn routed(&self, pll_sai_clk: Option<u32>, i2s_ckin: Option<u32>) -> (r: RealSaiClocks)
        ensures
            r.sai1_ext == self.sai1_ext,
            r.sai2_ext == self.sai2_ext,
            r.sai1_clk == (if self.sai1_ext {
                i2s_ckin
            } else {
                pll_sai_clk
            }),
            r.sai2_clk == (if self.sai2_ext {
                i2s_ckin
            } else {
                pll_sai_clk
            }),
    {
        RealSaiClocks {
            sai1_ext: self.sai1_ext,
            sai2_ext: self.sai2_ext,
            sai1_clk: if self.sai1_ext {
                i2s_ckin
            } else {
                pll_sai_clk
            },
            sai2_clk: if self.sai2_ext {
                i2s_ckin
            } else {
                pll_sai_clk
            },
        }
    }
}

} // verus!
