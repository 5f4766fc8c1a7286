//! Chip-variant parameters.
//!
//! The chips covered by this crate share one register layout but differ in
//! documented frequency limits, in the flash wait-state step, in the
//! voltage-overdrive threshold, and in how the audio clock lines are
//! arranged.  Instead of branching on a variant throughout the resolution
//! code, every difference is captured once in a [`ChipVariant`] value that
//! the resolution engine is parameterized by.

use vstd::prelude::*;

verus! {

/// The documented limits and feature set of one chip variant.
#[derive(Clone, Copy, Debug)]
pub struct ChipVariant {
    /// Minimum documented PLL-driven system clock frequency.
    pub sysclk_min: u32,
    /// Maximum documented system clock frequency.
    pub sysclk_max: u32,
    /// Maximum documented frequency of the first peripheral bus.
    pub pclk1_max: u32,
    /// Maximum documented frequency of the second peripheral bus.
    pub pclk2_max: u32,
    /// One flash wait-state is inserted per this many hertz of system clock.
    pub flash_latency_step: u32,
    /// AHB frequency above which the voltage-regulator overdrive sequence is
    /// required, on variants that have one.
    pub overdrive_threshold: Option<u32>,
    /// The I2S peripherals of the two peripheral buses have separately
    /// routed clock lines (instead of one shared line).
    pub i2s_per_bus: bool,
    /// The chip has SAI peripherals fed by a dedicated SAI PLL.
    pub has_sai: bool,
    /// The second SAI line cannot be routed to the external input pin.
    pub independent_sai2: bool,
}

impl ChipVariant {
    /// The limits a variant must state for resolution to be meaningful.
    pub open spec fn wf(&self) -> bool {
        &&& 1 <= self.sysclk_max
        &&& 1 <= self.pclk1_max
        &&& 1 <= self.pclk2_max
        &&& 1 <= self.flash_latency_step
    }

    /// The 84 MHz entry-level variant.
    pub fn f401() -> (r: ChipVariant)
        ensures
            r == (ChipVariant {
                sysclk_min: 24_000_000u32,
                sysclk_max: 84_000_000u32,
                pclk1_max: 42_000_000u32,
                pclk2_max: 84_000_000u32,
                flash_latency_step: 30_000_000u32,
                overdrive_threshold: None::<u32>,
                i2s_per_bus: false,
                has_sai: false,
                independent_sai2: false,
            }),
            r.wf(),
    {
        ChipVariant {
            sysclk_min: 24_000_000,
            sysclk_max: 84_000_000,
            pclk1_max: 42_000_000,
            pclk2_max: 84_000_000,
            flash_latency_step: 30_000_000,
            overdrive_threshold: None,
            i2s_per_bus: false,
            has_sai: false,
            independent_sai2: false,
        }
    }

    /// The 168 MHz mainstream variant.
    pub fn f407() -> (r: ChipVariant)
        ensures
            r == (ChipVariant {
                sysclk_min: 24_000_000u32,
                sysclk_max: 168_000_000u32,
                pclk1_max: 42_000_000u32,
                pclk2_max: 84_000_000u32,
                flash_latency_step: 30_000_000u32,
                overdrive_threshold: None::<u32>,
                i2s_per_bus: false,
                has_sai: false,
                independent_sai2: false,
            }),
            r.wf(),
    {
        ChipVariant {
            sysclk_min: 24_000_000,
            sysclk_max: 168_000_000,
            pclk1_max: 42_000_000,
            pclk2_max: 84_000_000,
            flash_latency_step: 30_000_000,
            overdrive_threshold: None,
            i2s_per_bus: false,
            has_sai: false,
            independent_sai2: false,
        }
    }

    /// The 180 MHz variant with SAI peripherals and voltage overdrive.
    pub fn f429() -> (r: ChipVariant)
        ensures
            r == (ChipVariant {
                sysclk_min: 24_000_000u32,
                sysclk_max: 180_000_000u32,
                pclk1_max: 45_000_000u32,
                pclk2_max: 90_000_000u32,
                flash_latency_step: 30_000_000u32,
                overdrive_threshold: Some(168_000_000u32),
                i2s_per_bus: false,
                has_sai: true,
                independent_sai2: false,
            }),
            r.wf(),
    {
        ChipVariant {
            sysclk_min: 24_000_000,
            sysclk_max: 180_000_000,
            pclk1_max: 45_000_000,
            pclk2_max: 90_000_000,
            flash_latency_step: 30_000_000,
            overdrive_threshold: Some(168_000_000),
            i2s_per_bus: false,
            has_sai: true,
            independent_sai2: false,
        }
    }

    /// The 180 MHz variant with per-bus I2S clock lines and an SAI line
    /// that cannot reach the external pin.
    pub fn f446() -> (r: ChipVariant)
        ensures
            r == (ChipVariant {
                sysclk_min: 12_500_000u32,
                sysclk_max: 180_000_000u32,
                pclk1_max: 45_000_000u32,
                pclk2_max: 90_000_000u32,
                flash_latency_step: 30_000_000u32,
                overdrive_threshold: Some(168_000_000u32),
                i2s_per_bus: true,
                has_sai: true,
                independent_sai2: true,
            }),
            r.wf(),
    {
        ChipVariant {
            sysclk_min: 12_500_000,
            sysclk_max: 180_000_000,
            pclk1_max: 45_000_000,
            pclk2_max: 90_000_000,
            flash_latency_step: 30_000_000,
            overdrive_threshold: Some(168_000_000),
            i2s_per_bus: true,
            has_sai: true,
            independent_sai2: true,
        }
    }
}

} // verus!
