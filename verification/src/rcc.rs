//! Clock-tree configuration and resolution.
//!
//! A [`CFGR`] value accumulates the requested clock targets; nothing touches
//! hardware while it is being built, and every setter returns an updated
//! value.  Resolution consumes the builder and either fails with a precise
//! [`RccError`] or produces a [`ClockPlan`]: the PLL divisors, prescaler
//! codes, flash wait-states, overdrive decision, audio routing, the system
//! clock source to switch to, and the frozen [`Clocks`] snapshot.  An
//! unverified layer applies the plan to the registers in the
//! hardware-mandated order; everything the plan decides is resolved here.

use vstd::prelude::*;
use crate::audio::{I2sClocks, RealI2sClocks, RealSaiClocks, SaiClocks};
use crate::clocks::Clocks;
use crate::hertz::Hertz;
use crate::pll::{
    audio_pll_first, audio_pll_valid, audio_solvable, main_pll_first, main_pll_valid,
    main_solvable, solve_audio, solve_main, AudioPll, MainPll,
};
use crate::prescaler::{
    ahb_prescaler, apb_prescaler, ceil_div, spec_ahb_div, spec_apb_div, spec_hpre_bits,
    spec_ppre_bits, PrescalerPlan,
};
use crate::gates::RccRegisters;
use crate::variant::ChipVariant;

verus! {

/// Frequency of the built-in high speed internal oscillator.
pub const HSI: u32 = 16_000_000;

/// Why a resolution attempt failed.
///
/// The conflict and unsatisfiability errors are configuration mistakes that
/// no retry can fix; the limit errors are raised by checked resolution only.
#[derive(Clone, Copy, Debug, PartialEq, Eq, Structural)]
pub enum RccError {
    /// Two non-external I2S outputs request different frequencies for the
    /// one shared I2S PLL line.
    I2sPllConflict,
    /// Two non-external SAI outputs request different frequencies for the
    /// one shared SAI PLL line.
    SaiPllConflict,
    /// No legal divisor set serves the mandatory main PLL targets.
    MainPllUnsatisfiable,
    /// No legal divisor set lets the I2S PLL run from this input.
    I2sPllUnsatisfiable,
    /// No legal divisor set lets the SAI PLL run from this input.
    SaiPllUnsatisfiable,
    /// The PLL-driven system clock lies outside the documented range.
    SysclkOutOfRange,
    /// The first peripheral bus would exceed its documented maximum.
    Pclk1OverMax,
    /// The second peripheral bus would exceed its documented maximum.
    Pclk2OverMax,
}

/// The clock source the system clock is switched to at the end of the
/// hardware sequence.
#[derive(Clone, Copy, Debug, PartialEq, Eq, Structural)]
pub enum SysclkSource {
    /// The internal oscillator.
    Hsi,
    /// The external oscillator.
    Hse,
    /// The main PLL.
    Pll,
}

/// The resolved divisors of the whole PLL network: the main PLL and the
/// dedicated audio PLLs, each present exactly when engaged.
#[derive(Clone, Copy, Debug)]
pub struct PllPlan {
    /// The main PLL, engaged when the system clock is PLL-driven or a
    /// 48 MHz line is required.
    pub main: Option<MainPll>,
    /// The dedicated I2S PLL, engaged when a non-external I2S output was
    /// requested.
    pub i2s: Option<AudioPll>,
    /// The dedicated SAI PLL, engaged when a non-external SAI output was
    /// requested.
    pub sai: Option<AudioPll>,
}

/// Everything the hardware sequence needs, fully decided: what to enable,
/// which divisors and wait-states to program, where to route each clock,
/// and the snapshot the caller keeps.
#[derive(Clone, Copy, Debug)]
pub struct ClockPlan {
    /// The external oscillator frequency, when one is used.
    pub hse: Option<u32>,
    /// The external oscillator is bypassed by a clock input on its pin.
    pub hse_bypass: bool,
    /// The resolved PLL network.
    pub pll: PllPlan,
    /// Number of flash wait-states for the target system frequency.
    pub flash_latency: u32,
    /// The voltage-regulator overdrive sequence is required.
    pub overdrive: bool,
    /// The routed I2S clock lines.
    pub i2s: RealI2sClocks,
    /// The routed SAI clock lines.
    pub sai: RealSaiClocks,
    /// The resolved bus prescalers.
    pub prescalers: PrescalerPlan,
    /// The source the system clock is switched to.
    pub sysclk_source: SysclkSource,
    /// The frozen frequency snapshot.
    pub clocks: Clocks,
}

/// The constrained clock-control peripheral: the configuration builder and
/// the gating-register model, obtained once at startup by
/// [`crate::gates::RccExt::constrain`].
#[derive(Clone, Copy, Debug)]
pub struct Rcc {
    /// The configuration builder.
    pub cfgr: CFGR,
    /// The gating-register model.
    pub regs: RccRegisters,
}

/// A configuration under construction: one optional target per clock
/// domain, plus the chip-variant parameters resolution works against.
#[derive(Clone, Copy, Debug)]
pub struct CFGR {
    /// The chip-variant parameters.
    pub variant: ChipVariant,
    /// External oscillator frequency, when one is connected.
    pub hse: Option<u32>,
    /// The external oscillator is bypassed by a clock input on its pin.
    pub hse_bypass: bool,
    /// Requested AHB frequency.
    pub hclk: Option<u32>,
    /// Requested frequency of the first peripheral bus.
    pub pclk1: Option<u32>,
    /// Requested frequency of the second peripheral bus.
    pub pclk2: Option<u32>,
    /// Requested system clock frequency.
    pub sysclk: Option<u32>,
    /// A 48 MHz line within USB tolerance is required.
    pub pll48clk: bool,
    /// Frequency present at the external audio input pin.
    pub i2s_ckin: Option<u32>,
    /// Requested frequency of the shared I2S clock line.
    pub i2s_clk: Option<u32>,
    /// Requested I2S frequency for the first peripheral bus.
    pub i2s_apb1_clk: Option<u32>,
    /// Requested I2S frequency for the second peripheral bus.
    pub i2s_apb2_clk: Option<u32>,
    /// Requested frequency of the first SAI clock line.
    pub sai1_clk: Option<u32>,
    /// Requested frequency of the second SAI clock line.
    pub sai2_clk: Option<u32>,
}

/// Wraps an optional raw frequency.
fn opt_hz(v: Option<u32>) -> (r: Option<Hertz>)
    ensures
        r == spec_opt_hz(v),
{
    match v {
        Some(f) => Some(Hertz(f)),
        None => None,
    }
}

/// Wraps an optional raw frequency.
pub open spec fn spec_opt_hz(v: Option<u32>) -> Option<Hertz> {
    match v {
        Some(f) => Some(Hertz(f)),
        None => None,
    }
}

/// Equality of two optional raw frequencies.
fn opt_eq(a: Option<u32>, b: Option<u32>) -> (r: bool)
    ensures
        r == (a == b),
{
    match (a, b) {
        (Some(x), Some(y)) => x == y,
        (None, None) => true,
        _ => false,
    }
}

impl CFGR {
    /// A fresh configuration: no oscillator declared, no targets set.
    pub open spec fn spec_new(variant: ChipVariant) -> CFGR {
        CFGR {
            variant,
            hse: None,
            hse_bypass: false,
            hclk: None,
            pclk1: None,
            pclk2: None,
            sysclk: None,
            pll48clk: false,
            i2s_ckin: None,
            i2s_clk: None,
            i2s_apb1_clk: None,
            i2s_apb2_clk: None,
            sai1_clk: None,
            sai2_clk: None,
        }
    }

    /// A fresh configuration for the given chip variant: no oscillator
    /// declared, no targets set.
    pub fn new(variant: ChipVariant) -> (r: CFGR)
        ensures
            r == CFGR::spec_new(variant),
    {
        CFGR {
            variant,
            hse: None,
            hse_bypass: false,
            hclk: None,
            pclk1: None,
            pclk2: None,
            sysclk: None,
            pll48clk: false,
            i2s_ckin: None,
            i2s_clk: None,
            i2s_apb1_clk: None,
            i2s_apb2_clk: None,
            sai1_clk: None,
            sai2_clk: None,
        }
    }

    /// Uses an external oscillator of the given frequency as the clock
    /// source instead of the internal oscillator.  The hardware sequence
    /// hangs if no oscillator is connected or it fails to start.
    pub fn use_hse(self, freq: Hertz) -> (r: Self)
        ensures
            r == (CFGR { hse: Some(freq.0), ..self }),
    {
        CFGR { hse: Some(freq.raw()), ..self }
    }

    /// Bypasses the external oscillator and uses an external clock input on
    /// its pin; the frequency is still the one given to [`CFGR::use_hse`],
    /// without which this call has no effect.
    pub fn bypass_hse_oscillator(self) -> (r: Self)
        ensures
            r == (CFGR { hse_bypass: true, ..self }),
    {
        CFGR { hse_bypass: true, ..self }
    }

    /// Requests an AHB frequency.
    pub fn hclk(self, freq: Hertz) -> (r: Self)
        ensures
            r == (CFGR { hclk: Some(freq.0), ..self }),
    {
        CFGR { hclk: Some(freq.raw()), ..self }
    }

    /// Requests a frequency for the first peripheral bus.
    pub fn pclk1(self, freq: Hertz) -> (r: Self)
        ensures
            r == (CFGR { pclk1: Some(freq.0), ..self }),
    {
        CFGR { pclk1: Some(freq.raw()), ..self }
    }

    /// Requests a frequency for the second peripheral bus.
    pub fn pclk2(self, freq: Hertz) -> (r: Self)
        ensures
            r == (CFGR { pclk2: Some(freq.0), ..self }),
    {
        CFGR { pclk2: Some(freq.raw()), ..self }
    }

    /// Requests a system clock frequency.
    pub fn sysclk(self, freq: Hertz) -> (r: Self)
        ensures
            r == (CFGR { sysclk: Some(freq.0), ..self }),
    {
        CFGR { sysclk: Some(freq.raw()), ..self }
    }

    /// Requires a 48 MHz line within the USB tolerance.
    pub fn require_pll48clk(self) -> (r: Self)
        ensures
            r == (CFGR { pll48clk: true, ..self }),
    {
        CFGR { pll48clk: true, ..self }
    }

    /// Declares the frequency available at the external audio input pin.
    /// An audio output requesting exactly this frequency is routed to the
    /// pin instead of the PLL network.
    pub fn i2s_ckin(self, freq: Hertz) -> (r: Self)
        ensures
            r == (CFGR { i2s_ckin: Some(freq.0), ..self }),
    {
        CFGR { i2s_ckin: Some(freq.raw()), ..self }
    }

    /// Requests a frequency for the shared I2S clock line (chips without
    /// per-bus I2S lines).
    pub fn i2s_clk(self, freq: Hertz) -> (r: Self)
        ensures
            r == (CFGR { i2s_clk: Some(freq.0), ..self }),
    {
        CFGR { i2s_clk: Some(freq.raw()), ..self }
    }

    /// Requests an I2S frequency for the first peripheral bus (chips with
    /// per-bus I2S lines).
    pub fn i2s_apb1_clk(self, freq: Hertz) -> (r: Self)
        ensures
            r == (CFGR { i2s_apb1_clk: Some(freq.0), ..self }),
    {
        CFGR { i2s_apb1_clk: Some(freq.raw()), ..self }
    }

    /// Requests an I2S frequency for the second peripheral bus (chips with
    /// per-bus I2S lines).
    pub fn i2s_apb2_clk(self, freq: Hertz) -> (r: Self)
        ensures
            r == (CFGR { i2s_apb2_clk: Some(freq.0), ..self }),
    {
        CFGR { i2s_apb2_clk: Some(freq.raw()), ..self }
    }

    /// Requests a frequency for the SAI A clock line.
    pub fn saia_clk(self, freq: Hertz) -> (r: Self)
        ensures
            r == (CFGR { sai1_clk: Some(freq.0), ..self }),
    {
        CFGR { sai1_clk: Some(freq.raw()), ..self }
    }

    /// Requests a frequency for the SAI B clock line.
    pub fn saib_clk(self, freq: Hertz) -> (r: Self)
        ensures
            r == (CFGR { sai2_clk: Some(freq.0), ..self }),
    {
        CFGR { sai2_clk: Some(freq.raw()), ..self }
    }

    /// Requests a frequency for the SAI1 clock line.
    pub fn sai1_clk(self, freq: Hertz) -> (r: Self)
        ensures
            r == (CFGR { sai1_clk: Some(freq.0), ..self }),
    {
        CFGR { sai1_clk: Some(freq.raw()), ..self }
    }

    /// Requests a frequency for the SAI2 clock line.
    pub fn sai2_clk(self, freq: Hertz) -> (r: Self)
        ensures
            r == (CFGR { sai2_clk: Some(freq.0), ..self }),
    {
        CFGR { sai2_clk: Some(freq.raw()), ..self }
    }
}

impl CFGR {
    /// Every stated frequency is non-zero, and the variant states usable
    /// limits.  Zero frequencies are physically meaningless and resolution
    /// rejects them by precondition.
    pub open spec fn wf(&self) -> bool {
        &&& self.variant.wf()
        &&& (self.hse matches Some(f) ==> 1 <= f)
        &&& (self.hclk matches Some(f) ==> 1 <= f)
        &&& (self.pclk1 matches Some(f) ==> 1 <= f)
        &&& (self.pclk2 matches Some(f) ==> 1 <= f)
        &&& (self.sysclk matches Some(f) ==> 1 <= f)
        &&& (self.i2s_ckin matches Some(f) ==> 1 <= f)
        &&& (self.i2s_clk matches Some(f) ==> 1 <= f)
        &&& (self.i2s_apb1_clk matches Some(f) ==> 1 <= f)
        &&& (self.i2s_apb2_clk matches Some(f) ==> 1 <= f)
        &&& (self.sai1_clk matches Some(f) ==> 1 <= f)
        &&& (self.sai2_clk matches Some(f) ==> 1 <= f)
    }

    /// The oscillator frequency feeding the PLL network and, when no PLL is
    /// engaged, the system clock.
    pub open spec fn pllsrc(&self) -> u32 {
        match self.hse {
            Some(f) => f,
            None => HSI,
        }
    }

    /// The system clock frequency resolution settles on.
    pub open spec fn sys_target(&self) -> u32 {
        match self.sysclk {
            Some(s) => s,
            None => self.pllsrc(),
        }
    }

    /// The system clock must be produced by the main PLL.
    pub open spec fn sys_on_pll(&self) -> bool {
        self.sys_target() != self.pllsrc()
    }

    /// The main PLL is engaged at all.
    pub open spec fn need_main_pll(&self) -> bool {
        self.sys_on_pll() || self.pll48clk
    }

    /// The system-clock argument handed to the main PLL solver.
    pub open spec fn main_sys_arg(&self) -> Option<u32> {
        if self.sys_on_pll() {
            Some(self.sys_target())
        } else {
            None
        }
    }

    /// The requested frequency of the first I2S output, as routed by the
    /// variant.
    pub open spec fn i2s_req1(&self) -> Option<u32> {
        if self.variant.i2s_per_bus {
            self.i2s_apb1_clk
        } else {
            self.i2s_clk
        }
    }

    /// The requested frequency of the second I2S output.
    pub open spec fn i2s_req2(&self) -> Option<u32> {
        if self.variant.i2s_per_bus {
            self.i2s_apb2_clk
        } else {
            self.i2s_clk
        }
    }

    /// The first I2S output matches the external pin frequency.
    pub open spec fn i2s_ext1(&self) -> bool {
        self.i2s_req1() is Some && self.i2s_req1() == self.i2s_ckin
    }

    /// The second I2S output matches the external pin frequency.
    pub open spec fn i2s_ext2(&self) -> bool {
        self.i2s_req2() is Some && self.i2s_req2() == self.i2s_ckin
    }

    /// The PLL-line candidate of the first I2S output.
    pub open spec fn i2s_cand1(&self) -> Option<u32> {
        if self.i2s_ext1() {
            None
        } else {
            self.i2s_req1()
        }
    }

    /// The PLL-line candidate of the second I2S output.
    pub open spec fn i2s_cand2(&self) -> Option<u32> {
        if self.i2s_ext2() {
            None
        } else {
            self.i2s_req2()
        }
    }

    /// Both I2S outputs want the shared PLL line, at different frequencies.
    pub open spec fn i2s_conflict(&self) -> bool {
        self.i2s_cand1() is Some && self.i2s_cand2() is Some && self.i2s_cand1()
            != self.i2s_cand2()
    }

    /// The one frequency the shared I2S PLL line is asked for, if any.
    pub open spec fn i2s_pll_target(&self) -> Option<u32> {
        if self.i2s_cand1() is Some {
            self.i2s_cand1()
        } else {
            self.i2s_cand2()
        }
    }

    /// The requested frequency of the first SAI output; absent on variants
    /// without SAI.
    pub open spec fn sai_req1(&self) -> Option<u32> {
        if self.variant.has_sai {
            self.sai1_clk
        } else {
            None
        }
    }

    /// The requested frequency of the second SAI output.
    pub open spec fn sai_req2(&self) -> Option<u32> {
        if self.variant.has_sai {
            self.sai2_clk
        } else {
            None
        }
    }

    /// The first SAI output matches the external pin frequency.
    pub open spec fn sai_ext1(&self) -> bool {
        self.sai_req1() is Some && self.sai_req1() == self.i2s_ckin
    }

    /// The second SAI output matches the external pin frequency; never on
    /// variants whose second SAI line cannot reach the pin.
    pub open spec fn sai_ext2(&self) -> bool {
        !self.variant.independent_sai2 && self.sai_req2() is Some && self.sai_req2()
            == self.i2s_ckin
    }

    /// The PLL-line candidate of the first SAI output.
    pub open spec fn sai_cand1(&self) -> Option<u32> {
        if self.sai_ext1() {
            None
        } else {
            self.sai_req1()
        }
    }

    /// The PLL-line candidate of the second SAI output.
    pub open spec fn sai_cand2(&self) -> Option<u32> {
        if self.sai_ext2() {
            None
        } else {
            self.sai_req2()
        }
    }

    /// Both SAI outputs want the shared PLL line, at different frequencies.
    pub open spec fn sai_conflict(&self) -> bool {
        self.sai_cand1() is Some && self.sai_cand2() is Some && self.sai_cand1()
            != self.sai_cand2()
    }

    /// The one frequency the shared SAI PLL line is asked for, if any.
    pub open spec fn sai_pll_target(&self) -> Option<u32> {
        if self.sai_cand1() is Some {
            self.sai_cand1()
        } else {
            self.sai_cand2()
        }
    }

    /// The AHB target the prescaler aims at: the requested AHB frequency,
    /// clamped to the system clock.
    pub open spec fn hclk_goal(&self) -> int {
        match self.hclk {
            Some(h) => if h <= self.sys_target() {
                h as int
            } else {
                self.sys_target() as int
            },
            None => self.sys_target() as int,
        }
    }

    /// The resolved AHB divisor.
    pub open spec fn spec_hpre_div(&self) -> int {
        spec_ahb_div(ceil_div(self.sys_target() as int, self.hclk_goal()))
    }

    /// The resolved AHB frequency.
    pub open spec fn spec_hclk(&self) -> int {
        self.sys_target() as int / self.spec_hpre_div()
    }

    /// The target the first APB prescaler aims at: the requested frequency
    /// or the documented maximum, clamped to the AHB frequency.
    pub open spec fn pclk1_goal(&self) -> int {
        match self.pclk1 {
            Some(p) => if p <= self.spec_hclk() {
                p as int
            } else {
                self.spec_hclk()
            },
            None => if self.variant.pclk1_max <= self.spec_hclk() {
                self.variant.pclk1_max as int
            } else {
                self.spec_hclk()
            },
        }
    }

    /// The resolved first APB divisor.
    pub open spec fn spec_ppre1_div(&self) -> int {
        spec_apb_div(ceil_div(self.spec_hclk(), self.pclk1_goal()))
    }

    /// The resolved frequency of the first peripheral bus.
    pub open spec fn spec_pclk1(&self) -> int {
        self.spec_hclk() / self.spec_ppre1_div()
    }

    /// The target the second APB prescaler aims at.
    pub open spec fn pclk2_goal(&self) -> int {
        match self.pclk2 {
            Some(p) => if p <= self.spec_hclk() {
                p as int
            } else {
                self.spec_hclk()
            },
            None => if self.variant.pclk2_max <= self.spec_hclk() {
                self.variant.pclk2_max as int
            } else {
                self.spec_hclk()
            },
        }
    }

    /// The resolved second APB divisor.
    pub open spec fn spec_ppre2_div(&self) -> int {
        spec_apb_div(ceil_div(self.spec_hclk(), self.pclk2_goal()))
    }

    /// The resolved frequency of the second peripheral bus.
    pub open spec fn spec_pclk2(&self) -> int {
        self.spec_hclk() / self.spec_ppre2_div()
    }

    /// Timers on an APB bus run at the bus frequency when the bus is
    /// undivided and at twice the bus frequency otherwise.
    pub open spec fn spec_timclk1(&self) -> int {
        if self.spec_ppre1_div() == 1 {
            self.spec_pclk1()
        } else {
            2 * self.spec_pclk1()
        }
    }

    /// Timer frequency of the second peripheral bus.
    pub open spec fn spec_timclk2(&self) -> int {
        if self.spec_ppre2_div() == 1 {
            self.spec_pclk2()
        } else {
            2 * self.spec_pclk2()
        }
    }

    /// The checks that checked resolution enforces: a PLL-driven system
    /// clock within the documented range, and peripheral buses within their
    /// documented maxima.
    pub open spec fn limits_ok(&self) -> bool {
        &&& (self.sys_on_pll() ==> self.variant.sysclk_min <= self.sys_target()
            <= self.variant.sysclk_max)
        &&& self.spec_pclk1() <= self.variant.pclk1_max
        &&& self.spec_pclk2() <= self.variant.pclk2_max
    }

    /// The first error resolution runs into, in detection order, or `None`
    /// when resolution succeeds.
    pub open spec fn spec_resolve_error(&self, unchecked: bool) -> Option<RccError> {
        if self.i2s_conflict() {
            Some(RccError::I2sPllConflict)
        } else if self.sai_conflict() {
            Some(RccError::SaiPllConflict)
        } else if self.need_main_pll() && !main_solvable(
            self.pllsrc() as int,
            self.main_sys_arg(),
            self.pll48clk,
        ) {
            Some(RccError::MainPllUnsatisfiable)
        } else if self.i2s_pll_target() is Some && !audio_solvable(self.pllsrc() as int) {
            Some(RccError::I2sPllUnsatisfiable)
        } else if self.sai_pll_target() is Some && !audio_solvable(self.pllsrc() as int) {
            Some(RccError::SaiPllUnsatisfiable)
        } else if !unchecked && self.sys_on_pll() && !(self.variant.sysclk_min
            <= self.sys_target() <= self.variant.sysclk_max) {
            Some(RccError::SysclkOutOfRange)
        } else if !unchecked && self.spec_pclk1() > self.variant.pclk1_max {
            Some(RccError::Pclk1OverMax)
        } else if !unchecked && self.spec_pclk2() > self.variant.pclk2_max {
            Some(RccError::Pclk2OverMax)
        } else {
            None
        }
    }

    /// The achieved frequency of an engaged audio PLL.
    pub open spec fn spec_audio_line(a: Option<AudioPll>) -> Option<u32> {
        match a {
            Some(p) => Some(p.clk),
            None => None,
        }
    }

    /// Everything a successful resolution promises about the plan.
    pub open spec fn plan_ok(&self, plan: ClockPlan) -> bool {
        let input = self.pllsrc() as int;
        &&& plan.hse == self.hse
        &&& plan.hse_bypass == self.hse_bypass
        // The PLL network serves the mandatory targets, optimally and
        // deterministically.
        &&& (self.need_main_pll() ==> (plan.pll.main matches Some(pl) && main_pll_valid(
            input,
            self.main_sys_arg(),
            self.pll48clk,
            pl,
        ) && main_pll_first(input, self.main_sys_arg(), self.pll48clk, pl)))
        &&& (!self.need_main_pll() ==> plan.pll.main is None)
        &&& (match self.i2s_pll_target() {
            Some(t) => (plan.pll.i2s matches Some(a) && audio_pll_valid(input, t as int, a)
                && audio_pll_first(input, t as int, a)),
            None => plan.pll.i2s is None,
        })
        &&& (match self.sai_pll_target() {
            Some(t) => (plan.pll.sai matches Some(a) && audio_pll_valid(input, t as int, a)
                && audio_pll_first(input, t as int, a)),
            None => plan.pll.sai is None,
        })
        // Audio routing: external outputs carry the pin frequency, the
        // others the frequency their PLL actually produced.
        &&& plan.i2s.apb1.i2s_ext == self.i2s_ext1()
        &&& plan.i2s.apb2.i2s_ext == self.i2s_ext2()
        &&& plan.i2s.apb1.i2s_clk == (if self.i2s_ext1() {
            self.i2s_ckin
        } else {
            Self::spec_audio_line(plan.pll.i2s)
        })
        &&& plan.i2s.apb2.i2s_clk == (if self.i2s_ext2() {
            self.i2s_ckin
        } else {
            Self::spec_audio_line(plan.pll.i2s)
        })
        &&& plan.sai.sai1_ext == self.sai_ext1()
        &&& plan.sai.sai2_ext == self.sai_ext2()
        &&& plan.sai.sai1_clk == (if self.sai_ext1() {
            self.i2s_ckin
        } else {
            Self::spec_audio_line(plan.pll.sai)
        })
        &&& plan.sai.sai2_clk == (if self.sai_ext2() {
            self.i2s_ckin
        } else {
            Self::spec_audio_line(plan.pll.sai)
        })
        // Prescalers.
        &&& plan.prescalers.hpre_div == self.spec_hpre_div()
        &&& plan.prescalers.hpre_bits == spec_hpre_bits(self.spec_hpre_div())
        &&& plan.prescalers.ppre1_div == self.spec_ppre1_div()
        &&& plan.prescalers.ppre1_bits == spec_ppre_bits(self.spec_ppre1_div())
        &&& plan.prescalers.ppre2_div == self.spec_ppre2_div()
        &&& plan.prescalers.ppre2_bits == spec_ppre_bits(self.spec_ppre2_div())
        // Flash wait-states, overdrive, clock source.
        &&& plan.flash_latency == (self.sys_target() - 1) as int
            / self.variant.flash_latency_step as int
        &&& plan.overdrive == (plan.pll.main is Some && match self.variant.overdrive_threshold {
            Some(th) => self.spec_hclk() > th,
            None => false,
        })
        &&& plan.sysclk_source == (if self.sys_on_pll() {
            SysclkSource::Pll
        } else if self.hse is Some {
            SysclkSource::Hse
        } else {
            SysclkSource::Hsi
        })
        // The frozen snapshot.
        &&& plan.clocks.sysclk.0 == self.sys_target()
        &&& plan.clocks.hclk.0 == self.spec_hclk()
        &&& plan.clocks.pclk1.0 == self.spec_pclk1()
        &&& plan.clocks.pclk2.0 == self.spec_pclk2()
        &&& plan.clocks.timclk1.0 == self.spec_timclk1()
        &&& plan.clocks.timclk2.0 == self.spec_timclk2()
        &&& plan.clocks.pll48clk == (match plan.pll.main {
            Some(pl) => Some(Hertz(pl.pll48clk)),
            None => None::<Hertz>,
        })
        &&& plan.clocks.i2s_clk == (if self.variant.i2s_per_bus {
            None::<Hertz>
        } else {
            spec_opt_hz(plan.i2s.apb1.i2s_clk)
        })
        &&& plan.clocks.i2s_apb1_clk == (if self.variant.i2s_per_bus {
            spec_opt_hz(plan.i2s.apb1.i2s_clk)
        } else {
            None::<Hertz>
        })
        &&& plan.clocks.i2s_apb2_clk == (if self.variant.i2s_per_bus {
            spec_opt_hz(plan.i2s.apb2.i2s_clk)
        } else {
            None::<Hertz>
        })
        &&& plan.clocks.sai1_clk == (if self.variant.has_sai {
            spec_opt_hz(plan.sai.sai1_clk)
        } else {
            None::<Hertz>
        })
        &&& plan.clocks.sai2_clk == (if self.variant.has_sai {
            spec_opt_hz(plan.sai.sai2_clk)
        } else {
            None::<Hertz>
        })
    }

    /// Decides, per I2S output, whether the external pin or the PLL line
    /// feeds it, and the one frequency the shared PLL line must produce.
    /// Fails exactly when both outputs want the line at different
    /// frequencies: with one shared line, no assignment can serve both.
    pub fn i2s_clocks(&self) -> (r: Result<I2sClocks, RccError>)
        ensures
            self.i2s_conflict() ==> (r matches Err(e) && e == RccError::I2sPllConflict),
            !self.i2s_conflict() ==> (r matches Ok(c) && c.apb1_ext == self.i2s_ext1()
                && c.apb2_ext == self.i2s_ext2() && c.pll_i2s_clk == self.i2s_pll_target()),
    {
        let req1: Option<u32> = if self.variant.i2s_per_bus {
            self.i2s_apb1_clk
        } else {
            self.i2s_clk
        };
        let req2: Option<u32> = if self.variant.i2s_per_bus {
            self.i2s_apb2_clk
        } else {
            self.i2s_clk
        };
        let ext1: bool = req1.is_some() && opt_eq(req1, self.i2s_ckin);
        let ext2: bool = req2.is_some() && opt_eq(req2, self.i2s_ckin);
        let cand1: Option<u32> = if ext1 {
            None
        } else {
            req1
        };
        let cand2: Option<u32> = if ext2 {
            None
        } else {
            req2
        };
        if cand1.is_some() && cand2.is_some() && !opt_eq(cand1, cand2) {
            return Err(RccError::I2sPllConflict);
        }
        Ok(
            I2sClocks {
                apb1_ext: ext1,
                apb2_ext: ext2,
                pll_i2s_clk: if cand1.is_some() {
                    cand1
                } else {
                    cand2
                },
            },
        )
    }

    /// Decides, per SAI output, whether the external pin or the PLL line
    /// feeds it, exactly as [`CFGR::i2s_clocks`] does for I2S.  On variants
    /// without SAI both outputs are absent.
    pub fn sai_clocks(&self) -> (r: Result<SaiClocks, RccError>)
        ensures
            self.sai_conflict() ==> (r matches Err(e) && e == RccError::SaiPllConflict),
            !self.sai_conflict() ==> (r matches Ok(c) && c.sai1_ext == self.sai_ext1()
                && c.sai2_ext == self.sai_ext2() && c.pll_sai_clk == self.sai_pll_target()),
    {
        let req1: Option<u32> = if self.variant.has_sai {
            self.sai1_clk
        } else {
            None
        };
        let req2: Option<u32> = if self.variant.has_sai {
            self.sai2_clk
        } else {
            None
        };
        let ext1: bool = req1.is_some() && opt_eq(req1, self.i2s_ckin);
        let ext2: bool = !self.variant.independent_sai2 && req2.is_some() && opt_eq(
            req2,
            self.i2s_ckin,
        );
        let cand1: Option<u32> = if ext1 {
            None
        } else {
            req1
        };
        let cand2: Option<u32> = if ext2 {
            None
        } else {
            req2
        };
        if cand1.is_some() && cand2.is_some() && !opt_eq(cand1, cand2) {
            return Err(RccError::SaiPllConflict);
        }
        Ok(
            SaiClocks {
                sai1_ext: ext1,
                sai2_ext: ext2,
                pll_sai_clk: if cand1.is_some() {
                    cand1
                } else {
                    cand2
                },
            },
        )
    }

    /// Checked resolution: fails on unsatisfiable constraints and whenever
    /// a resolved frequency exceeds the chip's documented limits.
    ///
    /// Zero frequencies, and requests so degenerate that the divided AHB
    /// clock would round to zero, are excluded by precondition: the
    /// divider chain has no meaning for them.
    pub fn resolve(self) -> (r: Result<ClockPlan, RccError>)
        requires
            self.wf(),
            self.spec_hclk() >= 1,
        ensures
            match r {
                Ok(plan) => self.spec_resolve_error(false) is None && self.plan_ok(plan),
                Err(e) => self.spec_resolve_error(false) == Some(e),
            },
            r matches Ok(plan) ==> self.pll48clk ==> plan.clocks.spec_pll48clk_valid(),
    {
        self.resolve_internal(false)
    }

    /// Unchecked resolution: still fails on unsatisfiable constraints, but
    /// skips the documented-limit checks.  Exceeding the silicon limits is
    /// the caller's responsibility.
    pub fn resolve_unchecked(self) -> (r: Result<ClockPlan, RccError>)
        requires
            self.wf(),
            self.spec_hclk() >= 1,
        ensures
            match r {
                Ok(plan) => self.spec_resolve_error(true) is None && self.plan_ok(plan),
                Err(e) => self.spec_resolve_error(true) == Some(e),
            },
            r matches Ok(plan) ==> self.pll48clk ==> plan.clocks.spec_pll48clk_valid(),
    {
        self.resolve_internal(true)
    }

    /// Resolution proper: audio routing, PLL searches, limit checks,
    /// prescalers, and the assembled plan.
    #[verifier::rlimit(100)]
    fn resolve_internal(self, unchecked: bool) -> (r: Result<ClockPlan, RccError>)
        requires
            self.wf(),
            self.spec_hclk() >= 1,
        ensures
            match r {
                Ok(plan) => self.spec_resolve_error(unchecked) is None && self.plan_ok(plan),
                Err(e) => self.spec_resolve_error(unchecked) == Some(e),
            },
            r matches Ok(plan) ==> self.pll48clk ==> plan.clocks.spec_pll48clk_valid(),
    {
        let pllsrcclk: u32 = match self.hse {
            Some(f) => f,
            None => HSI,
        };
        let sys_t: u32 = match self.sysclk {
            Some(s) => s,
            None => pllsrcclk,
        };
        let on_pll: bool = sys_t != pllsrcclk;

        let i2s_sel: I2sClocks = match self.i2s_clocks() {
            Ok(c) => c,
            Err(e) => {
                return Err(e);
            },
        };
        let sai_sel: SaiClocks = match self.sai_clocks() {
            Ok(c) => c,
            Err(e) => {
                return Err(e);
            },
        };

        let need_main: bool = on_pll || self.pll48clk;
        let main: Option<MainPll> = if need_main {
            match solve_main(
                pllsrcclk,
                if on_pll {
                    Some(sys_t)
                } else {
                    None
                },
                self.pll48clk,
            ) {
                Some(pl) => Some(pl),
                None => {
                    return Err(RccError::MainPllUnsatisfiable);
                },
            }
        } else {
            None
        };

        let i2s_pll: Option<AudioPll> = match i2s_sel.pll_i2s_clk {
            Some(t) => match solve_audio(pllsrcclk, t) {
                Some(a) => Some(a),
                None => {
                    return Err(RccError::I2sPllUnsatisfiable);
                },
            },
            None => None,
        };
        let sai_pll: Option<AudioPll> = match sai_sel.pll_sai_clk {
            Some(t) => match solve_audio(pllsrcclk, t) {
                Some(a) => Some(a),
                None => {
                    return Err(RccError::SaiPllUnsatisfiable);
                },
            },
            None => None,
        };

        if !unchecked && on_pll && !(self.variant.sysclk_min <= sys_t && sys_t
            <= self.variant.sysclk_max) {
            return Err(RccError::SysclkOutOfRange);
        }

        let hclk_goal: u32 = match self.hclk {
            Some(h) => if h <= sys_t {
                h
            } else {
                sys_t
            },
            None => sys_t,
        };
        let hpre = ahb_prescaler(sys_t, hclk_goal);
        let hclk: u32 = sys_t / hpre.1;

        let pclk1_goal: u32 = match self.pclk1 {
            Some(p) => if p <= hclk {
                p
            } else {
                hclk
            },
            None => if self.variant.pclk1_max <= hclk {
                self.variant.pclk1_max
            } else {
                hclk
            },
        };
        let ppre1 = apb_prescaler(hclk, pclk1_goal);
        let pclk1: u32 = hclk / ppre1.1;
        if !unchecked && pclk1 > self.variant.pclk1_max {
            return Err(RccError::Pclk1OverMax);
        }

        let pclk2_goal: u32 = match self.pclk2 {
            Some(p) => if p <= hclk {
                p
            } else {
                hclk
            },
            None => if self.variant.pclk2_max <= hclk {
                self.variant.pclk2_max
            } else {
                hclk
            },
        };
        let ppre2 = apb_prescaler(hclk, pclk2_goal);
        let pclk2: u32 = hclk / ppre2.1;
        if !unchecked && pclk2 > self.variant.pclk2_max {
            return Err(RccError::Pclk2OverMax);
        }

        proof {
            lemma_apb_half(hclk as int, ppre1.1 as int);
            lemma_apb_half(hclk as int, ppre2.1 as int);
        }
        let timclk1: u32 = if ppre1.1 == 1 {
            pclk1
        } else {
            pclk1 * 2
        };
        let timclk2: u32 = if ppre2.1 == 1 {
            pclk2
        } else {
            pclk2 * 2
        };

        let flash_latency: u32 = (sys_t - 1) / self.variant.flash_latency_step;
        let overdrive: bool = match self.variant.overdrive_threshold {
            Some(th) => main.is_some() && hclk > th,
            None => false,
        };

        let i2s_line: Option<u32> = match i2s_pll {
            Some(a) => Some(a.clk),
            None => None,
        };
        let sai_line: Option<u32> = match sai_pll {
            Some(a) => Some(a.clk),
            None => None,
        };
        let i2s_routed: RealI2sClocks = i2s_sel.routed(i2s_line, self.i2s_ckin);
        let sai_routed: RealSaiClocks = sai_sel.routed(sai_line, self.i2s_ckin);

        let sysclk_source: SysclkSource = if on_pll {
            SysclkSource::Pll
        } else if self.hse.is_some() {
            SysclkSource::Hse
        } else {
            SysclkSource::Hsi
        };

        let clocks = Clocks {
            hclk: Hertz(hclk),
            pclk1: Hertz(pclk1),
            pclk2: Hertz(pclk2),
            timclk1: Hertz(timclk1),
            timclk2: Hertz(timclk2),
            sysclk: Hertz(sys_t),
            pll48clk: match main {
                Some(pl) => Some(Hertz(pl.pll48clk)),
                None => None,
            },
            i2s_clk: if self.variant.i2s_per_bus {
                None
            } else {
                opt_hz(i2s_routed.apb1.i2s_clk)
            },
            i2s_apb1_clk: if self.variant.i2s_per_bus {
                opt_hz(i2s_routed.apb1.i2s_clk)
            } else {
                None
            },
            i2s_apb2_clk: if self.variant.i2s_per_bus {
                opt_hz(i2s_routed.apb2.i2s_clk)
            } else {
                None
            },
            sai1_clk: if self.variant.has_sai {
                opt_hz(sai_routed.sai1_clk)
            } else {
                None
            },
            sai2_clk: if self.variant.has_sai {
                opt_hz(sai_routed.sai2_clk)
            } else {
                None
            },
        };

        Ok(
            ClockPlan {
                hse: self.hse,
                hse_bypass: self.hse_bypass,
                pll: PllPlan { main, i2s: i2s_pll, sai: sai_pll },
                flash_latency,
                overdrive,
                i2s: i2s_routed,
                sai: sai_routed,
                prescalers: PrescalerPlan {
                    hpre_bits: hpre.0,
                    hpre_div: hpre.1,
                    ppre1_bits: ppre1.0,
                    ppre1_div: ppre1.1,
                    ppre2_bits: ppre2.0,
                    ppre2_div: ppre2.1,
                },
                sysclk_source,
                clocks,
            },
        )
    }

    /// What `freeze` promises of the snapshot it hands out: every
    /// frequency domain matches the resolved divider chain, and the
    /// 48 MHz line is present exactly when the main PLL is engaged.
    pub open spec fn snapshot_ok(&self, c: Clocks) -> bool {
        &&& c.sysclk.0 == self.sys_target()
        &&& c.hclk.0 == self.spec_hclk()
        &&& c.pclk1.0 == self.spec_pclk1()
        &&& c.pclk2.0 == self.spec_pclk2()
        &&& c.timclk1.0 == self.spec_timclk1()
        &&& c.timclk2.0 == self.spec_timclk2()
        &&& (c.pll48clk is Some <==> self.need_main_pll())
        &&& (self.pll48clk ==> c.spec_pll48clk_valid())
    }

    /// Checked resolution that keeps only the frozen snapshot.
    pub fn freeze(self) -> (r: Result<Clocks, RccError>)
        requires
            self.wf(),
            self.spec_hclk() >= 1,
        ensures
            match r {
                Ok(c) => self.spec_resolve_error(false) is None && self.snapshot_ok(c),
                Err(e) => self.spec_resolve_error(false) == Some(e),
            },
    {
        match self.resolve() {
            Ok(plan) => Ok(plan.clocks),
            Err(e) => Err(e),
        }
    }

    /// Unchecked resolution that keeps only the frozen snapshot.
    pub fn freeze_unchecked(self) -> (r: Result<Clocks, RccError>)
        requires
            self.wf(),
            self.spec_hclk() >= 1,
        ensures
            match r {
                Ok(c) => self.spec_resolve_error(true) is None && self.snapshot_ok(c),
                Err(e) => self.spec_resolve_error(true) == Some(e),
            },
    {
        match self.resolve_unchecked() {
            Ok(plan) => Ok(plan.clocks),
            Err(e) => Err(e),
        }
    }
}

/// An APB bus divided by more than one runs at no more than half the AHB
/// frequency, so doubling it for the timers cannot overflow.
proof fn lemma_apb_half(hclk: int, div: int)
    requires
        0 <= hclk,
        1 <= div,
    ensures
        2 <= div ==> 2 * (hclk / div) <= hclk,
{
    if 2 <= div {
        assert(2 * (hclk / div) <= hclk) by (nonlinear_arith)
            requires
                0 <= hclk,
                2 <= div,
        ;
    }
}

} // verus!
