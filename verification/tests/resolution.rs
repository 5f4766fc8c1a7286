//! Resolution scenarios: oscillator choice, PLL search, prescalers, and
//! the frozen snapshot.

use stm32_rcc::hertz::Hertz;
use stm32_rcc::rcc::{RccError, SysclkSource, CFGR};
use stm32_rcc::variant::ChipVariant;

#[test]
fn hsi_default_runs_everything_at_16_mhz() {
    let plan = CFGR::new(ChipVariant::f407()).resolve().unwrap();
    assert_eq!(plan.clocks.sysclk().raw(), 16_000_000);
    assert_eq!(plan.clocks.hclk().raw(), 16_000_000);
    assert_eq!(plan.clocks.pclk1().raw(), 16_000_000);
    assert_eq!(plan.clocks.pclk2().raw(), 16_000_000);
    assert_eq!(plan.clocks.timclk1().raw(), 16_000_000);
    assert_eq!(plan.clocks.timclk2().raw(), 16_000_000);
    assert!(plan.pll.main.is_none());
    assert!(plan.clocks.pll48clk().is_none());
    assert!(!plan.clocks.is_pll48clk_valid());
    assert!(matches!(plan.sysclk_source, SysclkSource::Hsi));
    assert_eq!(plan.prescalers.hpre_div, 1);
    assert_eq!(plan.prescalers.ppre1_div, 1);
    assert_eq!(plan.prescalers.ppre2_div, 1);
    assert_eq!(plan.flash_latency, 0);
    assert!(!plan.overdrive);
}

#[test]
fn hse_8_mhz_to_168_mhz_with_usb_clock() {
    let plan = CFGR::new(ChipVariant::f407())
        .use_hse(Hertz::mhz(8))
        .sysclk(Hertz::mhz(168))
        .require_pll48clk()
        .resolve()
        .unwrap();
    assert_eq!(plan.clocks.sysclk().raw(), 168_000_000);
    assert_eq!(plan.clocks.hclk().raw(), 168_000_000);
    assert_eq!(plan.prescalers.hpre_div, 1);
    // Default bus targets are the documented maxima.
    assert_eq!(plan.clocks.pclk1().raw(), 42_000_000);
    assert_eq!(plan.clocks.pclk2().raw(), 84_000_000);
    assert_eq!(plan.clocks.timclk1().raw(), 84_000_000);
    assert_eq!(plan.clocks.timclk2().raw(), 168_000_000);
    // The first divisor set in search order: 8 MHz / 4 = 2 MHz input,
    // x168 = 336 MHz VCO, / 2 = 168 MHz system, / 7 = 48 MHz exactly.
    let main = plan.pll.main.unwrap();
    assert_eq!(main.m, 4);
    assert_eq!(main.n, 168);
    assert_eq!(main.p, Some(2));
    assert_eq!(main.q, 7);
    assert_eq!(main.pll48clk, 48_000_000);
    assert_eq!(plan.clocks.pll48clk().unwrap().raw(), 48_000_000);
    assert!(plan.clocks.is_pll48clk_valid());
    assert!(matches!(plan.sysclk_source, SysclkSource::Pll));
    // 168 MHz needs five wait-states at 30 MHz per state.
    assert_eq!(plan.flash_latency, 5);
    assert_eq!(plan.hse, Some(8_000_000));
}

#[test]
fn overclocked_target_fails_checked_and_passes_unchecked() {
    // 216 MHz is divisor-reachable (432 MHz VCO / 2) but above the
    // documented 168 MHz maximum of this chip class.
    let over = || {
        CFGR::new(ChipVariant::f407())
            .use_hse(Hertz::mhz(8))
            .sysclk(Hertz::mhz(216))
    };
    assert_eq!(over().resolve().unwrap_err(), RccError::SysclkOutOfRange);
    let plan = over().resolve_unchecked().unwrap();
    assert_eq!(plan.clocks.sysclk().raw(), 216_000_000);
}

#[test]
fn pll_unreachable_target_is_unsatisfiable() {
    // No legal divisor set reaches 400 MHz: the VCO tops out at 432 MHz
    // and the main output divisor is at least 2.
    let err = CFGR::new(ChipVariant::f407())
        .use_hse(Hertz::mhz(8))
        .sysclk(Hertz::mhz(400))
        .resolve_unchecked()
        .unwrap_err();
    assert_eq!(err, RccError::MainPllUnsatisfiable);
}

#[test]
fn slow_pll_target_is_out_of_documented_range() {
    // 20 MHz is reachable (120 MHz VCO / 6) but below the 24 MHz minimum.
    let err = CFGR::new(ChipVariant::f407())
        .use_hse(Hertz::mhz(8))
        .sysclk(Hertz::mhz(20))
        .resolve()
        .unwrap_err();
    assert_eq!(err, RccError::SysclkOutOfRange);
}

#[test]
fn usb_clock_without_pll_driven_sysclk() {
    // The system clock stays on the internal oscillator; the PLL runs for
    // the 48 MHz line alone.
    let plan = CFGR::new(ChipVariant::f407()).require_pll48clk().resolve().unwrap();
    assert_eq!(plan.clocks.sysclk().raw(), 16_000_000);
    assert!(matches!(plan.sysclk_source, SysclkSource::Hsi));
    let main = plan.pll.main.unwrap();
    assert_eq!(main.p, None);
    assert_eq!(main.pll48clk, 48_000_000);
    assert!(plan.clocks.is_pll48clk_valid());
}

#[test]
fn hse_bypass_is_recorded() {
    let plan = CFGR::new(ChipVariant::f407())
        .use_hse(Hertz::mhz(8))
        .bypass_hse_oscillator()
        .resolve()
        .unwrap();
    assert!(plan.hse_bypass);
    assert!(matches!(plan.sysclk_source, SysclkSource::Hse));
    assert_eq!(plan.clocks.sysclk().raw(), 8_000_000);
}

#[test]
fn requested_bus_frequencies_are_honoured() {
    let plan = CFGR::new(ChipVariant::f407())
        .use_hse(Hertz::mhz(8))
        .sysclk(Hertz::mhz(168))
        .hclk(Hertz::mhz(42))
        .pclk1(Hertz::mhz(21))
        .pclk2(Hertz::mhz(42))
        .resolve()
        .unwrap();
    assert_eq!(plan.prescalers.hpre_div, 4);
    assert_eq!(plan.clocks.hclk().raw(), 42_000_000);
    assert_eq!(plan.prescalers.ppre1_div, 2);
    assert_eq!(plan.clocks.pclk1().raw(), 21_000_000);
    assert_eq!(plan.prescalers.ppre2_div, 1);
    assert_eq!(plan.clocks.pclk2().raw(), 42_000_000);
    // An undivided APB bus clocks its timers at the bus frequency; a
    // divided one at twice the bus frequency.
    assert_eq!(plan.clocks.timclk1().raw(), 42_000_000);
    assert_eq!(plan.clocks.timclk2().raw(), 42_000_000);
}

#[test]
fn fast_peripheral_bus_fails_checked_resolution() {
    let err = CFGR::new(ChipVariant::f407())
        .use_hse(Hertz::mhz(8))
        .sysclk(Hertz::mhz(168))
        .pclk1(Hertz::mhz(84))
        .resolve()
        .unwrap_err();
    assert_eq!(err, RccError::Pclk1OverMax);

    let err = CFGR::new(ChipVariant::f407())
        .use_hse(Hertz::mhz(8))
        .sysclk(Hertz::mhz(168))
        .pclk2(Hertz::mhz(168))
        .resolve()
        .unwrap_err();
    assert_eq!(err, RccError::Pclk2OverMax);

    // The unchecked path accepts both.
    let plan = CFGR::new(ChipVariant::f407())
        .use_hse(Hertz::mhz(8))
        .sysclk(Hertz::mhz(168))
        .pclk1(Hertz::mhz(84))
        .pclk2(Hertz::mhz(168))
        .resolve_unchecked()
        .unwrap();
    assert_eq!(plan.clocks.pclk1().raw(), 84_000_000);
    assert_eq!(plan.clocks.pclk2().raw(), 168_000_000);
}

#[test]
fn overdrive_is_requested_above_the_threshold() {
    let plan = CFGR::new(ChipVariant::f429())
        .use_hse(Hertz::mhz(8))
        .sysclk(Hertz::mhz(180))
        .resolve()
        .unwrap();
    assert!(plan.overdrive);
    assert_eq!(plan.clocks.sysclk().raw(), 180_000_000);

    let plan = CFGR::new(ChipVariant::f429())
        .use_hse(Hertz::mhz(8))
        .sysclk(Hertz::mhz(168))
        .resolve()
        .unwrap();
    assert!(!plan.overdrive);
}

#[test]
fn freeze_keeps_only_the_snapshot() {
    let clocks = CFGR::new(ChipVariant::f407())
        .use_hse(Hertz::mhz(8))
        .sysclk(Hertz::mhz(168))
        .freeze()
        .unwrap();
    assert_eq!(clocks.sysclk().raw(), 168_000_000);

    let err = CFGR::new(ChipVariant::f407())
        .use_hse(Hertz::mhz(8))
        .sysclk(Hertz::mhz(216))
        .freeze()
        .unwrap_err();
    assert_eq!(err, RccError::SysclkOutOfRange);

    let clocks = CFGR::new(ChipVariant::f407())
        .use_hse(Hertz::mhz(8))
        .sysclk(Hertz::mhz(216))
        .freeze_unchecked()
        .unwrap();
    assert_eq!(clocks.sysclk().raw(), 216_000_000);
}

#[test]
fn builder_updates_are_functional() {
    let base = CFGR::new(ChipVariant::f407());
    let with_sys = base.sysclk(Hertz::mhz(100));
    // `base` was consumed by value and `with_sys` differs in one field.
    assert_eq!(with_sys.sysclk, Some(100_000_000));
    assert_eq!(with_sys.hse, None);
    let with_both = with_sys.use_hse(Hertz::mhz(8));
    assert_eq!(with_both.sysclk, Some(100_000_000));
    assert_eq!(with_both.hse, Some(8_000_000));
}
