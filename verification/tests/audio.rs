//! Audio clock routing and the audio PLL search.

use stm32_rcc::audio::{I2sClocks, SaiClocks};
use stm32_rcc::hertz::Hertz;
use stm32_rcc::pll::solve_audio;
use stm32_rcc::rcc::{RccError, CFGR};
use stm32_rcc::variant::ChipVariant;

#[test]
fn selector_marks_pin_matches_external() {
    let sel = CFGR::new(ChipVariant::f407())
        .i2s_ckin(Hertz::mhz(12))
        .i2s_clk(Hertz::mhz(12))
        .i2s_clocks()
        .unwrap();
    // The one shared line feeds both consumers from the pin, and nothing
    // is asked of the PLL.
    assert!(sel.apb1_ext);
    assert!(sel.apb2_ext);
    assert_eq!(sel.pll_i2s_clk, None);

    let sel = CFGR::new(ChipVariant::f407())
        .i2s_ckin(Hertz::mhz(12))
        .i2s_clk(Hertz::mhz(48))
        .i2s_clocks()
        .unwrap();
    assert!(!sel.apb1_ext);
    assert_eq!(sel.pll_i2s_clk, Some(48_000_000));
}

#[test]
fn routing_combines_selection_with_the_solved_line() {
    let sel = I2sClocks { apb1_ext: true, apb2_ext: false, pll_i2s_clk: Some(48_000_000) };
    let routed = sel.routed(Some(47_923_200), Some(12_000_000));
    assert!(routed.apb1.i2s_ext);
    assert_eq!(routed.apb1.i2s_clk, Some(12_000_000));
    assert!(!routed.apb2.i2s_ext);
    assert_eq!(routed.apb2.i2s_clk, Some(47_923_200));

    let sel = SaiClocks { sai1_ext: false, sai2_ext: true, pll_sai_clk: Some(11_294_117) };
    let routed = sel.routed(Some(11_294_117), Some(12_288_000));
    assert!(!routed.sai1_ext);
    assert_eq!(routed.sai1_clk, Some(11_294_117));
    assert!(routed.sai2_ext);
    assert_eq!(routed.sai2_clk, Some(12_288_000));
}

#[test]
fn conflicting_sai_outputs_fail_deterministically() {
    let err = CFGR::new(ChipVariant::f429())
        .saia_clk(Hertz::mhz(12))
        .saib_clk(Hertz::mhz(8))
        .resolve()
        .unwrap_err();
    assert_eq!(err, RccError::SaiPllConflict);
    // The same configuration fails the same way every time, and also on
    // the unchecked path: the conflict is not a limit check.
    let err = CFGR::new(ChipVariant::f429())
        .saia_clk(Hertz::mhz(12))
        .saib_clk(Hertz::mhz(8))
        .resolve_unchecked()
        .unwrap_err();
    assert_eq!(err, RccError::SaiPllConflict);
}

#[test]
fn conflicting_i2s_outputs_fail_deterministically() {
    let err = CFGR::new(ChipVariant::f446())
        .i2s_apb1_clk(Hertz::mhz(12))
        .i2s_apb2_clk(Hertz::mhz(8))
        .resolve()
        .unwrap_err();
    assert_eq!(err, RccError::I2sPllConflict);
}

#[test]
fn equal_shared_line_requests_are_fine() {
    let plan = CFGR::new(ChipVariant::f446())
        .use_hse(Hertz::mhz(8))
        .i2s_apb1_clk(Hertz::mhz(48))
        .i2s_apb2_clk(Hertz::mhz(48))
        .resolve()
        .unwrap();
    assert!(!plan.i2s.apb1.i2s_ext);
    assert!(!plan.i2s.apb2.i2s_ext);
    assert_eq!(plan.i2s.apb1.i2s_clk, Some(48_000_000));
    assert_eq!(plan.i2s.apb2.i2s_clk, Some(48_000_000));
    assert_eq!(plan.clocks.i2s_apb1_clk().unwrap().raw(), 48_000_000);
    assert_eq!(plan.clocks.i2s_apb2_clk().unwrap().raw(), 48_000_000);
    // This variant routes per-bus lines; the shared line is absent.
    assert!(plan.clocks.i2s_clk().is_none());
}

#[test]
fn output_matching_the_external_pin_is_routed_external() {
    let plan = CFGR::new(ChipVariant::f429())
        .i2s_ckin(Hertz::mhz(12))
        .saia_clk(Hertz::mhz(12))
        .saib_clk(Hertz::mhz(48))
        .resolve()
        .unwrap();
    // SAI A rides the pin, so only SAI B asks the PLL line: no conflict.
    assert!(plan.sai.sai1_ext);
    assert!(!plan.sai.sai2_ext);
    assert_eq!(plan.sai.sai1_clk, Some(12_000_000));
    assert_eq!(plan.sai.sai2_clk, Some(48_000_000));
    assert_eq!(plan.clocks.saia_clk().unwrap().raw(), 12_000_000);
    assert_eq!(plan.clocks.saib_clk().unwrap().raw(), 48_000_000);
    let sai = plan.pll.sai.unwrap();
    assert_eq!(sai.clk, 48_000_000);
}

#[test]
fn shared_i2s_line_cannot_conflict() {
    // On single-line chips both I2S consumers see one request.
    let plan = CFGR::new(ChipVariant::f407())
        .use_hse(Hertz::mhz(8))
        .i2s_clk(Hertz::mhz(48))
        .resolve()
        .unwrap();
    assert_eq!(plan.clocks.i2s_clk().unwrap().raw(), 48_000_000);
    assert!(plan.clocks.i2s_apb1_clk().is_none());
    assert!(plan.clocks.i2s_apb2_clk().is_none());
}

#[test]
fn independent_sai2_ignores_the_external_pin() {
    // On this variant the second SAI line cannot reach the pin: a request
    // equal to the pin frequency still goes to the PLL line.
    let plan = CFGR::new(ChipVariant::f446())
        .i2s_ckin(Hertz::mhz(16))
        .sai2_clk(Hertz::mhz(16))
        .resolve()
        .unwrap();
    assert!(!plan.sai.sai2_ext);
    assert_eq!(plan.pll.sai.unwrap().clk, 16_000_000);
}

#[test]
fn audio_pll_finds_exact_divisors() {
    // 8 MHz / 4 = 2 MHz, x72 = 144 MHz VCO, / 3 = 48 MHz exactly; this is
    // the first exact configuration in search order.
    let a = solve_audio(8_000_000, 48_000_000).unwrap();
    assert_eq!((a.m, a.n, a.r, a.clk), (4, 72, 3, 48_000_000));
}

#[test]
fn audio_pll_approximates_unreachable_targets() {
    // The audio PLL cannot go below 100/7 MHz, so a 1 MHz request gets
    // the closest legal output: the lowest one.
    let a = solve_audio(8_000_000, 1_000_000).unwrap();
    assert_eq!(a.clk, 100_000_000 / 7);
    assert_eq!((a.m, a.n, a.r), (4, 50, 7));
}

#[test]
fn audio_pll_needs_a_legal_input() {
    // A 500 kHz oscillator cannot be brought into the 1-2 MHz input band.
    assert!(solve_audio(500_000, 48_000_000).is_none());
    let err = CFGR::new(ChipVariant::f407())
        .use_hse(Hertz::from_raw(500_000))
        .i2s_clk(Hertz::mhz(48))
        .resolve()
        .unwrap_err();
    assert_eq!(err, RccError::I2sPllUnsatisfiable);
    let err = CFGR::new(ChipVariant::f429())
        .use_hse(Hertz::from_raw(500_000))
        .saia_clk(Hertz::mhz(8))
        .resolve()
        .unwrap_err();
    assert_eq!(err, RccError::SaiPllUnsatisfiable);
}

#[test]
fn sai_requests_without_sai_hardware_are_ignored() {
    let plan = CFGR::new(ChipVariant::f407())
        .saia_clk(Hertz::mhz(12))
        .saib_clk(Hertz::mhz(8))
        .resolve()
        .unwrap();
    assert!(plan.pll.sai.is_none());
    assert!(plan.clocks.sai1_clk().is_none());
    assert!(plan.clocks.sai2_clk().is_none());
}
