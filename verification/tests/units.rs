//! Frequencies, prescaler codes, and timer arithmetic.

use stm32_rcc::clocks::Clocks;
use stm32_rcc::gates::{BusClock, BusTimerClock, AHB1, APB1, APB2};
use stm32_rcc::hertz::Hertz;
use stm32_rcc::prescaler::{ahb_prescaler, apb_prescaler};
use stm32_rcc::rcc::CFGR;
use stm32_rcc::timer::{syst_reload, timer_dividers, Instant, MonoTimer};
use stm32_rcc::variant::ChipVariant;

#[test]
fn hertz_constructors_agree() {
    assert_eq!(Hertz::from_raw(8_000_000).raw(), 8_000_000);
    assert_eq!(Hertz::khz(25).raw(), 25_000);
    assert_eq!(Hertz::mhz(8), Hertz::from_raw(8_000_000));
}

#[test]
fn ahb_prescaler_picks_the_next_divisor_up() {
    // Exact ratios map to themselves.
    assert_eq!(ahb_prescaler(168_000_000, 168_000_000), (0b0000, 1));
    assert_eq!(ahb_prescaler(168_000_000, 84_000_000), (0b1000, 2));
    assert_eq!(ahb_prescaler(168_000_000, 42_000_000), (0b1001, 4));
    // A ratio between divisors rounds up to the next one, never above the
    // target: 168 / 3 asks for ratio 4.
    assert_eq!(ahb_prescaler(168_000_000, 56_000_000), (0b1001, 4));
    // The set has no divisor 32: ratio 32 jumps to 64.
    assert_eq!(ahb_prescaler(6_400_000, 200_000), (0b1100, 64));
    // Very large ratios saturate at 512; only then may the result exceed
    // the target.
    assert_eq!(ahb_prescaler(16_000_000, 1_000), (0b1111, 512));
}

#[test]
fn apb_prescaler_picks_the_next_divisor_up() {
    assert_eq!(apb_prescaler(84_000_000, 84_000_000), (0b000, 1));
    assert_eq!(apb_prescaler(84_000_000, 42_000_000), (0b100, 2));
    assert_eq!(apb_prescaler(84_000_000, 28_000_000), (0b101, 4));
    assert_eq!(apb_prescaler(84_000_000, 11_000_000), (0b110, 8));
    assert_eq!(apb_prescaler(84_000_000, 1_000_000), (0b111, 16));
}

#[test]
fn syst_reload_counts_one_period() {
    assert_eq!(syst_reload(Hertz::mhz(16), Hertz::khz(1)), 15_999);
    assert_eq!(syst_reload(Hertz::mhz(168), Hertz::from_raw(100)), 1_679_999);
}

#[test]
fn timer_dividers_split_the_period_into_16_bits() {
    // 32 M ticks: prescaler 488 leaves 32 M / 489 = 65439 counts.
    assert_eq!(timer_dividers(Hertz::mhz(32), Hertz::from_raw(1)), (488, 65_439));
    // A short period needs no prescaling at all.
    assert_eq!(timer_dividers(Hertz::mhz(16), Hertz::khz(1)), (0, 16_000));
}

#[test]
fn mono_timer_runs_at_the_ahb_frequency() {
    let clocks = CFGR::new(ChipVariant::f407()).freeze().unwrap();
    let timer = MonoTimer::new(clocks);
    assert_eq!(timer.frequency().raw(), 16_000_000);
    let instant = timer.instant_at(100);
    assert_eq!(instant.elapsed_since(160), 60);
}

#[test]
fn elapsed_ticks_survive_counter_wraparound() {
    let instant = Instant { now: 0xFFFF_FFF0 };
    assert_eq!(instant.elapsed_since(16), 32);
    assert_eq!(instant.elapsed_since(0xFFFF_FFF0), 0);
}

#[test]
fn bus_clocks_read_the_snapshot() {
    let clocks: Clocks = CFGR::new(ChipVariant::f407())
        .use_hse(Hertz::mhz(8))
        .sysclk(Hertz::mhz(168))
        .freeze()
        .unwrap();
    assert_eq!(AHB1::clock(&clocks).raw(), 168_000_000);
    assert_eq!(APB1::clock(&clocks).raw(), 42_000_000);
    assert_eq!(APB2::clock(&clocks).raw(), 84_000_000);
    assert_eq!(APB1::timer_clock(&clocks).raw(), 84_000_000);
    assert_eq!(APB2::timer_clock(&clocks).raw(), 168_000_000);
}

#[test]
fn pll48_validity_tracks_the_tolerance() {
    let valid = CFGR::new(ChipVariant::f407())
        .use_hse(Hertz::mhz(8))
        .sysclk(Hertz::mhz(168))
        .require_pll48clk()
        .freeze()
        .unwrap();
    assert!(valid.is_pll48clk_valid());
    assert_eq!(valid.pll48clk().unwrap().raw(), 48_000_000);

    // Without the requirement the line is still reported, together with
    // an honest validity verdict.
    let unforced = CFGR::new(ChipVariant::f407())
        .use_hse(Hertz::mhz(8))
        .sysclk(Hertz::mhz(168))
        .freeze()
        .unwrap();
    let line = unforced.pll48clk().unwrap().raw();
    let valid = 48_000_000u32.abs_diff(line) <= 120_000;
    assert_eq!(unforced.is_pll48clk_valid(), valid);

    // No PLL, no line: the query answers no rather than failing.
    let none = CFGR::new(ChipVariant::f407()).freeze().unwrap();
    assert!(none.pll48clk().is_none());
    assert!(!none.is_pll48clk_valid());
}
