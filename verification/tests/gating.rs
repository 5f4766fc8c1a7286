//! Bus gating: enable, low-power enable, reset, and their independence.

use stm32_rcc::gates::{
    enable_gate, gate_is_enabled, Bus, BusGate, Enable, LPEnable, RccExt, RccRegisters, Reset,
    GPIOA, TIM2, TIM3, USART2,
};
use stm32_rcc::variant::ChipVariant;

#[test]
fn enable_is_observed_and_disable_is_observed() {
    let mut rcc = RccRegisters::new(ChipVariant::f407());
    assert!(!TIM2::is_enabled(&rcc));
    assert!(TIM2::is_disabled(&rcc));
    TIM2::enable(&mut rcc);
    assert!(TIM2::is_enabled(&rcc));
    assert!(!TIM2::is_disabled(&rcc));
    TIM2::disable(&mut rcc);
    assert!(!TIM2::is_enabled(&rcc));
}

#[test]
fn gating_one_peripheral_leaves_its_neighbours_alone() {
    let mut rcc = RccRegisters::new(ChipVariant::f407());
    // USART2 shares TIM2's register; GPIOA lives on another bus.
    USART2::enable(&mut rcc);
    GPIOA::enable(&mut rcc);
    TIM2::enable(&mut rcc);
    assert!(USART2::is_enabled(&rcc));
    assert!(GPIOA::is_enabled(&rcc));
    assert!(TIM2::is_enabled(&rcc));
    TIM2::disable(&mut rcc);
    assert!(!TIM2::is_enabled(&rcc));
    assert!(USART2::is_enabled(&rcc));
    assert!(GPIOA::is_enabled(&rcc));
    assert!(!TIM3::is_enabled(&rcc));
}

#[test]
fn reset_leaves_the_enable_state_unchanged() {
    let mut rcc = RccRegisters::new(ChipVariant::f407());
    TIM2::enable(&mut rcc);
    TIM2::reset(&mut rcc);
    assert!(TIM2::is_enabled(&rcc));
    // The pulse is withdrawn: the reset bit reads clear afterwards.
    assert_eq!(rcc.apb1.rstr, 0);
    TIM2::disable(&mut rcc);
    TIM2::reset(&mut rcc);
    assert!(!TIM2::is_enabled(&rcc));
}

#[test]
fn low_power_gating_is_independent_of_run_mode_gating() {
    let mut rcc = RccRegisters::new(ChipVariant::f407());
    TIM2::enable_in_low_power(&mut rcc);
    assert!(TIM2::is_enabled_in_low_power(&rcc));
    assert!(!TIM2::is_enabled(&rcc));
    TIM2::disable_in_low_power(&mut rcc);
    assert!(TIM2::is_disabled_in_low_power(&rcc));
}

#[test]
fn gates_can_also_be_driven_by_descriptor() {
    let mut rcc = RccRegisters::new(ChipVariant::f407());
    let g = BusGate { bus: Bus::Apb2, bit: 14 };
    enable_gate(&mut rcc, g);
    assert!(gate_is_enabled(&rcc, g));
    assert_eq!(rcc.apb2.enr, 1 << 14);
}

#[test]
fn constrain_pairs_a_fresh_builder_with_the_registers() {
    let rcc = RccRegisters::new(ChipVariant::f407()).constrain();
    assert_eq!(rcc.cfgr.sysclk, None);
    assert_eq!(rcc.cfgr.hse, None);
    assert_eq!(rcc.regs.apb1.enr, 0);
    let plan = rcc.cfgr.resolve().unwrap();
    assert_eq!(plan.clocks.sysclk().raw(), 16_000_000);
}
