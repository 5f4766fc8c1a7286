//! The bus-gate registry and its register model.
//!
//! Every peripheral lives on one of five buses, and each bus has three
//! shared control registers: clock enable, low-power clock enable, and
//! reset.  One peripheral owns exactly one bit in each, so a gating
//! operation must change its own bit and nothing else — on hardware this is
//! done with an atomic single-bit primitive precisely so that two execution
//! contexts touching different peripherals of the same register cannot lose
//! each other's update.
//!
//! [`RccRegisters`] models the gating state of the clock-control block as
//! plain register words.  Every operation here is proved to set, clear or
//! read exactly the addressed bit and to leave every neighbouring bit and
//! every other register unchanged; the unverified hardware layer mirrors
//! each operation with the corresponding atomic bit-band write.

use vstd::prelude::*;
use crate::clocks::Clocks;
use crate::hertz::Hertz;
use crate::rcc::{Rcc, CFGR};
use crate::variant::ChipVariant;

verus! {

/// The five peripheral buses.
#[derive(Clone, Copy, Debug, PartialEq, Eq, Structural)]
pub enum Bus {
    /// First high-performance bus.
    Ahb1,
    /// Second high-performance bus.
    Ahb2,
    /// Third high-performance bus.
    Ahb3,
    /// First peripheral bus.
    Apb1,
    /// Second peripheral bus.
    Apb2,
}

/// One peripheral's gate: the bus it lives on and its bit index within
/// that bus's three control registers.
#[derive(Clone, Copy, Debug, PartialEq, Eq, Structural)]
pub struct BusGate {
    /// The bus whose registers hold the peripheral's bits.
    pub bus: Bus,
    /// The bit index, shared by the enable, low-power and reset registers.
    pub bit: u32,
}

impl BusGate {
    /// The bit index addresses a bit of a 32-bit register.
    pub open spec fn wf(&self) -> bool {
        self.bit < 32
    }
}

/// The three gating registers of one bus.
#[derive(Clone, Copy, Debug, PartialEq, Eq, Structural)]
pub struct GateRegs {
    /// Clock enable register.
    pub enr: u32,
    /// Low-power (sleep mode) clock enable register.
    pub lpenr: u32,
    /// Reset register.
    pub rstr: u32,
}

/// Model of the gating registers of the clock-control block, together with
/// the chip-variant parameters the block was taken with.  There is one such
/// value per program: it stands for exclusive ownership of the block.
#[derive(Clone, Copy, Debug)]
pub struct RccRegisters {
    /// The chip-variant parameters.
    pub variant: ChipVariant,
    /// Registers of the first high-performance bus.
    pub ahb1: GateRegs,
    /// Registers of the second high-performance bus.
    pub ahb2: GateRegs,
    /// Registers of the third high-performance bus.
    pub ahb3: GateRegs,
    /// Registers of the first peripheral bus.
    pub apb1: GateRegs,
    /// Registers of the second peripheral bus.
    pub apb2: GateRegs,
}

/// The register triple of one bus.
pub open spec fn spec_regs_of(rcc: RccRegisters, b: Bus) -> GateRegs {
    match b {
        Bus::Ahb1 => rcc.ahb1,
        Bus::Ahb2 => rcc.ahb2,
        Bus::Ahb3 => rcc.ahb3,
        Bus::Apb1 => rcc.apb1,
        Bus::Apb2 => rcc.apb2,
    }
}

/// The word with bit `i` set in `r`.
pub open spec fn set_bit(r: u32, i: u32) -> u32 {
    r | (1u32 << i)
}

/// The word with bit `i` cleared in `r`.
pub open spec fn clear_bit(r: u32, i: u32) -> u32 {
    r & !(1u32 << i)
}

/// Bit `i` of `r` is set.
pub open spec fn bit_test(r: u32, i: u32) -> bool {
    r & (1u32 << i) != 0
}

/// Setting one bit makes exactly that bit read back as set: every other
/// bit keeps its value.
pub proof fn lemma_set_bit(r: u32, i: u32, j: u32)
    requires
        i < 32,
        j < 32,
    ensures
        bit_test(set_bit(r, i), i),
        i != j ==> bit_test(set_bit(r, i), j) == bit_test(r, j),
{
    assert((r | (1u32 << i)) & (1u32 << i) != 0) by (bit_vector)
        requires
            i < 32,
    ;
    assert(i != j ==> ((r | (1u32 << i)) & (1u32 << j) != 0) == (r & (1u32 << j) != 0))
        by (bit_vector)
        requires
            i < 32,
            j < 32,
    ;
}

/// Clearing one bit makes exactly that bit read back as clear: every other
/// bit keeps its value.
pub proof fn lemma_clear_bit(r: u32, i: u32, j: u32)
    requires
        i < 32,
        j < 32,
    ensures
        !bit_test(clear_bit(r, i), i),
        i != j ==> bit_test(clear_bit(r, i), j) == bit_test(r, j),
{
    assert((r & !(1u32 << i)) & (1u32 << i) == 0) by (bit_vector)
        requires
            i < 32,
    ;
    assert(i != j ==> ((r & !(1u32 << i)) & (1u32 << j) != 0) == (r & (1u32 << j) != 0))
        by (bit_vector)
        requires
            i < 32,
            j < 32,
    ;
}

/// The peripheral's clock is enabled in the model.
pub open spec fn gate_enabled(rcc: RccRegisters, g: BusGate) -> bool {
    bit_test(spec_regs_of(rcc, g.bus).enr, g.bit)
}

/// The peripheral's clock stays on in sleep mode in the model.
pub open spec fn gate_lp_enabled(rcc: RccRegisters, g: BusGate) -> bool {
    bit_test(spec_regs_of(rcc, g.bus).lpenr, g.bit)
}

/// All buses except the addressed one hold the same register values as
/// before, and the chip parameters are the same as before.
pub open spec fn other_buses_unchanged(o: RccRegisters, n: RccRegisters, g: BusGate) -> bool {
    &&& n.variant == o.variant
    &&& forall|b: Bus| b != g.bus ==> #[trigger] spec_regs_of(n, b) == spec_regs_of(o, b)
}

/// Only the addressed bit of the clock-enable register changed: its
/// neighbours, the other two registers of the bus, and every other bus
/// keep their values.
pub open spec fn only_enr_bit_changed(o: RccRegisters, n: RccRegisters, g: BusGate) -> bool {
    &&& other_buses_unchanged(o, n, g)
    &&& spec_regs_of(n, g.bus).lpenr == spec_regs_of(o, g.bus).lpenr
    &&& spec_regs_of(n, g.bus).rstr == spec_regs_of(o, g.bus).rstr
    &&& forall|j: u32|
        j < 32 && j != g.bit ==> #[trigger] bit_test(spec_regs_of(n, g.bus).enr, j) == bit_test(
            spec_regs_of(o, g.bus).enr,
            j,
        )
}

/// Only the addressed bit of the low-power enable register changed.
pub open spec fn only_lpenr_bit_changed(o: RccRegisters, n: RccRegisters, g: BusGate) -> bool {
    &&& other_buses_unchanged(o, n, g)
    &&& spec_regs_of(n, g.bus).enr == spec_regs_of(o, g.bus).enr
    &&& spec_regs_of(n, g.bus).rstr == spec_regs_of(o, g.bus).rstr
    &&& forall|j: u32|
        j < 32 && j != g.bit ==> #[trigger] bit_test(spec_regs_of(n, g.bus).lpenr, j) == bit_test(
            spec_regs_of(o, g.bus).lpenr,
            j,
        )
}

/// Only the addressed bit of the reset register changed; in particular the
/// enable registers — and with them the gating state — are untouched.
pub open spec fn only_rstr_bit_changed(o: RccRegisters, n: RccRegisters, g: BusGate) -> bool {
    &&& other_buses_unchanged(o, n, g)
    &&& spec_regs_of(n, g.bus).enr == spec_regs_of(o, g.bus).enr
    &&& spec_regs_of(n, g.bus).lpenr == spec_regs_of(o, g.bus).lpenr
    &&& forall|j: u32|
        j < 32 && j != g.bit ==> #[trigger] bit_test(spec_regs_of(n, g.bus).rstr, j) == bit_test(
            spec_regs_of(o, g.bus).rstr,
            j,
        )
}

/// Law: a gating operation on one peripheral is invisible to every other
/// peripheral.  Two gates never share a bit, only a register, so after a
/// step that changed one gate's enable bit alone, every other gate reads
/// back exactly as before.
pub proof fn lemma_gating_is_per_peripheral(
    o: RccRegisters,
    n: RccRegisters,
    g: BusGate,
    other: BusGate,
)
    requires
        g.wf(),
        other.wf(),
        other != g,
        only_enr_bit_changed(o, n, g),
    ensures
        gate_enabled(n, other) == gate_enabled(o, other),
        gate_lp_enabled(n, other) == gate_lp_enabled(o, other),
{
    if other.bus != g.bus {
        assert(spec_regs_of(n, other.bus) == spec_regs_of(o, other.bus));
    } else {
        assert(bit_test(spec_regs_of(n, g.bus).enr, other.bit) == bit_test(
            spec_regs_of(o, g.bus).enr,
            other.bit,
        ));
    }
}

/// Law: a reset pulse leaves the gating state unchanged.  After a step
/// that changed one gate's reset bit alone, every gate — the pulsed one
/// included — observes the same enable and low-power state as before:
/// reset and gating are independent.
pub proof fn lemma_reset_preserves_gating(
    o: RccRegisters,
    n: RccRegisters,
    pulsed: BusGate,
    g: BusGate,
)
    requires
        pulsed.wf(),
        g.wf(),
        only_rstr_bit_changed(o, n, pulsed),
    ensures
        gate_enabled(n, g) == gate_enabled(o, g),
        gate_lp_enabled(n, g) == gate_lp_enabled(o, g),
{
    if g.bus != pulsed.bus {
        assert(spec_regs_of(n, g.bus) == spec_regs_of(o, g.bus));
    }
}

/// Sets bit `bit` of the enable register, leaving the other registers
/// alone.
fn regs_enable(r: &mut GateRegs, bit: u32)
    requires
        bit < 32,
    ensures
        final (r).enr == set_bit(old(r).enr, bit),
        final (r).lpenr == old(r).lpenr,
        final (r).rstr == old(r).rstr,
{
    r.enr = r.enr | (1u32 << bit);
}

/// Clears bit `bit` of the enable register.
fn regs_disable(r: &mut GateRegs, bit: u32)
    requires
        bit < 32,
    ensures
        final (r).enr == clear_bit(old(r).enr, bit),
        final (r).lpenr == old(r).lpenr,
        final (r).rstr == old(r).rstr,
{
    r.enr = r.enr & !(1u32 << bit);
}

/// Sets bit `bit` of the low-power enable register.
fn regs_lp_enable(r: &mut GateRegs, bit: u32)
    requires
        bit < 32,
    ensures
        final (r).lpenr == set_bit(old(r).lpenr, bit),
        final (r).enr == old(r).enr,
        final (r).rstr == old(r).rstr,
{
    r.lpenr = r.lpenr | (1u32 << bit);
}

/// Clears bit `bit` of the low-power enable register.
fn regs_lp_disable(r: &mut GateRegs, bit: u32)
    requires
        bit < 32,
    ensures
        final (r).lpenr == clear_bit(old(r).lpenr, bit),
        final (r).enr == old(r).enr,
        final (r).rstr == old(r).rstr,
{
    r.lpenr = r.lpenr & !(1u32 << bit);
}

/// Pulses bit `bit` of the reset register: asserts it, then withdraws it.
/// On hardware a barrier stands between the two writes so the peripheral
/// observes the pulse; in the model the bit ends up clear.
fn regs_reset(r: &mut GateRegs, bit: u32)
    requires
        bit < 32,
    ensures
        final (r).rstr == clear_bit(set_bit(old(r).rstr, bit), bit),
        final (r).enr == old(r).enr,
        final (r).lpenr == old(r).lpenr,
{
    r.rstr = r.rstr | (1u32 << bit);
    r.rstr = r.rstr & !(1u32 << bit);
}

/// Enables the peripheral's clock: afterwards its gate reads as enabled,
/// and no other bit of the model changed.
pub fn enable_gate(rcc: &mut RccRegisters, g: BusGate)
    requires
        g.wf(),
    ensures
        gate_enabled(*final (rcc), g),
        only_enr_bit_changed(*old(rcc), *final (rcc), g),
{
    match g.bus {
        Bus::Ahb1 => regs_enable(&mut rcc.ahb1, g.bit),
        Bus::Ahb2 => regs_enable(&mut rcc.ahb2, g.bit),
        Bus::Ahb3 => regs_enable(&mut rcc.ahb3, g.bit),
        Bus::Apb1 => regs_enable(&mut rcc.apb1, g.bit),
        Bus::Apb2 => regs_enable(&mut rcc.apb2, g.bit),
    }
    proof {
        lemma_set_bit(spec_regs_of(*old(rcc), g.bus).enr, g.bit, g.bit);
        assert forall|j: u32| j < 32 && j != g.bit implies #[trigger] bit_test(
            spec_regs_of(*rcc, g.bus).enr,
            j,
        ) == bit_test(spec_regs_of(*old(rcc), g.bus).enr, j) by {
            lemma_set_bit(spec_regs_of(*old(rcc), g.bus).enr, g.bit, j);
        }
    }
}

/// Disables the peripheral's clock: afterwards its gate reads as disabled,
/// and no other bit of the model changed.
pub fn disable_gate(rcc: &mut RccRegisters, g: BusGate)
    requires
        g.wf(),
    ensures
        !gate_enabled(*final (rcc), g),
        only_enr_bit_changed(*old(rcc), *final (rcc), g),
{
    match g.bus {
        Bus::Ahb1 => regs_disable(&mut rcc.ahb1, g.bit),
        Bus::Ahb2 => regs_disable(&mut rcc.ahb2, g.bit),
        Bus::Ahb3 => regs_disable(&mut rcc.ahb3, g.bit),
        Bus::Apb1 => regs_disable(&mut rcc.apb1, g.bit),
        Bus::Apb2 => regs_disable(&mut rcc.apb2, g.bit),
    }
    proof {
        lemma_clear_bit(spec_regs_of(*old(rcc), g.bus).enr, g.bit, g.bit);
        assert forall|j: u32| j < 32 && j != g.bit implies #[trigger] bit_test(
            spec_regs_of(*rcc, g.bus).enr,
            j,
        ) == bit_test(spec_regs_of(*old(rcc), g.bus).enr, j) by {
            lemma_clear_bit(spec_regs_of(*old(rcc), g.bus).enr, g.bit, j);
        }
    }
}

/// Reads the peripheral's clock-enable bit.
pub fn gate_is_enabled(rcc: &RccRegisters, g: BusGate) -> (r: bool)
    requires
        g.wf(),
    ensures
        r == gate_enabled(*rcc, g),
{
    let regs: GateRegs = match g.bus {
        Bus::Ahb1 => rcc.ahb1,
        Bus::Ahb2 => rcc.ahb2,
        Bus::Ahb3 => rcc.ahb3,
        Bus::Apb1 => rcc.apb1,
        Bus::Apb2 => rcc.apb2,
    };
    regs.enr & (1u32 << g.bit) != 0
}

/// Enables the peripheral's clock in sleep mode.
pub fn lp_enable_gate(rcc: &mut RccRegisters, g: BusGate)
    requires
        g.wf(),
    ensures
        gate_lp_enabled(*final (rcc), g),
        only_lpenr_bit_changed(*old(rcc), *final (rcc), g),
{
    match g.bus {
        Bus::Ahb1 => regs_lp_enable(&mut rcc.ahb1, g.bit),
        Bus::Ahb2 => regs_lp_enable(&mut rcc.ahb2, g.bit),
        Bus::Ahb3 => regs_lp_enable(&mut rcc.ahb3, g.bit),
        Bus::Apb1 => regs_lp_enable(&mut rcc.apb1, g.bit),
        Bus::Apb2 => regs_lp_enable(&mut rcc.apb2, g.bit),
    }
    proof {
        lemma_set_bit(spec_regs_of(*old(rcc), g.bus).lpenr, g.bit, g.bit);
        assert forall|j: u32| j < 32 && j != g.bit implies #[trigger] bit_test(
            spec_regs_of(*rcc, g.bus).lpenr,
            j,
        ) == bit_test(spec_regs_of(*old(rcc), g.bus).lpenr, j) by {
            lemma_set_bit(spec_regs_of(*old(rcc), g.bus).lpenr, g.bit, j);
        }
    }
}

/// Disables the peripheral's clock in sleep mode.
pub fn lp_disable_gate(rcc: &mut RccRegisters, g: BusGate)
    requires
        g.wf(),
    ensures
        !gate_lp_enabled(*final (rcc), g),
        only_lpenr_bit_changed(*old(rcc), *final (rcc), g),
{
    match g.bus {
        Bus::Ahb1 => regs_lp_disable(&mut rcc.ahb1, g.bit),
        Bus::Ahb2 => regs_lp_disable(&mut rcc.ahb2, g.bit),
        Bus::Ahb3 => regs_lp_disable(&mut rcc.ahb3, g.bit),
        Bus::Apb1 => regs_lp_disable(&mut rcc.apb1, g.bit),
        Bus::Apb2 => regs_lp_disable(&mut rcc.apb2, g.bit),
    }
    proof {
        lemma_clear_bit(spec_regs_of(*old(rcc), g.bus).lpenr, g.bit, g.bit);
        assert forall|j: u32| j < 32 && j != g.bit implies #[trigger] bit_test(
            spec_regs_of(*rcc, g.bus).lpenr,
            j,
        ) == bit_test(spec_regs_of(*old(rcc), g.bus).lpenr, j) by {
            lemma_clear_bit(spec_regs_of(*old(rcc), g.bus).lpenr, g.bit, j);
        }
    }
}

/// Reads the peripheral's low-power enable bit.
pub fn gate_is_lp_enabled(rcc: &RccRegisters, g: BusGate) -> (r: bool)
    requires
        g.wf(),
    ensures
        r == gate_lp_enabled(*rcc, g),
{
    let regs: GateRegs = match g.bus {
        Bus::Ahb1 => rcc.ahb1,
        Bus::Ahb2 => rcc.ahb2,
        Bus::Ahb3 => rcc.ahb3,
        Bus::Apb1 => rcc.apb1,
        Bus::Apb2 => rcc.apb2,
    };
    regs.lpenr & (1u32 << g.bit) != 0
}

/// Pulses the peripheral's reset bit: asserted, then withdrawn.  The
/// enable registers — and with them the gating state — are untouched, so
/// reset and gating stay independent.
pub fn reset_gate(rcc: &mut RccRegisters, g: BusGate)
    requires
        g.wf(),
    ensures
        !bit_test(spec_regs_of(*final (rcc), g.bus).rstr, g.bit),
        only_rstr_bit_changed(*old(rcc), *final (rcc), g),
{
    match g.bus {
        Bus::Ahb1 => regs_reset(&mut rcc.ahb1, g.bit),
        Bus::Ahb2 => regs_reset(&mut rcc.ahb2, g.bit),
        Bus::Ahb3 => regs_reset(&mut rcc.ahb3, g.bit),
        Bus::Apb1 => regs_reset(&mut rcc.apb1, g.bit),
        Bus::Apb2 => regs_reset(&mut rcc.apb2, g.bit),
    }
    proof {
        let mid = set_bit(spec_regs_of(*old(rcc), g.bus).rstr, g.bit);
        lemma_clear_bit(mid, g.bit, g.bit);
        assert forall|j: u32| j < 32 && j != g.bit implies #[trigger] bit_test(
            spec_regs_of(*rcc, g.bus).rstr,
            j,
        ) == bit_test(spec_regs_of(*old(rcc), g.bus).rstr, j) by {
            lemma_set_bit(spec_regs_of(*old(rcc), g.bus).rstr, g.bit, j);
            lemma_clear_bit(mid, g.bit, j);
        }
    }
}

impl RccRegisters {
    /// Takes the clock-control block for the given chip variant, with all
    /// gating bits clear.
    pub fn new(variant: ChipVariant) -> (r: RccRegisters)
        ensures
            r == RccRegisters::spec_new(variant),
    {
        RccRegisters {
            variant,
            ahb1: GateRegs { enr: 0, lpenr: 0, rstr: 0 },
            ahb2: GateRegs { enr: 0, lpenr: 0, rstr: 0 },
            ahb3: GateRegs { enr: 0, lpenr: 0, rstr: 0 },
            apb1: GateRegs { enr: 0, lpenr: 0, rstr: 0 },
            apb2: GateRegs { enr: 0, lpenr: 0, rstr: 0 },
        }
    }

    /// The freshly taken block: all gating bits clear.
    pub open spec fn spec_new(variant: ChipVariant) -> RccRegisters {
        RccRegisters {
            variant,
            ahb1: GateRegs { enr: 0, lpenr: 0, rstr: 0 },
            ahb2: GateRegs { enr: 0, lpenr: 0, rstr: 0 },
            ahb3: GateRegs { enr: 0, lpenr: 0, rstr: 0 },
            apb1: GateRegs { enr: 0, lpenr: 0, rstr: 0 },
            apb2: GateRegs { enr: 0, lpenr: 0, rstr: 0 },
        }
    }
}

impl crate::Sealed for RccRegisters {

}

/// Extension trait that constrains the clock-control block: the block is
/// consumed and comes back as an [`Rcc`] holding a fresh configuration
/// builder beside it.  Sealed: only the register model implements it.
pub trait RccExt: crate::Sealed {
    /// The constrained value `constrain` returns.
    spec fn spec_constrain(self) -> Rcc;

    /// Constrains the block so it works with the rest of the abstractions.
    fn constrain(self) -> (r: Rcc)
        ensures
            r == self.spec_constrain(),
    ;
}

impl RccExt for RccRegisters {
    open spec fn spec_constrain(self) -> Rcc {
        Rcc { cfgr: CFGR::spec_new(self.variant), regs: self }
    }

    fn constrain(self) -> (r: Rcc) {
        Rcc { cfgr: CFGR::new(self.variant), regs: self }
    }
}

/// First high-performance bus registers.
#[non_exhaustive]
pub struct AHB1;

/// Second high-performance bus registers.
#[non_exhaustive]
pub struct AHB2;

/// Third high-performance bus registers.
#[non_exhaustive]
pub struct AHB3;

/// First peripheral bus registers.
#[non_exhaustive]
pub struct APB1;

/// Second peripheral bus registers.
#[non_exhaustive]
pub struct APB2;

impl AHB3 {
    /// Reads the bus's clock enable register.
    pub fn enr(rcc: &RccRegisters) -> (r: u32)
        ensures
            r == rcc.ahb3.enr,
    {
        rcc.ahb3.enr
    }

    /// Reads the bus's low-power enable register.
    pub fn lpenr(rcc: &RccRegisters) -> (r: u32)
        ensures
            r == rcc.ahb3.lpenr,
    {
        rcc.ahb3.lpenr
    }

    /// Reads the bus's reset register.
    pub fn rstr(rcc: &RccRegisters) -> (r: u32)
        ensures
            r == rcc.ahb3.rstr,
    {
        rcc.ahb3.rstr
    }
}

/// Maps a peripheral type to its bus and to its bit in that bus's control
/// registers: the one table the gating capability works from.
pub trait RccBus {
    /// The bus the peripheral lives on.
    type Bus;

    /// The peripheral's gate.
    spec fn spec_gate() -> BusGate;

    /// Returns the peripheral's gate.
    fn gate() -> (g: BusGate)
        ensures
            g == Self::spec_gate(),
            g.wf(),
    ;
}

/// Clock gating of one peripheral.  Callers hold the register model — the
/// evidence of access to the shared clock-control block — by reference.
pub trait Enable: RccBus {
    /// Enables the peripheral's clock.
    fn enable(rcc: &mut RccRegisters)
        ensures
            gate_enabled(*final (rcc), Self::spec_gate()),
            only_enr_bit_changed(*old(rcc), *final (rcc), Self::spec_gate()),
    ;

    /// Disables the peripheral's clock.
    fn disable(rcc: &mut RccRegisters)
        ensures
            !gate_enabled(*final (rcc), Self::spec_gate()),
            only_enr_bit_changed(*old(rcc), *final (rcc), Self::spec_gate()),
    ;

    /// Checks whether the peripheral's clock is enabled.
    fn is_enabled(rcc: &RccRegisters) -> (r: bool)
        ensures
            r == gate_enabled(*rcc, Self::spec_gate()),
    ;

    /// Checks whether the peripheral's clock is disabled.
    fn is_disabled(rcc: &RccRegisters) -> (r: bool)
        ensures
            r == !gate_enabled(*rcc, Self::spec_gate()),
    ;
}

impl<P: RccBus> Enable for P {
    fn enable(rcc: &mut RccRegisters) {
        enable_gate(rcc, P::gate());
    }

    fn disable(rcc: &mut RccRegisters) {
        disable_gate(rcc, P::gate());
    }

    fn is_enabled(rcc: &RccRegisters) -> (r: bool) {
        gate_is_enabled(rcc, P::gate())
    }

    fn is_disabled(rcc: &RccRegisters) -> (r: bool) {
        !gate_is_enabled(rcc, P::gate())
    }
}

/// Low-power clock gating of one peripheral: whether its clock stays on
/// while the core sleeps.
pub trait LPEnable: RccBus {
    /// Keeps the peripheral's clock running in sleep mode.
    fn enable_in_low_power(rcc: &mut RccRegisters)
        ensures
            gate_lp_enabled(*final (rcc), Self::spec_gate()),
            only_lpenr_bit_changed(*old(rcc), *final (rcc), Self::spec_gate()),
    ;

    /// Stops the peripheral's clock in sleep mode.
    fn disable_in_low_power(rcc: &mut RccRegisters)
        ensures
            !gate_lp_enabled(*final (rcc), Self::spec_gate()),
            only_lpenr_bit_changed(*old(rcc), *final (rcc), Self::spec_gate()),
    ;

    /// Checks whether the peripheral's clock runs in sleep mode.
    fn is_enabled_in_low_power(rcc: &RccRegisters) -> (r: bool)
        ensures
            r == gate_lp_enabled(*rcc, Self::spec_gate()),
    ;

    /// Checks whether the peripheral's clock stops in sleep mode.
    fn is_disabled_in_low_power(rcc: &RccRegisters) -> (r: bool)
        ensures
            r == !gate_lp_enabled(*rcc, Self::spec_gate()),
    ;
}

impl<P: RccBus> LPEnable for P {
    fn enable_in_low_power(rcc: &mut RccRegisters) {
        lp_enable_gate(rcc, P::gate());
    }

    fn disable_in_low_power(rcc: &mut RccRegisters) {
        lp_disable_gate(rcc, P::gate());
    }

    fn is_enabled_in_low_power(rcc: &RccRegisters) -> (r: bool) {
        gate_is_lp_enabled(rcc, P::gate())
    }

    fn is_disabled_in_low_power(rcc: &RccRegisters) -> (r: bool) {
        !gate_is_lp_enabled(rcc, P::gate())
    }
}

/// Momentary reset of one peripheral.
pub trait Reset: RccBus {
    /// Pulses the peripheral's reset bit: asserted, then withdrawn.  The
    /// gating state is untouched.
    fn reset(rcc: &mut RccRegisters)
        ensures
            !bit_test(spec_regs_of(*final (rcc), Self::spec_gate().bus).rstr, Self::spec_gate().bit),
            only_rstr_bit_changed(*old(rcc), *final (rcc), Self::spec_gate()),
    ;
}

impl<P: RccBus> Reset for P {
    fn reset(rcc: &mut RccRegisters) {
        reset_gate(rcc, P::gate());
    }
}

/// General-purpose I/O port A (first high-performance bus, bit 0).
pub struct GPIOA;

impl RccBus for GPIOA {
    type Bus = AHB1;

    open spec fn spec_gate() -> BusGate {
        BusGate { bus: Bus::Ahb1, bit: 0 }
    }

    fn gate() -> (g: BusGate) {
        BusGate { bus: Bus::Ahb1, bit: 0 }
    }
}

/// General-purpose I/O port B (first high-performance bus, bit 1).
pub struct GPIOB;

impl RccBus for GPIOB {
    type Bus = AHB1;

    open spec fn spec_gate() -> BusGate {
        BusGate { bus: Bus::Ahb1, bit: 1 }
    }

    fn gate() -> (g: BusGate) {
        BusGate { bus: Bus::Ahb1, bit: 1 }
    }
}

/// First DMA controller (first high-performance bus, bit 21).
pub struct DMA1;

impl RccBus for DMA1 {
    type Bus = AHB1;

    open spec fn spec_gate() -> BusGate {
        BusGate { bus: Bus::Ahb1, bit: 21 }
    }

    fn gate() -> (g: BusGate) {
        BusGate { bus: Bus::Ahb1, bit: 21 }
    }
}

/// Second DMA controller (first high-performance bus, bit 22).
pub struct DMA2;

impl RccBus for DMA2 {
    type Bus = AHB1;

    open spec fn spec_gate() -> BusGate {
        BusGate { bus: Bus::Ahb1, bit: 22 }
    }

    fn gate() -> (g: BusGate) {
        BusGate { bus: Bus::Ahb1, bit: 22 }
    }
}

/// USB on-the-go full-speed core (second high-performance bus, bit 7).
pub struct OTGFS;

impl RccBus for OTGFS {
    type Bus = AHB2;

    open spec fn spec_gate() -> BusGate {
        BusGate { bus: Bus::Ahb2, bit: 7 }
    }

    fn gate() -> (g: BusGate) {
        BusGate { bus: Bus::Ahb2, bit: 7 }
    }
}

/// Static memory controller (third high-performance bus, bit 0).
pub struct FSMC;

impl RccBus for FSMC {
    type Bus = AHB3;

    open spec fn spec_gate() -> BusGate {
        BusGate { bus: Bus::Ahb3, bit: 0 }
    }

    fn gate() -> (g: BusGate) {
        BusGate { bus: Bus::Ahb3, bit: 0 }
    }
}

/// General-purpose timer 2 (first peripheral bus, bit 0).
pub struct TIM2;

impl RccBus for TIM2 {
    type Bus = APB1;

    open spec fn spec_gate() -> BusGate {
        BusGate { bus: Bus::Apb1, bit: 0 }
    }

    fn gate() -> (g: BusGate) {
        BusGate { bus: Bus::Apb1, bit: 0 }
    }
}

/// General-purpose timer 3 (first peripheral bus, bit 1).
pub struct TIM3;

impl RccBus for TIM3 {
    type Bus = APB1;

    open spec fn spec_gate() -> BusGate {
        BusGate { bus: Bus::Apb1, bit: 1 }
    }

    fn gate() -> (g: BusGate) {
        BusGate { bus: Bus::Apb1, bit: 1 }
    }
}

/// General-purpose timer 4 (first peripheral bus, bit 2).
pub struct TIM4;

impl RccBus for TIM4 {
    type Bus = APB1;

    open spec fn spec_gate() -> BusGate {
        BusGate { bus: Bus::Apb1, bit: 2 }
    }

    fn gate() -> (g: BusGate) {
        BusGate { bus: Bus::Apb1, bit: 2 }
    }
}

/// General-purpose timer 5 (first peripheral bus, bit 3).
pub struct TIM5;

impl RccBus for TIM5 {
    type Bus = APB1;

    open spec fn spec_gate() -> BusGate {
        BusGate { bus: Bus::Apb1, bit: 3 }
    }

    fn gate() -> (g: BusGate) {
        BusGate { bus: Bus::Apb1, bit: 3 }
    }
}

/// Second serial port (first peripheral bus, bit 17).
pub struct USART2;

impl RccBus for USART2 {
    type Bus = APB1;

    open spec fn spec_gate() -> BusGate {
        BusGate { bus: Bus::Apb1, bit: 17 }
    }

    fn gate() -> (g: BusGate) {
        BusGate { bus: Bus::Apb1, bit: 17 }
    }
}

/// First inter-integrated-circuit interface (first peripheral bus, bit 21).
pub struct I2C1;

impl RccBus for I2C1 {
    type Bus = APB1;

    open spec fn spec_gate() -> BusGate {
        BusGate { bus: Bus::Apb1, bit: 21 }
    }

    fn gate() -> (g: BusGate) {
        BusGate { bus: Bus::Apb1, bit: 21 }
    }
}

/// Power controller (first peripheral bus, bit 28).
pub struct PWR;

impl RccBus for PWR {
    type Bus = APB1;

    open spec fn spec_gate() -> BusGate {
        BusGate { bus: Bus::Apb1, bit: 28 }
    }

    fn gate() -> (g: BusGate) {
        BusGate { bus: Bus::Apb1, bit: 28 }
    }
}

/// Advanced timer 1 (second peripheral bus, bit 0).
pub struct TIM1;

impl RccBus for TIM1 {
    type Bus = APB2;

    open spec fn spec_gate() -> BusGate {
        BusGate { bus: Bus::Apb2, bit: 0 }
    }

    fn gate() -> (g: BusGate) {
        BusGate { bus: Bus::Apb2, bit: 0 }
    }
}

/// First serial port (second peripheral bus, bit 4).
pub struct USART1;

impl RccBus for USART1 {
    type Bus = APB2;

    open spec fn spec_gate() -> BusGate {
        BusGate { bus: Bus::Apb2, bit: 4 }
    }

    fn gate() -> (g: BusGate) {
        BusGate { bus: Bus::Apb2, bit: 4 }
    }
}

/// First analog-to-digital converter (second peripheral bus, bit 8).
pub struct ADC1;

impl RccBus for ADC1 {
    type Bus = APB2;

    open spec fn spec_gate() -> BusGate {
        BusGate { bus: Bus::Apb2, bit: 8 }
    }

    fn gate() -> (g: BusGate) {
        BusGate { bus: Bus::Apb2, bit: 8 }
    }
}

/// Secure-digital host interface (second peripheral bus, bit 11).
pub struct SDIO;

impl RccBus for SDIO {
    type Bus = APB2;

    open spec fn spec_gate() -> BusGate {
        BusGate { bus: Bus::Apb2, bit: 11 }
    }

    fn gate() -> (g: BusGate) {
        BusGate { bus: Bus::Apb2, bit: 11 }
    }
}

/// First serial peripheral interface (second peripheral bus, bit 12).
pub struct SPI1;

impl RccBus for SPI1 {
    type Bus = APB2;

    open spec fn spec_gate() -> BusGate {
        BusGate { bus: Bus::Apb2, bit: 12 }
    }

    fn gate() -> (g: BusGate) {
        BusGate { bus: Bus::Apb2, bit: 12 }
    }
}

/// System configuration controller (second peripheral bus, bit 14).
pub struct SYSCFG;

impl RccBus for SYSCFG {
    type Bus = APB2;

    open spec fn spec_gate() -> BusGate {
        BusGate { bus: Bus::Apb2, bit: 14 }
    }

    fn gate() -> (g: BusGate) {
        BusGate { bus: Bus::Apb2, bit: 14 }
    }
}

/// The bus clock that peripherals of a bus run from.
pub trait BusClock {
    /// The frequency of the bus in a snapshot.
    spec fn spec_clock(clocks: Clocks) -> Hertz;

    /// Returns the frequency of the bus.
    fn clock(clocks: &Clocks) -> (r: Hertz)
        ensures
            r == Self::spec_clock(*clocks),
    ;
}

/// The timer kernel clock of a bus.
pub trait BusTimerClock {
    /// The timer frequency of the bus in a snapshot.
    spec fn spec_timer_clock(clocks: Clocks) -> Hertz;

    /// Returns the timer frequency of the bus.
    fn timer_clock(clocks: &Clocks) -> (r: Hertz)
        ensures
            r == Self::spec_timer_clock(*clocks),
    ;
}

impl BusClock for AHB1 {
    open spec fn spec_clock(clocks: Clocks) -> Hertz {
        clocks.hclk
    }

    fn clock(clocks: &Clocks) -> (r: Hertz) {
        clocks.hclk()
    }
}

impl BusClock for AHB2 {
    open spec fn spec_clock(clocks: Clocks) -> Hertz {
        clocks.hclk
    }

    fn clock(clocks: &Clocks) -> (r: Hertz) {
        clocks.hclk()
    }
}

impl BusClock for AHB3 {
    open spec fn spec_clock(clocks: Clocks) -> Hertz {
        clocks.hclk
    }

    fn clock(clocks: &Clocks) -> (r: Hertz) {
        clocks.hclk()
    }
}

impl BusClock for APB1 {
    open spec fn spec_clock(clocks: Clocks) -> Hertz {
        clocks.pclk1
    }

    fn clock(clocks: &Clocks) -> (r: Hertz) {
        clocks.pclk1()
    }
}

impl BusClock for APB2 {
    open spec fn spec_clock(clocks: Clocks) -> Hertz {
        clocks.pclk2
    }

    fn clock(clocks: &Clocks) -> (r: Hertz) {
        clocks.pclk2()
    }
}

impl BusTimerClock for APB1 {
    open spec fn spec_timer_clock(clocks: Clocks) -> Hertz {
        clocks.timclk1
    }

    fn timer_clock(clocks: &Clocks) -> (r: Hertz) {
        clocks.timclk1()
    }
}

impl BusTimerClock for APB2 {
    open spec fn spec_timer_clock(clocks: Clocks) -> Hertz {
        clocks.timclk2
    }

    fn timer_clock(clocks: &Clocks) -> (r: Hertz) {
        clocks.timclk2()
    }
}

} // verus!
