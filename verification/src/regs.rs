//! The register model of the clock controller: the registers of the block,
//! their offsets from the controller's base address, the bit layout of a PLL
//! configuration word, the three immutable PLL presets, and the reset-control
//! mask over the five resettable sub-blocks.

use vstd::prelude::*;

verus! {

/// The registers of the clock controller block, named by role.
#[derive(Clone, Copy, PartialEq, Eq, Structural, Debug)]
pub enum PrciReg {
    /// External crystal oscillator control and ready state.
    Crystal,
    /// Core PLL divider/range/bypass configuration, with the lock bit.
    CorePllCfg,
    /// DDR PLL divider configuration, same layout as `CorePllCfg`.
    DdrPllCfg0,
    /// DDR PLL output-enable control.
    DdrPllCfg1,
    /// Ethernet PLL divider configuration, same layout as `CorePllCfg`.
    GePllCfg0,
    /// Ethernet PLL output-enable control.
    GePllCfg1,
    /// Core clock source select: raw crystal or core PLL output.
    ClockSelect,
    /// Per-sub-block reset lines.
    ResetControl,
}

pub open spec fn spec_reg_offset(r: PrciReg) -> nat {
    match r {
        PrciReg::Crystal => 0x00,
        PrciReg::CorePllCfg => 0x04,
        PrciReg::DdrPllCfg0 => 0x0c,
        PrciReg::DdrPllCfg1 => 0x10,
        PrciReg::GePllCfg0 => 0x1c,
        PrciReg::GePllCfg1 => 0x20,
        PrciReg::ClockSelect => 0x24,
        PrciReg::ResetControl => 0x28,
    }
}

/// Byte offset of a register from the controller's base address. These
/// values are the hardware contract of the target silicon.
pub fn reg_offset(r: PrciReg) -> (o: usize)
    ensures
        o == spec_reg_offset(r),
{
    match r {
        PrciReg::Crystal => 0x00,
        PrciReg::CorePllCfg => 0x04,
        PrciReg::DdrPllCfg0 => 0x0c,
        PrciReg::DdrPllCfg1 => 0x10,
        PrciReg::GePllCfg0 => 0x1c,
        PrciReg::GePllCfg1 => 0x20,
        PrciReg::ClockSelect => 0x24,
        PrciReg::ResetControl => 0x28,
    }
}

/// Read-only lock-status bit of a PLL configuration word.
pub const PLL_LOCK_BIT: u32 = 0x8000_0000;

/// `ClockSelect` value that drives the core from the raw external crystal.
pub const SEL_HFCLK: u32 = 1;

/// `ClockSelect` value that drives the core from the core PLL output.
pub const SEL_CORE_PLL: u32 = 0;

/// Output-enable control value that disables a PLL output stage.
pub const PLL_OUT_DISABLE: u32 = 0;

/// DDR PLL output-enable value: the hardware observes the enable at bit 31,
/// not at the documented bit-24 field. The deviation was established against
/// real silicon and must be preserved bit-exactly.
pub const DDR_OUT_ENABLE: u32 = 0x8000_0000;

/// Ethernet PLL output-enable value: bit 24, the documented enable field.
pub const GE_OUT_ENABLE: u32 = 0x0100_0000;

pub open spec fn pll_divr(w: u32) -> u32 {
    w & 0x3f
}

pub open spec fn pll_divf(w: u32) -> u32 {
    (w >> 6) & 0x1ff
}

pub open spec fn pll_divq(w: u32) -> u32 {
    (w >> 15) & 0x7
}

pub open spec fn pll_range(w: u32) -> u32 {
    (w >> 18) & 0x7
}

pub open spec fn pll_bypass(w: u32) -> u32 {
    (w >> 24) & 1
}

pub open spec fn pll_fse(w: u32) -> u32 {
    (w >> 25) & 1
}

/// Whether a PLL configuration word reports hardware lock.
pub open spec fn pll_locked(w: u32) -> bool {
    w & PLL_LOCK_BIT != 0
}

/// The packed PLL configuration word for the given field values.
pub open spec fn spec_pll_config(
    divr: u32,
    divf: u32,
    divq: u32,
    range: u32,
    bypass: u32,
    fse: u32,
) -> u32 {
    divr | (divf << 6) | (divq << 15) | (range << 18) | (bypass << 24) | (fse << 25)
}

proof fn lemma_pll_config_fields(divr: u32, divf: u32, divq: u32, range: u32, bypass: u32, fse: u32)
    by (bit_vector)
    requires
        divr < 0x40,
        divf < 0x200,
        divq < 8,
        range < 8,
        bypass < 2,
        fse < 2,
    ensures
        pll_divr(spec_pll_config(divr, divf, divq, range, bypass, fse)) == divr,
        pll_divf(spec_pll_config(divr, divf, divq, range, bypass, fse)) == divf,
        pll_divq(spec_pll_config(divr, divf, divq, range, bypass, fse)) == divq,
        pll_range(spec_pll_config(divr, divf, divq, range, bypass, fse)) == range,
        pll_bypass(spec_pll_config(divr, divf, divq, range, bypass, fse)) == bypass,
        pll_fse(spec_pll_config(divr, divf, divq, range, bypass, fse)) == fse,
        !pll_locked(spec_pll_config(divr, divf, divq, range, bypass, fse)),
{
}

/// Packs divider and mode fields into a PLL configuration word. Each field
/// lands in its own bit range, and the read-only lock bit stays clear: the
/// packed word can never claim lock by construction.
pub fn pll_config(divr: u32, divf: u32, divq: u32, range: u32, bypass: u32, fse: u32) -> (w: u32)
    requires
        divr < 0x40,
        divf < 0x200,
        divq < 8,
        range < 8,
        bypass < 2,
        fse < 2,
    ensures
        w == spec_pll_config(divr, divf, divq, range, bypass, fse),
        pll_divr(w) == divr,
        pll_divf(w) == divf,
        pll_divq(w) == divq,
        pll_range(w) == range,
        pll_bypass(w) == bypass,
        pll_fse(w) == fse,
        !pll_locked(w),
{
    proof {
        lemma_pll_config_fields(divr, divf, divq, range, bypass, fse);
    }
    divr | (divf << 6u32) | (divq << 15u32) | (range << 18u32) | (bypass << 24u32) | (fse
        << 25u32)
}

/// Core PLL preset word: divR=0, divF=59, divQ=2, range=4, no bypass,
/// force-settle on, tuned for a 33.33 MHz reference and the 1 GHz target.
pub const CORE_PLL_CFG: u32 = 0x0211_0EC0;

/// DDR PLL preset word: as the core preset but divF=55.
pub const DDR_PLL_CFG: u32 = 0x0211_0DC0;

/// Ethernet PLL preset word: as the core preset but divQ=5.
pub const GE_PLL_CFG: u32 = 0x0212_8EC0;

/// The core PLL preset configuration word.
pub fn default_core() -> (w: u32)
    ensures
        w == spec_pll_config(0, 59, 2, 4, 0, 1),
        w == CORE_PLL_CFG,
{
    proof {
        assert(spec_pll_config(0, 59, 2, 4, 0, 1) == 0x0211_0EC0u32) by (bit_vector);
    }
    pll_config(0, 59, 2, 4, 0, 1)
}

/// The DDR PLL preset configuration word.
pub fn default_ddr() -> (w: u32)
    ensures
        w == spec_pll_config(0, 55, 2, 4, 0, 1),
        w == DDR_PLL_CFG,
{
    proof {
        assert(spec_pll_config(0, 55, 2, 4, 0, 1) == 0x0211_0DC0u32) by (bit_vector);
    }
    pll_config(0, 55, 2, 4, 0, 1)
}

/// The Ethernet PLL preset configuration word.
pub fn default_ge() -> (w: u32)
    ensures
        w == spec_pll_config(0, 59, 5, 4, 0, 1),
        w == GE_PLL_CFG,
{
    proof {
        assert(spec_pll_config(0, 59, 5, 4, 0, 1) == 0x0212_8EC0u32) by (bit_vector);
    }
    pll_config(0, 59, 5, 4, 0, 1)
}

/// Reset line of the DDR controller (bit 0).
pub const RESET_DDR_CTL: u32 = 0x01;

/// Reset line of the DDR AXI bridge (bit 1).
pub const RESET_DDR_AXI: u32 = 0x02;

/// Reset line of the DDR AHB bridge (bit 2).
pub const RESET_DDR_AHB: u32 = 0x04;

/// Reset line of the DDR PHY (bit 3).
pub const RESET_DDR_PHY: u32 = 0x08;

/// Reset line of the Ethernet sub-block (bit 5; bit 4 is unused on this part).
pub const RESET_GE: u32 = 0x20;

/// The `ResetControl` word that holds in reset exactly the sub-blocks named
/// by a `true` argument; a set bit means the sub-block runs, a clear bit
/// holds it in reset.
pub open spec fn spec_reset_mask(ddr: bool, axi: bool, ahb: bool, phy: bool, ge: bool) -> u32 {
    (if ddr {
        0u32
    } else {
        RESET_DDR_CTL
    }) | (if axi {
        0u32
    } else {
        RESET_DDR_AXI
    }) | (if ahb {
        0u32
    } else {
        RESET_DDR_AHB
    }) | (if phy {
        0u32
    } else {
        RESET_DDR_PHY
    }) | (if ge {
        0u32
    } else {
        RESET_GE
    })
}

/// Builds a `ResetControl` value that holds the named sub-blocks in reset
/// and leaves every other sub-block running.
pub fn reset_mask(ddr: bool, axi: bool, ahb: bool, phy: bool, ge: bool) -> (m: u32)
    ensures
        m == spec_reset_mask(ddr, axi, ahb, phy, ge),
{
    (if ddr {
        0u32
    } else {
        RESET_DDR_CTL
    }) | (if axi {
        0u32
    } else {
        RESET_DDR_AXI
    }) | (if ahb {
        0u32
    } else {
        RESET_DDR_AHB
    }) | (if phy {
        0u32
    } else {
        RESET_DDR_PHY
    }) | (if ge {
        0u32
    } else {
        RESET_GE
    })
}

/// `ResetControl` value with every sub-block held in reset.
pub const RESET_HOLD_ALL: u32 = 0x00;

/// `ResetControl` value with only the DDR controller out of reset.
pub const RESET_FREE_DDR_CTL: u32 = 0x01;

/// `ResetControl` value with the DDR controller, AXI, AHB and PHY out of
/// reset and Ethernet still held.
pub const RESET_FREE_DDR: u32 = 0x0f;

/// `ResetControl` value with every sub-block out of reset.
pub const RESET_FREE_ALL: u32 = 0x2f;

/// The four reset words the sequencer writes are the four mask values for
/// its four release stages.
pub proof fn lemma_reset_stages()
    ensures
        spec_reset_mask(true, true, true, true, true) == RESET_HOLD_ALL,
        spec_reset_mask(false, true, true, true, true) == RESET_FREE_DDR_CTL,
        spec_reset_mask(false, false, false, false, true) == RESET_FREE_DDR,
        spec_reset_mask(false, false, false, false, false) == RESET_FREE_ALL,
{
    assert(spec_reset_mask(true, true, true, true, true) == 0x00u32) by (bit_vector);
    assert(spec_reset_mask(false, true, true, true, true) == 0x01u32) by (bit_vector);
    assert(spec_reset_mask(false, false, false, false, true) == 0x0fu32) by (bit_vector);
    assert(spec_reset_mask(false, false, false, false, false) == 0x2fu32) by (bit_vector);
}

} // verus!
