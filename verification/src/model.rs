//! A register-level model of the clock controller: one 32-bit word per
//! register, with the two hardware behaviours the bring-up sequencer depends
//! on made programmable — whether a PLL reports lock after its configuration
//! register is written, and full read-back of every written word. The
//! sequencer can be run against this block in place of the memory-mapped
//! silicon.

use vstd::prelude::*;

use crate::regs::{pll_locked, PrciReg, PLL_LOCK_BIT};

verus! {

/// The simulated register block of the clock controller.
pub struct RegisterBlock {
    pub crystal: u32,
    pub core_pll_cfg: u32,
    pub ddr_pll_cfg0: u32,
    pub ddr_pll_cfg1: u32,
    pub ge_pll_cfg0: u32,
    pub ge_pll_cfg1: u32,
    pub clock_select: u32,
    pub reset_control: u32,
    /// Models PLL lock detection: when set, a PLL reports lock as soon as
    /// its configuration register has been written; when clear, no PLL ever
    /// locks and the sequencer spins forever, as it would on dead silicon.
    pub plls_lock: bool,
}

/// Whether `r` is a PLL divider-configuration register, whose stored word
/// carries the lock-status bit.
pub open spec fn is_pll_cfg(r: PrciReg) -> bool {
    r == PrciReg::CorePllCfg || r == PrciReg::DdrPllCfg0 || r == PrciReg::GePllCfg0
}

impl RegisterBlock {
    /// The word the block currently holds for register `r`.
    pub open spec fn spec_word(self, r: PrciReg) -> u32 {
        match r {
            PrciReg::Crystal => self.crystal,
            PrciReg::CorePllCfg => self.core_pll_cfg,
            PrciReg::DdrPllCfg0 => self.ddr_pll_cfg0,
            PrciReg::DdrPllCfg1 => self.ddr_pll_cfg1,
            PrciReg::GePllCfg0 => self.ge_pll_cfg0,
            PrciReg::GePllCfg1 => self.ge_pll_cfg1,
            PrciReg::ClockSelect => self.clock_select,
            PrciReg::ResetControl => self.reset_control,
        }
    }

    /// The word that a write of `v` to `r` leaves in the block: the written
    /// value, with the lock bit raised on a PLL configuration register when
    /// the model's PLLs lock.
    pub open spec fn spec_stored(self, r: PrciReg, v: u32) -> u32 {
        if is_pll_cfg(r) && self.plls_lock {
            v | PLL_LOCK_BIT
        } else {
            v
        }
    }

    /// A fresh block in its post-reset state: every register zero.
    pub fn new(plls_lock: bool) -> (b: RegisterBlock)
        ensures
            forall|r: PrciReg| b.spec_word(r) == 0u32,
            b.plls_lock == plls_lock,
    {
        RegisterBlock {
            crystal: 0,
            core_pll_cfg: 0,
            ddr_pll_cfg0: 0,
            ddr_pll_cfg1: 0,
            ge_pll_cfg0: 0,
            ge_pll_cfg1: 0,
            clock_select: 0,
            reset_control: 0,
            plls_lock,
        }
    }

    /// Reads register `r`; every read reflects the current stored word.
    pub fn read(&self, r: PrciReg) -> (v: u32)
        ensures
            v == self.spec_word(r),
    {
        match r {
            PrciReg::Crystal => self.crystal,
            PrciReg::CorePllCfg => self.core_pll_cfg,
            PrciReg::DdrPllCfg0 => self.ddr_pll_cfg0,
            PrciReg::DdrPllCfg1 => self.ddr_pll_cfg1,
            PrciReg::GePllCfg0 => self.ge_pll_cfg0,
            PrciReg::GePllCfg1 => self.ge_pll_cfg1,
            PrciReg::ClockSelect => self.clock_select,
            PrciReg::ResetControl => self.reset_control,
        }
    }

    /// Writes the full word `v` to register `r`, leaving every other
    /// register untouched.
    pub fn write(&mut self, r: PrciReg, v: u32)
        ensures
            final(self).plls_lock == old(self).plls_lock,
            final(self).spec_word(r) == old(self).spec_stored(r, v),
            forall|q: PrciReg| q != r ==> final(self).spec_word(q) == old(self).spec_word(q),
    {
        let stored: u32 = if self.lock_on_write(r) {
            v | PLL_LOCK_BIT
        } else {
            v
        };
        match r {
            PrciReg::Crystal => {
                self.crystal = stored;
            },
            PrciReg::CorePllCfg => {
                self.core_pll_cfg = stored;
            },
            PrciReg::DdrPllCfg0 => {
                self.ddr_pll_cfg0 = stored;
            },
            PrciReg::DdrPllCfg1 => {
                self.ddr_pll_cfg1 = stored;
            },
            PrciReg::GePllCfg0 => {
                self.ge_pll_cfg0 = stored;
            },
            PrciReg::GePllCfg1 => {
                self.ge_pll_cfg1 = stored;
            },
            PrciReg::ClockSelect => {
                self.clock_select = stored;
            },
            PrciReg::ResetControl => {
                self.reset_control = stored;
            },
        }
    }

    fn lock_on_write(&self, r: PrciReg) -> (b: bool)
        ensures
            b == (is_pll_cfg(r) && self.plls_lock),
    {
        match r {
            PrciReg::CorePllCfg => self.plls_lock,
            PrciReg::DdrPllCfg0 => self.plls_lock,
            PrciReg::GePllCfg0 => self.plls_lock,
            _ => false,
        }
    }

    /// With locking PLLs, a configuration write reads back locked.
    pub proof fn lemma_locking_write_reads_locked(self, r: PrciReg, v: u32)
        requires
            self.plls_lock,
            is_pll_cfg(r),
        ensures
            pll_locked(self.spec_stored(r, v)),
    {
        assert((v | 0x8000_0000u32) & 0x8000_0000u32 != 0u32) by (bit_vector);
    }
}

} // verus!
