use fu540_clock::regs::{
    default_core, default_ddr, default_ge, pll_config, reg_offset, reset_mask, PrciReg,
    CORE_PLL_CFG, DDR_OUT_ENABLE, DDR_PLL_CFG, GE_OUT_ENABLE, GE_PLL_CFG, PLL_LOCK_BIT,
    RESET_FREE_ALL, RESET_FREE_DDR, RESET_FREE_DDR_CTL, RESET_HOLD_ALL, SEL_CORE_PLL, SEL_HFCLK,
};

#[test]
fn core_preset_matches_known_bit_pattern() {
    // divR=0, divF=59, divQ=2, range=4, bypass=0, FSE=1.
    assert_eq!(default_core(), 0x0211_0EC0);
    assert_eq!(default_core(), CORE_PLL_CFG);
}

#[test]
fn ddr_preset_matches_known_bit_pattern() {
    // As the core preset but divF=55.
    assert_eq!(default_ddr(), 0x0211_0DC0);
    assert_eq!(default_ddr(), DDR_PLL_CFG);
}

#[test]
fn ge_preset_matches_known_bit_pattern() {
    // As the core preset but divQ=5.
    assert_eq!(default_ge(), 0x0212_8EC0);
    assert_eq!(default_ge(), GE_PLL_CFG);
}

#[test]
fn presets_do_not_claim_lock() {
    assert_eq!(default_core() & PLL_LOCK_BIT, 0);
    assert_eq!(default_ddr() & PLL_LOCK_BIT, 0);
    assert_eq!(default_ge() & PLL_LOCK_BIT, 0);
}

#[test]
fn pll_config_packs_each_field_into_its_bit_range() {
    assert_eq!(pll_config(0, 59, 2, 4, 0, 1), 0x0211_0EC0);
    assert_eq!(pll_config(3, 100, 7, 1, 1, 0), 0x0107_9903);
    assert_eq!(pll_config(0, 0, 0, 0, 0, 0), 0);
    assert_eq!(pll_config(0x3f, 0x1ff, 7, 7, 1, 1), 0x031F_FFFF);
}

#[test]
fn reset_mask_stages_match_the_sequencer_constants() {
    assert_eq!(reset_mask(true, true, true, true, true), RESET_HOLD_ALL);
    assert_eq!(reset_mask(false, true, true, true, true), RESET_FREE_DDR_CTL);
    assert_eq!(reset_mask(false, false, false, false, true), RESET_FREE_DDR);
    assert_eq!(reset_mask(false, false, false, false, false), RESET_FREE_ALL);
}

#[test]
fn reset_mask_clears_exactly_the_named_lines() {
    assert_eq!(reset_mask(true, false, false, false, false), 0x2e);
    assert_eq!(reset_mask(false, true, false, false, false), 0x2d);
    assert_eq!(reset_mask(false, false, true, false, false), 0x2b);
    assert_eq!(reset_mask(false, false, false, true, false), 0x27);
    assert_eq!(reset_mask(false, false, false, false, true), 0x0f);
}

#[test]
fn register_offsets_match_the_block_layout() {
    assert_eq!(reg_offset(PrciReg::Crystal), 0x00);
    assert_eq!(reg_offset(PrciReg::CorePllCfg), 0x04);
    assert_eq!(reg_offset(PrciReg::DdrPllCfg0), 0x0c);
    assert_eq!(reg_offset(PrciReg::DdrPllCfg1), 0x10);
    assert_eq!(reg_offset(PrciReg::GePllCfg0), 0x1c);
    assert_eq!(reg_offset(PrciReg::GePllCfg1), 0x20);
    assert_eq!(reg_offset(PrciReg::ClockSelect), 0x24);
    assert_eq!(reg_offset(PrciReg::ResetControl), 0x28);
}

#[test]
fn ddr_output_enable_is_the_bit31_quirk() {
    assert_eq!(DDR_OUT_ENABLE, 1u32 << 31);
    assert_ne!(DDR_OUT_ENABLE, 1u32 << 24);
    assert_eq!(GE_OUT_ENABLE, 1u32 << 24);
}

#[test]
fn clock_select_values() {
    assert_eq!(SEL_HFCLK, 1);
    assert_eq!(SEL_CORE_PLL, 0);
}
