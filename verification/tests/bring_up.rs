use fu540_clock::model::RegisterBlock;
use fu540_clock::regs::{
    PrciReg, CORE_PLL_CFG, DDR_OUT_ENABLE, DDR_PLL_CFG, GE_OUT_ENABLE, GE_PLL_CFG, PLL_LOCK_BIT,
    PLL_OUT_DISABLE, RESET_FREE_ALL, RESET_FREE_DDR, RESET_FREE_DDR_CTL, RESET_HOLD_ALL,
    SEL_CORE_PLL, SEL_HFCLK,
};
use fu540_clock::sequencer::{
    run_model, Action, Clock, DriverError, Event, Op, Phase, HFCLK_RATE, SETTLE_NOPS,
};

fn armed(consumers: usize) -> Clock {
    let mut clock = Clock::new(consumers);
    assert_eq!(clock.pwrite(b"on", 0), Ok(1));
    clock
}

fn writes_to(log: &[Op], reg: PrciReg) -> Vec<u32> {
    log.iter()
        .filter_map(|op| match op {
            Op::Write(r, v) if *r == reg => Some(*v),
            _ => None,
        })
        .collect()
}

#[test]
fn emulated_run_touches_no_register() {
    let mut clock = armed(3);
    let mut block = RegisterBlock::new(true);
    let (done, log) = run_model(&mut clock, &mut block, true, 100);
    assert!(done);
    assert!(log.is_empty());
    assert_eq!(block.read(PrciReg::ClockSelect), 0);
    assert_eq!(block.read(PrciReg::CorePllCfg), 0);
    assert_eq!(block.read(PrciReg::ResetControl), 0);
}

#[test]
fn full_run_completes_with_the_exact_protocol_length() {
    let mut clock = armed(2);
    let mut block = RegisterBlock::new(true);
    let (done, log) = run_model(&mut clock, &mut block, false, 2000);
    assert!(done);
    // 2 notifies + 3 one-read polls + 13 writes + 3 fences + 256 nops.
    assert_eq!(log.len(), 2 + 3 + 272);
}

#[test]
fn every_consumer_notified_once_before_any_register_work() {
    let n = 4;
    let mut clock = armed(n);
    let mut block = RegisterBlock::new(true);
    let (done, log) = run_model(&mut clock, &mut block, false, 2000);
    assert!(done);
    for i in 0..n {
        assert_eq!(log[i], Op::Notify(HFCLK_RATE));
        assert_eq!(log[i], Op::Notify(1_000_000_000));
    }
    assert!(log[n..].iter().all(|op| !matches!(op, Op::Notify(_))));
}

#[test]
fn clock_select_sees_crystal_then_core_pll() {
    let mut clock = armed(1);
    let mut block = RegisterBlock::new(true);
    let (done, log) = run_model(&mut clock, &mut block, false, 2000);
    assert!(done);
    assert_eq!(writes_to(&log, PrciReg::ClockSelect), vec![SEL_HFCLK, SEL_CORE_PLL]);
    // The core PLL is configured only while the raw crystal is selected.
    let sel_hf = log.iter().position(|op| *op == Op::Write(PrciReg::ClockSelect, SEL_HFCLK));
    let cfg = log.iter().position(|op| *op == Op::Write(PrciReg::CorePllCfg, CORE_PLL_CFG));
    let sel_core = log
        .iter()
        .position(|op| *op == Op::Write(PrciReg::ClockSelect, SEL_CORE_PLL));
    assert!(sel_hf.unwrap() < cfg.unwrap());
    assert!(cfg.unwrap() < sel_core.unwrap());
    assert_eq!(writes_to(&log, PrciReg::CorePllCfg), vec![CORE_PLL_CFG]);
}

#[test]
fn ddr_enable_comes_only_after_a_locked_read() {
    let mut clock = armed(0);
    let mut block = RegisterBlock::new(true);
    let (done, log) = run_model(&mut clock, &mut block, false, 2000);
    assert!(done);
    let enable = log
        .iter()
        .position(|op| *op == Op::Write(PrciReg::DdrPllCfg1, DDR_OUT_ENABLE))
        .unwrap();
    match log[enable - 1] {
        Op::Read(PrciReg::DdrPllCfg0, v) => assert_ne!(v & PLL_LOCK_BIT, 0),
        ref other => panic!("before the enable write stood {:?}", other),
    }
}

#[test]
fn reset_control_releases_monotonically() {
    let mut clock = armed(2);
    let mut block = RegisterBlock::new(true);
    let (done, log) = run_model(&mut clock, &mut block, false, 2000);
    assert!(done);
    let stages = writes_to(&log, PrciReg::ResetControl);
    assert_eq!(
        stages,
        vec![RESET_HOLD_ALL, RESET_FREE_DDR_CTL, RESET_FREE_DDR, RESET_FREE_ALL]
    );
    assert_eq!(stages, vec![0x00, 0x01, 0x0f, 0x2f]);
    for pair in stages.windows(2) {
        // Each stage keeps every already-released sub-block released.
        assert_eq!(pair[0] & pair[1], pair[0]);
        assert_ne!(pair[0], pair[1]);
    }
}

#[test]
fn ddr_output_enable_writes_the_literal_bit31_pattern() {
    let mut clock = armed(1);
    let mut block = RegisterBlock::new(true);
    let (done, log) = run_model(&mut clock, &mut block, false, 2000);
    assert!(done);
    assert_eq!(
        writes_to(&log, PrciReg::DdrPllCfg1),
        vec![PLL_OUT_DISABLE, 0x8000_0000]
    );
    assert_eq!(block.read(PrciReg::DdrPllCfg1), 0x8000_0000);
}

#[test]
fn ge_bring_up_mirrors_ddr_with_the_documented_enable_field() {
    let mut clock = armed(1);
    let mut block = RegisterBlock::new(true);
    let (done, log) = run_model(&mut clock, &mut block, false, 2000);
    assert!(done);
    assert_eq!(writes_to(&log, PrciReg::GePllCfg1), vec![PLL_OUT_DISABLE, GE_OUT_ENABLE]);
    assert_eq!(writes_to(&log, PrciReg::GePllCfg0), vec![GE_PLL_CFG]);
    assert_eq!(writes_to(&log, PrciReg::DdrPllCfg0), vec![DDR_PLL_CFG]);
}

#[test]
fn settle_delay_is_exactly_the_fixed_nop_count() {
    let mut clock = armed(0);
    let mut block = RegisterBlock::new(true);
    let (done, log) = run_model(&mut clock, &mut block, false, 2000);
    assert!(done);
    assert_eq!(log.iter().filter(|op| **op == Op::Nop).count(), SETTLE_NOPS);
    assert_eq!(log.iter().filter(|op| **op == Op::Fence).count(), 3);
    // The no-ops sit between the second fence and the Ethernet PLL disable.
    let free_ddr = log
        .iter()
        .position(|op| *op == Op::Write(PrciReg::ResetControl, RESET_FREE_DDR))
        .unwrap();
    assert_eq!(log[free_ddr + 1], Op::Fence);
    for i in 0..SETTLE_NOPS {
        assert_eq!(log[free_ddr + 2 + i], Op::Nop);
    }
    assert_eq!(
        log[free_ddr + 2 + SETTLE_NOPS],
        Op::Write(PrciReg::GePllCfg1, PLL_OUT_DISABLE)
    );
}

#[test]
fn final_register_state_after_bring_up() {
    let mut clock = armed(2);
    let mut block = RegisterBlock::new(true);
    let (done, _log) = run_model(&mut clock, &mut block, false, 2000);
    assert!(done);
    assert_eq!(block.read(PrciReg::ClockSelect), SEL_CORE_PLL);
    assert_eq!(block.read(PrciReg::ResetControl), RESET_FREE_ALL);
    assert_eq!(block.read(PrciReg::CorePllCfg), CORE_PLL_CFG | PLL_LOCK_BIT);
    assert_eq!(block.read(PrciReg::DdrPllCfg0), DDR_PLL_CFG | PLL_LOCK_BIT);
    assert_eq!(block.read(PrciReg::GePllCfg0), GE_PLL_CFG | PLL_LOCK_BIT);
    assert_eq!(block.read(PrciReg::GePllCfg1), GE_OUT_ENABLE);
}

#[test]
fn never_locking_pll_blocks_bring_up_indefinitely() {
    // The model never asserts lock: after a bounded number of steps the
    // sequencer is still spinning on the core PLL, exactly the fail-stop
    // behaviour the protocol prescribes.
    let mut clock = armed(1);
    let mut block = RegisterBlock::new(false);
    let (done, log) = run_model(&mut clock, &mut block, false, 5000);
    assert!(!done);
    // The core PLL was configured, but the clock never switched to it and
    // the DDR PLL was never touched.
    assert_eq!(writes_to(&log, PrciReg::CorePllCfg), vec![CORE_PLL_CFG]);
    assert!(writes_to(&log, PrciReg::ClockSelect) == vec![SEL_HFCLK]);
    assert!(writes_to(&log, PrciReg::DdrPllCfg0).is_empty());
    assert!(writes_to(&log, PrciReg::DdrPllCfg1).is_empty());
    assert!(writes_to(&log, PrciReg::ResetControl).is_empty());
    // Everything after the configuration write is a spin read of the core
    // PLL's never-set lock bit.
    let cfg = log
        .iter()
        .position(|op| *op == Op::Write(PrciReg::CorePllCfg, CORE_PLL_CFG))
        .unwrap();
    assert!(log[cfg + 1..]
        .iter()
        .all(|op| *op == Op::Read(PrciReg::CorePllCfg, CORE_PLL_CFG)));
    assert!(log.len() > cfg + 1);
}

#[test]
fn bring_up_completes_within_the_guaranteed_step_budget() {
    let n = 3;
    let mut clock = armed(n);
    let mut block = RegisterBlock::new(true);
    let (done, _log) = run_model(&mut clock, &mut block, false, n + 277);
    assert!(done);
    let mut emu_clock = armed(n);
    let mut emu_block = RegisterBlock::new(true);
    let (emu_done, _) = run_model(&mut emu_clock, &mut emu_block, true, n + 277);
    assert!(emu_done);
}

#[test]
fn zero_consumers_run_has_no_notifications() {
    let mut clock = armed(0);
    let mut block = RegisterBlock::new(true);
    let (done, log) = run_model(&mut clock, &mut block, false, 2000);
    assert!(done);
    assert!(log.iter().all(|op| !matches!(op, Op::Notify(_))));
    assert_eq!(log.len(), 3 + 272);
}

#[test]
fn pwrite_triggers_only_on_the_exact_payload() {
    let mut clock = Clock::new(2);
    assert_eq!(clock.pwrite(b"off", 0), Ok(0));
    assert_eq!(clock.phase, Phase::Idle);
    assert_eq!(clock.pwrite(b"", 0), Ok(0));
    assert_eq!(clock.pwrite(b"On", 0), Ok(0));
    assert_eq!(clock.phase, Phase::Idle);
    assert_eq!(clock.pwrite(b"on", 0), Ok(1));
    assert_eq!(clock.phase, Phase::Start);
}

#[test]
fn pread_reports_not_implemented() {
    let clock = Clock::new(1);
    let mut buf = vec![0u8; 4];
    assert_eq!(clock.pread(&mut buf, 0), Err(DriverError::NotImplemented));
    assert_eq!(buf, vec![0u8; 4]);
}

#[test]
fn init_and_shutdown_are_no_ops() {
    let mut clock = Clock::new(1);
    clock.init();
    assert_eq!(clock.phase, Phase::Idle);
    clock.shutdown();
    assert_eq!(clock.phase, Phase::Idle);
}

#[test]
fn first_steps_query_emulation_then_notify() {
    let mut clock = armed(1);
    assert_eq!(clock.step(Event::Ack), Action::QueryEmulation);
    assert_eq!(
        clock.step(Event::Emulated(false)),
        Action::NotifyRate(1_000_000_000)
    );
    assert_eq!(
        clock.step(Event::Ack),
        Action::WriteReg(PrciReg::ClockSelect, SEL_HFCLK)
    );
}

#[test]
fn emulated_answer_finishes_at_once() {
    let mut clock = armed(5);
    assert_eq!(clock.step(Event::Ack), Action::QueryEmulation);
    assert_eq!(clock.step(Event::Emulated(true)), Action::Done);
    assert_eq!(clock.phase, Phase::Finished);
}
