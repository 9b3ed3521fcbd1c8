//! The ordering guarantees of the bring-up protocol, proved of every
//! complete trace the sequencer can produce — that is, of
//! [`full_trace`] for every consumer count and all poll outcomes.

use vstd::prelude::*;

use crate::regs::{
    pll_locked, PrciReg, CORE_PLL_CFG, DDR_OUT_ENABLE, DDR_PLL_CFG, GE_OUT_ENABLE, GE_PLL_CFG,
    PLL_OUT_DISABLE, RESET_FREE_ALL, RESET_FREE_DDR, RESET_FREE_DDR_CTL, RESET_HOLD_ALL,
    SEL_CORE_PLL, SEL_HFCLK,
};
use crate::sequencer::{
    complete_bring_up, full_trace, poll_done, step_spec, Action, Clock, Event, Op, Phase,
    HFCLK_RATE,
};

verus! {

/// `op` writes register `r` (with any value).
pub open spec fn writes_reg(op: Op, r: PrciReg) -> bool {
    op matches Op::Write(q, _v) && q == r
}

/// The operation a complete bring-up trace holds at position `i`.
pub open spec fn op_at(n: nat, c: Seq<u32>, d: Seq<u32>, g: Seq<u32>, i: int) -> Op {
    let nn = n as int;
    let cl = c.len() as int;
    let dl = d.len() as int;
    let gl = g.len() as int;
    if i < nn {
        Op::Notify(HFCLK_RATE)
    } else if i == nn {
        Op::Write(PrciReg::ClockSelect, SEL_HFCLK)
    } else if i == nn + 1 {
        Op::Write(PrciReg::CorePllCfg, CORE_PLL_CFG)
    } else if i < nn + 2 + cl {
        Op::Read(PrciReg::CorePllCfg, c[i - (nn + 2)])
    } else if i == nn + 2 + cl {
        Op::Write(PrciReg::ClockSelect, SEL_CORE_PLL)
    } else if i == nn + 3 + cl {
        Op::Write(PrciReg::ResetControl, RESET_HOLD_ALL)
    } else if i == nn + 4 + cl {
        Op::Write(PrciReg::DdrPllCfg1, PLL_OUT_DISABLE)
    } else if i == nn + 5 + cl {
        Op::Write(PrciReg::DdrPllCfg0, DDR_PLL_CFG)
    } else if i < nn + 6 + cl + dl {
        Op::Read(PrciReg::DdrPllCfg0, d[i - (nn + 6 + cl)])
    } else if i == nn + 6 + cl + dl {
        Op::Write(PrciReg::DdrPllCfg1, DDR_OUT_ENABLE)
    } else if i == nn + 7 + cl + dl {
        Op::Write(PrciReg::ResetControl, RESET_FREE_DDR_CTL)
    } else if i == nn + 8 + cl + dl {
        Op::Fence
    } else if i == nn + 9 + cl + dl {
        Op::Write(PrciReg::ResetControl, RESET_FREE_DDR)
    } else if i == nn + 10 + cl + dl {
        Op::Fence
    } else if i < nn + 267 + cl + dl {
        Op::Nop
    } else if i == nn + 267 + cl + dl {
        Op::Write(PrciReg::GePllCfg1, PLL_OUT_DISABLE)
    } else if i == nn + 268 + cl + dl {
        Op::Write(PrciReg::GePllCfg0, GE_PLL_CFG)
    } else if i < nn + 269 + cl + dl + gl {
        Op::Read(PrciReg::GePllCfg0, g[i - (nn + 269 + cl + dl)])
    } else if i == nn + 269 + cl + dl + gl {
        Op::Write(PrciReg::GePllCfg1, GE_OUT_ENABLE)
    } else if i == nn + 270 + cl + dl + gl {
        Op::Write(PrciReg::ResetControl, RESET_FREE_ALL)
    } else {
        Op::Fence
    }
}

/// A complete bring-up trace has exactly the protocol's operations, in the
/// protocol's order: `op_at` at every position.
pub proof fn lemma_full_trace_form(n: nat, c: Seq<u32>, d: Seq<u32>, g: Seq<u32>)
    ensures
        full_trace(n, c, d, g).len() == n + c.len() + d.len() + g.len() + 272,
        forall|i: int|
            0 <= i < full_trace(n, c, d, g).len() ==> #[trigger] full_trace(n, c, d, g)[i]
                == op_at(n, c, d, g, i),
{
    let t = full_trace(n, c, d, g);
    assert(crate::sequencer::notifies(n).len() == n);
    assert(crate::sequencer::core_setup(n).len() == n + 2);
    assert(crate::sequencer::ddr_setup(n, c).len() == n + 6 + c.len());
    assert(crate::sequencer::ddr_release(n, c, d).len() == n + 11 + c.len() + d.len());
    assert(crate::sequencer::settles(256).len() == 256);
    assert(crate::sequencer::ge_setup(n, c, d).len() == n + 269 + c.len() + d.len());
    assert(t.len() == n + c.len() + d.len() + g.len() + 272);
    assert forall|i: int| 0 <= i < t.len() implies #[trigger] t[i] == op_at(n, c, d, g, i) by {
        assert(t[i] == op_at(n, c, d, g, i));
    }
}

/// Under emulation the sequencer touches nothing: from the triggered state,
/// the first step asks the emulation query, and the answer `true` finishes
/// the run at once with an empty trace — no register read or written, no
/// consumer notified, no wait entered.
pub proof fn lemma_emulated_run_is_silent(
    c0: Clock,
    c1: Clock,
    a1: Action,
    c2: Clock,
    a2: Action,
)
    requires
        c0.wf(),
        c0.phase == Phase::Start,
        step_spec(c0, Event::Ack, c1, a1),
        step_spec(c1, Event::Emulated(true), c2, a2),
    ensures
        a1 == Action::QueryEmulation,
        a2 == Action::Done,
        c2.phase == Phase::Finished,
        c2.trace@ == Seq::<Op>::empty(),
{
}

/// Every consumer hears the 1 GHz rate change exactly once, and all
/// notifications come strictly before any register operation: the first `n`
/// positions of a complete trace are the notifications, and nothing after
/// them is one.
pub proof fn lemma_notifications_come_first(n: nat, c: Seq<u32>, d: Seq<u32>, g: Seq<u32>)
    ensures
        forall|i: int|
            0 <= i < full_trace(n, c, d, g).len() ==> ((#[trigger] full_trace(n, c, d, g)[i]
                is Notify) <==> i < n),
        forall|i: int| 0 <= i < n ==> #[trigger] full_trace(n, c, d, g)[i] == Op::Notify(
            HFCLK_RATE,
        ),
{
    lemma_full_trace_form(n, c, d, g);
}

/// `ClockSelect` sees exactly two writes, raw crystal first and core PLL
/// after the core PLL poll; the one write of the core PLL configuration
/// lies strictly between them, so the core PLL is never reconfigured while
/// it drives the system.
pub proof fn lemma_clock_select_protocol(n: nat, c: Seq<u32>, d: Seq<u32>, g: Seq<u32>)
    ensures
        full_trace(n, c, d, g)[n as int] == Op::Write(PrciReg::ClockSelect, SEL_HFCLK),
        full_trace(n, c, d, g)[(n + 2 + c.len()) as int] == Op::Write(PrciReg::ClockSelect, SEL_CORE_PLL),
        forall|i: int|
            0 <= i < full_trace(n, c, d, g).len() && writes_reg(
                #[trigger] full_trace(n, c, d, g)[i],
                PrciReg::ClockSelect,
            ) ==> i == n || i == n + 2 + c.len(),
        full_trace(n, c, d, g)[(n + 1) as int] == Op::Write(PrciReg::CorePllCfg, CORE_PLL_CFG),
        forall|i: int|
            0 <= i < full_trace(n, c, d, g).len() && writes_reg(
                #[trigger] full_trace(n, c, d, g)[i],
                PrciReg::CorePllCfg,
            ) ==> i == n + 1,
        n < n + 1 < n + 2 + c.len(),
{
    lemma_full_trace_form(n, c, d, g);
}

/// The DDR PLL output-enable write comes immediately after a read of the
/// DDR PLL lock status that reported lock — never before the hardware has
/// locked.
pub proof fn lemma_ddr_enable_only_after_lock(n: nat, c: Seq<u32>, d: Seq<u32>, g: Seq<u32>)
    requires
        poll_done(d),
    ensures
        forall|i: int|
            0 <= i < full_trace(n, c, d, g).len() && #[trigger] full_trace(n, c, d, g)[i]
                == Op::Write(PrciReg::DdrPllCfg1, DDR_OUT_ENABLE) ==> 0 < i && (full_trace(
                n,
                c,
                d,
                g,
            )[i - 1] matches Op::Read(q, v) && q == PrciReg::DdrPllCfg0 && pll_locked(v)),
{
    lemma_full_trace_form(n, c, d, g);
    assert(DDR_OUT_ENABLE != PLL_OUT_DISABLE);
    assert(d[d.len() - 1] == d.last());
}

/// `ResetControl` sees exactly four writes, in order: everything held in
/// reset, the DDR controller released, the DDR AXI/AHB/PHY released, and
/// everything released. Each stage keeps every sub-block already released
/// and frees more: the bring-up never puts a released sub-block back into
/// reset.
pub proof fn lemma_reset_release_is_monotone(n: nat, c: Seq<u32>, d: Seq<u32>, g: Seq<u32>)
    ensures
        full_trace(n, c, d, g)[(n + 3 + c.len()) as int] == Op::Write(
            PrciReg::ResetControl,
            RESET_HOLD_ALL,
        ),
        full_trace(n, c, d, g)[(n + 7 + c.len() + d.len()) as int] == Op::Write(
            PrciReg::ResetControl,
            RESET_FREE_DDR_CTL,
        ),
        full_trace(n, c, d, g)[(n + 9 + c.len() + d.len()) as int] == Op::Write(
            PrciReg::ResetControl,
            RESET_FREE_DDR,
        ),
        full_trace(n, c, d, g)[(n + 270 + c.len() + d.len() + g.len()) as int] == Op::Write(
            PrciReg::ResetControl,
            RESET_FREE_ALL,
        ),
        forall|i: int|
            0 <= i < full_trace(n, c, d, g).len() && writes_reg(
                #[trigger] full_trace(n, c, d, g)[i],
                PrciReg::ResetControl,
            ) ==> i == n + 3 + c.len() || i == n + 7 + c.len() + d.len() || i == n + 9 + c.len()
                + d.len() || i == n + 270 + c.len() + d.len() + g.len(),
        RESET_HOLD_ALL & RESET_FREE_DDR_CTL == RESET_HOLD_ALL,
        RESET_FREE_DDR_CTL & RESET_FREE_DDR == RESET_FREE_DDR_CTL,
        RESET_FREE_DDR & RESET_FREE_ALL == RESET_FREE_DDR,
        RESET_HOLD_ALL != RESET_FREE_DDR_CTL,
        RESET_FREE_DDR_CTL != RESET_FREE_DDR,
        RESET_FREE_DDR != RESET_FREE_ALL,
{
    lemma_full_trace_form(n, c, d, g);
    assert(0x00u32 & 0x01u32 == 0x00u32) by (bit_vector);
    assert(0x01u32 & 0x0fu32 == 0x01u32) by (bit_vector);
    assert(0x0fu32 & 0x2fu32 == 0x0fu32) by (bit_vector);
}

/// The DDR PLL output-enable register is written exactly twice: disabled
/// first, then enabled with the literal bit-31 pattern — the empirically
/// verified position, not the documented bit-24 field.
pub proof fn lemma_ddr_enable_is_bit31(n: nat, c: Seq<u32>, d: Seq<u32>, g: Seq<u32>)
    ensures
        full_trace(n, c, d, g)[(n + 4 + c.len()) as int] == Op::Write(
            PrciReg::DdrPllCfg1,
            PLL_OUT_DISABLE,
        ),
        full_trace(n, c, d, g)[(n + 6 + c.len() + d.len()) as int] == Op::Write(
            PrciReg::DdrPllCfg1,
            DDR_OUT_ENABLE,
        ),
        forall|i: int|
            0 <= i < full_trace(n, c, d, g).len() && writes_reg(
                #[trigger] full_trace(n, c, d, g)[i],
                PrciReg::DdrPllCfg1,
            ) ==> i == n + 4 + c.len() || i == n + 6 + c.len() + d.len(),
        DDR_OUT_ENABLE == 1u32 << 31,
        DDR_OUT_ENABLE != 1u32 << 24,
{
    lemma_full_trace_form(n, c, d, g);
    assert(0x8000_0000u32 == 1u32 << 31) by (bit_vector);
    assert(0x8000_0000u32 != 1u32 << 24) by (bit_vector);
}

/// The value a write operation carries.
pub open spec fn write_value(op: Op) -> u32
    recommends
        op is Write,
{
    op->Write_1
}

/// `lemma_reset_release_is_monotone`, stated of any complete bring-up trace
/// without naming positions: of any two `ResetControl` writes, the earlier
/// one's released sub-blocks are a strict subset of the later one's.
pub proof fn lemma_complete_reset_release_monotone(t: Seq<Op>, n: nat)
    requires
        complete_bring_up(t, n),
    ensures
        forall|i: int, j: int|
            0 <= i < j < t.len() && writes_reg(#[trigger] t[i], PrciReg::ResetControl)
                && writes_reg(#[trigger] t[j], PrciReg::ResetControl) ==> write_value(t[i])
                & write_value(t[j]) == write_value(t[i]) && write_value(t[i]) != write_value(
                t[j],
            ),
{
    let (c, d, g) = choose|c: Seq<u32>, d: Seq<u32>, g: Seq<u32>|
        poll_done(c) && poll_done(d) && poll_done(g) && t == #[trigger] full_trace(n, c, d, g);
    lemma_full_trace_form(n, c, d, g);
    assert(0x00u32 & 0x01u32 == 0x00u32) by (bit_vector);
    assert(0x00u32 & 0x0fu32 == 0x00u32) by (bit_vector);
    assert(0x00u32 & 0x2fu32 == 0x00u32) by (bit_vector);
    assert(0x01u32 & 0x0fu32 == 0x01u32) by (bit_vector);
    assert(0x01u32 & 0x2fu32 == 0x01u32) by (bit_vector);
    assert(0x0fu32 & 0x2fu32 == 0x0fu32) by (bit_vector);
}

/// `lemma_clock_select_protocol`, stated of any complete bring-up trace
/// without naming positions: whenever the core PLL configuration register is
/// written, some `ClockSelect` write precedes it and every earlier
/// `ClockSelect` write selected the raw crystal — the core PLL is never
/// reconfigured while it drives the system.
pub proof fn lemma_complete_core_cfg_under_crystal(t: Seq<Op>, n: nat)
    requires
        complete_bring_up(t, n),
    ensures
        forall|i: int, j: int|
            0 <= j < i < t.len() && writes_reg(#[trigger] t[i], PrciReg::CorePllCfg)
                && writes_reg(#[trigger] t[j], PrciReg::ClockSelect) ==> t[j] == Op::Write(
                PrciReg::ClockSelect,
                SEL_HFCLK,
            ),
        forall|i: int|
            0 <= i < t.len() && writes_reg(#[trigger] t[i], PrciReg::CorePllCfg) ==> exists|j: int|
                0 <= j < i && #[trigger] t[j] == Op::Write(PrciReg::ClockSelect, SEL_HFCLK),
{
    let (c, d, g) = choose|c: Seq<u32>, d: Seq<u32>, g: Seq<u32>|
        poll_done(c) && poll_done(d) && poll_done(g) && t == #[trigger] full_trace(n, c, d, g);
    lemma_full_trace_form(n, c, d, g);
    assert forall|i: int|
        0 <= i < t.len() && writes_reg(#[trigger] t[i], PrciReg::CorePllCfg) implies exists|j: int|
        0 <= j < i && #[trigger] t[j] == Op::Write(PrciReg::ClockSelect, SEL_HFCLK) by {
        assert(t[n as int] == Op::Write(PrciReg::ClockSelect, SEL_HFCLK));
        assert(i == n + 1);
    }
}

/// `lemma_notifications_come_first`, stated of any complete bring-up trace.
pub proof fn lemma_complete_notifications_come_first(t: Seq<Op>, n: nat)
    requires
        complete_bring_up(t, n),
    ensures
        forall|i: int| 0 <= i < t.len() ==> ((#[trigger] t[i] is Notify) <==> i < n),
        forall|i: int| 0 <= i < n ==> #[trigger] t[i] == Op::Notify(HFCLK_RATE),
{
    let (c, d, g) = choose|c: Seq<u32>, d: Seq<u32>, g: Seq<u32>|
        poll_done(c) && poll_done(d) && poll_done(g) && t == #[trigger] full_trace(n, c, d, g);
    lemma_notifications_come_first(n, c, d, g);
}

/// `lemma_ddr_enable_only_after_lock`, stated of any complete bring-up trace.
pub proof fn lemma_complete_ddr_enable_after_lock(t: Seq<Op>, n: nat)
    requires
        complete_bring_up(t, n),
    ensures
        forall|i: int|
            0 <= i < t.len() && #[trigger] t[i] == Op::Write(PrciReg::DdrPllCfg1, DDR_OUT_ENABLE)
                ==> 0 < i && (t[i - 1] matches Op::Read(q, v) && q == PrciReg::DdrPllCfg0
                && pll_locked(v)),
{
    let (c, d, g) = choose|c: Seq<u32>, d: Seq<u32>, g: Seq<u32>|
        poll_done(c) && poll_done(d) && poll_done(g) && t == #[trigger] full_trace(n, c, d, g);
    lemma_ddr_enable_only_after_lock(n, c, d, g);
}

} // verus!
