//! The one-shot clock bring-up sequencer.
//!
//! All memory-mapped work — register writes, lock-status polls, hardware
//! fences, settle no-ops, consumer rate notifications and the emulation
//! query — is outside work that the sequencer cannot perform itself. It is
//! therefore written as a state machine: each call of [`Clock::step`] takes
//! the outcome of the previous command as an [`Event`] and returns the next
//! [`Action`] to perform. The driver of the machine performs each action
//! against the real memory-mapped block (or against
//! [`crate::model::RegisterBlock`]) and hands the outcome back.
//!
//! Every completed operation is recorded in a ghost trace, and the machine's
//! invariant [`Clock::wf`] pins the trace down exactly in every state: a
//! finished machine has either performed nothing (emulated run) or exactly
//! one complete bring-up, [`full_trace`].

use vstd::pervasive::unreached;
use vstd::prelude::*;

use crate::model::{is_pll_cfg, RegisterBlock};
use crate::regs::{
    pll_locked, PrciReg, CORE_PLL_CFG, DDR_OUT_ENABLE, DDR_PLL_CFG, GE_OUT_ENABLE, GE_PLL_CFG,
    PLL_LOCK_BIT, PLL_OUT_DISABLE, RESET_FREE_ALL, RESET_FREE_DDR, RESET_FREE_DDR_CTL,
    RESET_HOLD_ALL, SEL_CORE_PLL, SEL_HFCLK,
};

verus! {

/// The reference rate every clock consumer is told before the core clock
/// regime changes: 1 GHz.
pub const HFCLK_RATE: u64 = 1_000_000_000;

/// Iterations of the fixed settle delay after the DDR reset release; the
/// de-assertion needs on the order of 16 cycles and exposes no completion
/// status, so the delay is a counted no-op loop.
pub const SETTLE_NOPS: usize = 256;

/// A command the sequencer asks its driver to perform.
#[derive(Clone, Copy, PartialEq, Eq, Structural, Debug)]
pub enum Action {
    /// Ask the environment whether execution is virtualized/emulated.
    QueryEmulation,
    /// Tell the next registered clock consumer the upcoming reference rate.
    NotifyRate(u64),
    /// Write the full 32-bit word to the register.
    WriteReg(PrciReg, u32),
    /// Read the register and answer with `Event::ReadValue`.
    ReadReg(PrciReg),
    /// Issue a hardware/memory fence.
    Fence,
    /// Execute one no-op instruction.
    Nop,
    /// Bring-up is complete (or skipped); nothing further will be asked.
    Done,
}

/// The driver's answer to the previous action.
#[derive(Clone, Copy, PartialEq, Eq, Structural, Debug)]
pub enum Event {
    /// The previous action needed no answer and has been performed.
    Ack,
    /// Answer to `QueryEmulation`.
    Emulated(bool),
    /// Answer to `ReadReg`: the word read.
    ReadValue(u32),
}

/// One completed operation, as recorded in the trace.
#[derive(Clone, Copy, PartialEq, Eq, Structural, Debug)]
pub enum Op {
    /// A consumer was told the new reference rate.
    Notify(u64),
    /// The word was written to the register.
    Write(PrciReg, u32),
    /// The register was read and returned the word.
    Read(PrciReg, u32),
    /// A hardware/memory fence was issued.
    Fence,
    /// One no-op of the settle delay was executed.
    Nop,
}

/// Where the sequencer stands; each phase names the next thing it will do.
#[derive(Clone, Copy, PartialEq, Eq, Structural, Debug)]
pub enum Phase {
    /// Constructed but not triggered; `step` may not be called.
    Idle,
    /// Triggered; first ask the emulation query.
    Start,
    /// Waiting for the emulation answer.
    AwaitEmu,
    /// Notify the next not-yet-notified consumer.
    NotifyNext,
    /// Switch the core clock to the raw crystal.
    SelCrystal,
    /// Write the core PLL preset configuration.
    CoreCfg,
    /// Issue a read of the core PLL lock status.
    PollCore,
    /// Waiting for the core PLL lock-status word.
    PollCoreWait,
    /// Write `ResetControl` holding every sub-block in reset.
    HoldResets,
    /// Disable the DDR PLL output stage.
    DdrDisable,
    /// Write the DDR PLL preset configuration.
    DdrCfg,
    /// Issue a read of the DDR PLL lock status.
    PollDdr,
    /// Waiting for the DDR PLL lock-status word.
    PollDdrWait,
    /// Release the DDR controller's reset line.
    FreeDdrCtl,
    /// Fence after the DDR controller release.
    FenceDdrCtl,
    /// Release the DDR AXI, AHB and PHY reset lines.
    FreeDdrBus,
    /// Fence after the DDR bus/PHY release.
    FenceDdrBus,
    /// Execute the next no-op of the fixed settle delay.
    Settle,
    /// Disable the Ethernet PLL output stage.
    GeDisable,
    /// Write the Ethernet PLL preset configuration.
    GeCfg,
    /// Issue a read of the Ethernet PLL lock status.
    PollGe,
    /// Waiting for the Ethernet PLL lock-status word.
    PollGeWait,
    /// Release the Ethernet reset line: everything out of reset.
    FreeAll,
    /// Final fence.
    FenceAll,
    /// Bring-up complete (or skipped under emulation).
    Finished,
}

/// Error of the lifecycle interface.
#[derive(Clone, Copy, PartialEq, Eq, Structural, Debug)]
pub enum DriverError {
    /// Reading back bring-up state is not supported.
    NotImplemented,
}

/// `k` rate notifications at the fixed reference rate.
pub open spec fn notifies(k: nat) -> Seq<Op> {
    Seq::new(k, |i: int| Op::Notify(HFCLK_RATE))
}

/// The reads of one lock-status poll of register `r`, returning `vs`.
pub open spec fn polls(r: PrciReg, vs: Seq<u32>) -> Seq<Op> {
    Seq::new(vs.len(), |i: int| Op::Read(r, vs[i]))
}

/// `k` no-ops of the settle delay.
pub open spec fn settles(k: nat) -> Seq<Op> {
    Seq::new(k, |i: int| Op::Nop)
}

/// No word of `vs` reports lock.
pub open spec fn all_unlocked(vs: Seq<u32>) -> bool {
    forall|i: int| 0 <= i < vs.len() ==> !pll_locked(vs[i])
}

/// `vs` is a finished poll: the last read reports lock, none before it does.
pub open spec fn poll_done(vs: Seq<u32>) -> bool {
    vs.len() >= 1 && pll_locked(vs.last()) && all_unlocked(vs.drop_last())
}

/// Everything up to and including the core PLL configuration write.
pub open spec fn core_setup(n: nat) -> Seq<Op> {
    notifies(n) + seq![
        Op::Write(PrciReg::ClockSelect, SEL_HFCLK),
        Op::Write(PrciReg::CorePllCfg, CORE_PLL_CFG),
    ]
}

/// Everything up to and including the DDR PLL configuration write.
pub open spec fn ddr_setup(n: nat, core_p: Seq<u32>) -> Seq<Op> {
    core_setup(n) + polls(PrciReg::CorePllCfg, core_p) + seq![
        Op::Write(PrciReg::ClockSelect, SEL_CORE_PLL),
        Op::Write(PrciReg::ResetControl, RESET_HOLD_ALL),
        Op::Write(PrciReg::DdrPllCfg1, PLL_OUT_DISABLE),
        Op::Write(PrciReg::DdrPllCfg0, DDR_PLL_CFG),
    ]
}

/// Everything up to and including the fence after the DDR bus/PHY release.
pub open spec fn ddr_release(n: nat, core_p: Seq<u32>, ddr_p: Seq<u32>) -> Seq<Op> {
    ddr_setup(n, core_p) + polls(PrciReg::DdrPllCfg0, ddr_p) + seq![
        Op::Write(PrciReg::DdrPllCfg1, DDR_OUT_ENABLE),
        Op::Write(PrciReg::ResetControl, RESET_FREE_DDR_CTL),
        Op::Fence,
        Op::Write(PrciReg::ResetControl, RESET_FREE_DDR),
        Op::Fence,
    ]
}

/// Everything up to and including the Ethernet PLL configuration write.
pub open spec fn ge_setup(n: nat, core_p: Seq<u32>, ddr_p: Seq<u32>) -> Seq<Op> {
    ddr_release(n, core_p, ddr_p) + settles(SETTLE_NOPS as nat) + seq![
        Op::Write(PrciReg::GePllCfg1, PLL_OUT_DISABLE),
        Op::Write(PrciReg::GePllCfg0, GE_PLL_CFG),
    ]
}

/// One complete bring-up run with `n` consumers and the three poll
/// sequences `core_p`, `ddr_p` and `ge_p`.
pub open spec fn full_trace(n: nat, core_p: Seq<u32>, ddr_p: Seq<u32>, ge_p: Seq<u32>) -> Seq<Op> {
    ge_setup(n, core_p, ddr_p) + polls(PrciReg::GePllCfg0, ge_p) + seq![
        Op::Write(PrciReg::GePllCfg1, GE_OUT_ENABLE),
        Op::Write(PrciReg::ResetControl, RESET_FREE_ALL),
        Op::Fence,
    ]
}

/// `t` is a complete bring-up trace for `n` consumers: the full protocol,
/// with each PLL polled until the read that finally reported lock.
pub open spec fn complete_bring_up(t: Seq<Op>, n: nat) -> bool {
    exists|c: Seq<u32>, d: Seq<u32>, g: Seq<u32>|
        poll_done(c) && poll_done(d) && poll_done(g) && t == #[trigger] full_trace(n, c, d, g)
}

/// Step calls left until `Done` is returned, counting the call that returns
/// it, when every lock poll succeeds at its first read — as it does against
/// a model whose PLLs lock — and on the emulated path sooner.
pub open spec fn calls_left(c: Clock) -> nat {
    let n = c.consumers as nat;
    match c.phase {
        Phase::Idle => 0,
        Phase::Start => n + 277,
        Phase::AwaitEmu => n + 276,
        Phase::NotifyNext => (276 + n - c.notified) as nat,
        Phase::SelCrystal => 276,
        Phase::CoreCfg => 275,
        Phase::PollCore => 274,
        Phase::PollCoreWait => 273,
        Phase::HoldResets => 272,
        Phase::DdrDisable => 271,
        Phase::DdrCfg => 270,
        Phase::PollDdr => 269,
        Phase::PollDdrWait => 268,
        Phase::FreeDdrCtl => 267,
        Phase::FenceDdrCtl => 266,
        Phase::FreeDdrBus => 265,
        Phase::FenceDdrBus => 264,
        Phase::Settle => (263 - c.settle_count) as nat,
        Phase::GeDisable => 7,
        Phase::GeCfg => 6,
        Phase::PollGe => 5,
        Phase::PollGeWait => 4,
        Phase::FreeAll => 3,
        Phase::FenceAll => 2,
        Phase::Finished => 1,
    }
}

/// The clock bring-up sequencer for a block with `consumers` registered
/// downstream clock consumers.
pub struct Clock {
    pub phase: Phase,
    pub consumers: usize,
    pub notified: usize,
    pub settle_count: usize,
    /// Every operation performed so far, in order.
    pub trace: Ghost<Seq<Op>>,
    /// The lock-status words read while polling the core PLL.
    pub core_polls: Ghost<Seq<u32>>,
    /// The lock-status words read while polling the DDR PLL.
    pub ddr_polls: Ghost<Seq<u32>>,
    /// The lock-status words read while polling the Ethernet PLL.
    pub ge_polls: Ghost<Seq<u32>>,
}

/// The event a phase is prepared to consume.
pub open spec fn expects(p: Phase, ev: Event) -> bool {
    match p {
        Phase::Idle => false,
        Phase::AwaitEmu => ev is Emulated,
        Phase::PollCoreWait | Phase::PollDdrWait | Phase::PollGeWait => ev is ReadValue,
        _ => ev == Event::Ack,
    }
}

/// The poll sequences are unchanged across the step.
pub open spec fn same_polls(pre: Clock, post: Clock) -> bool {
    &&& post.core_polls@ == pre.core_polls@
    &&& post.ddr_polls@ == pre.ddr_polls@
    &&& post.ge_polls@ == pre.ge_polls@
}

/// The notification and settle counters are unchanged across the step.
pub open spec fn same_counts(pre: Clock, post: Clock) -> bool {
    &&& post.notified == pre.notified
    &&& post.settle_count == pre.settle_count
}

/// The step performed exactly the register write of `v` to `r` and moved to
/// phase `next`.
pub open spec fn write_step(pre: Clock, post: Clock, a: Action, r: PrciReg, v: u32, next: Phase) -> bool {
    &&& a == Action::WriteReg(r, v)
    &&& post.phase == next
    &&& post.trace@ == pre.trace@.push(Op::Write(r, v))
    &&& same_counts(pre, post)
    &&& same_polls(pre, post)
}

/// The step issued exactly one fence and moved to phase `next`.
pub open spec fn fence_step(pre: Clock, post: Clock, a: Action, next: Phase) -> bool {
    &&& a == Action::Fence
    &&& post.phase == next
    &&& post.trace@ == pre.trace@.push(Op::Fence)
    &&& same_counts(pre, post)
    &&& same_polls(pre, post)
}

/// The step issued a lock-status read of `r` without recording anything yet,
/// and now waits in phase `next` for the value.
pub open spec fn read_step(pre: Clock, post: Clock, a: Action, r: PrciReg, next: Phase) -> bool {
    &&& a == Action::ReadReg(r)
    &&& post.phase == next
    &&& post.trace@ == pre.trace@
    &&& same_counts(pre, post)
    &&& same_polls(pre, post)
}

/// The transition relation of the sequencer: what one `step` call from `pre`
/// under event `ev` does — the action it returns, the operations it records,
/// and the phase it moves to. This is the protocol, stated once.
pub open spec fn step_spec(pre: Clock, ev: Event, post: Clock, a: Action) -> bool {
    match pre.phase {
        Phase::Idle => false,
        Phase::Start => {
            &&& a == Action::QueryEmulation
            &&& post.phase == Phase::AwaitEmu
            &&& post.trace@ == pre.trace@
            &&& same_counts(pre, post)
            &&& same_polls(pre, post)
        },
        Phase::AwaitEmu => {
            &&& ev matches Event::Emulated(e)
            &&& if e {
                // Emulation: no PLL hardware; finish without touching anything.
                &&& a == Action::Done
                &&& post.phase == Phase::Finished
                &&& post.trace@ == pre.trace@
                &&& same_counts(pre, post)
                &&& same_polls(pre, post)
            } else if pre.consumers == 0 {
                write_step(pre, post, a, PrciReg::ClockSelect, SEL_HFCLK, Phase::CoreCfg)
            } else {
                &&& a == Action::NotifyRate(HFCLK_RATE)
                &&& post.phase == (if pre.consumers == 1 {
                    Phase::SelCrystal
                } else {
                    Phase::NotifyNext
                })
                &&& post.trace@ == pre.trace@.push(Op::Notify(HFCLK_RATE))
                &&& post.notified == 1
                &&& post.settle_count == pre.settle_count
                &&& same_polls(pre, post)
            }
        },
        Phase::NotifyNext => {
            &&& a == Action::NotifyRate(HFCLK_RATE)
            &&& post.phase == (if pre.notified + 1 == pre.consumers {
                Phase::SelCrystal
            } else {
                Phase::NotifyNext
            })
            &&& post.trace@ == pre.trace@.push(Op::Notify(HFCLK_RATE))
            &&& post.notified == pre.notified + 1
            &&& post.settle_count == pre.settle_count
            &&& same_polls(pre, post)
        },
        Phase::SelCrystal => write_step(
            pre, post, a, PrciReg::ClockSelect, SEL_HFCLK, Phase::CoreCfg,
        ),
        Phase::CoreCfg => {
            &&& a == Action::WriteReg(PrciReg::CorePllCfg, CORE_PLL_CFG)
            &&& post.phase == Phase::PollCore
            &&& post.trace@ == pre.trace@.push(Op::Write(PrciReg::CorePllCfg, CORE_PLL_CFG))
            &&& same_counts(pre, post)
            &&& post.core_polls@ == Seq::<u32>::empty()
            &&& post.ddr_polls@ == pre.ddr_polls@
            &&& post.ge_polls@ == pre.ge_polls@
        },
        Phase::PollCore => read_step(pre, post, a, PrciReg::CorePllCfg, Phase::PollCoreWait),
        Phase::PollCoreWait => {
            &&& ev matches Event::ReadValue(v)
            &&& post.core_polls@ == pre.core_polls@.push(v)
            &&& post.ddr_polls@ == pre.ddr_polls@
            &&& post.ge_polls@ == pre.ge_polls@
            &&& same_counts(pre, post)
            &&& if pll_locked(v) {
                &&& a == Action::WriteReg(PrciReg::ClockSelect, SEL_CORE_PLL)
                &&& post.phase == Phase::HoldResets
                &&& post.trace@ == pre.trace@ + seq![
                    Op::Read(PrciReg::CorePllCfg, v),
                    Op::Write(PrciReg::ClockSelect, SEL_CORE_PLL),
                ]
            } else {
                &&& a == Action::ReadReg(PrciReg::CorePllCfg)
                &&& post.phase == Phase::PollCoreWait
                &&& post.trace@ == pre.trace@.push(Op::Read(PrciReg::CorePllCfg, v))
            }
        },
        Phase::HoldResets => write_step(
            pre, post, a, PrciReg::ResetControl, RESET_HOLD_ALL, Phase::DdrDisable,
        ),
        Phase::DdrDisable => write_step(
            pre, post, a, PrciReg::DdrPllCfg1, PLL_OUT_DISABLE, Phase::DdrCfg,
        ),
        Phase::DdrCfg => {
            &&& a == Action::WriteReg(PrciReg::DdrPllCfg0, DDR_PLL_CFG)
            &&& post.phase == Phase::PollDdr
            &&& post.trace@ == pre.trace@.push(Op::Write(PrciReg::DdrPllCfg0, DDR_PLL_CFG))
            &&& same_counts(pre, post)
            &&& post.ddr_polls@ == Seq::<u32>::empty()
            &&& post.core_polls@ == pre.core_polls@
            &&& post.ge_polls@ == pre.ge_polls@
        },
        Phase::PollDdr => read_step(pre, post, a, PrciReg::DdrPllCfg0, Phase::PollDdrWait),
        Phase::PollDdrWait => {
            &&& ev matches Event::ReadValue(v)
            &&& post.ddr_polls@ == pre.ddr_polls@.push(v)
            &&& post.core_polls@ == pre.core_polls@
            &&& post.ge_polls@ == pre.ge_polls@
            &&& same_counts(pre, post)
            &&& if pll_locked(v) {
                &&& a == Action::WriteReg(PrciReg::DdrPllCfg1, DDR_OUT_ENABLE)
                &&& post.phase == Phase::FreeDdrCtl
                &&& post.trace@ == pre.trace@ + seq![
                    Op::Read(PrciReg::DdrPllCfg0, v),
                    Op::Write(PrciReg::DdrPllCfg1, DDR_OUT_ENABLE),
                ]
            } else {
                &&& a == Action::ReadReg(PrciReg::DdrPllCfg0)
                &&& post.phase == Phase::PollDdrWait
                &&& post.trace@ == pre.trace@.push(Op::Read(PrciReg::DdrPllCfg0, v))
            }
        },
        Phase::FreeDdrCtl => write_step(
            pre, post, a, PrciReg::ResetControl, RESET_FREE_DDR_CTL, Phase::FenceDdrCtl,
        ),
        Phase::FenceDdrCtl => fence_step(pre, post, a, Phase::FreeDdrBus),
        Phase::FreeDdrBus => write_step(
            pre, post, a, PrciReg::ResetControl, RESET_FREE_DDR, Phase::FenceDdrBus,
        ),
        Phase::FenceDdrBus => {
            &&& a == Action::Fence
            &&& post.phase == Phase::Settle
            &&& post.trace@ == pre.trace@.push(Op::Fence)
            &&& post.notified == pre.notified
            &&& post.settle_count == 0
            &&& same_polls(pre, post)
        },
        Phase::Settle => {
            &&& a == Action::Nop
            &&& post.phase == (if pre.settle_count + 1 == SETTLE_NOPS {
                Phase::GeDisable
            } else {
                Phase::Settle
            })
            &&& post.trace@ == pre.trace@.push(Op::Nop)
            &&& post.notified == pre.notified
            &&& post.settle_count == pre.settle_count + 1
            &&& same_polls(pre, post)
        },
        Phase::GeDisable => write_step(
            pre, post, a, PrciReg::GePllCfg1, PLL_OUT_DISABLE, Phase::GeCfg,
        ),
        Phase::GeCfg => {
            &&& a == Action::WriteReg(PrciReg::GePllCfg0, GE_PLL_CFG)
            &&& post.phase == Phase::PollGe
            &&& post.trace@ == pre.trace@.push(Op::Write(PrciReg::GePllCfg0, GE_PLL_CFG))
            &&& same_counts(pre, post)
            &&& post.ge_polls@ == Seq::<u32>::empty()
            &&& post.core_polls@ == pre.core_polls@
            &&& post.ddr_polls@ == pre.ddr_polls@
        },
        Phase::PollGe => read_step(pre, post, a, PrciReg::GePllCfg0, Phase::PollGeWait),
        Phase::PollGeWait => {
            &&& ev matches Event::ReadValue(v)
            &&& post.ge_polls@ == pre.ge_polls@.push(v)
            &&& post.core_polls@ == pre.core_polls@
            &&& post.ddr_polls@ == pre.ddr_polls@
            &&& same_counts(pre, post)
            &&& if pll_locked(v) {
                &&& a == Action::WriteReg(PrciReg::GePllCfg1, GE_OUT_ENABLE)
                &&& post.phase == Phase::FreeAll
                &&& post.trace@ == pre.trace@ + seq![
                    Op::Read(PrciReg::GePllCfg0, v),
                    Op::Write(PrciReg::GePllCfg1, GE_OUT_ENABLE),
                ]
            } else {
                &&& a == Action::ReadReg(PrciReg::GePllCfg0)
                &&& post.phase == Phase::PollGeWait
                &&& post.trace@ == pre.trace@.push(Op::Read(PrciReg::GePllCfg0, v))
            }
        },
        Phase::FreeAll => write_step(
            pre, post, a, PrciReg::ResetControl, RESET_FREE_ALL, Phase::FenceAll,
        ),
        Phase::FenceAll => fence_step(pre, post, a, Phase::Finished),
        Phase::Finished => {
            &&& a == Action::Done
            &&& post.phase == Phase::Finished
            &&& post.trace@ == pre.trace@
            &&& same_counts(pre, post)
            &&& same_polls(pre, post)
        },
    }
}

impl Clock {
    /// The machine's invariant: in every phase, the trace is exactly the
    /// protocol prefix that phase stands after.
    pub open spec fn wf(self) -> bool {
        let t = self.trace@;
        let n = self.consumers as nat;
        let cp = self.core_polls@;
        let dp = self.ddr_polls@;
        let gp = self.ge_polls@;
        match self.phase {
            Phase::Idle | Phase::Start | Phase::AwaitEmu => {
                &&& t == Seq::<Op>::empty()
                &&& self.notified == 0
            },
            Phase::NotifyNext => {
                &&& self.notified < self.consumers
                &&& t == notifies(self.notified as nat)
            },
            Phase::SelCrystal => {
                &&& self.notified == self.consumers
                &&& t == notifies(n)
            },
            Phase::CoreCfg => t == notifies(n).push(Op::Write(PrciReg::ClockSelect, SEL_HFCLK)),
            Phase::PollCore | Phase::PollCoreWait => {
                &&& all_unlocked(cp)
                &&& t == core_setup(n) + polls(PrciReg::CorePllCfg, cp)
            },
            Phase::HoldResets => {
                &&& poll_done(cp)
                &&& t == (core_setup(n) + polls(PrciReg::CorePllCfg, cp)).push(
                    Op::Write(PrciReg::ClockSelect, SEL_CORE_PLL),
                )
            },
            Phase::DdrDisable => {
                &&& poll_done(cp)
                &&& t == core_setup(n) + polls(PrciReg::CorePllCfg, cp) + seq![
                    Op::Write(PrciReg::ClockSelect, SEL_CORE_PLL),
                    Op::Write(PrciReg::ResetControl, RESET_HOLD_ALL),
                ]
            },
            Phase::DdrCfg => {
                &&& poll_done(cp)
                &&& t == core_setup(n) + polls(PrciReg::CorePllCfg, cp) + seq![
                    Op::Write(PrciReg::ClockSelect, SEL_CORE_PLL),
                    Op::Write(PrciReg::ResetControl, RESET_HOLD_ALL),
                    Op::Write(PrciReg::DdrPllCfg1, PLL_OUT_DISABLE),
                ]
            },
            Phase::PollDdr | Phase::PollDdrWait => {
                &&& poll_done(cp)
                &&& all_unlocked(dp)
                &&& t == ddr_setup(n, cp) + polls(PrciReg::DdrPllCfg0, dp)
            },
            Phase::FreeDdrCtl => {
                &&& poll_done(cp)
                &&& poll_done(dp)
                &&& t == (ddr_setup(n, cp) + polls(PrciReg::DdrPllCfg0, dp)).push(
                    Op::Write(PrciReg::DdrPllCfg1, DDR_OUT_ENABLE),
                )
            },
            Phase::FenceDdrCtl => {
                &&& poll_done(cp)
                &&& poll_done(dp)
                &&& t == ddr_setup(n, cp) + polls(PrciReg::DdrPllCfg0, dp) + seq![
                    Op::Write(PrciReg::DdrPllCfg1, DDR_OUT_ENABLE),
                    Op::Write(PrciReg::ResetControl, RESET_FREE_DDR_CTL),
                ]
            },
            Phase::FreeDdrBus => {
                &&& poll_done(cp)
                &&& poll_done(dp)
                &&& t == ddr_setup(n, cp) + polls(PrciReg::DdrPllCfg0, dp) + seq![
                    Op::Write(PrciReg::DdrPllCfg1, DDR_OUT_ENABLE),
                    Op::Write(PrciReg::ResetControl, RESET_FREE_DDR_CTL),
                    Op::Fence,
                ]
            },
            Phase::FenceDdrBus => {
                &&& poll_done(cp)
                &&& poll_done(dp)
                &&& t == ddr_setup(n, cp) + polls(PrciReg::DdrPllCfg0, dp) + seq![
                    Op::Write(PrciReg::DdrPllCfg1, DDR_OUT_ENABLE),
                    Op::Write(PrciReg::ResetControl, RESET_FREE_DDR_CTL),
                    Op::Fence,
                    Op::Write(PrciReg::ResetControl, RESET_FREE_DDR),
                ]
            },
            Phase::Settle => {
                &&& poll_done(cp)
                &&& poll_done(dp)
                &&& self.settle_count < SETTLE_NOPS
                &&& t == ddr_release(n, cp, dp) + settles(self.settle_count as nat)
            },
            Phase::GeDisable => {
                &&& poll_done(cp)
                &&& poll_done(dp)
                &&& t == ddr_release(n, cp, dp) + settles(SETTLE_NOPS as nat)
            },
            Phase::GeCfg => {
                &&& poll_done(cp)
                &&& poll_done(dp)
                &&& t == (ddr_release(n, cp, dp) + settles(SETTLE_NOPS as nat)).push(
                    Op::Write(PrciReg::GePllCfg1, PLL_OUT_DISABLE),
                )
            },
            Phase::PollGe | Phase::PollGeWait => {
                &&& poll_done(cp)
                &&& poll_done(dp)
                &&& all_unlocked(gp)
                &&& t == ge_setup(n, cp, dp) + polls(PrciReg::GePllCfg0, gp)
            },
            Phase::FreeAll => {
                &&& poll_done(cp)
                &&& poll_done(dp)
                &&& poll_done(gp)
                &&& t == (ge_setup(n, cp, dp) + polls(PrciReg::GePllCfg0, gp)).push(
                    Op::Write(PrciReg::GePllCfg1, GE_OUT_ENABLE),
                )
            },
            Phase::FenceAll => {
                &&& poll_done(cp)
                &&& poll_done(dp)
                &&& poll_done(gp)
                &&& t == ge_setup(n, cp, dp) + polls(PrciReg::GePllCfg0, gp) + seq![
                    Op::Write(PrciReg::GePllCfg1, GE_OUT_ENABLE),
                    Op::Write(PrciReg::ResetControl, RESET_FREE_ALL),
                ]
            },
            Phase::Finished => t == Seq::<Op>::empty() || complete_bring_up(t, n),
        }
    }

    /// A fresh sequencer for `consumers` registered clock consumers. It does
    /// nothing until triggered through `pwrite`.
    pub fn new(consumers: usize) -> (c: Clock)
        ensures
            c.wf(),
            c.phase == Phase::Idle,
            c.consumers == consumers,
            c.trace@ == Seq::<Op>::empty(),
    {
        Clock {
            phase: Phase::Idle,
            consumers,
            notified: 0,
            settle_count: 0,
            trace: Ghost(Seq::empty()),
            core_polls: Ghost(Seq::empty()),
            ddr_polls: Ghost(Seq::empty()),
            ge_polls: Ghost(Seq::empty()),
        }
    }

    /// Performs one transition of the bring-up protocol: consumes the outcome
    /// of the previous action and returns the next action to perform.
    pub fn step(&mut self, ev: Event) -> (a: Action)
        requires
            old(self).wf(),
            expects(old(self).phase, ev),
        ensures
            final(self).wf(),
            final(self).consumers == old(self).consumers,
            step_spec(*old(self), ev, *final(self), a),
    {
        let ghost n = self.consumers as nat;
        match self.phase {
            Phase::Idle => unreached(),
            Phase::Start => {
                self.phase = Phase::AwaitEmu;
                Action::QueryEmulation
            },
            Phase::AwaitEmu => {
                let e = match ev {
                    Event::Emulated(b) => b,
                    _ => unreached(),
                };
                if e {
                    self.phase = Phase::Finished;
                    Action::Done
                } else if self.consumers == 0 {
                    self.phase = Phase::CoreCfg;
                    self.trace = Ghost(
                        self.trace@.push(Op::Write(PrciReg::ClockSelect, SEL_HFCLK)),
                    );
                    proof {
                        assert(self.trace@ =~= notifies(n).push(
                            Op::Write(PrciReg::ClockSelect, SEL_HFCLK),
                        ));
                    }
                    Action::WriteReg(PrciReg::ClockSelect, SEL_HFCLK)
                } else {
                    self.notified = 1;
                    self.trace = Ghost(self.trace@.push(Op::Notify(HFCLK_RATE)));
                    if self.consumers == 1 {
                        self.phase = Phase::SelCrystal;
                    } else {
                        self.phase = Phase::NotifyNext;
                    }
                    proof {
                        assert(self.trace@ =~= notifies(1));
                    }
                    Action::NotifyRate(HFCLK_RATE)
                }
            },
            Phase::NotifyNext => {
                self.notified = self.notified + 1;
                self.trace = Ghost(self.trace@.push(Op::Notify(HFCLK_RATE)));
                if self.notified == self.consumers {
                    self.phase = Phase::SelCrystal;
                } else {
                    self.phase = Phase::NotifyNext;
                }
                proof {
                    assert(self.trace@ =~= notifies(self.notified as nat));
                }
                Action::NotifyRate(HFCLK_RATE)
            },
            Phase::SelCrystal => {
                self.phase = Phase::CoreCfg;
                self.trace = Ghost(self.trace@.push(Op::Write(PrciReg::ClockSelect, SEL_HFCLK)));
                Action::WriteReg(PrciReg::ClockSelect, SEL_HFCLK)
            },
            Phase::CoreCfg => {
                self.phase = Phase::PollCore;
                self.trace = Ghost(self.trace@.push(Op::Write(PrciReg::CorePllCfg, CORE_PLL_CFG)));
                self.core_polls = Ghost(Seq::empty());
                proof {
                    assert(self.trace@ =~= core_setup(n) + polls(
                        PrciReg::CorePllCfg,
                        self.core_polls@,
                    ));
                }
                Action::WriteReg(PrciReg::CorePllCfg, CORE_PLL_CFG)
            },
            Phase::PollCore => {
                self.phase = Phase::PollCoreWait;
                Action::ReadReg(PrciReg::CorePllCfg)
            },
            Phase::PollCoreWait => {
                let v = match ev {
                    Event::ReadValue(x) => x,
                    _ => unreached(),
                };
                self.trace = Ghost(self.trace@.push(Op::Read(PrciReg::CorePllCfg, v)));
                self.core_polls = Ghost(self.core_polls@.push(v));
                proof {
                    assert(self.core_polls@.drop_last() =~= old(self).core_polls@);
                    assert(self.trace@ =~= core_setup(n) + polls(
                        PrciReg::CorePllCfg,
                        self.core_polls@,
                    ));
                }
                if v & PLL_LOCK_BIT != 0 {
                    self.phase = Phase::HoldResets;
                    self.trace = Ghost(
                        self.trace@.push(Op::Write(PrciReg::ClockSelect, SEL_CORE_PLL)),
                    );
                    proof {
                        assert(self.trace@ =~= old(self).trace@ + seq![
                            Op::Read(PrciReg::CorePllCfg, v),
                            Op::Write(PrciReg::ClockSelect, SEL_CORE_PLL),
                        ]);
                    }
                    Action::WriteReg(PrciReg::ClockSelect, SEL_CORE_PLL)
                } else {
                    self.phase = Phase::PollCoreWait;
                    proof {
                        assert(all_unlocked(self.core_polls@));
                    }
                    Action::ReadReg(PrciReg::CorePllCfg)
                }
            },
            Phase::HoldResets => {
                self.phase = Phase::DdrDisable;
                self.trace = Ghost(self.trace@.push(Op::Write(PrciReg::ResetControl, RESET_HOLD_ALL)));
                proof {
                    assert(self.trace@ =~= core_setup(n) + polls(
                        PrciReg::CorePllCfg,
                        self.core_polls@,
                    ) + seq![
                        Op::Write(PrciReg::ClockSelect, SEL_CORE_PLL),
                        Op::Write(PrciReg::ResetControl, RESET_HOLD_ALL),
                    ]);
                }
                Action::WriteReg(PrciReg::ResetControl, RESET_HOLD_ALL)
            },
            Phase::DdrDisable => {
                self.phase = Phase::DdrCfg;
                self.trace = Ghost(self.trace@.push(Op::Write(PrciReg::DdrPllCfg1, PLL_OUT_DISABLE)));
                proof {
                    assert(self.trace@ =~= core_setup(n) + polls(
                        PrciReg::CorePllCfg,
                        self.core_polls@,
                    ) + seq![
                        Op::Write(PrciReg::ClockSelect, SEL_CORE_PLL),
                        Op::Write(PrciReg::ResetControl, RESET_HOLD_ALL),
                        Op::Write(PrciReg::DdrPllCfg1, PLL_OUT_DISABLE),
                    ]);
                }
                Action::WriteReg(PrciReg::DdrPllCfg1, PLL_OUT_DISABLE)
            },
            Phase::DdrCfg => {
                self.phase = Phase::PollDdr;
                self.trace = Ghost(self.trace@.push(Op::Write(PrciReg::DdrPllCfg0, DDR_PLL_CFG)));
                self.ddr_polls = Ghost(Seq::empty());
                proof {
                    assert(self.trace@ =~= ddr_setup(n, self.core_polls@) + polls(
                        PrciReg::DdrPllCfg0,
                        self.ddr_polls@,
                    ));
                }
                Action::WriteReg(PrciReg::DdrPllCfg0, DDR_PLL_CFG)
            },
            Phase::PollDdr => {
                self.phase = Phase::PollDdrWait;
                Action::ReadReg(PrciReg::DdrPllCfg0)
            },
            Phase::PollDdrWait => {
                let v = match ev {
                    Event::ReadValue(x) => x,
                    _ => unreached(),
                };
                self.trace = Ghost(self.trace@.push(Op::Read(PrciReg::DdrPllCfg0, v)));
                self.ddr_polls = Ghost(self.ddr_polls@.push(v));
                proof {
                    assert(self.ddr_polls@.drop_last() =~= old(self).ddr_polls@);
                    assert(self.trace@ =~= ddr_setup(n, self.core_polls@) + polls(
                        PrciReg::DdrPllCfg0,
                        self.ddr_polls@,
                    ));
                }
                if v & PLL_LOCK_BIT != 0 {
                    self.phase = Phase::FreeDdrCtl;
                    self.trace = Ghost(
                        self.trace@.push(Op::Write(PrciReg::DdrPllCfg1, DDR_OUT_ENABLE)),
                    );
                    proof {
                        assert(self.trace@ =~= old(self).trace@ + seq![
                            Op::Read(PrciReg::DdrPllCfg0, v),
                            Op::Write(PrciReg::DdrPllCfg1, DDR_OUT_ENABLE),
                        ]);
                    }
                    Action::WriteReg(PrciReg::DdrPllCfg1, DDR_OUT_ENABLE)
                } else {
                    self.phase = Phase::PollDdrWait;
                    proof {
                        assert(all_unlocked(self.ddr_polls@));
                    }
                    Action::ReadReg(PrciReg::DdrPllCfg0)
                }
            },
            Phase::FreeDdrCtl => {
                self.phase = Phase::FenceDdrCtl;
                self.trace = Ghost(
                    self.trace@.push(Op::Write(PrciReg::ResetControl, RESET_FREE_DDR_CTL)),
                );
                proof {
                    assert(self.trace@ =~= ddr_setup(n, self.core_polls@) + polls(
                        PrciReg::DdrPllCfg0,
                        self.ddr_polls@,
                    ) + seq![
                        Op::Write(PrciReg::DdrPllCfg1, DDR_OUT_ENABLE),
                        Op::Write(PrciReg::ResetControl, RESET_FREE_DDR_CTL),
                    ]);
                }
                Action::WriteReg(PrciReg::ResetControl, RESET_FREE_DDR_CTL)
            },
            Phase::FenceDdrCtl => {
                self.phase = Phase::FreeDdrBus;
                self.trace = Ghost(self.trace@.push(Op::Fence));
                proof {
                    assert(self.trace@ =~= ddr_setup(n, self.core_polls@) + polls(
                        PrciReg::DdrPllCfg0,
                        self.ddr_polls@,
                    ) + seq![
                        Op::Write(PrciReg::DdrPllCfg1, DDR_OUT_ENABLE),
                        Op::Write(PrciReg::ResetControl, RESET_FREE_DDR_CTL),
                        Op::Fence,
                    ]);
                }
                Action::Fence
            },
            Phase::FreeDdrBus => {
                self.phase = Phase::FenceDdrBus;
                self.trace = Ghost(self.trace@.push(Op::Write(PrciReg::ResetControl, RESET_FREE_DDR)));
                proof {
                    assert(self.trace@ =~= ddr_setup(n, self.core_polls@) + polls(
                        PrciReg::DdrPllCfg0,
                        self.ddr_polls@,
                    ) + seq![
                        Op::Write(PrciReg::DdrPllCfg1, DDR_OUT_ENABLE),
                        Op::Write(PrciReg::ResetControl, RESET_FREE_DDR_CTL),
                        Op::Fence,
                        Op::Write(PrciReg::ResetControl, RESET_FREE_DDR),
                    ]);
                }
                Action::WriteReg(PrciReg::ResetControl, RESET_FREE_DDR)
            },
            Phase::FenceDdrBus => {
                self.phase = Phase::Settle;
                self.settle_count = 0;
                self.trace = Ghost(self.trace@.push(Op::Fence));
                proof {
                    assert(self.trace@ =~= ddr_release(n, self.core_polls@, self.ddr_polls@)
                        + settles(0));
                }
                Action::Fence
            },
            Phase::Settle => {
                self.settle_count = self.settle_count + 1;
                self.trace = Ghost(self.trace@.push(Op::Nop));
                if self.settle_count == SETTLE_NOPS {
                    self.phase = Phase::GeDisable;
                } else {
                    self.phase = Phase::Settle;
                }
                proof {
                    assert(self.trace@ =~= ddr_release(n, self.core_polls@, self.ddr_polls@)
                        + settles(self.settle_count as nat));
                }
                Action::Nop
            },
            Phase::GeDisable => {
                self.phase = Phase::GeCfg;
                self.trace = Ghost(self.trace@.push(Op::Write(PrciReg::GePllCfg1, PLL_OUT_DISABLE)));
                Action::WriteReg(PrciReg::GePllCfg1, PLL_OUT_DISABLE)
            },
            Phase::GeCfg => {
                self.phase = Phase::PollGe;
                self.trace = Ghost(self.trace@.push(Op::Write(PrciReg::GePllCfg0, GE_PLL_CFG)));
                self.ge_polls = Ghost(Seq::empty());
                proof {
                    assert(self.trace@ =~= ge_setup(n, self.core_polls@, self.ddr_polls@) + polls(
                        PrciReg::GePllCfg0,
                        self.ge_polls@,
                    ));
                }
                Action::WriteReg(PrciReg::GePllCfg0, GE_PLL_CFG)
            },
            Phase::PollGe => {
                self.phase = Phase::PollGeWait;
                Action::ReadReg(PrciReg::GePllCfg0)
            },
            Phase::PollGeWait => {
                let v = match ev {
                    Event::ReadValue(x) => x,
                    _ => unreached(),
                };
                self.trace = Ghost(self.trace@.push(Op::Read(PrciReg::GePllCfg0, v)));
                self.ge_polls = Ghost(self.ge_polls@.push(v));
                proof {
                    assert(self.ge_polls@.drop_last() =~= old(self).ge_polls@);
                    assert(self.trace@ =~= ge_setup(n, self.core_polls@, self.ddr_polls@) + polls(
                        PrciReg::GePllCfg0,
                        self.ge_polls@,
                    ));
                }
                if v & PLL_LOCK_BIT != 0 {
                    self.phase = Phase::FreeAll;
                    self.trace = Ghost(
                        self.trace@.push(Op::Write(PrciReg::GePllCfg1, GE_OUT_ENABLE)),
                    );
                    proof {
                        assert(self.trace@ =~= old(self).trace@ + seq![
                            Op::Read(PrciReg::GePllCfg0, v),
                            Op::Write(PrciReg::GePllCfg1, GE_OUT_ENABLE),
                        ]);
                    }
                    Action::WriteReg(PrciReg::GePllCfg1, GE_OUT_ENABLE)
                } else {
                    self.phase = Phase::PollGeWait;
                    proof {
                        assert(all_unlocked(self.ge_polls@));
                    }
                    Action::ReadReg(PrciReg::GePllCfg0)
                }
            },
            Phase::FreeAll => {
                self.phase = Phase::FenceAll;
                self.trace = Ghost(self.trace@.push(Op::Write(PrciReg::ResetControl, RESET_FREE_ALL)));
                proof {
                    assert(self.trace@ =~= ge_setup(n, self.core_polls@, self.ddr_polls@) + polls(
                        PrciReg::GePllCfg0,
                        self.ge_polls@,
                    ) + seq![
                        Op::Write(PrciReg::GePllCfg1, GE_OUT_ENABLE),
                        Op::Write(PrciReg::ResetControl, RESET_FREE_ALL),
                    ]);
                }
                Action::WriteReg(PrciReg::ResetControl, RESET_FREE_ALL)
            },
            Phase::FenceAll => {
                self.phase = Phase::Finished;
                self.trace = Ghost(self.trace@.push(Op::Fence));
                proof {
                    assert(self.trace@ =~= full_trace(
                        n,
                        self.core_polls@,
                        self.ddr_polls@,
                        self.ge_polls@,
                    ));
                    assert(complete_bring_up(self.trace@, n));
                }
                Action::Fence
            },
            Phase::Finished => Action::Done,
        }
    }
}

/// The trigger payload of the lifecycle write operation.
pub open spec fn spec_is_trigger(d: Seq<u8>) -> bool {
    d.len() == 2 && d[0] == 111u8 && d[1] == 110u8
}

impl Clock {
    /// Lifecycle initialize: nothing to do; all work happens on the write
    /// trigger.
    pub fn init(&mut self)
        ensures
            *final(self) == *old(self),
    {
    }

    /// Lifecycle read: reading back bring-up state is not supported.
    pub fn pread(&self, data: &mut Vec<u8>, _offset: usize) -> (r: Result<usize, DriverError>)
        ensures
            r == Err::<usize, DriverError>(DriverError::NotImplemented),
            final(data)@ == old(data)@,
    {
        Err(DriverError::NotImplemented)
    }

    /// Lifecycle write: the payload `"on"` triggers bring-up — it arms the
    /// machine, whose actions the caller then drives through `step` — and
    /// reports one unit consumed; any other payload is a no-op reporting
    /// zero.
    pub fn pwrite(&mut self, data: &[u8], _offset: usize) -> (r: Result<usize, DriverError>)
        requires
            old(self).wf(),
            spec_is_trigger(data@) ==> old(self).phase == Phase::Idle,
        ensures
            final(self).wf(),
            spec_is_trigger(data@) ==> {
                &&& r == Ok::<usize, DriverError>(1)
                &&& final(self).phase == Phase::Start
                &&& final(self).consumers == old(self).consumers
                &&& final(self).trace@ == Seq::<Op>::empty()
            },
            !spec_is_trigger(data@) ==> {
                &&& r == Ok::<usize, DriverError>(0)
                &&& *final(self) == *old(self)
            },
    {
        if data.len() == 2 && data[0] == 111u8 && data[1] == 110u8 {
            self.phase = Phase::Start;
            Ok(1)
        } else {
            Ok(0)
        }
    }

    /// Lifecycle shutdown: nothing to do.
    pub fn shutdown(&mut self)
        ensures
            *final(self) == *old(self),
    {
    }
}

/// Runs a triggered sequencer against the register-level model for at most
/// `max_steps` transitions, performing every action it asks for and logging
/// every completed operation. Returns whether the machine finished, and the
/// log — which is exactly the machine's trace. A finished non-emulated run
/// is one complete bring-up; with `emulated` the machine finishes having
/// touched nothing; with a model whose PLLs never lock it never finishes,
/// the fail-stop spin of the real protocol.
pub fn run_model(
    clock: &mut Clock,
    block: &mut RegisterBlock,
    emulated: bool,
    max_steps: usize,
) -> (r: (bool, Vec<Op>))
    requires
        old(clock).wf(),
        old(clock).phase == Phase::Start,
    ensures
        final(clock).wf(),
        final(clock).consumers == old(clock).consumers,
        r.1@ == final(clock).trace@,
        r.0 ==> final(clock).phase == Phase::Finished,
        r.0 && emulated ==> final(clock).trace@ == Seq::<Op>::empty(),
        r.0 && !emulated ==> complete_bring_up(
            final(clock).trace@,
            old(clock).consumers as nat,
        ),
        (emulated || old(block).plls_lock) && max_steps >= old(clock).consumers + 277 ==> r.0,
        final(block).plls_lock == old(block).plls_lock,
{
    let ghost n0 = old(clock).consumers;
    let ghost lock0 = old(block).plls_lock;
    let mut log: Vec<Op> = Vec::new();
    let mut ev = Event::Ack;
    let mut pending = PrciReg::CorePllCfg;
    let mut done = false;
    let mut i: usize = 0;
    while i < max_steps && !done
        invariant
            clock.wf(),
            clock.consumers == n0,
            log@ == clock.trace@,
            done ==> clock.phase == Phase::Finished,
            !done ==> match clock.phase {
                Phase::Idle => false,
                Phase::AwaitEmu => ev == Event::Emulated(emulated),
                Phase::PollCoreWait => ev is ReadValue && pending == PrciReg::CorePllCfg,
                Phase::PollDdrWait => ev is ReadValue && pending == PrciReg::DdrPllCfg0,
                Phase::PollGeWait => ev is ReadValue && pending == PrciReg::GePllCfg0,
                _ => ev == Event::Ack,
            },
            block.plls_lock == lock0,
            lock0 ==> match clock.phase {
                Phase::PollCore => pll_locked(block.spec_word(PrciReg::CorePllCfg)),
                Phase::PollCoreWait => ev matches Event::ReadValue(v) && pll_locked(v),
                Phase::PollDdr => pll_locked(block.spec_word(PrciReg::DdrPllCfg0)),
                Phase::PollDdrWait => ev matches Event::ReadValue(v) && pll_locked(v),
                Phase::PollGe => pll_locked(block.spec_word(PrciReg::GePllCfg0)),
                Phase::PollGeWait => ev matches Event::ReadValue(v) && pll_locked(v),
                _ => true,
            },
            (emulated || lock0) && !done ==> i + calls_left(*clock) <= n0 + 277,
            emulated ==> clock.trace@ == Seq::<Op>::empty() && (clock.phase == Phase::Start
                || clock.phase == Phase::AwaitEmu || clock.phase == Phase::Finished),
            clock.phase == Phase::Finished && !emulated ==> complete_bring_up(
                clock.trace@,
                n0 as nat,
            ),
        decreases max_steps - i,
    {
        let ghost pre = *clock;
        let a = clock.step(ev);
        match ev {
            Event::ReadValue(v) => {
                log.push(Op::Read(pending, v));
            },
            _ => {},
        }
        match a {
            Action::Done => {
                done = true;
            },
            Action::QueryEmulation => {
                ev = Event::Emulated(emulated);
            },
            Action::NotifyRate(rate) => {
                log.push(Op::Notify(rate));
                ev = Event::Ack;
            },
            Action::WriteReg(r, v) => {
                let ghost pre_block = *block;
                block.write(r, v);
                proof {
                    if pre_block.plls_lock && is_pll_cfg(r) {
                        pre_block.lemma_locking_write_reads_locked(r, v);
                    }
                }
                log.push(Op::Write(r, v));
                ev = Event::Ack;
            },
            Action::ReadReg(r) => {
                let v = block.read(r);
                pending = r;
                ev = Event::ReadValue(v);
            },
            Action::Fence => {
                log.push(Op::Fence);
                ev = Event::Ack;
            },
            Action::Nop => {
                log.push(Op::Nop);
                ev = Event::Ack;
            },
        }
        proof {
            assert(log@ =~= clock.trace@);
        }
        i = i + 1;
    }
    proof {
        if !done && (emulated || lock0) && max_steps >= n0 + 277 {
            assert(calls_left(*clock) >= 1);
            assert(false);
        }
    }
    (done, log)
}

} // verus!
