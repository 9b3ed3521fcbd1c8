//! Clock and PLL bring-up for the FU540 clock-generation block.
//!
//! The crate separates the bring-up protocol from the hardware it drives.
//! `regs` gives the bit-exact register model of the clock controller;
//! `sequencer` is the one-shot bring-up protocol as a state machine that
//! emits memory-mapped register operations and records them in a ghost
//! trace; `laws` proves the ordering guarantees of every complete trace;
//! `model` is a register-level model of the controller, against which the
//! sequencer can be run and tested.

pub mod laws;
pub mod model;
pub mod regs;
pub mod sequencer;
