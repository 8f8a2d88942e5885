//! Core of a small polling kernel: a bounded sequence over caller-supplied
//! storage, the shell's command tokenizer and line editor, and the decision
//! logic of the timer and mini-UART drivers.
use vstd::prelude::*;

pub mod builder;
pub mod command;
pub mod decimal;
pub mod duration;
pub mod gpio;
pub mod shell;
pub mod stack_vec;
pub mod timer;
pub mod uart;

verus! {

/// The physical address at which the peripherals' registers begin.
pub const IO_BASE: usize = 0x3F00_0000;

} // verus!
