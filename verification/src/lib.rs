//! An emulator core for a 6502-class 8-bit microprocessor.
//!
//! [`Cpu`] fetches, decodes and executes instructions from a [`Mem`] on a
//! budget of clock cycles. What every instruction does is defined in
//! [`machine`], and the processor is proved to do exactly that.

pub mod cpu;
pub mod machine;
pub mod mem;
pub mod ops;
pub mod status;

pub use cpu::Cpu;
pub use machine::InvalidOpcode;
pub use mem::Mem;
pub use ops::{Instruction, OP_JSR, OP_LDA_IM, OP_LDA_ZP, OP_LDA_ZPX, OP_NOP};
pub use status::{Flag, ProcStatus};
