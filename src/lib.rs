//! An instruction-level emulator of the MOS 6502 processor.
//!
//! The processor state lives in [`reg::Registers`] and [`mem::Memory`]; the
//! interpreter in [`cpu::Cpu`] fetches, decodes ([`instr`]) and executes one
//! instruction at a time, consulting a host probe ([`dbg::Dbg`]) before each
//! instruction. [`semantics`] states what every instruction does to the
//! machine state, the interpreter is proved to follow it, and [`lemmas`]
//! derives facts about instructions and short programs from it. [`hexdump`]
//! reads and writes the hex-dump text format for program images.
pub mod reg;
pub mod mem;
pub mod instr;
pub mod semantics;
pub mod cpu;
pub mod dbg;
pub mod lemmas;
pub mod hexdump;
