//! The core of a user-mode emulator for 64-bit RISC-V programs, verified with
//! Verus: the decoder for the base integer, compressed, multiply and divide
//! and floating-point instructions, the routines that execute them on a hart
//! and a guest memory, the loop that runs a block of them, and a small
//! machine around it that loads a program and lays out its stack.
//!
//! Every executable function states in its contract what it computes, over
//! the mathematical models that stand beside it, and none of them panics.
//! What only the host can do is left to the caller: system calls, and
//! floating-point arithmetic, for which the engine hands out the operand
//! bits and takes back the result bits.

#![allow(non_camel_case_types)]
#![allow(non_upper_case_globals)]

pub mod alu;
pub mod decode;
pub mod elf;
pub mod encode;
pub mod insn;
pub mod interp;
pub mod laws;
pub mod machine;
pub mod mem;
pub mod mmu;
pub mod reg;
pub mod syscall;
pub mod utils;
