//! Emulator core for a minimal 8-bit, bus-oriented, microcode-driven
//! "breadboard" computer: one accumulator, an auxiliary register, a small
//! ALU, a program counter, an instruction register, 16 bytes of memory and
//! a single shared bus.
//!
//! The heart of the crate is the fetch-decode-execute cycle: a microcode
//! decoder maps (opcode, micro-step, flags) to a 16-bit control word, and a
//! bus-update engine applies a control word to the machine state in a fixed
//! write-then-read order within one clock tick.

pub mod laws;
pub mod machine;
pub mod signal;
