//! The signal catalog: the bit position of every control line in a control
//! word, the ALU flag bits, and the opcode values of the instruction set.

use vstd::prelude::*;

verus! {

// Control-word signals. A control word is a 16-bit mask in which each bit
// switches one independent micro-operation on for the current tick.

/// Halt the clock.
pub const HLT: u16 = 0b1000000000000000;

/// Memory address register in (latch the low nibble of the bus).
pub const MI: u16 = 0b0100000000000000;

/// RAM data in (write the bus to memory at the address register).
pub const RI: u16 = 0b0010000000000000;

/// RAM data out (drive memory at the address register onto the bus).
pub const RO: u16 = 0b0001000000000000;

/// Instruction register out (drive the operand nibble onto the bus).
pub const IO: u16 = 0b0000100000000000;

/// Instruction register in.
pub const II: u16 = 0b0000010000000000;

/// A register (accumulator) in.
pub const AI: u16 = 0b0000001000000000;

/// A register (accumulator) out.
pub const AO: u16 = 0b0000000100000000;

/// ALU out (drive the ALU output register onto the bus).
pub const EO: u16 = 0b0000000010000000;

/// ALU subtract (compute A - B instead of A + B).
pub const SU: u16 = 0b0000000001000000;

/// B register in.
pub const BI: u16 = 0b0000000000100000;

/// Output register in.
pub const OI: u16 = 0b0000000000010000;

/// Program counter enable (increment the program counter).
pub const CE: u16 = 0b0000000000001000;

/// Program counter out (drive the program counter onto the bus).
pub const CO: u16 = 0b0000000000000100;

/// Jump (latch the low nibble of the bus into the program counter).
pub const J_: u16 = 0b0000000000000010;

/// ALU flags in (latch the carry and zero flags of the current operation).
pub const FI: u16 = 0b0000000000000001;

// ALU flag bits, held in the flags register.

/// Carry flag: the last flag-setting operation overflowed or underflowed.
pub const CF: u8 = 0b01;

/// Zero flag: the last flag-setting operation produced zero.
pub const ZF: u8 = 0b10;

// Opcodes: the top nibble of an instruction byte. The bottom nibble is the
// operand (an address or a literal) where the opcode takes one.

/// No operation.
pub const MC_NOP: u8 = 0;

/// Load the accumulator from memory at the operand address.
pub const MC_LDA: u8 = 1;

/// Add memory at the operand address to the accumulator.
pub const MC_ADD: u8 = 2;

/// Subtract memory at the operand address from the accumulator.
pub const MC_SUB: u8 = 3;

/// Store the accumulator to memory at the operand address.
pub const MC_STA: u8 = 4;

/// Load the operand literal into the accumulator.
pub const MC_LDI: u8 = 5;

/// Unconditional jump to the operand address.
pub const MC_JMP: u8 = 6;

/// Jump to the operand address if the carry flag is set.
pub const MC_JC: u8 = 7;

/// Jump to the operand address if the zero flag is set.
pub const MC_JZ: u8 = 8;

/// Copy the accumulator to the output register.
pub const MC_OUT: u8 = 14;

/// Halt the machine.
pub const MC_HLT: u8 = 15;

} // verus!
