//! Laws of the fetch-decode-execute cycle, stated and proved over the
//! specification model of the decoder and the execution engine.

use vstd::prelude::*;

use crate::machine::{spec_alu_overflow, spec_alu_raw, spec_decode, spec_microcode, spec_next};
use crate::machine::{spec_next_ram, spec_tick, EBC};
use crate::signal::{AI, AO, BI, CE, CF, CO, EO, FI, HLT, II, IO, J_, MI, OI, RI, RO, SU, ZF};
use crate::signal::{MC_HLT, MC_JC, MC_JZ};

verus! {

/// The decoder is a pure function of the machine state: two decodes of the
/// same state yield the identical control word.
pub proof fn lemma_decode_deterministic(s1: EBC, s2: EBC)
    requires
        s1 == s2,
    ensures
        spec_decode(s1) == spec_decode(s2),
{
}

/// A conditional jump fires only on its flag. At the decision step, a
/// jump-if-carry decodes to the jump word exactly when the carry flag is
/// set, and to the all-zero word — sequential fall-through — when it is
/// clear; jump-if-zero behaves the same way on the zero flag. Since the
/// flags change only on a tick whose control word sets flags-in, the flag
/// consulted here is the one the most recent flag-setting operation left.
pub proof fn lemma_conditional_jump_gating(s: EBC)
    requires
        s.sc == 2,
    ensures
        s.ir >> 4 == MC_JC ==> spec_decode(s) == (if (s.reg_flgs & CF) != 0 {
            IO | J_
        } else {
            0u16
        }),
        s.ir >> 4 == MC_JZ ==> spec_decode(s) == (if (s.reg_flgs & ZF) != 0 {
            IO | J_
        } else {
            0u16
        }),
{
    assert(spec_microcode(MC_JC, 0) == 0);
    assert(spec_microcode(MC_JZ, 0) == 0);
}

/// The flag register is untouched by any tick whose control word does not
/// set the flags-in signal.
pub proof fn lemma_flags_only_change_on_flags_in(s: EBC, cw: u16, ram: Seq<u8>)
    requires
        (cw & FI) == 0,
    ensures
        spec_tick(s, cw, ram).reg_flgs == s.reg_flgs,
{
}

/// The flag and latch policy of a flag-setting tick. When the operation
/// overflows or underflows, the carry flag is set alone and the ALU output
/// register keeps its prior value; when it stays in range the register
/// latches the result, with the zero flag alone on a zero result and both
/// flags clear otherwise.
pub proof fn lemma_flag_policy(s: EBC, cw: u16, ram: Seq<u8>)
    requires
        (cw & FI) != 0,
    ensures
        spec_alu_overflow(s, cw) ==> spec_tick(s, cw, ram).reg_flgs == CF
            && spec_tick(s, cw, ram).reg_alu == s.reg_alu,
        !spec_alu_overflow(s, cw) ==> spec_tick(s, cw, ram).reg_alu == spec_alu_raw(s, cw),
        !spec_alu_overflow(s, cw) && spec_alu_raw(s, cw) == 0 ==> spec_tick(s, cw, ram).reg_flgs
            == ZF,
        !spec_alu_overflow(s, cw) && spec_alu_raw(s, cw) != 0 ==> spec_tick(s, cw, ram).reg_flgs
            == 0,
{
}

/// Halting is monotonic: once the machine has halted, no control word can
/// clear the halt line again.
pub proof fn lemma_halt_is_monotonic(s: EBC, cw: u16, ram: Seq<u8>)
    requires
        s.hlt,
    ensures
        spec_tick(s, cw, ram).hlt,
{
}

/// Which signals the first fetch word carries: address-in and counter-out,
/// and nothing else.
proof fn lemma_fetch_low_word_bits()
    ensures
        ((MI | CO) & MI) != 0,
        ((MI | CO) & CO) != 0,
        ((MI | CO) & RO) == 0,
        ((MI | CO) & IO) == 0,
        ((MI | CO) & AO) == 0,
        ((MI | CO) & EO) == 0,
        ((MI | CO) & FI) == 0,
        ((MI | CO) & RI) == 0,
        ((MI | CO) & II) == 0,
        ((MI | CO) & AI) == 0,
        ((MI | CO) & BI) == 0,
        ((MI | CO) & OI) == 0,
        ((MI | CO) & J_) == 0,
        ((MI | CO) & CE) == 0,
        ((MI | CO) & HLT) == 0,
{
    assert(((MI | CO) & MI) != 0 && ((MI | CO) & CO) != 0 && ((MI | CO) & RO) == 0 && ((MI | CO)
        & IO) == 0 && ((MI | CO) & AO) == 0 && ((MI | CO) & EO) == 0 && ((MI | CO) & FI) == 0 && ((
    MI | CO) & RI) == 0 && ((MI | CO) & II) == 0 && ((MI | CO) & AI) == 0 && ((MI | CO) & BI) == 0
        && ((MI | CO) & OI) == 0 && ((MI | CO) & J_) == 0 && ((MI | CO) & CE) == 0 && ((MI | CO)
        & HLT) == 0) by (bit_vector);
}

/// Which signals the second fetch word carries: memory-read-out,
/// instruction-in and counter-enable, and nothing else.
proof fn lemma_fetch_high_word_bits()
    ensures
        ((RO | II | CE) & RO) != 0,
        ((RO | II | CE) & II) != 0,
        ((RO | II | CE) & CE) != 0,
        ((RO | II | CE) & IO) == 0,
        ((RO | II | CE) & AO) == 0,
        ((RO | II | CE) & CO) == 0,
        ((RO | II | CE) & EO) == 0,
        ((RO | II | CE) & FI) == 0,
        ((RO | II | CE) & MI) == 0,
        ((RO | II | CE) & RI) == 0,
        ((RO | II | CE) & AI) == 0,
        ((RO | II | CE) & BI) == 0,
        ((RO | II | CE) & OI) == 0,
        ((RO | II | CE) & J_) == 0,
        ((RO | II | CE) & HLT) == 0,
{
    assert(((RO | II | CE) & RO) != 0 && ((RO | II | CE) & II) != 0 && ((RO | II | CE) & CE) != 0
        && ((RO | II | CE) & IO) == 0 && ((RO | II | CE) & AO) == 0 && ((RO | II | CE) & CO) == 0
        && ((RO | II | CE) & EO) == 0 && ((RO | II | CE) & FI) == 0 && ((RO | II | CE) & MI) == 0
        && ((RO | II | CE) & RI) == 0 && ((RO | II | CE) & AI) == 0 && ((RO | II | CE) & BI) == 0
        && ((RO | II | CE) & OI) == 0 && ((RO | II | CE) & J_) == 0 && ((RO | II | CE) & HLT)
        == 0) by (bit_vector);
}

/// Which signals the halt word carries: the halt line, and nothing else.
proof fn lemma_halt_word_bits()
    ensures
        (HLT & HLT) != 0,
        (HLT & RO) == 0,
        (HLT & IO) == 0,
        (HLT & AO) == 0,
        (HLT & CO) == 0,
        (HLT & EO) == 0,
        (HLT & FI) == 0,
        (HLT & MI) == 0,
        (HLT & RI) == 0,
        (HLT & II) == 0,
        (HLT & AI) == 0,
        (HLT & BI) == 0,
        (HLT & OI) == 0,
        (HLT & J_) == 0,
        (HLT & CE) == 0,
        (HLT & SU) == 0,
{
    assert((HLT & HLT) != 0 && (HLT & RO) == 0 && (HLT & IO) == 0 && (HLT & AO) == 0 && (HLT & CO)
        == 0 && (HLT & EO) == 0 && (HLT & FI) == 0 && (HLT & MI) == 0 && (HLT & RI) == 0 && (HLT
        & II) == 0 && (HLT & AI) == 0 && (HLT & BI) == 0 && (HLT & OI) == 0 && (HLT & J_) == 0 && (
    HLT & CE) == 0 && (HLT & SU) == 0) by (bit_vector);
}

/// The two universal fetch steps. From any well-formed, running state at
/// the start of an instruction, two ticks latch the program counter into
/// the address register, read the instruction at that address into the
/// instruction register, and advance the program counter — and touch
/// nothing else: the accumulator, the auxiliary register, the ALU output
/// register, the output register, the flags and memory all keep their
/// values, and the machine stays running.
pub proof fn lemma_fetch_cycle(s: EBC, ram: Seq<u8>)
    requires
        s.wf(),
        s.sc == 0,
        !s.hlt,
        ram.len() == 16,
    ensures
        ({
            let s1 = spec_next(s, ram);
            let s2 = spec_next(s1, ram);
            &&& spec_next_ram(s, ram) == ram
            &&& spec_next_ram(s1, ram) == ram
            &&& !s1.hlt
            &&& !s2.hlt
            &&& s2.wf()
            &&& s2.sc == 2
            &&& s2.mar == s.pc
            &&& s2.ir == ram[s.pc as int]
            &&& s2.pc == (s.pc + 1) % 16
            &&& s2.reg_a == s.reg_a
            &&& s2.reg_b == s.reg_b
            &&& s2.reg_alu == s.reg_alu
            &&& s2.reg_out == s.reg_out
            &&& s2.reg_flgs == s.reg_flgs
        }),
{
    let cw0: u16 = spec_decode(s);
    assert(cw0 == MI | CO);
    lemma_fetch_low_word_bits();
    let pcv: u8 = s.pc;
    assert((pcv & 0x0F) == pcv) by (bit_vector)
        requires
            pcv < 16,
    ;
    let s1 = spec_next(s, ram);
    assert(s1.sc == 1 && s1.mar == s.pc && s1.bus == s.pc && !s1.hlt);
    assert(s1.pc == s.pc && s1.ir == s.ir && s1.reg_a == s.reg_a && s1.reg_b == s.reg_b);
    assert(s1.reg_alu == s.reg_alu && s1.reg_out == s.reg_out && s1.reg_flgs == s.reg_flgs);
    assert(spec_next_ram(s, ram) == ram);

    let cw1: u16 = spec_decode(s1);
    assert(cw1 == RO | II | CE);
    lemma_fetch_high_word_bits();
    let s2 = spec_next(s1, ram);
    assert(s2.sc == 2 && s2.ir == ram[s.pc as int] && s2.pc == (s.pc + 1) % 16 && !s2.hlt);
    assert(s2.reg_a == s.reg_a && s2.reg_b == s.reg_b && s2.reg_alu == s.reg_alu);
    assert(s2.reg_out == s.reg_out && s2.reg_flgs == s.reg_flgs);
    assert(spec_next_ram(s1, ram) == ram);
}

/// A halt instruction takes effect after exactly three ticks. From any
/// well-formed, running state at the start of an instruction whose memory
/// holds a halt opcode at the program counter, the two fetch ticks and one
/// execute tick leave the machine halted — not a tick sooner — with the
/// accumulator, the auxiliary register, the ALU output register, the
/// output register and the flags untouched, and memory untouched. Only the
/// step counter, the program counter and the instruction register move
/// (the fetch itself also passes the address register and the bus through).
pub proof fn lemma_halt_after_three_ticks(s: EBC, ram: Seq<u8>)
    requires
        s.wf(),
        s.sc == 0,
        !s.hlt,
        ram.len() == 16,
        ram[s.pc as int] >> 4 == MC_HLT,
    ensures
        ({
            let s1 = spec_next(s, ram);
            let s2 = spec_next(s1, ram);
            let s3 = spec_next(s2, ram);
            &&& spec_next_ram(s, ram) == ram
            &&& spec_next_ram(s1, ram) == ram
            &&& spec_next_ram(s2, ram) == ram
            &&& !s1.hlt
            &&& !s2.hlt
            &&& s3.hlt
            &&& s3.reg_a == s.reg_a
            &&& s3.reg_b == s.reg_b
            &&& s3.reg_alu == s.reg_alu
            &&& s3.reg_out == s.reg_out
            &&& s3.reg_flgs == s.reg_flgs
            &&& s3.sc == 3
            &&& s3.pc == (s.pc + 1) % 16
            &&& s3.ir == ram[s.pc as int]
        }),
{
    lemma_fetch_cycle(s, ram);
    let s1 = spec_next(s, ram);
    let s2 = spec_next(s1, ram);

    let cw2: u16 = spec_decode(s2);
    assert(s2.ir >> 4 == MC_HLT);
    assert(cw2 == spec_microcode(MC_HLT, 0));
    assert(cw2 == HLT);
    lemma_halt_word_bits();
    let s3 = spec_next(s2, ram);
    assert(s3.hlt && s3.sc == 3);
    assert(s3.reg_a == s.reg_a && s3.reg_b == s.reg_b && s3.reg_alu == s.reg_alu);
    assert(s3.reg_out == s.reg_out && s3.reg_flgs == s.reg_flgs);
    assert(s3.pc == s2.pc && s3.ir == s2.ir);
    assert(spec_next_ram(s2, ram) == ram);
}

} // verus!
