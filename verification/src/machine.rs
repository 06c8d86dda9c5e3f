//! The machine state, the microcode table, the decoder and the execution
//! engine.
//!
//! One clock tick is: decode the current control word from the state, then
//! apply it to the state (and to the 16-byte memory) in a fixed two-phase
//! order — bus writers first, then the ALU, then bus readers, then the
//! step counter, the program counter and the halt line.

use vstd::prelude::*;

use crate::signal::{AI, AO, BI, CE, CF, CO, EO, FI, HLT, II, IO, J_, MI, OI, RI, RO, SU, ZF};
use crate::signal::{MC_ADD, MC_HLT, MC_JC, MC_JMP, MC_JZ, MC_LDA, MC_LDI, MC_OUT, MC_STA, MC_SUB};

verus! {

/// The full state of the machine, besides the 16-byte memory.
///
/// The memory is owned by the caller that drives the clock and is passed
/// into each tick, so that a stored byte persists from one tick to the next.
#[derive(Clone, Copy, Debug, PartialEq, Eq, Structural)]
pub struct EBC {
    /// Program counter. Four usable bits: masked to 0..16 on every jump
    /// and on every increment.
    pub pc: u8,
    /// Micro-step counter within the current instruction; cycles through
    /// 0..8 and wraps, though only steps 0..6 ever carry a micro-operation.
    pub sc: u8,
    /// Memory address register. Four usable bits: masked from the bus.
    pub mar: u8,
    /// Instruction register: opcode in the top nibble, operand in the
    /// bottom nibble.
    pub ir: u8,
    /// The accumulator.
    pub reg_a: u8,
    /// The auxiliary register feeding the second ALU input.
    pub reg_b: u8,
    /// The ALU output register. It is latched, not combinational: it takes
    /// a new value only on a tick whose control word drives the ALU onto
    /// the bus or latches the flags, and only when the operation did not
    /// overflow.
    pub reg_alu: u8,
    /// The output register, the externally observable byte; written only
    /// when the output-in signal fires.
    pub reg_out: u8,
    /// The flag register: carry and zero, updated only when the flags-in
    /// signal fires.
    pub reg_flgs: u8,
    /// The shared bus: scratch value for the current tick.
    pub bus: u8,
    /// True once a halt signal has fired; monotonic.
    pub hlt: bool,
}

impl EBC {
    /// The machine-state invariant: the step counter stays below 8, and the
    /// program counter and the address register hold only four usable bits.
    pub open spec fn wf(self) -> bool {
        &&& self.sc < 8
        &&& self.pc < 16
        &&& self.mar < 16
    }

    /// The state a machine powers up in: every register zero, not halted.
    pub open spec fn initial() -> EBC {
        EBC {
            pc: 0,
            sc: 0,
            mar: 0,
            ir: 0,
            reg_a: 0,
            reg_b: 0,
            reg_alu: 0,
            reg_out: 0,
            reg_flgs: 0,
            bus: 0,
            hlt: false,
        }
    }
}

impl Default for EBC {
    /// A freshly powered-up machine.
    fn default() -> (r: EBC)
        ensures
            r == EBC::initial(),
            r.wf(),
    {
        EBC {
            pc: 0,
            sc: 0,
            mar: 0,
            ir: 0,
            reg_a: 0,
            reg_b: 0,
            reg_alu: 0,
            reg_out: 0,
            reg_flgs: 0,
            bus: 0,
            hlt: false,
        }
    }
}

/// The microcode table: the control word for one slot of an opcode's bus
/// sequence. `slot` counts from the first step after the two universal
/// fetch steps, so slot 0 is micro-step 2. Every slot an opcode leaves
/// unused, and every slot of a reserved opcode, is the all-zero word.
pub open spec fn spec_microcode(op: u8, slot: u8) -> u16 {
    if op == MC_LDA {
        if slot == 0 {
            IO | MI
        } else if slot == 1 {
            RO | AI
        } else {
            0
        }
    } else if op == MC_ADD {
        if slot == 0 {
            IO | MI
        } else if slot == 1 {
            RO | BI
        } else if slot == 2 {
            EO | AI | FI
        } else {
            0
        }
    } else if op == MC_SUB {
        if slot == 0 {
            IO | MI
        } else if slot == 1 {
            RO | BI
        } else if slot == 2 {
            EO | AI | SU | FI
        } else {
            0
        }
    } else if op == MC_STA {
        if slot == 0 {
            IO | MI
        } else if slot == 1 {
            AO | RI
        } else {
            0
        }
    } else if op == MC_LDI {
        if slot == 0 {
            IO | AI
        } else {
            0
        }
    } else if op == MC_JMP {
        if slot == 0 {
            IO | J_
        } else {
            0
        }
    } else if op == MC_OUT {
        if slot == 0 {
            AO | OI
        } else {
            0
        }
    } else if op == MC_HLT {
        if slot == 0 {
            HLT
        } else {
            0
        }
    } else {
        0
    }
}

/// Looks an opcode's control word up in the microcode table.
pub fn microcode(op: u8, slot: u8) -> (cw: u16)
    ensures
        cw == spec_microcode(op, slot),
{
    if op == MC_LDA {
        if slot == 0 {
            IO | MI
        } else if slot == 1 {
            RO | AI
        } else {
            0
        }
    } else if op == MC_ADD {
        if slot == 0 {
            IO | MI
        } else if slot == 1 {
            RO | BI
        } else if slot == 2 {
            EO | AI | FI
        } else {
            0
        }
    } else if op == MC_SUB {
        if slot == 0 {
            IO | MI
        } else if slot == 1 {
            RO | BI
        } else if slot == 2 {
            EO | AI | SU | FI
        } else {
            0
        }
    } else if op == MC_STA {
        if slot == 0 {
            IO | MI
        } else if slot == 1 {
            AO | RI
        } else {
            0
        }
    } else if op == MC_LDI {
        if slot == 0 {
            IO | AI
        } else {
            0
        }
    } else if op == MC_JMP {
        if slot == 0 {
            IO | J_
        } else {
            0
        }
    } else if op == MC_OUT {
        if slot == 0 {
            AO | OI
        } else {
            0
        }
    } else if op == MC_HLT {
        if slot == 0 {
            HLT
        } else {
            0
        }
    } else {
        0
    }
}

/// The control word the decoder produces for a state: the two universal
/// fetch steps first, then — at micro-step 2 — the short-circuit for a
/// conditional jump whose flag is set, and otherwise the microcode table.
pub open spec fn spec_decode(s: EBC) -> u16 {
    if s.sc == 0 {
        MI | CO
    } else if s.sc == 1 {
        RO | II | CE
    } else if s.sc == 2 && s.ir >> 4 == MC_JC && (s.reg_flgs & CF) != 0 {
        IO | J_
    } else if s.sc == 2 && s.ir >> 4 == MC_JZ && (s.reg_flgs & ZF) != 0 {
        IO | J_
    } else {
        spec_microcode(s.ir >> 4, (s.sc - 2) as u8)
    }
}

/// Maps the current state of a machine to a new control word.
///
/// Pure: two calls on the same state return the same word, and the state
/// is never written. Total: every state decodes, reserved opcodes and
/// unused micro-steps to the all-zero word.
pub fn decode_instruction(ebc: &EBC) -> (cw: u16)
    ensures
        cw == spec_decode(*ebc),
{
    if ebc.sc == 0 {
        return MI | CO;
    }
    if ebc.sc == 1 {
        return RO | II | CE;
    }
    let op_code = ebc.ir >> 4;
    if ebc.sc == 2 {
        if op_code == MC_JC && (ebc.reg_flgs & CF) != 0 {
            return IO | J_;
        }
        if op_code == MC_JZ && (ebc.reg_flgs & ZF) != 0 {
            return IO | J_;
        }
    }
    microcode(op_code, ebc.sc - 2)
}

/// The raw ALU result of a tick, as an unbounded integer: A - B when the
/// subtract signal is set, A + B otherwise. The ALU computes on every tick,
/// whether or not the control word uses the result.
pub open spec fn spec_alu_raw(s: EBC, cw: u16) -> int {
    if (cw & SU) != 0 {
        s.reg_a - s.reg_b
    } else {
        s.reg_a + s.reg_b
    }
}

/// Whether the tick's ALU operation leaves the 8-bit range: an overflowing
/// add or an underflowing subtract.
pub open spec fn spec_alu_overflow(s: EBC, cw: u16) -> bool {
    spec_alu_raw(s, cw) < 0 || spec_alu_raw(s, cw) > 255
}

/// The ALU output register after a tick. It is latched only when the
/// alu-out or flags-in signal fires, and only when the operation stayed in
/// range; on overflow or underflow it retains its prior value, though the
/// flags still record the attempted operation.
pub open spec fn spec_alu_latch(s: EBC, cw: u16) -> u8 {
    if ((cw & EO) != 0 || (cw & FI) != 0) && !spec_alu_overflow(s, cw) {
        spec_alu_raw(s, cw) as u8
    } else {
        s.reg_alu
    }
}

/// The flag register after a tick. Untouched unless the flags-in signal
/// fires; then carry alone on overflow or underflow, zero alone on a zero
/// result, and both clear otherwise.
pub open spec fn spec_flags(s: EBC, cw: u16) -> u8 {
    if (cw & FI) != 0 {
        if spec_alu_overflow(s, cw) {
            CF
        } else if spec_alu_raw(s, cw) == 0 {
            ZF
        } else {
            0
        }
    } else {
        s.reg_flgs
    }
}

/// The bus value a control word settles on, after the write phase. The
/// writers drive in a fixed priority: the ALU overrides everything, then
/// the program counter, the accumulator, the operand nibble of the
/// instruction register, and memory; with no writer the bus keeps its
/// previous value.
pub open spec fn spec_bus(s: EBC, cw: u16, ram: Seq<u8>) -> u8 {
    if (cw & EO) != 0 {
        spec_alu_latch(s, cw)
    } else if (cw & CO) != 0 {
        s.pc
    } else if (cw & AO) != 0 {
        s.reg_a
    } else if (cw & IO) != 0 {
        s.ir & 0x0F
    } else if (cw & RO) != 0 {
        ram[s.mar as int]
    } else {
        s.bus
    }
}

/// The memory address register after a tick: the low nibble of the bus
/// when address-in fires, its prior value otherwise.
pub open spec fn spec_mar(s: EBC, cw: u16, ram: Seq<u8>) -> u8 {
    if (cw & MI) != 0 {
        spec_bus(s, cw, ram) & 0x0F
    } else {
        s.mar
    }
}

/// The memory after a tick: when memory-write-in fires, the bus byte lands
/// at the address register — at its new value, if address-in fired in the
/// same tick. At most this one byte changes per tick.
pub open spec fn spec_ram_tick(s: EBC, cw: u16, ram: Seq<u8>) -> Seq<u8> {
    if (cw & RI) != 0 {
        ram.update(spec_mar(s, cw, ram) as int, spec_bus(s, cw, ram))
    } else {
        ram
    }
}

/// The program counter after a tick. A jump latches the low nibble of the
/// bus first; counter-enable then increments, wrapping within the four
/// usable bits. Both in one word is a conflict no table entry produces,
/// but it is defined: the increment lands on the jump target.
pub open spec fn spec_pc(s: EBC, cw: u16, ram: Seq<u8>) -> u8 {
    let jumped = if (cw & J_) != 0 {
        spec_bus(s, cw, ram) & 0x0F
    } else {
        s.pc
    };
    if (cw & CE) != 0 {
        ((jumped + 1) % 16) as u8
    } else {
        jumped
    }
}

/// The machine state after one tick of the execution engine under a control
/// word: the bus settles, the ALU computes, every bus reader whose signal
/// is set latches the bus, the step counter advances, the program counter
/// jumps and increments, and the halt line latches.
pub open spec fn spec_tick(s: EBC, cw: u16, ram: Seq<u8>) -> EBC {
    let bus = spec_bus(s, cw, ram);
    EBC {
        pc: spec_pc(s, cw, ram),
        sc: ((s.sc + 1) % 8) as u8,
        mar: spec_mar(s, cw, ram),
        ir: if (cw & II) != 0 {
            bus
        } else {
            s.ir
        },
        reg_a: if (cw & AI) != 0 {
            bus
        } else {
            s.reg_a
        },
        reg_b: if (cw & BI) != 0 {
            bus
        } else {
            s.reg_b
        },
        reg_alu: spec_alu_latch(s, cw),
        reg_out: if (cw & OI) != 0 {
            bus
        } else {
            s.reg_out
        },
        reg_flgs: spec_flags(s, cw),
        bus: bus,
        hlt: s.hlt || (cw & HLT) != 0,
    }
}

/// Applies a control word to the machine state and the memory: one tick of
/// the execution engine. Total over its domain: any control word, even a
/// combination no program produces, yields the defined next state. At most
/// one memory byte is written per tick.
pub fn update_modules(ebc: &mut EBC, cw: u16, ram: &mut [u8; 16])
    requires
        old(ebc).wf(),
    ensures
        *final(ebc) == spec_tick(*old(ebc), cw, old(ram)@),
        final(ram)@ == spec_ram_tick(*old(ebc), cw, old(ram)@),
        final(ebc).wf(),
{
    let s = *ebc;
    let ghost ram0 = old(ram)@;

    // Bus-write phase: later writers override earlier ones.
    let mut bus: u8 = s.bus;
    if (cw & RO) != 0 {
        bus = ram[s.mar as usize];
    }
    if (cw & IO) != 0 {
        bus = s.ir & 0x0F;
    }
    if (cw & AO) != 0 {
        bus = s.reg_a;
    }
    if (cw & CO) != 0 {
        bus = s.pc;
    }

    // ALU compute: every tick. The output register latches only on alu-out
    // or flags-in, and only in range; the flags record the attempted
    // operation either way.
    let result: Option<u8> = if (cw & SU) != 0 {
        s.reg_a.checked_sub(s.reg_b)
    } else {
        s.reg_a.checked_add(s.reg_b)
    };
    let reg_alu: u8 = if (cw & EO) != 0 || (cw & FI) != 0 {
        match result {
            Some(val) => val,
            None => s.reg_alu,
        }
    } else {
        s.reg_alu
    };
    let reg_flgs: u8 = if (cw & FI) != 0 {
        match result {
            None => CF,
            Some(val) => if val == 0 {
                ZF
            } else {
                0
            },
        }
    } else {
        s.reg_flgs
    };
    if (cw & EO) != 0 {
        bus = reg_alu;
    }
    proof {
        assert(bus == spec_bus(s, cw, ram0));
    }

    // Bus-read phase: every reader whose signal is set latches the bus.
    let mar: u8 = if (cw & MI) != 0 {
        proof {
            assert((bus & 0x0F) < 16) by (bit_vector);
        }
        bus & 0x0F
    } else {
        s.mar
    };
    if (cw & RI) != 0 {
        ram[mar as usize] = bus;
    }
    let ir: u8 = if (cw & II) != 0 {
        bus
    } else {
        s.ir
    };
    let reg_a: u8 = if (cw & AI) != 0 {
        bus
    } else {
        s.reg_a
    };
    let reg_b: u8 = if (cw & BI) != 0 {
        bus
    } else {
        s.reg_b
    };
    let reg_out: u8 = if (cw & OI) != 0 {
        bus
    } else {
        s.reg_out
    };
    let jumped: u8 = if (cw & J_) != 0 {
        proof {
            assert((bus & 0x0F) < 16) by (bit_vector);
        }
        bus & 0x0F
    } else {
        s.pc
    };

    // Step counter, program counter, halt line.
    let sc: u8 = (s.sc + 1) % 8;
    let pc: u8 = if (cw & CE) != 0 {
        (jumped + 1) % 16
    } else {
        jumped
    };
    let hlt: bool = s.hlt || (cw & HLT) != 0;

    *ebc = EBC { pc, sc, mar, ir, reg_a, reg_b, reg_alu, reg_out, reg_flgs, bus, hlt };
}

/// The state after one full clock tick: decode, then execute.
pub open spec fn spec_next(s: EBC, ram: Seq<u8>) -> EBC {
    spec_tick(s, spec_decode(s), ram)
}

/// The memory after one full clock tick: decode, then execute.
pub open spec fn spec_next_ram(s: EBC, ram: Seq<u8>) -> Seq<u8> {
    spec_ram_tick(s, spec_decode(s), ram)
}

/// One full clock tick: decodes the control word for the current state and
/// applies it. Returns the tick's output event: the new value of the
/// output register when the output-in signal fired, and nothing otherwise.
pub fn tick(ebc: &mut EBC, ram: &mut [u8; 16]) -> (out: Option<u8>)
    requires
        old(ebc).wf(),
    ensures
        *final(ebc) == spec_next(*old(ebc), old(ram)@),
        final(ram)@ == spec_next_ram(*old(ebc), old(ram)@),
        final(ebc).wf(),
        out == (if (spec_decode(*old(ebc)) & OI) != 0 {
            Some(final(ebc).reg_out)
        } else {
            None::<u8>
        }),
{
    let snapshot: EBC = *ebc;
    let cw = decode_instruction(&snapshot);
    update_modules(ebc, cw, ram);
    if (cw & OI) != 0 {
        Some(ebc.reg_out)
    } else {
        None
    }
}

} // verus!
