use beebc::machine::{decode_instruction, microcode, tick, update_modules, EBC};
use beebc::signal::{AI, AO, BI, CE, CF, CO, EO, FI, HLT, II, IO, J_, MI, OI, RI, RO, SU, ZF};
use beebc::signal::{MC_ADD, MC_HLT, MC_JC, MC_JZ, MC_LDA, MC_LDI, MC_OUT, MC_STA, MC_SUB};

fn blank_ram() -> [u8; 16] {
    [0; 16]
}

#[test]
fn default_state_is_zeroed() {
    let e = EBC::default();
    assert_eq!(e.pc, 0);
    assert_eq!(e.sc, 0);
    assert_eq!(e.mar, 0);
    assert_eq!(e.ir, 0);
    assert_eq!(e.reg_a, 0);
    assert_eq!(e.reg_b, 0);
    assert_eq!(e.reg_alu, 0);
    assert_eq!(e.reg_out, 0);
    assert_eq!(e.reg_flgs, 0);
    assert_eq!(e.bus, 0);
    assert!(!e.hlt);
}

#[test]
fn decode_fetch_step_zero() {
    let e = EBC::default();
    assert_eq!(decode_instruction(&e), MI | CO);
}

#[test]
fn decode_fetch_step_one() {
    let mut e = EBC::default();
    e.sc = 1;
    // The fetch steps ignore the instruction register and the flags.
    e.ir = 0xAB;
    e.reg_flgs = CF | ZF;
    assert_eq!(decode_instruction(&e), RO | II | CE);
}

#[test]
fn decode_is_pure() {
    let mut e = EBC::default();
    e.sc = 2;
    e.ir = (MC_ADD << 4) | 0x3;
    e.reg_flgs = CF;
    let first: u16 = decode_instruction(&e);
    let second: u16 = decode_instruction(&e);
    assert_eq!(first, second);
}

#[test]
fn microcode_table_rows() {
    // Load-accumulator.
    assert_eq!(microcode(MC_LDA, 0), IO | MI);
    assert_eq!(microcode(MC_LDA, 1), RO | AI);
    assert_eq!(microcode(MC_LDA, 2), 0);
    // Add and subtract.
    assert_eq!(microcode(MC_ADD, 0), IO | MI);
    assert_eq!(microcode(MC_ADD, 1), RO | BI);
    assert_eq!(microcode(MC_ADD, 2), EO | AI | FI);
    assert_eq!(microcode(MC_SUB, 1), RO | BI);
    assert_eq!(microcode(MC_SUB, 2), EO | AI | SU | FI);
    // Store-accumulator.
    assert_eq!(microcode(MC_STA, 0), IO | MI);
    assert_eq!(microcode(MC_STA, 1), AO | RI);
    // Load-immediate, jump, output, halt.
    assert_eq!(microcode(MC_LDI, 0), IO | AI);
    assert_eq!(microcode(6, 0), IO | J_);
    assert_eq!(microcode(MC_OUT, 0), AO | OI);
    assert_eq!(microcode(MC_HLT, 0), HLT);
    // No-op, reserved opcodes and unused slots are all-zero words.
    assert_eq!(microcode(0, 0), 0);
    assert_eq!(microcode(9, 0), 0);
    assert_eq!(microcode(13, 3), 0);
    assert_eq!(microcode(MC_LDI, 1), 0);
    assert_eq!(microcode(MC_HLT, 5), 0);
}

#[test]
fn decode_jump_if_carry_taken() {
    let mut e = EBC::default();
    e.sc = 2;
    e.ir = (MC_JC << 4) | 0x4;
    e.reg_flgs = CF;
    assert_eq!(decode_instruction(&e), IO | J_);
}

#[test]
fn decode_jump_if_carry_falls_through() {
    let mut e = EBC::default();
    e.sc = 2;
    e.ir = (MC_JC << 4) | 0x4;
    e.reg_flgs = ZF;
    assert_eq!(decode_instruction(&e), 0);
}

#[test]
fn decode_jump_if_zero_taken() {
    let mut e = EBC::default();
    e.sc = 2;
    e.ir = MC_JZ << 4;
    e.reg_flgs = ZF;
    assert_eq!(decode_instruction(&e), IO | J_);
}

#[test]
fn decode_jump_if_zero_falls_through() {
    let mut e = EBC::default();
    e.sc = 2;
    e.ir = MC_JZ << 4;
    e.reg_flgs = CF;
    assert_eq!(decode_instruction(&e), 0);
}

#[test]
fn bus_counter_out_overrides_accumulator_out() {
    let mut e = EBC::default();
    e.pc = 3;
    e.reg_a = 5;
    let mut ram = blank_ram();
    update_modules(&mut e, AO | CO, &mut ram);
    assert_eq!(e.bus, 3);
}

#[test]
fn bus_accumulator_out_overrides_ram_out() {
    let mut e = EBC::default();
    e.mar = 4;
    e.reg_a = 9;
    let mut ram = blank_ram();
    ram[4] = 77;
    update_modules(&mut e, RO | AO, &mut ram);
    assert_eq!(e.bus, 9);
}

#[test]
fn bus_alu_out_overrides_everything() {
    let mut e = EBC::default();
    e.pc = 3;
    e.reg_a = 2;
    e.reg_b = 3;
    let mut ram = blank_ram();
    update_modules(&mut e, EO | CO, &mut ram);
    assert_eq!(e.bus, 5);
    assert_eq!(e.reg_alu, 5);
}

#[test]
fn ram_out_drives_bus() {
    let mut e = EBC::default();
    e.mar = 4;
    let mut ram = blank_ram();
    ram[4] = 77;
    update_modules(&mut e, RO, &mut ram);
    assert_eq!(e.bus, 77);
}

#[test]
fn instruction_out_drives_operand_nibble() {
    let mut e = EBC::default();
    e.ir = 0xAB;
    let mut ram = blank_ram();
    update_modules(&mut e, IO, &mut ram);
    assert_eq!(e.bus, 0x0B);
}

#[test]
fn address_in_masks_low_nibble() {
    let mut e = EBC::default();
    e.reg_a = 0xAB;
    let mut ram = blank_ram();
    update_modules(&mut e, AO | MI, &mut ram);
    assert_eq!(e.bus, 0xAB);
    assert_eq!(e.mar, 0x0B);
}

#[test]
fn ram_write_persists() {
    let mut e = EBC::default();
    e.mar = 2;
    e.reg_a = 9;
    let mut ram = blank_ram();
    update_modules(&mut e, AO | RI, &mut ram);
    assert_eq!(ram[2], 9);
}

#[test]
fn ram_write_uses_fresh_address() {
    // Address-in and memory-write-in in one word: the write lands at the
    // address latched in this same tick.
    let mut e = EBC::default();
    e.mar = 7;
    e.reg_a = 0x12;
    let mut ram = blank_ram();
    update_modules(&mut e, AO | MI | RI, &mut ram);
    assert_eq!(e.mar, 2);
    assert_eq!(ram[2], 0x12);
    assert_eq!(ram[7], 0);
}

#[test]
fn jump_masks_low_nibble() {
    let mut e = EBC::default();
    e.ir = 0x6C;
    let mut ram = blank_ram();
    update_modules(&mut e, IO | J_, &mut ram);
    assert_eq!(e.pc, 0x0C);
}

#[test]
fn counter_enable_increments_pc() {
    let mut e = EBC::default();
    e.pc = 5;
    let mut ram = blank_ram();
    update_modules(&mut e, CE, &mut ram);
    assert_eq!(e.pc, 6);
}

#[test]
fn counter_enable_wraps_pc() {
    let mut e = EBC::default();
    e.pc = 15;
    let mut ram = blank_ram();
    update_modules(&mut e, CE, &mut ram);
    assert_eq!(e.pc, 0);
}

#[test]
fn jump_beats_counter_enable() {
    // A conflict no table entry produces, but defined: the increment lands
    // on the jump target.
    let mut e = EBC::default();
    e.pc = 9;
    e.ir = 0x05;
    let mut ram = blank_ram();
    update_modules(&mut e, IO | J_ | CE, &mut ram);
    assert_eq!(e.pc, 6);
}

#[test]
fn step_counter_wraps() {
    let mut e = EBC::default();
    e.sc = 7;
    let mut ram = blank_ram();
    update_modules(&mut e, 0, &mut ram);
    assert_eq!(e.sc, 0);
}

#[test]
fn instruction_in_latches_bus() {
    let mut e = EBC::default();
    e.mar = 1;
    let mut ram = blank_ram();
    ram[1] = 0xE0;
    update_modules(&mut e, RO | II, &mut ram);
    assert_eq!(e.ir, 0xE0);
}

#[test]
fn b_register_in_latches_bus() {
    let mut e = EBC::default();
    e.reg_a = 42;
    let mut ram = blank_ram();
    update_modules(&mut e, AO | BI, &mut ram);
    assert_eq!(e.reg_b, 42);
}

#[test]
fn halt_sets_flag() {
    let mut e = EBC::default();
    let mut ram = blank_ram();
    update_modules(&mut e, HLT, &mut ram);
    assert!(e.hlt);
}

#[test]
fn halted_stays_halted() {
    let mut e = EBC::default();
    e.hlt = true;
    let mut ram = blank_ram();
    update_modules(&mut e, 0, &mut ram);
    assert!(e.hlt);
}

#[test]
fn add_overflow_sets_carry_and_keeps_alu() {
    let mut e = EBC::default();
    e.reg_a = 250;
    e.reg_b = 10;
    e.reg_alu = 99;
    let mut ram = blank_ram();
    update_modules(&mut e, EO | AI | FI, &mut ram);
    assert_eq!(e.reg_flgs, CF);
    assert_eq!(e.reg_flgs & ZF, 0);
    // The latch keeps its prior value: not 4, the wrapped sum.
    assert_eq!(e.reg_alu, 99);
    // The accumulator took the retained latch value off the bus.
    assert_eq!(e.reg_a, 99);
}

#[test]
fn subtract_underflow_sets_carry() {
    let mut e = EBC::default();
    e.reg_a = 5;
    e.reg_b = 10;
    e.reg_alu = 123;
    let mut ram = blank_ram();
    update_modules(&mut e, SU | FI, &mut ram);
    assert_eq!(e.reg_flgs, CF);
    assert_eq!(e.reg_alu, 123);
}

#[test]
fn subtract_equal_sets_zero_flag() {
    let mut e = EBC::default();
    e.reg_a = 5;
    e.reg_b = 5;
    let mut ram = blank_ram();
    update_modules(&mut e, EO | AI | SU | FI, &mut ram);
    assert_eq!(e.reg_alu, 0);
    assert_eq!(e.reg_flgs, ZF);
    assert_eq!(e.reg_flgs & CF, 0);
}

#[test]
fn in_range_result_clears_both_flags() {
    let mut e = EBC::default();
    e.reg_a = 4;
    e.reg_b = 3;
    e.reg_flgs = CF;
    let mut ram = blank_ram();
    update_modules(&mut e, EO | AI | FI, &mut ram);
    assert_eq!(e.reg_flgs, 0);
    assert_eq!(e.reg_alu, 7);
}

#[test]
fn flags_unchanged_without_flags_in() {
    let mut e = EBC::default();
    e.reg_a = 4;
    e.reg_b = 3;
    e.reg_flgs = CF;
    let mut ram = blank_ram();
    update_modules(&mut e, EO | AI, &mut ram);
    assert_eq!(e.reg_flgs, CF);
}

#[test]
fn alu_not_latched_without_alu_out_or_flags_in() {
    let mut e = EBC::default();
    e.reg_a = 3;
    e.reg_b = 4;
    e.reg_alu = 9;
    let mut ram = blank_ram();
    update_modules(&mut e, 0, &mut ram);
    assert_eq!(e.reg_alu, 9);
}

#[test]
fn output_in_writes_output_register() {
    let mut e = EBC::default();
    e.reg_a = 33;
    let mut ram = blank_ram();
    update_modules(&mut e, AO | OI, &mut ram);
    assert_eq!(e.reg_out, 33);
}

#[test]
fn tick_reports_output_event() {
    let mut e = EBC::default();
    e.sc = 2;
    e.ir = MC_OUT << 4;
    e.reg_a = 33;
    let mut ram = blank_ram();
    let out = tick(&mut e, &mut ram);
    assert_eq!(out, Some(33));
}

#[test]
fn tick_without_output_reports_none() {
    let mut e = EBC::default();
    let mut ram = blank_ram();
    assert_eq!(tick(&mut e, &mut ram), None);
}
