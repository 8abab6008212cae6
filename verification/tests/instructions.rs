// Instruction semantics, driven through the public fetch/decode/execute step.

use crust::machine::Chip8;

fn boot(rom: Vec<u8>) -> Chip8 {
    let mut chip = Chip8::new();
    chip.load_font();
    let n = rom.len();
    assert_eq!(chip.load_program(&rom), Ok(n));
    chip
}

fn run(chip: &mut Chip8, steps: usize) {
    for _ in 0..steps {
        assert_eq!(chip.step(), Ok(()));
    }
}

#[test]
fn load_and_add_with_carry() {
    // LD V1, 0x05; ADD V1, 0x05; ADD V1, 0xFA.
    let mut chip = boot(vec![0x61, 0x05, 0x71, 0x05, 0x71, 0xfa]);
    run(&mut chip, 2);
    assert_eq!(chip.regs[1], 10);
    assert_eq!(chip.regs[15], 0);
    run(&mut chip, 1);
    assert_eq!(chip.regs[1], 4); // (10 + 250) mod 256
    assert_eq!(chip.regs[15], 1);
    assert_eq!(chip.pc, 0x206);
}

#[test]
fn add_carry_boundary() {
    // 255 + 1 wraps to 0 with the carry up; 254 + 1 does not.
    let mut chip = boot(vec![0x60, 0xff, 0x70, 0x01]);
    run(&mut chip, 2);
    assert_eq!(chip.regs[0], 0);
    assert_eq!(chip.regs[15], 1);
    let mut chip = boot(vec![0x60, 0xfe, 0x70, 0x01]);
    run(&mut chip, 2);
    assert_eq!(chip.regs[0], 255);
    assert_eq!(chip.regs[15], 0);
}

#[test]
fn sub_sets_vf_iff_no_borrow() {
    // V0 = 7, V1 = 5: SUB V0, V1 leaves 2 with VF = 1.
    let mut chip = boot(vec![0x60, 0x07, 0x61, 0x05, 0x80, 0x15]);
    run(&mut chip, 3);
    assert_eq!(chip.regs[0], 2);
    assert_eq!(chip.regs[15], 1);
    // V0 = 5, V1 = 7: SUB V0, V1 wraps to 254 with VF = 0.
    let mut chip = boot(vec![0x60, 0x05, 0x61, 0x07, 0x80, 0x15]);
    run(&mut chip, 3);
    assert_eq!(chip.regs[0], 254);
    assert_eq!(chip.regs[15], 0);
    // Equal operands: no borrow, VF = 1.
    let mut chip = boot(vec![0x60, 0x09, 0x61, 0x09, 0x80, 0x15]);
    run(&mut chip, 3);
    assert_eq!(chip.regs[0], 0);
    assert_eq!(chip.regs[15], 1);
}

#[test]
fn subn_reverses_operands() {
    // V0 = 5, V1 = 7: SUBN V0, V1 gives V1 - V0 = 2 with VF = 1.
    let mut chip = boot(vec![0x60, 0x05, 0x61, 0x07, 0x80, 0x17]);
    run(&mut chip, 3);
    assert_eq!(chip.regs[0], 2);
    assert_eq!(chip.regs[15], 1);
}

#[test]
fn shifts_report_the_bit_shifted_out() {
    // SHR on 0x05: result 2, VF takes the old low bit.
    let mut chip = boot(vec![0x60, 0x05, 0x80, 0x06]);
    run(&mut chip, 2);
    assert_eq!(chip.regs[0], 2);
    assert_eq!(chip.regs[15], 1);
    // SHR on 0x04: result 2, VF clear.
    let mut chip = boot(vec![0x60, 0x04, 0x80, 0x06]);
    run(&mut chip, 2);
    assert_eq!(chip.regs[0], 2);
    assert_eq!(chip.regs[15], 0);
    // SHL on 0x81: result (0x81 * 2) mod 256 = 2, VF takes the old top bit.
    let mut chip = boot(vec![0x60, 0x81, 0x80, 0x0e]);
    run(&mut chip, 2);
    assert_eq!(chip.regs[0], 2);
    assert_eq!(chip.regs[15], 1);
    // SHL on 0x41: result 0x82, VF clear.
    let mut chip = boot(vec![0x60, 0x41, 0x80, 0x0e]);
    run(&mut chip, 2);
    assert_eq!(chip.regs[0], 0x82);
    assert_eq!(chip.regs[15], 0);
}

#[test]
fn bitwise_ops_and_assign() {
    // V0 = 0xCC, V1 = 0xAA, then OR / AND / XOR / LD in turn, resetting V0.
    let mut chip = boot(vec![
        0x60, 0xcc, 0x61, 0xaa, 0x80, 0x11, // OR
        0x60, 0xcc, 0x80, 0x12, // AND
        0x60, 0xcc, 0x80, 0x13, // XOR
        0x80, 0x10, // LD V0, V1
    ]);
    run(&mut chip, 3);
    assert_eq!(chip.regs[0], 0xee);
    run(&mut chip, 2);
    assert_eq!(chip.regs[0], 0x88);
    run(&mut chip, 2);
    assert_eq!(chip.regs[0], 0x66);
    run(&mut chip, 1);
    assert_eq!(chip.regs[0], 0xaa);
}

#[test]
fn skips_compare_as_documented() {
    // 3XNN skips when equal: V0 = 3, skip over the LD that would clear it.
    let mut chip = boot(vec![0x60, 0x03, 0x30, 0x03, 0x60, 0x00, 0x61, 0x01]);
    run(&mut chip, 3);
    assert_eq!(chip.regs[0], 3);
    assert_eq!(chip.regs[1], 1);
    // 4XNN skips when different.
    let mut chip = boot(vec![0x60, 0x03, 0x40, 0x04, 0x60, 0x00, 0x61, 0x01]);
    run(&mut chip, 3);
    assert_eq!(chip.regs[0], 3);
    assert_eq!(chip.regs[1], 1);
    // 5XY0 skips when registers match, 9XY0 when they differ.
    let mut chip = boot(vec![0x60, 0x07, 0x61, 0x07, 0x50, 0x10, 0x60, 0x00, 0x62, 0x01]);
    run(&mut chip, 4);
    assert_eq!(chip.regs[0], 7);
    assert_eq!(chip.regs[2], 1);
    let mut chip = boot(vec![0x60, 0x07, 0x61, 0x08, 0x90, 0x10, 0x60, 0x00, 0x62, 0x01]);
    run(&mut chip, 4);
    assert_eq!(chip.regs[0], 7);
    assert_eq!(chip.regs[2], 1);
}

#[test]
fn jumps_set_the_program_counter() {
    // 1NNN.
    let mut chip = boot(vec![0x12, 0x34]);
    run(&mut chip, 1);
    assert_eq!(chip.pc, 0x234);
    // BNNN adds V0.
    let mut chip = boot(vec![0x60, 0x10, 0xb3, 0x00]);
    run(&mut chip, 2);
    assert_eq!(chip.pc, 0x310);
}

#[test]
fn call_then_ret_resumes_after_the_call() {
    // PC 0x200 holds CALL 0x300; 0x300 holds RET.
    let mut rom = vec![0u8; 0x102];
    rom[0] = 0x23;
    rom[1] = 0x00;
    rom[0x100] = 0x00;
    rom[0x101] = 0xee;
    let mut chip = boot(rom);
    run(&mut chip, 1);
    assert_eq!(chip.pc, 0x300);
    assert_eq!(chip.sp, 1);
    assert_eq!(chip.stack[0], 0x200);
    run(&mut chip, 1);
    assert_eq!(chip.pc, 0x202);
    assert_eq!(chip.sp, 0);
}

#[test]
fn set_index_and_add_index() {
    // ANNN, then FX1E without wrap: VF stays 0.
    let mut chip = boot(vec![0xa1, 0x23, 0x60, 0x02, 0xf0, 0x1e]);
    run(&mut chip, 3);
    assert_eq!(chip.index, 0x125);
    assert_eq!(chip.regs[15], 0);
    // FX1E past 4095 masks to 12 bits and raises VF.
    let mut chip = boot(vec![0xaf, 0xff, 0x60, 0x05, 0xf0, 0x1e]);
    run(&mut chip, 3);
    assert_eq!(chip.index, 4);
    assert_eq!(chip.regs[15], 1);
}

#[test]
fn random_is_masked_by_the_literal() {
    // CXNN with a zero mask must give zero whatever the source returned.
    let mut chip = boot(vec![0x60, 0xff, 0xc0, 0x00]);
    run(&mut chip, 2);
    assert_eq!(chip.regs[0], 0);
    // A 0x0F mask leaves no high bits.
    let mut chip = boot(vec![0xc0, 0x0f]);
    run(&mut chip, 1);
    assert_eq!(chip.regs[0] & 0xf0, 0);
}

#[test]
fn bcd_splits_decimal_digits() {
    // V0 = 234, I = 0x400, FX33.
    let mut chip = boot(vec![0x60, 0xea, 0xa4, 0x00, 0xf0, 0x33]);
    run(&mut chip, 3);
    assert_eq!(chip.mem[0x400], 2);
    assert_eq!(chip.mem[0x401], 3);
    assert_eq!(chip.mem[0x402], 4);
    // A one-digit value stores leading zeros.
    let mut chip = boot(vec![0x60, 0x07, 0xa4, 0x00, 0xf0, 0x33]);
    run(&mut chip, 3);
    assert_eq!(chip.mem[0x400], 0);
    assert_eq!(chip.mem[0x401], 0);
    assert_eq!(chip.mem[0x402], 7);
}

#[test]
fn store_then_load_registers_round_trip() {
    // V0..V2 = 9, 8, 7; FX55 at I = 0x500; clear; FX65 reads them back.
    let mut chip = boot(vec![
        0x60, 0x09, 0x61, 0x08, 0x62, 0x07, 0xa5, 0x00, 0xf2, 0x55, 0x60, 0x00, 0x61, 0x00,
        0x62, 0x00, 0xf2, 0x65,
    ]);
    run(&mut chip, 5);
    assert_eq!(chip.mem[0x500], 9);
    assert_eq!(chip.mem[0x501], 8);
    assert_eq!(chip.mem[0x502], 7);
    assert_eq!(chip.index, 0x500); // I unchanged
    run(&mut chip, 4);
    assert_eq!(chip.regs[0], 9);
    assert_eq!(chip.regs[1], 8);
    assert_eq!(chip.regs[2], 7);
    // V3 was not part of the copy.
    assert_eq!(chip.regs[3], 0);
}

#[test]
fn font_address_points_at_the_glyph() {
    // FX29 for digit 0xA: I = 10 * 5; the glyph bytes are in low memory.
    let mut chip = boot(vec![0x60, 0x0a, 0xf0, 0x29]);
    run(&mut chip, 2);
    assert_eq!(chip.index, 50);
    assert_eq!(
        &chip.mem[50..55],
        &[0xf0, 0x90, 0xf0, 0x90, 0x90][..]
    );
    // Only the low nibble of the register names the digit.
    let mut chip = boot(vec![0x60, 0xfa, 0xf0, 0x29]);
    run(&mut chip, 2);
    assert_eq!(chip.index, 50);
}

#[test]
fn delay_timer_reads_and_writes() {
    // FX15 then FX07 into another register.
    let mut chip = boot(vec![0x60, 0x2a, 0xf0, 0x15, 0xf1, 0x07]);
    run(&mut chip, 3);
    assert_eq!(chip.delay, 0x2a);
    assert_eq!(chip.regs[1], 0x2a);
}

#[test]
fn split_nibbles_splits() {
    assert_eq!(crust::decode::split_nibbles(0xd7), (0xd, 0x7));
    assert_eq!(crust::decode::split_nibbles(0x00), (0, 0));
    assert_eq!(crust::decode::split_nibbles(0xff), (0xf, 0xf));
}
