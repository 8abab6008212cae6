// Drawing, keypad, timers, program loading and the fatal conditions.

use crust::machine::{Chip8, TICK_INTERVAL_NS};
use crust::VmError;

fn boot(rom: Vec<u8>) -> Chip8 {
    let mut chip = Chip8::new();
    chip.load_font();
    let n = rom.len();
    assert_eq!(chip.load_program(&rom), Ok(n));
    chip
}

fn run(chip: &mut Chip8, steps: usize) {
    for _ in 0..steps {
        assert_eq!(chip.step(), Ok(()));
    }
}

#[test]
fn power_up_state() {
    let chip = Chip8::new();
    assert_eq!(chip.pc, 0x200);
    assert_eq!(chip.sp, 0);
    assert_eq!(chip.index, 0);
    assert!(chip.regs.iter().all(|&v| v == 0));
    assert!(chip.fb.iter().all(|&row| row == 0));
    assert_eq!((chip.delay, chip.sound), (0, 0));
    assert!(!chip.tone);
}

#[test]
fn font_occupies_low_memory() {
    let mut chip = Chip8::new();
    chip.load_font();
    assert_eq!(&chip.mem[0..5], &[0xf0, 0x90, 0x90, 0x90, 0xf0][..]); // digit 0
    assert_eq!(&chip.mem[75..80], &[0xf0, 0x80, 0xf0, 0x80, 0x80][..]); // digit F
    assert!(chip.mem[80..].iter().all(|&b| b == 0));
}

#[test]
fn rom_size_boundary() {
    // One byte over the 3584-byte program region is rejected untouched.
    let mut chip = Chip8::new();
    chip.load_font();
    assert_eq!(chip.load_program(&vec![7u8; 3585]), Err(VmError::RomTooLarge));
    assert_eq!(chip.pc, 0x200);
    assert!(chip.mem[0x200..].iter().all(|&b| b == 0));
    // Exactly 3584 bytes fill it to the last address.
    assert_eq!(chip.load_program(&vec![7u8; 3584]), Ok(3584));
    assert_eq!(chip.mem[0x200], 7);
    assert_eq!(chip.mem[4095], 7);
}

#[test]
fn first_draw_after_clear_reports_no_collision() {
    // CLS, then draw the five-row glyph stored at 0x20C at (5, 3).
    let mut chip = boot(vec![
        0xa2, 0x0c, 0x60, 0x05, 0x61, 0x03, 0x00, 0xe0, 0xd0, 0x15, 0xd0, 0x15, 0xf0, 0x90,
        0x90, 0x90, 0xf0,
    ]);
    run(&mut chip, 5);
    assert_eq!(chip.regs[15], 0);
    assert_eq!(chip.fb[3], (0xf0u64 << 56).rotate_right(5));
    assert_eq!(chip.fb[4], (0x90u64 << 56).rotate_right(5));
    assert_eq!(chip.fb[7], (0xf0u64 << 56).rotate_right(5));
    assert!(chip.fb[2] == 0 && chip.fb[8] == 0);
}

#[test]
fn second_draw_toggles_pixels_off_and_collides() {
    let mut chip = boot(vec![
        0xa2, 0x0c, 0x60, 0x05, 0x61, 0x03, 0x00, 0xe0, 0xd0, 0x15, 0xd0, 0x15, 0xf0, 0x90,
        0x90, 0x90, 0xf0,
    ]);
    run(&mut chip, 6);
    assert_eq!(chip.regs[15], 1);
    assert!(chip.fb.iter().all(|&row| row == 0));
}

#[test]
fn drawing_wraps_horizontally() {
    // An eight-pixel row drawn at column 60 reappears on the left edge.
    let mut chip = boot(vec![
        0xa2, 0x0a, 0x60, 0x3c, 0x61, 0x00, 0xd0, 0x11, 0x00, 0x00, 0xff,
    ]);
    run(&mut chip, 4);
    assert_eq!(chip.fb[0], (0xffu64 << 56).rotate_right(60));
    assert_eq!(chip.fb[0], 0xf00000000000000f);
}

#[test]
fn drawing_clips_at_the_bottom_edge() {
    // A five-row sprite at y = 30 draws only rows 30 and 31.
    let mut chip = boot(vec![
        0xa2, 0x0c, 0x60, 0x00, 0x61, 0x1e, 0x00, 0xe0, 0xd0, 0x15, 0x00, 0x00, 0xf0, 0x90,
        0x90, 0x90, 0xf0,
    ]);
    run(&mut chip, 5);
    assert_eq!(chip.fb[30], 0xf0u64 << 56);
    assert_eq!(chip.fb[31], 0x90u64 << 56);
    assert!(chip.fb[..30].iter().all(|&row| row == 0));
    assert_eq!(chip.regs[15], 0);
}

#[test]
fn drawing_below_the_screen_draws_nothing() {
    let mut chip = boot(vec![
        0xa2, 0x0a, 0x60, 0x00, 0x61, 0x20, 0xd0, 0x11, 0x00, 0x00, 0xff,
    ]);
    run(&mut chip, 4);
    assert!(chip.fb.iter().all(|&row| row == 0));
    assert_eq!(chip.regs[15], 0);
}

#[test]
fn keypad_latch_tracks_edges() {
    let mut chip = Chip8::new();
    chip.apply_edges((1 << 5) | (1 << 9), 0);
    assert_eq!(chip.held, (1 << 5) | (1 << 9));
    assert_eq!(chip.pressed, (1 << 5) | (1 << 9));
    // Next cycle: nothing newly pressed, key 5 released.
    chip.apply_edges(0, 1 << 5);
    assert_eq!(chip.held, 1 << 9);
    assert_eq!(chip.pressed, 0);
}

#[test]
fn skip_on_key_state() {
    // EX9E skips when the key in V0 is held.
    let mut chip = boot(vec![0x60, 0x05, 0xe0, 0x9e, 0x61, 0x01, 0x62, 0x01]);
    chip.apply_edges(1 << 5, 0);
    run(&mut chip, 3);
    assert_eq!(chip.regs[1], 0);
    assert_eq!(chip.regs[2], 1);
    // EXA1 skips when it is not held.
    let mut chip = boot(vec![0x60, 0x05, 0xe0, 0xa1, 0x61, 0x01, 0x62, 0x01]);
    run(&mut chip, 3);
    assert_eq!(chip.regs[1], 0);
    assert_eq!(chip.regs[2], 1);
}

#[test]
fn wait_key_blocks_until_a_new_press() {
    let mut chip = boot(vec![0xf1, 0x0a]);
    // No key newly pressed: the program counter stands still.
    assert_eq!(chip.step(), Ok(()));
    assert_eq!(chip.pc, 0x200);
    assert_eq!(chip.step(), Ok(()));
    assert_eq!(chip.pc, 0x200);
    // Keys 9 and 5 arrive in one cycle: the lowest one lands in V1.
    chip.apply_edges((1 << 9) | (1 << 5), 0);
    assert_eq!(chip.step(), Ok(()));
    assert_eq!(chip.regs[1], 5);
    assert_eq!(chip.pc, 0x202);
}

#[test]
fn wait_key_ignores_keys_held_from_before() {
    let mut chip = boot(vec![0xf1, 0x0a]);
    // A key held since an earlier cycle is not a new press.
    chip.apply_edges(1 << 3, 0);
    run(&mut chip, 1);
    assert_eq!(chip.pc, 0x202);
    let mut chip = boot(vec![0xf1, 0x0a]);
    chip.apply_edges(1 << 3, 0);
    chip.apply_edges(0, 0); // next cycle: still held, not newly pressed
    run(&mut chip, 1);
    assert_eq!(chip.pc, 0x200);
}

#[test]
fn timers_follow_the_wall_clock_not_the_instruction_count() {
    // Delay = 3, then a tight jump-to-self loop.
    let mut chip = boot(vec![0x60, 0x03, 0xf0, 0x15, 0x12, 0x04]);
    run(&mut chip, 2);
    assert_eq!(chip.delay, 3);
    // Many instructions, no wall time: the timer stands.
    for _ in 0..100 {
        assert_eq!(chip.step(), Ok(()));
        assert!(!chip.tick(1_000_000));
    }
    assert_eq!(chip.delay, 3);
    // A sixtieth of a second passes: exactly one decrement.
    assert!(chip.tick(TICK_INTERVAL_NS));
    assert_eq!(chip.delay, 2);
    // Just short of the next interval: nothing.
    assert!(!chip.tick(2 * TICK_INTERVAL_NS - 1));
    assert_eq!(chip.delay, 2);
    assert!(chip.tick(2 * TICK_INTERVAL_NS));
    assert_eq!(chip.delay, 1);
    // The delay timer stops at zero.
    assert!(chip.tick(3 * TICK_INTERVAL_NS));
    assert!(chip.tick(4 * TICK_INTERVAL_NS));
    assert_eq!(chip.delay, 0);
}

#[test]
fn sound_timer_gates_the_tone() {
    // FX18 with a nonzero value opens the tone gate.
    let mut chip = boot(vec![0x60, 0x02, 0xf0, 0x18]);
    run(&mut chip, 2);
    assert_eq!(chip.sound, 2);
    assert!(chip.tone);
    // Decrementing from one to zero switches the tone off.
    assert!(chip.tick(TICK_INTERVAL_NS));
    assert_eq!(chip.sound, 1);
    assert!(chip.tone);
    assert!(chip.tick(2 * TICK_INTERVAL_NS));
    assert_eq!(chip.sound, 0);
    assert!(!chip.tone);
}

#[test]
fn zero_sound_load_does_not_open_the_tone() {
    let mut chip = boot(vec![0x60, 0x00, 0xf0, 0x18]);
    run(&mut chip, 2);
    assert_eq!(chip.sound, 0);
    assert!(!chip.tone);
}

#[test]
fn unknown_instructions_stop_the_machine_unchanged() {
    for rom in [vec![0x80u8, 0x08], vec![0xe0, 0x00], vec![0xf0, 0x99]] {
        let mut chip = boot(rom);
        assert_eq!(chip.step(), Err(VmError::UnknownInstruction));
        assert_eq!(chip.pc, 0x200);
        assert!(chip.regs.iter().all(|&v| v == 0));
    }
    // A 0NNN system call, by contrast, is a defined no-op.
    let mut chip = boot(vec![0x01, 0x23]);
    run(&mut chip, 1);
    assert_eq!(chip.pc, 0x202);
}

#[test]
fn call_stack_overflows_at_sixteen_frames() {
    // CALL 0x200 calls itself forever.
    let mut chip = boot(vec![0x22, 0x00]);
    for _ in 0..16 {
        assert_eq!(chip.step(), Ok(()));
    }
    assert_eq!(chip.sp, 16);
    assert_eq!(chip.step(), Err(VmError::StackOverflow));
    assert_eq!(chip.sp, 16);
    assert_eq!(chip.pc, 0x200);
}

#[test]
fn ret_with_empty_stack_underflows() {
    let mut chip = boot(vec![0x00, 0xee]);
    assert_eq!(chip.step(), Err(VmError::StackUnderflow));
    assert_eq!(chip.pc, 0x200);
    assert_eq!(chip.sp, 0);
}

#[test]
fn memory_ranges_are_checked_before_access() {
    // FX33 needs three bytes at I.
    let mut chip = boot(vec![0xaf, 0xfe, 0xf0, 0x33]);
    run(&mut chip, 1);
    assert_eq!(chip.step(), Err(VmError::MemoryOutOfBounds));
    // DXYN needs the sprite bytes at I.
    let mut chip = boot(vec![0xaf, 0xff, 0xd0, 0x12]);
    run(&mut chip, 1);
    assert_eq!(chip.step(), Err(VmError::MemoryOutOfBounds));
    // FX55 needs a slot for each register it stores.
    let mut chip = boot(vec![0xaf, 0xff, 0xf1, 0x55]);
    run(&mut chip, 1);
    assert_eq!(chip.step(), Err(VmError::MemoryOutOfBounds));
    // FX65 likewise for reading.
    let mut chip = boot(vec![0xaf, 0xff, 0xf1, 0x65]);
    run(&mut chip, 1);
    assert_eq!(chip.step(), Err(VmError::MemoryOutOfBounds));
}

#[test]
fn key_index_uses_the_low_nibble() {
    // EX9E with V0 = 0xF5 tests key 5, the low nibble.
    let mut chip = boot(vec![0x60, 0xf5, 0xe0, 0x9e, 0x61, 0x01, 0x62, 0x01]);
    chip.apply_edges(1 << 5, 0);
    run(&mut chip, 3);
    assert_eq!(chip.regs[1], 0);
    assert_eq!(chip.regs[2], 1);
}

#[test]
fn lowest_key_scans_from_zero() {
    assert_eq!(crust::cpu::lowest_key(0), 16);
    assert_eq!(crust::cpu::lowest_key(0x8000), 15);
    assert_eq!(crust::cpu::lowest_key(0b1010_0000), 5);
    assert_eq!(crust::cpu::lowest_key(1), 0);
}

#[test]
fn vf_as_shift_operand_takes_the_flag_first() {
    // SHR VF: the flag is written first and is what gets shifted.
    let mut chip = boot(vec![0x6f, 0x05, 0x8f, 0x06]);
    run(&mut chip, 2);
    assert_eq!(chip.regs[15], 0);
}

#[test]
fn vf_as_add_destination_keeps_the_flag() {
    // ADD VF, 0xFF on VF = 2: the carry flag overwrites the wrapped sum.
    let mut chip = boot(vec![0x6f, 0x02, 0x7f, 0xff]);
    run(&mut chip, 2);
    assert_eq!(chip.regs[15], 1);
}

#[test]
fn fetch_at_the_last_byte_is_out_of_bounds() {
    let mut chip = Chip8::new();
    chip.pc = 4095;
    assert_eq!(chip.step(), Err(VmError::PcOutOfBounds));
    assert_eq!(chip.pc, 4095);
}
