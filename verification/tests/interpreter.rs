use chip8::cpu::{fallback_program, CPU};

fn no_rnd(speed: usize) -> Vec<u8> {
    vec![0u8; speed]
}

#[test]
fn load_then_add_immediate() {
    // V0 = 5, then V0 += 3: after two cycles V0 is 8 and the program
    // counter sits right after the two opcodes.
    let rom = vec![0x60, 0x05, 0x70, 0x03];
    let mut cpu = CPU::new(1, &rom);
    cpu.cycle(0, None, &no_rnd(1));
    cpu.cycle(0, None, &no_rnd(1));
    assert_eq!(cpu.register(0), 8);
    assert_eq!(cpu.program_counter(), 0x204);
}

#[test]
fn jump_target_is_fetched_exactly() {
    // Jump to 0x206; the next fetch must read the opcode at 0x206 itself,
    // not at 0x208.
    let rom = vec![0x12, 0x06, 0x60, 0xAA, 0x00, 0x00, 0x60, 0x07];
    let mut cpu = CPU::new(1, &rom);
    cpu.cycle(0, None, &no_rnd(1));
    assert_eq!(cpu.program_counter(), 0x206);
    cpu.cycle(0, None, &no_rnd(1));
    assert_eq!(cpu.register(0), 0x07);
    assert_eq!(cpu.program_counter(), 0x208);
}

#[test]
fn call_then_return_restores_pc() {
    let rom = vec![0x22, 0x06, 0x60, 0x33, 0x12, 0x04, 0x00, 0xEE];
    let mut cpu = CPU::new(1, &rom);
    cpu.cycle(0, None, &no_rnd(1));
    assert_eq!(cpu.program_counter(), 0x206);
    assert_eq!(cpu.stack_depth(), 1);
    cpu.cycle(0, None, &no_rnd(1));
    // Return lands right after the call opcode.
    assert_eq!(cpu.program_counter(), 0x202);
    assert_eq!(cpu.stack_depth(), 0);
    cpu.cycle(0, None, &no_rnd(1));
    assert_eq!(cpu.register(0), 0x33);
}

#[test]
fn return_with_empty_stack_resets_pc() {
    let rom = vec![0x00, 0xEE];
    let mut cpu = CPU::new(1, &rom);
    cpu.cycle(0, None, &no_rnd(1));
    assert_eq!(cpu.program_counter(), 0x200);
    assert_eq!(cpu.stack_depth(), 0);
}

#[test]
fn add_reg_sets_carry_on_overflow() {
    let rom = vec![0x60, 0xFA, 0x61, 0x10, 0x80, 0x14];
    let mut cpu = CPU::new(3, &rom);
    cpu.cycle(0, None, &no_rnd(3));
    assert_eq!(cpu.register(0), 0x0A);
    assert_eq!(cpu.register(0xF), 1);
}

#[test]
fn add_reg_clears_carry_without_overflow() {
    let rom = vec![0x60, 0x05, 0x61, 0x03, 0x80, 0x14];
    let mut cpu = CPU::new(3, &rom);
    cpu.cycle(0, None, &no_rnd(3));
    assert_eq!(cpu.register(0), 8);
    assert_eq!(cpu.register(0xF), 0);
}

#[test]
fn sub_reg_sets_flag_when_no_borrow() {
    let rom = vec![0x60, 0x05, 0x61, 0x03, 0x80, 0x15];
    let mut cpu = CPU::new(3, &rom);
    cpu.cycle(0, None, &no_rnd(3));
    assert_eq!(cpu.register(0), 2);
    assert_eq!(cpu.register(0xF), 1);
}

#[test]
fn sub_reg_wraps_and_clears_flag_on_borrow() {
    let rom = vec![0x60, 0x03, 0x61, 0x05, 0x80, 0x15];
    let mut cpu = CPU::new(3, &rom);
    cpu.cycle(0, None, &no_rnd(3));
    assert_eq!(cpu.register(0), 254);
    assert_eq!(cpu.register(0xF), 0);
}

#[test]
fn sub_rev_takes_difference_the_other_way() {
    let rom = vec![0x60, 0x03, 0x61, 0x05, 0x80, 0x17];
    let mut cpu = CPU::new(3, &rom);
    cpu.cycle(0, None, &no_rnd(3));
    assert_eq!(cpu.register(0), 2);
    assert_eq!(cpu.register(0xF), 1);
}

#[test]
fn shift_right_reports_low_bit() {
    // V1 = 3, then V0 = V1 >> 1 with VF = the shifted-out bit.
    let rom = vec![0x61, 0x03, 0x80, 0x16];
    let mut cpu = CPU::new(2, &rom);
    cpu.cycle(0, None, &no_rnd(2));
    assert_eq!(cpu.register(0), 1);
    assert_eq!(cpu.register(0xF), 1);
}

#[test]
fn shift_left_reports_high_bit() {
    let rom = vec![0x61, 0x81, 0x80, 0x1E];
    let mut cpu = CPU::new(2, &rom);
    cpu.cycle(0, None, &no_rnd(2));
    assert_eq!(cpu.register(0), 0x02);
    assert_eq!(cpu.register(0xF), 1);
}

#[test]
fn skip_when_immediate_matches() {
    // V0 == 5, so the 0x61 opcode is skipped and the 0x62 one runs.
    let rom = vec![0x60, 0x05, 0x30, 0x05, 0x61, 0x01, 0x62, 0x02];
    let mut cpu = CPU::new(3, &rom);
    cpu.cycle(0, None, &no_rnd(3));
    assert_eq!(cpu.register(1), 0);
    assert_eq!(cpu.register(2), 2);
}

#[test]
fn no_skip_when_immediate_differs() {
    let rom = vec![0x60, 0x04, 0x30, 0x05, 0x61, 0x01];
    let mut cpu = CPU::new(3, &rom);
    cpu.cycle(0, None, &no_rnd(3));
    assert_eq!(cpu.register(1), 1);
}

#[test]
fn store_regs_writes_memory_and_bumps_index() {
    let rom = vec![0x60, 0x01, 0x61, 0x02, 0x62, 0x03, 0xA3, 0x00, 0xF2, 0x55];
    let mut cpu = CPU::new(5, &rom);
    cpu.cycle(0, None, &no_rnd(5));
    assert_eq!(cpu.read_mem(0x300), 1);
    assert_eq!(cpu.read_mem(0x301), 2);
    assert_eq!(cpu.read_mem(0x302), 3);
    // The index register moves by exactly one, not by the count stored.
    assert_eq!(cpu.index_register(), 0x301);
}

#[test]
fn load_regs_reads_memory_and_bumps_index() {
    let rom = vec![0xA2, 0x06, 0xF1, 0x65, 0x12, 0x04, 0x0B, 0x16];
    let mut cpu = CPU::new(2, &rom);
    cpu.cycle(0, None, &no_rnd(2));
    assert_eq!(cpu.register(0), 0x0B);
    assert_eq!(cpu.register(1), 0x16);
    assert_eq!(cpu.index_register(), 0x207);
}

#[test]
fn bcd_stores_decimal_digits() {
    let rom = vec![0x60, 0x7B, 0xA4, 0x00, 0xF0, 0x33];
    let mut cpu = CPU::new(3, &rom);
    cpu.cycle(0, None, &no_rnd(3));
    assert_eq!(cpu.read_mem(0x400), 1);
    assert_eq!(cpu.read_mem(0x401), 2);
    assert_eq!(cpu.read_mem(0x402), 3);
}

#[test]
fn font_glyphs_are_seeded_and_addressable() {
    // Fx29 points I at the 5-byte glyph of the digit in Vx.
    let rom = vec![0x60, 0x02, 0xF0, 0x29];
    let mut cpu = CPU::new(2, &rom);
    cpu.cycle(0, None, &no_rnd(2));
    assert_eq!(cpu.index_register(), 10);
    // The glyph for 0 lives at the very bottom of memory.
    assert_eq!(cpu.read_mem(0), 0xF0);
    assert_eq!(cpu.read_mem(10), 0xF0);
}

#[test]
fn add_index_is_not_masked() {
    let rom = vec![0xAF, 0xFF, 0x60, 0x07, 0xF0, 0x1E];
    let mut cpu = CPU::new(3, &rom);
    cpu.cycle(0, None, &no_rnd(3));
    // 0xFFF + 7 exceeds the 12-bit space and stays unmasked.
    assert_eq!(cpu.index_register(), 0x1006);
}

#[test]
fn jump_plus_v0_wraps_into_address_space() {
    let rom = vec![0x60, 0xFF, 0xBF, 0xFF];
    let mut cpu = CPU::new(2, &rom);
    cpu.cycle(0, None, &no_rnd(2));
    assert_eq!(cpu.program_counter(), (0xFFF + 0xFF) % 0x1000);
}

#[test]
fn pc_wraps_past_top_of_memory() {
    let rom = vec![0x1F, 0xFE];
    let mut cpu = CPU::new(2, &rom);
    cpu.cycle(0, None, &no_rnd(2));
    // Jump to 0xFFE, execute the zero bytes there as a no-op, and wrap.
    assert_eq!(cpu.program_counter(), 0);
}

#[test]
fn random_byte_is_masked() {
    let rom = vec![0xC0, 0x0F];
    let mut cpu = CPU::new(1, &rom);
    cpu.cycle(0, None, &vec![0xAB]);
    assert_eq!(cpu.register(0), 0x0B);
}

#[test]
fn timers_tick_once_per_cycle() {
    let rom = vec![0x60, 0x05, 0xF0, 0x15, 0xF0, 0x18];
    let mut cpu = CPU::new(3, &rom);
    cpu.cycle(0, None, &no_rnd(3));
    assert_eq!(cpu.delay_timer(), 4);
    assert_eq!(cpu.sound_timer(), 4);
    cpu.cycle(0, None, &no_rnd(3));
    assert_eq!(cpu.delay_timer(), 3);
    assert_eq!(cpu.sound_timer(), 3);
}

#[test]
fn timers_never_go_below_zero() {
    let rom = vec![0x00, 0x00];
    let mut cpu = CPU::new(1, &rom);
    cpu.cycle(0, None, &no_rnd(1));
    cpu.cycle(0, None, &no_rnd(1));
    assert_eq!(cpu.delay_timer(), 0);
    assert_eq!(cpu.sound_timer(), 0);
}

#[test]
fn read_delay_into_register() {
    let rom = vec![0x60, 0x09, 0xF0, 0x15, 0xF1, 0x07];
    let mut cpu = CPU::new(3, &rom);
    cpu.cycle(0, None, &no_rnd(3));
    // V1 reads the delay timer before the end-of-frame tick.
    assert_eq!(cpu.register(1), 9);
}

#[test]
fn unknown_opcode_is_a_noop() {
    // 5xy1 is outside the dispatch table.
    let rom = vec![0x5F, 0xF1];
    let mut cpu = CPU::new(1, &rom);
    cpu.cycle(0, None, &no_rnd(1));
    assert_eq!(cpu.program_counter(), 0x202);
    for x in 0..16 {
        assert_eq!(cpu.register(x), 0);
    }
}

#[test]
fn fallback_program_idles_in_place() {
    let rom = fallback_program();
    assert_eq!(rom, vec![0x12, 0x00]);
    let mut cpu = CPU::new(10, &rom);
    for _ in 0..5 {
        cpu.cycle(0, None, &no_rnd(10));
        assert_eq!(cpu.program_counter(), 0x200);
    }
}

#[test]
fn skip_if_key_held() {
    let rom = vec![0x60, 0x05, 0xE0, 0x9E, 0x61, 0x01, 0x62, 0x02];
    let mut cpu = CPU::new(3, &rom);
    // Logical key 5 is held: the 0x61 opcode is skipped.
    cpu.cycle(1 << 5, None, &no_rnd(3));
    assert_eq!(cpu.register(1), 0);
    assert_eq!(cpu.register(2), 2);
}

#[test]
fn skip_if_key_not_held() {
    let rom = vec![0x60, 0x05, 0xE0, 0xA1, 0x61, 0x01, 0x62, 0x02];
    let mut cpu = CPU::new(3, &rom);
    // Logical key 5 is not held: ExA1 skips.
    cpu.cycle(0, None, &no_rnd(3));
    assert_eq!(cpu.register(1), 0);
    assert_eq!(cpu.register(2), 2);
    // Held: ExA1 does not skip.
    let mut cpu2 = CPU::new(3, &rom);
    cpu2.cycle(1 << 5, None, &no_rnd(3));
    assert_eq!(cpu2.register(1), 1);
}

#[test]
fn wait_key_suspends_until_mapped_press() {
    let rom = vec![0x60, 0x05, 0xF0, 0x15, 0xF3, 0x0A];
    let mut cpu = CPU::new(3, &rom);
    cpu.cycle(0, None, &no_rnd(3));
    assert!(cpu.is_paused());
    // No tick happened while entering the wait within the same frame.
    assert_eq!(cpu.delay_timer(), 5);
    // A frame with no press: still waiting, still no tick.
    cpu.cycle(0, None, &no_rnd(3));
    assert!(cpu.is_paused());
    assert_eq!(cpu.delay_timer(), 5);
    // A press with no mapping is ignored.
    cpu.cycle(0, Some(12345), &no_rnd(3));
    assert!(cpu.is_paused());
    // The W key maps to logical key 5 and lands in V3.
    cpu.cycle(0, Some(87), &no_rnd(3));
    assert!(!cpu.is_paused());
    assert_eq!(cpu.register(3), 5);
    assert_eq!(cpu.delay_timer(), 5);
    // Execution resumes on the next frame and the timer ticks again.
    cpu.cycle(0, None, &no_rnd(3));
    assert_eq!(cpu.delay_timer(), 4);
}

#[test]
fn add_immediate_wraps_without_touching_flag() {
    let rom = vec![0x60, 0xFF, 0x70, 0x03];
    let mut cpu = CPU::new(2, &rom);
    cpu.cycle(0, None, &no_rnd(2));
    assert_eq!(cpu.register(0), 2);
    assert_eq!(cpu.register(0xF), 0);
}

#[test]
fn copy_and_logic_ops() {
    // V0 = 0b1100, V1 = 0b1010: OR, AND, XOR into V2..V4, copy into V5.
    let rom = vec![
        0x60, 0x0C, 0x61, 0x0A, 0x62, 0x0C, 0x82, 0x11, 0x63, 0x0C, 0x83, 0x12, 0x64, 0x0C, 0x84,
        0x13, 0x85, 0x10,
    ];
    let mut cpu = CPU::new(9, &rom);
    cpu.cycle(0, None, &no_rnd(9));
    assert_eq!(cpu.register(2), 0x0E); // 1100 | 1010
    assert_eq!(cpu.register(3), 0x08); // 1100 & 1010
    assert_eq!(cpu.register(4), 0x06); // 1100 ^ 1010
    assert_eq!(cpu.register(5), 0x0A); // copied from V1
}

#[test]
fn register_skips() {
    // V0 == V1: 5xy0 skips; then V0 != V2: 9xy0 skips.
    let rom = vec![
        0x60, 0x07, 0x61, 0x07, 0x50, 0x10, 0x63, 0x01, 0x90, 0x20, 0x64, 0x01, 0x65, 0x01,
    ];
    let mut cpu = CPU::new(5, &rom);
    cpu.cycle(0, None, &no_rnd(5));
    assert_eq!(cpu.register(3), 0);
    assert_eq!(cpu.register(4), 0);
    assert_eq!(cpu.register(5), 1);
}

#[test]
fn oversized_program_is_truncated() {
    // A program longer than memory loads only what fits, and the machine
    // still reaches a defined state.
    let rom = vec![0xAA; 0x1000];
    let cpu = CPU::new(1, &rom);
    assert_eq!(cpu.read_mem(0x200), 0xAA);
    assert_eq!(cpu.read_mem(0xFFF), 0xAA);
    assert_eq!(cpu.program_counter(), 0x200);
}
