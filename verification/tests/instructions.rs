//! Per-instruction semantics, decode classification, and the fault paths.

use chip8::Emulator;
use chip8::Fault;
use chip8::Instr;

/// Loads a program and runs it for `cycles` cycles, which must all succeed.
fn run(prog: &[u8], cycles: usize) -> Emulator {
    let mut m = Emulator::new();
    m.load_rom(prog).expect("program fits");
    for _ in 0..cycles {
        m.cycle().expect("cycle succeeds");
    }
    m
}

#[test]
fn decode_classifies_shapes() {
    let m = Emulator::new();
    assert_eq!(m.decode(0x0000), Some(Instr::Nop));
    assert_eq!(m.decode(0x00E0), Some(Instr::ClearScreen));
    assert_eq!(m.decode(0x00EE), Some(Instr::Return));
    assert_eq!(m.decode(0x1ABC), Some(Instr::Jump(0xABC)));
    assert_eq!(m.decode(0x2300), Some(Instr::Call(0x300)));
    assert_eq!(m.decode(0x3A42), Some(Instr::SkipEqImm(0xA, 0x42)));
    assert_eq!(m.decode(0x4A42), Some(Instr::SkipNeImm(0xA, 0x42)));
    assert_eq!(m.decode(0x5AB0), Some(Instr::SkipEqReg(0xA, 0xB)));
    assert_eq!(m.decode(0x6A42), Some(Instr::LoadImm(0xA, 0x42)));
    assert_eq!(m.decode(0x7A42), Some(Instr::AddImm(0xA, 0x42)));
    assert_eq!(m.decode(0x8AB0), Some(Instr::RegCopy(0xA, 0xB)));
    assert_eq!(m.decode(0x8AB1), Some(Instr::OrReg(0xA, 0xB)));
    assert_eq!(m.decode(0x8AB2), Some(Instr::AndReg(0xA, 0xB)));
    assert_eq!(m.decode(0x8AB3), Some(Instr::XorReg(0xA, 0xB)));
    assert_eq!(m.decode(0x8AB4), Some(Instr::AddReg(0xA, 0xB)));
    assert_eq!(m.decode(0x8AB5), Some(Instr::SubReg(0xA, 0xB)));
    assert_eq!(m.decode(0x8AB6), Some(Instr::ShiftRight(0xA)));
    assert_eq!(m.decode(0x8AB7), Some(Instr::SubRegRev(0xA, 0xB)));
    assert_eq!(m.decode(0x8ABE), Some(Instr::ShiftLeft(0xA)));
    assert_eq!(m.decode(0x9AB0), Some(Instr::SkipNeReg(0xA, 0xB)));
    assert_eq!(m.decode(0xA123), Some(Instr::SetIndex(0x123)));
    assert_eq!(m.decode(0xB123), Some(Instr::JumpOffset(0x123)));
    assert_eq!(m.decode(0xCA42), Some(Instr::Random(0xA, 0x42)));
    assert_eq!(m.decode(0xDAB5), Some(Instr::Draw(0xA, 0xB, 5)));
    assert_eq!(m.decode(0xEA9E), Some(Instr::SkipKeyPressed(0xA)));
    assert_eq!(m.decode(0xEAA1), Some(Instr::SkipKeyNotPressed(0xA)));
    assert_eq!(m.decode(0xFA07), Some(Instr::LoadDelay(0xA)));
    assert_eq!(m.decode(0xFA0A), Some(Instr::WaitKey(0xA)));
    assert_eq!(m.decode(0xFA15), Some(Instr::StoreDelay(0xA)));
    assert_eq!(m.decode(0xFA18), Some(Instr::StoreSound(0xA)));
    assert_eq!(m.decode(0xFA1E), Some(Instr::AddIndex(0xA)));
    assert_eq!(m.decode(0xFA29), Some(Instr::LoadFontAddr(0xA)));
    assert_eq!(m.decode(0xFA33), Some(Instr::StoreBcd(0xA)));
    assert_eq!(m.decode(0xFA55), Some(Instr::StoreRegs(0xA)));
    assert_eq!(m.decode(0xFA65), Some(Instr::LoadRegs(0xA)));
    assert_eq!(m.decode(0x8AB8), None);
    assert_eq!(m.decode(0x9AB1), None);
    assert_eq!(m.decode(0x0123), None);
    assert_eq!(m.decode(0xEA00), None);
    assert_eq!(m.decode(0xFA00), None);
}

#[test]
fn fetch_reads_big_endian_and_advances() {
    let mut m = Emulator::new();
    m.load_rom(&[0x12, 0x34]).expect("program fits");
    assert_eq!(m.fetch(), Ok(0x1234));
    assert_eq!(m.get_program_counter(), 0x202);
}

#[test]
fn decode_then_execute_directly() {
    let mut m = Emulator::new();
    let instr = m.decode(0x6A42).expect("a known shape");
    m.execute(instr).expect("execute succeeds");
    assert_eq!(m.get_register(10), 0x42);
    // The fetch advance is not part of execute.
    assert_eq!(m.get_program_counter(), 0x200);
}

#[test]
fn load_imm_reads_back() {
    let m = run(&[0x6A, 0x42], 1);
    assert_eq!(m.get_register(10), 0x42);
}

#[test]
fn add_imm_wraps_without_flag() {
    // V0 := 250; V0 += 10: wraps to 4, VF untouched.
    let m = run(&[0x60, 0xFA, 0x70, 0x0A], 2);
    assert_eq!(m.get_register(0), 4);
    assert_eq!(m.get_register(15), 0);
}

#[test]
fn add_reg_overflow_sets_vf() {
    // 200 + 100 = 300: V0 = 44, VF = 1.
    let m = run(&[0x60, 0xC8, 0x61, 0x64, 0x80, 0x14], 3);
    assert_eq!(m.get_register(0), 44);
    assert_eq!(m.get_register(15), 1);
}

#[test]
fn add_reg_no_overflow_clears_vf() {
    let m = run(&[0x60, 0x05, 0x61, 0x03, 0x80, 0x14], 3);
    assert_eq!(m.get_register(0), 8);
    assert_eq!(m.get_register(15), 0);
}

#[test]
fn sub_reg_no_borrow_sets_vf() {
    // 5 - 3 = 2, VF = 1 (no borrow).
    let m = run(&[0x60, 0x05, 0x61, 0x03, 0x80, 0x15], 3);
    assert_eq!(m.get_register(0), 2);
    assert_eq!(m.get_register(15), 1);
}

#[test]
fn sub_reg_borrow_clears_vf() {
    // 3 - 5 wraps to 254, VF = 0 (borrow).
    let m = run(&[0x60, 0x03, 0x61, 0x05, 0x80, 0x15], 3);
    assert_eq!(m.get_register(0), 254);
    assert_eq!(m.get_register(15), 0);
}

#[test]
fn sub_reg_equal_sets_vf() {
    let m = run(&[0x60, 0x07, 0x61, 0x07, 0x80, 0x15], 3);
    assert_eq!(m.get_register(0), 0);
    assert_eq!(m.get_register(15), 1);
}

#[test]
fn sub_reg_rev_subtracts_other_way() {
    // V0 := Vy - Vx = 9 - 4 = 5, VF = 1.
    let m = run(&[0x60, 0x04, 0x61, 0x09, 0x80, 0x17], 3);
    assert_eq!(m.get_register(0), 5);
    assert_eq!(m.get_register(15), 1);
}

#[test]
fn bitwise_ops() {
    let m = run(&[0x60, 0xCC, 0x61, 0xAA, 0x80, 0x11], 3);
    assert_eq!(m.get_register(0), 0xCC | 0xAA);
    let m = run(&[0x60, 0xCC, 0x61, 0xAA, 0x80, 0x12], 3);
    assert_eq!(m.get_register(0), 0xCC & 0xAA);
    let m = run(&[0x60, 0xCC, 0x61, 0xAA, 0x80, 0x13], 3);
    assert_eq!(m.get_register(0), 0xCC ^ 0xAA);
    let m = run(&[0x60, 0xCC, 0x61, 0xAA, 0x80, 0x10], 3);
    assert_eq!(m.get_register(0), 0xAA);
}

#[test]
fn jump_sets_pc() {
    let m = run(&[0x1A, 0xBC], 1);
    assert_eq!(m.get_program_counter(), 0xABC);
}

#[test]
fn jump_offset_adds_v0() {
    let m = run(&[0x60, 0x05, 0xB3, 0x00], 2);
    assert_eq!(m.get_program_counter(), 0x305);
}

#[test]
fn skips_conditional_on_imm() {
    // V0 := 7; skip-eq-imm 7 skips the next instruction.
    let m = run(&[0x60, 0x07, 0x30, 0x07], 2);
    assert_eq!(m.get_program_counter(), 0x206);
    let m = run(&[0x60, 0x07, 0x30, 0x08], 2);
    assert_eq!(m.get_program_counter(), 0x204);
    let m = run(&[0x60, 0x07, 0x40, 0x08], 2);
    assert_eq!(m.get_program_counter(), 0x206);
}

#[test]
fn skips_conditional_on_reg() {
    let m = run(&[0x60, 0x07, 0x61, 0x07, 0x50, 0x10], 3);
    assert_eq!(m.get_program_counter(), 0x208);
    let m = run(&[0x60, 0x07, 0x61, 0x08, 0x90, 0x10], 3);
    assert_eq!(m.get_program_counter(), 0x208);
    let m = run(&[0x60, 0x07, 0x61, 0x07, 0x90, 0x10], 3);
    assert_eq!(m.get_program_counter(), 0x206);
}

#[test]
fn set_index_and_add_index() {
    let m = run(&[0xA1, 0x00, 0x60, 0x05, 0xF0, 0x1E], 3);
    assert_eq!(m.get_index_register(), 0x105);
}

#[test]
fn load_font_addr_uses_low_digit() {
    // V0 := 0xAB: glyph for digit B at 5 * 11 = 55.
    let m = run(&[0x60, 0xAB, 0xF0, 0x29], 2);
    assert_eq!(m.get_index_register(), 55);
}

#[test]
fn font_set_is_preloaded() {
    let m = Emulator::new();
    assert_eq!(m.read_byte(0), 0xF0);
    assert_eq!(m.read_byte(5), 0x20);
    assert_eq!(m.read_byte(79), 0x80);
}

#[test]
fn store_bcd_writes_digits() {
    // V0 := 234; index := 0x400; BCD.
    let m = run(&[0x60, 0xEA, 0xA4, 0x00, 0xF0, 0x33], 3);
    assert_eq!(m.read_byte(0x400), 2);
    assert_eq!(m.read_byte(0x401), 3);
    assert_eq!(m.read_byte(0x402), 4);
}

#[test]
fn store_and_load_registers_round_trip() {
    // V0..=V2 := 1, 2, 3; store to 0x400; clobber V0..=V2; load back.
    let m = run(
        &[
            0x60, 0x01, 0x61, 0x02, 0x62, 0x03, 0xA4, 0x00, 0xF2, 0x55, 0x60, 0x09, 0x61, 0x09,
            0x62, 0x09, 0xF2, 0x65,
        ],
        9,
    );
    assert_eq!(m.get_register(0), 1);
    assert_eq!(m.get_register(1), 2);
    assert_eq!(m.get_register(2), 3);
    assert_eq!(m.read_byte(0x400), 1);
    assert_eq!(m.read_byte(0x401), 2);
    assert_eq!(m.read_byte(0x402), 3);
}

#[test]
fn timers_load_store_and_saturate() {
    let mut m = run(&[0x60, 0x02, 0xF0, 0x15, 0xF0, 0x18], 3);
    assert_eq!(m.get_delay_timer(), 2);
    assert_eq!(m.get_sound_timer(), 2);
    m.increment_timers();
    assert_eq!(m.get_delay_timer(), 1);
    m.increment_timers();
    m.increment_timers();
    assert_eq!(m.get_delay_timer(), 0);
    assert_eq!(m.get_sound_timer(), 0);
}

#[test]
fn load_delay_reads_timer() {
    let mut m = Emulator::new();
    m.load_rom(&[0x60, 0x09, 0xF0, 0x15, 0xF1, 0x07]).expect("program fits");
    for _ in 0..3 {
        m.cycle().expect("cycle succeeds");
    }
    assert_eq!(m.get_register(1), 9);
}

#[test]
fn random_respects_mask() {
    // A zero mask forces zero whatever the random byte was.
    let m = run(&[0x60, 0xFF, 0xC0, 0x00], 2);
    assert_eq!(m.get_register(0), 0);
    let m = run(&[0xC0, 0x0F], 1);
    assert!(m.get_register(0) <= 0x0F);
}

#[test]
fn key_skips() {
    let mut m = Emulator::new();
    m.load_rom(&[0x60, 0x03, 0xE0, 0x9E, 0x00, 0x00, 0xE0, 0xA1]).expect("program fits");
    m.key_press(3, true);
    m.cycle().expect("cycle succeeds");
    m.cycle().expect("cycle succeeds");
    // Key 3 pressed: skip-key-pressed skips the no-op, landing at 0x206.
    assert_eq!(m.get_program_counter(), 0x206);
    m.key_press(3, false);
    // Now not pressed: skip-key-not-pressed at 0x206 skips to 0x20A.
    m.cycle().expect("cycle succeeds");
    assert_eq!(m.get_program_counter(), 0x20A);
}

#[test]
fn clear_screen_unlights_everything() {
    // Draw a glyph, then clear.
    let m = run(&[0xA0, 0x00, 0xD0, 0x05, 0x00, 0xE0], 3);
    assert!(m.get_screen().iter().all(|cell| !cell));
}

#[test]
fn decode_failure_is_reported() {
    let mut m = Emulator::new();
    m.load_rom(&[0x81, 0x28]).expect("program fits");
    assert_eq!(m.cycle(), Err(Fault::DecodeFailure(0x8128, 0x200)));
}

#[test]
fn stack_underflow_on_empty_return() {
    let mut m = Emulator::new();
    m.load_rom(&[0x00, 0xEE]).expect("program fits");
    assert_eq!(m.cycle(), Err(Fault::StackUnderflow));
}

#[test]
fn stack_overflow_on_seventeenth_push() {
    let mut m = Emulator::new();
    for i in 0..16 {
        assert_eq!(m.push(0x200 + i), Ok(()));
    }
    assert_eq!(m.stack_depth(), 16);
    assert_eq!(m.push(0x999), Err(Fault::StackOverflow(0x999)));
    for i in (0..16).rev() {
        assert_eq!(m.pop(), Ok(0x200 + i));
    }
    assert_eq!(m.pop(), Err(Fault::StackUnderflow));
}

#[test]
fn nested_calls_overflow_the_stack() {
    // A program that calls its own address forever: each call pushes.
    let mut m = Emulator::new();
    m.load_rom(&[0x22, 0x00]).expect("program fits");
    for _ in 0..16 {
        m.cycle().expect("call succeeds");
    }
    assert_eq!(m.cycle(), Err(Fault::StackOverflow(0x200)));
}

#[test]
fn bcd_out_of_range_is_fatal() {
    let mut m = Emulator::new();
    m.load_rom(&[0xAF, 0xFF, 0xF0, 0x33]).expect("program fits");
    m.cycle().expect("set index succeeds");
    assert_eq!(m.cycle(), Err(Fault::OutOfRangeAccess(0xFFF)));
}

#[test]
fn draw_out_of_range_is_fatal() {
    let mut m = Emulator::new();
    m.load_rom(&[0xAF, 0xFF, 0xD0, 0x12]).expect("program fits");
    m.cycle().expect("set index succeeds");
    assert_eq!(m.cycle(), Err(Fault::OutOfRangeAccess(0xFFF)));
}

#[test]
fn fetch_out_of_range_is_fatal() {
    let mut m = Emulator::new();
    m.load_rom(&[0x1F, 0xFF]).expect("program fits");
    m.cycle().expect("jump succeeds");
    assert_eq!(m.cycle(), Err(Fault::OutOfRangeAccess(0xFFF)));
}

#[test]
fn fault_leaves_state_for_inspection() {
    let mut m = Emulator::new();
    m.load_rom(&[0x60, 0x07, 0x81, 0x28]).expect("program fits");
    m.cycle().expect("load succeeds");
    assert!(m.cycle().is_err());
    // The offending word did not execute: registers are as before it.
    assert_eq!(m.get_register(0), 7);
    assert_eq!(m.get_register(1), 0);
}

#[test]
fn reset_matches_fresh_machine() {
    let mut m = Emulator::new();
    m.load_rom(&[0x60, 0x2A, 0xA1, 0x23, 0xD0, 0x01]).expect("program fits");
    for _ in 0..3 {
        m.cycle().expect("cycle succeeds");
    }
    m.key_press(5, true);
    m.reset();
    let fresh = Emulator::new();
    assert_eq!(m.get_program_counter(), fresh.get_program_counter());
    assert_eq!(m.get_index_register(), fresh.get_index_register());
    assert_eq!(m.stack_depth(), 0);
    for i in 0..16 {
        assert_eq!(m.get_register(i), 0);
        assert!(!m.key_state(i));
    }
    for addr in 0..4096 {
        assert_eq!(m.read_byte(addr), fresh.read_byte(addr));
    }
    assert!(m.get_screen().iter().all(|cell| !cell));
}
