//! End-to-end scenarios: whole programs run cycle by cycle.

use chip8::Emulator;
use chip8::Fault;

/// Loads a program and runs it for `cycles` cycles, which must all succeed.
fn run(prog: &[u8], cycles: usize) -> Emulator {
    let mut m = Emulator::new();
    m.load_rom(prog).expect("program fits");
    for _ in 0..cycles {
        m.cycle().expect("cycle succeeds");
    }
    m
}

#[test]
fn shift_right_low_bit_into_vf() {
    // V0 := 0b00000011; shift-right V0.
    let m = run(&[0x60, 0x03, 0x80, 0x06], 2);
    assert_eq!(m.get_register(0), 0b0000_0001);
    assert_eq!(m.get_register(15), 1);
}

#[test]
fn shift_left_high_bit_into_vf() {
    // V0 := 0b10000001; shift-left V0.
    let m = run(&[0x60, 0x81, 0x80, 0x0E], 2);
    assert_eq!(m.get_register(0), 0b0000_0010);
    assert_eq!(m.get_register(15), 1);
}

#[test]
fn four_cycle_add_program() {
    // Clear, V0 := 5, V1 := 3, V0 += V1.
    let m = run(&[0x00, 0xE0, 0x60, 0x05, 0x61, 0x03, 0x80, 0x14], 4);
    assert_eq!(m.get_register(0), 8);
    assert_eq!(m.get_register(15), 0);
    let screen = m.get_screen();
    assert_eq!(screen.len(), 2048);
    assert!(screen.iter().all(|cell| !cell));
}

#[test]
fn draw_wraps_columns() {
    // V0 := 63, V1 := 31, index := 0x208, draw 8x1 sprite 0xFF at (63, 31).
    let m = run(&[0x60, 0x3F, 0x61, 0x1F, 0xA2, 0x08, 0xD0, 0x11, 0xFF], 4);
    let screen = m.get_screen();
    // Leftmost sprite bit lands on column 63; the rest wrap to columns 0..=6.
    assert!(screen[63 + 64 * 31]);
    for c in 0..7 {
        assert!(screen[c + 64 * 31]);
    }
    assert_eq!(screen.iter().filter(|cell| **cell).count(), 8);
    assert_eq!(m.get_register(15), 0);
}

#[test]
fn draw_wraps_rows() {
    // V0 := 63, V1 := 31, index := 0x208, draw 8x2 sprite [0x80, 0x80].
    let m = run(&[0x60, 0x3F, 0x61, 0x1F, 0xA2, 0x08, 0xD0, 0x12, 0x80, 0x80], 4);
    let screen = m.get_screen();
    // First row at y = 31, second wraps to y = 0, both in column 63.
    assert!(screen[63 + 64 * 31]);
    assert!(screen[63]);
    assert_eq!(screen.iter().filter(|cell| **cell).count(), 2);
}

#[test]
fn draw_twice_restores_display() {
    // Draw the font glyph for 0 (at index 0) twice at (2, 3).
    let prog = [0x60, 0x02, 0x61, 0x03, 0xA0, 0x00, 0xD0, 0x15, 0xD0, 0x15];
    let mut m = Emulator::new();
    m.load_rom(&prog).expect("program fits");
    for _ in 0..4 {
        m.cycle().expect("cycle succeeds");
    }
    assert!(m.get_screen().iter().any(|cell| *cell));
    assert_eq!(m.get_register(15), 0);
    m.cycle().expect("cycle succeeds");
    // The second identical draw unsets every cell the first lit.
    assert!(m.get_screen().iter().all(|cell| !cell));
    assert_eq!(m.get_register(15), 1);
}

#[test]
fn load_rom_bounds() {
    let mut m = Emulator::new();
    let too_big = vec![0u8; 3585];
    assert_eq!(m.load_rom(&too_big), Err(Fault::ProgramTooLarge(3585)));
    let mut exact = vec![0xABu8; 3584];
    exact[3583] = 0xCD;
    assert_eq!(m.load_rom(&exact), Ok(()));
    assert_eq!(m.read_byte(0x200), 0xAB);
    assert_eq!(m.read_byte(0xFFF), 0xCD);
}

#[test]
fn call_then_return_restores_pc() {
    // Call 0x300 from 0x200 (pushing 0x202); a return sits at 0x300.
    let mut prog = vec![0u8; 0x102];
    prog[0] = 0x23;
    prog[1] = 0x00;
    prog[0x100] = 0x00;
    prog[0x101] = 0xEE;
    let mut m = Emulator::new();
    m.load_rom(&prog).expect("program fits");
    m.cycle().expect("call succeeds");
    assert_eq!(m.get_program_counter(), 0x300);
    assert_eq!(m.stack_depth(), 1);
    m.cycle().expect("return succeeds");
    assert_eq!(m.get_program_counter(), 0x202);
    assert_eq!(m.stack_depth(), 0);
}

#[test]
fn wait_key_blocks_until_pressed() {
    let mut m = Emulator::new();
    m.load_rom(&[0xF0, 0x0A]).expect("program fits");
    for _ in 0..3 {
        m.cycle().expect("cycle succeeds");
        assert_eq!(m.get_program_counter(), 0x200);
    }
    m.key_press(7, true);
    m.cycle().expect("cycle succeeds");
    assert_eq!(m.get_program_counter(), 0x202);
    assert_eq!(m.get_register(0), 7);
}

#[test]
fn wait_key_takes_lowest_index() {
    let mut m = Emulator::new();
    m.load_rom(&[0xF0, 0x0A]).expect("program fits");
    m.key_press(9, true);
    m.key_press(4, true);
    m.cycle().expect("cycle succeeds");
    assert_eq!(m.get_register(0), 4);
}
