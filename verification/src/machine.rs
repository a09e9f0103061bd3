//! The machine state of the interpreter: memory, registers, call stack,
//! timers, key states and the display, together with the operations that the
//! host drives directly (construction, reset, program load, key input,
//! timer ticks) and the small state accessors and mutators that the
//! execution stage is built from.
//!
//! Every operation is specified against [`EmuView`], the mathematical model
//! of the machine state.

use vstd::prelude::*;

use crate::isa::Fault;

verus! {

/// The built-in font sprite set: 16 glyphs of 5 bytes each, one 4x5 glyph
/// per hexadecimal digit, occupying memory addresses 0x000..0x050.
pub const FONT_SET: [u8; 80] = [
    0xF0, 0x90, 0x90, 0x90, 0xF0, // 0
    0x20, 0x60, 0x20, 0x20, 0x70, // 1
    0xF0, 0x10, 0xF0, 0x80, 0xF0, // 2
    0xF0, 0x10, 0xF0, 0x10, 0xF0, // 3
    0x90, 0x90, 0xF0, 0x10, 0x10, // 4
    0xF0, 0x80, 0xF0, 0x10, 0xF0, // 5
    0xF0, 0x80, 0xF0, 0x90, 0xF0, // 6
    0xF0, 0x10, 0x20, 0x40, 0x40, // 7
    0xF0, 0x90, 0xF0, 0x90, 0xF0, // 8
    0xF0, 0x90, 0xF0, 0x10, 0xF0, // 9
    0xF0, 0x90, 0xF0, 0x90, 0x90, // A
    0xE0, 0x90, 0xE0, 0x90, 0xE0, // B
    0xF0, 0x80, 0x80, 0x80, 0xF0, // C
    0xE0, 0x90, 0x90, 0x90, 0xE0, // D
    0xF0, 0x80, 0xF0, 0x80, 0xF0, // E
    0xF0, 0x80, 0xF0, 0x80, 0x80, // F
];

/// The mathematical model of the machine state: what every contract of the
/// library speaks about.
#[verifier::ext_equal]
pub ghost struct EmuView {
    /// Address of the next instruction to fetch.
    pub pc: u16,
    /// Number of call-stack entries in use.
    pub sp: u16,
    /// The 4096 bytes of addressable memory.
    pub ram: Seq<u8>,
    /// The 16 general-purpose registers `V0..=VF`.
    pub v: Seq<u8>,
    /// The 64x32 display, row-major: cell `(x, y)` is `screen[x + 64 * y]`.
    pub screen: Seq<bool>,
    /// The 16-bit index register.
    pub index: u16,
    /// The 16 call-stack slots; only the first `sp` are in use.
    pub stack: Seq<u16>,
    /// The 16 key states.
    pub keys: Seq<bool>,
    /// The delay timer.
    pub dt: u8,
    /// The sound timer.
    pub st: u8,
}

impl EmuView {
    /// Well-formedness: the fixed sizes of the machine's components, and the
    /// stack pointer staying within the 16-entry call stack.
    pub open spec fn wf(self) -> bool {
        &&& self.ram.len() == 4096
        &&& self.v.len() == 16
        &&& self.screen.len() == 2048
        &&& self.stack.len() == 16
        &&& self.keys.len() == 16
        &&& self.sp <= 16
    }

    /// The state a machine is constructed with and that `reset` restores:
    /// everything zeroed except the font set at the bottom of memory and the
    /// program counter at the program origin 0x200.
    pub open spec fn initial() -> EmuView {
        EmuView {
            pc: 0x200,
            sp: 0,
            ram: Seq::new(4096, |i: int| if i < 80 { FONT_SET[i] } else { 0u8 }),
            v: Seq::new(16, |i: int| 0u8),
            screen: Seq::new(2048, |i: int| false),
            index: 0,
            stack: Seq::new(16, |i: int| 0u16),
            keys: Seq::new(16, |i: int| false),
            dt: 0,
            st: 0,
        }
    }
}

/// A CHIP-8 interpreter core.  It owns all emulated state; the host drives
/// it through `load_rom`, `cycle`, `increment_timers` and `key_press`, and
/// reads the display back through `get_screen`.
pub struct Emulator {
    pc: u16,
    sp: u16,
    ram: [u8; 4096],
    v: [u8; 16],
    screen: [bool; 2048],
    index: u16,
    stack: [u16; 16],
    keys: [bool; 16],
    dt: u8,
    st: u8,
}

impl View for Emulator {
    type V = EmuView;

    closed spec fn view(&self) -> EmuView {
        EmuView {
            pc: self.pc,
            sp: self.sp,
            ram: self.ram@,
            v: self.v@,
            screen: self.screen@,
            index: self.index,
            stack: self.stack@,
            keys: self.keys@,
            dt: self.dt,
            st: self.st,
        }
    }
}

impl Emulator {
    /// A machine in the initial state of `EmuView::initial`.
    pub fn new() -> (r: Emulator)
        ensures
            r@ == EmuView::initial(),
            r@.wf(),
    {
        let mut emu = Emulator {
            pc: 0x200,
            sp: 0,
            ram: [0; 4096],
            v: [0; 16],
            screen: [false; 2048],
            index: 0,
            stack: [0; 16],
            keys: [false; 16],
            dt: 0,
            st: 0,
        };
        emu.write_font();
        proof {
            assert(emu@ =~= EmuView::initial());
        }
        emu
    }

    /// Restores the initial state in place, as if the machine had just been
    /// constructed.
    pub fn reset(&mut self)
        ensures
            final(self)@ == EmuView::initial(),
            final(self)@.wf(),
    {
        self.pc = 0x200;
        self.sp = 0;
        self.ram = [0; 4096];
        self.v = [0; 16];
        self.screen = [false; 2048];
        self.index = 0;
        self.stack = [0; 16];
        self.keys = [false; 16];
        self.dt = 0;
        self.st = 0;
        self.write_font();
        proof {
            assert(self@ =~= EmuView::initial());
        }
    }

    /// Copies the font set into the bottom 80 bytes of an otherwise zeroed
    /// memory.
    fn write_font(&mut self)
        requires
            old(self)@.ram.len() == 4096,
            forall|i: int| 0 <= i < 4096 ==> old(self)@.ram[i] == 0u8,
        ensures
            final(self)@ == (EmuView { ram: EmuView::initial().ram, ..old(self)@ }),
    {
        for i in 0..80
            invariant
                self@.ram.len() == 4096,
                forall|j: int| 0 <= j < i ==> self@.ram[j] == FONT_SET[j],
                forall|j: int| i <= j < 4096 ==> self@.ram[j] == 0u8,
                self@ == (EmuView { ram: self@.ram, ..old(self)@ }),
        {
            self.ram[i] = FONT_SET[i];
        }
        proof {
            assert(self@.ram =~= EmuView::initial().ram);
            assert(self@ =~= (EmuView { ram: EmuView::initial().ram, ..old(self)@ }));
        }
    }

    /// Copies a program image into memory at the program origin 0x200.
    /// An image longer than the 3584-byte program region is rejected whole,
    /// before any byte is written.
    pub fn load_rom(&mut self, rom: &[u8]) -> (r: Result<(), Fault>)
        requires
            old(self)@.wf(),
        ensures
            final(self)@.wf(),
            rom@.len() > 3584 ==> r == Err::<(), Fault>(Fault::ProgramTooLarge(rom@.len() as usize))
                && final(self)@ == old(self)@,
            rom@.len() <= 3584 ==> r == Ok::<(), Fault>(()) && final(self)@ == (EmuView {
                ram: Seq::new(4096, |i: int| if 512 <= i < 512 + rom@.len() {
                    rom@[i - 512]
                } else {
                    old(self)@.ram[i]
                }),
                ..old(self)@
            }),
    {
        if rom.len() > 3584 {
            return Err(Fault::ProgramTooLarge(rom.len()));
        }
        let n = rom.len();
        for k in 0..n
            invariant
                n == rom@.len() <= 3584,
                self@.ram.len() == 4096,
                forall|i: int| 512 <= i < 512 + k ==> self@.ram[i] == rom@[i - 512],
                forall|i: int| (0 <= i < 512 || 512 + k <= i < 4096) ==> self@.ram[i] == old(self)@.ram[i],
                self@ == (EmuView { ram: self@.ram, ..old(self)@ }),
        {
            self.ram[512 + k] = rom[k];
        }
        proof {
            assert(self@.ram =~= Seq::new(4096, |i: int| if 512 <= i < 512 + rom@.len() {
                rom@[i - 512]
            } else {
                old(self)@.ram[i]
            }));
            assert(self@ =~= (EmuView { ram: self@.ram, ..old(self)@ }));
        }
        Ok(())
    }

    /// Pushes a return address onto the call stack; fails with
    /// `StackOverflow` when all 16 entries are in use.
    pub fn push(&mut self, value: u16) -> (r: Result<(), Fault>)
        requires
            old(self)@.wf(),
        ensures
            final(self)@.wf(),
            old(self)@.sp < 16 ==> r == Ok::<(), Fault>(()) && final(self)@ == (EmuView {
                stack: old(self)@.stack.update(old(self)@.sp as int, value),
                sp: (old(self)@.sp + 1) as u16,
                ..old(self)@
            }),
            old(self)@.sp == 16 ==> r == Err::<(), Fault>(Fault::StackOverflow(value))
                && final(self)@ == old(self)@,
    {
        if self.sp >= 16 {
            return Err(Fault::StackOverflow(value));
        }
        self.stack[self.sp as usize] = value;
        self.sp = self.sp + 1;
        Ok(())
    }

    /// Pops the most recently pushed return address; fails with
    /// `StackUnderflow` when the call stack is empty.
    pub fn pop(&mut self) -> (r: Result<u16, Fault>)
        requires
            old(self)@.wf(),
        ensures
            final(self)@.wf(),
            old(self)@.sp > 0 ==> r == Ok::<u16, Fault>(old(self)@.stack[old(self)@.sp - 1])
                && final(self)@ == (EmuView { sp: (old(self)@.sp - 1) as u16, ..old(self)@ }),
            old(self)@.sp == 0 ==> r == Err::<u16, Fault>(Fault::StackUnderflow) && final(self)@
                == old(self)@,
    {
        if self.sp == 0 {
            return Err(Fault::StackUnderflow);
        }
        self.sp = self.sp - 1;
        Ok(self.stack[self.sp as usize])
    }

    /// Fetches the big-endian 16-bit word at the program counter and
    /// advances the program counter by 2.  A program counter from which two
    /// bytes cannot be read is an out-of-range access.
    pub fn fetch(&mut self) -> (r: Result<u16, Fault>)
        requires
            old(self)@.wf(),
        ensures
            final(self)@.wf(),
            old(self)@.pc <= 4094 ==> r == Ok::<u16, Fault>(fetch_word(old(self)@))
                && final(self)@ == (EmuView { pc: (old(self)@.pc + 2) as u16, ..old(self)@ }),
            old(self)@.pc > 4094 ==> r == Err::<u16, Fault>(
                Fault::OutOfRangeAccess(old(self)@.pc),
            ) && final(self)@ == old(self)@,
    {
        if self.pc > 4094 {
            return Err(Fault::OutOfRangeAccess(self.pc));
        }
        let hi = self.ram[self.pc as usize];
        let lo = self.ram[self.pc as usize + 1];
        self.pc = self.pc + 2;
        Ok(((hi as u16) << 8) | (lo as u16))
    }

    /// Decrements each timer independently, saturating at 0.
    pub fn increment_timers(&mut self)
        requires
            old(self)@.wf(),
        ensures
            final(self)@.wf(),
            final(self)@ == (EmuView {
                dt: if old(self)@.dt > 0 {
                    (old(self)@.dt - 1) as u8
                } else {
                    0u8
                },
                st: if old(self)@.st > 0 {
                    (old(self)@.st - 1) as u8
                } else {
                    0u8
                },
                ..old(self)@
            }),
    {
        if self.dt > 0 {
            self.dt = self.dt - 1;
        }
        if self.st > 0 {
            self.st = self.st - 1;
        }
    }

    /// Writes one key state; `index` names one of the 16 logical keys.
    pub fn key_press(&mut self, index: usize, pressed: bool)
        requires
            old(self)@.wf(),
            index < 16,
        ensures
            final(self)@.wf(),
            final(self)@ == (EmuView {
                keys: old(self)@.keys.update(index as int, pressed),
                ..old(self)@
            }),
    {
        self.keys[index] = pressed;
    }

    /// A read-only view of the 64x32 display, row-major.
    pub fn get_screen(&self) -> (r: &[bool])
        ensures
            r@ == self@.screen,
    {
        self.screen.as_slice()
    }

    /// The value of general-purpose register `i`.
    pub fn get_register(&self, i: u8) -> (r: u8)
        requires
            i < 16,
        ensures
            r == self@.v[i as int],
    {
        self.v[i as usize]
    }

    /// The program counter.
    pub fn get_program_counter(&self) -> (r: u16)
        ensures
            r == self@.pc,
    {
        self.pc
    }

    /// The index register.
    pub fn get_index_register(&self) -> (r: u16)
        ensures
            r == self@.index,
    {
        self.index
    }

    /// The number of call-stack entries in use.
    pub fn stack_depth(&self) -> (r: u16)
        ensures
            r == self@.sp,
    {
        self.sp
    }

    /// The delay timer.
    pub fn get_delay_timer(&self) -> (r: u8)
        ensures
            r == self@.dt,
    {
        self.dt
    }

    /// The sound timer.
    pub fn get_sound_timer(&self) -> (r: u8)
        ensures
            r == self@.st,
    {
        self.st
    }

    /// The memory byte at `addr`.
    pub fn read_byte(&self, addr: u16) -> (r: u8)
        requires
            self@.wf(),
            addr < 4096,
        ensures
            r == self@.ram[addr as int],
    {
        self.ram[addr as usize]
    }

    /// Whether the key numbered `i` is pressed.
    pub fn key_state(&self, i: u8) -> (r: bool)
        requires
            self@.wf(),
            i < 16,
        ensures
            r == self@.keys[i as int],
    {
        self.keys[i as usize]
    }

    /// Sets the program counter.
    pub(crate) fn set_pc(&mut self, pc: u16)
        ensures
            final(self)@ == (EmuView { pc, ..old(self)@ }),
    {
        self.pc = pc;
    }

    /// Sets the index register.
    pub(crate) fn set_index(&mut self, index: u16)
        ensures
            final(self)@ == (EmuView { index, ..old(self)@ }),
    {
        self.index = index;
    }

    /// Sets general-purpose register `i`.
    pub(crate) fn set_reg(&mut self, i: u8, val: u8)
        requires
            old(self)@.wf(),
            i < 16,
        ensures
            final(self)@ == (EmuView { v: old(self)@.v.update(i as int, val), ..old(self)@ }),
    {
        self.v[i as usize] = val;
    }

    /// Sets the delay timer.
    pub(crate) fn set_dt(&mut self, val: u8)
        ensures
            final(self)@ == (EmuView { dt: val, ..old(self)@ }),
    {
        self.dt = val;
    }

    /// Sets the sound timer.
    pub(crate) fn set_st(&mut self, val: u8)
        ensures
            final(self)@ == (EmuView { st: val, ..old(self)@ }),
    {
        self.st = val;
    }

    /// Writes one memory byte.
    pub(crate) fn write_ram(&mut self, addr: u16, val: u8)
        requires
            old(self)@.wf(),
            addr < 4096,
        ensures
            final(self)@ == (EmuView {
                ram: old(self)@.ram.update(addr as int, val),
                ..old(self)@
            }),
    {
        self.ram[addr as usize] = val;
    }

    /// Sets every display cell to unlit.
    pub(crate) fn clear_screen_cells(&mut self)
        ensures
            final(self)@ == (EmuView { screen: Seq::new(2048, |i: int| false), ..old(self)@ }),
    {
        self.screen = [false; 2048];
        proof {
            assert(self@.screen =~= Seq::new(2048, |i: int| false));
            assert(self@ =~= (EmuView { screen: Seq::new(2048, |i: int| false), ..old(self)@ }));
        }
    }

    /// Toggles one display cell and reports whether it was lit before.
    pub(crate) fn flip_cell(&mut self, idx: usize) -> (was: bool)
        requires
            old(self)@.wf(),
            idx < 2048,
        ensures
            was == old(self)@.screen[idx as int],
            final(self)@ == (EmuView {
                screen: old(self)@.screen.update(idx as int, !was),
                ..old(self)@
            }),
    {
        let was = self.screen[idx];
        self.screen[idx] = !was;
        was
    }
}

/// The big-endian 16-bit word at the program counter.
pub open spec fn fetch_word(m: EmuView) -> u16 {
    ((m.ram[m.pc as int] as u16) << 8) | (m.ram[m.pc + 1] as u16)
}

} // verus!
