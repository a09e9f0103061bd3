//! The CHIP-8 instruction set: the fault taxonomy, the decoded instruction
//! shapes, and the decode function that classifies a 16-bit instruction word
//! by its four nibbles.

use vstd::prelude::*;

use crate::machine::Emulator;

verus! {

/// A fatal condition that stops instruction execution and is reported to the
/// host.  The interpreter never recovers from a fault on its own.
#[derive(Clone, Copy, Debug, PartialEq, Eq, Structural)]
pub enum Fault {
    /// The fetched word matches no known instruction shape; carries the
    /// offending word and the address it was fetched from.
    DecodeFailure(u16, u16),
    /// A call was attempted with the call stack at its 16-entry capacity;
    /// carries the address that could not be entered.
    StackOverflow(u16),
    /// A return was attempted with an empty call stack.
    StackUnderflow,
    /// A program image larger than the 3584-byte program region was offered;
    /// carries the offered length.
    ProgramTooLarge(usize),
    /// An address or index fell outside the addressable range; carries the
    /// offending value.
    OutOfRangeAccess(u16),
}

/// A decoded instruction: one variant per instruction shape, carrying its
/// operand fields.  Register indices are 4-bit (always below 16), addresses
/// are 12-bit, and sprite heights are 4-bit; `wf` states those bounds.
#[derive(Clone, Copy, Debug, PartialEq, Eq, Structural)]
pub enum Instr {
    /// `0000`: advance the program counter only.
    Nop,
    /// `00E0`: set every display cell to unlit.
    ClearScreen,
    /// `00EE`: pop a return address into the program counter.
    Return,
    /// `1nnn`: jump to the address.
    Jump(u16),
    /// `2nnn`: push the program counter, then jump to the address.
    Call(u16),
    /// `3xnn`: skip the next instruction if `Vx == nn`.
    SkipEqImm(u8, u8),
    /// `4xnn`: skip the next instruction if `Vx != nn`.
    SkipNeImm(u8, u8),
    /// `5xy0`: skip the next instruction if `Vx == Vy`.
    SkipEqReg(u8, u8),
    /// `6xnn`: `Vx := nn`.
    LoadImm(u8, u8),
    /// `7xnn`: `Vx := Vx + nn`, wrapping, no flag side effect.
    AddImm(u8, u8),
    /// `8xy0`: `Vx := Vy`.
    RegCopy(u8, u8),
    /// `8xy1`: `Vx := Vx | Vy`.
    OrReg(u8, u8),
    /// `8xy2`: `Vx := Vx & Vy`.
    AndReg(u8, u8),
    /// `8xy3`: `Vx := Vx ^ Vy`.
    XorReg(u8, u8),
    /// `8xy4`: `Vx := Vx + Vy` wrapping; `VF := 1` on 8-bit overflow, else 0.
    AddReg(u8, u8),
    /// `8xy5`: `Vx := Vx - Vy` wrapping; `VF := 1` if no borrow, else 0.
    SubReg(u8, u8),
    /// `8xy6`: `VF := Vx & 1`, then `Vx := Vx >> 1`.
    ShiftRight(u8),
    /// `8xy7`: `Vx := Vy - Vx` wrapping; `VF := 1` if no borrow, else 0.
    SubRegRev(u8, u8),
    /// `8xyE`: `VF := high bit of Vx`, then `Vx := Vx << 1` wrapping.
    ShiftLeft(u8),
    /// `9xy0`: skip the next instruction if `Vx != Vy`.
    SkipNeReg(u8, u8),
    /// `Annn`: `index_register := nnn`.
    SetIndex(u16),
    /// `Bnnn`: jump to `nnn + V0`.
    JumpOffset(u16),
    /// `Cxnn`: `Vx := random byte & nn`.
    Random(u8, u8),
    /// `Dxyn`: XOR-blit an 8-wide, n-tall sprite at `(Vx mod 64, Vy mod 32)`;
    /// `VF := 1` if a lit cell was unset.
    Draw(u8, u8, u8),
    /// `Ex9E`: skip the next instruction if the key numbered `Vx` is pressed.
    SkipKeyPressed(u8),
    /// `ExA1`: skip the next instruction if the key numbered `Vx` is not pressed.
    SkipKeyNotPressed(u8),
    /// `Fx07`: `Vx := delay_timer`.
    LoadDelay(u8),
    /// `Fx0A`: if a key is pressed, `Vx := its lowest index`; otherwise retry
    /// this instruction next cycle.
    WaitKey(u8),
    /// `Fx15`: `delay_timer := Vx`.
    StoreDelay(u8),
    /// `Fx18`: `sound_timer := Vx`.
    StoreSound(u8),
    /// `Fx1E`: `index_register := index_register + Vx`, 16-bit wrapping.
    AddIndex(u8),
    /// `Fx29`: `index_register := address of the font glyph for the low
    /// nibble of Vx`.
    LoadFontAddr(u8),
    /// `Fx33`: write the decimal digits of `Vx` to memory at the index
    /// register.
    StoreBcd(u8),
    /// `Fx55`: copy `V0..=Vx` into memory starting at the index register.
    StoreRegs(u8),
    /// `Fx65`: copy memory starting at the index register into `V0..=Vx`.
    LoadRegs(u8),
}

impl Instr {
    /// Operand fields are in range: register indices are below 16, addresses
    /// fit in 12 bits, and a sprite height fits in a nibble.  Every
    /// instruction produced by `decode` satisfies this.
    pub open spec fn wf(self) -> bool {
        match self {
            Instr::Nop => true,
            Instr::ClearScreen => true,
            Instr::Return => true,
            Instr::Jump(nnn) => nnn <= 0xFFF,
            Instr::Call(nnn) => nnn <= 0xFFF,
            Instr::SkipEqImm(x, _) => x < 16,
            Instr::SkipNeImm(x, _) => x < 16,
            Instr::SkipEqReg(x, y) => x < 16 && y < 16,
            Instr::LoadImm(x, _) => x < 16,
            Instr::AddImm(x, _) => x < 16,
            Instr::RegCopy(x, y) => x < 16 && y < 16,
            Instr::OrReg(x, y) => x < 16 && y < 16,
            Instr::AndReg(x, y) => x < 16 && y < 16,
            Instr::XorReg(x, y) => x < 16 && y < 16,
            Instr::AddReg(x, y) => x < 16 && y < 16,
            Instr::SubReg(x, y) => x < 16 && y < 16,
            Instr::ShiftRight(x) => x < 16,
            Instr::SubRegRev(x, y) => x < 16 && y < 16,
            Instr::ShiftLeft(x) => x < 16,
            Instr::SkipNeReg(x, y) => x < 16 && y < 16,
            Instr::SetIndex(nnn) => nnn <= 0xFFF,
            Instr::JumpOffset(nnn) => nnn <= 0xFFF,
            Instr::Random(x, _) => x < 16,
            Instr::Draw(x, y, n) => x < 16 && y < 16 && n < 16,
            Instr::SkipKeyPressed(x) => x < 16,
            Instr::SkipKeyNotPressed(x) => x < 16,
            Instr::LoadDelay(x) => x < 16,
            Instr::WaitKey(x) => x < 16,
            Instr::StoreDelay(x) => x < 16,
            Instr::StoreSound(x) => x < 16,
            Instr::AddIndex(x) => x < 16,
            Instr::LoadFontAddr(x) => x < 16,
            Instr::StoreBcd(x) => x < 16,
            Instr::StoreRegs(x) => x < 16,
            Instr::LoadRegs(x) => x < 16,
        }
    }
}

/// The decode table as a pure function of the instruction word: `None` is a
/// decode failure.  The highest nibble selects the family; the remaining
/// nibbles carry the register indices, immediates and sub-operation
/// selectors.
pub open spec fn spec_decode(op: u16) -> Option<Instr> {
    let fam = op >> 12;
    let x = ((op >> 8) & 0xF) as u8;
    let y = ((op >> 4) & 0xF) as u8;
    let nnn = op & 0xFFF;
    let nn = (op & 0xFF) as u8;
    let tail = (op & 0xF) as u8;
    if op == 0x0000 {
        Some(Instr::Nop)
    } else if op == 0x00E0 {
        Some(Instr::ClearScreen)
    } else if op == 0x00EE {
        Some(Instr::Return)
    } else if fam == 0x1 {
        Some(Instr::Jump(nnn))
    } else if fam == 0x2 {
        Some(Instr::Call(nnn))
    } else if fam == 0x3 {
        Some(Instr::SkipEqImm(x, nn))
    } else if fam == 0x4 {
        Some(Instr::SkipNeImm(x, nn))
    } else if fam == 0x5 {
        Some(Instr::SkipEqReg(x, y))
    } else if fam == 0x6 {
        Some(Instr::LoadImm(x, nn))
    } else if fam == 0x7 {
        Some(Instr::AddImm(x, nn))
    } else if fam == 0x8 {
        if tail == 0x0 {
            Some(Instr::RegCopy(x, y))
        } else if tail == 0x1 {
            Some(Instr::OrReg(x, y))
        } else if tail == 0x2 {
            Some(Instr::AndReg(x, y))
        } else if tail == 0x3 {
            Some(Instr::XorReg(x, y))
        } else if tail == 0x4 {
            Some(Instr::AddReg(x, y))
        } else if tail == 0x5 {
            Some(Instr::SubReg(x, y))
        } else if tail == 0x6 {
            Some(Instr::ShiftRight(x))
        } else if tail == 0x7 {
            Some(Instr::SubRegRev(x, y))
        } else if tail == 0xE {
            Some(Instr::ShiftLeft(x))
        } else {
            None
        }
    } else if fam == 0x9 {
        if tail == 0x0 {
            Some(Instr::SkipNeReg(x, y))
        } else {
            None
        }
    } else if fam == 0xA {
        Some(Instr::SetIndex(nnn))
    } else if fam == 0xB {
        Some(Instr::JumpOffset(nnn))
    } else if fam == 0xC {
        Some(Instr::Random(x, nn))
    } else if fam == 0xD {
        Some(Instr::Draw(x, y, tail))
    } else if fam == 0xE {
        if nn == 0x9E {
            Some(Instr::SkipKeyPressed(x))
        } else if nn == 0xA1 {
            Some(Instr::SkipKeyNotPressed(x))
        } else {
            None
        }
    } else if fam == 0xF {
        if nn == 0x07 {
            Some(Instr::LoadDelay(x))
        } else if nn == 0x0A {
            Some(Instr::WaitKey(x))
        } else if nn == 0x15 {
            Some(Instr::StoreDelay(x))
        } else if nn == 0x18 {
            Some(Instr::StoreSound(x))
        } else if nn == 0x1E {
            Some(Instr::AddIndex(x))
        } else if nn == 0x29 {
            Some(Instr::LoadFontAddr(x))
        } else if nn == 0x33 {
            Some(Instr::StoreBcd(x))
        } else if nn == 0x55 {
            Some(Instr::StoreRegs(x))
        } else if nn == 0x65 {
            Some(Instr::LoadRegs(x))
        } else {
            None
        }
    } else {
        None
    }
}

/// Whatever `decode` returns is well-formed.
pub proof fn lemma_decode_wf(op: u16)
    ensures
        spec_decode(op) matches Some(i) ==> i.wf(),
{
    assert(op >> 12 < 16 && ((op >> 8) & 0xF) < 16 && ((op >> 4) & 0xF) < 16 && (op & 0xFFF)
        <= 0xFFF && (op & 0xF) < 16) by (bit_vector);
}

impl Emulator {
    /// Classifies a 16-bit instruction word, following `spec_decode`
    /// exactly: a pure function of the word, with no effect on the machine.
    pub fn decode(&self, op: u16) -> (r: Option<Instr>)
        ensures
            r == spec_decode(op),
            r matches Some(i) ==> i.wf(),
    {
        proof {
            lemma_decode_wf(op);
        }
        let fam: u16 = op >> 12;
        let x: u8 = ((op >> 8) & 0xF) as u8;
        let y: u8 = ((op >> 4) & 0xF) as u8;
        let nnn: u16 = op & 0xFFF;
        let nn: u8 = (op & 0xFF) as u8;
        let tail: u8 = (op & 0xF) as u8;
        if op == 0x0000 {
            Some(Instr::Nop)
        } else if op == 0x00E0 {
            Some(Instr::ClearScreen)
        } else if op == 0x00EE {
            Some(Instr::Return)
        } else if fam == 0x1 {
            Some(Instr::Jump(nnn))
        } else if fam == 0x2 {
            Some(Instr::Call(nnn))
        } else if fam == 0x3 {
            Some(Instr::SkipEqImm(x, nn))
        } else if fam == 0x4 {
            Some(Instr::SkipNeImm(x, nn))
        } else if fam == 0x5 {
            Some(Instr::SkipEqReg(x, y))
        } else if fam == 0x6 {
            Some(Instr::LoadImm(x, nn))
        } else if fam == 0x7 {
            Some(Instr::AddImm(x, nn))
        } else if fam == 0x8 {
            if tail == 0x0 {
                Some(Instr::RegCopy(x, y))
            } else if tail == 0x1 {
                Some(Instr::OrReg(x, y))
            } else if tail == 0x2 {
                Some(Instr::AndReg(x, y))
            } else if tail == 0x3 {
                Some(Instr::XorReg(x, y))
            } else if tail == 0x4 {
                Some(Instr::AddReg(x, y))
            } else if tail == 0x5 {
                Some(Instr::SubReg(x, y))
            } else if tail == 0x6 {
                Some(Instr::ShiftRight(x))
            } else if tail == 0x7 {
                Some(Instr::SubRegRev(x, y))
            } else if tail == 0xE {
                Some(Instr::ShiftLeft(x))
            } else {
                None
            }
        } else if fam == 0x9 {
            if tail == 0x0 {
                Some(Instr::SkipNeReg(x, y))
            } else {
                None
            }
        } else if fam == 0xA {
            Some(Instr::SetIndex(nnn))
        } else if fam == 0xB {
            Some(Instr::JumpOffset(nnn))
        } else if fam == 0xC {
            Some(Instr::Random(x, nn))
        } else if fam == 0xD {
            Some(Instr::Draw(x, y, tail))
        } else if fam == 0xE {
            if nn == 0x9E {
                Some(Instr::SkipKeyPressed(x))
            } else if nn == 0xA1 {
                Some(Instr::SkipKeyNotPressed(x))
            } else {
                None
            }
        } else if fam == 0xF {
            if nn == 0x07 {
                Some(Instr::LoadDelay(x))
            } else if nn == 0x0A {
                Some(Instr::WaitKey(x))
            } else if nn == 0x15 {
                Some(Instr::StoreDelay(x))
            } else if nn == 0x18 {
                Some(Instr::StoreSound(x))
            } else if nn == 0x1E {
                Some(Instr::AddIndex(x))
            } else if nn == 0x29 {
                Some(Instr::LoadFontAddr(x))
            } else if nn == 0x33 {
                Some(Instr::StoreBcd(x))
            } else if nn == 0x55 {
                Some(Instr::StoreRegs(x))
            } else if nn == 0x65 {
                Some(Instr::LoadRegs(x))
            } else {
                None
            }
        } else {
            None
        }
    }
}

} // verus!
