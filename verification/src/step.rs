//! The execute stage and cycle orchestration.
//!
//! `exec_result` is the transition rule of every instruction: given the
//! machine state after the fetch advance, a decoded instruction and an
//! entropy byte (used only by `random`), it yields either the next state or
//! the fault that stops execution, in which case the state is unchanged.
//! `step` is the verified executor of that rule; `execute` supplies the
//! entropy byte from the host's random source; `cycle` performs one whole
//! fetch-decode-execute step.

use vstd::prelude::*;

use crate::display::draw_collision;
use crate::display::draw_screen;
use crate::isa::Fault;
use crate::isa::Instr;
use crate::isa::spec_decode;
use crate::machine::EmuView;
use crate::machine::Emulator;
use crate::machine::fetch_word;

verus! {

/// The lowest pressed key index at or after `i`, if any.
pub open spec fn first_key_from(keys: Seq<bool>, i: int) -> Option<int>
    decreases 16 - i,
{
    if i >= 16 {
        None
    } else if keys[i] {
        Some(i)
    } else {
        first_key_from(keys, i + 1)
    }
}

/// The lowest pressed key index, if any: what `wait-key` delivers.
pub open spec fn first_key(keys: Seq<bool>) -> Option<int> {
    first_key_from(keys, 0)
}

/// The transition rule of the execute stage.  `pre` is the state after the
/// fetch advance; `rnd` is the entropy byte consumed by `random`.  A fault
/// leaves the state untouched: every bound is validated before any
/// mutation.
pub open spec fn exec_result(pre: EmuView, instr: Instr, rnd: u8) -> Result<EmuView, Fault> {
    match instr {
        Instr::Nop => Ok(pre),
        Instr::ClearScreen => Ok(EmuView { screen: Seq::new(2048, |i: int| false), ..pre }),
        Instr::Return => if pre.sp == 0 {
            Err(Fault::StackUnderflow)
        } else {
            Ok(EmuView { pc: pre.stack[pre.sp - 1], sp: (pre.sp - 1) as u16, ..pre })
        },
        Instr::Jump(nnn) => Ok(EmuView { pc: nnn, ..pre }),
        Instr::Call(nnn) => if pre.sp >= 16 {
            Err(Fault::StackOverflow(nnn))
        } else {
            Ok(EmuView {
                stack: pre.stack.update(pre.sp as int, pre.pc),
                sp: (pre.sp + 1) as u16,
                pc: nnn,
                ..pre
            })
        },
        Instr::SkipEqImm(x, nn) => Ok(
            if pre.v[x as int] == nn {
                EmuView { pc: (pre.pc + 2) as u16, ..pre }
            } else {
                pre
            },
        ),
        Instr::SkipNeImm(x, nn) => Ok(
            if pre.v[x as int] != nn {
                EmuView { pc: (pre.pc + 2) as u16, ..pre }
            } else {
                pre
            },
        ),
        Instr::SkipEqReg(x, y) => Ok(
            if pre.v[x as int] == pre.v[y as int] {
                EmuView { pc: (pre.pc + 2) as u16, ..pre }
            } else {
                pre
            },
        ),
        Instr::LoadImm(x, nn) => Ok(EmuView { v: pre.v.update(x as int, nn), ..pre }),
        Instr::AddImm(x, nn) => Ok(EmuView {
            v: pre.v.update(x as int, ((pre.v[x as int] + nn) % 256) as u8),
            ..pre
        }),
        Instr::RegCopy(x, y) => Ok(EmuView { v: pre.v.update(x as int, pre.v[y as int]), ..pre }),
        Instr::OrReg(x, y) => Ok(EmuView {
            v: pre.v.update(x as int, pre.v[x as int] | pre.v[y as int]),
            ..pre
        }),
        Instr::AndReg(x, y) => Ok(EmuView {
            v: pre.v.update(x as int, pre.v[x as int] & pre.v[y as int]),
            ..pre
        }),
        Instr::XorReg(x, y) => Ok(EmuView {
            v: pre.v.update(x as int, pre.v[x as int] ^ pre.v[y as int]),
            ..pre
        }),
        Instr::AddReg(x, y) => Ok(EmuView {
            v: pre.v.update(
                x as int,
                ((pre.v[x as int] + pre.v[y as int]) % 256) as u8,
            ).update(
                15,
                if pre.v[x as int] + pre.v[y as int] > 255 {
                    1u8
                } else {
                    0u8
                },
            ),
            ..pre
        }),
        Instr::SubReg(x, y) => Ok(EmuView {
            v: pre.v.update(
                x as int,
                ((pre.v[x as int] - pre.v[y as int]) % 256) as u8,
            ).update(
                15,
                if pre.v[x as int] >= pre.v[y as int] {
                    1u8
                } else {
                    0u8
                },
            ),
            ..pre
        }),
        Instr::ShiftRight(x) => Ok(EmuView {
            v: pre.v.update(x as int, pre.v[x as int] >> 1u8).update(
                15,
                pre.v[x as int] & 1u8,
            ),
            ..pre
        }),
        Instr::SubRegRev(x, y) => Ok(EmuView {
            v: pre.v.update(
                x as int,
                ((pre.v[y as int] - pre.v[x as int]) % 256) as u8,
            ).update(
                15,
                if pre.v[y as int] >= pre.v[x as int] {
                    1u8
                } else {
                    0u8
                },
            ),
            ..pre
        }),
        Instr::ShiftLeft(x) => Ok(EmuView {
            v: pre.v.update(x as int, pre.v[x as int] << 1u8).update(
                15,
                (pre.v[x as int] >> 7u8) & 1u8,
            ),
            ..pre
        }),
        Instr::SkipNeReg(x, y) => Ok(
            if pre.v[x as int] != pre.v[y as int] {
                EmuView { pc: (pre.pc + 2) as u16, ..pre }
            } else {
                pre
            },
        ),
        Instr::SetIndex(nnn) => Ok(EmuView { index: nnn, ..pre }),
        Instr::JumpOffset(nnn) => Ok(EmuView { pc: (nnn + pre.v[0]) as u16, ..pre }),
        Instr::Random(x, nn) => Ok(EmuView { v: pre.v.update(x as int, rnd & nn), ..pre }),
        Instr::Draw(x, y, n) => if n > 0 && pre.index + n > 4096 {
            Err(Fault::OutOfRangeAccess(pre.index))
        } else {
            Ok(EmuView {
                screen: draw_screen(
                    pre.screen,
                    pre.ram,
                    pre.index as int,
                    pre.v[x as int] as int,
                    pre.v[y as int] as int,
                    n as int,
                ),
                v: pre.v.update(
                    15,
                    if draw_collision(
                        pre.screen,
                        pre.ram,
                        pre.index as int,
                        pre.v[x as int] as int,
                        pre.v[y as int] as int,
                        n as int,
                    ) {
                        1u8
                    } else {
                        0u8
                    },
                ),
                ..pre
            })
        },
        Instr::SkipKeyPressed(x) => if pre.v[x as int] >= 16 {
            Err(Fault::OutOfRangeAccess(pre.v[x as int] as u16))
        } else {
            Ok(
                if pre.keys[pre.v[x as int] as int] {
                    EmuView { pc: (pre.pc + 2) as u16, ..pre }
                } else {
                    pre
                },
            )
        },
        Instr::SkipKeyNotPressed(x) => if pre.v[x as int] >= 16 {
            Err(Fault::OutOfRangeAccess(pre.v[x as int] as u16))
        } else {
            Ok(
                if !pre.keys[pre.v[x as int] as int] {
                    EmuView { pc: (pre.pc + 2) as u16, ..pre }
                } else {
                    pre
                },
            )
        },
        Instr::LoadDelay(x) => Ok(EmuView { v: pre.v.update(x as int, pre.dt), ..pre }),
        Instr::WaitKey(x) => match first_key(pre.keys) {
            Some(k) => Ok(EmuView { v: pre.v.update(x as int, k as u8), ..pre }),
            None => Ok(EmuView { pc: ((pre.pc - 2) % 0x10000) as u16, ..pre }),
        },
        Instr::StoreDelay(x) => Ok(EmuView { dt: pre.v[x as int], ..pre }),
        Instr::StoreSound(x) => Ok(EmuView { st: pre.v[x as int], ..pre }),
        Instr::AddIndex(x) => Ok(EmuView {
            index: ((pre.index + pre.v[x as int]) % 0x10000) as u16,
            ..pre
        }),
        Instr::LoadFontAddr(x) => Ok(EmuView {
            index: (5 * (pre.v[x as int] & 0xF)) as u16,
            ..pre
        }),
        Instr::StoreBcd(x) => if pre.index + 2 > 4095 {
            Err(Fault::OutOfRangeAccess(pre.index))
        } else {
            Ok(EmuView {
                ram: pre.ram.update(pre.index as int, (pre.v[x as int] / 100) as u8).update(
                    pre.index + 1,
                    ((pre.v[x as int] / 10) % 10) as u8,
                ).update(pre.index + 2, (pre.v[x as int] % 10) as u8),
                ..pre
            })
        },
        Instr::StoreRegs(x) => if pre.index + x > 4095 {
            Err(Fault::OutOfRangeAccess(pre.index))
        } else {
            Ok(EmuView {
                ram: Seq::new(4096, |i: int| if pre.index <= i <= pre.index + x {
                    pre.v[i - pre.index]
                } else {
                    pre.ram[i]
                }),
                ..pre
            })
        },
        Instr::LoadRegs(x) => if pre.index + x > 4095 {
            Err(Fault::OutOfRangeAccess(pre.index))
        } else {
            Ok(EmuView {
                v: Seq::new(16, |i: int| if i <= x {
                    pre.ram[pre.index + i]
                } else {
                    pre.v[i]
                }),
                ..pre
            })
        },
    }
}

/// What `step` guarantees: the machine moves to the state that
/// `exec_result` gives, or reports the fault it gives and stays put.
pub open spec fn step_post(
    pre: EmuView,
    instr: Instr,
    rnd: u8,
    post: EmuView,
    r: Result<(), Fault>,
) -> bool {
    match exec_result(pre, instr, rnd) {
        Ok(p) => r == Ok::<(), Fault>(()) && post == p,
        Err(f) => r == Err::<(), Fault>(f) && post == pre,
    }
}

/// What one whole `cycle` guarantees.  A program counter from which no word
/// can be fetched is an out-of-range access; a word that decodes to no
/// shape is a decode failure reported with the address it was fetched from,
/// the fetch advance having completed; otherwise the decoded instruction
/// executes from the advanced state.
pub open spec fn cycle_post(pre: EmuView, rnd: u8, post: EmuView, r: Result<(), Fault>) -> bool {
    if pre.pc > 4094 {
        post == pre && r == Err::<(), Fault>(Fault::OutOfRangeAccess(pre.pc))
    } else {
        let word = fetch_word(pre);
        let fetched = EmuView { pc: (pre.pc + 2) as u16, ..pre };
        match spec_decode(word) {
            Some(instr) => step_post(fetched, instr, rnd, post, r),
            None => post == fetched && r == Err::<(), Fault>(Fault::DecodeFailure(word, pre.pc)),
        }
    }
}

/// Relies on rand::random for a byte from the thread-local generator;
/// nothing is assumed of the value.
#[verifier::external_body]
fn random_byte() -> u8 {
    rand::random::<u8>()
}

impl Emulator {
    /// Control flow and comparison skips.
    #[verifier::rlimit(100)]
    fn step_flow(&mut self, instr: Instr, rnd: u8) -> (r: Result<(), Fault>)
        requires
            old(self)@.wf(),
            instr.wf(),
            2 <= old(self)@.pc <= 65533,
            instr matches Instr::Nop || instr matches Instr::ClearScreen || instr matches Instr::Return || instr matches Instr::Jump(_) || instr matches Instr::Call(_) || instr matches Instr::SkipEqImm(_, _) || instr matches Instr::SkipNeImm(_, _) || instr matches Instr::SkipEqReg(_, _) || instr matches Instr::SkipNeReg(_, _),
        ensures
            final(self)@.wf(),
            step_post(old(self)@, instr, rnd, final(self)@, r),
    {
        match instr {
            Instr::Nop => Ok(()),
            Instr::ClearScreen => {
                self.clear_screen_cells();
                Ok(())
            },
            Instr::Return => {
                match self.pop() {
                    Ok(addr) => {
                        self.set_pc(addr);
                        Ok(())
                    },
                    Err(f) => Err(f),
                }
            },
            Instr::Jump(nnn) => {
                self.set_pc(nnn);
                Ok(())
            },
            Instr::Call(nnn) => {
                if self.stack_depth() >= 16 {
                    return Err(Fault::StackOverflow(nnn));
                }
                let pc = self.get_program_counter();
                match self.push(pc) {
                    Ok(_) => {
                        self.set_pc(nnn);
                        Ok(())
                    },
                    Err(f) => Err(f),
                }
            },
            Instr::SkipEqImm(x, nn) => {
                if self.get_register(x) == nn {
                    let pc = self.get_program_counter();
                    self.set_pc(pc + 2);
                }
                Ok(())
            },
            Instr::SkipNeImm(x, nn) => {
                if self.get_register(x) != nn {
                    let pc = self.get_program_counter();
                    self.set_pc(pc + 2);
                }
                Ok(())
            },
            Instr::SkipEqReg(x, y) => {
                if self.get_register(x) == self.get_register(y) {
                    let pc = self.get_program_counter();
                    self.set_pc(pc + 2);
                }
                Ok(())
            },
            Instr::SkipNeReg(x, y) => {
                if self.get_register(x) != self.get_register(y) {
                    let pc = self.get_program_counter();
                    self.set_pc(pc + 2);
                }
                Ok(())
            },
            _ => Ok(()),
        }
    }

    /// Register loads, arithmetic, bitwise operations and timer moves.
    #[verifier::rlimit(100)]
    fn step_alu(&mut self, instr: Instr, rnd: u8) -> (r: Result<(), Fault>)
        requires
            old(self)@.wf(),
            instr.wf(),
            2 <= old(self)@.pc <= 65533,
            instr matches Instr::LoadImm(_, _) || instr matches Instr::AddImm(_, _) || instr matches Instr::RegCopy(_, _) || instr matches Instr::OrReg(_, _) || instr matches Instr::AndReg(_, _) || instr matches Instr::XorReg(_, _) || instr matches Instr::AddReg(_, _) || instr matches Instr::SubReg(_, _) || instr matches Instr::ShiftRight(_) || instr matches Instr::SubRegRev(_, _) || instr matches Instr::ShiftLeft(_) || instr matches Instr::LoadDelay(_) || instr matches Instr::StoreDelay(_) || instr matches Instr::StoreSound(_),
        ensures
            final(self)@.wf(),
            step_post(old(self)@, instr, rnd, final(self)@, r),
    {
        match instr {
            Instr::LoadImm(x, nn) => {
                self.set_reg(x, nn);
                Ok(())
            },
            Instr::AddImm(x, nn) => {
                let a: u8 = self.get_register(x);
                let val: u8 = (((a as u16) + (nn as u16)) % 256) as u8;
                self.set_reg(x, val);
                Ok(())
            },
            Instr::RegCopy(x, y) => {
                let b: u8 = self.get_register(y);
                self.set_reg(x, b);
                Ok(())
            },
            Instr::OrReg(x, y) => {
                let val: u8 = self.get_register(x) | self.get_register(y);
                self.set_reg(x, val);
                Ok(())
            },
            Instr::AndReg(x, y) => {
                let val: u8 = self.get_register(x) & self.get_register(y);
                self.set_reg(x, val);
                Ok(())
            },
            Instr::XorReg(x, y) => {
                let val: u8 = self.get_register(x) ^ self.get_register(y);
                self.set_reg(x, val);
                Ok(())
            },
            Instr::AddReg(x, y) => {
                let a: u8 = self.get_register(x);
                let b: u8 = self.get_register(y);
                let sum: u16 = (a as u16) + (b as u16);
                let vfv: u8 = if sum > 255 {
                    1
                } else {
                    0
                };
                self.set_reg(x, (sum % 256) as u8);
                self.set_reg(15, vfv);
                Ok(())
            },
            Instr::SubReg(x, y) => {
                let a: u8 = self.get_register(x);
                let b: u8 = self.get_register(y);
                let vfv: u8 = if a >= b {
                    1
                } else {
                    0
                };
                let diff: u8 = (((a as u16) + 256 - (b as u16)) % 256) as u8;
                proof {
                    assert((a - b) % 256 == (a + 256 - b) % 256);
                }
                self.set_reg(x, diff);
                self.set_reg(15, vfv);
                Ok(())
            },
            Instr::ShiftRight(x) => {
                let a: u8 = self.get_register(x);
                self.set_reg(x, a >> 1u8);
                self.set_reg(15, a & 1u8);
                Ok(())
            },
            Instr::SubRegRev(x, y) => {
                let a: u8 = self.get_register(x);
                let b: u8 = self.get_register(y);
                let vfv: u8 = if b >= a {
                    1
                } else {
                    0
                };
                let diff: u8 = (((b as u16) + 256 - (a as u16)) % 256) as u8;
                proof {
                    assert((b - a) % 256 == (b + 256 - a) % 256);
                }
                self.set_reg(x, diff);
                self.set_reg(15, vfv);
                Ok(())
            },
            Instr::ShiftLeft(x) => {
                let a: u8 = self.get_register(x);
                self.set_reg(x, a << 1u8);
                self.set_reg(15, (a >> 7u8) & 1u8);
                Ok(())
            },
            Instr::LoadDelay(x) => {
                let dt: u8 = self.get_delay_timer();
                self.set_reg(x, dt);
                Ok(())
            },
            Instr::StoreDelay(x) => {
                let a: u8 = self.get_register(x);
                self.set_dt(a);
                Ok(())
            },
            Instr::StoreSound(x) => {
                let a: u8 = self.get_register(x);
                self.set_st(a);
                Ok(())
            },
            _ => Ok(()),
        }
    }

    /// Index arithmetic, the offset jump, randomness and key skips.
    #[verifier::rlimit(100)]
    fn step_misc(&mut self, instr: Instr, rnd: u8) -> (r: Result<(), Fault>)
        requires
            old(self)@.wf(),
            instr.wf(),
            2 <= old(self)@.pc <= 65533,
            instr matches Instr::SetIndex(_) || instr matches Instr::JumpOffset(_) || instr matches Instr::Random(_, _) || instr matches Instr::AddIndex(_) || instr matches Instr::LoadFontAddr(_) || instr matches Instr::SkipKeyPressed(_) || instr matches Instr::SkipKeyNotPressed(_),
        ensures
            final(self)@.wf(),
            step_post(old(self)@, instr, rnd, final(self)@, r),
    {
        match instr {
            Instr::SetIndex(nnn) => {
                self.set_index(nnn);
                Ok(())
            },
            Instr::JumpOffset(nnn) => {
                let v0: u8 = self.get_register(0);
                self.set_pc(nnn + (v0 as u16));
                Ok(())
            },
            Instr::Random(x, nn) => {
                self.set_reg(x, rnd & nn);
                Ok(())
            },
            Instr::AddIndex(x) => {
                let a: u8 = self.get_register(x);
                let index = self.get_index_register();
                let val: u16 = (((index as u32) + (a as u32)) % 65536) as u16;
                self.set_index(val);
                Ok(())
            },
            Instr::LoadFontAddr(x) => {
                let a: u8 = self.get_register(x);
                let digit: u8 = a & 0xF;
                proof {
                    assert(digit < 16) by (bit_vector)
                        requires
                            digit == a & 0xF,
                    ;
                }
                self.set_index(5 * (digit as u16));
                Ok(())
            },
            Instr::SkipKeyPressed(x) => {
                let vx: u8 = self.get_register(x);
                if vx >= 16 {
                    return Err(Fault::OutOfRangeAccess(vx as u16));
                }
                if self.key_state(vx) {
                    let pc = self.get_program_counter();
                    self.set_pc(pc + 2);
                }
                Ok(())
            },
            Instr::SkipKeyNotPressed(x) => {
                let vx: u8 = self.get_register(x);
                if vx >= 16 {
                    return Err(Fault::OutOfRangeAccess(vx as u16));
                }
                if !self.key_state(vx) {
                    let pc = self.get_program_counter();
                    self.set_pc(pc + 2);
                }
                Ok(())
            },
            _ => Ok(()),
        }
    }

    /// Sprite drawing, key waiting, and the memory block moves.
    #[verifier::rlimit(100)]
    fn step_mem(&mut self, instr: Instr, rnd: u8) -> (r: Result<(), Fault>)
        requires
            old(self)@.wf(),
            instr.wf(),
            2 <= old(self)@.pc <= 65533,
            instr matches Instr::Draw(_, _, _) || instr matches Instr::WaitKey(_) || instr matches Instr::StoreBcd(_) || instr matches Instr::StoreRegs(_) || instr matches Instr::LoadRegs(_),
        ensures
            final(self)@.wf(),
            step_post(old(self)@, instr, rnd, final(self)@, r),
    {
        let ghost pre = self@;
        match instr {
            Instr::Draw(x, y, n) => {
                let index = self.get_index_register();
                if n > 0 && (index as usize) + (n as usize) > 4096 {
                    return Err(Fault::OutOfRangeAccess(index));
                }
                let vx: u8 = self.get_register(x);
                let vy: u8 = self.get_register(y);
                let collided = self.draw_sprite(vx, vy, n);
                let vfv: u8 = if collided {
                    1
                } else {
                    0
                };
                self.set_reg(15, vfv);
                Ok(())
            },
            Instr::WaitKey(x) => {
                let mut found: bool = false;
                let mut idx: u8 = 0;
                let mut i: u8 = 0;
                while i < 16
                    invariant
                        self@ == pre,
                        pre.wf(),
                        i <= 16,
                        !found ==> forall|j: int| 0 <= j < i ==> !pre.keys[j],
                        !found ==> first_key(pre.keys) == first_key_from(pre.keys, i as int),
                        found ==> idx < 16 && first_key(pre.keys) == Some(idx as int),
                    decreases 16 - i,
                {
                    if !found && self.key_state(i) {
                        found = true;
                        idx = i;
                    }
                    i = i + 1;
                }
                if found {
                    self.set_reg(x, idx);
                } else {
                    let pc = self.get_program_counter();
                    self.set_pc(pc - 2);
                }
                Ok(())
            },
            Instr::StoreBcd(x) => {
                let index = self.get_index_register();
                if index > 4093 {
                    return Err(Fault::OutOfRangeAccess(index));
                }
                let a: u8 = self.get_register(x);
                self.write_ram(index, a / 100);
                self.write_ram(index + 1, (a / 10) % 10);
                self.write_ram(index + 2, a % 10);
                Ok(())
            },
            Instr::StoreRegs(x) => {
                let index = self.get_index_register();
                if (index as usize) + (x as usize) > 4095 {
                    return Err(Fault::OutOfRangeAccess(index));
                }
                let mut k: u8 = 0;
                while k <= x
                    invariant
                        pre.wf(),
                        x < 16,
                        k <= x + 1,
                        index == pre.index,
                        index + x <= 4095,
                        self@ == (EmuView { ram: self@.ram, ..pre }),
                        self@.ram.len() == 4096,
                        forall|i: int|
                            index <= i < index + k ==> self@.ram[i] == pre.v[i - index],
                        forall|i: int|
                            0 <= i < 4096 && !(index <= i < index + k) ==> self@.ram[i]
                                == pre.ram[i],
                    decreases x + 1 - k,
                {
                    let b: u8 = self.get_register(k);
                    self.write_ram(index + (k as u16), b);
                    k = k + 1;
                }
                proof {
                    assert(self@.ram =~= Seq::new(4096, |i: int| if pre.index <= i <= pre.index
                        + x {
                        pre.v[i - pre.index]
                    } else {
                        pre.ram[i]
                    }));
                    assert(self@ =~= (EmuView {
                        ram: Seq::new(4096, |i: int| if pre.index <= i <= pre.index + x {
                            pre.v[i - pre.index]
                        } else {
                            pre.ram[i]
                        }),
                        ..pre
                    }));
                }
                Ok(())
            },
            Instr::LoadRegs(x) => {
                let index = self.get_index_register();
                if (index as usize) + (x as usize) > 4095 {
                    return Err(Fault::OutOfRangeAccess(index));
                }
                let mut k: u8 = 0;
                while k <= x
                    invariant
                        pre.wf(),
                        x < 16,
                        k <= x + 1,
                        index == pre.index,
                        index + x <= 4095,
                        self@ == (EmuView { v: self@.v, ..pre }),
                        self@.v.len() == 16,
                        forall|i: int| 0 <= i < k ==> self@.v[i] == pre.ram[index + i],
                        forall|i: int| k <= i < 16 ==> self@.v[i] == pre.v[i],
                    decreases x + 1 - k,
                {
                    let b: u8 = self.read_byte(index + (k as u16));
                    self.set_reg(k, b);
                    k = k + 1;
                }
                proof {
                    assert(self@.v =~= Seq::new(16, |i: int| if i <= x {
                        pre.ram[pre.index + i]
                    } else {
                        pre.v[i]
                    }));
                    assert(self@ =~= (EmuView {
                        v: Seq::new(16, |i: int| if i <= x {
                            pre.ram[pre.index + i]
                        } else {
                            pre.v[i]
                        }),
                        ..pre
                    }));
                }
                Ok(())
            },
            _ => Ok(()),
        }
    }

    /// Executes one decoded instruction with an explicit entropy byte,
    /// following `exec_result` exactly.  The program counter bounds are
    /// those that the fetch advance establishes.
    pub fn step(&mut self, instr: Instr, rnd: u8) -> (r: Result<(), Fault>)
        requires
            old(self)@.wf(),
            instr.wf(),
            2 <= old(self)@.pc <= 65533,
        ensures
            final(self)@.wf(),
            step_post(old(self)@, instr, rnd, final(self)@, r),
    {
        match instr {
            Instr::Nop | Instr::ClearScreen | Instr::Return | Instr::Jump(_) | Instr::Call(_)
            | Instr::SkipEqImm(_, _) | Instr::SkipNeImm(_, _) | Instr::SkipEqReg(_, _)
            | Instr::SkipNeReg(_, _) => self.step_flow(instr, rnd),
            Instr::LoadImm(_, _) | Instr::AddImm(_, _) | Instr::RegCopy(_, _)
            | Instr::OrReg(_, _) | Instr::AndReg(_, _) | Instr::XorReg(_, _)
            | Instr::AddReg(_, _) | Instr::SubReg(_, _) | Instr::ShiftRight(_)
            | Instr::SubRegRev(_, _) | Instr::ShiftLeft(_) | Instr::LoadDelay(_)
            | Instr::StoreDelay(_) | Instr::StoreSound(_) => self.step_alu(instr, rnd),
            Instr::SetIndex(_) | Instr::JumpOffset(_) | Instr::Random(_, _)
            | Instr::AddIndex(_) | Instr::LoadFontAddr(_) | Instr::SkipKeyPressed(_)
            | Instr::SkipKeyNotPressed(_) => self.step_misc(instr, rnd),
            Instr::Draw(_, _, _) | Instr::WaitKey(_) | Instr::StoreBcd(_)
            | Instr::StoreRegs(_) | Instr::LoadRegs(_) => self.step_mem(instr, rnd),
        }
    }

    /// Executes one decoded instruction, drawing the entropy byte for
    /// `random` from the host's random source.
    pub fn execute(&mut self, instr: Instr) -> (r: Result<(), Fault>)
        requires
            old(self)@.wf(),
            instr.wf(),
            2 <= old(self)@.pc <= 65533,
        ensures
            final(self)@.wf(),
            exists|b: u8| step_post(old(self)@, instr, b, final(self)@, r),
    {
        let rnd: u8 = match instr {
            Instr::Random(_, _) => random_byte(),
            _ => 0u8,
        };
        let r = self.step(instr, rnd);
        proof {
            assert(step_post(old(self)@, instr, rnd, self@, r));
        }
        r
    }

    /// Performs one fetch-decode-execute step: exactly one instruction
    /// retirement, except for `wait-key` with no key pressed, which leaves
    /// the program counter where it was.
    pub fn cycle(&mut self) -> (r: Result<(), Fault>)
        requires
            old(self)@.wf(),
        ensures
            final(self)@.wf(),
            exists|b: u8| cycle_post(old(self)@, b, final(self)@, r),
    {
        let pc0 = self.get_program_counter();
        let word = match self.fetch() {
            Ok(w) => w,
            Err(f) => {
                proof {
                    assert(cycle_post(old(self)@, 0u8, self@, Err::<(), Fault>(f)));
                }
                return Err(f);
            },
        };
        let instr = match self.decode(word) {
            Some(i) => i,
            None => {
                proof {
                    assert(cycle_post(
                        old(self)@,
                        0u8,
                        self@,
                        Err::<(), Fault>(Fault::DecodeFailure(word, pc0)),
                    ));
                }
                return Err(Fault::DecodeFailure(word, pc0));
            },
        };
        let r = self.execute(instr);
        proof {
            let fetched = EmuView { pc: (old(self)@.pc + 2) as u16, ..old(self)@ };
            let b = choose|b: u8| #[trigger] step_post(fetched, instr, b, self@, r);
            assert(cycle_post(old(self)@, b, self@, r));
        }
        r
    }
}

} // verus!
