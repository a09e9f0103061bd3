//! Laws of the instruction semantics that relate several operations, proved
//! once and for all over the transition rule `exec_result` and the drawing
//! specification.

use vstd::prelude::*;

use crate::display::draw_collision;
use crate::display::draw_screen;
use crate::display::sprite_toggles;
use crate::display::toggles_upto;
use crate::isa::Instr;
use crate::machine::EmuView;
use crate::step::exec_result;

verus! {

/// Loading an immediate into a register and then reading that register
/// yields exactly that immediate, whatever the machine state.
pub proof fn lemma_load_imm_read_back(pre: EmuView, x: u8, nn: u8, rnd: u8)
    requires
        pre.wf(),
        x < 16,
    ensures
        exec_result(pre, Instr::LoadImm(x, nn), rnd) matches Ok(p) && p.v[x as int] == nn,
{
}

/// `add-reg` sets `VF` to 1 exactly when the 8-bit sum overflows, and the
/// destination holds the sum modulo 256.  (When the destination is `VF`
/// itself, the flag write wins, so the destination is exempted here.)
pub proof fn lemma_add_reg_flags(pre: EmuView, x: u8, y: u8, rnd: u8)
    requires
        pre.wf(),
        x < 16,
        y < 16,
        x != 15,
    ensures
        exec_result(pre, Instr::AddReg(x, y), rnd) matches Ok(p) && {
            let a = pre.v[x as int];
            let b = pre.v[y as int];
            &&& (p.v[15] == 1u8 <==> a + b > 255)
            &&& p.v[x as int] == ((a + b) % 256) as u8
        },
{
}

/// `sub-reg` sets `VF` to 1 exactly when no borrow occurs (minuend at least
/// subtrahend), and the destination holds the difference modulo 256.  (When
/// the destination is `VF` itself, the flag write wins, so the destination
/// is exempted here.)
pub proof fn lemma_sub_reg_flags(pre: EmuView, x: u8, y: u8, rnd: u8)
    requires
        pre.wf(),
        x < 16,
        y < 16,
        x != 15,
    ensures
        exec_result(pre, Instr::SubReg(x, y), rnd) matches Ok(p) && {
            let a = pre.v[x as int];
            let b = pre.v[y as int];
            &&& (p.v[15] == 1u8 <==> a >= b)
            &&& p.v[x as int] == ((a - b) % 256) as u8
        },
{
}

/// XOR-drawing is its own inverse: drawing the identical sprite at the
/// identical position twice in succession restores the display to its
/// pre-draw state.  The second draw reports a collision precisely when the
/// first draw lit some previously unlit cell (everything the first draw
/// turned on, the second turns off).
pub proof fn lemma_draw_twice_restores(
    screen: Seq<bool>,
    ram: Seq<u8>,
    index: int,
    x0: int,
    y0: int,
    n: int,
)
    requires
        screen.len() == 2048,
    ensures
        draw_screen(draw_screen(screen, ram, index, x0, y0, n), ram, index, x0, y0, n) == screen,
        draw_collision(draw_screen(screen, ram, index, x0, y0, n), ram, index, x0, y0, n) == (
        exists|i: int|
            0 <= i < 2048 && !screen[i] && #[trigger] sprite_toggles(
                ram,
                index,
                x0,
                y0,
                n,
                i % 64,
                i / 64,
            )),
{
    let s1 = draw_screen(screen, ram, index, x0, y0, n);
    assert(draw_screen(s1, ram, index, x0, y0, n) =~= screen);
    if draw_collision(s1, ram, index, x0, y0, n) {
        let i = choose|i: int|
            0 <= i < 2048 && #[trigger] s1[i] && toggles_upto(
                ram,
                index,
                x0,
                y0,
                n,
                n,
                0,
                i % 64,
                i / 64,
            );
        assert(!screen[i] && sprite_toggles(ram, index, x0, y0, n, i % 64, i / 64));
    }
    if exists|i: int|
        0 <= i < 2048 && !screen[i] && #[trigger] sprite_toggles(
            ram,
            index,
            x0,
            y0,
            n,
            i % 64,
            i / 64,
        ) {
        let i = choose|i: int|
            0 <= i < 2048 && !screen[i] && #[trigger] sprite_toggles(
                ram,
                index,
                x0,
                y0,
                n,
                i % 64,
                i / 64,
            );
        assert(s1[i] && toggles_upto(ram, index, x0, y0, n, n, 0, i % 64, i / 64));
    }
}

/// The same law at the machine level: executing the identical `draw`
/// instruction twice in succession restores the display to its pre-draw
/// state, and the second draw reports a collision exactly when the first
/// draw lit some cell.  The coordinate registers must not be `VF`, which
/// the first draw overwrites with its collision flag.
pub proof fn lemma_draw_instr_twice(pre: EmuView, x: u8, y: u8, n: u8, rnd1: u8, rnd2: u8)
    requires
        pre.wf(),
        x < 16,
        y < 16,
        n < 16,
        x != 15,
        y != 15,
        n > 0 ==> pre.index + n <= 4096,
    ensures
        exec_result(pre, Instr::Draw(x, y, n), rnd1) matches Ok(p1) && (exec_result(
            p1,
            Instr::Draw(x, y, n),
            rnd2,
        ) matches Ok(p2) && {
            &&& p2.screen == pre.screen
            &&& (p2.v[15] == 1u8 <==> exists|i: int|
                0 <= i < 2048 && !pre.screen[i] && #[trigger] sprite_toggles(
                    pre.ram,
                    pre.index as int,
                    pre.v[x as int] as int,
                    pre.v[y as int] as int,
                    n as int,
                    i % 64,
                    i / 64,
                ))
        }),
{
    lemma_draw_twice_restores(
        pre.screen,
        pre.ram,
        pre.index as int,
        pre.v[x as int] as int,
        pre.v[y as int] as int,
        n as int,
    );
}

} // verus!
