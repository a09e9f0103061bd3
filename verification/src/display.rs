//! Sprite drawing: the XOR-blit of an 8-bit-wide, up to 15-row-tall sprite
//! onto the 64x32 display, with horizontal and vertical wraparound, and the
//! collision flag that reports whether a previously lit cell was unset.
//!
//! The specification is pointwise: a display cell toggles exactly when the
//! sprite covers it with a set bit.  Because the sprite is at most 8 cells
//! wide and 15 tall, no draw ever toggles the same cell twice, and each cell
//! has exactly one candidate sprite row and column, recovered by
//! `wrap_offset`.

use vstd::prelude::*;

use crate::machine::EmuView;
use crate::machine::Emulator;

verus! {

/// The sprite-local offset that maps origin `base` to screen coordinate
/// `coord` on an axis of `m` cells: the unique `d` in `[0, m)` with
/// `(base + d) % m == coord`, for `base` and `coord` in `[0, m)`.
pub open spec fn wrap_offset(base: int, coord: int, m: int) -> int {
    if coord >= base {
        coord - base
    } else {
        coord + m - base
    }
}

/// Whether bit `c` (0 is the most significant) of a sprite row byte is set.
pub open spec fn sprite_row_bit(byte: u8, c: int) -> bool {
    (byte >> ((7 - c) as u8)) & 1 == 1
}

/// Whether the draw of an `n`-row sprite read from `ram` at `index`, with
/// screen origin `(x0 mod 64, y0 mod 32)`, toggles the display cell
/// `(cx, cy)` -- restricted to the sprite cells before row `rr`, column `cc`
/// in drawing order.  The full draw is `rr == n`, `cc == 0`.
pub open spec fn toggles_upto(
    ram: Seq<u8>,
    index: int,
    x0: int,
    y0: int,
    n: int,
    rr: int,
    cc: int,
    cx: int,
    cy: int,
) -> bool {
    let c = wrap_offset(x0 % 64, cx, 64);
    let r = wrap_offset(y0 % 32, cy, 32);
    &&& c < 8
    &&& r < n
    &&& (r < rr || (r == rr && c < cc))
    &&& sprite_row_bit(ram[index + r], c)
}

/// Whether the full draw toggles the display cell `(cx, cy)`.
pub open spec fn sprite_toggles(
    ram: Seq<u8>,
    index: int,
    x0: int,
    y0: int,
    n: int,
    cx: int,
    cy: int,
) -> bool {
    toggles_upto(ram, index, x0, y0, n, n, 0, cx, cy)
}

/// The display after drawing: each cell is XORed with the sprite bit that
/// covers it.
pub open spec fn draw_screen(
    screen: Seq<bool>,
    ram: Seq<u8>,
    index: int,
    x0: int,
    y0: int,
    n: int,
) -> Seq<bool> {
    Seq::new(2048, |i: int| screen[i] != sprite_toggles(ram, index, x0, y0, n, i % 64, i / 64))
}

/// Whether the partial draw (up to row `rr`, column `cc`) unsets some lit
/// cell of `screen`.
pub open spec fn collision_upto(
    screen: Seq<bool>,
    ram: Seq<u8>,
    index: int,
    x0: int,
    y0: int,
    n: int,
    rr: int,
    cc: int,
) -> bool {
    exists|i: int|
        0 <= i < 2048 && #[trigger] screen[i] && toggles_upto(
            ram,
            index,
            x0,
            y0,
            n,
            rr,
            cc,
            i % 64,
            i / 64,
        )
}

/// Whether the full draw unsets some lit cell of `screen`: the collision
/// flag written to `VF`.
pub open spec fn draw_collision(
    screen: Seq<bool>,
    ram: Seq<u8>,
    index: int,
    x0: int,
    y0: int,
    n: int,
) -> bool {
    collision_upto(screen, ram, index, x0, y0, n, n, 0)
}

/// Two partial draws that toggle the same cells collide alike.
proof fn lemma_collision_same(
    screen: Seq<bool>,
    ram: Seq<u8>,
    index: int,
    x0: int,
    y0: int,
    n: int,
    rr1: int,
    cc1: int,
    rr2: int,
    cc2: int,
)
    requires
        forall|i: int|
            0 <= i < 2048 ==> #[trigger] toggles_upto(ram, index, x0, y0, n, rr1, cc1, i % 64, i / 64)
                == toggles_upto(ram, index, x0, y0, n, rr2, cc2, i % 64, i / 64),
    ensures
        collision_upto(screen, ram, index, x0, y0, n, rr1, cc1) == collision_upto(
            screen,
            ram,
            index,
            x0,
            y0,
            n,
            rr2,
            cc2,
        ),
{
    if collision_upto(screen, ram, index, x0, y0, n, rr1, cc1) {
        let i = choose|i: int|
            0 <= i < 2048 && #[trigger] screen[i] && toggles_upto(
                ram,
                index,
                x0,
                y0,
                n,
                rr1,
                cc1,
                i % 64,
                i / 64,
            );
        assert(screen[i] && toggles_upto(ram, index, x0, y0, n, rr2, cc2, i % 64, i / 64));
    }
    if collision_upto(screen, ram, index, x0, y0, n, rr2, cc2) {
        let i = choose|i: int|
            0 <= i < 2048 && #[trigger] screen[i] && toggles_upto(
                ram,
                index,
                x0,
                y0,
                n,
                rr2,
                cc2,
                i % 64,
                i / 64,
            );
        assert(screen[i] && toggles_upto(ram, index, x0, y0, n, rr1, cc1, i % 64, i / 64));
    }
}

/// Extending a partial draw by one newly toggled cell `idx0` extends the
/// collision by whether that cell was lit.
proof fn lemma_collision_flip(
    screen: Seq<bool>,
    ram: Seq<u8>,
    index: int,
    x0: int,
    y0: int,
    n: int,
    rr1: int,
    cc1: int,
    rr2: int,
    cc2: int,
    idx0: int,
)
    requires
        0 <= idx0 < 2048,
        forall|i: int|
            0 <= i < 2048 && i != idx0 ==> #[trigger] toggles_upto(
                ram,
                index,
                x0,
                y0,
                n,
                rr1,
                cc1,
                i % 64,
                i / 64,
            ) == toggles_upto(ram, index, x0, y0, n, rr2, cc2, i % 64, i / 64),
        !toggles_upto(ram, index, x0, y0, n, rr1, cc1, idx0 % 64, idx0 / 64),
        toggles_upto(ram, index, x0, y0, n, rr2, cc2, idx0 % 64, idx0 / 64),
    ensures
        collision_upto(screen, ram, index, x0, y0, n, rr2, cc2) == (collision_upto(
            screen,
            ram,
            index,
            x0,
            y0,
            n,
            rr1,
            cc1,
        ) || screen[idx0]),
{
    if collision_upto(screen, ram, index, x0, y0, n, rr2, cc2) {
        let i = choose|i: int|
            0 <= i < 2048 && #[trigger] screen[i] && toggles_upto(
                ram,
                index,
                x0,
                y0,
                n,
                rr2,
                cc2,
                i % 64,
                i / 64,
            );
        if i != idx0 {
            assert(screen[i] && toggles_upto(ram, index, x0, y0, n, rr1, cc1, i % 64, i / 64));
        }
    }
    if collision_upto(screen, ram, index, x0, y0, n, rr1, cc1) {
        let i = choose|i: int|
            0 <= i < 2048 && #[trigger] screen[i] && toggles_upto(
                ram,
                index,
                x0,
                y0,
                n,
                rr1,
                cc1,
                i % 64,
                i / 64,
            );
        assert(screen[i] && toggles_upto(ram, index, x0, y0, n, rr2, cc2, i % 64, i / 64));
    }
    if screen[idx0] {
        assert(screen[idx0] && toggles_upto(
            ram,
            index,
            x0,
            y0,
            n,
            rr2,
            cc2,
            idx0 % 64,
            idx0 / 64,
        ));
    }
}

impl Emulator {
    /// XOR-blits the `n`-row sprite at the index register onto the display
    /// at screen position `(x mod 64, y mod 32)`, and reports whether a
    /// previously lit cell was unset.
    pub(crate) fn draw_sprite(&mut self, x: u8, y: u8, n: u8) -> (vf: bool)
        requires
            old(self)@.wf(),
            n < 16,
            n > 0 ==> old(self)@.index + n <= 4096,
        ensures
            final(self)@ == (EmuView {
                screen: draw_screen(
                    old(self)@.screen,
                    old(self)@.ram,
                    old(self)@.index as int,
                    x as int,
                    y as int,
                    n as int,
                ),
                ..old(self)@
            }),
            vf == draw_collision(
                old(self)@.screen,
                old(self)@.ram,
                old(self)@.index as int,
                x as int,
                y as int,
                n as int,
            ),
    {
        let ghost pre = self@;
        let x0: u8 = x % 64;
        let y0: u8 = y % 32;
        let mut vf = false;
        let mut r: usize = 0;
        while r < n as usize
            invariant
                pre.wf(),
                n < 16,
                n > 0 ==> pre.index + n <= 4096,
                x0 == x % 64,
                y0 == y % 32,
                r <= n,
                self@ == (EmuView { screen: self@.screen, ..pre }),
                self@.screen.len() == 2048,
                forall|i: int|
                    0 <= i < 2048 ==> self@.screen[i] == (pre.screen[i] != toggles_upto(
                        pre.ram,
                        pre.index as int,
                        x as int,
                        y as int,
                        n as int,
                        r as int,
                        0,
                        i % 64,
                        i / 64,
                    )),
                vf == collision_upto(
                    pre.screen,
                    pre.ram,
                    pre.index as int,
                    x as int,
                    y as int,
                    n as int,
                    r as int,
                    0,
                ),
            decreases n as int - r,
        {
            let byte = self.read_byte(self.get_index_register() + (r as u16));
            let mut c: usize = 0;
            while c < 8
                invariant
                    pre.wf(),
                    n < 16,
                    pre.index + n <= 4096,
                    x0 == x % 64,
                    y0 == y % 32,
                    r < n,
                    c <= 8,
                    byte == pre.ram[pre.index + r],
                    self@ == (EmuView { screen: self@.screen, ..pre }),
                    self@.screen.len() == 2048,
                    forall|i: int|
                        0 <= i < 2048 ==> self@.screen[i] == (pre.screen[i] != toggles_upto(
                            pre.ram,
                            pre.index as int,
                            x as int,
                            y as int,
                            n as int,
                            r as int,
                            c as int,
                            i % 64,
                            i / 64,
                        )),
                    vf == collision_upto(
                        pre.screen,
                        pre.ram,
                        pre.index as int,
                        x as int,
                        y as int,
                        n as int,
                        r as int,
                        c as int,
                    ),
                decreases 8 - c,
            {
                let bit_set = byte & (0x80u8 >> (c as u8)) != 0;
                proof {
                    let cu = c as u8;
                    assert(((byte >> ((7 - cu) as u8)) & 1 == 1) == (byte & (0x80u8 >> cu) != 0))
                        by (bit_vector)
                        requires
                            cu < 8,
                    ;
                }
                if bit_set {
                    let mut cx: u16 = x0 as u16 + c as u16;
                    if cx >= 64 {
                        cx = cx - 64;
                    }
                    let mut cy: u16 = y0 as u16 + r as u16;
                    if cy >= 32 {
                        cy = cy - 32;
                    }
                    let idx: usize = (cx + 64 * cy) as usize;
                    proof {
                        assert(idx < 2048);
                        assert(idx as int % 64 == cx as int && idx as int / 64 == cy as int);
                        assert(wrap_offset(x as int % 64, cx as int, 64) == c as int);
                        assert(wrap_offset(y as int % 32, cy as int, 32) == r as int);
                    }
                    let was = self.flip_cell(idx);
                    if was {
                        vf = true;
                    }
                    proof {
                        let ri = pre.ram;
                        let ii = pre.index as int;
                        let xi = x as int;
                        let yi = y as int;
                        let ni = n as int;
                        let rr = r as int;
                        let cc = c as int;
                        let idx0 = idx as int;
                        assert(!toggles_upto(ri, ii, xi, yi, ni, rr, cc, idx0 % 64, idx0 / 64));
                        assert(toggles_upto(ri, ii, xi, yi, ni, rr, cc + 1, idx0 % 64, idx0 / 64));
                        assert forall|i: int| 0 <= i < 2048 && i != idx0 implies #[trigger]
                        toggles_upto(ri, ii, xi, yi, ni, rr, cc, i % 64, i / 64) == toggles_upto(
                            ri,
                            ii,
                            xi,
                            yi,
                            ni,
                            rr,
                            cc + 1,
                            i % 64,
                            i / 64,
                        ) by {
                            let ci = wrap_offset(xi % 64, i % 64, 64);
                            let rj = wrap_offset(yi % 32, i / 64, 32);
                            if ci == cc && rj == rr && ci < 8 && rj < ni {
                                assert(i % 64 == cx as int && i / 64 == cy as int);
                                assert(i == 64 * (i / 64) + i % 64);
                                assert(i == idx0);
                            }
                        }
                        assert(was == pre.screen[idx0]);
                        lemma_collision_flip(
                            pre.screen,
                            ri,
                            ii,
                            xi,
                            yi,
                            ni,
                            rr,
                            cc,
                            rr,
                            cc + 1,
                            idx0,
                        );
                    }
                } else {
                    proof {
                        let ri = pre.ram;
                        let ii = pre.index as int;
                        let xi = x as int;
                        let yi = y as int;
                        let ni = n as int;
                        let rr = r as int;
                        let cc = c as int;
                        assert forall|i: int| 0 <= i < 2048 implies #[trigger] toggles_upto(
                            ri,
                            ii,
                            xi,
                            yi,
                            ni,
                            rr,
                            cc,
                            i % 64,
                            i / 64,
                        ) == toggles_upto(ri, ii, xi, yi, ni, rr, cc + 1, i % 64, i / 64) by {
                            let ci = wrap_offset(xi % 64, i % 64, 64);
                            let rj = wrap_offset(yi % 32, i / 64, 32);
                            if ci == cc && rj == rr {
                                assert(!sprite_row_bit(ri[ii + rr], cc));
                            }
                        }
                        lemma_collision_same(pre.screen, ri, ii, xi, yi, ni, rr, cc, rr, cc + 1);
                    }
                }
                c = c + 1;
            }
            proof {
                let ri = pre.ram;
                let ii = pre.index as int;
                let xi = x as int;
                let yi = y as int;
                let ni = n as int;
                let rr = r as int;
                assert forall|i: int| 0 <= i < 2048 implies #[trigger] toggles_upto(
                    ri,
                    ii,
                    xi,
                    yi,
                    ni,
                    rr,
                    8,
                    i % 64,
                    i / 64,
                ) == toggles_upto(ri, ii, xi, yi, ni, rr + 1, 0, i % 64, i / 64) by {}
                lemma_collision_same(pre.screen, ri, ii, xi, yi, ni, rr, 8, rr + 1, 0);
            }
            r = r + 1;
        }
        proof {
            assert(self@.screen =~= draw_screen(
                pre.screen,
                pre.ram,
                pre.index as int,
                x as int,
                y as int,
                n as int,
            ));
            assert(self@ =~= (EmuView {
                screen: draw_screen(
                    pre.screen,
                    pre.ram,
                    pre.index as int,
                    x as int,
                    y as int,
                    n as int,
                ),
                ..pre
            }));
        }
        vf
    }
}

} // verus!
