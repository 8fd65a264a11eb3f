//! Drawing sprites on the display.

use vstd::prelude::*;
use crate::layout::{RAM_SIZE, SCREEN_HEIGHT, SCREEN_SIZE, SCREEN_WIDTH};
use crate::machine::Emulator;
use crate::semantics::sprite_bit;
use crate::state::State;

verus! {

/// Whether the sprite row `bits`, drawn in display row `line` from column
/// `left` on, has a pixel among its first `cols` columns at `position`.
pub open spec fn row_covers(bits: u8, left: u8, line: int, cols: int, position: int) -> bool {
    let col: int = (position % (SCREEN_WIDTH as int) - left) % (SCREEN_WIDTH as int);
    position / (SCREEN_WIDTH as int) == line && col < cols && sprite_bit(bits, col as u8)
}

/// Whether the sprite row `bits` has a pixel in column `col`.
pub fn has_pixel(bits: u8, col: u8) -> (lit: bool)
    requires
        col < 8,
    ensures
        lit == sprite_bit(bits, col),
{
    bits & (0x80u8 >> col) != 0
}

impl Emulator {
    /// Draws one sprite row in display row `line`, from column `left` on,
    /// wrapping around at the right edge: each pixel that the row covers is
    /// flipped. Returns whether a pixel was switched off.
    pub fn draw_row(&mut self, bits: u8, left: u8, line: usize) -> (erased: bool)
        requires
            old(self).wf(),
            line < SCREEN_HEIGHT,
        ensures
            final(self).wf(),
            final(self)@ == (State {
                display: Seq::new(
                    SCREEN_SIZE as nat,
                    |p: int| old(self)@.display[p] != row_covers(bits, left, line as int, 8, p),
                ),
                ..old(self)@
            }),
            erased == exists|p: int|
                0 <= p < SCREEN_SIZE && old(self)@.display[p] && #[trigger] row_covers(
                    bits,
                    left,
                    line as int,
                    8,
                    p,
                ),
    {
        let ghost before: State = self@;
        let mut erased: bool = false;
        let mut col: u8 = 0;
        while col < 8
            invariant
                col <= 8,
                line < SCREEN_HEIGHT,
                before.wf(),
                self@ == (State {
                    display: Seq::new(
                        SCREEN_SIZE as nat,
                        |p: int| before.display[p] != row_covers(bits, left, line as int, col as int, p),
                    ),
                    ..before
                }),
                erased == exists|p: int|
                    0 <= p < SCREEN_SIZE && before.display[p] && #[trigger] row_covers(
                        bits,
                        left,
                        line as int,
                        col as int,
                        p,
                    ),
            decreases 8 - col,
        {
            let ghost was_erased: bool = erased;
            let column: usize = (left as usize + col as usize) % SCREEN_WIDTH;
            let position: usize = line * SCREEN_WIDTH + column;
            let lit: bool = has_pixel(bits, col);
            assert(position / SCREEN_WIDTH == line && position % SCREEN_WIDTH == column);
            assert((column - left) % (SCREEN_WIDTH as int) == col);
            assert forall|p: int| 0 <= p < SCREEN_SIZE implies #[trigger] row_covers(
                bits,
                left,
                line as int,
                col + 1,
                p,
            ) == (row_covers(bits, left, line as int, col as int, p) || (p == position && lit)) by {
                let c: int = (p % (SCREEN_WIDTH as int) - left) % (SCREEN_WIDTH as int);
                if p / (SCREEN_WIDTH as int) == line && c == col {
                    assert(p % (SCREEN_WIDTH as int) == column);
                    assert(p == position);
                }
            }
            if lit {
                let on: bool = self.pixel(position);
                if on {
                    erased = true;
                }
                self.set_pixel(position, !on);
            }
            col += 1;
            assert(self@.display =~= Seq::new(
                SCREEN_SIZE as nat,
                |p: int| before.display[p] != row_covers(bits, left, line as int, col as int, p),
            ));
            proof {
                if erased {
                    if was_erased {
                        let w: int = choose|p: int|
                            0 <= p < SCREEN_SIZE && before.display[p] && #[trigger] row_covers(
                                bits,
                                left,
                                line as int,
                                col - 1,
                                p,
                            );
                        assert(row_covers(bits, left, line as int, col as int, w));
                    } else {
                        assert(row_covers(bits, left, line as int, col as int, position as int));
                    }
                }
            }
        }
        erased
    }

    /// Draws the sprite of `rows` rows that starts at the address register,
    /// with its top left corner at column `left` and row `top`. Returns
    /// whether a pixel was switched off.
    pub fn draw_sprite(&mut self, left: u8, top: u8, rows: u8) -> (erased: bool)
        requires
            old(self).wf(),
            rows < 16,
            rows > 0 ==> old(self)@.index + rows <= RAM_SIZE,
        ensures
            final(self).wf(),
            final(self)@ == (State {
                display: old(self)@.drawn(left, top, rows),
                ..old(self)@
            }),
            erased == old(self)@.collides(left, top, rows),
    {
        let ghost before: State = self@;
        let base: u16 = self.i_register();
        let mut erased: bool = false;
        let mut row: u8 = 0;
        while row < rows
            invariant
                row <= rows,
                rows < 16,
                before.wf(),
                base == before.index,
                rows > 0 ==> before.index + rows <= RAM_SIZE,
                self@ == (State { display: before.drawn(left, top, row), ..before }),
                erased == before.collides(left, top, row),
            decreases rows - row,
        {
            let ghost was_erased: bool = erased;
            let bits: u8 = self.read_byte_from_ram(base + row as u16);
            let line: usize = (top as usize + row as usize) % SCREEN_HEIGHT;
            assert forall|p: int| 0 <= p < SCREEN_SIZE implies #[trigger] before.sprite_covers(
                left,
                top,
                (row + 1) as u8,
                p,
            ) == (before.sprite_covers(left, top, row, p) || row_covers(
                bits,
                left,
                line as int,
                8,
                p,
            )) && !(before.sprite_covers(left, top, row, p) && row_covers(
                bits,
                left,
                line as int,
                8,
                p,
            )) by {
                let r: int = (p / (SCREEN_WIDTH as int) - top) % (SCREEN_HEIGHT as int);
                assert(r == row <==> p / (SCREEN_WIDTH as int) == line);
            }
            let erased_here: bool = self.draw_row(bits, left, line);
            erased = erased || erased_here;
            row += 1;
            assert(self@.display =~= before.drawn(left, top, row));
            proof {
                if was_erased {
                    let w: int = choose|p: int|
                        0 <= p < SCREEN_SIZE && before.display[p] && #[trigger] before.sprite_covers(
                            left,
                            top,
                            (row - 1) as u8,
                            p,
                        );
                    assert(before.sprite_covers(left, top, row, w));
                } else if erased_here {
                    let w: int = choose|p: int|
                        0 <= p < SCREEN_SIZE && before.drawn(left, top, (row - 1) as u8)[p]
                            && #[trigger] row_covers(bits, left, line as int, 8, p);
                    assert(before.sprite_covers(left, top, row, w));
                } else if before.collides(left, top, row) {
                    let w: int = choose|p: int|
                        0 <= p < SCREEN_SIZE && before.display[p] && #[trigger] before.sprite_covers(
                            left,
                            top,
                            row,
                            p,
                        );
                    assert(before.sprite_covers(left, top, (row - 1) as u8, w) || row_covers(
                        bits,
                        left,
                        line as int,
                        8,
                        w,
                    ));
                }
            }
        }
        erased
    }
}

} // verus!
