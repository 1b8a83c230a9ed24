//! An in-memory 64x32 monochrome framebuffer: the crate's own graphics
//! sink, with XOR sprite drawing and collision detection.

use crate::peripherals::{
    spec_collision, spec_lit_source, spec_sprite_bit, spec_target, spec_toggled_pixels,
    spec_toggles, Graphics, Pos, Sprite,
};
use vstd::prelude::*;

verus! {

/// The display width in pixels.
pub const WIDTH: usize = 64;

/// The display height in pixels.
pub const HEIGHT: usize = 32;

/// A 64x32 monochrome display held in memory, drawn by XOR-toggling
/// sprites; a dirty flag records that a refresh was requested.
#[derive(Clone, Debug)]
pub struct FrameBuffer {
    pixels: Vec<bool>,
    dirty: bool,
}

/// Whether the sprite source `(row, col)` has already been processed when
/// the draw loops stand at row `rows`, column `cols`.
spec fn processed_before(rows: int, cols: int, row: int, col: int) -> bool {
    row < rows || (row == rows && col < cols)
}

/// Whether a lit source processed before `(rows, cols)` lands on `idx`.
spec fn spec_toggles_before(sprite: Seq<u8>, pos: Pos, rows: int, cols: int, idx: int) -> bool {
    exists|row: int, col: int|
        spec_lit_source(sprite, row, col) && processed_before(rows, cols, row, col)
            && #[trigger] spec_target(pos, row, col) == idx
}

/// The display contents once every source before `(rows, cols)` is drawn.
spec fn partial_pixels(pixels: Seq<bool>, pos: Pos, sprite: Seq<u8>, rows: int, cols: int) -> Seq<
    bool,
> {
    Seq::new(pixels.len(), |idx: int| pixels[idx] != spec_toggles_before(sprite, pos, rows, cols, idx))
}

/// Whether a lit source before `(rows, cols)` lands on an already lit
/// pixel.
spec fn partial_collision(pixels: Seq<bool>, pos: Pos, sprite: Seq<u8>, rows: int, cols: int) -> bool {
    exists|row: int, col: int|
        spec_lit_source(sprite, row, col) && processed_before(rows, cols, row, col)
            && #[trigger] spec_target(pos, row, col) < pixels.len() && pixels[spec_target(
            pos,
            row,
            col,
        )]
}

/// Distinct sprite sources land on distinct pixels: the sprite is at most
/// 15 rows high and 8 columns wide, so the wrapped offsets cannot
/// coincide.
proof fn lemma_target_injective(pos: Pos, r1: int, c1: int, r2: int, c2: int)
    requires
        0 <= r1 < 32,
        0 <= r2 < 32,
        0 <= c1 < 64,
        0 <= c2 < 64,
        spec_target(pos, r1, c1) == spec_target(pos, r2, c2),
    ensures
        r1 == r2,
        c1 == c2,
{
    let px = pos.0 as int;
    let py = pos.1 as int;
    let ty1 = (py + r1) % 32;
    let tx1 = (px + c1) % 64;
    let ty2 = (py + r2) % 32;
    let tx2 = (px + c2) % 64;
    assert(ty1 == ty2 && tx1 == tx2) by (nonlinear_arith)
        requires
            0 <= ty1 < 32,
            0 <= ty2 < 32,
            0 <= tx1 < 64,
            0 <= tx2 < 64,
            ty1 * 64 + tx1 == ty2 * 64 + tx2,
    ;
    vstd::arithmetic::div_mod::lemma_fundamental_div_mod(py + r1, 32);
    vstd::arithmetic::div_mod::lemma_fundamental_div_mod(py + r2, 32);
    let q1 = (py + r1) / 32;
    let q2 = (py + r2) / 32;
    assert(r1 - r2 == 32 * (q1 - q2));
    assert(r1 == r2) by (nonlinear_arith)
        requires
            0 <= r1 < 32,
            0 <= r2 < 32,
            r1 - r2 == 32 * (q1 - q2),
    ;
    vstd::arithmetic::div_mod::lemma_fundamental_div_mod(px + c1, 64);
    vstd::arithmetic::div_mod::lemma_fundamental_div_mod(px + c2, 64);
    let s1 = (px + c1) / 64;
    let s2 = (px + c2) / 64;
    assert(c1 - c2 == 64 * (s1 - s2));
    assert(c1 == c2) by (nonlinear_arith)
        requires
            0 <= c1 < 64,
            0 <= c2 < 64,
            c1 - c2 == 64 * (s1 - s2),
    ;
}

/// Stepping past a clear source bit leaves the partial draw unchanged.
proof fn lemma_step_skip(sprite: Seq<u8>, pos: Pos, y: int, x: int)
    requires
        0 <= y < sprite.len(),
        0 <= x < 8,
        !spec_sprite_bit(sprite, y, x),
    ensures
        forall|idx: int|
            spec_toggles_before(sprite, pos, y, x + 1, idx) == #[trigger] spec_toggles_before(
                sprite,
                pos,
                y,
                x,
                idx,
            ),
{
    assert forall|idx: int|
        spec_toggles_before(sprite, pos, y, x + 1, idx) == #[trigger] spec_toggles_before(
            sprite,
            pos,
            y,
            x,
            idx,
        ) by {
        if spec_toggles_before(sprite, pos, y, x + 1, idx) {
            let (row, col) = choose|row: int, col: int|
                spec_lit_source(sprite, row, col) && processed_before(y, x + 1, row, col)
                    && #[trigger] spec_target(pos, row, col) == idx;
            assert(!(row == y && col == x));
            assert(processed_before(y, x, row, col));
        }
    }
}

/// Stepping past a lit source bit toggles exactly its target pixel.
proof fn lemma_step_toggle(sprite: Seq<u8>, pos: Pos, y: int, x: int)
    requires
        sprite.len() <= 15,
        0 <= y < sprite.len(),
        0 <= x < 8,
        spec_sprite_bit(sprite, y, x),
    ensures
        !spec_toggles_before(sprite, pos, y, x, spec_target(pos, y, x)),
        spec_toggles_before(sprite, pos, y, x + 1, spec_target(pos, y, x)),
        forall|idx: int|
            idx != spec_target(pos, y, x) ==> spec_toggles_before(sprite, pos, y, x + 1, idx)
                == #[trigger] spec_toggles_before(sprite, pos, y, x, idx),
{
    let t = spec_target(pos, y, x);
    assert(spec_lit_source(sprite, y, x));
    if spec_toggles_before(sprite, pos, y, x, t) {
        let (row, col) = choose|row: int, col: int|
            spec_lit_source(sprite, row, col) && processed_before(y, x, row, col)
                && #[trigger] spec_target(pos, row, col) == t;
        lemma_target_injective(pos, row, col, y, x);
        assert(false);
    }
    assert forall|idx: int|
        idx != t ==> spec_toggles_before(sprite, pos, y, x + 1, idx) == #[trigger] spec_toggles_before(
            sprite,
            pos,
            y,
            x,
            idx,
        ) by {
        if idx != t && spec_toggles_before(sprite, pos, y, x + 1, idx) {
            let (row, col) = choose|row: int, col: int|
                spec_lit_source(sprite, row, col) && processed_before(y, x + 1, row, col)
                    && #[trigger] spec_target(pos, row, col) == idx;
            assert(!(row == y && col == x));
            assert(processed_before(y, x, row, col));
        }
    }
}

/// Finishing a row is the same as standing at the start of the next, and
/// finishing the last row is the whole draw.
proof fn lemma_row_end(sprite: Seq<u8>, pos: Pos, y: int)
    requires
        0 <= y <= sprite.len(),
    ensures
        forall|idx: int|
            #[trigger] spec_toggles_before(sprite, pos, y, 8, idx) == spec_toggles_before(
                sprite,
                pos,
                y + 1,
                0,
                idx,
            ),
        y == sprite.len() ==> forall|idx: int|
            #[trigger] spec_toggles_before(sprite, pos, y, 0, idx) == spec_toggles(
                sprite,
                pos,
                idx,
            ),
{
    assert forall|idx: int|
        #[trigger] spec_toggles_before(sprite, pos, y, 8, idx) == spec_toggles_before(
            sprite,
            pos,
            y + 1,
            0,
            idx,
        ) by {
        if spec_toggles_before(sprite, pos, y, 8, idx) {
            let (row, col) = choose|row: int, col: int|
                spec_lit_source(sprite, row, col) && processed_before(y, 8, row, col)
                    && #[trigger] spec_target(pos, row, col) == idx;
            assert(processed_before(y + 1, 0, row, col));
        }
        if spec_toggles_before(sprite, pos, y + 1, 0, idx) {
            let (row, col) = choose|row: int, col: int|
                spec_lit_source(sprite, row, col) && processed_before(y + 1, 0, row, col)
                    && #[trigger] spec_target(pos, row, col) == idx;
            assert(processed_before(y, 8, row, col));
        }
    }
    if y == sprite.len() {
        assert forall|idx: int|
            #[trigger] spec_toggles_before(sprite, pos, y, 0, idx) == spec_toggles(
                sprite,
                pos,
                idx,
            ) by {
            if spec_toggles(sprite, pos, idx) {
                let (row, col) = choose|row: int, col: int|
                    spec_lit_source(sprite, row, col) && #[trigger] spec_target(pos, row, col)
                        == idx;
                assert(processed_before(y, 0, row, col));
            }
        }
    }
}

impl FrameBuffer {
    /// A fresh framebuffer: every pixel off, nothing pending.
    pub fn new() -> (r: Self)
        ensures
            r.screen().len() == 2048,
            forall|i: int| 0 <= i < 2048 ==> !(#[trigger] r.screen()[i]),
            !r.spec_dirty(),
    {
        let pixels: Vec<bool> = vec![false; WIDTH * HEIGHT];
        FrameBuffer { pixels, dirty: false }
    }

    /// Whether the display was asked to refresh since the flag was last
    /// cleared.
    pub fn is_dirty(&self) -> (r: bool)
        ensures
            r == self.spec_dirty(),
    {
        self.dirty
    }

    /// Clear the dirty flag, typically after presenting the contents.
    pub fn mark_clean(&mut self)
        ensures
            !final(self).spec_dirty(),
            final(self).screen() == old(self).screen(),
    {
        self.dirty = false;
    }

    /// The dirty flag.
    pub closed spec fn spec_dirty(&self) -> bool {
        self.dirty
    }

    /// The pixel at `(x, y)`.
    pub fn pixel(&self, x: usize, y: usize) -> (r: bool)
        requires
            x < 64,
            y < 32,
            self.screen().len() == 2048,
        ensures
            r == self.screen()[y * 64 + x],
    {
        self.pixels[y * WIDTH + x]
    }
}

impl Graphics for FrameBuffer {
    closed spec fn screen(&self) -> Seq<bool> {
        self.pixels@
    }

    fn clear(&mut self) {
        let ghost len0 = self.pixels@.len();
        let mut i: usize = 0;
        while i < self.pixels.len()
            invariant
                self.pixels@.len() == len0,
                i <= len0,
                forall|j: int| 0 <= j < i ==> !(#[trigger] self.pixels@[j]),
                self.dirty == old(self).dirty,
            decreases len0 - i,
        {
            self.pixels[i] = false;
            i = i + 1;
        }
        proof {
            assert(self.pixels@ =~= Seq::new(len0, |j: int| false));
        }
    }

    fn toggle_sprite(&mut self, pos: Pos, sprite: Sprite<'_>) -> (collision: bool) {
        let ghost p0 = self.pixels@;
        let ghost s = sprite.0@;
        let mut collision = false;
        let n = sprite.0.len();
        let mut y: usize = 0;
        proof {
            assert(self.pixels@ =~= partial_pixels(p0, pos, s, 0, 0));
        }
        while y < n
            invariant
                n == s.len(),
                n <= 15,
                y <= n,
                s == sprite.0@,
                p0 == old(self).pixels@,
                self.pixels@.len() == p0.len(),
                self.dirty == old(self).dirty,
                self.pixels@ == partial_pixels(p0, pos, s, y as int, 0),
                collision == partial_collision(p0, pos, s, y as int, 0),
            decreases n - y,
        {
            let row_byte = sprite.0[y];
            let mut x: usize = 0;
            while x < 8
                invariant
                    n == s.len(),
                    n <= 15,
                    y < n,
                    x <= 8,
                    s == sprite.0@,
                    row_byte == s[y as int],
                    p0 == old(self).pixels@,
                    self.pixels@.len() == p0.len(),
                    self.dirty == old(self).dirty,
                    self.pixels@ == partial_pixels(p0, pos, s, y as int, x as int),
                    collision == partial_collision(p0, pos, s, y as int, x as int),
                decreases 8 - x,
            {
                let sprite_bit = (row_byte >> ((7 - x) as u8)) & 1 == 1;
                if sprite_bit {
                    let tx = (pos.0 as usize + x) % 64;
                    let ty = (pos.1 as usize + y) % 32;
                    let idx = ty * 64 + tx;
                    proof {
                        assert(idx == spec_target(pos, y as int, x as int));
                        assert(spec_sprite_bit(s, y as int, x as int));
                        lemma_step_toggle(s, pos, y as int, x as int);
                    }
                    if idx < self.pixels.len() {
                        if self.pixels[idx] {
                            collision = true;
                        }
                        let cur = self.pixels[idx];
                        self.pixels[idx] = !cur;
                    }
                    proof {
                        assert(self.pixels@ =~= partial_pixels(p0, pos, s, y as int, x as int + 1));
                        let t = spec_target(pos, y as int, x as int);
                        if collision != partial_collision(p0, pos, s, y as int, x as int + 1) {
                            if partial_collision(p0, pos, s, y as int, x as int + 1) {
                                let (row, col) = choose|row: int, col: int|
                                    spec_lit_source(s, row, col) && processed_before(
                                        y as int,
                                        x as int + 1,
                                        row,
                                        col,
                                    ) && #[trigger] spec_target(pos, row, col) < p0.len()
                                        && p0[spec_target(pos, row, col)];
                                if !(row == y as int && col == x as int) {
                                    assert(processed_before(y as int, x as int, row, col));
                                }
                                assert(false);
                            } else {
                                assert(!partial_collision(p0, pos, s, y as int, x as int));
                                assert(t < p0.len() && p0[t]);
                                assert(processed_before(y as int, x as int + 1, y as int, x as int));
                                assert(false);
                            }
                        }
                    }
                } else {
                    proof {
                        assert(!spec_sprite_bit(s, y as int, x as int));
                        lemma_step_skip(s, pos, y as int, x as int);
                        assert(self.pixels@ =~= partial_pixels(p0, pos, s, y as int, x as int + 1));
                        if partial_collision(p0, pos, s, y as int, x as int + 1)
                            != partial_collision(p0, pos, s, y as int, x as int) {
                            if partial_collision(p0, pos, s, y as int, x as int + 1) {
                                let (row, col) = choose|row: int, col: int|
                                    spec_lit_source(s, row, col) && processed_before(
                                        y as int,
                                        x as int + 1,
                                        row,
                                        col,
                                    ) && #[trigger] spec_target(pos, row, col) < p0.len()
                                        && p0[spec_target(pos, row, col)];
                                assert(!(row == y as int && col == x as int));
                                assert(processed_before(y as int, x as int, row, col));
                            }
                            assert(false);
                        }
                    }
                }
                x = x + 1;
            }
            proof {
                lemma_row_end(s, pos, y as int);
                assert(self.pixels@ =~= partial_pixels(p0, pos, s, y as int + 1, 0));
                if partial_collision(p0, pos, s, y as int, 8) != partial_collision(
                    p0,
                    pos,
                    s,
                    y as int + 1,
                    0,
                ) {
                    if partial_collision(p0, pos, s, y as int, 8) {
                        let (row, col) = choose|row: int, col: int|
                            spec_lit_source(s, row, col) && processed_before(y as int, 8, row, col)
                                && #[trigger] spec_target(pos, row, col) < p0.len() && p0[spec_target(
                                pos,
                                row,
                                col,
                            )];
                        assert(processed_before(y as int + 1, 0, row, col));
                    } else {
                        let (row, col) = choose|row: int, col: int|
                            spec_lit_source(s, row, col) && processed_before(
                                y as int + 1,
                                0,
                                row,
                                col,
                            ) && #[trigger] spec_target(pos, row, col) < p0.len() && p0[spec_target(
                                pos,
                                row,
                                col,
                            )];
                        assert(processed_before(y as int, 8, row, col));
                    }
                    assert(false);
                }
            }
            y = y + 1;
        }
        proof {
            lemma_row_end(s, pos, n as int);
            assert(self.pixels@ =~= spec_toggled_pixels(p0, pos, s));
            if collision != spec_collision(p0, pos, s) {
                if collision {
                    let (row, col) = choose|row: int, col: int|
                        spec_lit_source(s, row, col) && processed_before(n as int, 0, row, col)
                            && #[trigger] spec_target(pos, row, col) < p0.len() && p0[spec_target(
                            pos,
                            row,
                            col,
                        )];
                } else {
                    let (row, col) = choose|row: int, col: int|
                        spec_lit_source(s, row, col) && #[trigger] spec_target(pos, row, col)
                            < p0.len() && p0[spec_target(pos, row, col)];
                    assert(processed_before(n as int, 0, row, col));
                }
            }
        }
        collision
    }

    fn refresh(&mut self) {
        self.dirty = true;
    }
}

} // verus!
