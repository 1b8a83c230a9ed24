//! The CHIP-8 peripherals: the interfaces the execution core consumes
//! (keypad, graphics sink, countdown timers, randomness source), the value
//! types they exchange, and minimal stand-in implementations for headless
//! use.

use vstd::prelude::*;

verus! {

/// The set of keys that went from pressed to released since the last
/// keypad sample, one bit per key index.
#[derive(Clone, Debug, PartialEq, Eq, Structural)]
pub struct FallingEdges(pub u16);

/// The index of the lowest set bit of `v`, or 16 when no bit is set.
pub open spec fn spec_lowest_edge(v: u16) -> u16 {
    if v & (1u16 << 0u16) != 0 {
        0
    } else if v & (1u16 << 1u16) != 0 {
        1
    } else if v & (1u16 << 2u16) != 0 {
        2
    } else if v & (1u16 << 3u16) != 0 {
        3
    } else if v & (1u16 << 4u16) != 0 {
        4
    } else if v & (1u16 << 5u16) != 0 {
        5
    } else if v & (1u16 << 6u16) != 0 {
        6
    } else if v & (1u16 << 7u16) != 0 {
        7
    } else if v & (1u16 << 8u16) != 0 {
        8
    } else if v & (1u16 << 9u16) != 0 {
        9
    } else if v & (1u16 << 10u16) != 0 {
        10
    } else if v & (1u16 << 11u16) != 0 {
        11
    } else if v & (1u16 << 12u16) != 0 {
        12
    } else if v & (1u16 << 13u16) != 0 {
        13
    } else if v & (1u16 << 14u16) != 0 {
        14
    } else if v & (1u16 << 15u16) != 0 {
        15
    } else {
        16
    }
}

/// A nonzero edge set has its lowest set bit at an index below 16, and
/// clearing that bit removes exactly it.
proof fn lemma_lowest_edge_found(v: u16, i: u16)
    by (bit_vector)
    requires
        i < 16,
        (v as u32) & (((1u32 << (i as u32)) - 1) as u32) == 0,
        v & (1u16 << i) != 0,
    ensures
        spec_lowest_edge(v) == i,
{
}

/// Extending the prefix of clear bits by one more clear bit.
proof fn lemma_clear_prefix_step(v: u16, i: u16)
    by (bit_vector)
    requires
        i < 16,
        (v as u32) & (((1u32 << (i as u32)) - 1) as u32) == 0,
        v & (1u16 << i) == 0,
    ensures
        (v as u32) & (((1u32 << ((i + 1) as u32)) - 1) as u32) == 0,
{
}

/// A 16-bit value whose 16 low bits are all clear is zero.
proof fn lemma_clear_prefix_full(v: u16)
    by (bit_vector)
    requires
        (v as u32) & (((1u32 << 16u32) - 1) as u32) == 0,
    ensures
        v == 0,
{
}

impl FallingEdges {
    /// Pop the index of the next edge.
    ///
    /// Edges are always popped in ascending index order; popping removes
    /// exactly the returned bit, and an empty set stays empty.
    pub fn pop_next_idx(&mut self) -> (r: Option<u8>)
        ensures
            old(self).0 == 0 ==> r == None::<u8> && *final(self) == *old(self),
            old(self).0 != 0 ==> {
                let k = spec_lowest_edge(old(self).0);
                &&& r == Some(k as u8)
                &&& k < 16
                &&& old(self).0 & (1u16 << k) != 0
                &&& final(self).0 == old(self).0 ^ (1u16 << k)
            },
    {
        if self.0 == 0 {
            return None;  // Short circuit immediately if no edge is set
        }
        let ghost v = self.0;
        let mut i: u16 = 0;
        proof {
            assert((v as u32) & (((1u32 << 0u32) - 1) as u32) == 0) by (bit_vector);
        }
        while i < 16
            invariant
                i <= 16,
                self.0 == v,
                v == old(self).0,
                v != 0,
                (v as u32) & (((1u32 << (i as u32)) - 1) as u32) == 0,
            decreases 16 - i,
        {
            let bit: u16 = 1u16 << i;
            if self.0 & bit != 0 {
                proof {
                    lemma_lowest_edge_found(v, i);
                }
                self.0 = self.0 ^ bit;
                return Some(i as u8);
            }
            proof {
                lemma_clear_prefix_step(v, i);
            }
            i = i + 1;
        }
        proof {
            lemma_clear_prefix_full(v);
        }
        None
    }

    /// Add edges to self.
    pub fn push_edges(&mut self, edges: &FallingEdges)
        ensures
            final(self).0 == old(self).0 | edges.0,
    {
        self.0 = self.0 | edges.0;
    }
}

/// A snapshot of the keypad: bit `n` is set iff key `n` is currently held.
#[derive(Clone, Debug, PartialEq, Eq, Structural)]
pub struct Keys(pub u16);

/// Whether key `idx` is held in the snapshot mask; keys beyond 15 do not
/// exist and are never held.
pub open spec fn spec_key_pressed(mask: u16, idx: u8) -> bool {
    idx < 16 && mask & (1u16 << idx) != 0
}

impl Keys {
    /// Whether key `idx` is currently held.
    pub fn pressed(&self, idx: u8) -> (r: bool)
        ensures
            r == spec_key_pressed(self.0, idx),
    {
        if idx >= 16 {
            return false;
        }
        let bit: u16 = 1u16 << idx;
        self.0 & bit != 0
    }

    /// The keys that were held in `self` and are no longer held in `after`.
    pub fn falling_edges(&self, after: &Self) -> (r: FallingEdges)
        ensures
            r.0 == self.0 & !after.0,
    {
        FallingEdges(self.0 & !after.0)
    }

    /// Replace the snapshot by `after` and report the edges that fell, or
    /// `None` when no key was released.
    pub fn update(&mut self, after: &Self) -> (r: Option<FallingEdges>)
        ensures
            final(self).0 == after.0,
            ({
                let e = old(self).0 & !after.0;
                if e == 0 {
                    r == None::<FallingEdges>
                } else {
                    r == Some(FallingEdges(e))
                }
            }),
    {
        let edges = self.falling_edges(after);
        self.0 = after.0;

        if edges.0 == 0 {
            None
        } else {
            Some(edges)
        }
    }
}

/// The CHIP-8 key that a keyboard character maps to, on the conventional
/// 4x4 layout (`1234` / `QWER` / `ASDF` / `ZXCV`); anything else maps to
/// key 0.
pub open spec fn spec_char_key(c: char) -> u8 {
    if c == '1' {
        0x1
    } else if c == '2' {
        0x2
    } else if c == '3' {
        0x3
    } else if c == '4' {
        0xC
    } else if c == 'Q' {
        0x4
    } else if c == 'W' {
        0x5
    } else if c == 'E' {
        0x6
    } else if c == 'R' {
        0xD
    } else if c == 'A' {
        0x7
    } else if c == 'S' {
        0x8
    } else if c == 'D' {
        0x9
    } else if c == 'F' {
        0xE
    } else if c == 'Z' {
        0xA
    } else if c == 'X' {
        0x0
    } else if c == 'C' {
        0xB
    } else if c == 'V' {
        0xF
    } else {
        0x0
    }
}

/// The snapshot mask built from a sequence of held keyboard characters.
pub open spec fn spec_map_keys(held: Seq<char>) -> u16
    decreases held.len(),
{
    if held.len() == 0 {
        0u16
    } else {
        spec_map_keys(held.drop_last()) | (1u16 << spec_char_key(held.last()))
    }
}

/// Build a keypad snapshot from the keyboard characters currently held,
/// on the conventional 4x4 layout.
pub fn map_keys(held: &[char]) -> (r: Keys)
    ensures
        r.0 == spec_map_keys(held@),
{
    let mut final_value: u16 = 0;

    let mut k: usize = 0;
    while k < held.len()
        invariant
            k <= held@.len(),
            final_value == spec_map_keys(held@.take(k as int)),
        decreases held@.len() - k,
    {
        let c = held[k];
        let val: u8 = match c {
            '1' => 0x1,
            '2' => 0x2,
            '3' => 0x3,
            '4' => 0xC,
            'Q' => 0x4,
            'W' => 0x5,
            'E' => 0x6,
            'R' => 0xD,
            'A' => 0x7,
            'S' => 0x8,
            'D' => 0x9,
            'F' => 0xE,
            'Z' => 0xA,
            'X' => 0x0,
            'C' => 0xB,
            'V' => 0xF,
            _ => 0x0,
        };
        final_value = final_value | (1u16 << val);
        proof {
            assert(held@.take(k as int + 1).drop_last() =~= held@.take(k as int));
            assert(held@.take(k as int + 1).last() == held@[k as int]);
        }
        k = k + 1;
    }
    proof {
        assert(held@.take(held@.len() as int) =~= held@);
    }
    Keys(final_value)
}

/// The keypad capability: the core's driver samples held keys and consumes
/// the released-since-last-sample set through it.
pub trait Keypad: Sized {
    /// The snapshot a sample would return.
    spec fn spec_pressed_keys(&self) -> Keys;

    /// The edge set a consume would return, with the keypad state left
    /// behind it.
    spec fn spec_released(&self) -> (FallingEdges, Self);

    /// Sample the currently held keys.
    fn pressed_keys(&self) -> (keys: Keys)
        ensures
            keys == self.spec_pressed_keys(),
    ;

    /// Consume the set of keys released since the last sample.
    fn last_released_key(&mut self) -> (edges: FallingEdges)
        ensures
            ({
                let (e, k) = old(self).spec_released();
                edges == e && *final(self) == k
            }),
    ;
}

/// A keypad fed by an outside driver: it keeps the latest sample and the
/// one before it, so falling edges can be derived between two samples.
#[derive(Clone, Debug)]
pub struct CurrentKeys {
    prev: Keys,
    current: Keys,
}

impl CurrentKeys {
    /// A keypad that has seen no keys yet.
    pub fn new() -> (r: Self)
        ensures
            r.spec_prev() == Keys(0),
            r.spec_current() == Keys(0),
    {
        CurrentKeys { prev: Keys(0), current: Keys(0) }
    }

    /// The sample before the latest one.
    pub closed spec fn spec_prev(&self) -> Keys {
        self.prev
    }

    /// The latest sample.
    pub closed spec fn spec_current(&self) -> Keys {
        self.current
    }

    /// Record a fresh keypad sample; the previous one is kept for edge
    /// detection.
    pub fn sample(&mut self, keys: Keys)
        ensures
            final(self).spec_prev() == old(self).spec_current(),
            final(self).spec_current() == keys,
    {
        let cur = Keys(self.current.0);
        self.prev = cur;
        self.current = keys;
    }
}

impl Keypad for CurrentKeys {
    open spec fn spec_pressed_keys(&self) -> Keys {
        self.spec_current()
    }

    open spec fn spec_released(&self) -> (FallingEdges, Self) {
        (FallingEdges(self.spec_prev().0 & !self.spec_current().0), *self)
    }

    fn pressed_keys(&self) -> Keys {
        Keys(self.current.0)
    }

    fn last_released_key(&mut self) -> FallingEdges {
        self.prev.falling_edges(&self.current)
    }
}

/// A keypad with no keys: nothing is ever held or released.
#[derive(Clone, Debug)]
pub struct NullKeypad;

impl Keypad for NullKeypad {
    open spec fn spec_pressed_keys(&self) -> Keys {
        Keys(0)
    }

    open spec fn spec_released(&self) -> (FallingEdges, Self) {
        (FallingEdges(0), NullKeypad)
    }

    fn pressed_keys(&self) -> Keys {
        Keys(0)
    }

    fn last_released_key(&mut self) -> FallingEdges {
        FallingEdges(0)
    }
}

/// A screen position in pixels; the graphics sink wraps it modulo the
/// display size.
#[derive(Clone, Copy, Debug, PartialEq, Eq, Structural)]
pub struct Pos(pub u8, pub u8);

/// An immutable view of sprite rows: each byte is one 8-pixel-wide row.
#[derive(Clone, Copy, Debug)]
pub struct Sprite<'memory>(pub &'memory [u8]);

/// Whether bit `col` of sprite row `row` is lit, scanning each row
/// MSB-first.
pub open spec fn spec_sprite_bit(sprite: Seq<u8>, row: int, col: int) -> bool {
    (sprite[row] >> ((7 - col) as u8)) & 1 == 1
}

/// The row-major pixel index a sprite source `(row, col)` lands on when
/// drawn at `pos`, both coordinates wrapping modulo the display size.
pub open spec fn spec_target(pos: Pos, row: int, col: int) -> int {
    ((pos.1 as int + row) % 32) * 64 + ((pos.0 as int + col) % 64)
}

/// Whether `(row, col)` is a lit pixel of the sprite.
pub open spec fn spec_lit_source(sprite: Seq<u8>, row: int, col: int) -> bool {
    0 <= row < sprite.len() && 0 <= col < 8 && spec_sprite_bit(sprite, row, col)
}

/// Whether drawing `sprite` at `pos` toggles the pixel at index `idx`.
pub open spec fn spec_toggles(sprite: Seq<u8>, pos: Pos, idx: int) -> bool {
    exists|row: int, col: int|
        spec_lit_source(sprite, row, col) && #[trigger] spec_target(pos, row, col) == idx
}

/// The display contents after XOR-drawing `sprite` at `pos`: every pixel a
/// lit sprite bit lands on is toggled, all others are unchanged.
pub open spec fn spec_toggled_pixels(pixels: Seq<bool>, pos: Pos, sprite: Seq<u8>) -> Seq<bool> {
    Seq::new(pixels.len(), |idx: int| pixels[idx] != spec_toggles(sprite, pos, idx))
}

/// Whether XOR-drawing `sprite` at `pos` turns any lit pixel off: some lit
/// sprite bit lands on a pixel that is already lit.
pub open spec fn spec_collision(pixels: Seq<bool>, pos: Pos, sprite: Seq<u8>) -> bool {
    exists|row: int, col: int|
        spec_lit_source(sprite, row, col) && #[trigger] spec_target(pos, row, col)
            < pixels.len() && pixels[spec_target(pos, row, col)]
}

/// XOR-drawing the same sprite at the same position twice toggles every
/// touched pixel back: the display returns to exactly its previous
/// contents.
pub proof fn lemma_toggle_twice_restores(pixels: Seq<bool>, pos: Pos, sprite: Seq<u8>)
    ensures
        spec_toggled_pixels(spec_toggled_pixels(pixels, pos, sprite), pos, sprite) == pixels,
{
    assert(spec_toggled_pixels(spec_toggled_pixels(pixels, pos, sprite), pos, sprite)
        =~= pixels);
}

/// What a second identical draw collides on: exactly the lit sprite bits
/// whose pixel was unlit before the first draw, since the first draw lit
/// those pixels.
pub proof fn lemma_second_draw_collision(pixels: Seq<bool>, pos: Pos, sprite: Seq<u8>)
    ensures
        spec_collision(spec_toggled_pixels(pixels, pos, sprite), pos, sprite) == (exists|
            row: int,
            col: int,
        |
            spec_lit_source(sprite, row, col) && #[trigger] spec_target(pos, row, col)
                < pixels.len() && !pixels[spec_target(pos, row, col)]),
{
    let drawn = spec_toggled_pixels(pixels, pos, sprite);
    if spec_collision(drawn, pos, sprite) {
        let (row, col) = choose|row: int, col: int|
            spec_lit_source(sprite, row, col) && #[trigger] spec_target(pos, row, col)
                < drawn.len() && drawn[spec_target(pos, row, col)];
        assert(spec_toggles(sprite, pos, spec_target(pos, row, col)));
        assert(!pixels[spec_target(pos, row, col)]);
    }
    if exists|row: int, col: int|
        spec_lit_source(sprite, row, col) && #[trigger] spec_target(pos, row, col) < pixels.len()
            && !pixels[spec_target(pos, row, col)] {
        let (row, col) = choose|row: int, col: int|
            spec_lit_source(sprite, row, col) && #[trigger] spec_target(pos, row, col)
                < pixels.len() && !pixels[spec_target(pos, row, col)];
        assert(spec_toggles(sprite, pos, spec_target(pos, row, col)));
        assert(drawn[spec_target(pos, row, col)]);
        assert(spec_collision(drawn, pos, sprite));
    }
}

/// A second identical draw reports a collision whenever some lit sprite
/// bit landed on a pixel that was unlit before the first draw; on a
/// cleared display this is every lit bit of a non-empty sprite.
pub proof fn lemma_redraw_collides(pixels: Seq<bool>, pos: Pos, sprite: Seq<u8>, row: int, col: int)
    requires
        spec_lit_source(sprite, row, col),
        spec_target(pos, row, col) < pixels.len(),
        !pixels[spec_target(pos, row, col)],
    ensures
        spec_collision(spec_toggled_pixels(pixels, pos, sprite), pos, sprite),
{
    lemma_second_draw_collision(pixels, pos, sprite);
}

/// A draw whose lit bits all land on unlit pixels reports no collision;
/// in particular, drawing at a position whose target pixels are untouched
/// by earlier draws collides with nothing.
pub proof fn lemma_unlit_targets_no_collision(pixels: Seq<bool>, pos: Pos, sprite: Seq<u8>)
    requires
        forall|row: int, col: int|
            spec_lit_source(sprite, row, col) && #[trigger] spec_target(pos, row, col)
                < pixels.len() ==> !pixels[spec_target(pos, row, col)],
    ensures
        !spec_collision(pixels, pos, sprite),
{
}

/// The graphics sink capability: a 64x32 monochrome display drawn by
/// XOR-toggling sprites.
///
/// The contract is stated over [`Graphics::screen`], the sink's pixel
/// contents in row-major order; a sink that keeps no contents exposes an
/// empty screen and trivially meets every clause.
pub trait Graphics: Sized {
    /// The display contents in row-major order.
    spec fn screen(&self) -> Seq<bool>;

    /// Clear the display.
    fn clear(&mut self)
        ensures
            final(self).screen() == Seq::new(old(self).screen().len(), |i: int| false),
    ;

    /// XOR-draw `sprite` at `pos`, reporting whether any pixel was toggled
    /// from lit to unlit. A sprite holds at most 15 rows.
    fn toggle_sprite(&mut self, pos: Pos, sprite: Sprite<'_>) -> (collision: bool)
        requires
            sprite.0@.len() <= 15,
        ensures
            final(self).screen() == spec_toggled_pixels(old(self).screen(), pos, sprite.0@),
            collision == spec_collision(old(self).screen(), pos, sprite.0@),
    ;

    /// Ask the sink to present the current display contents; the contents
    /// themselves do not change.
    fn refresh(&mut self)
        ensures
            final(self).screen() == old(self).screen(),
    ;
}

/// A graphics sink that discards everything and never reports a collision.
#[derive(Clone, Debug)]
pub struct NullGraphics;

impl Graphics for NullGraphics {
    open spec fn screen(&self) -> Seq<bool> {
        Seq::empty()
    }

    fn clear(&mut self) {
        proof {
            assert(Seq::new(0, |i: int| false) =~= Seq::<bool>::empty());
        }
    }

    fn toggle_sprite(&mut self, _pos: Pos, _sprite: Sprite<'_>) -> bool {
        proof {
            assert(spec_toggled_pixels(Seq::empty(), _pos, _sprite.0@) =~= Seq::<bool>::empty());
            assert(!spec_collision(Seq::empty(), _pos, _sprite.0@)) by {
                assert(forall|row: int, col: int|
                    #[trigger] spec_target(_pos, row, col) >= Seq::<bool>::empty().len());
            }
        }
        false
    }

    fn refresh(&mut self) {
    }
}

/// The timer capability: an 8-bit countdown counter that decrements by one
/// per tick with wraparound, reporting the zero-to-max transition.
pub trait Timer: Sized {
    /// The current counter value.
    spec fn value(&self) -> u8;

    /// Decrement by one with wraparound; report whether the counter
    /// wrapped from zero to the maximum.
    fn tick(&mut self) -> (overflow: bool)
        ensures
            final(self).value() == (if old(self).value() == 0 {
                255u8
            } else {
                (old(self).value() - 1) as u8
            }),
            overflow == (old(self).value() == 0),
    ;

    /// Read the counter.
    fn get(&self) -> (val: u8)
        ensures
            val == self.value(),
    ;

    /// Set the counter.
    fn set(&mut self, val: u8)
        ensures
            final(self).value() == val,
    ;
}

/// A plain 8-bit countdown timer with a name for diagnostics.
#[derive(Clone, Debug)]
pub struct DownTimer<'name> {
    val: u8,
    name: &'name str,
}

impl<'name> DownTimer<'name> {
    /// A fresh timer holding zero.
    pub fn new(name: &'name str) -> (r: Self)
        ensures
            r.value() == 0,
    {
        Self { val: 0, name }
    }
}

impl Timer for DownTimer<'_> {
    closed spec fn value(&self) -> u8 {
        self.val
    }

    fn tick(&mut self) -> bool {
        let overflow = self.val == 0;
        self.val = self.val.wrapping_sub(1);

        overflow
    }

    fn get(&self) -> u8 {
        self.val
    }

    fn set(&mut self, val: u8) {
        self.val = val;
    }
}

/// The randomness capability: one uniformly distributed byte per call.
pub trait Random: Sized {
    /// The byte a call would produce, with the source state left behind
    /// it.
    spec fn spec_random(&self) -> (u8, Self);

    /// Produce one byte.
    fn random(&mut self) -> (byte: u8)
        ensures
            ({
                let (b, r) = old(self).spec_random();
                byte == b && *final(self) == r
            }),
    ;
}

/// A randomness source that always produces zero; for headless use.
#[derive(Clone, Debug)]
pub struct NullRandom;

impl Random for NullRandom {
    open spec fn spec_random(&self) -> (u8, Self) {
        (0u8, NullRandom)
    }

    fn random(&mut self) -> u8 {
        0
    }
}

} // verus!
