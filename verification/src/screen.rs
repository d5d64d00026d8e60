//! The framebuffer as a mathematical object: which pixels a sprite covers,
//! what drawing it leaves behind, and when drawing it reports a collision.

use vstd::prelude::*;
use crate::state::{MEMORY_SIZE, SCREEN_CELLS, SCREEN_HEIGHT, SCREEN_WIDTH};

verus! {

/// Number of pixels in a sprite row.
pub const SPRITE_WIDTH: usize = 8;

/// Whether the pixel in column `col` of a sprite row is set. Column 0 is the
/// most significant bit.
pub open spec fn sprite_bit(row: u8, col: u8) -> bool {
    row & (0x80u8 >> col) != 0
}

/// Whether the sprite's pixel in row `row`, column `col` is set and, with
/// the sprite's top-left corner at `(left, top)`, is drawn at screen
/// position `(x, y)`: at column `(left + col) mod 64` of row
/// `(top + row) mod 32`.
pub open spec fn sprite_pixel_lands(
    sprite: Seq<u8>,
    left: int,
    top: int,
    row: int,
    col: int,
    x: int,
    y: int,
) -> bool {
    &&& 0 <= row < sprite.len()
    &&& 0 <= col < SPRITE_WIDTH
    &&& sprite_bit(sprite[row], col as u8)
    &&& (left + col) % (SCREEN_WIDTH as int) == x
    &&& (top + row) % (SCREEN_HEIGHT as int) == y
}

/// Whether a sprite whose top-left corner is at `(left, top)` has a set
/// pixel on screen position `(x, y)`, coordinates wrapping at both edges.
///
/// A sprite is narrower and shorter than the screen, so at most one of its
/// cells lands on a given position: the one in column `(x - left) mod 64`
/// and row `(y - top) mod 32`.
pub open spec fn sprite_covers(sprite: Seq<u8>, left: int, top: int, x: int, y: int) -> bool {
    let col = (x - left) % (SCREEN_WIDTH as int);
    let row = (y - top) % (SCREEN_HEIGHT as int);
    &&& col < SPRITE_WIDTH
    &&& row < sprite.len()
    &&& sprite_bit(sprite[row], col as u8)
}

/// Whether the sprite has a set pixel on framebuffer position `p`.
pub open spec fn sprite_hits(sprite: Seq<u8>, left: int, top: int, p: int) -> bool {
    sprite_covers(sprite, left, top, p % (SCREEN_WIDTH as int), p / (SCREEN_WIDTH as int))
}

/// The framebuffer after the sprite has been XORed into `screen`.
pub open spec fn drawn(screen: Seq<bool>, sprite: Seq<u8>, left: int, top: int) -> Seq<bool> {
    Seq::new(SCREEN_CELLS as nat, |p: int| screen[p] != sprite_hits(sprite, left, top, p))
}

/// Whether drawing the sprite unsets a pixel that was set.
pub open spec fn collides(screen: Seq<bool>, sprite: Seq<u8>, left: int, top: int) -> bool {
    exists|p: int|
        0 <= p < SCREEN_CELLS && #[trigger] screen[p] && sprite_hits(sprite, left, top, p)
}

/// Whether a sprite row whose leftmost pixel is at column `left` of screen
/// row `y` has, among its first `width` pixels, a set one on position `p`.
spec fn row_hits(bits: u8, left: int, y: int, width: int, p: int) -> bool {
    let col = (p % (SCREEN_WIDTH as int) - left) % (SCREEN_WIDTH as int);
    &&& p / (SCREEN_WIDTH as int) == y
    &&& col < width
    &&& sprite_bit(bits, col as u8)
}

/// Whether the first `width` pixels of such a sprite row unset a pixel of
/// `screen` that is set.
spec fn row_collides(screen: Seq<bool>, bits: u8, left: int, y: int, width: int) -> bool {
    exists|p: int|
        0 <= p < SCREEN_CELLS && #[trigger] screen[p] && row_hits(bits, left, y, width, p)
}

/// XORs the eight pixels of one sprite row into screen row `y`, starting at
/// column `left` and wrapping at the right edge. Reports whether a pixel
/// went from set to unset.
fn draw_row(screen: &mut [bool; SCREEN_CELLS], bits: u8, left: u8, y: usize) -> (hit: bool)
    requires
        y < SCREEN_HEIGHT,
    ensures
        forall|p: int|
            0 <= p < SCREEN_CELLS ==> final(screen)[p] == (old(screen)[p] != row_hits(
                bits,
                left as int,
                y as int,
                SPRITE_WIDTH as int,
                p,
            )),
        hit == row_collides(old(screen)@, bits, left as int, y as int, SPRITE_WIDTH as int),
    no_unwind
{
    let ghost before = screen@;
    let ghost l = left as int;
    let ghost r = y as int;
    let mut hit = false;
    let mut col: u8 = 0;
    while col < 8
        invariant
            col <= 8,
            y < SCREEN_HEIGHT,
            before == old(screen)@,
            l == left,
            r == y,
            forall|p: int|
                0 <= p < SCREEN_CELLS ==> screen[p] == (before[p] != row_hits(
                    bits,
                    l,
                    r,
                    col as int,
                    p,
                )),
            hit == row_collides(before, bits, l, r, col as int),
        decreases 8 - col,
    {
        let target = (left as usize + col as usize) % SCREEN_WIDTH + y * SCREEN_WIDTH;
        let ghost here = target as int;
        let ghost lit = sprite_bit(bits, col);
        let ghost hit_so_far = hit;
        // No earlier pixel of the row landed on `target`.
        assert(!row_hits(bits, l, r, col as int, here));
        if bits & (0x80u8 >> col) != 0 {
            if screen[target] {
                hit = true;
            }
            screen[target] = !screen[target];
        }
        proof {
            // A collision so far is still one, and a new one is at `target`.
            if hit_so_far {
                let p = choose|p: int|
                    0 <= p < SCREEN_CELLS && #[trigger] before[p] && row_hits(
                        bits,
                        l,
                        r,
                        col as int,
                        p,
                    );
                assert(row_hits(bits, l, r, col + 1, p));
            }
            if lit && before[here] {
                assert(row_hits(bits, l, r, col + 1, here));
            }
            // Conversely, a collision is either an earlier one or at `target`.
            if row_collides(before, bits, l, r, col + 1) {
                let p = choose|p: int|
                    0 <= p < SCREEN_CELLS && #[trigger] before[p] && row_hits(
                        bits,
                        l,
                        r,
                        col + 1,
                        p,
                    );
                assert(row_hits(bits, l, r, col as int, p) || (p == here && lit));
            }
        }
        col += 1;
    }
    hit
}

/// XORs the `height`-row sprite stored at `memory[start..]` into the
/// framebuffer with its top-left corner at `(left, top)`, wrapping at the
/// right and bottom edges. Reports whether a pixel went from set to unset.
pub(crate) fn draw_sprite(
    screen: &mut [bool; SCREEN_CELLS],
    memory: &[u8; MEMORY_SIZE],
    start: usize,
    height: u8,
    left: u8,
    top: u8,
) -> (hit: bool)
    requires
        start + height <= MEMORY_SIZE,
        height <= SCREEN_HEIGHT,
    ensures
        final(screen)@ == drawn(
            old(screen)@,
            memory@.subrange(start as int, start + height),
            left as int,
            top as int,
        ),
        hit == collides(
            old(screen)@,
            memory@.subrange(start as int, start + height),
            left as int,
            top as int,
        ),
    no_unwind
{
    let ghost before = screen@;
    let ghost sprite = memory@.subrange(start as int, start + height);
    let ghost l = left as int;
    let ghost t = top as int;
    let mut hit = false;
    let mut row: u8 = 0;
    while row < height
        invariant
            row <= height,
            start + height <= MEMORY_SIZE,
            height <= SCREEN_HEIGHT,
            before == old(screen)@,
            sprite == memory@.subrange(start as int, start + height),
            l == left,
            t == top,
            screen@ == drawn(before, sprite.take(row as int), l, t),
            hit == collides(before, sprite.take(row as int), l, t),
        decreases height - row,
    {
        let bits = memory[start + row as usize];
        let y = (top as usize + row as usize) % SCREEN_HEIGHT;
        let ghost shown = screen@;
        let ghost done = sprite.take(row as int);
        let ghost next = sprite.take(row + 1);
        let row_hit = draw_row(screen, bits, left, y);
        proof {
            let r = y as int;
            let w = SPRITE_WIDTH as int;
            // The rows drawn so far and the new row land on different
            // screen rows, and together they are the sprite one row longer.
            assert forall|p: int| 0 <= p < SCREEN_CELLS implies {
                &&& sprite_hits(next, l, t, p) == (sprite_hits(done, l, t, p) || row_hits(
                    bits,
                    l,
                    r,
                    w,
                    p,
                ))
                &&& !(sprite_hits(done, l, t, p) && row_hits(bits, l, r, w, p))
            } by {}
            // So a pixel that the longer sprite unsets is one that the
            // rows so far unset, or one that the new row found still set.
            if hit {
                let p = choose|p: int|
                    0 <= p < SCREEN_CELLS && #[trigger] before[p] && sprite_hits(done, l, t, p);
                assert(sprite_hits(next, l, t, p));
            }
            if row_hit {
                let p = choose|p: int|
                    0 <= p < SCREEN_CELLS && #[trigger] shown[p] && row_hits(bits, l, r, w, p);
                assert(before[p] && sprite_hits(next, l, t, p));
            }
            if collides(before, next, l, t) {
                let p = choose|p: int|
                    0 <= p < SCREEN_CELLS && #[trigger] before[p] && sprite_hits(next, l, t, p);
                assert(sprite_hits(done, l, t, p) || (shown[p] && row_hits(bits, l, r, w, p)));
            }
        }
        hit = hit || row_hit;
        row += 1;
    }
    hit
}

} // verus!
