//! The drawing engine: XOR sprite composition onto the 64x32 framebuffer,
//! with horizontal wraparound, vertical clipping, and collision detection.

use vstd::prelude::*;
use crate::machine::SCREEN_HEIGHT;

verus! {

/// A 64-bit word rotated right, bits falling off bit 0 reappearing at bit
/// 63. The rotation count is taken modulo 64.
pub open spec fn rot_right64(w: u64, n: u64) -> u64 {
    let s = n % 64;
    if s == 0 {
        w
    } else {
        (w >> s) | (w << ((64 - s) as u64))
    }
}

/// The 64-pixel row a sprite byte covers when drawn at column `x`: the byte
/// sits in the leftmost eight pixels, then the row rotates right by `x`, so
/// pixels pushed past the right edge reappear on the left.
pub open spec fn sprite_row(b: u8, x: u8) -> u64 {
    rot_right64((b as u64) << 56, x as u64)
}

/// The framebuffer after the sprite is XOR-drawn at (`x`, `y`): row `y + i`
/// takes sprite byte `i`, rows past the bottom edge are clipped.
pub open spec fn fb_after_draw(fb: Seq<u64>, sprite: Seq<u8>, x: u8, y: u8) -> Seq<u64> {
    Seq::new(SCREEN_HEIGHT as nat, |r: int| {
        if y <= r && r < y + sprite.len() {
            fb[r] ^ sprite_row(sprite[r - y], x)
        } else {
            fb[r]
        }
    })
}

/// Whether drawing the sprite at (`x`, `y`) targets a pixel that is already
/// on — the pixel the XOR will turn off.
pub open spec fn draw_collides(fb: Seq<u64>, sprite: Seq<u8>, x: u8, y: u8) -> bool {
    exists|i: int|
        0 <= i < sprite.len() && y + i < SCREEN_HEIGHT
            && fb[y + i] & sprite_row(#[trigger] sprite[i], x) != 0
}

/// The drawn row read pixel by pixel: sprite pixel `j` (leftmost first) of a
/// byte drawn at column `x` lands in framebuffer column `(x + j) mod 64`, so
/// the horizontal position is toroidal.
pub proof fn lemma_sprite_row_pixels(b: u8, x: u8, j: u8)
    requires
        j < 8,
    ensures
        ((sprite_row(b, x) >> ((63 - ((x as u64 + j as u64) % 64)) as u64)) & 1 == 1) <==> ((b
            >> ((7 - j) as u8)) & 1 == 1),
{
    assert(((sprite_row(b, x) >> ((63 - ((x as u64 + j as u64) % 64)) as u64)) & 1 == 1) <==> ((b
        >> ((7 - j) as u8)) & 1 == 1)) by (bit_vector)
        requires
            j < 8,
    ;
}

/// A 64-bit rotation right by `x % 64` positions.
fn rot_right(w: u64, x: u8) -> (r: u64)
    ensures
        r == rot_right64(w, x as u64),
{
    let s: u64 = (x as u64) % 64;
    if s == 0 {
        w
    } else {
        (w >> s) | (w << (64 - s))
    }
}

/// Draws the sprite held in `mem[lo .. lo + n]` at (`x`, `y`): each sprite
/// byte is XOR-composed onto its row with horizontal wraparound, rows past
/// the bottom edge are clipped, and the result reports whether any targeted
/// pixel was already on.
pub fn draw_sprite(fb: &mut Vec<u64>, mem: &Vec<u8>, lo: usize, n: usize, x: u8, y: u8) -> (hit:
    bool)
    requires
        old(fb)@.len() == SCREEN_HEIGHT,
        lo + n <= mem@.len(),
        n <= 16,
    ensures
        final(fb)@ == fb_after_draw(old(fb)@, mem@.subrange(lo as int, (lo + n) as int), x, y),
        hit == draw_collides(old(fb)@, mem@.subrange(lo as int, (lo + n) as int), x, y),
{
    let ghost sprite = mem@.subrange(lo as int, (lo + n) as int);
    let m_len: usize = mem.len();
    let mut hit = false;
    let mut i: usize = 0;
    while i < n && (y as usize) + i <= SCREEN_HEIGHT - 1
        invariant
            old(fb)@.len() == SCREEN_HEIGHT,
            lo + n <= m_len,
            m_len == mem@.len(),
            n <= 16,
            sprite == mem@.subrange(lo as int, (lo + n) as int),
            i <= n,
            fb@.len() == SCREEN_HEIGHT,
            forall|r: int| 0 <= r < SCREEN_HEIGHT ==> fb@[r] == (if y <= r && r < y + i {
                old(fb)@[r] ^ sprite_row(sprite[r - y], x)
            } else {
                old(fb)@[r]
            }),
            hit == exists|j: int|
                0 <= j < i && y + j < SCREEN_HEIGHT
                    && old(fb)@[y + j] & sprite_row(#[trigger] sprite[j], x) != 0,
        decreases n - i,
    {
        let row = rot_right((mem[lo + i] as u64) << 56, x);
        let yi = (y as usize) + i;
        let before = fb[yi];
        if before & row != 0 {
            hit = true;
            proof {
                assert(sprite[i as int] == mem@[(lo + i) as int]);
                assert(old(fb)@[yi as int] & sprite_row(sprite[i as int], x) != 0);
            }
        }
        fb[yi] = before ^ row;
        proof {
            assert(sprite[i as int] == mem@[(lo + i) as int]);
        }
        i += 1;
    }
    proof {
        // Rows at or beyond `i` are clipped: either the whole sprite was
        // drawn, or row `y + i` already lies past the bottom edge.
        assert(fb@ =~= fb_after_draw(old(fb)@, sprite, x, y));
        if hit {
            assert(draw_collides(old(fb)@, sprite, x, y));
        } else {
            assert forall|j: int|
                0 <= j < sprite.len() && y + j < SCREEN_HEIGHT implies old(fb)@[y + j]
                & sprite_row(#[trigger] sprite[j], x) == 0 by {
                assert(j < i);
            }
        }
    }
    hit
}

} // verus!
