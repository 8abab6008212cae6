//! The built-in glyph font: one 5-byte sprite for each hexadecimal digit,
//! written into the reserved low region of memory before a program is loaded.

use vstd::prelude::*;
use crate::machine::{Chip8, Model, FONT_BYTES, MEMORY_SIZE};

verus! {

/// The 80 font bytes: sixteen glyphs of five rows each, digit 0 first. The
/// high nibble of each byte holds the four pixels of one glyph row.
pub open spec fn font_data() -> Seq<u8> {
    seq![
        0xf0u8, 0x90, 0x90, 0x90, 0xf0, // 0
        0x20, 0x60, 0x20, 0x20, 0x70, // 1
        0xf0, 0x10, 0xf0, 0x80, 0xf0, // 2
        0xf0, 0x10, 0xf0, 0x10, 0xf0, // 3
        0x90, 0x90, 0xf0, 0x10, 0x10, // 4
        0xf0, 0x80, 0xf0, 0x10, 0xf0, // 5
        0xf0, 0x80, 0xf0, 0x90, 0xf0, // 6
        0xf0, 0x10, 0x20, 0x40, 0x40, // 7
        0xf0, 0x90, 0xf0, 0x90, 0xf0, // 8
        0xf0, 0x90, 0xf0, 0x10, 0xf0, // 9
        0xf0, 0x90, 0xf0, 0x90, 0x90, // A
        0xe0, 0x90, 0xe0, 0x90, 0xe0, // B
        0xf0, 0x80, 0x80, 0x80, 0xf0, // C
        0xe0, 0x90, 0x90, 0x90, 0xe0, // D
        0xf0, 0x80, 0xf0, 0x80, 0xf0, // E
        0xf0, 0x80, 0xf0, 0x80, 0x80, // F
    ]
}

/// Memory with the font written over its reserved low region.
pub open spec fn with_font(mem: Seq<u8>) -> Seq<u8> {
    Seq::new(MEMORY_SIZE as nat, |a: int| {
        if 0 <= a < FONT_BYTES {
            font_data()[a]
        } else {
            mem[a]
        }
    })
}

/// The font bytes as a vector, for writing into memory.
fn font_bytes() -> (v: Vec<u8>)
    ensures
        v@ == font_data(),
{
    let mut v: Vec<u8> = Vec::new();
    v.push(0xf0); v.push(0x90); v.push(0x90); v.push(0x90); v.push(0xf0);
    v.push(0x20); v.push(0x60); v.push(0x20); v.push(0x20); v.push(0x70);
    v.push(0xf0); v.push(0x10); v.push(0xf0); v.push(0x80); v.push(0xf0);
    v.push(0xf0); v.push(0x10); v.push(0xf0); v.push(0x10); v.push(0xf0);
    v.push(0x90); v.push(0x90); v.push(0xf0); v.push(0x10); v.push(0x10);
    v.push(0xf0); v.push(0x80); v.push(0xf0); v.push(0x10); v.push(0xf0);
    v.push(0xf0); v.push(0x80); v.push(0xf0); v.push(0x90); v.push(0xf0);
    v.push(0xf0); v.push(0x10); v.push(0x20); v.push(0x40); v.push(0x40);
    v.push(0xf0); v.push(0x90); v.push(0xf0); v.push(0x90); v.push(0xf0);
    v.push(0xf0); v.push(0x90); v.push(0xf0); v.push(0x10); v.push(0xf0);
    v.push(0xf0); v.push(0x90); v.push(0xf0); v.push(0x90); v.push(0x90);
    v.push(0xe0); v.push(0x90); v.push(0xe0); v.push(0x90); v.push(0xe0);
    v.push(0xf0); v.push(0x80); v.push(0x80); v.push(0x80); v.push(0xf0);
    v.push(0xe0); v.push(0x90); v.push(0x90); v.push(0x90); v.push(0xe0);
    v.push(0xf0); v.push(0x80); v.push(0xf0); v.push(0x80); v.push(0xf0);
    v.push(0xf0); v.push(0x80); v.push(0xf0); v.push(0x80); v.push(0x80);
    proof {
        assert(v@ =~= font_data());
    }
    v
}

/// The address of the 5-byte glyph for a digit. Only the low nibble of the
/// argument names a digit; the rest is ignored.
pub fn get_char_address(digit: u8) -> (addr: u16)
    ensures
        addr == 5 * (digit & 15),
        addr < FONT_BYTES,
{
    proof {
        assert(digit & 15 < 16) by (bit_vector);
    }
    ((digit & 15) as u16) * 5
}

impl Chip8 {
    /// Writes the sixteen digit glyphs into the reserved low region. Nothing
    /// in this library writes that region afterwards: programs are loaded
    /// above it and every other memory write is bounds-checked against the
    /// index register, which a program controls.
    pub fn load_font(&mut self)
        requires
            old(self)@.wf(),
        ensures
            final(self)@.wf(),
            final(self)@ == (Model { mem: with_font(old(self)@.mem), ..old(self)@ }),
    {
        let f = font_bytes();
        let mut i: usize = 0;
        while i < FONT_BYTES
            invariant
                old(self)@.wf(),
                i <= FONT_BYTES,
                f@ == font_data(),
                self.mem@.len() == MEMORY_SIZE,
                forall|a: int| 0 <= a < i ==> self.mem@[a] == font_data()[a],
                forall|a: int| i <= a < MEMORY_SIZE ==> self.mem@[a] == old(self)@.mem[a],
                self.fb == old(self).fb,
                self.regs == old(self).regs,
                self.stack == old(self).stack,
                self.index == old(self).index,
                self.pc == old(self).pc,
                self.sp == old(self).sp,
                self.delay == old(self).delay,
                self.sound == old(self).sound,
                self.held == old(self).held,
                self.pressed == old(self).pressed,
                self.tone == old(self).tone,
                self.last_tick_ns == old(self).last_tick_ns,
            decreases FONT_BYTES - i,
        {
            self.mem[i] = f[i];
            i += 1;
        }
        proof {
            assert(self@.mem =~= with_font(old(self)@.mem));
            assert(self@ =~= (Model { mem: with_font(old(self)@.mem), ..old(self)@ }));
        }
    }
}

} // verus!
