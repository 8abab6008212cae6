//! Instruction decoding: a fetched byte pair is split into nibbles and mapped
//! to an explicit instruction variant carrying its extracted fields, so that
//! execution semantics can be stated independently of the bit layout.

use vstd::prelude::*;

verus! {

/// One decoded instruction. Each variant carries the operand fields its
/// handler reads: `x` and `y` name registers, `n` is a nibble literal, `nn` a
/// byte literal and `nnn` a 12-bit address.
#[derive(Clone, Copy, Debug, PartialEq, Eq, Structural)]
pub enum Instr {
    /// 00E0: clear the framebuffer.
    Cls,
    /// 00EE: return from the most recent call.
    Ret,
    /// 0NNN (any other NNN): legacy system call, a no-op.
    Sys,
    /// 1NNN: jump.
    Jump { nnn: u16 },
    /// 2NNN: call a subroutine.
    Call { nnn: u16 },
    /// 3XNN: skip the next instruction if Vx equals the literal.
    SkipEqImm { x: u8, nn: u8 },
    /// 4XNN: skip the next instruction if Vx differs from the literal.
    SkipNeImm { x: u8, nn: u8 },
    /// 5XY0: skip the next instruction if Vx equals Vy.
    SkipEqReg { x: u8, y: u8 },
    /// 6XNN: load the literal into Vx.
    LoadImm { x: u8, nn: u8 },
    /// 7XNN: add the literal to Vx with wraparound; VF reports the carry.
    AddImm { x: u8, nn: u8 },
    /// 8XY0: copy Vy into Vx.
    Assign { x: u8, y: u8 },
    /// 8XY1: Vx |= Vy.
    Or { x: u8, y: u8 },
    /// 8XY2: Vx &= Vy.
    And { x: u8, y: u8 },
    /// 8XY3: Vx ^= Vy.
    Xor { x: u8, y: u8 },
    /// 8XY4: Vx += Vy with wraparound; VF reports the carry.
    AddReg { x: u8, y: u8 },
    /// 8XY5: Vx -= Vy with wraparound; VF is 1 exactly when no borrow.
    SubReg { x: u8, y: u8 },
    /// 8XY6: shift Vx right by one; VF takes the bit shifted out.
    Shr { x: u8 },
    /// 8XY7: Vx = Vy - Vx with wraparound; VF is 1 exactly when no borrow.
    SubN { x: u8, y: u8 },
    /// 8XYE: shift Vx left by one; VF takes the bit shifted out.
    Shl { x: u8 },
    /// 9XY0: skip the next instruction if Vx differs from Vy.
    SkipNeReg { x: u8, y: u8 },
    /// ANNN: load the address into I.
    SetIndex { nnn: u16 },
    /// BNNN: jump to the address plus V0.
    JumpV0 { nnn: u16 },
    /// CXNN: Vx = random byte AND the literal.
    Rand { x: u8, nn: u8 },
    /// DXYN: draw the n-byte sprite at memory I at position (Vx, Vy).
    Draw { x: u8, y: u8, n: u8 },
    /// EX9E: skip the next instruction if the key named by Vx is held.
    SkipKey { x: u8 },
    /// EXA1: skip the next instruction if the key named by Vx is not held.
    SkipNoKey { x: u8 },
    /// FX07: read the delay timer into Vx.
    ReadDelay { x: u8 },
    /// FX0A: block until a key is newly pressed; Vx takes the lowest one.
    WaitKey { x: u8 },
    /// FX15: load Vx into the delay timer.
    SetDelay { x: u8 },
    /// FX18: load Vx into the sound timer; a nonzero value opens the tone gate.
    SetSound { x: u8 },
    /// FX1E: add Vx to I, masked to 12 bits; VF reports the wrap.
    AddIndex { x: u8 },
    /// FX29: point I at the font glyph for the digit in Vx.
    FontAddr { x: u8 },
    /// FX33: store the decimal digits of Vx at I, I+1, I+2.
    Bcd { x: u8 },
    /// FX55: copy V0..=Vx into memory at I.
    StoreRegs { x: u8 },
    /// FX65: copy memory at I into V0..=Vx.
    LoadRegs { x: u8 },
}

impl Instr {
    /// Bounds that hold of every decoded instruction: register names and
    /// nibble literals fit in four bits, addresses in twelve.
    pub open spec fn wf(self) -> bool {
        match self {
            Instr::Cls | Instr::Ret | Instr::Sys => true,
            Instr::Jump { nnn } | Instr::Call { nnn } | Instr::SetIndex { nnn }
                | Instr::JumpV0 { nnn } => nnn < 4096,
            Instr::SkipEqImm { x, nn } | Instr::SkipNeImm { x, nn } | Instr::LoadImm { x, nn }
                | Instr::AddImm { x, nn } | Instr::Rand { x, nn } => x < 16,
            Instr::SkipEqReg { x, y } | Instr::SkipNeReg { x, y } | Instr::Assign { x, y }
                | Instr::Or { x, y } | Instr::And { x, y } | Instr::Xor { x, y }
                | Instr::AddReg { x, y } | Instr::SubReg { x, y } | Instr::SubN { x, y }
                => x < 16 && y < 16,
            Instr::Shr { x } | Instr::Shl { x } | Instr::SkipKey { x } | Instr::SkipNoKey { x }
                | Instr::ReadDelay { x } | Instr::WaitKey { x } | Instr::SetDelay { x }
                | Instr::SetSound { x } | Instr::AddIndex { x } | Instr::FontAddr { x }
                | Instr::Bcd { x } | Instr::StoreRegs { x } | Instr::LoadRegs { x } => x < 16,
            Instr::Draw { x, y, n } => x < 16 && y < 16 && n < 16,
        }
    }
}

/// The instruction named by a fetched byte pair, or `None` for a byte pair
/// with no defined handler. The high nibble of the first byte selects the
/// class; the remaining nibbles are operand fields.
pub open spec fn spec_decode(b0: u8, b1: u8) -> Option<Instr> {
    let op = b0 >> 4;
    let x = b0 & 15;
    let y = b1 >> 4;
    let n = b1 & 15;
    let nnn = ((x as u16) << 8) | (b1 as u16);
    if op == 0x0 {
        if b1 == 0xe0 {
            Some(Instr::Cls)
        } else if b1 == 0xee {
            Some(Instr::Ret)
        } else {
            Some(Instr::Sys)
        }
    } else if op == 0x1 {
        Some(Instr::Jump { nnn })
    } else if op == 0x2 {
        Some(Instr::Call { nnn })
    } else if op == 0x3 {
        Some(Instr::SkipEqImm { x, nn: b1 })
    } else if op == 0x4 {
        Some(Instr::SkipNeImm { x, nn: b1 })
    } else if op == 0x5 {
        Some(Instr::SkipEqReg { x, y })
    } else if op == 0x6 {
        Some(Instr::LoadImm { x, nn: b1 })
    } else if op == 0x7 {
        Some(Instr::AddImm { x, nn: b1 })
    } else if op == 0x8 {
        if n == 0x0 {
            Some(Instr::Assign { x, y })
        } else if n == 0x1 {
            Some(Instr::Or { x, y })
        } else if n == 0x2 {
            Some(Instr::And { x, y })
        } else if n == 0x3 {
            Some(Instr::Xor { x, y })
        } else if n == 0x4 {
            Some(Instr::AddReg { x, y })
        } else if n == 0x5 {
            Some(Instr::SubReg { x, y })
        } else if n == 0x6 {
            Some(Instr::Shr { x })
        } else if n == 0x7 {
            Some(Instr::SubN { x, y })
        } else if n == 0xe {
            Some(Instr::Shl { x })
        } else {
            None
        }
    } else if op == 0x9 {
        Some(Instr::SkipNeReg { x, y })
    } else if op == 0xa {
        Some(Instr::SetIndex { nnn })
    } else if op == 0xb {
        Some(Instr::JumpV0 { nnn })
    } else if op == 0xc {
        Some(Instr::Rand { x, nn: b1 })
    } else if op == 0xd {
        Some(Instr::Draw { x, y, n })
    } else if op == 0xe {
        if b1 == 0x9e {
            Some(Instr::SkipKey { x })
        } else if b1 == 0xa1 {
            Some(Instr::SkipNoKey { x })
        } else {
            None
        }
    } else {
        if b1 == 0x07 {
            Some(Instr::ReadDelay { x })
        } else if b1 == 0x0a {
            Some(Instr::WaitKey { x })
        } else if b1 == 0x15 {
            Some(Instr::SetDelay { x })
        } else if b1 == 0x18 {
            Some(Instr::SetSound { x })
        } else if b1 == 0x1e {
            Some(Instr::AddIndex { x })
        } else if b1 == 0x29 {
            Some(Instr::FontAddr { x })
        } else if b1 == 0x33 {
            Some(Instr::Bcd { x })
        } else if b1 == 0x55 {
            Some(Instr::StoreRegs { x })
        } else if b1 == 0x65 {
            Some(Instr::LoadRegs { x })
        } else {
            None
        }
    }
}

/// Every decoded instruction satisfies the field bounds.
pub proof fn lemma_decode_wf(b0: u8, b1: u8)
    ensures
        spec_decode(b0, b1) matches Some(i) ==> i.wf(),
{
    assert(b0 >> 4 < 16 && b0 & 15 < 16 && b1 >> 4 < 16 && b1 & 15 < 16) by (bit_vector);
    assert((((b0 & 15) as u16) << 8) | (b1 as u16) < 4096) by (bit_vector);
}

/// Splits a byte into its high and low nibbles.
pub fn split_nibbles(byte: u8) -> (r: (u8, u8))
    ensures
        r.0 == byte >> 4,
        r.1 == byte & 15,
        r.0 < 16,
        r.1 < 16,
{
    proof {
        assert(byte >> 4 < 16 && byte & 15 < 16) by (bit_vector);
    }
    (byte >> 4, byte & 15)
}

/// Decodes a fetched byte pair, reporting an undefined one as `None`.
pub fn decode(b0: u8, b1: u8) -> (r: Option<Instr>)
    ensures
        r == spec_decode(b0, b1),
        r matches Some(i) ==> i.wf(),
{
    proof {
        lemma_decode_wf(b0, b1);
    }
    let (op, x) = split_nibbles(b0);
    let (y, n) = split_nibbles(b1);
    let nnn = ((x as u16) << 8) | (b1 as u16);
    match op {
        0x0 => {
            if b1 == 0xe0 {
                Some(Instr::Cls)
            } else if b1 == 0xee {
                Some(Instr::Ret)
            } else {
                Some(Instr::Sys)
            }
        },
        0x1 => Some(Instr::Jump { nnn }),
        0x2 => Some(Instr::Call { nnn }),
        0x3 => Some(Instr::SkipEqImm { x, nn: b1 }),
        0x4 => Some(Instr::SkipNeImm { x, nn: b1 }),
        0x5 => Some(Instr::SkipEqReg { x, y }),
        0x6 => Some(Instr::LoadImm { x, nn: b1 }),
        0x7 => Some(Instr::AddImm { x, nn: b1 }),
        0x8 => {
            match n {
                0x0 => Some(Instr::Assign { x, y }),
                0x1 => Some(Instr::Or { x, y }),
                0x2 => Some(Instr::And { x, y }),
                0x3 => Some(Instr::Xor { x, y }),
                0x4 => Some(Instr::AddReg { x, y }),
                0x5 => Some(Instr::SubReg { x, y }),
                0x6 => Some(Instr::Shr { x }),
                0x7 => Some(Instr::SubN { x, y }),
                0xe => Some(Instr::Shl { x }),
                _ => None,
            }
        },
        0x9 => Some(Instr::SkipNeReg { x, y }),
        0xa => Some(Instr::SetIndex { nnn }),
        0xb => Some(Instr::JumpV0 { nnn }),
        0xc => Some(Instr::Rand { x, nn: b1 }),
        0xd => Some(Instr::Draw { x, y, n }),
        0xe => {
            if b1 == 0x9e {
                Some(Instr::SkipKey { x })
            } else if b1 == 0xa1 {
                Some(Instr::SkipNoKey { x })
            } else {
                None
            }
        },
        _ => {
            match b1 {
                0x07 => Some(Instr::ReadDelay { x }),
                0x0a => Some(Instr::WaitKey { x }),
                0x15 => Some(Instr::SetDelay { x }),
                0x18 => Some(Instr::SetSound { x }),
                0x1e => Some(Instr::AddIndex { x }),
                0x29 => Some(Instr::FontAddr { x }),
                0x33 => Some(Instr::Bcd { x }),
                0x55 => Some(Instr::StoreRegs { x }),
                0x65 => Some(Instr::LoadRegs { x }),
                _ => None,
            }
        },
    }
}

} // verus!
