//! A CHIP-8 interpreter core: memory with a built-in glyph font, a register
//! file with a bounded call stack, two wall-clock timers, a 64x32 monochrome
//! framebuffer with XOR sprite drawing, a 16-key keypad latch, and a decoder /
//! executor for the 2-byte instruction set. Everything that touches a screen,
//! a sound card or a keyboard lives outside; the core exchanges plain values
//! with those collaborators.

use vstd::prelude::*;

pub mod cpu;
pub mod decode;
pub mod draw;
pub mod font;
pub mod laws;
pub mod machine;

verus! {

/// A fatal interpreter condition. The machine state is left unchanged by the
/// operation that reports one, so a driver can read the program counter and
/// the offending bytes for its diagnostic before it terminates.
#[derive(Clone, Copy, Debug, PartialEq, Eq, Structural)]
pub enum VmError {
    /// A program image longer than the 3584 bytes that fit above the
    /// reserved low region.
    RomTooLarge,
    /// The program counter points at the last byte of memory, so no
    /// two-byte instruction can be fetched.
    PcOutOfBounds,
    /// The fetched byte pair matches no defined instruction.
    UnknownInstruction,
    /// A call was made with all sixteen stack slots in use.
    StackOverflow,
    /// A return was made with no call outstanding.
    StackUnderflow,
    /// A computed address range (sprite read, digit store, register block
    /// copy) reaches past the 4096-byte memory.
    MemoryOutOfBounds,
}

} // verus!
