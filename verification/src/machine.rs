//! The interpreter context: memory, register file, call stack, timers,
//! framebuffer, keypad latch and tone gate, together with its mathematical
//! model and the operations that do not involve instruction dispatch.

use vstd::prelude::*;
use crate::VmError;

verus! {

/// Bytes of addressable memory.
pub const MEMORY_SIZE: usize = 4096;
/// Lowest address of the program region.
pub const PROGRAM_OFFSET: usize = 0x200;
/// Largest program image that fits above the reserved low region.
pub const PROGRAM_MAX_SIZE: usize = 4096 - 0x200;
/// Framebuffer rows.
pub const SCREEN_HEIGHT: usize = 32;
/// Framebuffer columns; one row is one 64-bit word.
pub const SCREEN_WIDTH: usize = 64;
/// Call stack slots.
pub const STACK_DEPTH: usize = 16;
/// Bytes of the built-in font: sixteen glyphs of five bytes each.
pub const FONT_BYTES: usize = 80;
/// Nanoseconds between timer decrements: one sixtieth of a second, rounded
/// down to whole nanoseconds.
pub const TICK_INTERVAL_NS: u64 = 1_000_000_000 / 60;

/// The mathematical value of a machine: every interpreter operation is
/// specified as a function over this.
#[verifier::ext_equal]
pub ghost struct Model {
    /// The 4096 memory bytes.
    pub mem: Seq<u8>,
    /// 32 rows of 64 pixels; bit 63 of a row is the leftmost pixel.
    pub fb: Seq<u64>,
    /// V0 through VF.
    pub regs: Seq<u8>,
    /// The 16 call stack slots; only the first `sp` hold live return data.
    pub stack: Seq<u16>,
    /// The index register I.
    pub index: u16,
    /// The program counter.
    pub pc: u16,
    /// The stack pointer: number of live stack slots.
    pub sp: usize,
    /// The delay timer.
    pub delay: u8,
    /// The sound timer.
    pub sound: u8,
    /// Bit k set: key k is currently held.
    pub held: u16,
    /// Bit k set: key k was newly pressed in the current cycle.
    pub pressed: u16,
    /// The tone gate handed to the audio collaborator.
    pub tone: bool,
    /// Monotonic timestamp, in nanoseconds, of the last timer decrement.
    pub last_tick_ns: u64,
}

impl Model {
    /// Structural well-formedness: fixed sizes, the stack pointer within the
    /// stack, and the two 12-bit address registers inside memory.
    pub open spec fn wf(self) -> bool {
        &&& self.mem.len() == MEMORY_SIZE
        &&& self.fb.len() == SCREEN_HEIGHT
        &&& self.regs.len() == 16
        &&& self.stack.len() == STACK_DEPTH
        &&& self.sp <= STACK_DEPTH
        &&& self.index < MEMORY_SIZE
        &&& self.pc < MEMORY_SIZE
    }

    /// The machine as it powers up: everything zero, the program counter at
    /// the start of the program region.
    pub open spec fn init() -> Model {
        Model {
            mem: Seq::new(MEMORY_SIZE as nat, |i: int| 0u8),
            fb: Seq::new(SCREEN_HEIGHT as nat, |i: int| 0u64),
            regs: Seq::new(16, |i: int| 0u8),
            stack: Seq::new(STACK_DEPTH as nat, |i: int| 0u16),
            index: 0,
            pc: 0x200,
            sp: 0,
            delay: 0,
            sound: 0,
            held: 0,
            pressed: 0,
            tone: false,
            last_tick_ns: 0,
        }
    }
}

/// Memory after a program image is copied into the program region.
pub open spec fn with_program(mem: Seq<u8>, rom: Seq<u8>) -> Seq<u8> {
    Seq::new(MEMORY_SIZE as nat, |a: int| {
        if PROGRAM_OFFSET <= a < PROGRAM_OFFSET + rom.len() {
            rom[a - PROGRAM_OFFSET]
        } else {
            mem[a]
        }
    })
}

/// Whether a timer decrement is due at `now`.
pub open spec fn tick_fires(m: Model, now: u64) -> bool {
    now - m.last_tick_ns >= TICK_INTERVAL_NS
}

/// A byte counter stepped toward zero, never below it.
pub open spec fn dec_to_zero(t: u8) -> u8 {
    if t == 0 { 0u8 } else { (t - 1) as u8 }
}

/// The machine after one timer poll at `now`: if a sixtieth of a second has
/// passed since the last decrement, both timers drop by one (stopping at
/// zero) and the tone gate closes exactly when the sound timer reaches zero
/// by this decrement; otherwise nothing changes.
pub open spec fn tick_model(m: Model, now: u64) -> Model {
    if tick_fires(m, now) {
        Model {
            delay: dec_to_zero(m.delay),
            sound: dec_to_zero(m.sound),
            tone: if m.sound == 1 { false } else { m.tone },
            last_tick_ns: now,
            ..m
        }
    } else {
        m
    }
}

/// The keypad latch after one per-cycle edge report.
pub open spec fn edges_applied(m: Model, pressed: u16, released: u16) -> Model {
    Model { held: (m.held | pressed) & !released, pressed: pressed, ..m }
}

/// A vector of `n` copies of `value`.
pub(crate) fn filled_vec<T: Copy>(n: usize, value: T) -> (v: Vec<T>)
    ensures
        v@ == Seq::new(n as nat, |i: int| value),
{
    let mut v: Vec<T> = Vec::new();
    while v.len() < n
        invariant
            v@.len() <= n,
            forall|i: int| 0 <= i < v@.len() ==> v@[i] == value,
        decreases n - v@.len(),
    {
        v.push(value);
    }
    proof {
        assert(v@ =~= Seq::new(n as nat, |i: int| value));
    }
    v
}

/// One CHIP-8 machine. All mutable interpreter state lives here and is
/// changed only through the operations of this library; the driving loop
/// reads the framebuffer rows and the tone gate directly.
pub struct Chip8 {
    /// The 4096 memory bytes.
    pub mem: Vec<u8>,
    /// 32 framebuffer rows; bit 63 is the leftmost pixel of a row.
    pub fb: Vec<u64>,
    /// V0 through VF.
    pub regs: Vec<u8>,
    /// The 16 call stack slots.
    pub stack: Vec<u16>,
    /// The index register I.
    pub index: u16,
    /// The program counter.
    pub pc: u16,
    /// The stack pointer.
    pub sp: usize,
    /// The delay timer.
    pub delay: u8,
    /// The sound timer.
    pub sound: u8,
    /// Bit k set: key k is currently held.
    pub held: u16,
    /// Bit k set: key k was newly pressed this cycle.
    pub pressed: u16,
    /// The tone gate: true while the audio collaborator should play.
    pub tone: bool,
    /// Timestamp of the last timer decrement, in nanoseconds.
    pub last_tick_ns: u64,
}

impl View for Chip8 {
    type V = Model;

    open spec fn view(&self) -> Model {
        Model {
            mem: self.mem@,
            fb: self.fb@,
            regs: self.regs@,
            stack: self.stack@,
            index: self.index,
            pc: self.pc,
            sp: self.sp,
            delay: self.delay,
            sound: self.sound,
            held: self.held,
            pressed: self.pressed,
            tone: self.tone,
            last_tick_ns: self.last_tick_ns,
        }
    }
}

impl Chip8 {
    /// A machine in its power-up state.
    pub fn new() -> (m: Chip8)
        ensures
            m@ == Model::init(),
            m@.wf(),
    {
        let m = Chip8 {
            mem: filled_vec(MEMORY_SIZE, 0u8),
            fb: filled_vec(SCREEN_HEIGHT, 0u64),
            regs: filled_vec(16, 0u8),
            stack: filled_vec(STACK_DEPTH, 0u16),
            index: 0,
            pc: 0x200,
            sp: 0,
            delay: 0,
            sound: 0,
            held: 0,
            pressed: 0,
            tone: false,
            last_tick_ns: 0,
        };
        proof {
            assert(m@ =~= Model::init());
        }
        m
    }

    /// Copies a program image into the program region. An image longer than
    /// the 3584 bytes that fit there is rejected whole, before anything is
    /// written; an accepted one reports its length.
    pub fn load_program(&mut self, rom: &Vec<u8>) -> (r: Result<usize, VmError>)
        requires
            old(self)@.wf(),
        ensures
            final(self)@.wf(),
            rom@.len() > PROGRAM_MAX_SIZE ==> r == Err::<usize, VmError>(VmError::RomTooLarge)
                && final(self)@ == old(self)@,
            rom@.len() <= PROGRAM_MAX_SIZE ==> r == Ok::<usize, VmError>(rom@.len() as usize)
                && final(self)@ == (Model { mem: with_program(old(self)@.mem, rom@), ..old(self)@ }),
    {
        if rom.len() > PROGRAM_MAX_SIZE {
            return Err(VmError::RomTooLarge);
        }
        let n = rom.len();
        let mut i: usize = 0;
        while i < n
            invariant
                old(self)@.wf(),
                i <= n,
                n == rom@.len(),
                n <= PROGRAM_MAX_SIZE,
                self.mem@.len() == MEMORY_SIZE,
                forall|a: int| 0 <= a < MEMORY_SIZE && !(PROGRAM_OFFSET <= a < PROGRAM_OFFSET + i)
                    ==> self.mem@[a] == old(self)@.mem[a],
                forall|a: int| PROGRAM_OFFSET <= a < PROGRAM_OFFSET + i
                    ==> self.mem@[a] == rom@[a - PROGRAM_OFFSET],
                self.fb == old(self).fb,
                self.regs == old(self).regs,
                self.stack == old(self).stack,
                self.index == old(self).index,
                self.pc == old(self).pc,
                self.sp == old(self).sp,
                self.delay == old(self).delay,
                self.sound == old(self).sound,
                self.held == old(self).held,
                self.pressed == old(self).pressed,
                self.tone == old(self).tone,
                self.last_tick_ns == old(self).last_tick_ns,
            decreases n - i,
        {
            self.mem[PROGRAM_OFFSET + i] = rom[i];
            i += 1;
        }
        proof {
            assert(self@.mem =~= with_program(old(self)@.mem, rom@));
            assert(self@ =~= (Model { mem: with_program(old(self)@.mem, rom@), ..old(self)@ }));
        }
        Ok(n)
    }

    /// Latches one per-cycle edge report from the keyboard collaborator:
    /// newly pressed keys join the held mask, released keys leave it, and the
    /// pressed mask replaces the previous cycle's newly-pressed record. The
    /// driving loop calls this once per cycle, before the instruction.
    pub fn apply_edges(&mut self, pressed: u16, released: u16)
        ensures
            final(self)@ == edges_applied(old(self)@, pressed, released),
    {
        self.held = (self.held | pressed) & !released;
        self.pressed = pressed;
        proof {
            assert(self@ =~= edges_applied(old(self)@, pressed, released));
        }
    }

    /// Polls the two timers against a monotonic clock reading in
    /// nanoseconds. If at least a sixtieth of a second has passed since the
    /// last decrement, each timer drops by one (stopping at zero), the tone
    /// gate closes exactly when this drop takes the sound timer to zero, and
    /// the poll instant becomes the new reference; otherwise nothing
    /// changes. The result says whether the decrement happened.
    pub fn tick(&mut self, now_ns: u64) -> (ticked: bool)
        requires
            old(self)@.last_tick_ns <= now_ns,
        ensures
            final(self)@ == tick_model(old(self)@, now_ns),
            ticked == tick_fires(old(self)@, now_ns),
    {
        if now_ns - self.last_tick_ns >= TICK_INTERVAL_NS {
            if self.delay != 0 {
                self.delay = self.delay - 1;
            }
            if self.sound != 0 {
                self.sound = self.sound - 1;
                if self.sound == 0 {
                    self.tone = false;
                }
            }
            self.last_tick_ns = now_ns;
            proof {
                assert(self@ =~= tick_model(old(self)@, now_ns));
            }
            true
        } else {
            proof {
                assert(self@ =~= tick_model(old(self)@, now_ns));
            }
            false
        }
    }

    /// Saves a return address in the next free stack slot. The executor
    /// checks for a full stack first and reports the overflow instead.
    pub fn push(&mut self, addr: u16)
        requires
            old(self)@.wf(),
            old(self)@.sp < STACK_DEPTH,
        ensures
            final(self)@ == (Model {
                stack: old(self)@.stack.update(old(self)@.sp as int, addr),
                sp: (old(self)@.sp + 1) as usize,
                ..old(self)@
            }),
    {
        self.stack[self.sp] = addr;
        self.sp = self.sp + 1;
        proof {
            assert(self@ =~= (Model {
                stack: old(self)@.stack.update(old(self)@.sp as int, addr),
                sp: (old(self)@.sp + 1) as usize,
                ..old(self)@
            }));
        }
    }

    /// Takes back the most recently saved return address. The executor
    /// checks for an empty stack first and reports the underflow instead.
    pub fn pop(&mut self) -> (addr: u16)
        requires
            old(self)@.wf(),
            old(self)@.sp > 0,
        ensures
            addr == old(self)@.stack[old(self)@.sp - 1],
            final(self)@ == (Model { sp: (old(self)@.sp - 1) as usize, ..old(self)@ }),
    {
        self.sp = self.sp - 1;
        let addr = self.stack[self.sp];
        proof {
            assert(self@ =~= (Model { sp: (old(self)@.sp - 1) as usize, ..old(self)@ }));
        }
        addr
    }
}

} // verus!
