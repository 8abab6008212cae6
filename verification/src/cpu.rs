//! The instruction executor: the semantics of every instruction as a
//! function over the machine model, and the fetch/decode/execute step that
//! implements it. Addresses are handled one way throughout: the program
//! counter and the index register are kept to twelve bits by masking at
//! every update, and every memory range an instruction touches is checked
//! before the access, reporting a fatal error instead of faulting.

use vstd::prelude::*;
use crate::decode::{decode, spec_decode, Instr};
use crate::machine::{Chip8, Model, MEMORY_SIZE, SCREEN_HEIGHT, STACK_DEPTH};
use crate::draw::{draw_sprite, fb_after_draw, draw_collides};
use crate::VmError;

verus! {

/// An address kept to the 12 bits the machine has.
pub open spec fn mask12(n: int) -> u16 {
    (n % 4096) as u16
}

/// The program counter after the default advance past one instruction.
pub open spec fn adv_pc(pc: u16) -> u16 {
    mask12(pc + 2)
}

/// The program counter after advancing past one instruction and skipping
/// the next.
pub open spec fn skip_pc(pc: u16) -> u16 {
    mask12(pc + 4)
}

/// A sum folded into a byte, as register arithmetic wraps.
pub open spec fn wrap8(n: int) -> u8 {
    (n % 256) as u8
}

/// A condition as VF reports it.
pub open spec fn flag(b: bool) -> u8 {
    if b { 1u8 } else { 0u8 }
}

/// Whether the key named by the low nibble of `v` is set in a key bitmask.
pub open spec fn key_down(mask: u16, v: u8) -> bool {
    (mask >> ((v & 15) as u16)) & 1 == 1
}

/// The lowest key index at or above `k` whose bit is set, or 16 if none is.
pub open spec fn min_key_from(mask: u16, k: u16) -> u16
    decreases 16 - k,
{
    if k >= 16 {
        16u16
    } else if (mask >> k) & 1 == 1 {
        k
    } else {
        min_key_from(mask, (k + 1) as u16)
    }
}

/// The lowest-numbered key whose bit is set, or 16 for an empty bitmask.
pub open spec fn min_key(mask: u16) -> u16 {
    min_key_from(mask, 0)
}

/// The machine after one instruction executes, or the fatal condition that
/// stops it, in which case the machine is unchanged. `rnd` is the byte the
/// random source hands the one instruction that draws on it; every other
/// instruction ignores it.
///
/// The default outcome advances the program counter by two; jumps, calls and
/// returns set it, a failed key-wait leaves it, and skips advance by four.
pub open spec fn transition(m: Model, i: Instr, rnd: u8) -> Result<Model, VmError> {
    match i {
        Instr::Cls => Ok(Model {
            fb: Seq::new(SCREEN_HEIGHT as nat, |r: int| 0u64),
            pc: adv_pc(m.pc),
            ..m
        }),
        Instr::Ret => if m.sp == 0 {
            Err(VmError::StackUnderflow)
        } else {
            Ok(Model {
                pc: mask12(m.stack[m.sp - 1] + 2),
                sp: (m.sp - 1) as usize,
                ..m
            })
        },
        Instr::Sys => Ok(Model { pc: adv_pc(m.pc), ..m }),
        Instr::Jump { nnn } => Ok(Model { pc: nnn, ..m }),
        Instr::Call { nnn } => if m.sp >= STACK_DEPTH {
            Err(VmError::StackOverflow)
        } else {
            Ok(Model {
                stack: m.stack.update(m.sp as int, m.pc),
                sp: (m.sp + 1) as usize,
                pc: nnn,
                ..m
            })
        },
        Instr::SkipEqImm { x, nn } => Ok(Model {
            pc: if m.regs[x as int] == nn { skip_pc(m.pc) } else { adv_pc(m.pc) },
            ..m
        }),
        Instr::SkipNeImm { x, nn } => Ok(Model {
            pc: if m.regs[x as int] != nn { skip_pc(m.pc) } else { adv_pc(m.pc) },
            ..m
        }),
        Instr::SkipEqReg { x, y } => Ok(Model {
            pc: if m.regs[x as int] == m.regs[y as int] { skip_pc(m.pc) } else { adv_pc(m.pc) },
            ..m
        }),
        Instr::SkipNeReg { x, y } => Ok(Model {
            pc: if m.regs[x as int] != m.regs[y as int] { skip_pc(m.pc) } else { adv_pc(m.pc) },
            ..m
        }),
        Instr::LoadImm { x, nn } => Ok(Model {
            regs: m.regs.update(x as int, nn),
            pc: adv_pc(m.pc),
            ..m
        }),
        Instr::AddImm { x, nn } => Ok(Model {
            regs: m.regs.update(x as int, wrap8(m.regs[x as int] + nn)).update(
                15,
                flag(m.regs[x as int] + nn >= 256),
            ),
            pc: adv_pc(m.pc),
            ..m
        }),
        Instr::Assign { x, y } => Ok(Model {
            regs: m.regs.update(x as int, m.regs[y as int]),
            pc: adv_pc(m.pc),
            ..m
        }),
        Instr::Or { x, y } => Ok(Model {
            regs: m.regs.update(x as int, m.regs[x as int] | m.regs[y as int]),
            pc: adv_pc(m.pc),
            ..m
        }),
        Instr::And { x, y } => Ok(Model {
            regs: m.regs.update(x as int, m.regs[x as int] & m.regs[y as int]),
            pc: adv_pc(m.pc),
            ..m
        }),
        Instr::Xor { x, y } => Ok(Model {
            regs: m.regs.update(x as int, m.regs[x as int] ^ m.regs[y as int]),
            pc: adv_pc(m.pc),
            ..m
        }),
        Instr::AddReg { x, y } => Ok(Model {
            regs: m.regs.update(
                x as int,
                wrap8(m.regs[x as int] + m.regs[y as int]),
            ).update(15, flag(m.regs[x as int] + m.regs[y as int] >= 256)),
            pc: adv_pc(m.pc),
            ..m
        }),
        Instr::SubReg { x, y } => Ok(Model {
            regs: m.regs.update(
                x as int,
                wrap8(m.regs[x as int] - m.regs[y as int] + 256),
            ).update(15, flag(m.regs[x as int] >= m.regs[y as int])),
            pc: adv_pc(m.pc),
            ..m
        }),
        // The flag is written first, then the shifted value: with VF as the
        // operand the shift reads the flag back, as the machine does.
        Instr::Shr { x } => {
            let flagged = m.regs.update(15, m.regs[x as int] & 1);
            Ok(Model {
                regs: flagged.update(x as int, flagged[x as int] >> 1),
                pc: adv_pc(m.pc),
                ..m
            })
        },
        Instr::SubN { x, y } => Ok(Model {
            regs: m.regs.update(
                x as int,
                wrap8(m.regs[y as int] - m.regs[x as int] + 256),
            ).update(15, flag(m.regs[y as int] >= m.regs[x as int])),
            pc: adv_pc(m.pc),
            ..m
        }),
        Instr::Shl { x } => {
            let flagged = m.regs.update(15, flag(m.regs[x as int] >= 128));
            Ok(Model {
                regs: flagged.update(x as int, flagged[x as int] << 1),
                pc: adv_pc(m.pc),
                ..m
            })
        },
        Instr::SetIndex { nnn } => Ok(Model { index: nnn, pc: adv_pc(m.pc), ..m }),
        Instr::JumpV0 { nnn } => Ok(Model { pc: mask12(nnn + m.regs[0]), ..m }),
        Instr::Rand { x, nn } => Ok(Model {
            regs: m.regs.update(x as int, rnd & nn),
            pc: adv_pc(m.pc),
            ..m
        }),
        Instr::Draw { x, y, n } => if m.index + n > MEMORY_SIZE {
            Err(VmError::MemoryOutOfBounds)
        } else {
            let sprite = m.mem.subrange(m.index as int, m.index + n);
            Ok(Model {
                fb: fb_after_draw(m.fb, sprite, m.regs[x as int], m.regs[y as int]),
                regs: m.regs.update(
                    15,
                    flag(draw_collides(m.fb, sprite, m.regs[x as int], m.regs[y as int])),
                ),
                pc: adv_pc(m.pc),
                ..m
            })
        },
        Instr::SkipKey { x } => Ok(Model {
            pc: if key_down(m.held, m.regs[x as int]) { skip_pc(m.pc) } else { adv_pc(m.pc) },
            ..m
        }),
        Instr::SkipNoKey { x } => Ok(Model {
            pc: if !key_down(m.held, m.regs[x as int]) { skip_pc(m.pc) } else { adv_pc(m.pc) },
            ..m
        }),
        Instr::ReadDelay { x } => Ok(Model {
            regs: m.regs.update(x as int, m.delay),
            pc: adv_pc(m.pc),
            ..m
        }),
        Instr::WaitKey { x } => if m.pressed == 0 {
            Ok(m)
        } else {
            Ok(Model {
                regs: m.regs.update(x as int, min_key(m.pressed) as u8),
                pc: adv_pc(m.pc),
                ..m
            })
        },
        Instr::SetDelay { x } => Ok(Model { delay: m.regs[x as int], pc: adv_pc(m.pc), ..m }),
        Instr::SetSound { x } => Ok(Model {
            sound: m.regs[x as int],
            tone: if m.regs[x as int] != 0 { true } else { m.tone },
            pc: adv_pc(m.pc),
            ..m
        }),
        Instr::AddIndex { x } => Ok(Model {
            index: mask12(m.index + m.regs[x as int]),
            regs: m.regs.update(15, flag(m.index + m.regs[x as int] >= 4096)),
            pc: adv_pc(m.pc),
            ..m
        }),
        Instr::FontAddr { x } => Ok(Model {
            index: (5 * (m.regs[x as int] & 15)) as u16,
            pc: adv_pc(m.pc),
            ..m
        }),
        Instr::Bcd { x } => if m.index + 3 > MEMORY_SIZE {
            Err(VmError::MemoryOutOfBounds)
        } else {
            let v = m.regs[x as int];
            Ok(Model {
                mem: m.mem.update(m.index as int, (v / 100) as u8).update(
                    m.index + 1,
                    ((v % 100) / 10) as u8,
                ).update(m.index + 2, (v % 10) as u8),
                pc: adv_pc(m.pc),
                ..m
            })
        },
        Instr::StoreRegs { x } => if m.index + x + 1 > MEMORY_SIZE {
            Err(VmError::MemoryOutOfBounds)
        } else {
            Ok(Model {
                mem: Seq::new(MEMORY_SIZE as nat, |a: int| {
                    if m.index <= a <= m.index + x {
                        m.regs[a - m.index]
                    } else {
                        m.mem[a]
                    }
                }),
                pc: adv_pc(m.pc),
                ..m
            })
        },
        Instr::LoadRegs { x } => if m.index + x + 1 > MEMORY_SIZE {
            Err(VmError::MemoryOutOfBounds)
        } else {
            Ok(Model {
                regs: Seq::new(16, |k: int| {
                    if k <= x {
                        m.mem[m.index + k]
                    } else {
                        m.regs[k]
                    }
                }),
                pc: adv_pc(m.pc),
                ..m
            })
        },
    }
}

/// One whole interpreter step over the model: fetch the byte pair at the
/// program counter, decode it, and execute it.
pub open spec fn step_spec(m: Model, rnd: u8) -> Result<Model, VmError> {
    if m.pc + 1 >= MEMORY_SIZE {
        Err(VmError::PcOutOfBounds)
    } else {
        match spec_decode(m.mem[m.pc as int], m.mem[m.pc + 1]) {
            Some(i) => transition(m, i, rnd),
            None => Err(VmError::UnknownInstruction),
        }
    }
}

/// Executing any well-formed instruction on a well-formed machine yields a
/// well-formed machine.
pub proof fn lemma_transition_wf(m: Model, i: Instr, rnd: u8)
    requires
        m.wf(),
        i.wf(),
    ensures
        transition(m, i, rnd) matches Ok(m2) ==> m2.wf(),
{
    match i {
        Instr::FontAddr { x } => {
            let vx = m.regs[x as int];
            assert(vx & 15 < 16) by (bit_vector);
        },
        _ => {},
    }
}

/// Relies on getrandom::getrandom for one byte of entropy; if the source
/// reports a failure the buffer keeps the zero it was given, as any byte is
/// an acceptable outcome here.
#[verifier::external_body]
fn random_byte() -> (r: u8) {
    let mut buf: [u8; 1] = [0];
    let _ = getrandom::getrandom(&mut buf);
    buf[0]
}

/// The lowest-numbered key set in a bitmask, or 16 for an empty one.
pub fn lowest_key(mask: u16) -> (k: u16)
    ensures
        k == min_key(mask),
{
    let mut k: u16 = 0;
    while k < 16
        invariant
            k <= 16,
            min_key(mask) == min_key_from(mask, k),
        decreases 16 - k,
    {
        if (mask >> k) & 1 == 1 {
            return k;
        }
        k = k + 1;
    }
    k
}

impl Chip8 {
    /// Executes one decoded instruction: the machine moves to exactly the
    /// state the transition function gives for it (for some byte from the
    /// random source, which only `Rand` reads), or reports the fatal
    /// condition the transition function gives, unchanged — the same error
    /// for every random byte.
    pub fn execute(&mut self, i: Instr) -> (r: Result<(), VmError>)
        requires
            old(self)@.wf(),
            i.wf(),
        ensures
            final(self)@.wf(),
            r matches Ok(_) ==> exists|b: u8|
                #[trigger] transition(old(self)@, i, b) == Ok::<Model, VmError>(final(self)@),
            r matches Err(e) ==> final(self)@ == old(self)@ && forall|b: u8|
                #[trigger] transition(old(self)@, i, b) == Err::<Model, VmError>(e),
    {
        proof {
            lemma_transition_wf(old(self)@, i, 0u8);
        }
        match i {
            Instr::Cls => {
                self.fb = crate::machine::filled_vec(SCREEN_HEIGHT, 0u64);
                self.pc = (self.pc + 2) % 4096;
                proof {
                    assert(transition(old(self)@, i, 0u8) matches Ok(m2) && m2 =~= self@);
                }
                Ok(())
            },
            Instr::Ret => {
                if self.sp == 0 {
                    return Err(VmError::StackUnderflow);
                }
                let a = self.pop();
                self.pc = ((a as u32 + 2) % 4096) as u16;
                proof {
                    assert(transition(old(self)@, i, 0u8) matches Ok(m2) && m2 =~= self@);
                }
                Ok(())
            },
            Instr::Sys => {
                self.pc = (self.pc + 2) % 4096;
                proof {
                    assert(transition(old(self)@, i, 0u8) matches Ok(m2) && m2 =~= self@);
                }
                Ok(())
            },
            Instr::Jump { nnn } => {
                self.pc = nnn;
                proof {
                    assert(transition(old(self)@, i, 0u8) matches Ok(m2) && m2 =~= self@);
                }
                Ok(())
            },
            Instr::Call { nnn } => {
                if self.sp == STACK_DEPTH {
                    return Err(VmError::StackOverflow);
                }
                let here = self.pc;
                self.push(here);
                self.pc = nnn;
                proof {
                    assert(transition(old(self)@, i, 0u8) matches Ok(m2) && m2 =~= self@);
                }
                Ok(())
            },
            Instr::SkipEqImm { x, nn } => {
                let vx = self.regs[x as usize];
                self.pc = if vx == nn { (self.pc + 4) % 4096 } else { (self.pc + 2) % 4096 };
                proof {
                    assert(transition(old(self)@, i, 0u8) matches Ok(m2) && m2 =~= self@);
                }
                Ok(())
            },
            Instr::SkipNeImm { x, nn } => {
                let vx = self.regs[x as usize];
                self.pc = if vx != nn { (self.pc + 4) % 4096 } else { (self.pc + 2) % 4096 };
                proof {
                    assert(transition(old(self)@, i, 0u8) matches Ok(m2) && m2 =~= self@);
                }
                Ok(())
            },
            Instr::SkipEqReg { x, y } => {
                let vx = self.regs[x as usize];
                let vy = self.regs[y as usize];
                self.pc = if vx == vy { (self.pc + 4) % 4096 } else { (self.pc + 2) % 4096 };
                proof {
                    assert(transition(old(self)@, i, 0u8) matches Ok(m2) && m2 =~= self@);
                }
                Ok(())
            },
            Instr::SkipNeReg { x, y } => {
                let vx = self.regs[x as usize];
                let vy = self.regs[y as usize];
                self.pc = if vx != vy { (self.pc + 4) % 4096 } else { (self.pc + 2) % 4096 };
                proof {
                    assert(transition(old(self)@, i, 0u8) matches Ok(m2) && m2 =~= self@);
                }
                Ok(())
            },
            Instr::LoadImm { x, nn } => {
                self.regs[x as usize] = nn;
                self.pc = (self.pc + 2) % 4096;
                proof {
                    assert(transition(old(self)@, i, 0u8) matches Ok(m2) && m2 =~= self@);
                }
                Ok(())
            },
            Instr::AddImm { x, nn } => {
                let sum: u16 = self.regs[x as usize] as u16 + nn as u16;
                self.regs[x as usize] = (sum % 256) as u8;
                self.regs[15] = if sum >= 256 { 1 } else { 0 };
                self.pc = (self.pc + 2) % 4096;
                proof {
                    assert(transition(old(self)@, i, 0u8) matches Ok(m2) && m2 =~= self@);
                }
                Ok(())
            },
            Instr::Assign { x, y } => {
                let vy = self.regs[y as usize];
                self.regs[x as usize] = vy;
                self.pc = (self.pc + 2) % 4096;
                proof {
                    assert(transition(old(self)@, i, 0u8) matches Ok(m2) && m2 =~= self@);
                }
                Ok(())
            },
            Instr::Or { x, y } => {
                let vx = self.regs[x as usize];
                let vy = self.regs[y as usize];
                self.regs[x as usize] = vx | vy;
                self.pc = (self.pc + 2) % 4096;
                proof {
                    assert(transition(old(self)@, i, 0u8) matches Ok(m2) && m2 =~= self@);
                }
                Ok(())
            },
            Instr::And { x, y } => {
                let vx = self.regs[x as usize];
                let vy = self.regs[y as usize];
                self.regs[x as usize] = vx & vy;
                self.pc = (self.pc + 2) % 4096;
                proof {
                    assert(transition(old(self)@, i, 0u8) matches Ok(m2) && m2 =~= self@);
                }
                Ok(())
            },
            Instr::Xor { x, y } => {
                let vx = self.regs[x as usize];
                let vy = self.regs[y as usize];
                self.regs[x as usize] = vx ^ vy;
                self.pc = (self.pc + 2) % 4096;
                proof {
                    assert(transition(old(self)@, i, 0u8) matches Ok(m2) && m2 =~= self@);
                }
                Ok(())
            },
            Instr::AddReg { x, y } => {
                let sum: u16 = self.regs[x as usize] as u16 + self.regs[y as usize] as u16;
                self.regs[x as usize] = (sum % 256) as u8;
                self.regs[15] = if sum >= 256 { 1 } else { 0 };
                self.pc = (self.pc + 2) % 4096;
                proof {
                    assert(transition(old(self)@, i, 0u8) matches Ok(m2) && m2 =~= self@);
                }
                Ok(())
            },
            Instr::SubReg { x, y } => {
                let vx = self.regs[x as usize];
                let vy = self.regs[y as usize];
                let diff: u16 = vx as u16 + 256 - vy as u16;
                self.regs[x as usize] = (diff % 256) as u8;
                self.regs[15] = if vx >= vy { 1 } else { 0 };
                self.pc = (self.pc + 2) % 4096;
                proof {
                    assert(transition(old(self)@, i, 0u8) matches Ok(m2) && m2 =~= self@);
                }
                Ok(())
            },
            Instr::Shr { x } => {
                let vx = self.regs[x as usize];
                self.regs[15] = vx & 1;
                let cur = self.regs[x as usize];
                self.regs[x as usize] = cur >> 1;
                self.pc = (self.pc + 2) % 4096;
                proof {
                    assert(transition(old(self)@, i, 0u8) matches Ok(m2) && m2 =~= self@);
                }
                Ok(())
            },
            Instr::SubN { x, y } => {
                let vx = self.regs[x as usize];
                let vy = self.regs[y as usize];
                let diff: u16 = vy as u16 + 256 - vx as u16;
                self.regs[x as usize] = (diff % 256) as u8;
                self.regs[15] = if vy >= vx { 1 } else { 0 };
                self.pc = (self.pc + 2) % 4096;
                proof {
                    assert(transition(old(self)@, i, 0u8) matches Ok(m2) && m2 =~= self@);
                }
                Ok(())
            },
            Instr::Shl { x } => {
                let vx = self.regs[x as usize];
                self.regs[15] = if vx >= 128 { 1 } else { 0 };
                let cur = self.regs[x as usize];
                self.regs[x as usize] = cur << 1;
                self.pc = (self.pc + 2) % 4096;
                proof {
                    assert(transition(old(self)@, i, 0u8) matches Ok(m2) && m2 =~= self@);
                }
                Ok(())
            },
            Instr::SetIndex { nnn } => {
                self.index = nnn;
                self.pc = (self.pc + 2) % 4096;
                proof {
                    assert(transition(old(self)@, i, 0u8) matches Ok(m2) && m2 =~= self@);
                }
                Ok(())
            },
            Instr::JumpV0 { nnn } => {
                self.pc = (nnn + self.regs[0] as u16) % 4096;
                proof {
                    assert(transition(old(self)@, i, 0u8) matches Ok(m2) && m2 =~= self@);
                }
                Ok(())
            },
            Instr::Rand { x, nn } => {
                let b = random_byte();
                self.regs[x as usize] = b & nn;
                self.pc = (self.pc + 2) % 4096;
                proof {
                    assert(transition(old(self)@, i, b) matches Ok(m2) && m2 =~= self@);
                }
                Ok(())
            },
            Instr::Draw { x, y, n } => {
                if self.index as usize + n as usize > MEMORY_SIZE {
                    return Err(VmError::MemoryOutOfBounds);
                }
                let sx = self.regs[x as usize];
                let sy = self.regs[y as usize];
                let hit = draw_sprite(
                    &mut self.fb,
                    &self.mem,
                    self.index as usize,
                    n as usize,
                    sx,
                    sy,
                );
                self.regs[15] = if hit { 1 } else { 0 };
                self.pc = (self.pc + 2) % 4096;
                proof {
                    assert(transition(old(self)@, i, 0u8) matches Ok(m2) && m2 =~= self@);
                }
                Ok(())
            },
            Instr::SkipKey { x } => {
                let vx = self.regs[x as usize];
                proof {
                    assert(vx & 15 < 16) by (bit_vector);
                }
                let down = (self.held >> ((vx & 15) as u16)) & 1 == 1;
                self.pc = if down { (self.pc + 4) % 4096 } else { (self.pc + 2) % 4096 };
                proof {
                    assert(transition(old(self)@, i, 0u8) matches Ok(m2) && m2 =~= self@);
                }
                Ok(())
            },
            Instr::SkipNoKey { x } => {
                let vx = self.regs[x as usize];
                proof {
                    assert(vx & 15 < 16) by (bit_vector);
                }
                let down = (self.held >> ((vx & 15) as u16)) & 1 == 1;
                self.pc = if !down { (self.pc + 4) % 4096 } else { (self.pc + 2) % 4096 };
                proof {
                    assert(transition(old(self)@, i, 0u8) matches Ok(m2) && m2 =~= self@);
                }
                Ok(())
            },
            Instr::ReadDelay { x } => {
                let d = self.delay;
                self.regs[x as usize] = d;
                self.pc = (self.pc + 2) % 4096;
                proof {
                    assert(transition(old(self)@, i, 0u8) matches Ok(m2) && m2 =~= self@);
                }
                Ok(())
            },
            Instr::WaitKey { x } => {
                if self.pressed != 0 {
                    let k = lowest_key(self.pressed);
                    self.regs[x as usize] = k as u8;
                    self.pc = (self.pc + 2) % 4096;
                }
                proof {
                    assert(transition(old(self)@, i, 0u8) matches Ok(m2) && m2 =~= self@);
                }
                Ok(())
            },
            Instr::SetDelay { x } => {
                let vx = self.regs[x as usize];
                self.delay = vx;
                self.pc = (self.pc + 2) % 4096;
                proof {
                    assert(transition(old(self)@, i, 0u8) matches Ok(m2) && m2 =~= self@);
                }
                Ok(())
            },
            Instr::SetSound { x } => {
                let vx = self.regs[x as usize];
                self.sound = vx;
                if vx != 0 {
                    self.tone = true;
                }
                self.pc = (self.pc + 2) % 4096;
                proof {
                    assert(transition(old(self)@, i, 0u8) matches Ok(m2) && m2 =~= self@);
                }
                Ok(())
            },
            Instr::AddIndex { x } => {
                let sum: u16 = self.index + self.regs[x as usize] as u16;
                self.regs[15] = if sum >= 4096 { 1 } else { 0 };
                self.index = sum % 4096;
                self.pc = (self.pc + 2) % 4096;
                proof {
                    assert(transition(old(self)@, i, 0u8) matches Ok(m2) && m2 =~= self@);
                }
                Ok(())
            },
            Instr::FontAddr { x } => {
                let vx = self.regs[x as usize];
                self.index = crate::font::get_char_address(vx);
                self.pc = (self.pc + 2) % 4096;
                proof {
                    assert(transition(old(self)@, i, 0u8) matches Ok(m2) && m2 =~= self@);
                }
                Ok(())
            },
            Instr::Bcd { x } => {
                if self.index as usize + 3 > MEMORY_SIZE {
                    return Err(VmError::MemoryOutOfBounds);
                }
                let v = self.regs[x as usize];
                let idx = self.index as usize;
                self.mem[idx] = v / 100;
                self.mem[idx + 1] = (v % 100) / 10;
                self.mem[idx + 2] = v % 10;
                self.pc = (self.pc + 2) % 4096;
                proof {
                    assert(transition(old(self)@, i, 0u8) matches Ok(m2) && m2 =~= self@);
                }
                Ok(())
            },
            Instr::StoreRegs { x } => {
                if self.index as usize + x as usize + 1 > MEMORY_SIZE {
                    return Err(VmError::MemoryOutOfBounds);
                }
                let idx = self.index as usize;
                let mut j: usize = 0;
                while j <= x as usize
                    invariant
                        old(self)@.wf(),
                        x < 16,
                        j <= x as usize + 1,
                        idx == old(self)@.index,
                        idx + x + 1 <= MEMORY_SIZE,
                        self.mem@.len() == MEMORY_SIZE,
                        forall|a: int| 0 <= a < MEMORY_SIZE && !(idx <= a < idx + j)
                            ==> self.mem@[a] == old(self)@.mem[a],
                        forall|a: int| idx <= a < idx + j ==> self.mem@[a] == old(self)@.regs[
                            a - idx
                        ],
                        self.fb == old(self).fb,
                        self.regs == old(self).regs,
                        self.stack == old(self).stack,
                        self.index == old(self).index,
                        self.pc == old(self).pc,
                        self.sp == old(self).sp,
                        self.delay == old(self).delay,
                        self.sound == old(self).sound,
                        self.held == old(self).held,
                        self.pressed == old(self).pressed,
                        self.tone == old(self).tone,
                        self.last_tick_ns == old(self).last_tick_ns,
                    decreases x as usize + 1 - j,
                {
                    let vj = self.regs[j];
                    self.mem[idx + j] = vj;
                    j += 1;
                }
                self.pc = (self.pc + 2) % 4096;
                proof {
                    assert(transition(old(self)@, i, 0u8) matches Ok(m2) && m2 =~= self@);
                }
                Ok(())
            },
            Instr::LoadRegs { x } => {
                if self.index as usize + x as usize + 1 > MEMORY_SIZE {
                    return Err(VmError::MemoryOutOfBounds);
                }
                let idx = self.index as usize;
                let mut j: usize = 0;
                while j <= x as usize
                    invariant
                        old(self)@.wf(),
                        x < 16,
                        j <= x as usize + 1,
                        idx == old(self)@.index,
                        idx + x + 1 <= MEMORY_SIZE,
                        self.regs@.len() == 16,
                        forall|k: int| 0 <= k < j ==> self.regs@[k] == old(self)@.mem[idx + k],
                        forall|k: int| j <= k < 16 ==> self.regs@[k] == old(self)@.regs[k],
                        self.mem == old(self).mem,
                        self.fb == old(self).fb,
                        self.stack == old(self).stack,
                        self.index == old(self).index,
                        self.pc == old(self).pc,
                        self.sp == old(self).sp,
                        self.delay == old(self).delay,
                        self.sound == old(self).sound,
                        self.held == old(self).held,
                        self.pressed == old(self).pressed,
                        self.tone == old(self).tone,
                        self.last_tick_ns == old(self).last_tick_ns,
                    decreases x as usize + 1 - j,
                {
                    let b = self.mem[idx + j];
                    self.regs[j] = b;
                    j += 1;
                }
                self.pc = (self.pc + 2) % 4096;
                proof {
                    assert(transition(old(self)@, i, 0u8) matches Ok(m2) && m2 =~= self@);
                }
                Ok(())
            },
        }
    }

    /// Fetches, decodes and executes the instruction at the program counter:
    /// one machine cycle, apart from the timers, which the driving loop polls
    /// separately against the wall clock. The machine moves to exactly the
    /// state the step function gives (for some byte from the random source),
    /// or stops unchanged on the fatal condition it gives — the same one for
    /// every random byte.
    pub fn step(&mut self) -> (r: Result<(), VmError>)
        requires
            old(self)@.wf(),
        ensures
            final(self)@.wf(),
            r matches Ok(_) ==> exists|b: u8|
                #[trigger] step_spec(old(self)@, b) == Ok::<Model, VmError>(final(self)@),
            r matches Err(e) ==> final(self)@ == old(self)@ && forall|b: u8|
                #[trigger] step_spec(old(self)@, b) == Err::<Model, VmError>(e),
    {
        if self.pc >= 4095 {
            return Err(VmError::PcOutOfBounds);
        }
        let b0 = self.mem[self.pc as usize];
        let b1 = self.mem[self.pc as usize + 1];
        match decode(b0, b1) {
            None => Err(VmError::UnknownInstruction),
            Some(i) => {
                let r = self.execute(i);
                proof {
                    assert(forall|b: u8| step_spec(old(self)@, b) == #[trigger] transition(
                        old(self)@,
                        i,
                        b,
                    ));
                }
                r
            },
        }
    }
}

} // verus!
