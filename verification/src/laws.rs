//! Machine-wide laws: properties that relate several operations, stated over
//! the transition function and proved once for every machine state.

use vstd::prelude::*;
use crate::decode::Instr;
use crate::machine::{dec_to_zero, tick_fires, tick_model, Model, TICK_INTERVAL_NS};
use crate::cpu::{adv_pc, mask12, min_key, min_key_from, transition, wrap8};
use crate::draw::{draw_collides, fb_after_draw, sprite_row};

verus! {

/// Adding a literal to a register wraps modulo 256 and raises VF exactly
/// when the unwrapped sum reaches 256. VF doubles as the destination when
/// the register named is VF itself: the flag, written second, is what
/// remains there.
pub proof fn lemma_add_imm_carry(m: Model, x: u8, nn: u8, rnd: u8)
    requires
        m.wf(),
        x < 16,
    ensures
        transition(m, Instr::AddImm { x, nn }, rnd) matches Ok(m2) && {
            &&& (m2.regs[15] == 1 <==> m.regs[x as int] + nn >= 256)
            &&& x != 15 ==> m2.regs[x as int] == wrap8(m.regs[x as int] + nn)
            &&& m2.pc == adv_pc(m.pc)
        },
{
}

/// Register subtraction wraps modulo 256 and raises VF exactly when there
/// is no borrow, that is when the minuend is at least the subtrahend. As
/// with the carry, the flag is what remains in VF when VF itself is named.
pub proof fn lemma_sub_no_borrow(m: Model, x: u8, y: u8, rnd: u8)
    requires
        m.wf(),
        x < 16,
        y < 16,
    ensures
        transition(m, Instr::SubReg { x, y }, rnd) matches Ok(m2) && {
            &&& (m2.regs[15] == 1 <==> m.regs[x as int] >= m.regs[y as int])
            &&& x != 15 ==> m2.regs[x as int] == wrap8(
                m.regs[x as int] - m.regs[y as int] + 256,
            )
            &&& m2.pc == adv_pc(m.pc)
        },
{
}

/// A right shift halves the register and parks the bit shifted out in VF; a
/// left shift doubles it modulo 256 and parks the old top bit in VF. Named
/// on VF itself, the register takes the flag first and shifts that.
pub proof fn lemma_shift_flags(m: Model, x: u8, rnd: u8)
    requires
        m.wf(),
        x < 16,
        x != 15,
    ensures
        transition(m, Instr::Shr { x }, rnd) matches Ok(m2) && {
            &&& m2.regs[15] == m.regs[x as int] & 1
            &&& m2.regs[15] == m.regs[x as int] % 2
            &&& m2.regs[x as int] == m.regs[x as int] >> 1
            &&& m2.regs[x as int] == m.regs[x as int] / 2
        },
        transition(m, Instr::Shl { x }, rnd) matches Ok(m2) && {
            &&& m2.regs[15] == m.regs[x as int] >> 7
            &&& m2.regs[x as int] == m.regs[x as int] << 1
            &&& m2.regs[x as int] == wrap8(2 * m.regs[x as int])
        },
{
    let v = m.regs[x as int];
    assert(v & 1 == v % 2) by (bit_vector);
    assert(v >> 1 == v / 2) by (bit_vector);
    assert(v << 1 == (2 * v) % 256) by (bit_vector);
    assert((if v >= 128 { 1u8 } else { 0u8 }) == v >> 7) by (bit_vector);
}

/// No pixel of an all-clear framebuffer is on, so no draw onto it collides.
pub proof fn lemma_draw_on_clear_never_collides(fb: Seq<u64>, sprite: Seq<u8>, x: u8, y: u8)
    requires
        fb.len() == 32,
        forall|r: int| 0 <= r < 32 ==> fb[r] == 0,
    ensures
        !draw_collides(fb, sprite, x, y),
{
    assert(forall|w: u64| #[trigger] (0u64 & w) == 0) by (bit_vector);
}

/// Clearing the screen and then drawing any sprite reports no collision:
/// the first draw after a clear always leaves VF at 0.
pub proof fn lemma_cls_then_draw_clears_vf(m: Model, x: u8, y: u8, n: u8, r1: u8, r2: u8)
    requires
        m.wf(),
        x < 16,
        y < 16,
        n < 16,
    ensures
        transition(m, Instr::Cls, r1) is Ok,
        ({
            let m1 = transition(m, Instr::Cls, r1)->Ok_0;
            transition(m1, Instr::Draw { x, y, n }, r2) matches Ok(m2) ==> m2.regs[15] == 0
        }),
{
    let m1 = transition(m, Instr::Cls, r1)->Ok_0;
    if m1.index + n <= 4096 {
        let sprite = m1.mem.subrange(m1.index as int, m1.index + n);
        lemma_draw_on_clear_never_collides(
            m1.fb,
            sprite,
            m1.regs[x as int],
            m1.regs[y as int],
        );
    }
}

/// XOR composition is an involution: drawing the same sprite twice at the
/// same position restores every framebuffer row, so the second draw clears
/// exactly the pixels the first one set.
pub proof fn lemma_draw_twice_restores(fb: Seq<u64>, sprite: Seq<u8>, x: u8, y: u8)
    requires
        fb.len() == 32,
    ensures
        fb_after_draw(fb_after_draw(fb, sprite, x, y), sprite, x, y) == fb,
{
    assert(forall|a: u64, b: u64| ((#[trigger] (a ^ b)) ^ b) == a) by (bit_vector);
    assert(fb_after_draw(fb_after_draw(fb, sprite, x, y), sprite, x, y) =~= fb);
}

/// A sprite byte with any pixel set covers a nonzero row wherever it lands:
/// rotation moves pixels, it does not lose them.
pub proof fn lemma_sprite_row_nonzero(b: u8, x: u8)
    requires
        b != 0,
    ensures
        sprite_row(b, x) != 0,
{
    let w = (b as u64) << 56;
    let s = (x as u64) % 64;
    assert(w != 0) by (bit_vector)
        requires
            b != 0,
            w == (b as u64) << 56,
    ;
    if s != 0 {
        assert((w >> s) | (w << ((64 - s) as u64)) != 0) by (bit_vector)
            requires
                w != 0,
                s == (x as u64) % 64,
                s != 0,
    ;
    }
}

/// Drawing a sprite with a visible pixel onto a clear framebuffer and then
/// drawing it again makes the second draw collide with the pixels the first
/// one set: self-overlap is detected. (A sprite whose visible rows are all
/// zero sets no pixel and can never collide.)
pub proof fn lemma_second_draw_collides(fb: Seq<u64>, sprite: Seq<u8>, x: u8, y: u8)
    requires
        fb.len() == 32,
        forall|r: int| 0 <= r < 32 ==> fb[r] == 0,
        exists|i: int| 0 <= i < sprite.len() && y + i < 32 && sprite[i] != 0,
    ensures
        draw_collides(fb_after_draw(fb, sprite, x, y), sprite, x, y),
{
    let i = choose|i: int| 0 <= i < sprite.len() && y + i < 32 && sprite[i] != 0;
    let fb1 = fb_after_draw(fb, sprite, x, y);
    let row = sprite_row(sprite[i], x);
    assert(fb1[y + i] == 0u64 ^ row);
    assert(0u64 ^ row == row && row & row == row) by (bit_vector);
    lemma_sprite_row_nonzero(sprite[i], x);
    assert(fb1[y + i] & sprite_row(sprite[i], x) != 0);
}

/// A call followed by a return resumes just past the call: the return pops
/// the call site the call pushed, and the default advance then lands two
/// bytes after it, with the stack pointer back where it was.
pub proof fn lemma_call_ret_round_trip(m: Model, nnn: u16, r1: u8, r2: u8)
    requires
        m.wf(),
        nnn < 4096,
        m.sp < 16,
    ensures
        transition(m, Instr::Call { nnn }, r1) is Ok,
        ({
            let m1 = transition(m, Instr::Call { nnn }, r1)->Ok_0;
            &&& m1.pc == nnn
            &&& m1.sp == m.sp + 1
            &&& transition(m1, Instr::Ret, r2) is Ok
            &&& {
                let m2 = transition(m1, Instr::Ret, r2)->Ok_0;
                &&& m2.pc == mask12(m.pc + 2)
                &&& m.pc + 2 < 4096 ==> m2.pc == m.pc + 2
                &&& m2.sp == m.sp
                &&& m2.regs == m.regs
                &&& m2.mem == m.mem
            }
        }),
{
}

/// The lowest set key: its bit is set, every lower bit is clear, and a
/// nonempty bitmask always has one below 16.
pub proof fn lemma_min_key_props(mask: u16)
    requires
        mask != 0,
    ensures
        min_key(mask) < 16,
        (mask >> min_key(mask)) & 1 == 1,
        forall|j: u16| j < min_key(mask) ==> (mask >> j) & 1 == 0,
{
    lemma_min_key_from_props(mask, 0);
    if min_key(mask) == 16 {
        assert((mask >> 0u16) & 1 == 0 && (mask >> 1u16) & 1 == 0 && (mask >> 2u16) & 1 == 0
            && (mask >> 3u16) & 1 == 0 && (mask >> 4u16) & 1 == 0 && (mask >> 5u16) & 1 == 0
            && (mask >> 6u16) & 1 == 0 && (mask >> 7u16) & 1 == 0 && (mask >> 8u16) & 1 == 0
            && (mask >> 9u16) & 1 == 0 && (mask >> 10u16) & 1 == 0 && (mask >> 11u16) & 1 == 0
            && (mask >> 12u16) & 1 == 0 && (mask >> 13u16) & 1 == 0 && (mask >> 14u16) & 1 == 0
            && (mask >> 15u16) & 1 == 0 ==> mask == 0) by (bit_vector);
    }
}

/// Scanning upward from `k` finds a set bit or reports 16, skipping only
/// clear bits on the way.
proof fn lemma_min_key_from_props(mask: u16, k: u16)
    requires
        k <= 16,
    ensures
        k <= min_key_from(mask, k) <= 16,
        min_key_from(mask, k) < 16 ==> (mask >> min_key_from(mask, k)) & 1 == 1,
        forall|j: u16| k <= j < min_key_from(mask, k) ==> (mask >> j) & 1 == 0,
        min_key_from(mask, k) == 16 ==> forall|j: u16| k <= j < 16 ==> (mask >> j) & 1 == 0,
    decreases 16 - k,
{
    if k < 16 {
        let bit = (mask >> k) & 1;
        assert(bit == 0 || bit == 1) by (bit_vector)
            requires
                bit == (mask >> k) & 1,
        ;
        if bit != 1 {
            lemma_min_key_from_props(mask, (k + 1) as u16);
        }
    }
}

/// The key-wait instruction blocks by standing still: with no key newly
/// pressed this cycle the machine is left exactly as it was, so the same
/// instruction is fetched again next cycle; with one, the named register
/// takes the lowest-numbered newly pressed key — its bit is set and all
/// lower bits are clear — and execution moves on.
pub proof fn lemma_wait_key(m: Model, x: u8, rnd: u8)
    requires
        m.wf(),
        x < 16,
    ensures
        transition(m, Instr::WaitKey { x }, rnd) is Ok,
        ({
            let m2 = transition(m, Instr::WaitKey { x }, rnd)->Ok_0;
            &&& m.pressed == 0 ==> m2 == m
            &&& m.pressed != 0 ==> {
                &&& m2.pc == adv_pc(m.pc)
                &&& m2.regs[x as int] == min_key(m.pressed) as u8
                &&& m2.regs[x as int] < 16
                &&& (m.pressed >> (m2.regs[x as int] as u16)) & 1 == 1
                &&& forall|j: u16| j < m2.regs[x as int] as u16 ==> (m.pressed >> j) & 1 == 0
            }
        }),
{
    if m.pressed != 0 {
        lemma_min_key_props(m.pressed);
    }
}

/// A timer decrement happens at most once per sixtieth of a second: after a
/// poll that fired, any poll less than a full interval later changes
/// nothing, whatever the machine did in between.
pub proof fn lemma_tick_at_most_once_per_interval(m: Model, t1: u64, t2: u64)
    requires
        m.last_tick_ns <= t1 <= t2,
        tick_fires(m, t1),
        t2 - t1 < TICK_INTERVAL_NS,
    ensures
        !tick_fires(tick_model(m, t1), t2),
        tick_model(tick_model(m, t1), t2) == tick_model(m, t1),
        tick_model(m, t1).delay == dec_to_zero(m.delay),
        tick_model(m, t1).sound == dec_to_zero(m.sound),
{
}

/// Instruction execution never moves a timer on its own: however many
/// instructions run between two timer polls, the delay and sound timers
/// change only when an instruction loads them explicitly, and the timer
/// clock reference not at all. Together with the poll contract, the
/// decrement rate depends on wall time alone, not on instruction
/// throughput.
pub proof fn lemma_execution_leaves_timers(m: Model, i: Instr, rnd: u8)
    ensures
        transition(m, i, rnd) matches Ok(m2) ==> {
            &&& m2.last_tick_ns == m.last_tick_ns
            &&& !(i matches Instr::SetDelay { .. }) ==> m2.delay == m.delay
            &&& !(i matches Instr::SetSound { .. }) ==> m2.sound == m.sound
        },
{
}

} // verus!
