//! The laws of the interpreter: properties that relate several
//! transitions, proved once and for all states.

use vstd::prelude::*;

use crate::machine::{Fault, MachineV, timer_dec};
use crate::semantics::{
    add_reg_spec, call_spec, cls_spec, drw_spec, jp_v0_spec, ret_spec, rv, shift_src, shl_spec,
    shr_spec, sprite_flips, step_spec, sub_reg_spec, subn_reg_spec,
};

verus! {

/// After any flag-setting arithmetic instruction, `VF` holds exactly 0 or
/// 1 per the documented carry/borrow/shift rule — also when `Vx` or `Vy`
/// is `VF` itself, because the flag is the last write.
pub proof fn lemma_arith_flag_rule(s: MachineV, x: u8, y: u8)
    requires
        s.wf(),
        x < 16,
        y < 16,
    ensures
        add_reg_spec(s, x, y).regs[15] == (if rv(s, x) + rv(s, y) > 255 { 1u8 } else { 0u8 }),
        sub_reg_spec(s, x, y).regs[15] == (if rv(s, x) >= rv(s, y) { 1u8 } else { 0u8 }),
        subn_reg_spec(s, x, y).regs[15] == (if rv(s, y) >= rv(s, x) { 1u8 } else { 0u8 }),
        shr_spec(s, x, y).regs[15] == ((shift_src(s, x, y) % 2) as u8),
        shl_spec(s, x, y).regs[15] == ((shift_src(s, x, y) / 128) as u8),
        shr_spec(s, x, y).regs[15] == 0 || shr_spec(s, x, y).regs[15] == 1,
        shl_spec(s, x, y).regs[15] == 0 || shl_spec(s, x, y).regs[15] == 1,
        x != 15 ==> add_reg_spec(s, x, y).regs[x as int]
            == (((rv(s, x) + rv(s, y)) % 256) as u8),
        x != 15 ==> sub_reg_spec(s, x, y).regs[x as int]
            == (((rv(s, x) - rv(s, y) + 256) % 256) as u8),
{
}

/// On a just-cleared screen any draw reproduces exactly the sprite's bit
/// pattern and reports no collision.
pub proof fn lemma_draw_on_clear(s: MachineV, x: u8, y: u8, n: u8)
    requires
        s.wf(),
        x < 16,
        y < 16,
        n < 16,
        s.index + n <= 4096,
    ensures
        ({
            let s1 = cls_spec(s);
            let (s2, f) = drw_spec(s1, x, y, n);
            &&& f is None
            &&& s2.regs[15] == 0
            &&& forall|p: int| 0 <= p < 2048 ==> s2.video[p] == sprite_flips(
                s.mem, s.index as int, n as int,
                (rv(s, x) % 64) as int, (rv(s, y) % 32) as int,
                s.quirks.wrap_sprites, p)
        }),
{
    let s1 = cls_spec(s);
    assert(forall|p: int| 0 <= p < 2048 ==> !s1.video[p]);
}

/// Drawing the same sprite at the same anchor twice, with nothing in
/// between, restores every pixel, and the second draw reports a collision
/// exactly when the first draw turned some pixel on.  (`VF` itself cannot
/// be an anchor register here: the first draw overwrites it.)
pub proof fn lemma_draw_twice_round_trip(s: MachineV, x: u8, y: u8, n: u8)
    requires
        s.wf(),
        x < 15,
        y < 15,
        n < 16,
        s.index + n <= 4096,
    ensures
        ({
            let (s1, f1) = drw_spec(s, x, y, n);
            let (s2, f2) = drw_spec(s1, x, y, n);
            &&& f1 is None
            &&& f2 is None
            &&& s2.video =~= s.video
            &&& s2.regs[15] == (if exists|p: int| 0 <= p < 2048 && !s.video[p] && sprite_flips(
                    s.mem, s.index as int, n as int,
                    (rv(s, x) % 64) as int, (rv(s, y) % 32) as int,
                    s.quirks.wrap_sprites, p) { 1u8 } else { 0u8 })
        }),
{
    let i = s.index as int;
    let nn = n as int;
    let x0 = (rv(s, x) % 64) as int;
    let y0 = (rv(s, y) % 32) as int;
    let wrap = s.quirks.wrap_sprites;
    let (s1, f1) = drw_spec(s, x, y, n);
    let (s2, f2) = drw_spec(s1, x, y, n);
    assert(rv(s1, x) == rv(s, x));
    assert(rv(s1, y) == rv(s, y));
    assert(s2.video =~= s.video);
    if exists|p: int| 0 <= p < 2048 && !s.video[p]
        && sprite_flips(s.mem, i, nn, x0, y0, wrap, p) {
        let p = choose|p: int| 0 <= p < 2048 && !s.video[p]
            && sprite_flips(s.mem, i, nn, x0, y0, wrap, p);
        assert(s1.video[p] && sprite_flips(s1.mem, i, nn, x0, y0, wrap, p));
        assert(s2.regs[15] == 1);
    } else {
        assert forall|p: int| !(0 <= p < 2048 && s1.video[p]
            && sprite_flips(s1.mem, i, nn, x0, y0, wrap, p)) by {
            if 0 <= p < 2048 && sprite_flips(s.mem, i, nn, x0, y0, wrap, p) {
                assert(s.video[p]);
                assert(!s1.video[p]);
            }
        }
        assert(s2.regs[15] == 0);
    }
}

/// `CALL nnn` then `RET` comes back to the instruction immediately after
/// the `CALL` — the program counter was already advanced past the `CALL`
/// when it was pushed — with the stack depth restored and registers,
/// memory and screen untouched.
pub proof fn lemma_call_ret(s: MachineV, nnn: u16)
    requires
        s.wf(),
        s.sp < 16,
    ensures
        ({
            let (s1, f1) = call_spec(s, nnn);
            let (s2, f2) = ret_spec(s1);
            &&& f1 is None
            &&& f2 is None
            &&& s1.pc == nnn
            &&& s2.pc == s.pc
            &&& s2.sp == s.sp
            &&& s2.regs == s.regs
            &&& s2.mem == s.mem
            &&& s2.video == s.video
        }),
{
}

/// The stack-depth rule: a `CALL` succeeds and deepens the stack by one
/// exactly while fewer than 16 calls are live, and faults with
/// `StackOverflow`, changing nothing, on the seventeenth; a `RET` on an
/// empty stack faults with `StackUnderflow`, changing nothing.
pub proof fn lemma_stack_depth(s: MachineV, nnn: u16)
    requires
        s.wf(),
    ensures
        s.sp < 16 ==> call_spec(s, nnn).1 is None && call_spec(s, nnn).0.sp == s.sp + 1,
        s.sp == 16 ==> call_spec(s, nnn).1 == Some(Fault::StackOverflow)
            && call_spec(s, nnn).0 == s,
        s.sp == 0 ==> ret_spec(s).1 == Some(Fault::StackUnderflow) && ret_spec(s).0 == s,
        s.sp > 0 ==> ret_spec(s).1 is None && ret_spec(s).0.sp == s.sp - 1,
{
}

/// The delay (or sound) timer after `k` clock ticks.
pub open spec fn ticks(d: u8, k: nat) -> u8
    decreases k,
{
    if k == 0 { d } else { timer_dec(ticks(d, (k - 1) as nat)) }
}

/// A timer started at `d` reaches zero after exactly `d` ticks and stays
/// there: it never wraps below zero.
pub proof fn lemma_timer_saturates(d: u8, k: nat)
    ensures
        ticks(d, k) == if k < d { (d - k) as u8 } else { 0u8 },
    decreases k,
{
    if k > 0 {
        lemma_timer_saturates(d, (k - 1) as nat);
    }
}

/// `JP V0, nnn` jumps to `nnn + V0` — the literal addressing mode, not
/// the `Vx`-indexed variant of later dialects — and changes nothing else.
pub proof fn lemma_jp_v0_literal(s: MachineV, nnn: u16)
    requires
        s.wf(),
        nnn < 0x1000,
    ensures
        jp_v0_spec(s, nnn).pc == nnn + s.regs[0],
        jp_v0_spec(s, nnn) == (MachineV { pc: ((nnn + s.regs[0]) as u16), ..s }),
{
}

/// A step on a jump-to-itself instruction returns the very same state:
/// the machine oscillates forever without faulting.
pub proof fn lemma_self_jump_step(s: MachineV)
    requires
        s.wf(),
        s.pc == 0x200,
        s.mem[0x200] == 0x12,
        s.mem[0x201] == 0x00,
    ensures
        step_spec(s).1 == Ok::<u16, Fault>(0x1200),
        step_spec(s).0 == s,
{
    assert(step_spec(s).0 =~= s);
}

} // verus!
