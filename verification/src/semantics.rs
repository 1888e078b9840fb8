//! The meaning of each instruction, as a transition over `MachineV`.
//!
//! Every transition takes the state *after* the program counter has been
//! advanced past the instruction; jumps simply overwrite the counter.  A
//! transition yields the next state and, for the few instructions that can
//! fault, `Some` fault; a faulting instruction has no effect on the state.
//!
//! `step_spec` is the full fetch-decode-execute step that
//! `Chip8::cycle` is proved to implement.

use vstd::prelude::*;

use crate::decode::{field_kk, field_n, field_nnn, field_x, field_y, spec_decode, Instr};
use crate::machine::{Fault, MachineV, FONT_BASE};

verus! {

/// The value of register `Vx`.
pub open spec fn rv(s: MachineV, x: u8) -> u8 {
    s.regs[x as int]
}

/// `s` with the program counter moved past one more instruction, as the
/// skip instructions do.
pub open spec fn skip_spec(s: MachineV, cond: bool) -> MachineV {
    if cond {
        MachineV { pc: ((s.pc + 2) as u16), ..s }
    } else {
        s
    }
}

/// `00E0`: every pixel off.
pub open spec fn cls_spec(s: MachineV) -> MachineV {
    MachineV { video: Seq::new(2048, |p: int| false), ..s }
}

/// `00EE`: pop the return address into the program counter; underflow on
/// an empty stack.
pub open spec fn ret_spec(s: MachineV) -> (MachineV, Option<Fault>) {
    if s.sp <= 0 {
        (s, Some(Fault::StackUnderflow))
    } else {
        (MachineV { sp: s.sp - 1, pc: s.stack[s.sp - 1], ..s }, None)
    }
}

/// `1nnn`.
pub open spec fn jp_spec(s: MachineV, nnn: u16) -> MachineV {
    MachineV { pc: nnn, ..s }
}

/// `2nnn`: push the already-advanced program counter, then jump; overflow
/// on a full stack.
pub open spec fn call_spec(s: MachineV, nnn: u16) -> (MachineV, Option<Fault>) {
    if s.sp >= 16 {
        (s, Some(Fault::StackOverflow))
    } else {
        (MachineV { stack: s.stack.update(s.sp, s.pc), sp: s.sp + 1, pc: nnn, ..s }, None)
    }
}

/// `6xkk`.
pub open spec fn ld_byte_spec(s: MachineV, x: u8, kk: u8) -> MachineV {
    MachineV { regs: s.regs.update(x as int, kk), ..s }
}

/// `7xkk`: truncating addition; `VF` is not a flag here.
pub open spec fn add_byte_spec(s: MachineV, x: u8, kk: u8) -> MachineV {
    MachineV { regs: s.regs.update(x as int, (((rv(s, x) + kk) % 256) as u8)), ..s }
}

/// `8xy0`.
pub open spec fn ld_reg_spec(s: MachineV, x: u8, y: u8) -> MachineV {
    MachineV { regs: s.regs.update(x as int, rv(s, y)), ..s }
}

/// `8xy1`.
pub open spec fn or_reg_spec(s: MachineV, x: u8, y: u8) -> MachineV {
    MachineV { regs: s.regs.update(x as int, rv(s, x) | rv(s, y)), ..s }
}

/// `8xy2`.
pub open spec fn and_reg_spec(s: MachineV, x: u8, y: u8) -> MachineV {
    MachineV { regs: s.regs.update(x as int, rv(s, x) & rv(s, y)), ..s }
}

/// `8xy3`.
pub open spec fn xor_reg_spec(s: MachineV, x: u8, y: u8) -> MachineV {
    MachineV { regs: s.regs.update(x as int, rv(s, x) ^ rv(s, y)), ..s }
}

/// `8xy4`: the truncated sum goes to `Vx` first, the carry flag to `VF`
/// last, so the flag wins when `x` is 15.
pub open spec fn add_reg_spec(s: MachineV, x: u8, y: u8) -> MachineV {
    let sum = rv(s, x) + rv(s, y);
    MachineV {
        regs: s.regs
            .update(x as int, ((sum % 256) as u8))
            .update(15, if sum > 255 { 1u8 } else { 0u8 }),
        ..s
    }
}

/// `8xy5`: `Vx - Vy` modulo 256; `VF` = 1 exactly when there is no
/// borrow (`Vx >= Vy`), written last.
pub open spec fn sub_reg_spec(s: MachineV, x: u8, y: u8) -> MachineV {
    let a = rv(s, x);
    let b = rv(s, y);
    MachineV {
        regs: s.regs
            .update(x as int, (((a - b + 256) % 256) as u8))
            .update(15, if a >= b { 1u8 } else { 0u8 }),
        ..s
    }
}

/// The source register of a shift: `Vy` under the legacy quirk, `Vx`
/// otherwise.
pub open spec fn shift_src(s: MachineV, x: u8, y: u8) -> u8 {
    if s.quirks.legacy_shift { rv(s, y) } else { rv(s, x) }
}

/// `8xy6`: `VF` = the bit shifted out, written last.
pub open spec fn shr_spec(s: MachineV, x: u8, y: u8) -> MachineV {
    let src = shift_src(s, x, y);
    MachineV {
        regs: s.regs
            .update(x as int, ((src / 2) as u8))
            .update(15, ((src % 2) as u8)),
        ..s
    }
}

/// `8xy7`: `Vy - Vx` modulo 256; `VF` = 1 exactly when `Vy >= Vx`,
/// written last.
pub open spec fn subn_reg_spec(s: MachineV, x: u8, y: u8) -> MachineV {
    let a = rv(s, x);
    let b = rv(s, y);
    MachineV {
        regs: s.regs
            .update(x as int, (((b - a + 256) % 256) as u8))
            .update(15, if b >= a { 1u8 } else { 0u8 }),
        ..s
    }
}

/// `8xyE`: `VF` = the bit shifted out, written last.
pub open spec fn shl_spec(s: MachineV, x: u8, y: u8) -> MachineV {
    let src = shift_src(s, x, y);
    MachineV {
        regs: s.regs
            .update(x as int, (((src * 2) % 256) as u8))
            .update(15, ((src / 128) as u8)),
        ..s
    }
}

/// `Annn`.
pub open spec fn ld_i_spec(s: MachineV, nnn: u16) -> MachineV {
    MachineV { index: nnn, ..s }
}

/// `Bnnn`: the literal addressing mode, `pc = nnn + V0`.
pub open spec fn jp_v0_spec(s: MachineV, nnn: u16) -> MachineV {
    MachineV { pc: ((nnn + s.regs[0]) as u16), ..s }
}

/// The next state of the pseudo-random generator: a linear congruential
/// step modulo 2^16.
pub open spec fn next_rng(r: u16) -> u16 {
    (((r * 25173) + 13849) % 0x10000) as u16
}

/// The byte a generator state yields.
pub open spec fn rand_byte(r: u16) -> u8 {
    (r / 256) as u8
}

/// `Cxkk`: advance the generator, mask its byte with `kk`.
pub open spec fn rnd_spec(s: MachineV, x: u8, kk: u8) -> MachineV {
    let r2 = next_rng(s.rng);
    MachineV { rng: r2, regs: s.regs.update(x as int, rand_byte(r2) & kk), ..s }
}

/// `Ex9E`: only the low nibble of `Vx` selects a key.
pub open spec fn skp_spec(s: MachineV, x: u8) -> MachineV {
    skip_spec(s, s.keys[(rv(s, x) % 16) as int])
}

/// `ExA1`.
pub open spec fn sknp_spec(s: MachineV, x: u8) -> MachineV {
    skip_spec(s, !s.keys[(rv(s, x) % 16) as int])
}

/// The lowest-numbered pressed key at or above `k`, if any.
pub open spec fn first_pressed_from(keys: Seq<bool>, k: int) -> Option<u8>
    decreases 16 - k,
{
    if k < 0 || k >= 16 {
        None
    } else if keys[k] {
        Some(k as u8)
    } else {
        first_pressed_from(keys, k + 1)
    }
}

/// The lowest-numbered pressed key, if any.
pub open spec fn first_pressed(keys: Seq<bool>) -> Option<u8> {
    first_pressed_from(keys, 0)
}

/// `Fx07`.
pub open spec fn ld_vx_dt_spec(s: MachineV, x: u8) -> MachineV {
    MachineV { regs: s.regs.update(x as int, s.delay), ..s }
}

/// `Fx0A`: with a key down, store its code and go on; with none, rewind
/// the program counter onto this instruction and record the wait, so the
/// host's next `cycle` re-polls instead of blocking.
pub open spec fn ld_vx_k_spec(s: MachineV, x: u8) -> MachineV {
    match first_pressed(s.keys) {
        Some(k) => MachineV { regs: s.regs.update(x as int, k), waiting: None, ..s },
        None => MachineV {
            waiting: Some(x),
            pc: if s.pc >= 2 { ((s.pc - 2) as u16) } else { 0 },
            ..s
        },
    }
}

/// `Fx15`.
pub open spec fn ld_dt_vx_spec(s: MachineV, x: u8) -> MachineV {
    MachineV { delay: rv(s, x), ..s }
}

/// `Fx18`.
pub open spec fn ld_st_vx_spec(s: MachineV, x: u8) -> MachineV {
    MachineV { sound: rv(s, x), ..s }
}

/// `Fx1E`: the index wraps modulo 4096 rather than faulting.
pub open spec fn add_i_vx_spec(s: MachineV, x: u8) -> MachineV {
    MachineV { index: (((s.index + rv(s, x)) % 4096) as u16), ..s }
}

/// `Fx29`: the glyph of the low nibble of `Vx` is 5 bytes into the font.
pub open spec fn ld_f_spec(s: MachineV, x: u8) -> MachineV {
    MachineV { index: ((FONT_BASE + 5 * (rv(s, x) % 16)) as u16), ..s }
}

/// `Fx33`: hundreds, tens, ones of `Vx` at `I`, `I+1`, `I+2`.
pub open spec fn ld_b_spec(s: MachineV, x: u8) -> (MachineV, Option<Fault>) {
    if s.index + 3 > 4096 {
        (s, Some(Fault::MemoryOutOfRange))
    } else {
        let v = rv(s, x);
        let i = s.index as int;
        (MachineV {
            mem: s.mem
                .update(i, ((v / 100) as u8))
                .update(i + 1, (((v / 10) % 10) as u8))
                .update(i + 2, ((v % 10) as u8)),
            ..s
        }, None)
    }
}

/// `Fx55`: `V0..=Vx` into memory at `I`; under the increment quirk `I`
/// ends past the block.
pub open spec fn ld_through_i_spec(s: MachineV, x: u8) -> (MachineV, Option<Fault>) {
    if s.index + x + 1 > 4096 {
        (s, Some(Fault::MemoryOutOfRange))
    } else {
        let i = s.index as int;
        (MachineV {
            mem: Seq::new(4096, |a: int|
                if i <= a <= i + x { s.regs[a - i] } else { s.mem[a] }),
            index: if s.quirks.increment_index { (((s.index + x + 1) % 4096) as u16) } else { s.index },
            ..s
        }, None)
    }
}

/// `Fx65`: memory at `I` into `V0..=Vx`; under the increment quirk `I`
/// ends past the block.
pub open spec fn read_through_i_spec(s: MachineV, x: u8) -> (MachineV, Option<Fault>) {
    if s.index + x + 1 > 4096 {
        (s, Some(Fault::MemoryOutOfRange))
    } else {
        let i = s.index as int;
        (MachineV {
            regs: Seq::new(16, |r: int|
                if 0 <= r <= x { s.mem[i + r] } else { s.regs[r] }),
            index: if s.quirks.increment_index { (((s.index + x + 1) % 4096) as u16) } else { s.index },
            ..s
        }, None)
    }
}

/// The place value of sprite column `c`, most significant bit first.
pub open spec fn col_weight(c: int) -> int {
    if c == 0 { 128 }
    else if c == 1 { 64 }
    else if c == 2 { 32 }
    else if c == 3 { 16 }
    else if c == 4 { 8 }
    else if c == 5 { 4 }
    else if c == 6 { 2 }
    else { 1 }
}

/// Whether bit `c` (most significant first) of a sprite row byte is set.
pub open spec fn bit_set(b: u8, c: int) -> bool {
    (b as int / col_weight(c)) % 2 == 1
}

/// Whether a draw of the `n`-row sprite at `mem[i ..]` anchored at
/// `(x0, y0)` flips pixel `(col, row)`, counting only the sprite cells
/// strictly before row `rd`, column `cd` in drawing order.
///
/// The sprite cell aimed at `(col, row)` is unique: its row offset is
/// `(row - y0) mod 32` and its column offset `(col - x0) mod 64`.  Without
/// the wrap quirk a cell that runs off the screen edge is clipped.
pub open spec fn hits_within(
    mem: Seq<u8>, i: int, n: int, x0: int, y0: int, wrap: bool,
    col: int, row: int, rd: int, cd: int,
) -> bool {
    let r = (row - y0 + 32) % 32;
    let c = (col - x0 + 64) % 64;
    &&& r < n
    &&& c < 8
    &&& (r < rd || (r == rd && c < cd))
    &&& (wrap || (y0 + r < 32 && x0 + c < 64))
    &&& bit_set(mem[i + r], c)
}

/// `hits_within` at pixel index `p` of the row-major framebuffer.
pub open spec fn hits_at(
    mem: Seq<u8>, i: int, n: int, x0: int, y0: int, wrap: bool, p: int, rd: int, cd: int,
) -> bool {
    hits_within(mem, i, n, x0, y0, wrap, p % 64, p / 64, rd, cd)
}

/// Whether a full draw of the `n`-row sprite flips pixel `p`.
pub open spec fn sprite_flips(
    mem: Seq<u8>, i: int, n: int, x0: int, y0: int, wrap: bool, p: int,
) -> bool {
    hits_at(mem, i, n, x0, y0, wrap, p, n, 0)
}

/// The framebuffer after a full draw: each flipped pixel toggled.
pub open spec fn draw_video(
    video: Seq<bool>, mem: Seq<u8>, i: int, n: int, x0: int, y0: int, wrap: bool,
) -> Seq<bool> {
    Seq::new(2048, |p: int| video[p] != sprite_flips(mem, i, n, x0, y0, wrap, p))
}

/// Whether a full draw turns any lit pixel off: the collision flag.
pub open spec fn sprite_collides(
    video: Seq<bool>, mem: Seq<u8>, i: int, n: int, x0: int, y0: int, wrap: bool,
) -> bool {
    exists|p: int| 0 <= p < 2048 && video[p] && sprite_flips(mem, i, n, x0, y0, wrap, p)
}

/// `Dxyn`: XOR the sprite onto the screen at `(Vx mod 64, Vy mod 32)`;
/// `VF` = 1 exactly when a lit pixel went out.  Reading the sprite past
/// the end of memory is a fault.
pub open spec fn drw_spec(s: MachineV, x: u8, y: u8, n: u8) -> (MachineV, Option<Fault>) {
    if s.index + n > 4096 {
        (s, Some(Fault::MemoryOutOfRange))
    } else {
        let i = s.index as int;
        let x0 = rv(s, x) % 64;
        let y0 = rv(s, y) % 32;
        let wrap = s.quirks.wrap_sprites;
        let collision = sprite_collides(s.video, s.mem, i, n as int, x0 as int, y0 as int, wrap);
        (MachineV {
            video: draw_video(s.video, s.mem, i, n as int, x0 as int, y0 as int, wrap),
            regs: s.regs.update(15, if collision { 1u8 } else { 0u8 }),
            ..s
        }, None)
    }
}

/// The effect of one decoded instruction on the already-advanced state.
pub open spec fn instr_effect(s: MachineV, instr: Instr) -> (MachineV, Option<Fault>) {
    match instr {
        Instr::Cls => (cls_spec(s), None),
        Instr::Ret => ret_spec(s),
        Instr::Jp { nnn } => (jp_spec(s, nnn), None),
        Instr::Call { nnn } => call_spec(s, nnn),
        Instr::SeByte { x, kk } => (skip_spec(s, rv(s, x) == kk), None),
        Instr::SneByte { x, kk } => (skip_spec(s, rv(s, x) != kk), None),
        Instr::SeReg { x, y } => (skip_spec(s, rv(s, x) == rv(s, y)), None),
        Instr::LdByte { x, kk } => (ld_byte_spec(s, x, kk), None),
        Instr::AddByte { x, kk } => (add_byte_spec(s, x, kk), None),
        Instr::LdReg { x, y } => (ld_reg_spec(s, x, y), None),
        Instr::OrReg { x, y } => (or_reg_spec(s, x, y), None),
        Instr::AndReg { x, y } => (and_reg_spec(s, x, y), None),
        Instr::XorReg { x, y } => (xor_reg_spec(s, x, y), None),
        Instr::AddReg { x, y } => (add_reg_spec(s, x, y), None),
        Instr::SubReg { x, y } => (sub_reg_spec(s, x, y), None),
        Instr::Shr { x, y } => (shr_spec(s, x, y), None),
        Instr::SubnReg { x, y } => (subn_reg_spec(s, x, y), None),
        Instr::Shl { x, y } => (shl_spec(s, x, y), None),
        Instr::SneReg { x, y } => (skip_spec(s, rv(s, x) != rv(s, y)), None),
        Instr::LdI { nnn } => (ld_i_spec(s, nnn), None),
        Instr::JpV0 { nnn } => (jp_v0_spec(s, nnn), None),
        Instr::Rnd { x, kk } => (rnd_spec(s, x, kk), None),
        Instr::Drw { x, y, n } => drw_spec(s, x, y, n),
        Instr::Skp { x } => (skp_spec(s, x), None),
        Instr::Sknp { x } => (sknp_spec(s, x), None),
        Instr::LdVxDt { x } => (ld_vx_dt_spec(s, x), None),
        Instr::LdVxK { x } => (ld_vx_k_spec(s, x), None),
        Instr::LdDtVx { x } => (ld_dt_vx_spec(s, x), None),
        Instr::LdStVx { x } => (ld_st_vx_spec(s, x), None),
        Instr::AddIVx { x } => (add_i_vx_spec(s, x), None),
        Instr::LdF { x } => (ld_f_spec(s, x), None),
        Instr::LdB { x } => ld_b_spec(s, x),
        Instr::LdThroughI { x } => ld_through_i_spec(s, x),
        Instr::ReadThroughI { x } => read_through_i_spec(s, x),
    }
}

/// A transition's fault, as the result a handler returns.
pub open spec fn fault_result(f: Option<Fault>) -> Result<(), Fault> {
    match f {
        None => Ok(()),
        Some(ft) => Err(ft),
    }
}

/// The big-endian instruction word at the program counter.
pub open spec fn word_at(s: MachineV) -> u16 {
    ((s.mem[s.pc as int] * 256 + s.mem[s.pc as int + 1]) as u16)
}

/// `s` with the program counter advanced past the fetched instruction.
pub open spec fn advance_spec(s: MachineV) -> MachineV {
    MachineV { pc: ((s.pc + 2) as u16), ..s }
}

/// One full fetch-decode-execute step.
///
/// A fetch past `0xFFF` leaves the state untouched.  After a successful
/// fetch the advance of the program counter always stands, so a host that
/// chooses to ignore a decode or execution fault continues behind the
/// faulting instruction; the faulting instruction itself has no effect.
pub open spec fn step_spec(s: MachineV) -> (MachineV, Result<u16, Fault>) {
    if s.pc + 1 >= 4096 {
        (s, Err(Fault::MemoryOutOfRange))
    } else {
        let w = word_at(s);
        match spec_decode(w) {
            None => (advance_spec(s), Err(Fault::UnknownOpcode(w))),
            Some(instr) => {
                let (s2, f) = instr_effect(advance_spec(s), instr);
                match f {
                    None => (s2, Ok(w)),
                    Some(ft) => (s2, Err(ft)),
                }
            }
        }
    }
}

/// The operand fields of the word an instruction was decoded from stay in
/// range, so a decoded instruction applied to a well-formed state keeps
/// it well formed, as long as the program counter came through a fetch
/// (at most `0x1000` after the advance).
pub proof fn lemma_instr_effect_wf(s: MachineV, instr: Instr)
    requires
        s.wf(),
        s.pc <= 0x1000,
        crate::decode::instr_operands_in_range(instr),
    ensures
        instr_effect(s, instr).0.wf(),
{
}

/// A step keeps the state well formed.
pub proof fn lemma_step_wf(s: MachineV)
    requires
        s.wf(),
    ensures
        step_spec(s).0.wf(),
{
    if s.pc + 1 < 4096 {
        let w = word_at(s);
        if spec_decode(w) is Some {
            crate::decode::lemma_decode_operands_in_range(w);
            lemma_instr_effect_wf(advance_spec(s), spec_decode(w)->0);
        }
    }
}

} // verus!
