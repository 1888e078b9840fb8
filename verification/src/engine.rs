//! The fetch-decode-execute engine: `cycle` and the opcode handlers.
//!
//! `cycle` fetches the two bytes at the program counter, advances the
//! counter by two *before* executing — so jumps simply overwrite it — and
//! dispatches.  Every handler is proved to implement the matching
//! transition function of `crate::semantics`.

use vstd::prelude::*;

use vstd::arithmetic::div_mod::lemma_fundamental_div_mod_converse;

use crate::decode::{decode, instr_operands_in_range, lemma_decode_operands_in_range, Instr};
use crate::machine::{Chip8, Fault, MachineV, FONT_BASE};
use crate::semantics::{
    add_byte_spec, add_i_vx_spec, add_reg_spec, advance_spec, and_reg_spec, bit_set, call_spec,
    cls_spec, col_weight, draw_video, drw_spec, fault_result, first_pressed, first_pressed_from,
    hits_at, instr_effect, jp_spec, jp_v0_spec, ld_b_spec, ld_byte_spec, ld_dt_vx_spec,
    ld_f_spec, ld_i_spec, ld_reg_spec, ld_st_vx_spec, ld_through_i_spec, ld_vx_dt_spec,
    ld_vx_k_spec, next_rng, or_reg_spec, read_through_i_spec, ret_spec, rnd_spec, shl_spec,
    shr_spec, skip_spec, sknp_spec, skp_spec, sprite_collides, step_spec, sub_reg_spec,
    subn_reg_spec, word_at, xor_reg_spec,
};

verus! {

/// For `0 <= a < 2m`, `a % m` subtracts `m` at most once.
proof fn lemma_mod_split(a: int, m: int)
    requires
        0 < m,
        0 <= a < 2 * m,
    ensures
        a % m == if a < m { a } else { a - m },
{
    if a < m {
        lemma_fundamental_div_mod_converse(a, m, 0, a);
    } else {
        lemma_fundamental_div_mod_converse(a, m, 1, a - m);
    }
}

/// Row and column of the pixel index `py * 64 + px`.
proof fn lemma_pixel_coords(py: int, px: int)
    requires
        0 <= py < 32,
        0 <= px < 64,
    ensures
        (py * 64 + px) / 64 == py,
        (py * 64 + px) % 64 == px,
        0 <= py * 64 + px < 2048,
{
    lemma_fundamental_div_mod_converse(py * 64 + px, 64, py, px);
}

/// The sprite cell `(r, c)` lands on screen coordinate
/// `((y0 + r) % 32, (x0 + c) % 64)`, and that coordinate maps back to
/// `(r, c)`.
proof fn lemma_cell_roundtrip(y0: int, r: int, m: int)
    requires
        0 < m,
        0 <= y0 < m,
        0 <= r < m,
    ensures
        ((y0 + r) % m - y0 + m) % m == r,
        0 <= (y0 + r) % m < m,
{
    lemma_mod_split(y0 + r, m);
    lemma_mod_split((y0 + r) % m - y0 + m, m);
}

/// A screen coordinate determines the sprite cell aimed at it: mapping
/// the cell back to the screen returns the coordinate.
proof fn lemma_cell_unique(y0: int, prow: int, m: int)
    requires
        0 < m,
        0 <= y0 < m,
        0 <= prow < m,
    ensures
        (y0 + ((prow - y0 + m) % m)) % m == prow,
        0 <= (prow - y0 + m) % m < m,
{
    lemma_mod_split(prow - y0 + m, m);
    lemma_mod_split(y0 + ((prow - y0 + m) % m), m);
}

/// Whether bit `c` (most significant first) of a sprite row byte is set.
fn bit_at(b: u8, c: usize) -> (r: bool)
    requires
        c < 8,
    ensures
        r == bit_set(b, c as int),
{
    let w: u8 = if c == 0 { 128 }
        else if c == 1 { 64 }
        else if c == 2 { 32 }
        else if c == 3 { 16 }
        else if c == 4 { 8 }
        else if c == 5 { 4 }
        else if c == 6 { 2 }
        else { 1 };
    assert(w as int == col_weight(c as int));
    (b / w) % 2 == 1
}

impl Chip8 {
    /// `00E0`: clears the framebuffer.
    pub fn op_00e0(&mut self)
        ensures
            final(self)@ == cls_spec(old(self)@),
    {
        let mut p: usize = 0;
        while p < 2048
            invariant
                p <= 2048,
                self@ == (MachineV { video: self@.video, ..old(self)@ }),
                forall|q: int| 0 <= q < p ==> !self@.video[q],
                forall|q: int| p <= q < 2048 ==> self@.video[q] == old(self)@.video[q],
            decreases 2048 - p,
        {
            self.video[p] = false;
            p = p + 1;
        }
        assert(self@.video =~= cls_spec(old(self)@).video);
    }

    /// `00EE`: pops the stack into the program counter.
    fn op_00ee(&mut self) -> (res: Result<(), Fault>)
        requires
            old(self)@.wf(),
        ensures
            final(self)@ == ret_spec(old(self)@).0,
            res == fault_result(ret_spec(old(self)@).1),
    {
        if self.sp == 0 {
            return Err(Fault::StackUnderflow);
        }
        self.sp = self.sp - 1;
        self.pc = self.stack[self.sp];
        Ok(())
    }

    /// `1nnn`: jumps.
    fn op_1nnn(&mut self, nnn: u16)
        ensures
            final(self)@ == jp_spec(old(self)@, nnn),
    {
        self.pc = nnn;
    }

    /// `2nnn`: pushes the already-advanced program counter, then jumps.
    fn op_2nnn(&mut self, nnn: u16) -> (res: Result<(), Fault>)
        requires
            old(self)@.wf(),
        ensures
            final(self)@ == call_spec(old(self)@, nnn).0,
            res == fault_result(call_spec(old(self)@, nnn).1),
    {
        if self.sp >= 16 {
            return Err(Fault::StackOverflow);
        }
        self.stack[self.sp] = self.pc;
        self.sp = self.sp + 1;
        self.pc = nnn;
        Ok(())
    }

    /// Moves the program counter past one more instruction if `cond`.
    fn skip(&mut self, cond: bool)
        requires
            old(self)@.pc < 0x1100,
        ensures
            final(self)@ == skip_spec(old(self)@, cond),
    {
        if cond {
            self.pc = self.pc + 2;
        }
    }

    /// `6xkk`.
    fn op_6xkk(&mut self, x: u8, kk: u8)
        requires
            x < 16,
        ensures
            final(self)@ == ld_byte_spec(old(self)@, x, kk),
    {
        self.registers[x as usize] = kk;
    }

    /// `7xkk`: truncating add, no flag.
    fn op_7xkk(&mut self, x: u8, kk: u8)
        requires
            x < 16,
        ensures
            final(self)@ == add_byte_spec(old(self)@, x, kk),
    {
        let sum: u16 = self.registers[x as usize] as u16 + kk as u16;
        self.registers[x as usize] = (sum % 256) as u8;
    }

    /// `8xy0`.
    fn op_8xy0(&mut self, x: u8, y: u8)
        requires
            x < 16,
            y < 16,
        ensures
            final(self)@ == ld_reg_spec(old(self)@, x, y),
    {
        self.registers[x as usize] = self.registers[y as usize];
    }

    /// `8xy1`.
    fn op_8xy1(&mut self, x: u8, y: u8)
        requires
            x < 16,
            y < 16,
        ensures
            final(self)@ == or_reg_spec(old(self)@, x, y),
    {
        self.registers[x as usize] = self.registers[x as usize] | self.registers[y as usize];
    }

    /// `8xy2`.
    fn op_8xy2(&mut self, x: u8, y: u8)
        requires
            x < 16,
            y < 16,
        ensures
            final(self)@ == and_reg_spec(old(self)@, x, y),
    {
        self.registers[x as usize] = self.registers[x as usize] & self.registers[y as usize];
    }

    /// `8xy3`.
    fn op_8xy3(&mut self, x: u8, y: u8)
        requires
            x < 16,
            y < 16,
        ensures
            final(self)@ == xor_reg_spec(old(self)@, x, y),
    {
        self.registers[x as usize] = self.registers[x as usize] ^ self.registers[y as usize];
    }

    /// `8xy4`: the carry goes to `VF` after the sum goes to `Vx`.
    fn op_8xy4(&mut self, x: u8, y: u8)
        requires
            x < 16,
            y < 16,
        ensures
            final(self)@ == add_reg_spec(old(self)@, x, y),
    {
        let sum: u16 = self.registers[x as usize] as u16 + self.registers[y as usize] as u16;
        self.registers[x as usize] = (sum % 256) as u8;
        self.registers[15] = if sum > 255 { 1 } else { 0 };
    }

    /// `8xy5`: the no-borrow flag goes to `VF` after the difference.
    fn op_8xy5(&mut self, x: u8, y: u8)
        requires
            x < 16,
            y < 16,
        ensures
            final(self)@ == sub_reg_spec(old(self)@, x, y),
    {
        let a = self.registers[x as usize];
        let b = self.registers[y as usize];
        let diff: u16 = (a as u16 + 256 - b as u16) % 256;
        self.registers[x as usize] = diff as u8;
        self.registers[15] = if a >= b { 1 } else { 0 };
    }

    /// `8xy6`: the bit shifted out goes to `VF` after the result.
    fn op_8xy6(&mut self, x: u8, y: u8)
        requires
            x < 16,
            y < 16,
        ensures
            final(self)@ == shr_spec(old(self)@, x, y),
    {
        let src = if self.quirks.legacy_shift {
            self.registers[y as usize]
        } else {
            self.registers[x as usize]
        };
        self.registers[x as usize] = src / 2;
        self.registers[15] = src % 2;
    }

    /// `8xy7`: the no-borrow flag goes to `VF` after the difference.
    fn op_8xy7(&mut self, x: u8, y: u8)
        requires
            x < 16,
            y < 16,
        ensures
            final(self)@ == subn_reg_spec(old(self)@, x, y),
    {
        let a = self.registers[x as usize];
        let b = self.registers[y as usize];
        let diff: u16 = (b as u16 + 256 - a as u16) % 256;
        self.registers[x as usize] = diff as u8;
        self.registers[15] = if b >= a { 1 } else { 0 };
    }

    /// `8xyE`: the bit shifted out goes to `VF` after the result.
    fn op_8xye(&mut self, x: u8, y: u8)
        requires
            x < 16,
            y < 16,
        ensures
            final(self)@ == shl_spec(old(self)@, x, y),
    {
        let src = if self.quirks.legacy_shift {
            self.registers[y as usize]
        } else {
            self.registers[x as usize]
        };
        self.registers[x as usize] = ((src as u16 * 2) % 256) as u8;
        self.registers[15] = src / 128;
    }

    /// `Annn`.
    fn op_annn(&mut self, nnn: u16)
        ensures
            final(self)@ == ld_i_spec(old(self)@, nnn),
    {
        self.index = nnn;
    }

    /// `Bnnn`: jumps to `nnn + V0`, the literal addressing mode.
    fn op_bnnn(&mut self, nnn: u16)
        requires
            nnn < 0x1000,
        ensures
            final(self)@ == jp_v0_spec(old(self)@, nnn),
    {
        self.pc = nnn + self.registers[0] as u16;
    }

    /// `Cxkk`: a fresh pseudo-random byte masked with `kk`.
    fn op_cxkk(&mut self, x: u8, kk: u8)
        requires
            x < 16,
        ensures
            final(self)@ == rnd_spec(old(self)@, x, kk),
    {
        let t: u32 = self.rng as u32 * 25173 + 13849;
        self.rng = (t % 65536) as u16;
        assert(self.rng == next_rng(old(self)@.rng));
        let b: u8 = (self.rng / 256) as u8;
        self.registers[x as usize] = b & kk;
    }

    /// `Ex9E`.
    fn op_ex9e(&mut self, x: u8)
        requires
            x < 16,
            old(self)@.pc < 0x1100,
        ensures
            final(self)@ == skp_spec(old(self)@, x),
    {
        let k = self.registers[x as usize] % 16;
        let pressed = self.keypad[k as usize];
        self.skip(pressed);
    }

    /// `ExA1`.
    fn op_exa1(&mut self, x: u8)
        requires
            x < 16,
            old(self)@.pc < 0x1100,
        ensures
            final(self)@ == sknp_spec(old(self)@, x),
    {
        let k = self.registers[x as usize] % 16;
        let pressed = self.keypad[k as usize];
        self.skip(!pressed);
    }

    /// The lowest-numbered pressed key, if any.
    fn first_pressed_key(&self) -> (r: Option<u8>)
        ensures
            r == first_pressed(self@.keys),
            r is Some ==> r->0 < 16,
    {
        let mut k: usize = 0;
        while k < 16
            invariant
                k <= 16,
                first_pressed(self@.keys) == first_pressed_from(self@.keys, k as int),
            decreases 16 - k,
        {
            if self.keypad[k] {
                return Some(k as u8);
            }
            assert(first_pressed_from(self@.keys, k as int)
                == first_pressed_from(self@.keys, k as int + 1));
            k = k + 1;
        }
        None
    }

    /// `Fx07`.
    fn op_fx07(&mut self, x: u8)
        requires
            x < 16,
        ensures
            final(self)@ == ld_vx_dt_spec(old(self)@, x),
    {
        self.registers[x as usize] = self.delay_timer;
    }

    /// `Fx0A`: resolves against the current keypad snapshot, or rewinds
    /// the program counter and records the wait.
    fn op_fx0a(&mut self, x: u8)
        requires
            x < 16,
            old(self)@.pc >= 2,
        ensures
            final(self)@ == ld_vx_k_spec(old(self)@, x),
    {
        match self.first_pressed_key() {
            Some(k) => {
                self.registers[x as usize] = k;
                self.waiting = None;
            }
            None => {
                self.waiting = Some(x);
                self.pc = self.pc - 2;
            }
        }
    }

    /// `Fx15`.
    fn op_fx15(&mut self, x: u8)
        requires
            x < 16,
        ensures
            final(self)@ == ld_dt_vx_spec(old(self)@, x),
    {
        self.delay_timer = self.registers[x as usize];
    }

    /// `Fx18`.
    fn op_fx18(&mut self, x: u8)
        requires
            x < 16,
        ensures
            final(self)@ == ld_st_vx_spec(old(self)@, x),
    {
        self.sound_timer = self.registers[x as usize];
    }

    /// `Fx1E`: wraps modulo 4096.
    fn op_fx1e(&mut self, x: u8)
        requires
            x < 16,
            old(self)@.wf(),
        ensures
            final(self)@ == add_i_vx_spec(old(self)@, x),
    {
        self.index = (self.index + self.registers[x as usize] as u16) % 4096;
    }

    /// `Fx29`: the glyph address of the low nibble of `Vx`.
    fn op_fx29(&mut self, x: u8)
        requires
            x < 16,
        ensures
            final(self)@ == ld_f_spec(old(self)@, x),
    {
        let digit = self.registers[x as usize] % 16;
        self.index = FONT_BASE as u16 + 5 * digit as u16;
    }

    /// `Fx33`: the decimal digits of `Vx`, most significant first.
    fn op_fx33(&mut self, x: u8) -> (res: Result<(), Fault>)
        requires
            x < 16,
            old(self)@.wf(),
        ensures
            final(self)@ == ld_b_spec(old(self)@, x).0,
            res == fault_result(ld_b_spec(old(self)@, x).1),
    {
        let i = self.index as usize;
        if i + 3 > 4096 {
            return Err(Fault::MemoryOutOfRange);
        }
        let v = self.registers[x as usize];
        self.memory[i] = v / 100;
        self.memory[i + 1] = (v / 10) % 10;
        self.memory[i + 2] = v % 10;
        Ok(())
    }

    /// `Fx55`: stores `V0..=Vx` at `I`.
    #[verifier::loop_isolation(false)]
    fn op_fx55(&mut self, x: u8) -> (res: Result<(), Fault>)
        requires
            x < 16,
            old(self)@.wf(),
        ensures
            final(self)@ == ld_through_i_spec(old(self)@, x).0,
            res == fault_result(ld_through_i_spec(old(self)@, x).1),
    {
        let i = self.index as usize;
        if i + x as usize + 1 > 4096 {
            return Err(Fault::MemoryOutOfRange);
        }
        let mut r: usize = 0;
        while r < x as usize + 1
            invariant
                r <= x + 1,
                self@ == (MachineV { mem: self@.mem, ..old(self)@ }),
                forall|a: int| 0 <= a < 4096 ==> self@.mem[a] == (
                    if i <= a < i + r { old(self)@.regs[a - i] } else { old(self)@.mem[a] }),
            decreases x as usize + 1 - r,
        {
            self.memory[i + r] = self.registers[r];
            r = r + 1;
        }
        assert(self@.mem =~= ld_through_i_spec(old(self)@, x).0.mem);
        if self.quirks.increment_index {
            self.index = (self.index + x as u16 + 1) % 4096;
        }
        Ok(())
    }

    /// `Fx65`: loads `V0..=Vx` from `I`.
    #[verifier::loop_isolation(false)]
    fn op_fx65(&mut self, x: u8) -> (res: Result<(), Fault>)
        requires
            x < 16,
            old(self)@.wf(),
        ensures
            final(self)@ == read_through_i_spec(old(self)@, x).0,
            res == fault_result(read_through_i_spec(old(self)@, x).1),
    {
        let i = self.index as usize;
        if i + x as usize + 1 > 4096 {
            return Err(Fault::MemoryOutOfRange);
        }
        let mut r: usize = 0;
        while r < x as usize + 1
            invariant
                r <= x + 1,
                self@ == (MachineV { regs: self@.regs, ..old(self)@ }),
                forall|j: int| 0 <= j < 16 ==> self@.regs[j] == (
                    if 0 <= j < r { old(self)@.mem[i + j] } else { old(self)@.regs[j] }),
            decreases x as usize + 1 - r,
        {
            self.registers[r] = self.memory[i + r];
            r = r + 1;
        }
        assert(self@.regs =~= read_through_i_spec(old(self)@, x).0.regs);
        if self.quirks.increment_index {
            self.index = (self.index + x as u16 + 1) % 4096;
        }
        Ok(())
    }

    /// `Dxyn`: XORs the sprite at `I` onto the screen and sets the
    /// collision flag.
    #[verifier::loop_isolation(false)]
    fn op_dxyn(&mut self, x: u8, y: u8, n: u8) -> (res: Result<(), Fault>)
        requires
            x < 16,
            y < 16,
            n < 16,
            old(self)@.wf(),
        ensures
            final(self)@ == drw_spec(old(self)@, x, y, n).0,
            res == fault_result(drw_spec(old(self)@, x, y, n).1),
    {
        let i = self.index as usize;
        if i + n as usize > 4096 {
            return Err(Fault::MemoryOutOfRange);
        }
        let x0 = (self.registers[x as usize] % 64) as usize;
        let y0 = (self.registers[y as usize] % 32) as usize;
        let wrap = self.quirks.wrap_sprites;
        let ghost s0 = self@;
        let mut collision = false;
        let mut r: usize = 0;
        while r < n as usize
            invariant
                r <= n,
                self@ == (MachineV { video: self@.video, ..s0 }),
                forall|p: int| 0 <= p < 2048 ==> self@.video[p] == (s0.video[p] != hits_at(
                    s0.mem, i as int, n as int, x0 as int, y0 as int, wrap, p, r as int, 0)),
                collision == exists|p: int| 0 <= p < 2048 && s0.video[p] && hits_at(
                    s0.mem, i as int, n as int, x0 as int, y0 as int, wrap, p, r as int, 0),
            decreases n as usize - r,
        {
            let row_byte = self.memory[i + r];
            let mut c: usize = 0;
            while c < 8
                invariant
                    c <= 8,
                    r < n,
                    row_byte == s0.mem[i + r],
                    self@ == (MachineV { video: self@.video, ..s0 }),
                    forall|p: int| 0 <= p < 2048 ==> self@.video[p] == (s0.video[p] != hits_at(
                        s0.mem, i as int, n as int, x0 as int, y0 as int, wrap,
                        p, r as int, c as int)),
                    collision == exists|p: int| 0 <= p < 2048 && s0.video[p] && hits_at(
                        s0.mem, i as int, n as int, x0 as int, y0 as int, wrap,
                        p, r as int, c as int),
                decreases 8 - c,
            {
                let bit = bit_at(row_byte, c);
                let py0 = y0 + r;
                let px0 = x0 + c;
                if bit && (wrap || (py0 < 32 && px0 < 64)) {
                    let py = py0 % 32;
                    let px = px0 % 64;
                    let idx = py * 64 + px;
                    proof {
                        lemma_cell_roundtrip(y0 as int, r as int, 32);
                        lemma_cell_roundtrip(x0 as int, c as int, 64);
                        lemma_pixel_coords(py as int, px as int);
                    }
                    let pix = self.video[idx];
                    assert(!hits_at(s0.mem, i as int, n as int, x0 as int, y0 as int, wrap,
                        idx as int, r as int, c as int));
                    assert(pix == s0.video[idx as int]);
                    assert(hits_at(s0.mem, i as int, n as int, x0 as int, y0 as int, wrap,
                        idx as int, r as int, c as int + 1));
                    if pix {
                        collision = true;
                    }
                    self.video[idx] = !pix;
                    proof {
                        assert forall|p: int| 0 <= p < 2048 && p != idx implies
                            hits_at(s0.mem, i as int, n as int, x0 as int, y0 as int, wrap,
                                p, r as int, c as int + 1)
                            == hits_at(s0.mem, i as int, n as int, x0 as int, y0 as int, wrap,
                                p, r as int, c as int)
                        by {
                            let prow = p / 64;
                            let pcol = p % 64;
                            let rr = (prow - y0 + 32) % 32;
                            let cc = (pcol - x0 + 64) % 64;
                            if rr == r && cc == c {
                                lemma_cell_unique(y0 as int, prow, 32);
                                lemma_cell_unique(x0 as int, pcol, 64);
                                assert(prow == py as int && pcol == px as int);
                                assert(p == prow * 64 + pcol) by {
                                    vstd::arithmetic::div_mod::lemma_fundamental_div_mod(p, 64);
                                };
                                assert(false);
                            }
                        }
                        if pix {
                            assert(s0.video[idx as int] && hits_at(
                                s0.mem, i as int, n as int, x0 as int, y0 as int, wrap,
                                idx as int, r as int, c as int + 1));
                        } else {
                            assert forall|p: int| 0 <= p < 2048 && s0.video[p] && hits_at(
                                s0.mem, i as int, n as int, x0 as int, y0 as int, wrap,
                                p, r as int, c as int + 1) implies hits_at(
                                s0.mem, i as int, n as int, x0 as int, y0 as int, wrap,
                                p, r as int, c as int)
                            by {
                                if p != idx {
                                    // unchanged, shown just above
                                } else {
                                    assert(s0.video[idx as int] == pix);
                                    assert(false);
                                }
                            }
                        }
                    }
                } else {
                    proof {
                        assert forall|p: int| 0 <= p < 2048 implies
                            hits_at(s0.mem, i as int, n as int, x0 as int, y0 as int, wrap,
                                p, r as int, c as int + 1)
                            == hits_at(s0.mem, i as int, n as int, x0 as int, y0 as int, wrap,
                                p, r as int, c as int)
                        by {
                            let prow = p / 64;
                            let pcol = p % 64;
                            let rr = (prow - y0 + 32) % 32;
                            let cc = (pcol - x0 + 64) % 64;
                            if rr == r && cc == c {
                                lemma_cell_unique(y0 as int, prow, 32);
                                lemma_cell_unique(x0 as int, pcol, 64);
                                if wrap {
                                    assert(!bit_set(s0.mem[i + r], c as int));
                                } else if py0 < 32 && px0 < 64 {
                                    assert(!bit_set(s0.mem[i + r], c as int));
                                } else {
                                    assert(!(wrap || (y0 + rr < 32 && x0 + cc < 64)));
                                }
                            }
                        }
                    }
                }
                c = c + 1;
            }
            proof {
                assert forall|p: int| 0 <= p < 2048 implies
                    hits_at(s0.mem, i as int, n as int, x0 as int, y0 as int, wrap,
                        p, r as int, 8)
                    == hits_at(s0.mem, i as int, n as int, x0 as int, y0 as int, wrap,
                        p, r as int + 1, 0)
                by {}
            }
            r = r + 1;
        }
        assert(self@.video =~= draw_video(
            s0.video, s0.mem, i as int, n as int, x0 as int, y0 as int, wrap));
        assert(collision == sprite_collides(
            s0.video, s0.mem, i as int, n as int, x0 as int, y0 as int, wrap));
        self.registers[15] = if collision { 1 } else { 0 };
        Ok(())
    }

    /// Dispatches one decoded instruction to its handler.
    fn execute_instr(&mut self, instr: Instr) -> (res: Result<(), Fault>)
        requires
            old(self)@.wf(),
            2 <= old(self)@.pc <= 0x1000,
            instr_operands_in_range(instr),
        ensures
            final(self)@ == instr_effect(old(self)@, instr).0,
            res == fault_result(instr_effect(old(self)@, instr).1),
    {
        match instr {
            Instr::Cls => { self.op_00e0(); Ok(()) }
            Instr::Ret => self.op_00ee(),
            Instr::Jp { nnn } => { self.op_1nnn(nnn); Ok(()) }
            Instr::Call { nnn } => self.op_2nnn(nnn),
            Instr::SeByte { x, kk } => {
                let cond = self.registers[x as usize] == kk;
                self.skip(cond);
                Ok(())
            }
            Instr::SneByte { x, kk } => {
                let cond = self.registers[x as usize] != kk;
                self.skip(cond);
                Ok(())
            }
            Instr::SeReg { x, y } => {
                let cond = self.registers[x as usize] == self.registers[y as usize];
                self.skip(cond);
                Ok(())
            }
            Instr::LdByte { x, kk } => { self.op_6xkk(x, kk); Ok(()) }
            Instr::AddByte { x, kk } => { self.op_7xkk(x, kk); Ok(()) }
            Instr::LdReg { x, y } => { self.op_8xy0(x, y); Ok(()) }
            Instr::OrReg { x, y } => { self.op_8xy1(x, y); Ok(()) }
            Instr::AndReg { x, y } => { self.op_8xy2(x, y); Ok(()) }
            Instr::XorReg { x, y } => { self.op_8xy3(x, y); Ok(()) }
            Instr::AddReg { x, y } => { self.op_8xy4(x, y); Ok(()) }
            Instr::SubReg { x, y } => { self.op_8xy5(x, y); Ok(()) }
            Instr::Shr { x, y } => { self.op_8xy6(x, y); Ok(()) }
            Instr::SubnReg { x, y } => { self.op_8xy7(x, y); Ok(()) }
            Instr::Shl { x, y } => { self.op_8xye(x, y); Ok(()) }
            Instr::SneReg { x, y } => {
                let cond = self.registers[x as usize] != self.registers[y as usize];
                self.skip(cond);
                Ok(())
            }
            Instr::LdI { nnn } => { self.op_annn(nnn); Ok(()) }
            Instr::JpV0 { nnn } => { self.op_bnnn(nnn); Ok(()) }
            Instr::Rnd { x, kk } => { self.op_cxkk(x, kk); Ok(()) }
            Instr::Drw { x, y, n } => self.op_dxyn(x, y, n),
            Instr::Skp { x } => { self.op_ex9e(x); Ok(()) }
            Instr::Sknp { x } => { self.op_exa1(x); Ok(()) }
            Instr::LdVxDt { x } => { self.op_fx07(x); Ok(()) }
            Instr::LdVxK { x } => { self.op_fx0a(x); Ok(()) }
            Instr::LdDtVx { x } => { self.op_fx15(x); Ok(()) }
            Instr::LdStVx { x } => { self.op_fx18(x); Ok(()) }
            Instr::AddIVx { x } => { self.op_fx1e(x); Ok(()) }
            Instr::LdF { x } => { self.op_fx29(x); Ok(()) }
            Instr::LdB { x } => self.op_fx33(x),
            Instr::LdThroughI { x } => self.op_fx55(x),
            Instr::ReadThroughI { x } => self.op_fx65(x),
        }
    }

    /// One fetch-decode-execute step.
    ///
    /// Returns the executed instruction word, or the fault.  The program
    /// counter is advanced by two before the instruction runs, so jumps
    /// overwrite it; after any fault past the fetch the advance stands
    /// and the faulting instruction has had no other effect, so a host
    /// may halt, reset, or ignore the fault and carry on.
    pub fn cycle(&mut self) -> (r: Result<u16, Fault>)
        requires
            old(self).wf(),
        ensures
            final(self).wf(),
            final(self)@ == step_spec(old(self)@).0,
            r == step_spec(old(self)@).1,
    {
        proof {
            crate::semantics::lemma_step_wf(old(self)@);
        }
        if self.pc >= 4095 {
            return Err(Fault::MemoryOutOfRange);
        }
        let hi = self.memory[self.pc as usize];
        let lo = self.memory[self.pc as usize + 1];
        let w: u16 = (hi as u16) * 256 + lo as u16;
        assert(w == word_at(old(self)@));
        self.pc = self.pc + 2;
        assert(self@ == advance_spec(old(self)@));
        match decode(w) {
            None => Err(Fault::UnknownOpcode(w)),
            Some(instr) => {
                proof {
                    lemma_decode_operands_in_range(w);
                }
                match self.execute_instr(instr) {
                    Ok(()) => Ok(w),
                    Err(f) => Err(f),
                }
            }
        }
    }
}

} // verus!
