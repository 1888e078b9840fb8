//! Decoding a 16-bit instruction word into an instruction.
//!
//! The operand fields of a word `w` are `nnn = w mod 0x1000` (address),
//! `n = w mod 16` (nibble), `x = (w / 0x100) mod 16` and
//! `y = (w / 16) mod 16` (register indices), `kk = w mod 0x100`
//! (immediate byte).  A word with no defined semantics decodes to `None`;
//! the engine reports it as a fault rather than a silent no-op.

use vstd::prelude::*;

verus! {

/// One decoded CHIP-8 instruction, operands included.
#[derive(Clone, Copy, PartialEq, Eq, Structural, Debug)]
pub enum Instr {
    /// `00E0`: clear the framebuffer.
    Cls,
    /// `00EE`: return from a subroutine.
    Ret,
    /// `1nnn`: jump to `nnn`.
    Jp { nnn: u16 },
    /// `2nnn`: call the subroutine at `nnn`.
    Call { nnn: u16 },
    /// `3xkk`: skip the next instruction if `Vx == kk`.
    SeByte { x: u8, kk: u8 },
    /// `4xkk`: skip the next instruction if `Vx != kk`.
    SneByte { x: u8, kk: u8 },
    /// `5xy0`: skip the next instruction if `Vx == Vy`.
    SeReg { x: u8, y: u8 },
    /// `6xkk`: `Vx = kk`.
    LdByte { x: u8, kk: u8 },
    /// `7xkk`: `Vx = Vx + kk`, truncated; `VF` untouched.
    AddByte { x: u8, kk: u8 },
    /// `8xy0`: `Vx = Vy`.
    LdReg { x: u8, y: u8 },
    /// `8xy1`: `Vx = Vx | Vy`.
    OrReg { x: u8, y: u8 },
    /// `8xy2`: `Vx = Vx & Vy`.
    AndReg { x: u8, y: u8 },
    /// `8xy3`: `Vx = Vx ^ Vy`.
    XorReg { x: u8, y: u8 },
    /// `8xy4`: `Vx = Vx + Vy`; `VF` = carry.
    AddReg { x: u8, y: u8 },
    /// `8xy5`: `Vx = Vx - Vy`; `VF` = 1 if no borrow.
    SubReg { x: u8, y: u8 },
    /// `8xy6`: shift right by one; `VF` = bit shifted out.
    Shr { x: u8, y: u8 },
    /// `8xy7`: `Vx = Vy - Vx`; `VF` = 1 if no borrow.
    SubnReg { x: u8, y: u8 },
    /// `8xyE`: shift left by one; `VF` = bit shifted out.
    Shl { x: u8, y: u8 },
    /// `9xy0`: skip the next instruction if `Vx != Vy`.
    SneReg { x: u8, y: u8 },
    /// `Annn`: `I = nnn`.
    LdI { nnn: u16 },
    /// `Bnnn`: jump to `nnn + V0`.
    JpV0 { nnn: u16 },
    /// `Cxkk`: `Vx` = random byte AND `kk`.
    Rnd { x: u8, kk: u8 },
    /// `Dxyn`: draw the `n`-row sprite at `I` at `(Vx, Vy)`; `VF` = collision.
    Drw { x: u8, y: u8, n: u8 },
    /// `Ex9E`: skip the next instruction if key `Vx` is pressed.
    Skp { x: u8 },
    /// `ExA1`: skip the next instruction if key `Vx` is not pressed.
    Sknp { x: u8 },
    /// `Fx07`: `Vx` = delay timer.
    LdVxDt { x: u8 },
    /// `Fx0A`: wait for a key press, then `Vx` = its code.
    LdVxK { x: u8 },
    /// `Fx15`: delay timer = `Vx`.
    LdDtVx { x: u8 },
    /// `Fx18`: sound timer = `Vx`.
    LdStVx { x: u8 },
    /// `Fx1E`: `I = I + Vx`, wrapping modulo 4096.
    AddIVx { x: u8 },
    /// `Fx29`: `I` = address of the font glyph for the low nibble of `Vx`.
    LdF { x: u8 },
    /// `Fx33`: the three decimal digits of `Vx` into memory at `I`.
    LdB { x: u8 },
    /// `Fx55`: `V0..=Vx` into memory starting at `I`.
    LdThroughI { x: u8 },
    /// `Fx65`: memory starting at `I` into `V0..=Vx`.
    ReadThroughI { x: u8 },
}

/// The address field `nnn` of a word.
pub open spec fn field_nnn(w: u16) -> u16 {
    (w % 0x1000) as u16
}

/// The register field `x` of a word.
pub open spec fn field_x(w: u16) -> u8 {
    (((w / 0x100) % 16) as u8)
}

/// The register field `y` of a word.
pub open spec fn field_y(w: u16) -> u8 {
    (((w / 16) % 16) as u8)
}

/// The immediate byte `kk` of a word.
pub open spec fn field_kk(w: u16) -> u8 {
    ((w % 0x100) as u8)
}

/// The nibble field `n` of a word.
pub open spec fn field_n(w: u16) -> u8 {
    ((w % 16) as u8)
}

/// What a word decodes to: the instruction, or `None` where the word has
/// no defined semantics (including the historical machine-call `0nnn`).
pub open spec fn spec_decode(w: u16) -> Option<Instr> {
    let class = w / 0x1000;
    let nnn = field_nnn(w);
    let x = field_x(w);
    let y = field_y(w);
    let kk = field_kk(w);
    let n = field_n(w);
    if class == 0x0 {
        if w == 0x00E0 { Some(Instr::Cls) }
        else if w == 0x00EE { Some(Instr::Ret) }
        else { None }
    } else if class == 0x1 { Some(Instr::Jp { nnn }) }
    else if class == 0x2 { Some(Instr::Call { nnn }) }
    else if class == 0x3 { Some(Instr::SeByte { x, kk }) }
    else if class == 0x4 { Some(Instr::SneByte { x, kk }) }
    else if class == 0x5 {
        if n == 0 { Some(Instr::SeReg { x, y }) } else { None }
    } else if class == 0x6 { Some(Instr::LdByte { x, kk }) }
    else if class == 0x7 { Some(Instr::AddByte { x, kk }) }
    else if class == 0x8 {
        if n == 0x0 { Some(Instr::LdReg { x, y }) }
        else if n == 0x1 { Some(Instr::OrReg { x, y }) }
        else if n == 0x2 { Some(Instr::AndReg { x, y }) }
        else if n == 0x3 { Some(Instr::XorReg { x, y }) }
        else if n == 0x4 { Some(Instr::AddReg { x, y }) }
        else if n == 0x5 { Some(Instr::SubReg { x, y }) }
        else if n == 0x6 { Some(Instr::Shr { x, y }) }
        else if n == 0x7 { Some(Instr::SubnReg { x, y }) }
        else if n == 0xE { Some(Instr::Shl { x, y }) }
        else { None }
    } else if class == 0x9 {
        if n == 0 { Some(Instr::SneReg { x, y }) } else { None }
    } else if class == 0xA { Some(Instr::LdI { nnn }) }
    else if class == 0xB { Some(Instr::JpV0 { nnn }) }
    else if class == 0xC { Some(Instr::Rnd { x, kk }) }
    else if class == 0xD { Some(Instr::Drw { x, y, n }) }
    else if class == 0xE {
        if kk == 0x9E { Some(Instr::Skp { x }) }
        else if kk == 0xA1 { Some(Instr::Sknp { x }) }
        else { None }
    } else {
        if kk == 0x07 { Some(Instr::LdVxDt { x }) }
        else if kk == 0x0A { Some(Instr::LdVxK { x }) }
        else if kk == 0x15 { Some(Instr::LdDtVx { x }) }
        else if kk == 0x18 { Some(Instr::LdStVx { x }) }
        else if kk == 0x1E { Some(Instr::AddIVx { x }) }
        else if kk == 0x29 { Some(Instr::LdF { x }) }
        else if kk == 0x33 { Some(Instr::LdB { x }) }
        else if kk == 0x55 { Some(Instr::LdThroughI { x }) }
        else if kk == 0x65 { Some(Instr::ReadThroughI { x }) }
        else { None }
    }
}

/// Every register index a decoded instruction carries is below 16, and
/// every address is below 4096.
pub open spec fn instr_operands_in_range(i: Instr) -> bool {
    match i {
        Instr::Cls | Instr::Ret => true,
        Instr::Jp { nnn } | Instr::Call { nnn } | Instr::LdI { nnn } | Instr::JpV0 { nnn } =>
            nnn < 0x1000,
        Instr::SeByte { x, .. } | Instr::SneByte { x, .. } | Instr::LdByte { x, .. }
        | Instr::AddByte { x, .. } | Instr::Rnd { x, .. } => x < 16,
        Instr::SeReg { x, y } | Instr::SneReg { x, y } | Instr::LdReg { x, y }
        | Instr::OrReg { x, y } | Instr::AndReg { x, y } | Instr::XorReg { x, y }
        | Instr::AddReg { x, y } | Instr::SubReg { x, y } | Instr::Shr { x, y }
        | Instr::SubnReg { x, y } | Instr::Shl { x, y } => x < 16 && y < 16,
        Instr::Drw { x, y, n } => x < 16 && y < 16 && n < 16,
        Instr::Skp { x } | Instr::Sknp { x } | Instr::LdVxDt { x } | Instr::LdVxK { x }
        | Instr::LdDtVx { x } | Instr::LdStVx { x } | Instr::AddIVx { x } | Instr::LdF { x }
        | Instr::LdB { x } | Instr::LdThroughI { x } | Instr::ReadThroughI { x } => x < 16,
    }
}

/// Whatever `spec_decode` yields has its operands in range.
pub proof fn lemma_decode_operands_in_range(w: u16)
    ensures
        spec_decode(w) is Some ==> instr_operands_in_range(spec_decode(w)->0),
{
}

/// Decodes an instruction word, faithfully to `spec_decode`.
pub fn decode(w: u16) -> (r: Option<Instr>)
    ensures
        r == spec_decode(w),
{
    let class = w / 0x1000;
    let nnn: u16 = w % 0x1000;
    let x: u8 = ((w / 0x100) % 16) as u8;
    let y: u8 = ((w / 16) % 16) as u8;
    let kk: u8 = (w % 0x100) as u8;
    let n: u8 = (w % 16) as u8;
    match class {
        0x0 => {
            if w == 0x00E0 { Some(Instr::Cls) }
            else if w == 0x00EE { Some(Instr::Ret) }
            else { None }
        }
        0x1 => Some(Instr::Jp { nnn }),
        0x2 => Some(Instr::Call { nnn }),
        0x3 => Some(Instr::SeByte { x, kk }),
        0x4 => Some(Instr::SneByte { x, kk }),
        0x5 => if n == 0 { Some(Instr::SeReg { x, y }) } else { None },
        0x6 => Some(Instr::LdByte { x, kk }),
        0x7 => Some(Instr::AddByte { x, kk }),
        0x8 => match n {
            0x0 => Some(Instr::LdReg { x, y }),
            0x1 => Some(Instr::OrReg { x, y }),
            0x2 => Some(Instr::AndReg { x, y }),
            0x3 => Some(Instr::XorReg { x, y }),
            0x4 => Some(Instr::AddReg { x, y }),
            0x5 => Some(Instr::SubReg { x, y }),
            0x6 => Some(Instr::Shr { x, y }),
            0x7 => Some(Instr::SubnReg { x, y }),
            0xE => Some(Instr::Shl { x, y }),
            _ => None,
        },
        0x9 => if n == 0 { Some(Instr::SneReg { x, y }) } else { None },
        0xA => Some(Instr::LdI { nnn }),
        0xB => Some(Instr::JpV0 { nnn }),
        0xC => Some(Instr::Rnd { x, kk }),
        0xD => Some(Instr::Drw { x, y, n }),
        0xE => {
            if kk == 0x9E { Some(Instr::Skp { x }) }
            else if kk == 0xA1 { Some(Instr::Sknp { x }) }
            else { None }
        }
        _ => match kk {
            0x07 => Some(Instr::LdVxDt { x }),
            0x0A => Some(Instr::LdVxK { x }),
            0x15 => Some(Instr::LdDtVx { x }),
            0x18 => Some(Instr::LdStVx { x }),
            0x1E => Some(Instr::AddIVx { x }),
            0x29 => Some(Instr::LdF { x }),
            0x33 => Some(Instr::LdB { x }),
            0x55 => Some(Instr::LdThroughI { x }),
            0x65 => Some(Instr::ReadThroughI { x }),
            _ => None,
        },
    }
}

} // verus!
