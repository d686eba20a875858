//! The instruction set: one variant per operation, carrying its operands,
//! and the decoder from a 16-bit instruction word.
//!
//! A word is four nibbles. The high nibble selects the family; `x` and `y`
//! are the second and third nibbles (register indices), `n` is the low
//! nibble, `nn` the low byte and `nnn` the low twelve bits.

use vstd::prelude::*;

verus! {

/// A decoded instruction.
///
/// `Sys` is the historical machine-code call: like `Data`, it executes as a
/// two-byte no-op and is written as data. `Data` stands for every word that
/// is no instruction at all and keeps the raw word.
#[derive(Clone, Copy, Debug, PartialEq, Eq, Structural)]
pub enum Instruction {
    /// `00E0`: clear the display.
    Cls,
    /// `00EE`: return from a subroutine.
    Ret,
    /// `0nnn` other than `00E0` and `00EE`.
    Sys { nnn: u16 },
    /// `1nnn`: jump to `nnn`.
    Jp { nnn: u16 },
    /// `2nnn`: call the subroutine at `nnn`.
    Call { nnn: u16 },
    /// `3xnn`: skip the next instruction if `Vx == nn`.
    SeByte { x: u8, nn: u8 },
    /// `4xnn`: skip the next instruction if `Vx != nn`.
    SneByte { x: u8, nn: u8 },
    /// `5xy_`: skip the next instruction if `Vx == Vy`.
    SeReg { x: u8, y: u8 },
    /// `6xnn`: `Vx = nn`.
    LdByte { x: u8, nn: u8 },
    /// `7xnn`: `Vx += nn`, wrapping, flag untouched.
    AddByte { x: u8, nn: u8 },
    /// `8xy0`: `Vx = Vy`.
    LdReg { x: u8, y: u8 },
    /// `8xy1`: `Vx |= Vy`.
    Or { x: u8, y: u8 },
    /// `8xy2`: `Vx &= Vy`.
    And { x: u8, y: u8 },
    /// `8xy3`: `Vx ^= Vy`.
    Xor { x: u8, y: u8 },
    /// `8xy4`: `Vx += Vy`, `VF` = carry.
    AddReg { x: u8, y: u8 },
    /// `8xy5`: `Vx -= Vy`, `VF` = no borrow.
    Sub { x: u8, y: u8 },
    /// `8x_6`: `VF` = low bit of `Vx`, then `Vx >>= 1`.
    Shr { x: u8 },
    /// `8xy7`: `Vx = Vy - Vx`, `VF` = no borrow.
    Subn { x: u8, y: u8 },
    /// `8x_E`: `VF` = high bit of `Vx`, then `Vx <<= 1`.
    Shl { x: u8 },
    /// `9xy_`: skip the next instruction if `Vx != Vy`.
    SneReg { x: u8, y: u8 },
    /// `Annn`: `I = nnn`.
    LdI { nnn: u16 },
    /// `Bnnn`: jump to `nnn + V0`.
    JpV0 { nnn: u16 },
    /// `Cxnn`: `Vx` = random byte `& nn`.
    Rnd { x: u8, nn: u8 },
    /// `Dxyn`: draw an `n`-row sprite from memory at `I` at (`Vx`, `Vy`).
    Drw { x: u8, y: u8, n: u8 },
    /// `Ex9E`: skip the next instruction if key `Vx` is pressed.
    Skp { x: u8 },
    /// `ExA1`: skip the next instruction if key `Vx` is not pressed.
    Sknp { x: u8 },
    /// `Fx07`: `Vx` = delay timer.
    LdVxDt { x: u8 },
    /// `Fx0A`: wait for a key and store it in `Vx`.
    LdVxK { x: u8 },
    /// `Fx15`: delay timer = `Vx`.
    LdDtVx { x: u8 },
    /// `Fx18`: sound timer = `Vx`.
    LdStVx { x: u8 },
    /// `Fx1E`: `I += Vx`, wrapping.
    AddI { x: u8 },
    /// `Fx29`: `I` = address of the font glyph for the low nibble of `Vx`.
    LdF { x: u8 },
    /// `Fx33`: store the three decimal digits of `Vx` at `I`, `I+1`, `I+2`.
    LdB { x: u8 },
    /// `Fx55`: store `V0..=Vx` in memory from `I`.
    LdIVx { x: u8 },
    /// `Fx65`: load `V0..=Vx` from memory at `I`.
    LdVxI { x: u8 },
    /// Any other word.
    Data { word: u16 },
}

/// The high nibble of a word, as a number below 16.
pub open spec fn family(word: u16) -> int {
    word as int / 0x1000
}

/// The second nibble of a word.
pub open spec fn nibble_x(word: u16) -> u8 {
    ((word as int / 0x100) % 0x10) as u8
}

/// The third nibble of a word.
pub open spec fn nibble_y(word: u16) -> u8 {
    ((word as int / 0x10) % 0x10) as u8
}

/// The low nibble of a word.
pub open spec fn nibble_n(word: u16) -> u8 {
    (word as int % 0x10) as u8
}

/// The low byte of a word.
pub open spec fn low_byte(word: u16) -> u8 {
    (word as int % 0x100) as u8
}

/// The low twelve bits of a word.
pub open spec fn address(word: u16) -> u16 {
    (word as int % 0x1000) as u16
}

/// The instruction that a word stands for.
pub open spec fn decoded(word: u16) -> Instruction {
    let x = nibble_x(word);
    let y = nibble_y(word);
    let n = nibble_n(word);
    let nn = low_byte(word);
    let nnn = address(word);
    let f = family(word);
    if f == 0x0 {
        if word == 0x00E0 {
            Instruction::Cls
        } else if word == 0x00EE {
            Instruction::Ret
        } else {
            Instruction::Sys { nnn }
        }
    } else if f == 0x1 {
        Instruction::Jp { nnn }
    } else if f == 0x2 {
        Instruction::Call { nnn }
    } else if f == 0x3 {
        Instruction::SeByte { x, nn }
    } else if f == 0x4 {
        Instruction::SneByte { x, nn }
    } else if f == 0x5 {
        Instruction::SeReg { x, y }
    } else if f == 0x6 {
        Instruction::LdByte { x, nn }
    } else if f == 0x7 {
        Instruction::AddByte { x, nn }
    } else if f == 0x8 {
        if n == 0x0 {
            Instruction::LdReg { x, y }
        } else if n == 0x1 {
            Instruction::Or { x, y }
        } else if n == 0x2 {
            Instruction::And { x, y }
        } else if n == 0x3 {
            Instruction::Xor { x, y }
        } else if n == 0x4 {
            Instruction::AddReg { x, y }
        } else if n == 0x5 {
            Instruction::Sub { x, y }
        } else if n == 0x6 {
            Instruction::Shr { x }
        } else if n == 0x7 {
            Instruction::Subn { x, y }
        } else if n == 0xE {
            Instruction::Shl { x }
        } else {
            Instruction::Data { word }
        }
    } else if f == 0x9 {
        Instruction::SneReg { x, y }
    } else if f == 0xA {
        Instruction::LdI { nnn }
    } else if f == 0xB {
        Instruction::JpV0 { nnn }
    } else if f == 0xC {
        Instruction::Rnd { x, nn }
    } else if f == 0xD {
        Instruction::Drw { x, y, n }
    } else if f == 0xE {
        if nn == 0x9E {
            Instruction::Skp { x }
        } else if nn == 0xA1 {
            Instruction::Sknp { x }
        } else {
            Instruction::Data { word }
        }
    } else {
        if nn == 0x07 {
            Instruction::LdVxDt { x }
        } else if nn == 0x0A {
            Instruction::LdVxK { x }
        } else if nn == 0x15 {
            Instruction::LdDtVx { x }
        } else if nn == 0x18 {
            Instruction::LdStVx { x }
        } else if nn == 0x1E {
            Instruction::AddI { x }
        } else if nn == 0x29 {
            Instruction::LdF { x }
        } else if nn == 0x33 {
            Instruction::LdB { x }
        } else if nn == 0x55 {
            Instruction::LdIVx { x }
        } else if nn == 0x65 {
            Instruction::LdVxI { x }
        } else {
            Instruction::Data { word }
        }
    }
}

impl Instruction {
    /// Every register index is below 16, the sprite height is below 16 and
    /// every address is below 4096: what holds of each decoded instruction.
    pub open spec fn well_formed(self) -> bool {
        match self {
            Instruction::Cls | Instruction::Ret | Instruction::Data { .. } => true,
            Instruction::Sys { nnn }
            | Instruction::Jp { nnn }
            | Instruction::Call { nnn }
            | Instruction::LdI { nnn }
            | Instruction::JpV0 { nnn } => nnn < 0x1000,
            Instruction::SeByte { x, .. }
            | Instruction::SneByte { x, .. }
            | Instruction::LdByte { x, .. }
            | Instruction::AddByte { x, .. }
            | Instruction::Rnd { x, .. }
            | Instruction::Shr { x }
            | Instruction::Shl { x }
            | Instruction::Skp { x }
            | Instruction::Sknp { x }
            | Instruction::LdVxDt { x }
            | Instruction::LdVxK { x }
            | Instruction::LdDtVx { x }
            | Instruction::LdStVx { x }
            | Instruction::AddI { x }
            | Instruction::LdF { x }
            | Instruction::LdB { x }
            | Instruction::LdIVx { x }
            | Instruction::LdVxI { x } => x < 16,
            Instruction::SeReg { x, y }
            | Instruction::LdReg { x, y }
            | Instruction::Or { x, y }
            | Instruction::And { x, y }
            | Instruction::Xor { x, y }
            | Instruction::AddReg { x, y }
            | Instruction::Sub { x, y }
            | Instruction::Subn { x, y }
            | Instruction::SneReg { x, y } => x < 16 && y < 16,
            Instruction::Drw { x, y, n } => x < 16 && y < 16 && n < 16,
        }
    }
}

/// Decodes one instruction word. Total: a word that is no instruction
/// decodes to `Data`.
pub fn decode(word: u16) -> (ins: Instruction)
    ensures
        ins == decoded(word),
        ins.well_formed(),
{
    let x: u8 = ((word & 0x0F00) >> 8) as u8;
    let y: u8 = ((word & 0x00F0) >> 4) as u8;
    let n: u8 = (word & 0x000F) as u8;
    let nn: u8 = (word & 0x00FF) as u8;
    let nnn: u16 = word & 0x0FFF;
    let high: u16 = word & 0xF000;
    assert(((word & 0x0F00) >> 8) == (word / 0x100) % 0x10) by (bit_vector);
    assert(((word & 0x00F0) >> 4) == (word / 0x10) % 0x10) by (bit_vector);
    assert((word & 0x000F) == word % 0x10) by (bit_vector);
    assert((word & 0x00FF) == word % 0x100) by (bit_vector);
    assert((word & 0x0FFF) == word % 0x1000) by (bit_vector);
    assert((word & 0xF000) == (word / 0x1000) * 0x1000) by (bit_vector);
    match high {
        0x0000 => match word {
            0x00E0 => Instruction::Cls,
            0x00EE => Instruction::Ret,
            _ => Instruction::Sys { nnn },
        },
        0x1000 => Instruction::Jp { nnn },
        0x2000 => Instruction::Call { nnn },
        0x3000 => Instruction::SeByte { x, nn },
        0x4000 => Instruction::SneByte { x, nn },
        0x5000 => Instruction::SeReg { x, y },
        0x6000 => Instruction::LdByte { x, nn },
        0x7000 => Instruction::AddByte { x, nn },
        0x8000 => match n {
            0x0 => Instruction::LdReg { x, y },
            0x1 => Instruction::Or { x, y },
            0x2 => Instruction::And { x, y },
            0x3 => Instruction::Xor { x, y },
            0x4 => Instruction::AddReg { x, y },
            0x5 => Instruction::Sub { x, y },
            0x6 => Instruction::Shr { x },
            0x7 => Instruction::Subn { x, y },
            0xE => Instruction::Shl { x },
            _ => Instruction::Data { word },
        },
        0x9000 => Instruction::SneReg { x, y },
        0xA000 => Instruction::LdI { nnn },
        0xB000 => Instruction::JpV0 { nnn },
        0xC000 => Instruction::Rnd { x, nn },
        0xD000 => Instruction::Drw { x, y, n },
        0xE000 => match nn {
            0x9E => Instruction::Skp { x },
            0xA1 => Instruction::Sknp { x },
            _ => Instruction::Data { word },
        },
        0xF000 => match nn {
            0x07 => Instruction::LdVxDt { x },
            0x0A => Instruction::LdVxK { x },
            0x15 => Instruction::LdDtVx { x },
            0x18 => Instruction::LdStVx { x },
            0x1E => Instruction::AddI { x },
            0x29 => Instruction::LdF { x },
            0x33 => Instruction::LdB { x },
            0x55 => Instruction::LdIVx { x },
            0x65 => Instruction::LdVxI { x },
            _ => Instruction::Data { word },
        },
        _ => Instruction::Data { word },
    }
}

} // verus!
