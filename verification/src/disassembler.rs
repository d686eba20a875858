//! The disassembler: the mnemonic text of an instruction word.
//!
//! It decodes with the executor's own decoder, so the two always agree on
//! which words are instructions.

use crate::instruction::{decode, decoded, Instruction};
use vstd::prelude::*;
use vstd::string::*;

verus! {

/// The upper-case hexadecimal digit for `d`, for `0 <= d < 16`.
pub open spec fn hex_digit(d: int) -> char {
    if d == 0 {
        '0'
    } else if d == 1 {
        '1'
    } else if d == 2 {
        '2'
    } else if d == 3 {
        '3'
    } else if d == 4 {
        '4'
    } else if d == 5 {
        '5'
    } else if d == 6 {
        '6'
    } else if d == 7 {
        '7'
    } else if d == 8 {
        '8'
    } else if d == 9 {
        '9'
    } else if d == 10 {
        'A'
    } else if d == 11 {
        'B'
    } else if d == 12 {
        'C'
    } else if d == 13 {
        'D'
    } else if d == 14 {
        'E'
    } else {
        'F'
    }
}

/// Sixteen to the power `k`, for `0 <= k < 4`.
pub open spec fn sixteen_to(k: int) -> int {
    if k <= 0 {
        1
    } else if k == 1 {
        0x10
    } else if k == 2 {
        0x100
    } else {
        0x1000
    }
}

/// The last `width` hexadecimal digits of `value`, most significant first,
/// for `width` up to 4: the whole number, padded with zeros, where `value`
/// is below sixteen to the power `width`.
pub open spec fn hex(value: int, width: int) -> Seq<char> {
    Seq::new(width as nat, |k: int| hex_digit((value / sixteen_to(width - 1 - k)) % 16))
}

/// `name`, then the address `nnn` in three digits.
pub open spec fn with_address(name: Seq<char>, nnn: u16) -> Seq<char> {
    name + hex(nnn as int, 3)
}

/// `name`, then register `x`, then `rest`.
pub open spec fn with_reg(name: Seq<char>, x: u8, rest: Seq<char>) -> Seq<char> {
    name + hex(x as int, 1) + rest
}

/// `name`, then register `x`, a comma and the byte `nn` in two digits.
pub open spec fn with_reg_byte(name: Seq<char>, x: u8, nn: u8) -> Seq<char> {
    name + hex(x as int, 1) + ", "@ + hex(nn as int, 2)
}

/// `name`, then register `x`, a comma and register `y`.
pub open spec fn with_regs(name: Seq<char>, x: u8, y: u8) -> Seq<char> {
    name + hex(x as int, 1) + ", V"@ + hex(y as int, 1)
}

/// The text for a word that the executor passes over: `DATA` and the word
/// in four digits.
pub open spec fn data_text(word: u16) -> Seq<char> {
    "DATA "@ + hex(word as int, 4)
}

/// The mnemonic text of an instruction. Mnemonics are padded to five
/// columns, registers are written `V0` to `VF`, numbers in upper-case
/// hexadecimal. `Sys`, which does nothing, has no mnemonic: it is written
/// as data, like a word that is no instruction.
pub open spec fn mnemonic(ins: Instruction) -> Seq<char> {
    match ins {
        Instruction::Cls => "CLS"@,
        Instruction::Ret => "RET"@,
        Instruction::Sys { nnn } => data_text(nnn),
        Instruction::Jp { nnn } => with_address("JP   "@, nnn),
        Instruction::Call { nnn } => with_address("CALL "@, nnn),
        Instruction::SeByte { x, nn } => with_reg_byte("SE   V"@, x, nn),
        Instruction::SneByte { x, nn } => with_reg_byte("SNE  V"@, x, nn),
        Instruction::SeReg { x, y } => with_regs("SE   V"@, x, y),
        Instruction::LdByte { x, nn } => with_reg_byte("LD   V"@, x, nn),
        Instruction::AddByte { x, nn } => with_reg_byte("ADD  V"@, x, nn),
        Instruction::LdReg { x, y } => with_regs("LD   V"@, x, y),
        Instruction::Or { x, y } => with_regs("OR   V"@, x, y),
        Instruction::And { x, y } => with_regs("AND  V"@, x, y),
        Instruction::Xor { x, y } => with_regs("XOR  V"@, x, y),
        Instruction::AddReg { x, y } => with_regs("ADD  V"@, x, y),
        Instruction::Sub { x, y } => with_regs("SUB  V"@, x, y),
        Instruction::Shr { x } => with_reg("SHR  V"@, x, ""@),
        Instruction::Subn { x, y } => with_regs("SUBN V"@, x, y),
        Instruction::Shl { x } => with_reg("SHL  V"@, x, ""@),
        Instruction::SneReg { x, y } => with_regs("SNE  V"@, x, y),
        Instruction::LdI { nnn } => with_address("LD   I, "@, nnn),
        Instruction::JpV0 { nnn } => with_address("JP   V0, "@, nnn),
        Instruction::Rnd { x, nn } => with_reg_byte("RND  V"@, x, nn),
        Instruction::Drw { x, y, n } => with_regs("DRW  V"@, x, y) + ", "@ + hex(n as int, 1),
        Instruction::Skp { x } => with_reg("SKP  V"@, x, ""@),
        Instruction::Sknp { x } => with_reg("SKNP V"@, x, ""@),
        Instruction::LdVxDt { x } => with_reg("LD   V"@, x, ", DT"@),
        Instruction::LdVxK { x } => with_reg("LD   V"@, x, ", K"@),
        Instruction::LdDtVx { x } => with_reg("LD   DT, V"@, x, ""@),
        Instruction::LdStVx { x } => with_reg("LD   ST, V"@, x, ""@),
        Instruction::AddI { x } => with_reg("ADD  I, V"@, x, ""@),
        Instruction::LdF { x } => with_reg("LD   F, V"@, x, ""@),
        Instruction::LdB { x } => with_reg("LD   B, V"@, x, ""@),
        Instruction::LdIVx { x } => with_reg("LD   [I], V"@, x, ""@),
        Instruction::LdVxI { x } => with_reg("LD   V"@, x, ", [I]"@),
        Instruction::Data { word } => data_text(word),
    }
}

/// The one-character text of a hexadecimal digit.
fn digit_text(d: u16) -> (text: &'static str)
    requires
        d < 16,
    ensures
        text@ == seq![hex_digit(d as int)],
{
    proof {
        reveal_strlit("0");
        reveal_strlit("1");
        reveal_strlit("2");
        reveal_strlit("3");
        reveal_strlit("4");
        reveal_strlit("5");
        reveal_strlit("6");
        reveal_strlit("7");
        reveal_strlit("8");
        reveal_strlit("9");
        reveal_strlit("A");
        reveal_strlit("B");
        reveal_strlit("C");
        reveal_strlit("D");
        reveal_strlit("E");
        reveal_strlit("F");
    }
    let text = match d {
        0 => "0",
        1 => "1",
        2 => "2",
        3 => "3",
        4 => "4",
        5 => "5",
        6 => "6",
        7 => "7",
        8 => "8",
        9 => "9",
        10 => "A",
        11 => "B",
        12 => "C",
        13 => "D",
        14 => "E",
        _ => "F",
    };
    assert(text@ =~= seq![hex_digit(d as int)]);
    text
}

/// Appends the last `width` hexadecimal digits of `value`.
fn push_hex(text: &mut String, value: u16, width: u8)
    requires
        1 <= width <= 4,
    ensures
        final(text)@ == old(text)@ + hex(value as int, width as int),
{
    let mut unit: u16 = match width {
        1 => 0x1,
        2 => 0x10,
        3 => 0x100,
        _ => 0x1000,
    };
    let mut k: u8 = 0;
    while k < width
        invariant
            k <= width <= 4,
            k < width ==> unit == sixteen_to(width - 1 - k),
            text@ == old(text)@ + hex(value as int, width as int).subrange(0, k as int),
        decreases width - k,
    {
        let digit: u16 = (value / unit) % 16;
        text.append(digit_text(digit));
        assert(hex(value as int, width as int).subrange(0, k + 1) =~= hex(
            value as int,
            width as int,
        ).subrange(0, k as int) + seq![hex_digit(digit as int)]);
        unit = unit / 16;
        k += 1;
    }
    assert(hex(value as int, width as int).subrange(0, width as int) =~= hex(
        value as int,
        width as int,
    ));
}

/// `name`, then the address `nnn` in three digits.
fn address_text(name: &str, nnn: u16) -> (text: String)
    ensures
        text@ == with_address(name@, nnn),
{
    let mut text = String::from_str(name);
    push_hex(&mut text, nnn, 3);
    text
}

/// `name`, then register `x`, then `rest`.
fn reg_text(name: &str, x: u8, rest: &str) -> (text: String)
    ensures
        text@ == with_reg(name@, x, rest@),
{
    let mut text = String::from_str(name);
    push_hex(&mut text, x as u16, 1);
    text.append(rest);
    text
}

/// `name`, then register `x`, a comma and the byte `nn` in two digits.
fn reg_byte_text(name: &str, x: u8, nn: u8) -> (text: String)
    ensures
        text@ == with_reg_byte(name@, x, nn),
{
    let mut text = String::from_str(name);
    push_hex(&mut text, x as u16, 1);
    text.append(", ");
    push_hex(&mut text, nn as u16, 2);
    text
}

/// `name`, then register `x`, a comma and register `y`.
fn regs_text(name: &str, x: u8, y: u8) -> (text: String)
    ensures
        text@ == with_regs(name@, x, y),
{
    let mut text = String::from_str(name);
    push_hex(&mut text, x as u16, 1);
    text.append(", V");
    push_hex(&mut text, y as u16, 1);
    text
}

/// The text for a word that is no instruction.
fn data(word: u16) -> (text: String)
    ensures
        text@ == data_text(word),
{
    let mut text = String::from_str("DATA ");
    push_hex(&mut text, word, 4);
    text
}

/// The mnemonic text of an instruction word. Total: a word that the
/// executor passes over, `0nnn` or no instruction at all, gives `DATA` and
/// the word itself.
pub fn disassemble(opcode: u16) -> (text: String)
    ensures
        text@ == mnemonic(decoded(opcode)),
{
    match decode(opcode) {
        Instruction::Cls => String::from_str("CLS"),
        Instruction::Ret => String::from_str("RET"),
        Instruction::Sys { nnn } => data(nnn),
        Instruction::Jp { nnn } => address_text("JP   ", nnn),
        Instruction::Call { nnn } => address_text("CALL ", nnn),
        Instruction::SeByte { x, nn } => reg_byte_text("SE   V", x, nn),
        Instruction::SneByte { x, nn } => reg_byte_text("SNE  V", x, nn),
        Instruction::SeReg { x, y } => regs_text("SE   V", x, y),
        Instruction::LdByte { x, nn } => reg_byte_text("LD   V", x, nn),
        Instruction::AddByte { x, nn } => reg_byte_text("ADD  V", x, nn),
        Instruction::LdReg { x, y } => regs_text("LD   V", x, y),
        Instruction::Or { x, y } => regs_text("OR   V", x, y),
        Instruction::And { x, y } => regs_text("AND  V", x, y),
        Instruction::Xor { x, y } => regs_text("XOR  V", x, y),
        Instruction::AddReg { x, y } => regs_text("ADD  V", x, y),
        Instruction::Sub { x, y } => regs_text("SUB  V", x, y),
        Instruction::Shr { x } => reg_text("SHR  V", x, ""),
        Instruction::Subn { x, y } => regs_text("SUBN V", x, y),
        Instruction::Shl { x } => reg_text("SHL  V", x, ""),
        Instruction::SneReg { x, y } => regs_text("SNE  V", x, y),
        Instruction::LdI { nnn } => address_text("LD   I, ", nnn),
        Instruction::JpV0 { nnn } => address_text("JP   V0, ", nnn),
        Instruction::Rnd { x, nn } => reg_byte_text("RND  V", x, nn),
        Instruction::Drw { x, y, n } => {
            let mut text = regs_text("DRW  V", x, y);
            text.append(", ");
            push_hex(&mut text, n as u16, 1);
            text
        },
        Instruction::Skp { x } => reg_text("SKP  V", x, ""),
        Instruction::Sknp { x } => reg_text("SKNP V", x, ""),
        Instruction::LdVxDt { x } => reg_text("LD   V", x, ", DT"),
        Instruction::LdVxK { x } => reg_text("LD   V", x, ", K"),
        Instruction::LdDtVx { x } => reg_text("LD   DT, V", x, ""),
        Instruction::LdStVx { x } => reg_text("LD   ST, V", x, ""),
        Instruction::AddI { x } => reg_text("ADD  I, V", x, ""),
        Instruction::LdF { x } => reg_text("LD   F, V", x, ""),
        Instruction::LdB { x } => reg_text("LD   B, V", x, ""),
        Instruction::LdIVx { x } => reg_text("LD   [I], V", x, ""),
        Instruction::LdVxI { x } => reg_text("LD   V", x, ", [I]"),
        Instruction::Data { word } => data(word),
    }
}

} // verus!
