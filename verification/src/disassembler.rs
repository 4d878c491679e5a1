//! Instruction words as text.

use vstd::prelude::*;
use vstd::string::{StrSliceExecFns, StringExecFns};
use crate::instruction::{decode, decoded, Instruction};

verus! {

/// The digit `d` of a numeral in base 16 or less, as text.
pub open spec fn digit(d: int) -> Seq<char> {
    "0123456789abcdef"@.subrange(d, d + 1)
}

/// `n` in decimal, most significant digit first, without leading zeros.
pub open spec fn decimal(n: nat) -> Seq<char>
    decreases n,
{
    if n < 10 {
        digit(n as int)
    } else {
        decimal(n / 10) + digit((n % 10) as int)
    }
}

/// `n` in lower-case hexadecimal, most significant digit first, without
/// leading zeros.
pub open spec fn hex(n: nat) -> Seq<char>
    decreases n,
{
    if n < 16 {
        digit(n as int)
    } else {
        hex(n / 16) + digit((n % 16) as int)
    }
}

/// The name of register `r`: `V` and its number in decimal.
pub open spec fn reg(r: usize) -> Seq<char> {
    "V"@ + decimal(r as nat)
}

/// The assembly text of an instruction: its mnemonic, a tab, and its
/// operands, numbers in decimal. Both shifts are listed under `SHR`, and
/// the operands of `DRW` are bare numbers. A word that encodes no
/// instruction is shown as `UNKNOWN` and the word in hexadecimal.
pub open spec fn mnemonic_text(instruction: Instruction) -> Seq<char> {
    match instruction {
        Instruction::ClearScreen => "CLS"@,
        Instruction::Return => "RET"@,
        Instruction::Jump { addr } => "JMP\t"@ + decimal(addr as nat),
        Instruction::Call { addr } => "CALL\t"@ + decimal(addr as nat),
        Instruction::SkipIfByte { x, byte } => "SE\t"@ + reg(x) + ", "@ + decimal(byte as nat),
        Instruction::SkipUnlessByte { x, byte } => "SNE\t"@ + reg(x) + ", "@ + decimal(
            byte as nat,
        ),
        Instruction::SkipIfSame { x, y } => "SE\t"@ + reg(x) + ", "@ + reg(y),
        Instruction::SetByte { x, byte } => "LD\t"@ + reg(x) + ", "@ + decimal(byte as nat),
        Instruction::AddByte { x, byte } => "ADD\t"@ + reg(x) + ", "@ + decimal(byte as nat),
        Instruction::Assign { x, y } => "LD\t"@ + reg(x) + ", "@ + reg(y),
        Instruction::Or { x, y } => "OR\t"@ + reg(x) + ", "@ + reg(y),
        Instruction::And { x, y } => "AND\t"@ + reg(x) + ", "@ + reg(y),
        Instruction::Xor { x, y } => "XOR\t"@ + reg(x) + ", "@ + reg(y),
        Instruction::Add { x, y } => "ADD\t"@ + reg(x) + ", "@ + reg(y),
        Instruction::Sub { x, y } => "SUB\t"@ + reg(x) + ", "@ + reg(y),
        Instruction::ShiftRight { x } => "SHR\t"@ + reg(x),
        Instruction::SubFrom { x, y } => "SUBN\t"@ + reg(x) + ", "@ + reg(y),
        Instruction::ShiftLeft { x } => "SHR\t"@ + reg(x),
        Instruction::SkipUnlessSame { x, y } => "SNE\t"@ + reg(x) + ", "@ + reg(y),
        Instruction::SetIndex { addr } => "LD\tI, "@ + decimal(addr as nat),
        Instruction::JumpOffset { addr } => "JP\tV0, "@ + decimal(addr as nat),
        Instruction::Random { x, byte } => "RND\t"@ + reg(x) + ", "@ + decimal(byte as nat),
        Instruction::Draw { x, y, rows } => "DRW\t"@ + decimal(x as nat) + ", "@ + decimal(
            y as nat,
        ) + ", "@ + decimal(rows as nat),
        Instruction::SkipIfKey { x } => "SKP\t"@ + reg(x),
        Instruction::SkipUnlessKey { x } => "SKNP\t"@ + reg(x),
        Instruction::ReadDelay { x } => "LD\t"@ + reg(x) + ", delay"@,
        Instruction::WaitKey { x } => "LD\t"@ + reg(x) + ", K"@,
        Instruction::SetDelay { x } => "LD\tdelay, "@ + reg(x),
        Instruction::SetSound { x } => "LD\tsound, "@ + reg(x),
        Instruction::AddIndex { x } => "ADD\tI, "@ + reg(x),
        Instruction::Glyph { x } => "LD\tF, "@ + reg(x),
        Instruction::Bcd { x } => "LD\tB, "@ + reg(x),
        Instruction::Save { x } => "LD\t[I], "@ + reg(x),
        Instruction::Restore { x } => "LD\t"@ + reg(x) + ", [I]"@,
        Instruction::Unknown { opcode } => "UNKNOWN "@ + hex(opcode as nat),
    }
}

/// One line of a listing: the word in hexadecimal, a tab, and the assembly
/// text of the instruction it encodes.
pub open spec fn disassembly(opcode: u16) -> Seq<char> {
    hex(opcode as nat) + "\t"@ + mnemonic_text(decoded(opcode))
}

/// Appends the digit `d` to `line`.
fn push_digit(line: &mut String, d: usize)
    requires
        d < 16,
    ensures
        final(line)@ == old(line)@ + digit(d as int),
{
    let digits: &'static str = "0123456789abcdef";
    proof {
        reveal_strlit("0123456789abcdef");
    }
    line.append(digits.substring_ascii(d, d + 1));
}

/// Appends `n` in decimal to `line`.
fn push_decimal(line: &mut String, n: usize)
    ensures
        final(line)@ == old(line)@ + decimal(n as nat),
    decreases n,
{
    if n >= 10 {
        push_decimal(line, n / 10);
    }
    push_digit(line, n % 10);
    assert(line@ =~= old(line)@ + decimal(n as nat));
}

/// Appends `n` in hexadecimal to `line`.
fn push_hex(line: &mut String, n: usize)
    ensures
        final(line)@ == old(line)@ + hex(n as nat),
    decreases n,
{
    if n >= 16 {
        push_hex(line, n / 16);
    }
    push_digit(line, n % 16);
    assert(line@ =~= old(line)@ + hex(n as nat));
}

/// Appends the name of register `r` to `line`.
fn push_reg(line: &mut String, r: usize)
    ensures
        final(line)@ == old(line)@ + reg(r),
{
    line.append("V");
    push_decimal(line, r);
    assert(line@ =~= old(line)@ + reg(r));
}

/// Appends `mnemonic`, the name of register `x`, a comma and `n` in
/// decimal to `line`.
fn push_reg_and_number(line: &mut String, mnemonic: &str, x: usize, n: usize)
    ensures
        final(line)@ == old(line)@ + (mnemonic@ + reg(x) + ", "@ + decimal(n as nat)),
{
    line.append(mnemonic);
    push_reg(line, x);
    line.append(", ");
    push_decimal(line, n);
    assert(line@ =~= old(line)@ + (mnemonic@ + reg(x) + ", "@ + decimal(n as nat)));
}

/// Appends `mnemonic` and the names of registers `x` and `y`, with a comma
/// between them, to `line`.
fn push_two_regs(line: &mut String, mnemonic: &str, x: usize, y: usize)
    ensures
        final(line)@ == old(line)@ + (mnemonic@ + reg(x) + ", "@ + reg(y)),
{
    line.append(mnemonic);
    push_reg(line, x);
    line.append(", ");
    push_reg(line, y);
    assert(line@ =~= old(line)@ + (mnemonic@ + reg(x) + ", "@ + reg(y)));
}

/// Appends `before`, the name of register `x` and `after` to `line`.
fn push_around_reg(line: &mut String, before: &str, x: usize, after: &str)
    ensures
        final(line)@ == old(line)@ + (before@ + reg(x) + after@),
{
    line.append(before);
    push_reg(line, x);
    line.append(after);
    assert(line@ =~= old(line)@ + (before@ + reg(x) + after@));
}

/// Appends `before` and `n` in decimal to `line`.
fn push_number(line: &mut String, before: &str, n: usize)
    ensures
        final(line)@ == old(line)@ + (before@ + decimal(n as nat)),
{
    line.append(before);
    push_decimal(line, n);
    assert(line@ =~= old(line)@ + (before@ + decimal(n as nat)));
}

/// The assembly text of `instruction`.
pub fn mnemonic(instruction: Instruction) -> (text: String)
    ensures
        text@ == mnemonic_text(instruction),
{
    let mut text = String::new();
    match instruction {
        Instruction::ClearScreen => text.append("CLS"),
        Instruction::Return => text.append("RET"),
        Instruction::Jump { addr } => push_number(&mut text, "JMP\t", addr as usize),
        Instruction::Call { addr } => push_number(&mut text, "CALL\t", addr as usize),
        Instruction::SkipIfByte { x, byte } => push_reg_and_number(
            &mut text,
            "SE\t",
            x,
            byte as usize,
        ),
        Instruction::SkipUnlessByte { x, byte } => push_reg_and_number(
            &mut text,
            "SNE\t",
            x,
            byte as usize,
        ),
        Instruction::SkipIfSame { x, y } => push_two_regs(&mut text, "SE\t", x, y),
        Instruction::SetByte { x, byte } => push_reg_and_number(
            &mut text,
            "LD\t",
            x,
            byte as usize,
        ),
        Instruction::AddByte { x, byte } => push_reg_and_number(
            &mut text,
            "ADD\t",
            x,
            byte as usize,
        ),
        Instruction::Assign { x, y } => push_two_regs(&mut text, "LD\t", x, y),
        Instruction::Or { x, y } => push_two_regs(&mut text, "OR\t", x, y),
        Instruction::And { x, y } => push_two_regs(&mut text, "AND\t", x, y),
        Instruction::Xor { x, y } => push_two_regs(&mut text, "XOR\t", x, y),
        Instruction::Add { x, y } => push_two_regs(&mut text, "ADD\t", x, y),
        Instruction::Sub { x, y } => push_two_regs(&mut text, "SUB\t", x, y),
        Instruction::ShiftRight { x } => push_around_reg(&mut text, "SHR\t", x, ""),
        Instruction::SubFrom { x, y } => push_two_regs(&mut text, "SUBN\t", x, y),
        Instruction::ShiftLeft { x } => push_around_reg(&mut text, "SHR\t", x, ""),
        Instruction::SkipUnlessSame { x, y } => push_two_regs(&mut text, "SNE\t", x, y),
        Instruction::SetIndex { addr } => push_number(&mut text, "LD\tI, ", addr as usize),
        Instruction::JumpOffset { addr } => push_number(&mut text, "JP\tV0, ", addr as usize),
        Instruction::Random { x, byte } => push_reg_and_number(
            &mut text,
            "RND\t",
            x,
            byte as usize,
        ),
        Instruction::Draw { x, y, rows } => {
            push_number(&mut text, "DRW\t", x);
            push_number(&mut text, ", ", y);
            push_number(&mut text, ", ", rows as usize);
        },
        Instruction::SkipIfKey { x } => push_around_reg(&mut text, "SKP\t", x, ""),
        Instruction::SkipUnlessKey { x } => push_around_reg(&mut text, "SKNP\t", x, ""),
        Instruction::ReadDelay { x } => push_around_reg(&mut text, "LD\t", x, ", delay"),
        Instruction::WaitKey { x } => push_around_reg(&mut text, "LD\t", x, ", K"),
        Instruction::SetDelay { x } => push_around_reg(&mut text, "LD\tdelay, ", x, ""),
        Instruction::SetSound { x } => push_around_reg(&mut text, "LD\tsound, ", x, ""),
        Instruction::AddIndex { x } => push_around_reg(&mut text, "ADD\tI, ", x, ""),
        Instruction::Glyph { x } => push_around_reg(&mut text, "LD\tF, ", x, ""),
        Instruction::Bcd { x } => push_around_reg(&mut text, "LD\tB, ", x, ""),
        Instruction::Save { x } => push_around_reg(&mut text, "LD\t[I], ", x, ""),
        Instruction::Restore { x } => push_around_reg(&mut text, "LD\t", x, ", [I]"),
        Instruction::Unknown { opcode } => {
            text.append("UNKNOWN ");
            push_hex(&mut text, opcode as usize);
        },
    }
    proof {
        reveal_strlit("");
    }
    assert(text@ =~= mnemonic_text(instruction));
    text
}

/// One line of a listing for the word `opcode`: the word in hexadecimal, a
/// tab, and the assembly text of the instruction it encodes.
pub fn disassemble(opcode: u16) -> (line: String)
    ensures
        line@ == disassembly(opcode),
{
    let mut line = String::new();
    push_hex(&mut line, opcode as usize);
    line.append("\t");
    let text = mnemonic(decode(opcode));
    line.append(text.as_str());
    assert(line@ =~= disassembly(opcode));
    line
}

} // verus!
