//! The instruction set and its encoding in 16-bit words.

use vstd::prelude::*;

verus! {

/// One decoded instruction. `x` and `y` name general registers, `byte` is an
/// immediate operand and `addr` a 12-bit address.
#[derive(Clone, Copy, Debug, PartialEq, Eq, Structural)]
pub enum Instruction {
    /// `00E0`: blank the screen.
    ClearScreen,
    /// `00EE`: return from a subroutine.
    Return,
    /// `1nnn`: jump to `addr`.
    Jump { addr: u16 },
    /// `2nnn`: call the subroutine at `addr`.
    Call { addr: u16 },
    /// `3xkk`: skip the next instruction if `Vx == byte`.
    SkipIfByte { x: usize, byte: u8 },
    /// `4xkk`: skip the next instruction if `Vx != byte`.
    SkipUnlessByte { x: usize, byte: u8 },
    /// `5xy_`: skip the next instruction if `Vx == Vy`.
    SkipIfSame { x: usize, y: usize },
    /// `6xkk`: `Vx = byte`.
    SetByte { x: usize, byte: u8 },
    /// `7xkk`: `Vx = Vx + byte`, without touching the flag.
    AddByte { x: usize, byte: u8 },
    /// `8xy0`: `Vx = Vy`.
    Assign { x: usize, y: usize },
    /// `8xy1`: `Vx = Vx | Vy`.
    Or { x: usize, y: usize },
    /// `8xy2`: `Vx = Vx & Vy`.
    And { x: usize, y: usize },
    /// `8xy3`: `Vx = Vx ^ Vy`.
    Xor { x: usize, y: usize },
    /// `8xy4`: `Vx = Vx + Vy`, VF = carry.
    Add { x: usize, y: usize },
    /// `8xy5`: `Vx = Vx - Vy`, VF = no borrow.
    Sub { x: usize, y: usize },
    /// `8x_6`: `Vx = Vx >> 1`, VF = the bit shifted out.
    ShiftRight { x: usize },
    /// `8xy7`: `Vx = Vy - Vx`, VF = no borrow.
    SubFrom { x: usize, y: usize },
    /// `8x_E`: `Vx = Vx << 1`, VF = the bit shifted out.
    ShiftLeft { x: usize },
    /// `9xy_`: skip the next instruction if `Vx != Vy`.
    SkipUnlessSame { x: usize, y: usize },
    /// `Annn`: `I = addr`.
    SetIndex { addr: u16 },
    /// `Bnnn`: jump to `V0 + addr`.
    JumpOffset { addr: u16 },
    /// `Cxkk`: `Vx = random & byte`.
    Random { x: usize, byte: u8 },
    /// `Dxyn`: draw the `rows`-byte sprite at `I` at `(Vx, Vy)`, VF =
    /// collision.
    Draw { x: usize, y: usize, rows: u16 },
    /// `Ex9E`: skip the next instruction if key `Vx` is down.
    SkipIfKey { x: usize },
    /// `ExA1`: skip the next instruction if key `Vx` is up.
    SkipUnlessKey { x: usize },
    /// `Fx07`: `Vx = delay timer`.
    ReadDelay { x: usize },
    /// `Fx0A`: wait for a key and store its index in `Vx`.
    WaitKey { x: usize },
    /// `Fx15`: `delay timer = Vx`.
    SetDelay { x: usize },
    /// `Fx18`: `sound timer = Vx`.
    SetSound { x: usize },
    /// `Fx1E`: `I = I + Vx`, VF = whether the sum left the 12-bit range.
    AddIndex { x: usize },
    /// `Fx29`: `I = address of the glyph for the digit Vx`.
    Glyph { x: usize },
    /// `Fx33`: store the three decimal digits of `Vx` at `I`.
    Bcd { x: usize },
    /// `Fx55`: store `V0..=Vx` at `I`.
    Save { x: usize },
    /// `Fx65`: load `V0..=Vx` from `I`.
    Restore { x: usize },
    /// Any word that encodes no instruction.
    Unknown { opcode: u16 },
}

/// The top four bits of a word, which select the instruction family.
pub open spec fn family(opcode: u16) -> u16 {
    opcode / 4096
}

/// Bits 8 to 11 of a word: the first register operand.
pub open spec fn field_x(opcode: u16) -> usize {
    ((opcode / 256) % 16) as usize
}

/// Bits 4 to 7 of a word: the second register operand.
pub open spec fn field_y(opcode: u16) -> usize {
    ((opcode / 16) % 16) as usize
}

/// The low four bits of a word.
pub open spec fn field_nibble(opcode: u16) -> u16 {
    opcode % 16
}

/// The low eight bits of a word.
pub open spec fn field_byte(opcode: u16) -> u8 {
    (opcode % 256) as u8
}

/// The low twelve bits of a word.
pub open spec fn field_addr(opcode: u16) -> u16 {
    opcode % 4096
}

/// The instruction that a word encodes. The family is looked at first;
/// families `0`, `E` and `F` are then told apart by the low byte and family
/// `8` by the low nibble, while the others carry only operands.
pub open spec fn decoded(opcode: u16) -> Instruction {
    let x = field_x(opcode);
    let y = field_y(opcode);
    let byte = field_byte(opcode);
    let addr = field_addr(opcode);
    let nibble = field_nibble(opcode);
    let unknown = Instruction::Unknown { opcode };
    match family(opcode) {
        0x0 => match byte {
            0xe0 => Instruction::ClearScreen,
            0xee => Instruction::Return,
            _ => unknown,
        },
        0x1 => Instruction::Jump { addr },
        0x2 => Instruction::Call { addr },
        0x3 => Instruction::SkipIfByte { x, byte },
        0x4 => Instruction::SkipUnlessByte { x, byte },
        0x5 => Instruction::SkipIfSame { x, y },
        0x6 => Instruction::SetByte { x, byte },
        0x7 => Instruction::AddByte { x, byte },
        0x8 => match nibble {
            0x0 => Instruction::Assign { x, y },
            0x1 => Instruction::Or { x, y },
            0x2 => Instruction::And { x, y },
            0x3 => Instruction::Xor { x, y },
            0x4 => Instruction::Add { x, y },
            0x5 => Instruction::Sub { x, y },
            0x6 => Instruction::ShiftRight { x },
            0x7 => Instruction::SubFrom { x, y },
            0xe => Instruction::ShiftLeft { x },
            _ => unknown,
        },
        0x9 => Instruction::SkipUnlessSame { x, y },
        0xa => Instruction::SetIndex { addr },
        0xb => Instruction::JumpOffset { addr },
        0xc => Instruction::Random { x, byte },
        0xd => Instruction::Draw { x, y, rows: nibble },
        0xe => match byte {
            0x9e => Instruction::SkipIfKey { x },
            0xa1 => Instruction::SkipUnlessKey { x },
            _ => unknown,
        },
        _ => match byte {
            0x07 => Instruction::ReadDelay { x },
            0x0a => Instruction::WaitKey { x },
            0x15 => Instruction::SetDelay { x },
            0x18 => Instruction::SetSound { x },
            0x1e => Instruction::AddIndex { x },
            0x29 => Instruction::Glyph { x },
            0x33 => Instruction::Bcd { x },
            0x55 => Instruction::Save { x },
            0x65 => Instruction::Restore { x },
            _ => unknown,
        },
    }
}

impl Instruction {
    /// The first register operand, or 0 where the instruction has none.
    pub open spec fn x(self) -> usize {
        match self {
            Instruction::SkipIfByte { x, .. }
            | Instruction::SkipUnlessByte { x, .. }
            | Instruction::SkipIfSame { x, .. }
            | Instruction::SetByte { x, .. }
            | Instruction::AddByte { x, .. }
            | Instruction::Assign { x, .. }
            | Instruction::Or { x, .. }
            | Instruction::And { x, .. }
            | Instruction::Xor { x, .. }
            | Instruction::Add { x, .. }
            | Instruction::Sub { x, .. }
            | Instruction::ShiftRight { x }
            | Instruction::SubFrom { x, .. }
            | Instruction::ShiftLeft { x }
            | Instruction::SkipUnlessSame { x, .. }
            | Instruction::Random { x, .. }
            | Instruction::Draw { x, .. }
            | Instruction::SkipIfKey { x }
            | Instruction::SkipUnlessKey { x }
            | Instruction::ReadDelay { x }
            | Instruction::WaitKey { x }
            | Instruction::SetDelay { x }
            | Instruction::SetSound { x }
            | Instruction::AddIndex { x }
            | Instruction::Glyph { x }
            | Instruction::Bcd { x }
            | Instruction::Save { x }
            | Instruction::Restore { x } => x,
            _ => 0,
        }
    }

    /// The second register operand, or 0 where the instruction has none.
    pub open spec fn y(self) -> usize {
        match self {
            Instruction::SkipIfSame { y, .. }
            | Instruction::Assign { y, .. }
            | Instruction::Or { y, .. }
            | Instruction::And { y, .. }
            | Instruction::Xor { y, .. }
            | Instruction::Add { y, .. }
            | Instruction::Sub { y, .. }
            | Instruction::SubFrom { y, .. }
            | Instruction::SkipUnlessSame { y, .. }
            | Instruction::Draw { y, .. } => y,
            _ => 0,
        }
    }

    /// Register operands name one of the sixteen registers.
    pub open spec fn wf(self) -> bool {
        self.x() < 16 && self.y() < 16
    }
}

/// Decodes one instruction word.
pub fn decode(opcode: u16) -> (instruction: Instruction)
    ensures
        instruction == decoded(opcode),
        instruction.wf(),
{
    let addr: u16 = opcode & 0x0fff;
    let nibble: u16 = opcode & 0x000f;
    let x: usize = ((opcode & 0x0f00) >> 8) as usize;
    let y: usize = ((opcode & 0x00f0) >> 4) as usize;
    let byte: u8 = (opcode & 0x00ff) as u8;
    let family: u16 = opcode >> 12;
    assert(opcode & 0x0fff == opcode % 4096) by (bit_vector);
    assert(opcode & 0x000f == opcode % 16) by (bit_vector);
    assert((opcode & 0x0f00) >> 8 == (opcode / 256) % 16) by (bit_vector);
    assert((opcode & 0x00f0) >> 4 == (opcode / 16) % 16) by (bit_vector);
    assert(opcode & 0x00ff == opcode % 256) by (bit_vector);
    assert(opcode >> 12 == opcode / 4096) by (bit_vector);
    let unknown = Instruction::Unknown { opcode };
    match family {
        0x0 => match byte {
            0xe0 => Instruction::ClearScreen,
            0xee => Instruction::Return,
            _ => unknown,
        },
        0x1 => Instruction::Jump { addr },
        0x2 => Instruction::Call { addr },
        0x3 => Instruction::SkipIfByte { x, byte },
        0x4 => Instruction::SkipUnlessByte { x, byte },
        0x5 => Instruction::SkipIfSame { x, y },
        0x6 => Instruction::SetByte { x, byte },
        0x7 => Instruction::AddByte { x, byte },
        0x8 => match nibble {
            0x0 => Instruction::Assign { x, y },
            0x1 => Instruction::Or { x, y },
            0x2 => Instruction::And { x, y },
            0x3 => Instruction::Xor { x, y },
            0x4 => Instruction::Add { x, y },
            0x5 => Instruction::Sub { x, y },
            0x6 => Instruction::ShiftRight { x },
            0x7 => Instruction::SubFrom { x, y },
            0xe => Instruction::ShiftLeft { x },
            _ => unknown,
        },
        0x9 => Instruction::SkipUnlessSame { x, y },
        0xa => Instruction::SetIndex { addr },
        0xb => Instruction::JumpOffset { addr },
        0xc => Instruction::Random { x, byte },
        0xd => Instruction::Draw { x, y, rows: nibble },
        0xe => match byte {
            0x9e => Instruction::SkipIfKey { x },
            0xa1 => Instruction::SkipUnlessKey { x },
            _ => unknown,
        },
        _ => match byte {
            0x07 => Instruction::ReadDelay { x },
            0x0a => Instruction::WaitKey { x },
            0x15 => Instruction::SetDelay { x },
            0x18 => Instruction::SetSound { x },
            0x1e => Instruction::AddIndex { x },
            0x29 => Instruction::Glyph { x },
            0x33 => Instruction::Bcd { x },
            0x55 => Instruction::Save { x },
            0x65 => Instruction::Restore { x },
            _ => unknown,
        },
    }
}

} // verus!
