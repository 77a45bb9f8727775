//! The instruction set: what each 16-bit word asks the machine to do.

use vstd::prelude::*;
use crate::decode::{address, address_of, gsb, hex_nibble, immediate, immediate_of, lsb, nibble_at};

verus! {

/// One decoded instruction. `x` and `y` name registers, `byte` is an
/// eight-bit immediate and `address` a twelve-bit one.
#[derive(Clone, Copy, Debug, PartialEq, Eq)]
pub enum Instruction {
    /// Turn every pixel off.
    ClearScreen,
    /// Leave the current subroutine.
    Return,
    /// Continue at `address`.
    Jump { address: u16 },
    /// Remember where we are, then continue at `address`.
    Call { address: u16 },
    /// Skip the next instruction if register `x` holds `byte`.
    SkipIfEqual { x: u8, byte: u8 },
    /// Skip the next instruction if register `x` does not hold `byte`.
    SkipIfNotEqual { x: u8, byte: u8 },
    /// Skip the next instruction if registers `x` and `y` hold the same value.
    SkipIfRegistersEqual { x: u8, y: u8 },
    /// Put `byte` into register `x`.
    Load { x: u8, byte: u8 },
    /// Add `byte` to register `x`, wrapping, without touching the flag.
    AddImmediate { x: u8, byte: u8 },
    /// Copy register `y` into register `x`.
    Copy { x: u8, y: u8 },
    /// Bitwise OR of register `y` into register `x`.
    Or { x: u8, y: u8 },
    /// Bitwise AND of register `y` into register `x`.
    And { x: u8, y: u8 },
    /// Bitwise XOR of register `y` into register `x`.
    Xor { x: u8, y: u8 },
    /// Add register `y` to register `x`, wrapping; the flag reports the carry.
    Add { x: u8, y: u8 },
    /// Subtract register `y` from register `x`, wrapping; the flag is set
    /// when the result is below the old value of `x`.
    Subtract { x: u8, y: u8 },
    /// Shift register `x` right by one; the flag receives the bit shifted out.
    ShiftRight { x: u8 },
    /// Store register `y` minus register `x` in `x`, wrapping; the flag is
    /// set when `y` was the greater.
    SubtractFrom { x: u8, y: u8 },
    /// Skip the next instruction if registers `x` and `y` differ.
    SkipIfRegistersDiffer { x: u8, y: u8 },
    /// Put `address` into the index register.
    LoadIndex { address: u16 },
    /// Continue at `address` plus the value of register 0.
    JumpOffset { address: u16 },
    /// Put a random byte, masked by `byte`, into register `x`.
    Random { x: u8, byte: u8 },
    /// XOR the sprite of `height` rows found at the index register onto the
    /// screen, at the position held in registers `x` and `y`.
    Draw { x: u8, y: u8, height: u8 },
    /// Skip the next instruction if the key named by register `x` is down.
    SkipIfKeyDown { x: u8 },
    /// Skip the next instruction if the key named by register `x` is up.
    SkipIfKeyUp { x: u8 },
    /// Write the three decimal digits of register `x` at the index register.
    StoreDigits { x: u8 },
    /// Copy the delay timer into register `x`.
    ReadDelay { x: u8 },
    /// Store registers 0 to `x` at the index register.
    StoreRegisters { x: u8 },
    /// Load registers 0 to `x` from the index register.
    LoadRegisters { x: u8 },
    /// Copy register `x` into the sound timer.
    SetSound { x: u8 },
    /// Point the index register at the glyph for the digit in register `x`.
    GlyphAddress { x: u8 },
    /// Stop executing until a key is pressed; its value goes to register `x`.
    WaitForKey { x: u8 },
    /// Add register `x` to the index register.
    AddToIndex { x: u8 },
    /// A word that names no instruction.
    Unknown { opcode: u16 },
}

/// The arithmetic family, chosen by the low nibble.
pub open spec fn decoded_arithmetic(opcode: u16) -> Instruction {
    let x = nibble_at(opcode, 2) as u8;
    let y = nibble_at(opcode, 1) as u8;
    let id = nibble_at(opcode, 0);
    if id == 0x0 {
        Instruction::Copy { x, y }
    } else if id == 0x1 {
        Instruction::Or { x, y }
    } else if id == 0x2 {
        Instruction::And { x, y }
    } else if id == 0x3 {
        Instruction::Xor { x, y }
    } else if id == 0x4 {
        Instruction::Add { x, y }
    } else if id == 0x5 {
        Instruction::Subtract { x, y }
    } else if id == 0x6 || id == 0xe {
        Instruction::ShiftRight { x }
    } else if id == 0x7 {
        Instruction::SubtractFrom { x, y }
    } else {
        Instruction::Unknown { opcode }
    }
}

/// The miscellaneous family, chosen by the low nibble and, where that is 5,
/// by the nibble above it.
pub open spec fn decoded_miscellaneous(opcode: u16) -> Instruction {
    let x = nibble_at(opcode, 2) as u8;
    let id = nibble_at(opcode, 0);
    let sub = nibble_at(opcode, 1);
    if id == 0x3 {
        Instruction::StoreDigits { x }
    } else if id == 0x5 {
        if sub == 0x1 {
            Instruction::ReadDelay { x }
        } else if sub == 0x5 {
            Instruction::StoreRegisters { x }
        } else if sub == 0x6 {
            Instruction::LoadRegisters { x }
        } else {
            Instruction::Unknown { opcode }
        }
    } else if id == 0x7 {
        Instruction::ReadDelay { x }
    } else if id == 0x8 {
        Instruction::SetSound { x }
    } else if id == 0x9 {
        Instruction::GlyphAddress { x }
    } else if id == 0xa {
        Instruction::WaitForKey { x }
    } else if id == 0xe {
        Instruction::AddToIndex { x }
    } else {
        Instruction::Unknown { opcode }
    }
}

/// The instruction that `opcode` encodes. The high nibble selects the
/// family; nibbles 2 and 1 name the registers `x` and `y`.
pub open spec fn decoded(opcode: u16) -> Instruction {
    let family = nibble_at(opcode, 3);
    let x = nibble_at(opcode, 2) as u8;
    let y = nibble_at(opcode, 1) as u8;
    let low = nibble_at(opcode, 0);
    let byte = immediate_of(opcode);
    let address = address_of(opcode);
    if family == 0x0 {
        if low == 0 {
            Instruction::ClearScreen
        } else {
            Instruction::Return
        }
    } else if family == 0x1 {
        Instruction::Jump { address }
    } else if family == 0x2 {
        Instruction::Call { address }
    } else if family == 0x3 {
        Instruction::SkipIfEqual { x, byte }
    } else if family == 0x4 {
        Instruction::SkipIfNotEqual { x, byte }
    } else if family == 0x5 {
        Instruction::SkipIfRegistersEqual { x, y }
    } else if family == 0x6 {
        Instruction::Load { x, byte }
    } else if family == 0x7 {
        Instruction::AddImmediate { x, byte }
    } else if family == 0x8 {
        decoded_arithmetic(opcode)
    } else if family == 0x9 {
        Instruction::SkipIfRegistersDiffer { x, y }
    } else if family == 0xa {
        Instruction::LoadIndex { address }
    } else if family == 0xb {
        Instruction::JumpOffset { address }
    } else if family == 0xc {
        Instruction::Random { x, byte }
    } else if family == 0xd {
        Instruction::Draw { x, y, height: low as u8 }
    } else if family == 0xe {
        if low == 0x1 {
            Instruction::SkipIfKeyDown { x }
        } else if low == 0xe {
            Instruction::SkipIfKeyUp { x }
        } else {
            Instruction::Unknown { opcode }
        }
    } else {
        decoded_miscellaneous(opcode)
    }
}

/// Whether `instruction` could have come from an instruction word: its
/// registers exist and its sprite has at most fifteen rows.
pub open spec fn well_formed(instruction: Instruction) -> bool {
    match instruction {
        Instruction::SkipIfEqual { x, .. }
        | Instruction::SkipIfNotEqual { x, .. }
        | Instruction::Load { x, .. }
        | Instruction::AddImmediate { x, .. }
        | Instruction::ShiftRight { x }
        | Instruction::Random { x, .. }
        | Instruction::SkipIfKeyDown { x }
        | Instruction::SkipIfKeyUp { x }
        | Instruction::StoreDigits { x }
        | Instruction::ReadDelay { x }
        | Instruction::StoreRegisters { x }
        | Instruction::LoadRegisters { x }
        | Instruction::SetSound { x }
        | Instruction::GlyphAddress { x }
        | Instruction::WaitForKey { x }
        | Instruction::AddToIndex { x } => x < 16,
        Instruction::SkipIfRegistersEqual { x, y }
        | Instruction::Copy { x, y }
        | Instruction::Or { x, y }
        | Instruction::And { x, y }
        | Instruction::Xor { x, y }
        | Instruction::Add { x, y }
        | Instruction::Subtract { x, y }
        | Instruction::SubtractFrom { x, y }
        | Instruction::SkipIfRegistersDiffer { x, y } => x < 16 && y < 16,
        Instruction::Draw { x, y, height } => x < 16 && y < 16 && height < 16,
        _ => true,
    }
}

/// Whether `instruction` decides where execution goes on: a jump, a call,
/// a return or a skip.
pub open spec fn is_control(instruction: Instruction) -> bool {
    match instruction {
        Instruction::Return
        | Instruction::Jump { .. }
        | Instruction::Call { .. }
        | Instruction::JumpOffset { .. }
        | Instruction::SkipIfEqual { .. }
        | Instruction::SkipIfNotEqual { .. }
        | Instruction::SkipIfRegistersEqual { .. }
        | Instruction::SkipIfRegistersDiffer { .. }
        | Instruction::SkipIfKeyDown { .. }
        | Instruction::SkipIfKeyUp { .. } => true,
        _ => false,
    }
}

/// Whether `instruction` computes a value for a register.
pub open spec fn is_arithmetic(instruction: Instruction) -> bool {
    match instruction {
        Instruction::Load { .. }
        | Instruction::AddImmediate { .. }
        | Instruction::Copy { .. }
        | Instruction::Or { .. }
        | Instruction::And { .. }
        | Instruction::Xor { .. }
        | Instruction::Add { .. }
        | Instruction::Subtract { .. }
        | Instruction::ShiftRight { .. }
        | Instruction::SubtractFrom { .. }
        | Instruction::Random { .. }
        | Instruction::ReadDelay { .. } => true,
        _ => false,
    }
}

impl Instruction {
    /// Tests whether the instruction decides where execution goes on.
    pub fn is_control(&self) -> (control: bool)
        ensures
            control == is_control(*self),
    {
        match *self {
            Instruction::Return
            | Instruction::Jump { .. }
            | Instruction::Call { .. }
            | Instruction::JumpOffset { .. }
            | Instruction::SkipIfEqual { .. }
            | Instruction::SkipIfNotEqual { .. }
            | Instruction::SkipIfRegistersEqual { .. }
            | Instruction::SkipIfRegistersDiffer { .. }
            | Instruction::SkipIfKeyDown { .. }
            | Instruction::SkipIfKeyUp { .. } => true,
            _ => false,
        }
    }

    /// Tests whether the instruction computes a value for a register.
    pub fn is_arithmetic(&self) -> (arithmetic: bool)
        ensures
            arithmetic == is_arithmetic(*self),
    {
        match *self {
            Instruction::Load { .. }
            | Instruction::AddImmediate { .. }
            | Instruction::Copy { .. }
            | Instruction::Or { .. }
            | Instruction::And { .. }
            | Instruction::Xor { .. }
            | Instruction::Add { .. }
            | Instruction::Subtract { .. }
            | Instruction::ShiftRight { .. }
            | Instruction::SubtractFrom { .. }
            | Instruction::Random { .. }
            | Instruction::ReadDelay { .. } => true,
            _ => false,
        }
    }

    /// Tests whether the instruction could have come from an instruction
    /// word.
    pub fn is_well_formed(&self) -> (valid: bool)
        ensures
            valid == well_formed(*self),
    {
        match *self {
            Instruction::SkipIfEqual { x, .. }
            | Instruction::SkipIfNotEqual { x, .. }
            | Instruction::Load { x, .. }
            | Instruction::AddImmediate { x, .. }
            | Instruction::ShiftRight { x }
            | Instruction::Random { x, .. }
            | Instruction::SkipIfKeyDown { x }
            | Instruction::SkipIfKeyUp { x }
            | Instruction::StoreDigits { x }
            | Instruction::ReadDelay { x }
            | Instruction::StoreRegisters { x }
            | Instruction::LoadRegisters { x }
            | Instruction::SetSound { x }
            | Instruction::GlyphAddress { x }
            | Instruction::WaitForKey { x }
            | Instruction::AddToIndex { x } => x < 16,
            Instruction::SkipIfRegistersEqual { x, y }
            | Instruction::Copy { x, y }
            | Instruction::Or { x, y }
            | Instruction::And { x, y }
            | Instruction::Xor { x, y }
            | Instruction::Add { x, y }
            | Instruction::Subtract { x, y }
            | Instruction::SubtractFrom { x, y }
            | Instruction::SkipIfRegistersDiffer { x, y } => x < 16 && y < 16,
            Instruction::Draw { x, y, height } => x < 16 && y < 16 && height < 16,
            _ => true,
        }
    }
}

/// Decodes the arithmetic family.
fn decode_arithmetic(opcode: u16) -> (instruction: Instruction)
    ensures
        instruction == decoded_arithmetic(opcode),
{
    let x: u8 = hex_nibble(opcode, 2) as u8;
    let y: u8 = hex_nibble(opcode, 1) as u8;
    match lsb(opcode) {
        0x0 => Instruction::Copy { x, y },
        0x1 => Instruction::Or { x, y },
        0x2 => Instruction::And { x, y },
        0x3 => Instruction::Xor { x, y },
        0x4 => Instruction::Add { x, y },
        0x5 => Instruction::Subtract { x, y },
        0x6 | 0xe => Instruction::ShiftRight { x },
        0x7 => Instruction::SubtractFrom { x, y },
        _ => Instruction::Unknown { opcode },
    }
}

/// Decodes the miscellaneous family.
fn decode_miscellaneous(opcode: u16) -> (instruction: Instruction)
    ensures
        instruction == decoded_miscellaneous(opcode),
{
    let x: u8 = hex_nibble(opcode, 2) as u8;
    match lsb(opcode) {
        0x3 => Instruction::StoreDigits { x },
        0x5 => match hex_nibble(opcode, 1) {
            0x1 => Instruction::ReadDelay { x },
            0x5 => Instruction::StoreRegisters { x },
            0x6 => Instruction::LoadRegisters { x },
            _ => Instruction::Unknown { opcode },
        },
        0x7 => Instruction::ReadDelay { x },
        0x8 => Instruction::SetSound { x },
        0x9 => Instruction::GlyphAddress { x },
        0xa => Instruction::WaitForKey { x },
        0xe => Instruction::AddToIndex { x },
        _ => Instruction::Unknown { opcode },
    }
}

/// Decodes one instruction word. Every word decodes; one that names no
/// instruction decodes to [`Instruction::Unknown`].
pub fn decode(opcode: u16) -> (instruction: Instruction)
    ensures
        instruction == decoded(opcode),
        well_formed(instruction),
{
    let x: u8 = hex_nibble(opcode, 2) as u8;
    let y: u8 = hex_nibble(opcode, 1) as u8;
    let low: u16 = lsb(opcode);
    match gsb(opcode) {
        0x0 => if low == 0 {
            Instruction::ClearScreen
        } else {
            Instruction::Return
        },
        0x1 => Instruction::Jump { address: address(opcode) },
        0x2 => Instruction::Call { address: address(opcode) },
        0x3 => Instruction::SkipIfEqual { x, byte: immediate(opcode) },
        0x4 => Instruction::SkipIfNotEqual { x, byte: immediate(opcode) },
        0x5 => Instruction::SkipIfRegistersEqual { x, y },
        0x6 => Instruction::Load { x, byte: immediate(opcode) },
        0x7 => Instruction::AddImmediate { x, byte: immediate(opcode) },
        0x8 => decode_arithmetic(opcode),
        0x9 => Instruction::SkipIfRegistersDiffer { x, y },
        0xa => Instruction::LoadIndex { address: address(opcode) },
        0xb => Instruction::JumpOffset { address: address(opcode) },
        0xc => Instruction::Random { x, byte: immediate(opcode) },
        0xd => Instruction::Draw { x, y, height: low as u8 },
        0xe => match low {
            0x1 => Instruction::SkipIfKeyDown { x },
            0xe => Instruction::SkipIfKeyUp { x },
            _ => Instruction::Unknown { opcode },
        },
        _ => decode_miscellaneous(opcode),
    }
}

} // verus!
