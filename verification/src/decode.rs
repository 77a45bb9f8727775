//! Field extraction from a 16-bit instruction word.
//!
//! An instruction word is read as four nibbles, numbered from the least
//! significant one. Nibble 3 names the instruction family, nibbles 2 and 1
//! usually name registers, and the low two or three nibbles hold an
//! immediate byte or an address.

use vstd::prelude::*;

verus! {

/// The four-bit field of `opcode` at `position`, counted from the least
/// significant nibble. Positions past the word hold nothing.
pub open spec fn nibble_at(opcode: u16, position: int) -> int {
    if position == 0 {
        opcode as int % 16
    } else if position == 1 {
        (opcode as int / 16) % 16
    } else if position == 2 {
        (opcode as int / 256) % 16
    } else if position == 3 {
        opcode as int / 4096
    } else {
        0
    }
}

/// What is left of `opcode` once its lowest `nibbles` nibbles are shifted
/// out to the right.
pub open spec fn without_low_nibbles(opcode: u16, nibbles: int) -> int {
    if nibbles == 0 {
        opcode as int
    } else if nibbles == 1 {
        opcode as int / 16
    } else if nibbles == 2 {
        opcode as int / 256
    } else if nibbles == 3 {
        opcode as int / 4096
    } else {
        0
    }
}

/// The address operand: the low twelve bits of the word.
pub open spec fn address_of(opcode: u16) -> u16 {
    (opcode % 4096) as u16
}

/// The immediate operand: the low eight bits of the word.
pub open spec fn immediate_of(opcode: u16) -> u8 {
    (opcode % 256) as u8
}

/// Extracts the nibble of `opcode` at position `nibble` (0 is the least
/// significant one).
pub fn hex_nibble(opcode: u16, nibble: u8) -> (field: u16)
    ensures
        field == nibble_at(opcode, nibble as int),
        field < 16,
{
    if nibble >= 4 {
        0
    } else {
        let shift: u16 = 4 * (nibble as u16);
        assert(((opcode >> shift) & 0xf) == (if shift == 0 {
            opcode % 16
        } else if shift == 4 {
            (opcode / 16) % 16
        } else if shift == 8 {
            (opcode / 256) % 16
        } else {
            opcode / 4096
        })) by (bit_vector)
            requires
                shift == 0 || shift == 4 || shift == 8 || shift == 12,
        ;
        (opcode >> shift) & 0xf
    }
}

/// The least significant nibble of `x`.
pub fn lsb(x: u16) -> (field: u16)
    ensures
        field == nibble_at(x, 0),
        field < 16,
{
    hex_nibble(x, 0)
}

/// The most significant nibble of `x`: the instruction family.
pub fn gsb(x: u16) -> (field: u16)
    ensures
        field == nibble_at(x, 3),
        field < 16,
{
    hex_nibble(x, 3)
}

/// Shifts the lowest `nibbles_to_drop` nibbles out of `opcode`.
pub fn left_truncate(opcode: u16, nibbles_to_drop: u16) -> (rest: u16)
    ensures
        rest == without_low_nibbles(opcode, nibbles_to_drop as int),
{
    if nibbles_to_drop >= 4 {
        0
    } else {
        let shift: u16 = 4 * nibbles_to_drop;
        assert((opcode >> shift) == (if shift == 0 {
            opcode
        } else if shift == 4 {
            opcode / 16
        } else if shift == 8 {
            opcode / 256
        } else {
            opcode / 4096
        })) by (bit_vector)
            requires
                shift == 0 || shift == 4 || shift == 8 || shift == 12,
        ;
        opcode >> shift
    }
}

/// The low twelve bits of `opcode`.
pub fn address(opcode: u16) -> (target: u16)
    ensures
        target == address_of(opcode),
        target < 4096,
{
    assert(opcode & 0x0fff == opcode % 4096) by (bit_vector);
    opcode & 0x0fff
}

/// The low eight bits of `opcode`.
pub fn immediate(opcode: u16) -> (byte: u8)
    ensures
        byte == immediate_of(opcode),
{
    assert(opcode & 0x00ff == opcode % 256) by (bit_vector);
    (opcode & 0x00ff) as u8
}

} // verus!
