//! What each instruction does to the state of the machine.
//!
//! Executing an instruction has two parts. The instruction's own effect
//! comes first; jumps aim two bytes short of their target. Then the program
//! counter moves two bytes on, whatever the instruction was. A machine that
//! waits for a key does neither.

use vstd::prelude::*;
use crate::alu::{borrow_flag, carry_flag, difference_of, greater_flag, sum_of};
use crate::clock::{elapsed_seconds, timer_after, Tick};
use crate::display::{blank_screen, collides, drawn};
use crate::instruction::{decoded, well_formed, Instruction};
use crate::state::MachineState;

verus! {

/// Why an instruction could not be carried out.
#[derive(Clone, Copy, Debug, PartialEq, Eq)]
pub enum ExecutionFault {
    /// The instruction names a register past the sixteenth or a sprite of
    /// more than fifteen rows. No instruction word decodes to such an
    /// instruction.
    InvalidOperand,
    /// The instruction would read or write past the end of memory.
    AddressOutOfRange,
    /// The instruction asks for a key past the sixteenth.
    KeyOutOfRange,
    /// The program counter leaves no room for an instruction word before the
    /// end of memory.
    ProgramCounterOutOfRange,
}

/// How an attempt to execute one instruction ended.
#[derive(Clone, Copy, Debug, PartialEq, Eq)]
pub enum Outcome {
    /// The instruction was carried out.
    Completed,
    /// The machine waits for a key; nothing was done.
    Suspended,
    /// The word names no instruction; it was passed over.
    Unknown(u16),
    /// The instruction could not be carried out; it was passed over.
    Fault(ExecutionFault),
}

/// The address two bytes before `address`, wrapping below zero.
pub open spec fn two_before(address: u16) -> u16 {
    if address >= 2 {
        (address - 2) as u16
    } else {
        (address + 0x1_0000 - 2) as u16
    }
}

/// The address two bytes after `address`, wrapping past the top.
pub open spec fn two_after(address: u16) -> u16 {
    if address + 2 < 0x1_0000 {
        (address + 2) as u16
    } else {
        (address + 2 - 0x1_0000) as u16
    }
}

/// Where a jump with operand `address` lands when register 0 holds `offset`.
pub open spec fn offset_target(address: u16, offset: u8) -> u16 {
    ((address + offset) % 0x1_0000) as u16
}

/// The state with `value` in register `x`.
pub open spec fn with_register(s: MachineState, x: u8, value: u8) -> MachineState {
    MachineState { registers: s.registers.update(x as int, value), ..s }
}

/// The state with `flag` in the flag register and then `value` in register
/// `x`. Where `x` is the flag register, the value is what remains.
pub open spec fn with_result(s: MachineState, x: u8, value: u8, flag: u8) -> MachineState {
    MachineState { registers: s.registers.update(15, flag).update(x as int, value), ..s }
}

/// The state with the next instruction skipped if `condition` holds.
pub open spec fn skipping_if(s: MachineState, condition: bool) -> MachineState {
    if condition {
        MachineState { pc: two_after(s.pc), ..s }
    } else {
        s
    }
}

/// The state with the program counter aimed two bytes short of `target`.
pub open spec fn aiming_at(s: MachineState, target: u16) -> MachineState {
    MachineState { pc: two_before(target), ..s }
}

/// Memory with the three decimal digits of `value` at `index`, hundreds
/// first.
pub open spec fn with_digits(memory: Seq<u8>, index: int, value: u8) -> Seq<u8> {
    memory.update(index, value / 100).update(index + 1, (value / 10) % 10).update(
        index + 2,
        value % 10,
    )
}

/// Memory with registers 0 to `last` stored from `index` on.
pub open spec fn with_registers_stored(
    memory: Seq<u8>,
    registers: Seq<u8>,
    index: int,
    last: int,
) -> Seq<u8> {
    Seq::new(
        memory.len(),
        |address: int|
            if index <= address <= index + last {
                registers[address - index]
            } else {
                memory[address]
            },
    )
}

/// The registers with 0 to `last` loaded from memory at `index` on.
pub open spec fn with_registers_loaded(
    registers: Seq<u8>,
    memory: Seq<u8>,
    index: int,
    last: int,
) -> Seq<u8> {
    Seq::new(
        registers.len(),
        |register: int|
            if register <= last {
                memory[index + register]
            } else {
                registers[register]
            },
    )
}

/// The fault that stops `instruction` in state `s`, if there is one.
pub open spec fn fault_of(s: MachineState, instruction: Instruction) -> Option<ExecutionFault> {
    if !well_formed(instruction) {
        Some(ExecutionFault::InvalidOperand)
    } else if match instruction {
        Instruction::Draw { height, .. } => s.index + height > 4096,
        Instruction::StoreDigits { .. } => s.index + 3 > 4096,
        Instruction::StoreRegisters { x } | Instruction::LoadRegisters { x } => s.index + x + 1
            > 4096,
        _ => false,
    } {
        Some(ExecutionFault::AddressOutOfRange)
    } else if match instruction {
        Instruction::SkipIfKeyDown { x } | Instruction::SkipIfKeyUp { x } => s.register(x) >= 16,
        _ => false,
    } {
        Some(ExecutionFault::KeyOutOfRange)
    } else {
        None
    }
}

/// The state after a sprite of `height` rows, stored at the index register,
/// is drawn at the position held in registers `x` and `y`: the sprite is
/// XORed onto the screen and the flag register tells whether a lit pixel
/// went dark.
pub open spec fn with_sprite(s: MachineState, x: u8, y: u8, height: u8) -> MachineState {
    let index = s.index as int;
    let left = s.register(x) as int;
    let top = s.register(y) as int;
    MachineState {
        screen: drawn(s.screen, s.memory, index, height as int, left, top),
        registers: s.registers.update(
            15,
            if collides(s.screen, s.memory, index, height as int, left, top) {
                1u8
            } else {
                0u8
            },
        ),
        ..s
    }
}

/// The effect of an instruction that meets no fault, before the program
/// counter moves on. `random` is the byte that an instruction asking for a
/// random number receives.
pub open spec fn effect(s: MachineState, instruction: Instruction, random: u8) -> MachineState {
    match instruction {
        Instruction::ClearScreen => MachineState { screen: blank_screen(), ..s },
        Instruction::Return => if s.stack.len() > 0 {
            MachineState { stack: s.stack.drop_last(), ..aiming_at(s, s.stack.last()) }
        } else {
            s
        },
        Instruction::Jump { address } => aiming_at(s, address),
        Instruction::Call { address } => MachineState {
            stack: s.stack.push(s.pc),
            ..aiming_at(s, address)
        },
        Instruction::SkipIfEqual { x, byte } => skipping_if(s, s.register(x) == byte),
        Instruction::SkipIfNotEqual { x, byte } => skipping_if(s, s.register(x) != byte),
        Instruction::SkipIfRegistersEqual { x, y } => skipping_if(
            s,
            s.register(x) == s.register(y),
        ),
        Instruction::Load { x, byte } => with_register(s, x, byte),
        Instruction::AddImmediate { x, byte } => with_register(s, x, sum_of(s.register(x), byte)),
        Instruction::Copy { x, y } => with_register(s, x, s.register(y)),
        Instruction::Or { x, y } => with_register(s, x, s.register(x) | s.register(y)),
        Instruction::And { x, y } => with_register(s, x, s.register(x) & s.register(y)),
        Instruction::Xor { x, y } => with_register(s, x, s.register(x) ^ s.register(y)),
        Instruction::Add { x, y } => with_result(
            s,
            x,
            sum_of(s.register(x), s.register(y)),
            carry_flag(s.register(x), s.register(y)),
        ),
        Instruction::Subtract { x, y } => with_result(
            s,
            x,
            difference_of(s.register(x), s.register(y)),
            borrow_flag(s.register(x), s.register(y)),
        ),
        Instruction::ShiftRight { x } => with_result(s, x, s.register(x) / 2, s.register(x) % 2),
        Instruction::SubtractFrom { x, y } => with_result(
            s,
            x,
            difference_of(s.register(y), s.register(x)),
            greater_flag(s.register(y), s.register(x)),
        ),
        Instruction::SkipIfRegistersDiffer { x, y } => skipping_if(
            s,
            s.register(x) != s.register(y),
        ),
        Instruction::LoadIndex { address } => MachineState { index: address, ..s },
        Instruction::JumpOffset { address } => aiming_at(s, offset_target(address, s.register(0))),
        Instruction::Random { x, byte } => with_register(s, x, byte & random),
        Instruction::Draw { x, y, height } => with_sprite(s, x, y, height),
        Instruction::SkipIfKeyDown { x } => skipping_if(s, s.keys[s.register(x) as int]),
        Instruction::SkipIfKeyUp { x } => skipping_if(s, !s.keys[s.register(x) as int]),
        Instruction::StoreDigits { x } => MachineState {
            memory: with_digits(s.memory, s.index as int, s.register(x)),
            ..s
        },
        Instruction::ReadDelay { x } => with_register(s, x, s.delay),
        Instruction::StoreRegisters { x } => MachineState {
            memory: with_registers_stored(s.memory, s.registers, s.index as int, x as int),
            ..s
        },
        Instruction::LoadRegisters { x } => MachineState {
            registers: with_registers_loaded(s.registers, s.memory, s.index as int, x as int),
            ..s
        },
        Instruction::SetSound { x } => MachineState { sound: s.register(x), ..s },
        Instruction::GlyphAddress { x } => MachineState { index: (s.register(x) * 5) as u16, ..s },
        Instruction::WaitForKey { x } => MachineState { locked: true, locked_register: x, ..s },
        Instruction::AddToIndex { x } => MachineState {
            index: ((s.index + s.register(x)) % 0x1_0000) as u16,
            ..s
        },
        Instruction::Unknown { .. } => s,
    }
}

/// The state after the instruction's own part: its effect, or nothing where
/// it meets a fault.
pub open spec fn applied(s: MachineState, instruction: Instruction, random: u8) -> MachineState {
    if fault_of(s, instruction) is Some {
        s
    } else {
        effect(s, instruction, random)
    }
}

/// The state with the program counter moved on by one instruction.
pub open spec fn advanced(s: MachineState) -> MachineState {
    MachineState { pc: two_after(s.pc), ..s }
}

/// The state after one attempt to execute `instruction`. A machine that
/// waits for a key stays as it is.
pub open spec fn executed(s: MachineState, instruction: Instruction, random: u8) -> MachineState {
    if s.locked {
        s
    } else {
        advanced(applied(s, instruction, random))
    }
}

/// How one attempt to execute `instruction` in state `s` ends.
pub open spec fn outcome_of(s: MachineState, instruction: Instruction) -> Outcome {
    if s.locked {
        Outcome::Suspended
    } else {
        match fault_of(s, instruction) {
            Some(fault) => Outcome::Fault(fault),
            None => match instruction {
                Instruction::Unknown { opcode } => Outcome::Unknown(opcode),
                _ => Outcome::Completed,
            },
        }
    }
}

/// The instruction word at the program counter, high byte first, where
/// memory holds a whole word there.
pub open spec fn fetched(s: MachineState) -> Option<u16> {
    if s.pc + 1 < 4096 {
        Some((s.memory[s.pc as int] * 256 + s.memory[s.pc + 1]) as u16)
    } else {
        None
    }
}

/// The state after the timers have caught up with the clock at `now`. In
/// under a second nothing changes, not even the moment remembered.
pub open spec fn ticked(s: MachineState, now: Tick) -> MachineState {
    let elapsed = elapsed_seconds(s.last_tick, now);
    if elapsed >= 1 {
        MachineState {
            delay: timer_after(s.delay, elapsed),
            sound: timer_after(s.sound, elapsed),
            last_tick: now,
            ..s
        }
    } else {
        s
    }
}

/// The state after fetching and executing one instruction, before the
/// timers decay. Where no word can be fetched nothing happens.
pub open spec fn cycled(s: MachineState, random: u8) -> MachineState {
    match fetched(s) {
        Some(opcode) => executed(s, decoded(opcode), random),
        None => s,
    }
}

/// How fetching and executing one instruction in state `s` ends.
pub open spec fn cycle_outcome(s: MachineState) -> Outcome {
    match fetched(s) {
        Some(opcode) => outcome_of(s, decoded(opcode)),
        None => Outcome::Fault(ExecutionFault::ProgramCounterOutOfRange),
    }
}

/// The state after one whole step: one instruction, then the timers.
pub open spec fn stepped(s: MachineState, random: u8, now: Tick) -> MachineState {
    ticked(cycled(s, random), now)
}

/// The state after key `key` goes down. A machine that waited for a key
/// receives it in its target register and runs again.
pub open spec fn pressed(s: MachineState, key: u8) -> MachineState {
    MachineState {
        keys: s.keys.update(key as int, true),
        registers: if s.locked {
            s.registers.update(s.locked_register as int, key)
        } else {
            s.registers
        },
        locked: false,
        ..s
    }
}

/// The state after key `key` goes up.
pub open spec fn released(s: MachineState, key: u8) -> MachineState {
    MachineState { keys: s.keys.update(key as int, false), ..s }
}

} // verus!
