//! The mathematical model of the machine: everything a program can see or
//! change, as plain sequences and numbers.

use vstd::prelude::*;
use crate::clock::Tick;
use crate::display::blank_screen;
use crate::font::FONT;

verus! {

/// Addressable bytes of memory.
pub const MEMORY_SIZE: usize = 4096;

/// Where programs are loaded and where execution starts.
pub const PROGRAM_START: u16 = 0x200;

/// The longest program that fits between [`PROGRAM_START`] and the end of
/// memory.
pub const MAX_PROGRAM_SIZE: usize = 3584;

/// The register that arithmetic and drawing use to report carry, borrow
/// and collision.
pub const FLAG_REGISTER: usize = 15;

/// The state of a machine.
#[verifier::ext_equal]
pub struct MachineState {
    /// The 4096 bytes of memory.
    pub memory: Seq<u8>,
    /// The 16 general registers.
    pub registers: Seq<u8>,
    /// The index register.
    pub index: u16,
    /// The address of the next instruction.
    pub pc: u16,
    /// The return addresses of the subroutines being run, innermost last.
    pub stack: Seq<u16>,
    /// The 2048 pixels, row by row.
    pub screen: Seq<bool>,
    /// The sound timer.
    pub sound: u8,
    /// The delay timer.
    pub delay: u8,
    /// Which of the 16 keys are held down.
    pub keys: Seq<bool>,
    /// Whether execution is suspended until a key is pressed.
    pub locked: bool,
    /// The register that receives the key that ends the suspension.
    pub locked_register: u8,
    /// When the timers last decayed.
    pub last_tick: Tick,
}

impl MachineState {
    /// The shape every machine has: the fixed sizes of its parts, and a
    /// target register that exists.
    pub open spec fn wf(self) -> bool {
        &&& self.memory.len() == 4096
        &&& self.registers.len() == 16
        &&& self.screen.len() == 2048
        &&& self.keys.len() == 16
        &&& self.locked_register < 16
    }

    /// The value of register `x`.
    pub open spec fn register(self, x: u8) -> u8 {
        self.registers[x as int]
    }
}

/// Memory as a reset leaves it: the font at the start, zeros after it.
pub open spec fn initial_memory() -> Seq<u8> {
    Seq::new(
        4096,
        |address: int|
            if address < 80 {
                FONT@[address]
            } else {
                0u8
            },
    )
}

/// Memory after `program` is loaded into a machine that was just reset.
pub open spec fn memory_with_program(program: Seq<u8>) -> Seq<u8> {
    Seq::new(
        4096,
        |address: int|
            if 0x200 <= address < 0x200 + program.len() {
                program[address - 0x200]
            } else {
                initial_memory()[address]
            },
    )
}

/// The state of a machine that was built or reset at `now` and holds no
/// program.
pub open spec fn initial_state(now: Tick) -> MachineState {
    MachineState {
        memory: initial_memory(),
        registers: Seq::new(16, |register: int| 0u8),
        index: 0,
        pc: 0x200,
        stack: Seq::empty(),
        screen: blank_screen(),
        sound: 0,
        delay: 0,
        keys: Seq::new(16, |key: int| false),
        locked: false,
        locked_register: 0,
        last_tick: now,
    }
}

/// The state of a machine that holds `program` and has not run yet.
pub open spec fn loaded_state(program: Seq<u8>, now: Tick) -> MachineState {
    MachineState { memory: memory_with_program(program), ..initial_state(now) }
}

} // verus!
