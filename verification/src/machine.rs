//! The machine itself: its state, and the operations a host drives it with.

use vstd::prelude::*;
use crate::alu::{
    add_with_carry, halve, subtract_with_flag, subtract_with_greater, wrapping_sum,
};
use crate::clock::{clock_now, decay, seconds_between, Tick};
use crate::display::{clear_screen, draw_sprite};
use crate::entropy::random_byte;
use crate::font::{FONT, GLYPH_BYTES};
use crate::instruction::{decode, decoded, is_arithmetic, is_control, Instruction};
use crate::semantics::{
    aiming_at, cycle_outcome, cycled, effect, executed, fault_of, fetched, outcome_of, pressed,
    released, skipping_if, stepped, ticked, with_digits, with_register, with_registers_loaded,
    with_registers_stored, with_result, with_sprite, ExecutionFault, Outcome,
};
use crate::state::{
    initial_state, loaded_state, MachineState, FLAG_REGISTER, MAX_PROGRAM_SIZE, MEMORY_SIZE,
    PROGRAM_START,
};

verus! {

/// Why a program could not be loaded.
#[derive(Clone, Copy, Debug, PartialEq, Eq)]
pub enum LoadError {
    /// The program, of `length` bytes, does not fit between the load address
    /// and the end of memory.
    InvalidProgram { length: usize },
}

/// A CHIP-8 machine. It owns all of its state; a host changes it only by
/// loading a program, stepping, and pressing and releasing keys.
pub struct Chip8 {
    /// The font, then the program and its data.
    memory: [u8; 4096],
    /// The general registers; the last one is the flag.
    v: [u8; 16],
    /// The index register.
    i: u16,
    /// The address of the next instruction.
    pc: u16,
    /// The return addresses of the subroutines being run, innermost last.
    stack: Vec<u16>,
    /// The pixels, row by row.
    screen: [bool; 2048],
    /// The sound timer.
    sound: u8,
    /// The delay timer.
    delay: u8,
    /// Which keys are held down.
    keys: [bool; 16],
    /// Whether execution is suspended until a key is pressed.
    locked: bool,
    /// The register that receives that key. It is always one of the
    /// sixteen.
    locked_register: u8,
    /// When the timers last decayed.
    last_tick: Tick,
}

impl View for Chip8 {
    type V = MachineState;

    closed spec fn view(&self) -> MachineState {
        MachineState {
            memory: self.memory@,
            registers: self.v@,
            index: self.i,
            pc: self.pc,
            stack: self.stack@,
            screen: self.screen@,
            sound: self.sound,
            delay: self.delay,
            keys: self.keys@,
            locked: self.locked,
            locked_register: self.locked_register,
            last_tick: self.last_tick,
        }
    }
}

impl Chip8 {
    /// Builds a machine that holds the font and no program, and remembers
    /// the present moment as the time its timers last decayed.
    pub fn new() -> (chip: Chip8)
        ensures
            chip@.wf(),
            chip@ == initial_state(chip@.last_tick),
    {
        let now = clock_now();
        Chip8::new_at(now)
    }

    /// Builds a machine as [`Chip8::new`] does, with `now` as the present
    /// moment.
    pub fn new_at(now: Tick) -> (chip: Chip8)
        ensures
            chip@.wf(),
            chip@ == initial_state(now),
    {
        let mut chip = Chip8 {
            memory: [0; 4096],
            v: [0; 16],
            i: 0,
            pc: PROGRAM_START,
            stack: Vec::new(),
            screen: [false; 2048],
            sound: 0,
            delay: 0,
            keys: [false; 16],
            locked: false,
            locked_register: 0,
            last_tick: now,
        };
        chip.load_font_system();
        chip
    }

    /// Hands the machine back as it is.
    pub fn get_current_state(self) -> (state: Self)
        ensures
            state == self,
    {
        self
    }

    /// Copies the font to the start of memory.
    fn load_font_system(&mut self)
        ensures
            final(self)@ == (MachineState {
                memory: Seq::new(
                    4096,
                    |address: int|
                        if address < 80 {
                            FONT@[address]
                        } else {
                            old(self)@.memory[address]
                        },
                ),
                ..old(self)@
            }),
    {
        let mut x: usize = 0;
        while x < 80
            invariant
                x <= 80,
                forall|address: int| 0 <= address < x ==> self.memory@[address] == FONT@[address],
                forall|address: int|
                    x <= address < 4096 ==> self.memory@[address] == old(self)@.memory[address],
                self@ == (MachineState { memory: self.memory@, ..old(self)@ }),
            decreases 80 - x,
        {
            self.memory[x] = FONT[x];
            x += 1;
        }
    }

    /// Puts the machine back into the state it was built in. Only the
    /// moment of the last timer decay is kept.
    pub fn reset_system(&mut self)
        ensures
            final(self)@.wf(),
            final(self)@ == initial_state(old(self)@.last_tick),
    {
        self.memory = [0; 4096];
        self.v = [0; 16];
        self.i = 0;
        self.pc = PROGRAM_START;
        self.stack.clear();
        self.screen = [false; 2048];
        self.sound = 0;
        self.delay = 0;
        self.keys = [false; 16];
        self.locked = false;
        self.locked_register = 0;
        self.load_font_system();
    }

    /// Resets the machine and copies `rom` into memory from address 0x200
    /// on. A program that does not fit is refused and the machine is left
    /// as it was.
    pub fn load_rom(&mut self, rom: &[u8]) -> (loaded: Result<(), LoadError>)
        requires
            old(self)@.wf(),
        ensures
            final(self)@.wf(),
            rom@.len() <= MAX_PROGRAM_SIZE ==> loaded is Ok && final(self)@ == loaded_state(
                rom@,
                old(self)@.last_tick,
            ),
            rom@.len() > MAX_PROGRAM_SIZE ==> final(self)@ == old(self)@ && loaded == Err::<
                (),
                LoadError,
            >(LoadError::InvalidProgram { length: rom@.len() as usize }),
    {
        let length = rom.len();
        if length > MAX_PROGRAM_SIZE {
            return Err(LoadError::InvalidProgram { length });
        }
        self.reset_system();
        let ghost fresh = self@;
        let mut offset: usize = 0;
        while offset < length
            invariant
                offset <= length <= MAX_PROGRAM_SIZE,
                length == rom@.len(),
                forall|address: int|
                    0x200 <= address < 0x200 + offset ==> self.memory@[address] == rom@[address
                        - 0x200],
                forall|address: int|
                    0 <= address < 0x200 || 0x200 + offset <= address < 4096
                        ==> self.memory@[address] == fresh.memory[address],
                self@ == (MachineState { memory: self.memory@, ..fresh }),
            decreases length - offset,
        {
            self.memory[PROGRAM_START as usize + offset] = rom[offset];
            offset += 1;
        }
        Ok(())
    }

    /// Records that key `x` went down. A machine that waits for a key
    /// receives `x` in the register it waits with and runs again.
    pub fn press_button(&mut self, x: u8)
        requires
            old(self)@.wf(),
            x < 16,
        ensures
            final(self)@.wf(),
            final(self)@ == pressed(old(self)@, x),
    {
        self.keys[x as usize] = true;
        if self.locked {
            self.v[self.locked_register as usize] = x;
            self.locked = false;
        }
    }

    /// Records that key `x` went up.
    pub fn release_button(&mut self, x: u8)
        requires
            old(self)@.wf(),
            x < 16,
        ensures
            final(self)@.wf(),
            final(self)@ == released(old(self)@, x),
    {
        self.keys[x as usize] = false;
    }

    /// Gives up the machine for a copy of its screen, row by row.
    pub fn get_screen(self) -> (screen: [bool; 2048])
        ensures
            screen@ == self@.screen,
    {
        self.screen
    }

    /// Lets the timers catch up with the clock at `now`: each loses one
    /// unit per whole second since they last decayed, down to zero.
    pub fn decay_timers(&mut self, now: Tick)
        requires
            old(self)@.wf(),
        ensures
            final(self)@.wf(),
            final(self)@ == ticked(old(self)@, now),
    {
        let elapsed = seconds_between(self.last_tick, now);
        if elapsed >= 1 {
            self.delay = decay(self.delay, elapsed);
            self.sound = decay(self.sound, elapsed);
            self.last_tick = now;
        }
    }

    /// Finds the fault that stops `instruction` in the present state, if
    /// there is one.
    fn fault(&self, instruction: Instruction) -> (fault: Option<ExecutionFault>)
        requires
            self@.wf(),
        ensures
            fault == fault_of(self@, instruction),
    {
        if !instruction.is_well_formed() {
            return Some(ExecutionFault::InvalidOperand);
        }
        let index: usize = self.i as usize;
        match instruction {
            Instruction::Draw { height, .. } => if index + height as usize > MEMORY_SIZE {
                Some(ExecutionFault::AddressOutOfRange)
            } else {
                None
            },
            Instruction::StoreDigits { .. } => if index + 3 > MEMORY_SIZE {
                Some(ExecutionFault::AddressOutOfRange)
            } else {
                None
            },
            Instruction::StoreRegisters { x } | Instruction::LoadRegisters { x } => if index
                + x as usize + 1 > MEMORY_SIZE {
                Some(ExecutionFault::AddressOutOfRange)
            } else {
                None
            },
            Instruction::SkipIfKeyDown { x } | Instruction::SkipIfKeyUp { x } => {
                if self.v[x as usize] >= 16 {
                    Some(ExecutionFault::KeyOutOfRange)
                } else {
                    None
                }
            },
            _ => None,
        }
    }

    /// Skips the next instruction if `condition` holds.
    fn skip_if(&mut self, condition: bool)
        ensures
            final(self)@ == skipping_if(old(self)@, condition),
    {
        if condition {
            self.pc = self.pc.wrapping_add(2);
        }
    }

    /// Aims the program counter two bytes short of `target`, so that the
    /// advance that follows every instruction lands on it.
    fn aim_at(&mut self, target: u16)
        ensures
            final(self)@ == aiming_at(old(self)@, target),
    {
        self.pc = target.wrapping_sub(2);
    }

    /// Puts `value` into register `x`.
    fn set_register(&mut self, x: u8, value: u8)
        requires
            x < 16,
        ensures
            final(self)@ == with_register(old(self)@, x, value),
    {
        self.v[x as usize] = value;
    }

    /// Puts `flag` into the flag register, then `value` into register `x`.
    fn set_result(&mut self, x: u8, value: u8, flag: u8)
        requires
            x < 16,
        ensures
            final(self)@ == with_result(old(self)@, x, value, flag),
    {
        self.v[FLAG_REGISTER] = flag;
        self.v[x as usize] = value;
    }

    /// Writes the three decimal digits of `value` at the index register.
    fn store_digits(&mut self, value: u8)
        requires
            old(self)@.index + 3 <= 4096,
        ensures
            final(self)@ == (MachineState {
                memory: with_digits(
                    old(self)@.memory,
                    old(self)@.index as int,
                    value,
                ),
                ..old(self)@
            }),
    {
        let index: usize = self.i as usize;
        self.memory[index] = value / 100;
        self.memory[index + 1] = (value / 10) % 10;
        self.memory[index + 2] = value % 10;
    }

    /// Stores registers 0 to `last` at the index register.
    fn store_registers(&mut self, last: u8)
        requires
            last < 16,
            old(self)@.index + last + 1 <= 4096,
        ensures
            final(self)@ == (MachineState {
                memory: with_registers_stored(
                    old(self)@.memory,
                    old(self)@.registers,
                    old(self)@.index as int,
                    last as int,
                ),
                ..old(self)@
            }),
    {
        let index: usize = self.i as usize;
        let mut register: usize = 0;
        while register <= last as usize
            invariant
                register <= last + 1 <= 16,
                index == old(self)@.index,
                index + last + 1 <= 4096,
                forall|address: int|
                    index <= address < index + register ==> self.memory@[address] == old(
                        self,
                    )@.registers[address - index],
                forall|address: int|
                    0 <= address < index || index + register <= address < 4096
                        ==> self.memory@[address] == old(self)@.memory[address],
                self@ == (MachineState { memory: self.memory@, ..old(self)@ }),
            decreases last + 1 - register,
        {
            self.memory[index + register] = self.v[register];
            register += 1;
        }
    }

    /// Loads registers 0 to `last` from the index register.
    fn load_registers(&mut self, last: u8)
        requires
            last < 16,
            old(self)@.index + last + 1 <= 4096,
        ensures
            final(self)@ == (MachineState {
                registers: with_registers_loaded(
                    old(self)@.registers,
                    old(self)@.memory,
                    old(self)@.index as int,
                    last as int,
                ),
                ..old(self)@
            }),
    {
        let index: usize = self.i as usize;
        let mut register: usize = 0;
        while register <= last as usize
            invariant
                register <= last + 1 <= 16,
                index == old(self)@.index,
                index + last + 1 <= 4096,
                forall|loaded: int|
                    0 <= loaded < register ==> self.v@[loaded] == old(self)@.memory[index + loaded],
                forall|kept: int|
                    register <= kept < 16 ==> self.v@[kept] == old(self)@.registers[kept],
                self@ == (MachineState { registers: self.v@, ..old(self)@ }),
            decreases last + 1 - register,
        {
            self.v[register] = self.memory[index + register];
            register += 1;
        }
    }

    /// Draws the sprite at the index register and reports the collision in
    /// the flag register.
    fn draw(&mut self, x: u8, y: u8, height: u8)
        requires
            x < 16,
            y < 16,
            height < 16,
            old(self)@.index + height <= 4096,
        ensures
            final(self)@ == with_sprite(old(self)@, x, y, height),
    {
        let left: u8 = self.v[x as usize];
        let top: u8 = self.v[y as usize];
        let index: usize = self.i as usize;
        let collision = draw_sprite(&mut self.screen, &self.memory, index, height, left, top);
        self.v[FLAG_REGISTER] = if collision {
            1
        } else {
            0
        };
    }

    /// Carries out a jump, a call, a return or a skip.
    fn apply_control(&mut self, instruction: Instruction)
        requires
            old(self)@.wf(),
            fault_of(old(self)@, instruction) is None,
            is_control(instruction),
        ensures
            final(self)@ == effect(old(self)@, instruction, 0),
    {
        match instruction {
            Instruction::Return => {
                if self.stack.len() > 0 {
                    let address = self.stack.pop().unwrap();
                    self.aim_at(address);
                }
            },
            Instruction::Jump { address } => {
                self.aim_at(address);
            },
            Instruction::Call { address } => {
                self.stack.push(self.pc);
                self.aim_at(address);
            },
            Instruction::JumpOffset { address } => {
                self.aim_at(address.wrapping_add(self.v[0] as u16));
            },
            Instruction::SkipIfEqual { x, byte } => {
                self.skip_if(self.v[x as usize] == byte);
            },
            Instruction::SkipIfNotEqual { x, byte } => {
                self.skip_if(self.v[x as usize] != byte);
            },
            Instruction::SkipIfRegistersEqual { x, y } => {
                self.skip_if(self.v[x as usize] == self.v[y as usize]);
            },
            Instruction::SkipIfRegistersDiffer { x, y } => {
                self.skip_if(self.v[x as usize] != self.v[y as usize]);
            },
            Instruction::SkipIfKeyDown { x } => {
                self.skip_if(self.keys[self.v[x as usize] as usize]);
            },
            Instruction::SkipIfKeyUp { x } => {
                self.skip_if(!self.keys[self.v[x as usize] as usize]);
            },
            _ => {},
        }
    }

    /// Carries out an instruction that computes a value for register `x`.
    fn apply_arithmetic(&mut self, instruction: Instruction, random: u8)
        requires
            old(self)@.wf(),
            fault_of(old(self)@, instruction) is None,
            is_arithmetic(instruction),
        ensures
            final(self)@ == effect(old(self)@, instruction, random),
    {
        match instruction {
            Instruction::Load { x, byte } => {
                self.set_register(x, byte);
            },
            Instruction::AddImmediate { x, byte } => {
                self.set_register(x, wrapping_sum(self.v[x as usize], byte));
            },
            Instruction::Copy { x, y } => {
                self.set_register(x, self.v[y as usize]);
            },
            Instruction::Or { x, y } => {
                self.set_register(x, self.v[x as usize] | self.v[y as usize]);
            },
            Instruction::And { x, y } => {
                self.set_register(x, self.v[x as usize] & self.v[y as usize]);
            },
            Instruction::Xor { x, y } => {
                self.set_register(x, self.v[x as usize] ^ self.v[y as usize]);
            },
            Instruction::Add { x, y } => {
                let (sum, flag) = add_with_carry(self.v[x as usize], self.v[y as usize]);
                self.set_result(x, sum, flag);
            },
            Instruction::Subtract { x, y } => {
                let (difference, flag) = subtract_with_flag(self.v[x as usize], self.v[y as usize]);
                self.set_result(x, difference, flag);
            },
            Instruction::ShiftRight { x } => {
                let (half, bit) = halve(self.v[x as usize]);
                self.set_result(x, half, bit);
            },
            Instruction::SubtractFrom { x, y } => {
                let (difference, flag) = subtract_with_greater(
                    self.v[y as usize],
                    self.v[x as usize],
                );
                self.set_result(x, difference, flag);
            },
            Instruction::Random { x, byte } => {
                self.set_register(x, byte & random);
            },
            Instruction::ReadDelay { x } => {
                self.set_register(x, self.delay);
            },
            _ => {},
        }
    }

    /// Carries out an instruction that works on the screen, on memory, on
    /// the index register, on the sound timer or on the input lock.
    fn apply_machine(&mut self, instruction: Instruction)
        requires
            old(self)@.wf(),
            fault_of(old(self)@, instruction) is None,
            !is_control(instruction),
            !is_arithmetic(instruction),
        ensures
            final(self)@ == effect(old(self)@, instruction, 0),
    {
        match instruction {
            Instruction::ClearScreen => {
                clear_screen(&mut self.screen);
            },
            Instruction::LoadIndex { address } => {
                self.i = address;
            },
            Instruction::Draw { x, y, height } => {
                self.draw(x, y, height);
            },
            Instruction::StoreDigits { x } => {
                self.store_digits(self.v[x as usize]);
            },
            Instruction::StoreRegisters { x } => {
                self.store_registers(x);
            },
            Instruction::LoadRegisters { x } => {
                self.load_registers(x);
            },
            Instruction::SetSound { x } => {
                self.sound = self.v[x as usize];
            },
            Instruction::GlyphAddress { x } => {
                self.i = self.v[x as usize] as u16 * GLYPH_BYTES;
            },
            Instruction::WaitForKey { x } => {
                self.locked = true;
                self.locked_register = x;
            },
            Instruction::AddToIndex { x } => {
                self.i = self.i.wrapping_add(self.v[x as usize] as u16);
            },
            _ => {},
        }
    }

    /// Carries out the instruction's own part. The program counter is left
    /// for the caller to advance.
    fn apply(&mut self, instruction: Instruction, random: u8)
        requires
            old(self)@.wf(),
            fault_of(old(self)@, instruction) is None,
        ensures
            final(self)@ == effect(old(self)@, instruction, random),
    {
        if instruction.is_control() {
            self.apply_control(instruction);
        } else if instruction.is_arithmetic() {
            self.apply_arithmetic(instruction, random);
        } else {
            self.apply_machine(instruction);
        }
    }

    /// Executes one instruction. `random` is the byte that an instruction
    /// asking for a random number receives. A machine that waits for a key
    /// does nothing; otherwise the program counter moves on by one
    /// instruction once the instruction's own part is done, also where the
    /// instruction is unknown or meets a fault.
    pub fn execute(&mut self, instruction: Instruction, random: u8) -> (outcome: Outcome)
        requires
            old(self)@.wf(),
        ensures
            final(self)@.wf(),
            final(self)@ == executed(old(self)@, instruction, random),
            outcome == outcome_of(old(self)@, instruction),
    {
        if self.locked {
            return Outcome::Suspended;
        }
        let outcome = match self.fault(instruction) {
            Some(fault) => Outcome::Fault(fault),
            None => {
                self.apply(instruction, random);
                match instruction {
                    Instruction::Unknown { opcode } => Outcome::Unknown(opcode),
                    _ => Outcome::Completed,
                }
            },
        };
        self.pc = self.pc.wrapping_add(2);
        outcome
    }

    /// Decodes and executes one instruction word. An instruction that asks
    /// for a random number receives a freshly drawn byte; of the state that
    /// results, only that some byte leads to it is known.
    pub fn eval_opcode(&mut self, opcode: u16) -> (outcome: Outcome)
        requires
            old(self)@.wf(),
        ensures
            final(self)@.wf(),
            exists|random: u8|
                final(self)@ == #[trigger] executed(old(self)@, decoded(opcode), random),
            !(decoded(opcode) is Random) ==> forall|random: u8|
                final(self)@ == #[trigger] executed(old(self)@, decoded(opcode), random),
            outcome == outcome_of(old(self)@, decoded(opcode)),
    {
        let instruction = decode(opcode);
        let random: u8 = match instruction {
            Instruction::Random { .. } => if self.locked {
                0
            } else {
                random_byte()
            },
            _ => 0,
        };
        let outcome = self.execute(instruction, random);
        assert(self@ == executed(old(self)@, decoded(opcode), random));
        outcome
    }

    /// Reads the instruction word at the program counter, high byte first.
    /// There is none where the word would reach past the end of memory.
    pub fn fetch(&self) -> (opcode: Option<u16>)
        ensures
            opcode == fetched(self@),
    {
        let at: usize = self.pc as usize;
        if at + 1 < MEMORY_SIZE {
            Some(self.memory[at] as u16 * 256 + self.memory[at + 1] as u16)
        } else {
            None
        }
    }

    /// Runs one step with `random` as the byte for an instruction that asks
    /// for a random number and `now` as the present moment: fetches and
    /// executes the instruction at the program counter, then lets the
    /// timers decay. Where no instruction can be fetched only the timers
    /// decay.
    pub fn step_with(&mut self, random: u8, now: Tick) -> (outcome: Outcome)
        requires
            old(self)@.wf(),
        ensures
            final(self)@.wf(),
            final(self)@ == stepped(old(self)@, random, now),
            outcome == cycle_outcome(old(self)@),
    {
        let outcome = match self.fetch() {
            Some(opcode) => self.execute(decode(opcode), random),
            None => Outcome::Fault(ExecutionFault::ProgramCounterOutOfRange),
        };
        self.decay_timers(now);
        outcome
    }

    /// Runs one step: fetches and executes the instruction at the program
    /// counter, drawing a random byte if it asks for one, then reads the
    /// clock and lets the timers decay. Of the state that results, only
    /// that some byte and some moment lead to it is known.
    pub fn step(&mut self) -> (outcome: Outcome)
        requires
            old(self)@.wf(),
        ensures
            final(self)@.wf(),
            exists|random: u8, now: Tick|
                final(self)@ == #[trigger] stepped(old(self)@, random, now),
            outcome == cycle_outcome(old(self)@),
    {
        let outcome = match self.fetch() {
            Some(opcode) => self.eval_opcode(opcode),
            None => Outcome::Fault(ExecutionFault::ProgramCounterOutOfRange),
        };
        let ghost random: u8 = choose|random: u8| self@ == cycled(old(self)@, random);
        assert(self@ == cycled(old(self)@, random)) by {
            match fetched(old(self)@) {
                Some(opcode) => {
                    let byte = choose|byte: u8|
                        self@ == #[trigger] executed(old(self)@, decoded(opcode), byte);
                    assert(self@ == cycled(old(self)@, byte));
                },
                None => {
                    assert(self@ == cycled(old(self)@, 0));
                },
            }
        }
        let now = clock_now();
        self.decay_timers(now);
        assert(self@ == stepped(old(self)@, random, now));
        outcome
    }

    /// The memory, byte by byte.
    pub fn memory(&self) -> (memory: &[u8; 4096])
        ensures
            memory@ == self@.memory,
    {
        &self.memory
    }

    /// The general registers; the last one is the flag.
    pub fn registers(&self) -> (registers: &[u8; 16])
        ensures
            registers@ == self@.registers,
    {
        &self.v
    }

    /// The index register.
    pub fn index_register(&self) -> (index: u16)
        ensures
            index == self@.index,
    {
        self.i
    }

    /// The address of the next instruction.
    pub fn program_counter(&self) -> (pc: u16)
        ensures
            pc == self@.pc,
    {
        self.pc
    }

    /// The return addresses of the subroutines being run, innermost last.
    pub fn call_stack(&self) -> (stack: &Vec<u16>)
        ensures
            stack@ == self@.stack,
    {
        &self.stack
    }

    /// The screen, row by row.
    pub fn screen(&self) -> (screen: &[bool; 2048])
        ensures
            screen@ == self@.screen,
    {
        &self.screen
    }

    /// The sound timer.
    pub fn sound_timer(&self) -> (sound: u8)
        ensures
            sound == self@.sound,
    {
        self.sound
    }

    /// The delay timer.
    pub fn delay_timer(&self) -> (delay: u8)
        ensures
            delay == self@.delay,
    {
        self.delay
    }

    /// Which keys are held down.
    pub fn keys(&self) -> (keys: &[bool; 16])
        ensures
            keys@ == self@.keys,
    {
        &self.keys
    }

    /// Whether the machine waits for a key.
    pub fn is_locked(&self) -> (locked: bool)
        ensures
            locked == self@.locked,
    {
        self.locked
    }

    /// When the timers last decayed.
    pub fn last_tick(&self) -> (tick: Tick)
        ensures
            tick == self@.last_tick,
    {
        self.last_tick
    }
}

} // verus!
