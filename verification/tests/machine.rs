use chip_8::clock::Tick;
use chip_8::font::FONT;
use chip_8::instruction::{decode, Instruction};
use chip_8::machine::{Chip8, LoadError};
use chip_8::semantics::{ExecutionFault, Outcome};

fn start() -> Tick {
    Tick { sec: 1_000, nsec: 0 }
}

fn assert_fresh(chip: &Chip8) {
    assert_eq!(&chip.memory()[0..80], &FONT[..]);
    assert!(chip.memory()[80..].iter().all(|&byte| byte == 0));
    assert_eq!(chip.registers(), &[0u8; 16]);
    assert_eq!(chip.index_register(), 0);
    assert_eq!(chip.program_counter(), 0x200);
    assert!(chip.call_stack().is_empty());
    assert!(chip.screen().iter().all(|&pixel| !pixel));
    assert_eq!(chip.sound_timer(), 0);
    assert_eq!(chip.delay_timer(), 0);
    assert_eq!(chip.keys(), &[false; 16]);
    assert!(!chip.is_locked());
}

fn disturb(chip: &mut Chip8) {
    chip.execute(decode(0x6A33), 0);
    chip.execute(decode(0xAFFF), 0);
    chip.execute(decode(0x2400), 0);
    chip.execute(decode(0xD005), 0);
    chip.execute(decode(0xFA18), 0);
    chip.execute(decode(0xA300), 0);
    chip.execute(decode(0xFA33), 0);
    chip.press_button(4);
    chip.execute(decode(0xF20A), 0);
}

#[test]
fn a_new_machine_holds_the_font_and_nothing_else() {
    let chip = Chip8::new_at(start());
    assert_fresh(&chip);
    assert_eq!(chip.last_tick(), start());
}

#[test]
fn a_new_machine_reads_the_clock() {
    let chip = Chip8::new();
    assert_fresh(&chip);
    let later = Chip8::new();
    let first = chip.last_tick();
    let second = later.last_tick();
    assert!((second.sec, second.nsec) >= (first.sec, first.nsec));
    assert!(first.sec > 1_000_000_000);
    assert!(0 <= first.nsec && first.nsec < 1_000_000_000);
}

#[test]
fn the_font_has_sixteen_glyphs_of_five_rows() {
    assert_eq!(FONT.len(), 80);
    assert_eq!(&FONT[0..5], &[0xF0, 0x90, 0x90, 0x90, 0xF0]);
    assert_eq!(&FONT[5..10], &[0x20, 0x60, 0x20, 0x20, 0x70]);
    assert_eq!(&FONT[75..80], &[0xF0, 0x80, 0xF0, 0x80, 0x80]);
    assert!(FONT.iter().all(|&row| row & 0x0F == 0));
}

#[test]
fn current_state_is_the_machine_itself() {
    let mut chip = Chip8::new_at(start());
    disturb(&mut chip);
    let pc = chip.program_counter();
    let same = chip.get_current_state();
    assert_eq!(same.program_counter(), pc);
    assert_eq!(same.registers()[0xA], 0x33);
    assert!(same.is_locked());
    assert_eq!(same.last_tick(), start());
}

#[test]
fn reset_restores_everything_but_the_clock() {
    let mut chip = Chip8::new_at(start());
    disturb(&mut chip);
    assert!(chip.is_locked());
    chip.decay_timers(Tick { sec: 1_002, nsec: 5 });
    chip.reset_system();
    assert_fresh(&chip);
    assert_eq!(chip.last_tick(), Tick { sec: 1_002, nsec: 5 });
}

#[test]
fn load_rom_resets_and_copies_the_program() {
    let mut chip = Chip8::new_at(start());
    disturb(&mut chip);
    assert_eq!(chip.load_rom(&[0x60, 0x05, 0x61, 0x03, 0x80, 0x14]), Ok(()));
    assert_eq!(&chip.memory()[0..80], &FONT[..]);
    assert!(chip.memory()[80..0x200].iter().all(|&byte| byte == 0));
    assert_eq!(&chip.memory()[0x200..0x206], &[0x60, 0x05, 0x61, 0x03, 0x80, 0x14]);
    assert!(chip.memory()[0x206..].iter().all(|&byte| byte == 0));
    assert_eq!(chip.registers(), &[0u8; 16]);
    assert_eq!(chip.program_counter(), 0x200);
    assert!(chip.call_stack().is_empty());
    assert!(chip.screen().iter().all(|&pixel| !pixel));
    assert_eq!(chip.sound_timer(), 0);
    assert_eq!(chip.keys(), &[false; 16]);
    assert!(!chip.is_locked());
    assert_eq!(chip.last_tick(), start());
}

#[test]
fn load_rom_replaces_an_earlier_program() {
    let mut chip = Chip8::new_at(start());
    chip.load_rom(&[1, 2, 3, 4, 5, 6, 7, 8]).unwrap();
    chip.load_rom(&[9, 9]).unwrap();
    assert_eq!(&chip.memory()[0x200..0x208], &[9, 9, 0, 0, 0, 0, 0, 0]);
}

#[test]
fn an_empty_program_loads() {
    let mut chip = Chip8::new_at(start());
    disturb(&mut chip);
    assert_eq!(chip.load_rom(&[]), Ok(()));
    assert_fresh(&chip);
}

#[test]
fn the_largest_program_fills_memory_to_the_end() {
    let mut chip = Chip8::new_at(start());
    let rom: Vec<u8> = (0..3584u32).map(|n| (n % 251) as u8 + 1).collect();
    assert_eq!(chip.load_rom(&rom), Ok(()));
    assert_eq!(&chip.memory()[0x200..], &rom[..]);
    assert_eq!(chip.memory()[0xFFF], (3583 % 251) as u8 + 1);
    assert_eq!(&chip.memory()[0..80], &FONT[..]);
}

#[test]
fn a_program_that_does_not_fit_is_refused() {
    let mut chip = Chip8::new_at(start());
    chip.load_rom(&[0xAA, 0xBB]).unwrap();
    chip.execute(decode(0x6A33), 0);
    let rom = vec![0x11u8; 3585];
    assert_eq!(chip.load_rom(&rom), Err(LoadError::InvalidProgram { length: 3585 }));
    assert_eq!(&chip.memory()[0x200..0x203], &[0xAA, 0xBB, 0]);
    assert_eq!(chip.registers()[0xA], 0x33);
    assert_eq!(chip.program_counter(), 0x202);
    let rom = vec![0x11u8; 10_000];
    assert_eq!(chip.load_rom(&rom), Err(LoadError::InvalidProgram { length: 10_000 }));
}

#[test]
fn pressing_and_releasing_keys() {
    let mut chip = Chip8::new_at(start());
    chip.press_button(0);
    chip.press_button(15);
    let mut expected = [false; 16];
    expected[0] = true;
    expected[15] = true;
    assert_eq!(chip.keys(), &expected);
    assert_eq!(chip.registers(), &[0u8; 16]);
    chip.release_button(0);
    expected[0] = false;
    assert_eq!(chip.keys(), &expected);
    chip.release_button(3);
    assert_eq!(chip.keys(), &expected);
    assert_eq!(chip.program_counter(), 0x200);
}

#[test]
fn waiting_for_a_key_freezes_the_machine() {
    let mut chip = Chip8::new_at(start());
    chip.load_rom(&[0xF3, 0x0A, 0x63, 0x77, 0x64, 0x01]).unwrap();
    assert_eq!(chip.step_with(0, start()), Outcome::Completed);
    assert!(chip.is_locked());
    assert_eq!(chip.program_counter(), 0x202);
    for _ in 0..5 {
        assert_eq!(chip.step_with(0, start()), Outcome::Suspended);
        assert_eq!(chip.execute(decode(0x1ABC), 0), Outcome::Suspended);
        assert_eq!(chip.eval_opcode(0x6301), Outcome::Suspended);
        assert_eq!(chip.eval_opcode(0xC3FF), Outcome::Suspended);
    }
    assert_eq!(chip.program_counter(), 0x202);
    assert_eq!(chip.registers(), &[0u8; 16]);
    chip.release_button(9);
    assert!(chip.is_locked());
    chip.press_button(9);
    assert!(!chip.is_locked());
    assert_eq!(chip.registers()[3], 9);
    assert!(chip.keys()[9]);
    assert_eq!(chip.program_counter(), 0x202);
    assert_eq!(chip.step_with(0, start()), Outcome::Completed);
    assert_eq!(chip.registers()[3], 0x77);
    assert_eq!(chip.program_counter(), 0x204);
}

#[test]
fn the_key_goes_to_the_register_that_waited() {
    for x in 0u8..16 {
        let mut chip = Chip8::new_at(start());
        chip.execute(Instruction::WaitForKey { x }, 0);
        chip.press_button(0xB);
        let mut expected = [0u8; 16];
        expected[x as usize] = 0xB;
        assert_eq!(chip.registers(), &expected);
        assert!(!chip.is_locked());
    }
}

#[test]
fn a_key_pressed_while_running_changes_no_register() {
    let mut chip = Chip8::new_at(start());
    chip.execute(Instruction::WaitForKey { x: 2 }, 0);
    chip.press_button(5);
    chip.press_button(6);
    assert_eq!(chip.registers()[2], 5);
}

#[test]
fn fetch_reads_the_high_byte_first() {
    let mut chip = Chip8::new_at(start());
    chip.load_rom(&[0x12, 0x34, 0xAB, 0xCD]).unwrap();
    assert_eq!(chip.fetch(), Some(0x1234));
    chip.execute(decode(0x1202), 0);
    assert_eq!(chip.fetch(), Some(0xABCD));
    chip.execute(decode(0x1000), 0);
    assert_eq!(chip.fetch(), Some(0xF090));
}

#[test]
fn fetch_needs_a_whole_word_inside_memory() {
    let mut chip = Chip8::new_at(start());
    chip.execute(decode(0x1FFE), 0);
    assert_eq!(chip.fetch(), Some(0));
    chip.execute(decode(0x1FFF), 0);
    assert_eq!(chip.fetch(), None);
    chip.execute(Instruction::Jump { address: 0x1000 }, 0);
    assert_eq!(chip.fetch(), None);
    chip.execute(Instruction::Jump { address: 0xFFFF }, 0);
    assert_eq!(chip.fetch(), None);
}

#[test]
fn a_step_past_the_end_of_memory_is_a_fault() {
    let mut chip = Chip8::new_at(start());
    chip.execute(decode(0x6105), 0);
    chip.execute(decode(0xF118), 0);
    chip.execute(decode(0x1FFF), 0);
    let outcome = chip.step_with(0, Tick { sec: 1_001, nsec: 0 });
    assert_eq!(outcome, Outcome::Fault(ExecutionFault::ProgramCounterOutOfRange));
    assert_eq!(chip.program_counter(), 0xFFF);
    assert_eq!(chip.sound_timer(), 4);
    assert_eq!(chip.step(), Outcome::Fault(ExecutionFault::ProgramCounterOutOfRange));
    assert_eq!(chip.program_counter(), 0xFFF);
}

#[test]
fn running_off_the_program_executes_zero_words() {
    let mut chip = Chip8::new_at(start());
    chip.load_rom(&[0x60, 0x01]).unwrap();
    assert_eq!(chip.step_with(0, start()), Outcome::Completed);
    assert_eq!(chip.step_with(0, start()), Outcome::Completed);
    assert_eq!(chip.program_counter(), 0x204);
    assert_eq!(chip.registers()[0], 1);
}

#[test]
fn step_runs_one_instruction_with_the_real_clock() {
    let mut chip = Chip8::new();
    chip.load_rom(&[0x60, 0x05, 0xC1, 0x0F, 0x8F, 0xF9]).unwrap();
    assert_eq!(chip.step(), Outcome::Completed);
    assert_eq!(chip.registers()[0], 5);
    assert_eq!(chip.program_counter(), 0x202);
    assert_eq!(chip.step(), Outcome::Completed);
    assert!(chip.registers()[1] <= 0x0F);
    assert_eq!(chip.step(), Outcome::Unknown(0x8FF9));
    assert_eq!(chip.program_counter(), 0x206);
}

#[test]
fn clearing_the_screen_from_a_program() {
    let mut chip = Chip8::new_at(start());
    chip.load_rom(&[0x00, 0xE0]).unwrap();
    assert_eq!(chip.step_with(0, start()), Outcome::Completed);
    assert!(chip.screen().iter().all(|&pixel| !pixel));
    assert_eq!(chip.program_counter(), 0x202);
}

#[test]
fn clearing_a_lit_screen_from_a_program() {
    let mut chip = Chip8::new_at(start());
    chip.load_rom(&[0xD0, 0x05, 0xA0, 0x19, 0xD0, 0x05, 0x00, 0xE0]).unwrap();
    chip.step_with(0, start());
    chip.step_with(0, start());
    chip.step_with(0, start());
    assert!(chip.screen().iter().any(|&pixel| pixel));
    assert_eq!(chip.step_with(0, start()), Outcome::Completed);
    assert!(chip.get_screen().iter().all(|&pixel| !pixel));
}

#[test]
fn add_scenario() {
    let mut chip = Chip8::new_at(start());
    chip.load_rom(&[0x60, 0x05, 0x61, 0x03, 0x80, 0x14]).unwrap();
    assert_eq!(chip.step_with(0, start()), Outcome::Completed);
    assert_eq!(chip.step_with(0, start()), Outcome::Completed);
    assert_eq!(chip.step_with(0, start()), Outcome::Completed);
    assert_eq!(chip.registers()[0], 8);
    assert_eq!(chip.registers()[1], 3);
    assert_eq!(chip.registers()[0xF], 0);
    assert_eq!(chip.program_counter(), 0x206);
}

#[test]
fn add_scenario_with_the_real_clock() {
    let mut chip = Chip8::new();
    chip.load_rom(&[0x60, 0x05, 0x61, 0x03, 0x80, 0x14]).unwrap();
    chip.step();
    chip.step();
    chip.step();
    assert_eq!(chip.registers()[0], 8);
    assert_eq!(chip.registers()[0xF], 0);
}

#[test]
fn call_and_return_from_a_program() {
    let mut chip = Chip8::new_at(start());
    chip.load_rom(&[0x22, 0x06, 0x00, 0x00, 0x00, 0x00, 0x6A, 0x01, 0x00, 0xEE]).unwrap();
    assert_eq!(chip.step_with(0, start()), Outcome::Completed);
    assert_eq!(chip.program_counter(), 0x206);
    assert_eq!(chip.call_stack().as_slice(), &[0x200]);
    chip.step_with(0, start());
    assert_eq!(chip.registers()[0xA], 1);
    chip.step_with(0, start());
    assert_eq!(chip.program_counter(), 0x200);
    assert!(chip.call_stack().is_empty());
}
