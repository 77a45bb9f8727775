use chip_8::clock::Tick;
use chip_8::display::{clear_screen, draw_sprite};
use chip_8::instruction::{decode, Instruction};
use chip_8::Chip8;
use chip_8::semantics::{ExecutionFault, Outcome};

fn machine_at(x: u8, y: u8) -> Chip8 {
    let mut chip = Chip8::new_at(Tick { sec: 0, nsec: 0 });
    chip.execute(Instruction::Load { x: 0, byte: x }, 0);
    chip.execute(Instruction::Load { x: 1, byte: y }, 0);
    chip
}

fn lit(screen: &[bool; 2048]) -> Vec<(usize, usize)> {
    let mut cells = Vec::new();
    for row in 0..32 {
        for column in 0..64 {
            if screen[row * 64 + column] {
                cells.push((column, row));
            }
        }
    }
    cells
}

#[test]
fn draws_the_glyph_for_zero() {
    let mut chip = machine_at(0, 0);
    assert_eq!(chip.execute(decode(0xD015), 0), Outcome::Completed);
    let expected = vec![
        (0, 0), (1, 0), (2, 0), (3, 0),
        (0, 1), (3, 1),
        (0, 2), (3, 2),
        (0, 3), (3, 3),
        (0, 4), (1, 4), (2, 4), (3, 4),
    ];
    assert_eq!(lit(chip.screen()), expected);
    assert_eq!(chip.registers()[0xF], 0);
    assert_eq!(chip.index_register(), 0);
}

#[test]
fn position_comes_from_the_register_values() {
    let mut chip = machine_at(10, 20);
    chip.execute(decode(0xD011), 0);
    assert_eq!(lit(chip.screen()), vec![(10, 20), (11, 20), (12, 20), (13, 20)]);
}

#[test]
fn drawing_wraps_around_both_edges() {
    let mut chip = machine_at(62, 31);
    chip.execute(decode(0xD012), 0);
    assert_eq!(
        lit(chip.screen()),
        vec![(1, 0), (62, 0), (0, 31), (1, 31), (62, 31), (63, 31)]
    );
    assert_eq!(chip.registers()[0xF], 0);
}

#[test]
fn positions_past_the_screen_wrap() {
    let mut chip = machine_at(64 + 5, 32 + 3);
    chip.execute(decode(0xD011), 0);
    assert_eq!(lit(chip.screen()), vec![(5, 3), (6, 3), (7, 3), (8, 3)]);
    let mut chip = machine_at(255, 255);
    chip.execute(decode(0xD011), 0);
    assert_eq!(lit(chip.screen()), vec![(0, 31), (1, 31), (2, 31), (63, 31)]);
}

#[test]
fn drawing_twice_restores_the_screen() {
    let mut chip = machine_at(30, 14);
    chip.execute(decode(0xD015), 0);
    assert_eq!(chip.registers()[0xF], 0);
    assert_eq!(lit(chip.screen()).len(), 14);
    chip.execute(decode(0xD015), 0);
    assert_eq!(chip.registers()[0xF], 1);
    assert!(lit(chip.screen()).is_empty());
}

#[test]
fn drawing_twice_restores_a_screen_that_was_not_blank() {
    let mut chip = machine_at(0, 0);
    chip.execute(decode(0xA005), 0);
    chip.execute(decode(0xD015), 0);
    let before = *chip.screen();
    chip.execute(decode(0xA000), 0);
    chip.execute(decode(0xD015), 0);
    assert_eq!(chip.registers()[0xF], 1);
    assert_ne!(*chip.screen(), before);
    chip.execute(decode(0xD015), 0);
    assert_eq!(chip.registers()[0xF], 1);
    assert_eq!(*chip.screen(), before);
}

#[test]
fn collision_needs_a_lit_pixel_under_the_sprite() {
    let mut chip = machine_at(0, 0);
    chip.execute(decode(0xD011), 0);
    chip.execute(Instruction::Load { x: 0, byte: 4 }, 0);
    chip.execute(decode(0xD011), 0);
    assert_eq!(chip.registers()[0xF], 0);
    assert_eq!(lit(chip.screen()).len(), 8);
    chip.execute(Instruction::Load { x: 0, byte: 3 }, 0);
    chip.execute(decode(0xD011), 0);
    assert_eq!(chip.registers()[0xF], 1);
    assert_eq!(lit(chip.screen()), vec![(0, 0), (1, 0), (2, 0), (7, 0)]);
}

#[test]
fn a_sprite_without_rows_only_clears_the_flag() {
    let mut chip = machine_at(0, 0);
    chip.execute(Instruction::Load { x: 0xF, byte: 7 }, 0);
    assert_eq!(chip.execute(decode(0xD010), 0), Outcome::Completed);
    assert!(lit(chip.screen()).is_empty());
    assert_eq!(chip.registers()[0xF], 0);
}

#[test]
fn a_sprite_must_lie_inside_memory() {
    let mut chip = machine_at(0, 0);
    chip.execute(decode(0xAFFF), 0);
    assert_eq!(chip.execute(decode(0xD011), 0), Outcome::Completed);
    let pc = chip.program_counter();
    assert_eq!(
        chip.execute(decode(0xD012), 0),
        Outcome::Fault(ExecutionFault::AddressOutOfRange)
    );
    assert_eq!(chip.program_counter(), pc + 2);
    assert!(lit(chip.screen()).is_empty());
}

#[test]
fn clear_screen_turns_every_pixel_off() {
    let mut chip = machine_at(7, 9);
    chip.execute(decode(0xD015), 0);
    assert!(!lit(chip.screen()).is_empty());
    let pc = chip.program_counter();
    assert_eq!(chip.execute(decode(0x00E0), 0), Outcome::Completed);
    assert!(lit(chip.screen()).is_empty());
    assert_eq!(chip.program_counter(), pc + 2);
    assert_eq!(chip.registers()[0], 7);
}

#[test]
fn get_screen_hands_out_the_pixels() {
    let mut chip = machine_at(1, 1);
    chip.execute(decode(0xD011), 0);
    let screen = chip.get_screen();
    assert_eq!(screen.len(), 2048);
    assert_eq!(lit(&screen), vec![(1, 1), (2, 1), (3, 1), (4, 1)]);
}

#[test]
fn sprite_bits_run_from_the_high_bit() {
    let mut screen = [false; 2048];
    let mut memory = [0u8; 4096];
    memory[100] = 0b1000_0001;
    memory[101] = 0b0100_0000;
    let collision = draw_sprite(&mut screen, &memory, 100, 2, 8, 4);
    assert!(!collision);
    assert_eq!(lit(&screen), vec![(8, 4), (15, 4), (9, 5)]);
    let collision = draw_sprite(&mut screen, &memory, 101, 1, 8, 5);
    assert!(collision);
    assert_eq!(lit(&screen), vec![(8, 4), (15, 4)]);
    clear_screen(&mut screen);
    assert!(lit(&screen).is_empty());
}

#[test]
fn a_sprite_of_thirty_two_rows_touches_every_row_once() {
    let mut screen = [false; 2048];
    let memory = [0x80u8; 4096];
    let collision = draw_sprite(&mut screen, &memory, 0, 32, 63, 17);
    assert!(!collision);
    let cells = lit(&screen);
    assert_eq!(cells.len(), 32);
    assert!(cells.iter().all(|&(column, _)| column == 63));
}
