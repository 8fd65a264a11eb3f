use chip8::{Emulator, Fault};

fn run(program: &[u8]) -> Emulator {
    let mut machine = Emulator::new();
    assert_eq!(machine.load_program(program), Ok(()));
    for _ in 0..program.len() / 2 {
        assert_eq!(machine.step(), Ok(()));
    }
    assert_eq!(machine.pc() as usize, 0x200 + program.len());
    machine
}

#[test]
fn load_immediate_sets_the_register() {
    let machine = run(&[0x6A, 0x42]);
    assert_eq!(machine.read_registry(0xA), 0x42);
    assert_eq!(machine.read_registry(0xF), 0);
}

#[test]
fn add_immediate_wraps_without_touching_the_flag() {
    let machine = run(&[0x61, 0xFF, 0x71, 0x02]);
    assert_eq!(machine.read_registry(1), 0x01);
    assert_eq!(machine.read_registry(0xF), 0);
    let machine = run(&[0x61, 0x10, 0x71, 0x02]);
    assert_eq!(machine.read_registry(1), 0x12);
}

#[test]
fn assign_copies_register_y() {
    let machine = run(&[0x61, 0x11, 0x62, 0x22, 0x81, 0x20]);
    assert_eq!(machine.read_registry(1), 0x22);
    assert_eq!(machine.read_registry(2), 0x22);
}

#[test]
fn bitwise_or_and_xor() {
    let machine = run(&[0x61, 0xCC, 0x62, 0xAA, 0x81, 0x21]);
    assert_eq!(machine.read_registry(1), 0xEE);
    let machine = run(&[0x61, 0xCC, 0x62, 0xAA, 0x81, 0x22]);
    assert_eq!(machine.read_registry(1), 0x88);
    let machine = run(&[0x61, 0xCC, 0x62, 0xAA, 0x81, 0x23]);
    assert_eq!(machine.read_registry(1), 0x66);
    assert_eq!(machine.read_registry(2), 0xAA);
    assert_eq!(machine.read_registry(0xF), 0);
}

#[test]
fn add_with_carry_sets_the_flag_on_overflow() {
    let machine = run(&[0x61, 0xFF, 0x62, 0x02, 0x81, 0x24]);
    assert_eq!(machine.read_registry(1), 0x01);
    assert_eq!(machine.read_registry(2), 0x02);
    assert_eq!(machine.read_registry(0xF), 1);
}

#[test]
fn add_with_carry_clears_the_flag_without_overflow() {
    let machine = run(&[0x6F, 0x01, 0x61, 0x01, 0x62, 0x01, 0x81, 0x24]);
    assert_eq!(machine.read_registry(1), 0x02);
    assert_eq!(machine.read_registry(0xF), 0);
}

#[test]
fn add_with_carry_at_the_edge() {
    let machine = run(&[0x61, 0xFF, 0x62, 0x00, 0x81, 0x24]);
    assert_eq!(machine.read_registry(1), 0xFF);
    assert_eq!(machine.read_registry(0xF), 0);
    let machine = run(&[0x61, 0xFF, 0x62, 0x01, 0x81, 0x24]);
    assert_eq!(machine.read_registry(1), 0x00);
    assert_eq!(machine.read_registry(0xF), 1);
}

#[test]
fn add_with_carry_into_the_flag_register_keeps_the_flag() {
    // VF = 0xFF, V1 = 2, VF += V1: the sum is written first, the flag last.
    let machine = run(&[0x6F, 0xFF, 0x61, 0x02, 0x8F, 0x14]);
    assert_eq!(machine.read_registry(0xF), 1);
}

#[test]
fn add_register_to_itself_reads_before_writing() {
    let machine = run(&[0x61, 0x90, 0x81, 0x14]);
    assert_eq!(machine.read_registry(1), 0x20);
    assert_eq!(machine.read_registry(0xF), 1);
}

#[test]
fn subtract_sets_the_flag_when_there_is_no_borrow() {
    let machine = run(&[0x61, 0x05, 0x62, 0x03, 0x81, 0x25]);
    assert_eq!(machine.read_registry(1), 0x02);
    assert_eq!(machine.read_registry(0xF), 1);
}

#[test]
fn subtract_wraps_and_clears_the_flag_on_borrow() {
    let machine = run(&[0x6F, 0x01, 0x61, 0x03, 0x62, 0x05, 0x81, 0x25]);
    assert_eq!(machine.read_registry(1), 0xFE);
    assert_eq!(machine.read_registry(0xF), 0);
}

#[test]
fn subtract_equal_values_is_no_borrow() {
    let machine = run(&[0x61, 0x07, 0x62, 0x07, 0x81, 0x25]);
    assert_eq!(machine.read_registry(1), 0x00);
    assert_eq!(machine.read_registry(0xF), 1);
}

#[test]
fn reversed_subtract_takes_x_from_y() {
    let machine = run(&[0x61, 0x03, 0x62, 0x05, 0x81, 0x27]);
    assert_eq!(machine.read_registry(1), 0x02);
    assert_eq!(machine.read_registry(2), 0x05);
    assert_eq!(machine.read_registry(0xF), 1);
    let machine = run(&[0x6F, 0x01, 0x61, 0x05, 0x62, 0x03, 0x81, 0x27]);
    assert_eq!(machine.read_registry(1), 0xFE);
    assert_eq!(machine.read_registry(0xF), 0);
}

#[test]
fn shift_right_halves_and_flags_the_low_bit() {
    let machine = run(&[0x61, 0x05, 0x62, 0xFF, 0x81, 0x26]);
    assert_eq!(machine.read_registry(1), 0x02);
    assert_eq!(machine.read_registry(2), 0xFF);
    assert_eq!(machine.read_registry(0xF), 1);
    let machine = run(&[0x6F, 0x01, 0x61, 0x04, 0x81, 0x26]);
    assert_eq!(machine.read_registry(1), 0x02);
    assert_eq!(machine.read_registry(0xF), 0);
}

#[test]
fn shift_left_doubles_and_flags_the_high_bit() {
    let machine = run(&[0x61, 0x81, 0x62, 0xFF, 0x81, 0x2E]);
    assert_eq!(machine.read_registry(1), 0x02);
    assert_eq!(machine.read_registry(2), 0xFF);
    assert_eq!(machine.read_registry(0xF), 1);
    let machine = run(&[0x6F, 0x01, 0x61, 0x41, 0x81, 0x2E]);
    assert_eq!(machine.read_registry(1), 0x82);
    assert_eq!(machine.read_registry(0xF), 0);
}

#[test]
fn random_draws_the_sequence_and_masks_it() {
    // The sequence from the power-on seed: 0x064A, 0xA0AB, 0x04E0, 0x9479.
    let machine = run(&[0xC1, 0xFF, 0xC2, 0xFF, 0xC3, 0xFF, 0xC4, 0xF0, 0xC5, 0x00]);
    assert_eq!(machine.read_registry(1), 0x06);
    assert_eq!(machine.read_registry(2), 0xA0);
    assert_eq!(machine.read_registry(3), 0x04);
    assert_eq!(machine.read_registry(4), 0x90);
    assert_eq!(machine.read_registry(5), 0x00);
    assert_eq!(machine.read_registry(0xF), 0);
}

#[test]
fn seeding_restarts_the_sequence_from_the_seed() {
    let mut machine = Emulator::new();
    machine.seed_random(0);
    // (0 * 25173 + 13849) mod 65536 = 0x3619
    assert_eq!(machine.next_random_byte(), 0x36);
    machine.seed_random(0xFFFF);
    // (65535 * 25173 + 13849) mod 65536 = 0xD3C4
    assert_eq!(machine.next_random_byte(), 0xD3);
    machine.seed_random(0x2A6D);
    assert_eq!(machine.next_random_byte(), 0x06);
}

#[test]
fn unknown_opcode_is_a_fault_and_changes_nothing() {
    let mut machine = Emulator::new();
    assert_eq!(machine.pending_fault(), Some(Fault::UnknownOpcode(0x0000)));
    assert_eq!(machine.step(), Err(Fault::UnknownOpcode(0x0000)));
    assert_eq!(machine.pc(), 0x200);
    assert_eq!(machine.load_program(&[0x61, 0x07, 0x81, 0x28]), Ok(()));
    assert_eq!(machine.step(), Ok(()));
    assert_eq!(machine.step(), Err(Fault::UnknownOpcode(0x8128)));
    assert_eq!(machine.pc(), 0x202);
    assert_eq!(machine.read_registry(1), 0x07);
    assert_eq!(machine.step(), Err(Fault::UnknownOpcode(0x8128)));
}

#[test]
fn tick_takes_the_same_step_as_step() {
    let mut ticked = Emulator::new();
    let mut stepped = Emulator::new();
    let program = [0x61, 0xFF, 0x62, 0x02, 0x81, 0x24];
    assert_eq!(ticked.load_program(&program), Ok(()));
    assert_eq!(stepped.load_program(&program), Ok(()));
    for _ in 0..3 {
        assert_eq!(ticked.pending_fault(), None);
        ticked.tick();
        assert_eq!(stepped.step(), Ok(()));
        assert_eq!(ticked.pc(), stepped.pc());
    }
    assert_eq!(ticked.read_registry(1), 0x01);
    assert_eq!(ticked.read_registry(0xF), 1);
    assert_eq!(stepped.read_registry(1), 0x01);
}

#[test]
fn execute_runs_an_opcode_without_fetching() {
    let mut machine = Emulator::new();
    machine.execute(0x6A42);
    assert_eq!(machine.read_registry(0xA), 0x42);
    assert_eq!(machine.pc(), 0x200);
    machine.execute(0x1ABC);
    assert_eq!(machine.pc(), 0xABC);
}
