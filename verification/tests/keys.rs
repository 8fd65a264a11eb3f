use chip8::{Emulator, Fault};

fn loaded(program: &[u8]) -> Emulator {
    let mut machine = Emulator::new();
    assert_eq!(machine.load_program(program), Ok(()));
    machine
}

#[test]
fn set_key_records_the_state_of_one_key() {
    let mut machine = Emulator::new();
    machine.set_key(0, true);
    machine.set_key(15, true);
    assert!(machine.is_key_pressed(0));
    assert!(machine.is_key_pressed(15));
    assert!(!machine.is_key_pressed(1));
    machine.set_key(0, false);
    assert!(!machine.is_key_pressed(0));
    assert!(machine.is_key_pressed(15));
}

#[test]
fn skip_if_key_pressed() {
    let mut machine = loaded(&[0x61, 0x07, 0xE1, 0x9E]);
    machine.set_key(7, true);
    assert_eq!(machine.step(), Ok(()));
    assert_eq!(machine.step(), Ok(()));
    assert_eq!(machine.pc(), 0x206);
    let mut machine = loaded(&[0x61, 0x07, 0xE1, 0x9E]);
    machine.set_key(6, true);
    assert_eq!(machine.step(), Ok(()));
    assert_eq!(machine.step(), Ok(()));
    assert_eq!(machine.pc(), 0x204);
}

#[test]
fn skip_if_key_not_pressed() {
    let mut machine = loaded(&[0x61, 0x07, 0xE1, 0xA1]);
    machine.set_key(7, true);
    assert_eq!(machine.step(), Ok(()));
    assert_eq!(machine.step(), Ok(()));
    assert_eq!(machine.pc(), 0x204);
    let mut machine = loaded(&[0x61, 0x07, 0xE1, 0xA1]);
    assert_eq!(machine.step(), Ok(()));
    assert_eq!(machine.step(), Ok(()));
    assert_eq!(machine.pc(), 0x206);
}

#[test]
fn a_key_number_above_fifteen_is_never_down() {
    let mut machine = loaded(&[0x61, 0x17, 0xE1, 0x9E, 0xE1, 0xA1]);
    for key in 0..16 {
        machine.set_key(key, true);
    }
    assert!(!machine.is_key_down(0x17));
    assert!(machine.is_key_down(0x07));
    assert_eq!(machine.step(), Ok(()));
    assert_eq!(machine.step(), Ok(()));
    assert_eq!(machine.pc(), 0x204);
    assert_eq!(machine.step(), Ok(()));
    assert_eq!(machine.pc(), 0x208);
}

#[test]
fn steps_leave_the_keys_alone() {
    let mut machine = loaded(&[0x61, 0x07, 0xE1, 0x9E, 0x00, 0x00, 0xF2, 0x0A]);
    machine.set_key(7, true);
    for _ in 0..3 {
        assert_eq!(machine.step(), Ok(()));
    }
    for key in 0..16 {
        assert_eq!(machine.is_key_pressed(key), key == 7);
    }
}

#[test]
fn wait_key_repeats_until_a_key_is_down() {
    let mut machine = loaded(&[0xF3, 0x0A, 0x61, 0x01]);
    assert_eq!(machine.first_pressed_key(), 16);
    for _ in 0..3 {
        assert_eq!(machine.step(), Ok(()));
        assert_eq!(machine.pc(), 0x200);
        assert_eq!(machine.read_registry(3), 0);
    }
    machine.set_key(0xB, true);
    assert_eq!(machine.first_pressed_key(), 0xB);
    assert_eq!(machine.step(), Ok(()));
    assert_eq!(machine.pc(), 0x202);
    assert_eq!(machine.read_registry(3), 0xB);
}

#[test]
fn wait_key_takes_the_lowest_key_that_is_down() {
    let mut machine = loaded(&[0xF3, 0x0A]);
    machine.set_key(9, true);
    machine.set_key(4, true);
    machine.set_key(12, true);
    assert_eq!(machine.step(), Ok(()));
    assert_eq!(machine.read_registry(3), 4);
    assert_eq!(machine.pc(), 0x202);
}

#[test]
fn wait_key_sees_key_zero() {
    let mut machine = loaded(&[0x63, 0x55, 0xF3, 0x0A]);
    machine.set_key(0, true);
    assert_eq!(machine.step(), Ok(()));
    assert_eq!(machine.step(), Ok(()));
    assert_eq!(machine.read_registry(3), 0);
    assert_eq!(machine.pc(), 0x204);
}

#[test]
fn wait_key_that_cannot_repeat_is_a_fault() {
    let mut machine = Emulator::new();
    machine.set_pc(0);
    assert_eq!(
        machine.execution_fault(chip8::Instruction::WaitKey { x: 0 }),
        Some(Fault::ProgramCounterOutOfBounds)
    );
    machine.set_key(3, true);
    assert_eq!(machine.execution_fault(chip8::Instruction::WaitKey { x: 0 }), None);
}
