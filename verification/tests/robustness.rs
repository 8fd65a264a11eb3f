use chip8::{Emulator, Fault};

#[test]
fn random_sequence_visits_every_state_once() {
    let mut machine = Emulator::new();
    let mut state: u16 = 0x2A6D;
    let mut seen = vec![false; 0x10000];
    for _ in 0..0x10000 {
        state = ((state as u32 * 25173 + 13849) % 0x10000) as u16;
        assert!(!seen[state as usize]);
        seen[state as usize] = true;
        assert_eq!(machine.next_random_byte(), (state >> 8) as u8);
    }
    assert_eq!(state, 0x2A6D);
}

#[test]
fn machine_filled_with_arbitrary_bytes_steps_or_faults_cleanly() {
    let mut noise: u32 = 0x1234_5678;
    for round in 0..200 {
        let mut machine = Emulator::new();
        let mut program = Vec::new();
        for _ in 0..3584 {
            noise = noise.wrapping_mul(1_664_525).wrapping_add(1_013_904_223);
            program.push((noise >> 24) as u8);
        }
        assert_eq!(machine.load_program(&program), Ok(()));
        machine.seed_random(round);
        machine.set_key((round % 16) as usize, round % 3 == 0);
        for _ in 0..2000 {
            let pc = machine.pc();
            let depth = machine.stack_pointer();
            let pending = machine.pending_fault();
            match machine.step() {
                Ok(()) => {
                    assert_eq!(pending, None);
                    assert!(machine.pc() < 4096);
                    assert!(machine.stack_pointer() <= 16);
                },
                Err(fault) => {
                    assert_eq!(pending, Some(fault));
                    assert_eq!(machine.pc(), pc);
                    assert_eq!(machine.stack_pointer(), depth);
                    break;
                },
            }
            machine.tick_timer();
        }
    }
}

#[test]
fn a_fault_stays_until_reset() {
    let mut machine = Emulator::new();
    assert_eq!(machine.load_program(&[0x00, 0xEE]), Ok(()));
    for _ in 0..3 {
        assert_eq!(machine.step(), Err(Fault::StackUnderflow));
    }
    machine.reset();
    assert_eq!(machine.load_program(&[0x61, 0x01]), Ok(()));
    assert_eq!(machine.step(), Ok(()));
    assert_eq!(machine.read_registry(1), 1);
}

#[test]
fn counting_loop_runs_to_completion() {
    // V0 = 0; V1 = 10; loop: V0 += 3; V1 += 0xFF; skip if V1 == 0; jump loop; done: jump done
    let program = [
        0x60, 0x00, 0x61, 0x0A, 0x70, 0x03, 0x71, 0xFF, 0x31, 0x00, 0x12, 0x04, 0x12, 0x0C,
    ];
    let mut machine = Emulator::new();
    assert_eq!(machine.load_program(&program), Ok(()));
    let mut steps = 0;
    while machine.pc() != 0x20C {
        assert_eq!(machine.step(), Ok(()));
        steps += 1;
        assert!(steps < 1000);
    }
    assert_eq!(machine.read_registry(0), 30);
    assert_eq!(machine.read_registry(1), 0);
    assert_eq!(steps, 2 + 10 * 4 - 1);
}
