use chip8::Emulator;

#[test]
fn tick_timer_on_zero_timers_changes_nothing() {
    let mut machine = Emulator::new();
    machine.tick_timer();
    assert_eq!(machine.delay_timer_value(), 0);
    assert_eq!(machine.sound_timer_value(), 0);
    assert!(!machine.sound_timer_active());
    machine.tick_timer();
    assert_eq!(machine.delay_timer_value(), 0);
    assert_eq!(machine.sound_timer_value(), 0);
    assert_eq!(machine.pc(), 0x200);
}

#[test]
fn tick_timer_takes_one_from_each_timer() {
    let mut machine = Emulator::new();
    machine.set_delay_timer(3);
    machine.set_sound_timer(200);
    machine.tick_timer();
    assert_eq!(machine.delay_timer_value(), 2);
    assert_eq!(machine.sound_timer_value(), 199);
}

#[test]
fn timers_run_down_independently_and_stop_at_zero() {
    let mut machine = Emulator::new();
    machine.set_delay_timer(1);
    machine.set_sound_timer(2);
    assert!(machine.sound_timer_active());
    machine.tick_timer();
    assert_eq!(machine.delay_timer_value(), 0);
    assert_eq!(machine.sound_timer_value(), 1);
    assert!(machine.sound_timer_active());
    machine.tick_timer();
    assert_eq!(machine.delay_timer_value(), 0);
    assert_eq!(machine.sound_timer_value(), 0);
    assert!(!machine.sound_timer_active());
    machine.tick_timer();
    assert_eq!(machine.delay_timer_value(), 0);
    assert_eq!(machine.sound_timer_value(), 0);
}

#[test]
fn timer_from_255_reaches_zero_after_255_ticks() {
    let mut machine = Emulator::new();
    machine.set_delay_timer(255);
    for _ in 0..254 {
        machine.tick_timer();
    }
    assert_eq!(machine.delay_timer_value(), 1);
    machine.tick_timer();
    assert_eq!(machine.delay_timer_value(), 0);
}

#[test]
fn steps_do_not_move_the_timers() {
    let mut machine = Emulator::new();
    // V1 = 9; delay = V1; sound = V1; V2 = delay
    assert_eq!(machine.load_program(&[0x61, 0x09, 0xF1, 0x15, 0xF1, 0x18, 0xF2, 0x07]), Ok(()));
    for _ in 0..4 {
        assert_eq!(machine.step(), Ok(()));
    }
    assert_eq!(machine.delay_timer_value(), 9);
    assert_eq!(machine.sound_timer_value(), 9);
    assert_eq!(machine.read_registry(2), 9);
}

#[test]
fn instructions_set_and_read_the_delay_timer() {
    let mut machine = Emulator::new();
    // V1 = 5; delay = V1; V2 = delay
    assert_eq!(machine.load_program(&[0x61, 0x05, 0xF1, 0x15, 0xF2, 0x07]), Ok(()));
    assert_eq!(machine.step(), Ok(()));
    assert_eq!(machine.step(), Ok(()));
    machine.tick_timer();
    machine.tick_timer();
    assert_eq!(machine.step(), Ok(()));
    assert_eq!(machine.read_registry(2), 3);
    assert_eq!(machine.sound_timer_value(), 0);
}
