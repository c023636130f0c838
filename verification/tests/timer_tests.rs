use hachi::Chip8;

#[test]
fn tick_decrements_both_timers_by_one() {
    let mut chip8 = Chip8 { delay_timer: 5, sound_timer: 2, ..Default::default() };

    chip8.tick_timers();

    assert_eq!(chip8.delay_timer, 4);
    assert_eq!(chip8.sound_timer, 1);
}

#[test]
fn tick_floors_timers_at_zero() {
    let mut chip8 = Chip8 { delay_timer: 0, sound_timer: 1, ..Default::default() };

    chip8.tick_timers();
    assert_eq!(chip8.delay_timer, 0, "A zero timer must stay at zero");
    assert_eq!(chip8.sound_timer, 0);

    chip8.tick_timers();
    assert_eq!(chip8.delay_timer, 0);
    assert_eq!(chip8.sound_timer, 0, "A zero sound timer must stay at zero");
}

#[test]
fn tick_touches_nothing_but_the_timers() {
    let mut chip8 = Chip8 { delay_timer: 9, sound_timer: 9, pc: 0x456, sp: 2, ..Default::default() };
    let before_memory = chip8.memory;
    let before_registers = chip8.registers;

    chip8.tick_timers();

    assert_eq!(chip8.pc, 0x456);
    assert_eq!(chip8.sp, 2);
    assert_eq!(chip8.memory, before_memory);
    assert_eq!(chip8.registers, before_registers);
}
