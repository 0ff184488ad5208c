use chip8::cpu::CPU;
use chip8::fault::Fault;
use chip8::state::Audio;

fn boot(rom: &[u8]) -> CPU {
    CPU::new(rom).expect("the program fits")
}

#[test]
fn clear_screen_program_ticks_once() {
    let mut cpu = boot(&[0x00, 0xE0]);
    cpu.set_pixel(3, 4);
    let done = cpu.cycle(0, &[]);
    // The word after the program is 0x0000, which stands for no operation:
    // the tick stops there, one instruction in.
    assert_eq!(done, Err(Fault::UnknownOpcode(0x0000)));
    assert_eq!(cpu.display().len(), 2048);
    assert!(cpu.display().iter().all(|&cell| cell == 0));
    assert_eq!(cpu.pc(), 0x202);
}

#[test]
fn load_then_add_leaves_eight() {
    let mut cpu = boot(&[0x60, 0x05, 0x70, 0x03]);
    let _ = cpu.cycle(0, &[]);
    assert_eq!(cpu.registers()[0], 8);
    assert_eq!(cpu.pc(), 0x204);
}

#[test]
fn glyph_address_is_five_times_the_digit() {
    let mut cpu = boot(&[0x60, 0x02, 0xA0, 0x00, 0xF0, 0x29]);
    let _ = cpu.cycle(0, &[]);
    assert_eq!(cpu.registers()[0], 2);
    assert_eq!(cpu.index(), 10);
}

#[test]
fn glyph_address_uses_the_low_nibble() {
    let mut cpu = boot(&[]);
    assert_eq!(cpu.exec_instr(0x63F7, 0, 0), Ok(()));
    assert_eq!(cpu.exec_instr(0xF329, 0, 0), Ok(()));
    assert_eq!(cpu.index(), 35);
}

#[test]
fn bulk_store_then_bulk_load_reproduces_registers() {
    let rom = [
        0x60, 0x11, // V0 = 0x11
        0x61, 0x22, // V1 = 0x22
        0x62, 0x33, // V2 = 0x33
        0x63, 0x44, // V3 = 0x44, beyond the stored range
        0xA3, 0x00, // I = 0x300
        0xF2, 0x55, // store V0..=V2
        0x60, 0x00, 0x61, 0x00, 0x62, 0x00, 0x63, 0x00, // zero V0..V3
        0xF2, 0x65, // load V0..=V2
        0x12, 0x16, // loop here
    ];
    let mut cpu = boot(&rom);
    assert_eq!(cpu.cycle(0, &[]), Ok(Audio::Stop));
    assert_eq!(&cpu.memory()[0x300..0x304], &[0x11, 0x22, 0x33, 0x00]);
    assert_eq!(cpu.cycle(0, &[]), Ok(Audio::Stop));
    assert_eq!(&cpu.registers()[0..4], &[0x11, 0x22, 0x33, 0x00]);
    assert_eq!(cpu.index(), 0x300);
}

#[test]
fn fresh_machine_holds_font_then_program() {
    let cpu = boot(&[0xAA, 0xBB, 0xCC]);
    assert_eq!(cpu.memory().len(), 4096);
    assert_eq!(&cpu.memory()[0..5], &[0xF0, 0x90, 0x90, 0x90, 0xF0]);
    assert_eq!(&cpu.memory()[5..10], &[0x20, 0x60, 0x20, 0x20, 0x70]);
    assert_eq!(&cpu.memory()[75..80], &[0xF0, 0x80, 0xF0, 0x80, 0x80]);
    assert_eq!(&cpu.memory()[..80], &chip8::font::FONT[..]);
    assert!(cpu.memory()[80..0x200].iter().all(|&b| b == 0));
    assert_eq!(&cpu.memory()[0x200..0x203], &[0xAA, 0xBB, 0xCC]);
    assert!(cpu.memory()[0x203..].iter().all(|&b| b == 0));
    assert_eq!(cpu.registers(), &[0u8; 16][..]);
    assert!(cpu.display().iter().all(|&cell| cell == 0));
    assert_eq!(cpu.pc(), 0x200);
    assert_eq!(cpu.index(), 0);
    assert_eq!(cpu.delay_timer(), 0);
    assert_eq!(cpu.sound_timer(), 0);
    assert!(cpu.stack().is_empty());
    assert!(!cpu.paused());
    assert_eq!(cpu.speed(), 10);
    assert_eq!(cpu.play_sound(), Audio::Stop);
}

#[test]
fn program_that_fills_memory_is_accepted() {
    let rom = vec![0x12u8; 4096 - 0x200];
    let cpu = boot(&rom);
    assert_eq!(cpu.memory()[4095], 0x12);
}

#[test]
fn program_one_byte_too_long_is_refused() {
    let rom = vec![0u8; 4096 - 0x200 + 1];
    assert_eq!(CPU::new(&rom).err(), Some(Fault::ProgramTooLarge));
}

#[test]
fn load_rom_refusal_writes_nothing() {
    let mut cpu = boot(&[0x12, 0x00]);
    let before = cpu.memory().to_vec();
    let rom = vec![0xFFu8; 4000];
    assert_eq!(cpu.load_rom(&rom), Err(Fault::ProgramTooLarge));
    assert_eq!(cpu.memory(), &before[..]);
}

#[test]
fn load_rom_replaces_the_start_of_the_program() {
    let mut cpu = boot(&[1, 2, 3, 4]);
    assert_eq!(cpu.load_rom(&[9, 8]), Ok(()));
    assert_eq!(&cpu.memory()[0x200..0x204], &[9, 8, 3, 4]);
    assert_eq!(cpu.memory()[0x1FF], 0);
}

#[test]
fn load_sprites_restores_an_overwritten_font() {
    let mut cpu = boot(&[]);
    assert_eq!(cpu.exec_instr(0x60FF, 0, 0), Ok(()));
    assert_eq!(cpu.exec_instr(0xF055, 0, 0), Ok(()));
    assert_eq!(cpu.memory()[0], 0xFF);
    cpu.load_sprites();
    assert_eq!(&cpu.memory()[..80], &chip8::font::FONT[..]);
}

#[test]
fn tick_runs_ten_instructions() {
    // Ten additions of 1 to V0, then a loop.
    let mut rom = Vec::new();
    for _ in 0..12 {
        rom.extend_from_slice(&[0x70, 0x01]);
    }
    let mut cpu = boot(&rom);
    assert_eq!(cpu.cycle(0, &[]), Ok(Audio::Stop));
    assert_eq!(cpu.registers()[0], 10);
    assert_eq!(cpu.pc(), 0x200 + 20);
}

#[test]
fn timers_count_down_once_per_tick_and_stop_at_zero() {
    let rom = [
        0x60, 0x02, // V0 = 2
        0xF0, 0x15, // delay = 2
        0x61, 0x01, // V1 = 1
        0xF1, 0x18, // sound = 1
        0x12, 0x08, // loop
    ];
    let mut cpu = boot(&rom);
    assert_eq!(cpu.cycle(0, &[]), Ok(Audio::Stop));
    assert_eq!(cpu.delay_timer(), 1);
    assert_eq!(cpu.sound_timer(), 0);
    assert_eq!(cpu.cycle(0, &[]), Ok(Audio::Stop));
    assert_eq!(cpu.delay_timer(), 0);
    assert_eq!(cpu.cycle(0, &[]), Ok(Audio::Stop));
    assert_eq!(cpu.delay_timer(), 0);
    assert_eq!(cpu.sound_timer(), 0);
}

#[test]
fn tone_sounds_while_sound_timer_runs() {
    let rom = [
        0x60, 0x03, // V0 = 3
        0xF0, 0x18, // sound = 3
        0x12, 0x04, // loop
    ];
    let mut cpu = boot(&rom);
    assert_eq!(cpu.cycle(0, &[]), Ok(Audio::Play { frequency: 440 }));
    assert_eq!(cpu.sound_timer(), 2);
    assert_eq!(cpu.play_sound(), Audio::Play { frequency: 440 });
    assert_eq!(cpu.cycle(0, &[]), Ok(Audio::Play { frequency: 440 }));
    assert_eq!(cpu.cycle(0, &[]), Ok(Audio::Stop));
    assert_eq!(cpu.sound_timer(), 0);
    assert_eq!(cpu.play_sound(), Audio::Stop);
}

#[test]
fn update_timers_counts_both_down() {
    let mut cpu = boot(&[]);
    assert_eq!(cpu.exec_instr(0x6002, 0, 0), Ok(()));
    assert_eq!(cpu.exec_instr(0xF015, 0, 0), Ok(()));
    assert_eq!(cpu.exec_instr(0x61FF, 0, 0), Ok(()));
    assert_eq!(cpu.exec_instr(0xF118, 0, 0), Ok(()));
    cpu.update_timers();
    assert_eq!((cpu.delay_timer(), cpu.sound_timer()), (1, 254));
    cpu.update_timers();
    cpu.update_timers();
    assert_eq!((cpu.delay_timer(), cpu.sound_timer()), (0, 252));
}

#[test]
fn waiting_for_a_key_suspends_dispatch_and_timers() {
    let rom = [
        0x60, 0x05, // V0 = 5
        0xF0, 0x15, // delay = 5
        0xF3, 0x0A, // wait for a key into V3
        0x64, 0x09, // V4 = 9
        0x12, 0x08, // loop
    ];
    let mut cpu = boot(&rom);
    assert_eq!(cpu.cycle(0, &[]), Ok(Audio::Stop));
    assert!(cpu.paused());
    assert_eq!(cpu.pc(), 0x206);
    assert_eq!(cpu.delay_timer(), 5);
    assert_eq!(cpu.registers()[4], 0);
    // Ticks change nothing while the machine waits.
    assert_eq!(cpu.cycle(0xFFFF, &[]), Ok(Audio::Stop));
    assert!(cpu.paused());
    assert_eq!(cpu.pc(), 0x206);
    assert_eq!(cpu.delay_timer(), 5);
    // The key arrives.
    assert!(cpu.supply_key(0xB));
    assert!(!cpu.paused());
    assert_eq!(cpu.registers()[3], 0xB);
    assert_eq!(cpu.cycle(0, &[]), Ok(Audio::Stop));
    assert_eq!(cpu.registers()[4], 9);
    assert_eq!(cpu.delay_timer(), 4);
}

#[test]
fn supplying_a_key_nobody_waits_for_changes_nothing() {
    let mut cpu = boot(&[0x12, 0x00]);
    let before = cpu.registers().to_vec();
    assert!(!cpu.supply_key(3));
    assert_eq!(cpu.registers(), &before[..]);
    assert!(!cpu.paused());
}

#[test]
fn each_slot_draws_its_own_random_byte() {
    let rom = [
        0x60, 0x00, // slot 0
        0xC1, 0xFF, // slot 1: V1 = random[1] & 0xFF
        0xC2, 0x0F, // slot 2: V2 = random[2] & 0x0F
        0xC3, 0xFF, // slot 3: beyond the bytes given, so 0
        0x12, 0x08, // loop
    ];
    let mut cpu = boot(&rom);
    assert_eq!(cpu.cycle(0, &[0x11, 0xA7, 0xBC]), Ok(Audio::Stop));
    assert_eq!(cpu.registers()[1], 0xA7);
    assert_eq!(cpu.registers()[2], 0x0C);
    assert_eq!(cpu.registers()[3], 0x00);
}

#[test]
fn fault_ends_the_tick_and_is_met_again() {
    let rom = [
        0x60, 0x07, // V0 = 7
        0x00, 0xEE, // return with nothing to return to
        0x60, 0x09,
    ];
    let mut cpu = boot(&rom);
    assert_eq!(cpu.cycle(0, &[]), Err(Fault::StackUnderflow));
    assert_eq!(cpu.pc(), 0x202);
    assert_eq!(cpu.registers()[0], 7);
    assert_eq!(cpu.cycle(0, &[]), Err(Fault::StackUnderflow));
    assert_eq!(cpu.pc(), 0x202);
    assert_eq!(cpu.registers()[0], 7);
}

#[test]
fn tick_does_not_report_a_fault_it_has_not_reached() {
    // Ten instructions that run, and an unknown word as the eleventh.
    let mut rom = Vec::new();
    for _ in 0..10 {
        rom.extend_from_slice(&[0x70, 0x01]);
    }
    rom.extend_from_slice(&[0xFF, 0xFF]);
    let mut cpu = boot(&rom);
    assert_eq!(cpu.cycle(0, &[]), Ok(Audio::Stop));
    assert_eq!(cpu.registers()[0], 10);
    assert_eq!(cpu.cycle(0, &[]), Err(Fault::UnknownOpcode(0xFFFF)));
    assert_eq!(cpu.pc(), 0x200 + 20);
}

#[test]
fn running_off_the_end_of_memory_is_out_of_range() {
    // Jump to the last byte: no instruction word fits there.
    let mut cpu = boot(&[0x1F, 0xFF]);
    assert_eq!(cpu.cycle(0, &[]), Err(Fault::OutOfRange));
    assert_eq!(cpu.pc(), 0xFFF);
}
