use chip8::cpu::CPU;

fn boot() -> CPU {
    CPU::new(&[]).expect("an empty program fits")
}

fn run(cpu: &mut CPU, words: &[u16]) {
    for &word in words {
        assert_eq!(cpu.exec_instr(word, 0, 0), Ok(()), "instruction {:#06x}", word);
    }
}

fn lit_cells(cpu: &CPU) -> Vec<usize> {
    cpu.display().iter().enumerate().filter(|(_, &c)| c == 1).map(|(p, _)| p).collect()
}

#[test]
fn set_pixel_lights_then_erases() {
    let mut cpu = boot();
    assert!(!cpu.set_pixel(5, 3));
    assert_eq!(cpu.display()[5 + 3 * 64], 1);
    assert_eq!(lit_cells(&cpu), vec![5 + 3 * 64]);
    assert!(cpu.set_pixel(5, 3));
    assert_eq!(cpu.display()[5 + 3 * 64], 0);
    assert!(lit_cells(&cpu).is_empty());
}

#[test]
fn toggling_twice_restores_every_cell() {
    let mut cpu = boot();
    cpu.set_pixel(1, 1);
    cpu.set_pixel(63, 31);
    let before = cpu.display().to_vec();
    for (x, y) in [(0u8, 0u8), (1, 1), (63, 31), (64, 32), (200, 100), (255, 255)] {
        cpu.set_pixel(x, y);
        assert_ne!(cpu.display(), &before[..]);
        cpu.set_pixel(x, y);
        assert_eq!(cpu.display(), &before[..]);
    }
}

#[test]
fn coordinates_wrap_on_both_axes() {
    let mut cpu = boot();
    cpu.set_pixel(64, 32);
    assert_eq!(lit_cells(&cpu), vec![0]);
    cpu.set_pixel(65, 33);
    assert_eq!(lit_cells(&cpu), vec![0, 65]);
    cpu.set_pixel(63, 31);
    assert_eq!(lit_cells(&cpu), vec![0, 65, 2047]);
    // 255 = 3 * 64 + 63 across, and 7 * 32 + 31 down.
    assert!(cpu.set_pixel(255, 255));
    assert_eq!(lit_cells(&cpu), vec![0, 65]);
    // 32 is a row of its own on the horizontal axis, and row 0 on the
    // vertical one.
    cpu.set_pixel(32, 0);
    assert_eq!(lit_cells(&cpu), vec![0, 32, 65]);
    assert!(cpu.set_pixel(0, 32));
    assert_eq!(lit_cells(&cpu), vec![32, 65]);
}

#[test]
fn clear_screen_blanks_whatever_was_there() {
    let mut cpu = boot();
    for x in 0..=255u8 {
        cpu.set_pixel(x, x / 3);
    }
    assert!(!lit_cells(&cpu).is_empty());
    cpu.clear_screen();
    assert_eq!(cpu.display().len(), 2048);
    assert!(lit_cells(&cpu).is_empty());
    cpu.clear_screen();
    assert!(lit_cells(&cpu).is_empty());
}

#[test]
fn clear_instruction_blanks_the_display() {
    let mut cpu = boot();
    cpu.set_pixel(10, 10);
    cpu.set_pixel(20, 20);
    run(&mut cpu, &[0x00E0]);
    assert!(lit_cells(&cpu).is_empty());
    assert_eq!(cpu.pc(), 0x202);
}

#[test]
fn draw_puts_the_glyph_on_the_display() {
    let mut cpu = boot();
    // The glyph of 0 at (2, 1): F0 90 90 90 F0.
    run(&mut cpu, &[0x6002, 0x6101, 0xA000, 0xD015]);
    let mut expected = Vec::new();
    for (row, bits) in [0xF0u8, 0x90, 0x90, 0x90, 0xF0].iter().enumerate() {
        for col in 0..8 {
            if bits & (0x80 >> col) != 0 {
                expected.push((2 + col) + (1 + row) * 64);
            }
        }
    }
    assert_eq!(lit_cells(&cpu), expected);
    assert_eq!(expected.len(), 14);
    assert_eq!(cpu.registers()[0xF], 0);
    assert_eq!(cpu.index(), 0);
}

#[test]
fn draw_reads_each_row_most_significant_bit_first() {
    let mut cpu = boot();
    // One row, 0x20 = 0010_0000 (first row of the glyph of 1): only the
    // third column is lit.
    run(&mut cpu, &[0xA005, 0xD001]);
    assert_eq!(lit_cells(&cpu), vec![2]);
    // 0x60 = 0110_0000 on the next line.
    run(&mut cpu, &[0x00E0, 0xA006, 0x6103, 0xD011]);
    assert_eq!(lit_cells(&cpu), vec![1 + 3 * 64, 2 + 3 * 64]);
}

#[test]
fn drawing_twice_erases_and_reports_collision() {
    let mut cpu = boot();
    cpu.set_pixel(40, 20);
    let before = cpu.display().to_vec();
    run(&mut cpu, &[0x600A, 0x6105, 0xA00A, 0xD015]);
    assert_eq!(cpu.registers()[0xF], 0);
    assert_ne!(cpu.display(), &before[..]);
    run(&mut cpu, &[0xD015]);
    assert_eq!(cpu.registers()[0xF], 1);
    assert_eq!(cpu.display(), &before[..]);
    // Nothing is left to collide with.
    run(&mut cpu, &[0xD015]);
    assert_eq!(cpu.registers()[0xF], 0);
}

#[test]
fn collision_needs_a_lit_bit_on_a_lit_cell() {
    let mut cpu = boot();
    // Row 0x90 = 1001_0000 at (0, 0): columns 0 and 3.
    cpu.set_pixel(1, 0);
    run(&mut cpu, &[0xA001, 0xD001]);
    assert_eq!(cpu.registers()[0xF], 0);
    assert_eq!(lit_cells(&cpu), vec![0, 1, 3]);
    run(&mut cpu, &[0x00E0]);
    cpu.set_pixel(3, 0);
    run(&mut cpu, &[0xD001]);
    assert_eq!(cpu.registers()[0xF], 1);
    assert_eq!(lit_cells(&cpu), vec![0]);
}

#[test]
fn draw_resets_a_stale_flag() {
    let mut cpu = boot();
    run(&mut cpu, &[0x6F01, 0xA000, 0xD011]);
    assert_eq!(cpu.registers()[0xF], 0);
}

#[test]
fn draw_wraps_around_the_right_and_bottom_edges() {
    let mut cpu = boot();
    // First row of the glyph of 0, 0xF0, at (62, 31): columns 62, 63, 0, 1
    // of the bottom row; the second row, 0x90, falls on the top row.
    run(&mut cpu, &[0x603E, 0x611F, 0xA000, 0xD012]);
    assert_eq!(lit_cells(&cpu), vec![1, 62, 31 * 64, 31 * 64 + 1, 31 * 64 + 62, 31 * 64 + 63]);
}

#[test]
fn draw_wraps_coordinates_beyond_the_display() {
    let mut cpu = boot();
    // (0xFE, 0xFF) is (62, 31) after wrapping.
    run(&mut cpu, &[0x60FE, 0x61FF, 0xA000, 0xD012]);
    assert_eq!(lit_cells(&cpu), vec![1, 62, 31 * 64, 31 * 64 + 1, 31 * 64 + 62, 31 * 64 + 63]);
}

#[test]
fn draw_of_no_rows_changes_nothing_but_the_flag() {
    let mut cpu = boot();
    cpu.set_pixel(0, 0);
    run(&mut cpu, &[0x6F09, 0xAFFF, 0xD000]);
    assert_eq!(lit_cells(&cpu), vec![0]);
    assert_eq!(cpu.registers()[0xF], 0);
}

#[test]
fn draw_reads_its_coordinates_before_it_writes_the_flag() {
    let mut cpu = boot();
    // VF names the column: the sprite goes to column 5, then VF is the flag.
    run(&mut cpu, &[0x6F05, 0x6102, 0xA005, 0xDF11]);
    assert_eq!(lit_cells(&cpu), vec![7 + 2 * 64]);
    assert_eq!(cpu.registers()[0xF], 0);
}

#[test]
fn display_cells_stay_zero_or_one() {
    let mut cpu = boot();
    for round in 0..5u16 {
        run(&mut cpu, &[0x6000 | (round * 3), 0x6100 | round, 0xA000 | (round * 5), 0xD01F]);
        assert!(cpu.display().iter().all(|&cell| cell <= 1));
    }
}
