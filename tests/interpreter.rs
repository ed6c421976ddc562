use rusty8::{
    decode, font_table, Chip8, Fault, Instruction, LoadError, FONTSET_START, MAX_ROM_SIZE,
    PROGRAM_START, SCREEN_HEIGHT, SCREEN_WIDTH,
};

fn boot(rom: &[u8]) -> Chip8 {
    Chip8::from_rom(rom).unwrap()
}

fn lit_pixels(c: &Chip8) -> usize {
    c.framebuffer().iter().filter(|&&p| p).count()
}

#[test]
fn load_places_rom_and_font() {
    let rom: Vec<u8> = (0..=255u8).collect();
    let c = boot(&rom);
    for (k, &b) in rom.iter().enumerate() {
        assert_eq!(c.memory_at(PROGRAM_START + k), b);
    }
    let font = font_table();
    assert_eq!(font.len(), 80);
    assert_eq!(&font[0..5], &[0xF0, 0x90, 0x90, 0x90, 0xF0]);
    assert_eq!(&font[75..80], &[0xF0, 0x80, 0xF0, 0x80, 0x80]);
    for (k, &b) in font.iter().enumerate() {
        assert_eq!(c.memory_at(FONTSET_START + k), b);
    }
    assert_eq!(c.memory_at(0x4F), 0);
    assert_eq!(c.memory_at(0xA0), 0);
    assert_eq!(c.memory_at(PROGRAM_START + rom.len()), 0);
    assert_eq!(c.pc(), 0x200);
    assert_eq!(c.index(), 0);
    assert_eq!(c.stack_depth(), 0);
    assert_eq!(lit_pixels(&c), 0);
}

#[test]
fn load_largest_rom_fills_memory() {
    let rom = vec![0xABu8; MAX_ROM_SIZE];
    let c = boot(&rom);
    assert_eq!(c.memory_at(0x200), 0xAB);
    assert_eq!(c.memory_at(0xFFF), 0xAB);
}

#[test]
fn load_empty_rom() {
    let c = boot(&[]);
    assert_eq!(c.memory_at(0x200), 0);
    assert_eq!(c.memory_at(0x50), 0xF0);
}

#[test]
fn load_too_large_rom_fails_without_change() {
    let rom = vec![1u8; MAX_ROM_SIZE + 1];
    assert!(matches!(Chip8::from_rom(&rom), Err(LoadError::RomTooLarge)));
    let mut c = boot(&[0x60, 0x07]);
    c.step(1).unwrap();
    assert_eq!(c.load(&rom), Err(LoadError::RomTooLarge));
    assert_eq!(c.memory_at(0x200), 0x60);
    assert_eq!(c.memory_at(0x201), 0x07);
    assert_eq!(c.register(0), 7);
    assert_eq!(c.pc(), 0x202);
}

#[test]
fn reload_replaces_memory_only() {
    let mut c = boot(&[0x60, 0x07]);
    c.step(1).unwrap();
    assert_eq!(c.load(&[0x11]), Ok(()));
    assert_eq!(c.memory_at(0x200), 0x11);
    assert_eq!(c.memory_at(0x201), 0x00);
    assert_eq!(c.register(0), 7);
    assert_eq!(c.pc(), 0x202);
}

#[test]
fn set_immediate_then_read_every_register_and_byte() {
    for x in 0..16u8 {
        for nn in 0..=255u8 {
            let mut c = boot(&[0x60 | x, nn]);
            assert_eq!(c.step(1), Ok(vec![]));
            assert_eq!(c.register(x), nn);
        }
    }
}

#[test]
fn add_immediate_wraps() {
    let mut c = boot(&[0x60, 0xFF, 0x70, 0x01]);
    c.step(2).unwrap();
    assert_eq!(c.register(0), 0x00);
    assert_eq!(c.register(0xF), 0, "7XNN leaves VF alone");
    let mut c = boot(&[0x65, 0x10, 0x75, 0x22]);
    c.step(2).unwrap();
    assert_eq!(c.register(5), 0x32);
}

#[test]
fn add_registers_carry() {
    let mut c = boot(&[0x60, 0xFF, 0x61, 0x01, 0x80, 0x14]);
    c.step(3).unwrap();
    assert_eq!(c.register(0), 0x00);
    assert_eq!(c.register(0xF), 1);
    let mut c = boot(&[0x60, 0x01, 0x61, 0x01, 0x80, 0x14]);
    c.step(3).unwrap();
    assert_eq!(c.register(0), 0x02);
    assert_eq!(c.register(0xF), 0);
}

#[test]
fn subtract_registers_borrow() {
    let mut c = boot(&[0x60, 0x01, 0x61, 0x02, 0x80, 0x15]);
    c.step(3).unwrap();
    assert_eq!(c.register(0), 0xFF);
    assert_eq!(c.register(0xF), 0);
    let mut c = boot(&[0x60, 0x02, 0x61, 0x01, 0x80, 0x15]);
    c.step(3).unwrap();
    assert_eq!(c.register(0), 0x01);
    assert_eq!(c.register(0xF), 1);
}

#[test]
fn subtract_reverse_borrow() {
    let mut c = boot(&[0x60, 0x05, 0x61, 0x03, 0x80, 0x17]);
    c.step(3).unwrap();
    assert_eq!(c.register(0), 0xFE);
    assert_eq!(c.register(0xF), 0);
    let mut c = boot(&[0x60, 0x03, 0x61, 0x05, 0x80, 0x17]);
    c.step(3).unwrap();
    assert_eq!(c.register(0), 0x02);
    assert_eq!(c.register(0xF), 1);
}

#[test]
fn shifts_take_vy_and_report_the_lost_bit() {
    let mut c = boot(&[0x61, 0x81, 0x80, 0x16]);
    c.step(2).unwrap();
    assert_eq!(c.register(0), 0x40);
    assert_eq!(c.register(0xF), 1);
    let mut c = boot(&[0x61, 0x81, 0x80, 0x1E]);
    c.step(2).unwrap();
    assert_eq!(c.register(0), 0x02);
    assert_eq!(c.register(0xF), 1);
    let mut c = boot(&[0x61, 0x42, 0x80, 0x1E]);
    c.step(2).unwrap();
    assert_eq!(c.register(0), 0x84);
    assert_eq!(c.register(0xF), 0);
}

#[test]
fn logic_ops_reset_flag() {
    let cases: [(u8, u8); 3] = [(0x1, 0xFE), (0x2, 0x0C), (0x3, 0xF2)];
    for (op, expected) in cases {
        let mut c = boot(&[0x6F, 0x09, 0x60, 0x0E, 0x61, 0xFC, 0x80, 0x10 | op]);
        c.step(4).unwrap();
        assert_eq!(c.register(0), expected);
        assert_eq!(c.register(0xF), 0);
    }
    let mut c = boot(&[0x61, 0x33, 0x80, 0x10]);
    c.step(2).unwrap();
    assert_eq!(c.register(0), 0x33);
}

#[test]
fn flag_register_as_destination_ends_as_flag() {
    let mut c = boot(&[0x6F, 0xFF, 0x61, 0x01, 0x8F, 0x14]);
    c.step(3).unwrap();
    assert_eq!(c.register(0xF), 1);
}

#[test]
fn skips() {
    // 3XNN taken, 4XNN not taken, 5XY0 taken, 9XY0 not taken
    let mut c = boot(&[0x60, 0x05, 0x30, 0x05]);
    c.step(2).unwrap();
    assert_eq!(c.pc(), 0x206);
    let mut c = boot(&[0x60, 0x05, 0x40, 0x05]);
    c.step(2).unwrap();
    assert_eq!(c.pc(), 0x204);
    let mut c = boot(&[0x60, 0x05, 0x61, 0x05, 0x50, 0x10]);
    c.step(3).unwrap();
    assert_eq!(c.pc(), 0x208);
    let mut c = boot(&[0x60, 0x05, 0x61, 0x05, 0x90, 0x10]);
    c.step(3).unwrap();
    assert_eq!(c.pc(), 0x206);
    let mut c = boot(&[0x60, 0x05, 0x41, 0x05]);
    c.step(2).unwrap();
    assert_eq!(c.pc(), 0x206);
}

#[test]
fn jumps() {
    let mut c = boot(&[0x13, 0x45]);
    c.step(1).unwrap();
    assert_eq!(c.pc(), 0x345);
    let mut c = boot(&[0x60, 0x04, 0xB3, 0x00]);
    c.step(2).unwrap();
    assert_eq!(c.pc(), 0x304);
}

#[test]
fn call_then_return() {
    // 0x200: call 0x206; 0x206: return
    let mut c = boot(&[0x22, 0x06, 0x60, 0x07, 0x00, 0x00, 0x00, 0xEE]);
    c.step(1).unwrap();
    assert_eq!(c.pc(), 0x206);
    assert_eq!(c.stack_depth(), 1);
    c.step(1).unwrap();
    assert_eq!(c.pc(), 0x202);
    assert_eq!(c.stack_depth(), 0);
    c.step(1).unwrap();
    assert_eq!(c.register(0), 7);
}

#[test]
fn return_with_empty_stack_is_fatal() {
    let mut c = boot(&[0x60, 0x01, 0x00, 0xEE, 0x60, 0x02]);
    assert_eq!(c.step(3), Err(Fault::StackUnderflow));
    assert_eq!(c.pc(), 0x202);
    assert_eq!(c.register(0), 1);
    assert_eq!(c.stack_depth(), 0);
}

#[test]
fn unknown_opcodes_are_reported_and_skipped() {
    let mut c = boot(&[0x00, 0x00, 0x80, 0x08, 0xE0, 0x00, 0xF0, 0xFF, 0x60, 0x09]);
    assert_eq!(c.step(5), Ok(vec![0x0000, 0x8008, 0xE000, 0xF0FF]));
    assert_eq!(c.register(0), 9);
    assert_eq!(c.pc(), 0x20A);
}

#[test]
fn running_off_memory_is_a_fault() {
    let mut c = boot(&[0x1F, 0xFF]);
    assert_eq!(c.step(1), Ok(vec![]));
    assert_eq!(c.pc(), 0xFFF);
    assert_eq!(c.step(1), Err(Fault::AddressOutOfRange));
    assert_eq!(c.pc(), 0xFFF);
}

#[test]
fn draw_twice_restores_screen_and_collides() {
    // I = glyph 0, V0 = V1 = 0, draw 5 rows twice
    let mut c = boot(&[0xA0, 0x50, 0xD0, 0x15, 0xD0, 0x15]);
    c.step(2).unwrap();
    assert_eq!(c.register(0xF), 0);
    assert_eq!(lit_pixels(&c), 14);
    assert!(c.pixel(0, 0));
    assert!(c.pixel(3, 0));
    assert!(!c.pixel(4, 0));
    assert!(!c.pixel(1, 1));
    c.step(1).unwrap();
    assert_eq!(c.register(0xF), 1);
    assert_eq!(lit_pixels(&c), 0);
}

#[test]
fn draw_partial_overlap_collides() {
    // glyph 0 at (0,0), then glyph 1 at (0,0): they share lit pixels
    let mut c = boot(&[0xA0, 0x50, 0xD0, 0x05, 0xA0, 0x55, 0xD0, 0x05]);
    c.step(4).unwrap();
    assert_eq!(c.register(0xF), 1);
}

#[test]
fn draw_clips_at_right_and_bottom_edges() {
    // sprite bytes 0xFF at 0x20A..0x20D; V0 = 60, V1 = 30; draw 4 rows
    let mut c = boot(&[
        0xA2, 0x0C, 0x60, 0x3C, 0x61, 0x1E, 0xD0, 0x14, 0x00, 0x00, 0x00, 0x00, 0xFF, 0xFF,
        0xFF, 0xFF,
    ]);
    c.step(4).unwrap();
    assert_eq!(c.register(0xF), 0);
    assert_eq!(lit_pixels(&c), 8);
    for row in 30..32 {
        for col in 60..64 {
            assert!(c.pixel(col, row));
        }
        for col in 0..4 {
            assert!(!c.pixel(col, row), "no wrap to the left edge");
        }
    }
    for col in 0..SCREEN_WIDTH {
        assert!(!c.pixel(col, 0), "no wrap to the top edge");
        assert!(!c.pixel(col, 1));
    }
    assert_eq!(c.framebuffer().len(), SCREEN_WIDTH * SCREEN_HEIGHT);
}

#[test]
fn draw_start_position_wraps() {
    // V0 = 64 + 2, V1 = 32 + 1: the sprite starts at column 2, row 1
    let mut c = boot(&[0xA0, 0x50, 0x60, 0x42, 0x61, 0x21, 0xD0, 0x11]);
    c.step(4).unwrap();
    assert!(c.pixel(2, 1));
    assert!(c.pixel(5, 1));
    assert!(!c.pixel(6, 1));
    assert_eq!(lit_pixels(&c), 4);
}

#[test]
fn draw_reading_past_memory_is_a_fault() {
    let mut c = boot(&[0xAF, 0xFF, 0xD0, 0x02]);
    assert_eq!(c.step(2), Err(Fault::AddressOutOfRange));
    assert_eq!(c.pc(), 0x202);
    assert_eq!(lit_pixels(&c), 0);
    // one row at the last byte is fine
    let mut c = boot(&[0xAF, 0xFF, 0xD0, 0x01]);
    assert_eq!(c.step(2), Ok(vec![]));
}

#[test]
fn clear_screen() {
    let mut c = boot(&[0xA0, 0x50, 0xD0, 0x05, 0x00, 0xE0]);
    c.step(2).unwrap();
    assert!(lit_pixels(&c) > 0);
    c.step(1).unwrap();
    assert_eq!(lit_pixels(&c), 0);
}

#[test]
fn timers_count_down_and_stop_at_zero() {
    let mut c = boot(&[0x60, 0x03, 0xF0, 0x15, 0x61, 0x01, 0xF1, 0x18, 0xF2, 0x07]);
    c.step(4).unwrap();
    assert_eq!(c.delay_timer(), 3);
    assert_eq!(c.sound_timer(), 1);
    c.tick_timers();
    assert_eq!(c.delay_timer(), 2);
    assert_eq!(c.sound_timer(), 0);
    c.step(1).unwrap();
    assert_eq!(c.register(2), 2);
    for _ in 0..10 {
        c.tick_timers();
    }
    assert_eq!(c.delay_timer(), 0);
    assert_eq!(c.sound_timer(), 0);
}

#[test]
fn wait_key_blocks_until_release() {
    let mut c = boot(&[0xF3, 0x0A]);
    c.set_keys([false; 16]);
    c.step(3).unwrap();
    assert_eq!(c.pc(), 0x200);
    let mut keys = [false; 16];
    keys[5] = true;
    keys[9] = true;
    c.set_keys(keys);
    c.step(4).unwrap();
    assert_eq!(c.pc(), 0x200, "a press is no release");
    c.set_keys(keys);
    c.step(1).unwrap();
    assert_eq!(c.pc(), 0x200, "a held key is no release");
    c.set_keys([false; 16]);
    c.step(1).unwrap();
    assert_eq!(c.register(3), 5, "the lowest released key wins");
    assert_eq!(c.pc(), 0x202);
}

#[test]
fn key_skips() {
    let mut keys = [false; 16];
    keys[0xA] = true;
    let mut c = boot(&[0x60, 0x0A, 0xE0, 0x9E]);
    c.set_keys(keys);
    c.step(2).unwrap();
    assert_eq!(c.pc(), 0x206);
    let mut c = boot(&[0x60, 0x0A, 0xE0, 0xA1]);
    c.set_keys(keys);
    c.step(2).unwrap();
    assert_eq!(c.pc(), 0x204);
    let mut c = boot(&[0x60, 0x0B, 0xE0, 0xA1]);
    c.set_keys(keys);
    c.step(2).unwrap();
    assert_eq!(c.pc(), 0x206);
    // a key index of 16 or more is never pressed
    let mut c = boot(&[0x60, 0x1A, 0xE0, 0x9E]);
    c.set_keys([true; 16]);
    c.step(2).unwrap();
    assert_eq!(c.pc(), 0x204);
}

#[test]
fn index_operations() {
    let mut c = boot(&[0xA1, 0x23, 0x60, 0x10, 0xF0, 0x1E]);
    c.step(3).unwrap();
    assert_eq!(c.index(), 0x133);
    let mut c = boot(&[0x60, 0x0F, 0xF0, 0x29]);
    c.step(2).unwrap();
    assert_eq!(c.index(), 0x50 + 15 * 5);
}

#[test]
fn bcd_stores_three_digits() {
    let mut c = boot(&[0x60, 234, 0xA3, 0x00, 0xF0, 0x33]);
    c.step(3).unwrap();
    assert_eq!(c.memory_at(0x300), 2);
    assert_eq!(c.memory_at(0x301), 3);
    assert_eq!(c.memory_at(0x302), 4);
    let mut c = boot(&[0x60, 7, 0xA3, 0x00, 0xF0, 0x33]);
    c.step(3).unwrap();
    assert_eq!(c.memory_at(0x300), 0);
    assert_eq!(c.memory_at(0x301), 0);
    assert_eq!(c.memory_at(0x302), 7);
    let mut c = boot(&[0xAF, 0xFE, 0xF0, 0x33]);
    assert_eq!(c.step(2), Err(Fault::AddressOutOfRange));
}

#[test]
fn store_and_load_registers() {
    let mut c = boot(&[
        0x60, 0x11, 0x61, 0x22, 0x62, 0x33, 0xA3, 0x00, 0xF2, 0x55, 0x60, 0x00, 0x61, 0x00,
        0x62, 0x00, 0xA3, 0x00, 0xF1, 0x65,
    ]);
    c.step(5).unwrap();
    assert_eq!(c.memory_at(0x300), 0x11);
    assert_eq!(c.memory_at(0x301), 0x22);
    assert_eq!(c.memory_at(0x302), 0x33);
    assert_eq!(c.memory_at(0x303), 0x00);
    assert_eq!(c.index(), 0x303);
    c.step(5).unwrap();
    assert_eq!(c.register(0), 0x11);
    assert_eq!(c.register(1), 0x22);
    assert_eq!(c.register(2), 0x00);
    assert_eq!(c.index(), 0x302);
    let mut c = boot(&[0xAF, 0xFF, 0xF1, 0x55]);
    assert_eq!(c.step(2), Err(Fault::AddressOutOfRange));
    assert_eq!(c.index(), 0xFFF);
}

#[test]
fn random_is_masked() {
    let mut c = boot(&[0xC0, 0x0F]);
    assert_eq!(c.cycle(0xAB), Ok(Instruction::Random { x: 0, nn: 0x0F }));
    assert_eq!(c.register(0), 0x0B);
    for _ in 0..50 {
        let mut c = boot(&[0xC4, 0x0F, 0xC5, 0x00]);
        c.step(2).unwrap();
        assert!(c.register(4) <= 0x0F);
        assert_eq!(c.register(5), 0);
    }
}

#[test]
fn cycle_reports_instruction() {
    let mut c = boot(&[0x6A, 0x42]);
    assert_eq!(c.cycle(0), Ok(Instruction::SetImm { x: 0xA, nn: 0x42 }));
    assert_eq!(c.register(0xA), 0x42);
}

#[test]
fn decode_table() {
    assert_eq!(decode(0x00E0), Instruction::ClearScreen);
    assert_eq!(decode(0x00EE), Instruction::Return);
    assert_eq!(decode(0x1ABC), Instruction::Jump { addr: 0xABC });
    assert_eq!(decode(0x2ABC), Instruction::Call { addr: 0xABC });
    assert_eq!(decode(0x3A12), Instruction::SkipIfEqualImm { x: 0xA, nn: 0x12 });
    assert_eq!(decode(0x8AB4), Instruction::AddReg { x: 0xA, y: 0xB });
    assert_eq!(decode(0x8ABE), Instruction::ShiftLeft { x: 0xA, y: 0xB });
    assert_eq!(decode(0x8AB9), Instruction::Unknown { opcode: 0x8AB9 });
    assert_eq!(decode(0xD123), Instruction::Draw { x: 1, y: 2, n: 3 });
    assert_eq!(decode(0xE59E), Instruction::SkipIfKey { x: 5 });
    assert_eq!(decode(0xE5A1), Instruction::SkipIfNotKey { x: 5 });
    assert_eq!(decode(0xF50A), Instruction::WaitKey { x: 5 });
    assert_eq!(decode(0xF565), Instruction::LoadRegs { x: 5 });
    assert_eq!(decode(0xF566), Instruction::Unknown { opcode: 0xF566 });
    assert_eq!(decode(0x0123), Instruction::Unknown { opcode: 0x0123 });
}
