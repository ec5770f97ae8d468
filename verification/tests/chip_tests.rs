use go64::cia::Cia;
use go64::debugger::{disassemble, disassemble_range};
use go64::io::{RomError, RomSet};
use go64::keyboard::{map_key, HostKey};
use go64::memory::{BasicMemory, C64Memory, Memory};
use go64::vic::{screen_code_to_char, C64Color, VicII};

#[test]
fn ram_reads_back_what_was_written() {
    let mut memory = C64Memory::new();
    for addr in [0x0002u16, 0x00FF, 0x0100, 0x0400, 0x9FFF, 0xC000, 0xCFFF] {
        memory.write(addr, 0x5A);
        assert_eq!(memory.read(addr), 0x5A);
    }
    // With everything banked out the whole space above the port is RAM.
    memory.write(0x0001, 0x30);
    for addr in [0xA000u16, 0xBFFF, 0xD000, 0xD020, 0xDC0D, 0xDFFF, 0xE000, 0xFFFF] {
        memory.write(addr, 0xA5);
        assert_eq!(memory.read(addr), 0xA5);
    }
}

#[test]
fn power_on_state() {
    let memory = C64Memory::new();
    assert_eq!(memory.read(0x0000), 0x2F);
    assert_eq!(memory.read(0x0001), 0x37);
    assert_eq!(memory.read(0xFFFC), 0xE2);
    assert_eq!(memory.read(0xFFFD), 0xFC);
    assert_eq!(memory.read(0x1000), 0x00);
    assert!(memory.is_basic_visible() && memory.is_kernal_visible() && memory.is_io_visible());
    assert!(!memory.is_char_rom_visible());
}

fn with_roms() -> C64Memory {
    let mut memory = C64Memory::new();
    memory.load_basic_rom(vec![0xBA; 0x2000]);
    memory.load_kernal_rom(vec![0xEA; 0x2000]);
    memory.load_char_rom(vec![0xCA; 0x1000]);
    memory
}

#[test]
fn banking_follows_the_processor_port() {
    let mut memory = with_roms();
    memory.write(0x0001, 0x30);
    memory.write(0xA000, 0x11);
    memory.write(0xD000, 0x22);
    memory.write(0xE000, 0x33);
    // (port bits, $A000, $D000, $E000), with the VIC register $D000 at 0
    let table = [
        (0b111u8, 0xBA, 0x00, 0xEA),
        (0b110, 0x11, 0x00, 0xEA),
        (0b101, 0x11, 0x00, 0x33),
        (0b100, 0x11, 0x22, 0x33),
        (0b011, 0xBA, 0xCA, 0xEA),
        (0b010, 0x11, 0xCA, 0xEA),
        (0b001, 0x11, 0xCA, 0x33),
        (0b000, 0x11, 0x22, 0x33),
    ];
    for (bits, basic, chars, kernal) in table {
        memory.write(0x0001, 0x30 | bits);
        assert_eq!(memory.read(0xA000), basic, "bits {:03b}", bits);
        assert_eq!(memory.read(0xD000), chars, "bits {:03b}", bits);
        assert_eq!(memory.read(0xE000), kernal, "bits {:03b}", bits);
        assert_eq!(memory.is_kernal_visible(), bits & 2 != 0);
        assert_eq!(memory.is_char_rom_visible(), bits & 4 == 0 && bits & 3 != 0);
        assert_eq!(memory.is_io_visible(), bits & 4 != 0 && bits & 3 != 0);
        assert_eq!(memory.is_basic_visible(), bits & 3 == 3);
    }
}

#[test]
fn writes_under_rom_land_in_ram() {
    let mut memory = with_roms();
    memory.write(0xA123, 0x77);
    memory.write(0xE456, 0x88);
    assert_eq!(memory.read(0xA123), 0xBA);
    assert_eq!(memory.read(0xE456), 0xEA);
    memory.write(0x0001, 0x34);
    assert_eq!(memory.read(0xA123), 0x77);
    assert_eq!(memory.read(0xE456), 0x88);
}

#[test]
fn rom_images_of_the_wrong_size_are_ignored() {
    let mut memory = C64Memory::new();
    memory.write(0x0001, 0x33);
    memory.write(0xE000, 0x42);
    memory.write(0xA000, 0x43);
    memory.write(0xD000, 0x44);
    memory.load_kernal_rom(vec![0xEA; 0x1FFF]);
    memory.load_basic_rom(vec![0xBA; 0x2001]);
    memory.load_char_rom(vec![0xCA; 0x2000]);
    assert_eq!(memory.read(0xE000), 0x42);
    assert_eq!(memory.read(0xA000), 0x43);
    assert_eq!(memory.read(0xD000), 0x44);
}

#[test]
fn io_area_dispatches_to_the_chips() {
    let mut memory = C64Memory::new();
    // VIC registers are mirrored every 64 bytes.
    memory.write(0xD020, 0xF3);
    assert_eq!(memory.read(0xD020), 0xF3);
    assert_eq!(memory.read(0xD060), 0xF3);
    assert_eq!(memory.read(0xD3E0), 0xF3);
    assert!(matches!(memory.vic.get_border_color(), C64Color::Cyan));
    // The SID reads as 0 and swallows writes.
    memory.write(0xD400, 0xFF);
    assert_eq!(memory.read(0xD400), 0);
    // Colour RAM keeps nibbles.
    memory.write(0xD800, 0xF7);
    assert_eq!(memory.read(0xD800), 0x07);
    assert_eq!(memory.read(0xDBE7), 14);
    memory.write(0xDBE8, 0x05);
    assert_eq!(memory.read(0xDBE8), 0);
    // The CIAs are mirrored every 16 bytes.
    memory.write(0xDC02, 0x12);
    assert_eq!(memory.read(0xDC12), 0x12);
    assert_eq!(memory.cia1.ddra, 0x12);
    memory.write(0xDD03, 0x34);
    assert_eq!(memory.read(0xDDF3), 0x34);
    assert_eq!(memory.cia2.ddrb, 0x34);
    // Above the chips the I/O area is RAM.
    memory.write(0xDE00, 0x99);
    assert_eq!(memory.read(0xDE00), 0x99);
    // Nothing of this reached the RAM below the chips.
    memory.write(0x0001, 0x30);
    assert_eq!(memory.read(0xD020), 0);
    assert_eq!(memory.read(0xDC02), 0);
}

#[test]
fn cia_registers() {
    let mut cia = Cia::new();
    assert_eq!(cia.read(0xDC04), 0x25);
    assert_eq!(cia.read(0xDC05), 0x40);
    assert_eq!(cia.read(0xDC0E), 0x01);
    assert_eq!(cia.read(0xDC0B), 1);
    assert_eq!(cia.read(0xDC01), 0xFF);
    cia.write(0x06, 0x34);
    cia.write(0x07, 0x12);
    assert_eq!((cia.tb_lo, cia.tb_hi), (0x34, 0x12));
    assert_eq!(cia.read(0x06), 0x34);
    assert_eq!(cia.read(0x07), 0x12);
    // Mask: bit 7 set switches bits on, bit 7 clear switches them off.
    cia.write(0x0D, 0x83);
    assert_eq!(cia.icr_mask, 0x03);
    cia.write(0x0D, 0x01);
    assert_eq!(cia.icr_mask, 0x02);
    cia.write(0x0D, 0x90);
    assert_eq!(cia.icr_mask, 0x12);
    cia.icr = 0x83;
    assert_eq!(cia.read(0x0D), 0x83);
    cia.acknowledge(0x0C);
    assert_eq!(cia.icr, 0x83);
    cia.acknowledge(0x0D);
    assert_eq!(cia.icr, 0x00);
}

#[test]
fn cia_timer_a_reloads_after_its_period() {
    let mut cia = Cia::new();
    cia.write(0x04, 0xE8);
    cia.write(0x05, 0x03);
    cia.write(0x0E, 0x01);
    cia.write(0x0D, 0x81);
    let mut requests = 0;
    for cycles in [255u8, 255, 0, 255, 234] {
        assert_eq!(cia.icr, 0);
        if cia.tick(cycles) {
            requests += 1;
        }
    }
    assert_eq!(cia.read(0x04), 0x01);
    assert_eq!(cia.read(0x05), 0x00);
    assert_eq!(requests, 0);
    assert!(cia.tick(1));
    assert_eq!(cia.read(0x04), 0xE8);
    assert_eq!(cia.read(0x05), 0x03);
    assert_eq!(cia.icr, 0x81);
    assert_eq!(cia.cra, 0x01);
    assert!(!cia.tick(0));
}

#[test]
fn cia_timer_b_one_shot_stops_and_masked_timer_is_silent() {
    let mut cia = Cia::new();
    cia.write(0x0E, 0x00);
    cia.write(0x06, 0x0A);
    cia.write(0x07, 0x00);
    cia.write(0x0F, 0x09);
    assert!(!cia.tick(9));
    assert_eq!(cia.read(0x06), 0x01);
    assert!(!cia.tick(1));
    assert_eq!(cia.icr, 0x82);
    assert_eq!(cia.crb, 0x08);
    assert_eq!(cia.read(0x06), 0x0A);
    assert!(!cia.tick(200));
    assert_eq!(cia.read(0x06), 0x0A);
    // Timer A did not move while stopped.
    assert_eq!(cia.read(0x04), 0x25);
}

#[test]
fn keyboard_column_of_a_single_key() {
    for row in 0..8u8 {
        for col in 0..8u8 {
            let mut cia = Cia::new();
            cia.set_key(row, col, true);
            cia.write(0x00, !(1 << row));
            assert_eq!(cia.read_keyboard_columns(), !(1 << col));
            assert_eq!(cia.read(0xDC01), !(1 << col));
            // Another row sees nothing.
            cia.write(0x00, !(1 << ((row + 1) % 8)));
            assert_eq!(cia.read_keyboard_columns(), 0xFF);
        }
    }
}

#[test]
fn keyboard_keys_decay_after_five_frames() {
    let mut cia = Cia::new();
    cia.set_key(1, 2, true);
    cia.set_key(3, 4, true);
    cia.set_key(8, 0, true);
    cia.set_key(0, 8, true);
    cia.write(0x00, 0x00);
    assert_eq!(cia.read_keyboard_columns(), !(0x04 | 0x10));
    cia.set_key(3, 4, false);
    assert_eq!(cia.read_keyboard_columns(), !0x04);
    for _ in 0..4 {
        cia.decay_keyboard();
        assert_eq!(cia.read_keyboard_columns(), !0x04);
    }
    cia.clear_keyboard();
    assert_eq!(cia.read_keyboard_columns(), 0xFF);
    cia.decay_keyboard();
    assert_eq!(cia.read_keyboard_columns(), 0xFF);
}

#[test]
fn raster_advances_every_63_cycles_and_wraps() {
    let mut vic = VicII::new();
    assert!(!vic.tick(62));
    assert_eq!(vic.read_register(0x12), 0);
    assert!(!vic.tick(1));
    assert_eq!(vic.read_register(0x12), 1);
    assert_eq!(vic.cycle_count(), 0);
    for _ in 0..310 {
        vic.tick(30);
        vic.tick(33);
    }
    // Line 311: bit 8 shows in register $11.
    assert_eq!(vic.read_register(0x12), (311 & 0xFF) as u8);
    assert_eq!(vic.read_register(0x11) & 0x80, 0x80);
    vic.tick(63);
    assert_eq!(vic.read_register(0x12), 0);
    assert_eq!(vic.read_register(0x11) & 0x80, 0);
}

#[test]
fn raster_interrupt_at_the_compare_line() {
    for enabled in [false, true] {
        let mut vic = VicII::new();
        vic.write_register(0x12, 5);
        vic.write_register(0x1A, if enabled { 1 } else { 0 });
        let mut requests = 0;
        for _ in 0..5 * 9 {
            if vic.tick(7) {
                requests += 1;
            }
        }
        assert_eq!(vic.read_register(0x12), 5);
        assert_eq!(vic.read_register(0x19) & 1, 1);
        assert_eq!(requests, if enabled { 1 } else { 0 });
    }
}

#[test]
fn raster_compare_uses_nine_bits() {
    let mut vic = VicII::new();
    vic.write_register(0x12, 0x04);
    vic.write_register(0x11, 0x80);
    vic.write_register(0x1A, 1);
    let mut at = Vec::new();
    for line in 1..=311u16 {
        if vic.tick(63) {
            at.push(line);
        }
    }
    assert_eq!(at, vec![260]);
    // Register $11 shows the raster's bit 8, not the stored bit.
    assert_eq!(vic.read_register(0x11), 0x80);
    vic.tick(63);
    assert_eq!(vic.read_register(0x11), 0x00);
}

#[test]
fn vic_registers_and_colours() {
    let mut vic = VicII::new();
    assert!(matches!(vic.get_border_color(), C64Color::LightBlue));
    assert!(matches!(vic.get_background_color(), C64Color::Blue));
    vic.write_register(0xD021, 0xF2);
    assert!(matches!(vic.get_background_color(), C64Color::Red));
    assert_eq!(vic.read_register(0x21), 0xF2);
    assert_eq!(vic.read_register(0x61), 0xF2);
    assert_eq!(vic.read_color_ram(0), 14);
    vic.write_color_ram(999, 0x1F);
    assert_eq!(vic.read_color_ram(999), 0x0F);
    assert_eq!(vic.read_color_ram(1000), 0);
    assert!(matches!(C64Color::from_u8(0x1F), C64Color::LightGrey));
    assert!(matches!(C64Color::from_u8(0x10), C64Color::Black));
    assert_eq!(C64Color::Blue.rgb(), (53, 40, 121));
    assert_eq!(C64Color::LightBlue.rgb(), (108, 108, 255));
    assert_eq!(C64Color::White.rgb(), (255, 255, 255));
}

#[test]
fn screen_cells_come_from_screen_memory_and_colour_ram() {
    let mut memory = C64Memory::new();
    memory.write(0x0400, 0x01);
    memory.write(0x0400 + 24 * 40 + 39, 0x1A);
    memory.write(0xD800 + 24 * 40 + 39, 0x07);
    assert_eq!(memory.vic.get_screen_char(&memory, 0, 0), (0x01, 14));
    assert_eq!(memory.vic.get_screen_char(&memory, 39, 24), (0x1A, 7));
    assert_eq!(memory.vic.get_screen_char(&memory, 40, 0), (0x20, 14));
    assert_eq!(memory.vic.get_screen_char(&memory, 0, 25), (0x20, 14));
    // The same through the memory, which owns the chip.
    memory.write(0xD800, 0xFF);
    assert_eq!(memory.get_screen_char(0, 0), (0x01, 15));
    assert_eq!(memory.get_screen_char(39, 24), (0x1A, 7));
    assert_eq!(memory.get_screen_char(40, 24), (0x20, 14));
    memory.write(0xD020, 0x02);
    memory.write(0xD021, 0xF1);
    assert!(matches!(memory.get_border_color(), C64Color::Red));
    assert!(matches!(memory.get_background_color(), C64Color::White));
}

#[test]
fn keyboard_through_the_memory() {
    let mut memory = C64Memory::new();
    memory.set_key(2, 3, true);
    memory.set_key(9, 3, true);
    memory.write(0xDC00, !(1 << 2));
    assert_eq!(memory.read(0xDC01), !(1 << 3));
    for _ in 0..4 {
        memory.decay_keyboard();
    }
    assert_eq!(memory.read(0xDC01), !(1 << 3));
    memory.decay_keyboard();
    assert_eq!(memory.read(0xDC01), 0xFF);
    memory.set_key(2, 3, true);
    memory.set_key(2, 3, false);
    assert_eq!(memory.read(0xDC01), 0xFF);
    memory.well_formed();
}

#[test]
fn screen_codes_show_as_characters() {
    assert_eq!(screen_code_to_char(0), '@');
    assert_eq!(screen_code_to_char(1), 'A');
    assert_eq!(screen_code_to_char(26), 'Z');
    assert_eq!(screen_code_to_char(27), '[');
    assert_eq!(screen_code_to_char(28), '£');
    assert_eq!(screen_code_to_char(32), ' ');
    assert_eq!(screen_code_to_char(34), '"');
    assert_eq!(screen_code_to_char(48), '0');
    assert_eq!(screen_code_to_char(57), '9');
    assert_eq!(screen_code_to_char(63), '?');
    assert_eq!(screen_code_to_char(64), '▒');
    assert_eq!(screen_code_to_char(65), '♠');
    assert_eq!(screen_code_to_char(83), '♥');
    assert_eq!(screen_code_to_char(94), 'π');
    assert_eq!(screen_code_to_char(96), '▒');
    assert_eq!(screen_code_to_char(127), '▒');
    // Inverse characters show as their base.
    assert_eq!(screen_code_to_char(128), '@');
    assert_eq!(screen_code_to_char(129), 'A');
    assert_eq!(screen_code_to_char(160), ' ');
    assert_eq!(screen_code_to_char(176), '0');
    assert_eq!(screen_code_to_char(255), '▒');
    for code in 128..=255u8 {
        assert_eq!(screen_code_to_char(code), screen_code_to_char(code & 0x7F));
    }
}

#[test]
fn disassembler_formats_operands() {
    let mut memory = BasicMemory::new();
    let program = [
        0xA9, 0x42, 0xB5, 0x10, 0xBD, 0x34, 0x12, 0x6C, 0xFF, 0x02, 0xF0, 0xFE, 0x60, 0x02,
    ];
    for (i, b) in program.iter().enumerate() {
        memory.write(0xC000 + i as u16, *b);
    }
    let expected = [
        (0xC000u16, "LDA #$42", 2u16),
        (0xC002, "LDA $10,X", 2),
        (0xC004, "LDA $1234,X", 3),
        (0xC007, "JMP ($02FF)", 3),
        (0xC00A, "BEQ $FE", 2),
        (0xC00C, "RTS", 1),
        (0xC00D, "??? $02", 1),
    ];
    for (addr, text, size) in expected {
        assert_eq!(disassemble(&memory, addr), (text.to_string(), size));
    }
    assert_eq!(
        disassemble_range(&memory, 0xC004, 3),
        vec!["$C004: LDA $1234,X", "$C007: JMP ($02FF)", "$C00A: BEQ $FE"]
    );
    assert!(disassemble_range(&memory, 0xC000, 0).is_empty());
    // At the top of the address space the operand wraps around.
    memory.write(0xFFFF, 0x4C);
    memory.write(0x0000, 0xCD);
    memory.write(0x0001, 0xAB);
    assert_eq!(disassemble(&memory, 0xFFFF), ("JMP $ABCD".to_string(), 3));
}

#[test]
fn host_keys_map_to_the_matrix() {
    assert_eq!(map_key(HostKey::Enter), Some(vec![(0, 1)]));
    assert_eq!(map_key(HostKey::Backspace), Some(vec![(0, 0)]));
    assert_eq!(map_key(HostKey::F(1)), Some(vec![(0, 4)]));
    assert_eq!(map_key(HostKey::F(7)), Some(vec![(0, 3)]));
    assert_eq!(map_key(HostKey::F(2)), None);
    assert_eq!(map_key(HostKey::Char('a')), Some(vec![(1, 2)]));
    assert_eq!(map_key(HostKey::Char('A')), Some(vec![(1, 2)]));
    assert_eq!(map_key(HostKey::Char('"')), Some(vec![(1, 7), (7, 3)]));
    assert_eq!(map_key(HostKey::Char('?')), Some(vec![(1, 7), (6, 7)]));
    assert_eq!(map_key(HostKey::Char(' ')), Some(vec![(7, 4)]));
    assert_eq!(map_key(HostKey::Tab), Some(vec![(7, 7)]));
    assert_eq!(map_key(HostKey::Left), Some(vec![(7, 1)]));
    assert_eq!(map_key(HostKey::Char('~')), None);
    assert_eq!(map_key(HostKey::Other), None);
}

#[test]
fn rom_set_checks_the_sizes() {
    let roms = RomSet::from_images(vec![1; 0x2000], vec![2; 0x2000], vec![3; 0x1000]).unwrap();
    assert_eq!((roms.basic[0], roms.kernal[0], roms.char_rom[0]), (1, 2, 3));
    assert_eq!(
        RomSet::from_images(vec![0; 10], vec![0; 11], vec![0; 12]).err(),
        Some(RomError::BasicSize(10))
    );
    assert_eq!(
        RomSet::from_images(vec![0; 0x2000], vec![0; 11], vec![0; 12]).err(),
        Some(RomError::KernalSize(11))
    );
    assert_eq!(
        RomSet::from_images(vec![0; 0x2000], vec![0; 0x2000], vec![0; 0x2000]).err(),
        Some(RomError::CharSize(0x2000))
    );
}
