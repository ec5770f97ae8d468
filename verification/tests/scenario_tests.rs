use go64::cpu::addressing::AddressingMode;
use go64::cpu::traps::{DiskReply, DiskRequest, Trap};
use go64::cpu::{Cpu, DecodeError, StatusFlags};
use go64::machine::{advance, answer};
use go64::memory::{BasicMemory, C64Memory, Memory};
use go64::storage::{list_directory, DirEntry};

fn load(memory: &mut BasicMemory, addr: u16, bytes: &[u8]) {
    for (i, b) in bytes.iter().enumerate() {
        memory.write(addr.wrapping_add(i as u16), *b);
    }
}

#[test]
fn lda_immediate_takes_two_cycles_and_two_bytes() {
    let mut cpu = Cpu::new();
    let mut memory = BasicMemory::new();
    load(&mut memory, 0, &[0xA9, 0x42]);
    cpu.pc = 0;
    let cycles = cpu.step(&mut memory).unwrap();
    assert_eq!(cpu.a, 0x42);
    assert!(!cpu.status.zero);
    assert!(!cpu.status.negative);
    assert_eq!(cycles, 2);
    assert_eq!(cpu.pc, 2);
    assert_eq!(cpu.cycles, 2);
}

#[test]
fn adc_sets_overflow_when_two_positives_give_a_negative() {
    let mut cpu = Cpu::new();
    let mut memory = BasicMemory::new();
    load(&mut memory, 0, &[0x69, 0x50]);
    cpu.pc = 0;
    cpu.a = 0x50;
    cpu.status.carry = false;
    cpu.step(&mut memory).unwrap();
    assert_eq!(cpu.a, 0xA0);
    assert!(cpu.status.overflow);
    assert!(cpu.status.negative);
    assert!(!cpu.status.carry);
}

#[test]
fn adc_and_sbc_flags_on_edge_values() {
    let mut cpu = Cpu::new();
    let mut memory = BasicMemory::new();
    // 0x80 + 0x80 = 0x100: carry, overflow, zero
    load(&mut memory, 0, &[0x69, 0x80, 0xE9, 0x01, 0xE9, 0x01]);
    cpu.pc = 0;
    cpu.a = 0x80;
    cpu.step(&mut memory).unwrap();
    assert_eq!(cpu.a, 0x00);
    assert!(cpu.status.carry && cpu.status.overflow && cpu.status.zero);
    // 0x00 - 0x01 with carry set: 0xFF, borrow
    cpu.step(&mut memory).unwrap();
    assert_eq!(cpu.a, 0xFF);
    assert!(!cpu.status.carry && !cpu.status.overflow && cpu.status.negative);
    // 0x80 - 0x01 - borrow: 0x7E, overflow
    cpu.a = 0x80;
    cpu.step(&mut memory).unwrap();
    assert_eq!(cpu.a, 0x7E);
    assert!(cpu.status.carry && cpu.status.overflow && !cpu.status.negative);
}

#[test]
fn beq_taken_across_a_page_takes_four_cycles() {
    let mut cpu = Cpu::new();
    let mut memory = BasicMemory::new();
    load(&mut memory, 0x00FE, &[0xF0, 0x04]);
    cpu.pc = 0x00FE;
    cpu.status.zero = true;
    let cycles = cpu.step(&mut memory).unwrap();
    assert_eq!(cpu.pc, 0x0104);
    assert_eq!(cycles, 4);
}

#[test]
fn branch_cycles_without_page_cross_and_not_taken() {
    let mut cpu = Cpu::new();
    let mut memory = BasicMemory::new();
    load(&mut memory, 0x0200, &[0xD0, 0x10, 0xF0, 0xFC]);
    cpu.pc = 0x0200;
    cpu.status.zero = true;
    // BNE not taken
    assert_eq!(cpu.step(&mut memory).unwrap(), 2);
    assert_eq!(cpu.pc, 0x0202);
    // BEQ -4 taken within the page
    assert_eq!(cpu.step(&mut memory).unwrap(), 3);
    assert_eq!(cpu.pc, 0x0200);
}

#[test]
fn jsr_and_rts_round_trip() {
    let mut cpu = Cpu::new();
    let mut memory = BasicMemory::new();
    load(&mut memory, 0x1000, &[0x20, 0x00, 0x20]);
    load(&mut memory, 0x2000, &[0x60]);
    cpu.pc = 0x1000;
    let sp = cpu.sp;
    assert_eq!(cpu.step(&mut memory).unwrap(), 6);
    assert_eq!(cpu.pc, 0x2000);
    assert_eq!(cpu.sp, sp.wrapping_sub(2));
    assert_eq!(memory.read(0x0100 | sp as u16), 0x10);
    assert_eq!(memory.read(0x0100 | sp.wrapping_sub(1) as u16), 0x02);
    assert_eq!(cpu.step(&mut memory).unwrap(), 6);
    assert_eq!(cpu.pc, 0x1003);
    assert_eq!(cpu.sp, sp);
}

#[test]
fn jmp_indirect_wraps_within_the_page() {
    let mut cpu = Cpu::new();
    let mut memory = BasicMemory::new();
    memory.write(0x0200, 0xAA);
    memory.write(0x02FF, 0x34);
    memory.write(0x0300, 0x12);
    load(&mut memory, 0x1000, &[0x6C, 0xFF, 0x02]);
    cpu.pc = 0x1000;
    assert_eq!(cpu.step(&mut memory).unwrap(), 5);
    assert_eq!(cpu.pc, 0xAA34);
}

#[test]
fn jmp_indirect_off_the_page_edge_reads_the_next_byte() {
    let mut cpu = Cpu::new();
    let mut memory = BasicMemory::new();
    memory.write(0x0280, 0x78);
    memory.write(0x0281, 0x56);
    load(&mut memory, 0x1000, &[0x6C, 0x80, 0x02]);
    cpu.pc = 0x1000;
    cpu.step(&mut memory).unwrap();
    assert_eq!(cpu.pc, 0x5678);
}

#[test]
fn addressing_modes_resolve_and_consume_their_bytes() {
    let mut memory = BasicMemory::new();
    load(&mut memory, 0x1000, &[0xF0, 0x20]);
    memory.write(0x00EF, 0x34);
    memory.write(0x00F0, 0xFF);
    memory.write(0x00F1, 0x12);
    let cases = [
        (AddressingMode::Implied, 0x1000, false, 0x1000),
        (AddressingMode::Immediate, 0x1000, false, 0x1001),
        (AddressingMode::ZeroPage, 0x00F0, false, 0x1001),
        (AddressingMode::ZeroPageX, 0x000F, false, 0x1001),
        (AddressingMode::ZeroPageY, 0x00F1, false, 0x1001),
        (AddressingMode::Absolute, 0x20F0, false, 0x1002),
        (AddressingMode::AbsoluteX, 0x210F, true, 0x1002),
        (AddressingMode::AbsoluteY, 0x20F1, false, 0x1002),
        (AddressingMode::IndirectX, 0x0000, false, 0x1001),
        (AddressingMode::IndirectY, 0x1300, true, 0x1001),
        (AddressingMode::Relative, 0x0FF1, true, 0x1001),
    ];
    for (mode, address, crossed, pc) in cases {
        let mut cpu = Cpu::new();
        cpu.pc = 0x1000;
        cpu.x = 0x1F;
        cpu.y = 0x01;
        let result = cpu.get_operand_address(&memory, mode);
        assert_eq!(result.address, address, "{:?}", mode);
        assert_eq!(result.page_crossed, crossed, "{:?}", mode);
        assert_eq!(cpu.pc, pc, "{:?}", mode);
    }
}

#[test]
fn page_cross_costs_a_cycle_on_reads_only() {
    let mut cpu = Cpu::new();
    let mut memory = BasicMemory::new();
    // LDA $20F0,X ; STA $20F0,X ; INC $20F0,X ; LDA ($F0),Y
    load(&mut memory, 0x1000, &[0xBD, 0xF0, 0x20, 0x9D, 0xF0, 0x20, 0xFE, 0xF0, 0x20, 0xB1, 0xF0]);
    memory.write(0x00F0, 0xFF);
    memory.write(0x00F1, 0x12);
    cpu.pc = 0x1000;
    cpu.x = 0x1F;
    cpu.y = 0x01;
    assert_eq!(cpu.step(&mut memory).unwrap(), 5);
    assert_eq!(cpu.step(&mut memory).unwrap(), 5);
    assert_eq!(cpu.step(&mut memory).unwrap(), 7);
    assert_eq!(cpu.step(&mut memory).unwrap(), 6);
    cpu.pc = 0x1000;
    cpu.x = 0x01;
    assert_eq!(cpu.step(&mut memory).unwrap(), 4);
    assert_eq!(cpu.cycles, 27);
}

#[test]
fn undocumented_opcode_is_a_fault_with_its_address() {
    let mut cpu = Cpu::new();
    let mut memory = BasicMemory::new();
    memory.write(0x1234, 0x02);
    cpu.pc = 0x1234;
    cpu.a = 7;
    let fault = cpu.step(&mut memory).unwrap_err();
    assert_eq!(fault, DecodeError { opcode: 0x02, pc: 0x1234 });
    assert_eq!(fault.message(), "Unimplemented opcode: 0x02 at PC: 0x1234");
    assert_eq!(cpu.a, 7);
    assert_eq!(cpu.pc, 0x1235);
    assert_eq!(cpu.cycles, 0);
}

#[test]
fn every_byte_is_either_documented_or_a_fault() {
    let mut documented = 0;
    for opcode in 0..=255u8 {
        let mut cpu = Cpu::new();
        let mut memory = BasicMemory::new();
        memory.write(0x1000, opcode);
        cpu.pc = 0x1000;
        match cpu.step(&mut memory) {
            Ok(cycles) => {
                documented += 1;
                assert!((2..=7).contains(&cycles), "opcode {:02X}", opcode);
            }
            Err(fault) => assert_eq!(fault, DecodeError { opcode, pc: 0x1000 }),
        }
    }
    assert_eq!(documented, 151);
}

#[test]
fn status_byte_round_trip() {
    for b in 0..=255u8 {
        assert_eq!(StatusFlags::from_byte(b).as_byte(), b | 0x20);
    }
    assert_eq!(StatusFlags::new().as_byte(), 0x24);
}

#[test]
fn reset_loads_the_vector_and_disables_interrupts() {
    let mut cpu = Cpu::new();
    let mut memory = BasicMemory::new();
    memory.write(0xFFFC, 0xE2);
    memory.write(0xFFFD, 0xFC);
    cpu.a = 1;
    cpu.sp = 0;
    cpu.cycles = 99;
    cpu.status.interrupt = false;
    cpu.reset(&memory);
    assert_eq!(cpu.pc, 0xFCE2);
    assert_eq!(cpu.sp, 0xFD);
    assert_eq!(cpu.a, 0);
    assert_eq!(cpu.cycles, 0);
    assert!(cpu.status.interrupt);
    assert!(cpu.status.unused);
}

#[test]
fn irq_pushes_pc_and_status_and_jumps_through_the_vector() {
    let mut cpu = Cpu::new();
    let mut memory = BasicMemory::new();
    memory.write(0xFFFE, 0x48);
    memory.write(0xFFFF, 0xFF);
    cpu.pc = 0x1234;
    cpu.status = StatusFlags::from_byte(0b1101_0011);
    cpu.sp = 0xFD;
    cpu.irq(&mut memory);
    assert_eq!(memory.read(0x01FD), 0x12);
    assert_eq!(memory.read(0x01FC), 0x34);
    // B (bit 4) clear, bit 5 set
    assert_eq!(memory.read(0x01FB), 0b1110_0011);
    assert_eq!(cpu.sp, 0xFA);
    assert!(cpu.status.interrupt);
    assert_eq!(cpu.pc, 0xFF48);
    assert_eq!(cpu.cycles, 7);
}

#[test]
fn irq_is_ignored_while_interrupts_are_disabled() {
    let mut cpu = Cpu::new();
    let mut memory = BasicMemory::new();
    cpu.pc = 0x1234;
    assert!(cpu.status.interrupt);
    cpu.irq(&mut memory);
    assert_eq!(cpu.pc, 0x1234);
    assert_eq!(cpu.sp, 0xFD);
    assert_eq!(cpu.cycles, 0);
    assert_eq!(memory.read(0x01FD), 0);
}

#[test]
fn nmi_is_taken_with_interrupts_disabled_and_pushes_b_clear() {
    let mut cpu = Cpu::new();
    let mut memory = BasicMemory::new();
    memory.write(0xFFFA, 0x47);
    memory.write(0xFFFB, 0xFE);
    cpu.pc = 0xC000;
    cpu.status.break_flag = true;
    cpu.nmi(&mut memory);
    assert_eq!(cpu.pc, 0xFE47);
    assert_eq!(memory.read(0x01FD), 0xC0);
    assert_eq!(memory.read(0x01FC), 0x00);
    assert_eq!(memory.read(0x01FB) & 0x30, 0x20);
    assert_eq!(cpu.cycles, 7);
}

#[test]
fn brk_and_rti() {
    let mut cpu = Cpu::new();
    let mut memory = BasicMemory::new();
    memory.write(0xFFFE, 0x00);
    memory.write(0xFFFF, 0x30);
    load(&mut memory, 0x1000, &[0x00, 0xFF]);
    load(&mut memory, 0x3000, &[0x40]);
    cpu.pc = 0x1000;
    cpu.status.interrupt = false;
    cpu.status.carry = true;
    assert_eq!(cpu.step(&mut memory).unwrap(), 7);
    assert_eq!(cpu.pc, 0x3000);
    assert!(cpu.status.interrupt && cpu.status.break_flag);
    assert_eq!(memory.read(0x01FD), 0x10);
    assert_eq!(memory.read(0x01FC), 0x02);
    assert_eq!(memory.read(0x01FB), 0x31);
    assert_eq!(cpu.step(&mut memory).unwrap(), 6);
    assert_eq!(cpu.pc, 0x1002);
    assert_eq!(cpu.sp, 0xFD);
    assert!(!cpu.status.interrupt && cpu.status.carry && cpu.status.unused);
}

#[test]
fn php_plp_force_bit_five() {
    let mut cpu = Cpu::new();
    let mut memory = BasicMemory::new();
    load(&mut memory, 0x1000, &[0x08, 0x28]);
    cpu.pc = 0x1000;
    cpu.status = StatusFlags::from_byte(0x00);
    assert_eq!(cpu.step(&mut memory).unwrap(), 3);
    assert_eq!(memory.read(0x01FD), 0x30);
    memory.write(0x01FD, 0x00);
    assert_eq!(cpu.step(&mut memory).unwrap(), 4);
    assert_eq!(cpu.status.as_byte(), 0x20);
}

#[test]
fn stack_wraps_within_page_one() {
    let mut cpu = Cpu::new();
    let mut memory = BasicMemory::new();
    cpu.sp = 0x00;
    cpu.push_word(&mut memory, 0xBEEF);
    assert_eq!(cpu.sp, 0xFE);
    assert_eq!(memory.read(0x0100), 0xBE);
    assert_eq!(memory.read(0x01FF), 0xEF);
    assert_eq!(cpu.pop_word(&memory), 0xBEEF);
    assert_eq!(cpu.sp, 0x00);
}

#[test]
fn cia_jiffy_interrupt_fires_once() {
    let mut cpu = Cpu::new();
    let mut memory = C64Memory::new();
    // An endless loop in RAM, with interrupts disabled.
    memory.write(0x1000, 0x4C);
    memory.write(0x1001, 0x00);
    memory.write(0x1002, 0x10);
    cpu.pc = 0x1000;
    memory.write(0xDC04, 0x25);
    memory.write(0xDC05, 0x40);
    memory.write(0xDC0E, 0x01);
    memory.write(0xDC0D, 0x81);
    let mut requests = 0;
    let mut total: u64 = 0;
    while total < 16421 {
        let cycles = cpu.step(&mut memory).unwrap();
        if memory.tick(cycles) {
            requests += 1;
        }
        total += cycles as u64;
    }
    assert_eq!(requests, 1);
    assert_eq!(memory.read(0xDC0D), 0x81);
    // The read is completed by the device seeing it: the flags are cleared.
    memory.acknowledge(0xDC0D);
    assert_eq!(memory.read(0xDC0D), 0x00);
}

#[test]
fn reading_the_interrupt_register_by_program_clears_it() {
    let mut cpu = Cpu::new();
    let mut memory = C64Memory::new();
    // LDA $DC0D twice
    for (i, b) in [0xAD, 0x0D, 0xDC, 0xAD, 0x0D, 0xDC].iter().enumerate() {
        memory.write(0x1000 + i as u16, *b);
    }
    memory.cia1.icr = 0x81;
    cpu.pc = 0x1000;
    cpu.step(&mut memory).unwrap();
    assert_eq!(cpu.a, 0x81);
    cpu.step(&mut memory).unwrap();
    assert_eq!(cpu.a, 0x00);
}

#[test]
fn machine_takes_the_interrupt_when_enabled() {
    let mut cpu = Cpu::new();
    let mut memory = C64Memory::new();
    memory.write(0x1000, 0x4C);
    memory.write(0x1001, 0x00);
    memory.write(0x1002, 0x10);
    memory.write(0xFFFE, 0x00);
    memory.write(0xFFFF, 0x20);
    // Bank the KERNAL out so that the vector is read from RAM.
    memory.write(0x0001, 0x35);
    memory.write(0xDC04, 0x05);
    memory.write(0xDC05, 0x00);
    memory.write(0xDC0D, 0x81);
    cpu.pc = 0x1000;
    cpu.status.interrupt = false;
    assert_eq!(advance(&mut cpu, &mut memory).unwrap(), 3);
    assert_eq!(cpu.pc, 0x1000);
    assert_eq!(advance(&mut cpu, &mut memory).unwrap(), 3);
    assert_eq!(cpu.pc, 0x2000);
    assert!(cpu.status.interrupt);
    assert_eq!(cpu.cycles, 13);
    assert_eq!(memory.cia1.icr, 0x81);
}

fn prepare_trap(cpu: &mut Cpu, memory: &mut C64Memory, entry: u16, device: u8, name: &[u8]) {
    for (i, b) in name.iter().enumerate() {
        memory.write(0x0340 + i as u16, *b);
    }
    memory.write(0xB7, name.len() as u8);
    memory.write(0xBB, 0x40);
    memory.write(0xBC, 0x03);
    memory.write(0xBA, device);
    // The caller's JSR sits at $1000.
    cpu.push_word(memory, 0x1002);
    cpu.pc = entry;
}

#[test]
fn load_of_the_directory_makes_a_basic_listing() {
    let mut cpu = Cpu::new();
    let mut memory = C64Memory::new();
    prepare_trap(&mut cpu, &mut memory, 0xFFD5, 8, b"$");
    memory.write(0xB9, 1);
    let request = match cpu.trap(&memory) {
        Trap::Disk(request) => request,
        _ => panic!("no disk request"),
    };
    assert!(matches!(request, DiskRequest::Directory));
    // HELLO.PRG holds a load address and 300 bytes.
    let (start, data) = list_directory(&vec![DirEntry { name: b"HELLO.PRG".to_vec(), size: 302 }]);
    assert_eq!(start, 0x0801);
    let length = data.len() as u16;
    let cycles = cpu.resume(&mut memory, &request, DiskReply::Program { start, data });
    assert_eq!(cycles, 6);
    assert_eq!(cpu.pc, 0x1003);
    assert_eq!(cpu.sp, 0xFD);
    assert!(!cpu.status.carry);
    let header = b"\"FLOPPY DISK\"     ID 2A";
    // Header line: link, line number 0, text, zero.
    assert_eq!(memory.read(0x0801), 0x1D);
    assert_eq!(memory.read(0x0802), 0x08);
    assert_eq!(memory.read(0x0803), 0);
    assert_eq!(memory.read(0x0804), 0);
    for (i, b) in header.iter().enumerate() {
        assert_eq!(memory.read(0x0805 + i as u16), *b);
    }
    assert_eq!(memory.read(0x081C), 0);
    // The line of HELLO: 302 bytes are two blocks.
    assert_eq!(memory.read(0x081D), 0x37);
    assert_eq!(memory.read(0x081E), 0x08);
    assert_eq!(memory.read(0x081F), 2);
    assert_eq!(memory.read(0x0820), 0);
    let text = b"\"HELLO\"           PRG";
    for (i, b) in text.iter().enumerate() {
        assert_eq!(memory.read(0x0821 + i as u16), *b);
    }
    assert_eq!(memory.read(0x0836), 0);
    // The trailer and the end of the program.
    assert_eq!(memory.read(0x0839), 0x98);
    assert_eq!(memory.read(0x083A), 0x02);
    for (i, b) in b"BLOCKS FREE.".iter().enumerate() {
        assert_eq!(memory.read(0x083B + i as u16), *b);
    }
    let end = 0x0801 + length;
    assert_eq!(memory.read(end - 2), 0);
    assert_eq!(memory.read(end - 1), 0);
    assert_eq!((cpu.x, cpu.y), ((end & 0xFF) as u8, (end >> 8) as u8));
    for pointer in [0xAE, 0x2D, 0x2F, 0x31] {
        assert_eq!(memory.read(pointer), (end & 0xFF) as u8);
        assert_eq!(memory.read(pointer + 1), (end >> 8) as u8);
    }
}

#[test]
fn load_goes_to_x_and_y_when_the_secondary_address_is_zero() {
    let mut cpu = Cpu::new();
    let mut memory = C64Memory::new();
    prepare_trap(&mut cpu, &mut memory, 0xFFD5, 8, b"GAME");
    memory.write(0xB9, 0);
    cpu.x = 0x00;
    cpu.y = 0xC0;
    let request = match cpu.trap(&memory) {
        Trap::Disk(request) => request,
        _ => panic!("no disk request"),
    };
    match &request {
        DiskRequest::Load { name } => assert_eq!(name, b"GAME"),
        _ => panic!("no load"),
    }
    let reply = DiskReply::Program { start: 0x0801, data: vec![1, 2, 3] };
    cpu.resume(&mut memory, &request, reply);
    assert_eq!(memory.read(0xC000), 1);
    assert_eq!(memory.read(0xC002), 3);
    assert_eq!(memory.read(0x0801), 0);
    assert_eq!((cpu.x, cpu.y), (0x03, 0xC0));
    assert!(!cpu.status.carry);
    assert_eq!(cpu.pc, 0x1003);
}

#[test]
fn load_of_a_missing_file_reports_file_not_found() {
    let mut cpu = Cpu::new();
    let mut memory = C64Memory::new();
    prepare_trap(&mut cpu, &mut memory, 0xFFD5, 8, b"NOPE");
    let request = match cpu.trap(&memory) {
        Trap::Disk(request) => request,
        _ => panic!("no disk request"),
    };
    cpu.resume(&mut memory, &request, DiskReply::NotFound);
    assert!(cpu.status.carry);
    assert_eq!(cpu.a, 4);
    assert_eq!(cpu.pc, 0x1003);
}

#[test]
fn tape_is_not_present() {
    for entry in [0xFFD5u16, 0xFFD8] {
        let mut cpu = Cpu::new();
        let mut memory = C64Memory::new();
        prepare_trap(&mut cpu, &mut memory, entry, 1, b"X");
        assert!(matches!(cpu.trap(&memory), Trap::Refused { code: Some(5) }));
        assert_eq!(cpu.step(&mut memory).unwrap(), 6);
        assert!(cpu.status.carry);
        assert_eq!(cpu.a, 5);
        assert_eq!(cpu.pc, 0x1003);
        assert_eq!(cpu.cycles, 0);
    }
}

#[test]
fn other_devices_are_no_trap() {
    let mut cpu = Cpu::new();
    let mut memory = C64Memory::new();
    prepare_trap(&mut cpu, &mut memory, 0xFFD5, 4, b"X");
    assert!(matches!(cpu.trap(&memory), Trap::NoTrap));
    cpu.pc = 0x1000;
    memory.write(0xBA, 8);
    assert!(matches!(cpu.trap(&memory), Trap::NoTrap));
}

#[test]
fn save_collects_the_bytes_and_reports_the_outcome() {
    let mut cpu = Cpu::new();
    let mut memory = C64Memory::new();
    prepare_trap(&mut cpu, &mut memory, 0xFFD8, 8, b"OUT");
    for (i, b) in [9u8, 8, 7, 6].iter().enumerate() {
        memory.write(0x2000 + i as u16, *b);
    }
    memory.write(0xFB, 0x00);
    memory.write(0xFC, 0x20);
    cpu.a = 0xFB;
    cpu.x = 0x04;
    cpu.y = 0x20;
    let request = match cpu.trap(&memory) {
        Trap::Disk(request) => request,
        _ => panic!("no disk request"),
    };
    match &request {
        DiskRequest::Save { name, start, data } => {
            assert_eq!(name, b"OUT");
            assert_eq!(*start, 0x2000);
            assert_eq!(data, &vec![9, 8, 7, 6]);
        }
        _ => panic!("no save"),
    }
    cpu.status.carry = true;
    let sp = cpu.sp;
    assert_eq!(cpu.resume(&mut memory, &request, DiskReply::Saved), 6);
    assert!(!cpu.status.carry);
    assert_eq!(cpu.pc, 0x1003);
    // The same request, failing on the host.
    cpu.sp = sp;
    cpu.resume(&mut memory, &request, DiskReply::WriteFailed);
    assert!(cpu.status.carry);
    assert_eq!(cpu.a, 26);
}

#[test]
fn save_of_an_empty_range_is_refused() {
    let mut cpu = Cpu::new();
    let mut memory = C64Memory::new();
    prepare_trap(&mut cpu, &mut memory, 0xFFD8, 8, b"OUT");
    memory.write(0xFB, 0x00);
    memory.write(0xFC, 0x20);
    cpu.a = 0xFB;
    cpu.x = 0x00;
    cpu.y = 0x20;
    assert!(matches!(cpu.trap(&memory), Trap::Refused { code: None }));
    cpu.step(&mut memory).unwrap();
    assert!(cpu.status.carry);
    assert_eq!(cpu.a, 0xFB);
    assert_eq!(cpu.pc, 0x1003);
}

#[test]
fn step_alone_serves_disk_calls_as_with_no_disk() {
    let mut cpu = Cpu::new();
    let mut memory = C64Memory::new();
    prepare_trap(&mut cpu, &mut memory, 0xFFD5, 8, b"GAME");
    assert_eq!(cpu.step(&mut memory).unwrap(), 6);
    assert!(cpu.status.carry);
    assert_eq!(cpu.a, 4);
    assert_eq!(cpu.pc, 0x1003);
    assert_eq!(cpu.cycles, 0);

    let mut cpu = Cpu::new();
    let mut memory = C64Memory::new();
    prepare_trap(&mut cpu, &mut memory, 0xFFD8, 8, b"GAME");
    memory.write(0xFB, 0x00);
    memory.write(0xFC, 0x20);
    cpu.a = 0xFB;
    cpu.x = 0x10;
    cpu.y = 0x20;
    assert_eq!(advance(&mut cpu, &mut memory).unwrap(), 6);
    assert!(cpu.status.carry);
    assert_eq!(cpu.a, 26);
    assert_eq!(cpu.pc, 0x1003);
}

#[test]
fn answered_trap_lets_the_chips_catch_up() {
    let mut cpu = Cpu::new();
    let mut memory = C64Memory::new();
    prepare_trap(&mut cpu, &mut memory, 0xFFD5, 8, b"GAME");
    memory.write(0xB9, 1);
    // Timer A of CIA1 has four cycles left and may interrupt.
    memory.write(0xDC04, 0x04);
    memory.write(0xDC05, 0x00);
    memory.write(0xDC0D, 0x81);
    memory.write(0x0001, 0x35);
    memory.write(0xFFFE, 0x00);
    memory.write(0xFFFF, 0x20);
    cpu.status.interrupt = false;
    let request = match cpu.trap(&memory) {
        Trap::Disk(request) => request,
        _ => panic!("no disk request"),
    };
    let reply = DiskReply::Program { start: 0x3000, data: vec![0xAA, 0xBB] };
    assert_eq!(answer(&mut cpu, &mut memory, &request, reply), 6);
    assert_eq!(memory.read(0x3000), 0xAA);
    assert_eq!(memory.read(0x3001), 0xBB);
    assert_eq!((cpu.x, cpu.y), (0x02, 0x30));
    // The trap returned to $1003, then the interrupt was taken from there.
    assert_eq!(cpu.pc, 0x2000);
    assert_eq!(memory.read(0x01FD), 0x10);
    assert_eq!(memory.read(0x01FC), 0x03);
    assert!(cpu.status.interrupt);
    assert_eq!(cpu.cycles, 7);
    assert_eq!(memory.cia1.icr, 0x81);
    assert_eq!(memory.vic.cycle_count(), 6);
}
