use go64::cpu::{Cpu, StatusFlags};
use go64::memory::{BasicMemory, Memory};

/// Runs the program `code` at `$0200` for `steps` instructions.
fn run(cpu: &mut Cpu, memory: &mut BasicMemory, code: &[u8], steps: usize) -> Vec<u8> {
    for (i, b) in code.iter().enumerate() {
        memory.write(0x0200 + i as u16, *b);
    }
    cpu.pc = 0x0200;
    (0..steps).map(|_| cpu.step(memory).unwrap()).collect()
}

#[test]
fn transfers_set_zero_and_negative_but_txs_does_not() {
    let mut cpu = Cpu::new();
    let mut memory = BasicMemory::new();
    cpu.a = 0x80;
    cpu.x = 0x00;
    // TAY, TXA, TSX, TXS
    let cycles = run(&mut cpu, &mut memory, &[0xA8, 0x8A, 0xBA, 0x9A], 2);
    assert_eq!(cycles, vec![2, 2]);
    assert_eq!(cpu.y, 0x80);
    assert_eq!(cpu.a, 0x00);
    assert!(cpu.status.zero && !cpu.status.negative);
    cpu.step(&mut memory).unwrap();
    assert_eq!(cpu.x, 0xFD);
    assert!(!cpu.status.zero && cpu.status.negative);
    cpu.x = 0x00;
    cpu.step(&mut memory).unwrap();
    assert_eq!(cpu.sp, 0x00);
    assert!(!cpu.status.zero && cpu.status.negative);
}

#[test]
fn register_increments_wrap() {
    let mut cpu = Cpu::new();
    let mut memory = BasicMemory::new();
    cpu.x = 0xFF;
    cpu.y = 0x00;
    // INX, DEY, INY, DEX
    run(&mut cpu, &mut memory, &[0xE8, 0x88, 0xC8, 0xCA], 2);
    assert_eq!((cpu.x, cpu.y), (0x00, 0xFF));
    assert!(cpu.status.negative && !cpu.status.zero);
    cpu.step(&mut memory).unwrap();
    assert_eq!(cpu.y, 0x00);
    assert!(cpu.status.zero);
    cpu.step(&mut memory).unwrap();
    assert_eq!(cpu.x, 0xFF);
}

#[test]
fn flag_instructions() {
    let mut cpu = Cpu::new();
    let mut memory = BasicMemory::new();
    cpu.status = StatusFlags::from_byte(0b0100_0000);
    // SEC, SED, SEI, CLV
    run(&mut cpu, &mut memory, &[0x38, 0xF8, 0x78, 0xB8, 0x18, 0xD8, 0x58], 4);
    assert_eq!(cpu.status.as_byte(), 0b0010_1101);
    // CLC, CLD, CLI
    for _ in 0..3 {
        assert_eq!(cpu.step(&mut memory).unwrap(), 2);
    }
    assert_eq!(cpu.status.as_byte(), 0b0010_0000);
}

#[test]
fn compares_of_x_and_y() {
    let mut cpu = Cpu::new();
    let mut memory = BasicMemory::new();
    cpu.x = 0x10;
    cpu.y = 0x10;
    memory.write(0x0040, 0x11);
    // CPX #$0F, CPY $40, CPX $0040
    let cycles = run(&mut cpu, &mut memory, &[0xE0, 0x0F, 0xC4, 0x40, 0xEC, 0x40, 0x00], 1);
    assert_eq!(cycles, vec![2]);
    assert!(cpu.status.carry && !cpu.status.zero && !cpu.status.negative);
    assert_eq!(cpu.step(&mut memory).unwrap(), 3);
    assert!(!cpu.status.carry && !cpu.status.zero && cpu.status.negative);
    assert_eq!(cpu.step(&mut memory).unwrap(), 4);
    assert!(!cpu.status.carry);
    assert_eq!((cpu.x, cpu.y), (0x10, 0x10));
}

#[test]
fn shifts_and_rotates_in_memory() {
    let mut cpu = Cpu::new();
    let mut memory = BasicMemory::new();
    memory.write(0x0040, 0x81);
    cpu.x = 0x01;
    cpu.status.carry = false;
    // ASL $40, ROL $40, LSR $3F,X, ROR $0040, ROR $003F,X
    let code = [0x06, 0x40, 0x26, 0x40, 0x56, 0x3F, 0x6E, 0x40, 0x00, 0x7E, 0x3F, 0x00];
    let cycles = run(&mut cpu, &mut memory, &code, 5);
    assert_eq!(cycles, vec![5, 5, 6, 6, 7]);
    // 0x81 -> 0x02 (C) -> 0x05 -> 0x02 (C) -> 0x81 (C clear) -> 0x40 (C)
    assert_eq!(memory.read(0x0040), 0x40);
    assert!(cpu.status.carry);
    assert!(!cpu.status.negative && !cpu.status.zero);
}

#[test]
fn loads_and_stores_through_every_mode() {
    let mut cpu = Cpu::new();
    let mut memory = BasicMemory::new();
    memory.write(0x0010, 0x00);
    memory.write(0x0011, 0x30);
    memory.write(0x3005, 0x77);
    cpu.x = 0x04;
    cpu.y = 0x05;
    // LDA ($10),Y ; STA ($0C,X) ; LDX $3000,Y ; STX $10,Y ; LDY $3001,X ; STY $11,X
    let code = [0xB1, 0x10, 0x81, 0x0C, 0xBE, 0x00, 0x30, 0x96, 0x10, 0xBC, 0x01, 0x30, 0x94, 0x11];
    let cycles = run(&mut cpu, &mut memory, &code, 6);
    assert_eq!(cycles, vec![5, 6, 4, 4, 4, 4]);
    assert_eq!(cpu.a, 0x77);
    assert_eq!(memory.read(0x3000), 0x77);
    assert_eq!(cpu.x, 0x77);
    assert_eq!(memory.read(0x0015), 0x77);
    assert_eq!(cpu.y, 0x00);
    assert_eq!(memory.read(0x0088), 0x00);
    assert!(cpu.status.zero);
}

#[test]
fn zero_page_indexing_wraps_within_page_zero() {
    let mut cpu = Cpu::new();
    let mut memory = BasicMemory::new();
    memory.write(0x000F, 0x42);
    memory.write(0x010F, 0x99);
    memory.write(0x00FF, 0x00);
    memory.write(0x0000, 0x40);
    memory.write(0x4000, 0x55);
    cpu.x = 0x10;
    // LDA $FF,X ; LDA ($EF,X)
    run(&mut cpu, &mut memory, &[0xB5, 0xFF, 0xA1, 0xEF], 1);
    assert_eq!(cpu.a, 0x42);
    cpu.step(&mut memory).unwrap();
    assert_eq!(cpu.a, 0x55);
}

#[test]
fn pha_and_pla() {
    let mut cpu = Cpu::new();
    let mut memory = BasicMemory::new();
    cpu.a = 0x80;
    // PHA ; LDA #$01 ; PLA
    let cycles = run(&mut cpu, &mut memory, &[0x48, 0xA9, 0x01, 0x68], 3);
    assert_eq!(cycles, vec![3, 2, 4]);
    assert_eq!(cpu.a, 0x80);
    assert!(cpu.status.negative && !cpu.status.zero);
    assert_eq!(cpu.sp, 0xFD);
    assert_eq!(cpu.cycles, 9);
}

#[test]
fn inc_and_dec_leave_carry_alone_and_wrap() {
    let mut cpu = Cpu::new();
    let mut memory = BasicMemory::new();
    memory.write(0x3000, 0xFF);
    cpu.status.carry = true;
    cpu.x = 0;
    // INC $3000 ; DEC $3000,X
    let cycles = run(&mut cpu, &mut memory, &[0xEE, 0x00, 0x30, 0xDE, 0x00, 0x30], 1);
    assert_eq!(cycles, vec![6]);
    assert_eq!(memory.read(0x3000), 0x00);
    assert!(cpu.status.zero && cpu.status.carry);
    assert_eq!(cpu.step(&mut memory).unwrap(), 7);
    assert_eq!(memory.read(0x3000), 0xFF);
    assert!(cpu.status.negative && cpu.status.carry);
}

#[test]
fn bit_leaves_the_accumulator_alone() {
    let mut cpu = Cpu::new();
    let mut memory = BasicMemory::new();
    memory.write(0x3000, 0x41);
    cpu.a = 0x01;
    let cycles = run(&mut cpu, &mut memory, &[0x2C, 0x00, 0x30], 1);
    assert_eq!(cycles, vec![4]);
    assert_eq!(cpu.a, 0x01);
    assert!(!cpu.status.zero && !cpu.status.negative && cpu.status.overflow);
}

#[test]
fn branches_follow_their_flags() {
    // (opcode, status byte for which the branch is taken)
    let table = [
        (0x10u8, 0x00u8, 0x80u8),
        (0x30, 0x80, 0x00),
        (0x50, 0x00, 0x40),
        (0x70, 0x40, 0x00),
        (0x90, 0x00, 0x01),
        (0xB0, 0x01, 0x00),
        (0xD0, 0x00, 0x02),
        (0xF0, 0x02, 0x00),
    ];
    for (opcode, taken, not_taken) in table {
        let mut cpu = Cpu::new();
        let mut memory = BasicMemory::new();
        cpu.status = StatusFlags::from_byte(taken);
        assert_eq!(run(&mut cpu, &mut memory, &[opcode, 0x7F], 1), vec![3]);
        assert_eq!(cpu.pc, 0x0281);
        cpu.status = StatusFlags::from_byte(not_taken);
        assert_eq!(run(&mut cpu, &mut memory, &[opcode, 0x80], 1), vec![2]);
        assert_eq!(cpu.pc, 0x0202);
        cpu.status = StatusFlags::from_byte(taken);
        assert_eq!(run(&mut cpu, &mut memory, &[opcode, 0x80], 1), vec![4]);
        assert_eq!(cpu.pc, 0x0182);
    }
}
