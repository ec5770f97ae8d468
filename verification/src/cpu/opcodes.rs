//! The interpreter: one function per operation, and the dispatch on the
//! opcode byte.

use crate::cpu::addressing::AddressingMode;
use crate::cpu::instruction::{
    added, branched, decode, memory_effect, modify_cycles, outcome, perform, read_cycles,
    register_effect, store_cycles, subtracted, Operation,
};
use crate::cpu::{word, Cpu, DecodeError, StatusFlags, IRQ_VECTOR};
use crate::memory::Memory;
use vstd::prelude::*;

verus! {

/// The word with low byte `lo` and high byte `hi`.
fn join(lo: u8, hi: u8) -> (value: u16)
    ensures
        value == word(lo, hi),
{
    ((hi as u16) << 8) | (lo as u16)
}

/// Reads the operand at `addr` and lets the device behind it see the read.
fn fetch<M: Memory>(memory: &mut M, addr: u16) -> (value: u8)
    ensures
        value == M::peek(old(memory).state(), addr),
        final(memory).state() == M::settle(old(memory).state(), addr),
{
    let value = memory.read(addr);
    memory.acknowledge(addr);
    value
}

fn read_cost(mode: AddressingMode, page_crossed: bool) -> (cycles: u8)
    ensures
        cycles == read_cycles(mode, page_crossed),
{
    let penalty: u8 = if page_crossed { 1 } else { 0 };
    match mode {
        AddressingMode::Immediate => 2,
        AddressingMode::ZeroPage => 3,
        AddressingMode::ZeroPageX | AddressingMode::ZeroPageY | AddressingMode::Absolute => 4,
        AddressingMode::AbsoluteX | AddressingMode::AbsoluteY => 4 + penalty,
        AddressingMode::IndirectX => 6,
        AddressingMode::IndirectY => 5 + penalty,
        _ => 0,
    }
}

fn store_cost(mode: AddressingMode) -> (cycles: u8)
    ensures
        cycles == store_cycles(mode),
{
    match mode {
        AddressingMode::ZeroPage => 3,
        AddressingMode::ZeroPageX | AddressingMode::ZeroPageY | AddressingMode::Absolute => 4,
        AddressingMode::AbsoluteX | AddressingMode::AbsoluteY => 5,
        AddressingMode::IndirectX | AddressingMode::IndirectY => 6,
        _ => 0,
    }
}

fn modify_cost(mode: AddressingMode) -> (cycles: u8)
    ensures
        cycles == modify_cycles(mode),
{
    match mode {
        AddressingMode::Implied => 2,
        AddressingMode::ZeroPage => 5,
        AddressingMode::ZeroPageX | AddressingMode::Absolute => 6,
        AddressingMode::AbsoluteX => 7,
        _ => 0,
    }
}

/// Executes the instruction whose opcode byte was just fetched: the
/// program counter is at its first operand byte.
///
/// For a documented opcode the registers, the memory and the returned cycle
/// count are those of [`perform`] on the table's row. Any other byte changes
/// nothing and is reported with the address it was fetched from.
#[verifier::rlimit(40)]
pub fn execute<M: Memory>(cpu: &mut Cpu, memory: &mut M, opcode: u8) -> (result: Result<
    u8,
    DecodeError,
>)
    ensures
        match decode(opcode) {
            Some(instruction) => result matches Ok(cycles) && outcome(
                *final(cpu),
                *final(memory),
                cycles,
            ) == perform::<M>(instruction.op, instruction.mode, *old(cpu), old(memory).state()),
            None => result == Err::<u8, DecodeError>(
                DecodeError { opcode, pc: old(cpu).pc.wrapping_sub(1) },
            ) && *final(cpu) == *old(cpu) && final(memory).state() == old(memory).state(),
        },
{
    match opcode {
        // LDA
        0xA9 => return Ok(lda(cpu, memory, AddressingMode::Immediate)),
        0xA5 => return Ok(lda(cpu, memory, AddressingMode::ZeroPage)),
        0xB5 => return Ok(lda(cpu, memory, AddressingMode::ZeroPageX)),
        0xAD => return Ok(lda(cpu, memory, AddressingMode::Absolute)),
        0xBD => return Ok(lda(cpu, memory, AddressingMode::AbsoluteX)),
        0xB9 => return Ok(lda(cpu, memory, AddressingMode::AbsoluteY)),
        0xA1 => return Ok(lda(cpu, memory, AddressingMode::IndirectX)),
        0xB1 => return Ok(lda(cpu, memory, AddressingMode::IndirectY)),
        // LDX
        0xA2 => return Ok(ldx(cpu, memory, AddressingMode::Immediate)),
        0xA6 => return Ok(ldx(cpu, memory, AddressingMode::ZeroPage)),
        0xB6 => return Ok(ldx(cpu, memory, AddressingMode::ZeroPageY)),
        0xAE => return Ok(ldx(cpu, memory, AddressingMode::Absolute)),
        0xBE => return Ok(ldx(cpu, memory, AddressingMode::AbsoluteY)),
        // LDY
        0xA0 => return Ok(ldy(cpu, memory, AddressingMode::Immediate)),
        0xA4 => return Ok(ldy(cpu, memory, AddressingMode::ZeroPage)),
        0xB4 => return Ok(ldy(cpu, memory, AddressingMode::ZeroPageX)),
        0xAC => return Ok(ldy(cpu, memory, AddressingMode::Absolute)),
        0xBC => return Ok(ldy(cpu, memory, AddressingMode::AbsoluteX)),
        // STA
        0x85 => return Ok(sta(cpu, memory, AddressingMode::ZeroPage)),
        0x95 => return Ok(sta(cpu, memory, AddressingMode::ZeroPageX)),
        0x8D => return Ok(sta(cpu, memory, AddressingMode::Absolute)),
        0x9D => return Ok(sta(cpu, memory, AddressingMode::AbsoluteX)),
        0x99 => return Ok(sta(cpu, memory, AddressingMode::AbsoluteY)),
        0x81 => return Ok(sta(cpu, memory, AddressingMode::IndirectX)),
        0x91 => return Ok(sta(cpu, memory, AddressingMode::IndirectY)),
        // STX
        0x86 => return Ok(stx(cpu, memory, AddressingMode::ZeroPage)),
        0x96 => return Ok(stx(cpu, memory, AddressingMode::ZeroPageY)),
        0x8E => return Ok(stx(cpu, memory, AddressingMode::Absolute)),
        // STY
        0x84 => return Ok(sty(cpu, memory, AddressingMode::ZeroPage)),
        0x94 => return Ok(sty(cpu, memory, AddressingMode::ZeroPageX)),
        0x8C => return Ok(sty(cpu, memory, AddressingMode::Absolute)),
        // TAX, TAY, TXA, TYA, TSX, TXS
        0xAA => return Ok(tax(cpu)),
        0xA8 => return Ok(tay(cpu)),
        0x8A => return Ok(txa(cpu)),
        0x98 => return Ok(tya(cpu)),
        0xBA => return Ok(tsx(cpu)),
        0x9A => return Ok(txs(cpu)),
        // PHA, PLA, PHP, PLP
        0x48 => return Ok(pha(cpu, memory)),
        0x68 => return Ok(pla(cpu, memory)),
        0x08 => return Ok(php(cpu, memory)),
        0x28 => return Ok(plp(cpu, memory)),
        // JMP
        0x4C => return Ok(jmp(cpu, memory, AddressingMode::Absolute)),
        0x6C => return Ok(jmp(cpu, memory, AddressingMode::Indirect)),
        // JSR, RTS, RTI, BRK, NOP
        0x20 => return Ok(jsr(cpu, memory)),
        0x60 => return Ok(rts(cpu, memory)),
        0x40 => return Ok(rti(cpu, memory)),
        0x00 => return Ok(brk(cpu, memory)),
        0xEA => return Ok(nop(cpu)),
        // Branches
        0x10 => return Ok(branch(cpu, memory, !cpu.status.negative)),
        0x30 => return Ok(branch(cpu, memory, cpu.status.negative)),
        0x50 => return Ok(branch(cpu, memory, !cpu.status.overflow)),
        0x70 => return Ok(branch(cpu, memory, cpu.status.overflow)),
        0x90 => return Ok(branch(cpu, memory, !cpu.status.carry)),
        0xB0 => return Ok(branch(cpu, memory, cpu.status.carry)),
        0xD0 => return Ok(branch(cpu, memory, !cpu.status.zero)),
        0xF0 => return Ok(branch(cpu, memory, cpu.status.zero)),
        // Flag instructions
        0x18 => return Ok(clc(cpu)),
        0x38 => return Ok(sec(cpu)),
        0x58 => return Ok(cli(cpu)),
        0x78 => return Ok(sei(cpu)),
        0xB8 => return Ok(clv(cpu)),
        0xD8 => return Ok(cld(cpu)),
        0xF8 => return Ok(sed(cpu)),
        // INX, INY, DEX, DEY
        0xE8 => return Ok(inx(cpu)),
        0xC8 => return Ok(iny(cpu)),
        0xCA => return Ok(dex(cpu)),
        0x88 => return Ok(dey(cpu)),
        // ADC
        0x69 => return Ok(adc(cpu, memory, AddressingMode::Immediate)),
        0x65 => return Ok(adc(cpu, memory, AddressingMode::ZeroPage)),
        0x75 => return Ok(adc(cpu, memory, AddressingMode::ZeroPageX)),
        0x6D => return Ok(adc(cpu, memory, AddressingMode::Absolute)),
        0x7D => return Ok(adc(cpu, memory, AddressingMode::AbsoluteX)),
        0x79 => return Ok(adc(cpu, memory, AddressingMode::AbsoluteY)),
        0x61 => return Ok(adc(cpu, memory, AddressingMode::IndirectX)),
        0x71 => return Ok(adc(cpu, memory, AddressingMode::IndirectY)),
        // SBC
        0xE9 => return Ok(sbc(cpu, memory, AddressingMode::Immediate)),
        0xE5 => return Ok(sbc(cpu, memory, AddressingMode::ZeroPage)),
        0xF5 => return Ok(sbc(cpu, memory, AddressingMode::ZeroPageX)),
        0xED => return Ok(sbc(cpu, memory, AddressingMode::Absolute)),
        0xFD => return Ok(sbc(cpu, memory, AddressingMode::AbsoluteX)),
        0xF9 => return Ok(sbc(cpu, memory, AddressingMode::AbsoluteY)),
        0xE1 => return Ok(sbc(cpu, memory, AddressingMode::IndirectX)),
        0xF1 => return Ok(sbc(cpu, memory, AddressingMode::IndirectY)),
        // AND
        0x29 => return Ok(and(cpu, memory, AddressingMode::Immediate)),
        0x25 => return Ok(and(cpu, memory, AddressingMode::ZeroPage)),
        0x35 => return Ok(and(cpu, memory, AddressingMode::ZeroPageX)),
        0x2D => return Ok(and(cpu, memory, AddressingMode::Absolute)),
        0x3D => return Ok(and(cpu, memory, AddressingMode::AbsoluteX)),
        0x39 => return Ok(and(cpu, memory, AddressingMode::AbsoluteY)),
        0x21 => return Ok(and(cpu, memory, AddressingMode::IndirectX)),
        0x31 => return Ok(and(cpu, memory, AddressingMode::IndirectY)),
        // ORA
        0x09 => return Ok(ora(cpu, memory, AddressingMode::Immediate)),
        0x05 => return Ok(ora(cpu, memory, AddressingMode::ZeroPage)),
        0x15 => return Ok(ora(cpu, memory, AddressingMode::ZeroPageX)),
        0x0D => return Ok(ora(cpu, memory, AddressingMode::Absolute)),
        0x1D => return Ok(ora(cpu, memory, AddressingMode::AbsoluteX)),
        0x19 => return Ok(ora(cpu, memory, AddressingMode::AbsoluteY)),
        0x01 => return Ok(ora(cpu, memory, AddressingMode::IndirectX)),
        0x11 => return Ok(ora(cpu, memory, AddressingMode::IndirectY)),
        // EOR
        0x49 => return Ok(eor(cpu, memory, AddressingMode::Immediate)),
        0x45 => return Ok(eor(cpu, memory, AddressingMode::ZeroPage)),
        0x55 => return Ok(eor(cpu, memory, AddressingMode::ZeroPageX)),
        0x4D => return Ok(eor(cpu, memory, AddressingMode::Absolute)),
        0x5D => return Ok(eor(cpu, memory, AddressingMode::AbsoluteX)),
        0x59 => return Ok(eor(cpu, memory, AddressingMode::AbsoluteY)),
        0x41 => return Ok(eor(cpu, memory, AddressingMode::IndirectX)),
        0x51 => return Ok(eor(cpu, memory, AddressingMode::IndirectY)),
        // CMP
        0xC9 => return Ok(cmp(cpu, memory, AddressingMode::Immediate)),
        0xC5 => return Ok(cmp(cpu, memory, AddressingMode::ZeroPage)),
        0xD5 => return Ok(cmp(cpu, memory, AddressingMode::ZeroPageX)),
        0xCD => return Ok(cmp(cpu, memory, AddressingMode::Absolute)),
        0xDD => return Ok(cmp(cpu, memory, AddressingMode::AbsoluteX)),
        0xD9 => return Ok(cmp(cpu, memory, AddressingMode::AbsoluteY)),
        0xC1 => return Ok(cmp(cpu, memory, AddressingMode::IndirectX)),
        0xD1 => return Ok(cmp(cpu, memory, AddressingMode::IndirectY)),
        // CPX
        0xE0 => return Ok(cpx(cpu, memory, AddressingMode::Immediate)),
        0xE4 => return Ok(cpx(cpu, memory, AddressingMode::ZeroPage)),
        0xEC => return Ok(cpx(cpu, memory, AddressingMode::Absolute)),
        // CPY
        0xC0 => return Ok(cpy(cpu, memory, AddressingMode::Immediate)),
        0xC4 => return Ok(cpy(cpu, memory, AddressingMode::ZeroPage)),
        0xCC => return Ok(cpy(cpu, memory, AddressingMode::Absolute)),
        // INC
        0xE6 => return Ok(inc(cpu, memory, AddressingMode::ZeroPage)),
        0xF6 => return Ok(inc(cpu, memory, AddressingMode::ZeroPageX)),
        0xEE => return Ok(inc(cpu, memory, AddressingMode::Absolute)),
        0xFE => return Ok(inc(cpu, memory, AddressingMode::AbsoluteX)),
        // DEC
        0xC6 => return Ok(dec(cpu, memory, AddressingMode::ZeroPage)),
        0xD6 => return Ok(dec(cpu, memory, AddressingMode::ZeroPageX)),
        0xCE => return Ok(dec(cpu, memory, AddressingMode::Absolute)),
        0xDE => return Ok(dec(cpu, memory, AddressingMode::AbsoluteX)),
        // ASL
        0x0A => return Ok(asl_acc(cpu)),
        0x06 => return Ok(asl(cpu, memory, AddressingMode::ZeroPage)),
        0x16 => return Ok(asl(cpu, memory, AddressingMode::ZeroPageX)),
        0x0E => return Ok(asl(cpu, memory, AddressingMode::Absolute)),
        0x1E => return Ok(asl(cpu, memory, AddressingMode::AbsoluteX)),
        // LSR
        0x4A => return Ok(lsr_acc(cpu)),
        0x46 => return Ok(lsr(cpu, memory, AddressingMode::ZeroPage)),
        0x56 => return Ok(lsr(cpu, memory, AddressingMode::ZeroPageX)),
        0x4E => return Ok(lsr(cpu, memory, AddressingMode::Absolute)),
        0x5E => return Ok(lsr(cpu, memory, AddressingMode::AbsoluteX)),
        // ROL
        0x2A => return Ok(rol_acc(cpu)),
        0x26 => return Ok(rol(cpu, memory, AddressingMode::ZeroPage)),
        0x36 => return Ok(rol(cpu, memory, AddressingMode::ZeroPageX)),
        0x2E => return Ok(rol(cpu, memory, AddressingMode::Absolute)),
        0x3E => return Ok(rol(cpu, memory, AddressingMode::AbsoluteX)),
        // ROR
        0x6A => return Ok(ror_acc(cpu)),
        0x66 => return Ok(ror(cpu, memory, AddressingMode::ZeroPage)),
        0x76 => return Ok(ror(cpu, memory, AddressingMode::ZeroPageX)),
        0x6E => return Ok(ror(cpu, memory, AddressingMode::Absolute)),
        0x7E => return Ok(ror(cpu, memory, AddressingMode::AbsoluteX)),
        // BIT
        0x24 => return Ok(bit(cpu, memory, AddressingMode::ZeroPage)),
        0x2C => return Ok(bit(cpu, memory, AddressingMode::Absolute)),
        _ => return Err(DecodeError { opcode, pc: cpu.pc.wrapping_sub(1) }),
    }
}

/// TAX
fn tax(cpu: &mut Cpu) -> (cycles: u8)
    ensures
        cycles == 2,
        *final(cpu) == register_effect(Operation::Tax, *old(cpu)),
{
    proof {
        reveal(register_effect);
    }
    cpu.x = cpu.a;
    cpu.status.update_zero_negative(cpu.x);
    2
}

/// TAY
fn tay(cpu: &mut Cpu) -> (cycles: u8)
    ensures
        cycles == 2,
        *final(cpu) == register_effect(Operation::Tay, *old(cpu)),
{
    proof {
        reveal(register_effect);
    }
    cpu.y = cpu.a;
    cpu.status.update_zero_negative(cpu.y);
    2
}

/// TXA
fn txa(cpu: &mut Cpu) -> (cycles: u8)
    ensures
        cycles == 2,
        *final(cpu) == register_effect(Operation::Txa, *old(cpu)),
{
    proof {
        reveal(register_effect);
    }
    cpu.a = cpu.x;
    cpu.status.update_zero_negative(cpu.a);
    2
}

/// TYA
fn tya(cpu: &mut Cpu) -> (cycles: u8)
    ensures
        cycles == 2,
        *final(cpu) == register_effect(Operation::Tya, *old(cpu)),
{
    proof {
        reveal(register_effect);
    }
    cpu.a = cpu.y;
    cpu.status.update_zero_negative(cpu.a);
    2
}

/// TSX
fn tsx(cpu: &mut Cpu) -> (cycles: u8)
    ensures
        cycles == 2,
        *final(cpu) == register_effect(Operation::Tsx, *old(cpu)),
{
    proof {
        reveal(register_effect);
    }
    cpu.x = cpu.sp;
    cpu.status.update_zero_negative(cpu.x);
    2
}

/// TXS: the flags stay as they are.
fn txs(cpu: &mut Cpu) -> (cycles: u8)
    ensures
        cycles == 2,
        *final(cpu) == register_effect(Operation::Txs, *old(cpu)),
{
    proof {
        reveal(register_effect);
    }
    cpu.sp = cpu.x;
    2
}

/// INX
fn inx(cpu: &mut Cpu) -> (cycles: u8)
    ensures
        cycles == 2,
        *final(cpu) == register_effect(Operation::Inx, *old(cpu)),
{
    proof {
        reveal(register_effect);
    }
    cpu.x = cpu.x.wrapping_add(1);
    cpu.status.update_zero_negative(cpu.x);
    2
}

/// INY
fn iny(cpu: &mut Cpu) -> (cycles: u8)
    ensures
        cycles == 2,
        *final(cpu) == register_effect(Operation::Iny, *old(cpu)),
{
    proof {
        reveal(register_effect);
    }
    cpu.y = cpu.y.wrapping_add(1);
    cpu.status.update_zero_negative(cpu.y);
    2
}

/// DEX
fn dex(cpu: &mut Cpu) -> (cycles: u8)
    ensures
        cycles == 2,
        *final(cpu) == register_effect(Operation::Dex, *old(cpu)),
{
    proof {
        reveal(register_effect);
    }
    cpu.x = cpu.x.wrapping_sub(1);
    cpu.status.update_zero_negative(cpu.x);
    2
}

/// DEY
fn dey(cpu: &mut Cpu) -> (cycles: u8)
    ensures
        cycles == 2,
        *final(cpu) == register_effect(Operation::Dey, *old(cpu)),
{
    proof {
        reveal(register_effect);
    }
    cpu.y = cpu.y.wrapping_sub(1);
    cpu.status.update_zero_negative(cpu.y);
    2
}

/// CLC
fn clc(cpu: &mut Cpu) -> (cycles: u8)
    ensures
        cycles == 2,
        *final(cpu) == register_effect(Operation::Clc, *old(cpu)),
{
    proof {
        reveal(register_effect);
    }
    cpu.status.carry = false;
    2
}

/// SEC
fn sec(cpu: &mut Cpu) -> (cycles: u8)
    ensures
        cycles == 2,
        *final(cpu) == register_effect(Operation::Sec, *old(cpu)),
{
    proof {
        reveal(register_effect);
    }
    cpu.status.carry = true;
    2
}

/// CLI
fn cli(cpu: &mut Cpu) -> (cycles: u8)
    ensures
        cycles == 2,
        *final(cpu) == register_effect(Operation::Cli, *old(cpu)),
{
    proof {
        reveal(register_effect);
    }
    cpu.status.interrupt = false;
    2
}

/// SEI
fn sei(cpu: &mut Cpu) -> (cycles: u8)
    ensures
        cycles == 2,
        *final(cpu) == register_effect(Operation::Sei, *old(cpu)),
{
    proof {
        reveal(register_effect);
    }
    cpu.status.interrupt = true;
    2
}

/// CLV
fn clv(cpu: &mut Cpu) -> (cycles: u8)
    ensures
        cycles == 2,
        *final(cpu) == register_effect(Operation::Clv, *old(cpu)),
{
    proof {
        reveal(register_effect);
    }
    cpu.status.overflow = false;
    2
}

/// CLD
fn cld(cpu: &mut Cpu) -> (cycles: u8)
    ensures
        cycles == 2,
        *final(cpu) == register_effect(Operation::Cld, *old(cpu)),
{
    proof {
        reveal(register_effect);
    }
    cpu.status.decimal = false;
    2
}

/// SED
fn sed(cpu: &mut Cpu) -> (cycles: u8)
    ensures
        cycles == 2,
        *final(cpu) == register_effect(Operation::Sed, *old(cpu)),
{
    proof {
        reveal(register_effect);
    }
    cpu.status.decimal = true;
    2
}

/// NOP
fn nop(cpu: &mut Cpu) -> (cycles: u8)
    ensures
        cycles == 2,
        *final(cpu) == register_effect(Operation::Nop, *old(cpu)),
{
    proof {
        reveal(register_effect);
    }
    2
}

/// PHA
fn pha<M: Memory>(cpu: &mut Cpu, memory: &mut M) -> (cycles: u8)
    ensures
        outcome(*final(cpu), *final(memory), cycles) == memory_effect::<M>(
            Operation::Pha,
            AddressingMode::Implied,
            *old(cpu),
            old(memory).state(),
        ),
{
    proof {
        reveal(memory_effect);
    }
    let a = cpu.a;
    cpu.push(memory, a);
    3
}

/// PLA
fn pla<M: Memory>(cpu: &mut Cpu, memory: &M) -> (cycles: u8)
    ensures
        outcome(*final(cpu), *memory, cycles) == memory_effect::<M>(
            Operation::Pla,
            AddressingMode::Implied,
            *old(cpu),
            memory.state(),
        ),
{
    proof {
        reveal(memory_effect);
    }
    let value = cpu.pop(memory);
    cpu.a = value;
    cpu.status.update_zero_negative(cpu.a);
    4
}

/// PHP: the pushed byte has B and bit 5 set.
fn php<M: Memory>(cpu: &mut Cpu, memory: &mut M) -> (cycles: u8)
    ensures
        outcome(*final(cpu), *final(memory), cycles) == memory_effect::<M>(
            Operation::Php,
            AddressingMode::Implied,
            *old(cpu),
            old(memory).state(),
        ),
{
    proof {
        reveal(memory_effect);
    }
    let status = cpu.status_byte(true);
    cpu.push(memory, status);
    3
}

/// PLP: bit 5 of the pulled status is forced to 1.
fn plp<M: Memory>(cpu: &mut Cpu, memory: &M) -> (cycles: u8)
    ensures
        outcome(*final(cpu), *memory, cycles) == memory_effect::<M>(
            Operation::Plp,
            AddressingMode::Implied,
            *old(cpu),
            memory.state(),
        ),
{
    proof {
        reveal(memory_effect);
    }
    let value = cpu.pop(memory);
    cpu.status = StatusFlags::from_byte(value);
    cpu.status.unused = true;
    4
}

/// JMP, absolute or indirect.
fn jmp<M: Memory>(cpu: &mut Cpu, memory: &M, mode: AddressingMode) -> (cycles: u8)
    ensures
        outcome(*final(cpu), *memory, cycles) == memory_effect::<M>(
            Operation::Jmp,
            mode,
            *old(cpu),
            memory.state(),
        ),
{
    proof {
        reveal(memory_effect);
    }
    let result = cpu.get_operand_address(memory, mode);
    cpu.pc = result.address;
    match mode {
        AddressingMode::Indirect => 5,
        _ => 3,
    }
}

/// JSR: pushes the address of its own last byte, then jumps.
fn jsr<M: Memory>(cpu: &mut Cpu, memory: &mut M) -> (cycles: u8)
    ensures
        outcome(*final(cpu), *final(memory), cycles) == memory_effect::<M>(
            Operation::Jsr,
            AddressingMode::Absolute,
            *old(cpu),
            old(memory).state(),
        ),
{
    proof {
        reveal(memory_effect);
    }
    let return_addr = cpu.pc.wrapping_add(1);
    let target = cpu.get_operand_address(memory, AddressingMode::Absolute);
    cpu.push_word(memory, return_addr);
    cpu.pc = target.address;
    6
}

/// RTS: resumes after the JSR that pushed the return address.
fn rts<M: Memory>(cpu: &mut Cpu, memory: &M) -> (cycles: u8)
    ensures
        outcome(*final(cpu), *memory, cycles) == memory_effect::<M>(
            Operation::Rts,
            AddressingMode::Implied,
            *old(cpu),
            memory.state(),
        ),
{
    proof {
        reveal(memory_effect);
    }
    let addr = cpu.pop_word(memory);
    cpu.pc = addr.wrapping_add(1);
    6
}

/// RTI: pulls the status, then the program counter as it was pushed.
fn rti<M: Memory>(cpu: &mut Cpu, memory: &M) -> (cycles: u8)
    ensures
        outcome(*final(cpu), *memory, cycles) == memory_effect::<M>(
            Operation::Rti,
            AddressingMode::Implied,
            *old(cpu),
            memory.state(),
        ),
{
    proof {
        reveal(memory_effect);
    }
    let status = cpu.pop(memory);
    cpu.status = StatusFlags::from_byte(status);
    cpu.status.unused = true;
    cpu.pc = cpu.pop_word(memory);
    6
}

/// BRK: a software interrupt through the IRQ vector, with B set.
fn brk<M: Memory>(cpu: &mut Cpu, memory: &mut M) -> (cycles: u8)
    ensures
        outcome(*final(cpu), *final(memory), cycles) == memory_effect::<M>(
            Operation::Brk,
            AddressingMode::Implied,
            *old(cpu),
            old(memory).state(),
        ),
{
    proof {
        reveal(memory_effect);
    }
    cpu.pc = cpu.pc.wrapping_add(1);
    let return_addr = cpu.pc;
    cpu.push_word(memory, return_addr);
    let status = cpu.status_byte(true);
    cpu.push(memory, status);
    cpu.status.break_flag = true;
    cpu.status.interrupt = true;
    let lo = memory.read(IRQ_VECTOR);
    let hi = memory.read(IRQ_VECTOR.wrapping_add(1));
    cpu.pc = join(lo, hi);
    7
}

fn lda<M: Memory>(cpu: &mut Cpu, memory: &mut M, mode: AddressingMode) -> (cycles: u8)
    ensures
        outcome(*final(cpu), *final(memory), cycles) == memory_effect::<M>(
            Operation::Lda,
            mode,
            *old(cpu),
            old(memory).state(),
        ),
{
    proof {
        reveal(memory_effect);
    }
    let result = cpu.get_operand_address(memory, mode);
    cpu.a = fetch(memory, result.address);
    cpu.status.update_zero_negative(cpu.a);
    read_cost(mode, result.page_crossed)
}

fn ldx<M: Memory>(cpu: &mut Cpu, memory: &mut M, mode: AddressingMode) -> (cycles: u8)
    ensures
        outcome(*final(cpu), *final(memory), cycles) == memory_effect::<M>(
            Operation::Ldx,
            mode,
            *old(cpu),
            old(memory).state(),
        ),
{
    proof {
        reveal(memory_effect);
    }
    let result = cpu.get_operand_address(memory, mode);
    cpu.x = fetch(memory, result.address);
    cpu.status.update_zero_negative(cpu.x);
    read_cost(mode, result.page_crossed)
}

fn ldy<M: Memory>(cpu: &mut Cpu, memory: &mut M, mode: AddressingMode) -> (cycles: u8)
    ensures
        outcome(*final(cpu), *final(memory), cycles) == memory_effect::<M>(
            Operation::Ldy,
            mode,
            *old(cpu),
            old(memory).state(),
        ),
{
    proof {
        reveal(memory_effect);
    }
    let result = cpu.get_operand_address(memory, mode);
    cpu.y = fetch(memory, result.address);
    cpu.status.update_zero_negative(cpu.y);
    read_cost(mode, result.page_crossed)
}

fn sta<M: Memory>(cpu: &mut Cpu, memory: &mut M, mode: AddressingMode) -> (cycles: u8)
    ensures
        outcome(*final(cpu), *final(memory), cycles) == memory_effect::<M>(
            Operation::Sta,
            mode,
            *old(cpu),
            old(memory).state(),
        ),
{
    proof {
        reveal(memory_effect);
    }
    let result = cpu.get_operand_address(memory, mode);
    memory.write(result.address, cpu.a);
    store_cost(mode)
}

fn stx<M: Memory>(cpu: &mut Cpu, memory: &mut M, mode: AddressingMode) -> (cycles: u8)
    ensures
        outcome(*final(cpu), *final(memory), cycles) == memory_effect::<M>(
            Operation::Stx,
            mode,
            *old(cpu),
            old(memory).state(),
        ),
{
    proof {
        reveal(memory_effect);
    }
    let result = cpu.get_operand_address(memory, mode);
    memory.write(result.address, cpu.x);
    store_cost(mode)
}

fn sty<M: Memory>(cpu: &mut Cpu, memory: &mut M, mode: AddressingMode) -> (cycles: u8)
    ensures
        outcome(*final(cpu), *final(memory), cycles) == memory_effect::<M>(
            Operation::Sty,
            mode,
            *old(cpu),
            old(memory).state(),
        ),
{
    proof {
        reveal(memory_effect);
    }
    let result = cpu.get_operand_address(memory, mode);
    memory.write(result.address, cpu.y);
    store_cost(mode)
}

/// A conditional branch: the displacement is consumed whether or not the
/// branch is taken.
fn branch<M: Memory>(cpu: &mut Cpu, memory: &M, condition: bool) -> (cycles: u8)
    ensures
        outcome(*final(cpu), *memory, cycles) == branched::<M>(
            *old(cpu),
            memory.state(),
            condition,
        ),
{
    proof {
        reveal(branched);
    }
    let result = cpu.get_operand_address(memory, AddressingMode::Relative);
    if condition {
        cpu.pc = result.address;
        if result.page_crossed {
            4
        } else {
            3
        }
    } else {
        2
    }
}

/// Adds `value` and the carry to the accumulator.
fn add_with_carry(cpu: &mut Cpu, value: u8)
    ensures
        *final(cpu) == added(*old(cpu), value),
{
    let carry: u16 = if cpu.status.carry { 1 } else { 0 };
    let sum: u16 = cpu.a as u16 + value as u16 + carry;
    let low: u8 = if sum > 0xFF { (sum - 0x100) as u8 } else { sum as u8 };
    assert(low == (sum as int % 256) as u8);
    // Overflow: both operands have one sign, the sum has the other.
    let overflow = (cpu.a >= 0x80) == (value >= 0x80) && (low >= 0x80) != (cpu.a >= 0x80);
    cpu.a = low;
    cpu.status.carry = sum > 0xFF;
    cpu.status.overflow = overflow;
    cpu.status.update_zero_negative(cpu.a);
}

/// Subtracts `value` and the borrow from the accumulator.
fn subtract_with_borrow(cpu: &mut Cpu, value: u8)
    ensures
        *final(cpu) == subtracted(*old(cpu), value),
{
    let borrow: u16 = if cpu.status.carry { 0 } else { 1 };
    let taken: u16 = value as u16 + borrow;
    let no_borrow = cpu.a as u16 >= taken;
    let low: u8 = if no_borrow {
        (cpu.a as u16 - taken) as u8
    } else {
        (cpu.a as u16 + 0x100 - taken) as u8
    };
    assert(low == ((cpu.a as int - taken as int) % 256) as u8);
    // Overflow: the operands differ in sign and the sign of A changed.
    let overflow = (cpu.a >= 0x80) != (value >= 0x80) && (low >= 0x80) != (cpu.a >= 0x80);
    cpu.a = low;
    cpu.status.carry = no_borrow;
    cpu.status.overflow = overflow;
    cpu.status.update_zero_negative(cpu.a);
}

fn adc<M: Memory>(cpu: &mut Cpu, memory: &mut M, mode: AddressingMode) -> (cycles: u8)
    ensures
        outcome(*final(cpu), *final(memory), cycles) == memory_effect::<M>(
            Operation::Adc,
            mode,
            *old(cpu),
            old(memory).state(),
        ),
{
    proof {
        reveal(memory_effect);
    }
    let result = cpu.get_operand_address(memory, mode);
    let value = fetch(memory, result.address);
    add_with_carry(cpu, value);
    read_cost(mode, result.page_crossed)
}

fn sbc<M: Memory>(cpu: &mut Cpu, memory: &mut M, mode: AddressingMode) -> (cycles: u8)
    ensures
        outcome(*final(cpu), *final(memory), cycles) == memory_effect::<M>(
            Operation::Sbc,
            mode,
            *old(cpu),
            old(memory).state(),
        ),
{
    proof {
        reveal(memory_effect);
    }
    let result = cpu.get_operand_address(memory, mode);
    let value = fetch(memory, result.address);
    subtract_with_borrow(cpu, value);
    read_cost(mode, result.page_crossed)
}

fn and<M: Memory>(cpu: &mut Cpu, memory: &mut M, mode: AddressingMode) -> (cycles: u8)
    ensures
        outcome(*final(cpu), *final(memory), cycles) == memory_effect::<M>(
            Operation::And,
            mode,
            *old(cpu),
            old(memory).state(),
        ),
{
    proof {
        reveal(memory_effect);
    }
    let result = cpu.get_operand_address(memory, mode);
    let value = fetch(memory, result.address);
    cpu.a = cpu.a & value;
    cpu.status.update_zero_negative(cpu.a);
    read_cost(mode, result.page_crossed)
}

fn ora<M: Memory>(cpu: &mut Cpu, memory: &mut M, mode: AddressingMode) -> (cycles: u8)
    ensures
        outcome(*final(cpu), *final(memory), cycles) == memory_effect::<M>(
            Operation::Ora,
            mode,
            *old(cpu),
            old(memory).state(),
        ),
{
    proof {
        reveal(memory_effect);
    }
    let result = cpu.get_operand_address(memory, mode);
    let value = fetch(memory, result.address);
    cpu.a = cpu.a | value;
    cpu.status.update_zero_negative(cpu.a);
    read_cost(mode, result.page_crossed)
}

fn eor<M: Memory>(cpu: &mut Cpu, memory: &mut M, mode: AddressingMode) -> (cycles: u8)
    ensures
        outcome(*final(cpu), *final(memory), cycles) == memory_effect::<M>(
            Operation::Eor,
            mode,
            *old(cpu),
            old(memory).state(),
        ),
{
    proof {
        reveal(memory_effect);
    }
    let result = cpu.get_operand_address(memory, mode);
    let value = fetch(memory, result.address);
    cpu.a = cpu.a ^ value;
    cpu.status.update_zero_negative(cpu.a);
    read_cost(mode, result.page_crossed)
}

fn cmp<M: Memory>(cpu: &mut Cpu, memory: &mut M, mode: AddressingMode) -> (cycles: u8)
    ensures
        outcome(*final(cpu), *final(memory), cycles) == memory_effect::<M>(
            Operation::Cmp,
            mode,
            *old(cpu),
            old(memory).state(),
        ),
{
    proof {
        reveal(memory_effect);
    }
    let result = cpu.get_operand_address(memory, mode);
    let value = fetch(memory, result.address);
    let diff = cpu.a.wrapping_sub(value);
    cpu.status.carry = cpu.a >= value;
    cpu.status.update_zero_negative(diff);
    read_cost(mode, result.page_crossed)
}

fn cpx<M: Memory>(cpu: &mut Cpu, memory: &mut M, mode: AddressingMode) -> (cycles: u8)
    ensures
        outcome(*final(cpu), *final(memory), cycles) == memory_effect::<M>(
            Operation::Cpx,
            mode,
            *old(cpu),
            old(memory).state(),
        ),
{
    proof {
        reveal(memory_effect);
    }
    let result = cpu.get_operand_address(memory, mode);
    let value = fetch(memory, result.address);
    let diff = cpu.x.wrapping_sub(value);
    cpu.status.carry = cpu.x >= value;
    cpu.status.update_zero_negative(diff);
    read_cost(mode, result.page_crossed)
}

fn cpy<M: Memory>(cpu: &mut Cpu, memory: &mut M, mode: AddressingMode) -> (cycles: u8)
    ensures
        outcome(*final(cpu), *final(memory), cycles) == memory_effect::<M>(
            Operation::Cpy,
            mode,
            *old(cpu),
            old(memory).state(),
        ),
{
    proof {
        reveal(memory_effect);
    }
    let result = cpu.get_operand_address(memory, mode);
    let value = fetch(memory, result.address);
    let diff = cpu.y.wrapping_sub(value);
    cpu.status.carry = cpu.y >= value;
    cpu.status.update_zero_negative(diff);
    read_cost(mode, result.page_crossed)
}

fn inc<M: Memory>(cpu: &mut Cpu, memory: &mut M, mode: AddressingMode) -> (cycles: u8)
    ensures
        outcome(*final(cpu), *final(memory), cycles) == memory_effect::<M>(
            Operation::Inc,
            mode,
            *old(cpu),
            old(memory).state(),
        ),
{
    proof {
        reveal(memory_effect);
    }
    let result = cpu.get_operand_address(memory, mode);
    let value = fetch(memory, result.address).wrapping_add(1);
    memory.write(result.address, value);
    cpu.status.update_zero_negative(value);
    modify_cost(mode)
}

fn dec<M: Memory>(cpu: &mut Cpu, memory: &mut M, mode: AddressingMode) -> (cycles: u8)
    ensures
        outcome(*final(cpu), *final(memory), cycles) == memory_effect::<M>(
            Operation::Dec,
            mode,
            *old(cpu),
            old(memory).state(),
        ),
{
    proof {
        reveal(memory_effect);
    }
    let result = cpu.get_operand_address(memory, mode);
    let value = fetch(memory, result.address).wrapping_sub(1);
    memory.write(result.address, value);
    cpu.status.update_zero_negative(value);
    modify_cost(mode)
}

fn asl_acc(cpu: &mut Cpu) -> (cycles: u8)
    ensures
        cycles == 2,
        *final(cpu) == register_effect(Operation::Asl, *old(cpu)),
{
    proof {
        reveal(register_effect);
    }
    cpu.status.carry = (cpu.a & 0x80) != 0;
    cpu.a = cpu.a << 1;
    cpu.status.update_zero_negative(cpu.a);
    2
}

fn asl<M: Memory>(cpu: &mut Cpu, memory: &mut M, mode: AddressingMode) -> (cycles: u8)
    ensures
        outcome(*final(cpu), *final(memory), cycles) == memory_effect::<M>(
            Operation::Asl,
            mode,
            *old(cpu),
            old(memory).state(),
        ),
{
    proof {
        reveal(memory_effect);
    }
    let result = cpu.get_operand_address(memory, mode);
    let value = fetch(memory, result.address);
    cpu.status.carry = (value & 0x80) != 0;
    let new_value = value << 1;
    memory.write(result.address, new_value);
    cpu.status.update_zero_negative(new_value);
    modify_cost(mode)
}

fn lsr_acc(cpu: &mut Cpu) -> (cycles: u8)
    ensures
        cycles == 2,
        *final(cpu) == register_effect(Operation::Lsr, *old(cpu)),
{
    proof {
        reveal(register_effect);
    }
    cpu.status.carry = (cpu.a & 0x01) != 0;
    cpu.a = cpu.a >> 1;
    cpu.status.update_zero_negative(cpu.a);
    2
}

fn lsr<M: Memory>(cpu: &mut Cpu, memory: &mut M, mode: AddressingMode) -> (cycles: u8)
    ensures
        outcome(*final(cpu), *final(memory), cycles) == memory_effect::<M>(
            Operation::Lsr,
            mode,
            *old(cpu),
            old(memory).state(),
        ),
{
    proof {
        reveal(memory_effect);
    }
    let result = cpu.get_operand_address(memory, mode);
    let value = fetch(memory, result.address);
    cpu.status.carry = (value & 0x01) != 0;
    let new_value = value >> 1;
    memory.write(result.address, new_value);
    cpu.status.update_zero_negative(new_value);
    modify_cost(mode)
}

fn rol_acc(cpu: &mut Cpu) -> (cycles: u8)
    ensures
        cycles == 2,
        *final(cpu) == register_effect(Operation::Rol, *old(cpu)),
{
    proof {
        reveal(register_effect);
    }
    let old_carry: u8 = if cpu.status.carry { 0x01 } else { 0 };
    cpu.status.carry = (cpu.a & 0x80) != 0;
    cpu.a = (cpu.a << 1) | old_carry;
    cpu.status.update_zero_negative(cpu.a);
    2
}

fn rol<M: Memory>(cpu: &mut Cpu, memory: &mut M, mode: AddressingMode) -> (cycles: u8)
    ensures
        outcome(*final(cpu), *final(memory), cycles) == memory_effect::<M>(
            Operation::Rol,
            mode,
            *old(cpu),
            old(memory).state(),
        ),
{
    proof {
        reveal(memory_effect);
    }
    let result = cpu.get_operand_address(memory, mode);
    let value = fetch(memory, result.address);
    let old_carry: u8 = if cpu.status.carry { 0x01 } else { 0 };
    cpu.status.carry = (value & 0x80) != 0;
    let new_value = (value << 1) | old_carry;
    memory.write(result.address, new_value);
    cpu.status.update_zero_negative(new_value);
    modify_cost(mode)
}

fn ror_acc(cpu: &mut Cpu) -> (cycles: u8)
    ensures
        cycles == 2,
        *final(cpu) == register_effect(Operation::Ror, *old(cpu)),
{
    proof {
        reveal(register_effect);
    }
    let old_carry: u8 = if cpu.status.carry { 0x80 } else { 0 };
    cpu.status.carry = (cpu.a & 0x01) != 0;
    cpu.a = (cpu.a >> 1) | old_carry;
    cpu.status.update_zero_negative(cpu.a);
    2
}

fn ror<M: Memory>(cpu: &mut Cpu, memory: &mut M, mode: AddressingMode) -> (cycles: u8)
    ensures
        outcome(*final(cpu), *final(memory), cycles) == memory_effect::<M>(
            Operation::Ror,
            mode,
            *old(cpu),
            old(memory).state(),
        ),
{
    proof {
        reveal(memory_effect);
    }
    let result = cpu.get_operand_address(memory, mode);
    let value = fetch(memory, result.address);
    let old_carry: u8 = if cpu.status.carry { 0x80 } else { 0 };
    cpu.status.carry = (value & 0x01) != 0;
    let new_value = (value >> 1) | old_carry;
    memory.write(result.address, new_value);
    cpu.status.update_zero_negative(new_value);
    modify_cost(mode)
}

fn bit<M: Memory>(cpu: &mut Cpu, memory: &mut M, mode: AddressingMode) -> (cycles: u8)
    ensures
        outcome(*final(cpu), *final(memory), cycles) == memory_effect::<M>(
            Operation::Bit,
            mode,
            *old(cpu),
            old(memory).state(),
        ),
{
    proof {
        reveal(memory_effect);
    }
    let result = cpu.get_operand_address(memory, mode);
    let value = fetch(memory, result.address);
    cpu.status.zero = (cpu.a & value) == 0;
    cpu.status.negative = (value & 0x80) != 0;
    cpu.status.overflow = (value & 0x40) != 0;
    read_cost(mode, result.page_crossed)
}

} // verus!
