//! The instruction set as mathematics: the decode table with its base
//! cycle counts, and what each operation does to the registers and to
//! memory.

use crate::cpu::addressing::{operand_len, past_operand, resolve, AddressingMode};
use crate::cpu::{
    flag_bit, pushed, pushed_status, pushed_word, popped, stack_top, stack_top_word, word_at, Cpu,
    Machine, StatusFlags, IRQ_VECTOR,
};
use crate::memory::Memory;
use vstd::prelude::*;

verus! {

/// The 56 documented operations.
#[derive(Debug, Clone, Copy, PartialEq, Eq, Structural)]
pub enum Operation {
    Lda, Ldx, Ldy, Sta, Stx, Sty,
    Tax, Tay, Txa, Tya, Tsx, Txs,
    Pha, Pla, Php, Plp,
    Adc, Sbc, And, Ora, Eor,
    Cmp, Cpx, Cpy,
    Inc, Dec, Inx, Iny, Dex, Dey,
    Asl, Lsr, Rol, Ror,
    Jmp, Jsr, Rts, Rti,
    Bpl, Bmi, Bvc, Bvs, Bcc, Bcs, Bne, Beq,
    Clc, Sec, Cli, Sei, Clv, Cld, Sed,
    Bit, Brk, Nop,
}

/// One row of the decode table.
pub struct Instruction {
    pub op: Operation,
    pub mode: AddressingMode,
    /// Cycles before any penalty for a page cross or a taken branch.
    pub cycles: u8,
}

/// What one instruction leaves behind.
pub struct Outcome<S> {
    pub cpu: Cpu,
    pub mem: S,
    /// Cycles the instruction took, penalties included.
    pub cycles: u8,
}

/// The outcome made of a CPU, a memory and a cycle count.
pub open spec fn outcome<M: Memory>(cpu: Cpu, memory: M, cycles: u8) -> Outcome<M::State> {
    Outcome { cpu, mem: memory.state(), cycles }
}

/// A register that loads and transfers fill.
pub enum Register {
    A,
    X,
    Y,
}

/// A row of the table.
pub open spec fn row(op: Operation, mode: AddressingMode, cycles: u8) -> Option<Instruction> {
    Some(Instruction { op, mode, cycles })
}

/// The reference table: the operation, addressing mode and base cycle
/// count of each of the 151 documented opcodes, and `None` for the rest.
pub open spec fn decode(opcode: u8) -> Option<Instruction> {
    match opcode {
        0x00 => row(Operation::Brk, AddressingMode::Implied, 7),
        0x01 => row(Operation::Ora, AddressingMode::IndirectX, 6),
        0x05 => row(Operation::Ora, AddressingMode::ZeroPage, 3),
        0x06 => row(Operation::Asl, AddressingMode::ZeroPage, 5),
        0x08 => row(Operation::Php, AddressingMode::Implied, 3),
        0x09 => row(Operation::Ora, AddressingMode::Immediate, 2),
        0x0A => row(Operation::Asl, AddressingMode::Implied, 2),
        0x0D => row(Operation::Ora, AddressingMode::Absolute, 4),
        0x0E => row(Operation::Asl, AddressingMode::Absolute, 6),
        0x10 => row(Operation::Bpl, AddressingMode::Relative, 2),
        0x11 => row(Operation::Ora, AddressingMode::IndirectY, 5),
        0x15 => row(Operation::Ora, AddressingMode::ZeroPageX, 4),
        0x16 => row(Operation::Asl, AddressingMode::ZeroPageX, 6),
        0x18 => row(Operation::Clc, AddressingMode::Implied, 2),
        0x19 => row(Operation::Ora, AddressingMode::AbsoluteY, 4),
        0x1D => row(Operation::Ora, AddressingMode::AbsoluteX, 4),
        0x1E => row(Operation::Asl, AddressingMode::AbsoluteX, 7),
        0x20 => row(Operation::Jsr, AddressingMode::Absolute, 6),
        0x21 => row(Operation::And, AddressingMode::IndirectX, 6),
        0x24 => row(Operation::Bit, AddressingMode::ZeroPage, 3),
        0x25 => row(Operation::And, AddressingMode::ZeroPage, 3),
        0x26 => row(Operation::Rol, AddressingMode::ZeroPage, 5),
        0x28 => row(Operation::Plp, AddressingMode::Implied, 4),
        0x29 => row(Operation::And, AddressingMode::Immediate, 2),
        0x2A => row(Operation::Rol, AddressingMode::Implied, 2),
        0x2C => row(Operation::Bit, AddressingMode::Absolute, 4),
        0x2D => row(Operation::And, AddressingMode::Absolute, 4),
        0x2E => row(Operation::Rol, AddressingMode::Absolute, 6),
        0x30 => row(Operation::Bmi, AddressingMode::Relative, 2),
        0x31 => row(Operation::And, AddressingMode::IndirectY, 5),
        0x35 => row(Operation::And, AddressingMode::ZeroPageX, 4),
        0x36 => row(Operation::Rol, AddressingMode::ZeroPageX, 6),
        0x38 => row(Operation::Sec, AddressingMode::Implied, 2),
        0x39 => row(Operation::And, AddressingMode::AbsoluteY, 4),
        0x3D => row(Operation::And, AddressingMode::AbsoluteX, 4),
        0x3E => row(Operation::Rol, AddressingMode::AbsoluteX, 7),
        0x40 => row(Operation::Rti, AddressingMode::Implied, 6),
        0x41 => row(Operation::Eor, AddressingMode::IndirectX, 6),
        0x45 => row(Operation::Eor, AddressingMode::ZeroPage, 3),
        0x46 => row(Operation::Lsr, AddressingMode::ZeroPage, 5),
        0x48 => row(Operation::Pha, AddressingMode::Implied, 3),
        0x49 => row(Operation::Eor, AddressingMode::Immediate, 2),
        0x4A => row(Operation::Lsr, AddressingMode::Implied, 2),
        0x4C => row(Operation::Jmp, AddressingMode::Absolute, 3),
        0x4D => row(Operation::Eor, AddressingMode::Absolute, 4),
        0x4E => row(Operation::Lsr, AddressingMode::Absolute, 6),
        0x50 => row(Operation::Bvc, AddressingMode::Relative, 2),
        0x51 => row(Operation::Eor, AddressingMode::IndirectY, 5),
        0x55 => row(Operation::Eor, AddressingMode::ZeroPageX, 4),
        0x56 => row(Operation::Lsr, AddressingMode::ZeroPageX, 6),
        0x58 => row(Operation::Cli, AddressingMode::Implied, 2),
        0x59 => row(Operation::Eor, AddressingMode::AbsoluteY, 4),
        0x5D => row(Operation::Eor, AddressingMode::AbsoluteX, 4),
        0x5E => row(Operation::Lsr, AddressingMode::AbsoluteX, 7),
        0x60 => row(Operation::Rts, AddressingMode::Implied, 6),
        0x61 => row(Operation::Adc, AddressingMode::IndirectX, 6),
        0x65 => row(Operation::Adc, AddressingMode::ZeroPage, 3),
        0x66 => row(Operation::Ror, AddressingMode::ZeroPage, 5),
        0x68 => row(Operation::Pla, AddressingMode::Implied, 4),
        0x69 => row(Operation::Adc, AddressingMode::Immediate, 2),
        0x6A => row(Operation::Ror, AddressingMode::Implied, 2),
        0x6C => row(Operation::Jmp, AddressingMode::Indirect, 5),
        0x6D => row(Operation::Adc, AddressingMode::Absolute, 4),
        0x6E => row(Operation::Ror, AddressingMode::Absolute, 6),
        0x70 => row(Operation::Bvs, AddressingMode::Relative, 2),
        0x71 => row(Operation::Adc, AddressingMode::IndirectY, 5),
        0x75 => row(Operation::Adc, AddressingMode::ZeroPageX, 4),
        0x76 => row(Operation::Ror, AddressingMode::ZeroPageX, 6),
        0x78 => row(Operation::Sei, AddressingMode::Implied, 2),
        0x79 => row(Operation::Adc, AddressingMode::AbsoluteY, 4),
        0x7D => row(Operation::Adc, AddressingMode::AbsoluteX, 4),
        0x7E => row(Operation::Ror, AddressingMode::AbsoluteX, 7),
        0x81 => row(Operation::Sta, AddressingMode::IndirectX, 6),
        0x84 => row(Operation::Sty, AddressingMode::ZeroPage, 3),
        0x85 => row(Operation::Sta, AddressingMode::ZeroPage, 3),
        0x86 => row(Operation::Stx, AddressingMode::ZeroPage, 3),
        0x88 => row(Operation::Dey, AddressingMode::Implied, 2),
        0x8A => row(Operation::Txa, AddressingMode::Implied, 2),
        0x8C => row(Operation::Sty, AddressingMode::Absolute, 4),
        0x8D => row(Operation::Sta, AddressingMode::Absolute, 4),
        0x8E => row(Operation::Stx, AddressingMode::Absolute, 4),
        0x90 => row(Operation::Bcc, AddressingMode::Relative, 2),
        0x91 => row(Operation::Sta, AddressingMode::IndirectY, 6),
        0x94 => row(Operation::Sty, AddressingMode::ZeroPageX, 4),
        0x95 => row(Operation::Sta, AddressingMode::ZeroPageX, 4),
        0x96 => row(Operation::Stx, AddressingMode::ZeroPageY, 4),
        0x98 => row(Operation::Tya, AddressingMode::Implied, 2),
        0x99 => row(Operation::Sta, AddressingMode::AbsoluteY, 5),
        0x9A => row(Operation::Txs, AddressingMode::Implied, 2),
        0x9D => row(Operation::Sta, AddressingMode::AbsoluteX, 5),
        0xA0 => row(Operation::Ldy, AddressingMode::Immediate, 2),
        0xA1 => row(Operation::Lda, AddressingMode::IndirectX, 6),
        0xA2 => row(Operation::Ldx, AddressingMode::Immediate, 2),
        0xA4 => row(Operation::Ldy, AddressingMode::ZeroPage, 3),
        0xA5 => row(Operation::Lda, AddressingMode::ZeroPage, 3),
        0xA6 => row(Operation::Ldx, AddressingMode::ZeroPage, 3),
        0xA8 => row(Operation::Tay, AddressingMode::Implied, 2),
        0xA9 => row(Operation::Lda, AddressingMode::Immediate, 2),
        0xAA => row(Operation::Tax, AddressingMode::Implied, 2),
        0xAC => row(Operation::Ldy, AddressingMode::Absolute, 4),
        0xAD => row(Operation::Lda, AddressingMode::Absolute, 4),
        0xAE => row(Operation::Ldx, AddressingMode::Absolute, 4),
        0xB0 => row(Operation::Bcs, AddressingMode::Relative, 2),
        0xB1 => row(Operation::Lda, AddressingMode::IndirectY, 5),
        0xB4 => row(Operation::Ldy, AddressingMode::ZeroPageX, 4),
        0xB5 => row(Operation::Lda, AddressingMode::ZeroPageX, 4),
        0xB6 => row(Operation::Ldx, AddressingMode::ZeroPageY, 4),
        0xB8 => row(Operation::Clv, AddressingMode::Implied, 2),
        0xB9 => row(Operation::Lda, AddressingMode::AbsoluteY, 4),
        0xBA => row(Operation::Tsx, AddressingMode::Implied, 2),
        0xBC => row(Operation::Ldy, AddressingMode::AbsoluteX, 4),
        0xBD => row(Operation::Lda, AddressingMode::AbsoluteX, 4),
        0xBE => row(Operation::Ldx, AddressingMode::AbsoluteY, 4),
        0xC0 => row(Operation::Cpy, AddressingMode::Immediate, 2),
        0xC1 => row(Operation::Cmp, AddressingMode::IndirectX, 6),
        0xC4 => row(Operation::Cpy, AddressingMode::ZeroPage, 3),
        0xC5 => row(Operation::Cmp, AddressingMode::ZeroPage, 3),
        0xC6 => row(Operation::Dec, AddressingMode::ZeroPage, 5),
        0xC8 => row(Operation::Iny, AddressingMode::Implied, 2),
        0xC9 => row(Operation::Cmp, AddressingMode::Immediate, 2),
        0xCA => row(Operation::Dex, AddressingMode::Implied, 2),
        0xCC => row(Operation::Cpy, AddressingMode::Absolute, 4),
        0xCD => row(Operation::Cmp, AddressingMode::Absolute, 4),
        0xCE => row(Operation::Dec, AddressingMode::Absolute, 6),
        0xD0 => row(Operation::Bne, AddressingMode::Relative, 2),
        0xD1 => row(Operation::Cmp, AddressingMode::IndirectY, 5),
        0xD5 => row(Operation::Cmp, AddressingMode::ZeroPageX, 4),
        0xD6 => row(Operation::Dec, AddressingMode::ZeroPageX, 6),
        0xD8 => row(Operation::Cld, AddressingMode::Implied, 2),
        0xD9 => row(Operation::Cmp, AddressingMode::AbsoluteY, 4),
        0xDD => row(Operation::Cmp, AddressingMode::AbsoluteX, 4),
        0xDE => row(Operation::Dec, AddressingMode::AbsoluteX, 7),
        0xE0 => row(Operation::Cpx, AddressingMode::Immediate, 2),
        0xE1 => row(Operation::Sbc, AddressingMode::IndirectX, 6),
        0xE4 => row(Operation::Cpx, AddressingMode::ZeroPage, 3),
        0xE5 => row(Operation::Sbc, AddressingMode::ZeroPage, 3),
        0xE6 => row(Operation::Inc, AddressingMode::ZeroPage, 5),
        0xE8 => row(Operation::Inx, AddressingMode::Implied, 2),
        0xE9 => row(Operation::Sbc, AddressingMode::Immediate, 2),
        0xEA => row(Operation::Nop, AddressingMode::Implied, 2),
        0xEC => row(Operation::Cpx, AddressingMode::Absolute, 4),
        0xED => row(Operation::Sbc, AddressingMode::Absolute, 4),
        0xEE => row(Operation::Inc, AddressingMode::Absolute, 6),
        0xF0 => row(Operation::Beq, AddressingMode::Relative, 2),
        0xF1 => row(Operation::Sbc, AddressingMode::IndirectY, 5),
        0xF5 => row(Operation::Sbc, AddressingMode::ZeroPageX, 4),
        0xF6 => row(Operation::Inc, AddressingMode::ZeroPageX, 6),
        0xF8 => row(Operation::Sed, AddressingMode::Implied, 2),
        0xF9 => row(Operation::Sbc, AddressingMode::AbsoluteY, 4),
        0xFD => row(Operation::Sbc, AddressingMode::AbsoluteX, 4),
        0xFE => row(Operation::Inc, AddressingMode::AbsoluteX, 7),
        _ => None,
    }
}

/// Whether `value` is negative when read as a signed byte.
pub open spec fn sign(value: u8) -> bool {
    value >= 0x80
}

/// Cycles of an instruction that reads its operand: one more when an index
/// carried the address onto another page.
pub open spec fn read_cycles(mode: AddressingMode, page_crossed: bool) -> u8 {
    let penalty: u8 = if page_crossed { 1 } else { 0 };
    match mode {
        AddressingMode::Immediate => 2,
        AddressingMode::ZeroPage => 3,
        AddressingMode::ZeroPageX | AddressingMode::ZeroPageY | AddressingMode::Absolute => 4,
        AddressingMode::AbsoluteX | AddressingMode::AbsoluteY => (4 + penalty) as u8,
        AddressingMode::IndirectX => 6,
        AddressingMode::IndirectY => (5 + penalty) as u8,
        _ => 0,
    }
}

/// Cycles of a store, which never pays for a page cross.
pub open spec fn store_cycles(mode: AddressingMode) -> u8 {
    match mode {
        AddressingMode::ZeroPage => 3,
        AddressingMode::ZeroPageX | AddressingMode::ZeroPageY | AddressingMode::Absolute => 4,
        AddressingMode::AbsoluteX | AddressingMode::AbsoluteY => 5,
        AddressingMode::IndirectX | AddressingMode::IndirectY => 6,
        _ => 0,
    }
}

/// Cycles of a read-modify-write instruction, which never pays for a page
/// cross.
pub open spec fn modify_cycles(mode: AddressingMode) -> u8 {
    match mode {
        AddressingMode::Implied => 2,
        AddressingMode::ZeroPage => 5,
        AddressingMode::ZeroPageX | AddressingMode::Absolute => 6,
        AddressingMode::AbsoluteX => 7,
        _ => 0,
    }
}

/// Cycles of a branch: two, one more when taken, and one more again when
/// the taken branch crosses a page.
pub open spec fn branch_cycles(taken: bool, page_crossed: bool) -> u8 {
    if !taken {
        2
    } else if page_crossed {
        4
    } else {
        3
    }
}

/// `cpu` with `value` in register `reg` and Z and N set from it.
pub open spec fn with_register(cpu: Cpu, reg: Register, value: u8) -> Cpu {
    let status = cpu.status.with_zero_negative(value);
    match reg {
        Register::A => Cpu { a: value, status, ..cpu },
        Register::X => Cpu { x: value, status, ..cpu },
        Register::Y => Cpu { y: value, status, ..cpu },
    }
}

/// `A + M + C` in binary mode. C is the carry out of bit 7; V is set when
/// both operands have one sign and the sum has the other.
pub open spec fn added(cpu: Cpu, operand: u8) -> Cpu {
    let sum = cpu.a + operand + (if cpu.status.carry { 1int } else { 0int });
    let result = (sum % 256) as u8;
    let status = StatusFlags {
        carry: sum > 0xFF,
        overflow: sign(cpu.a) == sign(operand) && sign(result) != sign(cpu.a),
        ..cpu.status
    };
    Cpu { a: result, status: status.with_zero_negative(result), ..cpu }
}

/// `A - M - (1 - C)` in binary mode. C is set when no borrow was needed; V
/// is set when the operands differ in sign and the difference has another
/// sign than A had.
pub open spec fn subtracted(cpu: Cpu, operand: u8) -> Cpu {
    let diff = cpu.a - operand - (if cpu.status.carry { 0int } else { 1int });
    let result = (diff % 256) as u8;
    let status = StatusFlags {
        carry: diff >= 0,
        overflow: sign(cpu.a) != sign(operand) && sign(result) != sign(cpu.a),
        ..cpu.status
    };
    Cpu { a: result, status: status.with_zero_negative(result), ..cpu }
}

/// The flags after register value `value` was compared with `operand`:
/// C when `value >= operand`, Z and N from the difference.
pub open spec fn compared(cpu: Cpu, value: u8, operand: u8) -> Cpu {
    let status = StatusFlags { carry: value >= operand, ..cpu.status };
    Cpu { status: status.with_zero_negative(value.wrapping_sub(operand)), ..cpu }
}

/// The flags after BIT: Z from `A & M`, N and V from bits 7 and 6 of M.
pub open spec fn bit_tested(cpu: Cpu, operand: u8) -> Cpu {
    Cpu {
        status: StatusFlags {
            zero: (cpu.a & operand) == 0,
            negative: (operand & 0x80) != 0,
            overflow: (operand & 0x40) != 0,
            ..cpu.status
        },
        ..cpu
    }
}

/// What a read-modify-write operation makes of `value`: the new value and
/// the new carry. INC and DEC leave the carry alone.
pub open spec fn modified(op: Operation, value: u8, carry: bool) -> (u8, bool) {
    match op {
        Operation::Inc => (value.wrapping_add(1), carry),
        Operation::Dec => (value.wrapping_sub(1), carry),
        Operation::Asl => (value << 1, (value & 0x80) != 0),
        Operation::Lsr => (value >> 1, (value & 0x01) != 0),
        Operation::Rol => ((value << 1) | flag_bit(carry, 0x01), (value & 0x80) != 0),
        Operation::Ror => ((value >> 1) | flag_bit(carry, 0x80), (value & 0x01) != 0),
        _ => (value, carry),
    }
}

/// The status after a read-modify-write operation produced `result`.
pub open spec fn modified_status(status: StatusFlags, result: (u8, bool)) -> StatusFlags {
    (StatusFlags { carry: result.1, ..status }).with_zero_negative(result.0)
}

/// What an instruction that reads its operand makes of the CPU and the
/// operand.
pub open spec fn read_effect(op: Operation, cpu: Cpu, operand: u8) -> Cpu {
    match op {
        Operation::Lda => with_register(cpu, Register::A, operand),
        Operation::Ldx => with_register(cpu, Register::X, operand),
        Operation::Ldy => with_register(cpu, Register::Y, operand),
        Operation::Adc => added(cpu, operand),
        Operation::Sbc => subtracted(cpu, operand),
        Operation::And => with_register(cpu, Register::A, cpu.a & operand),
        Operation::Ora => with_register(cpu, Register::A, cpu.a | operand),
        Operation::Eor => with_register(cpu, Register::A, cpu.a ^ operand),
        Operation::Cmp => compared(cpu, cpu.a, operand),
        Operation::Cpx => compared(cpu, cpu.x, operand),
        Operation::Cpy => compared(cpu, cpu.y, operand),
        Operation::Bit => bit_tested(cpu, operand),
        _ => cpu,
    }
}

/// The loads, the arithmetic and logical operations, the compares and BIT:
/// the operand is read, the device behind it sees the read, and the
/// registers and flags change by [`read_effect`].
pub open spec fn reading<M: Memory>(op: Operation, cpu: Cpu, mem: M::State, mode: AddressingMode)
    -> Outcome<M::State> {
    let target = resolve::<M>(cpu, mem, mode);
    Outcome {
        cpu: read_effect(op, past_operand(cpu, mode), M::peek(mem, target.address)),
        mem: M::settle(mem, target.address),
        cycles: read_cycles(mode, target.page_crossed),
    }
}

/// The register that a store writes.
pub open spec fn store_source(op: Operation, cpu: Cpu) -> u8 {
    match op {
        Operation::Stx => cpu.x,
        Operation::Sty => cpu.y,
        _ => cpu.a,
    }
}

/// STA, STX, STY.
pub open spec fn stored<M: Memory>(op: Operation, cpu: Cpu, mem: M::State, mode: AddressingMode)
    -> Outcome<M::State> {
    let target = resolve::<M>(cpu, mem, mode);
    Outcome {
        cpu: past_operand(cpu, mode),
        mem: M::poke(mem, target.address, store_source(op, cpu)),
        cycles: store_cycles(mode),
    }
}

/// ASL, LSR, ROL, ROR on the accumulator.
pub open spec fn accumulator_rewritten(op: Operation, cpu: Cpu) -> Cpu {
    let result = modified(op, cpu.a, cpu.status.carry);
    Cpu { a: result.0, status: modified_status(cpu.status, result), ..cpu }
}

/// INC, DEC, ASL, LSR, ROL, ROR on memory: the operand is read, then
/// written back changed.
pub open spec fn rewritten<M: Memory>(op: Operation, cpu: Cpu, mem: M::State, mode: AddressingMode)
    -> Outcome<M::State> {
    let target = resolve::<M>(cpu, mem, mode);
    let result = modified(op, M::peek(mem, target.address), cpu.status.carry);
    Outcome {
        cpu: Cpu { status: modified_status(cpu.status, result), ..past_operand(cpu, mode) },
        mem: M::poke(M::settle(mem, target.address), target.address, result.0),
        cycles: modify_cycles(mode),
    }
}

/// A conditional branch with its condition already evaluated.
#[verifier::opaque]
pub open spec fn branched<M: Memory>(cpu: Cpu, mem: M::State, taken: bool) -> Outcome<M::State> {
    let target = resolve::<M>(cpu, mem, AddressingMode::Relative);
    let next = past_operand(cpu, AddressingMode::Relative);
    Outcome {
        cpu: if taken {
            Cpu { pc: target.address, ..next }
        } else {
            next
        },
        mem,
        cycles: branch_cycles(taken, target.page_crossed),
    }
}

/// The condition under which branch `op` is taken.
pub open spec fn branch_condition(op: Operation, status: StatusFlags) -> bool {
    match op {
        Operation::Bpl => !status.negative,
        Operation::Bmi => status.negative,
        Operation::Bvc => !status.overflow,
        Operation::Bvs => status.overflow,
        Operation::Bcc => !status.carry,
        Operation::Bcs => status.carry,
        Operation::Bne => !status.zero,
        Operation::Beq => status.zero,
        _ => false,
    }
}

/// `cpu` with its status replaced.
pub open spec fn with_status(cpu: Cpu, status: StatusFlags) -> Cpu {
    Cpu { status, ..cpu }
}

/// An instruction that changes registers only, in two cycles.
pub open spec fn internal<M: Memory>(cpu: Cpu, mem: M::State) -> Outcome<M::State> {
    Outcome { cpu, mem, cycles: 2 }
}

/// JMP: the program counter takes the effective address.
pub open spec fn jumped<M: Memory>(cpu: Cpu, mem: M::State, mode: AddressingMode) -> Outcome<
    M::State,
> {
    Outcome {
        cpu: Cpu { pc: resolve::<M>(cpu, mem, mode).address, ..cpu },
        mem,
        cycles: if mode == AddressingMode::Indirect {
            5
        } else {
            3
        },
    }
}

/// JSR: the address of the instruction's last byte is pushed and the
/// program counter takes the operand.
pub open spec fn called<M: Memory>(cpu: Cpu, mem: M::State) -> Outcome<M::State> {
    let target = resolve::<M>(cpu, mem, AddressingMode::Absolute).address;
    let m = pushed_word::<M>(Machine { cpu, mem }, cpu.pc.wrapping_add(1));
    Outcome { cpu: Cpu { pc: target, ..m.cpu }, mem: m.mem, cycles: 6 }
}

/// RTS: the program counter takes the popped word plus one.
pub open spec fn returned<M: Memory>(cpu: Cpu, mem: M::State) -> Outcome<M::State> {
    let m = Machine { cpu, mem };
    Outcome {
        cpu: Cpu {
            pc: stack_top_word::<M>(m).wrapping_add(1),
            sp: cpu.sp.wrapping_add(1).wrapping_add(1),
            ..cpu
        },
        mem,
        cycles: 6,
    }
}

/// RTI: the status is popped, bit 5 forced to 1, then the program counter,
/// which is taken as it was pushed.
pub open spec fn interrupt_returned<M: Memory>(cpu: Cpu, mem: M::State) -> Outcome<M::State> {
    let m = Machine { cpu, mem };
    Outcome {
        cpu: Cpu {
            status: StatusFlags::of_byte(stack_top::<M>(m)),
            pc: stack_top_word::<M>(popped::<M>(m)),
            sp: cpu.sp.wrapping_add(1).wrapping_add(1).wrapping_add(1),
            ..cpu
        },
        mem,
        cycles: 6,
    }
}

/// BRK: the byte after the opcode is skipped, the program counter and the
/// status with B set are pushed, B and I are set and the program counter is
/// loaded from the vector at `$FFFE`.
pub open spec fn broken<M: Memory>(cpu: Cpu, mem: M::State) -> Outcome<M::State> {
    let return_addr = cpu.pc.wrapping_add(1);
    let m = pushed::<M>(
        pushed_word::<M>(Machine { cpu, mem }, return_addr),
        pushed_status(cpu.status, true),
    );
    Outcome {
        cpu: Cpu {
            pc: word_at::<M>(m.mem, IRQ_VECTOR),
            status: StatusFlags { break_flag: true, interrupt: true, ..cpu.status },
            ..m.cpu
        },
        mem: m.mem,
        cycles: 7,
    }
}

/// PHA and PHP. PHP pushes the status with B and bit 5 set.
pub open spec fn stack_pushed<M: Memory>(cpu: Cpu, mem: M::State, value: u8) -> Outcome<M::State> {
    let m = pushed::<M>(Machine { cpu, mem }, value);
    Outcome { cpu: m.cpu, mem: m.mem, cycles: 3 }
}

/// PLA.
pub open spec fn accumulator_pulled<M: Memory>(cpu: Cpu, mem: M::State) -> Outcome<M::State> {
    let value = stack_top::<M>(Machine { cpu, mem });
    Outcome {
        cpu: with_register(Cpu { sp: cpu.sp.wrapping_add(1), ..cpu }, Register::A, value),
        mem,
        cycles: 4,
    }
}

/// PLP: bit 5 of the pulled status is forced to 1.
pub open spec fn status_pulled<M: Memory>(cpu: Cpu, mem: M::State) -> Outcome<M::State> {
    let value = stack_top::<M>(Machine { cpu, mem });
    Outcome {
        cpu: Cpu { sp: cpu.sp.wrapping_add(1), status: StatusFlags::of_byte(value), ..cpu },
        mem,
        cycles: 4,
    }
}

/// Whether operation `op` in mode `mode` works on the registers alone.
pub open spec fn register_only(op: Operation, mode: AddressingMode) -> bool {
    match op {
        Operation::Tax | Operation::Tay | Operation::Txa | Operation::Tya | Operation::Tsx
        | Operation::Txs | Operation::Inx | Operation::Iny | Operation::Dex | Operation::Dey
        | Operation::Clc | Operation::Sec | Operation::Cli | Operation::Sei | Operation::Clv
        | Operation::Cld | Operation::Sed | Operation::Nop => true,
        Operation::Asl | Operation::Lsr | Operation::Rol | Operation::Ror => mode
            == AddressingMode::Implied,
        _ => false,
    }
}

/// Whether `op` is one of the eight conditional branches.
pub open spec fn is_branch(op: Operation) -> bool {
    match op {
        Operation::Bpl | Operation::Bmi | Operation::Bvc | Operation::Bvs | Operation::Bcc
        | Operation::Bcs | Operation::Bne | Operation::Beq => true,
        _ => false,
    }
}

/// What an operation on the registers alone makes of them: the transfers,
/// the register increments and decrements, the flag instructions, NOP and
/// the shifts and rotates of the accumulator.
#[verifier::opaque]
pub open spec fn register_effect(op: Operation, cpu: Cpu) -> Cpu {
    let status = cpu.status;
    match op {
        Operation::Tax => with_register(cpu, Register::X, cpu.a),
        Operation::Tay => with_register(cpu, Register::Y, cpu.a),
        Operation::Txa => with_register(cpu, Register::A, cpu.x),
        Operation::Tya => with_register(cpu, Register::A, cpu.y),
        Operation::Tsx => with_register(cpu, Register::X, cpu.sp),
        Operation::Txs => Cpu { sp: cpu.x, ..cpu },
        Operation::Inx => with_register(cpu, Register::X, cpu.x.wrapping_add(1)),
        Operation::Iny => with_register(cpu, Register::Y, cpu.y.wrapping_add(1)),
        Operation::Dex => with_register(cpu, Register::X, cpu.x.wrapping_sub(1)),
        Operation::Dey => with_register(cpu, Register::Y, cpu.y.wrapping_sub(1)),
        Operation::Clc => with_status(cpu, StatusFlags { carry: false, ..status }),
        Operation::Sec => with_status(cpu, StatusFlags { carry: true, ..status }),
        Operation::Cli => with_status(cpu, StatusFlags { interrupt: false, ..status }),
        Operation::Sei => with_status(cpu, StatusFlags { interrupt: true, ..status }),
        Operation::Clv => with_status(cpu, StatusFlags { overflow: false, ..status }),
        Operation::Cld => with_status(cpu, StatusFlags { decimal: false, ..status }),
        Operation::Sed => with_status(cpu, StatusFlags { decimal: true, ..status }),
        Operation::Asl | Operation::Lsr | Operation::Rol | Operation::Ror => accumulator_rewritten(
            op,
            cpu,
        ),
        _ => cpu,
    }
}

/// What an operation that reads or writes memory does: the operations
/// with an operand, the stack operations, the jumps and BRK.
#[verifier::opaque]
pub open spec fn memory_effect<M: Memory>(
    op: Operation,
    mode: AddressingMode,
    cpu: Cpu,
    mem: M::State,
) -> Outcome<M::State> {
    match op {
        Operation::Lda | Operation::Ldx | Operation::Ldy | Operation::Adc | Operation::Sbc
        | Operation::And | Operation::Ora | Operation::Eor | Operation::Cmp | Operation::Cpx
        | Operation::Cpy | Operation::Bit => reading::<M>(op, cpu, mem, mode),
        Operation::Sta | Operation::Stx | Operation::Sty => stored::<M>(op, cpu, mem, mode),
        Operation::Inc | Operation::Dec | Operation::Asl | Operation::Lsr | Operation::Rol
        | Operation::Ror => rewritten::<M>(op, cpu, mem, mode),
        Operation::Pha => stack_pushed::<M>(cpu, mem, cpu.a),
        Operation::Php => stack_pushed::<M>(cpu, mem, pushed_status(cpu.status, true)),
        Operation::Pla => accumulator_pulled::<M>(cpu, mem),
        Operation::Plp => status_pulled::<M>(cpu, mem),
        Operation::Jmp => jumped::<M>(cpu, mem, mode),
        Operation::Jsr => called::<M>(cpu, mem),
        Operation::Rts => returned::<M>(cpu, mem),
        Operation::Rti => interrupt_returned::<M>(cpu, mem),
        Operation::Brk => broken::<M>(cpu, mem),
        _ => internal::<M>(cpu, mem),
    }
}

/// What operation `op` in mode `mode` does to a CPU whose program counter
/// is at the first operand byte.
pub open spec fn perform<M: Memory>(op: Operation, mode: AddressingMode, cpu: Cpu, mem: M::State)
    -> Outcome<M::State> {
    if register_only(op, mode) {
        internal::<M>(register_effect(op, cpu), mem)
    } else if is_branch(op) {
        branched::<M>(cpu, mem, branch_condition(op, cpu.status))
    } else {
        memory_effect::<M>(op, mode, cpu, mem)
    }
}

/// Whether `op` reads its operand without writing it back.
pub open spec fn reads_operand(op: Operation) -> bool {
    match op {
        Operation::Lda | Operation::Ldx | Operation::Ldy | Operation::Adc | Operation::Sbc
        | Operation::And | Operation::Ora | Operation::Eor | Operation::Cmp | Operation::Cpx
        | Operation::Cpy | Operation::Bit => true,
        _ => false,
    }
}

/// Whether `op` loads the program counter otherwise than by moving it past
/// the operand.
pub open spec fn transfers_control(op: Operation) -> bool {
    match op {
        Operation::Jmp | Operation::Jsr | Operation::Rts | Operation::Rti | Operation::Brk => true,
        _ => is_branch(op),
    }
}

/// The cycles that `instruction` takes beyond its base count. A taken
/// branch pays one cycle, and one more when it crosses a page. An
/// instruction that reads its operand pays one cycle when indexing an
/// absolute or `(indirect),Y` address crosses a page; stores and
/// read-modify-write instructions never do.
pub open spec fn penalty<M: Memory>(instruction: Instruction, cpu: Cpu, mem: M::State) -> int {
    let crossed = resolve::<M>(cpu, mem, instruction.mode).page_crossed;
    if is_branch(instruction.op) {
        if !branch_condition(instruction.op, cpu.status) {
            0
        } else if crossed {
            2
        } else {
            1
        }
    } else if reads_operand(instruction.op) && crossed {
        1
    } else {
        0
    }
}

/// Whether operation `op` exists in addressing mode `mode`.
pub open spec fn has_mode(op: Operation, mode: AddressingMode) -> bool {
    match op {
        Operation::Lda | Operation::Adc | Operation::Sbc | Operation::And | Operation::Ora
        | Operation::Eor | Operation::Cmp => match mode {
            AddressingMode::Immediate
            | AddressingMode::ZeroPage
            | AddressingMode::ZeroPageX
            | AddressingMode::Absolute
            | AddressingMode::AbsoluteX
            | AddressingMode::AbsoluteY
            | AddressingMode::IndirectX
            | AddressingMode::IndirectY => true,
            _ => false,
        },
        Operation::Sta => match mode {
            AddressingMode::ZeroPage
            | AddressingMode::ZeroPageX
            | AddressingMode::Absolute
            | AddressingMode::AbsoluteX
            | AddressingMode::AbsoluteY
            | AddressingMode::IndirectX
            | AddressingMode::IndirectY => true,
            _ => false,
        },
        Operation::Ldx => match mode {
            AddressingMode::Immediate
            | AddressingMode::ZeroPage
            | AddressingMode::ZeroPageY
            | AddressingMode::Absolute
            | AddressingMode::AbsoluteY => true,
            _ => false,
        },
        Operation::Ldy => match mode {
            AddressingMode::Immediate
            | AddressingMode::ZeroPage
            | AddressingMode::ZeroPageX
            | AddressingMode::Absolute
            | AddressingMode::AbsoluteX => true,
            _ => false,
        },
        Operation::Stx => match mode {
            AddressingMode::ZeroPage | AddressingMode::ZeroPageY | AddressingMode::Absolute => true,
            _ => false,
        },
        Operation::Sty => match mode {
            AddressingMode::ZeroPage | AddressingMode::ZeroPageX | AddressingMode::Absolute => true,
            _ => false,
        },
        Operation::Cpx | Operation::Cpy => match mode {
            AddressingMode::Immediate | AddressingMode::ZeroPage | AddressingMode::Absolute => true,
            _ => false,
        },
        Operation::Bit => match mode {
            AddressingMode::ZeroPage | AddressingMode::Absolute => true,
            _ => false,
        },
        Operation::Inc | Operation::Dec => match mode {
            AddressingMode::ZeroPage
            | AddressingMode::ZeroPageX
            | AddressingMode::Absolute
            | AddressingMode::AbsoluteX => true,
            _ => false,
        },
        Operation::Asl | Operation::Lsr | Operation::Rol | Operation::Ror => match mode {
            AddressingMode::Implied
            | AddressingMode::ZeroPage
            | AddressingMode::ZeroPageX
            | AddressingMode::Absolute
            | AddressingMode::AbsoluteX => true,
            _ => false,
        },
        Operation::Jmp => mode == AddressingMode::Absolute || mode == AddressingMode::Indirect,
        Operation::Jsr => mode == AddressingMode::Absolute,
        _ => if is_branch(op) {
            mode == AddressingMode::Relative
        } else {
            mode == AddressingMode::Implied
        },
    }
}

/// The cycles that operation `op` takes in mode `mode` when it pays no
/// penalty.
pub open spec fn base_cycles(op: Operation, mode: AddressingMode) -> u8 {
    if register_only(op, mode) || is_branch(op) {
        2
    } else if reads_operand(op) {
        read_cycles(mode, false)
    } else {
        match op {
            Operation::Sta | Operation::Stx | Operation::Sty => store_cycles(mode),
            Operation::Inc | Operation::Dec | Operation::Asl | Operation::Lsr | Operation::Rol
            | Operation::Ror => modify_cycles(mode),
            Operation::Pha | Operation::Php => 3,
            Operation::Pla | Operation::Plp => 4,
            Operation::Jmp => if mode == AddressingMode::Indirect {
                5
            } else {
                3
            },
            Operation::Brk => 7,
            _ => 6,
        }
    }
}

/// Every row of the reference table pairs an operation with one of its
/// addressing modes and gives the base cycles of the pair.
pub proof fn lemma_table(opcode: u8)
    ensures
        decode(opcode) matches Some(instruction) ==> has_mode(instruction.op, instruction.mode)
            && instruction.cycles == base_cycles(instruction.op, instruction.mode),
{
    // One case per high nibble of the opcode.
    if opcode < 0x10 {
    } else if opcode < 0x20 {
    } else if opcode < 0x30 {
    } else if opcode < 0x40 {
    } else if opcode < 0x50 {
    } else if opcode < 0x60 {
    } else if opcode < 0x70 {
    } else if opcode < 0x80 {
    } else if opcode < 0x90 {
    } else if opcode < 0xA0 {
    } else if opcode < 0xB0 {
    } else if opcode < 0xC0 {
    } else if opcode < 0xD0 {
    } else if opcode < 0xE0 {
    } else if opcode < 0xF0 {
    } else {
    }
}

/// An operation in one of its modes takes its base cycles plus its
/// penalty, and never more than seven cycles.
pub proof fn lemma_operation_cycles<M: Memory>(
    op: Operation,
    mode: AddressingMode,
    cpu: Cpu,
    mem: M::State,
)
    requires
        has_mode(op, mode),
    ensures
        perform::<M>(op, mode, cpu, mem).cycles == base_cycles(op, mode) + penalty::<M>(
            Instruction { op, mode, cycles: base_cycles(op, mode) },
            cpu,
            mem,
        ),
        perform::<M>(op, mode, cpu, mem).cycles <= 7,
{
    reveal(memory_effect);
    reveal(branched);
}

/// Whether every write and every completed read keeps the property `keeps`
/// of the memory.
pub open spec fn kept_by_memory<M: Memory>(keeps: spec_fn(M::State) -> bool) -> bool {
    &&& forall|s: M::State, addr: u16, value: u8|
        keeps(s) ==> #[trigger] keeps(M::poke(s, addr, value))
    &&& forall|s: M::State, addr: u16| keeps(s) ==> #[trigger] keeps(M::settle(s, addr))
}

/// An operation changes memory by writes and completed reads alone: a
/// property that these keep holds after the operation if it held before.
pub proof fn lemma_memory_frame<M: Memory>(
    op: Operation,
    mode: AddressingMode,
    cpu: Cpu,
    mem: M::State,
    keeps: spec_fn(M::State) -> bool,
)
    requires
        kept_by_memory::<M>(keeps),
        keeps(mem),
    ensures
        keeps(perform::<M>(op, mode, cpu, mem).mem),
{
    reveal(memory_effect);
    reveal(branched);
}

/// Bit 5 of the status stays set: no operation clears it, and a status
/// pulled from the stack has it forced.
pub proof fn lemma_bit_five_kept<M: Memory>(
    op: Operation,
    mode: AddressingMode,
    cpu: Cpu,
    mem: M::State,
)
    requires
        cpu.status.unused,
    ensures
        perform::<M>(op, mode, cpu, mem).cpu.status.unused,
{
    reveal(memory_effect);
    reveal(register_effect);
    reveal(branched);
}

/// No operation touches the count of cycles: counting is left to the
/// caller.
pub proof fn lemma_counter_kept<M: Memory>(
    op: Operation,
    mode: AddressingMode,
    cpu: Cpu,
    mem: M::State,
)
    ensures
        perform::<M>(op, mode, cpu, mem).cpu.cycles == cpu.cycles,
{
    reveal(memory_effect);
    reveal(register_effect);
    reveal(branched);
}

/// Every documented opcode takes the base cycles of its row in the
/// reference table plus its penalty, and never more than seven cycles.
pub proof fn lemma_cycles<M: Memory>(opcode: u8, cpu: Cpu, mem: M::State)
    ensures
        decode(opcode) matches Some(instruction) ==> {
            &&& perform::<M>(instruction.op, instruction.mode, cpu, mem).cycles
                == instruction.cycles + penalty::<M>(instruction, cpu, mem)
            &&& perform::<M>(instruction.op, instruction.mode, cpu, mem).cycles <= 7
        },
{
    lemma_table(opcode);
    match decode(opcode) {
        Some(instruction) => {
            lemma_operation_cycles::<M>(instruction.op, instruction.mode, cpu, mem);
        },
        None => {},
    }
}

/// An operation in one of its modes that does not transfer control leaves
/// the program counter behind its operand bytes; a branch leaves it there
/// when it is not taken, and at its target when it is.
pub proof fn lemma_operation_length<M: Memory>(
    op: Operation,
    mode: AddressingMode,
    cpu: Cpu,
    mem: M::State,
)
    requires
        has_mode(op, mode),
    ensures
        !transfers_control(op) ==> perform::<M>(op, mode, cpu, mem).cpu.pc == cpu.pc.wrapping_add(
            operand_len(mode),
        ),
        is_branch(op) ==> perform::<M>(op, mode, cpu, mem).cpu.pc == (if branch_condition(
            op,
            cpu.status,
        ) {
            resolve::<M>(cpu, mem, mode).address
        } else {
            cpu.pc.wrapping_add(1)
        }),
{
    reveal(memory_effect);
    reveal(register_effect);
    reveal(branched);
}

/// Every documented opcode that does not transfer control consumes exactly
/// the operand bytes of its addressing mode. A branch consumes its one
/// operand byte when it is not taken, and goes to its target when it is.
pub proof fn lemma_length<M: Memory>(opcode: u8, cpu: Cpu, mem: M::State)
    ensures
        decode(opcode) matches Some(instruction) ==> {
            let done = perform::<M>(instruction.op, instruction.mode, cpu, mem);
            &&& !transfers_control(instruction.op) ==> done.cpu.pc == cpu.pc.wrapping_add(
                operand_len(instruction.mode),
            )
            &&& is_branch(instruction.op) ==> done.cpu.pc == (if branch_condition(
                instruction.op,
                cpu.status,
            ) {
                resolve::<M>(cpu, mem, instruction.mode).address
            } else {
                cpu.pc.wrapping_add(1)
            })
        },
{
    lemma_table(opcode);
    match decode(opcode) {
        Some(instruction) => {
            lemma_operation_length::<M>(instruction.op, instruction.mode, cpu, mem);
        },
        None => {},
    }
}

} // verus!
