//! A small disassembler for the monitor.

use crate::cpu::addressing::{operand_len, AddressingMode};
use crate::memory::Memory;
use crate::text::{hex_byte, hex_word, push_hex_byte, push_hex_word};
use vstd::prelude::*;
use vstd::string::StringExecFns;

verus! {

/// The opcodes that the disassembler knows, with their mnemonics and
/// addressing modes.
pub open spec fn mnemonic(opcode: u8) -> Option<(Seq<char>, AddressingMode)> {
    match opcode {
        0xA9 => Some(("LDA"@, AddressingMode::Immediate)),
        0xA5 => Some(("LDA"@, AddressingMode::ZeroPage)),
        0xB5 => Some(("LDA"@, AddressingMode::ZeroPageX)),
        0xAD => Some(("LDA"@, AddressingMode::Absolute)),
        0xBD => Some(("LDA"@, AddressingMode::AbsoluteX)),
        0xB9 => Some(("LDA"@, AddressingMode::AbsoluteY)),
        0x85 => Some(("STA"@, AddressingMode::ZeroPage)),
        0x8D => Some(("STA"@, AddressingMode::Absolute)),
        0x4C => Some(("JMP"@, AddressingMode::Absolute)),
        0x6C => Some(("JMP"@, AddressingMode::Indirect)),
        0x20 => Some(("JSR"@, AddressingMode::Absolute)),
        0x60 => Some(("RTS"@, AddressingMode::Implied)),
        0xAA => Some(("TAX"@, AddressingMode::Implied)),
        0xA8 => Some(("TAY"@, AddressingMode::Implied)),
        0x8A => Some(("TXA"@, AddressingMode::Implied)),
        0x98 => Some(("TYA"@, AddressingMode::Implied)),
        0x48 => Some(("PHA"@, AddressingMode::Implied)),
        0x68 => Some(("PLA"@, AddressingMode::Implied)),
        0x10 => Some(("BPL"@, AddressingMode::Relative)),
        0x30 => Some(("BMI"@, AddressingMode::Relative)),
        0x50 => Some(("BVC"@, AddressingMode::Relative)),
        0x70 => Some(("BVS"@, AddressingMode::Relative)),
        0x90 => Some(("BCC"@, AddressingMode::Relative)),
        0xB0 => Some(("BCS"@, AddressingMode::Relative)),
        0xD0 => Some(("BNE"@, AddressingMode::Relative)),
        0xF0 => Some(("BEQ"@, AddressingMode::Relative)),
        0xEA => Some(("NOP"@, AddressingMode::Implied)),
        0x00 => Some(("BRK"@, AddressingMode::Implied)),
        _ => None,
    }
}

/// How an operand is written: the bytes `b1` and `b2` follow the opcode.
/// A branch shows its displacement byte, not its target.
pub open spec fn operand_text(mode: AddressingMode, b1: u8, b2: u8) -> Seq<char> {
    match mode {
        AddressingMode::Implied => Seq::empty(),
        AddressingMode::Immediate => " #$"@ + hex_byte(b1),
        AddressingMode::ZeroPage | AddressingMode::Relative => " $"@ + hex_byte(b1),
        AddressingMode::ZeroPageX => " $"@ + hex_byte(b1) + ",X"@,
        AddressingMode::ZeroPageY => " $"@ + hex_byte(b1) + ",Y"@,
        AddressingMode::Absolute => " $"@ + hex_byte(b2) + hex_byte(b1),
        AddressingMode::AbsoluteX => " $"@ + hex_byte(b2) + hex_byte(b1) + ",X"@,
        AddressingMode::AbsoluteY => " $"@ + hex_byte(b2) + hex_byte(b1) + ",Y"@,
        AddressingMode::Indirect => " ($"@ + hex_byte(b2) + hex_byte(b1) + ")"@,
        AddressingMode::IndirectX => " ($"@ + hex_byte(b1) + ",X)"@,
        AddressingMode::IndirectY => " ($"@ + hex_byte(b1) + "),Y"@,
    }
}

/// The text of the instruction at `addr` and the number of bytes it takes.
/// An opcode that the disassembler does not know shows as `??? $` and the
/// byte, and takes one byte.
pub open spec fn disassembly<M: Memory>(mem: M::State, addr: u16) -> (Seq<char>, u16) {
    let opcode = M::peek(mem, addr);
    match mnemonic(opcode) {
        Some((name, mode)) => (
            name + operand_text(
                mode,
                M::peek(mem, addr.wrapping_add(1)),
                M::peek(mem, addr.wrapping_add(2)),
            ),
            (1 + operand_len(mode)) as u16,
        ),
        None => ("??? $"@ + hex_byte(opcode), 1),
    }
}

/// One line of a disassembly: `$`, the address, `: ` and the instruction.
pub open spec fn disassembly_line<M: Memory>(mem: M::State, addr: u16) -> Seq<char> {
    "$"@ + hex_word(addr) + ": "@ + disassembly::<M>(mem, addr).0
}

/// The address of the `n`-th instruction from `start` on.
pub open spec fn instruction_addr<M: Memory>(mem: M::State, start: u16, n: nat) -> u16
    decreases n,
{
    if n == 0 {
        start
    } else {
        let addr = instruction_addr::<M>(mem, start, (n - 1) as nat);
        addr.wrapping_add(disassembly::<M>(mem, addr).1)
    }
}

fn lookup(opcode: u8) -> (found: Option<(&'static str, AddressingMode)>)
    ensures
        match found {
            Some((name, mode)) => mnemonic(opcode) == Some((name@, mode)),
            None => mnemonic(opcode) is None,
        },
{
    match opcode {
        0xA9 => Some(("LDA", AddressingMode::Immediate)),
        0xA5 => Some(("LDA", AddressingMode::ZeroPage)),
        0xB5 => Some(("LDA", AddressingMode::ZeroPageX)),
        0xAD => Some(("LDA", AddressingMode::Absolute)),
        0xBD => Some(("LDA", AddressingMode::AbsoluteX)),
        0xB9 => Some(("LDA", AddressingMode::AbsoluteY)),
        0x85 => Some(("STA", AddressingMode::ZeroPage)),
        0x8D => Some(("STA", AddressingMode::Absolute)),
        0x4C => Some(("JMP", AddressingMode::Absolute)),
        0x6C => Some(("JMP", AddressingMode::Indirect)),
        0x20 => Some(("JSR", AddressingMode::Absolute)),
        0x60 => Some(("RTS", AddressingMode::Implied)),
        0xAA => Some(("TAX", AddressingMode::Implied)),
        0xA8 => Some(("TAY", AddressingMode::Implied)),
        0x8A => Some(("TXA", AddressingMode::Implied)),
        0x98 => Some(("TYA", AddressingMode::Implied)),
        0x48 => Some(("PHA", AddressingMode::Implied)),
        0x68 => Some(("PLA", AddressingMode::Implied)),
        0x10 => Some(("BPL", AddressingMode::Relative)),
        0x30 => Some(("BMI", AddressingMode::Relative)),
        0x50 => Some(("BVC", AddressingMode::Relative)),
        0x70 => Some(("BVS", AddressingMode::Relative)),
        0x90 => Some(("BCC", AddressingMode::Relative)),
        0xB0 => Some(("BCS", AddressingMode::Relative)),
        0xD0 => Some(("BNE", AddressingMode::Relative)),
        0xF0 => Some(("BEQ", AddressingMode::Relative)),
        0xEA => Some(("NOP", AddressingMode::Implied)),
        0x00 => Some(("BRK", AddressingMode::Implied)),
        _ => None,
    }
}

fn push_operand(text: &mut String, mode: AddressingMode, b1: u8, b2: u8)
    ensures
        final(text)@ == old(text)@ + operand_text(mode, b1, b2),
{
    match mode {
        AddressingMode::Implied => {},
        AddressingMode::Immediate => {
            text.append(" #$");
            push_hex_byte(text, b1);
        },
        AddressingMode::ZeroPage | AddressingMode::Relative => {
            text.append(" $");
            push_hex_byte(text, b1);
        },
        AddressingMode::ZeroPageX => {
            text.append(" $");
            push_hex_byte(text, b1);
            text.append(",X");
        },
        AddressingMode::ZeroPageY => {
            text.append(" $");
            push_hex_byte(text, b1);
            text.append(",Y");
        },
        AddressingMode::Absolute => {
            text.append(" $");
            push_hex_byte(text, b2);
            push_hex_byte(text, b1);
        },
        AddressingMode::AbsoluteX => {
            text.append(" $");
            push_hex_byte(text, b2);
            push_hex_byte(text, b1);
            text.append(",X");
        },
        AddressingMode::AbsoluteY => {
            text.append(" $");
            push_hex_byte(text, b2);
            push_hex_byte(text, b1);
            text.append(",Y");
        },
        AddressingMode::Indirect => {
            text.append(" ($");
            push_hex_byte(text, b2);
            push_hex_byte(text, b1);
            text.append(")");
        },
        AddressingMode::IndirectX => {
            text.append(" ($");
            push_hex_byte(text, b1);
            text.append(",X)");
        },
        AddressingMode::IndirectY => {
            text.append(" ($");
            push_hex_byte(text, b1);
            text.append("),Y");
        },
    }
    assert(text@ =~= old(text)@ + operand_text(mode, b1, b2));
}

fn length_of(mode: AddressingMode) -> (len: u16)
    ensures
        len == 1 + operand_len(mode),
{
    match mode {
        AddressingMode::Implied => 1,
        AddressingMode::Absolute
        | AddressingMode::AbsoluteX
        | AddressingMode::AbsoluteY
        | AddressingMode::Indirect => 3,
        _ => 2,
    }
}

/// Disassembles the instruction at `addr`: returns its text and the number
/// of bytes it takes. Addresses wrap at the top of the address space.
pub fn disassemble<M: Memory>(memory: &M, addr: u16) -> (result: (String, u16))
    ensures
        result.0@ == disassembly::<M>(memory.state(), addr).0,
        result.1 == disassembly::<M>(memory.state(), addr).1,
        1 <= result.1 <= 3,
{
    let opcode = memory.read(addr);
    match lookup(opcode) {
        Some((name, mode)) => {
            let b1 = memory.read(addr.wrapping_add(1));
            let b2 = memory.read(addr.wrapping_add(2));
            let mut text = String::from_str(name);
            push_operand(&mut text, mode, b1, b2);
            (text, length_of(mode))
        },
        None => {
            let mut text = String::from_str("??? $");
            push_hex_byte(&mut text, opcode);
            (text, 1)
        },
    }
}

/// Disassembles `count` instructions from `start` on, one line each: the
/// address, a colon and the instruction.
pub fn disassemble_range<M: Memory>(memory: &M, start: u16, count: usize) -> (lines: Vec<String>)
    ensures
        lines.len() == count,
        forall|n: int|
            0 <= n < count ==> (#[trigger] lines[n])@ == disassembly_line::<M>(
                memory.state(),
                instruction_addr::<M>(memory.state(), start, n as nat),
            ),
{
    let mut lines: Vec<String> = Vec::new();
    let mut addr = start;
    let mut i: usize = 0;
    while i < count
        invariant
            i <= count,
            lines.len() == i,
            addr == instruction_addr::<M>(memory.state(), start, i as nat),
            forall|n: int|
                0 <= n < i ==> (#[trigger] lines[n])@ == disassembly_line::<M>(
                    memory.state(),
                    instruction_addr::<M>(memory.state(), start, n as nat),
                ),
        decreases count - i,
    {
        let (instr, size) = disassemble(memory, addr);
        let mut line = String::from_str("$");
        push_hex_word(&mut line, addr);
        line.append(": ");
        line.append(instr.as_str());
        lines.push(line);
        addr = addr.wrapping_add(size);
        i = i + 1;
    }
    lines
}

} // verus!
