//! The addressing modes: how an instruction's operand bytes become an
//! effective address.

use crate::cpu::{word, Cpu};
use crate::memory::Memory;
use vstd::prelude::*;

verus! {

/// The ways in which an instruction names its operand.
#[derive(Debug, Clone, Copy, PartialEq, Eq, Structural)]
pub enum AddressingMode {
    /// No operand bytes: the operand is implied or is the accumulator.
    Implied,
    /// The operand is the byte after the opcode.
    Immediate,
    /// One byte gives an address in page 0.
    ZeroPage,
    /// One byte plus X, wrapping within page 0.
    ZeroPageX,
    /// One byte plus Y, wrapping within page 0.
    ZeroPageY,
    /// Two bytes give the address.
    Absolute,
    /// Two bytes plus X.
    AbsoluteX,
    /// Two bytes plus Y.
    AbsoluteY,
    /// Two bytes give the address of the address.
    Indirect,
    /// One byte plus X, within page 0, gives the address of the address.
    IndirectX,
    /// One byte gives the page 0 address of a base, to which Y is added.
    IndirectY,
    /// One signed byte, relative to the following instruction.
    Relative,
}

/// An effective address, and whether forming it left the page of its base.
#[derive(Debug, Clone, Copy, PartialEq, Eq, Structural)]
pub struct AddressResult {
    pub address: u16,
    pub page_crossed: bool,
}

/// Number of operand bytes that follow the opcode.
pub open spec fn operand_len(mode: AddressingMode) -> u16 {
    match mode {
        AddressingMode::Implied => 0,
        AddressingMode::Immediate
        | AddressingMode::ZeroPage
        | AddressingMode::ZeroPageX
        | AddressingMode::ZeroPageY
        | AddressingMode::IndirectX
        | AddressingMode::IndirectY
        | AddressingMode::Relative => 1,
        AddressingMode::Absolute
        | AddressingMode::AbsoluteX
        | AddressingMode::AbsoluteY
        | AddressingMode::Indirect => 2,
    }
}

/// Whether `a` and `b` lie on different 256-byte pages.
pub open spec fn pages_differ(a: u16, b: u16) -> bool {
    (a & 0xFF00) != (b & 0xFF00)
}

/// A branch displacement read as a signed number.
pub open spec fn displacement(byte: u8) -> i16 {
    if byte < 0x80 {
        byte as i16
    } else {
        (byte - 0x100) as i16
    }
}

/// Where the high byte of an indirect jump's target is fetched from. The
/// 6502 does not carry into the pointer's high byte: a pointer at `$xxFF`
/// takes its high byte from `$xx00`.
pub open spec fn indirect_high_addr(ptr: u16) -> u16 {
    if (ptr & 0xFF) == 0xFF {
        ptr & 0xFF00
    } else {
        ptr.wrapping_add(1)
    }
}

/// `base` indexed by `index`, with the page-cross report.
pub open spec fn indexed(base: u16, index: u8) -> AddressResult {
    let address = base.wrapping_add(index as u16);
    AddressResult { address, page_crossed: pages_differ(base, address) }
}

/// The effective address of an operand in mode `mode` whose first byte is
/// at `cpu.pc`.
pub open spec fn resolve<M: Memory>(cpu: Cpu, mem: M::State, mode: AddressingMode)
    -> AddressResult {
    let b0 = M::peek(mem, cpu.pc);
    let b1 = M::peek(mem, cpu.pc.wrapping_add(1));
    match mode {
        AddressingMode::Implied | AddressingMode::Immediate => AddressResult {
            address: cpu.pc,
            page_crossed: false,
        },
        AddressingMode::ZeroPage => AddressResult { address: b0 as u16, page_crossed: false },
        AddressingMode::ZeroPageX => AddressResult {
            address: b0.wrapping_add(cpu.x) as u16,
            page_crossed: false,
        },
        AddressingMode::ZeroPageY => AddressResult {
            address: b0.wrapping_add(cpu.y) as u16,
            page_crossed: false,
        },
        AddressingMode::Absolute => AddressResult { address: word(b0, b1), page_crossed: false },
        AddressingMode::AbsoluteX => indexed(word(b0, b1), cpu.x),
        AddressingMode::AbsoluteY => indexed(word(b0, b1), cpu.y),
        AddressingMode::Indirect => {
            let ptr = word(b0, b1);
            AddressResult {
                address: word(M::peek(mem, ptr), M::peek(mem, indirect_high_addr(ptr))),
                page_crossed: false,
            }
        },
        AddressingMode::IndirectX => {
            let ptr = b0.wrapping_add(cpu.x);
            AddressResult {
                address: word(
                    M::peek(mem, ptr as u16),
                    M::peek(mem, ptr.wrapping_add(1) as u16),
                ),
                page_crossed: false,
            }
        },
        AddressingMode::IndirectY => indexed(
            word(M::peek(mem, b0 as u16), M::peek(mem, b0.wrapping_add(1) as u16)),
            cpu.y,
        ),
        AddressingMode::Relative => {
            let address = cpu.pc.wrapping_add(1).wrapping_add_signed(displacement(b0));
            AddressResult { address, page_crossed: pages_differ(cpu.pc, address) }
        },
    }
}

/// `cpu` with the program counter moved past an operand of mode `mode`.
pub open spec fn past_operand(cpu: Cpu, mode: AddressingMode) -> Cpu {
    Cpu { pc: cpu.pc.wrapping_add(operand_len(mode)), ..cpu }
}

impl Cpu {
    /// Reads the operand bytes at the program counter, moves the program
    /// counter past them and returns the effective address.
    ///
    /// Zero-page indexing wraps within page 0. The indexed absolute modes
    /// and `(indirect),Y` report whether the index left the page of the
    /// base. A relative target is reported as crossing when it lies on
    /// another page than the branch's operand byte. The indirect mode
    /// fetches the target's high byte without carrying into the pointer's
    /// high byte.
    pub fn get_operand_address<M: Memory>(&mut self, memory: &M, mode: AddressingMode) -> (result:
        AddressResult)
        ensures
            result == resolve::<M>(*old(self), memory.state(), mode),
            *final(self) == past_operand(*old(self), mode),
    {
        match mode {
            AddressingMode::Implied => AddressResult { address: self.pc, page_crossed: false },
            AddressingMode::Immediate => {
                let addr = self.pc;
                self.pc = self.pc.wrapping_add(1);
                AddressResult { address: addr, page_crossed: false }
            },
            AddressingMode::ZeroPage => {
                let addr = memory.read(self.pc) as u16;
                self.pc = self.pc.wrapping_add(1);
                AddressResult { address: addr, page_crossed: false }
            },
            AddressingMode::ZeroPageX => {
                let base = memory.read(self.pc);
                self.pc = self.pc.wrapping_add(1);
                let addr = base.wrapping_add(self.x) as u16;
                AddressResult { address: addr, page_crossed: false }
            },
            AddressingMode::ZeroPageY => {
                let base = memory.read(self.pc);
                self.pc = self.pc.wrapping_add(1);
                let addr = base.wrapping_add(self.y) as u16;
                AddressResult { address: addr, page_crossed: false }
            },
            AddressingMode::Absolute => {
                let lo = memory.read(self.pc);
                let hi = memory.read(self.pc.wrapping_add(1));
                self.pc = self.pc.wrapping_add(2);
                AddressResult { address: ((hi as u16) << 8) | (lo as u16), page_crossed: false }
            },
            AddressingMode::AbsoluteX => {
                let lo = memory.read(self.pc);
                let hi = memory.read(self.pc.wrapping_add(1));
                self.pc = self.pc.wrapping_add(2);
                let base = ((hi as u16) << 8) | (lo as u16);
                let addr = base.wrapping_add(self.x as u16);
                let page_crossed = (base & 0xFF00) != (addr & 0xFF00);
                AddressResult { address: addr, page_crossed }
            },
            AddressingMode::AbsoluteY => {
                let lo = memory.read(self.pc);
                let hi = memory.read(self.pc.wrapping_add(1));
                self.pc = self.pc.wrapping_add(2);
                let base = ((hi as u16) << 8) | (lo as u16);
                let addr = base.wrapping_add(self.y as u16);
                let page_crossed = (base & 0xFF00) != (addr & 0xFF00);
                AddressResult { address: addr, page_crossed }
            },
            AddressingMode::Indirect => {
                let ptr_lo = memory.read(self.pc);
                let ptr_hi = memory.read(self.pc.wrapping_add(1));
                self.pc = self.pc.wrapping_add(2);
                let ptr = ((ptr_hi as u16) << 8) | (ptr_lo as u16);
                let lo = memory.read(ptr);
                let hi_addr = if (ptr & 0xFF) == 0xFF {
                    ptr & 0xFF00
                } else {
                    ptr.wrapping_add(1)
                };
                let hi = memory.read(hi_addr);
                AddressResult { address: ((hi as u16) << 8) | (lo as u16), page_crossed: false }
            },
            AddressingMode::IndirectX => {
                let base = memory.read(self.pc);
                self.pc = self.pc.wrapping_add(1);
                let ptr = base.wrapping_add(self.x);
                let lo = memory.read(ptr as u16);
                let hi = memory.read(ptr.wrapping_add(1) as u16);
                AddressResult { address: ((hi as u16) << 8) | (lo as u16), page_crossed: false }
            },
            AddressingMode::IndirectY => {
                let ptr = memory.read(self.pc);
                self.pc = self.pc.wrapping_add(1);
                let lo = memory.read(ptr as u16);
                let hi = memory.read(ptr.wrapping_add(1) as u16);
                let base = ((hi as u16) << 8) | (lo as u16);
                let addr = base.wrapping_add(self.y as u16);
                let page_crossed = (base & 0xFF00) != (addr & 0xFF00);
                AddressResult { address: addr, page_crossed }
            },
            AddressingMode::Relative => {
                let operand_addr = self.pc;
                let byte = memory.read(self.pc);
                let offset: i16 = if byte < 0x80 {
                    byte as i16
                } else {
                    byte as i16 - 0x100
                };
                self.pc = self.pc.wrapping_add(1);
                let addr = self.pc.wrapping_add_signed(offset);
                let page_crossed = (operand_addr & 0xFF00) != (addr & 0xFF00);
                AddressResult { address: addr, page_crossed }
            },
        }
    }
}

} // verus!
