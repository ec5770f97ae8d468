//! The 6502 register file, the status byte, the stack and the interrupt
//! sequences.

pub mod addressing;
pub mod instruction;
pub mod opcodes;
pub mod traps;

use crate::cpu::instruction::{
    decode, kept_by_memory, lemma_bit_five_kept, lemma_counter_kept, lemma_cycles,
    lemma_memory_frame, perform,
};
use crate::cpu::traps::{
    answered, failed, pending, trap_returned, DiskReply, Trap, TrapModel, TRAP_CYCLES,
};
use crate::memory::Memory;
use crate::text::{hex_byte, hex_word, push_hex_byte, push_hex_word};
use vstd::prelude::*;
use vstd::string::StringExecFns;

verus! {

/// The processor status register, one field per flag.
#[derive(Debug, Clone, Copy, PartialEq, Eq, Structural)]
pub struct StatusFlags {
    /// C
    pub carry: bool,
    /// Z
    pub zero: bool,
    /// I: set while maskable interrupts are disabled
    pub interrupt: bool,
    /// D
    pub decimal: bool,
    /// B
    pub break_flag: bool,
    /// Bit 5, which reads as 1
    pub unused: bool,
    /// V
    pub overflow: bool,
    /// N
    pub negative: bool,
}

/// `mask` where `flag` is set, else 0.
pub open spec fn flag_bit(flag: bool, mask: u8) -> u8 {
    if flag {
        mask
    } else {
        0
    }
}

impl StatusFlags {
    /// The flags packed as NV1BDIZC, bit 7 first.
    pub open spec fn byte(self) -> u8 {
        flag_bit(self.carry, 0x01) | flag_bit(self.zero, 0x02) | flag_bit(self.interrupt, 0x04)
            | flag_bit(self.decimal, 0x08) | flag_bit(self.break_flag, 0x10) | flag_bit(
            self.unused,
            0x20,
        ) | flag_bit(self.overflow, 0x40) | flag_bit(self.negative, 0x80)
    }

    /// The flags that a status byte stands for; bit 5 is taken as set.
    pub open spec fn of_byte(byte: u8) -> StatusFlags {
        StatusFlags {
            carry: (byte & 0x01) != 0,
            zero: (byte & 0x02) != 0,
            interrupt: (byte & 0x04) != 0,
            decimal: (byte & 0x08) != 0,
            break_flag: (byte & 0x10) != 0,
            unused: true,
            overflow: (byte & 0x40) != 0,
            negative: (byte & 0x80) != 0,
        }
    }

    /// These flags with Z and N taken from `value`.
    pub open spec fn with_zero_negative(self, value: u8) -> StatusFlags {
        StatusFlags { zero: value == 0, negative: (value & 0x80) != 0, ..self }
    }

    /// The flags after reset: interrupts disabled, bit 5 set, the rest clear.
    pub fn new() -> (flags: Self)
        ensures
            flags == (StatusFlags {
                carry: false,
                zero: false,
                interrupt: true,
                decimal: false,
                break_flag: false,
                unused: true,
                overflow: false,
                negative: false,
            }),
    {
        StatusFlags {
            carry: false,
            zero: false,
            interrupt: true,
            decimal: false,
            break_flag: false,
            unused: true,
            overflow: false,
            negative: false,
        }
    }

    /// Packs the flags into one byte.
    pub fn as_byte(&self) -> (byte: u8)
        ensures
            byte == self.byte(),
    {
        let c: u8 = if self.carry { 0x01 } else { 0 };
        let z: u8 = if self.zero { 0x02 } else { 0 };
        let i: u8 = if self.interrupt { 0x04 } else { 0 };
        let d: u8 = if self.decimal { 0x08 } else { 0 };
        let b: u8 = if self.break_flag { 0x10 } else { 0 };
        let u: u8 = if self.unused { 0x20 } else { 0 };
        let v: u8 = if self.overflow { 0x40 } else { 0 };
        let n: u8 = if self.negative { 0x80 } else { 0 };
        c | z | i | d | b | u | v | n
    }

    /// Unpacks a status byte. Bit 5 of the input is ignored: it always
    /// reads back as 1.
    pub fn from_byte(byte: u8) -> (flags: Self)
        ensures
            flags == Self::of_byte(byte),
    {
        StatusFlags {
            carry: (byte & 0x01) != 0,
            zero: (byte & 0x02) != 0,
            interrupt: (byte & 0x04) != 0,
            decimal: (byte & 0x08) != 0,
            break_flag: (byte & 0x10) != 0,
            unused: true,
            overflow: (byte & 0x40) != 0,
            negative: (byte & 0x80) != 0,
        }
    }

    /// Sets Z when `value` is zero and N to bit 7 of `value`.
    pub fn update_zero_negative(&mut self, value: u8)
        ensures
            *final(self) == old(self).with_zero_negative(value),
    {
        self.zero = value == 0;
        self.negative = (value & 0x80) != 0;
    }
}

/// Packing what was unpacked gives the byte back with bit 5 set.
pub proof fn lemma_status_round_trip(byte: u8)
    ensures
        StatusFlags::of_byte(byte).byte() == byte | 0x20,
{
    let c = flag_bit((byte & 0x01) != 0, 0x01);
    let z = flag_bit((byte & 0x02) != 0, 0x02);
    let i = flag_bit((byte & 0x04) != 0, 0x04);
    let d = flag_bit((byte & 0x08) != 0, 0x08);
    let b = flag_bit((byte & 0x10) != 0, 0x10);
    let v = flag_bit((byte & 0x40) != 0, 0x40);
    let n = flag_bit((byte & 0x80) != 0, 0x80);
    assert((c | z | i | d | b | 0x20u8 | v | n) == byte | 0x20) by (bit_vector)
        requires
            c == (if (byte & 0x01) != 0 { 0x01u8 } else { 0u8 }),
            z == (if (byte & 0x02) != 0 { 0x02u8 } else { 0u8 }),
            i == (if (byte & 0x04) != 0 { 0x04u8 } else { 0u8 }),
            d == (if (byte & 0x08) != 0 { 0x08u8 } else { 0u8 }),
            b == (if (byte & 0x10) != 0 { 0x10u8 } else { 0u8 }),
            v == (if (byte & 0x40) != 0 { 0x40u8 } else { 0u8 }),
            n == (if (byte & 0x80) != 0 { 0x80u8 } else { 0u8 }),
    ;
}

/// The 16-bit word with low byte `lo` and high byte `hi`.
pub open spec fn word(lo: u8, hi: u8) -> u16 {
    ((hi as u16) << 8) | (lo as u16)
}

/// Bits 0 to 7 of `value`.
pub open spec fn low_byte(value: u16) -> u8 {
    (value & 0xFF) as u8
}

/// Bits 8 to 15 of `value`.
pub open spec fn high_byte(value: u16) -> u8 {
    (value >> 8) as u8
}

/// The address in page 1 that stack pointer `sp` designates.
pub open spec fn stack_addr(sp: u8) -> u16 {
    0x0100 | (sp as u16)
}

/// The little-endian word stored at `addr` and `addr + 1`.
pub open spec fn word_at<M: Memory>(mem: M::State, addr: u16) -> u16 {
    word(M::peek(mem, addr), M::peek(mem, addr.wrapping_add(1)))
}

/// Address of the NMI vector.
pub const NMI_VECTOR: u16 = 0xFFFA;

/// Address of the reset vector.
pub const RESET_VECTOR: u16 = 0xFFFC;

/// Address of the vector shared by IRQ and BRK.
pub const IRQ_VECTOR: u16 = 0xFFFE;

/// Cycles that an interrupt sequence takes.
pub const INTERRUPT_CYCLES: u8 = 7;

/// The 6502 register file with a running count of cycles.
#[derive(Debug)]
pub struct Cpu {
    /// Accumulator
    pub a: u8,
    /// Index register X
    pub x: u8,
    /// Index register Y
    pub y: u8,
    /// Program counter
    pub pc: u16,
    /// Stack pointer: the stack's next free byte is at `$0100 + sp`
    pub sp: u8,
    /// Processor status
    pub status: StatusFlags,
    /// Cycles executed since the last reset
    pub cycles: u64,
}

/// The fault raised by a byte that is none of the documented opcodes.
#[derive(Debug, Clone, Copy, PartialEq, Eq, Structural)]
pub struct DecodeError {
    /// The byte that could not be decoded.
    pub opcode: u8,
    /// The address it was fetched from.
    pub pc: u16,
}

/// The message of a decode fault.
pub open spec fn fault_text(fault: DecodeError) -> Seq<char> {
    "Unimplemented opcode: 0x"@ + hex_byte(fault.opcode) + " at PC: 0x"@ + hex_word(fault.pc)
}

impl DecodeError {
    /// A message that names the byte and the address it was fetched from.
    pub fn message(&self) -> (text: String)
        ensures
            text@ == fault_text(*self),
    {
        let mut text = String::from_str("Unimplemented opcode: 0x");
        push_hex_byte(&mut text, self.opcode);
        text.append(" at PC: 0x");
        push_hex_word(&mut text, self.pc);
        text
    }
}

/// A CPU together with the state of the memory it runs on.
pub struct Machine<S> {
    pub cpu: Cpu,
    pub mem: S,
}

/// `m` after `value` went onto the stack.
pub open spec fn pushed<M: Memory>(m: Machine<M::State>, value: u8) -> Machine<M::State> {
    Machine {
        cpu: Cpu { sp: m.cpu.sp.wrapping_sub(1), ..m.cpu },
        mem: M::poke(m.mem, stack_addr(m.cpu.sp), value),
    }
}

/// `m` after `value` went onto the stack, high byte first.
pub open spec fn pushed_word<M: Memory>(m: Machine<M::State>, value: u16) -> Machine<M::State> {
    pushed::<M>(pushed::<M>(m, high_byte(value)), low_byte(value))
}

/// The byte on top of the stack of `m`.
pub open spec fn stack_top<M: Memory>(m: Machine<M::State>) -> u8 {
    M::peek(m.mem, stack_addr(m.cpu.sp.wrapping_add(1)))
}

/// `m` after one byte left the stack.
pub open spec fn popped<M: Memory>(m: Machine<M::State>) -> Machine<M::State> {
    Machine { cpu: Cpu { sp: m.cpu.sp.wrapping_add(1), ..m.cpu }, mem: m.mem }
}

/// The word on top of the stack of `m`, its low byte uppermost.
pub open spec fn stack_top_word<M: Memory>(m: Machine<M::State>) -> u16 {
    word(stack_top::<M>(m), stack_top::<M>(popped::<M>(m)))
}

/// The status byte that an interrupt sequence pushes: the flags with bit 5
/// set and B as given.
pub open spec fn pushed_status(status: StatusFlags, brk: bool) -> u8 {
    (StatusFlags { break_flag: brk, unused: true, ..status }).byte()
}

/// `m` after the hardware interrupt sequence through `vector`: the program
/// counter and the status (with B clear) are pushed, I is set, the program
/// counter is loaded from the vector and seven cycles are charged.
pub open spec fn interrupted<M: Memory>(m: Machine<M::State>, vector: u16) -> Machine<M::State> {
    let saved = pushed::<M>(pushed_word::<M>(m, m.cpu.pc), pushed_status(m.cpu.status, false));
    Machine {
        cpu: Cpu {
            pc: word_at::<M>(saved.mem, vector),
            status: StatusFlags { interrupt: true, ..m.cpu.status },
            cycles: (m.cpu.cycles + INTERRUPT_CYCLES) as u64,
            ..saved.cpu
        },
        mem: saved.mem,
    }
}

/// Unpacking what was packed gives the flags back, with bit 5 taken as
/// set: each flag is its own bit of the status byte, and bit 5 of the byte
/// is the `unused` flag.
pub proof fn lemma_status_unpack(flags: StatusFlags)
    ensures
        StatusFlags::of_byte(flags.byte()) == (StatusFlags { unused: true, ..flags }),
        (flags.byte() & 0x20) != 0 <==> flags.unused,
{
    let c = flag_bit(flags.carry, 0x01);
    let z = flag_bit(flags.zero, 0x02);
    let i = flag_bit(flags.interrupt, 0x04);
    let d = flag_bit(flags.decimal, 0x08);
    let b = flag_bit(flags.break_flag, 0x10);
    let u = flag_bit(flags.unused, 0x20);
    let v = flag_bit(flags.overflow, 0x40);
    let n = flag_bit(flags.negative, 0x80);
    let byte = c | z | i | d | b | u | v | n;
    assert(((byte & 0x01) != 0 <==> c != 0) && ((byte & 0x02) != 0 <==> z != 0) && ((byte & 0x04)
        != 0 <==> i != 0) && ((byte & 0x08) != 0 <==> d != 0) && ((byte & 0x10) != 0 <==> b != 0)
        && ((byte & 0x20) != 0 <==> u != 0) && ((byte & 0x40) != 0 <==> v != 0) && ((byte & 0x80)
        != 0 <==> n != 0)) by (bit_vector)
        requires
            byte == c | z | i | d | b | u | v | n,
            c == 0 || c == 0x01,
            z == 0 || z == 0x02,
            i == 0 || i == 0x04,
            d == 0 || d == 0x08,
            b == 0 || b == 0x10,
            u == 0 || u == 0x20,
            v == 0 || v == 0x40,
            n == 0 || n == 0x80,
    ;
}

/// A word is made of its two bytes, and a stack address is `$0100` plus
/// the stack pointer.
pub proof fn lemma_word_bytes(value: u16, sp: u8)
    ensures
        word(low_byte(value), high_byte(value)) == value,
        stack_addr(sp) == 0x0100 + sp,
{
    assert((((value >> 8) as u8) as u16) << 8 | (((value & 0xFF) as u8) as u16) == value)
        by (bit_vector);
    assert(0x0100u16 | (sp as u16) == 0x0100 + sp) by (bit_vector);
}

/// On a flat RAM a byte that was pushed is on top of the stack, and popping
/// it leaves the registers as they were before the push.
pub proof fn lemma_push_pop(cpu: Cpu, ram: Seq<u8>, value: u8)
    requires
        ram.len() == 0x10000,
    ensures
        ({
            let after = pushed::<crate::memory::BasicMemory>(Machine { cpu, mem: ram }, value);
            &&& stack_top::<crate::memory::BasicMemory>(after) == value
            &&& popped::<crate::memory::BasicMemory>(after).cpu == cpu
        }),
{
    lemma_word_bytes(0, cpu.sp);
}

/// The interrupt sequence spelled out. Three bytes are written below the
/// stack pointer: the high byte of the program counter, its low byte, and
/// the status byte with bit 4 (B) clear and bit 5 set. Then I is set, the
/// stack pointer is three lower and the program counter holds the word at
/// the vector.
pub proof fn lemma_interrupt_law<M: Memory>(m: Machine<M::State>, vector: u16)
    ensures
        ({
            let after = interrupted::<M>(m, vector);
            let status = pushed_status(m.cpu.status, false);
            &&& after.mem == M::poke(
                M::poke(
                    M::poke(m.mem, stack_addr(m.cpu.sp), high_byte(m.cpu.pc)),
                    stack_addr(m.cpu.sp.wrapping_sub(1)),
                    low_byte(m.cpu.pc),
                ),
                stack_addr(m.cpu.sp.wrapping_sub(2)),
                status,
            )
            &&& (status & 0x10) == 0 && (status & 0x20) != 0
            &&& StatusFlags::of_byte(status) == (StatusFlags {
                break_flag: false,
                unused: true,
                ..m.cpu.status
            })
            &&& after.cpu.status == (StatusFlags { interrupt: true, ..m.cpu.status })
            &&& after.cpu.sp == m.cpu.sp.wrapping_sub(3)
            &&& after.cpu.pc == word_at::<M>(after.mem, vector)
            &&& after.cpu.cycles == (m.cpu.cycles + 7) as u64
        }),
{
    lemma_status_unpack(StatusFlags { break_flag: false, unused: true, ..m.cpu.status });
}

/// On a flat RAM the three bytes of an interrupt sequence can be read back
/// from the stack: first the high byte of the program counter at the old
/// stack pointer, below it the low byte, below that the status byte.
pub proof fn lemma_interrupt_stack(cpu: Cpu, ram: Seq<u8>, vector: u16)
    requires
        ram.len() == 0x10000,
    ensures
        ({
            let after = interrupted::<crate::memory::BasicMemory>(
                Machine { cpu, mem: ram },
                vector,
            );
            &&& after.mem[0x0100 + cpu.sp] == high_byte(cpu.pc)
            &&& after.mem[0x0100 + cpu.sp.wrapping_sub(1)] == low_byte(cpu.pc)
            &&& after.mem[0x0100 + cpu.sp.wrapping_sub(2)] == pushed_status(cpu.status, false)
        }),
{
    lemma_word_bytes(cpu.pc, cpu.sp);
    lemma_word_bytes(cpu.pc, cpu.sp.wrapping_sub(1));
    lemma_word_bytes(cpu.pc, cpu.sp.wrapping_sub(2));
}

/// Whether a write into the stack page leaves a read of `addr` as it was,
/// in every state that is `good`, and leaves the state `good`.
pub open spec fn apart_from_stack<M: Memory>(good: spec_fn(M::State) -> bool, addr: u16) -> bool {
    forall|s: M::State, at: u16, value: u8|
        good(s) && 0x0100 <= at <= 0x01FF ==> good(#[trigger] M::poke(s, at, value)) && M::peek(
            M::poke(s, at, value),
            addr,
        ) == M::peek(s, addr)
}

/// The interrupt law. On a memory whose stack page is apart from the
/// vector, the interrupt sequence sets I, loads the program counter from
/// the word that the vector held before, charges seven cycles, moves the
/// stack pointer down by three and leaves A, X, Y and every other flag as
/// they were.
pub proof fn lemma_interrupt_registers<M: Memory>(
    m: Machine<M::State>,
    vector: u16,
    good: spec_fn(M::State) -> bool,
)
    requires
        good(m.mem),
        apart_from_stack::<M>(good, vector),
        apart_from_stack::<M>(good, vector.wrapping_add(1)),
        m.cpu.cycles <= u64::MAX - 7,
    ensures
        interrupted::<M>(m, vector).cpu == (Cpu {
            pc: word(M::peek(m.mem, vector), M::peek(m.mem, vector.wrapping_add(1))),
            sp: m.cpu.sp.wrapping_sub(3),
            status: StatusFlags { interrupt: true, ..m.cpu.status },
            cycles: (m.cpu.cycles + 7) as u64,
            ..m.cpu
        }),
        interrupted::<M>(m, vector).cpu.cycles == m.cpu.cycles + 7,
        good(interrupted::<M>(m, vector).mem),
{
    lemma_word_bytes(0, m.cpu.sp);
    lemma_word_bytes(0, m.cpu.sp.wrapping_sub(1));
    lemma_word_bytes(0, m.cpu.sp.wrapping_sub(2));
    let m1 = pushed::<M>(m, high_byte(m.cpu.pc));
    let m2 = pushed::<M>(m1, low_byte(m.cpu.pc));
    let m3 = pushed::<M>(m2, pushed_status(m.cpu.status, false));
    assert(good(m1.mem) && good(m2.mem) && good(m3.mem));
}

/// The interrupt law on a flat RAM, for a vector above the stack page.
pub proof fn lemma_interrupt_flat(cpu: Cpu, ram: Seq<u8>, vector: u16)
    requires
        ram.len() == 0x10000,
        0x0200 <= vector < 0xFFFF,
        cpu.cycles <= u64::MAX - 7,
    ensures
        interrupted::<crate::memory::BasicMemory>(Machine { cpu, mem: ram }, vector).cpu == (Cpu {
            pc: word(ram[vector as int], ram[vector + 1]),
            sp: cpu.sp.wrapping_sub(3),
            status: StatusFlags { interrupt: true, ..cpu.status },
            cycles: (cpu.cycles + 7) as u64,
            ..cpu
        }),
{
    let good = |s: Seq<u8>| s.len() == 0x10000;
    lemma_interrupt_registers::<crate::memory::BasicMemory>(
        Machine { cpu, mem: ram },
        vector,
        good,
    );
}

/// What one call of [`Cpu::step`] makes of `m`, and what it returns.
///
/// At a trap the call is served and returns to its caller; six cycles are
/// returned without being counted. A trap that fails without the host
/// reports its failure in carry and A; a trap for the disk is served as with
/// no disk attached, so that a LOAD finds no file and a SAVE cannot write.
/// Where there is no trap the byte at the program counter is fetched and,
/// if it is a documented opcode, executed: its cycles are counted and
/// returned. Any other byte is a fault that names the byte and its address;
/// the program counter stays behind it.
pub open spec fn stepped<M: Memory>(m: Machine<M::State>) -> (Machine<M::State>, Result<
    u8,
    DecodeError,
>) {
    let opcode = M::peek(m.mem, m.cpu.pc);
    let fetched = Cpu { pc: m.cpu.pc.wrapping_add(1), ..m.cpu };
    match pending::<M>(m.cpu, m.mem) {
        TrapModel::Refused { code } => (
            trap_returned::<M>(Machine { cpu: failed(m.cpu, code), mem: m.mem }),
            Ok(TRAP_CYCLES),
        ),
        TrapModel::NoTrap => match decode(opcode) {
            Some(instruction) => {
                let done = perform::<M>(instruction.op, instruction.mode, fetched, m.mem);
                (
                    Machine {
                        cpu: Cpu { cycles: (m.cpu.cycles + done.cycles) as u64, ..done.cpu },
                        mem: done.mem,
                    },
                    Ok(done.cycles),
                )
            },
            None => (
                Machine { cpu: fetched, mem: m.mem },
                Err(DecodeError { opcode, pc: m.cpu.pc }),
            ),
        },
        request => (answered::<M>(m, request, DiskReply::NotFound), Ok(TRAP_CYCLES)),
    }
}

/// One step takes at most seven cycles and counts what it returns, but for
/// the six cycles of a served trap. It changes memory by writes and
/// completed reads alone: a property that these keep holds after the step
/// if it held before.
pub proof fn lemma_step_frame<M: Memory>(m: Machine<M::State>, keeps: spec_fn(M::State) -> bool)
    requires
        kept_by_memory::<M>(keeps),
        keeps(m.mem),
        m.cpu.cycles <= u64::MAX - 7,
    ensures
        keeps(stepped::<M>(m).0.mem),
        stepped::<M>(m).1 matches Ok(cycles) ==> cycles <= 7,
        m.cpu.cycles <= stepped::<M>(m).0.cpu.cycles <= m.cpu.cycles + 7,
{
    let opcode = M::peek(m.mem, m.cpu.pc);
    let fetched = Cpu { pc: m.cpu.pc.wrapping_add(1), ..m.cpu };
    lemma_cycles::<M>(opcode, fetched, m.mem);
    match decode(opcode) {
        Some(instruction) => {
            lemma_counter_kept::<M>(instruction.op, instruction.mode, fetched, m.mem);
            lemma_memory_frame::<M>(instruction.op, instruction.mode, fetched, m.mem, keeps);
        },
        None => {},
    }
}

/// Bit 5 of the status reads as 1 at all times: a step and an interrupt
/// sequence leave it set.
pub proof fn lemma_bit_five_stays<M: Memory>(m: Machine<M::State>, vector: u16)
    requires
        m.cpu.status.unused,
    ensures
        stepped::<M>(m).0.cpu.status.unused,
        interrupted::<M>(m, vector).cpu.status.unused,
{
    let opcode = M::peek(m.mem, m.cpu.pc);
    let fetched = Cpu { pc: m.cpu.pc.wrapping_add(1), ..m.cpu };
    match decode(opcode) {
        Some(instruction) => {
            lemma_bit_five_kept::<M>(instruction.op, instruction.mode, fetched, m.mem);
        },
        None => {},
    }
}

impl Cpu {
    /// Runs one instruction and returns the cycles it took.
    ///
    /// At the entry of KERNAL LOAD or SAVE the call is served instead. `step`
    /// has no disk: a host that has one asks [`Cpu::trap`] before each step
    /// and answers a disk request with [`Cpu::resume`] in place of the step.
    pub fn step<M: Memory>(&mut self, memory: &mut M) -> (result: Result<u8, DecodeError>)
        requires
            old(self).cycles <= u64::MAX - 7,
        ensures
            (Machine { cpu: *final(self), mem: final(memory).state() }, result) == stepped::<M>(
                Machine { cpu: *old(self), mem: old(memory).state() },
            ),
    {
        match self.trap(memory) {
            Trap::Refused { code } => {
                self.fail(code);
                self.return_from_trap(memory);
                return Ok(TRAP_CYCLES);
            },
            Trap::Disk(request) => {
                return Ok(self.resume(memory, &request, DiskReply::NotFound));
            },
            Trap::NoTrap => {},
        }
        let opcode = memory.read(self.pc);
        self.pc = self.pc.wrapping_add(1);
        proof {
            lemma_cycles::<M>(opcode, *self, memory.state());
            match decode(opcode) {
                Some(instruction) => {
                    lemma_counter_kept::<M>(
                        instruction.op,
                        instruction.mode,
                        *self,
                        memory.state(),
                    );
                },
                None => {},
            }
        }
        match opcodes::execute(self, memory, opcode) {
            Ok(cycles) => {
                self.cycles = self.cycles + cycles as u64;
                Ok(cycles)
            },
            Err(fault) => Err(fault),
        }
    }

    /// The registers at power-on: all zero but the stack pointer at `$FD`
    /// and interrupts disabled.
    pub open spec fn initial() -> Cpu {
        Cpu {
            a: 0,
            x: 0,
            y: 0,
            pc: 0,
            sp: 0xFD,
            status: StatusFlags {
                carry: false,
                zero: false,
                interrupt: true,
                decimal: false,
                break_flag: false,
                unused: true,
                overflow: false,
                negative: false,
            },
            cycles: 0,
        }
    }

    /// A CPU in its power-on state, with the program counter at 0.
    pub fn new() -> (cpu: Self)
        ensures
            cpu == Self::initial(),
    {
        Cpu { a: 0, x: 0, y: 0, pc: 0, sp: 0xFD, status: StatusFlags::new(), cycles: 0 }
    }

    /// Puts the registers back to their power-on state and loads the
    /// program counter from the reset vector at `$FFFC`.
    pub fn reset<M: Memory>(&mut self, memory: &M)
        ensures
            *final(self) == (Cpu {
                pc: word_at::<M>(memory.state(), RESET_VECTOR),
                ..Self::initial()
            }),
    {
        self.a = 0;
        self.x = 0;
        self.y = 0;
        self.sp = 0xFD;
        self.status = StatusFlags::new();
        let lo = memory.read(RESET_VECTOR);
        let hi = memory.read(RESET_VECTOR.wrapping_add(1));
        self.pc = ((hi as u16) << 8) | (lo as u16);
        self.cycles = 0;
    }

    /// Services an interrupt request. With I set the request is ignored and
    /// nothing changes. Otherwise the program counter (high byte first) and
    /// the status byte (B clear, bit 5 set) go onto the stack, I is set, the
    /// program counter is loaded from `$FFFE` and seven cycles are charged.
    pub fn irq<M: Memory>(&mut self, memory: &mut M)
        requires
            old(self).status.interrupt || old(self).cycles <= u64::MAX - 7,
        ensures
            old(self).status.interrupt ==> *final(self) == *old(self) && final(memory).state()
                == old(memory).state(),
            !old(self).status.interrupt ==> (Machine {
                cpu: *final(self),
                mem: final(memory).state(),
            }) == interrupted::<M>(
                Machine { cpu: *old(self), mem: old(memory).state() },
                IRQ_VECTOR,
            ),
    {
        if !self.status.interrupt {
            self.enter_interrupt(memory, IRQ_VECTOR);
        }
    }

    /// Services a non-maskable interrupt: the sequence of [`Cpu::irq`],
    /// whatever I holds, through the vector at `$FFFA`.
    pub fn nmi<M: Memory>(&mut self, memory: &mut M)
        requires
            old(self).cycles <= u64::MAX - 7,
        ensures
            (Machine { cpu: *final(self), mem: final(memory).state() }) == interrupted::<M>(
                Machine { cpu: *old(self), mem: old(memory).state() },
                NMI_VECTOR,
            ),
    {
        self.enter_interrupt(memory, NMI_VECTOR);
    }

    fn enter_interrupt<M: Memory>(&mut self, memory: &mut M, vector: u16)
        requires
            old(self).cycles <= u64::MAX - 7,
        ensures
            (Machine { cpu: *final(self), mem: final(memory).state() }) == interrupted::<M>(
                Machine { cpu: *old(self), mem: old(memory).state() },
                vector,
            ),
    {
        let pc = self.pc;
        self.push_word(memory, pc);
        let byte = self.status_byte(false);
        self.push(memory, byte);
        self.status.interrupt = true;
        let lo = memory.read(vector);
        let hi = memory.read(vector.wrapping_add(1));
        self.pc = ((hi as u16) << 8) | (lo as u16);
        self.cycles = self.cycles + 7;
    }

    /// The status byte as it goes onto the stack: bit 5 set, B as given.
    pub(crate) fn status_byte(&self, brk: bool) -> (byte: u8)
        ensures
            byte == pushed_status(self.status, brk),
    {
        let mut saved = self.status;
        saved.break_flag = brk;
        saved.unused = true;
        saved.as_byte()
    }

    /// Stores `value` at the stack pointer, which then moves down by one,
    /// wrapping within page 1.
    pub fn push<M: Memory>(&mut self, memory: &mut M, value: u8)
        ensures
            (Machine { cpu: *final(self), mem: final(memory).state() }) == pushed::<M>(
                Machine { cpu: *old(self), mem: old(memory).state() },
                value,
            ),
    {
        let addr = 0x0100 | (self.sp as u16);
        memory.write(addr, value);
        self.sp = self.sp.wrapping_sub(1);
    }

    /// Moves the stack pointer up by one, wrapping within page 1, and
    /// returns the byte it then designates.
    pub fn pop<M: Memory>(&mut self, memory: &M) -> (value: u8)
        ensures
            value == stack_top::<M>(Machine { cpu: *old(self), mem: memory.state() }),
            *final(self) == (Cpu { sp: old(self).sp.wrapping_add(1), ..*old(self) }),
    {
        self.sp = self.sp.wrapping_add(1);
        let addr = 0x0100 | (self.sp as u16);
        memory.read(addr)
    }

    /// Pushes the high byte of `value`, then its low byte.
    pub fn push_word<M: Memory>(&mut self, memory: &mut M, value: u16)
        ensures
            (Machine { cpu: *final(self), mem: final(memory).state() }) == pushed_word::<M>(
                Machine { cpu: *old(self), mem: old(memory).state() },
                value,
            ),
    {
        self.push(memory, (value >> 8) as u8);
        self.push(memory, (value & 0xFF) as u8);
    }

    /// Pops a low byte, then a high byte, and returns the word they form.
    pub fn pop_word<M: Memory>(&mut self, memory: &M) -> (value: u16)
        ensures
            value == stack_top_word::<M>(Machine { cpu: *old(self), mem: memory.state() }),
            *final(self) == (Cpu {
                sp: old(self).sp.wrapping_add(1).wrapping_add(1),
                ..*old(self)
            }),
    {
        let lo = self.pop(memory);
        let hi = self.pop(memory);
        ((hi as u16) << 8) | (lo as u16)
    }
}

} // verus!
