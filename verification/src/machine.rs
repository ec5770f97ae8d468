//! One step of the whole machine: the CPU runs an instruction, the chips
//! catch up, and a pending interrupt request is offered to the CPU.

use crate::cpu::traps::{
    answered, lemma_answer_frame, load_address, load_answered, loaded, pending, DiskReply,
    DiskRequest, TrapModel, DEVICE_NUMBER, DISK, LOAD_ENTRY, NAME_LENGTH, NAME_POINTER,
    SECONDARY_ADDRESS, TRAP_CYCLES,
};
use crate::cpu::{
    apart_from_stack, interrupted, lemma_interrupt_registers, lemma_step_frame, stepped, word,
    Cpu, DecodeError, Machine, StatusFlags, IRQ_VECTOR,
};
use crate::memory::{C64Memory, C64State, Memory};
use crate::storage::{listing, DirEntryModel, BASIC_START};
use vstd::prelude::*;

verus! {

/// `m` after an interrupt request was offered to the CPU: with I set it is
/// ignored.
pub open spec fn irq_offered(m: Machine<C64State>) -> Machine<C64State> {
    if m.cpu.status.interrupt {
        m
    } else {
        interrupted::<C64Memory>(m, IRQ_VECTOR)
    }
}

/// `m` after the chips caught up with an instruction of `cycles` cycles:
/// CIA1, CIA2 and the VIC-II advance, and if one of them requests an
/// interrupt the request is offered to the CPU.
pub open spec fn chips_served(m: Machine<C64State>, cycles: u8) -> Machine<C64State> {
    let ticked = Machine { cpu: m.cpu, mem: m.mem.ticked(cycles) };
    if m.mem.tick_irq(cycles) {
        irq_offered(ticked)
    } else {
        ticked
    }
}

/// What one call of [`advance`] makes of `m`, and what it returns: the
/// instruction of [`stepped`] and, unless it faulted, the chips' part.
pub open spec fn advanced(m: Machine<C64State>) -> (Machine<C64State>, Result<u8, DecodeError>) {
    let (after, result) = stepped::<C64Memory>(m);
    match result {
        Ok(cycles) => (chips_served(after, cycles), result),
        Err(_) => (after, result),
    }
}

/// A machine whose raster is less than a line's cycles into its line stays
/// so: an instruction takes at most seven cycles, the CPU cannot touch the
/// count, and each tick takes a whole line off it.
pub proof fn lemma_line_bound_kept(m: Machine<C64State>)
    requires
        m.cpu.cycles <= u64::MAX - 14,
        m.mem.vic.cycle_count < 63,
    ensures
        advanced(m).0.mem.vic.cycle_count < 63,
        advanced(m).0.cpu.cycles <= m.cpu.cycles + 14,
{
    let count = m.mem.vic.cycle_count;
    lemma_step_frame::<C64Memory>(m, |s: C64State| s.vic.cycle_count == count);
}

/// Lets the chips catch up with an instruction that took `cycles` cycles
/// and offers their interrupt request, if any, to the CPU.
pub fn serve_chips(cpu: &mut Cpu, memory: &mut C64Memory, cycles: u8)
    requires
        old(cpu).cycles <= u64::MAX - 7,
        old(memory).state().vic.cycle_count + cycles <= u16::MAX,
    ensures
        (Machine { cpu: *final(cpu), mem: final(memory).state() }) == chips_served(
            Machine { cpu: *old(cpu), mem: old(memory).state() },
            cycles,
        ),
{
    if memory.tick(cycles) {
        cpu.irq(memory);
    }
}

/// Finishes the disk trap that asked `request` with the host's answer
/// `reply`, in place of a step: the CPU takes the answer and returns to the
/// trap's caller, and the chips catch up with the cycles of the trap.
pub fn answer(cpu: &mut Cpu, memory: &mut C64Memory, request: &DiskRequest, reply: DiskReply) -> (cycles:
    u8)
    requires
        old(cpu).cycles <= u64::MAX - 7,
        old(memory).state().vic.cycle_count <= u16::MAX - 6,
    ensures
        cycles == TRAP_CYCLES,
        (Machine { cpu: *final(cpu), mem: final(memory).state() }) == chips_served(
            answered::<C64Memory>(
                Machine { cpu: *old(cpu), mem: old(memory).state() },
                request@,
                reply,
            ),
            TRAP_CYCLES,
        ),
{
    proof {
        let count = memory.state().vic.cycle_count;
        lemma_answer_frame::<C64Memory>(
            Machine { cpu: *cpu, mem: memory.state() },
            request@,
            reply,
            |s: C64State| s.vic.cycle_count == count,
        );
    }
    let cycles = cpu.resume(memory, request, reply);
    serve_chips(cpu, memory, cycles);
    cycles
}

/// Runs one instruction on the whole machine and returns its cycles.
pub fn advance(cpu: &mut Cpu, memory: &mut C64Memory) -> (result: Result<u8, DecodeError>)
    requires
        old(cpu).cycles <= u64::MAX - 14,
        old(memory).state().vic.cycle_count <= u16::MAX - 7,
    ensures
        (Machine { cpu: *final(cpu), mem: final(memory).state() }, result) == advanced(
            Machine { cpu: *old(cpu), mem: old(memory).state() },
        ),
{
    proof {
        let count = memory.state().vic.cycle_count;
        lemma_step_frame::<C64Memory>(
            Machine { cpu: *cpu, mem: memory.state() },
            |s: C64State| s.vic.cycle_count == count,
        );
    }
    match cpu.step(memory) {
        Ok(cycles) => {
            serve_chips(cpu, memory, cycles);
            Ok(cycles)
        },
        Err(fault) => Err(fault),
    }
}

/// The interrupt law on the machine. Whatever is banked in, an interrupt
/// request that the CPU takes sets I, loads the program counter from the
/// word that a read of `$FFFE` and `$FFFF` returned before, charges seven
/// cycles, moves the stack pointer down by three and leaves A, X, Y and the
/// other flags as they were.
pub proof fn lemma_irq_taken(m: Machine<C64State>)
    requires
        m.mem.wf(),
        !m.cpu.status.interrupt,
        m.cpu.cycles <= u64::MAX - 7,
    ensures
        irq_offered(m).cpu == (Cpu {
            pc: word(m.mem.read(0xFFFE), m.mem.read(0xFFFF)),
            sp: m.cpu.sp.wrapping_sub(3),
            status: StatusFlags { interrupt: true, ..m.cpu.status },
            cycles: (m.cpu.cycles + 7) as u64,
            ..m.cpu
        }),
        irq_offered(m).mem.wf(),
{
    let good = |s: C64State| s.wf();
    assert(apart_from_stack::<C64Memory>(good, 0xFFFE)) by {
        assert forall|s: C64State, at: u16, value: u8|
            good(s) && 0x0100 <= at <= 0x01FF implies good(
                #[trigger] C64Memory::poke(s, at, value),
            ) && C64Memory::peek(C64Memory::poke(s, at, value), 0xFFFE) == C64Memory::peek(
                s,
                0xFFFE,
            ) by {}
    }
    assert(apart_from_stack::<C64Memory>(good, 0xFFFF)) by {
        assert forall|s: C64State, at: u16, value: u8|
            good(s) && 0x0100 <= at <= 0x01FF implies good(
                #[trigger] C64Memory::poke(s, at, value),
            ) && C64Memory::peek(C64Memory::poke(s, at, value), 0xFFFF) == C64Memory::peek(
                s,
                0xFFFF,
            ) by {}
    }
    lemma_interrupt_registers::<C64Memory>(m, IRQ_VECTOR, good);
}

proof fn lemma_copied_ram(s: C64State, start: u16, data: Seq<u8>, n: nat)
    requires
        s.wf(),
        2 <= start,
        start + n <= 0xA000,
        n <= data.len(),
    ensures
        ({
            let c = crate::cpu::traps::copied::<C64Memory>(s, start, data, n);
            &&& c == (C64State { ram: c.ram, ..s })
            &&& c.ram.len() == s.ram.len()
            &&& forall|j: int|
                0 <= j < 0x10000 ==> #[trigger] c.ram[j] == (if start <= j < start + n {
                    data[j - start]
                } else {
                    s.ram[j]
                })
        }),
    decreases n,
{
    if n > 0 {
        lemma_copied_ram(s, start, data, (n - 1) as nat);
    }
}

/// A loaded program can be read back. When the program goes to RAM above
/// the stack page and below `$A000`, each of its bytes is read back from
/// its place whatever is banked in; the four end pointers in the zero page,
/// X and Y hold the address behind the program, and carry is clear.
pub proof fn lemma_program_loaded(m: Machine<C64State>, start: u16, data: Seq<u8>)
    requires
        m.mem.wf(),
        0x0200 <= load_address::<C64Memory>(m.cpu, m.mem, start),
        load_address::<C64Memory>(m.cpu, m.mem, start) + data.len() <= 0xA000,
    ensures
        ({
            let addr = load_address::<C64Memory>(m.cpu, m.mem, start);
            let end = (addr + data.len()) as u16;
            let lo = (end & 0xFF) as u8;
            let hi = ((end >> 8) & 0xFF) as u8;
            let after = loaded::<C64Memory>(m, start, data);
            &&& after.mem.wf()
            &&& forall|i: int|
                0 <= i < data.len() ==> after.mem.read((addr + i) as u16) == #[trigger] data[i]
            &&& after.mem.read(0xAE) == lo && after.mem.read(0xAF) == hi
            &&& after.mem.read(0x2D) == lo && after.mem.read(0x2E) == hi
            &&& after.mem.read(0x2F) == lo && after.mem.read(0x30) == hi
            &&& after.mem.read(0x31) == lo && after.mem.read(0x32) == hi
            &&& after.cpu.x == lo && after.cpu.y == hi
            &&& !after.cpu.status.carry
        }),
{
    let addr = load_address::<C64Memory>(m.cpu, m.mem, start);
    lemma_copied_ram(m.mem, addr, data, data.len());
}

/// LOAD of the directory. With device 8, the one-byte name `$` and a
/// secondary address other than 0, the trap asks for the directory; once
/// the host's listing of `entries` is taken, it can be read back from
/// `$0801` on, byte for byte, with the end pointers, X and Y behind it and
/// carry clear. The listing is taken to end below `$A000`.
pub proof fn lemma_directory_loaded(m: Machine<C64State>, entries: Seq<DirEntryModel>)
    requires
        m.mem.wf(),
        m.cpu.pc == LOAD_ENTRY,
        m.mem.read(DEVICE_NUMBER) == DISK,
        m.mem.read(NAME_LENGTH) == 1,
        m.mem.read(word(m.mem.read(NAME_POINTER), m.mem.read(0xBC))) == 0x24,
        m.mem.read(SECONDARY_ADDRESS) != 0,
        BASIC_START + listing(entries).len() <= 0xA000,
    ensures
        pending::<C64Memory>(m.cpu, m.mem) == TrapModel::Directory,
        ({
            let data = listing(entries);
            let end = (BASIC_START + data.len()) as u16;
            let lo = (end & 0xFF) as u8;
            let hi = ((end >> 8) & 0xFF) as u8;
            let after = load_answered::<C64Memory>(m, Some((BASIC_START, data)));
            &&& forall|i: int|
                0 <= i < data.len() ==> after.mem.read((BASIC_START + i) as u16) == #[trigger] data[i]
            &&& after.mem.read(0xAE) == lo && after.mem.read(0xAF) == hi
            &&& after.mem.read(0x2D) == lo && after.mem.read(0x2E) == hi
            &&& after.mem.read(0x2F) == lo && after.mem.read(0x30) == hi
            &&& after.mem.read(0x31) == lo && after.mem.read(0x32) == hi
            &&& after.cpu.x == lo && after.cpu.y == hi
            &&& !after.cpu.status.carry
        }),
{
    lemma_program_loaded(m, BASIC_START, listing(entries));
    let name = crate::cpu::traps::file_name::<C64Memory>(m.mem);
    assert(name.len() == 1);
    assert(name[0] == 0x24);
}

} // verus!
