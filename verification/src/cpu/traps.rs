//! The KERNAL LOAD and SAVE entry points, served by the host.
//!
//! When the program counter reaches `$FFD5` (LOAD) or `$FFD8` (SAVE) the
//! call is not run from ROM. The CPU says what it asks of the virtual disk
//! ([`Cpu::trap`]), the host does the file work, and the CPU takes the
//! answer and returns to the caller as an RTS would ([`Cpu::resume`]).

use crate::cpu::instruction::kept_by_memory;
use crate::cpu::{popped, stack_top_word, word, Cpu, Machine, StatusFlags};
use crate::memory::Memory;
use vstd::prelude::*;

verus! {

/// Entry point of KERNAL LOAD.
pub const LOAD_ENTRY: u16 = 0xFFD5;

/// Entry point of KERNAL SAVE.
pub const SAVE_ENTRY: u16 = 0xFFD8;

/// Zero-page cell with the length of the file name.
pub const NAME_LENGTH: u16 = 0xB7;

/// Zero-page cell with the secondary address.
pub const SECONDARY_ADDRESS: u16 = 0xB9;

/// Zero-page cell with the device number.
pub const DEVICE_NUMBER: u16 = 0xBA;

/// Zero-page cells with the address of the file name.
pub const NAME_POINTER: u16 = 0xBB;

/// Device number of the tape, which is not emulated.
pub const TAPE: u8 = 1;

/// Device number of the disk.
pub const DISK: u8 = 8;

/// KERNAL error code FILE NOT FOUND.
pub const FILE_NOT_FOUND: u8 = 4;

/// KERNAL error code DEVICE NOT PRESENT.
pub const DEVICE_NOT_PRESENT: u8 = 5;

/// KERNAL error code reported when the host could not write the file.
pub const WRITE_ERROR: u8 = 26;

/// Cycles charged for a served trap.
pub const TRAP_CYCLES: u8 = 6;

/// What a trap asks of the virtual disk.
pub enum DiskRequest {
    /// Read the program with this name, given as the program wrote it.
    Load { name: Vec<u8> },
    /// Make the directory listing.
    Directory,
    /// Write `data`, which was read from `start` on, under this name.
    Save { name: Vec<u8>, start: u16, data: Vec<u8> },
}

/// What the host answers.
pub enum DiskReply {
    /// The program that was read, or the listing that was made: the load
    /// address in its header and its bytes.
    Program { start: u16, data: Vec<u8> },
    /// There is no such program.
    NotFound,
    /// The program was written.
    Saved,
    /// The program could not be written.
    WriteFailed,
}

/// What the instruction at the program counter is, as far as the traps go.
pub enum Trap {
    /// No trap: the instruction is fetched and executed.
    NoTrap,
    /// A trap that fails without the host: carry is set and, where there is
    /// a code, A takes it.
    Refused { code: Option<u8> },
    /// A trap that the host has to answer.
    Disk(DiskRequest),
}

/// The mathematical model of a [`Trap`].
pub enum TrapModel {
    NoTrap,
    Refused { code: Option<u8> },
    Load { name: Seq<u8> },
    Directory,
    Save { name: Seq<u8>, start: u16, data: Seq<u8> },
}

impl View for DiskRequest {
    type V = TrapModel;

    open spec fn view(&self) -> TrapModel {
        match *self {
            DiskRequest::Load { name } => TrapModel::Load { name: name@ },
            DiskRequest::Directory => TrapModel::Directory,
            DiskRequest::Save { name, start, data } => TrapModel::Save {
                name: name@,
                start,
                data: data@,
            },
        }
    }
}

impl View for Trap {
    type V = TrapModel;

    open spec fn view(&self) -> TrapModel {
        match *self {
            Trap::NoTrap => TrapModel::NoTrap,
            Trap::Refused { code } => TrapModel::Refused { code },
            Trap::Disk(request) => request@,
        }
    }
}

/// The `len` bytes that memory shows from `start` on, wrapping at the top
/// of the address space.
pub open spec fn bytes_at<M: Memory>(mem: M::State, start: u16, len: nat) -> Seq<u8> {
    Seq::new(len, |i: int| M::peek(mem, start.wrapping_add(i as u16)))
}

/// The file name that the zero page designates: `$B7` bytes at the address
/// in `$BB/$BC`.
pub open spec fn file_name<M: Memory>(mem: M::State) -> Seq<u8> {
    bytes_at::<M>(
        mem,
        word(M::peek(mem, NAME_POINTER), M::peek(mem, 0xBC)),
        M::peek(mem, NAME_LENGTH) as nat,
    )
}

/// The request of a LOAD from disk: the directory for the name `$`, else
/// the named program.
pub open spec fn load_request(name: Seq<u8>) -> TrapModel {
    if name.len() == 1 && name[0] == 0x24 {
        TrapModel::Directory
    } else {
        TrapModel::Load { name }
    }
}

/// The request of a SAVE to disk: the bytes from the address that the
/// zero-page pointer in A designates up to, not including, the address in
/// X and Y. An empty range is refused.
pub open spec fn save_request<M: Memory>(cpu: Cpu, mem: M::State) -> TrapModel {
    let start = word(M::peek(mem, cpu.a as u16), M::peek(mem, (cpu.a + 1) as u16));
    let end = word(cpu.x, cpu.y);
    if end <= start {
        TrapModel::Refused { code: None }
    } else {
        TrapModel::Save {
            name: file_name::<M>(mem),
            start,
            data: bytes_at::<M>(mem, start, (end - start) as nat),
        }
    }
}

/// What the instruction at the program counter is, as far as the traps go.
/// The tape is refused with DEVICE NOT PRESENT, the disk is asked, and a
/// call for any other device is no trap.
pub open spec fn pending<M: Memory>(cpu: Cpu, mem: M::State) -> TrapModel {
    let device = M::peek(mem, DEVICE_NUMBER);
    if cpu.pc != LOAD_ENTRY && cpu.pc != SAVE_ENTRY {
        TrapModel::NoTrap
    } else if device == TAPE {
        TrapModel::Refused { code: Some(DEVICE_NOT_PRESENT) }
    } else if device != DISK {
        TrapModel::NoTrap
    } else if cpu.pc == LOAD_ENTRY {
        load_request(file_name::<M>(mem))
    } else {
        save_request::<M>(cpu, mem)
    }
}

/// `cpu` after a trap failed: carry is set and A holds the code, if any.
pub open spec fn failed(cpu: Cpu, code: Option<u8>) -> Cpu {
    Cpu {
        a: match code {
            Some(code) => code,
            None => cpu.a,
        },
        status: StatusFlags { carry: true, ..cpu.status },
        ..cpu
    }
}

/// `m` after the return from a trap: the program counter takes the popped
/// word plus one, as after an RTS.
pub open spec fn trap_returned<M: Memory>(m: Machine<M::State>) -> Machine<M::State> {
    Machine {
        cpu: Cpu { pc: stack_top_word::<M>(m).wrapping_add(1), ..popped::<M>(popped::<M>(m)).cpu },
        mem: m.mem,
    }
}

/// Memory after the first `n` bytes of `data` were written from `start`
/// on, one after the other, wrapping at the top of the address space.
pub open spec fn copied<M: Memory>(mem: M::State, start: u16, data: Seq<u8>, n: nat) -> M::State
    decreases n,
{
    if n == 0 {
        mem
    } else {
        M::poke(
            copied::<M>(mem, start, data, (n - 1) as nat),
            start.wrapping_add((n - 1) as u16),
            data[n - 1],
        )
    }
}

/// Memory after `end` was stored as the end of the loaded program: in
/// `$AE/$AF`, and as the start of BASIC's variables, arrays and free space
/// in `$2D/$2E`, `$2F/$30` and `$31/$32`.
pub open spec fn with_end_pointers<M: Memory>(mem: M::State, end: u16) -> M::State {
    let lo = (end & 0xFF) as u8;
    let hi = ((end >> 8) & 0xFF) as u8;
    let m1 = M::poke(M::poke(mem, 0xAE, lo), 0xAF, hi);
    let m2 = M::poke(M::poke(m1, 0x2D, lo), 0x2E, hi);
    let m3 = M::poke(M::poke(m2, 0x2F, lo), 0x30, hi);
    M::poke(M::poke(m3, 0x31, lo), 0x32, hi)
}

/// Where a program with load address `start` in its header goes: to the
/// address in X and Y when the secondary address is 0, else to `start`.
pub open spec fn load_address<M: Memory>(cpu: Cpu, mem: M::State, start: u16) -> u16 {
    if M::peek(mem, SECONDARY_ADDRESS) == 0 {
        word(cpu.x, cpu.y)
    } else {
        start
    }
}

/// `m` after a program was loaded: its bytes are in memory, the end
/// pointers are set, carry is clear and X and Y hold the end address.
pub open spec fn loaded<M: Memory>(m: Machine<M::State>, start: u16, data: Seq<u8>) -> Machine<
    M::State,
> {
    let addr = load_address::<M>(m.cpu, m.mem, start);
    let end = addr.wrapping_add(data.len() as u16);
    Machine {
        cpu: Cpu {
            x: (end & 0xFF) as u8,
            y: ((end >> 8) & 0xFF) as u8,
            status: StatusFlags { carry: false, ..m.cpu.status },
            ..m.cpu
        },
        mem: with_end_pointers::<M>(copied::<M>(m.mem, addr, data, data.len()), end),
    }
}

/// The model of a reply to a LOAD: the program, if one came.
pub open spec fn program_of(reply: DiskReply) -> Option<(u16, Seq<u8>)> {
    match reply {
        DiskReply::Program { start, data } => Some((start, data@)),
        _ => None,
    }
}

/// `m` after the host answered a LOAD.
pub open spec fn load_answered<M: Memory>(m: Machine<M::State>, program: Option<(u16, Seq<u8>)>)
    -> Machine<M::State> {
    match program {
        Some((start, data)) => loaded::<M>(m, start, data),
        None => Machine { cpu: failed(m.cpu, Some(FILE_NOT_FOUND)), mem: m.mem },
    }
}

/// `cpu` after the host answered a SAVE.
pub open spec fn save_answered(cpu: Cpu, saved: bool) -> Cpu {
    if saved {
        Cpu { status: StatusFlags { carry: false, ..cpu.status }, ..cpu }
    } else {
        failed(cpu, Some(WRITE_ERROR))
    }
}

/// `m` after the host answered the request `request` with `reply` and the
/// trap returned to its caller. An answer that does not fit the request
/// counts as a failure.
pub open spec fn answered<M: Memory>(m: Machine<M::State>, request: TrapModel, reply: DiskReply)
    -> Machine<M::State> {
    trap_returned::<M>(
        match request {
            TrapModel::Save { .. } => Machine {
                cpu: save_answered(m.cpu, reply is Saved),
                mem: m.mem,
            },
            _ => load_answered::<M>(m, program_of(reply)),
        },
    )
}

proof fn lemma_copied_frame<M: Memory>(
    mem: M::State,
    start: u16,
    data: Seq<u8>,
    n: nat,
    keeps: spec_fn(M::State) -> bool,
)
    requires
        kept_by_memory::<M>(keeps),
        keeps(mem),
    ensures
        keeps(copied::<M>(mem, start, data, n)),
    decreases n,
{
    if n > 0 {
        lemma_copied_frame::<M>(mem, start, data, (n - 1) as nat, keeps);
    }
}

/// A served trap changes memory by writes alone, and leaves the count of
/// cycles as it is: a property that writes and completed reads keep holds
/// after the trap if it held before.
pub proof fn lemma_answer_frame<M: Memory>(
    m: Machine<M::State>,
    request: TrapModel,
    reply: DiskReply,
    keeps: spec_fn(M::State) -> bool,
)
    requires
        kept_by_memory::<M>(keeps),
        keeps(m.mem),
    ensures
        keeps(answered::<M>(m, request, reply).mem),
        answered::<M>(m, request, reply).cpu.cycles == m.cpu.cycles,
{
    match program_of(reply) {
        Some((start, data)) => {
            let addr = load_address::<M>(m.cpu, m.mem, start);
            lemma_copied_frame::<M>(m.mem, addr, data, data.len(), keeps);
        },
        None => {},
    }
}

impl Cpu {
    /// Says what the instruction at the program counter is, as far as the
    /// traps go. Nothing changes.
    pub fn trap<M: Memory>(&self, memory: &M) -> (trap: Trap)
        ensures
            trap@ == pending::<M>(*self, memory.state()),
    {
        if self.pc != LOAD_ENTRY && self.pc != SAVE_ENTRY {
            return Trap::NoTrap;
        }
        let device = memory.read(DEVICE_NUMBER);
        if device == TAPE {
            return Trap::Refused { code: Some(DEVICE_NOT_PRESENT) };
        }
        if device != DISK {
            return Trap::NoTrap;
        }
        let name_len = memory.read(NAME_LENGTH);
        let name_lo = memory.read(NAME_POINTER);
        let name_hi = memory.read(0xBC);
        let name_ptr = ((name_hi as u16) << 8) | (name_lo as u16);
        let name = read_bytes(memory, name_ptr, name_len as usize);
        if self.pc == LOAD_ENTRY {
            if name.len() == 1 && name[0] == 0x24 {
                return Trap::Disk(DiskRequest::Directory);
            }
            return Trap::Disk(DiskRequest::Load { name });
        }
        let start_ptr = self.a as u16;
        let start_lo = memory.read(start_ptr);
        let start_hi = memory.read(start_ptr + 1);
        let start = ((start_hi as u16) << 8) | (start_lo as u16);
        let end = ((self.y as u16) << 8) | (self.x as u16);
        if end <= start {
            return Trap::Refused { code: None };
        }
        let data = read_bytes(memory, start, (end - start) as usize);
        Trap::Disk(DiskRequest::Save { name, start, data })
    }

    /// Sets carry and, where there is one, the error code in A.
    pub fn fail(&mut self, code: Option<u8>)
        ensures
            *final(self) == failed(*old(self), code),
    {
        self.status.carry = true;
        match code {
            Some(code) => {
                self.a = code;
            },
            None => {},
        }
    }

    /// Returns from a trap as an RTS would.
    pub fn return_from_trap<M: Memory>(&mut self, memory: &M)
        ensures
            (Machine { cpu: *final(self), mem: memory.state() }) == trap_returned::<M>(
                Machine { cpu: *old(self), mem: memory.state() },
            ),
    {
        self.pc = self.pop_word(memory).wrapping_add(1);
    }

    /// Takes the host's answer to a LOAD. A program is copied to its load
    /// address, the end pointers are set, carry is cleared and X and Y take
    /// the end address. Without a program carry is set and A reports FILE
    /// NOT FOUND.
    pub fn handle_load<M: Memory>(&mut self, memory: &mut M, reply: &DiskReply)
        ensures
            (Machine { cpu: *final(self), mem: final(memory).state() }) == load_answered::<M>(
                Machine { cpu: *old(self), mem: old(memory).state() },
                program_of(*reply),
            ),
    {
        match reply {
            DiskReply::Program { start, data } => {
                let sec_addr = memory.read(SECONDARY_ADDRESS);
                let load_addr = if sec_addr == 0 {
                    ((self.y as u16) << 8) | (self.x as u16)
                } else {
                    *start
                };
                let ghost before = memory.state();
                let mut i: usize = 0;
                while i < data.len()
                    invariant
                        i <= data.len(),
                        memory.state() == copied::<M>(before, load_addr, data@, i as nat),
                    decreases data.len() - i,
                {
                    memory.write(load_addr.wrapping_add(i as u16), data[i]);
                    i = i + 1;
                }
                let end_addr = load_addr.wrapping_add(data.len() as u16);
                let lo = (end_addr & 0xFF) as u8;
                let hi = ((end_addr >> 8) & 0xFF) as u8;
                memory.write(0xAE, lo);
                memory.write(0xAF, hi);
                memory.write(0x2D, lo);
                memory.write(0x2E, hi);
                memory.write(0x2F, lo);
                memory.write(0x30, hi);
                memory.write(0x31, lo);
                memory.write(0x32, hi);
                self.status.carry = false;
                self.x = lo;
                self.y = hi;
            },
            _ => {
                self.fail(Some(FILE_NOT_FOUND));
            },
        }
    }

    /// Takes the host's answer to a SAVE: carry is cleared when the program
    /// was written; else carry is set and A reports the write error.
    pub fn handle_save(&mut self, reply: &DiskReply)
        ensures
            *final(self) == save_answered(*old(self), *reply is Saved),
    {
        match reply {
            DiskReply::Saved => {
                self.status.carry = false;
            },
            _ => {
                self.fail(Some(WRITE_ERROR));
            },
        }
    }

    /// Finishes the trap that asked `request` with the host's answer and
    /// returns to the trap's caller. Returns the cycles charged.
    pub fn resume<M: Memory>(&mut self, memory: &mut M, request: &DiskRequest, reply: DiskReply)
        -> (cycles: u8)
        ensures
            cycles == TRAP_CYCLES,
            (Machine { cpu: *final(self), mem: final(memory).state() }) == answered::<M>(
                Machine { cpu: *old(self), mem: old(memory).state() },
                request@,
                reply,
            ),
    {
        match request {
            DiskRequest::Save { .. } => {
                self.handle_save(&reply);
            },
            _ => {
                self.handle_load(memory, &reply);
            },
        }
        self.return_from_trap(memory);
        TRAP_CYCLES
    }
}

/// Reads `len` bytes from `start` on, wrapping at the top of the address
/// space.
fn read_bytes<M: Memory>(memory: &M, start: u16, len: usize) -> (bytes: Vec<u8>)
    ensures
        bytes@ == bytes_at::<M>(memory.state(), start, len as nat),
{
    let mut bytes: Vec<u8> = Vec::new();
    let mut i: usize = 0;
    while i < len
        invariant
            i <= len,
            bytes@ == bytes_at::<M>(memory.state(), start, i as nat),
        decreases len - i,
    {
        bytes.push(memory.read(start.wrapping_add(i as u16)));
        i = i + 1;
    }
    bytes
}

} // verus!
