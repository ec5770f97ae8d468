//! The address space seen by the CPU.

use crate::cia::{Cia, CiaState};
use crate::vic::{screen_cell, C64Color, VicII, VicState};
use vstd::prelude::*;

verus! {

/// A 16-bit address space of bytes.
///
/// The CPU only ever touches memory through this capability, so the same
/// interpreter runs over a flat RAM and over the banked machine. What an
/// implementation does is given by three functions on its abstract state:
/// the byte a read returns, the state after a write, and the state after a
/// device has seen one of its registers read.
pub trait Memory: Sized {
    /// The mathematical model of the address space.
    type State;

    /// The model of this value.
    spec fn state(&self) -> Self::State;

    /// The byte that a read of `addr` returns in state `s`.
    spec fn peek(s: Self::State, addr: u16) -> u8;

    /// The state that follows `s` when `value` is written to `addr`.
    spec fn poke(s: Self::State, addr: u16, value: u8) -> Self::State;

    /// The state that follows `s` once a read of `addr` has completed:
    /// registers that clear on read are cleared, everything else stays.
    spec fn settle(s: Self::State, addr: u16) -> Self::State;

    /// Returns the byte at `addr` without changing anything.
    fn read(&self, addr: u16) -> (value: u8)
        ensures
            value == Self::peek(self.state(), addr),
    ;

    /// Stores `value` at `addr`.
    fn write(&mut self, addr: u16, value: u8)
        ensures
            final(self).state() == Self::poke(old(self).state(), addr, value),
    ;

    /// Completes a read of `addr`: the second half of a read whose first
    /// half is [`Memory::read`].
    fn acknowledge(&mut self, addr: u16)
        ensures
            final(self).state() == Self::settle(old(self).state(), addr),
    ;
}

/// Number of bytes in the address space.
pub const RAM_SIZE: usize = 0x10000;

/// A flat 64 KiB RAM with no banking and no devices.
pub struct BasicMemory {
    ram: [u8; 65536],
}

impl BasicMemory {
    /// Every flat RAM has 65536 bytes.
    pub proof fn lemma_size(&self)
        ensures
            self.state().len() == RAM_SIZE,
    {
    }

    /// A RAM of zeroes.
    pub fn new() -> (mem: Self)
        ensures
            mem.state() == Seq::new(RAM_SIZE as nat, |i: int| 0u8),
    {
        let mem = BasicMemory { ram: [0u8; 65536] };
        assert(mem.ram@ =~= Seq::new(RAM_SIZE as nat, |i: int| 0u8));
        mem
    }
}

impl Memory for BasicMemory {
    type State = Seq<u8>;

    closed spec fn state(&self) -> Seq<u8> {
        self.ram@
    }

    open spec fn peek(s: Seq<u8>, addr: u16) -> u8 {
        s[addr as int]
    }

    open spec fn poke(s: Seq<u8>, addr: u16, value: u8) -> Seq<u8> {
        s.update(addr as int, value)
    }

    open spec fn settle(s: Seq<u8>, addr: u16) -> Seq<u8> {
        s
    }

    fn read(&self, addr: u16) -> (value: u8) {
        self.ram[addr as usize]
    }

    fn write(&mut self, addr: u16, value: u8) {
        self.ram[addr as usize] = value;
    }

    fn acknowledge(&mut self, addr: u16) {
    }
}

/// Size of the BASIC and KERNAL ROM images.
pub const ROM_8K: usize = 0x2000;

/// Size of the character ROM image.
pub const ROM_4K: usize = 0x1000;

/// A ROM image of exactly `N` bytes.
pub struct Rom<const N: usize> {
    bytes: Vec<u8>,
}

impl<const N: usize> Rom<N> {
    #[verifier::type_invariant]
    closed spec fn inv(self) -> bool {
        self.bytes.len() == N
    }

    /// The bytes of the image.
    pub closed spec fn contents(self) -> Seq<u8> {
        self.bytes@
    }

    /// Takes `data` as an image if it has exactly `N` bytes.
    pub fn new(data: Vec<u8>) -> (rom: Option<Self>)
        ensures
            image(rom) == (if data.len() == N {
                Some(data@)
            } else {
                None::<Seq<u8>>
            }),
    {
        if data.len() == N {
            Some(Rom { bytes: data })
        } else {
            None
        }
    }

    /// The byte at `offset`.
    pub fn get(&self, offset: usize) -> (value: u8)
        requires
            offset < N,
        ensures
            value == self.contents()[offset as int],
            self.contents().len() == N,
    {
        proof {
            use_type_invariant(self);
        }
        self.bytes[offset]
    }
}

/// The image behind an optional ROM.
pub open spec fn image<const N: usize>(rom: Option<Rom<N>>) -> Option<Seq<u8>> {
    match rom {
        Some(rom) => Some(rom.contents()),
        None => None,
    }
}

/// The mathematical model of the banked address space.
pub struct C64State {
    /// The 64 KiB of RAM that underlie every address
    pub ram: Seq<u8>,
    /// BASIC ROM, 8 KiB at `$A000`, if loaded
    pub basic_rom: Option<Seq<u8>>,
    /// KERNAL ROM, 8 KiB at `$E000`, if loaded
    pub kernal_rom: Option<Seq<u8>>,
    /// Character ROM, 4 KiB at `$D000`, if loaded
    pub char_rom: Option<Seq<u8>>,
    /// The processor port's direction register at `$0000`
    pub port_direction: u8,
    /// The processor port's data register at `$0001`, which selects the banks
    pub port_data: u8,
    pub vic: VicState,
    pub cia1: CiaState,
    pub cia2: CiaState,
}

/// LORAM, bit 0 of the processor port.
pub open spec fn loram(port: u8) -> bool {
    (port & 0x01) != 0
}

/// HIRAM, bit 1 of the processor port.
pub open spec fn hiram(port: u8) -> bool {
    (port & 0x02) != 0
}

/// CHAREN, bit 2 of the processor port.
pub open spec fn charen(port: u8) -> bool {
    (port & 0x04) != 0
}

/// BASIC ROM is banked in at `$A000`-`$BFFF`.
pub open spec fn basic_visible(port: u8) -> bool {
    loram(port) && hiram(port)
}

/// KERNAL ROM is banked in at `$E000`-`$FFFF`.
pub open spec fn kernal_visible(port: u8) -> bool {
    hiram(port)
}

/// The I/O registers are banked in at `$D000`-`$DFFF`.
pub open spec fn io_visible(port: u8) -> bool {
    charen(port) && (loram(port) || hiram(port))
}

/// Character ROM is banked in at `$D000`-`$DFFF`.
pub open spec fn char_rom_visible(port: u8) -> bool {
    !charen(port) && (loram(port) || hiram(port))
}

impl C64State {
    /// What every banked memory satisfies: 64 KiB of RAM, ROM images of
    /// their sizes and a well-formed VIC-II.
    pub open spec fn wf(self) -> bool {
        &&& self.ram.len() == RAM_SIZE
        &&& self.basic_rom matches Some(rom) ==> rom.len() == ROM_8K
        &&& self.kernal_rom matches Some(rom) ==> rom.len() == ROM_8K
        &&& self.char_rom matches Some(rom) ==> rom.len() == ROM_4K
        &&& self.vic.wf()
    }

    /// The byte of `rom` at `offset`, or the RAM byte at `addr` where no
    /// image is loaded.
    pub open spec fn rom_or_ram(self, rom: Option<Seq<u8>>, offset: int, addr: u16) -> u8 {
        match rom {
            Some(rom) => rom[offset],
            None => self.ram[addr as int],
        }
    }

    /// What a read in the I/O area returns while I/O is banked in: a VIC-II
    /// register (64 registers, mirrored up to `$D3FF`), 0 for the SID, a
    /// colour nibble, a CIA register (16 registers, mirrored within the
    /// chip's page), and RAM above `$DDFF`.
    pub open spec fn io_read(self, addr: u16) -> u8 {
        if addr <= 0xD3FF {
            self.vic.register((addr & 0x3F) as int)
        } else if addr <= 0xD7FF {
            0
        } else if addr <= 0xDBFF {
            self.vic.color_at((addr - 0xD800) as u16)
        } else if addr <= 0xDCFF {
            self.cia1.register(addr & 0x0F)
        } else if addr <= 0xDDFF {
            self.cia2.register(addr & 0x0F)
        } else {
            self.ram[addr as int]
        }
    }

    /// What a read of `addr` returns.
    pub open spec fn read(self, addr: u16) -> u8 {
        if addr == 0x0000 {
            self.port_direction
        } else if addr == 0x0001 {
            self.port_data
        } else if 0xA000 <= addr <= 0xBFFF && basic_visible(self.port_data) {
            self.rom_or_ram(self.basic_rom, addr - 0xA000, addr)
        } else if 0xD000 <= addr <= 0xDFFF && io_visible(self.port_data) {
            self.io_read(addr)
        } else if 0xD000 <= addr <= 0xDFFF && char_rom_visible(self.port_data) {
            self.rom_or_ram(self.char_rom, addr - 0xD000, addr)
        } else if 0xE000 <= addr && kernal_visible(self.port_data) {
            self.rom_or_ram(self.kernal_rom, addr - 0xE000, addr)
        } else {
            self.ram[addr as int]
        }
    }

    /// The state after `value` was written to `addr` with RAM as the target.
    pub open spec fn ram_written(self, addr: u16, value: u8) -> C64State {
        C64State { ram: self.ram.update(addr as int, value), ..self }
    }

    /// The state after a write in the I/O area while I/O is banked in: the
    /// write goes to the chip; the SID discards it.
    pub open spec fn io_written(self, addr: u16, value: u8) -> C64State {
        if addr <= 0xD3FF {
            C64State { vic: self.vic.written((addr & 0x3F) as int, value), ..self }
        } else if addr <= 0xD7FF {
            self
        } else if addr <= 0xDBFF {
            C64State { vic: self.vic.with_color((addr - 0xD800) as u16, value), ..self }
        } else if addr <= 0xDCFF {
            C64State { cia1: self.cia1.written(addr & 0x0F, value), ..self }
        } else if addr <= 0xDDFF {
            C64State { cia2: self.cia2.written(addr & 0x0F, value), ..self }
        } else {
            self.ram_written(addr, value)
        }
    }

    /// The state after `value` was written to `addr`. The processor port
    /// takes writes to `$0000` and `$0001`; the chips take writes to the I/O
    /// area while it is banked in; every other write lands in RAM, also
    /// where a ROM is visible for reads.
    pub open spec fn written(self, addr: u16, value: u8) -> C64State {
        if addr == 0x0000 {
            C64State { port_direction: value, ..self }
        } else if addr == 0x0001 {
            C64State { port_data: value, ..self }
        } else if 0xD000 <= addr <= 0xDFFF && io_visible(self.port_data) {
            self.io_written(addr, value)
        } else {
            self.ram_written(addr, value)
        }
    }

    /// The state once a read of `addr` has completed: a CIA whose register
    /// was read through the I/O area has seen the read.
    pub open spec fn read_done(self, addr: u16) -> C64State {
        if 0xDC00 <= addr <= 0xDCFF && io_visible(self.port_data) {
            C64State { cia1: self.cia1.read_done(addr & 0x0F), ..self }
        } else if 0xDD00 <= addr <= 0xDDFF && io_visible(self.port_data) {
            C64State { cia2: self.cia2.read_done(addr & 0x0F), ..self }
        } else {
            self
        }
    }

    /// Whether a read of `addr` returns the RAM byte: `addr` is not the
    /// processor port and no ROM image or I/O register shadows it.
    pub open spec fn reads_ram(self, addr: u16) -> bool {
        &&& addr >= 0x0002
        &&& 0xA000 <= addr <= 0xBFFF ==> !basic_visible(self.port_data) || self.basic_rom is None
        &&& 0xD000 <= addr <= 0xDDFF ==> !io_visible(self.port_data)
        &&& 0xD000 <= addr <= 0xDFFF && char_rom_visible(self.port_data) ==> self.char_rom is None
        &&& 0xE000 <= addr ==> !kernal_visible(self.port_data) || self.kernal_rom is None
    }

    /// The state after the host reported the key at (`row`, `col`) of the
    /// keyboard, which hangs on CIA1, down or up.
    pub open spec fn with_key(self, row: u8, col: u8, pressed: bool) -> C64State {
        C64State { cia1: self.cia1.with_key(row, col, pressed), ..self }
    }

    /// The state one frame later, as far as the keyboard goes: every key
    /// that is down has one frame less to stay down.
    pub open spec fn frame_passed(self) -> C64State {
        C64State { cia1: self.cia1.frame_passed(), ..self }
    }

    /// The state after `cycles` cycles passed for the chips.
    pub open spec fn ticked(self, cycles: u8) -> C64State {
        C64State {
            cia1: self.cia1.ticked(cycles),
            cia2: self.cia2.ticked(cycles),
            vic: self.vic.ticked(cycles),
            ..self
        }
    }

    /// Whether a chip requests an interrupt when `cycles` cycles pass: the
    /// logical or of the requests of CIA1, CIA2 and the VIC-II.
    pub open spec fn tick_irq(self, cycles: u8) -> bool {
        self.cia1.tick_irq(cycles) || self.cia2.tick_irq(cycles) || self.vic.tick_irq(cycles)
    }

    /// The state after power-on: RAM holds zeroes but for the reset vector
    /// `$FCE2` at `$FFFC`, no ROM is loaded, the processor port selects
    /// BASIC, KERNAL and I/O, and the chips are reset.
    pub open spec fn initial() -> C64State {
        C64State {
            ram: Seq::new(RAM_SIZE as nat, |i: int| 0u8).update(0xFFFC, 0xE2u8).update(
                0xFFFD,
                0xFCu8,
            ),
            basic_rom: None,
            kernal_rom: None,
            char_rom: None,
            port_direction: 0x2F,
            port_data: 0x37,
            vic: VicState::initial(),
            cia1: CiaState::initial(),
            cia2: CiaState::initial(),
        }
    }
}

/// The banked address space of the machine, which owns the RAM, the ROM
/// images and the chips.
pub struct C64Memory {
    ram: [u8; 65536],
    basic_rom: Option<Rom<0x2000>>,
    kernal_rom: Option<Rom<0x2000>>,
    char_rom: Option<Rom<0x1000>>,
    port_0000: u8,
    port_0001: u8,
    /// The video chip, at `$D000`
    pub vic: VicII,
    /// The first CIA, at `$DC00`: the keyboard and the jiffy timer
    pub cia1: Cia,
    /// The second CIA, at `$DD00`
    pub cia2: Cia,
}

impl C64Memory {
    /// The memory after power-on.
    pub fn new() -> (mem: Self)
        ensures
            mem.state() == C64State::initial(),
            mem.state().wf(),
    {
        let mut mem = C64Memory {
            ram: [0u8;65536],
            basic_rom: None,
            kernal_rom: None,
            char_rom: None,
            port_0000: 0x2F,
            port_0001: 0x37,
            vic: VicII::new(),
            cia1: Cia::new(),
            cia2: Cia::new(),
        };
        mem.ram[0xFFFC] = 0xE2;
        mem.ram[0xFFFD] = 0xFC;
        assert(mem.state().ram =~= C64State::initial().ram);
        mem
    }

    /// Installs the BASIC ROM. An image that is not 8192 bytes long is
    /// ignored.
    pub fn load_basic_rom(&mut self, data: Vec<u8>)
        ensures
            final(self).state() == (C64State {
                basic_rom: if data.len() == ROM_8K {
                    Some(data@)
                } else {
                    old(self).state().basic_rom
                },
                ..old(self).state()
            }),
    {
        match Rom::new(data) {
            Some(rom) => {
                self.basic_rom = Some(rom);
            },
            None => {},
        }
    }

    /// Installs the KERNAL ROM. An image that is not 8192 bytes long is
    /// ignored.
    pub fn load_kernal_rom(&mut self, data: Vec<u8>)
        ensures
            final(self).state() == (C64State {
                kernal_rom: if data.len() == ROM_8K {
                    Some(data@)
                } else {
                    old(self).state().kernal_rom
                },
                ..old(self).state()
            }),
    {
        match Rom::new(data) {
            Some(rom) => {
                self.kernal_rom = Some(rom);
            },
            None => {},
        }
    }

    /// Installs the character ROM. An image that is not 4096 bytes long is
    /// ignored.
    pub fn load_char_rom(&mut self, data: Vec<u8>)
        ensures
            final(self).state() == (C64State {
                char_rom: if data.len() == ROM_4K {
                    Some(data@)
                } else {
                    old(self).state().char_rom
                },
                ..old(self).state()
            }),
    {
        match Rom::new(data) {
            Some(rom) => {
                self.char_rom = Some(rom);
            },
            None => {},
        }
    }

    // The model is well formed: the ROM images and the video chip carry
    // their invariants.
    proof fn lemma_wf(&self)
        requires
            self.vic.inv(),
            self.basic_rom matches Some(rom) ==> rom.inv(),
            self.kernal_rom matches Some(rom) ==> rom.inv(),
            self.char_rom matches Some(rom) ==> rom.inv(),
        ensures
            self.state().wf(),
    {
        self.vic.lemma_wf();
    }

    /// Says nothing at run time; to the verifier it says that the model of
    /// every banked memory is well formed.
    pub fn well_formed(&self)
        ensures
            self.state().wf(),
    {
        proof {
            use_type_invariant(&self.vic);
            match &self.basic_rom {
                Some(rom) => {
                    use_type_invariant(rom);
                },
                None => {},
            }
            match &self.kernal_rom {
                Some(rom) => {
                    use_type_invariant(rom);
                },
                None => {},
            }
            match &self.char_rom {
                Some(rom) => {
                    use_type_invariant(rom);
                },
                None => {},
            }
            self.lemma_wf();
        }
    }

    /// Records that the host saw the key at (`row`, `col`) of the keyboard
    /// go down or up. Positions outside the matrix change nothing.
    pub fn set_key(&mut self, row: u8, col: u8, pressed: bool)
        ensures
            final(self).state() == old(self).state().with_key(row, col, pressed),
    {
        self.cia1.set_key(row, col, pressed);
    }

    /// Lets one frame pass for the keyboard: every key that is down has one
    /// frame less to stay down.
    pub fn decay_keyboard(&mut self)
        ensures
            final(self).state() == old(self).state().frame_passed(),
    {
        self.cia1.decay_keyboard();
    }

    /// The screen code and the colour nibble of the cell in column `x` of
    /// row `y`: the byte that a read of `$0400 + 40 * y + x` returns and the
    /// colour cell at the same offset. Outside the screen it is a light blue
    /// space.
    pub fn get_screen_char(&self, x: usize, y: usize) -> (cell: (u8, u8))
        ensures
            cell == screen_cell::<C64Memory>(self.state(), self.state().vic, x as int, y as int),
            cell.1 <= 15,
    {
        self.vic.get_screen_char(self, x, y)
    }

    /// The border colour.
    pub fn get_border_color(&self) -> (color: C64Color)
        ensures
            color.index() == self.state().vic.border_color,
            color.index() <= 15,
    {
        self.vic.get_border_color()
    }

    /// The background colour.
    pub fn get_background_color(&self) -> (color: C64Color)
        ensures
            color.index() == self.state().vic.background_color,
            color.index() <= 15,
    {
        self.vic.get_background_color()
    }

    /// Lets `cycles` cycles pass for CIA1, CIA2 and the VIC-II, in this
    /// order, and says whether any of them requests an interrupt.
    pub fn tick(&mut self, cycles: u8) -> (irq: bool)
        requires
            old(self).state().vic.cycle_count + cycles <= u16::MAX,
        ensures
            final(self).state() == old(self).state().ticked(cycles),
            irq == old(self).state().tick_irq(cycles),
    {
        let irq1 = self.cia1.tick(cycles);
        let irq2 = self.cia2.tick(cycles);
        let irq_vic = self.vic.tick(cycles);
        irq1 || irq2 || irq_vic
    }

    /// Whether BASIC ROM is banked in: LORAM and HIRAM are both set.
    pub fn is_basic_visible(&self) -> (visible: bool)
        ensures
            visible == basic_visible(self.state().port_data),
    {
        (self.port_0001 & 0x01) != 0 && (self.port_0001 & 0x02) != 0
    }

    /// Whether KERNAL ROM is banked in: HIRAM is set.
    pub fn is_kernal_visible(&self) -> (visible: bool)
        ensures
            visible == kernal_visible(self.state().port_data),
    {
        (self.port_0001 & 0x02) != 0
    }

    /// Whether the I/O registers are banked in: CHAREN is set, and LORAM
    /// or HIRAM.
    pub fn is_io_visible(&self) -> (visible: bool)
        ensures
            visible == io_visible(self.state().port_data),
    {
        (self.port_0001 & 0x04) != 0 && ((self.port_0001 & 0x01) != 0 || (self.port_0001 & 0x02)
            != 0)
    }

    /// Whether character ROM is banked in: CHAREN is clear, and LORAM or
    /// HIRAM is set.
    pub fn is_char_rom_visible(&self) -> (visible: bool)
        ensures
            visible == char_rom_visible(self.state().port_data),
    {
        (self.port_0001 & 0x04) == 0 && ((self.port_0001 & 0x01) != 0 || (self.port_0001 & 0x02)
            != 0)
    }
}

impl Memory for C64Memory {
    type State = C64State;

    closed spec fn state(&self) -> C64State {
        C64State {
            ram: self.ram@,
            basic_rom: image(self.basic_rom),
            kernal_rom: image(self.kernal_rom),
            char_rom: image(self.char_rom),
            port_direction: self.port_0000,
            port_data: self.port_0001,
            vic: self.vic@,
            cia1: self.cia1@,
            cia2: self.cia2@,
        }
    }

    open spec fn peek(s: C64State, addr: u16) -> u8 {
        s.read(addr)
    }

    open spec fn poke(s: C64State, addr: u16, value: u8) -> C64State {
        s.written(addr, value)
    }

    open spec fn settle(s: C64State, addr: u16) -> C64State {
        s.read_done(addr)
    }

    fn read(&self, addr: u16) -> (value: u8) {
        if addr == 0x0000 {
            self.port_0000
        } else if addr == 0x0001 {
            self.port_0001
        } else if 0xA000 <= addr && addr <= 0xBFFF && self.is_basic_visible() {
            match &self.basic_rom {
                Some(rom) => rom.get((addr - 0xA000) as usize),
                None => self.ram[addr as usize],
            }
        } else if 0xD000 <= addr && addr <= 0xDFFF && self.is_io_visible() {
            if addr <= 0xD3FF {
                self.vic.read_register(addr)
            } else if addr <= 0xD7FF {
                0
            } else if addr <= 0xDBFF {
                self.vic.read_color_ram(addr - 0xD800)
            } else if addr <= 0xDCFF {
                self.cia1.read(addr)
            } else if addr <= 0xDDFF {
                self.cia2.read(addr)
            } else {
                self.ram[addr as usize]
            }
        } else if 0xD000 <= addr && addr <= 0xDFFF && self.is_char_rom_visible() {
            match &self.char_rom {
                Some(rom) => rom.get((addr - 0xD000) as usize),
                None => self.ram[addr as usize],
            }
        } else if 0xE000 <= addr && self.is_kernal_visible() {
            match &self.kernal_rom {
                Some(rom) => rom.get((addr - 0xE000) as usize),
                None => self.ram[addr as usize],
            }
        } else {
            self.ram[addr as usize]
        }
    }

    fn write(&mut self, addr: u16, value: u8) {
        if addr == 0x0000 {
            self.port_0000 = value;
        } else if addr == 0x0001 {
            self.port_0001 = value;
        } else if 0xD000 <= addr && addr <= 0xDFFF && self.is_io_visible() {
            if addr <= 0xD3FF {
                self.vic.write_register(addr, value);
            } else if addr <= 0xD7FF {
            } else if addr <= 0xDBFF {
                self.vic.write_color_ram(addr - 0xD800, value);
            } else if addr <= 0xDCFF {
                self.cia1.write(addr, value);
            } else if addr <= 0xDDFF {
                self.cia2.write(addr, value);
            } else {
                self.ram[addr as usize] = value;
            }
        } else {
            self.ram[addr as usize] = value;
        }
    }

    fn acknowledge(&mut self, addr: u16) {
        if 0xDC00 <= addr && addr <= 0xDCFF && self.is_io_visible() {
            self.cia1.acknowledge(addr);
        } else if 0xDD00 <= addr && addr <= 0xDDFF && self.is_io_visible() {
            self.cia2.acknowledge(addr);
        }
    }
}

/// The low three bits of the processor port are CHAREN, HIRAM and LORAM.
pub proof fn lemma_port_bits(port: u8)
    ensures
        (port & 0x07) == (if charen(port) {
            4int
        } else {
            0int
        }) + (if hiram(port) {
            2int
        } else {
            0int
        }) + (if loram(port) {
            1int
        } else {
            0int
        }),
{
    assert((port & 0x07) == (if (port & 0x04) != 0 {
        4u8
    } else {
        0u8
    }) + (if (port & 0x02) != 0 {
        2u8
    } else {
        0u8
    }) + (if (port & 0x01) != 0 {
        1u8
    } else {
        0u8
    })) by (bit_vector);
}

/// The eight banking configurations, by the low three bits of the
/// processor port: `111` BASIC, KERNAL and I/O; `110` KERNAL and I/O; `101`
/// I/O only; `100` all RAM; `011` BASIC, KERNAL and character ROM; `010`
/// KERNAL and character ROM; `001` character ROM only; `000` all RAM.
pub proof fn lemma_banking_table(port: u8)
    ensures
        basic_visible(port) <==> (port & 0x07) == 7 || (port & 0x07) == 3,
        kernal_visible(port) <==> (port & 0x07) == 7 || (port & 0x07) == 6 || (port & 0x07) == 3
            || (port & 0x07) == 2,
        io_visible(port) <==> (port & 0x07) >= 5,
        char_rom_visible(port) <==> 1 <= (port & 0x07) <= 3,
{
    lemma_port_bits(port);
}

/// What stands behind an address.
#[derive(Debug, Clone, Copy, PartialEq, Eq, Structural)]
pub enum Source {
    /// The processor port at `$0000` and `$0001`
    Port,
    /// RAM
    Ram,
    /// The BASIC ROM image
    BasicRom,
    /// The character ROM image
    CharRom,
    /// The KERNAL ROM image
    KernalRom,
    /// The registers of the VIC-II, the SID and the CIAs, and colour RAM
    Chips,
}

/// What a read of `addr` in state `s` is served from.
pub open spec fn source(s: C64State, addr: u16) -> Source {
    if addr <= 0x0001 {
        Source::Port
    } else if 0xA000 <= addr <= 0xBFFF && basic_visible(s.port_data) && s.basic_rom is Some {
        Source::BasicRom
    } else if 0xD000 <= addr <= 0xDDFF && io_visible(s.port_data) {
        Source::Chips
    } else if 0xD000 <= addr <= 0xDFFF && char_rom_visible(s.port_data) && s.char_rom is Some {
        Source::CharRom
    } else if 0xE000 <= addr && kernal_visible(s.port_data) && s.kernal_rom is Some {
        Source::KernalRom
    } else {
        Source::Ram
    }
}

/// A read returns the byte of its source. With the images loaded, the
/// KERNAL ROM is the source from `$E000` on exactly when HIRAM is set, the
/// character ROM is the source from `$D000` to `$DFFF` exactly when CHAREN
/// is clear and LORAM or HIRAM is set, and the BASIC ROM is the source from
/// `$A000` to `$BFFF` exactly when LORAM and HIRAM are set.
pub proof fn lemma_source(s: C64State, addr: u16)
    ensures
        s.read(addr) == (match source(s, addr) {
            Source::Port => if addr == 0 {
                s.port_direction
            } else {
                s.port_data
            },
            Source::Ram => s.ram[addr as int],
            Source::BasicRom => s.basic_rom.unwrap()[addr - 0xA000],
            Source::CharRom => s.char_rom.unwrap()[addr - 0xD000],
            Source::KernalRom => s.kernal_rom.unwrap()[addr - 0xE000],
            Source::Chips => s.io_read(addr),
        }),
        source(s, addr) == Source::Ram <==> s.reads_ram(addr),
        s.kernal_rom is Some ==> (source(s, addr) == Source::KernalRom <==> 0xE000 <= addr && hiram(
            s.port_data,
        )),
        s.char_rom is Some ==> (source(s, addr) == Source::CharRom <==> 0xD000 <= addr <= 0xDFFF
            && !charen(s.port_data) && (loram(s.port_data) || hiram(s.port_data))),
        s.basic_rom is Some ==> (source(s, addr) == Source::BasicRom <==> 0xA000 <= addr <= 0xBFFF
            && loram(s.port_data) && hiram(s.port_data)),
{
}

/// Writes, completed reads and ticks keep the model well formed.
pub proof fn lemma_wf_kept(s: C64State, addr: u16, value: u8, cycles: u8)
    requires
        s.wf(),
    ensures
        s.written(addr, value).wf(),
        s.read_done(addr).wf(),
        s.ticked(cycles).wf(),
{
    assert(addr & 0x3F < 64) by (bit_vector);
    crate::vic::lemma_wf_kept(s.vic, (addr & 0x3F) as int, 0, value, cycles);
    if 0xD800 <= addr <= 0xDBFF {
        crate::vic::lemma_wf_kept(s.vic, 0, (addr - 0xD800) as u16, value, cycles);
    }
}

/// A byte written to an address that reads as RAM is read back.
pub proof fn lemma_ram_read_back(s: C64State, addr: u16, value: u8)
    requires
        s.wf(),
        s.reads_ram(addr),
    ensures
        s.written(addr, value).read(addr) == value,
        s.written(addr, value).reads_ram(addr),
        s.written(addr, value).wf(),
{
}

/// Where an address reads as RAM, a read returns the RAM byte.
pub proof fn lemma_reads_ram(s: C64State, addr: u16)
    requires
        s.wf(),
        s.reads_ram(addr),
    ensures
        s.read(addr) == s.ram[addr as int],
{
}

/// A write below a ROM lands in RAM whatever is banked in, changes nothing
/// else, and is read back as soon as the ROM is banked out, whatever was
/// written to the processor port in between.
pub proof fn lemma_write_under_rom(s: C64State, addr: u16, value: u8, port: u8)
    requires
        s.wf(),
        0xA000 <= addr <= 0xBFFF || 0xE000 <= addr,
    ensures
        s.written(addr, value) == (C64State { ram: s.ram.update(addr as int, value), ..s }),
        0xA000 <= addr <= 0xBFFF && !basic_visible(port) ==> s.written(addr, value).written(
            0x0001,
            port,
        ).read(addr) == value,
        0xE000 <= addr && !kernal_visible(port) ==> s.written(addr, value).written(
            0x0001,
            port,
        ).read(addr) == value,
{
}

/// What a read in a banked area returns. From `$E000` on it is the KERNAL
/// byte exactly when HIRAM is set; from `$A000` to `$BFFF` it is the BASIC
/// byte exactly when LORAM and HIRAM are set; from `$D000` to `$DFFF` it is
/// the character ROM byte exactly when CHAREN is clear and LORAM or HIRAM is
/// set. Where no image is loaded the RAM byte shows through.
pub proof fn lemma_banked_read(s: C64State, addr: u16)
    requires
        s.wf(),
    ensures
        0xE000 <= addr ==> s.read(addr) == (if hiram(s.port_data) {
            s.rom_or_ram(s.kernal_rom, addr - 0xE000, addr)
        } else {
            s.ram[addr as int]
        }),
        0xA000 <= addr <= 0xBFFF ==> s.read(addr) == (if loram(s.port_data) && hiram(s.port_data) {
            s.rom_or_ram(s.basic_rom, addr - 0xA000, addr)
        } else {
            s.ram[addr as int]
        }),
        0xD000 <= addr <= 0xDFFF && !charen(s.port_data) ==> s.read(addr) == (if loram(
            s.port_data,
        ) || hiram(s.port_data) {
            s.rom_or_ram(s.char_rom, addr - 0xD000, addr)
        } else {
            s.ram[addr as int]
        }),
        0xD000 <= addr <= 0xDFFF && charen(s.port_data) ==> s.read(addr) == (if loram(s.port_data)
            || hiram(s.port_data) {
            s.io_read(addr)
        } else {
            s.ram[addr as int]
        }),
{
}

} // verus!
