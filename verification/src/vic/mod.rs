//! The VIC-II in text mode: the register file, the raster counter with its
//! interrupt, the colour RAM and the readout of the 40 by 25 screen.

use crate::memory::Memory;
use crate::ticks::{lemma_total_nonnegative, total_cycles};
use vstd::prelude::*;

verus! {

/// The sixteen colours of the palette.
#[derive(Debug, Clone, Copy, PartialEq, Eq, Structural)]
pub enum C64Color {
    Black,
    White,
    Red,
    Cyan,
    Purple,
    Green,
    Blue,
    Yellow,
    Orange,
    Brown,
    LightRed,
    DarkGrey,
    Grey,
    LightGreen,
    LightBlue,
    LightGrey,
}

impl C64Color {
    /// The number of this colour in the palette.
    pub open spec fn index(self) -> u8 {
        match self {
            C64Color::Black => 0,
            C64Color::White => 1,
            C64Color::Red => 2,
            C64Color::Cyan => 3,
            C64Color::Purple => 4,
            C64Color::Green => 5,
            C64Color::Blue => 6,
            C64Color::Yellow => 7,
            C64Color::Orange => 8,
            C64Color::Brown => 9,
            C64Color::LightRed => 10,
            C64Color::DarkGrey => 11,
            C64Color::Grey => 12,
            C64Color::LightGreen => 13,
            C64Color::LightBlue => 14,
            C64Color::LightGrey => 15,
        }
    }

    /// The colour that the low nibble of `value` numbers.
    pub fn from_u8(value: u8) -> (color: Self)
        ensures
            color.index() == value & 0x0F,
    {
        let nibble = value & 0x0F;
        assert(nibble < 16) by (bit_vector)
            requires
                nibble == value & 0x0F,
        ;
        match nibble {
            0 => C64Color::Black,
            1 => C64Color::White,
            2 => C64Color::Red,
            3 => C64Color::Cyan,
            4 => C64Color::Purple,
            5 => C64Color::Green,
            6 => C64Color::Blue,
            7 => C64Color::Yellow,
            8 => C64Color::Orange,
            9 => C64Color::Brown,
            10 => C64Color::LightRed,
            11 => C64Color::DarkGrey,
            12 => C64Color::Grey,
            13 => C64Color::LightGreen,
            14 => C64Color::LightBlue,
            _ => C64Color::LightGrey,
        }
    }

    /// The red, green and blue components of this colour.
    pub fn rgb(self) -> (components: (u8, u8, u8))
        ensures
            components == palette(self.index()),
    {
        match self {
            C64Color::Black => (0, 0, 0),
            C64Color::White => (255, 255, 255),
            C64Color::Red => (136, 0, 0),
            C64Color::Cyan => (170, 255, 238),
            C64Color::Purple => (204, 68, 204),
            C64Color::Green => (0, 204, 85),
            C64Color::Blue => (53, 40, 121),
            C64Color::Yellow => (238, 238, 119),
            C64Color::Orange => (221, 136, 85),
            C64Color::Brown => (102, 68, 0),
            C64Color::LightRed => (255, 119, 119),
            C64Color::DarkGrey => (51, 51, 51),
            C64Color::Grey => (119, 119, 119),
            C64Color::LightGreen => (170, 255, 102),
            C64Color::LightBlue => (108, 108, 255),
            C64Color::LightGrey => (187, 187, 187),
        }
    }
}

/// The palette: red, green and blue of colour number `index`.
pub open spec fn palette(index: u8) -> (u8, u8, u8) {
    match index {
        0 => (0, 0, 0),
        1 => (255, 255, 255),
        2 => (136, 0, 0),
        3 => (170, 255, 238),
        4 => (204, 68, 204),
        5 => (0, 204, 85),
        6 => (53, 40, 121),
        7 => (238, 238, 119),
        8 => (221, 136, 85),
        9 => (102, 68, 0),
        10 => (255, 119, 119),
        11 => (51, 51, 51),
        12 => (119, 119, 119),
        13 => (170, 255, 102),
        14 => (108, 108, 255),
        _ => (187, 187, 187),
    }
}

/// Columns of the text screen.
pub const SCREEN_WIDTH: usize = 40;

/// Rows of the text screen.
pub const SCREEN_HEIGHT: usize = 25;

/// Cycles that one raster line takes (PAL).
pub const CYCLES_PER_LINE: u16 = 63;

/// Raster lines of one frame (PAL).
pub const RASTER_LINES: u16 = 312;

/// Where screen memory starts.
pub const SCREEN_BASE: u16 = 0x0400;

/// Palette number of light blue, the colour of the text after reset.
pub const LIGHT_BLUE: u8 = 14;

/// Palette number of blue, the background after reset.
pub const BLUE: u8 = 6;

/// The screen code of a space.
pub const SPACE: u8 = 0x20;

/// The VIC-II chip.
pub struct VicII {
    screen_base: u16,
    color_ram: [u8; 1000],
    border_color: u8,
    background_color: u8,
    registers: [u8; 64],
    cycle_count: u16,
    raster_line: u16,
}

/// The mathematical model of the VIC-II.
pub struct VicState {
    /// The 1000 cells of colour RAM
    pub color_ram: Seq<u8>,
    /// Border colour, a palette number
    pub border_color: u8,
    /// Background colour, a palette number
    pub background_color: u8,
    /// The 64 registers as they were written
    pub registers: Seq<u8>,
    /// Cycles into the current raster line
    pub cycle_count: u16,
    /// The current raster line
    pub raster_line: u16,
}

/// The raster line that follows `line`.
pub open spec fn next_line(line: u16) -> u16 {
    if line + 1 >= RASTER_LINES {
        0
    } else {
        (line + 1) as u16
    }
}

impl VicState {
    /// What every VIC-II satisfies: 1000 colour cells and 64 registers, a
    /// raster line within the frame, and colours that are nibbles.
    pub open spec fn wf(self) -> bool {
        &&& self.color_ram.len() == 1000
        &&& self.registers.len() == 64
        &&& self.raster_line < RASTER_LINES
        &&& self.border_color <= 15
        &&& self.background_color <= 15
        &&& forall|i: int| 0 <= i < 1000 ==> #[trigger] self.color_ram[i] <= 15
    }

    /// The raster line at which an interrupt is wanted: nine bits, the low
    /// eight in register `$12` and the ninth in bit 7 of register `$11`.
    pub open spec fn compare_line(self) -> int {
        self.registers[0x12] + (if (self.registers[0x11] & 0x80) != 0 {
            256int
        } else {
            0int
        })
    }

    /// What a read of register `reg` returns. Register `$11` shows bit 8 of
    /// the raster line in its bit 7, register `$12` the low byte of the
    /// raster line, every other register what was written to it.
    pub open spec fn register(self, reg: int) -> u8 {
        if reg == 0x11 {
            (self.registers[0x11] & 0x7F) | (if self.raster_line > 255 {
                0x80u8
            } else {
                0u8
            })
        } else if reg == 0x12 {
            (self.raster_line & 0xFF) as u8
        } else {
            self.registers[reg]
        }
    }

    /// The state after `value` was written to register `reg`. Registers
    /// `$20` and `$21` also set the border and background colours.
    pub open spec fn written(self, reg: int, value: u8) -> VicState {
        let registers = self.registers.update(reg, value);
        if reg == 0x20 {
            VicState { registers, border_color: value & 0x0F, ..self }
        } else if reg == 0x21 {
            VicState { registers, background_color: value & 0x0F, ..self }
        } else {
            VicState { registers, ..self }
        }
    }

    /// Whether `cycles` more cycles complete the current raster line.
    pub open spec fn line_ends(self, cycles: u8) -> bool {
        self.cycle_count + cycles >= CYCLES_PER_LINE
    }

    /// Whether `cycles` more cycles bring the raster to the compare line.
    pub open spec fn compare_hit(self, cycles: u8) -> bool {
        self.line_ends(cycles) && next_line(self.raster_line) == self.compare_line()
    }

    /// The state after `cycles` cycles. When the cycles of the line reach
    /// 63 the raster moves to the next line, wrapping after line 311; on
    /// reaching the compare line bit 0 of register `$19` is set.
    pub open spec fn ticked(self, cycles: u8) -> VicState {
        if !self.line_ends(cycles) {
            VicState { cycle_count: (self.cycle_count + cycles) as u16, ..self }
        } else {
            VicState {
                cycle_count: (self.cycle_count + cycles - CYCLES_PER_LINE) as u16,
                raster_line: next_line(self.raster_line),
                registers: if self.compare_hit(cycles) {
                    self.registers.update(0x19, self.registers[0x19] | 0x01)
                } else {
                    self.registers
                },
                ..self
            }
        }
    }

    /// Whether the chip requests an interrupt when `cycles` cycles pass:
    /// the raster reaches the compare line and bit 0 of register `$1A`
    /// enables the raster interrupt.
    pub open spec fn tick_irq(self, cycles: u8) -> bool {
        self.compare_hit(cycles) && (self.registers[0x1A] & 0x01) != 0
    }

    /// The state after the ticks `ticks`, one after the other.
    pub open spec fn ticked_all(self, ticks: Seq<u8>) -> VicState
        decreases ticks.len(),
    {
        if ticks.len() == 0 {
            self
        } else {
            self.ticked_all(ticks.drop_last()).ticked(ticks.last())
        }
    }

    /// The number of ticks among `ticks` at which the chip requests an
    /// interrupt.
    pub open spec fn irq_count(self, ticks: Seq<u8>) -> nat
        decreases ticks.len(),
    {
        if ticks.len() == 0 {
            0
        } else {
            self.irq_count(ticks.drop_last()) + (if self.ticked_all(ticks.drop_last()).tick_irq(
                ticks.last(),
            ) {
                1nat
            } else {
                0nat
            })
        }
    }

    /// What a read of colour cell `offset` returns: its low nibble, and 0
    /// beyond the 1000 cells.
    pub open spec fn color_at(self, offset: u16) -> u8 {
        if offset < 1000 {
            self.color_ram[offset as int] & 0x0F
        } else {
            0
        }
    }

    /// The state after `value` was written to colour cell `offset`: the
    /// cell takes its low nibble; beyond the 1000 cells nothing changes.
    pub open spec fn with_color(self, offset: u16, value: u8) -> VicState {
        if offset < 1000 {
            VicState { color_ram: self.color_ram.update(offset as int, value & 0x0F), ..self }
        } else {
            self
        }
    }

    /// The state after reset.
    pub open spec fn initial() -> VicState {
        VicState {
            color_ram: Seq::new(1000, |i: int| LIGHT_BLUE),
            border_color: LIGHT_BLUE,
            background_color: BLUE,
            registers: Seq::new(64, |i: int| 0u8),
            cycle_count: 0,
            raster_line: 0,
        }
    }
}

/// The screen code and the colour nibble of the cell in column `x` of row
/// `y`, and a light blue space outside the 40 by 25 screen.
pub open spec fn screen_cell<M: Memory>(mem: M::State, vic: VicState, x: int, y: int) -> (u8, u8) {
    if 0 <= x < SCREEN_WIDTH && 0 <= y < SCREEN_HEIGHT {
        (M::peek(mem, (SCREEN_BASE + y * 40 + x) as u16), vic.color_at((y * 40 + x) as u16))
    } else {
        (SPACE, LIGHT_BLUE)
    }
}

/// A nibble is its own low nibble, and a low nibble is a nibble.
pub proof fn lemma_nibble(value: u8)
    ensures
        value & 0x0F <= 15,
        value <= 15 ==> value & 0x0F == value,
{
    assert(value & 0x0F <= 15) by (bit_vector);
    assert(value <= 15 ==> value & 0x0F == value) by (bit_vector);
}

impl View for VicII {
    type V = VicState;

    closed spec fn view(&self) -> VicState {
        VicState {
            color_ram: self.color_ram@,
            border_color: self.border_color,
            background_color: self.background_color,
            registers: self.registers@,
            cycle_count: self.cycle_count,
            raster_line: self.raster_line,
        }
    }
}

impl VicII {
    /// What holds of every chip.
    #[verifier::type_invariant]
    pub closed spec fn inv(self) -> bool {
        &&& self.raster_line < RASTER_LINES
        &&& self.screen_base == SCREEN_BASE
        &&& self.border_color <= 15
        &&& self.background_color <= 15
        &&& forall|i: int| 0 <= i < 1000 ==> #[trigger] self.color_ram@[i] <= 15
    }

    /// The model of a chip is well formed.
    pub proof fn lemma_wf(self)
        requires
            self.inv(),
        ensures
            self@.wf(),
    {
    }

    /// A chip after reset: light blue text and border on blue, all
    /// registers zero, the raster at the start of line 0.
    pub fn new() -> (vic: Self)
        ensures
            vic@ == VicState::initial(),
            vic@.wf(),
    {
        let vic = VicII {
            screen_base: SCREEN_BASE,
            color_ram: [LIGHT_BLUE;1000],
            border_color: LIGHT_BLUE,
            background_color: BLUE,
            registers: [0u8;64],
            cycle_count: 0,
            raster_line: 0,
        };
        assert(vic@.color_ram =~= VicState::initial().color_ram);
        assert(vic@.registers =~= VicState::initial().registers);
        vic
    }

    /// Reads the register that `addr` selects by its low six bits.
    pub fn read_register(&self, addr: u16) -> (value: u8)
        ensures
            value == self@.register((addr & 0x3F) as int),
            self@.wf(),
    {
        proof {
            use_type_invariant(self);
        }
        let reg = (addr & 0x3F) as usize;
        assert(addr & 0x3F < 64) by (bit_vector);
        if reg == 0x11 {
            let stored = self.registers[0x11] & 0x7F;
            let raster_high: u8 = if self.raster_line > 255 { 0x80 } else { 0 };
            stored | raster_high
        } else if reg == 0x12 {
            (self.raster_line & 0xFF) as u8
        } else {
            self.registers[reg]
        }
    }

    /// Writes `value` to the register that `addr` selects by its low six
    /// bits.
    pub fn write_register(&mut self, addr: u16, value: u8)
        ensures
            final(self)@ == old(self)@.written((addr & 0x3F) as int, value),
            final(self)@.wf(),
    {
        proof {
            use_type_invariant(&*self);
        }
        let reg = (addr & 0x3F) as usize;
        assert(addr & 0x3F < 64) by (bit_vector);
        assert(value & 0x0F <= 15) by (bit_vector);
        self.registers[reg] = value;
        if reg == 0x20 {
            self.border_color = value & 0x0F;
        } else if reg == 0x21 {
            self.background_color = value & 0x0F;
        }
    }

    /// Advances the raster beam by `cycles` cycles and says whether the
    /// chip requests an interrupt. At most one line ends per call.
    pub fn tick(&mut self, cycles: u8) -> (irq: bool)
        requires
            old(self)@.cycle_count + cycles <= u16::MAX,
        ensures
            final(self)@ == old(self)@.ticked(cycles),
            irq == old(self)@.tick_irq(cycles),
            final(self)@.wf(),
    {
        proof {
            use_type_invariant(&*self);
        }
        let total: u16 = self.cycle_count + cycles as u16;
        if total < CYCLES_PER_LINE {
            self.cycle_count = total;
            return false;
        }
        self.cycle_count = total - CYCLES_PER_LINE;
        let line: u16 = if self.raster_line + 1 >= RASTER_LINES {
            0
        } else {
            self.raster_line + 1
        };
        self.raster_line = line;
        let low = self.registers[0x12];
        let compare: u16 = if (self.registers[0x11] & 0x80) != 0 {
            low as u16 + 0x100
        } else {
            low as u16
        };
        if line == compare {
            self.registers[0x19] = self.registers[0x19] | 0x01;
            if (self.registers[0x1A] & 0x01) != 0 {
                return true;
            }
        }
        false
    }

    /// Cycles into the current raster line.
    pub fn cycle_count(&self) -> (count: u16)
        ensures
            count == self@.cycle_count,
    {
        self.cycle_count
    }

    /// Reads colour cell `offset`.
    pub fn read_color_ram(&self, offset: u16) -> (value: u8)
        ensures
            value == self@.color_at(offset),
            self@.wf(),
    {
        proof {
            use_type_invariant(self);
        }
        if (offset as usize) < 1000 {
            self.color_ram[offset as usize] & 0x0F
        } else {
            0
        }
    }

    /// Writes the low nibble of `value` to colour cell `offset`.
    pub fn write_color_ram(&mut self, offset: u16, value: u8)
        ensures
            final(self)@ == old(self)@.with_color(offset, value),
            final(self)@.wf(),
    {
        proof {
            use_type_invariant(&*self);
        }
        assert(value & 0x0F <= 15) by (bit_vector);
        if (offset as usize) < 1000 {
            self.color_ram[offset as usize] = value & 0x0F;
        }
    }

    /// The screen code and the colour of the cell in column `x` of row `y`:
    /// the byte of screen memory at `$0400 + 40 * y + x` and the colour
    /// nibble at the same offset. Outside the screen it is a light blue
    /// space.
    pub fn get_screen_char<M: Memory>(&self, memory: &M, x: usize, y: usize) -> (cell: (u8, u8))
        ensures
            cell == screen_cell::<M>(memory.state(), self@, x as int, y as int),
            cell.1 <= 15,
            self@.wf(),
    {
        proof {
            use_type_invariant(self);
        }
        if x >= SCREEN_WIDTH || y >= SCREEN_HEIGHT {
            return (SPACE, LIGHT_BLUE);
        }
        let offset = y * SCREEN_WIDTH + x;
        let char_code = memory.read(self.screen_base + offset as u16);
        let color = self.color_ram[offset];
        proof {
            lemma_nibble(color);
        }
        (char_code, color)
    }

    /// The border colour.
    pub fn get_border_color(&self) -> (color: C64Color)
        ensures
            color.index() == self@.border_color,
            self@.wf(),
    {
        proof {
            use_type_invariant(self);
            lemma_nibble(self.border_color);
        }
        C64Color::from_u8(self.border_color)
    }

    /// The background colour.
    pub fn get_background_color(&self) -> (color: C64Color)
        ensures
            color.index() == self@.background_color,
            self@.wf(),
    {
        proof {
            use_type_invariant(self);
            lemma_nibble(self.background_color);
        }
        C64Color::from_u8(self.background_color)
    }
}

/// Ticks and writes keep the model well formed.
pub proof fn lemma_wf_kept(s: VicState, reg: int, offset: u16, value: u8, cycles: u8)
    requires
        s.wf(),
        0 <= reg < 64,
    ensures
        s.ticked(cycles).wf(),
        s.written(reg, value).wf(),
        s.with_color(offset, value).wf(),
{
    lemma_nibble(value);
}

proof fn lemma_line_progress(s: VicState, ticks: Seq<u8>)
    requires
        s.wf(),
        s.cycle_count < CYCLES_PER_LINE,
        total_cycles(ticks) <= CYCLES_PER_LINE,
    ensures
        ({
            let e = s.ticked_all(ticks);
            let t = s.cycle_count + total_cycles(ticks);
            &&& e.wf()
            &&& t < CYCLES_PER_LINE ==> e.raster_line == s.raster_line && e.cycle_count == t
            &&& t >= CYCLES_PER_LINE ==> e.raster_line == next_line(s.raster_line)
                && e.cycle_count == t - CYCLES_PER_LINE
        }),
    decreases ticks.len(),
{
    if ticks.len() > 0 {
        lemma_total_nonnegative(ticks.drop_last());
        lemma_line_progress(s, ticks.drop_last());
    }
}

/// After exactly 63 cycles, however they are split into ticks, the raster
/// is one line further, wrapping from line 311 to line 0, and as far into
/// the line as it was. The raster starts less than a line's cycles into its
/// line.
pub proof fn lemma_line_advances(s: VicState, ticks: Seq<u8>)
    requires
        s.wf(),
        s.cycle_count < CYCLES_PER_LINE,
        total_cycles(ticks) == CYCLES_PER_LINE,
    ensures
        s.ticked_all(ticks).raster_line == next_line(s.raster_line),
        s.ticked_all(ticks).cycle_count == s.cycle_count,
        s.raster_line == 311 ==> s.ticked_all(ticks).raster_line == 0,
        s.raster_line < 311 ==> s.ticked_all(ticks).raster_line == s.raster_line + 1,
{
    lemma_line_progress(s, ticks);
}

/// Writing the low eight bits of `line` to register `$12` and a byte with
/// bit 8 of `line` in its bit 7 to register `$11` sets the compare line to
/// `line`.
pub proof fn lemma_compare_line_written(s: VicState, line: int, low: u8, high: u8)
    requires
        s.wf(),
        0 <= line < 512,
        low == line % 256,
        (high & 0x80) != 0 <==> line >= 256,
    ensures
        s.written(0x12, low).written(0x11, high).compare_line() == line,
        s.written(0x12, low).written(0x11, high).wf(),
        s.written(0x12, low).written(0x11, high).raster_line == s.raster_line,
        s.written(0x12, low).written(0x11, high).cycle_count == s.cycle_count,
        s.written(0x12, low).written(0x11, high).registers[0x1A] == s.registers[0x1A],
{
}

proof fn lemma_flag_bit(x: u8)
    ensures
        (x | 0x01) & 0x01 != 0,
{
    assert((x | 0x01) & 0x01 != 0) by (bit_vector);
}

proof fn lemma_raster_progress(s: VicState, ticks: Seq<u8>, line: int)
    requires
        s.wf(),
        s.raster_line == 0,
        s.cycle_count < CYCLES_PER_LINE,
        1 <= line < RASTER_LINES,
        s.compare_line() == line,
        forall|i: int| 0 <= i < ticks.len() ==> #[trigger] ticks[i] <= CYCLES_PER_LINE,
        total_cycles(ticks) <= CYCLES_PER_LINE * line,
    ensures
        ({
            let e = s.ticked_all(ticks);
            let t = s.cycle_count + total_cycles(ticks);
            &&& e.wf()
            &&& e.raster_line <= line
            &&& e.raster_line * CYCLES_PER_LINE + e.cycle_count == t
            &&& e.cycle_count < CYCLES_PER_LINE
            &&& e.registers[0x11] == s.registers[0x11]
            &&& e.registers[0x12] == s.registers[0x12]
            &&& e.registers[0x1A] == s.registers[0x1A]
            &&& e.raster_line < line ==> s.irq_count(ticks) == 0
            &&& e.raster_line == line ==> (e.registers[0x19] & 0x01) != 0 && s.irq_count(ticks) == (
            if (s.registers[0x1A] & 0x01) != 0 {
                1nat
            } else {
                0nat
            })
        }),
    decreases ticks.len(),
{
    if ticks.len() > 0 {
        let before = ticks.drop_last();
        lemma_total_nonnegative(before);
        assert forall|i: int| 0 <= i < before.len() implies #[trigger] before[i]
            <= CYCLES_PER_LINE by {
            assert(before[i] == ticks[i]);
        }
        lemma_raster_progress(s, before, line);
        let p = s.ticked_all(before);
        assert(ticks.last() == ticks[ticks.len() - 1]);
        lemma_flag_bit(p.registers[0x19]);
    }
}

/// With the compare line set to `line` while the raster is at the start of
/// line 0, ticks of 63 times `line` cycles bring the raster to `line` and
/// set bit 0 of register `$19`. If bit 0 of register `$1A` enables the
/// raster interrupt, exactly one of the ticks requests an interrupt, else
/// none. `line` is a line of the frame other than 0, and no tick is longer
/// than a line.
pub proof fn lemma_raster_irq(s: VicState, ticks: Seq<u8>, line: int)
    requires
        s.wf(),
        s.raster_line == 0,
        s.cycle_count == 0,
        1 <= line < RASTER_LINES,
        s.compare_line() == line,
        forall|i: int| 0 <= i < ticks.len() ==> #[trigger] ticks[i] <= CYCLES_PER_LINE,
        total_cycles(ticks) == CYCLES_PER_LINE * line,
    ensures
        s.ticked_all(ticks).raster_line == line,
        (s.ticked_all(ticks).registers[0x19] & 0x01) != 0,
        s.irq_count(ticks) == (if (s.registers[0x1A] & 0x01) != 0 {
            1nat
        } else {
            0nat
        }),
{
    lemma_raster_progress(s, ticks, line);
}

/// The character that stands for screen code `code` below 128: `@`, the
/// letters, the ASCII punctuation and digits, and a selection of graphics.
/// Codes without a character of their own show as a shaded block.
pub open spec fn glyph(code: u8) -> char {
    if code == 0 {
        '@'
    } else if code <= 26 {
        (0x40 + code) as char
    } else if 32 <= code <= 63 {
        code as char
    } else {
        match code {
            27 => '[',
            28 => '£',
            29 => ']',
            30 => '↑',
            31 => '←',
            65 => '♠',
            66 | 71 | 72 | 92 | 93 => '│',
            67 | 68 | 69 | 70 | 84 | 89 => '─',
            73 => '╯',
            74 => '╮',
            75 => '╰',
            76 | 85 => '╭',
            77 => '╲',
            78 => '╱',
            79 | 86 => '╳',
            80 | 81 => '●',
            82 | 87 => '○',
            83 => '♥',
            88 => '♣',
            90 => '♦',
            91 => '+',
            94 => 'π',
            95 => '◥',
            _ => '▒',
        }
    }
}

/// The character that stands for screen code `code`. A code from 128 up
/// is the inverse of the code with bit 7 cleared and shows as that code
/// does.
pub open spec fn screen_char(code: u8) -> char {
    if code >= 128 {
        glyph(code & 0x7F)
    } else {
        glyph(code)
    }
}

/// An inverse code shows as its base code does.
pub proof fn lemma_inverse_code(code: u8)
    requires
        code >= 128,
    ensures
        screen_char(code) == screen_char(code & 0x7F),
{
    assert(code & 0x7F < 128) by (bit_vector);
}

/// The character that displays screen code `code`.
pub fn screen_code_to_char(code: u8) -> (c: char)
    ensures
        c == screen_char(code),
    decreases code,
{
    match code {
        0 => '@',
        1..=26 => (0x40 + code) as char,
        27 => '[',
        28 => '£',
        29 => ']',
        30 => '↑',
        31 => '←',
        32..=63 => code as char,
        65 => '♠',
        66 | 71 | 72 | 92 | 93 => '│',
        67 | 68 | 69 | 70 | 84 | 89 => '─',
        73 => '╯',
        74 => '╮',
        75 => '╰',
        76 | 85 => '╭',
        77 => '╲',
        78 => '╱',
        79 | 86 => '╳',
        80 | 81 => '●',
        82 | 87 => '○',
        83 => '♥',
        88 => '♣',
        90 => '♦',
        91 => '+',
        94 => 'π',
        95 => '◥',
        128..=255 => {
            assert(code & 0x7F < 128) by (bit_vector);
            screen_code_to_char(code & 0x7F)
        },
        _ => '▒',
    }
}

} // verus!
