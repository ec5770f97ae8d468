//! The CIA (Complex Interface Adapter): two interval timers, the interrupt
//! control register and, on CIA1, the keyboard matrix.

use crate::ticks::{lemma_total_nonnegative, total_cycles};
use vstd::prelude::*;

verus! {

/// Frames for which a key stays down in the matrix after the host reported
/// it pressed.
pub const KEY_HOLD_FRAMES: u8 = 5;

/// ICR bit of timer A.
pub const ICR_TIMER_A: u8 = 0x01;

/// ICR bit of timer B.
pub const ICR_TIMER_B: u8 = 0x02;

/// One CIA chip.
pub struct Cia {
    /// Port register A: on CIA1 it selects keyboard rows, active low
    pub pra: u8,
    /// Port register B
    pub prb: u8,
    /// Data direction register A
    pub ddra: u8,
    /// Data direction register B
    pub ddrb: u8,
    /// Timer A latch, low byte
    pub ta_lo: u8,
    /// Timer A latch, high byte
    pub ta_hi: u8,
    /// Timer B latch, low byte
    pub tb_lo: u8,
    /// Timer B latch, high byte
    pub tb_hi: u8,
    /// Time of day: tenths of a second
    pub tod_10ths: u8,
    /// Time of day: seconds
    pub tod_sec: u8,
    /// Time of day: minutes
    pub tod_min: u8,
    /// Time of day: hours
    pub tod_hr: u8,
    /// Serial data register
    pub sdr: u8,
    /// Interrupt control register: bit 7 says that an interrupt occurred,
    /// bits 0 to 6 say which sources fired
    pub icr: u8,
    /// The sources that may raise an interrupt
    pub icr_mask: u8,
    /// Control register A: bit 0 runs timer A, bit 3 makes it one-shot
    pub cra: u8,
    /// Control register B: the same for timer B
    pub crb: u8,
    timer_a: u16,
    timer_b: u16,
    // One counter per key, row by row: 0 when up, else the frames for which
    // it is still seen as down.
    keyboard_matrix: [u8; 64],
}

/// The mathematical model of a CIA.
pub struct CiaState {
    pub pra: u8,
    pub prb: u8,
    pub ddra: u8,
    pub ddrb: u8,
    pub ta_lo: u8,
    pub ta_hi: u8,
    pub tb_lo: u8,
    pub tb_hi: u8,
    pub tod_10ths: u8,
    pub tod_sec: u8,
    pub tod_min: u8,
    pub tod_hr: u8,
    pub sdr: u8,
    pub icr: u8,
    pub icr_mask: u8,
    pub cra: u8,
    pub crb: u8,
    /// Current value of timer A
    pub timer_a: u16,
    /// Current value of timer B
    pub timer_b: u16,
    /// The 64 key counters, row by row
    pub keys: Seq<u8>,
}

/// A 16-bit timer value from its two latch bytes.
pub open spec fn latch(lo: u8, hi: u8) -> u16 {
    ((hi as u16) << 8) | (lo as u16)
}

/// Whether a timer with control register `control` and value `counter`
/// underflows when `cycles` cycles pass: it runs and has no more than
/// `cycles` left.
pub open spec fn underflows(control: u8, counter: u16, cycles: u8) -> bool {
    (control & 0x01) != 0 && counter <= cycles
}

/// The value of a timer after `cycles` cycles.
pub open spec fn counted(control: u8, counter: u16, reload: u16, cycles: u8) -> u16 {
    if (control & 0x01) == 0 {
        counter
    } else if counter > cycles {
        (counter - cycles) as u16
    } else {
        reload
    }
}

/// A control register after its timer underflowed or not: a one-shot timer
/// stops on underflow.
pub open spec fn control_after(control: u8, underflowed: bool) -> u8 {
    if underflowed && (control & 0x08) != 0 {
        control & 0xFE
    } else {
        control
    }
}

/// An interrupt register after a source fired or not: `bits` holds the
/// bit of the source and bit 7.
pub open spec fn flagged(icr: u8, fired: bool, bits: u8) -> u8 {
    if fired {
        icr | bits
    } else {
        icr
    }
}

/// An interrupt mask after `value` was written to it: with bit 7 set the
/// low seven bits are switched on, with bit 7 clear they are switched off.
pub open spec fn masked(mask: u8, value: u8) -> u8 {
    if (value & 0x80) != 0 {
        mask | (value & 0x7F)
    } else {
        mask & !(value & 0x7F)
    }
}

/// A key counter one frame later.
pub open spec fn decayed(count: u8) -> u8 {
    if count > 0 {
        (count - 1) as u8
    } else {
        0
    }
}

impl CiaState {
    /// The counter of the key at (`row`, `col`).
    pub open spec fn key(self, row: int, col: int) -> u8 {
        self.keys[row * 8 + col]
    }

    /// Whether PRA selects keyboard row `row` (active low).
    pub open spec fn row_selected(self, row: int) -> bool {
        (self.pra & (1u8 << (row as u8))) == 0
    }

    /// Whether some selected row has its key in column `col` down.
    pub open spec fn column_down(self, col: int) -> bool {
        exists|row: int| 0 <= row < 8 && self.row_selected(row) && #[trigger] self.key(row, col) > 0
    }

    /// The column byte with the columns below `n` filled in: a 0 bit for
    /// each column that is down.
    pub open spec fn columns_below(self, n: int) -> u8
        decreases n,
    {
        if n <= 0 {
            0xFF
        } else if self.column_down(n - 1) {
            self.columns_below(n - 1) & !(1u8 << ((n - 1) as u8))
        } else {
            self.columns_below(n - 1)
        }
    }

    /// What a read of port B returns: bit `c` is 0 exactly when a selected
    /// row has a key down in column `c`.
    pub open spec fn columns(self) -> u8 {
        self.columns_below(8)
    }

    /// What a read of register `reg` returns.
    pub open spec fn register(self, reg: u16) -> u8 {
        match reg {
            0x00 => self.pra,
            0x01 => self.columns(),
            0x02 => self.ddra,
            0x03 => self.ddrb,
            0x04 => (self.timer_a & 0xFF) as u8,
            0x05 => ((self.timer_a >> 8) & 0xFF) as u8,
            0x06 => (self.timer_b & 0xFF) as u8,
            0x07 => ((self.timer_b >> 8) & 0xFF) as u8,
            0x08 => self.tod_10ths,
            0x09 => self.tod_sec,
            0x0A => self.tod_min,
            0x0B => self.tod_hr,
            0x0C => self.sdr,
            0x0D => self.icr,
            0x0E => self.cra,
            0x0F => self.crb,
            _ => 0,
        }
    }

    /// The state after `value` was written to register `reg`. A write to a
    /// timer register sets the latch byte and the same byte of the running
    /// counter; a write to register `$0D` updates the mask.
    pub open spec fn written(self, reg: u16, value: u8) -> CiaState {
        match reg {
            0x00 => CiaState { pra: value, ..self },
            0x01 => CiaState { prb: value, ..self },
            0x02 => CiaState { ddra: value, ..self },
            0x03 => CiaState { ddrb: value, ..self },
            0x04 => CiaState {
                ta_lo: value,
                timer_a: (self.timer_a & 0xFF00) | (value as u16),
                ..self
            },
            0x05 => CiaState {
                ta_hi: value,
                timer_a: ((value as u16) << 8) | (self.timer_a & 0x00FF),
                ..self
            },
            0x06 => CiaState {
                tb_lo: value,
                timer_b: (self.timer_b & 0xFF00) | (value as u16),
                ..self
            },
            0x07 => CiaState {
                tb_hi: value,
                timer_b: ((value as u16) << 8) | (self.timer_b & 0x00FF),
                ..self
            },
            0x08 => CiaState { tod_10ths: value, ..self },
            0x09 => CiaState { tod_sec: value, ..self },
            0x0A => CiaState { tod_min: value, ..self },
            0x0B => CiaState { tod_hr: value, ..self },
            0x0C => CiaState { sdr: value, ..self },
            0x0D => CiaState { icr_mask: masked(self.icr_mask, value), ..self },
            0x0E => CiaState { cra: value, ..self },
            0x0F => CiaState { crb: value, ..self },
            _ => self,
        }
    }

    /// The state once a read of register `reg` has completed: a read of
    /// the interrupt control register clears it.
    pub open spec fn read_done(self, reg: u16) -> CiaState {
        if reg == 0x0D {
            CiaState { icr: 0, ..self }
        } else {
            self
        }
    }

    /// Whether timer A underflows when `cycles` cycles pass.
    pub open spec fn a_underflows(self, cycles: u8) -> bool {
        underflows(self.cra, self.timer_a, cycles)
    }

    /// Whether timer B underflows when `cycles` cycles pass.
    pub open spec fn b_underflows(self, cycles: u8) -> bool {
        underflows(self.crb, self.timer_b, cycles)
    }

    /// The state after `cycles` cycles. A running timer counts down; one
    /// that has no more than `cycles` left is reloaded from its latch, sets
    /// its bit and bit 7 in the interrupt register and, if one-shot, stops.
    pub open spec fn ticked(self, cycles: u8) -> CiaState {
        let a = self.a_underflows(cycles);
        let b = self.b_underflows(cycles);
        CiaState {
            timer_a: counted(self.cra, self.timer_a, latch(self.ta_lo, self.ta_hi), cycles),
            timer_b: counted(self.crb, self.timer_b, latch(self.tb_lo, self.tb_hi), cycles),
            icr: flagged(flagged(self.icr, a, 0x81), b, 0x82),
            cra: control_after(self.cra, a),
            crb: control_after(self.crb, b),
            ..self
        }
    }

    /// Whether the chip requests an interrupt when `cycles` cycles pass: a
    /// timer underflows whose bit is set in the mask.
    pub open spec fn tick_irq(self, cycles: u8) -> bool {
        (self.a_underflows(cycles) && (self.icr_mask & ICR_TIMER_A) != 0) || (self.b_underflows(
            cycles,
        ) && (self.icr_mask & ICR_TIMER_B) != 0)
    }

    /// The state after the ticks `ticks`, one after the other.
    pub open spec fn ticked_all(self, ticks: Seq<u8>) -> CiaState
        decreases ticks.len(),
    {
        if ticks.len() == 0 {
            self
        } else {
            self.ticked_all(ticks.drop_last()).ticked(ticks.last())
        }
    }

    /// The number of ticks among `ticks` at which the chip requests an
    /// interrupt.
    pub open spec fn irq_count(self, ticks: Seq<u8>) -> nat
        decreases ticks.len(),
    {
        if ticks.len() == 0 {
            0
        } else {
            self.irq_count(ticks.drop_last()) + (if self.ticked_all(ticks.drop_last()).tick_irq(
                ticks.last(),
            ) {
                1nat
            } else {
                0nat
            })
        }
    }

    /// The state after the host reported the key at (`row`, `col`) down or
    /// up. Positions outside the matrix change nothing.
    pub open spec fn with_key(self, row: u8, col: u8, pressed: bool) -> CiaState {
        if row < 8 && col < 8 {
            CiaState {
                keys: self.keys.update(
                    row * 8 + col,
                    if pressed {
                        KEY_HOLD_FRAMES
                    } else {
                        0
                    },
                ),
                ..self
            }
        } else {
            self
        }
    }

    /// The state one frame later: every key that is down has one frame
    /// less to stay down.
    pub open spec fn frame_passed(self) -> CiaState {
        CiaState { keys: Seq::new(64, |i: int| decayed(self.keys[i])), ..self }
    }

    /// The state of a chip after reset.
    pub open spec fn initial() -> CiaState {
        CiaState {
            pra: 0xFF,
            prb: 0xFF,
            ddra: 0,
            ddrb: 0,
            ta_lo: 0x25,
            ta_hi: 0x40,
            tb_lo: 0xFF,
            tb_hi: 0xFF,
            tod_10ths: 0,
            tod_sec: 0,
            tod_min: 0,
            tod_hr: 1,
            sdr: 0,
            icr: 0,
            icr_mask: 0,
            cra: 0x01,
            crb: 0,
            timer_a: 0x4025,
            timer_b: 0xFFFF,
            keys: Seq::new(64, |i: int| 0u8),
        }
    }
}

impl View for Cia {
    type V = CiaState;

    closed spec fn view(&self) -> CiaState {
        CiaState {
            pra: self.pra,
            prb: self.prb,
            ddra: self.ddra,
            ddrb: self.ddrb,
            ta_lo: self.ta_lo,
            ta_hi: self.ta_hi,
            tb_lo: self.tb_lo,
            tb_hi: self.tb_hi,
            tod_10ths: self.tod_10ths,
            tod_sec: self.tod_sec,
            tod_min: self.tod_min,
            tod_hr: self.tod_hr,
            sdr: self.sdr,
            icr: self.icr,
            icr_mask: self.icr_mask,
            cra: self.cra,
            crb: self.crb,
            timer_a: self.timer_a,
            timer_b: self.timer_b,
            keys: self.keyboard_matrix@,
        }
    }
}

impl Cia {
    /// A chip after reset: timer A runs with the jiffy interval `$4025`
    /// (16421 cycles), no interrupt source is enabled and no key is down.
    pub fn new() -> (cia: Self)
        ensures
            cia@ == CiaState::initial(),
    {
        let cia = Cia {
            pra: 0xFF,
            prb: 0xFF,
            ddra: 0,
            ddrb: 0,
            ta_lo: 0x25,
            ta_hi: 0x40,
            tb_lo: 0xFF,
            tb_hi: 0xFF,
            tod_10ths: 0,
            tod_sec: 0,
            tod_min: 0,
            tod_hr: 1,
            sdr: 0,
            icr: 0,
            icr_mask: 0,
            cra: 0x01,
            crb: 0,
            timer_a: 0x4025,
            timer_b: 0xFFFF,
            keyboard_matrix: [0u8; 64],
        };
        assert(cia@.keys =~= CiaState::initial().keys);
        cia
    }

    /// Reads the register that `addr` selects by its low four bits. It
    /// changes nothing: see [`Cia::acknowledge`] for the read of the
    /// interrupt register.
    pub fn read(&self, addr: u16) -> (value: u8)
        ensures
            value == self@.register(addr & 0x0F),
    {
        match addr & 0x0F {
            0x00 => self.pra,
            0x01 => self.read_keyboard_columns(),
            0x02 => self.ddra,
            0x03 => self.ddrb,
            0x04 => (self.timer_a & 0xFF) as u8,
            0x05 => ((self.timer_a >> 8) & 0xFF) as u8,
            0x06 => (self.timer_b & 0xFF) as u8,
            0x07 => ((self.timer_b >> 8) & 0xFF) as u8,
            0x08 => self.tod_10ths,
            0x09 => self.tod_sec,
            0x0A => self.tod_min,
            0x0B => self.tod_hr,
            0x0C => self.sdr,
            0x0D => self.icr,
            0x0E => self.cra,
            0x0F => self.crb,
            _ => 0,
        }
    }

    /// Completes a read of the register that `addr` selects: after a read
    /// of the interrupt control register its flags, bit 7 included, are
    /// cleared, so that no source is seen twice.
    pub fn acknowledge(&mut self, addr: u16)
        ensures
            final(self)@ == old(self)@.read_done(addr & 0x0F),
    {
        if addr & 0x0F == 0x0D {
            self.icr = 0;
        }
    }

    /// Writes `value` to the register that `addr` selects by its low four
    /// bits.
    pub fn write(&mut self, addr: u16, value: u8)
        ensures
            final(self)@ == old(self)@.written(addr & 0x0F, value),
    {
        match addr & 0x0F {
            0x00 => self.pra = value,
            0x01 => self.prb = value,
            0x02 => self.ddra = value,
            0x03 => self.ddrb = value,
            0x04 => {
                self.ta_lo = value;
                self.timer_a = (self.timer_a & 0xFF00) | (value as u16);
            },
            0x05 => {
                self.ta_hi = value;
                self.timer_a = ((value as u16) << 8) | (self.timer_a & 0x00FF);
            },
            0x06 => {
                self.tb_lo = value;
                self.timer_b = (self.timer_b & 0xFF00) | (value as u16);
            },
            0x07 => {
                self.tb_hi = value;
                self.timer_b = ((value as u16) << 8) | (self.timer_b & 0x00FF);
            },
            0x08 => self.tod_10ths = value,
            0x09 => self.tod_sec = value,
            0x0A => self.tod_min = value,
            0x0B => self.tod_hr = value,
            0x0C => self.sdr = value,
            0x0D => {
                if value & 0x80 != 0 {
                    self.icr_mask = self.icr_mask | (value & 0x7F);
                } else {
                    self.icr_mask = self.icr_mask & !(value & 0x7F);
                }
            },
            0x0E => self.cra = value,
            0x0F => self.crb = value,
            _ => {},
        }
    }

    /// Advances both timers by `cycles` cycles and says whether the chip
    /// requests an interrupt.
    pub fn tick(&mut self, cycles: u8) -> (irq: bool)
        ensures
            final(self)@ == old(self)@.ticked(cycles),
            irq == old(self)@.tick_irq(cycles),
    {
        let mut irq = false;
        if self.cra & 0x01 != 0 {
            if self.timer_a > cycles as u16 {
                self.timer_a = self.timer_a - cycles as u16;
            } else {
                self.timer_a = ((self.ta_hi as u16) << 8) | (self.ta_lo as u16);
                self.icr = self.icr | 0x81;
                if (self.icr_mask & 0x01) != 0 {
                    irq = true;
                }
                if self.cra & 0x08 != 0 {
                    self.cra = self.cra & 0xFE;
                }
            }
        }
        if self.crb & 0x01 != 0 {
            if self.timer_b > cycles as u16 {
                self.timer_b = self.timer_b - cycles as u16;
            } else {
                self.timer_b = ((self.tb_hi as u16) << 8) | (self.tb_lo as u16);
                self.icr = self.icr | 0x82;
                if (self.icr_mask & 0x02) != 0 {
                    irq = true;
                }
                if self.crb & 0x08 != 0 {
                    self.crb = self.crb & 0xFE;
                }
            }
        }
        irq
    }

    /// The column byte of the keyboard matrix for the rows that port A
    /// selects: a column reads 0 when a selected row has its key down.
    pub fn read_keyboard_columns(&self) -> (columns: u8)
        ensures
            columns == self@.columns(),
    {
        let mut result: u8 = 0xFF;
        let mut col: u8 = 0;
        while col < 8
            invariant
                col <= 8,
                result == self@.columns_below(col as int),
            decreases 8 - col,
        {
            let mut down = false;
            let mut row: u8 = 0;
            while row < 8
                invariant
                    row <= 8,
                    col < 8,
                    down <==> exists|r: int|
                        0 <= r < row && self@.row_selected(r) && #[trigger] self@.key(
                            r,
                            col as int,
                        ) > 0,
                decreases 8 - row,
            {
                let selected = (self.pra & (1u8 << row)) == 0;
                let count = self.keyboard_matrix[(row as usize) * 8 + (col as usize)];
                assert(selected == self@.row_selected(row as int));
                assert(count == self@.key(row as int, col as int));
                if selected && count > 0 {
                    down = true;
                }
                row = row + 1;
            }
            if down {
                result = result & !(1u8 << col);
            }
            col = col + 1;
        }
        result
    }

    /// Records that the host saw the key at (`row`, `col`) go down or up. A
    /// key that went down stays down for [`KEY_HOLD_FRAMES`] frames.
    pub fn set_key(&mut self, row: u8, col: u8, pressed: bool)
        ensures
            final(self)@ == old(self)@.with_key(row, col, pressed),
    {
        if row < 8 && col < 8 {
            if pressed {
                self.keyboard_matrix[(row as usize) * 8 + (col as usize)] = KEY_HOLD_FRAMES;
            } else {
                self.keyboard_matrix[(row as usize) * 8 + (col as usize)] = 0;
            }
        }
    }

    /// Lets one frame pass: every key that is down has one frame less to
    /// stay down.
    pub fn decay_keyboard(&mut self)
        ensures
            final(self)@ == old(self)@.frame_passed(),
    {
        let mut i: usize = 0;
        while i < 64
            invariant
                i <= 64,
                self@ == (CiaState { keys: self@.keys, ..old(self)@ }),
                forall|j: int| 0 <= j < i ==> self@.keys[j] == decayed(old(self)@.keys[j]),
                forall|j: int| i <= j < 64 ==> self@.keys[j] == old(self)@.keys[j],
            decreases 64 - i,
        {
            if self.keyboard_matrix[i] > 0 {
                self.keyboard_matrix[i] = self.keyboard_matrix[i] - 1;
            }
            i = i + 1;
        }
        assert(self@.keys =~= old(self)@.frame_passed().keys);
    }

    /// The same as [`Cia::decay_keyboard`].
    pub fn clear_keyboard(&mut self)
        ensures
            final(self)@ == old(self)@.frame_passed(),
    {
        self.decay_keyboard();
    }
}

proof fn lemma_icr_bits(x: u8)
    ensures
        (x | 0x81) & 0x81 == 0x81,
        (x | 0x82) & 0x82 == 0x82,
        x & 0x81 == 0x81 ==> (x | 0x82) & 0x81 == 0x81,
        x & 0x82 == 0x82 ==> (x | 0x81) & 0x82 == 0x82,
        (x & 0xFE) & 0x01 == 0,
{
    assert((x | 0x81) & 0x81 == 0x81) by (bit_vector);
    assert((x | 0x82) & 0x82 == 0x82) by (bit_vector);
    assert(x & 0x81 == 0x81 ==> (x | 0x82) & 0x81 == 0x81) by (bit_vector);
    assert(x & 0x82 == 0x82 ==> (x | 0x81) & 0x82 == 0x82) by (bit_vector);
    assert((x & 0xFE) & 0x01 == 0) by (bit_vector);
}

proof fn lemma_timer_a_progress(s: CiaState, ticks: Seq<u8>)
    requires
        s.timer_a == latch(s.ta_lo, s.ta_hi),
        s.timer_a >= 1,
        (s.cra & 0x01) != 0,
        (s.crb & 0x01) == 0 || (s.icr_mask & 0x02) == 0,
        total_cycles(ticks) <= s.timer_a,
    ensures
        ({
            let e = s.ticked_all(ticks);
            let t = total_cycles(ticks);
            &&& e.ta_lo == s.ta_lo && e.ta_hi == s.ta_hi && e.icr_mask == s.icr_mask
            &&& (s.crb & 0x01) == 0 ==> e.crb == s.crb
            &&& t < s.timer_a ==> e.timer_a == s.timer_a - t && e.cra == s.cra && s.irq_count(
                ticks,
            ) == 0
            &&& t == s.timer_a ==> e.timer_a == s.timer_a && e.icr & 0x81 == 0x81 && s.irq_count(
                ticks,
            ) == (if (s.icr_mask & 0x01) != 0 {
                1nat
            } else {
                0nat
            })
        }),
    decreases ticks.len(),
{
    if ticks.len() > 0 {
        let before = ticks.drop_last();
        lemma_total_nonnegative(before);
        lemma_timer_a_progress(s, before);
        let p = s.ticked_all(before);
        lemma_icr_bits(p.icr);
        lemma_icr_bits(p.icr | 0x81);
        lemma_icr_bits(p.cra);
    }
}

/// A running timer A that starts at its latch value `L` is back at `L`
/// after exactly `L` cycles, however they are split into ticks, with its
/// bit and bit 7 set in the interrupt register. If the mask enables timer A,
/// exactly one of the ticks requests an interrupt, else none. Timer B is
/// taken to raise no interrupt meanwhile: it is stopped or masked. `L` is at
/// least 1.
pub proof fn lemma_timer_a_period(s: CiaState, ticks: Seq<u8>)
    requires
        s.timer_a == latch(s.ta_lo, s.ta_hi),
        s.timer_a >= 1,
        (s.cra & 0x01) != 0,
        (s.crb & 0x01) == 0 || (s.icr_mask & 0x02) == 0,
        total_cycles(ticks) == s.timer_a,
    ensures
        s.ticked_all(ticks).timer_a == s.timer_a,
        s.ticked_all(ticks).icr & 0x81 == 0x81,
        s.irq_count(ticks) == (if (s.icr_mask & 0x01) != 0 {
            1nat
        } else {
            0nat
        }),
{
    lemma_timer_a_progress(s, ticks);
}

proof fn lemma_timer_b_progress(s: CiaState, ticks: Seq<u8>)
    requires
        s.timer_b == latch(s.tb_lo, s.tb_hi),
        s.timer_b >= 1,
        (s.crb & 0x01) != 0,
        (s.cra & 0x01) == 0 || (s.icr_mask & 0x01) == 0,
        total_cycles(ticks) <= s.timer_b,
    ensures
        ({
            let e = s.ticked_all(ticks);
            let t = total_cycles(ticks);
            &&& e.tb_lo == s.tb_lo && e.tb_hi == s.tb_hi && e.icr_mask == s.icr_mask
            &&& (s.cra & 0x01) == 0 ==> e.cra == s.cra
            &&& t < s.timer_b ==> e.timer_b == s.timer_b - t && e.crb == s.crb && s.irq_count(
                ticks,
            ) == 0
            &&& t == s.timer_b ==> e.timer_b == s.timer_b && e.icr & 0x82 == 0x82 && s.irq_count(
                ticks,
            ) == (if (s.icr_mask & 0x02) != 0 {
                1nat
            } else {
                0nat
            })
        }),
    decreases ticks.len(),
{
    if ticks.len() > 0 {
        let before = ticks.drop_last();
        lemma_total_nonnegative(before);
        lemma_timer_b_progress(s, before);
        let p = s.ticked_all(before);
        lemma_icr_bits(p.icr);
        lemma_icr_bits(p.icr | 0x81);
        lemma_icr_bits(p.crb);
    }
}

/// The same for timer B, whose bit in the interrupt register and in the
/// mask is bit 1, with timer A stopped or masked.
pub proof fn lemma_timer_b_period(s: CiaState, ticks: Seq<u8>)
    requires
        s.timer_b == latch(s.tb_lo, s.tb_hi),
        s.timer_b >= 1,
        (s.crb & 0x01) != 0,
        (s.cra & 0x01) == 0 || (s.icr_mask & 0x01) == 0,
        total_cycles(ticks) == s.timer_b,
    ensures
        s.ticked_all(ticks).timer_b == s.timer_b,
        s.ticked_all(ticks).icr & 0x82 == 0x82,
        s.irq_count(ticks) == (if (s.icr_mask & 0x02) != 0 {
            1nat
        } else {
            0nat
        }),
{
    lemma_timer_b_progress(s, ticks);
}

proof fn lemma_row_bits(a: u8, b: u8)
    requires
        a < 8,
        b < 8,
    ensures
        ((!(1u8 << a)) & (1u8 << b)) == 0 <==> a == b,
        0xFFu8 & !(1u8 << a) == !(1u8 << a),
{
    assert(a < 8 && b < 8 ==> (((!(1u8 << a)) & (1u8 << b)) == 0 <==> a == b)) by (bit_vector);
    assert(0xFFu8 & !(1u8 << a) == !(1u8 << a)) by (bit_vector);
}

/// With port A selecting row `row` alone and the key at (`row`, `col`) the
/// only key down, a read of port B returns all ones but for bit `col`.
pub proof fn lemma_single_key(s: CiaState, row: u8, col: u8)
    requires
        row < 8,
        col < 8,
        s.pra == !(1u8 << row),
        forall|r: int, c: int|
            0 <= r < 8 && 0 <= c < 8 ==> (#[trigger] s.key(r, c) > 0 <==> r == row && c == col),
    ensures
        s.columns() == !(1u8 << col),
{
    assert forall|r: int| 0 <= r < 8 implies (s.row_selected(r) <==> r == row) by {
        lemma_row_bits(row, r as u8);
    }
    assert forall|c: int| 0 <= c < 8 implies (s.column_down(c) <==> c == col) by {
        if c == col {
            assert(s.row_selected(row as int) && s.key(row as int, c) > 0);
        }
    }
    lemma_row_bits(col, col);
    lemma_single_column(s, col, 8);
}

proof fn lemma_single_column(s: CiaState, col: u8, n: int)
    requires
        col < 8,
        0 <= n <= 8,
        forall|c: int| 0 <= c < 8 ==> (s.column_down(c) <==> c == col),
    ensures
        s.columns_below(n) == (if n > col {
            0xFFu8 & !(1u8 << col)
        } else {
            0xFFu8
        }),
    decreases n,
{
    if n > 0 {
        lemma_single_column(s, col, n - 1);
    }
}

} // verus!
