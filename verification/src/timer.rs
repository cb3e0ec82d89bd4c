//! The divider and the programmable timer (0xFF04 - 0xFF07).
//!
//! DIV counts up once every 256 machine cycles and reads as the upper byte
//! of a 16-bit counter. When bit 2 of TAC is set, TIMA counts up at the rate
//! chosen by the low two bits of TAC; when it overflows it is reloaded from
//! TMA and the timer interrupt is requested.
use vstd::prelude::*;
use crate::bits;

verus! {

/// Interrupt flag bit of the timer interrupt.
pub const INTERRUPT_TIMER: u8 = 0b00000100;

pub struct TIMER {
    div: u16,
    tima: u8,
    tma: u8,
    tac: u8,
    div_counter: u16,
    tima_counter: u16,
}

/// The state of the timer.
#[verifier::ext_equal]
pub struct TimerState {
    pub div: u16,
    pub tima: u8,
    pub tma: u8,
    pub tac: u8,
    /// Cycles counted toward the next step of DIV.
    pub div_counter: u16,
    /// Cycles counted toward the next step of TIMA.
    pub tima_counter: u16,
}

/// Whether `address` is one of the four timer registers.
pub open spec fn is_timer_address(address: u16) -> bool {
    0xFF04 <= address <= 0xFF07
}

/// The number of cycles per TIMA step for the clock that TAC selects.
pub open spec fn clock_period(tac: u8) -> u16 {
    let select = tac & 0b11;
    if select == 0 {
        1024
    } else if select == 1 {
        16
    } else if select == 2 {
        64
    } else {
        256
    }
}

impl TimerState {
    /// What a read of a timer register gives.
    pub open spec fn register(self, address: u16) -> u8 {
        if address == 0xFF04 {
            bits::high_byte(self.div)
        } else if address == 0xFF05 {
            self.tima
        } else if address == 0xFF06 {
            self.tma
        } else {
            self.tac
        }
    }

    /// The timer after the program writes `value` to a timer register; a
    /// write to DIV clears it whatever the value.
    pub open spec fn written(self, address: u16, value: u8) -> TimerState {
        if address == 0xFF04 {
            TimerState { div: 0, ..self }
        } else if address == 0xFF05 {
            TimerState { tima: value, ..self }
        } else if address == 0xFF06 {
            TimerState { tma: value, ..self }
        } else {
            TimerState { tac: value, ..self }
        }
    }

    /// Whether TIMA is counting.
    pub open spec fn enabled(self) -> bool {
        self.tac & 0b100 != 0
    }

    /// Whether counting `cycles` more cycles stays within the counters.
    pub open spec fn can_count(self, cycles: u16) -> bool {
        &&& self.div_counter + cycles <= u16::MAX
        &&& self.enabled() ==> self.tima_counter + cycles <= u16::MAX
    }

    /// The timer after DIV has counted `cycles` more cycles.
    pub open spec fn divider_after(self, cycles: u16) -> TimerState {
        let counted = self.div_counter + cycles;
        if counted >= 256 {
            TimerState {
                div: ((self.div + 1) % 65536) as u16,
                div_counter: (counted - 256) as u16,
                ..self
            }
        } else {
            TimerState { div_counter: counted as u16, ..self }
        }
    }

    /// The timer after `cycles` more cycles.
    pub open spec fn after(self, cycles: u16) -> TimerState {
        let s = self.divider_after(cycles);
        if !s.enabled() {
            s
        } else {
            let counted = s.tima_counter + cycles;
            let period = clock_period(s.tac);
            if counted >= period {
                let tima = ((s.tima + 1) % 256) as u8;
                TimerState {
                    tima_counter: (counted - period) as u16,
                    tima: if tima == 0 {
                        s.tma
                    } else {
                        tima
                    },
                    ..s
                }
            } else {
                TimerState { tima_counter: counted as u16, ..s }
            }
        }
    }

    /// Whether TIMA overflows within the next `cycles` cycles, which
    /// requests the timer interrupt.
    pub open spec fn overflows(self, cycles: u16) -> bool {
        &&& self.enabled()
        &&& self.tima_counter + cycles >= clock_period(self.tac)
        &&& self.tima == 0xFF
    }
}

/// The rate that TAC selects: with the timer on (TAC bit 2) and nothing yet
/// counted towards the next step, TIMA steps once after 1024, 16, 64 or 256
/// cycles for clock select 0b00, 0b01, 0b10 or 0b11 (TAC bits 1 - 0), and
/// not one cycle sooner. A step from 0xFF reloads TMA and requests the
/// timer interrupt.
pub proof fn law_clock_select(t: TimerState)
    requires
        t.tac & 0b100 != 0,
        t.tima_counter == 0,
    ensures
        ({
            let period: u16 = if t.tac & 0b11 == 0 {
                1024
            } else if t.tac & 0b11 == 1 {
                16
            } else if t.tac & 0b11 == 2 {
                64
            } else {
                256
            };
            &&& t.after((period - 1) as u16).tima == t.tima
            &&& !t.overflows((period - 1) as u16)
            &&& t.after(period).tima == if t.tima == 0xFF {
                t.tma
            } else {
                (t.tima + 1) as u8
            }
            &&& t.overflows(period) == (t.tima == 0xFF)
            &&& t.after(period).tima_counter == 0
        }),
{
}

/// A write to DIV clears it whatever the value; writes to TIMA, TMA and
/// TAC are read back.
pub proof fn law_registers_read_back(t: TimerState, address: u16, value: u8)
    requires
        is_timer_address(address),
    ensures
        address == 0xFF04 ==> t.written(address, value).register(address) == 0,
        address != 0xFF04 ==> t.written(address, value).register(address) == value,
{
}

/// When TIMA overflows it starts again from TMA; while the timer is off,
/// TIMA stands still.
pub proof fn law_overflow_reloads(t: TimerState, cycles: u16)
    ensures
        t.overflows(cycles) ==> t.after(cycles).tima == t.tma,
        !t.enabled() ==> t.after(cycles).tima == t.tima,
{
}

impl View for TIMER {
    type V = TimerState;

    closed spec fn view(&self) -> TimerState {
        TimerState {
            div: self.div,
            tima: self.tima,
            tma: self.tma,
            tac: self.tac,
            div_counter: self.div_counter,
            tima_counter: self.tima_counter,
        }
    }
}

impl TIMER {
    pub fn new() -> (timer: Self)
        ensures
            timer@ == (TimerState {
                div: 0,
                tima: 0,
                tma: 0,
                tac: 0,
                div_counter: 0,
                tima_counter: 0,
            }),
    {
        TIMER { div: 0, tima: 0, tma: 0, tac: 0, div_counter: 0, tima_counter: 0 }
    }

    /// Counts `cycles` more cycles toward DIV.
    pub fn add_cycles(&mut self, cycles: u16)
        requires
            old(self)@.div_counter + cycles <= u16::MAX,
        ensures
            final(self)@ == old(self)@.divider_after(cycles),
    {
        self.div_counter += cycles;
        if self.div_counter >= 256 {
            self.div = self.div.wrapping_add(1);
            self.div_counter -= 256;
        }
    }

    pub fn read_byte(&self, address: u16) -> (r: u8)
        requires
            is_timer_address(address),
        ensures
            r == self@.register(address),
    {
        proof {
            bits::lemma_split(self.div);
        }
        match address {
            0xFF04 => (self.div >> 8) as u8,
            0xFF05 => self.tima,
            0xFF06 => self.tma,
            _ => self.tac,
        }
    }

    pub fn write_byte(&mut self, address: u16, value: u8)
        requires
            is_timer_address(address),
        ensures
            final(self)@ == old(self)@.written(address, value),
    {
        match address {
            0xFF04 => self.div = 0,
            0xFF05 => self.tima = value,
            0xFF06 => self.tma = value,
            _ => self.tac = value,
        }
    }

    /// Whether counting `cycles` more cycles stays within the counters.
    pub fn can_count(&self, cycles: u16) -> (ok: bool)
        ensures
            ok == self@.can_count(cycles),
    {
        self.div_counter as u32 + cycles as u32 <= 0xFFFF && (self.tac & 0b100 == 0
            || self.tima_counter as u32 + cycles as u32 <= 0xFFFF)
    }

    /// Counts `cycles` more cycles and tells whether the timer interrupt is
    /// to be requested.
    pub fn tick(&mut self, cycles: u16) -> (request: bool)
        requires
            old(self)@.can_count(cycles),
        ensures
            final(self)@ == old(self)@.after(cycles),
            request == old(self)@.overflows(cycles),
    {
        self.add_cycles(cycles);
        let mut request = false;
        if self.tac & 0b100 != 0 {
            let clock_select: u16 = match self.tac & 0b11 {
                0b00 => 1024,
                0b01 => 16,
                0b10 => 64,
                _ => 256,
            };
            self.tima_counter += cycles;
            if self.tima_counter >= clock_select {
                self.tima_counter -= clock_select;
                self.tima = self.tima.wrapping_add(1);
                if self.tima == 0 {
                    self.tima = self.tma;
                    request = true;
                }
            }
        }
        request
    }
}

} // verus!
