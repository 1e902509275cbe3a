//! The divider and the timer: registers DIV, TIMA, TMA and TAC.

use vstd::prelude::*;

verus! {

/// The registers of the timer.
#[derive(Clone, Copy, Debug, PartialEq, Eq, Structural)]
pub struct Timer {
    /// The 16-bit counter that runs with the master clock. DIV is its upper byte.
    pub counter: u16,
    pub tima: u8,
    pub tma: u8,
    /// TAC: bits 0 and 1 select the rate of TIMA, bit 2 switches it on.
    pub tac: u8,
}

/// The number of master clock ticks between two steps of TIMA.
pub open spec fn timer_period(tac: u8) -> int {
    if tac % 4 == 0 {
        1024
    } else if tac % 4 == 1 {
        16
    } else if tac % 4 == 2 {
        64
    } else {
        256
    }
}

/// Whether TAC has TIMA switched on.
pub open spec fn timer_enabled(tac: u8) -> bool {
    (tac / 4) % 2 == 1
}

impl Timer {
    /// After power-up: everything zero, TIMA switched off.
    pub open spec fn initial() -> Timer {
        Timer { counter: 0, tima: 0, tma: 0, tac: 0 }
    }

    /// Whether TIMA steps in the machine cycle that starts at this state: it is
    /// switched on and the counter reaches a multiple of its period.
    pub open spec fn steps(self) -> bool {
        timer_enabled(self.tac) && ((self.counter + 4) % 0x10000) % timer_period(self.tac) == 0
    }

    /// Whether the machine cycle that starts at this state raises the TIMER
    /// interrupt: TIMA steps past 0xFF.
    pub open spec fn overflows(self) -> bool {
        self.steps() && self.tima == 0xFF
    }

    /// The timer one machine cycle, four ticks of the master clock, later. TIMA that
    /// steps past 0xFF starts again from TMA.
    pub open spec fn tick_spec(self) -> Timer {
        Timer {
            counter: ((self.counter + 4) % 0x10000) as u16,
            tima: if !self.steps() {
                self.tima
            } else if self.tima == 0xFF {
                self.tma
            } else {
                (self.tima + 1) as u8
            },
            ..self
        }
    }

    /// What a read of 0xFF04 to 0xFF07 gives. The unused bits of TAC read as one.
    pub open spec fn read_spec(self, addr: u16) -> u8 {
        if addr == 0xFF04 {
            (self.counter / 256) as u8
        } else if addr == 0xFF05 {
            self.tima
        } else if addr == 0xFF06 {
            self.tma
        } else if addr == 0xFF07 {
            (self.tac % 8 + 0xF8) as u8
        } else {
            0xFF
        }
    }

    /// The timer after a write to 0xFF04 to 0xFF07. Any write to DIV clears the counter.
    pub open spec fn write_spec(self, addr: u16, data: u8) -> Timer {
        if addr == 0xFF04 {
            Timer { counter: 0, ..self }
        } else if addr == 0xFF05 {
            Timer { tima: data, ..self }
        } else if addr == 0xFF06 {
            Timer { tma: data, ..self }
        } else if addr == 0xFF07 {
            Timer { tac: data % 8, ..self }
        } else {
            self
        }
    }

    /// The timer after power-up.
    pub fn new() -> (r: Timer)
        ensures
            r == Timer::initial(),
    {
        Timer { counter: 0, tima: 0, tma: 0, tac: 0 }
    }

    /// Advances the timer by one machine cycle. Returns whether the TIMER interrupt
    /// is raised.
    pub fn tick(&mut self) -> (irq: bool)
        ensures
            *final(self) == old(self).tick_spec(),
            irq == old(self).overflows(),
    {
        self.counter = self.counter.wrapping_add(4);
        let period: u16 = match self.tac % 4 {
            0 => 1024,
            1 => 16,
            2 => 64,
            _ => 256,
        };
        if (self.tac / 4) % 2 == 1 && self.counter % period == 0 {
            if self.tima == 0xFF {
                self.tima = self.tma;
                true
            } else {
                self.tima = self.tima + 1;
                false
            }
        } else {
            false
        }
    }

    /// Reads one of the registers 0xFF04 to 0xFF07.
    pub fn read(&self, addr: u16) -> (r: u8)
        ensures
            r == self.read_spec(addr),
    {
        match addr {
            0xFF04 => (self.counter / 256) as u8,
            0xFF05 => self.tima,
            0xFF06 => self.tma,
            0xFF07 => self.tac % 8 + 0xF8,
            _ => 0xFF,
        }
    }

    /// Writes one of the registers 0xFF04 to 0xFF07.
    pub fn write(&mut self, addr: u16, data: u8)
        ensures
            *final(self) == old(self).write_spec(addr, data),
    {
        match addr {
            0xFF04 => self.counter = 0,
            0xFF05 => self.tima = data,
            0xFF06 => self.tma = data,
            0xFF07 => self.tac = data % 8,
            _ => {},
        }
    }
}

impl Default for Timer {
    fn default() -> (r: Self)
        ensures
            r == Timer::initial(),
    {
        Timer::new()
    }
}

} // verus!
