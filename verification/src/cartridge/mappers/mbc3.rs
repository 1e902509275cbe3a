//! MBC3: up to 2 MiB of ROM, 32 KiB of RAM and a real-time clock.

use vstd::prelude::*;
use crate::cartridge::mappers::{
    opens_ram,
    ram_window_offset,
    rom_window_offset,
    CartridgeReadTarget,
    Mapper,
};

verus! {

/// The five registers of the clock: seconds, minutes, hours, and a nine-bit day
/// counter whose ninth bit shares `days_high` with the halt flag (bit 6) and the day
/// counter's carry (bit 7).
#[derive(Clone, Copy, Debug, PartialEq, Eq, Structural)]
pub struct RtcRegisters {
    pub seconds: u8,
    pub minutes: u8,
    pub hours: u8,
    pub days_low: u8,
    pub days_high: u8,
}

impl RtcRegisters {
    /// The clock at zero.
    pub open spec fn zero() -> RtcRegisters {
        RtcRegisters { seconds: 0, minutes: 0, hours: 0, days_low: 0, days_high: 0 }
    }

    /// Whether the clock stands still.
    pub open spec fn halted(self) -> bool {
        (self.days_high / 64) % 2 == 1
    }

    /// The day counter.
    pub open spec fn days(self) -> int {
        (self.days_high % 2) * 256 + self.days_low
    }

    /// The register that the select value `select` (0x08 to 0x0C) names.
    pub open spec fn register(self, select: u8) -> u8 {
        if select == 0x08 {
            self.seconds
        } else if select == 0x09 {
            self.minutes
        } else if select == 0x0A {
            self.hours
        } else if select == 0x0B {
            self.days_low
        } else {
            self.days_high
        }
    }

    /// The registers after a write to the one that `select` names. Each register
    /// keeps only the bits it has.
    pub open spec fn with_register(self, select: u8, data: u8) -> RtcRegisters {
        if select == 0x08 {
            RtcRegisters { seconds: data % 64, ..self }
        } else if select == 0x09 {
            RtcRegisters { minutes: data % 64, ..self }
        } else if select == 0x0A {
            RtcRegisters { hours: data % 32, ..self }
        } else if select == 0x0B {
            RtcRegisters { days_low: data, ..self }
        } else {
            RtcRegisters { days_high: (data - data % 64 + data % 2) as u8, ..self }
        }
    }

    /// The registers one second later. A halted clock stands still. When the day
    /// counter passes 511 it starts again at 0 and the carry bit is set.
    pub open spec fn tick_spec(self) -> RtcRegisters {
        if self.halted() {
            self
        } else if self.seconds != 59 {
            RtcRegisters { seconds: ((self.seconds + 1) % 64) as u8, ..self }
        } else if self.minutes != 59 {
            RtcRegisters { seconds: 0, minutes: ((self.minutes + 1) % 64) as u8, ..self }
        } else if self.hours != 23 {
            RtcRegisters { seconds: 0, minutes: 0, hours: ((self.hours + 1) % 32) as u8, ..self }
        } else if self.days_low != 255 {
            RtcRegisters {
                seconds: 0,
                minutes: 0,
                hours: 0,
                days_low: (self.days_low + 1) as u8,
                ..self
            }
        } else if self.days_high % 2 == 0 {
            RtcRegisters {
                seconds: 0,
                minutes: 0,
                hours: 0,
                days_low: 0,
                days_high: (self.days_high + 1) as u8,
            }
        } else {
            RtcRegisters {
                seconds: 0,
                minutes: 0,
                hours: 0,
                days_low: 0,
                days_high: (self.days_high - 1 + (if self.days_high < 128 {
                    128int
                } else {
                    0
                })) as u8,
            }
        }
    }

    /// The time the registers show, in seconds.
    pub open spec fn total_seconds(self) -> int {
        self.seconds + 60 * self.minutes + 3600 * self.hours + 86400 * self.days()
    }

    /// Whether the registers show a time of day.
    pub open spec fn in_range(self) -> bool {
        self.seconds < 60 && self.minutes < 60 && self.hours < 24
    }

    /// The clock at zero.
    pub fn new() -> (r: RtcRegisters)
        ensures
            r == RtcRegisters::zero(),
    {
        RtcRegisters { seconds: 0, minutes: 0, hours: 0, days_low: 0, days_high: 0 }
    }

    /// Reads the register that `select` names.
    pub fn get(&self, select: u8) -> (r: u8)
        ensures
            r == self.register(select),
    {
        match select {
            0x08 => self.seconds,
            0x09 => self.minutes,
            0x0A => self.hours,
            0x0B => self.days_low,
            _ => self.days_high,
        }
    }

    /// Writes the register that `select` names.
    pub fn set(&mut self, select: u8, data: u8)
        ensures
            *final(self) == old(self).with_register(select, data),
    {
        match select {
            0x08 => self.seconds = data % 64,
            0x09 => self.minutes = data % 64,
            0x0A => self.hours = data % 32,
            0x0B => self.days_low = data,
            _ => self.days_high = data - data % 64 + data % 2,
        }
    }

    /// Moves the clock on by one second.
    pub fn tick(&mut self)
        ensures
            *final(self) == old(self).tick_spec(),
    {
        if (self.days_high / 64) % 2 == 1 {
            return ;
        }
        if self.seconds != 59 {
            self.seconds = (self.seconds % 64 + 1) % 64;
            return ;
        }
        self.seconds = 0;
        if self.minutes != 59 {
            self.minutes = (self.minutes % 64 + 1) % 64;
            return ;
        }
        self.minutes = 0;
        if self.hours != 23 {
            self.hours = (self.hours % 32 + 1) % 32;
            return ;
        }
        self.hours = 0;
        if self.days_low != 255 {
            self.days_low = self.days_low + 1;
            return ;
        }
        self.days_low = 0;
        if self.days_high % 2 == 0 {
            self.days_high = self.days_high + 1;
        } else if self.days_high < 128 {
            self.days_high = self.days_high - 1 + 128;
        } else {
            self.days_high = self.days_high - 1;
        }
    }
}

/// A running clock that shows a time of day shows the next second after a tick,
/// starting again from zero after 512 days.
pub proof fn lemma_tick_adds_one_second(rtc: RtcRegisters)
    requires
        rtc.in_range(),
        !rtc.halted(),
    ensures
        rtc.tick_spec().in_range(),
        rtc.tick_spec().total_seconds() == (rtc.total_seconds() + 1) % 44236800int,
        !rtc.tick_spec().halted(),
{
    let next = rtc.tick_spec();
    if rtc.seconds == 59 && rtc.minutes == 59 && rtc.hours == 23 && rtc.days_low == 255 {
        if rtc.days_high % 2 == 1 {
            assert(rtc.total_seconds() + 1 == 44236800int);
            assert(next.total_seconds() == 0);
        } else {
            assert(next.days() == 256);
        }
    } else {
        assert(next.total_seconds() == rtc.total_seconds() + 1);
        assert(rtc.days() <= 511);
        assert(next.total_seconds() < 44236800int);
    }
}

/// The registers of an MBC3 and its clock.
#[derive(Clone, Copy, Debug, PartialEq, Eq, Structural)]
pub struct Mbc3 {
    pub ram_enable: bool,
    /// The seven-bit ROM bank register.
    pub rom_bank: u8,
    /// What the RAM window shows: 0 to 3 a RAM bank, 0x08 to 0x0C a clock register.
    pub select: u8,
    /// The running clock.
    pub rtc: RtcRegisters,
    /// The clock as it was when it was last latched: what the program reads.
    pub latched: RtcRegisters,
    /// Whether the last byte written to the latch register was 0x00.
    pub latch_armed: bool,
}

impl Mbc3 {
    /// After power-up: RAM closed, bank 1 selected, the clock at zero.
    pub open spec fn initial() -> Mbc3 {
        Mbc3 {
            ram_enable: false,
            rom_bank: 1,
            select: 0,
            rtc: RtcRegisters::zero(),
            latched: RtcRegisters::zero(),
            latch_armed: false,
        }
    }

    /// The bank seen at 0x4000 to 0x7FFF: bank 1 where the register holds 0.
    pub open spec fn selected_rom_bank(&self) -> int {
        if self.rom_bank % 128 == 0 {
            1
        } else {
            self.rom_bank as int % 128
        }
    }

    /// Whether the RAM window shows a RAM bank.
    pub open spec fn selects_ram(&self) -> bool {
        self.select <= 3
    }

    /// Whether the RAM window shows a register of the clock.
    pub open spec fn selects_clock(&self) -> bool {
        0x08 <= self.select <= 0x0C
    }

    /// The controller one second later.
    pub open spec fn tick_spec(self) -> Mbc3 {
        Mbc3 { rtc: self.rtc.tick_spec(), ..self }
    }

    /// The controller after power-up.
    pub fn new() -> (r: Mbc3)
        ensures
            r == Mbc3::initial(),
    {
        Mbc3 {
            ram_enable: false,
            rom_bank: 1,
            select: 0,
            rtc: RtcRegisters::new(),
            latched: RtcRegisters::new(),
            latch_armed: false,
        }
    }

    /// Moves the running clock on by one second.
    pub fn tick(&mut self)
        ensures
            *final(self) == old(self).tick_spec(),
    {
        self.rtc.tick();
    }
}

impl Mapper for Mbc3 {
    /// With the RAM gate open the RAM window shows the selected RAM bank or the
    /// selected register of the latched clock.
    open spec fn read_target(&self, addr: u16) -> CartridgeReadTarget {
        if addr <= 0x3FFF {
            CartridgeReadTarget::Rom(addr as usize)
        } else if addr <= 0x7FFF {
            CartridgeReadTarget::Rom(
                (self.selected_rom_bank() * 0x4000 + rom_window_offset(addr)) as usize,
            )
        } else if 0xA000 <= addr <= 0xBFFF && self.ram_enable && self.selects_ram() {
            CartridgeReadTarget::Ram((self.select * 0x2000 + ram_window_offset(addr)) as usize)
        } else if 0xA000 <= addr <= 0xBFFF && self.ram_enable && self.selects_clock() {
            CartridgeReadTarget::OpenBus(self.latched.register(self.select))
        } else {
            CartridgeReadTarget::OpenBus(0xFF)
        }
    }

    /// A write of 0x00 and next of 0x01 to 0x6000 to 0x7FFF copies the running clock
    /// to the latched one. A write to the RAM window with a clock register selected
    /// sets that register of the running clock.
    open spec fn after_write(&self, addr: u16, data: u8) -> Self {
        if addr <= 0x1FFF {
            Mbc3 { ram_enable: opens_ram(data), ..*self }
        } else if addr <= 0x3FFF {
            Mbc3 { rom_bank: data % 128, ..*self }
        } else if addr <= 0x5FFF {
            Mbc3 { select: data % 16, ..*self }
        } else if addr <= 0x7FFF {
            Mbc3 {
                latched: if self.latch_armed && data == 1 {
                    self.rtc
                } else {
                    self.latched
                },
                latch_armed: data == 0,
                ..*self
            }
        } else if 0xA000 <= addr <= 0xBFFF && self.ram_enable && self.selects_clock() {
            Mbc3 { rtc: self.rtc.with_register(self.select, data), ..*self }
        } else {
            *self
        }
    }

    open spec fn write_target(&self, addr: u16, data: u8) -> Option<usize> {
        if 0xA000 <= addr <= 0xBFFF && self.ram_enable && self.selects_ram() {
            Some((self.select * 0x2000 + ram_window_offset(addr)) as usize)
        } else {
            None
        }
    }

    fn map_read(&self, addr: u16) -> (r: CartridgeReadTarget) {
        match addr {
            0x0000..=0x3FFF => CartridgeReadTarget::Rom(addr as usize),
            0x4000..=0x7FFF => {
                let low: u8 = self.rom_bank % 128;
                let bank: usize = if low == 0 {
                    1
                } else {
                    low as usize
                };
                CartridgeReadTarget::Rom(bank * 0x4000 + (addr - 0x4000) as usize)
            },
            0xA000..=0xBFFF => {
                if !self.ram_enable {
                    CartridgeReadTarget::OpenBus(0xFF)
                } else if self.select <= 3 {
                    CartridgeReadTarget::Ram(
                        self.select as usize * 0x2000 + (addr - 0xA000) as usize,
                    )
                } else if 0x08 <= self.select && self.select <= 0x0C {
                    CartridgeReadTarget::OpenBus(self.latched.get(self.select))
                } else {
                    CartridgeReadTarget::OpenBus(0xFF)
                }
            },
            _ => CartridgeReadTarget::OpenBus(0xFF),
        }
    }

    fn map_write(&mut self, addr: u16, data: u8) -> (r: Option<usize>) {
        match addr {
            0x0000..=0x1FFF => {
                self.ram_enable = data % 16 == 0x0A;
                None
            },
            0x2000..=0x3FFF => {
                self.rom_bank = data % 128;
                None
            },
            0x4000..=0x5FFF => {
                self.select = data % 16;
                None
            },
            0x6000..=0x7FFF => {
                if self.latch_armed && data == 1 {
                    self.latched = self.rtc;
                }
                self.latch_armed = data == 0;
                None
            },
            0xA000..=0xBFFF => {
                if !self.ram_enable {
                    None
                } else if self.select <= 3 {
                    Some(self.select as usize * 0x2000 + (addr - 0xA000) as usize)
                } else if 0x08 <= self.select && self.select <= 0x0C {
                    self.rtc.set(self.select, data);
                    None
                } else {
                    None
                }
            },
            _ => None,
        }
    }
}

} // verus!
