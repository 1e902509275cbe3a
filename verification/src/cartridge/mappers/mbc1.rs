//! MBC1: up to 2 MiB of ROM and 32 KiB of RAM.

use vstd::prelude::*;
use crate::cartridge::mappers::{
    opens_ram,
    ram_window_offset,
    rom_window_offset,
    CartridgeReadTarget,
    Mapper,
};

verus! {

/// The registers of an MBC1.
#[derive(Clone, Copy, Debug, PartialEq, Eq, Structural)]
pub struct Mbc1 {
    pub ram_enable: bool,
    /// The five-bit primary bank register.
    pub rom_bank: u8,
    /// The two-bit secondary register.
    pub secondary: u8,
    /// The mode flag: clear, the secondary register gives the upper two bits of the
    /// ROM bank; set, it selects the RAM bank.
    pub ram_mode: bool,
}

impl Mbc1 {
    /// After power-up: RAM closed, bank 1 selected.
    pub open spec fn initial() -> Mbc1 {
        Mbc1 { ram_enable: false, rom_bank: 1, secondary: 0, ram_mode: false }
    }

    /// The bank seen at 0x4000 to 0x7FFF: the two registers joined, and bank 1 where
    /// they give 0.
    pub open spec fn selected_rom_bank(&self) -> int {
        let joined = (if self.ram_mode {
            0
        } else {
            (self.secondary % 4) * 32
        }) + self.rom_bank % 32;
        if joined == 0 {
            1
        } else {
            joined
        }
    }

    /// The RAM bank seen at 0xA000 to 0xBFFF.
    pub open spec fn selected_ram_bank(&self) -> int {
        if self.ram_mode {
            self.secondary as int % 4
        } else {
            0
        }
    }

    /// The controller after power-up.
    pub fn new() -> (r: Mbc1)
        ensures
            r == Mbc1::initial(),
    {
        Mbc1 { ram_enable: false, rom_bank: 1, secondary: 0, ram_mode: false }
    }

    fn ram_offset(&self, addr: u16) -> (r: usize)
        requires
            0xA000 <= addr <= 0xBFFF,
        ensures
            r == self.selected_ram_bank() * 0x2000 + ram_window_offset(addr),
    {
        let bank: usize = if self.ram_mode {
            (self.secondary % 4) as usize
        } else {
            0
        };
        bank * 0x2000 + (addr - 0xA000) as usize
    }
}

impl Mapper for Mbc1 {
    open spec fn read_target(&self, addr: u16) -> CartridgeReadTarget {
        if addr <= 0x3FFF {
            CartridgeReadTarget::Rom(addr as usize)
        } else if addr <= 0x7FFF {
            CartridgeReadTarget::Rom(
                (self.selected_rom_bank() * 0x4000 + rom_window_offset(addr)) as usize,
            )
        } else if 0xA000 <= addr <= 0xBFFF && self.ram_enable {
            CartridgeReadTarget::Ram(
                (self.selected_ram_bank() * 0x2000 + ram_window_offset(addr)) as usize,
            )
        } else {
            CartridgeReadTarget::OpenBus(0xFF)
        }
    }

    open spec fn after_write(&self, addr: u16, data: u8) -> Self {
        if addr <= 0x1FFF {
            Mbc1 { ram_enable: opens_ram(data), ..*self }
        } else if addr <= 0x3FFF {
            Mbc1 { rom_bank: data % 32, ..*self }
        } else if addr <= 0x5FFF {
            Mbc1 { secondary: data % 4, ..*self }
        } else if addr <= 0x7FFF {
            Mbc1 { ram_mode: data % 2 == 1, ..*self }
        } else {
            *self
        }
    }

    open spec fn write_target(&self, addr: u16, data: u8) -> Option<usize> {
        if 0xA000 <= addr <= 0xBFFF && self.ram_enable {
            Some((self.selected_ram_bank() * 0x2000 + ram_window_offset(addr)) as usize)
        } else {
            None
        }
    }

    fn map_read(&self, addr: u16) -> (r: CartridgeReadTarget) {
        match addr {
            0x0000..=0x3FFF => CartridgeReadTarget::Rom(addr as usize),
            0x4000..=0x7FFF => {
                let upper: usize = if self.ram_mode {
                    0
                } else {
                    (self.secondary % 4) as usize * 32
                };
                let joined: usize = upper + (self.rom_bank % 32) as usize;
                let bank: usize = if joined == 0 {
                    1
                } else {
                    joined
                };
                CartridgeReadTarget::Rom(bank * 0x4000 + (addr - 0x4000) as usize)
            },
            0xA000..=0xBFFF => {
                if self.ram_enable {
                    CartridgeReadTarget::Ram(self.ram_offset(addr))
                } else {
                    CartridgeReadTarget::OpenBus(0xFF)
                }
            },
            _ => CartridgeReadTarget::OpenBus(0xFF),
        }
    }

    fn map_write(&mut self, addr: u16, data: u8) -> (r: Option<usize>) {
        match addr {
            0x0000..=0x1FFF => {
                self.ram_enable = data % 16 == 0x0A;
                None
            },
            0x2000..=0x3FFF => {
                self.rom_bank = data % 32;
                None
            },
            0x4000..=0x5FFF => {
                self.secondary = data % 4;
                None
            },
            0x6000..=0x7FFF => {
                self.ram_mode = data % 2 == 1;
                None
            },
            0xA000..=0xBFFF => {
                if self.ram_enable {
                    Some(self.ram_offset(addr))
                } else {
                    None
                }
            },
            _ => None,
        }
    }
}

} // verus!
