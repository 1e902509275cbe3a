//! MBC5: up to 8 MiB of ROM and 128 KiB of RAM.

use vstd::prelude::*;
use crate::cartridge::mappers::{
    opens_ram,
    ram_window_offset,
    rom_window_offset,
    CartridgeReadTarget,
    Mapper,
};

verus! {

/// The registers of an MBC5.
#[derive(Clone, Copy, Debug, PartialEq, Eq, Structural)]
pub struct Mbc5 {
    pub ram_enable: bool,
    /// The nine-bit ROM bank number. Bank 0 can be selected.
    pub rom_bank_number: u16,
    /// The four-bit RAM bank number.
    pub ram_bank_number: u8,
}

impl Mbc5 {
    /// After power-up: RAM closed, ROM bank 1 and RAM bank 0 selected.
    pub open spec fn initial() -> Mbc5 {
        Mbc5 { ram_enable: false, rom_bank_number: 1, ram_bank_number: 0 }
    }

    /// The controller after power-up.
    pub fn new() -> (r: Mbc5)
        ensures
            r == Mbc5::initial(),
    {
        Mbc5 { ram_enable: false, rom_bank_number: 1, ram_bank_number: 0 }
    }
}

impl Default for Mbc5 {
    fn default() -> (r: Mbc5)
        ensures
            r == Mbc5::initial(),
    {
        Mbc5::new()
    }
}

impl Mapper for Mbc5 {
    open spec fn read_target(&self, addr: u16) -> CartridgeReadTarget {
        if addr <= 0x3FFF {
            CartridgeReadTarget::Rom(addr as usize)
        } else if addr <= 0x7FFF {
            CartridgeReadTarget::Rom(
                ((self.rom_bank_number % 512) * 0x4000 + rom_window_offset(addr)) as usize,
            )
        } else if 0xA000 <= addr <= 0xBFFF && self.ram_enable {
            CartridgeReadTarget::Ram(
                ((self.ram_bank_number % 16) * 0x2000 + ram_window_offset(addr)) as usize,
            )
        } else {
            CartridgeReadTarget::OpenBus(0xFF)
        }
    }

    /// Writes to 0x2000 to 0x2FFF set the low eight bits of the ROM bank, writes to
    /// 0x3000 to 0x3FFF its ninth bit.
    open spec fn after_write(&self, addr: u16, data: u8) -> Self {
        if addr <= 0x1FFF {
            Mbc5 { ram_enable: opens_ram(data), ..*self }
        } else if addr <= 0x2FFF {
            Mbc5 {
                rom_bank_number: (((self.rom_bank_number / 256) % 2) * 256 + data) as u16,
                ..*self
            }
        } else if addr <= 0x3FFF {
            Mbc5 {
                rom_bank_number: ((data % 2) * 256 + self.rom_bank_number % 256) as u16,
                ..*self
            }
        } else if addr <= 0x5FFF {
            Mbc5 { ram_bank_number: data % 16, ..*self }
        } else {
            *self
        }
    }

    open spec fn write_target(&self, addr: u16, data: u8) -> Option<usize> {
        if 0xA000 <= addr <= 0xBFFF && self.ram_enable {
            Some(((self.ram_bank_number % 16) * 0x2000 + ram_window_offset(addr)) as usize)
        } else {
            None
        }
    }

    fn map_read(&self, addr: u16) -> (r: CartridgeReadTarget) {
        match addr {
            0x0000..=0x3FFF => CartridgeReadTarget::Rom(addr as usize),
            0x4000..=0x7FFF => {
                let bank: usize = (self.rom_bank_number % 512) as usize;
                CartridgeReadTarget::Rom(bank * 0x4000 + (addr - 0x4000) as usize)
            },
            0xA000..=0xBFFF => {
                if self.ram_enable {
                    let bank: usize = (self.ram_bank_number % 16) as usize;
                    CartridgeReadTarget::Ram(bank * 0x2000 + (addr - 0xA000) as usize)
                } else {
                    CartridgeReadTarget::OpenBus(0xFF)
                }
            },
            _ => CartridgeReadTarget::OpenBus(0xFF),
        }
    }

    fn map_write(&mut self, addr: u16, data: u8) -> (r: Option<usize>) {
        match addr {
            0x0000..=0x1FFF => {
                self.ram_enable = data % 16 == 0x0A;
                None
            },
            0x2000..=0x2FFF => {
                self.rom_bank_number = ((self.rom_bank_number / 256) % 2) * 256 + data as u16;
                None
            },
            0x3000..=0x3FFF => {
                self.rom_bank_number = (data % 2) as u16 * 256 + self.rom_bank_number % 256;
                None
            },
            0x4000..=0x5FFF => {
                self.ram_bank_number = data % 16;
                None
            },
            0xA000..=0xBFFF => {
                if self.ram_enable {
                    let bank: usize = (self.ram_bank_number % 16) as usize;
                    Some(bank * 0x2000 + (addr - 0xA000) as usize)
                } else {
                    None
                }
            },
            _ => None,
        }
    }
}

} // verus!
