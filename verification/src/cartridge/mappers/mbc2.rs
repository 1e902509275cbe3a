//! MBC2: up to 256 KiB of ROM and 512 half-bytes of RAM inside the controller.

use vstd::prelude::*;
use crate::cartridge::mappers::{opens_ram, rom_window_offset, CartridgeReadTarget, Mapper};

verus! {

/// The registers of an MBC2.
#[derive(Clone, Copy, Debug, PartialEq, Eq, Structural)]
pub struct Mbc2 {
    pub ram_enable: bool,
    /// The four-bit bank register.
    pub rom_bank: u8,
}

impl Mbc2 {
    /// After power-up: RAM closed, bank 1 selected.
    pub open spec fn initial() -> Mbc2 {
        Mbc2 { ram_enable: false, rom_bank: 1 }
    }

    /// The bank seen at 0x4000 to 0x7FFF: bank 1 where the register holds 0.
    pub open spec fn selected_rom_bank(&self) -> int {
        if self.rom_bank % 16 == 0 {
            1
        } else {
            self.rom_bank as int % 16
        }
    }

    /// Whether a write below 0x4000 goes to the RAM gate: bit 8 of the address is clear.
    pub open spec fn selects_ram_gate(addr: u16) -> bool {
        (addr / 0x100) % 2 == 0
    }

    /// The controller after power-up.
    pub fn new() -> (r: Mbc2)
        ensures
            r == Mbc2::initial(),
    {
        Mbc2 { ram_enable: false, rom_bank: 1 }
    }
}

impl Mapper for Mbc2 {
    /// The 512 half-bytes repeat through the whole RAM window.
    open spec fn read_target(&self, addr: u16) -> CartridgeReadTarget {
        if addr <= 0x3FFF {
            CartridgeReadTarget::Rom(addr as usize)
        } else if addr <= 0x7FFF {
            CartridgeReadTarget::Rom(
                (self.selected_rom_bank() * 0x4000 + rom_window_offset(addr)) as usize,
            )
        } else if 0xA000 <= addr <= 0xBFFF && self.ram_enable {
            CartridgeReadTarget::Ram((addr % 0x200) as usize)
        } else {
            CartridgeReadTarget::OpenBus(0xFF)
        }
    }

    open spec fn after_write(&self, addr: u16, data: u8) -> Self {
        if addr <= 0x3FFF {
            if Mbc2::selects_ram_gate(addr) {
                Mbc2 { ram_enable: opens_ram(data), ..*self }
            } else {
                Mbc2 { rom_bank: data % 16, ..*self }
            }
        } else {
            *self
        }
    }

    open spec fn write_target(&self, addr: u16, data: u8) -> Option<usize> {
        if 0xA000 <= addr <= 0xBFFF && self.ram_enable {
            Some((addr % 0x200) as usize)
        } else {
            None
        }
    }

    fn map_read(&self, addr: u16) -> (r: CartridgeReadTarget) {
        match addr {
            0x0000..=0x3FFF => CartridgeReadTarget::Rom(addr as usize),
            0x4000..=0x7FFF => {
                let low: u8 = self.rom_bank % 16;
                let bank: usize = if low == 0 {
                    1
                } else {
                    low as usize
                };
                CartridgeReadTarget::Rom(bank * 0x4000 + (addr - 0x4000) as usize)
            },
            0xA000..=0xBFFF => {
                if self.ram_enable {
                    CartridgeReadTarget::Ram((addr % 0x200) as usize)
                } else {
                    CartridgeReadTarget::OpenBus(0xFF)
                }
            },
            _ => CartridgeReadTarget::OpenBus(0xFF),
        }
    }

    fn map_write(&mut self, addr: u16, data: u8) -> (r: Option<usize>) {
        match addr {
            0x0000..=0x3FFF => {
                if (addr / 0x100) % 2 == 0 {
                    self.ram_enable = data % 16 == 0x0A;
                } else {
                    self.rom_bank = data % 16;
                }
                None
            },
            0xA000..=0xBFFF => {
                if self.ram_enable {
                    Some((addr % 0x200) as usize)
                } else {
                    None
                }
            },
            _ => None,
        }
    }
}

} // verus!
