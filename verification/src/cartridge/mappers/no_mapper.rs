//! A cartridge without a controller: 32 KiB of ROM and at most one bank of RAM.

use vstd::prelude::*;
use crate::cartridge::mappers::{CartridgeReadTarget, Mapper};

verus! {

/// The absence of a controller: it has no registers.
#[derive(Clone, Copy, Debug, PartialEq, Eq, Structural)]
pub struct NoMapper {}

impl NoMapper {
    /// The absence of a controller.
    pub fn new() -> (r: NoMapper)
        ensures
            r == (NoMapper {  }),
    {
        NoMapper {  }
    }
}

impl Mapper for NoMapper {
    /// ROM and RAM map one to one.
    open spec fn read_target(&self, addr: u16) -> CartridgeReadTarget {
        if addr <= 0x7FFF {
            CartridgeReadTarget::Rom(addr as usize)
        } else if 0xA000 <= addr <= 0xBFFF {
            CartridgeReadTarget::Ram((addr - 0xA000) as usize)
        } else {
            CartridgeReadTarget::OpenBus(0xFF)
        }
    }

    open spec fn after_write(&self, addr: u16, data: u8) -> Self {
        *self
    }

    open spec fn write_target(&self, addr: u16, data: u8) -> Option<usize> {
        if 0xA000 <= addr <= 0xBFFF {
            Some((addr - 0xA000) as usize)
        } else {
            None
        }
    }

    fn map_read(&self, addr: u16) -> (r: CartridgeReadTarget) {
        match addr {
            0x0000..=0x7FFF => CartridgeReadTarget::Rom(addr as usize),
            0xA000..=0xBFFF => CartridgeReadTarget::Ram((addr - 0xA000) as usize),
            _ => CartridgeReadTarget::OpenBus(0xFF),
        }
    }

    fn map_write(&mut self, addr: u16, data: u8) -> (r: Option<usize>) {
        match addr {
            0xA000..=0xBFFF => Some((addr - 0xA000) as usize),
            _ => None,
        }
    }
}

} // verus!
