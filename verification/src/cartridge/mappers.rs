//! The memory bank controllers. Each turns a bus address into a place in the
//! cartridge's ROM or RAM, and takes the writes that switch its banks.

pub mod mbc1;
pub mod mbc2;
pub mod mbc3;
pub mod mbc5;
pub mod no_mapper;

pub use mbc1::Mbc1;
pub use mbc2::Mbc2;
pub use mbc3::Mbc3;
pub use mbc5::Mbc5;
pub use no_mapper::NoMapper;

use vstd::prelude::*;

verus! {

/// The size of one ROM bank.
pub const ROM_BANK_SIZE: usize = 0x4000;

/// The size of one RAM bank.
pub const RAM_BANK_SIZE: usize = 0x2000;

/// Where a read of the cartridge goes.
#[derive(Clone, Copy, Debug, PartialEq, Eq, Structural)]
pub enum CartridgeReadTarget {
    /// To this offset of the ROM.
    Rom(usize),
    /// To this offset of the RAM.
    Ram(usize),
    /// To neither: the bus reads this byte, 0xFF where nothing answers.
    OpenBus(u8),
}

/// Whether a byte written to a RAM gate opens it: its low nibble is 0xA.
pub open spec fn opens_ram(data: u8) -> bool {
    data % 16 == 0x0A
}

/// The offset of `addr` within the ROM window it lies in.
pub open spec fn rom_window_offset(addr: u16) -> int {
    addr as int % 0x4000
}

/// The offset of `addr` within the RAM window.
pub open spec fn ram_window_offset(addr: u16) -> int {
    addr as int % 0x2000
}

/// What a memory bank controller can do.
pub trait Mapper: Sized {
    /// Where a read of `addr` goes.
    spec fn read_target(&self, addr: u16) -> CartridgeReadTarget;

    /// The controller after a write of `data` to `addr`.
    spec fn after_write(&self, addr: u16, data: u8) -> Self;

    /// The RAM offset at which a write of `data` to `addr` is stored, or `None` where
    /// the write is for the controller or is dropped.
    spec fn write_target(&self, addr: u16, data: u8) -> Option<usize>;

    fn map_read(&self, addr: u16) -> (r: CartridgeReadTarget)
        ensures
            r == self.read_target(addr),
    ;

    fn map_write(&mut self, addr: u16, data: u8) -> (r: Option<usize>)
        ensures
            *final(self) == old(self).after_write(addr, data),
            r == old(self).write_target(addr, data),
    ;
}

/// The controller of a cartridge: one of the five kinds.
#[derive(Clone, Copy, Debug, PartialEq, Eq, Structural)]
pub enum MapperKind {
    NoMapper(NoMapper),
    Mbc1(Mbc1),
    Mbc2(Mbc2),
    Mbc3(Mbc3),
    Mbc5(Mbc5),
}

impl Mapper for MapperKind {
    open spec fn read_target(&self, addr: u16) -> CartridgeReadTarget {
        match self {
            MapperKind::NoMapper(m) => m.read_target(addr),
            MapperKind::Mbc1(m) => m.read_target(addr),
            MapperKind::Mbc2(m) => m.read_target(addr),
            MapperKind::Mbc3(m) => m.read_target(addr),
            MapperKind::Mbc5(m) => m.read_target(addr),
        }
    }

    open spec fn after_write(&self, addr: u16, data: u8) -> Self {
        match self {
            MapperKind::NoMapper(m) => MapperKind::NoMapper(m.after_write(addr, data)),
            MapperKind::Mbc1(m) => MapperKind::Mbc1(m.after_write(addr, data)),
            MapperKind::Mbc2(m) => MapperKind::Mbc2(m.after_write(addr, data)),
            MapperKind::Mbc3(m) => MapperKind::Mbc3(m.after_write(addr, data)),
            MapperKind::Mbc5(m) => MapperKind::Mbc5(m.after_write(addr, data)),
        }
    }

    open spec fn write_target(&self, addr: u16, data: u8) -> Option<usize> {
        match self {
            MapperKind::NoMapper(m) => m.write_target(addr, data),
            MapperKind::Mbc1(m) => m.write_target(addr, data),
            MapperKind::Mbc2(m) => m.write_target(addr, data),
            MapperKind::Mbc3(m) => m.write_target(addr, data),
            MapperKind::Mbc5(m) => m.write_target(addr, data),
        }
    }

    fn map_read(&self, addr: u16) -> (r: CartridgeReadTarget) {
        match self {
            MapperKind::NoMapper(m) => m.map_read(addr),
            MapperKind::Mbc1(m) => m.map_read(addr),
            MapperKind::Mbc2(m) => m.map_read(addr),
            MapperKind::Mbc3(m) => m.map_read(addr),
            MapperKind::Mbc5(m) => m.map_read(addr),
        }
    }

    fn map_write(&mut self, addr: u16, data: u8) -> (r: Option<usize>) {
        match self {
            MapperKind::NoMapper(m) => m.map_write(addr, data),
            MapperKind::Mbc1(m) => m.map_write(addr, data),
            MapperKind::Mbc2(m) => m.map_write(addr, data),
            MapperKind::Mbc3(m) => m.map_write(addr, data),
            MapperKind::Mbc5(m) => m.map_write(addr, data),
        }
    }
}

} // verus!
