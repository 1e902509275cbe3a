//! Laws of the cartridge: what a bank switch of an MBC1 shows.

use vstd::prelude::*;
use crate::cartridge::mappers::{Mapper, MapperKind};
use crate::cartridge::CartridgeView;

verus! {

/// Whether the cartridge has an MBC1 whose secondary register adds nothing to the
/// ROM bank, as it is after power-up.
pub open spec fn plain_mbc1(c: CartridgeView) -> bool {
    match c.mapper {
        MapperKind::Mbc1(m) => m.ram_mode || m.secondary % 4 == 0,
        _ => false,
    }
}

/// The first byte of ROM bank `bank`, the banks counted modulo their number.
pub open spec fn first_byte_of_bank(c: CartridgeView, bank: int) -> u8 {
    let banks = c.header.rom_size as int / 0x4000;
    let start = (bank % banks) * 0x4000;
    if start < c.rom.len() {
        c.rom[start]
    } else {
        0xFF
    }
}

/// The byte at the start of a bank, read through the cartridge's wrap at the
/// size of its ROM, is the first byte of that bank counted modulo the number of
/// banks.
pub proof fn lemma_bank_wraps(c: CartridgeView, bank: int)
    requires
        c.header.rom_size > 0,
        c.header.rom_size % 0x4000 == 0,
        0 <= bank < 512,
    ensures
        c.rom_byte((bank * 0x4000) as usize) == first_byte_of_bank(c, bank),
{
    let banks = c.header.rom_size as int / 0x4000;
    assert(c.header.rom_size == 0x4000 * banks);
    vstd::arithmetic::div_mod::lemma_truncate_middle(bank, 0x4000, banks);
    assert((0x4000 * bank) % (0x4000 * banks) == 0x4000 * (bank % banks));
}

/// A bank switch of an MBC1: after a write of 0x2A to 0x2100 the byte read at
/// 0x4000 is the first byte of bank 0x0A, the five bits that the bank register
/// keeps, counted modulo the number of banks; after a write of 0x00 it is the
/// first byte of bank 1. The window at 0x0000 shows bank 0 all the while.
pub proof fn lemma_mbc1_bank_switch(c: CartridgeView)
    requires
        plain_mbc1(c),
        c.header.rom_size > 0,
        c.header.rom_size % 0x4000 == 0,
    ensures
        c.write(0x2100, 0x2A).read(0x4000) == first_byte_of_bank(c, 0x0A),
        c.write(0x2100, 0x00).read(0x4000) == first_byte_of_bank(c, 0x01),
        c.write(0x2100, 0x2A).write(0x2100, 0x00).read(0x4000) == first_byte_of_bank(c, 0x01),
        c.write(0x2100, 0x2A).read(0x0000) == c.read(0x0000),
        c.write(0x2100, 0x2A).rom == c.rom,
{
    lemma_bank_wraps(c, 0x0A);
    lemma_bank_wraps(c, 0x01);
    let switched = c.write(0x2100, 0x2A);
    assert(switched.rom == c.rom && switched.header == c.header);
    let back = switched.write(0x2100, 0x00);
    assert(back.rom == c.rom && back.header == c.header);
    lemma_bank_wraps(switched, 0x0A);
    lemma_bank_wraps(back, 0x01);
    lemma_bank_wraps(c.write(0x2100, 0x00), 0x01);
}

} // verus!
