//! The cartridge header: the bytes 0x0134 to 0x014F of the image.

use vstd::prelude::*;

verus! {

/// The smallest image that holds a whole header.
pub const HEADER_END: usize = 0x150;

/// Where the header holds the CGB flag.
pub const CGB_FLAG_OFFSET: usize = 0x143;

/// Where the header holds the cartridge type.
pub const CARTRIDGE_TYPE_OFFSET: usize = 0x147;

/// Where the header holds the ROM size code.
pub const ROM_SIZE_OFFSET: usize = 0x148;

/// Where the header holds the RAM size code.
pub const RAM_SIZE_OFFSET: usize = 0x149;

/// Where the header holds its checksum.
pub const CHECKSUM_OFFSET: usize = 0x14D;

/// The first byte the header checksum covers.
pub const CHECKSUM_START: usize = 0x134;

/// Why an image was turned down.
#[derive(Clone, Copy, Debug, PartialEq, Eq, Structural)]
pub enum RomParserError {
    /// The image ends before its header does.
    TooShort,
    /// The header checksum does not match the header.
    ChecksumMismatch,
    /// The cartridge type byte names no supported memory bank controller.
    UnknownCartridgeType,
    /// The ROM size code is not one of the known ones.
    UnknownRomSize,
    /// The RAM size code is not one of the known ones.
    UnknownRamSize,
    /// The save data has not the length of the cartridge's RAM, with or without
    /// the clock's thirteen bytes.
    InvalidSaveSize,
}

/// The memory bank controller a cartridge type byte names.
#[derive(Clone, Copy, Debug, PartialEq, Eq, Structural)]
pub enum MapperType {
    NoMapper,
    Mbc1,
    Mbc2,
    Mbc3,
    Mbc5,
}

/// What the cartridge type byte says of the cartridge.
#[derive(Clone, Copy, Debug, PartialEq, Eq, Structural)]
pub struct CartridgeType {
    pub mapper: MapperType,
    pub has_ram: bool,
    pub has_battery: bool,
    pub has_rtc: bool,
}

/// What the header says of the cartridge.
#[derive(Clone, Copy, Debug, PartialEq, Eq, Structural)]
pub struct CartridgeHeader {
    pub kind: CartridgeType,
    /// Whether the program asks for the Color hardware (bit 7 of the CGB flag).
    pub cgb: bool,
    /// The size of the ROM in bytes, a multiple of 16 KiB.
    pub rom_size: usize,
    /// The size of the cartridge RAM in bytes.
    pub ram_size: usize,
}

/// The sum of `bytes[from..to]`.
pub open spec fn byte_sum(bytes: Seq<u8>, from: int, to: int) -> int
    decreases to - from,
{
    if from >= to {
        0
    } else {
        byte_sum(bytes, from, to - 1) + bytes[to - 1]
    }
}

/// The header checksum: zero, less each of the 25 bytes from 0x0134 to 0x014C,
/// less 25, kept to eight bits.
pub open spec fn header_checksum(rom: Seq<u8>) -> u8 {
    ((-byte_sum(rom, CHECKSUM_START as int, CHECKSUM_OFFSET as int) - 25) % 256) as u8
}

/// The table of cartridge types.
pub open spec fn cartridge_type_spec(code: u8) -> Option<CartridgeType> {
    let kind = |mapper: MapperType, has_ram: bool, has_battery: bool, has_rtc: bool|
        Some(CartridgeType { mapper, has_ram, has_battery, has_rtc });
    if code == 0x00 {
        kind(MapperType::NoMapper, false, false, false)
    } else if code == 0x08 {
        kind(MapperType::NoMapper, true, false, false)
    } else if code == 0x09 {
        kind(MapperType::NoMapper, true, true, false)
    } else if code == 0x01 {
        kind(MapperType::Mbc1, false, false, false)
    } else if code == 0x02 {
        kind(MapperType::Mbc1, true, false, false)
    } else if code == 0x03 {
        kind(MapperType::Mbc1, true, true, false)
    } else if code == 0x05 {
        kind(MapperType::Mbc2, true, false, false)
    } else if code == 0x06 {
        kind(MapperType::Mbc2, true, true, false)
    } else if code == 0x0F {
        kind(MapperType::Mbc3, false, true, true)
    } else if code == 0x10 {
        kind(MapperType::Mbc3, true, true, true)
    } else if code == 0x11 {
        kind(MapperType::Mbc3, false, false, false)
    } else if code == 0x12 {
        kind(MapperType::Mbc3, true, false, false)
    } else if code == 0x13 {
        kind(MapperType::Mbc3, true, true, false)
    } else if code == 0x19 || code == 0x1C {
        kind(MapperType::Mbc5, false, false, false)
    } else if code == 0x1A || code == 0x1D {
        kind(MapperType::Mbc5, true, false, false)
    } else if code == 0x1B || code == 0x1E {
        kind(MapperType::Mbc5, true, true, false)
    } else {
        None
    }
}

/// The number of 16 KiB banks a ROM size code stands for: 2 doubled `code` times up
/// to 8 MiB, and three odd sizes above 1 MiB.
pub open spec fn rom_banks_spec(code: u8) -> Option<int> {
    if code == 0 {
        Some(2)
    } else if code == 1 {
        Some(4)
    } else if code == 2 {
        Some(8)
    } else if code == 3 {
        Some(16)
    } else if code == 4 {
        Some(32)
    } else if code == 5 {
        Some(64)
    } else if code == 6 {
        Some(128)
    } else if code == 7 {
        Some(256)
    } else if code == 8 {
        Some(512)
    } else if code == 0x52 {
        Some(72)
    } else if code == 0x53 {
        Some(80)
    } else if code == 0x54 {
        Some(96)
    } else {
        None
    }
}

/// The size in bytes a RAM size code stands for.
pub open spec fn ram_size_spec(code: u8) -> Option<int> {
    if code == 0 {
        Some(0)
    } else if code == 1 {
        Some(0x800)
    } else if code == 2 {
        Some(0x2000)
    } else if code == 3 {
        Some(0x8000)
    } else if code == 4 {
        Some(0x20000)
    } else if code == 5 {
        Some(0x10000)
    } else {
        None
    }
}

/// The RAM a cartridge holds: the 512 half-bytes built into an MBC2, none where the
/// cartridge type has none, else what the RAM size code says.
pub open spec fn effective_ram_size(kind: CartridgeType, coded: int) -> int {
    if kind.mapper == MapperType::Mbc2 {
        512
    } else if kind.has_ram {
        coded
    } else {
        0
    }
}

/// What the header of `rom` says, or why the image is turned down. The checks come
/// in this order: length, checksum, cartridge type, ROM size, RAM size.
pub open spec fn parse_header_spec(rom: Seq<u8>) -> Result<CartridgeHeader, RomParserError> {
    if rom.len() < HEADER_END {
        Err(RomParserError::TooShort)
    } else if rom[CHECKSUM_OFFSET as int] != header_checksum(rom) {
        Err(RomParserError::ChecksumMismatch)
    } else {
        match cartridge_type_spec(rom[CARTRIDGE_TYPE_OFFSET as int]) {
            None => Err(RomParserError::UnknownCartridgeType),
            Some(kind) => match rom_banks_spec(rom[ROM_SIZE_OFFSET as int]) {
                None => Err(RomParserError::UnknownRomSize),
                Some(banks) => match ram_size_spec(rom[RAM_SIZE_OFFSET as int]) {
                    None => Err(RomParserError::UnknownRamSize),
                    Some(coded) => Ok(
                        CartridgeHeader {
                            kind,
                            cgb: rom[CGB_FLAG_OFFSET as int] >= 0x80,
                            rom_size: (banks * 0x4000) as usize,
                            ram_size: effective_ram_size(kind, coded) as usize,
                        },
                    ),
                },
            },
        }
    }
}

/// Computes the header checksum of an image that holds a whole header.
pub fn compute_checksum(rom: &[u8]) -> (r: u8)
    requires
        rom@.len() >= HEADER_END,
    ensures
        r == header_checksum(rom@),
{
    let mut x: u8 = 0;
    let mut i: usize = CHECKSUM_START;
    while i < CHECKSUM_OFFSET
        invariant
            CHECKSUM_START <= i <= CHECKSUM_OFFSET,
            rom@.len() >= HEADER_END,
            x as int == (-byte_sum(rom@, CHECKSUM_START as int, i as int) - (i - CHECKSUM_START))
                % 256,
        decreases CHECKSUM_OFFSET - i,
    {
        x = x.wrapping_sub(rom[i]).wrapping_sub(1);
        i = i + 1;
    }
    x
}

/// Reads a cartridge type byte.
pub fn cartridge_type(code: u8) -> (r: Option<CartridgeType>)
    ensures
        r == cartridge_type_spec(code),
{
    match code {
        0x00 => Some(
            CartridgeType {
                mapper: MapperType::NoMapper,
                has_ram: false,
                has_battery: false,
                has_rtc: false,
            },
        ),
        0x08 | 0x09 => Some(
            CartridgeType {
                mapper: MapperType::NoMapper,
                has_ram: true,
                has_battery: code == 0x09,
                has_rtc: false,
            },
        ),
        0x01 | 0x02 | 0x03 => Some(
            CartridgeType {
                mapper: MapperType::Mbc1,
                has_ram: code >= 0x02,
                has_battery: code == 0x03,
                has_rtc: false,
            },
        ),
        0x05 | 0x06 => Some(
            CartridgeType {
                mapper: MapperType::Mbc2,
                has_ram: true,
                has_battery: code == 0x06,
                has_rtc: false,
            },
        ),
        0x0F | 0x10 => Some(
            CartridgeType {
                mapper: MapperType::Mbc3,
                has_ram: code == 0x10,
                has_battery: true,
                has_rtc: true,
            },
        ),
        0x11 | 0x12 | 0x13 => Some(
            CartridgeType {
                mapper: MapperType::Mbc3,
                has_ram: code >= 0x12,
                has_battery: code == 0x13,
                has_rtc: false,
            },
        ),
        0x19 | 0x1A | 0x1B => Some(
            CartridgeType {
                mapper: MapperType::Mbc5,
                has_ram: code >= 0x1A,
                has_battery: code == 0x1B,
                has_rtc: false,
            },
        ),
        0x1C | 0x1D | 0x1E => Some(
            CartridgeType {
                mapper: MapperType::Mbc5,
                has_ram: code >= 0x1D,
                has_battery: code == 0x1E,
                has_rtc: false,
            },
        ),
        _ => None,
    }
}

/// Reads a ROM size code: the size in bytes.
pub fn rom_size(code: u8) -> (r: Option<usize>)
    ensures
        match rom_banks_spec(code) {
            Some(banks) => r == Some((banks * 0x4000) as usize) && 0 < banks <= 512,
            None => r.is_none(),
        },
{
    match code {
        0 => Some(0x8000),
        1 => Some(0x1_0000),
        2 => Some(0x2_0000),
        3 => Some(0x4_0000),
        4 => Some(0x8_0000),
        5 => Some(0x10_0000),
        6 => Some(0x20_0000),
        7 => Some(0x40_0000),
        8 => Some(0x80_0000),
        0x52 => Some(0x12_0000),
        0x53 => Some(0x14_0000),
        0x54 => Some(0x18_0000),
        _ => None,
    }
}

/// Reads a RAM size code: the size in bytes.
pub fn ram_size(code: u8) -> (r: Option<usize>)
    ensures
        match ram_size_spec(code) {
            Some(size) => r == Some(size as usize) && 0 <= size <= 0x20000,
            None => r.is_none(),
        },
{
    match code {
        0 => Some(0),
        1 => Some(0x800),
        2 => Some(0x2000),
        3 => Some(0x8000),
        4 => Some(0x2_0000),
        5 => Some(0x1_0000),
        _ => None,
    }
}

/// Reads and checks the header of an image.
pub fn parse_header(rom: &[u8]) -> (r: Result<CartridgeHeader, RomParserError>)
    ensures
        r == parse_header_spec(rom@),
        r matches Ok(h) ==> 0x8000 <= h.rom_size <= 0x80_0000 && h.rom_size % 0x4000 == 0
            && h.ram_size <= 0x20000,
{
    if rom.len() < HEADER_END {
        return Err(RomParserError::TooShort);
    }
    if rom[CHECKSUM_OFFSET] != compute_checksum(rom) {
        return Err(RomParserError::ChecksumMismatch);
    }
    let kind = match cartridge_type(rom[CARTRIDGE_TYPE_OFFSET]) {
        Some(kind) => kind,
        None => {
            return Err(RomParserError::UnknownCartridgeType);
        },
    };
    let rom_size: usize = match rom_size(rom[ROM_SIZE_OFFSET]) {
        Some(size) => size,
        None => {
            return Err(RomParserError::UnknownRomSize);
        },
    };
    let coded: usize = match ram_size(rom[RAM_SIZE_OFFSET]) {
        Some(size) => size,
        None => {
            return Err(RomParserError::UnknownRamSize);
        },
    };
    let ram_size: usize = match kind.mapper {
        MapperType::Mbc2 => 512,
        _ => if kind.has_ram {
            coded
        } else {
            0
        },
    };
    Ok(CartridgeHeader { kind, cgb: rom[CGB_FLAG_OFFSET] >= 0x80, rom_size, ram_size })
}

} // verus!
