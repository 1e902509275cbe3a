use gband::cartridge::header::{cartridge_type, compute_checksum, parse_header, MapperType};
use gband::cartridge::mappers::mbc3::RtcRegisters;
use gband::cartridge::mappers::{Mbc1, Mbc2, Mbc3, Mbc5, NoMapper};
use gband::cartridge::{Cartridge, CartridgeReadTarget, Mapper, MapperKind};
use gband::{Bus, RomParserError};

fn make_rom(cartridge_type: u8, rom_code: u8, ram_code: u8) -> Vec<u8> {
    let banks = match rom_code {
        0x52 => 72,
        0x53 => 80,
        0x54 => 96,
        code => 2usize << code,
    };
    let mut rom = vec![0u8; banks * 0x4000];
    for bank in 0..banks {
        rom[bank * 0x4000] = bank as u8;
        rom[bank * 0x4000 + 1] = (bank >> 8) as u8;
    }
    rom[0x147] = cartridge_type;
    rom[0x148] = rom_code;
    rom[0x149] = ram_code;
    fix_checksum(&mut rom);
    rom
}

fn fix_checksum(rom: &mut [u8]) {
    let mut checksum = 0u8;
    for byte in &rom[0x134..0x14D] {
        checksum = checksum.wrapping_sub(*byte).wrapping_sub(1);
    }
    rom[0x14D] = checksum;
}

#[test]
fn checksum_of_an_empty_header() {
    let rom = vec![0u8; 0x150];
    assert_eq!(compute_checksum(&rom), 231);
    let mut rom = vec![0u8; 0x150];
    rom[0x134] = 1;
    rom[0x14C] = 2;
    assert_eq!(compute_checksum(&rom), 228);
    let rom = vec![0xFFu8; 0x150];
    assert_eq!(compute_checksum(&rom), 0u8.wrapping_sub(25).wrapping_sub(25u8.wrapping_mul(255)));
}

#[test]
fn every_load_error() {
    assert_eq!(parse_header(&[0u8; 0x14F]).unwrap_err(), RomParserError::TooShort);
    assert_eq!(parse_header(&[]).unwrap_err(), RomParserError::TooShort);

    let rom = vec![0u8; 0x150];
    assert_eq!(parse_header(&rom).unwrap_err(), RomParserError::ChecksumMismatch);

    let mut rom = make_rom(0x00, 0, 0);
    rom[0x147] = 0x04;
    fix_checksum(&mut rom);
    assert_eq!(parse_header(&rom).unwrap_err(), RomParserError::UnknownCartridgeType);
    rom[0x147] = 0xFF;
    fix_checksum(&mut rom);
    assert_eq!(parse_header(&rom).unwrap_err(), RomParserError::UnknownCartridgeType);

    let mut rom = make_rom(0x00, 0, 0);
    rom[0x148] = 0x09;
    fix_checksum(&mut rom);
    assert_eq!(parse_header(&rom).unwrap_err(), RomParserError::UnknownRomSize);

    let mut rom = make_rom(0x00, 0, 0);
    rom[0x149] = 0x06;
    fix_checksum(&mut rom);
    assert_eq!(parse_header(&rom).unwrap_err(), RomParserError::UnknownRamSize);

    let rom = make_rom(0x03, 1, 2);
    assert!(matches!(Cartridge::load(&rom, Some(&[0u8; 0x1FFF])), Err(RomParserError::InvalidSaveSize)));
    assert!(matches!(Cartridge::load(&rom, Some(&[0u8; 0x2000 + 13])), Err(RomParserError::InvalidSaveSize)));
    assert!(Cartridge::load(&rom, Some(&[0u8; 0x2000])).is_ok());
}

#[test]
fn header_fields() {
    let rom = make_rom(0x13, 5, 3);
    let header = parse_header(&rom).unwrap();
    assert_eq!(header.kind.mapper, MapperType::Mbc3);
    assert!(header.kind.has_ram && header.kind.has_battery && !header.kind.has_rtc);
    assert!(!header.cgb);
    assert_eq!(header.rom_size, 0x10_0000);
    assert_eq!(header.ram_size, 0x8000);

    let sizes = [(0u8, 0usize), (1, 0x800), (2, 0x2000), (3, 0x8000), (4, 0x20000), (5, 0x10000)];
    for (code, size) in sizes {
        let mut rom = make_rom(0x03, 0, code);
        rom[0x143] = 0xC0;
        fix_checksum(&mut rom);
        let header = parse_header(&rom).unwrap();
        assert_eq!(header.ram_size, size);
        assert!(header.cgb);
    }
    for (code, size) in [(0x52u8, 0x12_0000usize), (0x53, 0x14_0000), (0x54, 0x18_0000), (8, 0x80_0000)] {
        let mut rom = vec![0u8; 0x150];
        rom[0x148] = code;
        fix_checksum(&mut rom);
        assert_eq!(parse_header(&rom).unwrap().rom_size, size);
    }
    // an MBC2 has its 512 half-bytes whatever the RAM size code says
    assert_eq!(parse_header(&make_rom(0x05, 1, 0)).unwrap().ram_size, 512);
    // without RAM in the cartridge type the RAM size code counts for nothing
    assert_eq!(parse_header(&make_rom(0x01, 1, 3)).unwrap().ram_size, 0);
    assert!(cartridge_type(0x0F).unwrap().has_rtc);
    assert!(cartridge_type(0x1E).unwrap().has_battery);
    assert!(cartridge_type(0x20).is_none());
}

#[test]
fn no_mapper_maps_one_to_one() {
    let mut rom = make_rom(0x08, 0, 2);
    rom[0x7FFF] = 0x77;
    let mut cart = Cartridge::load(&rom, None).unwrap();
    assert_eq!(cart.read(0x0000), 0);
    assert_eq!(cart.read(0x4000), 1);
    assert_eq!(cart.read(0x7FFF), 0x77);
    cart.write(0x4000, 0x55);
    assert_eq!(cart.read(0x4000), 1);
    cart.write(0xA123, 0x42);
    assert_eq!(cart.read(0xA123), 0x42);
    assert_eq!(cart.ram[0x123], 0x42);
    assert!(cart.dirty);
    assert_eq!(cart.read(0x8000), 0xFF);
    assert!(matches!(NoMapper::new().map_read(0xC000), CartridgeReadTarget::OpenBus(0xFF)));
    // without RAM the window reads 0xFF and writes are lost
    let mut cart = Cartridge::load(&make_rom(0x00, 0, 0), None).unwrap();
    cart.write(0xA000, 1);
    assert_eq!(cart.read(0xA000), 0xFF);
    assert!(!cart.dirty);
}

#[test]
fn short_image_reads_ff_beyond_its_end() {
    let mut rom = vec![0u8; 0x150];
    rom[0x14D] = 231;
    let cart = Cartridge::load(&rom, None).unwrap();
    assert_eq!(cart.read(0x014D), 231);
    assert_eq!(cart.read(0x0150), 0xFF);
    assert_eq!(cart.read(0x7FFF), 0xFF);
}

#[test]
fn mbc1_bank_switch() {
    // 512 KiB: 32 banks
    let rom = make_rom(0x01, 4, 0);
    let cartridge = Cartridge::load(&rom, None).unwrap();
    let mut bus = Bus::new(cartridge);
    assert_eq!(bus.read(0x4000), 0x01);
    bus.write(0x2100, 0x2A);
    assert_eq!(bus.read(0x4000), rom[0x0A * 0x4000]);
    assert_eq!(bus.read(0x4000), 0x0A);
    bus.write(0x2100, 0x00);
    assert_eq!(bus.read(0x4000), rom[0x01 * 0x4000]);
    assert_eq!(bus.read(0x4000), 0x01);
    assert_eq!(bus.read(0x0000), 0x00);
}

#[test]
fn mbc1_upper_bits_and_modes() {
    // 2 MiB: 128 banks
    let rom = make_rom(0x03, 6, 3);
    let mut cart = Cartridge::load(&rom, None).unwrap();
    cart.write(0x2000, 0x05);
    cart.write(0x4000, 0x02);
    assert_eq!(cart.read(0x4000), 0x45);
    // banks 0x20, 0x40 and 0x60 show in the upper window
    cart.write(0x2000, 0x00);
    assert_eq!(cart.read(0x4000), 0x40);
    cart.write(0x4000, 0x01);
    assert_eq!(cart.read(0x4000), 0x20);
    cart.write(0x4000, 0x00);
    assert_eq!(cart.read(0x4000), 0x01);
    // the lower window always shows bank 0
    cart.write(0x4000, 0x03);
    assert_eq!(cart.read(0x0000), 0x00);
    // the RAM answers only while enabled; with the mode flag set the secondary register selects its bank
    cart.write(0xA000, 0x11);
    assert_eq!(cart.read(0xA000), 0xFF);
    cart.write(0x0000, 0x0A);
    cart.write(0xA000, 0x11);
    assert_eq!(cart.read(0xA000), 0x11);
    cart.write(0x6000, 0x01);
    assert_eq!(cart.read(0xA000), 0x00);
    cart.write(0xA000, 0x33);
    assert_eq!(cart.ram[3 * 0x2000], 0x33);
    assert_eq!(cart.ram[0], 0x11);
    // in RAM mode the upper ROM bits are zero
    cart.write(0x2000, 0x05);
    assert_eq!(cart.read(0x4000), 0x05);
    cart.write(0x0000, 0x1B);
    assert_eq!(cart.read(0xA000), 0xFF);
    let mut mapper = Mbc1::new();
    assert_eq!(mapper.map_write(0xA000, 0), None);
    assert!(matches!(mapper.map_read(0x4001), CartridgeReadTarget::Rom(0x4001)));
}

#[test]
fn banks_wrap_at_the_size_of_the_rom() {
    // 64 KiB: 4 banks
    let rom = make_rom(0x01, 1, 0);
    let mut cart = Cartridge::load(&rom, None).unwrap();
    cart.write(0x2000, 0x07);
    assert_eq!(cart.read(0x4000), 0x03);
    cart.write(0x2000, 0x04);
    assert_eq!(cart.read(0x4000), 0x00);
}

#[test]
fn mbc2_half_bytes() {
    let rom = make_rom(0x06, 2, 0);
    let mut cart = Cartridge::load(&rom, None).unwrap();
    assert_eq!(cart.ram.len(), 512);
    // bit 8 of the address clear: the RAM gate
    cart.write(0x0000, 0x0A);
    // bit 8 set: the ROM bank
    cart.write(0x0100, 0x03);
    assert_eq!(cart.read(0x4000), 0x03);
    cart.write(0x2100, 0x10);
    assert_eq!(cart.read(0x4000), 0x01);
    cart.write(0xA005, 0x3C);
    assert_eq!(cart.read(0xA005), 0xFC);
    // the 512 half-bytes repeat
    assert_eq!(cart.read(0xA205), 0xFC);
    assert_eq!(cart.read(0xA000), 0xF0);
    cart.write(0x0000, 0x00);
    assert_eq!(cart.read(0xA005), 0xFF);
    let mut mapper = Mbc2::new();
    mapper.map_write(0x3F00, 0x0F);
    assert!(matches!(mapper.map_read(0x4000), CartridgeReadTarget::Rom(0x3C000)));
}

#[test]
fn mbc3_banks_and_clock() {
    let rom = make_rom(0x10, 6, 3);
    let mut cart = Cartridge::load(&rom, None).unwrap();
    cart.write(0x2000, 0x00);
    assert_eq!(cart.read(0x4000), 0x01);
    cart.write(0x2000, 0x7F);
    assert_eq!(cart.read(0x4000), 0x7F);
    cart.write(0x2000, 0x80);
    assert_eq!(cart.read(0x4000), 0x01);
    cart.write(0x0000, 0x0A);
    cart.write(0x4000, 0x02);
    cart.write(0xA000, 0x99);
    assert_eq!(cart.ram[2 * 0x2000], 0x99);
    // the clock: set it, let it run, latch it
    cart.write(0x4000, 0x08);
    cart.write(0xA000, 58);
    cart.write(0x4000, 0x09);
    cart.write(0xA000, 59);
    cart.write(0x4000, 0x0A);
    cart.write(0xA000, 23);
    cart.write(0x4000, 0x0B);
    cart.write(0xA000, 0xFF);
    cart.write(0x4000, 0x0C);
    cart.write(0xA000, 0x01);
    // nothing is seen before the latch
    cart.write(0x4000, 0x08);
    assert_eq!(cart.read(0xA000), 0);
    cart.tick_second();
    cart.write(0x6000, 0x00);
    cart.write(0x6000, 0x01);
    assert_eq!(cart.read(0xA000), 59);
    cart.tick_second();
    // the latched registers stand still
    assert_eq!(cart.read(0xA000), 59);
    cart.write(0x6000, 0x01);
    assert_eq!(cart.read(0xA000), 59);
    cart.write(0x6000, 0x00);
    cart.write(0x6000, 0x01);
    assert_eq!(cart.read(0xA000), 0);
    cart.write(0x4000, 0x09);
    assert_eq!(cart.read(0xA000), 0);
    cart.write(0x4000, 0x0A);
    assert_eq!(cart.read(0xA000), 0);
    cart.write(0x4000, 0x0B);
    assert_eq!(cart.read(0xA000), 0);
    // the day counter passed 511: it starts anew and the carry bit is set
    cart.write(0x4000, 0x0C);
    assert_eq!(cart.read(0xA000), 0x80);
    // a halted clock stands still
    cart.write(0xA000, 0x40);
    for _ in 0..100 {
        cart.tick_second();
    }
    cart.write(0x6000, 0x00);
    cart.write(0x6000, 0x01);
    cart.write(0x4000, 0x08);
    assert_eq!(cart.read(0xA000), 0);
    cart.write(0x4000, 0x05);
    assert_eq!(cart.read(0xA000), 0xFF);
    assert!(matches!(Mbc3::new().map_read(0xA000), CartridgeReadTarget::OpenBus(0xFF)));
}

#[test]
fn rtc_counts_seconds() {
    let mut rtc = RtcRegisters::new();
    for _ in 0..(86400 + 3600 + 61) {
        rtc.tick();
    }
    assert_eq!((rtc.seconds, rtc.minutes, rtc.hours, rtc.days_low, rtc.days_high), (1, 1, 1, 1, 0));
    let mut rtc = RtcRegisters { seconds: 59, minutes: 59, hours: 23, days_low: 255, days_high: 0 };
    rtc.tick();
    assert_eq!((rtc.seconds, rtc.minutes, rtc.hours, rtc.days_low, rtc.days_high), (0, 0, 0, 0, 1));
    rtc.set(0x08, 0xFF);
    assert_eq!(rtc.get(0x08), 0x3F);
    rtc.tick();
    assert_eq!((rtc.seconds, rtc.minutes), (0, 0));
    rtc.set(0x0C, 0xFF);
    assert_eq!(rtc.get(0x0C), 0xC1);
}

#[test]
fn mbc5_nine_bit_bank() {
    // 8 MiB: 512 banks
    let rom = make_rom(0x1B, 8, 4);
    let mut cart = Cartridge::load(&rom, None).unwrap();
    assert_eq!(cart.read(0x4000), 0x01);
    // bank 0 can be selected
    cart.write(0x2000, 0x00);
    assert_eq!((cart.read(0x4000), cart.read(0x4001)), (0x00, 0x00));
    cart.write(0x2000, 0x34);
    cart.write(0x3000, 0x01);
    assert_eq!((cart.read(0x4000), cart.read(0x4001)), (0x34, 0x01));
    cart.write(0x3000, 0xFE);
    assert_eq!((cart.read(0x4000), cart.read(0x4001)), (0x34, 0x00));
    cart.write(0x0000, 0x0A);
    cart.write(0x4000, 0x0F);
    cart.write(0xBFFF, 0x77);
    assert_eq!(cart.ram[0x1FFFF], 0x77);
    assert_eq!(cart.read(0xBFFF), 0x77);
    cart.write(0x4000, 0x10);
    assert_eq!(cart.read(0xBFFF), 0x00);
    let mut mapper = Mbc5::default();
    mapper.map_write(0x0000, 0x0A);
    assert_eq!(mapper.map_write(0xA001, 0), Some(1));
    let kind = MapperKind::Mbc5(Mbc5::new());
    assert!(matches!(kind.map_read(0x4000), CartridgeReadTarget::Rom(0x4000)));
}

#[test]
fn save_round_trip() {
    // every mapper with battery RAM
    for (cartridge_type, ram_code) in [(0x03u8, 3u8), (0x06, 0), (0x09, 2), (0x13, 3), (0x1B, 4), (0x1E, 2)] {
        let rom = make_rom(cartridge_type, 2, ram_code);
        let mut cart = Cartridge::load(&rom, None).unwrap();
        let size = cart.ram.len();
        assert_eq!(cart.get_save_data().unwrap(), vec![0u8; size]);
        cart.write(0x0000, 0x0A);
        for i in 0..64u16 {
            cart.write(0xA000 + i * 7, (i * 3 + 1) as u8);
        }
        let save = cart.get_save_data().unwrap();
        assert_eq!(save.len(), size);
        assert_eq!(save, cart.ram);
        let loaded = Cartridge::load(&rom, Some(&save)).unwrap();
        assert_eq!(loaded.ram, cart.ram);
        assert_eq!(loaded.get_save_data().unwrap(), save);
        assert!(!loaded.dirty);
    }
}

#[test]
fn save_round_trip_with_clock() {
    let rom = make_rom(0x10, 2, 2);
    let mut save: Vec<u8> = (0..0x2000u32).map(|i| (i * 7) as u8).collect();
    save.extend_from_slice(&[12, 34, 5, 0x67, 0x81]);
    save.extend_from_slice(&0x0123_4567_89AB_CDEFu64.to_le_bytes());
    let mut cart = Cartridge::load(&rom, Some(&save)).unwrap();
    assert_eq!(cart.rtc_timestamp, 0x0123_4567_89AB_CDEF);
    assert_eq!(cart.get_save_data().unwrap(), save);
    cart.set_rtc_timestamp(42);
    cart.tick_second();
    let again = cart.get_save_data().unwrap();
    assert_eq!(again[..0x2000], save[..0x2000]);
    assert_eq!(again[0x2000..0x2005], [13, 34, 5, 0x67, 0x81]);
    assert_eq!(again[0x2005..], 42u64.to_le_bytes());
    // a file without the clock's bytes is taken, and the clock starts from zero
    let cart = Cartridge::load(&rom, Some(&save[..0x2000])).unwrap();
    let fresh = cart.get_save_data().unwrap();
    assert_eq!(fresh[..0x2000], save[..0x2000]);
    assert_eq!(fresh[0x2000..], [0u8; 13]);
}

#[test]
fn no_battery_no_save() {
    let rom = make_rom(0x02, 1, 2);
    let mut cart = Cartridge::load(&rom, Some(&[1, 2, 3])).unwrap();
    cart.write(0x0000, 0x0A);
    cart.write(0xA000, 0x55);
    assert!(cart.get_save_data().is_none());
    assert_eq!(cart.read(0xA000), 0x55);
}

#[test]
fn ram_write_then_read() {
    let rom = make_rom(0x1B, 2, 3);
    let mut bus = Bus::new(Cartridge::load(&rom, None).unwrap());
    bus.write(0x0000, 0x0A);
    for (addr, value) in [(0xC000u16, 1u8), (0xCFFF, 2), (0xD000, 3), (0xDFFF, 4), (0xFF80, 5), (0xFFFE, 6), (0xA000, 7), (0xBFFF, 8)] {
        bus.write(addr, value);
        assert_eq!(bus.read(addr), value, "{addr:04x}");
    }
    // the echo shows the work RAM
    assert_eq!(bus.read(0xE000), 1);
    assert_eq!(bus.read(0xEFFF), 2);
    assert_eq!(bus.read(0xF000), 3);
    bus.write(0xFDFF, 9);
    assert_eq!(bus.read(0xDDFF), 9);
    // nothing lives at 0xFEA0 to 0xFEFF, and the sound registers read 0xFF
    bus.write(0xFEA0, 1);
    assert_eq!(bus.read(0xFEA0), 0xFF);
    bus.write(0xFF10, 1);
    assert_eq!(bus.read(0xFF10), 0xFF);
    assert_eq!(bus.read(0xFF3F), 0xFF);
    // IF reads with its upper bits set, IE keeps its five sources
    bus.write(0xFF0F, 0x05);
    assert_eq!(bus.read(0xFF0F), 0xE5);
    bus.write(0xFFFF, 0xFF);
    assert_eq!(bus.read(0xFFFF), 0x1F);
}

#[test]
fn work_ram_banks_of_the_color_hardware() {
    let mut rom = make_rom(0x00, 0, 0);
    rom[0x143] = 0x80;
    fix_checksum(&mut rom);
    let mut bus = Bus::new(Cartridge::load(&rom, None).unwrap());
    assert_eq!(bus.read(0xFF70), 0xF8);
    for bank in 1..8u8 {
        bus.write(0xFF70, bank);
        bus.write(0xD000, bank * 11);
    }
    bus.write(0xC000, 0xAA);
    for bank in 1..8u8 {
        bus.write(0xFF70, bank);
        assert_eq!(bus.read(0xFF70), 0xF8 | bank);
        assert_eq!(bus.read(0xD000), bank * 11);
        assert_eq!(bus.read(0xC000), 0xAA);
        assert_eq!(bus.wram[bank as usize * 0x1000], bank * 11);
    }
    bus.write(0xFF70, 0);
    assert_eq!(bus.read(0xD000), 11);
    // without the Color hardware the register is not there
    let mut bus = Bus::new(Cartridge::load(&make_rom(0x00, 0, 0), None).unwrap());
    bus.write(0xFF70, 3);
    assert_eq!(bus.read(0xFF70), 0xFF);
    bus.write(0xD000, 1);
    assert_eq!(bus.wram[0x1000], 1);
}

#[test]
fn clock_catches_up_with_the_time_that_passed() {
    let rom = make_rom(0x10, 2, 2);
    let mut save = vec![0u8; 0x2000];
    save.extend_from_slice(&[58, 59, 23, 0, 0]);
    save.extend_from_slice(&1_000_000u64.to_le_bytes());
    let mut cart = Cartridge::load(&rom, Some(&save)).unwrap();
    // the time saved is not in the past: nothing moves
    cart.catch_up(1_000_000);
    cart.catch_up(999_999);
    assert_eq!(cart.get_save_data().unwrap(), save);
    // three seconds later the day has turned
    cart.catch_up(1_000_003);
    let after = cart.get_save_data().unwrap();
    assert_eq!(after[0x2000..0x2005], [1, 0, 0, 1, 0]);
    assert_eq!(after[0x2005..], 1_000_003u64.to_le_bytes());
    // at most 512 days are made up, after which the clock reads the same with its carry set
    cart.catch_up(u64::MAX);
    let after = cart.get_save_data().unwrap();
    assert_eq!(after[0x2000..0x2005], [1, 0, 0, 1, 0x80]);
    assert_eq!(cart.rtc_timestamp, u64::MAX);
    // a cartridge that holds no timestamp is left alone
    let mut cart = Cartridge::load(&rom, None).unwrap();
    cart.catch_up(5_000);
    assert_eq!(cart.rtc_timestamp, 0);
    assert_eq!(cart.get_save_data().unwrap()[0x2000..0x2005], [0, 0, 0, 0, 0]);
}
