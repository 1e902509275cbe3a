//! The cartridge: ROM, RAM and the memory bank controller between them and the bus.

pub mod header;
pub mod laws;
pub mod mappers;

pub use header::{CartridgeHeader, CartridgeType, MapperType, RomParserError};
pub use mappers::{CartridgeReadTarget, Mapper, MapperKind};

use mappers::mbc3::RtcRegisters;
use mappers::{Mbc1, Mbc2, Mbc3, Mbc5, NoMapper};
use vstd::bytes::{spec_u64_from_le_bytes, spec_u64_to_le_bytes, u64_from_le_bytes, u64_to_le_bytes};
use vstd::prelude::*;
use vstd::slice::{slice_subrange, slice_to_vec};

verus! {

/// The bytes that a save file of a cartridge with a clock holds after the RAM: the
/// five clock registers and a 64-bit timestamp.
pub const RTC_TAIL_SIZE: usize = 13;

/// A loaded cartridge.
pub struct Cartridge {
    pub header: CartridgeHeader,
    pub rom: Vec<u8>,
    pub ram: Vec<u8>,
    pub mapper: MapperKind,
    /// The timestamp kept beside the clock in a save file. The cartridge stores it
    /// and hands it back; it never reads a clock of its own.
    pub rtc_timestamp: u64,
    /// Whether the RAM was written to since the cartridge was loaded.
    pub dirty: bool,
}

/// A cartridge as a mathematical value.
#[verifier::ext_equal]
pub struct CartridgeView {
    pub header: CartridgeHeader,
    pub rom: Seq<u8>,
    pub ram: Seq<u8>,
    pub mapper: MapperKind,
    pub rtc_timestamp: u64,
    pub dirty: bool,
}

impl View for Cartridge {
    type V = CartridgeView;

    open spec fn view(&self) -> CartridgeView {
        CartridgeView {
            header: self.header,
            rom: self.rom@,
            ram: self.ram@,
            mapper: self.mapper,
            rtc_timestamp: self.rtc_timestamp,
            dirty: self.dirty,
        }
    }
}

/// The controller a cartridge of the given kind starts with.
pub open spec fn initial_mapper(kind: MapperType) -> MapperKind {
    match kind {
        MapperType::NoMapper => MapperKind::NoMapper(NoMapper {  }),
        MapperType::Mbc1 => MapperKind::Mbc1(Mbc1::initial()),
        MapperType::Mbc2 => MapperKind::Mbc2(Mbc2::initial()),
        MapperType::Mbc3 => MapperKind::Mbc3(Mbc3::initial()),
        MapperType::Mbc5 => MapperKind::Mbc5(Mbc5::initial()),
    }
}

/// The clock registers as a save file holds them: S, M, H, DL, DH.
pub open spec fn rtc_bytes(rtc: RtcRegisters) -> Seq<u8> {
    seq![rtc.seconds, rtc.minutes, rtc.hours, rtc.days_low, rtc.days_high]
}

/// The clock registers that five bytes of a save file hold.
pub open spec fn rtc_from_bytes(bytes: Seq<u8>) -> RtcRegisters {
    RtcRegisters {
        seconds: bytes[0],
        minutes: bytes[1],
        hours: bytes[2],
        days_low: bytes[3],
        days_high: bytes[4],
    }
}

/// The controller with its running and latched clock set to `rtc`.
pub open spec fn with_clock(mapper: MapperKind, rtc: RtcRegisters) -> MapperKind {
    match mapper {
        MapperKind::Mbc3(m) => MapperKind::Mbc3(Mbc3 { rtc, latched: rtc, ..m }),
        _ => mapper,
    }
}

/// The running clock of the controller; zero where it has none.
pub open spec fn clock_of(mapper: MapperKind) -> RtcRegisters {
    match mapper {
        MapperKind::Mbc3(m) => m.rtc,
        _ => RtcRegisters::zero(),
    }
}

/// The bytes of an optional slice.
pub open spec fn slice_view(data: Option<&[u8]>) -> Option<Seq<u8>> {
    match data {
        Some(s) => Some(s@),
        None => None,
    }
}

impl CartridgeView {
    /// The ROM byte at `offset`. Offsets wrap at the size the header gives; where
    /// the image is shorter than that, the missing bytes read 0xFF.
    pub open spec fn rom_byte(self, offset: usize) -> u8 {
        if self.header.rom_size > 0 && offset % self.header.rom_size < self.rom.len() {
            self.rom[(offset % self.header.rom_size) as int]
        } else {
            0xFF
        }
    }

    /// The RAM byte at `offset`. Offsets wrap at the size of the RAM; without RAM
    /// every byte reads 0xFF. The half-bytes of an MBC2 read with their upper nibble set.
    pub open spec fn ram_byte(self, offset: usize) -> u8 {
        if self.ram.len() == 0 {
            0xFF
        } else if self.header.kind.mapper == MapperType::Mbc2 {
            (self.ram[offset as int % self.ram.len() as int] % 16 + 0xF0) as u8
        } else {
            self.ram[offset as int % self.ram.len() as int]
        }
    }

    /// What a read of `addr` gives.
    pub open spec fn read(self, addr: u16) -> u8 {
        match self.mapper.read_target(addr) {
            CartridgeReadTarget::Rom(offset) => self.rom_byte(offset),
            CartridgeReadTarget::Ram(offset) => self.ram_byte(offset),
            CartridgeReadTarget::OpenBus(byte) => byte,
        }
    }

    /// The cartridge after a write of `data` to `addr`: the controller takes the
    /// write, and where it names a RAM offset the byte is stored there.
    pub open spec fn write(self, addr: u16, data: u8) -> CartridgeView {
        let mapper = self.mapper.after_write(addr, data);
        match self.mapper.write_target(addr, data) {
            Some(offset) if self.ram.len() > 0 => CartridgeView {
                mapper,
                ram: self.ram.update(offset as int % self.ram.len() as int, data),
                dirty: true,
                ..self
            },
            _ => CartridgeView { mapper, ..self },
        }
    }

    /// What a save file of the cartridge holds: nothing without a battery, else the
    /// RAM, followed on a cartridge with a clock by the clock registers and the
    /// timestamp.
    pub open spec fn save_data(self) -> Option<Seq<u8>> {
        if !self.header.kind.has_battery {
            None
        } else if self.header.kind.has_rtc {
            Some(
                self.ram + rtc_bytes(clock_of(self.mapper)) + spec_u64_to_le_bytes(
                    self.rtc_timestamp,
                ),
            )
        } else {
            Some(self.ram)
        }
    }

    /// The cartridge one second later.
    pub open spec fn tick_second(self) -> CartridgeView {
        match self.mapper {
            MapperKind::Mbc3(m) => CartridgeView { mapper: MapperKind::Mbc3(m.tick_spec()), ..self },
            _ => self,
        }
    }

    /// The cartridge that an image and a save file give. Save data is read only by a
    /// cartridge with a battery. It must have the length of the RAM; on a cartridge
    /// with a clock it may be followed by the clock's thirteen bytes.
    pub open spec fn load(rom: Seq<u8>, save: Option<Seq<u8>>) -> Result<CartridgeView, RomParserError> {
        match header::parse_header_spec(rom) {
            Err(e) => Err(e),
            Ok(h) => {
                let fresh = CartridgeView {
                    header: h,
                    rom,
                    ram: Seq::new(h.ram_size as nat, |i: int| 0u8),
                    mapper: initial_mapper(h.kind.mapper),
                    rtc_timestamp: 0,
                    dirty: false,
                };
                match save {
                    Some(s) if h.kind.has_battery => {
                        if s.len() == h.ram_size {
                            Ok(CartridgeView { ram: s, ..fresh })
                        } else if h.kind.has_rtc && s.len() == h.ram_size + RTC_TAIL_SIZE {
                            let n = h.ram_size as int;
                            Ok(
                                CartridgeView {
                                    ram: s.subrange(0, n),
                                    mapper: with_clock(
                                        fresh.mapper,
                                        rtc_from_bytes(s.subrange(n, n + 5)),
                                    ),
                                    rtc_timestamp: spec_u64_from_le_bytes(s.subrange(n + 5, n + 13)),
                                    ..fresh
                                },
                            )
                        } else {
                            Err(RomParserError::InvalidSaveSize)
                        }
                    },
                    _ => Ok(fresh),
                }
            },
        }
    }
}

impl Cartridge {
    /// Loads a cartridge from its image and, where there is one, its save file.
    pub fn load(rom: &[u8], save_data: Option<&[u8]>) -> (r: Result<Cartridge, RomParserError>)
        ensures
            match CartridgeView::load(rom@, slice_view(save_data)) {
                Ok(v) => r.is_ok() && r.unwrap()@ == v,
                Err(e) => r == Err::<Cartridge, RomParserError>(e),
            },
    {
        let h = match header::parse_header(rom) {
            Ok(h) => h,
            Err(e) => {
                return Err(e);
            },
        };
        let mut mapper = match h.kind.mapper {
            MapperType::NoMapper => MapperKind::NoMapper(NoMapper::new()),
            MapperType::Mbc1 => MapperKind::Mbc1(Mbc1::new()),
            MapperType::Mbc2 => MapperKind::Mbc2(Mbc2::new()),
            MapperType::Mbc3 => MapperKind::Mbc3(Mbc3::new()),
            MapperType::Mbc5 => MapperKind::Mbc5(Mbc5::new()),
        };
        let mut rtc_timestamp: u64 = 0;
        let ram: Vec<u8> = match save_data {
            Some(s) if h.kind.has_battery => {
                if s.len() == h.ram_size {
                    slice_to_vec(s)
                } else if h.kind.has_rtc && s.len() == h.ram_size + RTC_TAIL_SIZE {
                    let n: usize = h.ram_size;
                    let rtc = RtcRegisters {
                        seconds: s[n],
                        minutes: s[n + 1],
                        hours: s[n + 2],
                        days_low: s[n + 3],
                        days_high: s[n + 4],
                    };
                    assert(rtc == rtc_from_bytes(s@.subrange(n as int, n + 5)));
                    mapper = match mapper {
                        MapperKind::Mbc3(m) => MapperKind::Mbc3(
                            Mbc3 {
                                ram_enable: m.ram_enable,
                                rom_bank: m.rom_bank,
                                select: m.select,
                                rtc,
                                latched: rtc,
                                latch_armed: m.latch_armed,
                            },
                        ),
                        other => other,
                    };
                    rtc_timestamp = u64_from_le_bytes(slice_subrange(s, n + 5, n + 13));
                    slice_to_vec(slice_subrange(s, 0, n))
                } else {
                    return Err(RomParserError::InvalidSaveSize);
                }
            },
            _ => {
                let zeroed: Vec<u8> = vec![0u8; h.ram_size];
                assert(zeroed@ =~= Seq::new(h.ram_size as nat, |i: int| 0u8));
                zeroed
            },
        };
        Ok(Cartridge { header: h, rom: slice_to_vec(rom), ram, mapper, rtc_timestamp, dirty: false })
    }

    /// Reads the byte at `addr` through the controller.
    pub fn read(&self, addr: u16) -> (r: u8)
        ensures
            r == self@.read(addr),
    {
        match self.mapper.map_read(addr) {
            CartridgeReadTarget::Rom(offset) => {
                if self.header.rom_size > 0 && offset % self.header.rom_size < self.rom.len() {
                    self.rom[offset % self.header.rom_size]
                } else {
                    0xFF
                }
            },
            CartridgeReadTarget::Ram(offset) => {
                if self.ram.len() == 0 {
                    0xFF
                } else {
                    let byte: u8 = self.ram[offset % self.ram.len()];
                    match self.header.kind.mapper {
                        MapperType::Mbc2 => byte % 16 + 0xF0,
                        _ => byte,
                    }
                }
            },
            CartridgeReadTarget::OpenBus(byte) => byte,
        }
    }

    /// Writes `data` to `addr` through the controller.
    pub fn write(&mut self, addr: u16, data: u8)
        ensures
            final(self)@ == old(self)@.write(addr, data),
    {
        match self.mapper.map_write(addr, data) {
            Some(offset) => {
                let len: usize = self.ram.len();
                if len > 0 {
                    self.ram[offset % len] = data;
                    self.dirty = true;
                }
            },
            None => {},
        }
    }

    /// The bytes to keep in a save file, where the cartridge has a battery.
    pub fn get_save_data(&self) -> (r: Option<Vec<u8>>)
        ensures
            match self@.save_data() {
                Some(bytes) => r.is_some() && r.unwrap()@ == bytes,
                None => r.is_none(),
            },
    {
        if !self.header.kind.has_battery {
            return None;
        }
        let mut out: Vec<u8> = slice_to_vec(self.ram.as_slice());
        if self.header.kind.has_rtc {
            let rtc = match self.mapper {
                MapperKind::Mbc3(m) => m.rtc,
                _ => RtcRegisters::new(),
            };
            out.push(rtc.seconds);
            out.push(rtc.minutes);
            out.push(rtc.hours);
            out.push(rtc.days_low);
            out.push(rtc.days_high);
            let mut stamp = u64_to_le_bytes(self.rtc_timestamp);
            out.append(&mut stamp);
            assert(out@ =~= self@.save_data().unwrap());
        }
        Some(out)
    }

    /// Moves the cartridge's clock, where it has one, on by one second.
    pub fn tick_second(&mut self)
        ensures
            final(self)@ == old(self)@.tick_second(),
    {
        match &mut self.mapper {
            MapperKind::Mbc3(m) => m.tick(),
            _ => {},
        }
    }

    /// Sets the timestamp that the next save file will hold.
    pub fn set_rtc_timestamp(&mut self, timestamp: u64)
        ensures
            final(self)@ == (CartridgeView { rtc_timestamp: timestamp, ..old(self)@ }),
    {
        self.rtc_timestamp = timestamp;
    }
}

} // verus!

verus! {

/// A cartridge as `load` leaves it stands by its header: the RAM has the size the
/// header gives, and only an MBC3 carries a clock.
pub open spec fn consistent(c: CartridgeView) -> bool {
    &&& header::parse_header_spec(c.rom) == Ok::<CartridgeHeader, RomParserError>(c.header)
    &&& c.ram.len() == c.header.ram_size
    &&& (c.header.kind.mapper == MapperType::Mbc3) == (c.mapper is Mbc3)
}

/// Every cartridge that loads is consistent, and writes and the clock keep it so.
pub proof fn lemma_load_is_consistent(rom: Seq<u8>, save: Option<Seq<u8>>, addr: u16, data: u8)
    requires
        CartridgeView::load(rom, save) is Ok,
    ensures
        consistent(CartridgeView::load(rom, save).unwrap()),
        consistent(CartridgeView::load(rom, save).unwrap().write(addr, data)),
        consistent(CartridgeView::load(rom, save).unwrap().tick_second()),
{
}

/// Loading a save file and saving at once gives the file back, byte for byte. Where
/// a cartridge with a clock loads a file without the clock's bytes, the RAM part of
/// the new file is the old file.
pub proof fn lemma_load_save_round_trip(rom: Seq<u8>, save: Seq<u8>)
    requires
        CartridgeView::load(rom, Some(save)) is Ok,
        CartridgeView::load(rom, Some(save)).unwrap().header.kind.has_battery,
    ensures
        ({
            let c = CartridgeView::load(rom, Some(save)).unwrap();
            &&& c.save_data() is Some
            &&& c.ram == save.subrange(0, c.header.ram_size as int)
            &&& c.save_data().unwrap().subrange(0, c.header.ram_size as int) == c.ram
            &&& (!c.header.kind.has_rtc || save.len() == c.header.ram_size + RTC_TAIL_SIZE)
                ==> c.save_data() == Some(save)
        }),
{
    let c = CartridgeView::load(rom, Some(save)).unwrap();
    let n = c.header.ram_size as int;
    vstd::bytes::lemma_auto_spec_u64_to_from_le_bytes();
    assert(c.ram =~= save.subrange(0, n));
    assert(c.save_data().unwrap().subrange(0, n) =~= c.ram);
    if c.header.kind.has_rtc && save.len() == n + RTC_TAIL_SIZE {
        let stamp = save.subrange(n + 5, n + 13);
        assert(spec_u64_to_le_bytes(spec_u64_from_le_bytes(stamp)) == stamp);
        assert(c.save_data().unwrap() =~= save);
    } else if !c.header.kind.has_rtc {
        assert(c.ram =~= save);
    }
}

/// Saving a cartridge, loading the file with the same image and saving again gives
/// the same file, and the loaded cartridge holds the same RAM.
pub proof fn lemma_save_load_save_round_trip(c: CartridgeView)
    requires
        consistent(c),
        c.header.kind.has_battery,
    ensures
        c.save_data() is Some,
        CartridgeView::load(c.rom, c.save_data()) is Ok,
        CartridgeView::load(c.rom, c.save_data()).unwrap().ram == c.ram,
        CartridgeView::load(c.rom, c.save_data()).unwrap().save_data() == c.save_data(),
{
    let save = c.save_data().unwrap();
    let n = c.header.ram_size as int;
    vstd::bytes::lemma_auto_spec_u64_to_from_le_bytes();
    let loaded = CartridgeView::load(c.rom, Some(save)).unwrap();
    if c.header.kind.has_rtc {
        assert(spec_u64_to_le_bytes(c.rtc_timestamp).len() == 8);
        assert(save.len() == n + RTC_TAIL_SIZE);
        assert(save.subrange(0, n) =~= c.ram);
        assert(save.subrange(n, n + 5) =~= rtc_bytes(clock_of(c.mapper)));
        assert(save.subrange(n + 5, n + 13) =~= spec_u64_to_le_bytes(c.rtc_timestamp));
        assert(loaded.rtc_timestamp == c.rtc_timestamp);
        assert(clock_of(loaded.mapper) == clock_of(c.mapper));
        assert(loaded.save_data().unwrap() =~= save);
    } else {
        assert(save =~= c.ram);
        assert(loaded.ram =~= c.ram);
    }
}

/// The most seconds a cartridge's clock is moved on at once: 512 days, after
/// which its day counter has come round.
pub const MAX_CATCH_UP: u64 = 44236800;

/// The seconds by which a clock last saved at `saved` is behind at `now`: none
/// where no time was saved or the time saved is not in the past, and at most
/// `MAX_CATCH_UP`.
pub open spec fn seconds_behind(saved: u64, now: u64) -> nat {
    if saved == 0 || now <= saved {
        0
    } else if now - saved > MAX_CATCH_UP {
        MAX_CATCH_UP as nat
    } else {
        (now - saved) as nat
    }
}

impl CartridgeView {
    /// The cartridge `n` seconds later.
    pub open spec fn ticked(self, n: nat) -> CartridgeView
        decreases n,
    {
        if n == 0 {
            self
        } else {
            self.ticked((n - 1) as nat).tick_second()
        }
    }

    /// The cartridge with its clock made up for the time that passed between the
    /// timestamp it holds and `now`, and holding `now` as its timestamp where the
    /// clock was moved on.
    pub open spec fn caught_up(self, now: u64) -> CartridgeView {
        CartridgeView {
            rtc_timestamp: if seconds_behind(self.rtc_timestamp, now) > 0 {
                now
            } else {
                self.rtc_timestamp
            },
            ..self.ticked(seconds_behind(self.rtc_timestamp, now))
        }
    }
}

impl Cartridge {
    /// Makes the cartridge's clock up for the time that passed since its timestamp
    /// was set. `now` is the present time on the scale of that timestamp, in seconds.
    pub fn catch_up(&mut self, now: u64)
        ensures
            final(self)@ == old(self)@.caught_up(now),
    {
        let saved: u64 = self.rtc_timestamp;
        if saved == 0 || now <= saved {
            return ;
        }
        let behind: u64 = if now - saved > MAX_CATCH_UP {
            MAX_CATCH_UP
        } else {
            now - saved
        };
        let mut i: u64 = 0;
        while i < behind
            invariant
                i <= behind,
                self@ == old(self)@.ticked(i as nat),
            decreases behind - i,
        {
            self.tick_second();
            i = i + 1;
        }
        self.rtc_timestamp = now;
    }
}

} // verus!
