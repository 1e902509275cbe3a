//! The bus: everything the processor reaches through an address, and the route
//! from each address to the part that owns it.

pub mod laws;

use vstd::prelude::*;
use crate::cartridge::{Cartridge, CartridgeReadTarget, CartridgeView, Mapper, MapperType};
use crate::cgb_double_speed::CgbDoubleSpeed;
use crate::interrupt::{Interrupt, InterruptState};
use crate::joypad_state::JoypadState;
use crate::ppu::Ppu;
use crate::serial::{SerialPort, SerialPortView};
use crate::timer::Timer;

verus! {

/// The size of one bank of work RAM.
pub const WRAM_BANK_SIZE: u16 = 0x1000;

/// The number of bytes an OAM DMA copies.
pub const DMA_LENGTH: u8 = 160;

/// The unit that copies 160 bytes into the sprite table, one each machine cycle.
#[derive(Clone, Copy, Debug, PartialEq, Eq, Structural)]
pub struct OamDma {
    pub active: bool,
    /// The high byte of the address the copy reads from.
    pub source: u8,
    /// The number of bytes copied so far.
    pub index: u8,
}

/// All hardware but the processor.
pub struct Bus {
    pub cartridge: Cartridge,
    pub ppu: Ppu,
    /// Eight banks of 4 KiB. Without the Color hardware only the first two are used.
    pub wram: [u8; 0x8000],
    pub hram: [u8; 0x7F],
    pub interrupts: InterruptState,
    pub timer: Timer,
    pub serial: SerialPort,
    pub joypad_state: JoypadState,
    /// The byte last written to 0xFF00.
    pub joypad_register: u8,
    pub dma: OamDma,
    /// SVBK as last written.
    pub wram_bank: u8,
    pub speed: CgbDoubleSpeed,
    /// Whether the hardware is that of the Color model.
    pub cgb: bool,
}

/// The bus as a mathematical value.
#[verifier::ext_equal]
pub struct BusView {
    pub cartridge: CartridgeView,
    pub ppu: Ppu,
    pub wram: [u8; 0x8000],
    pub hram: [u8; 0x7F],
    pub interrupts: InterruptState,
    pub timer: Timer,
    pub serial: SerialPortView,
    pub joypad_state: JoypadState,
    pub joypad_register: u8,
    pub dma: OamDma,
    pub wram_bank: u8,
    pub speed: CgbDoubleSpeed,
    pub cgb: bool,
}

impl View for Bus {
    type V = BusView;

    open spec fn view(&self) -> BusView {
        BusView {
            cartridge: self.cartridge@,
            ppu: self.ppu,
            wram: self.wram,
            hram: self.hram,
            interrupts: self.interrupts,
            timer: self.timer,
            serial: self.serial@,
            joypad_state: self.joypad_state,
            joypad_register: self.joypad_register,
            dma: self.dma,
            wram_bank: self.wram_bank,
            speed: self.speed,
            cgb: self.cgb,
        }
    }
}

/// Whether `addr` lies in the work RAM or its echo.
pub open spec fn is_wram(addr: u16) -> bool {
    0xC000 <= addr <= 0xFDFF
}

/// Whether `addr` lies in the high RAM.
pub open spec fn is_hram(addr: u16) -> bool {
    0xFF80 <= addr <= 0xFFFE
}

/// Whether `addr` lies in the cartridge's ROM or RAM window.
pub open spec fn is_cartridge(addr: u16) -> bool {
    addr <= 0x7FFF || 0xA000 <= addr <= 0xBFFF
}

/// Whether `addr` names a register of the picture processing unit.
pub open spec fn is_ppu_register(addr: u16) -> bool {
    (0xFF40 <= addr <= 0xFF4B && addr != 0xFF46) || addr == 0xFF4F || 0xFF68 <= addr <= 0xFF6B
}

/// The work RAM bank seen at 0xD000 to 0xDFFF: the one SVBK names on the Color
/// hardware, with bank 1 for 0; bank 1 elsewhere.
pub open spec fn selected_wram_bank(cgb: bool, register: u8) -> int {
    if cgb && register % 8 != 0 {
        register as int % 8
    } else {
        1
    }
}

/// The place in the work RAM array of an address of the work RAM or its echo.
/// 0xC000 to 0xCFFF is bank 0, 0xD000 to 0xDFFF the selected bank; 0xE000 to 0xFDFF
/// repeats 0xC000 to 0xDDFF.
pub open spec fn wram_index(cgb: bool, register: u8, addr: u16) -> int {
    let offset = (addr - 0xC000) % 0x2000;
    if offset < 0x1000 {
        offset
    } else {
        selected_wram_bank(cgb, register) * 0x1000 + offset - 0x1000
    }
}

impl BusView {
    /// What is read at `addr` when nothing stands in the way.
    #[verifier::opaque]
    pub open spec fn read_unblocked(self, addr: u16) -> u8 {
        if is_cartridge(addr) {
            self.cartridge.read(addr)
        } else if addr <= 0x9FFF {
            self.ppu.read_vram_spec(addr)
        } else if is_wram(addr) {
            self.wram[wram_index(self.cgb, self.wram_bank, addr)]
        } else if addr <= 0xFE9F {
            self.ppu.read_oam_spec(addr, false)
        } else if addr <= 0xFEFF {
            0xFF
        } else if addr == 0xFF00 {
            self.joypad_state.read_spec(self.joypad_register)
        } else if addr == 0xFF01 {
            self.serial.buffer
        } else if addr == 0xFF02 {
            self.serial.control
        } else if 0xFF04 <= addr <= 0xFF07 {
            self.timer.read_spec(addr)
        } else if addr == 0xFF0F {
            self.interrupts.read_status_spec()
        } else if addr == 0xFF46 {
            self.dma.source
        } else if addr == 0xFF4D {
            if self.cgb {
                self.speed.bits_spec()
            } else {
                0xFF
            }
        } else if is_ppu_register(addr) {
            self.ppu.read_spec(addr)
        } else if addr == 0xFF70 {
            if self.cgb {
                (0xF8 + self.wram_bank % 8) as u8
            } else {
                0xFF
            }
        } else if is_hram(addr) {
            self.hram[addr - 0xFF80]
        } else if addr == 0xFFFF {
            self.interrupts.read_enable_spec()
        } else {
            0xFF
        }
    }

    /// What the processor reads at `addr`. While an OAM DMA runs it reaches only
    /// the high RAM; everything else reads 0xFF.
    pub open spec fn read(self, addr: u16) -> u8 {
        if self.dma.active && !is_hram(addr) {
            0xFF
        } else {
            self.read_unblocked(addr)
        }
    }

    /// The bus after a write to 0xFF00: the select bits are kept, and an input line
    /// that the new selection pulls low raises the JOYPAD interrupt.
    pub open spec fn write_joypad(self, data: u8) -> BusView {
        BusView {
            joypad_register: data,
            interrupts: if self.joypad_state.falling_edge(
                self.joypad_register,
                self.joypad_state,
                data,
            ) {
                self.interrupts.request_spec(Interrupt::Joypad)
            } else {
                self.interrupts
            },
            ..self
        }
    }

    /// The bus after the processor wrote `data` to `addr`. Writes to addresses that
    /// nothing owns are dropped.
    #[verifier::opaque]
    pub open spec fn write(self, addr: u16, data: u8) -> BusView {
        if is_cartridge(addr) {
            BusView { cartridge: self.cartridge.write(addr, data), ..self }
        } else if addr <= 0x9FFF {
            BusView { ppu: self.ppu.write_vram_spec(addr, data), ..self }
        } else if is_wram(addr) {
            BusView {
                wram: vstd::array::spec_array_update(
                    self.wram,
                    wram_index(self.cgb, self.wram_bank, addr),
                    data,
                ),
                ..self
            }
        } else if addr <= 0xFE9F {
            BusView { ppu: self.ppu.write_oam_spec(addr, data, false), ..self }
        } else if addr <= 0xFEFF {
            self
        } else if addr == 0xFF00 {
            self.write_joypad(data)
        } else if addr == 0xFF01 {
            BusView { serial: self.serial.set_buffer(data), ..self }
        } else if addr == 0xFF02 {
            BusView { serial: self.serial.set_control(data), ..self }
        } else if 0xFF04 <= addr <= 0xFF07 {
            BusView { timer: self.timer.write_spec(addr, data), ..self }
        } else if addr == 0xFF0F {
            BusView { interrupts: self.interrupts.write_status_spec(data), ..self }
        } else if addr == 0xFF46 {
            BusView { dma: OamDma { active: true, source: data, index: 0 }, ..self }
        } else if addr == 0xFF4D {
            if self.cgb {
                BusView { speed: self.speed.write_spec(data), ..self }
            } else {
                self
            }
        } else if is_ppu_register(addr) {
            BusView { ppu: self.ppu.write_spec(addr, data), ..self }
        } else if addr == 0xFF70 {
            if self.cgb {
                BusView { wram_bank: data % 8, ..self }
            } else {
                self
            }
        } else if is_hram(addr) {
            BusView { hram: vstd::array::spec_array_update(self.hram, addr - 0xFF80, data), ..self }
        } else if addr == 0xFFFF {
            BusView { interrupts: self.interrupts.write_enable_spec(data), ..self }
        } else {
            self
        }
    }

    /// The address the running DMA reads next.
    pub open spec fn dma_source(self) -> u16 {
        ((self.dma.source * 0x100 + self.dma.index) % 0x10000) as u16
    }

    /// The bus after one machine cycle of the DMA unit: a running copy moves one
    /// byte into the sprite table, past any block, and ends after the 160th.
    pub open spec fn tick_dma(self) -> BusView {
        if self.dma.active && self.dma.index < DMA_LENGTH {
            BusView {
                ppu: self.ppu.write_oam_spec(
                    (0xFE00 + self.dma.index) as u16,
                    self.read_unblocked(self.dma_source()),
                    true,
                ),
                dma: OamDma {
                    active: self.dma.index + 1 < DMA_LENGTH,
                    index: (self.dma.index + 1) as u8,
                    ..self.dma
                },
                ..self
            }
        } else {
            BusView { dma: OamDma { active: false, ..self.dma }, ..self }
        }
    }

    /// The bus after one machine cycle of the timer.
    pub open spec fn tick_timer(self) -> BusView {
        BusView {
            timer: self.timer.tick_spec(),
            interrupts: if self.timer.overflows() {
                self.interrupts.request_spec(Interrupt::Timer)
            } else {
                self.interrupts
            },
            ..self
        }
    }

    /// The bus after one dot of the picture processing unit.
    pub open spec fn tick_ppu(self) -> BusView {
        let (ppu, interrupts) = self.ppu.clock_spec(self.interrupts);
        BusView { ppu, interrupts, ..self }
    }

    /// The bus after one machine cycle of the serial port, given the port after
    /// that cycle and whether it raised its interrupt.
    pub open spec fn with_serial(self, outcome: (SerialPortView, bool)) -> BusView {
        BusView {
            serial: outcome.0,
            interrupts: if outcome.1 {
                self.interrupts.request_spec(Interrupt::Serial)
            } else {
                self.interrupts
            },
            ..self
        }
    }

    /// The bus after the buttons changed: a button of a selected group that goes
    /// down raises the JOYPAD interrupt.
    pub open spec fn set_joypad(self, state: JoypadState) -> BusView {
        BusView {
            joypad_state: state,
            interrupts: if self.joypad_state.falling_edge(
                self.joypad_register,
                state,
                self.joypad_register,
            ) {
                self.interrupts.request_spec(Interrupt::Joypad)
            } else {
                self.interrupts
            },
            ..self
        }
    }
}

} // verus!

verus! {

impl BusView {
    /// The bus around a freshly loaded cartridge, as the start-up program leaves it.
    pub open spec fn initial(cartridge: CartridgeView) -> BusView {
        BusView {
            cartridge,
            ppu: Ppu { cgb: cartridge.header.cgb, ..Ppu::initial() },
            wram: vstd::array::spec_array_fill_for_copy_type::<u8, 0x8000>(0u8),
            hram: vstd::array::spec_array_fill_for_copy_type::<u8, 0x7F>(0u8),
            interrupts: InterruptState::initial(),
            timer: Timer::initial(),
            serial: SerialPortView::initial(),
            joypad_state: JoypadState::released(),
            joypad_register: 0xFF,
            dma: OamDma { active: false, source: 0xFF, index: 0 },
            wram_bank: 0,
            speed: CgbDoubleSpeed::base(),
            cgb: cartridge.header.cgb,
        }
    }
}

impl Bus {
    /// Builds the bus around a cartridge.
    pub fn new(cartridge: Cartridge) -> (r: Bus)
        ensures
            r@ == BusView::initial(cartridge@),
    {
        let cgb: bool = cartridge.header.cgb;
        let mut ppu = Ppu::new();
        ppu.cgb = cgb;
        Bus {
            cartridge,
            ppu,
            wram: [0u8; 0x8000],
            hram: [0u8; 0x7F],
            interrupts: InterruptState::default(),
            timer: Timer::new(),
            serial: SerialPort::new(),
            joypad_state: JoypadState::new(),
            joypad_register: 0xFF,
            dma: OamDma { active: false, source: 0xFF, index: 0 },
            wram_bank: 0,
            speed: CgbDoubleSpeed::default(),
            cgb,
        }
    }

    fn wram_offset(&self, addr: u16) -> (r: usize)
        requires
            is_wram(addr),
        ensures
            r == wram_index(self.cgb, self.wram_bank, addr),
            r < 0x8000,
    {
        let offset: u16 = (addr - 0xC000) % 0x2000;
        if offset < 0x1000 {
            offset as usize
        } else {
            let bank: usize = if self.cgb && self.wram_bank % 8 != 0 {
                (self.wram_bank % 8) as usize
            } else {
                1
            };
            bank * 0x1000 + (offset - 0x1000) as usize
        }
    }

    /// Reads `addr` with nothing standing in the way, as the DMA unit does.
    pub fn read_unblocked(&self, addr: u16) -> (r: u8)
        ensures
            r == self@.read_unblocked(addr),
    {
        reveal(BusView::read_unblocked);
        match addr {
            0x0000..=0x7FFF => self.cartridge.read(addr),
            0x8000..=0x9FFF => self.ppu.read_vram(addr),
            0xA000..=0xBFFF => self.cartridge.read(addr),
            0xC000..=0xFDFF => self.wram[self.wram_offset(addr)],
            0xFE00..=0xFE9F => self.ppu.read_oam(addr, false),
            0xFEA0..=0xFEFF => 0xFF,
            0xFF00 => self.joypad_state.read(self.joypad_register),
            0xFF01 => self.serial.get_buffer(),
            0xFF02 => self.serial.get_control(),
            0xFF04..=0xFF07 => self.timer.read(addr),
            0xFF0F => self.interrupts.read_status(),
            0xFF46 => self.dma.source,
            0xFF4D => if self.cgb {
                self.speed.bits()
            } else {
                0xFF
            },
            0xFF40..=0xFF4B | 0xFF4F | 0xFF68..=0xFF6B => self.ppu.read(addr),
            0xFF70 => if self.cgb {
                0xF8 + self.wram_bank % 8
            } else {
                0xFF
            },
            0xFF80..=0xFFFE => self.hram[(addr - 0xFF80) as usize],
            0xFFFF => self.interrupts.read_enable(),
            _ => 0xFF,
        }
    }

    /// Reads `addr` as the processor does.
    pub fn read(&self, addr: u16) -> (r: u8)
        ensures
            r == self@.read(addr),
    {
        if self.dma.active && !(0xFF80 <= addr && addr <= 0xFFFE) {
            0xFF
        } else {
            self.read_unblocked(addr)
        }
    }

    fn write_joypad(&mut self, data: u8)
        ensures
            final(self)@ == old(self)@.write_joypad(data),
    {
        if self.joypad_state.raises_interrupt(self.joypad_register, &self.joypad_state, data) {
            self.interrupts.request(Interrupt::Joypad);
        }
        self.joypad_register = data;
    }

    /// Writes `data` to `addr` as the processor does.
    pub fn write(&mut self, addr: u16, data: u8)
        ensures
            final(self)@ == old(self)@.write(addr, data),
    {
        reveal(BusView::write);
        match addr {
            0x0000..=0x7FFF => self.cartridge.write(addr, data),
            0x8000..=0x9FFF => self.ppu.write_vram(addr, data),
            0xA000..=0xBFFF => self.cartridge.write(addr, data),
            0xC000..=0xFDFF => {
                let index: usize = self.wram_offset(addr);
                self.wram[index] = data;
            },
            0xFE00..=0xFE9F => self.ppu.write_oam(addr, data, false),
            0xFEA0..=0xFEFF => {},
            0xFF00 => self.write_joypad(data),
            0xFF01 => self.serial.set_buffer(data),
            0xFF02 => self.serial.set_control(data),
            0xFF04..=0xFF07 => self.timer.write(addr, data),
            0xFF0F => self.interrupts.write_status(data),
            0xFF46 => {
                self.dma = OamDma { active: true, source: data, index: 0 };
            },
            0xFF4D => {
                if self.cgb {
                    self.speed.write(data);
                }
            },
            0xFF40..=0xFF4B | 0xFF4F | 0xFF68..=0xFF6B => self.ppu.write(addr, data),
            0xFF70 => {
                if self.cgb {
                    self.wram_bank = data % 8;
                }
            },
            0xFF80..=0xFFFE => {
                self.hram[(addr - 0xFF80) as usize] = data;
            },
            0xFFFF => self.interrupts.write_enable(data),
            _ => {},
        }
    }

    /// Runs the DMA unit for one machine cycle.
    pub fn tick_dma(&mut self)
        ensures
            final(self)@ == old(self)@.tick_dma(),
    {
        if self.dma.active && self.dma.index < DMA_LENGTH {
            let source: u16 = (self.dma.source as u16 * 0x100).wrapping_add(self.dma.index as u16);
            let byte: u8 = self.read_unblocked(source);
            self.ppu.write_oam(0xFE00 + self.dma.index as u16, byte, true);
            self.dma.index = self.dma.index + 1;
            self.dma.active = self.dma.index < DMA_LENGTH;
        } else {
            self.dma.active = false;
        }
    }

    /// Runs the timer for one machine cycle.
    pub fn tick_timer(&mut self)
        ensures
            final(self)@ == old(self)@.tick_timer(),
    {
        if self.timer.tick() {
            self.interrupts.request(Interrupt::Timer);
        }
    }

    /// Runs the picture processing unit for one dot.
    pub fn tick_ppu(&mut self)
        ensures
            final(self)@ == old(self)@.tick_ppu(),
    {
        self.ppu.clock(&mut self.interrupts);
    }

    /// Sets which buttons are held down.
    pub fn set_joypad(&mut self, state: JoypadState)
        ensures
            final(self)@ == old(self)@.set_joypad(state),
    {
        if self.joypad_state.raises_interrupt(self.joypad_register, &state, self.joypad_register) {
            self.interrupts.request(Interrupt::Joypad);
        }
        self.joypad_state = state;
    }

    /// Requests the SERIAL interrupt where the port raised it.
    pub fn raise_serial(&mut self, irq: bool)
        ensures
            final(self)@ == old(self)@.with_serial((old(self)@.serial, irq)),
    {
        if irq {
            self.interrupts.request(Interrupt::Serial);
        }
    }
}

/// The addresses at which the bus behaves as plain memory: the work RAM and its
/// echo, and the high RAM.
pub open spec fn is_plain_ram(addr: u16) -> bool {
    is_wram(addr) || is_hram(addr)
}

/// A byte written to the work RAM, its echo or the high RAM is read back from the
/// same address, unless an OAM DMA keeps the processor from the work RAM.
pub proof fn lemma_ram_write_read(bus: BusView, addr: u16, data: u8)
    requires
        is_plain_ram(addr),
        !bus.dma.active || is_hram(addr),
    ensures
        bus.write(addr, data).read(addr) == data,
{
    broadcast use vstd::array::group_array_axioms;

    reveal(BusView::write);
    reveal(BusView::read_unblocked);

}

/// A write to the work RAM or the high RAM changes what is read in those
/// memories at that place only; the echo of the work RAM shows the same place.
pub proof fn lemma_ram_write_keeps_others(bus: BusView, addr: u16, data: u8, other: u16)
    requires
        is_plain_ram(addr),
        is_plain_ram(other),
        is_hram(addr) != is_hram(other) || (is_hram(addr) && addr != other) || (is_wram(addr)
            && is_wram(other) && wram_index(bus.cgb, bus.wram_bank, addr) != wram_index(
            bus.cgb,
            bus.wram_bank,
            other,
        )),
    ensures
        bus.write(addr, data).read_unblocked(other) == bus.read_unblocked(other),
        bus.write(addr, data).dma == bus.dma,
{
    broadcast use vstd::array::group_array_axioms;

    reveal(BusView::write);
    reveal(BusView::read_unblocked);

}

/// A byte written to the cartridge's RAM window is read back from the same
/// address where the controller passes both on to the RAM, the RAM is there, and
/// it is not the half-byte RAM of an MBC2.
pub proof fn lemma_cartridge_ram_write_read(bus: BusView, addr: u16, data: u8)
    requires
        0xA000 <= addr <= 0xBFFF,
        !bus.dma.active,
        bus.cartridge.ram.len() > 0,
        bus.cartridge.header.kind.mapper != MapperType::Mbc2,
        bus.cartridge.mapper.write_target(addr, data) is Some,
    ensures
        bus.write(addr, data).read(addr) == data,
{
    reveal(BusView::write);
    reveal(BusView::read_unblocked);
    let target = bus.cartridge.mapper.write_target(addr, data).unwrap();
    let after = bus.cartridge.write(addr, data);
    assert(after.mapper == bus.cartridge.mapper.after_write(addr, data));
    assert(after.mapper.read_target(addr) == CartridgeReadTarget::Ram(target));
}

} // verus!

verus! {

/// A write to the work RAM or the high RAM leaves alone what decides where such
/// addresses lead: the DMA unit, the bank register and the hardware model.
pub proof fn lemma_ram_write_keeps_routing(bus: BusView, addr: u16, data: u8)
    requires
        is_plain_ram(addr),
    ensures
        bus.write(addr, data).dma == bus.dma,
        bus.write(addr, data).cgb == bus.cgb,
        bus.write(addr, data).wram_bank == bus.wram_bank,
        bus.write(addr, data).interrupts == bus.interrupts,
{
    reveal(BusView::write);
}

/// Whether two bytes pushed from `sp` land in plain memory that the processor can
/// read back: both addresses lie in the work RAM or both in the high RAM, and no
/// OAM DMA keeps the processor from the work RAM.
pub open spec fn stack_in_ram(bus: BusView, sp: u16) -> bool {
    let first = ((sp - 1) % 0x10000) as u16;
    let second = ((sp - 2) % 0x10000) as u16;
    (is_hram(first) && is_hram(second)) || (is_wram(first) && is_wram(second) && !bus.dma.active)
}

/// Two bytes pushed where the stack lies in plain memory are read back as they
/// were written.
pub proof fn lemma_stack_write_read(bus: BusView, sp: u16, high: u8, low: u8)
    requires
        stack_in_ram(bus, sp),
    ensures
        ({
            let first = ((sp - 1) % 0x10000) as u16;
            let second = ((sp - 2) % 0x10000) as u16;
            let after = bus.write(first, high).write(second, low);
            &&& after.read(second) == low
            &&& after.read(first) == high
            &&& after.dma == bus.dma
            &&& after.interrupts == bus.interrupts
        }),
{
    let first = ((sp - 1) % 0x10000) as u16;
    let second = ((sp - 2) % 0x10000) as u16;
    let b1 = bus.write(first, high);
    lemma_ram_write_keeps_routing(bus, first, high);
    lemma_ram_write_read(bus, first, high);
    lemma_ram_write_keeps_routing(b1, second, low);
    lemma_ram_write_read(b1, second, low);
    lemma_ram_write_keeps_others(b1, second, low, first);
}

} // verus!
