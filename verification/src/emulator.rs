//! The whole machine and its master clock.

pub mod frame_laws;
pub mod laws;

use vstd::prelude::*;
use crate::bus::{Bus, BusView};
use crate::cartridge::{slice_view, Cartridge, CartridgeView, RomParserError};
use crate::cpu::disassembler::{list_instructions, listing};
use crate::cpu::{Cpu, Machine};
use crate::joypad_state::JoypadState;
use crate::ppu::{Frame, Ppu, FRAME_BYTES};
use crate::serial::{SerialPortView, SerialTransport, TransportError};

verus! {

/// The ticks of the master clock in one second.
pub const TICKS_PER_SECOND: u32 = 4194304;

/// The machine.
pub struct Emulator {
    pub cpu: Cpu,
    pub bus: Bus,
    /// The ticks since the processor last ran a machine cycle.
    pub clock_count: u8,
    /// The ticks since the cartridge's clock was last moved on.
    pub second_count: u32,
}

/// The machine as a mathematical value.
#[verifier::ext_equal]
pub struct EmulatorView {
    pub cpu: Cpu,
    pub bus: BusView,
    pub clock_count: u8,
    pub second_count: u32,
}

impl View for Emulator {
    type V = EmulatorView;

    open spec fn view(&self) -> EmulatorView {
        EmulatorView {
            cpu: self.cpu,
            bus: self.bus@,
            clock_count: self.clock_count,
            second_count: self.second_count,
        }
    }
}

impl EmulatorView {
    /// The machine around a freshly loaded cartridge, as the start-up program
    /// leaves it.
    pub open spec fn around(cartridge: CartridgeView) -> EmulatorView {
        EmulatorView {
            cpu: Cpu::after_boot(),
            bus: BusView::initial(cartridge),
            clock_count: 0,
            second_count: 0,
        }
    }

    /// The machine that an image and a save file give, or why the image is turned
    /// down.
    pub open spec fn new(rom: Seq<u8>, save: Option<Seq<u8>>) -> Result<EmulatorView, RomParserError> {
        match CartridgeView::load(rom, save) {
            Ok(cartridge) => Ok(EmulatorView::around(cartridge)),
            Err(e) => Err(e),
        }
    }

    /// The ticks of the master clock in one machine cycle: four, or two at double
    /// speed.
    pub open spec fn ticks_per_cycle(self) -> int {
        if self.bus.speed.enabled {
            2
        } else {
            4
        }
    }

    /// Whether the processor runs a machine cycle in the tick that starts at this
    /// state.
    pub open spec fn runs_cycle(self) -> bool {
        self.clock_count + 1 >= self.ticks_per_cycle()
    }

    /// The machine after the cartridge's part of one tick: after each second's
    /// worth of ticks its clock moves on by one second.
    pub open spec fn tick_cartridge(self) -> EmulatorView {
        if self.second_count + 1 >= TICKS_PER_SECOND {
            EmulatorView {
                bus: BusView { cartridge: self.bus.cartridge.tick_second(), ..self.bus },
                second_count: 0,
                ..self
            }
        } else {
            EmulatorView { second_count: (self.second_count + 1) as u32, ..self }
        }
    }

    /// The machine after one machine cycle of the processor, the timer and the DMA
    /// unit, in that order.
    pub open spec fn run_cycle(self) -> EmulatorView {
        let m = (Machine { cpu: self.cpu, bus: self.bus }).clock();
        EmulatorView { cpu: m.cpu, bus: m.bus.tick_timer().tick_dma(), clock_count: 0, ..self }
    }

    /// The machine after one tick, the serial port left aside: the picture
    /// processing unit runs one dot, the cartridge's clock is counted on, and on
    /// every fourth tick, or every second at double speed, the processor, the timer
    /// and the DMA unit run one machine cycle.
    pub open spec fn tick_core(self) -> EmulatorView {
        let drawn = EmulatorView { bus: self.bus.tick_ppu(), ..self }.tick_cartridge();
        if self.runs_cycle() {
            drawn.run_cycle()
        } else {
            EmulatorView { clock_count: (self.clock_count + 1) as u8, ..drawn }
        }
    }

    /// The machine after the serial port's part of a tick in which the processor
    /// ran, given the port after it and whether it raised its interrupt.
    pub open spec fn with_serial(self, outcome: (SerialPortView, bool)) -> EmulatorView {
        EmulatorView { bus: self.bus.with_serial(outcome), ..self }
    }

    /// The machine after its finished frame, if there is one, was taken.
    pub open spec fn without_frame(self) -> EmulatorView {
        EmulatorView {
            bus: BusView { ppu: self.bus.ppu.ready_frame_spec(), ..self.bus },
            ..self
        }
    }

    /// The frame that the tick hands out: the one being drawn, when its last
    /// scanline has just ended.
    pub open spec fn finished_frame(self) -> Option<[u8; FRAME_BYTES]> {
        if self.bus.ppu.frame_ready {
            Some(self.bus.ppu.frame)
        } else {
            None
        }
    }

    /// The machine after one tick of the master clock with no serial transport: the
    /// serial port drives the printer.
    pub open spec fn clock(self) -> EmulatorView {
        let core = self.tick_core();
        let served = if self.runs_cycle() {
            core.with_serial(core.bus.serial.clock_printer())
        } else {
            core
        };
        served.without_frame()
    }

    /// Whether the serial port turns to the transport in the tick that starts at
    /// this state: the processor runs a machine cycle, and after it a transfer
    /// begins its first bit period with the bytes still to change hands.
    pub open spec fn turns_to_transport(self) -> bool {
        self.runs_cycle() && self.tick_core().bus.serial.wants_exchange()
    }

    /// The frame that a tick hands out. The serial port has no part in it.
    pub open spec fn clock_frame(self) -> Option<[u8; FRAME_BYTES]> {
        let core = self.tick_core();
        if self.runs_cycle() {
            core.with_serial(core.bus.serial.clock_printer()).finished_frame()
        } else {
            core.finished_frame()
        }
    }

    /// The machine after one tick of the master clock against a serial transport
    /// that answers a request to send with `sent` and one to receive with `received`.
    pub open spec fn clock_with(
        self,
        sent: Result<(), TransportError>,
        received: Result<u8, TransportError>,
    ) -> EmulatorView {
        let core = self.tick_core();
        let served = if self.runs_cycle() {
            core.with_serial(core.bus.serial.clock_with(sent, received))
        } else {
            core
        };
        served.without_frame()
    }
}

/// The frame in the box, where there is one.
pub open spec fn frame_view(frame: Option<Frame>) -> Option<[u8; FRAME_BYTES]> {
    match frame {
        Some(f) => Some(*f),
        None => None,
    }
}

impl Emulator {
    /// Builds the machine from a cartridge image and, where there is one, the
    /// cartridge's save file.
    pub fn new(rom: &[u8], save_data: Option<&[u8]>) -> (r: Result<Emulator, RomParserError>)
        ensures
            match EmulatorView::new(rom@, slice_view(save_data)) {
                Ok(v) => r.is_ok() && r.unwrap()@ == v,
                Err(e) => r == Err::<Emulator, RomParserError>(e),
            },
    {
        let cartridge = match Cartridge::load(rom, save_data) {
            Ok(cartridge) => cartridge,
            Err(e) => {
                return Err(e);
            },
        };
        let mut cpu = Cpu::new();
        cpu.pc = 0x0100;
        cpu.sp = 0xFFFE;
        Ok(Emulator { cpu, bus: Bus::new(cartridge), clock_count: 0, second_count: 0 })
    }

    fn tick_cartridge(&mut self)
        ensures
            final(self)@ == old(self)@.tick_cartridge(),
    {
        if self.second_count >= TICKS_PER_SECOND - 1 {
            self.bus.cartridge.tick_second();
            self.second_count = 0;
        } else {
            self.second_count = self.second_count + 1;
        }
    }

    fn run_cycle(&mut self)
        ensures
            final(self)@ == old(self)@.run_cycle(),
    {
        self.cpu.clock(&mut self.bus);
        self.bus.tick_timer();
        self.bus.tick_dma();
        self.clock_count = 0;
    }

    /// Runs one tick without the serial port. Returns whether the processor ran a
    /// machine cycle.
    fn tick_core(&mut self) -> (ran: bool)
        ensures
            final(self)@ == old(self)@.tick_core(),
            ran == old(self)@.runs_cycle(),
    {
        let per_cycle: u8 = if self.bus.speed.enabled {
            2
        } else {
            4
        };
        let runs: bool = self.clock_count >= per_cycle - 1;
        self.bus.tick_ppu();
        self.tick_cartridge();
        if runs {
            self.run_cycle();
        } else {
            self.clock_count = self.clock_count + 1;
        }
        runs
    }

    fn take_frame(&mut self) -> (r: Option<Frame>)
        ensures
            final(self)@ == old(self)@.without_frame(),
            frame_view(r) == old(self)@.finished_frame(),
    {
        self.bus.ppu.ready_frame()
    }

    fn serve_printer(&mut self)
        ensures
            final(self)@ == old(self)@.with_serial(old(self)@.bus.serial.clock_printer()),
    {
        let irq: bool = self.bus.serial.clock_printer();
        self.bus.raise_serial(irq);
    }

    fn serve_transport<T: SerialTransport>(&mut self, transport: &mut T)
        ensures
            exists|sent: Result<(), TransportError>, received: Result<u8, TransportError>|
                final(self)@ == old(self)@.with_serial(
                    #[trigger] old(self)@.bus.serial.clock_with(sent, received),
                ),
            !old(self)@.bus.serial.wants_exchange() ==> final(self)@ == old(self)@.with_serial(
                old(self)@.bus.serial.clock_with(Ok(()), Ok(0)),
            ),
            final(self)@.finished_frame() == old(self)@.finished_frame(),
    {
        let ghost before = self@;
        let irq: bool = self.bus.serial.clock(transport);
        proof {
            if !before.bus.serial.wants_exchange() {
                assert(self@.bus.with_serial((self@.bus.serial, irq)) == before.bus.with_serial(
                    before.bus.serial.clock_with(Ok(()), Ok(0)),
                ));
            }
        }
        proof {
            let (sent, received) = choose|
                sent: Result<(), TransportError>,
                received: Result<u8, TransportError>,
            | (self.bus.serial@, irq) == #[trigger] before.bus.serial.clock_with(sent, received);
            assert(self@.bus.with_serial((self@.bus.serial, irq)) == before.bus.with_serial(
                before.bus.serial.clock_with(sent, received),
            ));
        }
        self.bus.raise_serial(irq);
    }

    /// Advances the machine by one tick of the master clock. Hands out the frame
    /// when its last scanline has just ended. With no serial transport the serial
    /// port drives the printer.
    pub fn clock(&mut self) -> (r: Option<Frame>)
        ensures
            final(self)@ == old(self)@.clock(),
            frame_view(r) == old(self)@.clock_frame(),
    {
        if self.tick_core() {
            self.serve_printer();
        }
        self.take_frame()
    }

    /// Advances the machine by one tick of the master clock, the serial port
    /// turning to `transport`. Hands out the frame when its last scanline has just
    /// ended. What the transport answers is not known beforehand: the machine ends
    /// as `clock_with` says for the answers that came. On a tick in which the port
    /// does not turn to the transport the answers do not count.
    pub fn clock_with_transport<T: SerialTransport>(&mut self, transport: &mut T) -> (r: Option<
        Frame,
    >)
        ensures
            exists|sent: Result<(), TransportError>, received: Result<u8, TransportError>|
                final(self)@ == #[trigger] old(self)@.clock_with(sent, received),
            !old(self)@.turns_to_transport() ==> final(self)@ == old(self)@.clock_with(
                Ok(()),
                Ok(0),
            ),
            frame_view(r) == old(self)@.clock_frame(),
    {
        let ghost before = self@;
        if self.tick_core() {
            let ghost core = self@;
            self.serve_transport(transport);
            proof {
                let (sent, received) = choose|
                    sent: Result<(), TransportError>,
                    received: Result<u8, TransportError>,
                |
                    self@ == core.with_serial(#[trigger] core.bus.serial.clock_with(sent, received));
                let ghost served = self@;
                assert(served.without_frame() == before.clock_with(sent, received));
                if !before.turns_to_transport() {
                    assert(served.without_frame() == before.clock_with(Ok(()), Ok(0)));
                }
                assert(core.with_serial(core.bus.serial.clock_printer()).finished_frame()
                    == core.finished_frame());
            }
            self.take_frame()
        } else {
            assert(self@.without_frame() == before.clock_with(Ok(()), Ok(0)));
            self.take_frame()
        }
    }

    /// Sets which buttons are held down.
    pub fn set_joypad(&mut self, state: JoypadState)
        ensures
            final(self)@ == (EmulatorView { bus: old(self)@.bus.set_joypad(state), ..old(self)@ }),
    {
        self.bus.set_joypad(state);
    }

    /// The bytes to keep in a save file, where the cartridge has a battery.
    pub fn get_save_data(&self) -> (r: Option<Vec<u8>>)
        ensures
            match self@.bus.cartridge.save_data() {
                Some(bytes) => r.is_some() && r.unwrap()@ == bytes,
                None => r.is_none(),
            },
    {
        self.bus.cartridge.get_save_data()
    }

    /// The bytes the processor would read at the addresses from `start` to `end`,
    /// both included.
    pub fn mem_dump(&self, start: u16, end: u16) -> (data: Vec<u8>)
        ensures
            data@.len() == (if start <= end {
                end - start + 1
            } else {
                0
            }),
            forall|i: int| 0 <= i < data@.len() ==> data@[i] == self@.bus.read((start + i) as u16),
    {
        let mut data: Vec<u8> = Vec::new();
        if start > end {
            return data;
        }
        let mut addr: u16 = start;
        while addr < end
            invariant
                start <= addr <= end,
                data@.len() == addr - start,
                forall|i: int|
                    0 <= i < data@.len() ==> data@[i] == self@.bus.read((start + i) as u16),
            decreases end - addr,
        {
            data.push(self.bus.read(addr));
            addr = addr + 1;
        }
        data.push(self.bus.read(end));
        data
    }

    /// Lists the instructions that the processor would read from `start` to `end`:
    /// for each its address and its name in assembly language. The bank of an
    /// instruction is not told.
    pub fn disassemble(&self, start: u16, end: u16) -> (r: Vec<(Option<u8>, u16, String)>)
        ensures
            r@.len() == listing(self@.bus, start as int, end as int).len(),
            forall|i: int|
                0 <= i < r@.len() ==> {
                    let line = listing(self@.bus, start as int, end as int)[i];
                    &&& (#[trigger] r@[i]).0 is None
                    &&& r@[i].1 == line.address
                    &&& r@[i].2@ == line.opcode.mnemonic_spec()
                },
    {
        let lines = list_instructions(&self.bus, start, end);
        let mut out: Vec<(Option<u8>, u16, String)> = Vec::new();
        let mut i: usize = 0;
        while i < lines.len()
            invariant
                i <= lines.len(),
                out@.len() == i,
                forall|j: int|
                    0 <= j < i ==> {
                        &&& (#[trigger] out@[j]).0 is None
                        &&& out@[j].1 == lines@[j].address
                        &&& out@[j].2@ == lines@[j].opcode.mnemonic_spec()
                    },
            decreases lines.len() - i,
        {
            let text: String = lines[i].opcode.mnemonic().to_owned();
            out.push((None, lines[i].address, text));
            i = i + 1;
        }
        out
    }

    /// The processor.
    pub fn cpu(&self) -> (r: &Cpu)
        ensures
            *r == self@.cpu,
    {
        &self.cpu
    }

    /// Hands out what the serial port's printer has flushed so far and forgets it.
    pub fn take_serial_output(&mut self) -> (r: Vec<u8>)
        ensures
            r@ == old(self)@.bus.serial.output,
            final(self)@ == (EmulatorView {
                bus: BusView { serial: old(self)@.bus.serial.without_output(), ..old(self)@.bus },
                ..old(self)@
            }),
    {
        self.bus.serial.take_output()
    }
}

} // verus!
