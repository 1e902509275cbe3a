//! The serial port: registers SB and SC, and the shift clock behind them.
//!
//! A transfer moves one byte out and one byte in. It takes eight bit periods; the
//! bytes change hands with the transport at the start of the first one.

pub mod laws;

use vstd::prelude::*;

verus! {

/// The bit periods of one transfer.
pub const N_BIT_CYCLES: u8 = 8;

/// The machine cycles of one bit period at the normal rate of 8192 Hz.
pub const CPU_CYCLES: u8 = 128;

/// The machine cycles of one bit period at the fast rate of 262144 Hz.
pub const CPU_CYCLES_FAST: u8 = 4;

/// The longest line the printer keeps before it flushes.
pub const PRINT_LINE_SIZE: usize = 64;

/// The byte that ends a printed line.
pub const NEWLINE: u8 = 10;

/// Why a transport did not do what it was asked.
#[derive(Clone, Copy, Debug, PartialEq, Eq, Structural)]
pub enum TransportError {
    /// Nothing can be sent or received yet. This is no fault: the port waits.
    WouldBlock,
    /// The link is broken.
    Fault,
}

/// The other end of the serial link. A transport never waits: where it cannot
/// send or receive at once it answers `WouldBlock`.
pub trait SerialTransport {
    /// Hands one byte to the other end.
    fn send(&mut self, byte: u8) -> Result<(), TransportError>;

    /// Takes one byte from the other end.
    fn recv(&mut self) -> Result<u8, TransportError>;

    /// Drops the link after a fault, so that the next transfer opens it anew.
    fn reset(&mut self);
}

/// A link with nothing at its other end: what a master sends is lost and it reads
/// 0xFF back; a slave waits for ever.
#[derive(Clone, Copy, Debug, PartialEq, Eq, Structural)]
pub struct NullSerialTransport {
    /// A byte was sent and its answer not yet taken.
    pub sent: bool,
}

impl NullSerialTransport {
    /// A link with nothing sent yet.
    pub fn new() -> (r: NullSerialTransport)
        ensures
            !r.sent,
    {
        NullSerialTransport { sent: false }
    }
}

impl SerialTransport for NullSerialTransport {
    fn send(&mut self, byte: u8) -> (r: Result<(), TransportError>)
        ensures
            r.is_ok(),
            final(self).sent,
    {
        self.sent = true;
        Ok(())
    }

    fn recv(&mut self) -> (r: Result<u8, TransportError>)
        ensures
            old(self).sent ==> r == Ok::<u8, TransportError>(0xFF),
            !old(self).sent ==> r == Err::<u8, TransportError>(TransportError::WouldBlock),
            !final(self).sent,
    {
        if self.sent {
            self.sent = false;
            Ok(0xFF)
        } else {
            Err(TransportError::WouldBlock)
        }
    }

    fn reset(&mut self)
        ensures
            !final(self).sent,
    {
        self.sent = false;
    }
}

/// The serial port.
pub struct SerialPort {
    /// SB: the byte to send, and after a transfer the byte received.
    pub buffer: u8,
    /// SC: bit 7 starts a transfer and stays set while it runs, bit 1 selects the
    /// fast rate, bit 0 makes this end the master. The other bits are set.
    pub control: u8,
    /// Machine cycles into the current bit period.
    pub freq_downscale_cycle: u8,
    /// Bit periods of the current transfer that have passed, 0 to 7.
    pub bit_cycle: u8,
    /// The byte received, kept until the transfer ends.
    pub receive_latch: u8,
    /// How far the exchange with the transport has come: 0 nothing done, 1 the
    /// first half done, 2 both.
    pub exchange_step: u8,
    /// The line the printer is collecting.
    pub print_buffer: Vec<u8>,
    /// The lines the printer has flushed, each ended by a newline, until they are
    /// taken.
    pub output: Vec<u8>,
}

/// The serial port as a mathematical value.
#[verifier::ext_equal]
pub struct SerialPortView {
    pub buffer: u8,
    pub control: u8,
    pub freq_downscale_cycle: u8,
    pub bit_cycle: u8,
    pub receive_latch: u8,
    pub exchange_step: u8,
    pub print_buffer: Seq<u8>,
    pub output: Seq<u8>,
}

impl View for SerialPort {
    type V = SerialPortView;

    open spec fn view(&self) -> SerialPortView {
        SerialPortView {
            buffer: self.buffer,
            control: self.control,
            freq_downscale_cycle: self.freq_downscale_cycle,
            bit_cycle: self.bit_cycle,
            receive_latch: self.receive_latch,
            exchange_step: self.exchange_step,
            print_buffer: self.print_buffer@,
            output: self.output@,
        }
    }
}

/// SC as stored: of a written byte bits 7, 1 and 0 are kept, the rest are set.
pub open spec fn stored_control(data: u8) -> u8 {
    ((data / 128) * 128 + 0x7C + data % 4) as u8
}

impl SerialPortView {
    /// After power-up: no transfer, the fast bit set.
    pub open spec fn initial() -> SerialPortView {
        SerialPortView {
            buffer: 0,
            control: 0x7E,
            freq_downscale_cycle: 0,
            bit_cycle: 0,
            receive_latch: 0,
            exchange_step: 0,
            print_buffer: Seq::empty(),
            output: Seq::empty(),
        }
    }

    /// Whether a transfer runs: bit 7 of SC.
    pub open spec fn started(self) -> bool {
        self.control >= 128
    }

    /// Whether the fast rate is selected: bit 1 of SC.
    pub open spec fn fast(self) -> bool {
        (self.control / 2) % 2 == 1
    }

    /// Whether this end gives the clock: bit 0 of SC.
    pub open spec fn master(self) -> bool {
        self.control % 2 == 1
    }

    /// The machine cycles of one bit period.
    pub open spec fn period(self) -> int {
        if self.fast() {
            CPU_CYCLES_FAST as int
        } else {
            CPU_CYCLES as int
        }
    }

    /// Whether the machine cycle that starts at this state begins a bit period.
    pub open spec fn at_bit_boundary(self) -> bool {
        self.freq_downscale_cycle + 1 >= self.period()
    }

    /// Whether the machine cycle that starts at this state begins a bit period of a
    /// running transfer.
    pub open spec fn shifts(self) -> bool {
        self.at_bit_boundary() && self.started()
    }

    /// Whether the port turns to the transport in this machine cycle: a transfer
    /// begins its first bit period and the bytes have not changed hands yet.
    pub open spec fn wants_exchange(self) -> bool {
        self.shifts() && self.bit_cycle == 0 && self.exchange_step < 2
    }

    /// Whether the next thing the port asks of the transport is to send. A master
    /// sends first and receives second; a slave receives first and sends second.
    pub open spec fn sends_next(self) -> bool {
        self.master() == (self.exchange_step == 0)
    }

    /// The port after a write to SB.
    pub open spec fn set_buffer(self, data: u8) -> SerialPortView {
        SerialPortView { buffer: data, ..self }
    }

    /// The port after a write to SC. A write that sets the start bit begins a
    /// transfer from its first bit period.
    pub open spec fn set_control(self, data: u8) -> SerialPortView {
        if data >= 128 {
            SerialPortView {
                control: stored_control(data),
                freq_downscale_cycle: 0,
                bit_cycle: 0,
                exchange_step: 0,
                ..self
            }
        } else {
            SerialPortView { control: stored_control(data), ..self }
        }
    }

    /// The printer after it was given `byte`: the byte joins the line; a newline,
    /// or the line reaching its full length, flushes a line that is not empty to the
    /// output, ended by a newline.
    pub open spec fn print(self, byte: u8) -> SerialPortView {
        let line = if byte != NEWLINE {
            self.print_buffer.push(byte)
        } else {
            self.print_buffer
        };
        if (byte == NEWLINE || line.len() >= PRINT_LINE_SIZE) && line.len() > 0 {
            SerialPortView {
                print_buffer: Seq::empty(),
                output: self.output + line + seq![NEWLINE],
                ..self
            }
        } else {
            SerialPortView { print_buffer: line, ..self }
        }
    }

    /// The port with the divider moved on by one machine cycle.
    pub open spec fn divided(self) -> SerialPortView {
        SerialPortView {
            freq_downscale_cycle: if self.at_bit_boundary() {
                0
            } else {
                (self.freq_downscale_cycle + 1) as u8
            },
            ..self
        }
    }

    /// The port after one more bit period of a transfer whose bytes have changed
    /// hands, and whether the SERIAL interrupt is raised. After the eighth period
    /// the byte received is in SB, the start bit is clear and the interrupt is raised.
    pub open spec fn shifted(self) -> (SerialPortView, bool) {
        if self.bit_cycle + 1 >= N_BIT_CYCLES {
            (
                SerialPortView {
                    bit_cycle: 0,
                    exchange_step: 0,
                    buffer: self.receive_latch,
                    control: (self.control % 128) as u8,
                    ..self
                },
                true,
            )
        } else {
            (SerialPortView { bit_cycle: (self.bit_cycle + 1) as u8, ..self }, false)
        }
    }

    /// The port after the transport answered a request to send. A transport that
    /// would block leaves the port as it is; a fault abandons the transfer, which
    /// starts anew at the next bit period.
    pub open spec fn after_send(self, result: Result<(), TransportError>) -> SerialPortView {
        match result {
            Ok(_) => SerialPortView { exchange_step: (self.exchange_step + 1) as u8, ..self },
            Err(TransportError::WouldBlock) => self,
            Err(TransportError::Fault) => SerialPortView { exchange_step: 0, bit_cycle: 0, ..self },
        }
    }

    /// The port after the transport answered a request to receive.
    pub open spec fn after_recv(self, result: Result<u8, TransportError>) -> SerialPortView {
        match result {
            Ok(byte) => SerialPortView {
                exchange_step: (self.exchange_step + 1) as u8,
                receive_latch: byte,
                ..self
            },
            Err(TransportError::WouldBlock) => self,
            Err(TransportError::Fault) => SerialPortView { exchange_step: 0, bit_cycle: 0, ..self },
        }
    }

    /// The port after one answer of the transport to what the port asked next.
    pub open spec fn after_answer(
        self,
        sent: Result<(), TransportError>,
        received: Result<u8, TransportError>,
    ) -> SerialPortView {
        if self.sends_next() {
            self.after_send(sent)
        } else {
            self.after_recv(received)
        }
    }

    /// One machine cycle against a transport that answers a request to send with
    /// `sent` and a request to receive with `received`: the port, and whether the
    /// SERIAL interrupt is raised. The port asks only at the start of a transfer's
    /// first bit period, only for what is still to do, and for the second half only
    /// when the first was done. While the bytes have not both changed hands the
    /// transfer stalls.
    pub open spec fn clock_with(
        self,
        sent: Result<(), TransportError>,
        received: Result<u8, TransportError>,
    ) -> (SerialPortView, bool) {
        let ticked = self.divided();
        if !self.shifts() {
            (ticked, false)
        } else if self.bit_cycle != 0 || self.exchange_step >= 2 {
            ticked.shifted()
        } else {
            let first = ticked.after_answer(sent, received);
            let second = if first.exchange_step == 1 && ticked.exchange_step == 0 {
                first.after_answer(sent, received)
            } else {
                first
            };
            if second.exchange_step >= 2 {
                second.shifted()
            } else {
                (second, false)
            }
        }
    }

    /// One machine cycle with no transport, the port driving the printer: at the
    /// start of a transfer's first bit period the byte in SB is printed and 0xFF is
    /// received for it.
    pub open spec fn clock_printer(self) -> (SerialPortView, bool) {
        let ticked = self.divided();
        if !self.shifts() {
            (ticked, false)
        } else if self.bit_cycle != 0 {
            ticked.shifted()
        } else {
            (SerialPortView { receive_latch: 0xFF, ..ticked.print(self.buffer) }).shifted()
        }
    }

    /// The port after its printed output was taken.
    pub open spec fn without_output(self) -> SerialPortView {
        SerialPortView { output: Seq::empty(), ..self }
    }
}

} // verus!

verus! {

impl SerialPort {
    /// The port after power-up.
    pub fn new() -> (r: SerialPort)
        ensures
            r@ == SerialPortView::initial(),
    {
        SerialPort {
            buffer: 0,
            control: 0x7E,
            freq_downscale_cycle: 0,
            bit_cycle: 0,
            receive_latch: 0,
            exchange_step: 0,
            print_buffer: Vec::new(),
            output: Vec::new(),
        }
    }

    /// Writes SB.
    pub fn set_buffer(&mut self, data: u8)
        ensures
            final(self)@ == old(self)@.set_buffer(data),
    {
        self.buffer = data;
    }

    /// Reads SB.
    pub fn get_buffer(&self) -> (r: u8)
        ensures
            r == self@.buffer,
    {
        self.buffer
    }

    /// Writes SC.
    pub fn set_control(&mut self, data: u8)
        ensures
            final(self)@ == old(self)@.set_control(data),
    {
        self.control = (data / 128) * 128 + 0x7C + data % 4;
        if data >= 128 {
            self.freq_downscale_cycle = 0;
            self.bit_cycle = 0;
            self.exchange_step = 0;
        }
    }

    /// Reads SC.
    pub fn get_control(&self) -> (r: u8)
        ensures
            r == self@.control,
    {
        self.control
    }

    fn started(&self) -> (r: bool)
        ensures
            r == self@.started(),
    {
        self.control >= 128
    }

    fn master(&self) -> (r: bool)
        ensures
            r == self@.master(),
    {
        self.control % 2 == 1
    }

    /// Moves the divider on by one machine cycle. Returns whether a bit period begins.
    fn divide(&mut self) -> (boundary: bool)
        ensures
            final(self)@ == old(self)@.divided(),
            boundary == old(self)@.at_bit_boundary(),
    {
        let period: u8 = if (self.control / 2) % 2 == 1 {
            CPU_CYCLES_FAST
        } else {
            CPU_CYCLES
        };
        if self.freq_downscale_cycle >= period - 1 {
            self.freq_downscale_cycle = 0;
            true
        } else {
            self.freq_downscale_cycle = self.freq_downscale_cycle + 1;
            false
        }
    }

    /// Counts one bit period of a transfer whose bytes have changed hands.
    fn shift(&mut self) -> (irq: bool)
        ensures
            (final(self)@, irq) == old(self)@.shifted(),
    {
        if self.bit_cycle >= N_BIT_CYCLES - 1 {
            self.bit_cycle = 0;
            self.exchange_step = 0;
            self.buffer = self.receive_latch;
            self.control = self.control % 128;
            true
        } else {
            self.bit_cycle = self.bit_cycle + 1;
            false
        }
    }

    /// Takes the transport's answer to a request to send.
    fn handle_send(&mut self, result: Result<(), TransportError>)
        requires
            old(self)@.exchange_step < 2,
        ensures
            final(self)@ == old(self)@.after_send(result),
    {
        match result {
            Ok(_) => self.exchange_step = self.exchange_step + 1,
            Err(TransportError::WouldBlock) => {},
            Err(TransportError::Fault) => {
                self.exchange_step = 0;
                self.bit_cycle = 0;
            },
        }
    }

    /// Takes the transport's answer to a request to receive.
    fn handle_recv(&mut self, result: Result<u8, TransportError>)
        requires
            old(self)@.exchange_step < 2,
        ensures
            final(self)@ == old(self)@.after_recv(result),
    {
        match result {
            Ok(byte) => {
                self.exchange_step = self.exchange_step + 1;
                self.receive_latch = byte;
            },
            Err(TransportError::WouldBlock) => {},
            Err(TransportError::Fault) => {
                self.exchange_step = 0;
                self.bit_cycle = 0;
            },
        }
    }

    /// Gives one byte to the printer.
    pub fn print(&mut self, byte: u8)
        ensures
            final(self)@ == old(self)@.print(byte),
    {
        if byte != NEWLINE {
            self.print_buffer.push(byte);
        }
        if (byte == NEWLINE || self.print_buffer.len() >= PRINT_LINE_SIZE)
            && self.print_buffer.len() > 0 {
            self.output.append(&mut self.print_buffer);
            self.output.push(NEWLINE);
        }
    }

    /// Advances the port by one machine cycle against a transport whose answers are
    /// already known: `sent` to a request to send, `received` to a request to
    /// receive. Returns whether the SERIAL interrupt is raised.
    pub fn clock_events(
        &mut self,
        sent: Result<(), TransportError>,
        received: Result<u8, TransportError>,
    ) -> (irq: bool)
        ensures
            (final(self)@, irq) == old(self)@.clock_with(sent, received),
    {
        let started: bool = self.started();
        let boundary: bool = self.divide();
        if !(boundary && started) {
            return false;
        }
        if self.bit_cycle != 0 || self.exchange_step >= 2 {
            return self.shift();
        }
        let fresh: bool = self.exchange_step == 0;
        if self.master() == (self.exchange_step == 0) {
            self.handle_send(sent);
        } else {
            self.handle_recv(received);
        }
        if fresh && self.exchange_step == 1 {
            if self.master() == (self.exchange_step == 0) {
                self.handle_send(sent);
            } else {
                self.handle_recv(received);
            }
        }
        if self.exchange_step >= 2 {
            self.shift()
        } else {
            false
        }
    }

    /// Advances the port by one machine cycle, turning to `transport` where a
    /// transfer begins. Returns whether the SERIAL interrupt is raised. What the
    /// transport answers is not known beforehand: the port ends as `clock_events`
    /// leaves it for the answers that came.
    pub fn clock<T: SerialTransport>(&mut self, transport: &mut T) -> (irq: bool)
        ensures
            exists|sent: Result<(), TransportError>, received: Result<u8, TransportError>|
                (final(self)@, irq) == #[trigger] old(self)@.clock_with(sent, received),
            !old(self)@.wants_exchange() ==> (final(self)@, irq) == old(self)@.clock_with(
                Ok(()),
                Ok(0),
            ),
    {
        let mut sent: Result<(), TransportError> = Ok(());
        let mut received: Result<u8, TransportError> = Ok(0);
        let period: u8 = if (self.control / 2) % 2 == 1 {
            CPU_CYCLES_FAST
        } else {
            CPU_CYCLES
        };
        let wants: bool = self.freq_downscale_cycle >= period - 1 && self.started() && self.bit_cycle
            == 0 && self.exchange_step < 2;
        if wants {
            let fresh: bool = self.exchange_step == 0;
            let sends_first: bool = self.master() == fresh;
            if sends_first {
                sent = transport.send(self.buffer);
                if fresh && sent.is_ok() {
                    received = transport.recv();
                }
            } else {
                received = transport.recv();
                if fresh && received.is_ok() {
                    sent = transport.send(self.buffer);
                }
            }
            let faulted: bool = match (sent, received) {
                (Err(TransportError::Fault), _) => true,
                (_, Err(TransportError::Fault)) => true,
                _ => false,
            };
            if faulted {
                transport.reset();
            }
        }
        self.clock_events(sent, received)
    }

    /// Advances the port by one machine cycle with no transport: the port prints
    /// what it is told to send. Returns whether the SERIAL interrupt is raised.
    pub fn clock_printer(&mut self) -> (irq: bool)
        ensures
            (final(self)@, irq) == old(self)@.clock_printer(),
    {
        let started: bool = self.started();
        let byte: u8 = self.buffer;
        let boundary: bool = self.divide();
        if !(boundary && started) {
            return false;
        }
        if self.bit_cycle == 0 {
            self.print(byte);
            self.receive_latch = 0xFF;
        }
        self.shift()
    }

    /// Hands out what the printer has flushed so far and forgets it.
    pub fn take_output(&mut self) -> (r: Vec<u8>)
        ensures
            r@ == old(self)@.output,
            final(self)@ == old(self)@.without_output(),
    {
        let mut out: Vec<u8> = Vec::new();
        out.append(&mut self.output);
        out
    }
}

impl Default for SerialPort {
    fn default() -> (r: Self)
        ensures
            r@ == SerialPortView::initial(),
    {
        SerialPort::new()
    }
}

/// With nothing at the other end a master's transfer ends after its eighth bit
/// period with 0xFF in SB, the start bit clear and the interrupt raised.
pub proof fn lemma_last_bit_period_completes(port: SerialPortView)
    requires
        port.shifts(),
        port.bit_cycle == 7,
    ensures
        port.clock_with(Ok(()), Ok(0xFF)).1,
        port.clock_with(Ok(()), Ok(0xFF)).0.buffer == port.receive_latch,
        !port.clock_with(Ok(()), Ok(0xFF)).0.started(),
        port.clock_with(Ok(()), Ok(0xFF)).0.bit_cycle == 0,
{
}

/// A transport that would block stalls the transfer: the bit counter and the
/// start bit stay as they are, and no interrupt is raised.
pub proof fn lemma_would_block_stalls(port: SerialPortView, received: Result<u8, TransportError>)
    requires
        port.wants_exchange(),
        port.exchange_step == 0,
    ensures
        ({
            let blocked = if port.master() {
                port.clock_with(Err(TransportError::WouldBlock), received)
            } else {
                port.clock_with(Ok(()), Err(TransportError::WouldBlock))
            };
            &&& !blocked.1
            &&& blocked.0.bit_cycle == port.bit_cycle
            &&& blocked.0.started()
            &&& blocked.0.buffer == port.buffer
            &&& blocked.0.exchange_step == 0
        }),
{
}

} // verus!
