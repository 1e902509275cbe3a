use gband::cgb_double_speed::CgbDoubleSpeed;
use gband::interrupt::{Interrupt, InterruptReg, InterruptState};
use gband::joypad_state::JoypadState;
use gband::ppu::cgb_palette::CgbPalette;
use gband::ppu::fifo_mode::{DrawingState, FifoMode, OamScanState, PixelFetcherState};
use gband::ppu::pixel::{choose_sprite, grey, make_pixel, rgb555, shade, tile_row, Rgba};
use gband::ppu::pixel_fifo::PixelFifo;
use gband::ppu::Ppu;
use gband::serial::{NullSerialTransport, SerialPort, SerialTransport, TransportError};
use gband::timer::Timer;

#[test]
fn interrupt_registers() {
    let mut state = InterruptState::default();
    assert_eq!(state.read_status(), 0xE1);
    assert_eq!(state.read_enable(), 0x00);
    assert!(state.pending().is_none());
    state.write_enable(0xFF);
    assert_eq!(state.read_enable(), 0x1F);
    assert_eq!(state.pending(), Some(Interrupt::VBlank));
    state.request(Interrupt::Serial);
    state.request(Interrupt::Timer);
    state.acknowledge(Interrupt::VBlank);
    assert_eq!(state.read_status(), 0xEC);
    assert_eq!(state.pending(), Some(Interrupt::Timer));
    state.write_enable(0x18);
    assert_eq!(state.pending(), Some(Interrupt::Serial));
    state.acknowledge(Interrupt::Serial);
    assert!(state.pending().is_none());
    state.write_status(0xFF);
    assert_eq!(state.pending(), Some(Interrupt::Serial));
    for byte in 0..=255u8 {
        assert_eq!(InterruptReg::from_bits_truncate(byte).bits(), byte & 0x1F);
    }
    assert_eq!(InterruptReg::empty().bits(), 0);
    let vectors: Vec<u16> = [
        Interrupt::VBlank,
        Interrupt::LcdStat,
        Interrupt::Timer,
        Interrupt::Serial,
        Interrupt::Joypad,
    ]
    .iter()
    .map(|i| i.vector())
    .collect();
    assert_eq!(vectors, [0x40, 0x48, 0x50, 0x58, 0x60]);
}

#[test]
fn timer_rates() {
    for (tac, cycles) in [(0x04u8, 256u32), (0x05, 4), (0x06, 16), (0x07, 64)] {
        let mut timer = Timer::new();
        timer.write(0xFF07, tac);
        assert_eq!(timer.read(0xFF07), 0xF8 | tac);
        for _ in 0..cycles - 1 {
            assert!(!timer.tick());
        }
        assert_eq!(timer.read(0xFF05), 0);
        assert!(!timer.tick());
        assert_eq!(timer.read(0xFF05), 1);
    }
}

#[test]
fn timer_overflow_reloads_and_interrupts() {
    let mut timer = Timer::new();
    timer.write(0xFF07, 0x05);
    timer.write(0xFF06, 0xAB);
    timer.write(0xFF05, 0xFF);
    let mut raised = 0;
    for _ in 0..4 {
        if timer.tick() {
            raised += 1;
        }
    }
    assert_eq!(raised, 1);
    assert_eq!(timer.read(0xFF05), 0xAB);
    assert_eq!(timer.read(0xFF06), 0xAB);
    // a stopped timer stands still, the divider runs on
    let mut timer = Timer::default();
    for _ in 0..64 {
        assert!(!timer.tick());
    }
    assert_eq!(timer.read(0xFF05), 0);
    assert_eq!(timer.read(0xFF04), 1);
    timer.write(0xFF04, 0x55);
    assert_eq!(timer.read(0xFF04), 0);
    assert_eq!(timer.read(0xFF08), 0xFF);
}

#[test]
fn joypad_lines() {
    let mut state = JoypadState::new();
    assert_eq!(state.read(0x00), 0xCF);
    assert_eq!(state.read(0x30), 0xFF);
    state.right = true;
    state.start = true;
    assert_eq!(state.read(0x20), 0xEE);
    assert_eq!(state.read(0x10), 0xD7);
    assert_eq!(state.read(0x00), 0xC6);
    assert_eq!(state.read(0x30), 0xFF);
    let mut next = state;
    next.b = true;
    assert!(!state.raises_interrupt(0x20, &next, 0x20));
    assert!(state.raises_interrupt(0x10, &next, 0x10));
    assert!(!next.raises_interrupt(0x10, &state, 0x10));
    assert!(state.raises_interrupt(0x30, &state, 0x20));
}

#[test]
fn speed_register() {
    let mut speed = CgbDoubleSpeed::default();
    assert_eq!(speed.bits(), 0x7E);
    assert!(!speed.commit());
    speed.write(0xFF);
    assert_eq!(speed.bits(), 0x7F);
    assert!(speed.commit());
    assert_eq!(speed.bits(), 0xFE);
    speed.write(0x01);
    assert!(speed.commit());
    assert_eq!(speed.bits(), 0x7E);
}

#[test]
fn serial_registers() {
    let mut port = SerialPort::default();
    assert_eq!(port.get_control(), 0x7E);
    assert_eq!(port.get_buffer(), 0x00);
    port.set_control(0x00);
    assert_eq!(port.get_control(), 0x7C);
    port.set_control(0x83);
    assert_eq!(port.get_control(), 0xFF);
    port.set_buffer(0x5A);
    assert_eq!(port.get_buffer(), 0x5A);
}

#[test]
fn serial_master_transfer() {
    let mut port = SerialPort::new();
    port.set_buffer(0x12);
    port.set_control(0x81);
    let mut raised = 0;
    for cycle in 1..=8 * 128 {
        if port.clock_events(Ok(()), Ok(0x34)) {
            raised += 1;
            assert_eq!(cycle, 8 * 128);
        }
    }
    assert_eq!(raised, 1);
    assert_eq!(port.get_buffer(), 0x34);
    assert_eq!(port.get_control(), 0x7D);
    // with the fast bit a bit period is four machine cycles
    port.set_buffer(0x12);
    port.set_control(0x83);
    let mut cycles = 0;
    while !port.clock_events(Ok(()), Ok(0x56)) {
        cycles += 1;
    }
    assert_eq!(cycles + 1, 8 * 4);
    assert_eq!(port.get_buffer(), 0x56);
}

#[test]
fn serial_stalls_and_faults() {
    let mut port = SerialPort::new();
    port.set_buffer(0x12);
    port.set_control(0x80); // slave
    for _ in 0..10 * 128 {
        assert!(!port.clock_events(Ok(()), Err(TransportError::WouldBlock)));
    }
    assert_eq!(port.bit_cycle, 0);
    assert_eq!(port.get_buffer(), 0x12);
    assert_eq!(port.get_control() & 0x80, 0x80);
    // the byte arrives, but sending would block: the port waits with the byte in its latch
    for _ in 0..128 {
        assert!(!port.clock_events(Err(TransportError::WouldBlock), Ok(0x77)));
    }
    assert_eq!(port.exchange_step, 1);
    assert_eq!(port.bit_cycle, 0);
    // a fault abandons the transfer
    for _ in 0..128 {
        assert!(!port.clock_events(Err(TransportError::Fault), Ok(0x78)));
    }
    assert_eq!(port.exchange_step, 0);
    assert_eq!(port.bit_cycle, 0);
    assert_eq!(port.get_buffer(), 0x12);
    // the next bit period tries again
    let mut cycles = 0;
    while !port.clock_events(Ok(()), Ok(0x79)) {
        cycles += 1;
    }
    assert_eq!(cycles + 1, 8 * 128);
    assert_eq!(port.get_buffer(), 0x79);
}

struct Recorder {
    calls: Vec<String>,
    incoming: Vec<Result<u8, TransportError>>,
}

impl SerialTransport for Recorder {
    fn send(&mut self, byte: u8) -> Result<(), TransportError> {
        self.calls.push(format!("send {byte:02x}"));
        Ok(())
    }

    fn recv(&mut self) -> Result<u8, TransportError> {
        self.calls.push("recv".to_string());
        self.incoming.remove(0)
    }

    fn reset(&mut self) {
        self.calls.push("reset".to_string());
    }
}

#[test]
fn serial_asks_the_transport_in_order() {
    // master: sends first, receives second, and does not send again after a stall
    let mut transport =
        Recorder { calls: Vec::new(), incoming: vec![Err(TransportError::WouldBlock), Ok(0xA5)] };
    let mut port = SerialPort::new();
    port.set_buffer(0x3C);
    port.set_control(0x81);
    let mut cycles = 0;
    while !port.clock(&mut transport) {
        cycles += 1;
    }
    assert_eq!(transport.calls, ["send 3c", "recv", "recv"]);
    assert_eq!(cycles + 1, 9 * 128);
    assert_eq!(port.get_buffer(), 0xA5);
    // slave: receives first, sends second; a fault resets the transport
    let mut transport = Recorder {
        calls: Vec::new(),
        incoming: vec![Err(TransportError::Fault), Err(TransportError::WouldBlock), Ok(0x5A)],
    };
    let mut port = SerialPort::new();
    port.set_buffer(0x3C);
    port.set_control(0x80);
    while !port.clock(&mut transport) {}
    assert_eq!(transport.calls, ["recv", "reset", "recv", "recv", "send 3c"]);
    assert_eq!(port.get_buffer(), 0x5A);
}

#[test]
fn null_transport() {
    let mut transport = NullSerialTransport::new();
    assert_eq!(transport.recv(), Err(TransportError::WouldBlock));
    assert_eq!(transport.send(1), Ok(()));
    assert_eq!(transport.recv(), Ok(0xFF));
    assert_eq!(transport.recv(), Err(TransportError::WouldBlock));
    transport.send(2).unwrap();
    transport.reset();
    assert_eq!(transport.recv(), Err(TransportError::WouldBlock));
}

#[test]
fn printer_lines() {
    let mut port = SerialPort::new();
    for byte in b"ab\n\ncd" {
        port.print(*byte);
    }
    assert_eq!(port.take_output(), b"ab\n".to_vec());
    for _ in 0..61 {
        port.print(b'x');
    }
    assert_eq!(port.take_output(), Vec::<u8>::new());
    port.print(b'y');
    let out = port.take_output();
    assert_eq!(out.len(), 65);
    assert_eq!(&out[..2], b"cd");
    assert_eq!(out[63], b'y');
    assert_eq!(out[64], b'\n');
    assert!(port.print_buffer.is_empty());
}

#[test]
fn pixel_fifo_keeps_order() {
    let mut fifo = PixelFifo::default();
    assert!(fifo.is_empty());
    assert_eq!(fifo.pop(), None);
    fifo.load([1, 2, 3, 4, 5, 6, 7, 8]);
    assert!(!fifo.is_empty());
    for expected in 1..=5 {
        assert_eq!(fifo.pop(), Some(expected));
    }
    fifo.load([9, 10, 11, 12, 13, 14, 15, 16]);
    assert_eq!(fifo.n_pixels, 11);
    // no room for eight more: nothing happens
    fifo.load([0; 8]);
    assert_eq!(fifo.n_pixels, 11);
    for expected in 6..=16 {
        assert_eq!(fifo.pop(), Some(expected));
    }
    assert!(fifo.is_empty());
    fifo.load([21, 22, 23, 24, 25, 26, 27, 28]);
    fifo.load([31, 32, 33, 34, 35, 36, 37, 38]);
    assert_eq!(fifo.n_pixels, 16);
    assert_eq!(fifo.pop(), Some(21));
    fifo.clear();
    assert_eq!(fifo.pop(), None);
}

#[test]
fn pixel_fifo_merge_keeps_the_first_sprite() {
    let mut fifo = PixelFifo::new();
    fifo.merge([1, 0, 2, 0, 3, 0, 1, 0], 0);
    assert_eq!(fifo.n_pixels, 8);
    fifo.merge([7, 7, 7, 7, 7, 7, 7, 7], 0);
    let pixels: Vec<u8> = (0..8).map(|_| fifo.pop().unwrap()).collect();
    assert_eq!(pixels, [1, 7, 2, 7, 3, 7, 1, 7]);
    // a row that hangs over the left edge loses its first pixels
    fifo.merge([1, 2, 3, 1, 2, 3, 1, 2], 5);
    assert_eq!(fifo.n_pixels, 3);
    assert_eq!(fifo.pop(), Some(3));
    // what the queue holds beyond its pixels does not count
    fifo.merge([5, 5, 5, 5, 5, 5, 5, 5], 0);
    let pixels: Vec<u8> = (0..8).map(|_| fifo.pop().unwrap()).collect();
    assert_eq!(pixels, [1, 2, 5, 5, 5, 5, 5, 5]);
    fifo.merge([1; 8], 8);
    assert!(fifo.is_empty());
}

#[test]
fn tile_rows_and_colors() {
    assert_eq!(tile_row(0b1010_0000, 0b1100_0000, 0, false, false), [3, 2, 1, 0, 0, 0, 0, 0]);
    assert_eq!(tile_row(0b1010_0000, 0b1100_0000, 0, false, true), [0, 0, 0, 0, 0, 1, 2, 3]);
    assert_eq!(tile_row(0xFF, 0x00, 5, true, false), [0x95; 8]);
    assert_eq!(make_pixel(3, 7, true), 0x9F);
    assert_eq!(make_pixel(2, 1, false), 0x06);
    assert_eq!(shade(0xE4, 0), 0);
    assert_eq!(shade(0xE4, 1), 1);
    assert_eq!(shade(0xE4, 2), 2);
    assert_eq!(shade(0xE4, 3), 3);
    assert_eq!(shade(0x1B, 0), 3);
    assert_eq!(shade(0x1B, 3), 0);
    let levels: Vec<u8> = (0..4).map(|s| grey(s).r).collect();
    assert_eq!(levels, [0xFF, 0xAA, 0x55, 0x00]);
    assert_eq!(grey(1), Rgba { r: 0xAA, g: 0xAA, b: 0xAA, a: 0xFF });
    assert_eq!(rgb555(0xFF, 0x7F), Rgba { r: 0xFF, g: 0xFF, b: 0xFF, a: 0xFF });
    assert_eq!(rgb555(0x1F, 0x00), Rgba { r: 0xFF, g: 0x00, b: 0x00, a: 0xFF });
    assert_eq!(rgb555(0xE0, 0x03), Rgba { r: 0x00, g: 0xFF, b: 0x00, a: 0xFF });
    assert_eq!(rgb555(0x00, 0x7C), Rgba { r: 0x00, g: 0x00, b: 0xFF, a: 0xFF });
    assert_eq!(rgb555(0x10, 0x42), Rgba { r: 0x84, g: 0x84, b: 0x84, a: 0xFF });
    // sprite in front unless it is of colour 0 or yields to a background of another colour
    assert!(choose_sprite(0, Some(1), true));
    assert!(choose_sprite(2, Some(1), true));
    assert!(!choose_sprite(2, Some(0), true));
    assert!(!choose_sprite(2, Some(0x81), true));
    assert!(choose_sprite(0, Some(0x81), true));
    assert!(!choose_sprite(0, Some(1), false));
    assert!(!choose_sprite(0, None, true));
}

#[test]
fn color_palette_memory() {
    let mut palette = CgbPalette::default();
    assert_eq!(palette.read_spec(), 0x40);
    assert_eq!(palette.read_data(FifoMode::HBlank), 0xFF);
    assert_eq!(palette.color(0, 0), Rgba { r: 0xFF, g: 0xFF, b: 0xFF, a: 0xFF });
    palette.write_spec(0x80 | 10);
    assert_eq!(palette.read_spec(), 0xC0 | 10);
    palette.write_data(0x1F, FifoMode::VBlank);
    palette.write_data(0x00, FifoMode::VBlank);
    assert_eq!(palette.read_spec(), 0xC0 | 12);
    assert_eq!(palette.color(1, 1), Rgba { r: 0xFF, g: 0x00, b: 0x00, a: 0xFF });
    // while a line is drawn the memory is closed, but the index moves on
    palette.write_data(0x00, FifoMode::Drawing(DrawingState::default()));
    assert_eq!(palette.data[12], 0xFF);
    assert_eq!(palette.read_spec(), 0xC0 | 13);
    assert_eq!(palette.read_data(FifoMode::Drawing(DrawingState::default())), 0xFF);
    palette.write_spec(63);
    palette.write_data(0x12, FifoMode::OamScan(OamScanState::default()));
    assert_eq!(palette.read_spec(), 0x40 | 63);
    assert_eq!(palette.read_data(FifoMode::HBlank), 0x12);
    palette.write_spec(0x80 | 63);
    palette.write_data(0x34, FifoMode::HBlank);
    assert_eq!(palette.read_spec(), 0xC0);
}

#[test]
fn ppu_registers() {
    let mut ppu = Ppu::new();
    assert_eq!(ppu.read(0xFF40), 0x91);
    assert_eq!(ppu.read(0xFF47), 0xFC);
    for (addr, value) in [(0xFF40u16, 0xE3u8), (0xFF42, 1), (0xFF43, 2), (0xFF45, 3), (0xFF47, 4), (0xFF48, 5), (0xFF49, 6), (0xFF4A, 7), (0xFF4B, 8)] {
        ppu.write(addr, value);
        assert_eq!(ppu.read(addr), value, "{addr:04x}");
    }
    // LY cannot be written
    ppu.write(0xFF44, 99);
    assert_eq!(ppu.read(0xFF44), 0);
    // of STAT only the enables can be written
    ppu.write(0xFF41, 0xFF);
    assert_eq!(ppu.read(0xFF41), 0xF8 | 0x02);
    ppu.write(0xFF41, 0x00);
    assert_eq!(ppu.read(0xFF41), 0x80 | 0x02);
    ppu.write(0xFF45, 0);
    assert_eq!(ppu.read(0xFF41), 0x80 | 0x04 | 0x02);
    // the second bank needs the Color hardware
    ppu.write(0xFF4F, 1);
    assert_eq!(ppu.read(0xFF4F), 0xFE);
    ppu.cgb = true;
    ppu.write(0xFF4F, 1);
    assert_eq!(ppu.read(0xFF4F), 0xFF);
    ppu.fifo_mode = FifoMode::HBlank;
    ppu.write_vram(0x8000, 0x11);
    assert_eq!(ppu.vram[0x2000], 0x11);
    assert_eq!(ppu.read_vram(0x8000), 0x11);
    ppu.write(0xFF4F, 0);
    assert_eq!(ppu.read_vram(0x8000), 0x00);
    assert_eq!(ppu.read(0xFF4C), 0xFF);
    assert_eq!(ppu.read(0xFF50), 0xFF);
}

#[test]
fn ppu_memory_blocks() {
    let mut ppu = Ppu::default();
    ppu.fifo_mode = FifoMode::VBlank;
    ppu.write_oam(0xFE00, 0x12, false);
    ppu.write_oam(0xFE9F, 0x34, false);
    ppu.write_oam(0xFEA0, 0x56, true);
    assert_eq!(ppu.read_oam(0xFE00, false), 0x12);
    assert_eq!(ppu.read_oam(0xFE9F, false), 0x34);
    assert_eq!(ppu.read_oam(0xFEA0, false), 0xFF);
    ppu.fifo_mode = FifoMode::OamScan(OamScanState::default());
    ppu.write_oam(0xFE00, 0x99, false);
    assert_eq!(ppu.read_oam(0xFE00, false), 0xFF);
    assert_eq!(ppu.read_oam(0xFE00, true), 0x12);
    ppu.write_oam(0xFE00, 0x99, true);
    assert_eq!(ppu.read_oam(0xFE00, true), 0x99);
    ppu.write_vram(0x9FFF, 0x77);
    assert_eq!(ppu.read_vram(0x9FFF), 0x77);
    ppu.fifo_mode = FifoMode::Drawing(DrawingState::default());
    ppu.write_vram(0x9FFF, 0x88);
    assert_eq!(ppu.read_vram(0x9FFF), 0xFF);
    assert_eq!(ppu.read_vram_unblocked(false, 0x9FFF), 0x77);
    assert_eq!(ppu.read_oam(0xFE00, false), 0xFF);
    assert_eq!(u8::from(ppu.fifo_mode), 3);
    assert_eq!(u8::from(FifoMode::HBlank), 0);
    assert_eq!(u8::from(FifoMode::VBlank), 1);
    assert_eq!(u8::from(FifoMode::default()), 2);
}

#[test]
fn drawing_state_reset() {
    let mut state = DrawingState::default();
    state.pixel_fetcher = PixelFetcherState::Push;
    state.cycle = 1;
    state.tile_idx = 9;
    state.buffer = [3; 8];
    state.fetcher_x = 7;
    state.is_window = true;
    state.reset();
    assert!(matches!(state.pixel_fetcher, PixelFetcherState::GetTile));
    assert_eq!(state.cycle, 0);
    assert_eq!(state.tile_idx, 0);
    assert_eq!(state.buffer, [0; 8]);
    assert_eq!(state.fetcher_x, 7);
    assert!(state.is_window);
    assert!(matches!(PixelFetcherState::default(), PixelFetcherState::GetTile));
}

#[test]
fn ppu_tile_reads() {
    let mut ppu = Ppu::new();
    ppu.vram[0x1800 + 33] = 0x42;
    ppu.vram[0x1C00 + 33] = 0x43;
    ppu.vram[0x3800 + 33] = 0x07;
    assert_eq!(ppu.read_tile_index(33, false), 0x42);
    assert_eq!(ppu.read_tile_index(33, true), 0x42);
    ppu.write(0xFF40, 0x91 | 0x40);
    assert_eq!(ppu.read_tile_index(33, true), 0x43);
    assert_eq!(ppu.read_tile_index(33, false), 0x42);
    assert_eq!(ppu.read_tile_attribute(33, false), 0);
    ppu.cgb = true;
    assert_eq!(ppu.read_tile_attribute(33, false), 0x07);
    ppu.vram[0x0000 + 0x10 * 2 + 3] = 0x11;
    ppu.vram[0x1000 + 0x10 * 2 + 3] = 0x22;
    ppu.vram[0x0800 + 0x10 * 2 + 3] = 0x33;
    assert_eq!(ppu.read_obj_tile(2, 3, false), 0x11);
    assert_eq!(ppu.read_bg_win_tile(2, 3, false), 0x11);
    ppu.write(0xFF40, 0x81);
    assert_eq!(ppu.read_bg_win_tile(2, 3, false), 0x22);
    assert_eq!(ppu.read_bg_win_tile(0x82, 3, false), 0x33);
    ppu.oam[4 * 3..4 * 3 + 4].copy_from_slice(&[1, 2, 3, 4]);
    let sprite = ppu.read_sprite_attribute(3);
    assert_eq!((sprite.y, sprite.x, sprite.tile, sprite.flags), (1, 2, 3, 4));
    assert_eq!(ppu.read_sprite_attribute(40).y, 0);
}
