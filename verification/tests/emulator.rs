use gband::cpu::Opcode;
use gband::{Emulator, Frame, JoypadState, NullSerialTransport, RomParserError, FRAME_BYTES, FRAME_WIDTH};

const TICKS_PER_FRAME: usize = 70224;

/// An image with a valid header, the given cartridge type and size codes, and
/// `program` at the entry point 0x0100.
fn make_rom(cartridge_type: u8, rom_code: u8, ram_code: u8, program: &[u8]) -> Vec<u8> {
    let mut rom = vec![0u8; 0x8000usize << rom_code];
    rom[0x100..0x100 + program.len()].copy_from_slice(program);
    rom[0x147] = cartridge_type;
    rom[0x148] = rom_code;
    rom[0x149] = ram_code;
    let mut checksum = 0u8;
    for byte in &rom[0x134..0x14D] {
        checksum = checksum.wrapping_sub(*byte).wrapping_sub(1);
    }
    rom[0x14D] = checksum;
    rom
}

fn run(emu: &mut Emulator, ticks: usize) -> Option<Frame> {
    let mut last = None;
    for _ in 0..ticks {
        if let Some(frame) = emu.clock() {
            last = Some(frame);
        }
    }
    last
}

fn next_frame(emu: &mut Emulator) -> Frame {
    for _ in 0..2 * TICKS_PER_FRAME {
        if let Some(frame) = emu.clock() {
            return frame;
        }
    }
    panic!("no frame within two frame times");
}

fn pixel(frame: &Frame, x: usize, y: usize) -> [u8; 4] {
    let base = (y * FRAME_WIDTH + x) * 4;
    [frame[base], frame[base + 1], frame[base + 2], frame[base + 3]]
}

#[test]
fn test() {
    let mut rom = [0u8; 0x150];
    rom[0x14d] = 231;
    let mut emu = Emulator::new(&rom, None).unwrap();

    for _ in 0..10 {
        emu.clock();
    }
}

#[test]
fn new_starts_at_the_entry_point() {
    let rom = make_rom(0x00, 0, 0, &[0x00]);
    let emu = Emulator::new(&rom, None).unwrap();
    assert_eq!(emu.cpu().pc, 0x0100);
    assert_eq!(emu.cpu().sp, 0xFFFE);
    assert_eq!(emu.cpu().cycles, 0);
    assert!(!emu.bus.cgb);
    assert_eq!(emu.bus.read(0xFF40), 0x91);
}

#[test]
fn new_reports_load_errors() {
    assert!(matches!(Emulator::new(&[0u8; 0x14F], None), Err(RomParserError::TooShort)));
    let mut rom = make_rom(0x00, 0, 0, &[]);
    rom[0x14D] ^= 0xFF;
    assert!(matches!(Emulator::new(&rom, None), Err(RomParserError::ChecksumMismatch)));
}

#[test]
fn cgb_flag_selects_the_color_hardware() {
    let mut rom = make_rom(0x00, 0, 0, &[]);
    rom[0x143] = 0x80;
    rom[0x14D] = rom[0x14D].wrapping_sub(0x80);
    let emu = Emulator::new(&rom, None).unwrap();
    assert!(emu.bus.cgb);
    assert!(emu.bus.ppu.cgb);
}

#[test]
fn nop_spin() {
    // NOP; JR -3
    let rom = make_rom(0x00, 0, 0, &[0x00, 0x18, 0xFD]);
    let mut emu = Emulator::new(&rom, None).unwrap();
    let frame = run(&mut emu, 1_000_000).expect("frames were finished");
    assert!([0x100u16, 0x101, 0x102].contains(&emu.cpu().pc));
    assert!(emu.bus.interrupts.pending().is_none());
    assert!(frame.iter().all(|b| *b == 0xFF));
    assert_eq!(frame.len(), FRAME_BYTES);
}

#[test]
fn one_frame_takes_70224_ticks() {
    let rom = make_rom(0x00, 0, 0, &[0x18, 0xFE]);
    let mut emu = Emulator::new(&rom, None).unwrap();
    for tick in 1..=3 * TICKS_PER_FRAME {
        let frame = emu.clock();
        assert_eq!(frame.is_some(), tick % TICKS_PER_FRAME == 0, "tick {tick}");
    }
}

#[test]
fn serial_printer() {
    let program = [
        0x3E, b'H', 0xE0, 0x01, // LD A,'H'; LDH (01),A
        0x3E, 0x81, 0xE0, 0x02, // LD A,81; LDH (02),A
        0xF0, 0x02, 0xCB, 0x7F, 0x20, 0xFA, // wait: LDH A,(02); BIT 7,A; JR NZ,wait
        0x3E, b'i', 0xE0, 0x01, 0x3E, 0x81, 0xE0, 0x02, //
        0xF0, 0x02, 0xCB, 0x7F, 0x20, 0xFA, //
        0x3E, b'\n', 0xE0, 0x01, 0x3E, 0x81, 0xE0, 0x02, //
        0xF0, 0x02, 0xCB, 0x7F, 0x20, 0xFA, //
        0x18, 0xFE, // JR -2
    ];
    let rom = make_rom(0x00, 0, 0, &program);
    let mut emu = Emulator::new(&rom, None).unwrap();
    run(&mut emu, 2 * 8 * 512);
    assert_eq!(emu.take_serial_output(), Vec::<u8>::new());
    run(&mut emu, 8 * 512 + 512);
    assert_eq!(emu.take_serial_output(), b"Hi\n".to_vec());
    assert_eq!(emu.take_serial_output(), Vec::<u8>::new());
    // each byte was answered with 0xFF and raised the interrupt
    assert_eq!(emu.bus.read(0xFF01), 0xFF);
    assert_eq!(emu.bus.read(0xFF02) & 0x80, 0);
    assert_eq!(emu.bus.read(0xFF0F) & 0x08, 0x08);
}

#[test]
fn serial_through_a_null_transport() {
    // master: completes with 0xFF
    let program = [0x3E, 0x42, 0xE0, 0x01, 0x3E, 0x81, 0xE0, 0x02, 0x18, 0xFE];
    let rom = make_rom(0x00, 0, 0, &program);
    let mut emu = Emulator::new(&rom, None).unwrap();
    let mut transport = NullSerialTransport::new();
    for _ in 0..9 * 512 {
        emu.clock_with_transport(&mut transport);
    }
    assert_eq!(emu.bus.read(0xFF01), 0xFF);
    assert_eq!(emu.bus.read(0xFF02) & 0x80, 0);
    assert_eq!(emu.bus.read(0xFF0F) & 0x08, 0x08);
    assert_eq!(emu.take_serial_output(), Vec::<u8>::new());

    // slave: never completes
    let program = [0x3E, 0x42, 0xE0, 0x01, 0x3E, 0x80, 0xE0, 0x02, 0x18, 0xFE];
    let rom = make_rom(0x00, 0, 0, &program);
    let mut emu = Emulator::new(&rom, None).unwrap();
    let mut transport = NullSerialTransport::new();
    for _ in 0..40 * 512 {
        emu.clock_with_transport(&mut transport);
    }
    assert_eq!(emu.bus.read(0xFF01), 0x42);
    assert_eq!(emu.bus.read(0xFF02) & 0x80, 0x80);
    assert_eq!(emu.bus.read(0xFF0F) & 0x08, 0);
}

#[test]
fn oam_dma() {
    let rom = make_rom(0x00, 0, 0, &[0x18, 0xFE]);
    let mut emu = Emulator::new(&rom, None).unwrap();
    for i in 0..160u16 {
        emu.bus.write(0xC000 + i, i as u8);
    }
    // run to the end of a machine cycle, so that 160 whole ones follow
    run(&mut emu, 4);
    emu.bus.write(0xFF46, 0xC0);
    assert!(emu.bus.dma.active);
    // while the copy runs the processor reads 0xFF outside the high RAM
    assert_eq!(emu.bus.read(0xC000), 0xFF);
    emu.bus.write(0xFF80, 0x12);
    assert_eq!(emu.bus.read(0xFF80), 0x12);
    run(&mut emu, 159 * 4);
    assert!(emu.bus.dma.active);
    run(&mut emu, 4);
    assert!(!emu.bus.dma.active);
    for i in 0..160usize {
        assert_eq!(emu.bus.ppu.oam[i], i as u8);
    }
    assert_eq!(emu.bus.read(0xC005), 5);
    assert_eq!(emu.bus.read(0xFF46), 0xC0);
}

#[test]
fn vblank_interrupt() {
    // EI; JR -2
    let rom = make_rom(0x00, 0, 0, &[0xFB, 0x18, 0xFE]);
    let mut emu = Emulator::new(&rom, None).unwrap();
    emu.bus.write(0xFF0F, 0x00);
    emu.bus.write(0xFFFF, 0x01);
    let mut served = 0;
    let mut requested = 0;
    let mut was_requested = false;
    let mut ticks = 0;
    while emu.bus.read(0xFF44) < 145 {
        emu.clock();
        ticks += 1;
        assert!(ticks < 2 * TICKS_PER_FRAME);
        let now = emu.bus.read(0xFF0F) & 0x01 != 0;
        if now && !was_requested {
            requested += 1;
            assert_eq!(emu.bus.read(0xFF44), 144);
        }
        was_requested = now;
        if emu.cpu().pc == 0x0040 && emu.cpu().cycles == 5 && matches!(emu.cpu().opcode_latch, Opcode::Nop)
            && emu.bus.read(0xFF44) == 144 && emu.clock_count == 0
        {
            served += 1;
            assert!(!emu.cpu().ime);
        }
    }
    assert_eq!(requested, 1);
    assert_eq!(served, 1);
    assert_eq!(emu.bus.read(0xFF0F) & 0x01, 0);
    assert!(emu.cpu().pc >= 0x0040 && emu.cpu().pc < 0x0100);
}

#[test]
fn blank_background_gives_a_frame_of_color_zero() {
    let rom = make_rom(0x00, 0, 0, &[0x18, 0xFE]);
    let mut emu = Emulator::new(&rom, None).unwrap();
    emu.bus.write(0xFF40, 0x91);
    emu.bus.write(0xFF47, 0xE4);
    let frame = next_frame(&mut emu);
    for y in 0..144 {
        for x in 0..160 {
            assert_eq!(pixel(&frame, x, y), [0xFF, 0xFF, 0xFF, 0xFF]);
        }
    }
}

#[test]
fn greyscale_ramp() {
    let rom = make_rom(0x00, 0, 0, &[0x18, 0xFE]);
    let mut emu = Emulator::new(&rom, None).unwrap();
    emu.bus.write(0xFF47, 0xE4);
    // tile 0: each row holds colours 0 0 1 1 2 2 3 3
    for row in 0..8 {
        emu.bus.ppu.vram[row * 2] = 0b0011_0011;
        emu.bus.ppu.vram[row * 2 + 1] = 0b0000_1111;
    }
    let frame = next_frame(&mut emu);
    let levels = [0xFFu8, 0xFF, 0xAA, 0xAA, 0x55, 0x55, 0x00, 0x00];
    for y in [0usize, 7, 100, 143] {
        for x in 0..160 {
            let level = levels[x % 8];
            assert_eq!(pixel(&frame, x, y), [level, level, level, 0xFF], "({x}, {y})");
        }
    }
}

/// A background in which every tile differs: tile `t` of the map shows tile
/// number `t % 256`, and tile `n` has in each row the bits of `n` and of the row.
fn pattern_background(emu: &mut Emulator) {
    for n in 0..256usize {
        for row in 0..8usize {
            emu.bus.ppu.vram[n * 16 + row * 2] = (n as u8).wrapping_mul(37) ^ (row as u8);
            emu.bus.ppu.vram[n * 16 + row * 2 + 1] = (n as u8).rotate_left(3) ^ ((row as u8) << 5);
        }
    }
    for t in 0..1024usize {
        emu.bus.ppu.vram[0x1800 + t] = (t % 251) as u8;
    }
}

/// The colour index of the pixel at (`bx`, `by`) of the pattern background.
fn pattern_color(bx: usize, by: usize) -> u8 {
    let t = (by / 8) * 32 + bx / 8;
    let n = (t % 251) as u8;
    let row = (by % 8) as u8;
    let low = n.wrapping_mul(37) ^ row;
    let high = n.rotate_left(3) ^ (row << 5);
    let bit = 7 - (bx % 8);
    ((low >> bit) & 1) | (((high >> bit) & 1) << 1)
}

#[test]
fn background_shows_the_tile_map() {
    let rom = make_rom(0x00, 0, 0, &[0x18, 0xFE]);
    let mut emu = Emulator::new(&rom, None).unwrap();
    emu.bus.write(0xFF47, 0xE4);
    pattern_background(&mut emu);
    let frame = next_frame(&mut emu);
    let levels = [0xFFu8, 0xAA, 0x55, 0x00];
    for y in 0..144 {
        for x in 0..160 {
            let level = levels[pattern_color(x, y) as usize];
            assert_eq!(pixel(&frame, x, y), [level, level, level, 0xFF], "({x}, {y})");
        }
    }
}

#[test]
fn scx_scrolls_modulo_256() {
    let rom = make_rom(0x00, 0, 0, &[0x18, 0xFE]);
    let mut plain = Emulator::new(&rom, None).unwrap();
    plain.bus.write(0xFF47, 0xE4);
    pattern_background(&mut plain);
    let reference = next_frame(&mut plain);
    let levels = [0xFFu8, 0xAA, 0x55, 0x00];
    for scx in [1u8, 7, 8, 13, 96, 100, 200, 255] {
        let mut emu = Emulator::new(&rom, None).unwrap();
        emu.bus.write(0xFF47, 0xE4);
        emu.bus.write(0xFF43, scx);
        pattern_background(&mut emu);
        let frame = next_frame(&mut emu);
        for y in 0..144 {
            for x in 0..160 {
                let bx = (x + scx as usize) % 256;
                let level = levels[pattern_color(bx, y) as usize];
                assert_eq!(pixel(&frame, x, y), [level, level, level, 0xFF], "scx {scx} ({x}, {y})");
                if bx < 160 {
                    assert_eq!(pixel(&frame, x, y), pixel(&reference, bx, y));
                }
            }
        }
    }
}

#[test]
fn scy_scrolls_modulo_256() {
    let rom = make_rom(0x00, 0, 0, &[0x18, 0xFE]);
    let mut emu = Emulator::new(&rom, None).unwrap();
    emu.bus.write(0xFF47, 0xE4);
    emu.bus.write(0xFF42, 201);
    emu.bus.write(0xFF43, 3);
    pattern_background(&mut emu);
    let frame = next_frame(&mut emu);
    let levels = [0xFFu8, 0xAA, 0x55, 0x00];
    for y in 0..144 {
        for x in 0..160 {
            let level = levels[pattern_color((x + 3) % 256, (y + 201) % 256) as usize];
            assert_eq!(pixel(&frame, x, y), [level, level, level, 0xFF], "({x}, {y})");
        }
    }
}

#[test]
fn signed_tile_numbers() {
    let rom = make_rom(0x00, 0, 0, &[0x18, 0xFE]);
    let mut emu = Emulator::new(&rom, None).unwrap();
    emu.bus.write(0xFF47, 0xE4);
    emu.bus.write(0xFF40, 0x81); // tile data around 0x9000
    // tile 0 at 0x9000 is black, tile 0x80 at 0x8800 is dark grey
    for i in 0..16 {
        emu.bus.ppu.vram[0x1000 + i] = 0xFF;
        emu.bus.ppu.vram[0x0800 + i] = if i % 2 == 1 { 0xFF } else { 0x00 };
    }
    emu.bus.ppu.vram[0x1800 + 1] = 0x80;
    let frame = next_frame(&mut emu);
    assert_eq!(pixel(&frame, 0, 0), [0x00, 0x00, 0x00, 0xFF]);
    assert_eq!(pixel(&frame, 8, 0), [0x55, 0x55, 0x55, 0xFF]);
    assert_eq!(pixel(&frame, 16, 0), [0x00, 0x00, 0x00, 0xFF]);
}

#[test]
fn sprites_lie_over_the_background() {
    let rom = make_rom(0x00, 0, 0, &[0x18, 0xFE]);
    let mut emu = Emulator::new(&rom, None).unwrap();
    emu.bus.write(0xFF40, 0x93); // sprites on
    emu.bus.write(0xFF47, 0xE4);
    emu.bus.write(0xFF48, 0xE4);
    emu.bus.write(0xFF49, 0x1B); // OBP1 turns the ramp round
    // tile 1: colour 3 in the left half, colour 0 in the right half
    for row in 0..8 {
        emu.bus.ppu.vram[16 + row * 2] = 0xF0;
        emu.bus.ppu.vram[16 + row * 2 + 1] = 0xF0;
    }
    // sprite 0 at (20, 10), sprite 1 at (22, 10) with OBP1, sprite 2 hangs over the left edge
    emu.bus.ppu.oam[0..4].copy_from_slice(&[10 + 16, 20 + 8, 1, 0x00]);
    emu.bus.ppu.oam[4..8].copy_from_slice(&[10 + 16, 22 + 8, 1, 0x10]);
    emu.bus.ppu.oam[8..12].copy_from_slice(&[40 + 16, 6, 1, 0x20]);
    let frame = next_frame(&mut emu);
    let white = [0xFF, 0xFF, 0xFF, 0xFF];
    let black = [0x00, 0x00, 0x00, 0xFF];
    for y in 10..18 {
        assert_eq!(pixel(&frame, 19, y), white);
        for x in 20..24 {
            assert_eq!(pixel(&frame, x, y), black, "({x}, {y})");
        }
        // where sprite 0 is of colour 0, sprite 1 shows: colour 3 through OBP1 is white
        assert_eq!(pixel(&frame, 24, y), white);
        assert_eq!(pixel(&frame, 25, y), white);
        assert_eq!(pixel(&frame, 26, y), white);
    }
    assert_eq!(pixel(&frame, 20, 9), white);
    assert_eq!(pixel(&frame, 20, 18), white);
    // sprite 2 is flipped and starts two pixels left of the screen: its right half is black
    for y in 40..48 {
        assert_eq!(pixel(&frame, 0, y), white);
        assert_eq!(pixel(&frame, 1, y), white);
        for x in 2..6 {
            assert_eq!(pixel(&frame, x, y), black, "({x}, {y})");
        }
        assert_eq!(pixel(&frame, 6, y), white);
    }
}

#[test]
fn sprite_yields_to_the_background_when_told() {
    let rom = make_rom(0x00, 0, 0, &[0x18, 0xFE]);
    let mut emu = Emulator::new(&rom, None).unwrap();
    emu.bus.write(0xFF40, 0x93);
    emu.bus.write(0xFF47, 0xE4);
    emu.bus.write(0xFF48, 0xE4);
    // tile 0 (the background): colour 1 in the left half; tile 1 (the sprite): colour 3
    for row in 0..8 {
        emu.bus.ppu.vram[row * 2] = 0xF0;
        emu.bus.ppu.vram[16 + row * 2] = 0xFF;
        emu.bus.ppu.vram[16 + row * 2 + 1] = 0xFF;
    }
    emu.bus.ppu.oam[0..4].copy_from_slice(&[16, 8, 1, 0x80]);
    emu.bus.ppu.oam[4..8].copy_from_slice(&[16, 16, 1, 0x00]);
    // the first frame after power-up begins in the middle of the sprite scan
    next_frame(&mut emu);
    let frame = next_frame(&mut emu);
    for x in 0..4 {
        assert_eq!(pixel(&frame, x, 0), [0xAA, 0xAA, 0xAA, 0xFF]);
    }
    for x in 4..16 {
        assert_eq!(pixel(&frame, x, 0), [0x00, 0x00, 0x00, 0xFF]);
    }
}

#[test]
fn at_most_ten_sprites_on_a_line() {
    let rom = make_rom(0x00, 0, 0, &[0x18, 0xFE]);
    let mut emu = Emulator::new(&rom, None).unwrap();
    emu.bus.write(0xFF40, 0x93);
    emu.bus.write(0xFF47, 0xE4);
    emu.bus.write(0xFF48, 0xE4);
    for i in 0..16 {
        emu.bus.ppu.vram[16 + i] = 0xFF;
    }
    for s in 0..12usize {
        emu.bus.ppu.oam[s * 4..s * 4 + 4].copy_from_slice(&[16, (8 + s * 10) as u8, 1, 0]);
    }
    next_frame(&mut emu);
    let frame = next_frame(&mut emu);
    for s in 0..10 {
        assert_eq!(pixel(&frame, s * 10, 0), [0x00, 0x00, 0x00, 0xFF], "sprite {s}");
    }
    for s in 10..12 {
        assert_eq!(pixel(&frame, s * 10, 0), [0xFF, 0xFF, 0xFF, 0xFF], "sprite {s}");
    }
}

#[test]
fn window_covers_the_background() {
    let rom = make_rom(0x00, 0, 0, &[0x18, 0xFE]);
    let mut emu = Emulator::new(&rom, None).unwrap();
    emu.bus.write(0xFF40, 0xF1); // window on, window map at 0x9C00
    emu.bus.write(0xFF47, 0xE4);
    emu.bus.write(0xFF4A, 100); // WY
    emu.bus.write(0xFF4B, 87); // WX: the window starts at column 80
    for i in 0..16 {
        emu.bus.ppu.vram[16 + i] = 0xFF;
    }
    for t in 0..1024 {
        emu.bus.ppu.vram[0x1C00 + t] = 1;
    }
    let frame = next_frame(&mut emu);
    let white = [0xFF, 0xFF, 0xFF, 0xFF];
    let black = [0x00, 0x00, 0x00, 0xFF];
    for y in [0usize, 50, 99] {
        for x in [0usize, 79, 80, 159] {
            assert_eq!(pixel(&frame, x, y), white, "({x}, {y})");
        }
    }
    for y in [100usize, 120, 143] {
        for x in 0..80 {
            assert_eq!(pixel(&frame, x, y), white, "({x}, {y})");
        }
        for x in 80..160 {
            assert_eq!(pixel(&frame, x, y), black, "({x}, {y})");
        }
    }
}

#[test]
fn dots_are_counted_whatever_lcdc_holds() {
    let rom = make_rom(0x00, 0, 0, &[0x18, 0xFE]);
    let mut emu = Emulator::new(&rom, None).unwrap();
    run(&mut emu, 5);
    emu.bus.write(0xFF40, 0x11);
    run(&mut emu, 1);
    assert_eq!(emu.bus.ppu.cycle, 6);
    assert_eq!(emu.bus.read(0xFF41) & 0x03, 2);
    run(&mut emu, 456 * 3);
    assert_eq!(emu.bus.read(0xFF44), 3);
    assert_eq!(emu.bus.ppu.cycle, 6);
    // frames go on being handed out, one every 70224 ticks
    let mut frames = 0;
    for _ in 0..2 * TICKS_PER_FRAME {
        if emu.clock().is_some() {
            frames += 1;
        }
    }
    assert_eq!(frames, 2);
}

#[test]
fn transport_clock_hands_out_frames() {
    let rom = make_rom(0x00, 0, 0, &[0x18, 0xFE]);
    let mut emu = Emulator::new(&rom, None).unwrap();
    let mut transport = NullSerialTransport::new();
    for tick in 1..=2 * TICKS_PER_FRAME {
        let frame = emu.clock_with_transport(&mut transport);
        assert_eq!(frame.is_some(), tick % TICKS_PER_FRAME == 0, "tick {tick}");
        if let Some(frame) = frame {
            assert!(frame.iter().all(|b| *b == 0xFF));
        }
    }
}

#[test]
fn stat_shows_the_modes_of_a_scanline() {
    let rom = make_rom(0x00, 0, 0, &[0x18, 0xFE]);
    let mut emu = Emulator::new(&rom, None).unwrap();
    let mut modes = Vec::new();
    for _ in 0..456 {
        emu.clock();
        modes.push(emu.bus.read(0xFF41) & 0x03);
    }
    assert!(modes[..79].iter().all(|m| *m == 2));
    assert_eq!(modes[79], 3);
    let drawing = modes.iter().filter(|m| **m == 3).count();
    assert!((160..=289).contains(&drawing), "{drawing}");
    assert_eq!(modes[454], 0);
    assert_eq!(modes[455], 2);
    assert_eq!(emu.bus.read(0xFF44), 1);
    // the video RAM is closed while a line is drawn
    let mut emu = Emulator::new(&rom, None).unwrap();
    emu.bus.write(0x8000, 0x12);
    run(&mut emu, 100);
    assert_eq!(emu.bus.read(0xFF41) & 0x03, 3);
    assert_eq!(emu.bus.read(0x8000), 0xFF);
    emu.bus.write(0x8000, 0x34);
    assert_eq!(emu.bus.read(0xFE00), 0xFF);
    run(&mut emu, 300);
    assert_eq!(emu.bus.read(0xFF41) & 0x03, 0);
    assert_eq!(emu.bus.read(0x8000), 0x12);
}

#[test]
fn stat_interrupts() {
    let rom = make_rom(0x00, 0, 0, &[0x18, 0xFE]);
    // LYC
    let mut emu = Emulator::new(&rom, None).unwrap();
    emu.bus.write(0xFF0F, 0);
    emu.bus.write(0xFF45, 5);
    emu.bus.write(0xFF41, 0x40);
    run(&mut emu, 5 * 456 - 1);
    assert_eq!(emu.bus.read(0xFF0F) & 0x02, 0);
    run(&mut emu, 1);
    assert_eq!(emu.bus.read(0xFF44), 5);
    assert_eq!(emu.bus.read(0xFF0F) & 0x02, 0x02);
    assert_eq!(emu.bus.read(0xFF41) & 0x04, 0x04);
    // HBlank
    let mut emu = Emulator::new(&rom, None).unwrap();
    emu.bus.write(0xFF0F, 0);
    emu.bus.write(0xFF41, 0x08);
    while emu.bus.read(0xFF41) & 0x03 != 0 {
        assert_eq!(emu.bus.read(0xFF0F) & 0x02, 0);
        emu.clock();
    }
    assert_eq!(emu.bus.read(0xFF0F) & 0x02, 0x02);
    // none asked for, none raised
    let mut emu = Emulator::new(&rom, None).unwrap();
    emu.bus.write(0xFF0F, 0);
    run(&mut emu, TICKS_PER_FRAME);
    assert_eq!(emu.bus.read(0xFF0F), 0xE1);
}

#[test]
fn joypad_register_and_interrupt() {
    let rom = make_rom(0x00, 0, 0, &[0x18, 0xFE]);
    let mut emu = Emulator::new(&rom, None).unwrap();
    emu.bus.write(0xFF0F, 0);
    emu.bus.write(0xFF00, 0x20); // directions selected
    assert_eq!(emu.bus.read(0xFF00), 0xEF);
    let mut state = JoypadState::default();
    state.a = true;
    emu.set_joypad(state);
    assert_eq!(emu.bus.read(0xFF00), 0xEF);
    assert_eq!(emu.bus.read(0xFF0F) & 0x10, 0);
    state.left = true;
    emu.set_joypad(state);
    assert_eq!(emu.bus.read(0xFF00), 0xED);
    assert_eq!(emu.bus.read(0xFF0F) & 0x10, 0x10);
    emu.bus.write(0xFF0F, 0);
    emu.bus.write(0xFF00, 0x10); // actions selected: A is down
    assert_eq!(emu.bus.read(0xFF00), 0xDE);
    assert_eq!(emu.bus.read(0xFF0F) & 0x10, 0x10);
    emu.bus.write(0xFF00, 0x30);
    assert_eq!(emu.bus.read(0xFF00), 0xFF);
}

#[test]
fn mem_dump_reads_the_bus() {
    let rom = make_rom(0x00, 0, 0, &[0x01, 0x02, 0x03]);
    let mut emu = Emulator::new(&rom, None).unwrap();
    assert_eq!(emu.mem_dump(0x0100, 0x0103), vec![1, 2, 3, 0]);
    emu.bus.write(0xFFFE, 0x99);
    assert_eq!(emu.mem_dump(0xFFFE, 0xFFFF), vec![0x99, 0x00]);
    assert_eq!(emu.mem_dump(5, 4), Vec::<u8>::new());
    assert_eq!(emu.mem_dump(0, 0xFFFF).len(), 0x10000);
}

#[test]
fn double_speed_switch() {
    let mut rom = make_rom(0x00, 0, 0, &[0x3E, 0x01, 0xE0, 0x4D, 0x10, 0x00, 0x18, 0xFE]);
    rom[0x143] = 0x80;
    rom[0x14D] = rom[0x14D].wrapping_sub(0x80);
    let mut emu = Emulator::new(&rom, None).unwrap();
    assert_eq!(emu.bus.read(0xFF4D), 0x7E);
    run(&mut emu, 40);
    assert_eq!(emu.bus.read(0xFF4D), 0xFE);
    assert!(!emu.cpu().halted);
    // at double speed the processor runs a machine cycle every second tick
    let before = emu.bus.timer.counter;
    run(&mut emu, 8);
    assert_eq!(emu.bus.timer.counter.wrapping_sub(before), 16);
}

#[test]
fn disassemble_lists_instructions() {
    // NOP; LD A,0x12; JP 0x0150; ADD A,B; PREFIX CB; (operand); an unassigned byte
    let rom = make_rom(0x00, 0, 0, &[0x00, 0x3E, 0x12, 0xC3, 0x50, 0x01, 0x80, 0xCB, 0x37, 0xD3]);
    let emu = Emulator::new(&rom, None).unwrap();
    let lines = emu.disassemble(0x0100, 0x0109);
    let expected = [
        (0x0100u16, "NOP"),
        (0x0101, "LD"),
        (0x0103, "JP"),
        (0x0106, "ADD"),
        (0x0107, "PREFIX CB"),
        (0x0109, "???"),
    ];
    assert_eq!(lines.len(), expected.len());
    for ((bank, address, text), (want_address, want_text)) in lines.iter().zip(expected) {
        assert!(bank.is_none());
        assert_eq!(*address, want_address);
        assert_eq!(text, want_text);
    }
    // an instruction that begins before the end is listed whole
    assert_eq!(emu.disassemble(0x0103, 0x0103).len(), 1);
    assert!(emu.disassemble(0x0105, 0x0104).is_empty());
    assert_eq!(emu.disassemble(0xFFFF, 0xFFFF).len(), 1);
}
