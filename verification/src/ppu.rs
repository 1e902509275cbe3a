//! The picture processing unit.

pub mod cgb_palette;
pub mod clock_laws;
pub mod fetcher;
pub mod fifo_mode;
pub mod frame_laws;
pub mod laws;
pub mod lcd_control;
pub mod lcd_status;
pub mod pixel;
pub mod pixel_fifo;
pub mod render;
pub mod scan_laws;
pub mod vblank_laws;

use cgb_palette::CgbPalette;
pub use fifo_mode::{DrawingState, FifoMode, OamScanState, PixelFetcherState};
use lcd_control::LcdControl;
use lcd_status::LcdStatus;
pub use pixel_fifo::PixelFifo;
use vstd::prelude::*;

verus! {

/// The width of the screen in pixels.
pub const FRAME_WIDTH: usize = 160;

/// The height of the screen in pixels.
pub const FRAME_HEIGHT: usize = 144;

/// The bytes of one frame: four for each pixel.
pub const FRAME_BYTES: usize = 92160;

/// The dots of one scanline.
pub const DOTS_PER_LINE: u16 = 456;

/// The dots the sprite scan takes at the start of a visible scanline.
pub const OAM_SCAN_DOTS: u16 = 80;

/// The scanlines of one frame, the ten of the vertical blank among them.
pub const LINES_PER_FRAME: u8 = 154;

/// The most sprites shown on one scanline.
pub const SPRITES_PER_LINE: u8 = 10;

/// A finished frame: 160 by 144 pixels, row by row, four bytes RGBA each.
pub type Frame = Box<[u8; FRAME_BYTES]>;

/// The picture processing unit.
pub struct Ppu {
    /// The column of the next pixel to put out.
    pub x: u8,
    /// LY, the current scanline.
    pub y: u8,
    /// LYC.
    pub y_compare: u8,
    /// WX.
    pub window_x: u8,
    /// WY.
    pub window_y: u8,
    /// SCX.
    pub scroll_x: u8,
    /// SCY.
    pub scroll_y: u8,
    /// The two banks of video RAM, one after the other.
    pub vram: [u8; 0x4000],
    /// VBK: the bank the processor sees.
    pub vram_bank_register: bool,
    /// The sprite table: forty entries of Y, X, tile and flags.
    pub oam: [u8; 0xA0],
    /// The entries selected for the current scanline.
    pub secondary_oam: [u8; 40],
    pub cgb_bg_palette: CgbPalette,
    pub cgb_obj_palette: CgbPalette,
    /// BGP.
    pub greyscale_bg_palette: u8,
    /// OBP0 and OBP1.
    pub greyscale_obj_palette: [u8; 2],
    pub lcd_control_reg: LcdControl,
    pub lcd_status_reg: LcdStatus,
    pub background_pixel_pipeline: PixelFifo,
    pub sprite_pixel_pipeline: PixelFifo,
    /// The dot within the scanline, 0 to 455.
    pub cycle: u16,
    pub fifo_mode: FifoMode,
    /// The frame being drawn.
    pub frame: [u8; FRAME_BYTES],
    /// The number of entries in the secondary OAM.
    pub sprite_count: u8,
    /// The window's own line counter.
    pub window_line: u8,
    /// Whether the last scanline of a frame has just ended.
    pub frame_ready: bool,
    /// Whether the unit works as that of the Color hardware.
    pub cgb: bool,
}

/// The place in the video RAM array of `addr` in the given bank: the address
/// within the 8 KiB window, and the second bank behind the first.
pub open spec fn vram_index(bank: bool, addr: u16) -> int {
    addr % 0x2000 + (if bank {
        0x2000int
    } else {
        0
    })
}

/// The place in the sprite table of `addr`, where it lies in the table.
pub open spec fn oam_index(addr: u16) -> Option<int> {
    if addr % 0x100 < 0xA0 {
        Some((addr % 0x100) as int)
    } else {
        None
    }
}

impl Ppu {
    /// The unit after power-up, as the start-up program leaves it: the display on
    /// with the background shown, both greyscale palettes as set by that program,
    /// all memories clear, at the first dot of the first scanline.
    pub open spec fn initial() -> Ppu {
        Ppu {
            x: 0,
            y: 0,
            y_compare: 0,
            window_x: 0,
            window_y: 0,
            scroll_x: 0,
            scroll_y: 0,
            vram: vstd::array::spec_array_fill_for_copy_type::<u8, 0x4000>(0u8),
            vram_bank_register: false,
            oam: vstd::array::spec_array_fill_for_copy_type::<u8, 0xA0>(0u8),
            secondary_oam: vstd::array::spec_array_fill_for_copy_type::<u8, 40>(0u8),
            cgb_bg_palette: CgbPalette::initial(),
            cgb_obj_palette: CgbPalette::initial(),
            greyscale_bg_palette: 0xFC,
            greyscale_obj_palette: vstd::array::spec_array_fill_for_copy_type::<u8, 2>(0xFFu8),
            lcd_control_reg: LcdControl { bits: 0x91 },
            lcd_status_reg: LcdStatus { bits: 0 },
            background_pixel_pipeline: PixelFifo::empty_spec(),
            sprite_pixel_pipeline: PixelFifo::empty_spec(),
            cycle: 0,
            fifo_mode: FifoMode::OamScan(OamScanState::initial()),
            frame: vstd::array::spec_array_fill_for_copy_type::<u8, FRAME_BYTES>(0u8),
            sprite_count: 0,
            window_line: 0,
            frame_ready: false,
            cgb: false,
        }
    }

    /// The byte of video RAM at `addr` in the given bank.
    pub open spec fn vram_at(self, bank: bool, addr: u16) -> u8 {
        self.vram[vram_index(bank, addr)]
    }

    /// What the processor reads at `addr` of the video RAM: 0xFF while a line is
    /// drawn, else the byte in the bank that VBK selects.
    pub open spec fn read_vram_spec(self, addr: u16) -> u8 {
        if self.fifo_mode.blocks_vram() {
            0xFF
        } else {
            self.vram_at(self.vram_bank_register, addr)
        }
    }

    /// The unit after the processor wrote to the video RAM: while a line is drawn
    /// the write is dropped.
    pub open spec fn write_vram_spec(self, addr: u16, data: u8) -> Ppu {
        if self.fifo_mode.blocks_vram() {
            self
        } else {
            Ppu {
                vram: vstd::array::spec_array_update(
                    self.vram,
                    vram_index(self.vram_bank_register, addr),
                    data,
                ),
                ..self
            }
        }
    }

    /// What a read of the sprite table gives: 0xFF while the table is scanned or a
    /// line is drawn, unless the read is forced, as the DMA unit's are; 0xFF beyond
    /// the table's end.
    pub open spec fn read_oam_spec(self, addr: u16, force: bool) -> u8 {
        if self.fifo_mode.blocks_oam() && !force {
            0xFF
        } else {
            match oam_index(addr) {
                Some(i) => self.oam[i],
                None => 0xFF,
            }
        }
    }

    /// The unit after a write to the sprite table: dropped while the table is
    /// scanned or a line is drawn, unless the write is forced.
    pub open spec fn write_oam_spec(self, addr: u16, data: u8, force: bool) -> Ppu {
        if self.fifo_mode.blocks_oam() && !force {
            self
        } else {
            match oam_index(addr) {
                Some(i) => Ppu { oam: vstd::array::spec_array_update(self.oam, i, data), ..self },
                None => self,
            }
        }
    }

    /// What a read of STAT gives.
    pub open spec fn read_lcd_status_spec(self) -> u8 {
        self.lcd_status_reg.read_spec(self.fifo_mode, self.y == self.y_compare)
    }

    /// What a read of a register of the unit gives. LY cannot be written and
    /// addresses that name no register read 0xFF.
    pub open spec fn read_spec(self, addr: u16) -> u8 {
        if addr == 0xFF40 {
            self.lcd_control_reg.bits
        } else if addr == 0xFF41 {
            self.read_lcd_status_spec()
        } else if addr == 0xFF42 {
            self.scroll_y
        } else if addr == 0xFF43 {
            self.scroll_x
        } else if addr == 0xFF44 {
            self.y
        } else if addr == 0xFF45 {
            self.y_compare
        } else if addr == 0xFF47 {
            self.greyscale_bg_palette
        } else if addr == 0xFF48 {
            self.greyscale_obj_palette[0]
        } else if addr == 0xFF49 {
            self.greyscale_obj_palette[1]
        } else if addr == 0xFF4A {
            self.window_y
        } else if addr == 0xFF4B {
            self.window_x
        } else if addr == 0xFF4F {
            if self.vram_bank_register {
                0xFF
            } else {
                0xFE
            }
        } else if addr == 0xFF68 {
            self.cgb_bg_palette.read_index_spec()
        } else if addr == 0xFF69 {
            self.cgb_bg_palette.read_data_spec(self.fifo_mode)
        } else if addr == 0xFF6A {
            self.cgb_obj_palette.read_index_spec()
        } else if addr == 0xFF6B {
            self.cgb_obj_palette.read_data_spec(self.fifo_mode)
        } else {
            0xFF
        }
    }

    /// The unit after a write to one of its registers.
    pub open spec fn write_spec(self, addr: u16, data: u8) -> Ppu {
        if addr == 0xFF40 {
            Ppu { lcd_control_reg: LcdControl { bits: data }, ..self }
        } else if addr == 0xFF41 {
            Ppu { lcd_status_reg: self.lcd_status_reg.write_spec(data), ..self }
        } else if addr == 0xFF42 {
            Ppu { scroll_y: data, ..self }
        } else if addr == 0xFF43 {
            Ppu { scroll_x: data, ..self }
        } else if addr == 0xFF45 {
            Ppu { y_compare: data, ..self }
        } else if addr == 0xFF47 {
            Ppu { greyscale_bg_palette: data, ..self }
        } else if addr == 0xFF48 {
            Ppu {
                greyscale_obj_palette: vstd::array::spec_array_update(
                    self.greyscale_obj_palette,
                    0,
                    data,
                ),
                ..self
            }
        } else if addr == 0xFF49 {
            Ppu {
                greyscale_obj_palette: vstd::array::spec_array_update(
                    self.greyscale_obj_palette,
                    1,
                    data,
                ),
                ..self
            }
        } else if addr == 0xFF4A {
            Ppu { window_y: data, ..self }
        } else if addr == 0xFF4B {
            Ppu { window_x: data, ..self }
        } else if addr == 0xFF4F {
            Ppu { vram_bank_register: self.cgb && data % 2 == 1, ..self }
        } else if addr == 0xFF68 {
            Ppu { cgb_bg_palette: self.cgb_bg_palette.write_index_spec(data), ..self }
        } else if addr == 0xFF69 {
            Ppu { cgb_bg_palette: self.cgb_bg_palette.write_data_spec(data, self.fifo_mode), ..self }
        } else if addr == 0xFF6A {
            Ppu { cgb_obj_palette: self.cgb_obj_palette.write_index_spec(data), ..self }
        } else if addr == 0xFF6B {
            Ppu {
                cgb_obj_palette: self.cgb_obj_palette.write_data_spec(data, self.fifo_mode),
                ..self
            }
        } else {
            self
        }
    }

    /// The unit after its finished frame was taken: a new, blank frame is begun.
    pub open spec fn ready_frame_spec(self) -> Ppu {
        if self.frame_ready {
            Ppu {
                frame: vstd::array::spec_array_fill_for_copy_type::<u8, FRAME_BYTES>(0u8),
                frame_ready: false,
                ..self
            }
        } else {
            self
        }
    }

    /// The unit after power-up.
    pub fn new() -> (r: Ppu)
        ensures
            r == Ppu::initial(),
    {
        Ppu {
            x: 0,
            y: 0,
            y_compare: 0,
            window_x: 0,
            window_y: 0,
            scroll_x: 0,
            scroll_y: 0,
            vram: [0u8; 0x4000],
            vram_bank_register: false,
            oam: [0u8; 0xA0],
            secondary_oam: [0u8; 40],
            cgb_bg_palette: CgbPalette::new(),
            cgb_obj_palette: CgbPalette::new(),
            greyscale_bg_palette: 0xFC,
            greyscale_obj_palette: [0xFFu8; 2],
            lcd_control_reg: LcdControl { bits: 0x91 },
            lcd_status_reg: LcdStatus { bits: 0 },
            background_pixel_pipeline: PixelFifo::new(),
            sprite_pixel_pipeline: PixelFifo::new(),
            cycle: 0,
            fifo_mode: FifoMode::OamScan(
                OamScanState { oam_pointer: 0, secondary_oam_pointer: 0, is_visible: false },
            ),
            frame: [0u8; FRAME_BYTES],
            sprite_count: 0,
            window_line: 0,
            frame_ready: false,
            cgb: false,
        }
    }

    /// Hands out the frame when the last scanline has just ended, and begins a new one.
    pub fn ready_frame(&mut self) -> (r: Option<Frame>)
        ensures
            *final(self) == old(self).ready_frame_spec(),
            old(self).frame_ready ==> r.is_some() && *r.unwrap() == old(self).frame,
            !old(self).frame_ready ==> r.is_none(),
    {
        if self.frame_ready {
            let frame: Frame = Box::new(self.frame);
            self.frame = [0u8; FRAME_BYTES];
            self.frame_ready = false;
            Some(frame)
        } else {
            None
        }
    }

    /// Writes to the video RAM as the processor does.
    pub fn write_vram(&mut self, addr: u16, data: u8)
        ensures
            *final(self) == old(self).write_vram_spec(addr, data),
    {
        match self.fifo_mode {
            FifoMode::Drawing(_) => {},
            _ => {
                let index: usize = (addr % 0x2000) as usize + if self.vram_bank_register {
                    0x2000
                } else {
                    0
                };
                self.vram[index] = data;
            },
        }
    }

    /// Reads the video RAM as the processor does.
    pub fn read_vram(&self, addr: u16) -> (r: u8)
        ensures
            r == self.read_vram_spec(addr),
    {
        match self.fifo_mode {
            FifoMode::Drawing(_) => 0xFF,
            _ => self.read_vram_unblocked(self.vram_bank_register, addr),
        }
    }

    /// Reads the video RAM as the unit itself does, from the bank it names.
    pub fn read_vram_unblocked(&self, bank: bool, addr: u16) -> (r: u8)
        ensures
            r == self.vram_at(bank, addr),
    {
        let index: usize = (addr % 0x2000) as usize + if bank {
            0x2000
        } else {
            0
        };
        self.vram[index]
    }

    /// Writes to the sprite table. The DMA unit forces its writes.
    pub fn write_oam(&mut self, addr: u16, data: u8, force: bool)
        ensures
            *final(self) == old(self).write_oam_spec(addr, data, force),
    {
        match self.fifo_mode {
            FifoMode::OamScan(_) | FifoMode::Drawing(_) => {
                if !force {
                    return ;
                }
            },
            _ => {},
        }
        let index: u16 = addr % 0x100;
        if index < 0xA0 {
            self.oam[index as usize] = data;
        }
    }

    /// Reads the sprite table.
    pub fn read_oam(&self, addr: u16, force: bool) -> (r: u8)
        ensures
            r == self.read_oam_spec(addr, force),
    {
        match self.fifo_mode {
            FifoMode::OamScan(_) | FifoMode::Drawing(_) => {
                if !force {
                    return 0xFF;
                }
            },
            _ => {},
        }
        let index: u16 = addr % 0x100;
        if index < 0xA0 {
            self.oam[index as usize]
        } else {
            0xFF
        }
    }

    /// Writes a register of the unit.
    pub fn write(&mut self, addr: u16, data: u8)
        ensures
            *final(self) == old(self).write_spec(addr, data),
    {
        match addr {
            0xFF40 => self.write_lcd_control(data),
            0xFF41 => self.write_lcd_status(data),
            0xFF42 => self.scroll_y = data,
            0xFF43 => self.scroll_x = data,
            0xFF45 => self.y_compare = data,
            0xFF47 => self.greyscale_bg_palette = data,
            0xFF48 => self.greyscale_obj_palette[0] = data,
            0xFF49 => self.greyscale_obj_palette[1] = data,
            0xFF4A => self.window_y = data,
            0xFF4B => self.window_x = data,
            0xFF4F => self.vram_bank_register = self.cgb && data % 2 == 1,
            0xFF68 => self.cgb_bg_palette.write_spec(data),
            0xFF69 => self.cgb_bg_palette.write_data(data, self.fifo_mode),
            0xFF6A => self.cgb_obj_palette.write_spec(data),
            0xFF6B => self.cgb_obj_palette.write_data(data, self.fifo_mode),
            _ => {},
        }
    }

    /// Reads a register of the unit.
    pub fn read(&self, addr: u16) -> (r: u8)
        ensures
            r == self.read_spec(addr),
    {
        match addr {
            0xFF40 => self.read_lcd_control(),
            0xFF41 => self.read_lcd_status(),
            0xFF42 => self.scroll_y,
            0xFF43 => self.scroll_x,
            0xFF44 => self.y,
            0xFF45 => self.y_compare,
            0xFF47 => self.greyscale_bg_palette,
            0xFF48 => self.greyscale_obj_palette[0],
            0xFF49 => self.greyscale_obj_palette[1],
            0xFF4A => self.window_y,
            0xFF4B => self.window_x,
            0xFF4F => if self.vram_bank_register {
                0xFF
            } else {
                0xFE
            },
            0xFF68 => self.cgb_bg_palette.read_spec(),
            0xFF69 => self.cgb_bg_palette.read_data(self.fifo_mode),
            0xFF6A => self.cgb_obj_palette.read_spec(),
            0xFF6B => self.cgb_obj_palette.read_data(self.fifo_mode),
            _ => 0xFF,
        }
    }

    /// Writes LCDC.
    pub fn write_lcd_control(&mut self, data: u8)
        ensures
            *final(self) == (Ppu { lcd_control_reg: LcdControl { bits: data }, ..*old(self) }),
    {
        self.lcd_control_reg = LcdControl { bits: data };
    }

    /// Reads LCDC.
    pub fn read_lcd_control(&self) -> (r: u8)
        ensures
            r == self.lcd_control_reg.bits,
    {
        self.lcd_control_reg.bits
    }

    /// Writes STAT.
    pub fn write_lcd_status(&mut self, data: u8)
        ensures
            *final(self) == (Ppu {
                lcd_status_reg: old(self).lcd_status_reg.write_spec(data),
                ..*old(self)
            }),
    {
        self.lcd_status_reg.write(data);
    }

    /// Reads STAT.
    pub fn read_lcd_status(&self) -> (r: u8)
        ensures
            r == self.read_lcd_status_spec(),
    {
        self.lcd_status_reg.read(self.fifo_mode, self.y == self.y_compare)
    }
}

impl Default for Ppu {
    fn default() -> (r: Self)
        ensures
            r == Ppu::initial(),
    {
        Ppu::new()
    }
}

} // verus!
