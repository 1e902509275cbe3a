//! The palette memories of the Color hardware and the index registers in front of
//! them.

use vstd::prelude::*;
use crate::ppu::fifo_mode::FifoMode;
use crate::ppu::pixel::{rgb555, rgb555_rgba, Rgba};

verus! {

/// One palette memory: eight palettes of four colours of two bytes, and the index
/// register that points into it.
#[derive(Clone, Copy)]
pub struct CgbPalette {
    pub data: [u8; 64],
    /// The offset that the data register reads and writes, 0 to 63.
    pub index: u8,
    /// Whether a write to the data register moves the index on.
    pub auto_increment: bool,
}

impl CgbPalette {
    /// After power-up: every colour white, the index at 0.
    pub open spec fn initial() -> CgbPalette {
        CgbPalette {
            data: vstd::array::spec_array_fill_for_copy_type::<u8, 64>(0xFFu8),
            index: 0,
            auto_increment: false,
        }
    }

    /// The palette after a write to its index register: bits 0 to 5 are the index,
    /// bit 7 switches the auto-increment.
    pub open spec fn write_index_spec(self, data: u8) -> CgbPalette {
        CgbPalette { index: data % 64, auto_increment: data >= 128, ..self }
    }

    /// What a read of the index register gives. Bit 6 reads as one.
    pub open spec fn read_index_spec(self) -> u8 {
        (self.index % 64 + 0x40 + (if self.auto_increment {
            0x80int
        } else {
            0
        })) as u8
    }

    /// The palette after a write to its data register. While a line is drawn the
    /// memory is closed and the byte is dropped; the index moves on all the same.
    pub open spec fn write_data_spec(self, data: u8, mode: FifoMode) -> CgbPalette {
        CgbPalette {
            data: if mode.blocks_vram() {
                self.data
            } else {
                vstd::array::spec_array_update(self.data, (self.index % 64) as int, data)
            },
            index: if self.auto_increment {
                ((self.index % 64 + 1) % 64) as u8
            } else {
                self.index
            },
            ..self
        }
    }

    /// What a read of the data register gives: 0xFF while a line is drawn.
    pub open spec fn read_data_spec(self, mode: FifoMode) -> u8 {
        if mode.blocks_vram() {
            0xFF
        } else {
            self.data[(self.index % 64) as int]
        }
    }

    /// The screen colour of colour `color` of palette `palette`.
    pub open spec fn color_spec(self, palette: u8, color: u8) -> Rgba {
        let offset = (palette % 8) * 8 + (color % 4) * 2;
        rgb555_rgba(self.data[offset], self.data[offset + 1])
    }

    /// The palette memory after power-up.
    pub fn new() -> (r: CgbPalette)
        ensures
            r == CgbPalette::initial(),
    {
        CgbPalette { data: [0xFFu8; 64], index: 0, auto_increment: false }
    }

    /// Writes the index register.
    pub fn write_spec(&mut self, data: u8)
        ensures
            *final(self) == old(self).write_index_spec(data),
    {
        self.index = data % 64;
        self.auto_increment = data >= 128;
    }

    /// Reads the index register.
    pub fn read_spec(&self) -> (r: u8)
        ensures
            r == self.read_index_spec(),
    {
        let base: u8 = self.index % 64 + 0x40;
        if self.auto_increment {
            base + 0x80
        } else {
            base
        }
    }

    /// Writes the data register.
    pub fn write_data(&mut self, data: u8, mode: FifoMode)
        ensures
            *final(self) == old(self).write_data_spec(data, mode),
    {
        match mode {
            FifoMode::Drawing(_) => {},
            _ => {
                self.data[(self.index % 64) as usize] = data;
            },
        }
        if self.auto_increment {
            self.index = (self.index % 64 + 1) % 64;
        }
    }

    /// Reads the data register.
    pub fn read_data(&self, mode: FifoMode) -> (r: u8)
        ensures
            r == self.read_data_spec(mode),
    {
        match mode {
            FifoMode::Drawing(_) => 0xFF,
            _ => self.data[(self.index % 64) as usize],
        }
    }

    /// Looks a colour up.
    pub fn color(&self, palette: u8, color: u8) -> (r: Rgba)
        ensures
            r == self.color_spec(palette, color),
    {
        let offset: usize = ((palette % 8) * 8 + (color % 4) * 2) as usize;
        rgb555(self.data[offset], self.data[offset + 1])
    }
}

impl Default for CgbPalette {
    fn default() -> (r: Self)
        ensures
            r == CgbPalette::initial(),
    {
        CgbPalette::new()
    }
}

} // verus!
