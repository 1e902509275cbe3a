//! LCDC, the control register of the display.

use vstd::prelude::*;

verus! {

/// LCDC as one byte.
#[derive(Clone, Copy, Debug, PartialEq, Eq, Structural)]
pub struct LcdControl {
    pub bits: u8,
}

impl LcdControl {
    /// Bit 7: the display is on. The unit counts its dots whatever the bit holds.
    #[verifier::allow_in_spec]
    pub fn lcd_enabled(self) -> bool
        returns
            self.bits >= 128,
    {
        self.bits >= 128
    }

    /// Bit 6: the window reads the tile map at 0x9C00, else the one at 0x9800.
    #[verifier::allow_in_spec]
    pub fn window_tile_map_high(self) -> bool
        returns
            (self.bits / 64) % 2 == 1,
    {
        (self.bits / 64) % 2 == 1
    }

    /// Bit 5: the window is shown.
    #[verifier::allow_in_spec]
    pub fn window_enabled(self) -> bool
        returns
            (self.bits / 32) % 2 == 1,
    {
        (self.bits / 32) % 2 == 1
    }

    /// Bit 4: background and window tiles are numbered 0 to 255 from 0x8000, else
    /// -128 to 127 around 0x9000.
    #[verifier::allow_in_spec]
    pub fn unsigned_tile_data(self) -> bool
        returns
            (self.bits / 16) % 2 == 1,
    {
        (self.bits / 16) % 2 == 1
    }

    /// Bit 3: the background reads the tile map at 0x9C00, else the one at 0x9800.
    #[verifier::allow_in_spec]
    pub fn background_tile_map_high(self) -> bool
        returns
            (self.bits / 8) % 2 == 1,
    {
        (self.bits / 8) % 2 == 1
    }

    /// Bit 2: sprites are 16 rows tall, else 8.
    #[verifier::allow_in_spec]
    pub fn tall_sprites(self) -> bool
        returns
            (self.bits / 4) % 2 == 1,
    {
        (self.bits / 4) % 2 == 1
    }

    /// Bit 1: sprites are shown.
    #[verifier::allow_in_spec]
    pub fn sprites_enabled(self) -> bool
        returns
            (self.bits / 2) % 2 == 1,
    {
        (self.bits / 2) % 2 == 1
    }

    /// Bit 0: the background is shown.
    #[verifier::allow_in_spec]
    pub fn background_enabled(self) -> bool
        returns
            self.bits % 2 == 1,
    {
        self.bits % 2 == 1
    }

    /// The height of a sprite in rows.
    #[verifier::allow_in_spec]
    pub fn sprite_height(self) -> u8
        returns
            (if (self.bits / 4) % 2 == 1 {
                16u8
            } else {
                8u8
            }),
    {
        if (self.bits / 4) % 2 == 1 {
            16
        } else {
            8
        }
    }
}

impl Default for LcdControl {
    /// The display on, tiles numbered from 0x8000, the background shown.
    fn default() -> (r: Self)
        ensures
            r.bits == 0x91,
    {
        LcdControl { bits: 0x91 }
    }
}

} // verus!
