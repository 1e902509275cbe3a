//! What the unit reads for itself: tile maps, tile data and sprite entries, and
//! the steps of the sprite scan and of the two pixel fetchers.

use vstd::prelude::*;
use crate::ppu::fifo_mode::{DrawingState, OamScanState, PixelFetcherState};
use crate::ppu::pixel::{tile_row, tile_row_spec};
use crate::ppu::Ppu;

verus! {

/// One entry of the sprite table.
#[derive(Clone, Copy, Debug, PartialEq, Eq, Structural)]
pub struct SpriteAttribute {
    /// The row of the sprite's top edge, plus 16.
    pub y: u8,
    /// The column of the sprite's left edge, plus 8.
    pub x: u8,
    pub tile: u8,
    /// Bit 7: the sprite yields to the background; bit 6: flipped top to bottom;
    /// bit 5: flipped left to right; bit 4: greyscale palette; bit 3: tile bank and
    /// bits 0 to 2: palette, both of the Color hardware.
    pub flags: u8,
}

/// What an attribute byte says, of a background tile of the Color hardware or of
/// a sprite.
#[derive(Clone, Copy, Debug, PartialEq, Eq, Structural)]
pub struct TileAttribute {
    pub palette: u8,
    pub bank: bool,
    pub flip_x: bool,
    pub flip_y: bool,
    pub priority: bool,
}

/// The attributes of a background or window tile: those of its attribute byte on
/// the Color hardware, none elsewhere.
pub open spec fn background_attribute(cgb: bool, attr: u8) -> TileAttribute {
    if cgb {
        TileAttribute {
            palette: attr % 8,
            bank: (attr / 8) % 2 == 1,
            flip_x: (attr / 32) % 2 == 1,
            flip_y: (attr / 64) % 2 == 1,
            priority: attr >= 128,
        }
    } else {
        TileAttribute { palette: 0, bank: false, flip_x: false, flip_y: false, priority: false }
    }
}

/// The attributes of a sprite: the palette is one of eight on the Color hardware,
/// one of two elsewhere.
pub open spec fn sprite_attribute(cgb: bool, flags: u8) -> TileAttribute {
    TileAttribute {
        palette: if cgb {
            flags % 8
        } else {
            (flags / 16) % 2
        },
        bank: cgb && (flags / 8) % 2 == 1,
        flip_x: (flags / 32) % 2 == 1,
        flip_y: (flags / 64) % 2 == 1,
        priority: flags >= 128,
    }
}

/// The address of entry `id` of a tile map: the map at 0x9C00 or the one at 0x9800.
pub open spec fn tile_map_address(high: bool, id: u16) -> u16 {
    ((if high {
        0x9C00int
    } else {
        0x9800
    }) + id % 0x400) as u16
}

/// The address of byte `offset` of background tile `id`: tiles are numbered 0 to
/// 255 from 0x8000, or -128 to 127 around 0x9000.
pub open spec fn tile_data_address(unsigned: bool, id: u8, offset: u8) -> u16 {
    (if unsigned {
        0x8000 + id * 16 + offset % 16
    } else if id < 128 {
        0x9000 + id * 16 + offset % 16
    } else {
        0x8800 + (id - 128) * 16 + offset % 16
    }) as u16
}

/// The address of byte `offset` of sprite tile `id`.
pub open spec fn sprite_data_address(id: u8, offset: u8) -> u16 {
    (0x8000 + id * 16 + offset % 16) as u16
}

/// Reads the attribute byte of a background or window tile.
pub fn read_background_attribute(cgb: bool, attr: u8) -> (r: TileAttribute)
    ensures
        r == background_attribute(cgb, attr),
{
    if cgb {
        TileAttribute {
            palette: attr % 8,
            bank: (attr / 8) % 2 == 1,
            flip_x: (attr / 32) % 2 == 1,
            flip_y: (attr / 64) % 2 == 1,
            priority: attr >= 128,
        }
    } else {
        TileAttribute { palette: 0, bank: false, flip_x: false, flip_y: false, priority: false }
    }
}

/// Reads the flags of a sprite.
pub fn read_sprite_flags(cgb: bool, flags: u8) -> (r: TileAttribute)
    ensures
        r == sprite_attribute(cgb, flags),
{
    TileAttribute {
        palette: if cgb {
            flags % 8
        } else {
            (flags / 16) % 2
        },
        bank: cgb && (flags / 8) % 2 == 1,
        flip_x: (flags / 32) % 2 == 1,
        flip_y: (flags / 64) % 2 == 1,
        priority: flags >= 128,
    }
}

impl Ppu {
    /// Entry `id` of the sprite table; all zero beyond the fortieth.
    pub open spec fn sprite_attribute_spec(self, id: u8) -> SpriteAttribute {
        if id < 40 {
            SpriteAttribute {
                y: self.oam[id * 4],
                x: self.oam[id * 4 + 1],
                tile: self.oam[id * 4 + 2],
                flags: self.oam[id * 4 + 3],
            }
        } else {
            SpriteAttribute { y: 0, x: 0, tile: 0, flags: 0 }
        }
    }

    /// Entry `k` of the secondary table; all zero beyond the tenth.
    pub open spec fn selected_sprite(self, k: u8) -> SpriteAttribute {
        if k < 10 {
            SpriteAttribute {
                y: self.secondary_oam[k * 4],
                x: self.secondary_oam[k * 4 + 1],
                tile: self.secondary_oam[k * 4 + 2],
                flags: self.secondary_oam[k * 4 + 3],
            }
        } else {
            SpriteAttribute { y: 0, x: 0, tile: 0, flags: 0 }
        }
    }

    /// Entry `id` of the tile map that LCDC names for the background or the window.
    pub open spec fn tile_index_spec(self, id: u16, window: bool) -> u8 {
        self.vram_at(false, tile_map_address(self.map_is_high(window), id))
    }

    /// Whether the background, or the window, reads the tile map at 0x9C00.
    pub open spec fn map_is_high(self, window: bool) -> bool {
        if window {
            self.lcd_control_reg.window_tile_map_high()
        } else {
            self.lcd_control_reg.background_tile_map_high()
        }
    }

    /// The attribute byte of entry `id` of the tile map. The Color hardware keeps
    /// it in the second bank at the address of the entry; elsewhere there is none.
    pub open spec fn tile_attribute_spec(self, id: u16, window: bool) -> u8 {
        if self.cgb {
            self.vram_at(true, tile_map_address(self.map_is_high(window), id))
        } else {
            0
        }
    }

    /// Byte `offset` of background tile `id` in the given bank.
    pub open spec fn bg_win_tile_spec(self, id: u8, offset: u8, bank: bool) -> u8 {
        self.vram_at(
            bank,
            tile_data_address(self.lcd_control_reg.unsigned_tile_data(), id, offset),
        )
    }

    /// Byte `offset` of sprite tile `id` in the given bank.
    pub open spec fn obj_tile_spec(self, id: u8, offset: u8, bank: bool) -> u8 {
        self.vram_at(bank, sprite_data_address(id, offset))
    }

    /// The row of a sprite that lies on the current scanline, counted from the
    /// sprite's top: `LY - (Y - 16)`.
    pub open spec fn fine_y(self, sprite_y: u8) -> int {
        self.y + 16 - sprite_y
    }

    /// Whether a sprite with the given Y lies on the current scanline.
    pub open spec fn sprite_on_line(self, sprite_y: u8) -> bool {
        0 <= self.fine_y(sprite_y) < self.lcd_control_reg.sprite_height()
    }

    /// The entry of the background or window tile map that the fetcher reads:
    /// `((LY + SCY) / 8) * 32 + (SCX / 8 + fetcher_x) % 32` for the background,
    /// `(window_line / 8) * 32 + fetcher_x` for the window.
    pub open spec fn tile_map_index(self, d: DrawingState) -> u16 {
        if d.is_window {
            ((self.window_line / 8) * 32 + d.fetcher_x % 32) as u16
        } else {
            ((((self.y + self.scroll_y) % 256) / 8) * 32 + (self.scroll_x / 8 + d.fetcher_x) % 32) as u16
        }
    }

    /// The offset in its tile of the low byte of the row that the fetcher reads.
    pub open spec fn tile_row_offset(self, d: DrawingState) -> u8 {
        let line = if d.is_window {
            self.window_line as int % 8
        } else {
            (self.y + self.scroll_y) % 8
        };
        if background_attribute(self.cgb, d.tile_attr).flip_y {
            ((7 - line) * 2) as u8
        } else {
            (line * 2) as u8
        }
    }

    /// The tile and the offset in it of the low byte of the row of `sprite` that
    /// lies on the current scanline. A tall sprite is two tiles, the upper one even.
    pub open spec fn sprite_row(self, sprite: SpriteAttribute) -> (u8, u8) {
        let height = self.lcd_control_reg.sprite_height();
        let fine = if self.sprite_on_line(sprite.y) {
            self.fine_y(sprite.y)
        } else {
            0
        };
        let line = if sprite_attribute(self.cgb, sprite.flags).flip_y {
            height - 1 - fine
        } else {
            fine
        };
        if height == 16 {
            ((sprite.tile - sprite.tile % 2 + line / 8) as u8, ((line % 8) * 2) as u8)
        } else {
            (sprite.tile, (line * 2) as u8)
        }
    }

    /// One dot of the sprite scan. On an even dot the entry under the scan is
    /// tested against the scanline. On an odd dot an entry that passed is copied to
    /// the secondary table, unless that holds ten already, and the scan moves on.
    pub open spec fn oam_scan_spec(self, s: OamScanState) -> (Ppu, OamScanState) {
        if s.oam_pointer + 4 > 0xA0 {
            (self, s)
        } else if self.cycle % 2 == 0 {
            (self, OamScanState { is_visible: self.sprite_on_line(self.oam[s.oam_pointer as int]), ..s })
        } else if s.is_visible && self.sprite_count < 10 && s.secondary_oam_pointer + 4 <= 40 {
            let from = s.oam_pointer as int;
            let to = s.secondary_oam_pointer as int;
            let a = vstd::array::spec_array_update(self.secondary_oam, to, self.oam[from]);
            let b = vstd::array::spec_array_update(a, to + 1, self.oam[from + 1]);
            let c = vstd::array::spec_array_update(b, to + 2, self.oam[from + 2]);
            let d = vstd::array::spec_array_update(c, to + 3, self.oam[from + 3]);
            (
                Ppu { secondary_oam: d, sprite_count: (self.sprite_count + 1) as u8, ..self },
                OamScanState {
                    oam_pointer: (s.oam_pointer + 4) as usize,
                    secondary_oam_pointer: (s.secondary_oam_pointer + 4) as usize,
                    ..s
                },
            )
        } else {
            (self, OamScanState { oam_pointer: (s.oam_pointer + 4) as usize, ..s })
        }
    }

    /// One dot of a step of the background fetcher that reads: each takes two dots
    /// and does its reading on the first.
    pub open spec fn background_read_spec(self, d: DrawingState) -> DrawingState {
        let attr = background_attribute(self.cgb, d.tile_attr);
        match d.pixel_fetcher {
            PixelFetcherState::GetTile => if d.cycle == 0 {
                DrawingState {
                    tile_idx: self.tile_index_spec(self.tile_map_index(d), d.is_window),
                    tile_attr: self.tile_attribute_spec(self.tile_map_index(d), d.is_window),
                    cycle: 1,
                    ..d
                }
            } else {
                DrawingState { pixel_fetcher: PixelFetcherState::GetTileLow, cycle: 0, ..d }
            },
            PixelFetcherState::GetTileLow => if d.cycle == 0 {
                DrawingState {
                    tile_low: self.bg_win_tile_spec(d.tile_idx, self.tile_row_offset(d), attr.bank),
                    cycle: 1,
                    ..d
                }
            } else {
                DrawingState { pixel_fetcher: PixelFetcherState::GetTileHigh, cycle: 0, ..d }
            },
            PixelFetcherState::GetTileHigh => if d.cycle == 0 {
                DrawingState {
                    buffer: tile_row_spec(
                        d.tile_low,
                        self.bg_win_tile_spec(
                            d.tile_idx,
                            (self.tile_row_offset(d) + 1) as u8,
                            attr.bank,
                        ),
                        attr.palette,
                        attr.priority,
                        attr.flip_x,
                    ),
                    cycle: 1,
                    ..d
                }
            } else {
                DrawingState { pixel_fetcher: PixelFetcherState::Sleep, cycle: 0, ..d }
            },
            PixelFetcherState::Sleep => if d.cycle == 0 {
                DrawingState { cycle: 1, ..d }
            } else {
                DrawingState { pixel_fetcher: PixelFetcherState::Push, cycle: 0, ..d }
            },
            PixelFetcherState::Push => d,
        }
    }

    /// One dot of the background fetcher. Its last step waits until the queue has
    /// room for eight pixels and puts the row in.
    pub open spec fn fetch_background_spec(self, d: DrawingState) -> (Ppu, DrawingState) {
        if d.pixel_fetcher != PixelFetcherState::Push {
            (self, self.background_read_spec(d))
        } else if self.background_pixel_pipeline.has_room() {
            (
                Ppu {
                    background_pixel_pipeline: self.background_pixel_pipeline.load_spec(d.buffer),
                    ..self
                },
                DrawingState {
                    pixel_fetcher: PixelFetcherState::GetTile,
                    cycle: 0,
                    fetcher_x: ((d.fetcher_x + 1) % 256) as u8,
                    ..d
                },
            )
        } else {
            (self, d)
        }
    }

    /// One dot of a step of the sprite fetcher that reads, at work on entry
    /// `sprite_idx` of the secondary table.
    pub open spec fn sprite_read_spec(self, d: DrawingState) -> DrawingState {
        let sprite = self.selected_sprite(d.sprite_idx);
        let attr = sprite_attribute(self.cgb, sprite.flags);
        let (tile, offset) = self.sprite_row(sprite);
        match d.sprite_fetcher {
            PixelFetcherState::GetTile => if d.sprite_cycle == 0 {
                DrawingState { sprite_cycle: 1, ..d }
            } else {
                DrawingState { sprite_fetcher: PixelFetcherState::GetTileLow, sprite_cycle: 0, ..d }
            },
            PixelFetcherState::GetTileLow => if d.sprite_cycle == 0 {
                DrawingState {
                    sprite_low: self.obj_tile_spec(tile, offset, attr.bank),
                    sprite_cycle: 1,
                    ..d
                }
            } else {
                DrawingState { sprite_fetcher: PixelFetcherState::GetTileHigh, sprite_cycle: 0, ..d }
            },
            PixelFetcherState::GetTileHigh => if d.sprite_cycle == 0 {
                DrawingState {
                    sprite_buffer: tile_row_spec(
                        d.sprite_low,
                        self.obj_tile_spec(tile, (offset + 1) as u8, attr.bank),
                        attr.palette,
                        attr.priority,
                        attr.flip_x,
                    ),
                    sprite_cycle: 1,
                    ..d
                }
            } else {
                DrawingState { sprite_fetcher: PixelFetcherState::Push, sprite_cycle: 0, ..d }
            },
            _ => d,
        }
    }

    /// Whether the sprite fetcher is at a step that reads.
    pub open spec fn sprite_fetcher_reads(d: DrawingState) -> bool {
        d.sprite_fetcher == PixelFetcherState::GetTile || d.sprite_fetcher
            == PixelFetcherState::GetTileLow || d.sprite_fetcher == PixelFetcherState::GetTileHigh
    }

    /// One dot of the sprite fetcher. Its last step lays the row over the sprite
    /// queue, leaving out the pixels left of the screen, and lets the background
    /// fetcher and the output go on.
    pub open spec fn fetch_sprite_spec(self, d: DrawingState) -> (Ppu, DrawingState) {
        if Ppu::sprite_fetcher_reads(d) {
            (self, self.sprite_read_spec(d))
        } else {
            let sprite = self.selected_sprite(d.sprite_idx);
            (
                Ppu {
                    sprite_pixel_pipeline: self.sprite_pixel_pipeline.merge_spec(
                        d.sprite_buffer,
                        if sprite.x < 8 {
                            (8 - sprite.x) as u8
                        } else {
                            0
                        },
                    ),
                    ..self
                },
                DrawingState {
                    is_sprite: false,
                    sprite_idx: ((d.sprite_idx + 1) % 256) as u8,
                    sprite_fetcher: PixelFetcherState::GetTile,
                    sprite_cycle: 0,
                    ..d
                },
            )
        }
    }

    /// Whether entry `k` of the secondary table begins at the column of the next
    /// pixel. A sprite that hangs over the left edge begins at column 0; one with
    /// X of 0, or of 168 and more, is off the screen.
    pub open spec fn sprite_matches(self, k: u8) -> bool {
        let sx = self.selected_sprite(k).x;
        0 < sx < 168 && self.x == (if sx <= 8 {
            0
        } else {
            sx - 8
        })
    }

    /// The first entry of the secondary table from `from` on that begins at the
    /// column of the next pixel.
    pub open spec fn find_sprite_spec(self, from: u8) -> Option<u8>
        decreases 10 - from,
    {
        if from >= self.sprite_count || from >= 10 {
            None
        } else if self.sprite_matches(from) {
            Some(from)
        } else {
            self.find_sprite_spec((from + 1) as u8)
        }
    }

    /// Reads entry `id` of the sprite table.
    pub fn read_sprite_attribute(&self, id: u8) -> (r: SpriteAttribute)
        ensures
            r == self.sprite_attribute_spec(id),
    {
        if id < 40 {
            let base: usize = id as usize * 4;
            SpriteAttribute {
                y: self.oam[base],
                x: self.oam[base + 1],
                tile: self.oam[base + 2],
                flags: self.oam[base + 3],
            }
        } else {
            SpriteAttribute { y: 0, x: 0, tile: 0, flags: 0 }
        }
    }

    /// Reads entry `k` of the secondary table.
    pub fn read_selected_sprite(&self, k: u8) -> (r: SpriteAttribute)
        ensures
            r == self.selected_sprite(k),
    {
        if k < 10 {
            let base: usize = k as usize * 4;
            SpriteAttribute {
                y: self.secondary_oam[base],
                x: self.secondary_oam[base + 1],
                tile: self.secondary_oam[base + 2],
                flags: self.secondary_oam[base + 3],
            }
        } else {
            SpriteAttribute { y: 0, x: 0, tile: 0, flags: 0 }
        }
    }

    fn tile_map_is_high(&self, window: bool) -> (r: bool)
        ensures
            r == self.map_is_high(window),
    {
        if window {
            self.lcd_control_reg.window_tile_map_high()
        } else {
            self.lcd_control_reg.background_tile_map_high()
        }
    }

    /// Reads entry `id` of the tile map of the background or the window.
    pub fn read_tile_index(&self, id: u16, window: bool) -> (r: u8)
        ensures
            r == self.tile_index_spec(id, window),
    {
        let base: u16 = if self.tile_map_is_high(window) {
            0x9C00
        } else {
            0x9800
        };
        self.read_vram_unblocked(false, base + id % 0x400)
    }

    /// Reads the attribute byte of entry `id` of the tile map.
    pub fn read_tile_attribute(&self, id: u16, window: bool) -> (r: u8)
        ensures
            r == self.tile_attribute_spec(id, window),
    {
        if self.cgb {
            let base: u16 = if self.tile_map_is_high(window) {
                0x9C00
            } else {
                0x9800
            };
            self.read_vram_unblocked(true, base + id % 0x400)
        } else {
            0
        }
    }

    /// Reads one byte of a background or window tile.
    pub fn read_bg_win_tile(&self, id: u8, offset: u8, bank: bool) -> (r: u8)
        ensures
            r == self.bg_win_tile_spec(id, offset, bank),
    {
        if self.lcd_control_reg.unsigned_tile_data() {
            self.read_obj_tile(id, offset, bank)
        } else {
            let addr: u16 = if id < 128 {
                0x9000 + id as u16 * 16 + (offset % 16) as u16
            } else {
                0x8800 + (id - 128) as u16 * 16 + (offset % 16) as u16
            };
            self.read_vram_unblocked(bank, addr)
        }
    }

    /// Reads one byte of a sprite tile.
    pub fn read_obj_tile(&self, id: u8, offset: u8, bank: bool) -> (r: u8)
        ensures
            r == self.obj_tile_spec(id, offset, bank),
    {
        self.read_vram_unblocked(bank, 0x8000 + id as u16 * 16 + (offset % 16) as u16)
    }

    fn is_on_line(&self, sprite_y: u8) -> (r: bool)
        ensures
            r == self.sprite_on_line(sprite_y),
    {
        let top: u16 = self.y as u16 + 16;
        top >= sprite_y as u16 && top - (sprite_y as u16) < self.lcd_control_reg.sprite_height() as u16
    }

    fn map_index(&self, d: &DrawingState) -> (r: u16)
        ensures
            r == self.tile_map_index(*d),
    {
        if d.is_window {
            (self.window_line / 8) as u16 * 32 + (d.fetcher_x % 32) as u16
        } else {
            let row: u16 = (self.y.wrapping_add(self.scroll_y) / 8) as u16;
            let column: u16 = ((self.scroll_x / 8) as u16 + d.fetcher_x as u16) % 32;
            row * 32 + column
        }
    }

    fn row_offset(&self, d: &DrawingState) -> (r: u8)
        ensures
            r == self.tile_row_offset(*d),
            r <= 14,
    {
        let line: u8 = if d.is_window {
            self.window_line % 8
        } else {
            self.y.wrapping_add(self.scroll_y) % 8
        };
        if read_background_attribute(self.cgb, d.tile_attr).flip_y {
            (7 - line) * 2
        } else {
            line * 2
        }
    }

    fn row_of_sprite(&self, sprite: &SpriteAttribute) -> (r: (u8, u8))
        ensures
            r == self.sprite_row(*sprite),
            r.1 <= 30,
    {
        let height: u8 = self.lcd_control_reg.sprite_height();
        let fine: u8 = if self.is_on_line(sprite.y) {
            (self.y as u16 + 16 - sprite.y as u16) as u8
        } else {
            0
        };
        let line: u8 = if read_sprite_flags(self.cgb, sprite.flags).flip_y {
            height - 1 - fine
        } else {
            fine
        };
        if height == 16 {
            (sprite.tile - sprite.tile % 2 + line / 8, (line % 8) * 2)
        } else {
            (sprite.tile, line * 2)
        }
    }

    /// Runs one dot of the sprite scan.
    pub fn oam_scan(&mut self, s: OamScanState) -> (r: OamScanState)
        ensures
            (*final(self), r) == old(self).oam_scan_spec(s),
    {
        let mut s = s;
        if s.oam_pointer > 0xA0 - 4 {
            return s;
        }
        if self.cycle % 2 == 0 {
            s.is_visible = self.is_on_line(self.oam[s.oam_pointer]);
        } else {
            if s.is_visible && self.sprite_count < 10 && s.secondary_oam_pointer <= 36 {
                let to: usize = s.secondary_oam_pointer;
                self.secondary_oam[to] = self.oam[s.oam_pointer];
                self.secondary_oam[to + 1] = self.oam[s.oam_pointer + 1];
                self.secondary_oam[to + 2] = self.oam[s.oam_pointer + 2];
                self.secondary_oam[to + 3] = self.oam[s.oam_pointer + 3];
                self.sprite_count = self.sprite_count + 1;
                s.secondary_oam_pointer = s.secondary_oam_pointer + 4;
            }
            s.oam_pointer = s.oam_pointer + 4;
        }
        s
    }

    /// Runs one dot of a reading step of the background fetcher.
    fn background_read(&self, d: DrawingState) -> (r: DrawingState)
        ensures
            r == self.background_read_spec(d),
    {
        let mut d = d;
        let attr = read_background_attribute(self.cgb, d.tile_attr);
        match d.pixel_fetcher {
            PixelFetcherState::GetTile => {
                if d.cycle == 0 {
                    let id: u16 = self.map_index(&d);
                    d.tile_idx = self.read_tile_index(id, d.is_window);
                    d.tile_attr = self.read_tile_attribute(id, d.is_window);
                    d.cycle = 1;
                } else {
                    d.pixel_fetcher = PixelFetcherState::GetTileLow;
                    d.cycle = 0;
                }
            },
            PixelFetcherState::GetTileLow => {
                if d.cycle == 0 {
                    d.tile_low = self.read_bg_win_tile(d.tile_idx, self.row_offset(&d), attr.bank);
                    d.cycle = 1;
                } else {
                    d.pixel_fetcher = PixelFetcherState::GetTileHigh;
                    d.cycle = 0;
                }
            },
            PixelFetcherState::GetTileHigh => {
                if d.cycle == 0 {
                    let high: u8 = self.read_bg_win_tile(
                        d.tile_idx,
                        self.row_offset(&d) + 1,
                        attr.bank,
                    );
                    d.buffer = tile_row(d.tile_low, high, attr.palette, attr.priority, attr.flip_x);
                    d.cycle = 1;
                } else {
                    d.pixel_fetcher = PixelFetcherState::Sleep;
                    d.cycle = 0;
                }
            },
            PixelFetcherState::Sleep => {
                if d.cycle == 0 {
                    d.cycle = 1;
                } else {
                    d.pixel_fetcher = PixelFetcherState::Push;
                    d.cycle = 0;
                }
            },
            PixelFetcherState::Push => {},
        }
        d
    }

    /// Puts the fetched row into the background queue.
    fn push_background(&mut self, d: DrawingState) -> (r: DrawingState)
        requires
            old(self).background_pixel_pipeline.has_room(),
        ensures
            *final(self) == (Ppu {
                background_pixel_pipeline: old(self).background_pixel_pipeline.load_spec(d.buffer),
                ..*old(self)
            }),
            r == (DrawingState {
                pixel_fetcher: PixelFetcherState::GetTile,
                cycle: 0,
                fetcher_x: ((d.fetcher_x + 1) % 256) as u8,
                ..d
            }),
    {
        self.background_pixel_pipeline.load(d.buffer);
        let next: u8 = if d.fetcher_x == 255 {
            0
        } else {
            d.fetcher_x + 1
        };
        DrawingState { pixel_fetcher: PixelFetcherState::GetTile, cycle: 0, fetcher_x: next, ..d }
    }

    /// Runs one dot of the background fetcher.
    #[verifier::rlimit(50)]
    pub fn fetch_background(&mut self, d: DrawingState) -> (r: DrawingState)
        ensures
            (*final(self), r) == old(self).fetch_background_spec(d),
    {
        match d.pixel_fetcher {
            PixelFetcherState::Push => {
                if self.background_pixel_pipeline.n_pixels <= 8 {
                    self.push_background(d)
                } else {
                    d
                }
            },
            _ => self.background_read(d),
        }
    }

    /// Runs one dot of a reading step of the sprite fetcher.
    fn sprite_read(&self, d: DrawingState) -> (r: DrawingState)
        ensures
            r == self.sprite_read_spec(d),
    {
        let mut d = d;
        let sprite = self.read_selected_sprite(d.sprite_idx);
        let attr = read_sprite_flags(self.cgb, sprite.flags);
        let (tile, offset) = self.row_of_sprite(&sprite);
        match d.sprite_fetcher {
            PixelFetcherState::GetTile => {
                if d.sprite_cycle == 0 {
                    d.sprite_cycle = 1;
                } else {
                    d.sprite_fetcher = PixelFetcherState::GetTileLow;
                    d.sprite_cycle = 0;
                }
            },
            PixelFetcherState::GetTileLow => {
                if d.sprite_cycle == 0 {
                    d.sprite_low = self.read_obj_tile(tile, offset, attr.bank);
                    d.sprite_cycle = 1;
                } else {
                    d.sprite_fetcher = PixelFetcherState::GetTileHigh;
                    d.sprite_cycle = 0;
                }
            },
            PixelFetcherState::GetTileHigh => {
                if d.sprite_cycle == 0 {
                    let high: u8 = self.read_obj_tile(tile, offset + 1, attr.bank);
                    d.sprite_buffer = tile_row(
                        d.sprite_low,
                        high,
                        attr.palette,
                        attr.priority,
                        attr.flip_x,
                    );
                    d.sprite_cycle = 1;
                } else {
                    d.sprite_fetcher = PixelFetcherState::Push;
                    d.sprite_cycle = 0;
                }
            },
            _ => {},
        }
        d
    }

    /// Lays the fetched sprite row over the sprite queue.
    fn push_sprite(&mut self, d: DrawingState) -> (r: DrawingState)
        ensures
            *final(self) == (Ppu {
                sprite_pixel_pipeline: old(self).sprite_pixel_pipeline.merge_spec(
                    d.sprite_buffer,
                    if old(self).selected_sprite(d.sprite_idx).x < 8 {
                        (8 - old(self).selected_sprite(d.sprite_idx).x) as u8
                    } else {
                        0
                    },
                ),
                ..*old(self)
            }),
            r == (DrawingState {
                is_sprite: false,
                sprite_idx: ((d.sprite_idx + 1) % 256) as u8,
                sprite_fetcher: PixelFetcherState::GetTile,
                sprite_cycle: 0,
                ..d
            }),
    {
        let sprite = self.read_selected_sprite(d.sprite_idx);
        let skip: u8 = if sprite.x < 8 {
            8 - sprite.x
        } else {
            0
        };
        self.sprite_pixel_pipeline.merge(d.sprite_buffer, skip);
        let next: u8 = if d.sprite_idx == 255 {
            0
        } else {
            d.sprite_idx + 1
        };
        DrawingState {
            is_sprite: false,
            sprite_idx: next,
            sprite_fetcher: PixelFetcherState::GetTile,
            sprite_cycle: 0,
            ..d
        }
    }

    /// Runs one dot of the sprite fetcher.
    #[verifier::rlimit(50)]
    pub fn fetch_sprite(&mut self, d: DrawingState) -> (r: DrawingState)
        ensures
            (*final(self), r) == old(self).fetch_sprite_spec(d),
    {
        match d.sprite_fetcher {
            PixelFetcherState::GetTile | PixelFetcherState::GetTileLow
            | PixelFetcherState::GetTileHigh => self.sprite_read(d),
            _ => self.push_sprite(d),
        }
    }

    /// Looks in the secondary table, from entry `from` on, for a sprite that
    /// begins at the column of the next pixel.
    pub fn find_sprite(&self, from: u8) -> (r: Option<u8>)
        ensures
            r == self.find_sprite_spec(from),
    {
        let mut k: u8 = from;
        while k < self.sprite_count && k < 10
            invariant
                from <= k,
                self.find_sprite_spec(from) == self.find_sprite_spec(k),
            decreases 10 - k,
        {
            let sx: u8 = self.read_selected_sprite(k).x;
            let column: u8 = if sx <= 8 {
                0
            } else {
                sx - 8
            };
            if 0 < sx && sx < 168 && self.x == column {
                return Some(k);
            }
            k = k + 1;
        }
        None
    }
}

} // verus!
