//! Laws of the picture processing unit: what a drawn line shows.
//!
//! The background is a plane of 256 by 256 pixels made of 32 by 32 tiles. With
//! the window and the sprites switched off, on the greyscale hardware, every
//! pixel that the unit puts out on a scanline is the pixel of that plane at
//! (`x + SCX`, `LY + SCY`), both modulo 256.

use vstd::prelude::*;
use crate::interrupt::InterruptState;
use crate::ppu::fifo_mode::{DrawingState, FifoMode, PixelFetcherState};
use crate::ppu::pixel::{grey_rgba, row_color, shade_spec, tile_row_spec, Rgba};
use crate::ppu::pixel_fifo::{lemma_load_pixels, lemma_pop_pixels};
use crate::ppu::render::frame_offset;
use crate::ppu::{Ppu, FRAME_BYTES};

verus! {

/// The colour of the pixel in row `y`, column `x` of a frame.
pub open spec fn pixel_at(frame: [u8; FRAME_BYTES], x: int, y: int) -> Rgba {
    let base = (y * 160 + x) * 4;
    Rgba { r: frame[base], g: frame[base + 1], b: frame[base + 2], a: frame[base + 3] }
}

impl Ppu {
    /// The colour index of the background plane at (`bx`, `by`): the tile map
    /// entry of the tile that holds the pixel names a tile, and the two bytes of
    /// that tile's row hold the pixel's two bits.
    #[verifier::opaque]
    pub open spec fn background_color(self, bx: int, by: int) -> int {
        let id = self.tile_index_spec(((by / 8) * 32 + bx / 8) as u16, false);
        let offset = ((by % 8) * 2) as u8;
        row_color(
            self.bg_win_tile_spec(id, offset, false),
            self.bg_win_tile_spec(id, (offset + 1) as u8, false),
            (bx % 8) as u8,
            false,
        )
    }

    /// The screen colour that the greyscale hardware gives the background plane
    /// at (`bx`, `by`).
    pub open spec fn background_rgba(self, bx: int, by: int) -> Rgba {
        grey_rgba(shade_spec(self.greyscale_bg_palette, self.background_color(bx, by) as u8))
    }

    /// Whether the unit draws the background and nothing else: it is the
    /// greyscale hardware, the background is switched on, the window and the
    /// sprites are switched off, and the current scanline is a visible one.
    pub open spec fn draws_plain_background(self) -> bool {
        &&& !self.cgb
        &&& self.lcd_control_reg.background_enabled()
        &&& !self.lcd_control_reg.window_enabled()
        &&& !self.lcd_control_reg.sprites_enabled()
        &&& self.y < 144
    }

    /// Whether `other` has the same background, scroll, palette, control register
    /// and scanline as this unit.
    pub open spec fn same_setting(self, other: Ppu) -> bool {
        &&& self.vram == other.vram
        &&& self.scroll_x == other.scroll_x
        &&& self.scroll_y == other.scroll_y
        &&& self.y == other.y
        &&& self.cgb == other.cgb
        &&& self.lcd_control_reg == other.lcd_control_reg
        &&& self.greyscale_bg_palette == other.greyscale_bg_palette
    }

    /// The fetcher state that reads tile `k` of the line for the background.
    pub open spec fn fetch_of_tile(k: int) -> DrawingState {
        DrawingState { fetcher_x: k as u8, ..DrawingState::initial() }
    }

    /// The tile that the background fetcher reads as tile `k` of the line.
    pub open spec fn line_tile(self, k: int) -> u8 {
        self.tile_index_spec(self.tile_map_index(Ppu::fetch_of_tile(k)), false)
    }

    /// The low byte of the row of tile `k` of the line.
    pub open spec fn line_low(self, k: int) -> u8 {
        self.bg_win_tile_spec(self.line_tile(k), self.tile_row_offset(Ppu::fetch_of_tile(k)), false)
    }

    /// The high byte of the row of tile `k` of the line.
    pub open spec fn line_high(self, k: int) -> u8 {
        self.bg_win_tile_spec(
            self.line_tile(k),
            (self.tile_row_offset(Ppu::fetch_of_tile(k)) + 1) as u8,
            false,
        )
    }

    /// The `j`-th pixel that the background fetcher pushes on the current line.
    #[verifier::opaque]
    pub open spec fn fetched_pixel(self, j: int) -> u8 {
        tile_row_spec(self.line_low(j / 8), self.line_high(j / 8), 0, false, false)[j % 8]
    }

    /// How far the background fetcher has come with tile `fetcher_x` agrees with
    /// the background: what it holds of the tile is what the plane holds.
    pub open spec fn fetcher_agrees(self, d: DrawingState) -> bool {
        let k = d.fetcher_x as int;
        let tile_ok = d.tile_idx == self.line_tile(k) && d.tile_attr == 0;
        let low_ok = d.tile_low == self.line_low(k);
        let buffer_ok = forall|i: int| 0 <= i < 8 ==> #[trigger] d.buffer[i] == self.fetched_pixel(8 * k + i);
        &&& d.cycle <= 1
        &&& match d.pixel_fetcher {
            PixelFetcherState::GetTile => d.cycle == 1 ==> tile_ok,
            PixelFetcherState::GetTileLow => tile_ok && (d.cycle == 1 ==> low_ok),
            PixelFetcherState::GetTileHigh => tile_ok && low_ok && (d.cycle == 1 ==> buffer_ok),
            PixelFetcherState::Sleep => buffer_ok,
            PixelFetcherState::Push => buffer_ok,
        }
    }

    /// The number of pixels taken out of the background queue so far on the line.
    pub open spec fn popped(self, d: DrawingState) -> int {
        8 * d.fetcher_x - self.background_pixel_pipeline.n_pixels
    }

    /// The background queue agrees with the background: it holds the pixels that
    /// follow those taken out, and of those taken out the first `SCX % 8` were
    /// dropped and the rest put out.
    pub open spec fn queue_agrees(self, d: DrawingState) -> bool {
        let fifo = self.background_pixel_pipeline;
        &&& fifo.head < 16
        &&& fifo.n_pixels <= 16
        &&& d.discard <= self.scroll_x % 8
        &&& (d.discard > 0 ==> self.x == 0)
        &&& self.popped(d) == self.x + self.scroll_x % 8 - d.discard
        &&& forall|m: int|
            0 <= m < fifo.n_pixels ==> #[trigger] fifo.view()[m] == self.fetched_pixel(
                self.popped(d) + m,
            )
    }

    /// Every pixel put out so far on the line is the one fetched for its place.
    pub open spec fn frame_agrees(self) -> bool {
        forall|x: int|
            0 <= x < self.x ==> #[trigger] pixel_at(self.frame, x, self.y as int)
                == self.pixel_rgba_spec(self.fetched_pixel(x + self.scroll_x % 8), None)
    }

    /// What holds of the unit all the while it draws a line of plain background.
    #[verifier::opaque]
    pub open spec fn drawing_agrees(self) -> bool {
        &&& self.draws_plain_background()
        &&& self.frame_agrees()
        &&& match self.fifo_mode {
            FifoMode::Drawing(d) => {
                &&& !d.is_window
                &&& !d.is_sprite
                &&& self.x < 160
                &&& self.fetcher_agrees(d)
                &&& self.queue_agrees(d)
            },
            FifoMode::HBlank => self.x == 160,
            _ => false,
        }
    }
}

/// Tile `k` of the line and pixel `i` in it make pixel `8 * k + i` of the line.
pub proof fn lemma_pixel_of_tile(k: int, i: int)
    requires
        0 <= k,
        0 <= i < 8,
    ensures
        (8 * k + i) / 8 == k,
        (8 * k + i) % 8 == i,
{
    vstd::arithmetic::div_mod::lemma_fundamental_div_mod_converse(8 * k + i, 8, k, i);
}

/// The pixels of a tile row, one by one.
pub proof fn lemma_tile_row_pixels(low: u8, high: u8, palette: u8, priority: bool, flip: bool)
    ensures
        forall|i: int|
            0 <= i < 8 ==> #[trigger] tile_row_spec(low, high, palette, priority, flip)[i]
                == crate::ppu::pixel::make_pixel_spec(
                row_color(low, high, i as u8, flip),
                palette,
                priority,
            ),
{
    broadcast use vstd::array::group_array_axioms;

    let row = tile_row_spec(low, high, palette, priority, flip);
    assert(row[0] == crate::ppu::pixel::make_pixel_spec(row_color(low, high, 0, flip), palette, priority));
    assert(row[1] == crate::ppu::pixel::make_pixel_spec(row_color(low, high, 1, flip), palette, priority));
    assert(row[2] == crate::ppu::pixel::make_pixel_spec(row_color(low, high, 2, flip), palette, priority));
    assert(row[3] == crate::ppu::pixel::make_pixel_spec(row_color(low, high, 3, flip), palette, priority));
    assert(row[4] == crate::ppu::pixel::make_pixel_spec(row_color(low, high, 4, flip), palette, priority));
    assert(row[5] == crate::ppu::pixel::make_pixel_spec(row_color(low, high, 5, flip), palette, priority));
    assert(row[6] == crate::ppu::pixel::make_pixel_spec(row_color(low, high, 6, flip), palette, priority));
    assert(row[7] == crate::ppu::pixel::make_pixel_spec(row_color(low, high, 7, flip), palette, priority));
}

/// What the fetcher reads for tile `fetcher_x` does not depend on how far it has
/// come with the tile.
pub proof fn lemma_fetch_position(p: Ppu, d: DrawingState)
    requires
        !p.cgb,
        !d.is_window,
    ensures
        p.tile_map_index(d) == p.tile_map_index(Ppu::fetch_of_tile(d.fetcher_x as int)),
        p.tile_row_offset(d) == p.tile_row_offset(Ppu::fetch_of_tile(d.fetcher_x as int)),
        p.tile_row_offset(d) <= 14,
        p.tile_attribute_spec(p.tile_map_index(d), false) == 0,
        crate::ppu::fetcher::background_attribute(p.cgb, d.tile_attr)
            == (crate::ppu::fetcher::TileAttribute {
            palette: 0,
            bank: false,
            flip_x: false,
            flip_y: false,
            priority: false,
        }),
{
}

/// A reading step of the background fetcher keeps the fetcher in agreement with
/// the background.
pub proof fn lemma_read_keeps_agreement(p: Ppu, d: DrawingState)
    requires
        !p.cgb,
        !d.is_window,
        d.pixel_fetcher != PixelFetcherState::Push,
        p.fetcher_agrees(d),
    ensures
        ({
            let next = p.background_read_spec(d);
            &&& !next.is_window
            &&& next.is_sprite == d.is_sprite
            &&& next.discard == d.discard
            &&& next.fetcher_x == d.fetcher_x
            &&& p.fetcher_agrees(next)
        }),
{
    let next = p.background_read_spec(d);
    let k = d.fetcher_x as int;
    lemma_fetch_position(p, d);
    if d.pixel_fetcher == PixelFetcherState::GetTileHigh && d.cycle == 0 {
        assert(next.buffer == tile_row_spec(p.line_low(k), p.line_high(k), 0, false, false));
        assert forall|i: int| 0 <= i < 8 implies #[trigger] next.buffer[i] == p.fetched_pixel(
            8 * k + i,
        ) by {
            reveal(Ppu::fetched_pixel);
            lemma_pixel_of_tile(k, i);
        }
    } else if d.pixel_fetcher == PixelFetcherState::GetTileHigh {
        assert(next.buffer == d.buffer);
    } else if d.pixel_fetcher == PixelFetcherState::Sleep {
        assert(next.buffer == d.buffer);
    }
}

/// What the fetcher pushes on a line depends on the setting alone: two units
/// with the same background, scroll and scanline fetch the same pixels.
pub proof fn lemma_fetched_pixel_of_setting(p: Ppu, q: Ppu, j: int)
    requires
        p.same_setting(q),
    ensures
        p.fetched_pixel(j) == q.fetched_pixel(j),
        p.line_tile(j / 8) == q.line_tile(j / 8),
        p.line_low(j / 8) == q.line_low(j / 8),
{
    reveal(Ppu::fetched_pixel);
}

/// Putting the fetched row into the queue keeps the queue in agreement with the
/// background.
pub proof fn lemma_push_keeps_agreement(p: Ppu, q: Ppu, d: DrawingState, next: DrawingState)
    requires
        p.x < 160,
        p.background_pixel_pipeline.has_room(),
        p.fetcher_agrees(d),
        p.queue_agrees(d),
        d.pixel_fetcher == PixelFetcherState::Push,
        q.same_setting(p),
        q.x == p.x,
        q.background_pixel_pipeline == p.background_pixel_pipeline.load_spec(d.buffer),
        next.pixel_fetcher == PixelFetcherState::GetTile,
        next.cycle == 0,
        next.fetcher_x == ((d.fetcher_x + 1) % 256) as u8,
        next.discard == d.discard,
    ensures
        q.fetcher_agrees(next),
        q.queue_agrees(next),
{
    let fifo = p.background_pixel_pipeline;
    let loaded = q.background_pixel_pipeline;
    let k = d.fetcher_x as int;
    assert(8 * k <= 159 + 7 + 8);
    assert(next.fetcher_x == k + 1);
    lemma_load_pixels(fifo, d.buffer);
    assert(q.popped(next) == p.popped(d));
    assert forall|m: int| 0 <= m < loaded.n_pixels implies #[trigger] loaded.view()[m]
        == q.fetched_pixel(q.popped(next) + m) by {
        lemma_fetched_pixel_of_setting(p, q, p.popped(d) + m);
        if m < fifo.n_pixels {
            assert(loaded.view()[m] == fifo.view()[m]);
        } else {
            let i = m - fifo.n_pixels;
            assert(loaded.view()[fifo.n_pixels + i] == d.buffer[i]);
            assert(d.buffer[i] == p.fetched_pixel(8 * k + i));
        }
    }
}

/// Setting a pixel of a frame sets that pixel and leaves the others of its row.
pub proof fn lemma_frame_with(frame: [u8; FRAME_BYTES], x: u8, y: u8, color: Rgba, other: int)
    requires
        x < 160,
        y < 144,
        0 <= other < 160,
    ensures
        pixel_at(crate::ppu::render::frame_with(frame, x, y, color), x as int, y as int) == color,
        other != x ==> pixel_at(crate::ppu::render::frame_with(frame, x, y, color), other, y as int)
            == pixel_at(frame, other, y as int),
{
    broadcast use vstd::array::group_array_axioms;

    let base = frame_offset(x, y);
    assert(base == (y * 160 + x) * 4);
    assert(base + 3 < FRAME_BYTES);
    let there = (y * 160 + other) * 4;
    assert(other != x ==> (there + 3 < base || base + 3 < there));
}

/// With the sprites switched off the pixel shown is the background pixel,
/// whatever the sprite queue holds; and what it looks like depends on the
/// setting alone.
pub proof fn lemma_rgba_of_setting(p: Ppu, q: Ppu, bg: u8, sprite: Option<u8>)
    requires
        p.same_setting(q),
        !p.lcd_control_reg.sprites_enabled(),
        !p.cgb,
    ensures
        p.pixel_rgba_spec(bg, sprite) == q.pixel_rgba_spec(bg, None),
{
}

/// Whether the fetcher agrees with the background depends on the setting and on
/// what the fetcher holds of its tile, and on nothing else.
pub proof fn lemma_fetcher_agrees_of_setting(p: Ppu, q: Ppu, d: DrawingState, next: DrawingState)
    requires
        p.same_setting(q),
        p.fetcher_agrees(d),
        next.pixel_fetcher == d.pixel_fetcher,
        next.cycle == d.cycle,
        next.fetcher_x == d.fetcher_x,
        next.tile_idx == d.tile_idx,
        next.tile_attr == d.tile_attr,
        next.tile_low == d.tile_low,
        next.buffer == d.buffer,
    ensures
        q.fetcher_agrees(next),
{
    let k = d.fetcher_x as int;
    lemma_pixel_of_tile(k, 0);
    lemma_fetched_pixel_of_setting(p, q, 8 * k);
    if d.pixel_fetcher == PixelFetcherState::Sleep || d.pixel_fetcher == PixelFetcherState::Push || (
    d.pixel_fetcher == PixelFetcherState::GetTileHigh && d.cycle == 1) {
        assert forall|i: int| 0 <= i < 8 implies #[trigger] next.buffer[i] == q.fetched_pixel(
            8 * k + i,
        ) by {
            lemma_fetched_pixel_of_setting(p, q, 8 * k + i);
            assert(d.buffer[i] == p.fetched_pixel(8 * k + i));
        }
    }
}

/// Whether the frame agrees with the background depends on the setting, the
/// frame and the number of pixels put out, and on nothing else.
pub proof fn lemma_frame_agrees_of_setting(p: Ppu, q: Ppu)
    requires
        p.same_setting(q),
        !p.cgb,
        !p.lcd_control_reg.sprites_enabled(),
        p.frame_agrees(),
        q.frame == p.frame,
        q.x == p.x,
    ensures
        q.frame_agrees(),
{
    assert forall|x: int| 0 <= x < q.x implies #[trigger] pixel_at(q.frame, x, q.y as int)
        == q.pixel_rgba_spec(q.fetched_pixel(x + q.scroll_x % 8), None) by {
        lemma_fetched_pixel_of_setting(p, q, x + p.scroll_x % 8);
        lemma_rgba_of_setting(p, q, p.fetched_pixel(x + p.scroll_x % 8), None);
        assert(pixel_at(p.frame, x, p.y as int) == p.pixel_rgba_spec(
            p.fetched_pixel(x + p.scroll_x % 8),
            None,
        ));
    }
}

/// Taking a pixel out of the queue keeps the queue in agreement with the
/// background, whether the pixel is dropped for the fine scroll or put out.
pub proof fn lemma_pop_keeps_agreement(p: Ppu, q: Ppu, d: DrawingState, next: DrawingState)
    requires
        p.queue_agrees(d),
        p.background_pixel_pipeline.n_pixels > 0,
        p.x < 160,
        q.same_setting(p),
        q.background_pixel_pipeline == p.background_pixel_pipeline.pop_spec().0,
        next.fetcher_x == d.fetcher_x,
        d.discard > 0 ==> next.discard == d.discard - 1 && q.x == p.x,
        d.discard == 0 ==> next.discard == 0 && q.x == p.x + 1,
    ensures
        q.queue_agrees(next),
        p.background_pixel_pipeline.pop_spec().1 == Some(p.fetched_pixel(p.popped(d))),
        d.discard == 0 ==> p.popped(d) == p.x + p.scroll_x % 8,
{
    let fifo = p.background_pixel_pipeline;
    let popped = q.background_pixel_pipeline;
    lemma_pop_pixels(fifo);
    assert(fifo.view()[0] == p.fetched_pixel(p.popped(d) + 0));
    assert(q.popped(next) == p.popped(d) + 1);
    assert forall|m: int| 0 <= m < popped.n_pixels implies #[trigger] popped.view()[m]
        == q.fetched_pixel(q.popped(next) + m) by {
        lemma_fetched_pixel_of_setting(p, q, p.popped(d) + 1 + m);
        assert(popped.view()[m] == fifo.view()[m + 1]);
    }
}

/// Putting a pixel out keeps the frame in agreement with the background.
pub proof fn lemma_put_keeps_agreement(p: Ppu, q: Ppu, bg: u8, sprite: Option<u8>)
    requires
        p.draws_plain_background(),
        p.frame_agrees(),
        p.x < 160,
        bg == p.fetched_pixel(p.x + p.scroll_x % 8),
        q.same_setting(p),
        q.x == p.x + 1,
        q.frame == crate::ppu::render::frame_with(p.frame, p.x, p.y, p.pixel_rgba_spec(bg, sprite)),
    ensures
        q.frame_agrees(),
{
    let color = p.pixel_rgba_spec(bg, sprite);
    lemma_rgba_of_setting(p, q, bg, sprite);
    assert forall|x: int| 0 <= x < q.x implies #[trigger] pixel_at(q.frame, x, q.y as int)
        == q.pixel_rgba_spec(q.fetched_pixel(x + q.scroll_x % 8), None) by {
        lemma_frame_with(p.frame, p.x, p.y, color, x);
        lemma_fetched_pixel_of_setting(p, q, x + p.scroll_x % 8);
        if x < p.x {
            lemma_rgba_of_setting(p, q, p.fetched_pixel(x + p.scroll_x % 8), None);
            assert(pixel_at(p.frame, x, p.y as int) == p.pixel_rgba_spec(
                p.fetched_pixel(x + p.scroll_x % 8),
                None,
            ));
        }
    }
}

/// The output unit's part of a dot keeps the drawing in agreement with the
/// background.
pub proof fn lemma_output_keeps_agreement(p: Ppu, d: DrawingState, irq: InterruptState)
    requires
        p.draws_plain_background(),
        p.frame_agrees(),
        !d.is_window,
        !d.is_sprite,
        p.x < 160,
        p.fetcher_agrees(d),
        p.queue_agrees(d),
    ensures
        ({
            let (q, mode, _) = p.output_spec(d, irq);
            &&& q.same_setting(p)
            &&& (Ppu { fifo_mode: mode, ..q }).drawing_agrees()
        }),
{
    reveal(Ppu::drawing_agrees);
    let (q, mode, _) = p.output_spec(d, irq);
    let fifo = p.background_pixel_pipeline;
    let after = Ppu { fifo_mode: mode, ..q };
    if fifo.n_pixels == 0 {
        assert(q == p);
        assert(mode == FifoMode::Drawing(d));
        assert(after.queue_agrees(d)) by {
            assert(after.background_pixel_pipeline == p.background_pixel_pipeline);
            assert forall|m: int| 0 <= m < fifo.n_pixels implies #[trigger] fifo.view()[m]
                == after.fetched_pixel(after.popped(d) + m) by {}
        }
        lemma_fetcher_agrees_of_setting(p, after, d, d);
        lemma_frame_agrees_of_setting(p, after);
    } else if d.discard > 0 {
        let next = DrawingState { discard: (d.discard - 1) as u8, ..d };
        assert(mode == FifoMode::Drawing(next));
        lemma_pop_keeps_agreement(p, after, d, next);
        lemma_fetcher_agrees_of_setting(p, after, d, next);
        lemma_frame_agrees_of_setting(p, after);
    } else {
        let bg = fifo.pop_spec().1.unwrap();
        let sprite = p.sprite_pixel_pipeline.pop_spec().1;
        let next = DrawingState { sprite_idx: 0, ..d };
        lemma_pop_keeps_agreement(p, after, d, next);
        lemma_put_keeps_agreement(p, after, bg, sprite);
        if p.x + 1 < 160 {
            assert(mode == FifoMode::Drawing(next));
            lemma_fetcher_agrees_of_setting(p, after, d, next);
        } else {
            assert(mode == FifoMode::HBlank);
        }
    }
}

/// One dot of drawing keeps the drawing in agreement with the background.
pub proof fn lemma_render_keeps_agreement(p: Ppu, irq: InterruptState)
    requires
        p.drawing_agrees(),
    ensures
        p.render_spec(irq).0.drawing_agrees(),
        p.render_spec(irq).0.same_setting(p),
        p.render_spec(irq).0.cycle == p.cycle,
{
    reveal(Ppu::drawing_agrees);
    reveal(Ppu::render_spec);
    match p.fifo_mode {
        FifoMode::Drawing(d) => {
            assert(!p.window_starts(d));
            let (fetched, next) = p.fetch_background_spec(d);
            if d.pixel_fetcher == PixelFetcherState::Push {
                if p.background_pixel_pipeline.has_room() {
                    lemma_push_keeps_agreement(p, fetched, d, next);
                } else {
                    assert(fetched == p && next == d);
                }
            } else {
                lemma_read_keeps_agreement(p, d);
                assert(fetched == p);
            }
            assert(fetched.queue_agrees(next)) by {
                if d.pixel_fetcher != PixelFetcherState::Push {
                    assert(fetched.popped(next) == p.popped(d));
                    assert forall|m: int|
                        0 <= m < fetched.background_pixel_pipeline.n_pixels implies #[trigger] fetched.background_pixel_pipeline.view()[m]
                        == fetched.fetched_pixel(fetched.popped(next) + m) by {
                        assert(p.background_pixel_pipeline.view()[m] == p.fetched_pixel(
                            p.popped(d) + m,
                        ));
                    }
                }
            }
            lemma_frame_agrees_of_setting(p, fetched);
            lemma_output_keeps_agreement(fetched, next, irq);
            assert(p.drawing_spec(d, irq) == fetched.output_spec(next, irq));
        },
        _ => {},
    }
}

/// As drawing of a line begins the drawing agrees with the background: nothing
/// is fetched, queued or put out yet.
pub proof fn lemma_start_drawing_agrees(p: Ppu)
    requires
        p.draws_plain_background(),
    ensures
        p.start_drawing_spec().drawing_agrees(),
        p.start_drawing_spec().same_setting(p),
        p.start_drawing_spec().x == 0,
{
    reveal(Ppu::drawing_agrees);
    broadcast use vstd::array::group_array_axioms;

    let q = p.start_drawing_spec();
    let d = DrawingState { discard: p.scroll_x % 8, ..DrawingState::initial() };
    assert(q.fifo_mode == FifoMode::Drawing(d));
    assert(q.background_pixel_pipeline.n_pixels == 0);
    assert(q.background_pixel_pipeline.head == 0);
    assert(q.popped(d) == 0);
    assert(q.queue_agrees(d));
    assert(q.fetcher_agrees(d));
}

/// The machine of the dots: `n` dots of the unit, with the interrupts they request.
pub open spec fn clocked(p: Ppu, irq: InterruptState, n: nat) -> (Ppu, InterruptState)
    decreases n,
{
    if n == 0 {
        (p, irq)
    } else {
        let (q, requested) = clocked(p, irq, (n - 1) as nat);
        q.clock_spec(requested)
    }
}

/// In the dot that follows the sprite scan of a visible line drawing begins and
/// does its first dot.
pub proof fn lemma_clock_begins_drawing(p: Ppu, irq: InterruptState)
    requires
        p.y < 144,
        p.cycle == 79,
    ensures
        p.clock_spec(irq) == (Ppu { cycle: 80, ..p }).start_drawing_spec().render_spec(irq),
{
    reveal(Ppu::clock_spec);
}

/// In every other dot before the end of the scanline the mode does its work and
/// nothing else happens.
pub proof fn lemma_clock_within_line(p: Ppu, irq: InterruptState)
    requires
        80 <= p.cycle,
        p.cycle + 1 < 456,
    ensures
        p.clock_spec(irq) == (Ppu { cycle: (p.cycle + 1) as u16, ..p }).render_spec(irq),
{
    reveal(Ppu::clock_spec);
}

/// From the dot in which drawing begins to the end of the scanline, every dot
/// keeps the drawing in agreement with the background.
pub proof fn lemma_line_agrees(p: Ppu, irq: InterruptState, n: nat)
    requires
        p.draws_plain_background(),
        p.cycle == 79,
        1 <= n,
        79 + n < 456,
    ensures
        clocked(p, irq, n).0.drawing_agrees(),
        clocked(p, irq, n).0.same_setting(p),
        clocked(p, irq, n).0.cycle == 79 + n,
    decreases n,
{
    if n == 1 {
        let moved = Ppu { cycle: 80, ..p };
        assert(clocked(p, irq, 0) == (p, irq));
        assert(moved.draws_plain_background());
        lemma_start_drawing_agrees(moved);
        lemma_render_keeps_agreement(moved.start_drawing_spec(), irq);
        lemma_clock_begins_drawing(p, irq);
    } else {
        lemma_line_agrees(p, irq, (n - 1) as nat);
        let (q, requested) = clocked(p, irq, (n - 1) as nat);
        let moved = Ppu { cycle: (q.cycle + 1) as u16, ..q };
        lemma_agreement_ignores_dot(q, moved);
        lemma_render_keeps_agreement(moved, requested);
        lemma_clock_within_line(q, requested);
    }
}

/// Whether the drawing agrees with the background does not depend on the dot
/// counter.
pub proof fn lemma_agreement_ignores_dot(p: Ppu, q: Ppu)
    requires
        p.drawing_agrees(),
        q == (Ppu { cycle: q.cycle, ..p }),
    ensures
        q.drawing_agrees(),
        q.same_setting(p),
{
    reveal(Ppu::drawing_agrees);
    lemma_frame_agrees_of_setting(p, q);
    match p.fifo_mode {
        FifoMode::Drawing(d) => {
            lemma_fetcher_agrees_of_setting(p, q, d, d);
            assert(q.popped(d) == p.popped(d));
            assert forall|m: int|
                0 <= m < q.background_pixel_pipeline.n_pixels implies #[trigger] q.background_pixel_pipeline.view()[m]
                == q.fetched_pixel(q.popped(d) + m) by {
                lemma_fetched_pixel_of_setting(p, q, p.popped(d) + m);
                assert(p.background_pixel_pipeline.view()[m] == p.fetched_pixel(p.popped(d) + m));
            }
        },
        _ => {},
    }
}

/// Scrolling by whole tiles and by single pixels adds up: pixel `i` of tile `k`
/// of the line, where `8 * k + i` is `x + SCX % 8`, lies in column
/// `(x + SCX) % 256` of the plane, in tile column `(SCX / 8 + k) % 32`.
pub proof fn lemma_scroll_column(scx: int, x: int)
    requires
        0 <= scx < 256,
        0 <= x < 160,
    ensures
        ({
            let j = x + scx % 8;
            let column = (x + scx) % 256;
            &&& column / 8 == (scx / 8 + j / 8) % 32
            &&& column % 8 == j % 8
            &&& 0 <= j / 8 <= 20
        }),
{
    let j = x + scx % 8;
    let a = scx / 8;
    let k = j / 8;
    let i = j % 8;
    assert(x + scx == 8 * (a + k) + i);
    let wrapped = (a + k) % 32;
    let turns = (a + k) / 32;
    assert(a + k == 32 * turns + wrapped);
    vstd::arithmetic::div_mod::lemma_fundamental_div_mod_converse(
        x + scx,
        256,
        turns,
        8 * wrapped + i,
    );
    vstd::arithmetic::div_mod::lemma_fundamental_div_mod_converse(8 * wrapped + i, 8, wrapped, i);
}

/// Where the fetcher reads for column `x` of the screen: in the tile map entry
/// and the tile row of the plane's pixel at (`x + SCX`, `LY + SCY`), both modulo 256.
pub proof fn lemma_fetch_place(p: Ppu, x: int)
    requires
        !p.cgb,
        0 <= x < 160,
    ensures
        ({
            let j = x + p.scroll_x % 8;
            let bx = (x + p.scroll_x) % 256;
            let by = (p.y + p.scroll_y) % 256;
            let d = Ppu::fetch_of_tile(j / 8);
            &&& p.tile_map_index(d) == (by / 8) * 32 + bx / 8
            &&& p.tile_row_offset(d) == (by % 8) * 2
            &&& j % 8 == bx % 8
            &&& 0 <= j % 8 < 8
        }),
{
    let j = x + p.scroll_x % 8;
    let k = j / 8;
    let by = (p.y + p.scroll_y) % 256;
    lemma_scroll_column(p.scroll_x as int, x);
    let d = Ppu::fetch_of_tile(k);
    assert(d.fetcher_x == k);
    assert(!d.is_window);
    let total = p.y + p.scroll_y;
    if total >= 256 {
        vstd::arithmetic::div_mod::lemma_fundamental_div_mod_converse(total, 256, 1, total - 256);
    } else {
        vstd::arithmetic::div_mod::lemma_fundamental_div_mod_converse(total, 256, 0, total);
    }
    assert(total % 8 == by % 8);
    lemma_fetch_position(p, d);
}

/// A pixel made of a colour index, palette 0 and no priority is that colour index.
pub proof fn lemma_plain_pixel(color: int)
    requires
        0 <= color <= 3,
    ensures
        crate::ppu::pixel::make_pixel_spec(color, 0, false) == color,
        crate::ppu::pixel::pixel_color(crate::ppu::pixel::make_pixel_spec(color, 0, false)) == color,
{
}

/// The colour index of a pixel of a tile row lies between 0 and 3.
pub proof fn lemma_row_color_range(low: u8, high: u8, i: u8, flip: bool)
    ensures
        0 <= row_color(low, high, i, flip) <= 3,
{
}

/// The colour index of the `j`-th pixel fetched on the line is that of the tile
/// row read for it.
pub proof fn lemma_fetched_color(p: Ppu, j: int)
    requires
        0 <= j,
    ensures
        crate::ppu::pixel::pixel_color(p.fetched_pixel(j)) == row_color(
            p.line_low(j / 8),
            p.line_high(j / 8),
            (j % 8) as u8,
            false,
        ),
{
    let low = p.line_low(j / 8);
    let high = p.line_high(j / 8);
    let i = j % 8;
    let color = row_color(low, high, i as u8, false);
    lemma_row_color_range(low, high, i as u8, false);
    lemma_plain_pixel(color);
    lemma_tile_row_pixels(low, high, 0, false, false);
    let row = tile_row_spec(low, high, 0, false, false);
    assert(row[i] == crate::ppu::pixel::make_pixel_spec(color, 0, false));
    assert(p.fetched_pixel(j) == row[i]) by {
        reveal(Ppu::fetched_pixel);
    }
}

/// The pixel fetched for column `x` of the screen is the pixel of the background
/// plane at (`x + SCX`, `LY + SCY`), both modulo 256.
pub proof fn lemma_fetched_is_background(p: Ppu, x: int)
    requires
        p.draws_plain_background(),
        0 <= x < 160,
    ensures
        p.pixel_rgba_spec(p.fetched_pixel(x + p.scroll_x % 8), None) == p.background_rgba(
            (x + p.scroll_x) % 256,
            (p.y + p.scroll_y) % 256,
        ),
{
    reveal(Ppu::background_color);
    let j = x + p.scroll_x % 8;
    let bx = (x + p.scroll_x) % 256;
    let by = (p.y + p.scroll_y) % 256;
    lemma_fetch_place(p, x);
    lemma_fetched_color(p, j);
    let color = row_color(p.line_low(j / 8), p.line_high(j / 8), (j % 8) as u8, false);
    assert(p.background_color(bx, by) == color);
    assert(0 <= color <= 3);
}

/// What a scanline of plain background shows: at any dot from the beginning of
/// drawing to the end of the line, every pixel put out so far on the line is the
/// pixel of the background plane at (`x + SCX`, `LY + SCY`), both modulo 256.
pub proof fn lemma_line_shows_background(p: Ppu, irq: InterruptState, n: nat, x: int)
    requires
        p.draws_plain_background(),
        p.cycle == 79,
        1 <= n,
        79 + n < 456,
        0 <= x < clocked(p, irq, n).0.x,
    ensures
        pixel_at(clocked(p, irq, n).0.frame, x, p.y as int) == p.background_rgba(
            (x + p.scroll_x) % 256,
            (p.y + p.scroll_y) % 256,
        ),
{
    reveal(Ppu::drawing_agrees);
    let q = clocked(p, irq, n).0;
    lemma_line_agrees(p, irq, n);
    assert(q.x <= 160);
    assert(pixel_at(q.frame, x, q.y as int) == q.pixel_rgba_spec(
        q.fetched_pixel(x + q.scroll_x % 8),
        None,
    ));
    lemma_fetched_pixel_of_setting(p, q, x + p.scroll_x % 8);
    lemma_rgba_of_setting(p, q, p.fetched_pixel(x + p.scroll_x % 8), None);
    lemma_fetched_is_background(p, x);
}

/// SCX scrolls the line modulo 256: the pixel in column `x` of a line drawn with
/// SCX of `s` is the pixel in column `(x + s) % 256` of the same line of the same
/// background drawn with SCX of 0, wherever that column lies on the screen.
pub proof fn lemma_scx_scrolls(
    scrolled: Ppu,
    plain: Ppu,
    irq: InterruptState,
    n: nat,
    m: nat,
    x: int,
)
    requires
        scrolled.draws_plain_background(),
        scrolled.cycle == 79,
        plain.cycle == 79,
        plain.scroll_x == 0,
        plain.scroll_y == scrolled.scroll_y,
        plain.y == scrolled.y,
        plain.cgb == scrolled.cgb,
        plain.vram == scrolled.vram,
        plain.lcd_control_reg == scrolled.lcd_control_reg,
        plain.greyscale_bg_palette == scrolled.greyscale_bg_palette,
        1 <= n,
        79 + n < 456,
        1 <= m,
        79 + m < 456,
        0 <= x < clocked(scrolled, irq, n).0.x,
        (x + scrolled.scroll_x) % 256 < clocked(plain, irq, m).0.x,
    ensures
        pixel_at(clocked(scrolled, irq, n).0.frame, x, scrolled.y as int) == pixel_at(
            clocked(plain, irq, m).0.frame,
            (x + scrolled.scroll_x) % 256,
            scrolled.y as int,
        ),
{
    let column = (x + scrolled.scroll_x) % 256;
    let row = (scrolled.y + scrolled.scroll_y) % 256;
    lemma_line_shows_background(scrolled, irq, n, x);
    lemma_line_shows_background(plain, irq, m, column);
    assert(0 <= column < 256);
    assert(column + plain.scroll_x == column);
    assert((column + plain.scroll_x) % 256 == column) by {
        vstd::arithmetic::div_mod::lemma_fundamental_div_mod_converse(column, 256, 0, column);
    }
    lemma_background_of_setting(plain, scrolled, column, row);
}

/// The background plane is made of the video RAM, the control register and the
/// palette, and of nothing else.
pub proof fn lemma_background_of_setting(p: Ppu, q: Ppu, bx: int, by: int)
    requires
        p.vram == q.vram,
        p.lcd_control_reg == q.lcd_control_reg,
        p.greyscale_bg_palette == q.greyscale_bg_palette,
    ensures
        p.background_color(bx, by) == q.background_color(bx, by),
        p.background_rgba(bx, by) == q.background_rgba(bx, by),
{
    reveal(Ppu::background_color);
}


/// How many dots the background fetcher has spent on its tile: each of the four
/// reading steps takes two, and the ninth dot puts the row into the queue.
pub open spec fn fetch_phase(d: DrawingState) -> int {
    match d.pixel_fetcher {
        PixelFetcherState::GetTile => d.cycle as int,
        PixelFetcherState::GetTileLow => 2 + d.cycle,
        PixelFetcherState::GetTileHigh => 4 + d.cycle,
        PixelFetcherState::Sleep => 6 + d.cycle,
        PixelFetcherState::Push => 8,
    }
}

impl Ppu {
    /// The drawing of a line of plain background keeps time: after `t` dots the
    /// fetcher has spent nine dots on each tile before the one it is at, and the
    /// queue, filled with eight pixels at the end of each tile and emptied by one
    /// pixel each dot, holds what is left of the last eight.
    pub open spec fn keeps_time(self, t: int) -> bool {
        match self.fifo_mode {
            FifoMode::Drawing(d) => {
                &&& t == 9 * d.fetcher_x + fetch_phase(d)
                &&& self.background_pixel_pipeline.n_pixels == (if d.fetcher_x == 0 || fetch_phase(d)
                    >= 7 {
                    0
                } else {
                    7 - fetch_phase(d)
                })
            },
            _ => true,
        }
    }
}

/// What a dot of the background fetcher does to the time kept.
pub proof fn lemma_fetch_time(p: Ppu, d: DrawingState)
    requires
        d.cycle <= 1,
        d.fetcher_x < 255,
        d.pixel_fetcher == PixelFetcherState::Push ==> p.background_pixel_pipeline.n_pixels == 0,
    ensures
        ({
            let (q, next) = p.fetch_background_spec(d);
            let n = p.background_pixel_pipeline.n_pixels;
            &&& 9 * next.fetcher_x + fetch_phase(next) == 9 * d.fetcher_x + fetch_phase(d) + 1
            &&& q.background_pixel_pipeline.n_pixels == (if d.pixel_fetcher
                == PixelFetcherState::Push {
                8
            } else {
                n as int
            })
            &&& (d.pixel_fetcher != PixelFetcherState::Push ==> next.fetcher_x == d.fetcher_x)
            &&& (d.pixel_fetcher == PixelFetcherState::Push ==> fetch_phase(next) == 0)
        }),
{
}

/// What the output unit's part of a dot does to the time kept.
pub proof fn lemma_output_time(p: Ppu, d: DrawingState, irq: InterruptState)
    ensures
        ({
            let (q, mode, _) = p.output_spec(d, irq);
            let n = p.background_pixel_pipeline.n_pixels;
            &&& q.background_pixel_pipeline.n_pixels == (if n == 0 {
                0
            } else {
                n - 1
            })
            &&& (mode matches FifoMode::Drawing(next) ==> next.fetcher_x == d.fetcher_x
                && fetch_phase(next) == fetch_phase(d))
            &&& (mode is Drawing || mode is HBlank)
        }),
{
}

/// One dot of drawing keeps the time.
pub proof fn lemma_render_keeps_time(p: Ppu, irq: InterruptState, t: int)
    requires
        p.drawing_agrees(),
        p.keeps_time(t),
    ensures
        p.render_spec(irq).0.keeps_time(t + 1),
{
    reveal(Ppu::drawing_agrees);
    reveal(Ppu::render_spec);
    match p.fifo_mode {
        FifoMode::Drawing(d) => {
            assert(!p.window_starts(d));
            assert(8 * d.fetcher_x <= 166 + 16);
            let (fetched, next) = p.fetch_background_spec(d);
            lemma_fetch_time(p, d);
            lemma_output_time(fetched, next, irq);
            assert(p.drawing_spec(d, irq) == fetched.output_spec(next, irq));
        },
        _ => {},
    }
}

/// The drawing of a line keeps time from its first dot.
pub proof fn lemma_line_keeps_time(p: Ppu, irq: InterruptState, n: nat)
    requires
        p.draws_plain_background(),
        p.cycle == 79,
        1 <= n,
        79 + n < 456,
    ensures
        clocked(p, irq, n).0.keeps_time(n as int),
    decreases n,
{
    if n == 1 {
        let moved = Ppu { cycle: 80, ..p };
        assert(clocked(p, irq, 0) == (p, irq));
        lemma_start_drawing_agrees(moved);
        let started = moved.start_drawing_spec();
        assert(started.keeps_time(0)) by {
            assert(started.background_pixel_pipeline.n_pixels == 0);
        }
        lemma_render_keeps_time(started, irq, 0);
        lemma_clock_begins_drawing(p, irq);
    } else {
        lemma_line_keeps_time(p, irq, (n - 1) as nat);
        lemma_line_agrees(p, irq, (n - 1) as nat);
        let (q, requested) = clocked(p, irq, (n - 1) as nat);
        let moved = Ppu { cycle: (q.cycle + 1) as u16, ..q };
        lemma_agreement_ignores_dot(q, moved);
        assert(moved.keeps_time(n - 1));
        lemma_render_keeps_time(moved, requested, n - 1);
        lemma_clock_within_line(q, requested);
    }
}

/// A line of plain background is complete 198 dots after drawing began: all its
/// 160 pixels are out, each the pixel of the background plane at (`x + SCX`,
/// `LY + SCY`), both modulo 256, and the unit is in HBlank.
pub proof fn lemma_line_completes(p: Ppu, irq: InterruptState, n: nat, x: int)
    requires
        p.draws_plain_background(),
        p.cycle == 79,
        198 <= n,
        79 + n < 456,
        0 <= x < 160,
    ensures
        clocked(p, irq, n).0.fifo_mode is HBlank,
        clocked(p, irq, n).0.x == 160,
        pixel_at(clocked(p, irq, n).0.frame, x, p.y as int) == p.background_rgba(
            (x + p.scroll_x) % 256,
            (p.y + p.scroll_y) % 256,
        ),
{
    reveal(Ppu::drawing_agrees);
    let q = clocked(p, irq, n).0;
    lemma_line_agrees(p, irq, n);
    lemma_line_keeps_time(p, irq, n);
    match q.fifo_mode {
        FifoMode::Drawing(d) => {
            let k = d.fetcher_x as int;
            assert(q.popped(d) <= 166);
            assert(q.background_pixel_pipeline.n_pixels <= 7);
            assert(8 * k <= 173);
            assert(fetch_phase(d) <= 8);
            assert(false);
        },
        _ => {},
    }
    lemma_line_shows_background(p, irq, n, x);
}

/// A background whose tiles are all of colour 0 is of the palette's first shade
/// everywhere; with the first shade at 0, as in the palette 0xE4, it is white.
pub proof fn lemma_blank_background(p: Ppu, bx: int, by: int)
    requires
        forall|i: int| 0 <= i < 0x4000 ==> p.vram[i] == 0,
        p.greyscale_bg_palette % 4 == 0,
    ensures
        p.background_color(bx, by) == 0,
        p.background_rgba(bx, by) == (Rgba { r: 0xFF, g: 0xFF, b: 0xFF, a: 0xFF }),
{
    reveal(Ppu::background_color);
    let id = p.tile_index_spec(((by / 8) * 32 + bx / 8) as u16, false);
    let offset = ((by % 8) * 2) as u8;
    assert(p.bg_win_tile_spec(id, offset, false) == 0);
    assert(p.bg_win_tile_spec(id, (offset + 1) as u8, false) == 0);
}

} // verus!
