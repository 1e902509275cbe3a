//! The scanline state machine: the window, the output of pixels, and the clock
//! that drives the modes.

use vstd::prelude::*;
use crate::interrupt::{Interrupt, InterruptState};
use crate::ppu::fifo_mode::{DrawingState, FifoMode, OamScanState, PixelFetcherState};
use crate::ppu::pixel::{
    choose_sprite,
    grey,
    grey_rgba,
    pixel_color,
    pixel_palette,
    shade,
    shade_spec,
    sprite_wins,
    Rgba,
};
use crate::ppu::{Ppu, DOTS_PER_LINE, FRAME_BYTES, FRAME_WIDTH, OAM_SCAN_DOTS};

verus! {

/// The place in the frame of the first byte of the pixel in row `y`, column `x`.
pub open spec fn frame_offset(x: u8, y: u8) -> int {
    (y * FRAME_WIDTH + x) * 4
}

/// The frame with the pixel in row `y`, column `x` set to `color`. A pixel
/// outside the frame changes nothing.
pub open spec fn frame_with(frame: [u8; FRAME_BYTES], x: u8, y: u8, color: Rgba) -> [u8; FRAME_BYTES] {
    let base = frame_offset(x, y);
    if base + 3 < FRAME_BYTES {
        let r = vstd::array::spec_array_update(frame, base, color.r);
        let g = vstd::array::spec_array_update(r, base + 1, color.g);
        let b = vstd::array::spec_array_update(g, base + 2, color.b);
        vstd::array::spec_array_update(b, base + 3, color.a)
    } else {
        frame
    }
}

impl Ppu {
    /// The background pixel as the output unit sees it: of colour 0 where the
    /// background is switched off, which only the greyscale hardware can do.
    pub open spec fn effective_background(self, bg: u8) -> u8 {
        if !self.cgb && !self.lcd_control_reg.background_enabled() {
            0
        } else {
            bg
        }
    }

    /// The screen colour of a pixel of the background queue over which a pixel of
    /// the sprite queue may lie. The greyscale hardware maps the colour index
    /// through BGP, or through OBP0 or OBP1 for a sprite; the Color hardware looks it up
    /// in the palette memory under the pixel's palette number.
    pub open spec fn pixel_rgba_spec(self, bg: u8, sprite: Option<u8>) -> Rgba {
        let back = self.effective_background(bg);
        if sprite_wins(back, sprite, self.lcd_control_reg.sprites_enabled()) {
            let s = sprite.unwrap();
            if self.cgb {
                self.cgb_obj_palette.color_spec(pixel_palette(s), pixel_color(s))
            } else {
                grey_rgba(
                    shade_spec(self.greyscale_obj_palette[(pixel_palette(s) % 2) as int], pixel_color(s)),
                )
            }
        } else if self.cgb {
            self.cgb_bg_palette.color_spec(pixel_palette(back), pixel_color(back))
        } else {
            grey_rgba(shade_spec(self.greyscale_bg_palette, pixel_color(back)))
        }
    }

    /// Whether the window begins at the column of the next pixel: it is switched
    /// on, not yet being drawn, `WY <= LY`, and the column has reached `WX - 7`.
    pub open spec fn window_starts(self, d: DrawingState) -> bool {
        self.lcd_control_reg.window_enabled() && !d.is_window && self.window_y <= self.y
            && self.window_x <= 166 && self.x + 7 >= self.window_x
    }

    /// The unit with the background fetcher turned to the window: it starts anew
    /// at the window's first tile, and what the background queue held is dropped.
    pub open spec fn start_window_spec(self, d: DrawingState) -> (Ppu, DrawingState) {
        (
            Ppu { background_pixel_pipeline: self.background_pixel_pipeline.clear_spec(), ..self },
            DrawingState {
                is_window: true,
                fetcher_x: 0,
                discard: if self.window_x < 7 {
                    (7 - self.window_x) as u8
                } else {
                    0
                },
                ..d.reset_spec()
            },
        )
    }

    /// The output unit's part of one dot. With a pixel in the background queue it
    /// takes one from each queue. While pixels are still to be dropped for the
    /// fine scroll, the background pixel is dropped. Else the pixel in front is
    /// written to the frame at (`x`, `LY`) and `x` moves on. At `x` of 160 the line is
    /// done and HBlank begins, raising the STAT interrupt where STAT asks for it; the
    /// window's line counter moves on if the window was drawn on the line.
    pub open spec fn output_spec(self, d: DrawingState, irq: InterruptState) -> (
        Ppu,
        FifoMode,
        InterruptState,
    ) {
        let (bg_queue, bg) = self.background_pixel_pipeline.pop_spec();
        match bg {
            None => (self, FifoMode::Drawing(d), irq),
            Some(bg) => if d.discard > 0 {
                (
                    Ppu { background_pixel_pipeline: bg_queue, ..self },
                    FifoMode::Drawing(DrawingState { discard: (d.discard - 1) as u8, ..d }),
                    irq,
                )
            } else {
                let (sprite_queue, sprite) = self.sprite_pixel_pipeline.pop_spec();
                let drawn = Ppu {
                    background_pixel_pipeline: bg_queue,
                    sprite_pixel_pipeline: sprite_queue,
                    frame: frame_with(self.frame, self.x, self.y, self.pixel_rgba_spec(bg, sprite)),
                    x: ((self.x + 1) % 256) as u8,
                    ..self
                };
                if self.x + 1 >= FRAME_WIDTH {
                    (
                        Ppu {
                            window_line: if d.is_window {
                                ((self.window_line + 1) % 256) as u8
                            } else {
                                self.window_line
                            },
                            ..drawn
                        },
                        FifoMode::HBlank,
                        if self.lcd_status_reg.hblank_interrupt() {
                            irq.request_spec(Interrupt::LcdStat)
                        } else {
                            irq
                        },
                    )
                } else {
                    (drawn, FifoMode::Drawing(DrawingState { sprite_idx: 0, ..d }), irq)
                }
            },
        }
    }

    /// One dot of drawing. A running sprite fetch goes on and all else waits. Else
    /// the window begins where it is due; else a sprite that begins at the column
    /// of the next pixel has its fetch started; else the background fetcher and the
    /// output unit each do their part.
    pub open spec fn drawing_spec(self, d: DrawingState, irq: InterruptState) -> (
        Ppu,
        FifoMode,
        InterruptState,
    ) {
        if d.is_sprite {
            let (p, next) = self.fetch_sprite_spec(d);
            (p, FifoMode::Drawing(next), irq)
        } else if self.window_starts(d) {
            let (p, next) = self.start_window_spec(d);
            (p, FifoMode::Drawing(next), irq)
        } else if self.lcd_control_reg.sprites_enabled() && self.find_sprite_spec(d.sprite_idx)
            is Some {
            (
                self,
                FifoMode::Drawing(
                    DrawingState {
                        is_sprite: true,
                        sprite_idx: self.find_sprite_spec(d.sprite_idx).unwrap(),
                        sprite_fetcher: PixelFetcherState::GetTile,
                        sprite_cycle: 0,
                        ..d
                    },
                ),
                irq,
            )
        } else {
            let (p, next) = self.fetch_background_spec(d);
            p.output_spec(next, irq)
        }
    }

    /// What one dot does within the current mode.
    #[verifier::opaque]
    pub open spec fn render_spec(self, irq: InterruptState) -> (Ppu, InterruptState) {
        match self.fifo_mode {
            FifoMode::OamScan(s) => {
                let (p, next) = self.oam_scan_spec(s);
                (Ppu { fifo_mode: FifoMode::OamScan(next), ..p }, irq)
            },
            FifoMode::Drawing(d) => {
                let (p, mode, requested) = self.drawing_spec(d, irq);
                (Ppu { fifo_mode: mode, ..p }, requested)
            },
            _ => (self, irq),
        }
    }

    /// The unit as drawing of a scanline begins: both queues empty, both fetchers
    /// at their first step, and `SCX % 8` pixels to drop for the fine scroll.
    pub open spec fn start_drawing_spec(self) -> Ppu {
        Ppu {
            x: 0,
            background_pixel_pipeline: self.background_pixel_pipeline.clear_spec(),
            sprite_pixel_pipeline: self.sprite_pixel_pipeline.clear_spec(),
            fifo_mode: FifoMode::Drawing(
                DrawingState { discard: self.scroll_x % 8, ..DrawingState::initial() },
            ),
            ..self
        }
    }

    /// The unit and the interrupt registers as a scanline ends and the next begins.
    /// Lines 0 to 143 begin with the sprite scan, lines 144 to 153 are the vertical
    /// blank, after line 153 comes line 0 of the next frame. Entering the sprite scan or
    /// the vertical blank raises the STAT interrupt where STAT asks for it; entering
    /// the vertical blank at line 144 always raises the VBLANK interrupt; the new LY
    /// being equal to LYC raises the STAT interrupt where STAT asks for it.
    pub open spec fn next_line_spec(self, irq: InterruptState) -> (Ppu, InterruptState) {
        let line = if self.y + 1 >= 154 {
            0u8
        } else {
            (self.y + 1) as u8
        };
        let vblank = 144 <= line;
        let based = Ppu {
            cycle: 0,
            x: 0,
            y: line,
            sprite_count: if vblank {
                self.sprite_count
            } else {
                0
            },
            window_line: if line == 0 {
                0
            } else {
                self.window_line
            },
            frame_ready: self.frame_ready || line == 0,
            fifo_mode: if vblank {
                FifoMode::VBlank
            } else {
                FifoMode::OamScan(OamScanState::initial())
            },
            ..self
        };
        let after_vblank = if line == 144 {
            irq.request_spec(Interrupt::VBlank)
        } else {
            irq
        };
        let asks = if vblank {
            line == 144 && self.lcd_status_reg.vblank_interrupt()
        } else {
            self.lcd_status_reg.oam_interrupt()
        };
        let after_mode = if asks {
            after_vblank.request_spec(Interrupt::LcdStat)
        } else {
            after_vblank
        };
        let after_compare = if line == self.y_compare && self.lcd_status_reg.lyc_interrupt() {
            after_mode.request_spec(Interrupt::LcdStat)
        } else {
            after_mode
        };
        (based, after_compare)
    }

    /// The unit and the interrupt registers as a dot begins, before the mode does
    /// its work: the dot counter moves on; after 456 dots the next scanline begins;
    /// after the 80 dots of the sprite scan drawing begins.
    pub open spec fn enter_dot_spec(self, irq: InterruptState) -> (Ppu, InterruptState) {
        let dot = ((self.cycle + 1) % 0x10000) as u16;
        let moved = Ppu { cycle: dot, ..self };
        if dot >= DOTS_PER_LINE {
            moved.next_line_spec(irq)
        } else if self.y < 144 && dot == OAM_SCAN_DOTS {
            (moved.start_drawing_spec(), irq)
        } else {
            (moved, irq)
        }
    }

    /// One dot. A scanline has 456 of them: on a visible line the sprite scan takes
    /// the first 80, drawing follows until 160 pixels are out, and HBlank fills
    /// the rest. The dots are counted and the modes do their work whatever LCDC holds.
    #[verifier::opaque]
    pub open spec fn clock_spec(self, irq: InterruptState) -> (Ppu, InterruptState) {
        let (entered, requested) = self.enter_dot_spec(irq);
        entered.render_spec(requested)
    }

    fn rgba(&self, bg: u8, sprite: Option<u8>) -> (r: Rgba)
        ensures
            r == self.pixel_rgba_spec(bg, sprite),
    {
        let back: u8 = if !self.cgb && !self.lcd_control_reg.background_enabled() {
            0
        } else {
            bg
        };
        if choose_sprite(back, sprite, self.lcd_control_reg.sprites_enabled()) {
            let s: u8 = match sprite {
                Some(s) => s,
                None => 0,
            };
            if self.cgb {
                self.cgb_obj_palette.color(pixel_palette(s), pixel_color(s))
            } else {
                grey(shade(self.greyscale_obj_palette[(pixel_palette(s) % 2) as usize], pixel_color(s)))
            }
        } else if self.cgb {
            self.cgb_bg_palette.color(pixel_palette(back), pixel_color(back))
        } else {
            grey(shade(self.greyscale_bg_palette, pixel_color(back)))
        }
    }

    fn put_pixel(&mut self, color: Rgba)
        ensures
            *final(self) == (Ppu {
                frame: frame_with(old(self).frame, old(self).x, old(self).y, color),
                ..*old(self)
            }),
    {
        let base: usize = (self.y as usize * FRAME_WIDTH + self.x as usize) * 4;
        if base + 3 < FRAME_BYTES {
            self.frame[base] = color.r;
            self.frame[base + 1] = color.g;
            self.frame[base + 2] = color.b;
            self.frame[base + 3] = color.a;
        }
    }

    fn start_window(&mut self, d: DrawingState) -> (r: DrawingState)
        ensures
            (*final(self), r) == old(self).start_window_spec(d),
    {
        let mut d = d;
        d.reset();
        d.is_window = true;
        d.fetcher_x = 0;
        d.discard = if self.window_x < 7 {
            7 - self.window_x
        } else {
            0
        };
        self.background_pixel_pipeline.clear();
        d
    }

    /// Does the output unit's part of one dot.
    fn output_pixel(&mut self, d: DrawingState, bus: &mut InterruptState) -> (r: FifoMode)
        ensures
            (*final(self), r, *final(bus)) == old(self).output_spec(d, *old(bus)),
    {
        let bg: u8 = match self.background_pixel_pipeline.pop() {
            Some(bg) => bg,
            None => {
                return FifoMode::Drawing(d);
            },
        };
        if d.discard > 0 {
            return FifoMode::Drawing(DrawingState { discard: d.discard - 1, ..d });
        }
        let sprite: Option<u8> = self.sprite_pixel_pipeline.pop();
        let color = self.rgba(bg, sprite);
        self.put_pixel(color);
        let done: bool = self.x as usize + 1 >= FRAME_WIDTH;
        self.x = self.x.wrapping_add(1);
        if done {
            if d.is_window {
                self.window_line = self.window_line.wrapping_add(1);
            }
            if self.lcd_status_reg.hblank_interrupt() {
                bus.request(Interrupt::LcdStat);
            }
            FifoMode::HBlank
        } else {
            FifoMode::Drawing(DrawingState { sprite_idx: 0, ..d })
        }
    }

    /// Runs one dot of drawing.
    fn draw(&mut self, d: DrawingState, bus: &mut InterruptState) -> (r: FifoMode)
        ensures
            (*final(self), r, *final(bus)) == old(self).drawing_spec(d, *old(bus)),
    {
        if d.is_sprite {
            let next = self.fetch_sprite(d);
            return FifoMode::Drawing(next);
        }
        if self.lcd_control_reg.window_enabled() && !d.is_window && self.window_y <= self.y
            && self.window_x <= 166 && self.x as u16 + 7 >= self.window_x as u16 {
            let next = self.start_window(d);
            return FifoMode::Drawing(next);
        }
        if self.lcd_control_reg.sprites_enabled() {
            match self.find_sprite(d.sprite_idx) {
                Some(k) => {
                    return FifoMode::Drawing(
                        DrawingState {
                            is_sprite: true,
                            sprite_idx: k,
                            sprite_fetcher: PixelFetcherState::GetTile,
                            sprite_cycle: 0,
                            ..d
                        },
                    );
                },
                None => {},
            }
        }
        let next = self.fetch_background(d);
        self.output_pixel(next, bus)
    }

    /// Does what one dot does within the current mode.
    pub fn render(&mut self, bus: &mut InterruptState)
        ensures
            (*final(self), *final(bus)) == old(self).render_spec(*old(bus)),
    {
        reveal(Ppu::render_spec);
        match self.fifo_mode {
            FifoMode::OamScan(s) => {
                let next = self.oam_scan(s);
                self.fifo_mode = FifoMode::OamScan(next);
            },
            FifoMode::Drawing(d) => {
                let mode = self.draw(d, bus);
                self.fifo_mode = mode;
            },
            _ => {},
        }
    }

    fn start_drawing(&mut self)
        ensures
            *final(self) == old(self).start_drawing_spec(),
    {
        self.x = 0;
        self.background_pixel_pipeline.clear();
        self.sprite_pixel_pipeline.clear();
        let mut d = DrawingState::default();
        d.discard = self.scroll_x % 8;
        self.fifo_mode = FifoMode::Drawing(d);
    }

    fn next_line(&mut self, bus: &mut InterruptState)
        ensures
            (*final(self), *final(bus)) == old(self).next_line_spec(*old(bus)),
    {
        let line: u8 = if self.y >= 153 {
            0
        } else {
            self.y + 1
        };
        let vblank: bool = line >= 144;
        self.cycle = 0;
        self.x = 0;
        self.y = line;
        if line == 0 {
            self.window_line = 0;
            self.frame_ready = true;
        }
        if vblank {
            self.fifo_mode = FifoMode::VBlank;
            if line == 144 {
                bus.request(Interrupt::VBlank);
                if self.lcd_status_reg.vblank_interrupt() {
                    bus.request(Interrupt::LcdStat);
                }
            }
        } else {
            self.sprite_count = 0;
            self.fifo_mode = FifoMode::OamScan(OamScanState::default());
            if self.lcd_status_reg.oam_interrupt() {
                bus.request(Interrupt::LcdStat);
            }
        }
        if line == self.y_compare && self.lcd_status_reg.lyc_interrupt() {
            bus.request(Interrupt::LcdStat);
        }
    }

    fn enter_dot(&mut self, bus: &mut InterruptState)
        ensures
            (*final(self), *final(bus)) == old(self).enter_dot_spec(*old(bus)),
    {
        let dot: u16 = self.cycle.wrapping_add(1);
        let visible: bool = self.y < 144;
        self.cycle = dot;
        if dot >= DOTS_PER_LINE {
            self.next_line(bus);
        } else if visible && dot == OAM_SCAN_DOTS {
            self.start_drawing();
        }
    }

    /// Advances the unit by one dot, requesting interrupts through `bus`.
    pub fn clock(&mut self, bus: &mut InterruptState)
        ensures
            (*final(self), *final(bus)) == old(self).clock_spec(*old(bus)),
    {
        reveal(Ppu::clock_spec);
        self.enter_dot(bus);
        self.render(bus);
    }
}

} // verus!
