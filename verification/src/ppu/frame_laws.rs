//! Laws of the picture processing unit: what a whole frame shows.
//!
//! Left to itself for the 144 visible scanlines of a frame, with the window and
//! the sprites switched off, the greyscale hardware draws the background plane
//! as SCX and SCY place it: the pixel at (`x`, `y`) of the frame is the pixel of the
//! plane at (`x + SCX`, `y + SCY`), both modulo 256.

use vstd::prelude::*;
use crate::interrupt::InterruptState;
use crate::ppu::fifo_mode::{DrawingState, FifoMode};
use crate::ppu::laws::{
    clocked,
    lemma_agreement_ignores_dot,
    lemma_background_of_setting,
    lemma_blank_background,
    lemma_clock_begins_drawing,
    lemma_clock_within_line,
    lemma_line_agrees,
    lemma_line_completes,
    lemma_start_drawing_agrees,
    pixel_at,
};
use crate::ppu::pixel::Rgba;
use crate::ppu::render::frame_offset;
use crate::ppu::{Ppu, FRAME_BYTES};

verus! {

impl Ppu {
    /// Whether the unit draws frames of plain background: it is the greyscale
    /// hardware, the background is switched on, the window and the sprites are
    /// switched off.
    pub open spec fn draws_plain_frames(self) -> bool {
        &&& !self.cgb
        &&& self.lcd_control_reg.background_enabled()
        &&& !self.lcd_control_reg.window_enabled()
        &&& !self.lcd_control_reg.sprites_enabled()
    }

    /// Whether `other` has the same background, scroll, palette and control
    /// register as this unit.
    pub open spec fn same_picture(self, other: Ppu) -> bool {
        &&& self.vram == other.vram
        &&& self.scroll_x == other.scroll_x
        &&& self.scroll_y == other.scroll_y
        &&& self.cgb == other.cgb
        &&& self.lcd_control_reg == other.lcd_control_reg
        &&& self.greyscale_bg_palette == other.greyscale_bg_palette
    }

    /// Whether the unit stands at the first dot of a visible scanline, about to
    /// scan for sprites.
    pub open spec fn at_line_start(self, line: int) -> bool {
        &&& self.y == line
        &&& line < 144
        &&& self.cycle == 0
        &&& self.fifo_mode is OamScan
    }
}

/// Running `a` dots and then `b` more is running `a + b` dots.
pub proof fn lemma_clocked_adds(p: Ppu, irq: InterruptState, a: nat, b: nat)
    ensures
        clocked(p, irq, a + b) == clocked(clocked(p, irq, a).0, clocked(p, irq, a).1, b),
    decreases b,
{
    if b > 0 {
        lemma_clocked_adds(p, irq, a, (b - 1) as nat);
        assert(a + b - 1 == a + (b - 1));
    }
}

/// In a dot before the end of the sprite scan the mode does its work and nothing
/// else happens.
pub proof fn lemma_clock_within_scan(p: Ppu, irq: InterruptState)
    requires
        p.cycle + 1 < 80,
    ensures
        p.clock_spec(irq) == (Ppu { cycle: (p.cycle + 1) as u16, ..p }).render_spec(irq),
{
    reveal(Ppu::clock_spec);
}

/// The work of the sprite scan in one dot changes nothing of the picture or the
/// frame.
pub proof fn lemma_scan_renders(p: Ppu, irq: InterruptState)
    requires
        p.fifo_mode is OamScan,
    ensures
        ({
            let q = p.render_spec(irq).0;
            &&& q.same_picture(p)
            &&& q.frame == p.frame
            &&& q.y == p.y
            &&& q.cycle == p.cycle
            &&& q.fifo_mode is OamScan
        }),
{
    reveal(Ppu::render_spec);
}

/// A dot of the sprite scan moves the dot counter and changes nothing of the
/// picture or the frame.
pub proof fn lemma_scan_dot(p: Ppu, irq: InterruptState)
    requires
        p.fifo_mode is OamScan,
        p.cycle + 1 < 80,
    ensures
        ({
            let q = p.clock_spec(irq).0;
            &&& q.same_picture(p)
            &&& q.frame == p.frame
            &&& q.y == p.y
            &&& q.cycle == p.cycle + 1
            &&& q.fifo_mode is OamScan
        }),
{
    lemma_clock_within_scan(p, irq);
    lemma_scan_renders(Ppu { cycle: (p.cycle + 1) as u16, ..p }, irq);
}

/// The sprite scan of a scanline changes nothing of the picture or the frame.
pub proof fn lemma_scan(p: Ppu, irq: InterruptState, n: nat)
    requires
        p.fifo_mode is OamScan,
        p.cycle == 0,
        n <= 79,
    ensures
        ({
            let q = clocked(p, irq, n).0;
            &&& q.same_picture(p)
            &&& q.frame == p.frame
            &&& q.y == p.y
            &&& q.cycle == n
            &&& q.fifo_mode is OamScan
        }),
    decreases n,
{
    if n > 0 {
        lemma_scan(p, irq, (n - 1) as nat);
        let (q, requested) = clocked(p, irq, (n - 1) as nat);
        lemma_scan_dot(q, requested);
    }
}

/// Setting a pixel of a frame leaves the pixels of the other rows.
pub proof fn lemma_frame_with_other_row(
    frame: [u8; FRAME_BYTES],
    x: u8,
    y: u8,
    color: Rgba,
    other_x: int,
    other_y: int,
)
    requires
        x < 160,
        0 <= other_x < 160,
        0 <= other_y < 144,
        other_y != y,
    ensures
        pixel_at(crate::ppu::render::frame_with(frame, x, y, color), other_x, other_y) == pixel_at(
            frame,
            other_x,
            other_y,
        ),
{
    broadcast use vstd::array::group_array_axioms;

    let base = frame_offset(x, y);
    assert(base == (y * 160 + x) * 4);
    let there = (other_y * 160 + other_x) * 4;
    assert(there + 3 < base || base + 3 < there);
}

/// The output unit's part of a dot leaves the rows of the frame other than the
/// current scanline's.
pub proof fn lemma_output_keeps_rows(
    p: Ppu,
    d: DrawingState,
    irq: InterruptState,
    other_x: int,
    other_y: int,
)
    requires
        p.x < 160,
        0 <= other_x < 160,
        0 <= other_y < 144,
        other_y != p.y,
    ensures
        pixel_at(p.output_spec(d, irq).0.frame, other_x, other_y) == pixel_at(
            p.frame,
            other_x,
            other_y,
        ),
{
    let bg = p.background_pixel_pipeline.pop_spec().1;
    if bg is Some && d.discard == 0 {
        let sprite = p.sprite_pixel_pipeline.pop_spec().1;
        let color = p.pixel_rgba_spec(bg.unwrap(), sprite);
        lemma_frame_with_other_row(p.frame, p.x, p.y, color, other_x, other_y);
        assert(p.output_spec(d, irq).0.frame == crate::ppu::render::frame_with(
            p.frame,
            p.x,
            p.y,
            color,
        ));
    } else {
        assert(p.output_spec(d, irq).0.frame == p.frame);
    }
}

/// One dot of drawing a line of plain background leaves the rows of the frame
/// other than the current scanline's.
pub proof fn lemma_render_keeps_rows(p: Ppu, irq: InterruptState, other_x: int, other_y: int)
    requires
        p.drawing_agrees(),
        0 <= other_x < 160,
        0 <= other_y < 144,
        other_y != p.y,
    ensures
        pixel_at(p.render_spec(irq).0.frame, other_x, other_y) == pixel_at(
            p.frame,
            other_x,
            other_y,
        ),
{
    reveal(Ppu::render_spec);
    reveal(Ppu::drawing_agrees);
    match p.fifo_mode {
        FifoMode::Drawing(d) => {
            assert(!p.window_starts(d));
            let (fetched, next) = p.fetch_background_spec(d);
            assert(fetched.frame == p.frame && fetched.x == p.x && fetched.y == p.y);
            lemma_output_keeps_rows(fetched, next, irq, other_x, other_y);
            assert(p.drawing_spec(d, irq) == fetched.output_spec(next, irq));
        },
        _ => {},
    }
}

/// The drawing of a line of plain background leaves the rows of the frame other
/// than the line's own.
pub proof fn lemma_line_keeps_rows(
    p: Ppu,
    irq: InterruptState,
    n: nat,
    other_x: int,
    other_y: int,
)
    requires
        p.draws_plain_background(),
        p.cycle == 79,
        1 <= n,
        79 + n < 456,
        0 <= other_x < 160,
        0 <= other_y < 144,
        other_y != p.y,
    ensures
        pixel_at(clocked(p, irq, n).0.frame, other_x, other_y) == pixel_at(
            p.frame,
            other_x,
            other_y,
        ),
    decreases n,
{
    if n == 1 {
        let moved = Ppu { cycle: 80, ..p };
        assert(clocked(p, irq, 0) == (p, irq));
        lemma_start_drawing_agrees(moved);
        let started = moved.start_drawing_spec();
        assert(started.frame == p.frame);
        lemma_render_keeps_rows(started, irq, other_x, other_y);
        lemma_clock_begins_drawing(p, irq);
    } else {
        lemma_line_keeps_rows(p, irq, (n - 1) as nat, other_x, other_y);
        lemma_line_agrees(p, irq, (n - 1) as nat);
        let (q, requested) = clocked(p, irq, (n - 1) as nat);
        let moved = Ppu { cycle: (q.cycle + 1) as u16, ..q };
        lemma_agreement_ignores_dot(q, moved);
        lemma_render_keeps_rows(moved, requested, other_x, other_y);
        lemma_clock_within_line(q, requested);
    }
}

/// A dot is its beginning followed by the work of the mode.
pub proof fn lemma_clock_enters(p: Ppu, irq: InterruptState)
    ensures
        p.clock_spec(irq) == p.enter_dot_spec(irq).0.render_spec(p.enter_dot_spec(irq).1),
{
    reveal(Ppu::clock_spec);
}

/// The last dot of a visible scanline begins with the change to the next
/// scanline, which leaves the picture and the frame.
pub proof fn lemma_enter_next_line(p: Ppu, irq: InterruptState)
    requires
        p.cycle == 455,
        p.y < 144,
    ensures
        ({
            let next = p.enter_dot_spec(irq).0;
            &&& next.same_picture(p)
            &&& next.frame == p.frame
            &&& next.y == p.y + 1
            &&& next.cycle == 0
            &&& (p.y + 1 < 144 ==> next.fifo_mode is OamScan)
            &&& (p.y + 1 == 144 ==> next.fifo_mode is VBlank)
        }),
{
}

/// The work of the modes between the lines, HBlank and VBlank, is nothing.
pub proof fn lemma_blank_renders(p: Ppu, irq: InterruptState)
    requires
        p.fifo_mode is HBlank || p.fifo_mode is VBlank,
    ensures
        p.render_spec(irq).0 == p,
{
    reveal(Ppu::render_spec);
}

/// The last dot of a visible scanline begins the next scanline and changes
/// nothing of the picture or the frame.
pub proof fn lemma_line_end(p: Ppu, irq: InterruptState)
    requires
        p.cycle == 455,
        p.y < 144,
    ensures
        ({
            let q = p.clock_spec(irq).0;
            &&& q.same_picture(p)
            &&& q.frame == p.frame
            &&& q.y == p.y + 1
            &&& q.cycle == 0
            &&& (p.y + 1 < 144 ==> q.fifo_mode is OamScan)
        }),
{
    lemma_clock_enters(p, irq);
    lemma_enter_next_line(p, irq);
    let (next, requested) = p.enter_dot_spec(irq);
    if p.y + 1 < 144 {
        lemma_scan_renders(next, requested);
    } else {
        lemma_blank_renders(next, requested);
    }
}

/// What the 456 dots of a scanline of plain background do to the frame: the row
/// of the scanline is the background plane's at (`x + SCX`, `y + SCY`), both modulo
/// 256, and the other rows are as they were. The unit ends at the start of the
/// next scanline with the picture unchanged.
pub proof fn lemma_line(p: Ppu, irq: InterruptState, x: int, y: int)
    requires
        p.draws_plain_frames(),
        p.at_line_start(p.y as int),
        0 <= x < 160,
        0 <= y < 144,
    ensures
        ({
            let q = clocked(p, irq, 456).0;
            &&& q.same_picture(p)
            &&& q.y == p.y + 1
            &&& q.cycle == 0
            &&& (p.y + 1 < 144 ==> q.fifo_mode is OamScan)
            &&& (y == p.y ==> pixel_at(q.frame, x, y) == p.background_rgba(
                (x + p.scroll_x) % 256,
                (y + p.scroll_y) % 256,
            ))
            &&& (y != p.y ==> pixel_at(q.frame, x, y) == pixel_at(p.frame, x, y))
        }),
{
    // the sprite scan
    lemma_scan(p, irq, 79);
    let (scanned, irq1) = clocked(p, irq, 79);
    assert(scanned.draws_plain_background());
    // drawing and HBlank
    lemma_line_agrees(scanned, irq1, 376);
    let (drawn, irq2) = clocked(scanned, irq1, 376);
    if y == p.y {
        lemma_line_completes(scanned, irq1, 376, x);
        lemma_background_of_setting(scanned, p, (x + p.scroll_x) % 256, (y + p.scroll_y) % 256);
    } else {
        lemma_line_keeps_rows(scanned, irq1, 376, x, y);
    }
    // the last dot
    lemma_line_end(drawn, irq2);
    lemma_clocked_adds(p, irq, 79, 376);
    lemma_clocked_adds(p, irq, 455, 1);
    assert(clocked(drawn, irq2, 1) == drawn.clock_spec(irq2)) by {
        assert(clocked(drawn, irq2, 0) == (drawn, irq2));
    }
}

/// What the first `lines` scanlines of a frame of plain background do to the
/// frame: their rows are the background plane's.
pub proof fn lemma_lines(p: Ppu, irq: InterruptState, lines: nat, x: int, y: int)
    requires
        p.draws_plain_frames(),
        p.at_line_start(0),
        lines <= 144,
        0 <= x < 160,
        0 <= y < lines,
    ensures
        ({
            let q = clocked(p, irq, 456 * lines).0;
            &&& q.same_picture(p)
            &&& q.y == lines
            &&& q.cycle == 0
            &&& (lines < 144 ==> q.fifo_mode is OamScan)
            &&& pixel_at(q.frame, x, y) == p.background_rgba(
                (x + p.scroll_x) % 256,
                (y + p.scroll_y) % 256,
            )
        }),
    decreases lines,
{
    let before = (lines - 1) as nat;
    let (q, requested) = clocked(p, irq, 456 * before);
    if before == 0 {
        assert(clocked(p, irq, 0) == (p, irq));
    } else {
        // for the shape of the state any row drawn so far serves
        lemma_lines(p, irq, before, x, 0);
        if y < before {
            lemma_lines(p, irq, before, x, y);
        }
    }
    lemma_line(q, requested, x, y);
    lemma_clocked_adds(p, irq, 456 * before, 456);
    assert(456 * before + 456 == 456 * lines);
    if y == before {
        lemma_background_of_setting(q, p, (x + p.scroll_x) % 256, (y + p.scroll_y) % 256);
    }
}

/// The dots of the 144 visible scanlines of a frame.
pub open spec fn visible_dots() -> nat {
    65664
}

/// What a frame of plain background shows: after the 144 visible scanlines every
/// pixel (`x`, `y`) of the frame is the pixel of the background plane at
/// (`x + SCX`, `y + SCY`), both modulo 256.
pub proof fn lemma_frame_shows_background(p: Ppu, irq: InterruptState, x: int, y: int)
    requires
        p.draws_plain_frames(),
        p.at_line_start(0),
        0 <= x < 160,
        0 <= y < 144,
    ensures
        pixel_at(clocked(p, irq, visible_dots()).0.frame, x, y) == p.background_rgba(
            (x + p.scroll_x) % 256,
            (y + p.scroll_y) % 256,
        ),
{
    lemma_lines(p, irq, 144, x, y);
}

/// SCX scrolls the frame modulo 256: pixel (`x`, `y`) of a frame drawn with SCX
/// of `s` is pixel (`(x + s) % 256`, `y`) of the frame drawn of the same
/// background with SCX of 0, wherever that column lies on the screen.
pub proof fn lemma_scx_scrolls_frame(
    scrolled: Ppu,
    plain: Ppu,
    irq: InterruptState,
    irq0: InterruptState,
    x: int,
    y: int,
)
    requires
        scrolled.draws_plain_frames(),
        scrolled.at_line_start(0),
        plain.at_line_start(0),
        plain.scroll_x == 0,
        plain.scroll_y == scrolled.scroll_y,
        plain.cgb == scrolled.cgb,
        plain.vram == scrolled.vram,
        plain.lcd_control_reg == scrolled.lcd_control_reg,
        plain.greyscale_bg_palette == scrolled.greyscale_bg_palette,
        0 <= x < 160,
        0 <= y < 144,
        (x + scrolled.scroll_x) % 256 < 160,
    ensures
        pixel_at(clocked(scrolled, irq, visible_dots()).0.frame, x, y) == pixel_at(
            clocked(plain, irq0, visible_dots()).0.frame,
            (x + scrolled.scroll_x) % 256,
            y,
        ),
{
    let column = (x + scrolled.scroll_x) % 256;
    let row = (y + scrolled.scroll_y) % 256;
    lemma_frame_shows_background(scrolled, irq, x, y);
    lemma_frame_shows_background(plain, irq0, column, y);
    assert((column + plain.scroll_x) % 256 == column);
    lemma_background_of_setting(plain, scrolled, column, row);
}

/// A frame of a background whose tiles are all of colour 0, drawn with a palette
/// whose first shade is 0, as 0xE4 is, is white all over.
pub proof fn lemma_blank_frame(p: Ppu, irq: InterruptState, x: int, y: int)
    requires
        p.draws_plain_frames(),
        p.at_line_start(0),
        forall|i: int| 0 <= i < 0x4000 ==> p.vram[i] == 0,
        p.greyscale_bg_palette % 4 == 0,
        0 <= x < 160,
        0 <= y < 144,
    ensures
        pixel_at(clocked(p, irq, visible_dots()).0.frame, x, y) == (Rgba {
            r: 0xFF,
            g: 0xFF,
            b: 0xFF,
            a: 0xFF,
        }),
{
    lemma_frame_shows_background(p, irq, x, y);
    lemma_blank_background(p, (x + p.scroll_x) % 256, (y + p.scroll_y) % 256);
}

} // verus!
