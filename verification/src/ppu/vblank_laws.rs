//! Laws of the picture processing unit: the vertical blank leaves the frame, so
//! that the frame handed out at the end of line 153 is the frame as the 144
//! visible scanlines drew it.

use vstd::prelude::*;
use crate::interrupt::InterruptState;
use crate::ppu::clock_laws::lemma_clock_counts;
use crate::ppu::frame_laws::{
    lemma_blank_renders,
    lemma_clock_enters,
    lemma_clocked_adds,
    lemma_frame_shows_background,
    lemma_lines,
    lemma_scan_renders,
    visible_dots,
};
use crate::ppu::laws::{clocked, lemma_background_of_setting, lemma_blank_background, pixel_at};
use crate::ppu::pixel::Rgba;
use crate::ppu::Ppu;

verus! {

/// The dots of a frame: 154 scanlines of 456 dots.
pub open spec fn frame_dots() -> nat {
    70224
}

/// A dot of the vertical blank changes nothing of the picture or the frame, and
/// the unit stays in VBlank until line 153 ends.
pub proof fn lemma_vblank_dot(p: Ppu, irq: InterruptState)
    requires
        p.fifo_mode is VBlank,
        144 <= p.y < 154,
        p.cycle < 456,
    ensures
        ({
            let q = p.clock_spec(irq).0;
            &&& q.frame == p.frame
            &&& q.same_picture(p)
            &&& (p.cycle < 455 || p.y < 153 ==> q.fifo_mode is VBlank)
        }),
{
    lemma_clock_enters(p, irq);
    let (entered, requested) = p.enter_dot_spec(irq);
    assert(entered.frame == p.frame);
    assert(entered.same_picture(p));
    if entered.fifo_mode is VBlank {
        lemma_blank_renders(entered, requested);
    } else {
        assert(entered.fifo_mode is OamScan);
        lemma_scan_renders(entered, requested);
    }
}

/// The vertical blank, dot by dot: `456 * line + dot` dots after line 144 began
/// the unit is at dot `dot` of line `144 + line`, in VBlank, with the picture and
/// the frame as they were.
pub proof fn lemma_vblank_dots(p: Ppu, irq: InterruptState, line: nat, dot: nat)
    requires
        p.fifo_mode is VBlank,
        p.y == 144,
        p.cycle == 0,
        line < 10,
        dot < 456,
    ensures
        ({
            let q = clocked(p, irq, 456 * line + dot).0;
            &&& q.frame == p.frame
            &&& q.same_picture(p)
            &&& q.fifo_mode is VBlank
            &&& q.y == 144 + line
            &&& q.cycle == dot
            &&& q.frame_ready == p.frame_ready
        }),
    decreases 456 * line + dot,
{
    let n = 456 * line + dot;
    if n > 0 {
        let (before_line, before_dot) = if dot == 0 {
            ((line - 1) as nat, 455nat)
        } else {
            (line, (dot - 1) as nat)
        };
        assert(456 * before_line + before_dot == n - 1);
        lemma_vblank_dots(p, irq, before_line, before_dot);
        let (q, requested) = clocked(p, irq, (n - 1) as nat);
        lemma_vblank_dot(q, requested);
        lemma_clock_counts(q, requested);
    }
}

/// The ten scanlines of the vertical blank leave the picture and the frame. At
/// their end the unit stands at the first dot of line 0 of the next frame, and
/// the frame is ready to be handed out.
pub proof fn lemma_vblank_keeps_frame(p: Ppu, irq: InterruptState)
    requires
        p.fifo_mode is VBlank,
        p.y == 144,
        p.cycle == 0,
    ensures
        ({
            let q = clocked(p, irq, 4560).0;
            &&& q.frame == p.frame
            &&& q.same_picture(p)
            &&& q.at_line_start(0)
            &&& q.frame_ready
        }),
{
    lemma_vblank_dots(p, irq, 9, 455);
    assert(456 * 9 + 455 == 4559);
    let (q, requested) = clocked(p, irq, 4559);
    lemma_vblank_dot(q, requested);
    lemma_clock_counts(q, requested);
}

/// What a frame of plain background shows when it is handed out: after the 154
/// scanlines of a frame the frame is ready, and every pixel (`x`, `y`) of it is
/// the pixel of the background plane at (`x + SCX`, `y + SCY`), both modulo
/// 256. `Ppu::ready_frame` hands out this frame.
pub proof fn lemma_whole_frame_shows_background(p: Ppu, irq: InterruptState, x: int, y: int)
    requires
        p.draws_plain_frames(),
        p.at_line_start(0),
        0 <= x < 160,
        0 <= y < 144,
    ensures
        ({
            let q = clocked(p, irq, frame_dots()).0;
            &&& q.frame_ready
            &&& q.at_line_start(0)
            &&& q.same_picture(p)
            &&& pixel_at(q.frame, x, y) == p.background_rgba(
                (x + p.scroll_x) % 256,
                (y + p.scroll_y) % 256,
            )
        }),
{
    lemma_frame_shows_background(p, irq, x, y);
    lemma_lines(p, irq, 144, x, y);
    let (drawn, requested) = clocked(p, irq, visible_dots());
    assert(456 * 144 == visible_dots());
    // line 144 begins in VBlank
    lemma_clocked_adds(p, irq, 65663, 1);
    let (last, irq_last) = clocked(p, irq, 65663);
    crate::ppu::clock_laws::lemma_dot_position(p, irq, 143, 455);
    assert(456 * 143 + 455 == 65663);
    lemma_clock_counts(last, irq_last);
    assert(clocked(last, irq_last, 1) == last.clock_spec(irq_last)) by {
        assert(clocked(last, irq_last, 0) == (last, irq_last));
    }
    assert(drawn.fifo_mode is VBlank);
    lemma_vblank_keeps_frame(drawn, requested);
    lemma_clocked_adds(p, irq, 65664, 4560);
}

/// SCX scrolls the frame handed out modulo 256: pixel (`x`, `y`) of the frame
/// drawn with SCX of `s` is pixel (`(x + s) % 256`, `y`) of the frame drawn of
/// the same background with SCX of 0, wherever that column lies on the screen.
pub proof fn lemma_scx_scrolls_whole_frame(
    scrolled: Ppu,
    plain: Ppu,
    irq: InterruptState,
    irq0: InterruptState,
    x: int,
    y: int,
)
    requires
        scrolled.draws_plain_frames(),
        scrolled.at_line_start(0),
        plain.at_line_start(0),
        plain.scroll_x == 0,
        plain.scroll_y == scrolled.scroll_y,
        plain.cgb == scrolled.cgb,
        plain.vram == scrolled.vram,
        plain.lcd_control_reg == scrolled.lcd_control_reg,
        plain.greyscale_bg_palette == scrolled.greyscale_bg_palette,
        0 <= x < 160,
        0 <= y < 144,
        (x + scrolled.scroll_x) % 256 < 160,
    ensures
        clocked(scrolled, irq, frame_dots()).0.frame_ready,
        clocked(plain, irq0, frame_dots()).0.frame_ready,
        pixel_at(clocked(scrolled, irq, frame_dots()).0.frame, x, y) == pixel_at(
            clocked(plain, irq0, frame_dots()).0.frame,
            (x + scrolled.scroll_x) % 256,
            y,
        ),
{
    let column = (x + scrolled.scroll_x) % 256;
    let row = (y + scrolled.scroll_y) % 256;
    lemma_whole_frame_shows_background(scrolled, irq, x, y);
    lemma_whole_frame_shows_background(plain, irq0, column, y);
    assert(column + plain.scroll_x == column);
    assert((column + plain.scroll_x) % 256 == column) by {
        vstd::arithmetic::div_mod::lemma_fundamental_div_mod_converse(column, 256, 0, column);
    }
    lemma_background_of_setting(plain, scrolled, column, row);
}

/// The frame handed out of a background whose tiles are all of colour 0, drawn
/// with a palette whose first shade is 0, as 0xE4 is, is white all over.
pub proof fn lemma_blank_whole_frame(p: Ppu, irq: InterruptState, x: int, y: int)
    requires
        p.draws_plain_frames(),
        p.at_line_start(0),
        forall|i: int| 0 <= i < 0x4000 ==> p.vram[i] == 0,
        p.greyscale_bg_palette % 4 == 0,
        0 <= x < 160,
        0 <= y < 144,
    ensures
        clocked(p, irq, frame_dots()).0.frame_ready,
        pixel_at(clocked(p, irq, frame_dots()).0.frame, x, y) == (Rgba {
            r: 0xFF,
            g: 0xFF,
            b: 0xFF,
            a: 0xFF,
        }),
{
    lemma_whole_frame_shows_background(p, irq, x, y);
    lemma_blank_background(p, (x + p.scroll_x) % 256, (y + p.scroll_y) % 256);
}

} // verus!
