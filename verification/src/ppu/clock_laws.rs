//! Laws of the dot clock: how the dot counter and LY move, which mode a scanline
//! begins in, and which dots request the VBLANK interrupt.

use vstd::prelude::*;
use crate::interrupt::{Interrupt, InterruptState};
use crate::ppu::fifo_mode::{DrawingState, FifoMode};
use crate::ppu::laws::clocked;
use crate::ppu::Ppu;

verus! {

/// The work of a mode in one dot leaves the dot counter, LY and the registers
/// that the program writes, and requests no interrupt but LCD_STAT.
pub proof fn lemma_render_keeps_counters(p: Ppu, irq: InterruptState)
    ensures
        p.render_spec(irq).0.cycle == p.cycle,
        p.render_spec(irq).0.y == p.y,
        p.render_spec(irq).0.y_compare == p.y_compare,
        p.render_spec(irq).0.lcd_status_reg == p.lcd_status_reg,
        p.render_spec(irq).0.frame_ready == p.frame_ready,
        p.render_spec(irq).1.enable == irq.enable,
        forall|source: Interrupt|
            source != Interrupt::LcdStat ==> p.render_spec(irq).1.status.contains(source)
                == irq.status.contains(source),
        p.render_spec(irq).1.status.lcd_stat ==> irq.status.lcd_stat
            || p.lcd_status_reg.hblank_interrupt(),
        p.fifo_mode is VBlank ==> p.render_spec(irq).0.fifo_mode is VBlank,
        p.fifo_mode is OamScan ==> p.render_spec(irq).0.fifo_mode is OamScan,
{
    reveal(Ppu::render_spec);
    match p.fifo_mode {
        FifoMode::Drawing(d) => {
            lemma_drawing_keeps_counters(p, d, irq);
        },
        _ => {},
    }
}

/// One dot of drawing leaves the dot counter, LY and the registers that the
/// program writes, and requests no interrupt but LCD_STAT, that one only as
/// HBlank begins and STAT asks for it.
pub proof fn lemma_drawing_keeps_counters(p: Ppu, d: DrawingState, irq: InterruptState)
    ensures
        ({
            let (q, mode, requested) = p.drawing_spec(d, irq);
            &&& q.cycle == p.cycle
            &&& q.y == p.y
            &&& q.y_compare == p.y_compare
            &&& q.lcd_status_reg == p.lcd_status_reg
            &&& q.frame_ready == p.frame_ready
            &&& requested.enable == irq.enable
            &&& requested == irq || (mode is HBlank && p.lcd_status_reg.hblank_interrupt()
                && requested == irq.request_spec(Interrupt::LcdStat))
            &&& (mode is Drawing || mode is HBlank)
        }),
{
    if !d.is_sprite && !p.window_starts(d) && !(p.lcd_control_reg.sprites_enabled()
        && p.find_sprite_spec(d.sprite_idx) is Some) {
        let (fetched, next) = p.fetch_background_spec(d);
        assert(fetched.cycle == p.cycle && fetched.y == p.y && fetched.y_compare == p.y_compare
            && fetched.lcd_status_reg == p.lcd_status_reg && fetched.frame_ready == p.frame_ready);
    }
}

/// How the dot counter and LY move: a scanline has 456 dots and a frame 154
/// scanlines, whatever the registers hold. The lines 144 to 153 begin in VBlank,
/// the others with the sprite scan.
pub proof fn lemma_clock_counts(p: Ppu, irq: InterruptState)
    requires
        p.cycle < 456,
        p.y < 154,
    ensures
        ({
            let q = p.clock_spec(irq).0;
            &&& q.cycle == (p.cycle + 1) % 456
            &&& q.y == (if p.cycle == 455 {
                (p.y + 1) % 154
            } else {
                p.y as int
            })
            &&& (p.cycle == 455 && q.y >= 144 ==> q.fifo_mode is VBlank)
            &&& (p.cycle == 455 && q.y < 144 ==> q.fifo_mode is OamScan)
            &&& q.frame_ready == (p.frame_ready || (p.cycle == 455 && q.y == 0))
        }),
{
    reveal(Ppu::clock_spec);
    let (entered, requested) = p.enter_dot_spec(irq);
    lemma_render_keeps_counters(entered, requested);
}

/// Which dots request the VBLANK interrupt: the last dot of line 143, which sets
/// LY to 144, whatever STAT holds, and no other.
pub proof fn lemma_vblank_request(p: Ppu, irq: InterruptState)
    requires
        p.cycle < 456,
        p.y < 154,
    ensures
        p.clock_spec(irq).1.status.vblank == (irq.status.vblank || (p.cycle == 455 && p.y == 143)),
        p.clock_spec(irq).1.enable == irq.enable,
        p.clock_spec(irq).1.status.timer == irq.status.timer,
        p.clock_spec(irq).1.status.serial == irq.status.serial,
        p.clock_spec(irq).1.status.joypad == irq.status.joypad,
{
    reveal(Ppu::clock_spec);
    let (entered, requested) = p.enter_dot_spec(irq);
    lemma_render_keeps_counters(entered, requested);
    let served = entered.render_spec(requested).1;
    assert(served.status.contains(Interrupt::VBlank) == requested.status.contains(Interrupt::VBlank));
    assert(served.status.contains(Interrupt::Timer) == requested.status.contains(Interrupt::Timer));
    assert(served.status.contains(Interrupt::Serial) == requested.status.contains(Interrupt::Serial));
    assert(served.status.contains(Interrupt::Joypad) == requested.status.contains(Interrupt::Joypad));
}

/// With none of the four STAT enables set no dot requests the LCD_STAT interrupt.
pub proof fn lemma_no_stat_request(p: Ppu, irq: InterruptState)
    requires
        !p.lcd_status_reg.hblank_interrupt(),
        !p.lcd_status_reg.vblank_interrupt(),
        !p.lcd_status_reg.oam_interrupt(),
        !p.lcd_status_reg.lyc_interrupt(),
    ensures
        p.clock_spec(irq).1.status.lcd_stat == irq.status.lcd_stat,
{
    reveal(Ppu::clock_spec);
    let (entered, requested) = p.enter_dot_spec(irq);
    assert(requested.status.lcd_stat == irq.status.lcd_stat);
    assert(entered.lcd_status_reg == p.lcd_status_reg);
    lemma_render_keeps_counters(entered, requested);
    lemma_render_keeps_stat(entered, requested);
}

/// The work of a mode in one dot leaves the LCD_STAT request as it was unless
/// HBlank begins and STAT asks for the interrupt.
pub proof fn lemma_render_keeps_stat(p: Ppu, irq: InterruptState)
    requires
        !p.lcd_status_reg.hblank_interrupt(),
    ensures
        p.render_spec(irq).1 == irq,
{
    reveal(Ppu::render_spec);
    match p.fifo_mode {
        FifoMode::Drawing(d) => {
            lemma_drawing_keeps_counters(p, d, irq);
        },
        _ => {},
    }
}

/// The line changes that request LCD_STAT: into the sprite scan under STAT bit
/// 5, into VBlank at line 144 under bit 4, and to a line equal to LYC under bit 6.
pub proof fn lemma_line_change_requests(p: Ppu, irq: InterruptState)
    requires
        p.y < 154,
        !irq.status.lcd_stat,
    ensures
        ({
            let line = (p.y + 1) % 154;
            p.next_line_spec(irq).1.status.lcd_stat == ((line < 144
                && p.lcd_status_reg.oam_interrupt()) || (line == 144
                && p.lcd_status_reg.vblank_interrupt()) || (line == p.y_compare
                && p.lcd_status_reg.lyc_interrupt()))
        }),
{
}

/// Whether the dot that begins at dot `dot` of line `line` is the one that sets
/// LY to 144.
pub open spec fn enters_vblank(line: int, dot: int) -> bool {
    line == 143 && dot == 455
}

/// Where the unit stands after a number of dots from the first dot of a frame:
/// after `456 * line + dot` dots it is at dot `dot` of line `line`.
pub proof fn lemma_dot_position(p: Ppu, irq: InterruptState, line: nat, dot: nat)
    requires
        p.cycle == 0,
        p.y == 0,
        line < 154,
        dot < 456,
    ensures
        clocked(p, irq, 456 * line + dot).0.cycle == dot,
        clocked(p, irq, 456 * line + dot).0.y == line,
    decreases 456 * line + dot,
{
    let n = 456 * line + dot;
    if n > 0 {
        let (before_line, before_dot) = if dot == 0 {
            ((line - 1) as nat, 455nat)
        } else {
            (line, (dot - 1) as nat)
        };
        assert(456 * before_line + before_dot == n - 1);
        lemma_dot_position(p, irq, before_line, before_dot);
        let (q, requested) = clocked(p, irq, (n - 1) as nat);
        lemma_clock_counts(q, requested);
    }
}

/// A frame requests the VBLANK interrupt exactly once: from the first dot of line
/// 0, the request is made by the dot that sets LY to 144, the 65664th, whatever
/// STAT holds, and by no dot before it or after it in the frame.
pub proof fn lemma_vblank_once(p: Ppu, irq: InterruptState, line: nat, dot: nat)
    requires
        p.cycle == 0,
        p.y == 0,
        !irq.status.vblank,
        line < 154,
        dot < 456,
    ensures
        ({
            let n = 456 * line + dot;
            let (q, requested) = clocked(p, irq, n);
            // what is requested after n dots: the interrupt waits from line 144 on
            &&& requested.status.vblank == (line >= 144)
            // the dot that comes next makes the request exactly where it enters line 144
            &&& q.clock_spec(requested).1.status.vblank == (requested.status.vblank
                || enters_vblank(line as int, dot as int))
        }),
    decreases 456 * line + dot,
{
    let n = 456 * line + dot;
    let (q, requested) = clocked(p, irq, n);
    lemma_dot_position(p, irq, line, dot);
    if n > 0 {
        let (before_line, before_dot) = if dot == 0 {
            ((line - 1) as nat, 455nat)
        } else {
            (line, (dot - 1) as nat)
        };
        assert(456 * before_line + before_dot == n - 1);
        lemma_vblank_once(p, irq, before_line, before_dot);
    }
    lemma_vblank_request(q, requested);
}

/// No dot touches IE.
pub proof fn lemma_clock_keeps_enable(p: Ppu, irq: InterruptState)
    ensures
        p.clock_spec(irq).1.enable == irq.enable,
{
    reveal(Ppu::clock_spec);
    let (entered, requested) = p.enter_dot_spec(irq);
    lemma_render_keeps_counters(entered, requested);
}

} // verus!
