//! Laws of the whole machine: while a program spins in its loop and writes
//! nothing, every frame that the machine hands out of a blank background is
//! white, and it hands one out every 70224 ticks.

use vstd::prelude::*;
use crate::cartridge::CartridgeView;
use crate::cpu::spin_laws::{lemma_spin_cycle, lemma_spin_keeps_bus};
use crate::cpu::Machine;
use crate::emulator::laws::{
    lemma_quiet_holds_loop,
    lemma_spinning_for_ever,
    lemma_spinning_tick,
    lemma_units_keep_quiet,
    spinning,
    ticked,
};
use crate::emulator::EmulatorView;
use crate::interrupt::InterruptState;
use crate::ppu::clock_laws::{lemma_clock_counts, lemma_dot_position};
use crate::ppu::laws::{clocked, pixel_at};
use crate::ppu::pixel::Rgba;
use crate::ppu::vblank_laws::{frame_dots, lemma_blank_whole_frame, lemma_whole_frame_shows_background};
use crate::ppu::{Ppu, FRAME_BYTES};

verus! {

/// Whether the unit stands at the start of a frame of blank background: at the
/// first dot of line 0, no frame waiting, the window and the sprites switched
/// off, every tile of colour 0 and the first shade of the palette white.
pub open spec fn blank_start(p: Ppu) -> bool {
    &&& p.draws_plain_frames()
    &&& p.at_line_start(0)
    &&& !p.frame_ready
    &&& p.greyscale_bg_palette % 4 == 0
    &&& forall|i: int| 0 <= i < 0x4000 ==> p.vram[i] == 0
}

/// Whether every pixel of a frame is white.
pub open spec fn all_white(frame: [u8; FRAME_BYTES]) -> bool {
    forall|x: int, y: int|
        0 <= x < 160 && 0 <= y < 144 ==> #[trigger] pixel_at(frame, x, y) == (Rgba {
            r: 0xFF,
            g: 0xFF,
            b: 0xFF,
            a: 0xFF,
        })
}

/// What a dot does to the unit does not depend on the interrupts requested.
pub proof fn lemma_dot_ignores_requests(p: Ppu, irq: InterruptState, other: InterruptState)
    ensures
        p.clock_spec(irq).0 == p.clock_spec(other).0,
{
    reveal(Ppu::clock_spec);
    let (entered, requested) = p.enter_dot_spec(irq);
    let (entered_other, requested_other) = p.enter_dot_spec(other);
    assert(entered == entered_other);
    lemma_mode_ignores_requests(entered, requested, requested_other);
}

/// What the work of a mode does to the unit does not depend on the interrupts
/// requested.
pub proof fn lemma_mode_ignores_requests(p: Ppu, irq: InterruptState, other: InterruptState)
    ensures
        p.render_spec(irq).0 == p.render_spec(other).0,
{
    reveal(Ppu::render_spec);
    match p.fifo_mode {
        crate::ppu::FifoMode::Drawing(d) => {
            lemma_drawing_ignores_requests(p, d, irq, other);
        },
        _ => {},
    }
}

/// What the output unit does to the unit and its mode does not depend on the
/// interrupts requested.
pub proof fn lemma_output_ignores_requests(
    p: Ppu,
    d: crate::ppu::DrawingState,
    irq: InterruptState,
    other: InterruptState,
)
    ensures
        p.output_spec(d, irq).0 == p.output_spec(d, other).0,
        p.output_spec(d, irq).1 == p.output_spec(d, other).1,
{
}

/// What a dot of drawing does to the unit and its mode does not depend on the
/// interrupts requested.
pub proof fn lemma_drawing_ignores_requests(
    p: Ppu,
    d: crate::ppu::DrawingState,
    irq: InterruptState,
    other: InterruptState,
)
    ensures
        p.drawing_spec(d, irq).0 == p.drawing_spec(d, other).0,
        p.drawing_spec(d, irq).1 == p.drawing_spec(d, other).1,
{
    if !d.is_sprite && !p.window_starts(d) && !(p.lcd_control_reg.sprites_enabled()
        && p.find_sprite_spec(d.sprite_idx) is Some) {
        let (fetched, next) = p.fetch_background_spec(d);
        lemma_output_ignores_requests(fetched, next, irq, other);
    }
}

/// No frame is ready before the last dot of a frame.
pub proof fn lemma_not_ready(p: Ppu, irq: InterruptState, line: nat, dot: nat)
    requires
        p.cycle == 0,
        p.y == 0,
        !p.frame_ready,
        line < 154,
        dot < 456,
    ensures
        !clocked(p, irq, 456 * line + dot).0.frame_ready,
    decreases 456 * line + dot,
{
    let n = 456 * line + dot;
    if n > 0 {
        let (before_line, before_dot) = if dot == 0 {
            ((line - 1) as nat, 455nat)
        } else {
            (line, (dot - 1) as nat)
        };
        assert(456 * before_line + before_dot == n - 1);
        lemma_not_ready(p, irq, before_line, before_dot);
        lemma_dot_position(p, irq, before_line, before_dot);
        lemma_dot_position(p, irq, line, dot);
        let (q, requested) = clocked(p, irq, (n - 1) as nat);
        lemma_clock_counts(q, requested);
    }
}

/// A tick of a machine that spins in its loop touches the picture processing
/// unit only by its own dot and by taking the frame.
pub proof fn lemma_tick_of_unit(e: EmulatorView, cartridge: CartridgeView, at: u16)
    requires
        spinning(e, cartridge, at),
    ensures
        e.clock().bus.ppu == e.bus.ppu.clock_spec(e.bus.interrupts).0.ready_frame_spec(),
        e.clock_frame() == (if e.bus.ppu.clock_spec(e.bus.interrupts).0.frame_ready {
            Some(e.bus.ppu.clock_spec(e.bus.interrupts).0.frame)
        } else {
            None
        }),
{
    reveal(spinning);
    lemma_units_keep_quiet(e.bus, cartridge, at);
    let drawn = (EmulatorView { bus: e.bus.tick_ppu(), ..e }).tick_cartridge();
    lemma_quiet_holds_loop(drawn.bus, cartridge, at);
    let before = Machine { cpu: e.cpu, bus: drawn.bus };
    if e.runs_cycle() {
        lemma_spin_cycle(before, at);
        lemma_spin_keeps_bus(before, at);
    }
}

/// The machine after `a` ticks and then `b` more is the machine after `a + b`.
pub proof fn lemma_ticked_adds(e: EmulatorView, a: nat, b: nat)
    ensures
        ticked(e, a + b) == ticked(ticked(e, a), b),
    decreases b,
{
    if b > 0 {
        lemma_ticked_adds(e, a, (b - 1) as nat);
        assert(a + b - 1 == a + (b - 1));
    }
}

/// Within a frame the unit of a machine that spins in its loop runs dot by dot
/// as if it were alone.
pub proof fn lemma_unit_runs_alone(
    e: EmulatorView,
    cartridge: CartridgeView,
    at: u16,
    irq: InterruptState,
    line: nat,
    dot: nat,
)
    requires
        spinning(e, cartridge, at),
        blank_start(e.bus.ppu),
        line < 154,
        dot < 456,
    ensures
        ticked(e, 456 * line + dot).bus.ppu == clocked(e.bus.ppu, irq, 456 * line + dot).0,
        spinning(ticked(e, 456 * line + dot), cartridge, at),
        456 * line + dot > 0 ==> ticked(e, (456 * line + dot - 1) as nat).clock_frame() is None,
    decreases 456 * line + dot,
{
    let n = 456 * line + dot;
    if n > 0 {
        let (before_line, before_dot) = if dot == 0 {
            ((line - 1) as nat, 455nat)
        } else {
            (line, (dot - 1) as nat)
        };
        assert(456 * before_line + before_dot == n - 1);
        lemma_unit_runs_alone(e, cartridge, at, irq, before_line, before_dot);
        let before = ticked(e, (n - 1) as nat);
        let (alone, requested) = clocked(e.bus.ppu, irq, (n - 1) as nat);
        lemma_spinning_tick(before, cartridge, at);
        lemma_tick_of_unit(before, cartridge, at);
        lemma_dot_ignores_requests(alone, before.bus.interrupts, requested);
        lemma_not_ready(e.bus.ppu, irq, line, dot);
    }
}

/// The frame of a machine that spins in its loop: the 70224th tick from the
/// start of a frame of blank background hands out a frame that is white all
/// over, no tick before it hands one out, and the machine is left at the start of
/// the next such frame.
pub proof fn lemma_frame_of_spinning_machine(e: EmulatorView, cartridge: CartridgeView, at: u16)
    requires
        spinning(e, cartridge, at),
        blank_start(e.bus.ppu),
    ensures
        ticked(e, 70223).clock_frame() is Some,
        all_white(ticked(e, 70223).clock_frame().unwrap()),
        spinning(ticked(e, 70224), cartridge, at),
        blank_start(ticked(e, 70224).bus.ppu),
{
    let irq = e.bus.interrupts;
    let start = e.bus.ppu;
    lemma_unit_runs_alone(e, cartridge, at, irq, 153, 455);
    assert(456 * 153 + 455 == 70223);
    let before = ticked(e, 70223);
    let (alone, requested) = clocked(start, irq, 70223);
    lemma_spinning_tick(before, cartridge, at);
    lemma_tick_of_unit(before, cartridge, at);
    lemma_dot_ignores_requests(alone, before.bus.interrupts, requested);
    let full = clocked(start, irq, 70224).0;
    assert(full == alone.clock_spec(requested).0);
    assert(frame_dots() == 70224);
    lemma_whole_frame_shows_background(start, irq, 0, 0);
    assert forall|x: int, y: int| 0 <= x < 160 && 0 <= y < 144 implies #[trigger] pixel_at(
        full.frame,
        x,
        y,
    ) == (Rgba { r: 0xFF, g: 0xFF, b: 0xFF, a: 0xFF }) by {
        lemma_blank_whole_frame(start, irq, x, y);
    }
    assert(ticked(e, 70224) == before.clock());
    let taken = full.ready_frame_spec();
    assert(taken.vram == start.vram);
}

/// Every frame of a machine that spins in its loop: the machine hands out its
/// `j`-th frame with the tick `70224 * j`, and the frame is white all over.
pub proof fn lemma_frames_of_spinning_machine(
    e: EmulatorView,
    cartridge: CartridgeView,
    at: u16,
    j: nat,
)
    requires
        spinning(e, cartridge, at),
        blank_start(e.bus.ppu),
        j >= 1,
    ensures
        ticked(e, (70224 * j - 1) as nat).clock_frame() is Some,
        all_white(ticked(e, (70224 * j - 1) as nat).clock_frame().unwrap()),
        spinning(ticked(e, 70224 * j), cartridge, at),
        blank_start(ticked(e, 70224 * j).bus.ppu),
    decreases j,
{
    if j == 1 {
        lemma_frame_of_spinning_machine(e, cartridge, at);
    } else {
        lemma_frames_of_spinning_machine(e, cartridge, at, (j - 1) as nat);
        let earlier = ticked(e, 70224 * (j - 1) as nat);
        lemma_frame_of_spinning_machine(earlier, cartridge, at);
        lemma_ticked_adds(e, 70224 * (j - 1) as nat, 70223);
        lemma_ticked_adds(e, 70224 * (j - 1) as nat, 70224);
        assert(70224 * (j - 1) + 70223 == 70224 * j - 1);
        assert(70224 * (j - 1) + 70224 == 70224 * j);
    }
}

/// The machine as `Emulator::new` makes it around a cartridge for the greyscale
/// hardware stands at the start of a frame of blank background.
pub proof fn lemma_new_machine_starts_blank(cartridge: CartridgeView)
    requires
        !cartridge.header.cgb,
    ensures
        blank_start(EmulatorView::around(cartridge).bus.ppu),
{
    broadcast use vstd::array::group_array_axioms;

    let p = EmulatorView::around(cartridge).bus.ppu;
    assert(p.lcd_control_reg.bits == 0x91);
    assert(p.greyscale_bg_palette == 0xFC);
    assert(p.fifo_mode is OamScan);
}

} // verus!
