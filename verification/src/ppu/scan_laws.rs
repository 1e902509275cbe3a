//! Laws of the sprite scan: which sprites the 80 dots at the start of a scanline
//! select.
//!
//! The scan goes through the forty entries of the sprite table in their order
//! and selects those that lie on the scanline, until it has ten.

use vstd::prelude::*;
use crate::interrupt::InterruptState;
use crate::ppu::fifo_mode::{FifoMode, OamScanState};
use crate::ppu::frame_laws::{lemma_clock_enters, lemma_clock_within_scan, lemma_clocked_adds};
use crate::ppu::laws::clocked;
use crate::ppu::Ppu;

verus! {

/// The entries of the sprite table before entry `upto` that the scan selects
/// for the current scanline, in their order: those that lie on the scanline, up
/// to ten.
pub open spec fn selected(p: Ppu, upto: nat) -> Seq<int>
    decreases upto,
{
    if upto == 0 {
        Seq::empty()
    } else {
        let before = selected(p, (upto - 1) as nat);
        if p.sprite_on_line(p.oam[4 * (upto - 1)]) && before.len() < 10 {
            before.push(upto - 1)
        } else {
            before
        }
    }
}

/// Byte `b` of entry `k` of the secondary table.
pub open spec fn secondary_byte(p: Ppu, k: int, b: int) -> u8 {
    p.secondary_oam[4 * k + b]
}

/// Whether `other` has the same sprite table, scanline and control register as
/// this unit.
pub open spec fn same_sprites(p: Ppu, other: Ppu) -> bool {
    &&& p.oam == other.oam
    &&& p.y == other.y
    &&& p.lcd_control_reg == other.lcd_control_reg
}

/// Whether the scan stands as it should with `done` entries behind it: the
/// secondary table holds the entries selected among them, in their order.
pub open spec fn holds_selected(p: Ppu, s: OamScanState, done: nat) -> bool {
    let sel = selected(p, done);
    &&& s.oam_pointer == 4 * done
    &&& p.sprite_count == sel.len()
    &&& s.secondary_oam_pointer == 4 * sel.len()
    &&& forall|k: int, b: int|
        0 <= k < sel.len() && 0 <= b < 4 ==> #[trigger] secondary_byte(p, k, b) == p.oam[4 * sel[k]
            + b]
}

/// Whether the scan agrees with the sprite table: before the test of entry `i`
/// has been acted on (`moved_on` false) the entries before `i` are behind it and
/// the test of entry `i` is made; after it (`moved_on` true) entry `i` is behind
/// it too.
pub open spec fn scan_agrees(p: Ppu, i: nat, moved_on: bool) -> bool {
    match p.fifo_mode {
        FifoMode::OamScan(s) => if moved_on {
            holds_selected(p, s, i + 1)
        } else {
            holds_selected(p, s, i) && s.is_visible == p.sprite_on_line(p.oam[4 * i as int])
        },
        _ => false,
    }
}

/// The scan never selects more than ten entries, nor more than it has passed,
/// and what it selects are entries it has passed.
pub proof fn lemma_selected_bounds(p: Ppu, upto: nat)
    ensures
        selected(p, upto).len() <= 10,
        selected(p, upto).len() <= upto,
        forall|k: int| 0 <= k < selected(p, upto).len() ==> 0 <= #[trigger] selected(p, upto)[k] < upto,
    decreases upto,
{
    if upto > 0 {
        lemma_selected_bounds(p, (upto - 1) as nat);
    }
}

/// What the scan selects depends on the sprite table, the scanline and the
/// control register alone.
pub proof fn lemma_selected_of_sprites(p: Ppu, q: Ppu, upto: nat)
    requires
        same_sprites(p, q),
    ensures
        selected(p, upto) == selected(q, upto),
    decreases upto,
{
    if upto > 0 {
        lemma_selected_of_sprites(p, q, (upto - 1) as nat);
    }
}

/// One dot of the scan, as the dot clock makes it.
pub open spec fn scan_dot(p: Ppu) -> Ppu {
    let moved = Ppu { cycle: (p.cycle + 1) as u16, ..p };
    match p.fifo_mode {
        FifoMode::OamScan(s) => {
            let (q, next) = moved.oam_scan_spec(s);
            Ppu { fifo_mode: FifoMode::OamScan(next), ..q }
        },
        _ => moved,
    }
}

/// Before the scan ends a dot of the clock is a dot of the scan.
pub proof fn lemma_clock_scans(p: Ppu, irq: InterruptState)
    requires
        p.fifo_mode is OamScan,
        p.cycle + 1 < 80,
    ensures
        p.clock_spec(irq).0 == scan_dot(p),
{
    lemma_clock_within_scan(p, irq);
    reveal(Ppu::render_spec);
}

/// The dot that follows the test of an entry copies the entry to the secondary
/// table if it passed and the table has room, and moves the scan on.
pub proof fn lemma_scan_copies(p: Ppu, i: nat)
    requires
        scan_agrees(p, i, false),
        i < 40,
        p.cycle == 2 * i,
    ensures
        scan_agrees(scan_dot(p), i, true),
        same_sprites(scan_dot(p), p),
        scan_dot(p).cycle == p.cycle + 1,
{
    broadcast use vstd::array::group_array_axioms;

    let q = scan_dot(p);
    let s = p.fifo_mode->OamScan_0;
    let sel = selected(p, i);
    lemma_selected_bounds(p, i);
    lemma_selected_of_sprites(p, q, i + 1);
    lemma_selected_of_sprites(p, q, i);
    let after = selected(p, i + 1);
    let next = q.fifo_mode->OamScan_0;
    if s.is_visible && sel.len() < 10 {
        assert(after == sel.push(i as int));
        let to = 4 * sel.len();
        assert forall|k: int, b: int| 0 <= k < after.len() && 0 <= b < 4 implies #[trigger] secondary_byte(
            q,
            k,
            b,
        ) == q.oam[4 * after[k] + b] by {
            if k < sel.len() {
                assert(secondary_byte(p, k, b) == p.oam[4 * sel[k] + b]);
                assert(4 * k + b < to);
            } else {
                assert(4 * k + b == to + b);
            }
        }
    } else {
        assert(after == sel);
        assert forall|k: int, b: int| 0 <= k < after.len() && 0 <= b < 4 implies #[trigger] secondary_byte(
            q,
            k,
            b,
        ) == q.oam[4 * after[k] + b] by {
            assert(secondary_byte(p, k, b) == p.oam[4 * sel[k] + b]);
        }
    }
}

/// The dot that follows tests the next entry against the scanline.
pub proof fn lemma_scan_tests(p: Ppu, i: nat)
    requires
        scan_agrees(p, i, true),
        i + 1 < 40,
        p.cycle == 2 * i + 1,
    ensures
        scan_agrees(scan_dot(p), i + 1, false),
        same_sprites(scan_dot(p), p),
        scan_dot(p).cycle == p.cycle + 1,
{
    let q = scan_dot(p);
    lemma_selected_of_sprites(p, q, i + 1);
    let sel = selected(p, i + 1);
    assert forall|k: int, b: int| 0 <= k < sel.len() && 0 <= b < 4 implies #[trigger] secondary_byte(
        q,
        k,
        b,
    ) == q.oam[4 * sel[k] + b] by {
        assert(secondary_byte(p, k, b) == p.oam[4 * sel[k] + b]);
    }
}

/// The first work of the scan: with nothing selected, the first entry is tested.
pub proof fn lemma_first_test(p: Ppu, irq: InterruptState)
    requires
        p.fifo_mode == FifoMode::OamScan(OamScanState::initial()),
        p.sprite_count == 0,
        p.cycle == 0,
    ensures
        scan_agrees(p.render_spec(irq).0, 0, false),
        p.render_spec(irq).0.cycle == 0,
        same_sprites(p.render_spec(irq).0, p),
{
    reveal(Ppu::render_spec);
    let q = p.render_spec(irq).0;
    assert(selected(q, 0) =~= Seq::<int>::empty());
}

/// The change to a visible scanline leaves the sprite table and sets the scan
/// to its beginning.
pub proof fn lemma_enter_scan(p: Ppu, irq: InterruptState)
    requires
        p.cycle == 455,
        p.y < 143 || p.y == 153,
    ensures
        ({
            let entered = p.enter_dot_spec(irq).0;
            &&& entered.fifo_mode == FifoMode::OamScan(OamScanState::initial())
            &&& entered.sprite_count == 0
            &&& entered.cycle == 0
            &&& entered.y == (p.y + 1) % 154
            &&& entered.oam == p.oam
            &&& entered.lcd_control_reg == p.lcd_control_reg
        }),
{
}

/// The last dot of a scanline before a visible one begins the scan: nothing is
/// selected yet, and the first entry is tested.
pub proof fn lemma_line_begins_scan(p: Ppu, irq: InterruptState)
    requires
        p.cycle == 455,
        p.y < 143 || p.y == 153,
    ensures
        ({
            let q = p.clock_spec(irq).0;
            &&& scan_agrees(q, 0, false)
            &&& q.cycle == 0
            &&& q.y == (p.y + 1) % 154
            &&& q.oam == p.oam
            &&& q.lcd_control_reg == p.lcd_control_reg
        }),
{
    lemma_clock_enters(p, irq);
    lemma_enter_scan(p, irq);
    let (entered, requested) = p.enter_dot_spec(irq);
    lemma_first_test(entered, requested);
}

/// The scan, dot by dot: `2 * i` dots after it began it has tested entry `i`,
/// one dot later it has moved on past it, and the secondary table holds what
/// was selected among the entries behind it.
pub proof fn lemma_scan_progress(p: Ppu, irq: InterruptState, i: nat, moved_on: bool)
    requires
        scan_agrees(p, 0, false),
        p.cycle == 0,
        i < 40,
    ensures
        ({
            let n = 2 * i + (if moved_on {
                1nat
            } else {
                0
            });
            let q = clocked(p, irq, n).0;
            &&& scan_agrees(q, i, moved_on)
            &&& same_sprites(q, p)
            &&& q.cycle == n
        }),
    decreases 2 * i + (if moved_on {
        1nat
    } else {
        0
    }),
{
    if moved_on {
        lemma_scan_progress(p, irq, i, false);
        let (q, requested) = clocked(p, irq, 2 * i);
        lemma_clock_scans(q, requested);
        lemma_scan_copies(q, i);
    } else if i > 0 {
        lemma_scan_progress(p, irq, (i - 1) as nat, true);
        assert(2 * (i - 1) + 1 == 2 * i - 1);
        let (q, requested) = clocked(p, irq, (2 * i - 1) as nat);
        lemma_clock_scans(q, requested);
        lemma_scan_tests(q, (i - 1) as nat);
    }
}

/// What the sprite scan selects: from the last dot of the scanline before, the
/// 80 dots of the scan leave in the secondary table the sprites of the table
/// that lie on the scanline, in the order of the table, up to ten of them, and
/// their number in `sprite_count`.
pub proof fn lemma_scan_selects(p: Ppu, irq: InterruptState, k: int, b: int)
    requires
        p.cycle == 455,
        p.y < 143 || p.y == 153,
    ensures
        ({
            let q = clocked(p, irq, 80).0;
            let chosen = selected(q, 40);
            &&& q.cycle == 79
            &&& q.y == (p.y + 1) % 154
            &&& q.oam == p.oam
            &&& q.sprite_count == chosen.len()
            &&& chosen.len() <= 10
            &&& (0 <= k < chosen.len() && 0 <= b < 4 ==> 0 <= chosen[k] < 40 && secondary_byte(q, k, b)
                == p.oam[4 * chosen[k] + b])
        }),
{
    lemma_line_begins_scan(p, irq);
    let (first, requested) = clocked(p, irq, 1);
    assert(clocked(p, irq, 0) == (p, irq));
    assert(first == p.clock_spec(irq).0);
    lemma_scan_progress(first, requested, 39, true);
    lemma_clocked_adds(p, irq, 1, 79);
    let q = clocked(p, irq, 80).0;
    lemma_selected_bounds(q, 40);
}

} // verus!
