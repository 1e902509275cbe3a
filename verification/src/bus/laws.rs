//! Laws of the bus: what an OAM DMA copies.

use vstd::prelude::*;
use crate::bus::{wram_index, BusView, DMA_LENGTH};

verus! {

/// The bus after `n` machine cycles of the DMA unit.
pub open spec fn dma_run(bus: BusView, n: nat) -> BusView
    decreases n,
{
    if n == 0 {
        bus
    } else {
        dma_run(bus, (n - 1) as nat).tick_dma()
    }
}

/// The byte of work RAM that a DMA from page `page` copies as its `i`-th.
pub open spec fn dma_source_byte(bus: BusView, page: u8, i: int) -> u8 {
    bus.wram[wram_index(bus.cgb, bus.wram_bank, (page * 0x100 + i) as u16)]
}

/// A write to 0xFF46 starts a copy from the page written and changes nothing else.
pub proof fn lemma_dma_starts(bus: BusView, page: u8)
    ensures
        bus.write(0xFF46, page) == (BusView {
            dma: crate::bus::OamDma { active: true, source: page, index: 0 },
            ..bus
        }),
{
    reveal(BusView::write);
}

/// One machine cycle of a copy from the work RAM moves the next byte into the
/// sprite table, whatever mode the picture processing unit is in, and leaves
/// the bytes copied before and the work RAM.
pub proof fn lemma_dma_cycle(bus: BusView, i: int)
    requires
        bus.dma.active,
        bus.dma.index < DMA_LENGTH,
        0xC0 <= bus.dma.source <= 0xDF,
        0 <= i < 160,
    ensures
        ({
            let after = bus.tick_dma();
            &&& after.wram == bus.wram
            &&& after.cgb == bus.cgb
            &&& after.wram_bank == bus.wram_bank
            &&& after.dma.source == bus.dma.source
            &&& after.dma.index == bus.dma.index + 1
            &&& after.dma.active == (bus.dma.index + 1 < DMA_LENGTH)
            &&& after.ppu.oam[i] == (if i == bus.dma.index {
                dma_source_byte(bus, bus.dma.source, i)
            } else {
                bus.ppu.oam[i]
            })
        }),
{
    broadcast use vstd::array::group_array_axioms;

    reveal(BusView::read_unblocked);
    let source = bus.dma_source();
    assert(source == bus.dma.source * 0x100 + bus.dma.index);
    assert(0xC000 <= source <= 0xDFFF);
}

/// A copy from the work RAM, cycle by cycle: after `k` machine cycles the first
/// `k` bytes of the sprite table are the first `k` bytes of the page.
pub proof fn lemma_dma_progress(bus: BusView, k: nat, i: int)
    requires
        bus.dma.active,
        bus.dma.index == 0,
        0xC0 <= bus.dma.source <= 0xDF,
        k <= 160,
        0 <= i < 160,
    ensures
        ({
            let after = dma_run(bus, k);
            &&& after.wram == bus.wram
            &&& after.cgb == bus.cgb
            &&& after.wram_bank == bus.wram_bank
            &&& after.dma.source == bus.dma.source
            &&& after.dma.index == k
            &&& after.dma.active == (k < 160)
            &&& after.ppu.oam[i] == (if i < k {
                dma_source_byte(bus, bus.dma.source, i)
            } else {
                bus.ppu.oam[i]
            })
        }),
    decreases k,
{
    if k > 0 {
        lemma_dma_progress(bus, (k - 1) as nat, i);
        lemma_dma_cycle(dma_run(bus, (k - 1) as nat), i);
    }
}

/// What an OAM DMA copies: after a write of `page` to 0xFF46, a page of the work
/// RAM, and 160 machine cycles, the 160 bytes of the sprite table are the 160
/// bytes of the page, the copy is over, and the work RAM is as it was.
pub proof fn lemma_dma_copies(bus: BusView, page: u8, i: int)
    requires
        0xC0 <= page <= 0xDF,
        0 <= i < 160,
    ensures
        ({
            let after = dma_run(bus.write(0xFF46, page), 160);
            &&& after.ppu.oam[i] == dma_source_byte(bus, page, i)
            &&& !after.dma.active
            &&& after.wram == bus.wram
        }),
{
    lemma_dma_starts(bus, page);
    let started = bus.write(0xFF46, page);
    lemma_dma_progress(started, 160, i);
}

} // verus!
