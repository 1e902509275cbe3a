//! Laws of the whole machine: a program that spins in a loop of NOP and JR in
//! the ROM of a cartridge without a controller stays in its loop while the
//! other units run.

use vstd::prelude::*;
use crate::bus::BusView;
use crate::cartridge::{CartridgeView, Mapper};
use crate::cpu::spin_laws::{holds_spin_loop, lemma_spin_cycle, lemma_spin_keeps_bus, spins};
use crate::cpu::{wrap16, Machine};
use crate::emulator::EmulatorView;
use crate::interrupt::InterruptReg;

verus! {

/// The machine after `n` ticks of the master clock with no serial transport.
pub open spec fn ticked(e: EmulatorView, n: nat) -> EmulatorView
    decreases n,
{
    if n == 0 {
        e
    } else {
        ticked(e, (n - 1) as nat).clock()
    }
}

/// Whether the bus leaves a program in ROM to itself: the cartridge is
/// `cartridge`, which has no controller and holds at `at` the loop NOP; JR -3, no
/// OAM DMA runs, and no interrupt is enabled.
pub open spec fn quiet(bus: BusView, cartridge: CartridgeView, at: u16) -> bool {
    &&& bus.cartridge == cartridge
    &&& cartridge.mapper is NoMapper
    &&& at + 2 <= 0x7FFF
    &&& cartridge.read(at) == 0x00
    &&& cartridge.read((at + 1) as u16) == 0x18
    &&& cartridge.read((at + 2) as u16) == 0xFD
    &&& !bus.dma.active
    &&& bus.interrupts.enable == InterruptReg::empty_spec()
}

/// Whether the machine spins in the loop at `at`.
#[verifier::opaque]
pub open spec fn spinning(e: EmulatorView, cartridge: CartridgeView, at: u16) -> bool {
    &&& quiet(e.bus, cartridge, at)
    &&& spins(Machine { cpu: e.cpu, bus: e.bus }, at)
}

/// On a quiet bus the processor reads the loop and no interrupt is both
/// requested and enabled.
pub proof fn lemma_quiet_holds_loop(bus: BusView, cartridge: CartridgeView, at: u16)
    requires
        quiet(bus, cartridge, at),
    ensures
        holds_spin_loop(bus, at),
{
    reveal(BusView::read_unblocked);
    assert(wrap16(at + 1) == at + 1);
    assert(wrap16(at + 2) == at + 2);
}

/// The units beside the processor leave a quiet bus quiet.
pub proof fn lemma_units_keep_quiet(bus: BusView, cartridge: CartridgeView, at: u16)
    requires
        quiet(bus, cartridge, at),
    ensures
        quiet(bus.tick_ppu(), cartridge, at),
        quiet(bus.tick_timer(), cartridge, at),
        quiet(bus.tick_dma(), cartridge, at),
        quiet(bus.with_serial(bus.serial.clock_printer()), cartridge, at),
        cartridge.tick_second() == cartridge,
{
    crate::ppu::clock_laws::lemma_clock_keeps_enable(bus.ppu, bus.interrupts);
}

/// One tick of the master clock keeps the machine in the loop.
pub proof fn lemma_spinning_tick(e: EmulatorView, cartridge: CartridgeView, at: u16)
    requires
        spinning(e, cartridge, at),
    ensures
        spinning(e.clock(), cartridge, at),
{
    reveal(spinning);
    lemma_units_keep_quiet(e.bus, cartridge, at);
    let drawn = (EmulatorView { bus: e.bus.tick_ppu(), ..e }).tick_cartridge();
    assert(quiet(drawn.bus, cartridge, at));
    lemma_quiet_holds_loop(drawn.bus, cartridge, at);
    let before = Machine { cpu: e.cpu, bus: drawn.bus };
    assert(spins(before, at));
    if e.runs_cycle() {
        lemma_spin_cycle(before, at);
        lemma_spin_keeps_bus(before, at);
        let m = before.clock();
        lemma_units_keep_quiet(m.bus, cartridge, at);
        let timed = m.bus.tick_timer();
        lemma_units_keep_quiet(timed, cartridge, at);
        let copied = timed.tick_dma();
        lemma_units_keep_quiet(copied, cartridge, at);
        let served = copied.with_serial(copied.serial.clock_printer());
        assert(quiet(served, cartridge, at));
        lemma_quiet_holds_loop(served, cartridge, at);
        let core = e.tick_core();
        assert(core.cpu == m.cpu);
        assert(core.bus == copied);
    } else {
        let core = e.tick_core();
        assert(core.bus == drawn.bus);
        assert(core.cpu == e.cpu);
    }
    let after = e.clock();
    assert(quiet(after.bus, cartridge, at));
    lemma_quiet_holds_loop(after.bus, cartridge, at);
}

/// What spinning in the loop means for the outside: PC is `at`, `at + 1` or
/// `at + 2`, and no interrupt is both requested and enabled.
pub proof fn lemma_spinning_means(e: EmulatorView, cartridge: CartridgeView, at: u16)
    requires
        spinning(e, cartridge, at),
    ensures
        e.cpu.pc == at || e.cpu.pc == at + 1 || e.cpu.pc == at + 2,
        e.bus.interrupts.pending_spec() is None,
        e.bus.cartridge == cartridge,
{
    reveal(spinning);
    lemma_quiet_holds_loop(e.bus, cartridge, at);
}

/// A machine that spins in the loop NOP; JR -3 at `at` stays there for ever: after
/// any number of ticks PC is `at`, `at + 1` or `at + 2`, and no interrupt is both
/// requested and enabled.
pub proof fn lemma_spinning_for_ever(e: EmulatorView, cartridge: CartridgeView, at: u16, n: nat)
    requires
        spinning(e, cartridge, at),
    ensures
        spinning(ticked(e, n), cartridge, at),
        ticked(e, n).cpu.pc == at || ticked(e, n).cpu.pc == at + 1 || ticked(e, n).cpu.pc == at + 2,
        ticked(e, n).bus.interrupts.pending_spec() is None,
    decreases n,
{
    if n > 0 {
        lemma_spinning_for_ever(e, cartridge, at, (n - 1) as nat);
        lemma_spinning_tick(ticked(e, (n - 1) as nat), cartridge, at);
    }
    lemma_spinning_means(ticked(e, n), cartridge, at);
}

/// The machine as `Emulator::new` makes it spins in the loop where the ROM of a
/// cartridge without a controller holds the loop at the entry point 0x0100.
pub proof fn lemma_new_machine_spins(cartridge: CartridgeView)
    requires
        cartridge.mapper is NoMapper,
        cartridge.read(0x0100) == 0x00,
        cartridge.read(0x0101) == 0x18,
        cartridge.read(0x0102) == 0xFD,
    ensures
        spinning(EmulatorView::around(cartridge), cartridge, 0x0100),
{
    reveal(spinning);
    let e = EmulatorView::around(cartridge);
    assert(quiet(e.bus, cartridge, 0x0100));
    lemma_quiet_holds_loop(e.bus, cartridge, 0x0100);
}

} // verus!
