//! Laws of the processor: a program that spins in a loop of NOP and JR stays
//! in its loop.

use vstd::prelude::*;
use crate::bus::BusView;
use crate::cpu::alu::relative_target;
use crate::cpu::decoder::{decode, Opcode};
use crate::cpu::laws::run;
use crate::cpu::{wrap16, Cpu, Machine};

verus! {

/// Whether the bus holds at `at` the loop NOP; JR -3, and no interrupt is both
/// requested and enabled.
pub open spec fn holds_spin_loop(bus: BusView, at: u16) -> bool {
    &&& bus.read(at) == 0x00
    &&& bus.read(wrap16(at + 1)) == 0x18
    &&& bus.read(wrap16(at + 2)) == 0xFD
    &&& bus.interrupts.pending_spec() is None
}

/// Where the processor can be while it spins in the loop at `at`: about to fetch
/// the NOP, with the NOP or the JR in the latch, or with the JR executed and its
/// last cycles to count.
pub open spec fn spins(m: Machine, at: u16) -> bool {
    &&& holds_spin_loop(m.bus, at)
    &&& !m.cpu.halted
    &&& !m.cpu.ei_pending
    &&& {
        ||| (m.cpu.cycles == 0 && m.cpu.pc == at)
        ||| (m.cpu.opcode_latch == Opcode::Nop && m.cpu.cycles == 1 && m.cpu.pc == wrap16(at + 1))
        ||| (m.cpu.opcode_latch == Opcode::JpRel && m.cpu.cycles == 3 && m.cpu.pc == wrap16(
            at + 2,
        ))
        ||| (m.cpu.opcode_latch == Opcode::Unknown && 1 <= m.cpu.cycles <= 2 && m.cpu.pc == at)
    }
}

/// With no interrupt to serve, the beginning of an instruction is a fetch, which
/// decodes the byte at PC and leaves its nominal cost on the counter.
pub proof fn lemma_begins_with_fetch(m: Machine)
    requires
        m.bus.interrupts.pending_spec() is None,
    ensures
        m.begin_instruction().bus == m.bus,
        m.begin_instruction().cpu == (Cpu {
            opcode_latch: decode(m.bus.read(m.cpu.pc)),
            cycles: decode(m.bus.read(m.cpu.pc)).cycles_spec() as u8,
            pc: wrap16(m.cpu.pc + 1),
            ..m.cpu
        }),
{
    reveal(Machine::begin_instruction);
}

/// The two instructions of the loop, decoded.
pub proof fn lemma_loop_opcodes()
    ensures
        decode(0x00) == Opcode::Nop,
        Opcode::Nop.cycles_spec() == 1,
        decode(0x18) == Opcode::JpRel,
        Opcode::JpRel.cycles_spec() == 3,
{
}

/// What the instructions of the loop do when they are executed: NOP and the
/// cleared latch do nothing; JR reads its operand and jumps.
pub proof fn lemma_loop_executes(m: Machine)
    requires
        !m.cpu.ei_pending,
    ensures
        m.cpu.opcode_latch == Opcode::Nop || m.cpu.opcode_latch == Opcode::Unknown ==> m.execute()
            == m,
        m.cpu.opcode_latch == Opcode::JpRel ==> m.execute() == m.with_cpu(
            Cpu {
                pc: relative_target(wrap16(m.cpu.pc + 1), m.bus.read(m.cpu.pc)),
                ..m.cpu
            },
        ),
{
    reveal(Machine::execute_control);
    let op = m.cpu.opcode_latch;
    if op == Opcode::Nop || op == Opcode::Unknown || op == Opcode::JpRel {
        assert(!Machine::is_load(op) && !Machine::is_arithmetic(op));
        assert(m.execute_opcode(op) == m.execute_control(op));
    }
}

/// A jump by -3 from behind the JR leads back to the NOP before it.
pub proof fn lemma_back_three(at: u16)
    ensures
        relative_target(wrap16(wrap16(at + 2) + 1), 0xFD) == at,
        wrap16(wrap16(at + 1) + 1) == wrap16(at + 2),
{
}

/// One machine cycle keeps the processor in the loop.
pub proof fn lemma_spin_cycle(m: Machine, at: u16)
    requires
        spins(m, at),
    ensures
        spins(m.clock(), at),
{
    lemma_loop_opcodes();
    lemma_loop_executes(m);
    lemma_back_three(at);
    let counted = m.count_cycle();
    assert(counted.bus == m.bus);
    if counted.cpu.cycles == 0 {
        lemma_begins_with_fetch(counted);
    }
}

/// A processor that spins in the loop NOP; JR -3 at `at` stays there for ever:
/// after any number of machine cycles PC is `at`, `at + 1` or `at + 2`, the bus
/// is as it was, and no interrupt is both requested and enabled.
pub proof fn lemma_spins_for_ever(m: Machine, at: u16, n: nat)
    requires
        spins(m, at),
    ensures
        spins(run(m, n), at),
        run(m, n).cpu.pc == at || run(m, n).cpu.pc == wrap16(at + 1) || run(m, n).cpu.pc == wrap16(
            at + 2,
        ),
        run(m, n).bus == m.bus,
    decreases n,
{
    if n > 0 {
        lemma_spins_for_ever(m, at, (n - 1) as nat);
        lemma_spin_cycle(run(m, (n - 1) as nat), at);
        lemma_spin_keeps_bus(run(m, (n - 1) as nat), at);
    }
}

/// One machine cycle of the loop leaves the bus.
pub proof fn lemma_spin_keeps_bus(m: Machine, at: u16)
    requires
        spins(m, at),
    ensures
        m.clock().bus == m.bus,
{
    lemma_loop_opcodes();
    lemma_loop_executes(m);
    let counted = m.count_cycle();
    if counted.cpu.cycles == 0 {
        lemma_begins_with_fetch(counted);
    }
}

} // verus!
