//! Laws of the processor that hold of every state.

use vstd::prelude::*;
use crate::bus::{lemma_stack_write_read, stack_in_ram};
use crate::cpu::alu::{
    add16_spec,
    add8_spec,
    add_sp_spec,
    and8_spec,
    daa_spec,
    dec8_spec,
    inc8_spec,
    lemma_flag_bits_round_trip,
    lemma_flag_byte_round_trip,
    or8_spec,
    rotate_accumulator_spec,
    rotate_spec,
    sub8_spec,
    test_bit_spec,
    xor8_spec,
    FlagRegister,
};
use crate::cpu::decoder::{decode, Alu, Opcode, RegisterPair, Rotation};
use crate::cpu::{word, Cpu, Machine};

verus! {

/// The flag table of the 8-bit arithmetic. Every operation sets Z exactly when
/// its result is zero. An addition clears N, sets H on a carry out of bit 3 and C
/// on a carry out of bit 7. A subtraction or comparison sets N, sets H on a borrow
/// into bit 3 and C on a borrow into bit 7. AND clears N and C and sets H; XOR and
/// OR clear N, H and C. INC and DEC leave C as it was.
pub proof fn lemma_flag_table_8bit(a: u8, v: u8, carry: bool, flags: FlagRegister)
    ensures
        add8_spec(a, v, carry).flags.z == (add8_spec(a, v, carry).value == 0),
        !add8_spec(a, v, carry).flags.n,
        add8_spec(a, v, false).flags.h == ((a % 16) + (v % 16) > 15),
        add8_spec(a, v, false).flags.c == (a + v > 255),
        sub8_spec(a, v, carry).flags.z == (sub8_spec(a, v, carry).value == 0),
        sub8_spec(a, v, carry).flags.n,
        sub8_spec(a, v, false).flags.h == ((a % 16) < (v % 16)),
        sub8_spec(a, v, false).flags.c == (a < v),
        sub8_spec(a, v, false).flags.z == (a == v),
        and8_spec(a, v).flags == (FlagRegister { z: and8_spec(a, v).value == 0, n: false, h: true, c: false }),
        xor8_spec(a, v).flags == (FlagRegister { z: xor8_spec(a, v).value == 0, n: false, h: false, c: false }),
        or8_spec(a, v).flags == (FlagRegister { z: or8_spec(a, v).value == 0, n: false, h: false, c: false }),
        inc8_spec(v, flags).flags == (FlagRegister {
            z: inc8_spec(v, flags).value == 0,
            n: false,
            h: v % 16 == 15,
            c: flags.c,
        }),
        dec8_spec(v, flags).flags == (FlagRegister {
            z: dec8_spec(v, flags).value == 0,
            n: true,
            h: v % 16 == 0,
            c: flags.c,
        }),
{
}

/// The flag table of the other instructions. ADD HL leaves Z, clears N, sets H
/// on a carry out of bit 11 and C on a carry out of bit 15. ADD SP and LD HL,SP+e
/// clear Z and N. DAA leaves N and clears H. The accumulator rotations clear Z, N
/// and H; the rotations of the second decode space clear N and H and set Z on a
/// zero result. BIT clears N, sets H and leaves C.
pub proof fn lemma_flag_table_other(
    hl: u16,
    v: u16,
    e: u8,
    a: u8,
    n: u8,
    kind: Rotation,
    flags: FlagRegister,
)
    ensures
        add16_spec(hl, v, flags).1 == (FlagRegister {
            z: flags.z,
            n: false,
            h: (hl % 0x1000) + (v % 0x1000) > 0xFFF,
            c: hl + v > 0xFFFF,
        }),
        !add_sp_spec(hl, e).1.z && !add_sp_spec(hl, e).1.n,
        daa_spec(a, flags).flags.n == flags.n && !daa_spec(a, flags).flags.h,
        daa_spec(a, flags).flags.z == (daa_spec(a, flags).value == 0),
        !rotate_accumulator_spec(kind, a, flags.c).flags.z,
        !rotate_accumulator_spec(kind, a, flags.c).flags.n,
        !rotate_accumulator_spec(kind, a, flags.c).flags.h,
        rotate_spec(kind, a, flags.c).flags.z == (rotate_spec(kind, a, flags.c).value == 0),
        !rotate_spec(kind, a, flags.c).flags.n && !rotate_spec(kind, a, flags.c).flags.h,
        !test_bit_spec(n, a, flags).n && test_bit_spec(n, a, flags).h,
        test_bit_spec(n, a, flags).c == flags.c,
{
}

/// What an accumulator instruction leaves in F is what the flag table says of
/// its operation, whatever F held before; only ADC and SBC look at the old carry.
pub proof fn lemma_run_alu_flags(cpu: Cpu, alu_op: Alu, val: u8)
    ensures
        cpu.run_alu_spec(alu_op, val).f.n == (alu_op is Sub || alu_op is Sbc || alu_op is Cp),
        (alu_op is And || alu_op is Xor || alu_op is Or) ==> !cpu.run_alu_spec(alu_op, val).f.c,
        alu_op is Cp ==> cpu.run_alu_spec(alu_op, val).a == cpu.a && cpu.run_alu_spec(alu_op, val).f.z
            == (cpu.a == val),
        !(alu_op is Cp) ==> cpu.run_alu_spec(alu_op, val).f.z == (cpu.run_alu_spec(alu_op, val).a == 0),
{
}

/// A register pair set to its own value is unchanged. For AF this rests on F
/// holding nothing in its lower nibble.
pub proof fn lemma_pair_round_trip(cpu: Cpu, pair: RegisterPair)
    ensures
        cpu.set_register_pair_spec(pair, cpu.get_register_pair_spec(pair)) == cpu,
        cpu.get_register_pair_spec(RegisterPair::AF) % 16 == 0,
{
    lemma_flag_bits_round_trip(cpu.f);
}

/// Of a value put in AF the lower four bits are lost and nothing else.
pub proof fn lemma_af_keeps_upper_bits(cpu: Cpu, val: u16)
    ensures
        cpu.set_register_pair_spec(RegisterPair::AF, val).get_register_pair_spec(RegisterPair::AF)
            == val - val % 16,
{
    lemma_flag_byte_round_trip((val % 256) as u8);
    let low = (val % 256) as u8;
    assert(low % 16 == val % 16);
}

/// A value pushed where the stack lies in plain memory is popped again as it
/// was, and SP is back where it was.
pub proof fn lemma_stack_round_trip(m: Machine, val: u16)
    requires
        stack_in_ram(m.bus, m.cpu.sp),
    ensures
        m.write_stack(val).read_stack().1 == val,
        m.write_stack(val).read_stack().0.cpu == m.cpu,
        m.write_stack(val).read_stack().0.bus == m.write_stack(val).bus,
{
    let high = (val / 256) as u8;
    let low = (val % 256) as u8;
    lemma_stack_write_read(m.bus, m.cpu.sp, high, low);
    let pushed = m.write_stack(val);
    assert(pushed.cpu.sp == ((m.cpu.sp - 2) % 0x10000) as u16);
    assert(((pushed.cpu.sp + 1) % 0x10000) as u16 == ((m.cpu.sp - 1) % 0x10000) as u16);
    assert(((pushed.cpu.sp + 2) % 0x10000) as u16 == m.cpu.sp);
    assert(word(high, low) == val);
}

/// What PUSH does, written out: the pair is pushed on the stack.
#[verifier::rlimit(50)]
pub proof fn lemma_push_unfolds(m: Machine, pair: RegisterPair)
    ensures
        m.execute_opcode(Opcode::Push(pair)) == m.write_stack(m.cpu.get_register_pair_spec(pair)),
{
    reveal(Machine::execute_load);
    assert(Machine::is_load(Opcode::Push(pair)));
}

/// What POP does, written out: the pair takes the value popped off the stack.
#[verifier::rlimit(50)]
pub proof fn lemma_pop_unfolds(m: Machine, pair: RegisterPair)
    ensures
        m.execute_opcode(Opcode::Pop(pair)) == m.read_stack().0.with_cpu(
            m.read_stack().0.cpu.set_register_pair_spec(pair, m.read_stack().1),
        ),
{
    reveal(Machine::execute_load);
    assert(Machine::is_load(Opcode::Pop(pair)));
}

/// PUSH followed by POP of the same pair leaves the processor as it was, where
/// the stack lies in plain memory.
pub proof fn lemma_push_pop(m: Machine, pair: RegisterPair)
    requires
        pair != RegisterPair::SP,
        stack_in_ram(m.bus, m.cpu.sp),
    ensures
        m.execute_opcode(Opcode::Push(pair)).execute_opcode(Opcode::Pop(pair)).cpu == m.cpu,
{
    let val = m.cpu.get_register_pair_spec(pair);
    lemma_stack_round_trip(m, val);
    lemma_pair_round_trip(m.cpu, pair);
    lemma_push_unfolds(m, pair);
    let pushed = m.write_stack(val);
    lemma_pop_unfolds(pushed, pair);
}

/// POP AF drops the lower four bits of the byte it reads for F: whatever lies on
/// the stack, AF ends with its lower nibble zero and the rest as read.
pub proof fn lemma_pop_af_masks(m: Machine)
    ensures
        ({
            let read = m.read_stack().1;
            let after = m.execute_opcode(Opcode::Pop(RegisterPair::AF)).cpu;
            &&& after.get_register_pair_spec(RegisterPair::AF) == read - read % 16
            &&& after.get_register_pair_spec(RegisterPair::AF) % 16 == 0
        }),
{
    let (popped, read) = m.read_stack();
    lemma_af_keeps_upper_bits(popped.cpu, read);
    lemma_pop_unfolds(m, RegisterPair::AF);
    let after = popped.cpu.set_register_pair_spec(RegisterPair::AF, read);
    assert(m.execute_opcode(Opcode::Pop(RegisterPair::AF)).cpu == after);
    assert((read - read % 16) % 16 == 0) by {
        vstd::arithmetic::div_mod::lemma_fundamental_div_mod_converse(
            read - read % 16,
            16,
            read as int / 16,
            0,
        );
    }
}

/// A relative jump by -2 from the address behind its operand leads back to the
/// jump itself.
pub proof fn lemma_back_two(pc: u16)
    ensures
        crate::cpu::alu::relative_target(((pc + 2) % 0x10000) as u16, 0xFE) == pc,
        ((((pc + 1) % 0x10000) as u16 + 1) % 0x10000) as u16 == ((pc + 2) % 0x10000) as u16,
{
}

/// A relative jump by -2 jumps to itself: with JR at PC and 0xFE behind it, fetch
/// and execution leave PC where it was. The instruction takes three machine cycles.
pub proof fn lemma_jr_to_itself(m: Machine)
    requires
        m.bus.read(m.cpu.pc) == 0x18,
        m.bus.read(((m.cpu.pc + 1) % 0x10000) as u16) == 0xFE,
    ensures
        m.fetch().cpu.opcode_latch == Opcode::JpRel,
        m.fetch().cpu.cycles == 3,
        m.fetch().execute().cpu.pc == m.cpu.pc,
        m.fetch().execute().bus == m.bus,
{
    reveal(Machine::execute_control);
    lemma_back_two(m.cpu.pc);
    assert(decode(0x18) == Opcode::JpRel);
    let fetched = m.fetch();
    assert(fetched.cpu.pc == ((m.cpu.pc + 1) % 0x10000) as u16);
    assert(fetched.bus == m.bus);
    assert(Opcode::JpRel.condition_spec() is None);
    assert(Opcode::JpRel.cycles_spec() == 3);
    assert(fetched.cpu.opcode_latch == Opcode::JpRel);
    assert(fetched.cpu.cycles == 3);
    let (read, e) = fetched.read_immediate();
    assert(e == 0xFE);
    assert(read.cpu.pc == ((m.cpu.pc + 2) % 0x10000) as u16);
    assert(!Machine::is_load(Opcode::JpRel) && !Machine::is_arithmetic(Opcode::JpRel));
    let jumped = read.jump(crate::cpu::alu::relative_target(read.cpu.pc, e));
    assert(fetched.execute_opcode(Opcode::JpRel) == jumped);
    assert(jumped.cpu.pc == m.cpu.pc);
    assert(jumped.cpu.ei_pending == m.cpu.ei_pending);
}

/// The machine after `n` machine cycles of the processor.
pub open spec fn run(m: Machine, n: nat) -> Machine
    decreases n,
{
    if n == 0 {
        m
    } else {
        run(m, (n - 1) as nat).clock()
    }
}

/// The processor with the delayed effect of EI carried out.
pub open spec fn settled(cpu: Cpu) -> Cpu {
    if cpu.ei_pending {
        Cpu { ime: true, ei_pending: false, ..cpu }
    } else {
        cpu
    }
}

/// What the instruction `op` adds to the cycle counter as it is executed: the cost
/// of its branch where that is taken, and for the prefix byte the cost of the
/// data that the instruction behind it reads and writes.
pub open spec fn added_cost(m: Machine, op: Opcode) -> int {
    match op {
        Opcode::JpCond(c) | Opcode::JpRelCond(c) | Opcode::CallCond(c) | Opcode::RetCond(c) => if m.cpu.check_conditional_spec(
            c,
        ) {
            op.taken_cycles_spec()
        } else {
            0
        },
        Opcode::CBPrefix => crate::cpu::decoder::decode_cb(m.bus.read(m.cpu.pc)).extra_cycles_spec(),
        _ => 0,
    }
}

/// A load leaves the cycle counter.
pub proof fn lemma_load_keeps_cycles(m: Machine, op: Opcode)
    ensures
        m.execute_load(op).cpu.cycles == m.cpu.cycles,
{
    reveal(Machine::execute_load);
}

/// An arithmetic instruction leaves the cycle counter.
pub proof fn lemma_arithmetic_keeps_cycles(m: Machine, op: Opcode)
    ensures
        m.execute_arithmetic(op).cpu.cycles == m.cpu.cycles,
{
    reveal(Machine::execute_arithmetic);
}

/// An instruction of the second decode space leaves the cycle counter and the
/// pending effect of EI.
pub proof fn lemma_cb_keeps_cycles(m: Machine, op: crate::cpu::decoder::CbOpcode)
    ensures
        m.execute_cb(op).cpu.cycles == m.cpu.cycles,
{
    reveal(Machine::execute_cb);
}

/// A jump, call or return adds the cost of its branch to the cycle counter where
/// the branch is taken, and nothing else does.
pub proof fn lemma_control_cost(m: Machine, op: Opcode)
    requires
        !Machine::is_load(op),
        !Machine::is_arithmetic(op),
        !(op is CBPrefix),
    ensures
        m.execute_control(op).cpu.cycles == (m.cpu.cycles + added_cost(m, op)) % 256,
{
    reveal(Machine::execute_control);
    match op {
        Opcode::JpCond(c) => {
            let (read, addr) = m.read_immediate16();
            assert(read.cpu.f == m.cpu.f && read.cpu.cycles == m.cpu.cycles);
        },
        Opcode::JpRelCond(c) => {
            let (read, e) = m.read_immediate();
            assert(read.cpu.f == m.cpu.f && read.cpu.cycles == m.cpu.cycles);
        },
        Opcode::CallCond(c) => {
            let (read, addr) = m.read_immediate16();
            assert(read.cpu.f == m.cpu.f && read.cpu.cycles == m.cpu.cycles);
            assert(read.write_stack(read.cpu.pc).cpu.cycles == m.cpu.cycles);
        },
        Opcode::RetCond(c) => {
            assert(m.read_stack().0.cpu.cycles == m.cpu.cycles);
        },
        Opcode::JpImm | Opcode::Call => {
            assert(m.read_immediate16().0.cpu.cycles == m.cpu.cycles);
        },
        Opcode::JpRel => {
            assert(m.read_immediate().0.cpu.cycles == m.cpu.cycles);
        },
        Opcode::Ret | Opcode::Reti => {
            assert(m.read_stack().0.cpu.cycles == m.cpu.cycles);
        },
        _ => {},
    }
    assert(0 <= m.cpu.cycles < 256);
}

/// What execution does to the cycle counter: it adds the cost of a branch taken,
/// or of the data of an instruction behind the prefix byte, and nothing else.
pub proof fn lemma_execution_cost(m: Machine)
    ensures
        m.execute().cpu.cycles == (m.cpu.cycles + added_cost(m, m.cpu.opcode_latch)) % 256,
{
    let op = m.cpu.opcode_latch;
    if Machine::is_load(op) {
        lemma_load_keeps_cycles(m, op);
    } else if Machine::is_arithmetic(op) {
        lemma_arithmetic_keeps_cycles(m, op);
    } else if op is CBPrefix {
        let (read, byte) = m.read_immediate();
        lemma_cb_keeps_cycles(read, crate::cpu::decoder::decode_cb(byte));
    } else {
        lemma_control_cost(m, op);
    }
}

/// A machine cycle with nothing in the latch and more than one cycle left counts
/// the cycle off and does nothing else but carry out the delayed effect of EI.
pub proof fn lemma_idle_cycle(m: Machine)
    requires
        !m.cpu.halted,
        m.cpu.opcode_latch == Opcode::Unknown,
        m.cpu.cycles >= 2,
    ensures
        m.clock() == m.with_cpu(Cpu { cycles: (m.cpu.cycles - 1) as u8, ..settled(m.cpu) }),
{
    reveal(Machine::execute_control);
    assert(!Machine::is_load(Opcode::Unknown) && !Machine::is_arithmetic(Opcode::Unknown));
    assert(m.execute_opcode(Opcode::Unknown) == m);
}

/// Once an instruction is executed the processor counts the rest of its cycles
/// off, one each machine cycle, and touches nothing else until the last of them.
pub proof fn lemma_cycles_count_down(m: Machine, j: nat)
    requires
        !m.cpu.halted,
        m.cpu.opcode_latch == Opcode::Unknown,
        j < m.cpu.cycles,
    ensures
        run(m, j) == m.with_cpu(
            Cpu {
                cycles: (m.cpu.cycles - j) as u8,
                ..(if j == 0 {
                    m.cpu
                } else {
                    settled(m.cpu)
                })
            },
        ),
    decreases j,
{
    if j > 0 {
        lemma_cycles_count_down(m, (j - 1) as nat);
        lemma_idle_cycle(run(m, (j - 1) as nat));
    }
}

/// The last machine cycle of an instruction already executed counts the cycle
/// off and begins the next instruction.
pub proof fn lemma_last_cycle(m: Machine)
    requires
        !m.cpu.halted,
        m.cpu.opcode_latch == Opcode::Unknown,
        m.cpu.cycles == 1,
    ensures
        m.clock() == m.with_cpu(Cpu { cycles: 0, ..settled(m.cpu) }).begin_instruction(),
{
    reveal(Machine::execute_control);
    assert(!Machine::is_load(Opcode::Unknown) && !Machine::is_arithmetic(Opcode::Unknown));
    assert(m.execute_opcode(Opcode::Unknown) == m);
}

/// The first machine cycle after a fetch executes the instruction, which adds
/// what it costs beyond its nominal cost, clears the latch and counts one cycle off.
pub proof fn lemma_first_cycle(m: Machine)
    requires
        !m.cpu.halted,
        1 <= m.cpu.cycles,
        m.cpu.cycles + added_cost(m, m.cpu.opcode_latch) < 256,
    ensures
        m.count_cycle().cpu.cycles == m.cpu.cycles + added_cost(m, m.cpu.opcode_latch) - 1,
        m.count_cycle().cpu.opcode_latch == Opcode::Unknown,
        m.count_cycle().cpu.halted == m.execute().cpu.halted,
        m.clock() == if m.count_cycle().cpu.cycles == 0 && !m.count_cycle().cpu.halted {
            m.count_cycle().begin_instruction()
        } else {
            m.count_cycle()
        },
{
    lemma_execution_cost(m);
    assert(0 <= added_cost(m, m.cpu.opcode_latch) <= 3);
}

/// The state of the processor `j` machine cycles after the first cycle of an
/// instruction left `left` cycles on the counter: the cycles are counted down,
/// and the one that brings the counter to zero begins the next instruction.
pub open spec fn counted_down(counted: Machine, j: nat) -> Machine {
    let left = counted.cpu.cycles as nat;
    if j == 0 {
        counted
    } else if j < left {
        counted.with_cpu(Cpu { cycles: (left - j) as u8, ..settled(counted.cpu) })
    } else {
        counted.with_cpu(Cpu { cycles: 0, ..settled(counted.cpu) }).begin_instruction()
    }
}

/// A fetch sets the cycle counter to the nominal cost of the instruction at PC,
/// moves PC past the instruction byte and touches nothing else.
pub proof fn lemma_fetch_sets_nominal_cost(m: Machine)
    ensures
        m.fetch().cpu.opcode_latch == decode(m.bus.read(m.cpu.pc)),
        m.fetch().cpu.cycles == m.fetch().cpu.opcode_latch.cycles_spec(),
        m.fetch().cpu.pc == ((m.cpu.pc + 1) % 0x10000) as u16,
        m.fetch().bus == m.bus,
        m.fetch().cpu == (Cpu {
            opcode_latch: m.fetch().cpu.opcode_latch,
            cycles: m.fetch().cpu.cycles,
            pc: m.fetch().cpu.pc,
            ..m.cpu
        }),
{
    let op = decode(m.bus.read(m.cpu.pc));
    lemma_cost_range(op, m);
}

/// The nominal cost of an instruction is from one to six machine cycles, and
/// execution adds at most three.
pub proof fn lemma_cost_range(op: Opcode, m: Machine)
    ensures
        1 <= op.cycles_spec() <= 6,
        0 <= added_cost(m, op) <= 3,
{
}

/// The machine cycles from one fetch to the next. The fetch left the nominal
/// cost of the instruction on the cycle counter. The first machine cycle after
/// it executes the instruction, which adds the cost of its branch where that is
/// taken. From there the counter is counted down, and the machine cycle that
/// brings it to zero begins the next instruction: the cycles between the two
/// fetches are the nominal cost and what execution added.
pub proof fn lemma_cycles_between_fetches(fetched: Machine, j: nat)
    requires
        !fetched.cpu.halted,
        !fetched.execute().cpu.halted,
        fetched.cpu.cycles == fetched.cpu.opcode_latch.cycles_spec(),
        1 <= j <= fetched.cpu.cycles + added_cost(fetched, fetched.cpu.opcode_latch),
    ensures
        ({
            let counted = fetched.count_cycle();
            let total = fetched.cpu.cycles + added_cost(fetched, fetched.cpu.opcode_latch);
            &&& counted.cpu.cycles == total - 1
            &&& run(fetched, j) == if total == 1 {
                counted.begin_instruction()
            } else {
                counted_down(counted, (j - 1) as nat)
            }
        }),
{
    let counted = fetched.count_cycle();
    lemma_cost_range(fetched.cpu.opcode_latch, fetched);
    lemma_first_cycle(fetched);
    assert(run(fetched, 0) == fetched);
    assert(run(fetched, 1) == fetched.clock());
    let left = counted.cpu.cycles as nat;
    if j >= 2 {
        lemma_run_from(fetched, 1, (j - 1) as nat);
        assert(run(fetched, 1) == counted);
        if j - 1 < left {
            lemma_cycles_count_down(counted, (j - 1) as nat);
        } else {
            lemma_cycles_count_down(counted, (j - 2) as nat);
            let last = run(counted, (j - 2) as nat);
            assert(run(counted, (j - 1) as nat) == last.clock());
            lemma_last_cycle(last);
        }
    }
}

/// Running `a` machine cycles and then `b` more is running `a + b`.
pub proof fn lemma_run_from(m: Machine, a: nat, b: nat)
    ensures
        run(m, a + b) == run(run(m, a), b),
    decreases b,
{
    if b > 0 {
        lemma_run_from(m, a, (b - 1) as nat);
        assert(a + b - 1 == a + (b - 1));
    }
}

} // verus!
