//! The processor: registers, flags, and the fetch and execute engine.

pub mod alu;
pub mod decoder;
pub mod disassembler;
pub mod execute;
pub mod laws;
pub mod spin_laws;

pub use alu::FlagRegister;
pub use decoder::{Alu, CbOpcode, Condition, OpMemAddress16, OpMemAddress8, Opcode, Register, RegisterPair};

use crate::bus::{Bus, BusView};
use vstd::prelude::*;

verus! {

/// The processor.
#[derive(Clone, Copy, Debug, PartialEq, Eq, Structural)]
pub struct Cpu {
    pub b: u8,
    pub c: u8,
    pub d: u8,
    pub e: u8,
    pub h: u8,
    pub l: u8,
    pub a: u8,
    pub f: FlagRegister,
    pub sp: u16,
    pub pc: u16,
    /// The machine cycles left until the next instruction begins.
    pub cycles: u8,
    /// The instruction that was fetched and waits to be executed. Once it is
    /// executed the latch is cleared.
    pub opcode_latch: Opcode,
    /// IME: interrupts are served.
    pub ime: bool,
    /// The processor sleeps until an interrupt is both requested and enabled.
    pub halted: bool,
    /// EI was executed and the instruction after it has not yet been.
    pub ei_pending: bool,
}

/// The processor together with everything it reaches, as one value.
pub struct Machine {
    pub cpu: Cpu,
    pub bus: BusView,
}

/// The 16-bit value whose high byte is `high` and whose low byte is `low`.
pub open spec fn word(high: u8, low: u8) -> u16 {
    (high * 256 + low) as u16
}

/// The high byte of a 16-bit value.
pub open spec fn high_byte(value: u16) -> u8 {
    (value / 256) as u8
}

/// The low byte of a 16-bit value.
pub open spec fn low_byte(value: u16) -> u8 {
    (value % 256) as u8
}

/// `value + n`, wrapping at 16 bits.
pub open spec fn wrap16(value: int) -> u16 {
    (value % 0x10000) as u16
}

impl Cpu {
    /// The processor after power-up: every register zero, nothing fetched.
    pub open spec fn initial() -> Cpu {
        Cpu {
            b: 0,
            c: 0,
            d: 0,
            e: 0,
            h: 0,
            l: 0,
            a: 0,
            f: FlagRegister::empty_spec(),
            sp: 0,
            pc: 0,
            cycles: 0,
            opcode_latch: Opcode::Unknown,
            ime: false,
            halted: false,
            ei_pending: false,
        }
    }

    /// The processor as the start-up program hands it to the cartridge: execution
    /// starts at 0x0100 with the stack below 0xFFFE.
    pub open spec fn after_boot() -> Cpu {
        Cpu { pc: 0x0100, sp: 0xFFFE, ..Cpu::initial() }
    }

    /// The value of an 8-bit register.
    pub open spec fn get_register_spec(self, reg: Register) -> u8 {
        match reg {
            Register::B => self.b,
            Register::C => self.c,
            Register::D => self.d,
            Register::E => self.e,
            Register::H => self.h,
            Register::L => self.l,
            Register::A => self.a,
        }
    }

    /// The processor with an 8-bit register set.
    pub open spec fn set_register_spec(self, reg: Register, val: u8) -> Cpu {
        match reg {
            Register::B => Cpu { b: val, ..self },
            Register::C => Cpu { c: val, ..self },
            Register::D => Cpu { d: val, ..self },
            Register::E => Cpu { e: val, ..self },
            Register::H => Cpu { h: val, ..self },
            Register::L => Cpu { l: val, ..self },
            Register::A => Cpu { a: val, ..self },
        }
    }

    /// The value of a register pair. The low byte of AF is F, whose lower nibble
    /// is zero.
    pub open spec fn get_register_pair_spec(self, reg: RegisterPair) -> u16 {
        match reg {
            RegisterPair::BC => word(self.b, self.c),
            RegisterPair::DE => word(self.d, self.e),
            RegisterPair::HL => word(self.h, self.l),
            RegisterPair::SP => self.sp,
            RegisterPair::AF => word(self.a, self.f.bits_spec()),
        }
    }

    /// The processor with a register pair set. Of a value put in AF the lower
    /// four bits are lost.
    pub open spec fn set_register_pair_spec(self, reg: RegisterPair, val: u16) -> Cpu {
        match reg {
            RegisterPair::BC => Cpu { b: high_byte(val), c: low_byte(val), ..self },
            RegisterPair::DE => Cpu { d: high_byte(val), e: low_byte(val), ..self },
            RegisterPair::HL => Cpu { h: high_byte(val), l: low_byte(val), ..self },
            RegisterPair::SP => Cpu { sp: val, ..self },
            RegisterPair::AF => Cpu {
                a: high_byte(val),
                f: FlagRegister::from_bits_spec(low_byte(val)),
                ..self
            },
        }
    }

    /// Whether a branch condition holds.
    pub open spec fn check_conditional_spec(self, condition: Condition) -> bool {
        match condition {
            Condition::NonZero => !self.f.z,
            Condition::Zero => self.f.z,
            Condition::NoCarry => !self.f.c,
            Condition::Carry => self.f.c,
        }
    }

    /// The processor after an accumulator operation on `val`. CP sets the flags
    /// of a subtraction and leaves the accumulator.
    pub open spec fn run_alu_spec(self, alu_op: Alu, val: u8) -> Cpu {
        let r = match alu_op {
            Alu::Add => alu::add8_spec(self.a, val, false),
            Alu::Adc => alu::add8_spec(self.a, val, self.f.c),
            Alu::Sub => alu::sub8_spec(self.a, val, false),
            Alu::Sbc => alu::sub8_spec(self.a, val, self.f.c),
            Alu::And => alu::and8_spec(self.a, val),
            Alu::Xor => alu::xor8_spec(self.a, val),
            Alu::Or => alu::or8_spec(self.a, val),
            Alu::Cp => alu::AluResult { value: self.a, flags: alu::sub8_spec(self.a, val, false).flags },
        };
        Cpu { a: r.value, f: r.flags, ..self }
    }
}

impl Machine {
    /// The byte at PC, and the machine with PC moved past it.
    pub open spec fn read_immediate(self) -> (Machine, u8) {
        (
            Machine { cpu: Cpu { pc: wrap16(self.cpu.pc + 1), ..self.cpu }, ..self },
            self.bus.read(self.cpu.pc),
        )
    }

    /// The two bytes at PC as one value, low byte first, and the machine with PC
    /// moved past them.
    pub open spec fn read_immediate16(self) -> (Machine, u16) {
        let (m1, low) = self.read_immediate();
        let (m2, high) = m1.read_immediate();
        (m2, word(high, low))
    }

    /// The value on top of the stack, low byte first, and the machine with SP moved
    /// past it.
    pub open spec fn read_stack(self) -> (Machine, u16) {
        let low = self.bus.read(self.cpu.sp);
        let high = self.bus.read(wrap16(self.cpu.sp + 1));
        (Machine { cpu: Cpu { sp: wrap16(self.cpu.sp + 2), ..self.cpu }, ..self }, word(high, low))
    }

    /// The machine with `val` pushed on the stack: the high byte goes to `SP - 1`,
    /// the low byte to `SP - 2`, and SP ends at the low byte.
    pub open spec fn write_stack(self, val: u16) -> Machine {
        let first = wrap16(self.cpu.sp - 1);
        let second = wrap16(self.cpu.sp - 2);
        Machine {
            cpu: Cpu { sp: second, ..self.cpu },
            bus: self.bus.write(first, high_byte(val)).write(second, low_byte(val)),
        }
    }

    /// The machine with the byte `val` written to `addr`.
    pub open spec fn write(self, addr: u16, val: u8) -> Machine {
        Machine { bus: self.bus.write(addr, val), ..self }
    }

    /// The machine with its processor replaced.
    pub open spec fn with_cpu(self, cpu: Cpu) -> Machine {
        Machine { cpu, ..self }
    }
}

impl Cpu {
    /// The processor after power-up.
    pub fn new() -> (r: Cpu)
        ensures
            r == Cpu::initial(),
    {
        Cpu {
            b: 0,
            c: 0,
            d: 0,
            e: 0,
            h: 0,
            l: 0,
            a: 0,
            f: FlagRegister::empty(),
            sp: 0,
            pc: 0,
            cycles: 0,
            opcode_latch: Opcode::Unknown,
            ime: false,
            halted: false,
            ei_pending: false,
        }
    }

    /// The machine made of this processor and `bus`.
    pub open spec fn with(self, bus: BusView) -> Machine {
        Machine { cpu: self, bus }
    }

    /// Reads the byte at PC and moves PC past it.
    pub fn read_immediate(&mut self, bus: &Bus) -> (r: u8)
        ensures
            (final(self).with(bus@), r) == old(self).with(bus@).read_immediate(),
    {
        let immediate: u8 = bus.read(self.pc);
        self.pc = self.pc.wrapping_add(1);
        immediate
    }

    /// Reads the two bytes at PC, low byte first, and moves PC past them.
    pub fn read_immediate16(&mut self, bus: &Bus) -> (r: u16)
        ensures
            (final(self).with(bus@), r) == old(self).with(bus@).read_immediate16(),
    {
        let lsb: u16 = self.read_immediate(bus) as u16;
        let msb: u16 = self.read_immediate(bus) as u16;
        msb * 256 + lsb
    }

    /// Pops a 16-bit value off the stack.
    pub fn read_stack(&mut self, bus: &Bus) -> (r: u16)
        ensures
            (final(self).with(bus@), r) == old(self).with(bus@).read_stack(),
    {
        let lsb: u16 = bus.read(self.sp) as u16;
        self.sp = self.sp.wrapping_add(1);
        let msb: u16 = bus.read(self.sp) as u16;
        self.sp = self.sp.wrapping_add(1);
        msb * 256 + lsb
    }

    /// Pushes a 16-bit value on the stack.
    pub fn write_stack(&mut self, bus: &mut Bus, val: u16)
        ensures
            final(self).with(final(bus)@) == old(self).with(old(bus)@).write_stack(val),
    {
        self.sp = self.sp.wrapping_sub(1);
        bus.write(self.sp, (val / 256) as u8);
        self.sp = self.sp.wrapping_sub(1);
        bus.write(self.sp, (val % 256) as u8);
    }

    /// Carries out an accumulator operation on `val`.
    pub fn run_alu(&mut self, alu_op: Alu, val: u8)
        ensures
            *final(self) == old(self).run_alu_spec(alu_op, val),
    {
        let r = match alu_op {
            Alu::Add => alu::add8(self.a, val, false),
            Alu::Adc => alu::add8(self.a, val, self.f.c),
            Alu::Sub => alu::sub8(self.a, val, false),
            Alu::Sbc => alu::sub8(self.a, val, self.f.c),
            Alu::And => alu::and8(self.a, val),
            Alu::Xor => alu::xor8(self.a, val),
            Alu::Or => alu::or8(self.a, val),
            Alu::Cp => alu::AluResult { value: self.a, flags: alu::sub8(self.a, val, false).flags },
        };
        self.a = r.value;
        self.f = r.flags;
    }

    /// Tests a branch condition against the flags.
    pub fn check_conditional(&self, condition: Condition) -> (r: bool)
        ensures
            r == self.check_conditional_spec(condition),
    {
        match condition {
            Condition::NonZero => !self.f.z,
            Condition::Zero => self.f.z,
            Condition::NoCarry => !self.f.c,
            Condition::Carry => self.f.c,
        }
    }

    /// Reads an 8-bit register.
    pub fn get_register(&self, reg: Register) -> (r: u8)
        ensures
            r == self.get_register_spec(reg),
    {
        match reg {
            Register::B => self.b,
            Register::C => self.c,
            Register::D => self.d,
            Register::E => self.e,
            Register::H => self.h,
            Register::L => self.l,
            Register::A => self.a,
        }
    }

    /// Writes an 8-bit register.
    pub fn set_register(&mut self, reg: Register, val: u8)
        ensures
            *final(self) == old(self).set_register_spec(reg, val),
    {
        match reg {
            Register::B => self.b = val,
            Register::C => self.c = val,
            Register::D => self.d = val,
            Register::E => self.e = val,
            Register::H => self.h = val,
            Register::L => self.l = val,
            Register::A => self.a = val,
        }
    }

    /// Reads a register pair.
    pub fn get_register_pair(&self, reg: RegisterPair) -> (r: u16)
        ensures
            r == self.get_register_pair_spec(reg),
    {
        match reg {
            RegisterPair::BC => (self.b as u16) * 256 + (self.c as u16),
            RegisterPair::DE => (self.d as u16) * 256 + (self.e as u16),
            RegisterPair::HL => (self.h as u16) * 256 + (self.l as u16),
            RegisterPair::SP => self.sp,
            RegisterPair::AF => (self.a as u16) * 256 + (self.f.bits() as u16),
        }
    }

    /// Writes a register pair.
    pub fn set_register_pair(&mut self, reg: RegisterPair, val: u16)
        ensures
            *final(self) == old(self).set_register_pair_spec(reg, val),
    {
        match reg {
            RegisterPair::BC => {
                self.b = (val / 256) as u8;
                self.c = (val % 256) as u8;
            },
            RegisterPair::DE => {
                self.d = (val / 256) as u8;
                self.e = (val % 256) as u8;
            },
            RegisterPair::HL => {
                self.h = (val / 256) as u8;
                self.l = (val % 256) as u8;
            },
            RegisterPair::SP => {
                self.sp = val;
            },
            RegisterPair::AF => {
                self.a = (val / 256) as u8;
                self.f = FlagRegister::from_bits_truncate((val % 256) as u8);
            },
        }
    }
}

impl Default for Cpu {
    fn default() -> (r: Self)
        ensures
            r == Cpu::initial(),
    {
        Cpu::new()
    }
}

} // verus!

verus! {

use crate::interrupt::Interrupt;
use decoder::decode;

/// The machine cycles that serving an interrupt takes.
pub const INTERRUPT_CYCLES: u8 = 5;

impl Machine {
    /// The machine after a fetch: the byte at PC is decoded into the latch, PC
    /// moves past it, and the cycle counter is set to the nominal cost of the
    /// instruction.
    pub open spec fn fetch(self) -> Machine {
        let (m, byte) = self.read_immediate();
        let op = decode(byte);
        m.with_cpu(Cpu { opcode_latch: op, cycles: op.cycles_spec() as u8, ..m.cpu })
    }

    /// The machine after the processor turned to serve `source`: the request is
    /// taken out of IF, IME is cleared, PC is pushed and execution continues at
    /// the interrupt's vector after five machine cycles.
    pub open spec fn service(self, source: Interrupt) -> Machine {
        let acknowledged = Machine {
            bus: BusView { interrupts: self.bus.interrupts.acknowledge_spec(source), ..self.bus },
            ..self
        };
        let pushed = acknowledged.write_stack(self.cpu.pc);
        pushed.with_cpu(
            Cpu {
                pc: source.vector_spec(),
                ime: false,
                halted: false,
                cycles: INTERRUPT_CYCLES,
                opcode_latch: Opcode::Nop,
                ..pushed.cpu
            },
        )
    }

    /// What the processor does between two instructions: with IME set and an
    /// interrupt both requested and enabled it serves the first such interrupt;
    /// else it fetches.
    #[verifier::opaque]
    pub open spec fn begin_instruction(self) -> Machine {
        match self.bus.interrupts.pending_spec() {
            Some(source) if self.cpu.ime => self.service(source),
            _ => self.fetch(),
        }
    }

    /// The machine with a halted processor woken where an interrupt is both
    /// requested and enabled, whether or not IME is set.
    pub open spec fn wake(self) -> Machine {
        if self.cpu.halted && self.bus.interrupts.pending_spec() is Some {
            self.with_cpu(Cpu { halted: false, ..self.cpu })
        } else {
            self
        }
    }

    /// The machine after one machine cycle of an instruction. The instruction in
    /// the latch is executed, which may add to the cycle counter, the latch is
    /// cleared so that the cycles that follow do nothing, and one cycle is counted off.
    pub open spec fn count_cycle(self) -> Machine {
        if self.cpu.cycles == 0 {
            self
        } else {
            let m = self.execute();
            m.with_cpu(
                Cpu {
                    cycles: if m.cpu.cycles == 0 {
                        255u8
                    } else {
                        (m.cpu.cycles - 1) as u8
                    },
                    opcode_latch: Opcode::Unknown,
                    ..m.cpu
                },
            )
        }
    }

    /// One machine cycle of the processor. A halted processor does nothing until it
    /// is woken. Else a cycle is counted off, the instruction in the latch being
    /// executed on the first of its cycles, and when none is left the next
    /// instruction begins in the same machine cycle.
    pub open spec fn clock(self) -> Machine {
        let woken = self.wake();
        if woken.cpu.halted {
            woken
        } else {
            let counted = woken.count_cycle();
            if counted.cpu.cycles == 0 && !counted.cpu.halted {
                counted.begin_instruction()
            } else {
                counted
            }
        }
    }
}

impl Cpu {
    /// Fetches the instruction at PC into the latch.
    pub fn fetch(&mut self, bus: &Bus)
        ensures
            final(self).with(bus@) == old(self).with(bus@).fetch(),
    {
        let byte: u8 = self.read_immediate(bus);
        let op: Opcode = Opcode::from(byte);
        self.cycles = op.cycles();
        self.opcode_latch = op;
    }

    fn acknowledge(bus: &mut Bus, source: Interrupt)
        ensures
            final(bus)@ == (BusView {
                interrupts: old(bus)@.interrupts.acknowledge_spec(source),
                ..old(bus)@
            }),
    {
        bus.interrupts.acknowledge(source);
    }

    /// Turns to serve an interrupt.
    pub fn service(&mut self, bus: &mut Bus, source: Interrupt)
        ensures
            final(self).with(final(bus)@) == old(self).with(old(bus)@).service(source),
    {
        Cpu::acknowledge(bus, source);
        let back: u16 = self.pc;
        self.write_stack(bus, back);
        self.pc = source.vector();
        self.ime = false;
        self.halted = false;
        self.cycles = INTERRUPT_CYCLES;
        self.opcode_latch = Opcode::Nop;
    }

    fn begin_instruction(&mut self, bus: &mut Bus)
        ensures
            final(self).with(final(bus)@) == old(self).with(old(bus)@).begin_instruction(),
    {
        reveal(Machine::begin_instruction);
        match bus.interrupts.pending() {
            Some(source) => {
                if self.ime {
                    self.service(bus, source);
                } else {
                    self.fetch(bus);
                }
            },
            None => self.fetch(bus),
        }
    }

    fn count_cycle(&mut self, bus: &mut Bus)
        ensures
            final(self).with(final(bus)@) == old(self).with(old(bus)@).count_cycle(),
    {
        if self.cycles != 0 {
            self.execute(bus);
            self.opcode_latch = Opcode::Unknown;
            self.cycles = self.cycles.wrapping_sub(1);
        }
    }

    /// Advances the processor by one machine cycle.
    pub fn clock(&mut self, bus: &mut Bus)
        ensures
            final(self).with(final(bus)@) == old(self).with(old(bus)@).clock(),
    {
        if self.halted {
            if bus.interrupts.pending().is_some() {
                self.halted = false;
            } else {
                return ;
            }
        }
        self.count_cycle(bus);
        if self.cycles == 0 && !self.halted {
            self.begin_instruction(bus);
        }
    }
}

} // verus!
