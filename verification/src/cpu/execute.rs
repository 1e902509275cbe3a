//! What each instruction does, stated as a function from the machine before the
//! instruction to the machine after it.

use vstd::prelude::*;
use crate::bus::Bus;
use crate::cpu::alu::{
    add16_spec,
    add_sp_spec,
    daa_spec,
    dec8_spec,
    inc8_spec,
    relative_target,
    reset_bit_spec,
    rotate_accumulator_spec,
    rotate_spec,
    set_bit_spec,
    test_bit_spec,
    FlagRegister,
};
use crate::cpu::decoder::{
    decode_cb,
    CbOpcode,
    OpMemAddress16,
    OpMemAddress8,
    Opcode,
    Operand8,
    Register,
    RegisterPair,
    Rotation,
};
use crate::cpu::{high_byte, low_byte, wrap16, Cpu, Machine};

verus! {

impl Machine {
    /// The address a load through a 16-bit address uses, and the machine after
    /// finding it: taken from a register pair, which may count up or down after
    /// the use, or from the two bytes at PC.
    pub open spec fn resolve16(self, mem: OpMemAddress16) -> (Machine, u16) {
        match mem {
            OpMemAddress16::Register(pair) => (self, self.cpu.get_register_pair_spec(pair)),
            OpMemAddress16::RegisterIncrease(pair) => {
                let addr = self.cpu.get_register_pair_spec(pair);
                (self.with_cpu(self.cpu.set_register_pair_spec(pair, wrap16(addr + 1))), addr)
            },
            OpMemAddress16::RegisterDecrease(pair) => {
                let addr = self.cpu.get_register_pair_spec(pair);
                (self.with_cpu(self.cpu.set_register_pair_spec(pair, wrap16(addr - 1))), addr)
            },
            OpMemAddress16::Immediate => self.read_immediate16(),
        }
    }

    /// The address a high-page load uses, 0xFF00 plus a register or plus the byte
    /// at PC, and the machine after finding it.
    pub open spec fn resolve8(self, mem: OpMemAddress8) -> (Machine, u16) {
        match mem {
            OpMemAddress8::Register(reg) => (self, (0xFF00 + self.cpu.get_register_spec(reg)) as u16),
            OpMemAddress8::Immediate => {
                let (m, low) = self.read_immediate();
                (m, (0xFF00 + low) as u16)
            },
        }
    }

    /// The machine after a load, or as it was if `op` is none.
    #[verifier::opaque]
    pub open spec fn execute_load(self, op: Opcode) -> Machine {
        match op {
            Opcode::LdRR(target, source) => self.with_cpu(
                self.cpu.set_register_spec(target, self.cpu.get_register_spec(source)),
            ),
            Opcode::LdRImm(target) => {
                let (m, val) = self.read_immediate();
                m.with_cpu(m.cpu.set_register_spec(target, val))
            },
            Opcode::LdRMem(target, source) => {
                let (m, addr) = self.resolve16(source);
                m.with_cpu(m.cpu.set_register_spec(target, m.bus.read(addr)))
            },
            Opcode::LdMemR(target, source) => {
                let (m, addr) = self.resolve16(target);
                m.write(addr, m.cpu.get_register_spec(source))
            },
            Opcode::LdMemImm(target) => {
                let (m, val) = self.read_immediate();
                m.write(m.cpu.get_register_pair_spec(target), val)
            },
            Opcode::LdhRead(target, source) => {
                let (m, addr) = self.resolve8(source);
                m.with_cpu(m.cpu.set_register_spec(target, m.bus.read(addr)))
            },
            Opcode::LdhWrite(target, source) => {
                let (m, addr) = self.resolve8(target);
                m.write(addr, m.cpu.get_register_spec(source))
            },
            Opcode::Ld16RImm(target) => {
                let (m, val) = self.read_immediate16();
                m.with_cpu(m.cpu.set_register_pair_spec(target, val))
            },
            Opcode::Ld16MemSp => {
                let (m, addr) = self.read_immediate16();
                m.write(addr, low_byte(m.cpu.sp)).write(wrap16(addr + 1), high_byte(m.cpu.sp))
            },
            Opcode::Ld16SpHL => self.with_cpu(
                Cpu { sp: self.cpu.get_register_pair_spec(RegisterPair::HL), ..self.cpu },
            ),
            Opcode::Ld16HLSPSigned => {
                let (m, e) = self.read_immediate();
                let (val, flags) = add_sp_spec(m.cpu.sp, e);
                m.with_cpu(Cpu { f: flags, ..m.cpu.set_register_pair_spec(RegisterPair::HL, val) })
            },
            Opcode::Push(source) => self.write_stack(self.cpu.get_register_pair_spec(source)),
            Opcode::Pop(target) => {
                let (m, val) = self.read_stack();
                m.with_cpu(m.cpu.set_register_pair_spec(target, val))
            },
            _ => self,
        }
    }

    /// The machine after an arithmetic instruction, or as it was if `op` is none.
    #[verifier::opaque]
    pub open spec fn execute_arithmetic(self, op: Opcode) -> Machine {
        let cpu = self.cpu;
        let hl = cpu.get_register_pair_spec(RegisterPair::HL);
        match op {
            Opcode::AluR(alu_op, source) => self.with_cpu(
                cpu.run_alu_spec(alu_op, cpu.get_register_spec(source)),
            ),
            Opcode::AluImm(alu_op) => {
                let (m, val) = self.read_immediate();
                m.with_cpu(m.cpu.run_alu_spec(alu_op, val))
            },
            Opcode::AluMem(alu_op) => self.with_cpu(cpu.run_alu_spec(alu_op, self.bus.read(hl))),
            Opcode::IncR(reg) => {
                let r = inc8_spec(cpu.get_register_spec(reg), cpu.f);
                self.with_cpu(Cpu { f: r.flags, ..cpu.set_register_spec(reg, r.value) })
            },
            Opcode::DecR(reg) => {
                let r = dec8_spec(cpu.get_register_spec(reg), cpu.f);
                self.with_cpu(Cpu { f: r.flags, ..cpu.set_register_spec(reg, r.value) })
            },
            Opcode::IncMem => {
                let r = inc8_spec(self.bus.read(hl), cpu.f);
                self.with_cpu(Cpu { f: r.flags, ..cpu }).write(hl, r.value)
            },
            Opcode::DecMem => {
                let r = dec8_spec(self.bus.read(hl), cpu.f);
                self.with_cpu(Cpu { f: r.flags, ..cpu }).write(hl, r.value)
            },
            Opcode::Daa => {
                let r = daa_spec(cpu.a, cpu.f);
                self.with_cpu(Cpu { a: r.value, f: r.flags, ..cpu })
            },
            Opcode::Cpl => self.with_cpu(
                Cpu { a: (255 - cpu.a) as u8, f: FlagRegister { n: true, h: true, ..cpu.f }, ..cpu },
            ),
            Opcode::Ccf => self.with_cpu(
                Cpu { f: FlagRegister { n: false, h: false, c: !cpu.f.c, ..cpu.f }, ..cpu },
            ),
            Opcode::Scf => self.with_cpu(
                Cpu { f: FlagRegister { n: false, h: false, c: true, ..cpu.f }, ..cpu },
            ),
            Opcode::Add16HL(source) => {
                let (val, flags) = add16_spec(hl, cpu.get_register_pair_spec(source), cpu.f);
                self.with_cpu(Cpu { f: flags, ..cpu.set_register_pair_spec(RegisterPair::HL, val) })
            },
            Opcode::Add16SPSigned => {
                let (m, e) = self.read_immediate();
                let (val, flags) = add_sp_spec(m.cpu.sp, e);
                m.with_cpu(Cpu { sp: val, f: flags, ..m.cpu })
            },
            Opcode::Inc16R(reg) => self.with_cpu(
                cpu.set_register_pair_spec(reg, wrap16(cpu.get_register_pair_spec(reg) + 1)),
            ),
            Opcode::Dec16R(reg) => self.with_cpu(
                cpu.set_register_pair_spec(reg, wrap16(cpu.get_register_pair_spec(reg) - 1)),
            ),
            Opcode::RlcA => self.rotate_accumulator(Rotation::Rlc),
            Opcode::RlA => self.rotate_accumulator(Rotation::Rl),
            Opcode::RrcA => self.rotate_accumulator(Rotation::Rrc),
            Opcode::RrA => self.rotate_accumulator(Rotation::Rr),
            _ => self,
        }
    }

    /// The machine after a rotation of the accumulator.
    pub open spec fn rotate_accumulator(self, kind: Rotation) -> Machine {
        let r = rotate_accumulator_spec(kind, self.cpu.a, self.cpu.f.c);
        self.with_cpu(Cpu { a: r.value, f: r.flags, ..self.cpu })
    }

    /// The machine with `extra` machine cycles added to the cycle counter: what an
    /// instruction costs beyond its nominal cost is added as it is executed.
    pub open spec fn spend(self, extra: int) -> Machine {
        self.with_cpu(Cpu { cycles: ((self.cpu.cycles + extra) % 256) as u8, ..self.cpu })
    }

    /// The machine with PC set to `addr`.
    pub open spec fn jump(self, addr: u16) -> Machine {
        self.with_cpu(Cpu { pc: addr, ..self.cpu })
    }

    /// The machine after a jump, a call, a return or an instruction that changes
    /// how the processor runs, or as it was if `op` is none. A conditional
    /// instruction reads its operands whether or not its condition holds; where it
    /// holds, the cost of the branch taken is added to the cycle counter.
    #[verifier::opaque]
    pub open spec fn execute_control(self, op: Opcode) -> Machine {
        match op {
            Opcode::JpImm => {
                let (m, addr) = self.read_immediate16();
                m.jump(addr)
            },
            Opcode::JpHL => self.jump(self.cpu.get_register_pair_spec(RegisterPair::HL)),
            Opcode::JpCond(condition) => {
                let (m, addr) = self.read_immediate16();
                if m.cpu.check_conditional_spec(condition) {
                    m.jump(addr).spend(op.taken_cycles_spec())
                } else {
                    m
                }
            },
            Opcode::JpRel => {
                let (m, e) = self.read_immediate();
                m.jump(relative_target(m.cpu.pc, e))
            },
            Opcode::JpRelCond(condition) => {
                let (m, e) = self.read_immediate();
                if m.cpu.check_conditional_spec(condition) {
                    m.jump(relative_target(m.cpu.pc, e)).spend(op.taken_cycles_spec())
                } else {
                    m
                }
            },
            Opcode::Call => {
                let (m, addr) = self.read_immediate16();
                m.write_stack(m.cpu.pc).jump(addr)
            },
            Opcode::CallCond(condition) => {
                let (m, addr) = self.read_immediate16();
                if m.cpu.check_conditional_spec(condition) {
                    m.write_stack(m.cpu.pc).jump(addr).spend(op.taken_cycles_spec())
                } else {
                    m
                }
            },
            Opcode::Ret => {
                let (m, addr) = self.read_stack();
                m.jump(addr)
            },
            Opcode::RetCond(condition) => {
                if self.cpu.check_conditional_spec(condition) {
                    let (m, addr) = self.read_stack();
                    m.jump(addr).spend(op.taken_cycles_spec())
                } else {
                    self
                }
            },
            Opcode::Reti => {
                let (m, addr) = self.read_stack();
                m.with_cpu(Cpu { pc: addr, ime: true, ..m.cpu })
            },
            Opcode::Rst(vector) => self.write_stack(self.cpu.pc).jump(vector as u16),
            Opcode::Halt => self.with_cpu(Cpu { halted: true, ..self.cpu }),
            Opcode::Stop => if self.bus.cgb && self.bus.speed.pending {
                Machine {
                    bus: crate::bus::BusView { speed: self.bus.speed.commit_spec(), ..self.bus },
                    ..self
                }
            } else {
                self.with_cpu(Cpu { halted: true, ..self.cpu })
            },
            Opcode::Di => self.with_cpu(Cpu { ime: false, ei_pending: false, ..self.cpu }),
            Opcode::Ei => self.with_cpu(Cpu { ei_pending: true, ..self.cpu }),
            _ => self,
        }
    }

    /// The byte an instruction of the second decode space works on.
    pub open spec fn operand(self, target: Operand8) -> u8 {
        match target {
            Operand8::Register(reg) => self.cpu.get_register_spec(reg),
            Operand8::Memory => self.bus.read(self.cpu.get_register_pair_spec(RegisterPair::HL)),
        }
    }

    /// The machine with the byte an instruction of the second decode space works
    /// on set to `val`.
    pub open spec fn with_operand(self, target: Operand8, val: u8) -> Machine {
        match target {
            Operand8::Register(reg) => self.with_cpu(self.cpu.set_register_spec(reg, val)),
            Operand8::Memory => self.write(self.cpu.get_register_pair_spec(RegisterPair::HL), val),
        }
    }

    /// The machine after an instruction of the second decode space.
    #[verifier::opaque]
    pub open spec fn execute_cb(self, op: CbOpcode) -> Machine {
        match op {
            CbOpcode::Rotate(kind, target) => {
                let r = rotate_spec(kind, self.operand(target), self.cpu.f.c);
                self.with_cpu(Cpu { f: r.flags, ..self.cpu }).with_operand(target, r.value)
            },
            CbOpcode::TestBit(n, target) => self.with_cpu(
                Cpu { f: test_bit_spec(n, self.operand(target), self.cpu.f), ..self.cpu },
            ),
            CbOpcode::ResetBit(n, target) => self.with_operand(
                target,
                reset_bit_spec(n, self.operand(target)),
            ),
            CbOpcode::SetBit(n, target) => self.with_operand(
                target,
                set_bit_spec(n, self.operand(target)),
            ),
        }
    }

    /// The machine after the prefix byte: the byte at PC is decoded in the second
    /// decode space and executed, and the cost of the data it reads and writes at
    /// `HL` is added to the cycle counter.
    pub open spec fn execute_prefixed(self) -> Machine {
        let (m, byte) = self.read_immediate();
        m.execute_cb(decode_cb(byte)).spend(decode_cb(byte).extra_cycles_spec())
    }

    /// Which of the four groups an instruction belongs to.
    pub open spec fn is_load(op: Opcode) -> bool {
        op is LdRR || op is LdRImm || op is LdRMem || op is LdMemR || op is LdMemImm || op is LdhRead
            || op is LdhWrite || op is Ld16RImm || op is Ld16MemSp || op is Ld16SpHL
            || op is Ld16HLSPSigned || op is Push || op is Pop
    }

    /// Whether `op` is an arithmetic instruction.
    pub open spec fn is_arithmetic(op: Opcode) -> bool {
        op is AluR || op is AluImm || op is AluMem || op is IncR || op is DecR || op is IncMem
            || op is DecMem || op is Daa || op is Cpl || op is Ccf || op is Scf || op is Add16HL
            || op is Add16SPSigned || op is Inc16R || op is Dec16R || op is RlcA || op is RlA
            || op is RrcA || op is RrA
    }

    /// The machine after instruction `op`, the delayed effect of EI left aside.
    /// Unknown instructions do nothing, as NOP does.
    pub open spec fn execute_opcode(self, op: Opcode) -> Machine {
        if Machine::is_load(op) {
            self.execute_load(op)
        } else if Machine::is_arithmetic(op) {
            self.execute_arithmetic(op)
        } else if op is CBPrefix {
            self.execute_prefixed()
        } else {
            self.execute_control(op)
        }
    }

    /// The machine after the instruction in the latch. EI takes effect here, one
    /// instruction late: where EI was pending before the instruction and still is
    /// after it, interrupts are now enabled.
    pub open spec fn execute(self) -> Machine {
        let m = self.execute_opcode(self.cpu.opcode_latch);
        if self.cpu.ei_pending && m.cpu.ei_pending {
            m.with_cpu(Cpu { ime: true, ei_pending: false, ..m.cpu })
        } else {
            m
        }
    }
}

} // verus!

verus! {

use crate::bus::BusView;
use crate::cpu::alu;
use crate::cpu::decoder::{Alu, Condition};

fn low(value: u16) -> (r: u8)
    ensures
        r == low_byte(value),
{
    (value % 256) as u8
}

fn high(value: u16) -> (r: u8)
    ensures
        r == high_byte(value),
{
    (value / 256) as u8
}

fn following(addr: u16) -> (r: u16)
    ensures
        r == wrap16(addr + 1),
{
    addr.wrapping_add(1)
}

impl Cpu {
    fn resolve_increase(&mut self, pair: RegisterPair) -> (addr: u16)
        ensures
            addr == old(self).get_register_pair_spec(pair),
            *final(self) == old(self).set_register_pair_spec(pair, wrap16(addr + 1)),
    {
        let reg: u16 = self.get_register_pair(pair);
        self.set_register_pair(pair, reg.wrapping_add(1));
        reg
    }

    fn resolve_decrease(&mut self, pair: RegisterPair) -> (addr: u16)
        ensures
            addr == old(self).get_register_pair_spec(pair),
            *final(self) == old(self).set_register_pair_spec(pair, wrap16(addr - 1)),
    {
        let reg: u16 = self.get_register_pair(pair);
        self.set_register_pair(pair, reg.wrapping_sub(1));
        reg
    }

    fn resolve16(&mut self, bus: &Bus, mem: OpMemAddress16) -> (addr: u16)
        ensures
            (final(self).with(bus@), addr) == old(self).with(bus@).resolve16(mem),
    {
        match mem {
            OpMemAddress16::Register(pair) => self.get_register_pair(pair),
            OpMemAddress16::RegisterIncrease(pair) => self.resolve_increase(pair),
            OpMemAddress16::RegisterDecrease(pair) => self.resolve_decrease(pair),
            OpMemAddress16::Immediate => self.read_immediate16(bus),
        }
    }

    fn resolve8(&mut self, bus: &Bus, mem: OpMemAddress8) -> (addr: u16)
        ensures
            (final(self).with(bus@), addr) == old(self).with(bus@).resolve8(mem),
    {
        match mem {
            OpMemAddress8::Register(reg) => 0xFF00 + self.get_register(reg) as u16,
            OpMemAddress8::Immediate => 0xFF00 + self.read_immediate(bus) as u16,
        }
    }

    fn ld_rr(&mut self, bus: &Bus, target: Register, source: Register)
        ensures
            final(self).with(bus@) == old(self).with(bus@).execute_load(Opcode::LdRR(target, source)),
    {
        reveal(Machine::execute_load);
        let val: u8 = self.get_register(source);
        self.set_register(target, val);
    }

    fn ld_r_imm(&mut self, bus: &Bus, target: Register)
        ensures
            final(self).with(bus@) == old(self).with(bus@).execute_load(Opcode::LdRImm(target)),
    {
        reveal(Machine::execute_load);
        let immediate: u8 = self.read_immediate(bus);
        self.set_register(target, immediate);
    }

    fn ld_r_mem(&mut self, bus: &Bus, target: Register, source: OpMemAddress16)
        ensures
            final(self).with(bus@) == old(self).with(bus@).execute_load(Opcode::LdRMem(target, source)),
    {
        reveal(Machine::execute_load);
        let addr: u16 = self.resolve16(bus, source);
        let val: u8 = bus.read(addr);
        self.set_register(target, val);
    }

    fn ld_mem_r(&mut self, bus: &mut Bus, target: OpMemAddress16, source: Register)
        ensures
            final(self).with(final(bus)@) == old(self).with(old(bus)@).execute_load(Opcode::LdMemR(target, source)),
    {
        reveal(Machine::execute_load);
        let addr: u16 = self.resolve16(bus, target);
        bus.write(addr, self.get_register(source));
    }

    fn ld_mem_imm(&mut self, bus: &mut Bus, target: RegisterPair)
        ensures
            final(self).with(final(bus)@) == old(self).with(old(bus)@).execute_load(Opcode::LdMemImm(target)),
    {
        reveal(Machine::execute_load);
        let immediate: u8 = self.read_immediate(bus);
        bus.write(self.get_register_pair(target), immediate);
    }

    fn ldh_read(&mut self, bus: &Bus, target: Register, source: OpMemAddress8)
        ensures
            final(self).with(bus@) == old(self).with(bus@).execute_load(Opcode::LdhRead(target, source)),
    {
        reveal(Machine::execute_load);
        let addr: u16 = self.resolve8(bus, source);
        let val: u8 = bus.read(addr);
        self.set_register(target, val);
    }

    fn ldh_write(&mut self, bus: &mut Bus, target: OpMemAddress8, source: Register)
        ensures
            final(self).with(final(bus)@) == old(self).with(old(bus)@).execute_load(Opcode::LdhWrite(target, source)),
    {
        reveal(Machine::execute_load);
        let addr: u16 = self.resolve8(bus, target);
        bus.write(addr, self.get_register(source));
    }

    fn ld16_r_imm(&mut self, bus: &Bus, target: RegisterPair)
        ensures
            final(self).with(bus@) == old(self).with(bus@).execute_load(Opcode::Ld16RImm(target)),
    {
        reveal(Machine::execute_load);
        let val: u16 = self.read_immediate16(bus);
        self.set_register_pair(target, val);
    }

    fn ld16_mem_sp(&mut self, bus: &mut Bus)
        ensures
            final(self).with(final(bus)@) == old(self).with(old(bus)@).execute_load(Opcode::Ld16MemSp),
    {
        reveal(Machine::execute_load);
        let addr: u16 = self.read_immediate16(bus);
        bus.write(addr, low(self.sp));
        bus.write(following(addr), high(self.sp));
    }

    fn ld16_sp_hl(&mut self, bus: &Bus)
        ensures
            final(self).with(bus@) == old(self).with(bus@).execute_load(Opcode::Ld16SpHL),
    {
        reveal(Machine::execute_load);
        self.sp = self.get_register_pair(RegisterPair::HL);
    }

    fn ld16_hl_sp(&mut self, bus: &Bus)
        ensures
            final(self).with(bus@) == old(self).with(bus@).execute_load(Opcode::Ld16HLSPSigned),
    {
        reveal(Machine::execute_load);
        let e: u8 = self.read_immediate(bus);
        let (val, flags) = alu::add_sp(self.sp, e);
        self.set_register_pair(RegisterPair::HL, val);
        self.f = flags;
    }

    fn push(&mut self, bus: &mut Bus, source: RegisterPair)
        ensures
            final(self).with(final(bus)@) == old(self).with(old(bus)@).execute_load(Opcode::Push(source)),
    {
        reveal(Machine::execute_load);
        let val: u16 = self.get_register_pair(source);
        self.write_stack(bus, val);
    }

    fn pop(&mut self, bus: &Bus, target: RegisterPair)
        ensures
            final(self).with(bus@) == old(self).with(bus@).execute_load(Opcode::Pop(target)),
    {
        reveal(Machine::execute_load);
        let val: u16 = self.read_stack(bus);
        self.set_register_pair(target, val);
    }

    fn alu_r(&mut self, bus: &Bus, alu_op: Alu, source: Register)
        ensures
            final(self).with(bus@) == old(self).with(bus@).execute_arithmetic(Opcode::AluR(alu_op, source)),
    {
        reveal(Machine::execute_arithmetic);
        let val: u8 = self.get_register(source);
        self.run_alu(alu_op, val);
    }

    fn alu_imm(&mut self, bus: &Bus, alu_op: Alu)
        ensures
            final(self).with(bus@) == old(self).with(bus@).execute_arithmetic(Opcode::AluImm(alu_op)),
    {
        reveal(Machine::execute_arithmetic);
        let val: u8 = self.read_immediate(bus);
        self.run_alu(alu_op, val);
    }

    fn alu_mem(&mut self, bus: &Bus, alu_op: Alu)
        ensures
            final(self).with(bus@) == old(self).with(bus@).execute_arithmetic(Opcode::AluMem(alu_op)),
    {
        reveal(Machine::execute_arithmetic);
        let val: u8 = bus.read(self.get_register_pair(RegisterPair::HL));
        self.run_alu(alu_op, val);
    }

    fn inc_r(&mut self, bus: &Bus, reg: Register)
        ensures
            final(self).with(bus@) == old(self).with(bus@).execute_arithmetic(Opcode::IncR(reg)),
    {
        reveal(Machine::execute_arithmetic);
        let r = alu::inc8(self.get_register(reg), self.f);
        self.set_register(reg, r.value);
        self.f = r.flags;
    }

    fn dec_r(&mut self, bus: &Bus, reg: Register)
        ensures
            final(self).with(bus@) == old(self).with(bus@).execute_arithmetic(Opcode::DecR(reg)),
    {
        reveal(Machine::execute_arithmetic);
        let r = alu::dec8(self.get_register(reg), self.f);
        self.set_register(reg, r.value);
        self.f = r.flags;
    }

    fn inc_mem(&mut self, bus: &mut Bus)
        ensures
            final(self).with(final(bus)@) == old(self).with(old(bus)@).execute_arithmetic(Opcode::IncMem),
    {
        reveal(Machine::execute_arithmetic);
        let addr: u16 = self.get_register_pair(RegisterPair::HL);
        let r = alu::inc8(bus.read(addr), self.f);
        self.f = r.flags;
        bus.write(addr, r.value);
    }

    fn dec_mem(&mut self, bus: &mut Bus)
        ensures
            final(self).with(final(bus)@) == old(self).with(old(bus)@).execute_arithmetic(Opcode::DecMem),
    {
        reveal(Machine::execute_arithmetic);
        let addr: u16 = self.get_register_pair(RegisterPair::HL);
        let r = alu::dec8(bus.read(addr), self.f);
        self.f = r.flags;
        bus.write(addr, r.value);
    }

    fn daa(&mut self, bus: &Bus)
        ensures
            final(self).with(bus@) == old(self).with(bus@).execute_arithmetic(Opcode::Daa),
    {
        reveal(Machine::execute_arithmetic);
        let r = alu::daa(self.a, self.f);
        self.a = r.value;
        self.f = r.flags;
    }

    fn cpl(&mut self, bus: &Bus)
        ensures
            final(self).with(bus@) == old(self).with(bus@).execute_arithmetic(Opcode::Cpl),
    {
        reveal(Machine::execute_arithmetic);
        self.a = 255 - self.a;
        self.f = FlagRegister { z: self.f.z, n: true, h: true, c: self.f.c };
    }

    fn ccf(&mut self, bus: &Bus)
        ensures
            final(self).with(bus@) == old(self).with(bus@).execute_arithmetic(Opcode::Ccf),
    {
        reveal(Machine::execute_arithmetic);
        self.f = FlagRegister { z: self.f.z, n: false, h: false, c: !self.f.c };
    }

    fn scf(&mut self, bus: &Bus)
        ensures
            final(self).with(bus@) == old(self).with(bus@).execute_arithmetic(Opcode::Scf),
    {
        reveal(Machine::execute_arithmetic);
        self.f = FlagRegister { z: self.f.z, n: false, h: false, c: true };
    }

    fn add16_hl(&mut self, bus: &Bus, source: RegisterPair)
        ensures
            final(self).with(bus@) == old(self).with(bus@).execute_arithmetic(Opcode::Add16HL(source)),
    {
        reveal(Machine::execute_arithmetic);
        let hl: u16 = self.get_register_pair(RegisterPair::HL);
        let (val, flags) = alu::add16(hl, self.get_register_pair(source), self.f);
        self.set_register_pair(RegisterPair::HL, val);
        self.f = flags;
    }

    fn add16_sp(&mut self, bus: &Bus)
        ensures
            final(self).with(bus@) == old(self).with(bus@).execute_arithmetic(Opcode::Add16SPSigned),
    {
        reveal(Machine::execute_arithmetic);
        let e: u8 = self.read_immediate(bus);
        let (val, flags) = alu::add_sp(self.sp, e);
        self.sp = val;
        self.f = flags;
    }

    fn inc16(&mut self, bus: &Bus, reg: RegisterPair)
        ensures
            final(self).with(bus@) == old(self).with(bus@).execute_arithmetic(Opcode::Inc16R(reg)),
    {
        reveal(Machine::execute_arithmetic);
        self.resolve_increase(reg);
    }

    fn dec16(&mut self, bus: &Bus, reg: RegisterPair)
        ensures
            final(self).with(bus@) == old(self).with(bus@).execute_arithmetic(Opcode::Dec16R(reg)),
    {
        reveal(Machine::execute_arithmetic);
        self.resolve_decrease(reg);
    }

    fn jp_imm(&mut self, bus: &Bus)
        ensures
            final(self).with(bus@) == old(self).with(bus@).execute_control(Opcode::JpImm),
    {
        reveal(Machine::execute_control);
        let addr: u16 = self.read_immediate16(bus);
        self.pc = addr;
    }

    fn jp_hl(&mut self, bus: &Bus)
        ensures
            final(self).with(bus@) == old(self).with(bus@).execute_control(Opcode::JpHL),
    {
        reveal(Machine::execute_control);
        self.pc = self.get_register_pair(RegisterPair::HL);
    }

    fn jp_cond(&mut self, bus: &Bus, condition: Condition)
        ensures
            final(self).with(bus@) == old(self).with(bus@).execute_control(Opcode::JpCond(condition)),
    {
        reveal(Machine::execute_control);
        let addr: u16 = self.read_immediate16(bus);
        if self.check_conditional(condition) {
            self.pc = addr;
            self.spend(1);
        }
    }

    fn jp_rel(&mut self, bus: &Bus)
        ensures
            final(self).with(bus@) == old(self).with(bus@).execute_control(Opcode::JpRel),
    {
        reveal(Machine::execute_control);
        let e: u8 = self.read_immediate(bus);
        self.pc = alu::offset16(self.pc, e);
    }

    fn jp_rel_cond(&mut self, bus: &Bus, condition: Condition)
        ensures
            final(self).with(bus@) == old(self).with(bus@).execute_control(Opcode::JpRelCond(condition)),
    {
        reveal(Machine::execute_control);
        let e: u8 = self.read_immediate(bus);
        if self.check_conditional(condition) {
            self.pc = alu::offset16(self.pc, e);
            self.spend(1);
        }
    }

    fn call(&mut self, bus: &mut Bus)
        ensures
            final(self).with(final(bus)@) == old(self).with(old(bus)@).execute_control(Opcode::Call),
    {
        reveal(Machine::execute_control);
        let addr: u16 = self.read_immediate16(bus);
        let back: u16 = self.pc;
        self.write_stack(bus, back);
        self.pc = addr;
    }

    fn call_cond(&mut self, bus: &mut Bus, condition: Condition)
        ensures
            final(self).with(final(bus)@) == old(self).with(old(bus)@).execute_control(Opcode::CallCond(condition)),
    {
        reveal(Machine::execute_control);
        let addr: u16 = self.read_immediate16(bus);
        if self.check_conditional(condition) {
            let back: u16 = self.pc;
            self.write_stack(bus, back);
            self.pc = addr;
            self.spend(3);
        }
    }

    fn ret(&mut self, bus: &Bus)
        ensures
            final(self).with(bus@) == old(self).with(bus@).execute_control(Opcode::Ret),
    {
        reveal(Machine::execute_control);
        let addr: u16 = self.read_stack(bus);
        self.pc = addr;
    }

    fn ret_cond(&mut self, bus: &Bus, condition: Condition)
        ensures
            final(self).with(bus@) == old(self).with(bus@).execute_control(Opcode::RetCond(condition)),
    {
        reveal(Machine::execute_control);
        if self.check_conditional(condition) {
            let addr: u16 = self.read_stack(bus);
            self.pc = addr;
            self.spend(3);
        }
    }

    fn reti(&mut self, bus: &Bus)
        ensures
            final(self).with(bus@) == old(self).with(bus@).execute_control(Opcode::Reti),
    {
        reveal(Machine::execute_control);
        let addr: u16 = self.read_stack(bus);
        self.pc = addr;
        self.ime = true;
    }

    fn rst(&mut self, bus: &mut Bus, vector: u8)
        ensures
            final(self).with(final(bus)@) == old(self).with(old(bus)@).execute_control(Opcode::Rst(vector)),
    {
        reveal(Machine::execute_control);
        let back: u16 = self.pc;
        self.write_stack(bus, back);
        self.pc = vector as u16;
    }

    fn stop(&mut self, bus: &mut Bus)
        ensures
            final(self).with(final(bus)@) == old(self).with(old(bus)@).execute_control(Opcode::Stop),
    {
        reveal(Machine::execute_control);
        if bus.cgb && bus.speed.pending {
            bus.speed.commit();
        } else {
            self.halted = true;
        }
    }

    fn spend(&mut self, extra: u8)
        ensures
            *final(self) == (Cpu {
                cycles: ((old(self).cycles + extra) % 256) as u8,
                ..*old(self)
            }),
    {
        self.cycles = self.cycles.wrapping_add(extra);
    }

    fn rotate_a(&mut self, kind: Rotation)
        ensures
            forall|bus: BusView|
                final(self).with(bus) == #[trigger] old(self).with(bus).rotate_accumulator(kind),
    {
        let r = alu::rotate_accumulator(kind, self.a, self.f.c);
        self.a = r.value;
        self.f = r.flags;
    }

    /// Executes a load.
    pub fn execute_load(&mut self, bus: &mut Bus, op: Opcode)
        ensures
            final(self).with(final(bus)@) == old(self).with(old(bus)@).execute_load(op),
    {
        reveal(Machine::execute_load);
        match op {
            Opcode::LdRR(target, source) => self.ld_rr(bus, target, source),
            Opcode::LdRImm(target) => self.ld_r_imm(bus, target),
            Opcode::LdRMem(target, source) => self.ld_r_mem(bus, target, source),
            Opcode::LdMemR(target, source) => self.ld_mem_r(bus, target, source),
            Opcode::LdMemImm(target) => self.ld_mem_imm(bus, target),
            Opcode::LdhRead(target, source) => self.ldh_read(bus, target, source),
            Opcode::LdhWrite(target, source) => self.ldh_write(bus, target, source),
            Opcode::Ld16RImm(target) => self.ld16_r_imm(bus, target),
            Opcode::Ld16MemSp => self.ld16_mem_sp(bus),
            Opcode::Ld16SpHL => self.ld16_sp_hl(bus),
            Opcode::Ld16HLSPSigned => self.ld16_hl_sp(bus),
            Opcode::Push(source) => self.push(bus, source),
            Opcode::Pop(target) => self.pop(bus, target),
            _ => {},
        }
    }

    /// Executes an arithmetic instruction.
    pub fn execute_arithmetic(&mut self, bus: &mut Bus, op: Opcode)
        ensures
            final(self).with(final(bus)@) == old(self).with(old(bus)@).execute_arithmetic(op),
    {
        reveal(Machine::execute_arithmetic);
        match op {
            Opcode::AluR(alu_op, source) => self.alu_r(bus, alu_op, source),
            Opcode::AluImm(alu_op) => self.alu_imm(bus, alu_op),
            Opcode::AluMem(alu_op) => self.alu_mem(bus, alu_op),
            Opcode::IncR(reg) => self.inc_r(bus, reg),
            Opcode::DecR(reg) => self.dec_r(bus, reg),
            Opcode::IncMem => self.inc_mem(bus),
            Opcode::DecMem => self.dec_mem(bus),
            Opcode::Daa => self.daa(bus),
            Opcode::Cpl => self.cpl(bus),
            Opcode::Ccf => self.ccf(bus),
            Opcode::Scf => self.scf(bus),
            Opcode::Add16HL(source) => self.add16_hl(bus, source),
            Opcode::Add16SPSigned => self.add16_sp(bus),
            Opcode::Inc16R(reg) => self.inc16(bus, reg),
            Opcode::Dec16R(reg) => self.dec16(bus, reg),
            Opcode::RlcA => self.rotate_a(Rotation::Rlc),
            Opcode::RlA => self.rotate_a(Rotation::Rl),
            Opcode::RrcA => self.rotate_a(Rotation::Rrc),
            Opcode::RrA => self.rotate_a(Rotation::Rr),
            _ => {},
        }
    }

    /// Executes a jump, a call, a return or an instruction that changes how the
    /// processor runs.
    pub fn execute_control(&mut self, bus: &mut Bus, op: Opcode)
        ensures
            final(self).with(final(bus)@) == old(self).with(old(bus)@).execute_control(op),
    {
        reveal(Machine::execute_control);
        match op {
            Opcode::JpImm => self.jp_imm(bus),
            Opcode::JpHL => self.jp_hl(bus),
            Opcode::JpCond(condition) => self.jp_cond(bus, condition),
            Opcode::JpRel => self.jp_rel(bus),
            Opcode::JpRelCond(condition) => self.jp_rel_cond(bus, condition),
            Opcode::Call => self.call(bus),
            Opcode::CallCond(condition) => self.call_cond(bus, condition),
            Opcode::Ret => self.ret(bus),
            Opcode::RetCond(condition) => self.ret_cond(bus, condition),
            Opcode::Reti => self.reti(bus),
            Opcode::Rst(vector) => self.rst(bus, vector),
            Opcode::Halt => {
                self.halted = true;
            },
            Opcode::Stop => self.stop(bus),
            Opcode::Di => {
                self.ime = false;
                self.ei_pending = false;
            },
            Opcode::Ei => {
                self.ei_pending = true;
            },
            _ => {},
        }
    }

    fn operand(&self, bus: &Bus, target: Operand8) -> (r: u8)
        ensures
            r == self.with(bus@).operand(target),
    {
        match target {
            Operand8::Register(reg) => self.get_register(reg),
            Operand8::Memory => bus.read(self.get_register_pair(RegisterPair::HL)),
        }
    }

    fn set_operand(&mut self, bus: &mut Bus, target: Operand8, val: u8)
        ensures
            final(self).with(final(bus)@) == old(self).with(old(bus)@).with_operand(target, val),
    {
        match target {
            Operand8::Register(reg) => self.set_register(reg, val),
            Operand8::Memory => bus.write(self.get_register_pair(RegisterPair::HL), val),
        }
    }

    /// Executes an instruction of the second decode space.
    pub fn execute_cb(&mut self, bus: &mut Bus, op: CbOpcode)
        ensures
            final(self).with(final(bus)@) == old(self).with(old(bus)@).execute_cb(op),
    {
        reveal(Machine::execute_cb);
        match op {
            CbOpcode::Rotate(kind, target) => {
                let r = alu::rotate(kind, self.operand(bus, target), self.f.c);
                self.f = r.flags;
                self.set_operand(bus, target, r.value);
            },
            CbOpcode::TestBit(n, target) => {
                self.f = alu::test_bit(n, self.operand(bus, target), self.f);
            },
            CbOpcode::ResetBit(n, target) => {
                let val: u8 = alu::reset_bit(n, self.operand(bus, target));
                self.set_operand(bus, target, val);
            },
            CbOpcode::SetBit(n, target) => {
                let val: u8 = alu::set_bit(n, self.operand(bus, target));
                self.set_operand(bus, target, val);
            },
        }
    }

    fn execute_prefixed(&mut self, bus: &mut Bus)
        ensures
            final(self).with(final(bus)@) == old(self).with(old(bus)@).execute_prefixed(),
    {
        let byte: u8 = self.read_immediate(bus);
        let op = CbOpcode::decode(byte);
        self.execute_cb(bus, op);
        self.spend(op.extra_cycles());
    }

    fn execute_opcode(&mut self, bus: &mut Bus, op: Opcode)
        ensures
            final(self).with(final(bus)@) == old(self).with(old(bus)@).execute_opcode(op),
    {
        match op {
            Opcode::LdRR(_, _) | Opcode::LdRImm(_) | Opcode::LdRMem(_, _) | Opcode::LdMemR(_, _)
            | Opcode::LdMemImm(_) | Opcode::LdhRead(_, _) | Opcode::LdhWrite(_, _)
            | Opcode::Ld16RImm(_) | Opcode::Ld16MemSp | Opcode::Ld16SpHL | Opcode::Ld16HLSPSigned
            | Opcode::Push(_) | Opcode::Pop(_) => self.execute_load(bus, op),
            Opcode::AluR(_, _) | Opcode::AluImm(_) | Opcode::AluMem(_) | Opcode::IncR(_)
            | Opcode::DecR(_) | Opcode::IncMem | Opcode::DecMem | Opcode::Daa | Opcode::Cpl
            | Opcode::Ccf | Opcode::Scf | Opcode::Add16HL(_) | Opcode::Add16SPSigned
            | Opcode::Inc16R(_) | Opcode::Dec16R(_) | Opcode::RlcA | Opcode::RlA | Opcode::RrcA
            | Opcode::RrA => self.execute_arithmetic(bus, op),
            Opcode::CBPrefix => self.execute_prefixed(bus),
            _ => self.execute_control(bus, op),
        }
    }

    /// Executes the instruction in the latch.
    pub fn execute(&mut self, bus: &mut Bus)
        ensures
            final(self).with(final(bus)@) == old(self).with(old(bus)@).execute(),
    {
        let pending: bool = self.ei_pending;
        let op: Opcode = self.opcode_latch;
        self.execute_opcode(bus, op);
        if pending && self.ei_pending {
            self.ime = true;
            self.ei_pending = false;
        }
    }
}

} // verus!
