//! Instruction decoding: from an instruction byte to its shape and its cost.
//!
//! An instruction byte is read as three fields, `xx yyy zzz`; `yyy` is read a second
//! way as `pp q`. The fields select registers, register pairs, conditions and
//! arithmetic operations from fixed tables.

use vstd::prelude::*;

verus! {

/// An 8-bit register. Slot 6 of the register table, `(HL)`, is no register and has
/// its own instruction shapes.
#[derive(Clone, Copy, Debug, PartialEq, Eq, Structural)]
pub enum Register {
    B,
    C,
    D,
    E,
    H,
    L,
    A,
}

/// A 16-bit register pair. `SP` and `AF` share slot 3 of the pair table: `AF` is
/// used by PUSH and POP, `SP` everywhere else.
#[derive(Clone, Copy, Debug, PartialEq, Eq, Structural)]
pub enum RegisterPair {
    BC,
    DE,
    HL,
    SP,
    AF,
}

/// Where a load through a 16-bit address finds that address.
#[derive(Clone, Copy, Debug, PartialEq, Eq, Structural)]
pub enum OpMemAddress16 {
    Register(RegisterPair),
    RegisterIncrease(RegisterPair),
    RegisterDecrease(RegisterPair),
    Immediate,
}

/// Where a high-page load finds the low byte of its address.
#[derive(Clone, Copy, Debug, PartialEq, Eq, Structural)]
pub enum OpMemAddress8 {
    Register(Register),
    Immediate,
}

/// The eight accumulator operations, in table order.
#[derive(Clone, Copy, Debug, PartialEq, Eq, Structural)]
pub enum Alu {
    Add,
    Adc,
    Sub,
    Sbc,
    And,
    Xor,
    Or,
    Cp,
}

/// The four branch conditions, in table order.
#[derive(Clone, Copy, Debug, PartialEq, Eq, Structural)]
pub enum Condition {
    NonZero,
    Zero,
    NoCarry,
    Carry,
}

/// A decoded instruction.
#[derive(Clone, Copy, Debug, PartialEq, Eq, Structural)]
pub enum Opcode {
    Unknown,
    Nop,
    CBPrefix,
    LdRR(Register, Register),
    LdRImm(Register),
    LdRMem(Register, OpMemAddress16),
    LdMemR(OpMemAddress16, Register),
    LdMemImm(RegisterPair),
    LdhRead(Register, OpMemAddress8),
    LdhWrite(OpMemAddress8, Register),
    Ld16RImm(RegisterPair),
    Ld16MemSp,
    Ld16SpHL,
    Ld16HLSPSigned,
    Push(RegisterPair),
    Pop(RegisterPair),
    AluR(Alu, Register),
    AluImm(Alu),
    AluMem(Alu),
    IncR(Register),
    IncMem,
    DecR(Register),
    DecMem,
    Daa,
    Cpl,
    Ccf,
    Scf,
    Add16HL(RegisterPair),
    Add16SPSigned,
    Inc16R(RegisterPair),
    Dec16R(RegisterPair),
    RlcA,
    RlA,
    RrcA,
    RrA,
    JpImm,
    JpHL,
    JpCond(Condition),
    JpRel,
    JpRelCond(Condition),
    Call,
    CallCond(Condition),
    Ret,
    RetCond(Condition),
    Reti,
    Rst(u8),
    Halt,
    Stop,
    Di,
    Ei,
}

/// The `xx` field of an instruction byte.
pub open spec fn field_x(op: u8) -> int {
    op as int / 64
}

/// The `yyy` field of an instruction byte.
pub open spec fn field_y(op: u8) -> int {
    (op as int / 8) % 8
}

/// The `zzz` field of an instruction byte.
pub open spec fn field_z(op: u8) -> int {
    op as int % 8
}

/// The `pp` field: the upper two bits of `yyy`.
pub open spec fn field_p(op: u8) -> int {
    field_y(op) / 2
}

/// The `q` field: the lowest bit of `yyy`.
pub open spec fn field_q(op: u8) -> int {
    field_y(op) % 2
}

/// The register table. Slot 6 is `(HL)` and has no register.
pub open spec fn register_slot(slot: int) -> Option<Register> {
    if slot == 0 {
        Some(Register::B)
    } else if slot == 1 {
        Some(Register::C)
    } else if slot == 2 {
        Some(Register::D)
    } else if slot == 3 {
        Some(Register::E)
    } else if slot == 4 {
        Some(Register::H)
    } else if slot == 5 {
        Some(Register::L)
    } else if slot == 7 {
        Some(Register::A)
    } else {
        None
    }
}

/// The pair table whose slot 3 is `SP`.
pub open spec fn pair_slot_sp(slot: int) -> RegisterPair {
    if slot == 0 {
        RegisterPair::BC
    } else if slot == 1 {
        RegisterPair::DE
    } else if slot == 2 {
        RegisterPair::HL
    } else {
        RegisterPair::SP
    }
}

/// The pair table whose slot 3 is `AF`.
pub open spec fn pair_slot_af(slot: int) -> RegisterPair {
    if slot == 0 {
        RegisterPair::BC
    } else if slot == 1 {
        RegisterPair::DE
    } else if slot == 2 {
        RegisterPair::HL
    } else {
        RegisterPair::AF
    }
}

/// The condition table.
pub open spec fn condition_slot(slot: int) -> Condition {
    if slot == 0 {
        Condition::NonZero
    } else if slot == 1 {
        Condition::Zero
    } else if slot == 2 {
        Condition::NoCarry
    } else {
        Condition::Carry
    }
}

/// The table of accumulator operations.
pub open spec fn alu_slot(slot: int) -> Alu {
    if slot == 0 {
        Alu::Add
    } else if slot == 1 {
        Alu::Adc
    } else if slot == 2 {
        Alu::Sub
    } else if slot == 3 {
        Alu::Sbc
    } else if slot == 4 {
        Alu::And
    } else if slot == 5 {
        Alu::Xor
    } else if slot == 6 {
        Alu::Or
    } else {
        Alu::Cp
    }
}

/// The address forms of the accumulator loads `00 ppq 010`.
pub open spec fn indirect_slot(p: int) -> OpMemAddress16 {
    if p == 0 {
        OpMemAddress16::Register(RegisterPair::BC)
    } else if p == 1 {
        OpMemAddress16::Register(RegisterPair::DE)
    } else if p == 2 {
        OpMemAddress16::RegisterIncrease(RegisterPair::HL)
    } else {
        OpMemAddress16::RegisterDecrease(RegisterPair::HL)
    }
}

/// Instructions of the form `00 yyy zzz`.
pub open spec fn decode_block0(op: u8) -> Opcode {
    let y = field_y(op);
    let z = field_z(op);
    let p = field_p(op);
    let q = field_q(op);
    if z == 0 {
        if y == 0 {
            Opcode::Nop
        } else if y == 1 {
            Opcode::Ld16MemSp
        } else if y == 2 {
            Opcode::Stop
        } else if y == 3 {
            Opcode::JpRel
        } else {
            Opcode::JpRelCond(condition_slot(y - 4))
        }
    } else if z == 1 {
        if q == 0 {
            Opcode::Ld16RImm(pair_slot_sp(p))
        } else {
            Opcode::Add16HL(pair_slot_sp(p))
        }
    } else if z == 2 {
        if q == 0 {
            Opcode::LdMemR(indirect_slot(p), Register::A)
        } else {
            Opcode::LdRMem(Register::A, indirect_slot(p))
        }
    } else if z == 3 {
        if q == 0 {
            Opcode::Inc16R(pair_slot_sp(p))
        } else {
            Opcode::Dec16R(pair_slot_sp(p))
        }
    } else if z == 4 {
        match register_slot(y) {
            Some(r) => Opcode::IncR(r),
            None => Opcode::IncMem,
        }
    } else if z == 5 {
        match register_slot(y) {
            Some(r) => Opcode::DecR(r),
            None => Opcode::DecMem,
        }
    } else if z == 6 {
        match register_slot(y) {
            Some(r) => Opcode::LdRImm(r),
            None => Opcode::LdMemImm(RegisterPair::HL),
        }
    } else {
        if y == 0 {
            Opcode::RlcA
        } else if y == 1 {
            Opcode::RrcA
        } else if y == 2 {
            Opcode::RlA
        } else if y == 3 {
            Opcode::RrA
        } else if y == 4 {
            Opcode::Daa
        } else if y == 5 {
            Opcode::Cpl
        } else if y == 6 {
            Opcode::Scf
        } else {
            Opcode::Ccf
        }
    }
}

/// Instructions of the form `01 yyy zzz`: the register-to-register loads, with HALT
/// in the place of `LD (HL),(HL)`.
pub open spec fn decode_block1(op: u8) -> Opcode {
    match (register_slot(field_y(op)), register_slot(field_z(op))) {
        (Some(target), Some(source)) => Opcode::LdRR(target, source),
        (Some(target), None) => Opcode::LdRMem(target, OpMemAddress16::Register(RegisterPair::HL)),
        (None, Some(source)) => Opcode::LdMemR(OpMemAddress16::Register(RegisterPair::HL), source),
        (None, None) => Opcode::Halt,
    }
}

/// Instructions of the form `10 yyy zzz`: accumulator arithmetic on a register or `(HL)`.
pub open spec fn decode_block2(op: u8) -> Opcode {
    match register_slot(field_z(op)) {
        Some(source) => Opcode::AluR(alu_slot(field_y(op)), source),
        None => Opcode::AluMem(alu_slot(field_y(op))),
    }
}

/// Instructions of the form `11 yyy zzz`. The eleven unassigned bytes decode to
/// `Unknown`, which executes as a NOP.
pub open spec fn decode_block3(op: u8) -> Opcode {
    let y = field_y(op);
    let z = field_z(op);
    let p = field_p(op);
    let q = field_q(op);
    if z == 0 {
        if y < 4 {
            Opcode::RetCond(condition_slot(y))
        } else if y == 4 {
            Opcode::LdhWrite(OpMemAddress8::Immediate, Register::A)
        } else if y == 5 {
            Opcode::Add16SPSigned
        } else if y == 6 {
            Opcode::LdhRead(Register::A, OpMemAddress8::Immediate)
        } else {
            Opcode::Ld16HLSPSigned
        }
    } else if z == 1 {
        if q == 0 {
            Opcode::Pop(pair_slot_af(p))
        } else if p == 0 {
            Opcode::Ret
        } else if p == 1 {
            Opcode::Reti
        } else if p == 2 {
            Opcode::JpHL
        } else {
            Opcode::Ld16SpHL
        }
    } else if z == 2 {
        if y < 4 {
            Opcode::JpCond(condition_slot(y))
        } else if y == 4 {
            Opcode::LdhWrite(OpMemAddress8::Register(Register::C), Register::A)
        } else if y == 5 {
            Opcode::LdMemR(OpMemAddress16::Immediate, Register::A)
        } else if y == 6 {
            Opcode::LdhRead(Register::A, OpMemAddress8::Register(Register::C))
        } else {
            Opcode::LdRMem(Register::A, OpMemAddress16::Immediate)
        }
    } else if z == 3 {
        if y == 0 {
            Opcode::JpImm
        } else if y == 1 {
            Opcode::CBPrefix
        } else if y == 6 {
            Opcode::Di
        } else if y == 7 {
            Opcode::Ei
        } else {
            Opcode::Unknown
        }
    } else if z == 4 {
        if y < 4 {
            Opcode::CallCond(condition_slot(y))
        } else {
            Opcode::Unknown
        }
    } else if z == 5 {
        if q == 0 {
            Opcode::Push(pair_slot_af(p))
        } else if p == 0 {
            Opcode::Call
        } else {
            Opcode::Unknown
        }
    } else if z == 6 {
        Opcode::AluImm(alu_slot(y))
    } else {
        Opcode::Rst((y * 8) as u8)
    }
}

/// The instruction that a byte of the main decode space stands for.
pub open spec fn decode(op: u8) -> Opcode {
    let x = field_x(op);
    if x == 0 {
        decode_block0(op)
    } else if x == 1 {
        decode_block1(op)
    } else if x == 2 {
        decode_block2(op)
    } else {
        decode_block3(op)
    }
}

/// The bytes that no instruction is assigned to.
pub open spec fn is_unassigned(op: u8) -> bool {
    op == 0xD3 || op == 0xDB || op == 0xDD || op == 0xE3 || op == 0xE4 || op == 0xEB || op == 0xEC
        || op == 0xED || op == 0xF4 || op == 0xFC || op == 0xFD
}

} // verus!

verus! {

impl Register {
    /// Looks a slot of the register table up.
    pub fn from_slot(slot: u8) -> (r: Option<Register>)
        ensures
            r == register_slot(slot as int),
    {
        match slot {
            0 => Some(Register::B),
            1 => Some(Register::C),
            2 => Some(Register::D),
            3 => Some(Register::E),
            4 => Some(Register::H),
            5 => Some(Register::L),
            7 => Some(Register::A),
            _ => None,
        }
    }
}

impl RegisterPair {
    /// Looks a slot up in the pair table that ends in `SP`.
    pub fn from_slot_sp(slot: u8) -> (r: RegisterPair)
        ensures
            r == pair_slot_sp(slot as int),
    {
        match slot {
            0 => RegisterPair::BC,
            1 => RegisterPair::DE,
            2 => RegisterPair::HL,
            _ => RegisterPair::SP,
        }
    }

    /// Looks a slot up in the pair table that ends in `AF`.
    pub fn from_slot_af(slot: u8) -> (r: RegisterPair)
        ensures
            r == pair_slot_af(slot as int),
    {
        match slot {
            0 => RegisterPair::BC,
            1 => RegisterPair::DE,
            2 => RegisterPair::HL,
            _ => RegisterPair::AF,
        }
    }
}

impl Condition {
    /// Looks a slot of the condition table up.
    pub fn from_slot(slot: u8) -> (r: Condition)
        ensures
            r == condition_slot(slot as int),
    {
        match slot {
            0 => Condition::NonZero,
            1 => Condition::Zero,
            2 => Condition::NoCarry,
            _ => Condition::Carry,
        }
    }
}

impl Alu {
    /// Looks a slot of the operation table up.
    pub fn from_slot(slot: u8) -> (r: Alu)
        ensures
            r == alu_slot(slot as int),
    {
        match slot {
            0 => Alu::Add,
            1 => Alu::Adc,
            2 => Alu::Sub,
            3 => Alu::Sbc,
            4 => Alu::And,
            5 => Alu::Xor,
            6 => Alu::Or,
            _ => Alu::Cp,
        }
    }
}

impl vstd::std_specs::convert::FromSpecImpl<u8> for Opcode {
    open spec fn obeys_from_spec() -> bool {
        true
    }

    open spec fn from_spec(op: u8) -> Opcode {
        decode(op)
    }
}

impl From<u8> for Opcode {
    /// Decodes one byte of the main decode space.
    fn from(op: u8) -> (r: Opcode)
        ensures
            r == decode(op),
    {
        let y: u8 = (op / 8) % 8;
        let z: u8 = op % 8;
        let p: u8 = y / 2;
        match op {
            0x00 => Opcode::Nop,
            0x08 => Opcode::Ld16MemSp,
            0x10 => Opcode::Stop,
            0x18 => Opcode::JpRel,
            0x20 | 0x28 | 0x30 | 0x38 => Opcode::JpRelCond(Condition::from_slot(y - 4)),
            0x01 | 0x11 | 0x21 | 0x31 => Opcode::Ld16RImm(RegisterPair::from_slot_sp(p)),
            0x09 | 0x19 | 0x29 | 0x39 => Opcode::Add16HL(RegisterPair::from_slot_sp(p)),
            0x02 => Opcode::LdMemR(OpMemAddress16::Register(RegisterPair::BC), Register::A),
            0x12 => Opcode::LdMemR(OpMemAddress16::Register(RegisterPair::DE), Register::A),
            0x22 => Opcode::LdMemR(OpMemAddress16::RegisterIncrease(RegisterPair::HL), Register::A),
            0x32 => Opcode::LdMemR(OpMemAddress16::RegisterDecrease(RegisterPair::HL), Register::A),
            0x0A => Opcode::LdRMem(Register::A, OpMemAddress16::Register(RegisterPair::BC)),
            0x1A => Opcode::LdRMem(Register::A, OpMemAddress16::Register(RegisterPair::DE)),
            0x2A => Opcode::LdRMem(Register::A, OpMemAddress16::RegisterIncrease(RegisterPair::HL)),
            0x3A => Opcode::LdRMem(Register::A, OpMemAddress16::RegisterDecrease(RegisterPair::HL)),
            0x03 | 0x13 | 0x23 | 0x33 => Opcode::Inc16R(RegisterPair::from_slot_sp(p)),
            0x0B | 0x1B | 0x2B | 0x3B => Opcode::Dec16R(RegisterPair::from_slot_sp(p)),
            0x34 => Opcode::IncMem,
            0x35 => Opcode::DecMem,
            0x36 => Opcode::LdMemImm(RegisterPair::HL),
            0x04 | 0x0C | 0x14 | 0x1C | 0x24 | 0x2C | 0x3C => match Register::from_slot(y) {
                Some(r) => Opcode::IncR(r),
                None => Opcode::IncMem,
            },
            0x05 | 0x0D | 0x15 | 0x1D | 0x25 | 0x2D | 0x3D => match Register::from_slot(y) {
                Some(r) => Opcode::DecR(r),
                None => Opcode::DecMem,
            },
            0x06 | 0x0E | 0x16 | 0x1E | 0x26 | 0x2E | 0x3E => match Register::from_slot(y) {
                Some(r) => Opcode::LdRImm(r),
                None => Opcode::LdMemImm(RegisterPair::HL),
            },
            0x07 => Opcode::RlcA,
            0x0F => Opcode::RrcA,
            0x17 => Opcode::RlA,
            0x1F => Opcode::RrA,
            0x27 => Opcode::Daa,
            0x2F => Opcode::Cpl,
            0x37 => Opcode::Scf,
            0x3F => Opcode::Ccf,
            0x76 => Opcode::Halt,
            0x40..=0x7F => match (Register::from_slot(y), Register::from_slot(z)) {
                (Some(target), Some(source)) => Opcode::LdRR(target, source),
                (Some(target), None) => Opcode::LdRMem(
                    target,
                    OpMemAddress16::Register(RegisterPair::HL),
                ),
                (None, Some(source)) => Opcode::LdMemR(
                    OpMemAddress16::Register(RegisterPair::HL),
                    source,
                ),
                (None, None) => Opcode::Halt,
            },
            0x80..=0xBF => match Register::from_slot(z) {
                Some(source) => Opcode::AluR(Alu::from_slot(y), source),
                None => Opcode::AluMem(Alu::from_slot(y)),
            },
            0xC0 | 0xC8 | 0xD0 | 0xD8 => Opcode::RetCond(Condition::from_slot(y)),
            0xE0 => Opcode::LdhWrite(OpMemAddress8::Immediate, Register::A),
            0xE8 => Opcode::Add16SPSigned,
            0xF0 => Opcode::LdhRead(Register::A, OpMemAddress8::Immediate),
            0xF8 => Opcode::Ld16HLSPSigned,
            0xC1 | 0xD1 | 0xE1 | 0xF1 => Opcode::Pop(RegisterPair::from_slot_af(p)),
            0xC9 => Opcode::Ret,
            0xD9 => Opcode::Reti,
            0xE9 => Opcode::JpHL,
            0xF9 => Opcode::Ld16SpHL,
            0xC2 | 0xCA | 0xD2 | 0xDA => Opcode::JpCond(Condition::from_slot(y)),
            0xE2 => Opcode::LdhWrite(OpMemAddress8::Register(Register::C), Register::A),
            0xEA => Opcode::LdMemR(OpMemAddress16::Immediate, Register::A),
            0xF2 => Opcode::LdhRead(Register::A, OpMemAddress8::Register(Register::C)),
            0xFA => Opcode::LdRMem(Register::A, OpMemAddress16::Immediate),
            0xC3 => Opcode::JpImm,
            0xCB => Opcode::CBPrefix,
            0xF3 => Opcode::Di,
            0xFB => Opcode::Ei,
            0xC4 | 0xCC | 0xD4 | 0xDC => Opcode::CallCond(Condition::from_slot(y)),
            0xC5 | 0xD5 | 0xE5 | 0xF5 => Opcode::Push(RegisterPair::from_slot_af(p)),
            0xCD => Opcode::Call,
            0xC6 | 0xCE | 0xD6 | 0xDE | 0xE6 | 0xEE | 0xF6 | 0xFE => Opcode::AluImm(
                Alu::from_slot(y),
            ),
            0xC7 | 0xCF | 0xD7 | 0xDF | 0xE7 | 0xEF | 0xF7 | 0xFF => Opcode::Rst(y * 8),
            _ => Opcode::Unknown,
        }
    }
}

/// Exactly the eleven unassigned bytes decode to `Unknown`.
pub proof fn lemma_unknown_iff_unassigned(op: u8)
    ensures
        decode(op) == Opcode::Unknown <==> is_unassigned(op),
{
}

} // verus!

verus! {

impl Opcode {
    /// How many bytes follow the instruction byte.
    pub open spec fn operand_bytes(self) -> int {
        match self {
            Opcode::LdRImm(_) | Opcode::LdMemImm(_) | Opcode::AluImm(_) | Opcode::Add16SPSigned
            | Opcode::Ld16HLSPSigned | Opcode::JpRel | Opcode::JpRelCond(_) | Opcode::CBPrefix => 1,
            Opcode::LdhRead(_, OpMemAddress8::Immediate)
            | Opcode::LdhWrite(OpMemAddress8::Immediate, _) => 1,
            Opcode::LdRMem(_, OpMemAddress16::Immediate)
            | Opcode::LdMemR(OpMemAddress16::Immediate, _) => 2,
            Opcode::Ld16RImm(_) | Opcode::Ld16MemSp | Opcode::JpImm | Opcode::JpCond(_)
            | Opcode::Call | Opcode::CallCond(_) => 2,
            _ => 0,
        }
    }

    /// How many bytes of data the instruction reads or writes when its branch, if
    /// it has one, is not taken.
    pub open spec fn data_accesses(self) -> int {
        match self {
            Opcode::LdRMem(_, _) | Opcode::LdMemR(_, _) | Opcode::LdMemImm(_) | Opcode::LdhRead(_, _)
            | Opcode::LdhWrite(_, _) | Opcode::AluMem(_) => 1,
            Opcode::Ld16MemSp | Opcode::Push(_) | Opcode::Pop(_) | Opcode::IncMem | Opcode::DecMem
            | Opcode::Call | Opcode::Ret | Opcode::Reti | Opcode::Rst(_) => 2,
            _ => 0,
        }
    }

    /// How many machine cycles the instruction spends away from the bus when its
    /// branch, if it has one, is not taken.
    pub open spec fn internal_cycles(self) -> int {
        match self {
            Opcode::Ld16SpHL | Opcode::Ld16HLSPSigned | Opcode::Push(_) | Opcode::Add16HL(_)
            | Opcode::Inc16R(_) | Opcode::Dec16R(_) | Opcode::JpImm | Opcode::JpRel | Opcode::Call
            | Opcode::Ret | Opcode::RetCond(_) | Opcode::Reti | Opcode::Rst(_) => 1,
            Opcode::Add16SPSigned => 2,
            _ => 0,
        }
    }

    /// The nominal cost in machine cycles: one for the instruction byte, one for each
    /// operand byte and each byte of data, and the cycles spent away from the bus.
    /// For a conditional instruction this is the cost of the branch not taken.
    pub open spec fn cycles_spec(self) -> int {
        1 + self.operand_bytes() + self.data_accesses() + self.internal_cycles()
    }

    /// What a taken branch costs on top of the nominal cost.
    pub open spec fn taken_cycles_spec(self) -> int {
        match self {
            Opcode::JpCond(_) | Opcode::JpRelCond(_) => 1,
            Opcode::CallCond(_) | Opcode::RetCond(_) => 3,
            _ => 0,
        }
    }

    /// The condition a conditional instruction tests.
    pub open spec fn condition_spec(self) -> Option<Condition> {
        match self {
            Opcode::JpCond(c) | Opcode::JpRelCond(c) | Opcode::CallCond(c) | Opcode::RetCond(c) => Some(
                c,
            ),
            _ => None,
        }
    }

    /// The nominal cost of the instruction in machine cycles.
    pub fn cycles(&self) -> (r: u8)
        ensures
            r == self.cycles_spec(),
            1 <= r <= 6,
    {
        match self {
            Opcode::Unknown | Opcode::Nop => 1,
            Opcode::CBPrefix => 2,
            Opcode::LdRR(_, _) => 1,
            Opcode::LdRImm(_) => 2,
            Opcode::LdRMem(_, mem) => match mem {
                OpMemAddress16::Immediate => 4,
                _ => 2,
            },
            Opcode::LdMemR(mem, _) => match mem {
                OpMemAddress16::Immediate => 4,
                _ => 2,
            },
            Opcode::LdMemImm(_) => 3,
            Opcode::LdhRead(_, mem) => match mem {
                OpMemAddress8::Register(_) => 2,
                OpMemAddress8::Immediate => 3,
            },
            Opcode::LdhWrite(mem, _) => match mem {
                OpMemAddress8::Register(_) => 2,
                OpMemAddress8::Immediate => 3,
            },
            Opcode::Ld16RImm(_) => 3,
            Opcode::Ld16MemSp => 5,
            Opcode::Ld16SpHL => 2,
            Opcode::Ld16HLSPSigned => 3,
            Opcode::Push(_) => 4,
            Opcode::Pop(_) => 3,
            Opcode::AluR(_, _) => 1,
            Opcode::AluImm(_) => 2,
            Opcode::AluMem(_) => 2,
            Opcode::IncR(_) | Opcode::DecR(_) => 1,
            Opcode::IncMem | Opcode::DecMem => 3,
            Opcode::Daa | Opcode::Cpl | Opcode::Ccf | Opcode::Scf => 1,
            Opcode::Add16HL(_) => 2,
            Opcode::Add16SPSigned => 4,
            Opcode::Inc16R(_) | Opcode::Dec16R(_) => 2,
            Opcode::RlcA | Opcode::RlA | Opcode::RrcA | Opcode::RrA => 1,
            Opcode::JpImm => 4,
            Opcode::JpHL => 1,
            Opcode::JpCond(_) => 3,
            Opcode::JpRel => 3,
            Opcode::JpRelCond(_) => 2,
            Opcode::Call => 6,
            Opcode::CallCond(_) => 3,
            Opcode::Ret => 4,
            Opcode::RetCond(_) => 2,
            Opcode::Reti => 4,
            Opcode::Rst(_) => 4,
            Opcode::Halt | Opcode::Stop | Opcode::Di | Opcode::Ei => 1,
        }
    }

    /// The extra cost of the instruction when its branch is taken.
    pub fn taken_cycles(&self) -> (r: u8)
        ensures
            r == self.taken_cycles_spec(),
            r <= 3,
    {
        match self {
            Opcode::JpCond(_) | Opcode::JpRelCond(_) => 1,
            Opcode::CallCond(_) | Opcode::RetCond(_) => 3,
            _ => 0,
        }
    }

    /// The condition the instruction tests, if it is conditional.
    pub fn condition(&self) -> (r: Option<Condition>)
        ensures
            r == self.condition_spec(),
    {
        match self {
            Opcode::JpCond(c) | Opcode::JpRelCond(c) | Opcode::CallCond(c) | Opcode::RetCond(c) => Some(
                *c,
            ),
            _ => None,
        }
    }
}

/// What an instruction of the second decode space works on: a register, or the
/// byte that `HL` points to (slot 6 of the register table).
#[derive(Clone, Copy, Debug, PartialEq, Eq, Structural)]
pub enum Operand8 {
    Register(Register),
    Memory,
}

/// The eight rotations and shifts, in table order.
#[derive(Clone, Copy, Debug, PartialEq, Eq, Structural)]
pub enum Rotation {
    Rlc,
    Rrc,
    Rl,
    Rr,
    Sla,
    Sra,
    Swap,
    Srl,
}

/// A decoded instruction of the second decode space, the one that the prefix byte
/// 0xCB opens.
#[derive(Clone, Copy, Debug, PartialEq, Eq, Structural)]
pub enum CbOpcode {
    Rotate(Rotation, Operand8),
    TestBit(u8, Operand8),
    ResetBit(u8, Operand8),
    SetBit(u8, Operand8),
}

/// The table of rotations and shifts.
pub open spec fn rotation_slot(slot: int) -> Rotation {
    if slot == 0 {
        Rotation::Rlc
    } else if slot == 1 {
        Rotation::Rrc
    } else if slot == 2 {
        Rotation::Rl
    } else if slot == 3 {
        Rotation::Rr
    } else if slot == 4 {
        Rotation::Sla
    } else if slot == 5 {
        Rotation::Sra
    } else if slot == 6 {
        Rotation::Swap
    } else {
        Rotation::Srl
    }
}

/// The register table read with slot 6 as the byte at `HL`.
pub open spec fn operand_slot(slot: int) -> Operand8 {
    match register_slot(slot) {
        Some(r) => Operand8::Register(r),
        None => Operand8::Memory,
    }
}

/// The instruction that a byte of the second decode space stands for: `xx` selects
/// the kind, `yyy` the rotation or the bit, `zzz` the operand.
pub open spec fn decode_cb(op: u8) -> CbOpcode {
    let x = field_x(op);
    let y = field_y(op);
    let target = operand_slot(field_z(op));
    if x == 0 {
        CbOpcode::Rotate(rotation_slot(y), target)
    } else if x == 1 {
        CbOpcode::TestBit(y as u8, target)
    } else if x == 2 {
        CbOpcode::ResetBit(y as u8, target)
    } else {
        CbOpcode::SetBit(y as u8, target)
    }
}

impl Rotation {
    /// Looks a slot of the rotation table up.
    pub fn from_slot(slot: u8) -> (r: Rotation)
        ensures
            r == rotation_slot(slot as int),
    {
        match slot {
            0 => Rotation::Rlc,
            1 => Rotation::Rrc,
            2 => Rotation::Rl,
            3 => Rotation::Rr,
            4 => Rotation::Sla,
            5 => Rotation::Sra,
            6 => Rotation::Swap,
            _ => Rotation::Srl,
        }
    }
}

impl Operand8 {
    /// Looks a slot of the register table up, with slot 6 as the byte at `HL`.
    pub fn from_slot(slot: u8) -> (r: Operand8)
        ensures
            r == operand_slot(slot as int),
    {
        match Register::from_slot(slot) {
            Some(r) => Operand8::Register(r),
            None => Operand8::Memory,
        }
    }
}

impl CbOpcode {
    /// The operand the instruction works on.
    pub open spec fn target_spec(self) -> Operand8 {
        match self {
            CbOpcode::Rotate(_, t) | CbOpcode::TestBit(_, t) | CbOpcode::ResetBit(_, t) | CbOpcode::SetBit(_, t) => t,
        }
    }

    /// The cost beyond the two cycles of prefix and instruction byte: one cycle for
    /// each byte of data read or written at `HL`.
    pub open spec fn extra_cycles_spec(self) -> int {
        match self {
            CbOpcode::TestBit(_, Operand8::Memory) => 1,
            CbOpcode::Rotate(_, Operand8::Memory) | CbOpcode::ResetBit(_, Operand8::Memory)
            | CbOpcode::SetBit(_, Operand8::Memory) => 2,
            _ => 0,
        }
    }

    /// Decodes one byte of the second decode space.
    pub fn decode(op: u8) -> (r: CbOpcode)
        ensures
            r == decode_cb(op),
            r matches CbOpcode::TestBit(n, _) ==> n < 8,
            r matches CbOpcode::ResetBit(n, _) ==> n < 8,
            r matches CbOpcode::SetBit(n, _) ==> n < 8,
    {
        let y: u8 = (op / 8) % 8;
        let target = Operand8::from_slot(op % 8);
        match op {
            0x00..=0x3F => CbOpcode::Rotate(Rotation::from_slot(y), target),
            0x40..=0x7F => CbOpcode::TestBit(y, target),
            0x80..=0xBF => CbOpcode::ResetBit(y, target),
            _ => CbOpcode::SetBit(y, target),
        }
    }

    /// The cost of the instruction beyond the two cycles of prefix and instruction byte.
    pub fn extra_cycles(&self) -> (r: u8)
        ensures
            r == self.extra_cycles_spec(),
            r <= 2,
    {
        match self {
            CbOpcode::TestBit(_, Operand8::Memory) => 1,
            CbOpcode::Rotate(_, Operand8::Memory) => 2,
            CbOpcode::ResetBit(_, Operand8::Memory) => 2,
            CbOpcode::SetBit(_, Operand8::Memory) => 2,
            _ => 0,
        }
    }
}

} // verus!
