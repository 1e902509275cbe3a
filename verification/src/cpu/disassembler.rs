//! A listing of the instructions in a stretch of memory.

use vstd::prelude::*;
use crate::bus::{Bus, BusView};
use crate::cpu::decoder::{decode, Alu, Opcode};

verus! {

impl Alu {
    /// The name of the operation in assembly language.
    pub open spec fn mnemonic_spec(self) -> Seq<char> {
        match self {
            Alu::Add => "ADD"@,
            Alu::Adc => "ADC"@,
            Alu::Sub => "SUB"@,
            Alu::Sbc => "SBC"@,
            Alu::And => "AND"@,
            Alu::Xor => "XOR"@,
            Alu::Or => "OR"@,
            Alu::Cp => "CP"@,
        }
    }

    /// The name of the operation in assembly language.
    pub fn mnemonic(&self) -> (r: &'static str)
        ensures
            r@ == self.mnemonic_spec(),
    {
        match self {
            Alu::Add => "ADD",
            Alu::Adc => "ADC",
            Alu::Sub => "SUB",
            Alu::Sbc => "SBC",
            Alu::And => "AND",
            Alu::Xor => "XOR",
            Alu::Or => "OR",
            Alu::Cp => "CP",
        }
    }
}

impl Opcode {
    /// The name of the instruction in assembly language, without its operands.
    pub open spec fn mnemonic_spec(self) -> Seq<char> {
        match self {
            Opcode::AluR(op, _) | Opcode::AluImm(op) | Opcode::AluMem(op) => op.mnemonic_spec(),
            Opcode::Unknown => "???"@,
            Opcode::Nop => "NOP"@,
            Opcode::CBPrefix => "PREFIX CB"@,
            Opcode::LdRR(_, _) => "LD"@,
            Opcode::LdRImm(_) => "LD"@,
            Opcode::LdRMem(_, _) => "LD"@,
            Opcode::LdMemR(_, _) => "LD"@,
            Opcode::LdMemImm(_) => "LD"@,
            Opcode::LdhRead(_, _) => "LDH"@,
            Opcode::LdhWrite(_, _) => "LDH"@,
            Opcode::Ld16RImm(_) => "LD"@,
            Opcode::Ld16MemSp => "LD"@,
            Opcode::Ld16SpHL => "LD"@,
            Opcode::Ld16HLSPSigned => "LD"@,
            Opcode::Push(_) => "PUSH"@,
            Opcode::Pop(_) => "POP"@,
            Opcode::IncR(_) => "INC"@,
            Opcode::IncMem => "INC"@,
            Opcode::DecR(_) => "DEC"@,
            Opcode::DecMem => "DEC"@,
            Opcode::Daa => "DAA"@,
            Opcode::Cpl => "CPL"@,
            Opcode::Ccf => "CCF"@,
            Opcode::Scf => "SCF"@,
            Opcode::Add16HL(_) => "ADD"@,
            Opcode::Add16SPSigned => "ADD"@,
            Opcode::Inc16R(_) => "INC"@,
            Opcode::Dec16R(_) => "DEC"@,
            Opcode::RlcA => "RLCA"@,
            Opcode::RlA => "RLA"@,
            Opcode::RrcA => "RRCA"@,
            Opcode::RrA => "RRA"@,
            Opcode::JpImm => "JP"@,
            Opcode::JpHL => "JP"@,
            Opcode::JpCond(_) => "JP"@,
            Opcode::JpRel => "JR"@,
            Opcode::JpRelCond(_) => "JR"@,
            Opcode::Call => "CALL"@,
            Opcode::CallCond(_) => "CALL"@,
            Opcode::Ret => "RET"@,
            Opcode::RetCond(_) => "RET"@,
            Opcode::Reti => "RETI"@,
            Opcode::Rst(_) => "RST"@,
            Opcode::Halt => "HALT"@,
            Opcode::Stop => "STOP"@,
            Opcode::Di => "DI"@,
            Opcode::Ei => "EI"@,
        }
    }

    /// The name of the instruction in assembly language, without its operands.
    pub fn mnemonic(&self) -> (r: &'static str)
        ensures
            r@ == self.mnemonic_spec(),
    {
        match self {
            Opcode::AluR(op, _) | Opcode::AluImm(op) | Opcode::AluMem(op) => op.mnemonic(),
            Opcode::Unknown => "???",
            Opcode::Nop => "NOP",
            Opcode::CBPrefix => "PREFIX CB",
            Opcode::LdRR(_, _) => "LD",
            Opcode::LdRImm(_) => "LD",
            Opcode::LdRMem(_, _) => "LD",
            Opcode::LdMemR(_, _) => "LD",
            Opcode::LdMemImm(_) => "LD",
            Opcode::LdhRead(_, _) => "LDH",
            Opcode::LdhWrite(_, _) => "LDH",
            Opcode::Ld16RImm(_) => "LD",
            Opcode::Ld16MemSp => "LD",
            Opcode::Ld16SpHL => "LD",
            Opcode::Ld16HLSPSigned => "LD",
            Opcode::Push(_) => "PUSH",
            Opcode::Pop(_) => "POP",
            Opcode::IncR(_) => "INC",
            Opcode::IncMem => "INC",
            Opcode::DecR(_) => "DEC",
            Opcode::DecMem => "DEC",
            Opcode::Daa => "DAA",
            Opcode::Cpl => "CPL",
            Opcode::Ccf => "CCF",
            Opcode::Scf => "SCF",
            Opcode::Add16HL(_) => "ADD",
            Opcode::Add16SPSigned => "ADD",
            Opcode::Inc16R(_) => "INC",
            Opcode::Dec16R(_) => "DEC",
            Opcode::RlcA => "RLCA",
            Opcode::RlA => "RLA",
            Opcode::RrcA => "RRCA",
            Opcode::RrA => "RRA",
            Opcode::JpImm => "JP",
            Opcode::JpHL => "JP",
            Opcode::JpCond(_) => "JP",
            Opcode::JpRel => "JR",
            Opcode::JpRelCond(_) => "JR",
            Opcode::Call => "CALL",
            Opcode::CallCond(_) => "CALL",
            Opcode::Ret => "RET",
            Opcode::RetCond(_) => "RET",
            Opcode::Reti => "RETI",
            Opcode::Rst(_) => "RST",
            Opcode::Halt => "HALT",
            Opcode::Stop => "STOP",
            Opcode::Di => "DI",
            Opcode::Ei => "EI",
        }
    }

    /// The bytes the instruction takes in memory: its own and its operands'.
    pub open spec fn length_spec(self) -> int {
        1 + self.operand_bytes()
    }

    /// The bytes the instruction takes in memory.
    pub fn length(&self) -> (r: u16)
        ensures
            r == self.length_spec(),
            1 <= r <= 3,
    {
        match self {
            Opcode::LdRImm(_) | Opcode::LdMemImm(_) | Opcode::AluImm(_) | Opcode::Add16SPSigned
            | Opcode::Ld16HLSPSigned | Opcode::JpRel | Opcode::JpRelCond(_) | Opcode::CBPrefix => 2,
            Opcode::LdhRead(_, crate::cpu::decoder::OpMemAddress8::Immediate)
            | Opcode::LdhWrite(crate::cpu::decoder::OpMemAddress8::Immediate, _) => 2,
            Opcode::LdRMem(_, crate::cpu::decoder::OpMemAddress16::Immediate)
            | Opcode::LdMemR(crate::cpu::decoder::OpMemAddress16::Immediate, _) => 3,
            Opcode::Ld16RImm(_) | Opcode::Ld16MemSp | Opcode::JpImm | Opcode::JpCond(_)
            | Opcode::Call | Opcode::CallCond(_) => 3,
            _ => 1,
        }
    }
}

/// One line of a listing: where an instruction stands and what it is.
pub struct ListedInstruction {
    pub address: u16,
    pub opcode: Opcode,
}

/// The instructions from `addr` to `end`, both included, each decoded from the
/// byte the processor reads at its address and followed by the next at the
/// address behind its operands.
pub open spec fn listing(bus: BusView, addr: int, end: int) -> Seq<ListedInstruction>
    decreases end - addr + 1,
{
    if addr > end || addr < 0 || end > 0xFFFF {
        Seq::empty()
    } else {
        let opcode = decode(bus.read(addr as u16));
        let next = addr + opcode.length_spec();
        seq![ListedInstruction { address: addr as u16, opcode }] + (if addr < next <= end {
            listing(bus, next, end)
        } else {
            Seq::empty()
        })
    }
}

/// Lists the instructions from `start` to `end`.
pub fn list_instructions(bus: &Bus, start: u16, end: u16) -> (r: Vec<ListedInstruction>)
    ensures
        r@ == listing(bus@, start as int, end as int),
{
    let mut out: Vec<ListedInstruction> = Vec::new();
    if start > end {
        assert(listing(bus@, start as int, end as int) =~= Seq::<ListedInstruction>::empty());
        return out;
    }
    let mut addr: u32 = start as u32;
    while addr <= end as u32
        invariant
            start <= addr <= end + 3,
            out@ + listing(bus@, addr as int, end as int) == listing(bus@, start as int, end as int),
        decreases end + 3 - addr,
    {
        let opcode = Opcode::from(bus.read(addr as u16));
        let ghost next = addr + opcode.length_spec();
        let ghost rest = if next <= end {
            listing(bus@, next, end as int)
        } else {
            Seq::empty()
        };
        assert(listing(bus@, addr as int, end as int) == seq![
            ListedInstruction { address: addr as u16, opcode },
        ] + rest);
        assert(next > end ==> listing(bus@, next, end as int) =~= Seq::<ListedInstruction>::empty());
        let ghost before = out@;
        out.push(ListedInstruction { address: addr as u16, opcode });
        assert(out@ + rest =~= before + (seq![ListedInstruction { address: addr as u16, opcode }]
            + rest));
        addr = addr + opcode.length() as u32;
    }
    assert(listing(bus@, addr as int, end as int) =~= Seq::<ListedInstruction>::empty());
    assert(out@ + Seq::<ListedInstruction>::empty() =~= out@);
    out
}

} // verus!
