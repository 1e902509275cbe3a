use gband::bus::Bus;
use gband::cartridge::Cartridge;
use gband::cpu::alu::{add8, daa, rotate, sub8, FlagRegister};
use gband::cpu::decoder::{CbOpcode, Opcode, Operand8, Register, RegisterPair, Rotation};
use gband::cpu::Cpu;
use gband::RomParserError;

struct MockEmulator {
    pub cpu: Cpu,
    pub bus: Bus,
}

impl MockEmulator {
    pub fn new() -> Result<Self, RomParserError> {
        let mut rom = vec![0; 0x200];
        rom[0x14d] = 231;
        let cartridge = Cartridge::load(&rom, None)?;

        let emulator = Self { cpu: Default::default(), bus: Bus::new(cartridge) };

        Ok(emulator)
    }
}

/// Executes `n` instructions and returns
fn execute_n(emu: &mut MockEmulator, n: usize) {
    for _ in 0..n {
        loop {
            // The last cycle of an instruction is also the fetch of the next one: run it
            // and go on to the next n
            if emu.cpu.cycles == 1 {
                emu.cpu.clock(&mut emu.bus);
                break;
            } else {
                emu.cpu.clock(&mut emu.bus);
            }
        }
    }
}

fn bcd(n: u8) -> u8 {
    (n / 10) * 16 + n % 10
}

#[test]
fn test_ld_rr() {
    let mut emu = MockEmulator::new().unwrap();

    emu.cpu.pc = 0xC000;
    emu.bus.wram[0] = 0x40; // B,B
    emu.bus.wram[1] = 0x41; // B,C
    emu.bus.wram[2] = 0x42; // B,D
    emu.bus.wram[3] = 0x43; // B,E
    emu.bus.wram[4] = 0x44; // B,H
    emu.bus.wram[5] = 0x45; // B,L
    emu.bus.wram[6] = 0x47; // B,A
    emu.bus.wram[7] = 0x78; // A,B
    emu.bus.wram[8] = 0x60; // H,B
    emu.bus.wram[9] = 0x6A; // L,D

    emu.cpu.b = 1;
    execute_n(&mut emu, 1);
    assert_eq!(emu.cpu.b, 1);

    emu.cpu.c = 2;
    execute_n(&mut emu, 1);
    assert_eq!(emu.cpu.b, 2);

    emu.cpu.d = 3;
    execute_n(&mut emu, 1);
    assert_eq!(emu.cpu.b, 3);

    emu.cpu.e = 4;
    execute_n(&mut emu, 1);
    assert_eq!(emu.cpu.b, 4);

    emu.cpu.h = 5;
    execute_n(&mut emu, 1);
    assert_eq!(emu.cpu.b, 5);

    emu.cpu.l = 6;
    execute_n(&mut emu, 1);
    assert_eq!(emu.cpu.b, 6);

    emu.cpu.a = 7;
    execute_n(&mut emu, 1);
    assert_eq!(emu.cpu.b, 7);

    emu.cpu.b = 20;
    execute_n(&mut emu, 1);
    assert_eq!(emu.cpu.a, 20);

    emu.cpu.b = 21;
    execute_n(&mut emu, 1);
    assert_eq!(emu.cpu.h, 21);

    emu.cpu.d = 30;
    execute_n(&mut emu, 1);
    assert_eq!(emu.cpu.l, 30);
}

#[test]
fn test_ld_r_imm() {
    let mut emu = MockEmulator::new().unwrap();

    emu.cpu.pc = 0xC000;
    emu.bus.wram[0] = 0x06; // B,n
    emu.bus.wram[1] = 1;
    emu.bus.wram[2] = 0x3E; // A,n
    emu.bus.wram[3] = 255;

    execute_n(&mut emu, 2);
    assert_eq!(emu.cpu.b, 1);
    assert_eq!(emu.cpu.a, 255);
}

#[test]
fn test_ld16_r_imm() {
    let mut emu = MockEmulator::new().unwrap();

    emu.cpu.pc = 0xC000;
    emu.bus.wram[0] = 0x01; // BC,nn
    emu.bus.wram[1] = 0x10; // lsb
    emu.bus.wram[2] = 0x20; // msb
    emu.bus.wram[3] = 0x11; // DE,nn
    emu.bus.wram[4] = 0x30; // lsb
    emu.bus.wram[5] = 0x40; // msb
    emu.bus.wram[6] = 0x21; // HL,nn
    emu.bus.wram[7] = 0x50; // lsb
    emu.bus.wram[8] = 0x60; // msb
    emu.bus.wram[9] = 0x31; // SP,nn
    emu.bus.wram[10] = 0x70; // lsb
    emu.bus.wram[11] = 0x80; // msb

    execute_n(&mut emu, 4);
    assert_eq!(emu.cpu.b, 0x20);
    assert_eq!(emu.cpu.c, 0x10);
    assert_eq!(emu.cpu.d, 0x40);
    assert_eq!(emu.cpu.e, 0x30);
    assert_eq!(emu.cpu.h, 0x60);
    assert_eq!(emu.cpu.l, 0x50);
    assert_eq!(emu.cpu.sp, 0x8070);
}

#[test]
fn test_push() {
    let mut emu = MockEmulator::new().unwrap();

    emu.cpu.pc = 0xC000;
    emu.bus.wram[0] = 0xC5; // BC

    emu.cpu.sp = 0xC500;
    emu.cpu.b = 0x10;
    emu.cpu.c = 0x20;
    execute_n(&mut emu, 1);
    assert_eq!(emu.cpu.sp, 0xC4FE);
    assert_eq!(emu.bus.wram[0x4FF], 0x10);
    assert_eq!(emu.bus.wram[0x4FE], 0x20);
}

#[test]
fn test_pop() {
    let mut emu = MockEmulator::new().unwrap();

    emu.cpu.pc = 0xC000;
    emu.bus.wram[0] = 0xC1; // BC
    emu.bus.wram[0x4FE] = 0x20;
    emu.bus.wram[0x4FF] = 0x10;

    emu.cpu.sp = 0xC4FE;
    execute_n(&mut emu, 1);
    assert_eq!(emu.cpu.sp, 0xC500);
    assert_eq!(emu.cpu.b, 0x10);
    assert_eq!(emu.cpu.c, 0x20);
}

#[test]
fn test_jump() {
    let mut emu = MockEmulator::new().unwrap();

    emu.cpu.f = FlagRegister::from_bits_truncate(0);
    emu.cpu.pc = 0xC000;
    emu.bus.wram[0] = 0xC3; // jp immediate
    emu.bus.wram[1] = 0x00;
    emu.bus.wram[2] = 0xD0;
    emu.bus.wram[0x1000] = 0xCA; // jp zero (fail)
    emu.bus.wram[0x1001] = 0x50;
    emu.bus.wram[0x1002] = 0xD0;
    emu.bus.wram[0x1003] = 0xC2; // jp non-zero
    emu.bus.wram[0x1004] = 0x50;
    emu.bus.wram[0x1005] = 0xD0;
    emu.bus.wram[0x1050] = 0x18; // jp relative
    emu.bus.wram[0x1051] = 0xEE; // -0x12 when signed, pc will be 0x1052 after this
    emu.bus.wram[0x1040] = 0x20; // jp relative non-zero
    emu.bus.wram[0x1041] = 0x1E;

    execute_n(&mut emu, 1);
    assert_eq!(emu.cpu.pc, 0xD000 + 1); // +1 because the next fetch has happened

    execute_n(&mut emu, 1);
    assert_eq!(emu.cpu.pc, 0xD003 + 1);

    execute_n(&mut emu, 1);
    assert_eq!(emu.cpu.pc, 0xD050 + 1);

    execute_n(&mut emu, 1);
    assert_eq!(emu.cpu.pc, 0xD040 + 1);

    execute_n(&mut emu, 1);
    assert_eq!(emu.cpu.pc, 0xD060 + 1);
}

#[test]
fn default_cpu_is_zeroed() {
    let cpu = Cpu::default();
    assert_eq!(cpu.pc, 0);
    assert_eq!(cpu.sp, 0);
    assert_eq!(cpu.cycles, 0);
    assert_eq!(cpu.f.bits(), 0);
    assert!(!cpu.ime && !cpu.halted && !cpu.ei_pending);
    assert!(matches!(cpu.opcode_latch, Opcode::Unknown));
}

#[test]
fn daa_adds_packed_decimals() {
    for a in 0..100u8 {
        for b in 0..100u8 {
            let sum = add8(bcd(a), bcd(b), false);
            let r = daa(sum.value, sum.flags);
            assert_eq!(r.value, bcd((a + b) % 100), "{a} + {b}");
            assert_eq!(r.flags.c, a + b >= 100, "{a} + {b}");
            assert!(!r.flags.h);
        }
    }
}

#[test]
fn daa_subtracts_packed_decimals() {
    for a in 0..100u8 {
        for b in 0..100u8 {
            let diff = sub8(bcd(a), bcd(b), false);
            let r = daa(diff.value, diff.flags);
            assert_eq!(r.value, bcd((100 + a - b) % 100), "{a} - {b}");
            assert_eq!(r.flags.c, a < b, "{a} - {b}");
        }
    }
}

#[test]
fn daa_example_values() {
    // 0x15 + 0x27 = 0x3C, adjusted to 0x42
    let sum = add8(0x15, 0x27, false);
    assert_eq!(sum.value, 0x3C);
    let r = daa(sum.value, sum.flags);
    assert_eq!(r.value, 0x42);
    assert!(!r.flags.c);
    // 0x99 + 0x01 = 0x9A, adjusted to 0x00 with carry
    let sum = add8(0x99, 0x01, false);
    let r = daa(sum.value, sum.flags);
    assert_eq!(r.value, 0x00);
    assert!(r.flags.c && r.flags.z);
}

#[test]
fn half_carry_on_inc() {
    let mut emu = MockEmulator::new().unwrap();
    emu.cpu.pc = 0xC000;
    emu.cpu.f = FlagRegister { z: false, n: true, h: false, c: true };
    emu.bus.wram[0] = 0x3E; // LD A,0x0F
    emu.bus.wram[1] = 0x0F;
    emu.bus.wram[2] = 0x3C; // INC A
    emu.bus.wram[3] = 0x3E; // LD A,0xFF
    emu.bus.wram[4] = 0xFF;
    emu.bus.wram[5] = 0x3C; // INC A

    execute_n(&mut emu, 2);
    assert_eq!(emu.cpu.a, 0x10);
    assert!(emu.cpu.f.h && !emu.cpu.f.z && !emu.cpu.f.n);
    assert!(emu.cpu.f.c);

    execute_n(&mut emu, 2);
    assert_eq!(emu.cpu.a, 0x00);
    assert!(emu.cpu.f.h && emu.cpu.f.z && !emu.cpu.f.n);
    assert!(emu.cpu.f.c);
}

#[test]
fn inc_leaves_a_clear_carry_clear() {
    let mut emu = MockEmulator::new().unwrap();
    emu.cpu.pc = 0xC000;
    emu.cpu.a = 0xFF;
    emu.bus.wram[0] = 0x3C; // INC A
    execute_n(&mut emu, 1);
    assert!(emu.cpu.f.z && emu.cpu.f.h && !emu.cpu.f.c);
}

#[test]
fn push_pop_round_trip() {
    for opcode in [(0xC5u8, 0xC1u8), (0xD5, 0xD1), (0xE5, 0xE1), (0xF5, 0xF1)] {
        let mut emu = MockEmulator::new().unwrap();
        emu.cpu.pc = 0xC000;
        emu.cpu.sp = 0xD000;
        emu.cpu.a = 0x12;
        emu.cpu.f = FlagRegister::from_bits_truncate(0xB0);
        emu.cpu.b = 0x34;
        emu.cpu.c = 0x56;
        emu.cpu.d = 0x78;
        emu.cpu.e = 0x9A;
        emu.cpu.h = 0xBC;
        emu.cpu.l = 0xDE;
        emu.bus.wram[0] = opcode.0;
        emu.bus.wram[1] = opcode.1;
        execute_n(&mut emu, 2);
        assert_eq!(emu.cpu.sp, 0xD000);
        assert_eq!(emu.cpu.get_register_pair(RegisterPair::AF), 0x12B0);
        assert_eq!(emu.cpu.get_register_pair(RegisterPair::BC), 0x3456);
        assert_eq!(emu.cpu.get_register_pair(RegisterPair::DE), 0x789A);
        assert_eq!(emu.cpu.get_register_pair(RegisterPair::HL), 0xBCDE);
    }
}

#[test]
fn pop_af_clears_low_nibble() {
    let mut emu = MockEmulator::new().unwrap();
    emu.cpu.pc = 0xC000;
    emu.cpu.sp = 0xC100;
    emu.bus.wram[0] = 0xF1; // POP AF
    emu.bus.wram[0x100] = 0xFF;
    emu.bus.wram[0x101] = 0x42;
    execute_n(&mut emu, 1);
    assert_eq!(emu.cpu.a, 0x42);
    assert_eq!(emu.cpu.f.bits(), 0xF0);
    assert_eq!(emu.cpu.get_register_pair(RegisterPair::AF), 0x42F0);
}

#[test]
fn jr_minus_two_stays_in_place() {
    let mut emu = MockEmulator::new().unwrap();
    emu.cpu.pc = 0xC000;
    emu.bus.wram[0] = 0x18; // JR -2
    emu.bus.wram[1] = 0xFE;
    // the first clock fetches; from there on each instruction takes three cycles
    emu.cpu.clock(&mut emu.bus);
    assert_eq!(emu.cpu.pc, 0xC001);
    assert_eq!(emu.cpu.cycles, 3);
    for _ in 0..10 {
        // the instruction is executed on the first of its cycles
        for left in [2u8, 1] {
            emu.cpu.clock(&mut emu.bus);
            assert_eq!(emu.cpu.cycles, left);
            assert_eq!(emu.cpu.pc, 0xC000);
            assert!(matches!(emu.cpu.opcode_latch, Opcode::Unknown));
        }
        emu.cpu.clock(&mut emu.bus);
        assert_eq!(emu.cpu.cycles, 3);
        assert_eq!(emu.cpu.pc, 0xC001);
        assert!(matches!(emu.cpu.opcode_latch, Opcode::JpRel));
    }
}

/// Runs the processor from one fetch to the next and counts the machine cycles.
fn cycles_to_next_fetch(emu: &mut MockEmulator) -> u8 {
    let mut count = 0;
    loop {
        emu.cpu.clock(&mut emu.bus);
        count += 1;
        if !matches!(emu.cpu.opcode_latch, Opcode::Unknown) {
            return count;
        }
        assert!(count < 20);
    }
}

#[test]
fn cycles_between_fetches_match_the_cost_table() {
    // opcode bytes with their operands, the nominal cost, and the machine cycles they take
    let cases: [(&[u8], u8, u8); 12] = [
        (&[0x00], 1, 1),
        (&[0x06, 0x01], 2, 2),
        (&[0x01, 0x00, 0x00], 3, 3),
        (&[0xEA, 0x00, 0xC1], 4, 4),
        (&[0x08, 0x00, 0xC1], 5, 5),
        (&[0xCD, 0x10, 0xC0], 6, 6),
        (&[0xC5], 4, 4),
        (&[0xC1], 3, 3),
        (&[0x34], 3, 3),
        (&[0xE8, 0x01], 4, 4),
        (&[0xCB, 0x00], 2, 2),
        (&[0xCB, 0x06], 2, 4),
    ];
    for (bytes, nominal, cost) in cases {
        let mut emu = MockEmulator::new().unwrap();
        emu.cpu.pc = 0xC000;
        emu.cpu.sp = 0xDFF0;
        emu.cpu.h = 0xC2;
        for (i, b) in bytes.iter().enumerate() {
            emu.bus.wram[i] = *b;
        }
        emu.cpu.clock(&mut emu.bus);
        // the fetch leaves the nominal cost on the counter
        assert_eq!(emu.cpu.cycles, nominal, "{:02x?}", bytes);
        assert_eq!(emu.cpu.cycles, emu.cpu.opcode_latch.cycles());
        assert_eq!(cycles_to_next_fetch(&mut emu), cost, "{:02x?}", bytes);
    }
}

#[test]
fn taken_branches_cost_more() {
    // (opcode, flags byte, nominal cost, cycles)
    let cases = [
        (0xC2u8, 0x00u8, 3u8, 4u8), // JP NZ taken
        (0xC2, 0x80, 3, 3),         // JP NZ not taken
        (0x20, 0x00, 2, 3),         // JR NZ taken
        (0x20, 0x80, 2, 2),
        (0xC4, 0x00, 3, 6), // CALL NZ taken
        (0xC4, 0x80, 3, 3),
        (0xC0, 0x00, 2, 5), // RET NZ taken
        (0xC0, 0x80, 2, 2),
        (0xD8, 0x10, 2, 5), // RET C taken
        (0xD8, 0x00, 2, 2),
    ];
    for (opcode, flags, nominal, cost) in cases {
        let mut emu = MockEmulator::new().unwrap();
        emu.cpu.pc = 0xC000;
        emu.cpu.sp = 0xDFF0;
        emu.cpu.f = FlagRegister::from_bits_truncate(flags);
        emu.bus.wram[0] = opcode;
        emu.cpu.clock(&mut emu.bus);
        assert_eq!(emu.cpu.cycles, nominal, "{opcode:02x}");
        // the cost of the branch taken is added as the instruction is executed
        emu.cpu.clock(&mut emu.bus);
        assert_eq!(emu.cpu.cycles, cost - 1, "{opcode:02x}");
        if cost > 1 {
            assert!(matches!(emu.cpu.opcode_latch, Opcode::Unknown));
            assert_eq!(1 + cycles_to_next_fetch(&mut emu), cost, "{opcode:02x}");
        }
    }
}

#[test]
fn alu_flags() {
    let mut cpu = Cpu::default();
    cpu.a = 0x3A;
    cpu.run_alu(gband::cpu::Alu::Add, 0xC6);
    assert_eq!(cpu.a, 0x00);
    assert_eq!(cpu.f.bits(), 0xB0); // Z, H, C

    cpu.a = 0x3E;
    cpu.f = FlagRegister::empty();
    cpu.run_alu(gband::cpu::Alu::Sub, 0x0F);
    assert_eq!(cpu.a, 0x2F);
    assert_eq!(cpu.f.bits(), 0x60); // N, H

    cpu.a = 0x3C;
    cpu.run_alu(gband::cpu::Alu::Cp, 0x40);
    assert_eq!(cpu.a, 0x3C);
    assert_eq!(cpu.f.bits(), 0x50); // N, C

    cpu.a = 0xE1;
    cpu.f = FlagRegister::from_bits_truncate(0x10);
    cpu.run_alu(gband::cpu::Alu::Adc, 0x1E);
    assert_eq!(cpu.a, 0x00);
    assert_eq!(cpu.f.bits(), 0xB0);

    cpu.a = 0x3B;
    cpu.f = FlagRegister::from_bits_truncate(0x10);
    cpu.run_alu(gband::cpu::Alu::Sbc, 0x4F);
    assert_eq!(cpu.a, 0xEB);
    assert_eq!(cpu.f.bits(), 0x70);

    cpu.a = 0x5A;
    cpu.run_alu(gband::cpu::Alu::And, 0x3F);
    assert_eq!(cpu.a, 0x1A);
    assert_eq!(cpu.f.bits(), 0x20);

    cpu.a = 0xFF;
    cpu.run_alu(gband::cpu::Alu::Xor, 0xFF);
    assert_eq!(cpu.a, 0x00);
    assert_eq!(cpu.f.bits(), 0x80);

    cpu.a = 0x5A;
    cpu.run_alu(gband::cpu::Alu::Or, 0x0F);
    assert_eq!(cpu.a, 0x5F);
    assert_eq!(cpu.f.bits(), 0x00);
}

#[test]
fn add_hl_and_add_sp_flags() {
    let mut emu = MockEmulator::new().unwrap();
    emu.cpu.pc = 0xC000;
    emu.cpu.h = 0x8A;
    emu.cpu.l = 0x23;
    emu.cpu.b = 0x06;
    emu.cpu.c = 0x05;
    emu.cpu.f = FlagRegister::from_bits_truncate(0x80);
    emu.bus.wram[0] = 0x09; // ADD HL,BC
    emu.bus.wram[1] = 0x29; // ADD HL,HL
    execute_n(&mut emu, 1);
    assert_eq!(emu.cpu.get_register_pair(RegisterPair::HL), 0x9028);
    assert_eq!(emu.cpu.f.bits(), 0xA0); // Z kept, H set
    emu.cpu.h = 0x8A;
    emu.cpu.l = 0x23;
    execute_n(&mut emu, 1);
    assert_eq!(emu.cpu.get_register_pair(RegisterPair::HL), 0x1446);
    assert_eq!(emu.cpu.f.bits(), 0xB0);

    let mut emu = MockEmulator::new().unwrap();
    emu.cpu.pc = 0xC000;
    emu.cpu.sp = 0xFFF8;
    emu.bus.wram[0] = 0xE8; // ADD SP,2
    emu.bus.wram[1] = 0x02;
    emu.bus.wram[2] = 0xF8; // LD HL,SP-1
    emu.bus.wram[3] = 0xFF;
    execute_n(&mut emu, 1);
    assert_eq!(emu.cpu.sp, 0xFFFA);
    assert_eq!(emu.cpu.f.bits(), 0x00);
    execute_n(&mut emu, 1);
    assert_eq!(emu.cpu.get_register_pair(RegisterPair::HL), 0xFFF9);
    assert_eq!(emu.cpu.f.bits(), 0x30);
}

#[test]
fn accumulator_rotations_clear_z() {
    let mut emu = MockEmulator::new().unwrap();
    emu.cpu.pc = 0xC000;
    emu.cpu.a = 0x00;
    emu.cpu.f = FlagRegister::from_bits_truncate(0x80);
    emu.bus.wram[0] = 0x07; // RLCA
    emu.bus.wram[1] = 0x17; // RLA
    emu.bus.wram[2] = 0xCB; // RLC A
    emu.bus.wram[3] = 0x07;
    execute_n(&mut emu, 1);
    assert_eq!(emu.cpu.a, 0);
    assert_eq!(emu.cpu.f.bits(), 0x00);
    emu.cpu.a = 0x80;
    execute_n(&mut emu, 1);
    assert_eq!(emu.cpu.a, 0x00);
    assert_eq!(emu.cpu.f.bits(), 0x10);
    emu.cpu.a = 0x00;
    execute_n(&mut emu, 1);
    assert_eq!(emu.cpu.f.bits(), 0x80);
}

#[test]
fn rotations_and_shifts() {
    let r = rotate(Rotation::Rlc, 0x85, false);
    assert_eq!((r.value, r.flags.c), (0x0B, true));
    let r = rotate(Rotation::Rrc, 0x01, false);
    assert_eq!((r.value, r.flags.c), (0x80, true));
    let r = rotate(Rotation::Rl, 0x80, false);
    assert_eq!((r.value, r.flags.c, r.flags.z), (0x00, true, true));
    let r = rotate(Rotation::Rl, 0x11, true);
    assert_eq!((r.value, r.flags.c), (0x23, false));
    let r = rotate(Rotation::Rr, 0x01, false);
    assert_eq!((r.value, r.flags.c, r.flags.z), (0x00, true, true));
    let r = rotate(Rotation::Rr, 0x8A, true);
    assert_eq!((r.value, r.flags.c), (0xC5, false));
    let r = rotate(Rotation::Sla, 0xFF, false);
    assert_eq!((r.value, r.flags.c), (0xFE, true));
    let r = rotate(Rotation::Sra, 0x8A, false);
    assert_eq!((r.value, r.flags.c), (0xC5, false));
    let r = rotate(Rotation::Srl, 0xFF, false);
    assert_eq!((r.value, r.flags.c), (0x7F, true));
    let r = rotate(Rotation::Swap, 0xF1, true);
    assert_eq!((r.value, r.flags.c), (0x1F, false));
}

#[test]
fn bit_instructions() {
    let mut emu = MockEmulator::new().unwrap();
    emu.cpu.pc = 0xC000;
    emu.cpu.h = 0xC1;
    emu.cpu.l = 0x00;
    emu.cpu.a = 0x80;
    emu.bus.wram[0x100] = 0x0F;
    let program = [
        0xCB, 0x7F, // BIT 7,A
        0xCB, 0x47, // BIT 0,A
        0xCB, 0xC7, // SET 0,A
        0xCB, 0xBF, // RES 7,A
        0xCB, 0xDE, // SET 3,(HL)
        0xCB, 0x86, // RES 0,(HL)
        0xCB, 0xFE, // SET 7,(HL)
    ];
    for (i, b) in program.iter().enumerate() {
        emu.bus.wram[i] = *b;
    }
    execute_n(&mut emu, 1);
    assert!(!emu.cpu.f.z && emu.cpu.f.h && !emu.cpu.f.n);
    execute_n(&mut emu, 1);
    assert!(emu.cpu.f.z);
    execute_n(&mut emu, 2);
    assert_eq!(emu.cpu.a, 0x01);
    execute_n(&mut emu, 3);
    assert_eq!(emu.bus.wram[0x100], 0x8E);
}

#[test]
fn decoder_tables() {
    assert!(matches!(Opcode::from(0x00), Opcode::Nop));
    assert!(matches!(Opcode::from(0x76), Opcode::Halt));
    assert!(matches!(Opcode::from(0x41), Opcode::LdRR(Register::B, Register::C)));
    assert!(matches!(Opcode::from(0xF5), Opcode::Push(RegisterPair::AF)));
    assert!(matches!(Opcode::from(0xF1), Opcode::Pop(RegisterPair::AF)));
    assert!(matches!(Opcode::from(0x31), Opcode::Ld16RImm(RegisterPair::SP)));
    assert!(matches!(Opcode::from(0xFF), Opcode::Rst(0x38)));
    assert!(matches!(Opcode::from(0xCB), Opcode::CBPrefix));
    for byte in [0xD3u8, 0xDB, 0xDD, 0xE3, 0xE4, 0xEB, 0xEC, 0xED, 0xF4, 0xFC, 0xFD] {
        assert!(matches!(Opcode::from(byte), Opcode::Unknown));
        assert_eq!(Opcode::from(byte).cycles(), 1);
    }
    let unknown = (0..=255u8).filter(|b| matches!(Opcode::from(*b), Opcode::Unknown)).count();
    assert_eq!(unknown, 11);
    assert!(matches!(CbOpcode::decode(0x00), CbOpcode::Rotate(Rotation::Rlc, Operand8::Register(Register::B))));
    assert!(matches!(CbOpcode::decode(0x46), CbOpcode::TestBit(0, Operand8::Memory)));
    assert!(matches!(CbOpcode::decode(0xBF), CbOpcode::ResetBit(7, Operand8::Register(Register::A))));
    assert!(matches!(CbOpcode::decode(0xC0), CbOpcode::SetBit(0, Operand8::Register(Register::B))));
    assert_eq!(CbOpcode::decode(0x46).extra_cycles(), 1);
    assert_eq!(CbOpcode::decode(0x06).extra_cycles(), 2);
    assert_eq!(CbOpcode::decode(0x07).extra_cycles(), 0);
}

#[test]
fn unknown_opcodes_do_nothing() {
    let mut emu = MockEmulator::new().unwrap();
    emu.cpu.pc = 0xC000;
    emu.cpu.sp = 0xD000;
    emu.bus.wram[0] = 0xD3;
    emu.bus.wram[1] = 0xFD;
    let before = emu.cpu;
    execute_n(&mut emu, 2);
    assert_eq!(emu.cpu.pc, 0xC003);
    assert_eq!(emu.cpu.sp, before.sp);
    assert_eq!(emu.cpu.a, before.a);
    assert_eq!(emu.cpu.f.bits(), before.f.bits());
}

#[test]
fn ei_takes_effect_one_instruction_late() {
    let mut emu = MockEmulator::new().unwrap();
    emu.cpu.pc = 0xC000;
    emu.cpu.sp = 0xD000;
    emu.bus.wram[0] = 0xFB; // EI
    emu.bus.wram[1] = 0x00; // NOP
    emu.bus.wram[2] = 0x00; // NOP
    emu.bus.write(0xFFFF, 0x04);
    emu.bus.write(0xFF0F, 0x04);
    execute_n(&mut emu, 1);
    assert!(!emu.cpu.ime);
    // the instruction after EI runs; after it the interrupt is served
    execute_n(&mut emu, 1);
    assert_eq!(emu.cpu.pc, 0x0050);
    assert!(!emu.cpu.ime);
    assert_eq!(emu.cpu.cycles, 5);
    assert_eq!(emu.bus.read(0xFF0F) & 0x1F, 0x00);
    // the address of the next instruction was pushed
    assert_eq!(emu.bus.read(0xCFFE), 0x02);
    assert_eq!(emu.bus.read(0xCFFF), 0xC0);
}

#[test]
fn di_cancels_a_pending_ei() {
    let mut emu = MockEmulator::new().unwrap();
    emu.cpu.pc = 0xC000;
    emu.bus.wram[0] = 0xFB; // EI
    emu.bus.wram[1] = 0xF3; // DI
    execute_n(&mut emu, 3);
    assert!(!emu.cpu.ime);
}

#[test]
fn reti_enables_interrupts_at_once() {
    let mut emu = MockEmulator::new().unwrap();
    emu.cpu.pc = 0xC000;
    emu.cpu.sp = 0xC100;
    emu.bus.wram[0] = 0xD9; // RETI
    emu.bus.wram[0x100] = 0x34;
    emu.bus.wram[0x101] = 0xC2;
    execute_n(&mut emu, 1);
    assert!(emu.cpu.ime);
    assert_eq!(emu.cpu.pc, 0xC235);
}

#[test]
fn halt_waits_for_an_interrupt() {
    let mut emu = MockEmulator::new().unwrap();
    emu.cpu.pc = 0xC000;
    emu.bus.wram[0] = 0x76; // HALT
    emu.bus.wram[1] = 0x3C; // INC A
    emu.bus.write(0xFFFF, 0x01);
    emu.bus.write(0xFF0F, 0x00);
    execute_n(&mut emu, 1);
    assert!(emu.cpu.halted);
    for _ in 0..20 {
        emu.cpu.clock(&mut emu.bus);
    }
    assert!(emu.cpu.halted);
    assert_eq!(emu.cpu.pc, 0xC001);
    // with IME clear the processor wakes and goes on without serving
    emu.bus.write(0xFF0F, 0x01);
    emu.cpu.clock(&mut emu.bus);
    assert!(!emu.cpu.halted);
    assert_eq!(emu.cpu.pc, 0xC002);
    execute_n(&mut emu, 1);
    assert_eq!(emu.cpu.a, 1);
    assert_eq!(emu.bus.read(0xFF0F) & 0x01, 0x01);
}

#[test]
fn interrupts_are_served_in_priority_order() {
    let mut emu = MockEmulator::new().unwrap();
    emu.cpu.pc = 0xC000;
    emu.cpu.sp = 0xD000;
    emu.cpu.ime = true;
    emu.bus.write(0xFFFF, 0x1F);
    emu.bus.write(0xFF0F, 0x12); // LCD_STAT and JOYPAD
    emu.cpu.clock(&mut emu.bus);
    assert_eq!(emu.cpu.pc, 0x0048);
    assert_eq!(emu.bus.read(0xFF0F), 0xF0);
    assert!(!emu.cpu.ime);
}
