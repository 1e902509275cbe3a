//! The arithmetic of the processor, stated over integers: every operation gives a
//! byte and the four flags.

use vstd::prelude::*;

verus! {

/// The flag register F. Only its upper four bits exist; the lower four read as zero.
#[derive(Clone, Copy, Debug, PartialEq, Eq, Structural)]
pub struct FlagRegister {
    /// Z, bit 7: the result was zero.
    pub z: bool,
    /// N, bit 6: the operation was a subtraction.
    pub n: bool,
    /// H, bit 5: carry or borrow between the nibbles.
    pub h: bool,
    /// C, bit 4: carry or borrow out of the byte.
    pub c: bool,
}

/// 1 for a set flag, 0 for a clear one.
pub open spec fn flag_bit(flag: bool) -> int {
    if flag {
        1
    } else {
        0
    }
}

impl FlagRegister {
    /// All four flags clear.
    pub open spec fn empty_spec() -> FlagRegister {
        FlagRegister { z: false, n: false, h: false, c: false }
    }

    /// The byte that F reads as.
    pub open spec fn bits_spec(self) -> u8 {
        (128 * flag_bit(self.z) + 64 * flag_bit(self.n) + 32 * flag_bit(self.h) + 16 * flag_bit(
            self.c,
        )) as u8
    }

    /// The flags that a byte written to F leaves: its lower four bits are lost.
    pub open spec fn from_bits_spec(byte: u8) -> FlagRegister {
        FlagRegister {
            z: byte / 128 == 1,
            n: (byte / 64) % 2 == 1,
            h: (byte / 32) % 2 == 1,
            c: (byte / 16) % 2 == 1,
        }
    }

    /// All four flags clear.
    pub fn empty() -> (r: FlagRegister)
        ensures
            r == FlagRegister::empty_spec(),
    {
        FlagRegister { z: false, n: false, h: false, c: false }
    }

    /// The byte that F reads as. Its lower nibble is zero.
    pub fn bits(&self) -> (r: u8)
        ensures
            r == self.bits_spec(),
            r % 16 == 0,
    {
        let mut r: u8 = 0;
        if self.z {
            r = r + 0x80;
        }
        if self.n {
            r = r + 0x40;
        }
        if self.h {
            r = r + 0x20;
        }
        if self.c {
            r = r + 0x10;
        }
        r
    }

    /// The flags held in the upper nibble of `byte`.
    pub fn from_bits_truncate(byte: u8) -> (r: FlagRegister)
        ensures
            r == FlagRegister::from_bits_spec(byte),
    {
        FlagRegister {
            z: byte / 128 == 1,
            n: (byte / 64) % 2 == 1,
            h: (byte / 32) % 2 == 1,
            c: (byte / 16) % 2 == 1,
        }
    }
}

/// What an 8-bit operation gives: the result byte and the flags after it.
#[derive(Clone, Copy, Debug, PartialEq, Eq, Structural)]
pub struct AluResult {
    pub value: u8,
    pub flags: FlagRegister,
}

/// `a + v + carry`: ADD with the carry clear, ADC with the carry flag.
pub open spec fn add8_spec(a: u8, v: u8, carry: bool) -> AluResult {
    let sum = a + v + flag_bit(carry);
    AluResult {
        value: (sum % 256) as u8,
        flags: FlagRegister {
            z: sum % 256 == 0,
            n: false,
            h: a % 16 + v % 16 + flag_bit(carry) > 15,
            c: sum > 255,
        },
    }
}

/// `a - v - carry`: SUB and CP with the carry clear, SBC with the carry flag.
pub open spec fn sub8_spec(a: u8, v: u8, carry: bool) -> AluResult {
    let diff = a - v - flag_bit(carry);
    AluResult {
        value: (diff % 256) as u8,
        flags: FlagRegister {
            z: diff % 256 == 0,
            n: true,
            h: a % 16 < v % 16 + flag_bit(carry),
            c: diff < 0,
        },
    }
}

/// AND: H is set, N and C are clear.
pub open spec fn and8_spec(a: u8, v: u8) -> AluResult {
    AluResult { value: a & v, flags: FlagRegister { z: a & v == 0, n: false, h: true, c: false } }
}

/// XOR: N, H and C are clear.
pub open spec fn xor8_spec(a: u8, v: u8) -> AluResult {
    AluResult { value: a ^ v, flags: FlagRegister { z: a ^ v == 0, n: false, h: false, c: false } }
}

/// OR: N, H and C are clear.
pub open spec fn or8_spec(a: u8, v: u8) -> AluResult {
    AluResult { value: a | v, flags: FlagRegister { z: a | v == 0, n: false, h: false, c: false } }
}

/// INC: the carry flag stays as it was.
pub open spec fn inc8_spec(v: u8, flags: FlagRegister) -> AluResult {
    AluResult {
        value: ((v + 1) % 256) as u8,
        flags: FlagRegister { z: v == 255, n: false, h: v % 16 == 15, c: flags.c },
    }
}

/// DEC: the carry flag stays as it was.
pub open spec fn dec8_spec(v: u8, flags: FlagRegister) -> AluResult {
    AluResult {
        value: ((v - 1) % 256) as u8,
        flags: FlagRegister { z: v == 1, n: true, h: v % 16 == 0, c: flags.c },
    }
}

/// What DAA adds to the accumulator after an addition, or takes from it after a
/// subtraction: 0x06 to mend the low digit, 0x60 to mend the high one.
pub open spec fn daa_adjustment(a: u8, flags: FlagRegister) -> int {
    if flags.n {
        flag_bit(flags.h) * 0x06 + flag_bit(flags.c) * 0x60
    } else {
        flag_bit(flags.h || a % 16 > 9) * 0x06 + flag_bit(flags.c || a > 0x99) * 0x60
    }
}

/// DAA: turns the accumulator into packed decimal after an addition or a
/// subtraction of packed decimals.
pub open spec fn daa_spec(a: u8, flags: FlagRegister) -> AluResult {
    let adjustment = daa_adjustment(a, flags);
    let result = if flags.n {
        (a - adjustment) % 256
    } else {
        (a + adjustment) % 256
    };
    AluResult {
        value: result as u8,
        flags: FlagRegister { z: result == 0, n: flags.n, h: false, c: adjustment >= 0x60 },
    }
}

/// ADD HL,rr: Z stays as it was.
pub open spec fn add16_spec(hl: u16, v: u16, flags: FlagRegister) -> (u16, FlagRegister) {
    (
        ((hl + v) % 0x10000) as u16,
        FlagRegister { z: flags.z, n: false, h: hl % 0x1000 + v % 0x1000 > 0xFFF, c: hl + v > 0xFFFF },
    )
}

/// The value of a byte read as a signed number.
pub open spec fn signed(e: u8) -> int {
    if e < 128 {
        e as int
    } else {
        e - 256
    }
}

/// ADD SP,e and LD HL,SP+e: the byte `e` is signed, while H and C come from adding
/// it unsigned to the low byte of SP.
pub open spec fn add_sp_spec(sp: u16, e: u8) -> (u16, FlagRegister) {
    (
        ((sp + signed(e)) % 0x10000) as u16,
        FlagRegister { z: false, n: false, h: sp % 16 + e % 16 > 15, c: sp % 256 + e > 255 },
    )
}

/// `pc + e` for a relative jump.
pub open spec fn relative_target(pc: u16, e: u8) -> u16 {
    ((pc + signed(e)) % 0x10000) as u16
}

/// Adds `v` and the carry to `a`.
pub fn add8(a: u8, v: u8, carry: bool) -> (r: AluResult)
    ensures
        r == add8_spec(a, v, carry),
{
    let c: u8 = if carry {
        1
    } else {
        0
    };
    let sum: u16 = a as u16 + v as u16 + c as u16;
    let value: u8 = if sum > 255 {
        (sum - 256) as u8
    } else {
        sum as u8
    };
    AluResult {
        value,
        flags: FlagRegister { z: value == 0, n: false, h: (a % 16) + (v % 16) + c > 15, c: sum > 255 },
    }
}

/// Subtracts `v` and the carry from `a`.
pub fn sub8(a: u8, v: u8, carry: bool) -> (r: AluResult)
    ensures
        r == sub8_spec(a, v, carry),
{
    let c: u8 = if carry {
        1
    } else {
        0
    };
    let borrow: bool = (a as u16) < v as u16 + c as u16;
    let value: u8 = a.wrapping_sub(v).wrapping_sub(c);
    AluResult {
        value,
        flags: FlagRegister { z: value == 0, n: true, h: (a % 16) < (v % 16) + c, c: borrow },
    }
}

/// ANDs `a` with `v`.
pub fn and8(a: u8, v: u8) -> (r: AluResult)
    ensures
        r == and8_spec(a, v),
{
    let value: u8 = a & v;
    AluResult { value, flags: FlagRegister { z: value == 0, n: false, h: true, c: false } }
}

/// XORs `a` with `v`.
pub fn xor8(a: u8, v: u8) -> (r: AluResult)
    ensures
        r == xor8_spec(a, v),
{
    let value: u8 = a ^ v;
    AluResult { value, flags: FlagRegister { z: value == 0, n: false, h: false, c: false } }
}

/// ORs `a` with `v`.
pub fn or8(a: u8, v: u8) -> (r: AluResult)
    ensures
        r == or8_spec(a, v),
{
    let value: u8 = a | v;
    AluResult { value, flags: FlagRegister { z: value == 0, n: false, h: false, c: false } }
}

/// Adds one to `v`.
pub fn inc8(v: u8, flags: FlagRegister) -> (r: AluResult)
    ensures
        r == inc8_spec(v, flags),
{
    let value: u8 = v.wrapping_add(1);
    AluResult {
        value,
        flags: FlagRegister { z: value == 0, n: false, h: v % 16 == 15, c: flags.c },
    }
}

/// Takes one from `v`.
pub fn dec8(v: u8, flags: FlagRegister) -> (r: AluResult)
    ensures
        r == dec8_spec(v, flags),
{
    let value: u8 = v.wrapping_sub(1);
    AluResult { value, flags: FlagRegister { z: value == 0, n: true, h: v % 16 == 0, c: flags.c } }
}

/// Adjusts the accumulator to packed decimal.
pub fn daa(a: u8, flags: FlagRegister) -> (r: AluResult)
    ensures
        r == daa_spec(a, flags),
{
    let mut adjustment: u8 = 0;
    if flags.h || (!flags.n && a % 16 > 9) {
        adjustment = adjustment + 0x06;
    }
    if flags.c || (!flags.n && a > 0x99) {
        adjustment = adjustment + 0x60;
    }
    let value: u8 = if flags.n {
        a.wrapping_sub(adjustment)
    } else {
        a.wrapping_add(adjustment)
    };
    AluResult {
        value,
        flags: FlagRegister { z: value == 0, n: flags.n, h: false, c: adjustment >= 0x60 },
    }
}

/// Adds `v` to `hl`.
pub fn add16(hl: u16, v: u16, flags: FlagRegister) -> (r: (u16, FlagRegister))
    ensures
        r == add16_spec(hl, v, flags),
{
    let value: u16 = hl.wrapping_add(v);
    (
        value,
        FlagRegister {
            z: flags.z,
            n: false,
            h: (hl % 0x1000) + (v % 0x1000) > 0xFFF,
            c: hl as u32 + v as u32 > 0xFFFF,
        },
    )
}

/// Adds a signed byte to a 16-bit value, wrapping at both ends.
pub fn offset16(base: u16, e: u8) -> (r: u16)
    ensures
        r == relative_target(base, e),
{
    if e < 128 {
        base.wrapping_add(e as u16)
    } else {
        base.wrapping_sub(256 - e as u16)
    }
}

/// Adds the signed byte `e` to `sp`.
pub fn add_sp(sp: u16, e: u8) -> (r: (u16, FlagRegister))
    ensures
        r == add_sp_spec(sp, e),
{
    (
        offset16(sp, e),
        FlagRegister {
            z: false,
            n: false,
            h: (sp % 16) + (e as u16 % 16) > 15,
            c: (sp % 256) + e as u16 > 255,
        },
    )
}

} // verus!

verus! {

use crate::bits::{bit_is_set, bit_weight, lemma_clear_bit_leaves_room, weight_of_bit};
use vstd::arithmetic::div_mod::lemma_fundamental_div_mod_converse;
use crate::cpu::decoder::Rotation;

/// The byte a rotation or shift leaves, and the bit that falls out of it.
/// RLC and RRC turn the byte round on itself; RL and RR turn it through the carry
/// flag; SLA, SRA and SRL shift, SRA keeping the sign bit; SWAP exchanges the nibbles.
pub open spec fn rotated(kind: Rotation, v: u8, carry: bool) -> (int, bool) {
    match kind {
        Rotation::Rlc => ((v * 2) % 256 + v / 128, v >= 128),
        Rotation::Rrc => (v / 2 + (v % 2) * 128, v % 2 == 1),
        Rotation::Rl => ((v * 2) % 256 + flag_bit(carry), v >= 128),
        Rotation::Rr => (v / 2 + flag_bit(carry) * 128, v % 2 == 1),
        Rotation::Sla => ((v * 2) % 256, v >= 128),
        Rotation::Sra => (v / 2 + (v / 128) * 128, v % 2 == 1),
        Rotation::Swap => ((v % 16) * 16 + v / 16, false),
        Rotation::Srl => (v as int / 2, v % 2 == 1),
    }
}

/// A rotation or shift of the second decode space: Z follows the result.
pub open spec fn rotate_spec(kind: Rotation, v: u8, carry: bool) -> AluResult {
    let (value, out) = rotated(kind, v, carry);
    AluResult { value: value as u8, flags: FlagRegister { z: value == 0, n: false, h: false, c: out } }
}

/// RLCA, RRCA, RLA and RRA: as the rotation of the same name, but Z is always clear.
pub open spec fn rotate_accumulator_spec(kind: Rotation, a: u8, carry: bool) -> AluResult {
    let r = rotate_spec(kind, a, carry);
    AluResult { value: r.value, flags: FlagRegister { z: false, ..r.flags } }
}

/// BIT n: Z is set when the bit is clear; the carry flag stays as it was.
pub open spec fn test_bit_spec(n: u8, v: u8, flags: FlagRegister) -> FlagRegister {
    FlagRegister { z: !bit_is_set(v, n), n: false, h: true, c: flags.c }
}

/// RES n: the byte with bit `n` clear.
pub open spec fn reset_bit_spec(n: u8, v: u8) -> u8 {
    if bit_is_set(v, n) {
        (v - bit_weight(n)) as u8
    } else {
        v
    }
}

/// SET n: the byte with bit `n` set.
pub open spec fn set_bit_spec(n: u8, v: u8) -> u8 {
    if bit_is_set(v, n) {
        v
    } else {
        (v + bit_weight(n)) as u8
    }
}

/// Rotates or shifts `v`.
pub fn rotate(kind: Rotation, v: u8, carry: bool) -> (r: AluResult)
    ensures
        r == rotate_spec(kind, v, carry),
{
    let cin: u8 = if carry {
        1
    } else {
        0
    };
    let doubled: u8 = (v % 128) * 2;
    let (value, out): (u8, bool) = match kind {
        Rotation::Rlc => (doubled + v / 128, v >= 128),
        Rotation::Rrc => (v / 2 + (v % 2) * 128, v % 2 == 1),
        Rotation::Rl => (doubled + cin, v >= 128),
        Rotation::Rr => (v / 2 + cin * 128, v % 2 == 1),
        Rotation::Sla => (doubled, v >= 128),
        Rotation::Sra => (v / 2 + (v / 128) * 128, v % 2 == 1),
        Rotation::Swap => ((v % 16) * 16 + v / 16, false),
        Rotation::Srl => (v / 2, v % 2 == 1),
    };
    AluResult { value, flags: FlagRegister { z: value == 0, n: false, h: false, c: out } }
}

/// Rotates the accumulator; Z ends clear.
pub fn rotate_accumulator(kind: Rotation, a: u8, carry: bool) -> (r: AluResult)
    ensures
        r == rotate_accumulator_spec(kind, a, carry),
{
    let r = rotate(kind, a, carry);
    AluResult { value: r.value, flags: FlagRegister { z: false, n: false, h: false, c: r.flags.c } }
}

/// Tests bit `n` of `v`.
pub fn test_bit(n: u8, v: u8, flags: FlagRegister) -> (r: FlagRegister)
    ensures
        r == test_bit_spec(n, v, flags),
{
    FlagRegister { z: (v / weight_of_bit(n)) % 2 == 0, n: false, h: true, c: flags.c }
}

/// Clears bit `n` of `v`.
pub fn reset_bit(n: u8, v: u8) -> (r: u8)
    ensures
        r == reset_bit_spec(n, v),
{
    let w: u8 = weight_of_bit(n);
    if (v / w) % 2 == 1 {
        assert(v >= w) by (nonlinear_arith)
            requires
                (v / w) % 2 == 1,
                w > 0,
        ;
        v - w
    } else {
        v
    }
}

/// Sets bit `n` of `v`.
pub fn set_bit(n: u8, v: u8) -> (r: u8)
    ensures
        r == set_bit_spec(n, v),
{
    let w: u8 = weight_of_bit(n);
    if (v / w) % 2 == 1 {
        v
    } else {
        assert(v + w < 256) by {
            lemma_clear_bit_leaves_room(v, n);
        }
        v + w
    }
}

/// The packed-decimal byte of a number below 100: the tens in the upper nibble, the
/// units in the lower.
pub open spec fn bcd(n: int) -> u8 {
    ((n / 10) * 16 + n % 10) as u8
}

/// The byte with upper nibble `high` and lower nibble `low` has these nibbles.
proof fn lemma_nibbles(high: int, low: int)
    requires
        0 <= high < 16,
        0 <= low < 16,
    ensures
        (16 * high + low) % 16 == low,
        (16 * high + low) / 16 == high,
        0 <= 16 * high + low < 256,
        (16 * high + low) % 256 == 16 * high + low,
{
    lemma_fundamental_div_mod_converse(16 * high + low, 16, high, low);
    lemma_fundamental_div_mod_converse(16 * high + low, 256, 0, 16 * high + low);
}

/// A number from 256 to 511 kept to eight bits.
proof fn lemma_wrap_once(x: int)
    requires
        256 <= x < 512,
    ensures
        x % 256 == x - 256,
{
    lemma_fundamental_div_mod_converse(x, 256, 1, x - 256);
}

/// A number from -256 to -1 kept to eight bits.
proof fn lemma_wrap_below(x: int)
    requires
        -256 <= x < 0,
    ensures
        x % 256 == x + 256,
{
    lemma_fundamental_div_mod_converse(x, 256, -1, x + 256);
}

/// ADD followed by DAA, digit by digit: `ah al + bh bl`.
proof fn lemma_daa_add_digits(ah: int, al: int, bh: int, bl: int)
    requires
        0 <= ah < 10,
        0 <= al < 10,
        0 <= bh < 10,
        0 <= bl < 10,
    ensures
        ({
            let sum = add8_spec((16 * ah + al) as u8, (16 * bh + bl) as u8, false);
            let r = daa_spec(sum.value, sum.flags);
            let units = al + bl;
            let tens = ah + bh + (if units >= 10 { 1int } else { 0 });
            &&& r.value == 16 * (if tens >= 10 { tens - 10 } else { tens }) + (if units >= 10 {
                units - 10
            } else {
                units
            })
            &&& r.flags.c == (tens >= 10)
        }),
{
    lemma_nibbles(ah, al);
    lemma_nibbles(bh, bl);
    let x = (16 * ah + al) as u8;
    let y = (16 * bh + bl) as u8;
    assert(x == 16 * ah + al && y == 16 * bh + bl);
    let total = x + y;
    let sum = add8_spec(x, y, false);
    // the nibbles of the binary sum
    let half = al + bl > 15;
    let low = if half { al + bl - 16 } else { al + bl };
    let high_sum = ah + bh + (if half { 1int } else { 0 });
    assert(total == 16 * high_sum + low);
    let carry = total > 255;
    let high = if carry { high_sum - 16 } else { high_sum };
    let v = 16 * high + low;
    if carry {
        lemma_wrap_once(total);
    } else {
        lemma_fundamental_div_mod_converse(total, 256, 0, total);
    }
    lemma_nibbles(high, low);
    assert(sum.value == v);
    assert(sum.flags.h == half);
    assert(sum.flags.c == carry);
    assert(!sum.flags.n);
    // what DAA mends
    let fix_low = half || low > 9;
    let fix_high = carry || v > 0x99;
    assert(v > 0x99 <==> (high > 9 || (high == 9 && low > 9)));
    let adjustment = daa_adjustment(sum.value, sum.flags);
    assert(adjustment == (if fix_low { 6int } else { 0 }) + (if fix_high { 0x60int } else { 0 }));
    let units = al + bl;
    let tens = ah + bh + (if units >= 10 { 1int } else { 0 });
    assert(fix_low == (units >= 10));
    assert(fix_high == (tens >= 10));
    let u = if units >= 10 { units - 10 } else { units };
    let t = if tens >= 10 { tens - 10 } else { tens };
    let mended = v + adjustment;
    assert(mended == 16 * t + u || mended == 16 * t + u + 256);
    lemma_nibbles(t, u);
    if mended >= 256 {
        lemma_wrap_once(mended);
    }
    assert(mended % 256 == 16 * t + u);
}

/// ADD followed by DAA adds packed decimals: of two numbers below 100 it leaves
/// their sum modulo 100, with the carry flag set exactly when the sum reached 100.
pub proof fn lemma_daa_after_add(a: int, b: int)
    requires
        0 <= a < 100,
        0 <= b < 100,
    ensures
        ({
            let sum = add8_spec(bcd(a), bcd(b), false);
            let r = daa_spec(sum.value, sum.flags);
            &&& r.value == bcd((a + b) % 100)
            &&& r.flags.c == (a + b >= 100)
            &&& r.flags.z == ((a + b) % 100 == 0)
        }),
{
    let (ah, al, bh, bl) = (a / 10, a % 10, b / 10, b % 10);
    lemma_daa_add_digits(ah, al, bh, bl);
    let units = al + bl;
    let tens = ah + bh + (if units >= 10 { 1int } else { 0 });
    let t = if tens >= 10 { tens - 10 } else { tens };
    let u = if units >= 10 { units - 10 } else { units };
    assert(a == 10 * ah + al && b == 10 * bh + bl);
    assert(a + b == 10 * tens + u);
    assert(0 <= u < 10 && 0 <= t < 10);
    let m = (a + b) % 100;
    if a + b >= 100 {
        lemma_fundamental_div_mod_converse(a + b, 100, 1, a + b - 100);
        assert(tens >= 10);
    } else {
        lemma_fundamental_div_mod_converse(a + b, 100, 0, a + b);
        assert(tens < 10);
    }
    assert(m == 10 * t + u);
    lemma_fundamental_div_mod_converse(m, 10, t, u);
    lemma_nibbles(t, u);
    lemma_nibbles(ah, al);
    lemma_nibbles(bh, bl);
    assert(bcd(m) == 16 * t + u);
    assert(bcd(a) == (16 * ah + al) as u8);
    assert(bcd(b) == (16 * bh + bl) as u8);
}

/// SUB followed by DAA, digit by digit: `ah al - bh bl`.
proof fn lemma_daa_sub_digits(ah: int, al: int, bh: int, bl: int)
    requires
        0 <= ah < 10,
        0 <= al < 10,
        0 <= bh < 10,
        0 <= bl < 10,
    ensures
        ({
            let diff = sub8_spec((16 * ah + al) as u8, (16 * bh + bl) as u8, false);
            let r = daa_spec(diff.value, diff.flags);
            let borrow = if al < bl { 1int } else { 0 };
            let tens = ah - bh - borrow;
            &&& r.value == 16 * (if tens < 0 { tens + 10 } else { tens }) + (al - bl + 10 * borrow)
            &&& r.flags.c == (tens < 0)
        }),
{
    lemma_nibbles(ah, al);
    lemma_nibbles(bh, bl);
    let x = (16 * ah + al) as u8;
    let y = (16 * bh + bl) as u8;
    assert(x == 16 * ah + al && y == 16 * bh + bl);
    let total = x - y;
    let borrow = if al < bl { 1int } else { 0 };
    let tens = ah - bh - borrow;
    let low = al - bl + 16 * borrow;
    assert(total == 16 * tens + low);
    let diff = sub8_spec(x, y, false);
    assert(diff.flags.h == (al < bl));
    assert(diff.flags.c == (total < 0));
    assert((total < 0) == (tens < 0));
    assert(diff.flags.n);
    if total < 0 {
        lemma_wrap_below(total);
    } else {
        lemma_fundamental_div_mod_converse(total, 256, 0, total);
    }
    let v = if total < 0 { total + 256 } else { total };
    assert(diff.value == v);
    let adjustment = daa_adjustment(diff.value, diff.flags);
    assert(adjustment == borrow * 6 + (if tens < 0 { 0x60int } else { 0 }));
    let t = if tens < 0 { tens + 10 } else { tens };
    let u = al - bl + 10 * borrow;
    let mended = v - adjustment;
    assert(mended == 16 * t + u);
    lemma_nibbles(t, u);
    assert(mended % 256 == 16 * t + u);
}

/// SUB followed by DAA subtracts packed decimals: of two numbers below 100 it
/// leaves their difference modulo 100, with the carry flag set exactly when the
/// subtraction borrowed.
pub proof fn lemma_daa_after_sub(a: int, b: int)
    requires
        0 <= a < 100,
        0 <= b < 100,
    ensures
        ({
            let diff = sub8_spec(bcd(a), bcd(b), false);
            let r = daa_spec(diff.value, diff.flags);
            &&& r.value == bcd((a - b) % 100)
            &&& r.flags.c == (a < b)
            &&& r.flags.z == (a == b)
        }),
{
    let (ah, al, bh, bl) = (a / 10, a % 10, b / 10, b % 10);
    lemma_daa_sub_digits(ah, al, bh, bl);
    let borrow = if al < bl { 1int } else { 0 };
    let tens = ah - bh - borrow;
    let t = if tens < 0 { tens + 10 } else { tens };
    let u = al - bl + 10 * borrow;
    assert(a == 10 * ah + al && b == 10 * bh + bl);
    assert(a - b == 10 * tens + u);
    assert(0 <= u < 10 && 0 <= t < 10);
    let m = (a - b) % 100;
    if a >= b {
        lemma_fundamental_div_mod_converse(a - b, 100, 0, a - b);
        assert(tens >= 0);
    } else {
        lemma_fundamental_div_mod_converse(a - b, 100, -1, a - b + 100);
        assert(tens < 0);
    }
    assert(m == 10 * t + u);
    lemma_fundamental_div_mod_converse(m, 10, t, u);
    lemma_nibbles(t, u);
    lemma_nibbles(ah, al);
    lemma_nibbles(bh, bl);
    assert(bcd(m) == 16 * t + u);
    assert(bcd(a) == (16 * ah + al) as u8);
    assert(bcd(b) == (16 * bh + bl) as u8);
}

/// F holds its flags and nothing else: the byte's upper nibble gives the flags back.
pub proof fn lemma_flag_bits_round_trip(flags: FlagRegister)
    ensures
        FlagRegister::from_bits_spec(flags.bits_spec()) == flags,
        flags.bits_spec() % 16 == 0,
{
}

/// A byte written to F and read back has lost its lower nibble and nothing else.
pub proof fn lemma_flag_byte_round_trip(byte: u8)
    ensures
        FlagRegister::from_bits_spec(byte).bits_spec() == byte - byte % 16,
{
    assert(128 * (if byte / 128 == 1 { 1int } else { 0 }) + 64 * ((byte / 64) % 2) + 32 * ((byte / 32)
        % 2) + 16 * ((byte / 16) % 2) == byte - byte % 16) by (bit_vector);
}

} // verus!
