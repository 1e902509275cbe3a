//! Single bits of a byte, stated over integers.

use vstd::prelude::*;

verus! {

/// The weight of bit `n` of a byte.
pub open spec fn bit_weight(n: u8) -> int {
    if n == 0 {
        1
    } else if n == 1 {
        2
    } else if n == 2 {
        4
    } else if n == 3 {
        8
    } else if n == 4 {
        16
    } else if n == 5 {
        32
    } else if n == 6 {
        64
    } else {
        128
    }
}

/// Whether bit `n` of `v` is set.
pub open spec fn bit_is_set(v: u8, n: u8) -> bool {
    (v as int / bit_weight(n)) % 2 == 1
}

/// Bit `n` of `v` as a number, 0 or 1.
pub open spec fn bit_value(v: u8, n: u8) -> int {
    (v as int / bit_weight(n)) % 2
}

/// The weight of bit `n`.
pub fn weight_of_bit(n: u8) -> (r: u8)
    ensures
        r == bit_weight(n),
        r > 0,
{
    match n {
        0 => 1,
        1 => 2,
        2 => 4,
        3 => 8,
        4 => 16,
        5 => 32,
        6 => 64,
        _ => 128,
    }
}

/// Reads bit `n` of `v`.
pub fn get_bit(v: u8, n: u8) -> (r: bool)
    ensures
        r == bit_is_set(v, n),
{
    (v / weight_of_bit(n)) % 2 == 1
}

/// A byte whose bit `n` is clear can take the weight of that bit without overflow.
pub proof fn lemma_clear_bit_leaves_room(v: u8, n: u8)
    requires
        !bit_is_set(v, n),
    ensures
        v + bit_weight(n) < 256,
{
    let w = bit_weight(n);
    let q = v as int / w;
    assert(q % 2 == 0);
    assert(v as int == w * q + v as int % w) by (nonlinear_arith)
        requires
            q == v as int / w,
            w > 0,
    ;
    assert(q * w <= 256 - 2 * w) by (nonlinear_arith)
        requires
            q % 2 == 0,
            q * w <= 255,
            w == 1 || w == 2 || w == 4 || w == 8 || w == 16 || w == 32 || w == 64 || w == 128,
    {
        if w == 128 {
            assert(q <= 1);
        }
    }
}

} // verus!
