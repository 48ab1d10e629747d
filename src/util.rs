//! Bit and signed-offset helpers shared by the register file and the executor.
use vstd::prelude::*;

verus! {

/// Bit `b` (0 = least significant) of `a`.
pub open spec fn bit_of(a: u8, b: u8) -> bool {
    (a >> b) & 1u8 == 1u8
}

/// `a` with bit `b` forced to `v`.
pub open spec fn with_bit(a: u8, b: u8, v: bool) -> u8 {
    if v {
        a | (1u8 << b)
    } else {
        a & !(1u8 << b)
    }
}

/// The two's-complement reading of a byte.
pub open spec fn signed_of(a: u8) -> int {
    if a < 128 {
        a as int
    } else {
        a as int - 256
    }
}

/// `a + b` taken modulo 2^16.
pub open spec fn offset16(a: u16, b: int) -> u16 {
    ((a as int + b) % 0x10000) as u16
}

/// Reads bit `b` of `a`.
pub fn get_bit(a: u8, b: u8) -> (r: bool)
    requires
        b < 8,
    ensures
        r == bit_of(a, b),
{
    assert((a & (1u8 << b) != 0) == ((a >> b) & 1u8 == 1u8)) by (bit_vector)
        requires
            b < 8,
    ;
    a & (1u8 << b) != 0
}

/// Returns `a` with bit `b` set to `v`, every other bit kept.
pub fn set_bit(a: u8, b: u8, v: bool) -> (r: u8)
    requires
        b < 8,
    ensures
        r == with_bit(a, b, v),
        bit_of(r, b) == v,
        forall|i: u8| i < 8 && i != b ==> bit_of(r, i) == bit_of(a, i),
{
    proof {
        lemma_with_bit(a, b, v);
    }
    if v {
        a | (1u8 << b)
    } else {
        a & !(1u8 << b)
    }
}

/// Reads a byte as a signed 8-bit value.
pub fn to_signed(a: u8) -> (r: i8)
    ensures
        r as int == signed_of(a),
{
    if a < 128 {
        a as i8
    } else {
        (a as i16 - 256) as i8
    }
}

/// Adds a signed offset to a 16-bit value, wrapping around the 16-bit space.
pub fn u16_offset(a: u16, b: i8) -> (r: u16)
    ensures
        r == offset16(a, b as int),
{
    if b >= 0 {
        a.wrapping_add(b as u16)
    } else {
        let m: u16 = (0i16 - b as i16) as u16;
        a.wrapping_sub(m)
    }
}

/// What `with_bit` does to bit `b` and to the other bits.
pub proof fn lemma_with_bit(a: u8, b: u8, v: bool)
    requires
        b < 8,
    ensures
        bit_of(with_bit(a, b, v), b) == v,
        forall|i: u8| i < 8 && i != b ==> bit_of(with_bit(a, b, v), i) == bit_of(a, i),
{
    let r = with_bit(a, b, v);
    if v {
        assert(((a | (1u8 << b)) >> b) & 1u8 == 1u8) by (bit_vector)
            requires
                b < 8,
        ;
        assert forall|i: u8| i < 8 && i != b implies bit_of(r, i) == bit_of(a, i) by {
            assert(i < 8 && i != b ==> (((a | (1u8 << b)) >> i) & 1u8 == 1u8) == ((a >> i) & 1u8
                == 1u8)) by (bit_vector)
                requires
                    b < 8,
            ;
        }
    } else {
        assert(((a & !(1u8 << b)) >> b) & 1u8 == 0u8) by (bit_vector)
            requires
                b < 8,
        ;
        assert forall|i: u8| i < 8 && i != b implies bit_of(r, i) == bit_of(a, i) by {
            assert(i < 8 && i != b ==> (((a & !(1u8 << b)) >> i) & 1u8 == 1u8) == ((a >> i) & 1u8
                == 1u8)) by (bit_vector)
                requires
                    b < 8,
            ;
        }
    }
}

} // verus!
