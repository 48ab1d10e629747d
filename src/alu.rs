//! Arithmetic and logic on values, with the flags each operation produces.
//!
//! Half-carry is always taken from the operands before the operation; every
//! result wraps around its width.
use vstd::prelude::*;
use crate::reg::Flags;
use crate::util::{offset16, signed_of, to_signed, u16_offset};

verus! {

/// Accumulator operations, by the 3-bit field of their encoding.
pub const ALU_ADD: u8 = 0;

pub const ALU_ADC: u8 = 1;

pub const ALU_SUB: u8 = 2;

pub const ALU_SBC: u8 = 3;

pub const ALU_AND: u8 = 4;

pub const ALU_XOR: u8 = 5;

pub const ALU_OR: u8 = 6;

pub const ALU_CP: u8 = 7;

pub open spec fn carry_bit(c: bool) -> int {
    if c {
        1
    } else {
        0
    }
}

/// `a + v + carry`, with its flags.
pub open spec fn add_spec(a: u8, v: u8, carry: bool) -> (u8, Flags) {
    let sum = a + v + carry_bit(carry);
    let r = (sum % 256) as u8;
    (r, Flags { z: r == 0, n: false, h: a % 16 + v % 16 + carry_bit(carry) > 15, c: sum > 255 })
}

/// `a - v - borrow`, with its flags.
pub open spec fn sub_spec(a: u8, v: u8, borrow: bool) -> (u8, Flags) {
    let diff = a - v - carry_bit(borrow);
    let r = ((diff + 256) % 256) as u8;
    (r, Flags { z: r == 0, n: true, h: a % 16 < v % 16 + carry_bit(borrow), c: diff < 0 })
}

pub open spec fn logic_flags(r: u8, h: bool) -> Flags {
    Flags { z: r == 0, n: false, h: h, c: false }
}

/// The new accumulator and flags after operation `kind` (ADD, ADC, SUB, SBC,
/// AND, XOR, OR, CP) on accumulator `a` and operand `v`; CP keeps `a`.
pub open spec fn alu_spec(kind: u8, a: u8, v: u8, f: Flags) -> (u8, Flags) {
    if kind == ALU_ADD {
        add_spec(a, v, false)
    } else if kind == ALU_ADC {
        add_spec(a, v, f.c)
    } else if kind == ALU_SUB {
        sub_spec(a, v, false)
    } else if kind == ALU_SBC {
        sub_spec(a, v, f.c)
    } else if kind == ALU_AND {
        (a & v, logic_flags(a & v, true))
    } else if kind == ALU_XOR {
        (a ^ v, logic_flags(a ^ v, false))
    } else if kind == ALU_OR {
        (a | v, logic_flags(a | v, false))
    } else {
        (a, sub_spec(a, v, false).1)
    }
}

/// 8-bit increment: carry is kept, half-carry set when the low nibble was 0xF.
pub open spec fn inc_spec(v: u8, f: Flags) -> (u8, Flags) {
    let r = ((v + 1) % 256) as u8;
    (r, Flags { z: r == 0, n: false, h: v % 16 == 15, c: f.c })
}

/// 8-bit decrement: carry is kept, half-carry set when the low nibble was 0x0.
pub open spec fn dec_spec(v: u8, f: Flags) -> (u8, Flags) {
    let r = ((v + 255) % 256) as u8;
    (r, Flags { z: r == 0, n: true, h: v % 16 == 0, c: f.c })
}

/// Rotations and shifts, by the 3-bit field of their encoding: RLC, RRC, RL,
/// RR, SLA, SRA, SWAP, SRL. The carry takes the bit shifted out.
pub open spec fn rot_spec(kind: u8, v: u8, f: Flags) -> (u8, Flags) {
    let cin = carry_bit(f.c);
    let rc: (int, bool) = if kind == 0 {
        ((v * 2) % 256 + v / 128, v >= 128)
    } else if kind == 1 {
        (v / 2 + (v % 2) * 128, v % 2 == 1)
    } else if kind == 2 {
        ((v * 2) % 256 + cin, v >= 128)
    } else if kind == 3 {
        (v / 2 + cin * 128, v % 2 == 1)
    } else if kind == 4 {
        ((v * 2) % 256, v >= 128)
    } else if kind == 5 {
        (v / 2 + (v / 128) * 128, v % 2 == 1)
    } else if kind == 6 {
        ((v % 16) * 16 + v / 16, false)
    } else {
        (v as int / 2, v % 2 == 1)
    };
    let r = rc.0 as u8;
    (r, Flags { z: r == 0, n: false, h: false, c: rc.1 })
}

/// The accumulator rotations RLCA, RRCA, RLA, RRA: as the first four
/// rotations, but the zero flag is always cleared.
pub open spec fn rot_acc_spec(kind: u8, a: u8, f: Flags) -> (u8, Flags) {
    let (r, g) = rot_spec(kind, a, f);
    (r, Flags { z: false, ..g })
}

/// Decimal adjustment of the accumulator after a BCD addition or subtraction.
pub open spec fn daa_spec(a: u8, f: Flags) -> (u8, Flags) {
    if !f.n {
        let hi = f.c || a > 0x99;
        let lo = f.h || a % 16 > 9;
        let corr = (if hi { 0x60int } else { 0 }) + (if lo { 6int } else { 0 });
        let r = ((a + corr) % 256) as u8;
        (r, Flags { z: r == 0, n: false, h: false, c: hi })
    } else {
        let corr = (if f.c { 0x60int } else { 0 }) + (if f.h { 6int } else { 0 });
        let r = ((a + 256 - corr) % 256) as u8;
        (r, Flags { z: r == 0, n: true, h: false, c: f.c })
    }
}

/// 16-bit addition into HL: zero kept, half-carry out of bit 11, carry out of
/// bit 15.
pub open spec fn add16_spec(x: u16, v: u16, f: Flags) -> (u16, Flags) {
    let sum = x + v;
    (
        (sum % 0x10000) as u16,
        Flags { z: f.z, n: false, h: x % 0x1000 + v % 0x1000 > 0xFFF, c: sum > 0xFFFF },
    )
}

/// SP plus a signed byte: half-carry and carry come from the low byte read
/// as unsigned; zero and subtract are cleared.
pub open spec fn add_sp_spec(sp: u16, d: u8) -> (u16, Flags) {
    (
        offset16(sp, signed_of(d)),
        Flags { z: false, n: false, h: sp % 16 + d % 16 > 15, c: sp % 256 + d > 255 },
    )
}

pub fn alu(kind: u8, a: u8, v: u8, f: Flags) -> (r: (u8, Flags))
    requires
        kind < 8,
    ensures
        r == alu_spec(kind, a, v, f),
{
    let carry = (kind == ALU_ADC || kind == ALU_SBC) && f.c;
    let cin: u8 = if carry {
        1
    } else {
        0
    };
    if kind == ALU_ADD || kind == ALU_ADC {
        let sum: u16 = a as u16 + v as u16 + cin as u16;
        let r = (sum % 256) as u8;
        (r, Flags { z: r == 0, n: false, h: a % 16 + v % 16 + cin > 15, c: sum > 255 })
    } else if kind == ALU_AND {
        let r = a & v;
        (r, Flags { z: r == 0, n: false, h: true, c: false })
    } else if kind == ALU_XOR {
        let r = a ^ v;
        (r, Flags { z: r == 0, n: false, h: false, c: false })
    } else if kind == ALU_OR {
        let r = a | v;
        (r, Flags { z: r == 0, n: false, h: false, c: false })
    } else {
        let sub: u16 = v as u16 + cin as u16;
        let r = ((a as u16 + 256 - sub) % 256) as u8;
        let g = Flags { z: r == 0, n: true, h: a % 16 < v % 16 + cin, c: (a as u16) < sub };
        if kind == ALU_CP {
            (a, g)
        } else {
            (r, g)
        }
    }
}

pub fn inc8(v: u8, f: Flags) -> (r: (u8, Flags))
    ensures
        r == inc_spec(v, f),
{
    let r = v.wrapping_add(1);
    (r, Flags { z: r == 0, n: false, h: v % 16 == 15, c: f.c })
}

pub fn dec8(v: u8, f: Flags) -> (r: (u8, Flags))
    ensures
        r == dec_spec(v, f),
{
    let r = v.wrapping_sub(1);
    (r, Flags { z: r == 0, n: true, h: v % 16 == 0, c: f.c })
}

pub fn rotate(kind: u8, v: u8, f: Flags) -> (r: (u8, Flags))
    requires
        kind < 8,
    ensures
        r == rot_spec(kind, v, f),
{
    let cin: u16 = if f.c {
        1
    } else {
        0
    };
    let w = v as u16;
    let (x, c): (u16, bool) = match kind {
        0 => ((w * 2) % 256 + w / 128, v >= 128),
        1 => (w / 2 + (w % 2) * 128, v % 2 == 1),
        2 => ((w * 2) % 256 + cin, v >= 128),
        3 => (w / 2 + cin * 128, v % 2 == 1),
        4 => ((w * 2) % 256, v >= 128),
        5 => (w / 2 + (w / 128) * 128, v % 2 == 1),
        6 => ((w % 16) * 16 + w / 16, false),
        _ => (w / 2, v % 2 == 1),
    };
    let r = x as u8;
    (r, Flags { z: r == 0, n: false, h: false, c: c })
}

pub fn daa(a: u8, f: Flags) -> (r: (u8, Flags))
    ensures
        r == daa_spec(a, f),
{
    let w = a as u16;
    if !f.n {
        let hi = f.c || a > 0x99;
        let lo = f.h || a % 16 > 9;
        let corr: u16 = (if hi {
            0x60
        } else {
            0
        }) + (if lo {
            6
        } else {
            0
        });
        let r = ((w + corr) % 256) as u8;
        (r, Flags { z: r == 0, n: false, h: false, c: hi })
    } else {
        let corr: u16 = (if f.c {
            0x60
        } else {
            0
        }) + (if f.h {
            6
        } else {
            0
        });
        let r = ((w + 256 - corr) % 256) as u8;
        (r, Flags { z: r == 0, n: true, h: false, c: f.c })
    }
}

pub fn add16(x: u16, v: u16, f: Flags) -> (r: (u16, Flags))
    ensures
        r == add16_spec(x, v, f),
{
    let sum: u32 = x as u32 + v as u32;
    (
        (sum % 0x10000) as u16,
        Flags { z: f.z, n: false, h: x % 0x1000 + v % 0x1000 > 0xFFF, c: sum > 0xFFFF },
    )
}

pub fn add_sp(sp: u16, d: u8) -> (r: (u16, Flags))
    ensures
        r == add_sp_spec(sp, d),
{
    let v = u16_offset(sp, to_signed(d));
    (v, Flags { z: false, n: false, h: sp % 16 + (d as u16) % 16 > 15, c: sp % 256 + d as u16 > 255 })
}

} // verus!
