//! Properties of the instruction set that span several instructions or
//! every input.
use vstd::prelude::*;
use crate::cpu::{Cpu, CpuError};
use crate::isa::{put_operand, skip, with_flags, block0_spec, block3_spec, cb_spec, exec_spec, cond_holds, dec16, inc16, operand, pop16, push16, step_spec};
use crate::util::{bit_of, lemma_with_bit, with_bit};
use crate::mem::{MemView, lemma_read_after_write, writable};
use crate::alu::{dec_spec, inc_spec};
use crate::reg::{Registers, pack_flags, unpack_flags};

verus! {

/// Popping a word just pushed gives the word back and leaves sp where it
/// was, when the two stack bytes below sp accept writes.
pub proof fn lemma_push_pop_round_trip(c: Cpu, m: MemView, v: u16)
    requires
        m.wf(),
        writable(dec16(c.reg.sp)),
        writable(dec16(dec16(c.reg.sp))),
    ensures
        pop16(push16(c, m, v).0, push16(c, m, v).1) == (v, c),
{
    let s1 = dec16(c.reg.sp);
    let s2 = dec16(s1);
    let m1 = m.write(s1, (v / 256) as u8);
    lemma_read_after_write(m, s1, (v / 256) as u8, s2);
    lemma_read_after_write(m1, s2, (v % 256) as u8, s1);
    assert(inc16(s2) == s1);
    assert(inc16(s1) == c.reg.sp);
}

/// The flag byte keeps exactly bits 7 to 4 of what was loaded into it.
pub proof fn lemma_flags_round_trip(b: u8)
    ensures
        pack_flags(unpack_flags(b)) == b - b % 16,
{
    assert(((b >> 7u8) & 1u8 == 1u8) == ((b / 128) % 2 == 1)) by (bit_vector);
    assert(((b >> 6u8) & 1u8 == 1u8) == ((b / 64) % 2 == 1)) by (bit_vector);
    assert(((b >> 5u8) & 1u8 == 1u8) == ((b / 32) % 2 == 1)) by (bit_vector);
    assert(((b >> 4u8) & 1u8 == 1u8) == ((b / 16) % 2 == 1)) by (bit_vector);
}

/// Any flags, packed, have a clear low nibble.
pub proof fn lemma_af_low_nibble(r: Registers)
    ensures
        r.af() % 16 == 0,
{
}

/// Writing a register pair and reading it back gives the written value;
/// for AF, with its low nibble cleared.
pub proof fn lemma_pair_round_trip(r: Registers, id: u8, v: u16)
    requires
        id < 4,
    ensures
        r.with_pair(id, v).pair(id) == if id == 3 {
            (v - v % 16) as u16
        } else {
            v
        },
        r.with_pair(id, v).af() % 16 == 0,
{
    lemma_flags_round_trip((v % 256) as u8);
}

/// INC r followed by DEC r (or DEC r followed by INC r), on any of the seven
/// 8-bit registers, gives the register back, and neither touches the carry
/// flag or memory.
pub proof fn lemma_inc_dec_restores(c: Cpu, m: MemView, y: u8, dec_first: bool)
    requires
        y < 8,
        y != 6,
        m.read(c.reg.pc) == 8 * y + if dec_first { 5int } else { 4int },
        m.read(inc16(c.reg.pc)) == 8 * y + if dec_first { 4int } else { 5int },
    ensures
        ({
            let (c1, m1, r1) = step_spec(c, m);
            let (c2, m2, r2) = step_spec(c1, m1);
            &&& r1 == Ok::<i8, CpuError>(4)
            &&& r2 == Ok::<i8, CpuError>(4)
            &&& c2.reg.reg8(y) == c.reg.reg8(y)
            &&& c1.reg.f.c == c.reg.f.c
            &&& c2.reg.f.c == c.reg.f.c
            &&& m2 == m
        }),
{
    lemma_incdec8_step(c, m, y, dec_first);
    let (c1, m1, r1) = step_spec(c, m);
    lemma_incdec8_step(c1, m1, y, !dec_first);
}

/// INC sets half-carry exactly when the operand's low nibble was 0xF
/// before, DEC exactly when it was 0x0; this holds for every operand,
/// the byte at HL included.
pub proof fn lemma_inc_dec_half_carry(c: Cpu, m: MemView, y: u8)
    requires
        y < 8,
    ensures
        m.read(c.reg.pc) == 8 * y + 4 ==> step_spec(c, m).0.reg.f.h == (operand(c, m, y) % 16
            == 15),
        m.read(c.reg.pc) == 8 * y + 5 ==> step_spec(c, m).0.reg.f.h == (operand(c, m, y) % 16
            == 0),
{
    reveal(step_spec);
    reveal(exec_spec);
    reveal(block0_spec);
    let op = m.read(c.reg.pc);
    if op == 8 * y + 4 || op == 8 * y + 5 {
        assert(op / 64 == 0 && (op / 8) % 8 == y);
    }
}

/// A conditional JR, JP, CALL or RET costs its taken cost exactly when its
/// condition (NZ, Z, NC, C) holds of the flags, and its not-taken cost
/// otherwise.
pub proof fn lemma_conditional_costs(c: Cpu, m: MemView, cc: u8)
    requires
        cc < 4,
    ensures
        m.read(c.reg.pc) == 0x20 + 8 * cc ==> step_spec(c, m).2 == Ok::<i8, CpuError>(
            if cond_holds(cc, c.reg.f) { 12 } else { 8 },
        ),
        m.read(c.reg.pc) == 0xC2 + 8 * cc ==> step_spec(c, m).2 == Ok::<i8, CpuError>(
            if cond_holds(cc, c.reg.f) { 16 } else { 12 },
        ),
        m.read(c.reg.pc) == 0xC4 + 8 * cc ==> step_spec(c, m).2 == Ok::<i8, CpuError>(
            if cond_holds(cc, c.reg.f) { 24 } else { 12 },
        ),
        m.read(c.reg.pc) == 0xC0 + 8 * cc ==> step_spec(c, m).2 == Ok::<i8, CpuError>(
            if cond_holds(cc, c.reg.f) { 20 } else { 8 },
        ),
{
    let op = m.read(c.reg.pc);
    if op == 0x20 + 8 * cc {
        lemma_cost_of_step(c, m, 0, (cc + 4) as u8, 0);
    } else if op == 0xC2 + 8 * cc {
        lemma_cost_of_step(c, m, 3, cc, 2);
    } else if op == 0xC4 + 8 * cc {
        lemma_cost_of_step(c, m, 3, cc, 4);
    } else if op == 0xC0 + 8 * cc {
        lemma_cost_of_step(c, m, 3, cc, 0);
    }
}

/// The cost of a step whose opcode is neither the prefix nor undefined is
/// that of its family.
proof fn lemma_cost_of_step(c: Cpu, m: MemView, x: u8, y: u8, z: u8)
    requires
        (x == 0 && 4 <= y < 8 && z == 0) || (x == 3 && y < 4 && (z == 0 || z == 2 || z == 4)),
        m.read(c.reg.pc) == 64 * x + 8 * y + z,
    ensures
        x == 0 ==> step_spec(c, m).2 == Ok::<i8, CpuError>(
            if cond_holds((y - 4) as u8, c.reg.f) { 12 } else { 8 },
        ),
        x == 3 && z == 2 ==> step_spec(c, m).2 == Ok::<i8, CpuError>(
            if cond_holds(y, c.reg.f) { 16 } else { 12 },
        ),
        x == 3 && z == 4 ==> step_spec(c, m).2 == Ok::<i8, CpuError>(
            if cond_holds(y, c.reg.f) { 24 } else { 12 },
        ),
        x == 3 && z == 0 ==> step_spec(c, m).2 == Ok::<i8, CpuError>(
            if cond_holds(y, c.reg.f) { 20 } else { 8 },
        ),
{
    reveal(step_spec);
    reveal(exec_spec);
    let op = m.read(c.reg.pc);
    assert(op / 64 == x && (op / 8) % 8 == y && op % 8 == z);
    if x == 0 {
        reveal(block0_spec);
    } else {
        reveal(block3_spec);
    }
}

/// BIT b,r changes neither its operand nor memory nor any register but the
/// flags and pc; the zero flag becomes the complement of the tested bit.
pub proof fn lemma_bit_keeps_operand(c: Cpu, m: MemView, b: u8, z: u8)
    requires
        b < 8,
        z < 8,
        m.read(c.reg.pc) == 0xCB,
        m.read(inc16(c.reg.pc)) == 0x40 + 8 * b + z,
    ensures
        ({
            let (c1, m1, r1) = step_spec(c, m);
            &&& m1 == m
            &&& (Cpu { reg: Registers { f: c.reg.f, pc: c.reg.pc, ..c1.reg }, ..c1 }) == c
            &&& operand(c1, m1, z) == operand(c, m, z)
            &&& c1.reg.f.z == !bit_of(operand(c, m, z), b)
        }),
{
    reveal(step_spec);
    reveal(cb_spec);
    let op = m.read(inc16(c.reg.pc));
    assert(op / 64 == 1 && (op / 8) % 8 == b && op % 8 == z);
}

/// Forcing a bit to one value and then to the other leaves it at the
/// second, whatever the byte.
pub proof fn lemma_set_res_bit(v: u8, b: u8)
    requires
        b < 8,
    ensures
        !bit_of(with_bit(with_bit(v, b, true), b, false), b),
        bit_of(with_bit(with_bit(v, b, false), b, true), b),
{
    lemma_with_bit(with_bit(v, b, true), b, false);
    lemma_with_bit(with_bit(v, b, false), b, true);
}

/// SET b,r followed by RES b,r leaves bit b of operand r clear, and RES
/// followed by SET leaves it set; for the byte at HL, when HL addresses
/// memory that accepts writes.
pub proof fn lemma_set_res_steps(c: Cpu, m: MemView, b: u8, z: u8, set_first: bool)
    requires
        m.wf(),
        b < 8,
        z < 8,
        z == 6 ==> writable(c.reg.hl()),
        m.read(c.reg.pc) == 0xCB,
        m.read(inc16(c.reg.pc)) == 8 * b + z + if set_first { 0xC0int } else { 0x80int },
        step_spec(c, m).1.read(step_spec(c, m).0.reg.pc) == 0xCB,
        step_spec(c, m).1.read(inc16(step_spec(c, m).0.reg.pc)) == 8 * b + z + if set_first {
            0x80int
        } else {
            0xC0int
        },
    ensures
        ({
            let (c1, m1, r1) = step_spec(c, m);
            let (c2, m2, r2) = step_spec(c1, m1);
            bit_of(operand(c2, m2, z), b) == !set_first
        }),
{
    lemma_res_set_step(c, m, b, z, set_first);
    let (c1, m1, r1) = step_spec(c, m);
    lemma_res_set_step(c1, m1, b, z, !set_first);
    let (c2, m2, r2) = step_spec(c1, m1);
    let v0 = operand(c, m, z);
    let v1 = with_bit(v0, b, set_first);
    let v2 = with_bit(v1, b, !set_first);
    if z == 6 {
        lemma_read_after_write(m, c.reg.hl(), v1, c.reg.hl());
        lemma_read_after_write(m1, c.reg.hl(), v2, c.reg.hl());
    }
    assert(operand(c1, m1, z) == v1);
    assert(operand(c2, m2, z) == v2);
    lemma_with_bit(v1, b, !set_first);
}

proof fn lemma_reg8_with(r: Registers, y: u8, v: u8)
    requires
        y < 8,
        y != 6,
    ensures
        r.with_reg8(y, v).reg8(y) == v,
        r.with_reg8(y, v).f == r.f,
        r.with_reg8(y, v).pc == r.pc,
{
}

/// One INC r or DEC r on a register.
proof fn lemma_incdec8_step(c: Cpu, m: MemView, y: u8, dec: bool)
    requires
        y < 8,
        y != 6,
        m.read(c.reg.pc) == 8 * y + if dec { 5int } else { 4int },
    ensures
        ({
            let v = c.reg.reg8(y);
            let (x, f) = if dec {
                dec_spec(v, c.reg.f)
            } else {
                inc_spec(v, c.reg.f)
            };
            let (c1, m1, r1) = step_spec(c, m);
            &&& c1.reg.reg8(y) == x
            &&& c1.reg.f == f
            &&& c1.reg.pc == inc16(c.reg.pc)
            &&& m1 == m
            &&& r1 == Ok::<i8, CpuError>(4)
        }),
{
    reveal(step_spec);
    reveal(exec_spec);
    reveal(block0_spec);
    let op = m.read(c.reg.pc);
    assert(op / 64 == 0 && (op / 8) % 8 == y && op % 8 == if dec { 5int } else { 4int });
    let v = c.reg.reg8(y);
    let (x, f) = if dec {
        dec_spec(v, c.reg.f)
    } else {
        inc_spec(v, c.reg.f)
    };
    lemma_reg8_with(with_flags(skip(c, 1), f).reg, y, x);
}

/// One RES b,r or SET b,r.
proof fn lemma_res_set_step(c: Cpu, m: MemView, b: u8, z: u8, set: bool)
    requires
        b < 8,
        z < 8,
        m.read(c.reg.pc) == 0xCB,
        m.read(inc16(c.reg.pc)) == 8 * b + z + if set { 0xC0int } else { 0x80int },
    ensures
        ({
            let (c2, m2) = put_operand(skip(c, 2), m, z, with_bit(operand(c, m, z), b, set));
            step_spec(c, m) == (c2, m2, Ok::<i8, CpuError>(if z == 6 { 16 } else { 8 }))
        }),
{
    reveal(step_spec);
    reveal(cb_spec);
    let op = m.read(inc16(c.reg.pc));
    assert(op / 64 == if set { 3int } else { 2int } && (op / 8) % 8 == b && op % 8 == z);
}

} // verus!
