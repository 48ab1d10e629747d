//! What one instruction does: the SM83 instruction set as a function from
//! processor state and memory to the next processor state, memory and cost.
//!
//! An opcode byte `op` is read as three fields, `x = op / 64`,
//! `y = (op / 8) % 8`, `z = op % 8`, with `y` split again into `p = y / 2`,
//! `q = y % 2`. Operand index 6 names the byte at the address in HL, never a
//! register. Costs are in clock units, four to a machine cycle.
use vstd::prelude::*;
use crate::alu::{
    add16_spec, add_sp_spec, alu_spec, daa_spec, dec_spec, inc_spec, rot_acc_spec, rot_spec,
};
use crate::cpu::{Cpu, CpuError};
use crate::mem::MemView;
use crate::reg::{Flags, Registers, hi_byte, lo_byte, word};
use crate::util::{bit_of, offset16, signed_of, with_bit};

verus! {

/// The prefix byte of the extended opcode space.
pub const PREFIX_CB: u8 = 0xCB;

pub open spec fn inc16(v: u16) -> u16 {
    offset16(v, 1)
}

pub open spec fn dec16(v: u16) -> u16 {
    offset16(v, -1)
}

/// The eleven opcodes that the instruction set leaves undefined.
pub open spec fn is_defined(op: u8) -> bool {
    !(op == 0xD3 || op == 0xDB || op == 0xDD || op == 0xE3 || op == 0xE4 || op == 0xEB || op
        == 0xEC || op == 0xED || op == 0xF4 || op == 0xFC || op == 0xFD)
}

/// Condition codes NZ, Z, NC, C.
pub open spec fn cond_holds(cc: u8, f: Flags) -> bool {
    if cc == 0 {
        !f.z
    } else if cc == 1 {
        f.z
    } else if cc == 2 {
        !f.c
    } else {
        f.c
    }
}

/// The 16-bit registers BC, DE, HL, SP.
pub open spec fn rp(r: Registers, p: u8) -> u16 {
    if p == 3 {
        r.sp
    } else {
        r.pair(p)
    }
}

pub open spec fn with_rp(r: Registers, p: u8, v: u16) -> Registers {
    if p == 3 {
        Registers { sp: v, ..r }
    } else {
        r.with_pair(p, v)
    }
}

/// The address 0xFF00 + `v` of the I/O page.
pub open spec fn high_page(v: u8) -> u16 {
    (0xFF00 + v) as u16
}

pub open spec fn set_reg(c: Cpu, r: Registers) -> Cpu {
    Cpu { reg: r, ..c }
}

pub open spec fn with_flags(c: Cpu, f: Flags) -> Cpu {
    set_reg(c, Registers { f: f, ..c.reg })
}

pub open spec fn jump(c: Cpu, target: u16) -> Cpu {
    set_reg(c, Registers { pc: target, ..c.reg })
}

/// The state with pc moved past `n` bytes.
pub open spec fn skip(c: Cpu, n: int) -> Cpu {
    jump(c, offset16(c.reg.pc, n))
}

/// The byte at pc.
pub open spec fn imm8(c: Cpu, m: MemView) -> u8 {
    m.read(c.reg.pc)
}

/// The little-endian word at pc.
pub open spec fn imm16(c: Cpu, m: MemView) -> u16 {
    word(m.read(inc16(c.reg.pc)), m.read(c.reg.pc))
}

/// Operand `idx`: a register, or for 6 the byte at the address in HL.
pub open spec fn operand(c: Cpu, m: MemView, idx: u8) -> u8 {
    if idx == 6 {
        m.read(c.reg.hl())
    } else {
        c.reg.reg8(idx)
    }
}

pub open spec fn put_operand(c: Cpu, m: MemView, idx: u8, v: u8) -> (Cpu, MemView) {
    if idx == 6 {
        (c, m.write(c.reg.hl(), v))
    } else {
        (set_reg(c, c.reg.with_reg8(idx, v)), m)
    }
}

/// Pushes `v`: the high byte goes to sp - 1, the low byte to sp - 2, and sp
/// ends at the low byte.
pub open spec fn push16(c: Cpu, m: MemView, v: u16) -> (Cpu, MemView) {
    let s1 = dec16(c.reg.sp);
    let s2 = dec16(s1);
    (set_reg(c, Registers { sp: s2, ..c.reg }), m.write(s1, hi_byte(v)).write(s2, lo_byte(v)))
}

/// Pops a word: the low byte from sp, the high byte from sp + 1; sp moves up
/// by two.
pub open spec fn pop16(c: Cpu, m: MemView) -> (u16, Cpu) {
    let sp = c.reg.sp;
    (word(m.read(inc16(sp)), m.read(sp)), set_reg(c, Registers { sp: inc16(inc16(sp)), ..c.reg }))
}

/// JR: a signed displacement from the address after the instruction.
pub open spec fn jr_spec(c: Cpu, m: MemView, take: bool) -> (Cpu, MemView, i8) {
    let next = skip(c, 1);
    if take {
        (jump(next, offset16(next.reg.pc, signed_of(imm8(c, m)))), m, 12)
    } else {
        (next, m, 8)
    }
}

/// JP to an absolute address; the address is consumed either way.
pub open spec fn jp_spec(c: Cpu, m: MemView, take: bool) -> (Cpu, MemView, i8) {
    let next = skip(c, 2);
    if take {
        (jump(next, imm16(c, m)), m, 16)
    } else {
        (next, m, 12)
    }
}

/// CALL: pushes the address after the instruction, then jumps.
pub open spec fn call_spec(c: Cpu, m: MemView, take: bool) -> (Cpu, MemView, i8) {
    let next = skip(c, 2);
    if take {
        let (c2, m2) = push16(next, m, next.reg.pc);
        (jump(c2, imm16(c, m)), m2, 24)
    } else {
        (next, m, 12)
    }
}

/// RET: pops pc; `cost` when taken, 8 otherwise.
pub open spec fn ret_spec(c: Cpu, m: MemView, take: bool, cost: i8) -> (Cpu, MemView, i8) {
    if take {
        let (v, c2) = pop16(c, m);
        (jump(c2, v), m, cost)
    } else {
        (c, m, 8)
    }
}

/// x = 0, z = 0: NOP, LD (a16),SP, STOP, JR, JR cc.
pub open spec fn misc_spec(y: u8, c: Cpu, m: MemView) -> (Cpu, MemView, i8) {
    let sp = c.reg.sp;
    if y == 0 {
        (c, m, 4)
    } else if y == 1 {
        let a = imm16(c, m);
        (skip(c, 2), m.write(a, lo_byte(sp)).write(inc16(a), hi_byte(sp)), 20)
    } else if y == 2 {
        (Cpu { stopped: true, ..skip(c, 1) }, m, 4)
    } else if y == 3 {
        jr_spec(c, m, true)
    } else {
        jr_spec(c, m, cond_holds((y - 4) as u8, c.reg.f))
    }
}

/// x = 0, z = 2: LD (BC),A; LD (DE),A; LD (HL+),A; LD (HL-),A and the four
/// loads of A the other way.
pub open spec fn indirect_spec(p: u8, q: u8, c: Cpu, m: MemView) -> (Cpu, MemView, i8) {
    let r = c.reg;
    let addr = if p == 0 {
        r.bc()
    } else if p == 1 {
        r.de()
    } else {
        r.hl()
    };
    let r2 = if p == 2 {
        r.with_hl(inc16(addr))
    } else if p == 3 {
        r.with_hl(dec16(addr))
    } else {
        r
    };
    if q == 0 {
        (set_reg(c, r2), m.write(addr, r.a), 8)
    } else {
        (set_reg(c, Registers { a: m.read(addr), ..r2 }), m, 8)
    }
}

/// x = 0, z = 7: RLCA, RRCA, RLA, RRA, DAA, CPL, SCF, CCF.
pub open spec fn acc_spec(y: u8, c: Cpu, m: MemView) -> (Cpu, MemView, i8) {
    let r = c.reg;
    let (a, f) = if y < 4 {
        rot_acc_spec(y, r.a, r.f)
    } else if y == 4 {
        daa_spec(r.a, r.f)
    } else if y == 5 {
        ((255 - r.a) as u8, Flags { n: true, h: true, ..r.f })
    } else if y == 6 {
        (r.a, Flags { n: false, h: false, c: true, ..r.f })
    } else {
        (r.a, Flags { n: false, h: false, c: !r.f.c, ..r.f })
    };
    (set_reg(c, Registers { a: a, f: f, ..r }), m, 4)
}

/// x = 0, z = 1: LD rr,d16 (q = 0) and ADD HL,rr (q = 1).
pub open spec fn ld16_add_spec(p: u8, q: u8, c: Cpu, m: MemView) -> (Cpu, MemView, i8) {
    let r = c.reg;
    if q == 0 {
        let n = skip(c, 2);
        (set_reg(n, with_rp(n.reg, p, imm16(c, m))), m, 12)
    } else {
        let (v, f) = add16_spec(r.hl(), rp(r, p), r.f);
        (set_reg(c, Registers { f: f, ..r }.with_hl(v)), m, 8)
    }
}

/// x = 0, z = 3: INC rr (q = 0) and DEC rr (q = 1); no flag changes.
pub open spec fn incdec16_spec(p: u8, q: u8, c: Cpu, m: MemView) -> (Cpu, MemView, i8) {
    let v = rp(c.reg, p);
    (set_reg(c, with_rp(c.reg, p, if q == 0 { inc16(v) } else { dec16(v) })), m, 8)
}

/// x = 0, z = 4 or 5: INC r[y] or DEC r[y].
pub open spec fn incdec8_spec(y: u8, dec: bool, c: Cpu, m: MemView) -> (Cpu, MemView, i8) {
    let v = operand(c, m, y);
    let (x, f) = if dec {
        dec_spec(v, c.reg.f)
    } else {
        inc_spec(v, c.reg.f)
    };
    let (c2, m2) = put_operand(with_flags(c, f), m, y, x);
    (c2, m2, if y == 6 { 12 } else { 4 })
}

/// x = 0, z = 6: LD r[y],d8.
pub open spec fn ld_imm8_spec(y: u8, c: Cpu, m: MemView) -> (Cpu, MemView, i8) {
    let (c2, m2) = put_operand(skip(c, 1), m, y, imm8(c, m));
    (c2, m2, if y == 6 { 12 } else { 8 })
}

/// Opcodes 0x00 to 0x3F.
#[verifier::opaque]
pub open spec fn block0_spec(y: u8, z: u8, c: Cpu, m: MemView) -> (Cpu, MemView, i8) {
    let p = y / 2;
    let q = y % 2;
    if z == 0 {
        misc_spec(y, c, m)
    } else if z == 1 {
        ld16_add_spec(p, q, c, m)
    } else if z == 2 {
        indirect_spec(p, q, c, m)
    } else if z == 3 {
        incdec16_spec(p, q, c, m)
    } else if z == 4 || z == 5 {
        incdec8_spec(y, z == 5, c, m)
    } else if z == 6 {
        ld_imm8_spec(y, c, m)
    } else {
        acc_spec(y, c, m)
    }
}

/// Opcodes 0x40 to 0x7F: LD r[y],r[z], and HALT in place of LD (HL),(HL).
pub open spec fn block1_spec(y: u8, z: u8, c: Cpu, m: MemView) -> (Cpu, MemView, i8) {
    if y == 6 && z == 6 {
        (Cpu { halted: true, ..c }, m, 4)
    } else {
        let (c2, m2) = put_operand(c, m, y, operand(c, m, z));
        (c2, m2, if y == 6 || z == 6 { 8 } else { 4 })
    }
}

/// Opcodes 0x80 to 0xBF: accumulator operation y on operand z.
pub open spec fn block2_spec(y: u8, z: u8, c: Cpu, m: MemView) -> (Cpu, MemView, i8) {
    let r = c.reg;
    let (a, f) = alu_spec(y, r.a, operand(c, m, z), r.f);
    (set_reg(c, Registers { a: a, f: f, ..r }), m, if z == 6 { 8 } else { 4 })
}

/// x = 3, z = 0: RET cc, LDH (a8),A, ADD SP,d, LDH A,(a8), LD HL,SP+d.
pub open spec fn ret_io_spec(y: u8, c: Cpu, m: MemView) -> (Cpu, MemView, i8) {
    let r = c.reg;
    let n = skip(c, 1);
    if y < 4 {
        ret_spec(c, m, cond_holds(y, r.f), 20)
    } else if y == 4 {
        (n, m.write(high_page(imm8(c, m)), r.a), 12)
    } else if y == 5 {
        let (v, f) = add_sp_spec(r.sp, imm8(c, m));
        (set_reg(n, Registers { sp: v, f: f, ..n.reg }), m, 16)
    } else if y == 6 {
        (set_reg(n, Registers { a: m.read(high_page(imm8(c, m))), ..n.reg }), m, 12)
    } else {
        let (v, f) = add_sp_spec(r.sp, imm8(c, m));
        (set_reg(n, Registers { f: f, ..n.reg }.with_hl(v)), m, 12)
    }
}

/// x = 3, z = 1: POP rr, RET, RETI, JP HL, LD SP,HL.
pub open spec fn pop_ret_spec(p: u8, q: u8, c: Cpu, m: MemView) -> (Cpu, MemView, i8) {
    let r = c.reg;
    if q == 0 {
        let (v, c2) = pop16(c, m);
        (set_reg(c2, c2.reg.with_pair(p, v)), m, 12)
    } else if p == 0 {
        ret_spec(c, m, true, 16)
    } else if p == 1 {
        let (c2, m2, t) = ret_spec(c, m, true, 16);
        (Cpu { ime: true, ..c2 }, m2, t)
    } else if p == 2 {
        (jump(c, r.hl()), m, 4)
    } else {
        (set_reg(c, Registers { sp: r.hl(), ..r }), m, 8)
    }
}

/// x = 3, z = 2: JP cc, LD (C),A, LD (a16),A, LD A,(C), LD A,(a16).
pub open spec fn jp_ld_spec(y: u8, c: Cpu, m: MemView) -> (Cpu, MemView, i8) {
    let r = c.reg;
    let n = skip(c, 2);
    if y < 4 {
        jp_spec(c, m, cond_holds(y, r.f))
    } else if y == 4 {
        (c, m.write(high_page(r.c), r.a), 8)
    } else if y == 5 {
        (n, m.write(imm16(c, m), r.a), 16)
    } else if y == 6 {
        (set_reg(c, Registers { a: m.read(high_page(r.c)), ..r }), m, 8)
    } else {
        (set_reg(n, Registers { a: m.read(imm16(c, m)), ..n.reg }), m, 16)
    }
}

/// Opcodes 0xC0 to 0xFF, but the prefix and the undefined ones.
#[verifier::opaque]
pub open spec fn block3_spec(y: u8, z: u8, c: Cpu, m: MemView) -> (Cpu, MemView, i8) {
    let p = y / 2;
    let q = y % 2;
    let r = c.reg;
    if z == 0 {
        ret_io_spec(y, c, m)
    } else if z == 1 {
        pop_ret_spec(p, q, c, m)
    } else if z == 2 {
        jp_ld_spec(y, c, m)
    } else if z == 3 {
        if y == 0 {
            jp_spec(c, m, true)
        } else if y == 6 {
            (Cpu { ime: false, ..c }, m, 4)
        } else {
            (Cpu { ime: true, ..c }, m, 4)
        }
    } else if z == 4 {
        call_spec(c, m, cond_holds(y, r.f))
    } else if z == 5 {
        if q == 0 {
            let (c2, m2) = push16(c, m, r.pair(p));
            (c2, m2, 16)
        } else {
            call_spec(c, m, true)
        }
    } else if z == 6 {
        let n = skip(c, 1);
        let (a, f) = alu_spec(y, r.a, imm8(c, m), r.f);
        (set_reg(n, Registers { a: a, f: f, ..n.reg }), m, 8)
    } else {
        let (c2, m2) = push16(c, m, r.pc);
        (jump(c2, (y * 8) as u16), m2, 16)
    }
}

/// A defined opcode other than the prefix, with pc already past it.
#[verifier::opaque]
pub open spec fn exec_spec(op: u8, c: Cpu, m: MemView) -> (Cpu, MemView, i8) {
    let x = op / 64;
    let y = (op / 8) % 8;
    let z = op % 8;
    if x == 0 {
        block0_spec(y, z, c, m)
    } else if x == 1 {
        block1_spec(y, z, c, m)
    } else if x == 2 {
        block2_spec(y, z, c, m)
    } else {
        block3_spec(y, z, c, m)
    }
}

/// The byte after the prefix, with pc already past both: rotations and
/// shifts, BIT, RES, SET on bit y of operand z.
#[verifier::opaque]
pub open spec fn cb_spec(op: u8, c: Cpu, m: MemView) -> (Cpu, MemView, i8) {
    let x = op / 64;
    let y = (op / 8) % 8;
    let z = op % 8;
    let r = c.reg;
    let v = operand(c, m, z);
    let cost: i8 = if z == 6 {
        16
    } else {
        8
    };
    if x == 0 {
        let (w, f) = rot_spec(y, v, r.f);
        let (c2, m2) = put_operand(with_flags(c, f), m, z, w);
        (c2, m2, cost)
    } else if x == 1 {
        (
            with_flags(c, Flags { z: !bit_of(v, y), n: false, h: true, ..r.f }),
            m,
            if z == 6 {
                12
            } else {
                8
            },
        )
    } else {
        let (c2, m2) = put_operand(c, m, z, with_bit(v, y, x == 3));
        (c2, m2, cost)
    }
}

/// One step: the instruction at pc, executed whole. An undefined opcode
/// changes nothing and is reported with the address it was read from.
#[verifier::opaque]
pub open spec fn step_spec(c: Cpu, m: MemView) -> (Cpu, MemView, Result<i8, CpuError>) {
    let pc = c.reg.pc;
    let op = m.read(pc);
    if op == PREFIX_CB {
        let (c2, m2, t) = cb_spec(m.read(inc16(pc)), skip(c, 2), m);
        (c2, m2, Ok(t))
    } else if !is_defined(op) {
        (c, m, Err(CpuError::IllegalOpcode { opcode: op, address: pc }))
    } else {
        let (c2, m2, t) = exec_spec(op, skip(c, 1), m);
        (c2, m2, Ok(t))
    }
}

} // verus!
