//! The executor: fetches, decodes and executes one instruction per step.
use vstd::prelude::*;
use crate::alu::{add16, add_sp, alu, daa, dec8, inc8, rotate};
use crate::isa::{
    acc_spec, block0_spec, block1_spec, block2_spec, block3_spec, call_spec, cb_spec, cond_holds,
    dec16, exec_spec, imm16, imm8, inc16, incdec16_spec, incdec8_spec, indirect_spec, is_defined,
    jp_ld_spec, jp_spec, jr_spec, jump, ld16_add_spec, ld_imm8_spec, misc_spec, operand, pop16,
    pop_ret_spec, push16, put_operand, ret_io_spec, ret_spec, rp, set_reg, skip, step_spec, with_rp,
    PREFIX_CB,
};
use crate::mem::Memory;
use crate::reg::{Flags, Registers, reset_registers};
use crate::util::{get_bit, set_bit, to_signed, u16_offset};

verus! {

/// Why a step could not execute.
#[derive(Clone, Copy, Debug, PartialEq, Eq, Structural)]
pub enum CpuError {
    /// The opcode byte at `address` encodes no instruction.
    IllegalOpcode { opcode: u8, address: u16 },
    /// The byte after the extended-space prefix encodes no instruction.
    IllegalExtendedOpcode { opcode: u8, address: u16 },
}

/// The processor: its registers and the state that HALT, STOP, DI, EI and
/// RETI leave for the surrounding machine (interrupt dispatch and waking
/// from HALT or STOP are the machine's concern, not the executor's).
#[derive(Clone, Copy, Debug, PartialEq, Eq, Structural)]
pub struct Cpu {
    pub reg: Registers,
    /// The interrupt master enable, set by EI and RETI, cleared by DI. EI
    /// takes effect at once: the one-instruction delay before an interrupt
    /// can be taken belongs to interrupt dispatch.
    pub ime: bool,
    /// Set by HALT.
    pub halted: bool,
    /// Set by STOP.
    pub stopped: bool,
}

/// Whether `op` encodes an instruction.
fn opcode_defined(op: u8) -> (r: bool)
    ensures
        r == is_defined(op),
{
    match op {
        0xD3 | 0xDB | 0xDD | 0xE3 | 0xE4 | 0xEB | 0xEC | 0xED | 0xF4 | 0xFC | 0xFD => false,
        _ => true,
    }
}

pub open spec fn reset_cpu() -> Cpu {
    Cpu { reg: reset_registers(), ime: false, halted: false, stopped: false }
}

impl Cpu {
    pub fn new() -> (r: Cpu)
        ensures
            r == reset_cpu(),
    {
        Cpu { reg: Registers::new(), ime: false, halted: false, stopped: false }
    }

    /// Reads the byte at pc and moves pc past it.
    fn read_byte(&mut self, mem: &Memory) -> (r: u8)
        ensures
            r == imm8(*old(self), mem@),
            *final(self) == skip(*old(self), 1),
    {
        let value = mem.read(self.reg.pc);
        self.reg.pc = self.reg.pc.wrapping_add(1);
        value
    }

    /// Reads the little-endian word at pc and moves pc past it.
    fn read_word(&mut self, mem: &Memory) -> (r: u16)
        ensures
            r == imm16(*old(self), mem@),
            *final(self) == skip(*old(self), 2),
    {
        let lo = self.read_byte(mem);
        let hi = self.read_byte(mem);
        hi as u16 * 256 + lo as u16
    }

    fn push_byte(&mut self, mem: &mut Memory, val: u8)
        ensures
            *final(self) == set_reg(*old(self), Registers { sp: dec16(old(self).reg.sp), ..old(self).reg }),
            final(mem)@ == old(mem)@.write(dec16(old(self).reg.sp), val),
    {
        self.reg.sp = self.reg.sp.wrapping_sub(1);
        mem.write(self.reg.sp, val);
    }

    fn pop_byte(&mut self, mem: &Memory) -> (r: u8)
        ensures
            r == mem@.read(old(self).reg.sp),
            *final(self) == set_reg(*old(self), Registers { sp: inc16(old(self).reg.sp), ..old(self).reg }),
    {
        let value = mem.read(self.reg.sp);
        self.reg.sp = self.reg.sp.wrapping_add(1);
        value
    }

    fn push_word(&mut self, mem: &mut Memory, val: u16)
        ensures
            (*final(self), final(mem)@) == push16(*old(self), old(mem)@, val),
    {
        self.push_byte(mem, (val / 256) as u8);
        self.push_byte(mem, (val % 256) as u8);
    }

    fn pop_word(&mut self, mem: &Memory) -> (r: u16)
        ensures
            (r, *final(self)) == pop16(*old(self), mem@),
    {
        let lo = self.pop_byte(mem);
        let hi = self.pop_byte(mem);
        hi as u16 * 256 + lo as u16
    }

    /// Pushes pc and jumps to `addr`.
    fn call(&mut self, mem: &mut Memory, addr: u16)
        ensures
            *final(self) == jump(push16(*old(self), old(mem)@, old(self).reg.pc).0, addr),
            final(mem)@ == push16(*old(self), old(mem)@, old(self).reg.pc).1,
    {
        let pc = self.reg.pc;
        self.push_word(mem, pc);
        self.reg.pc = addr;
    }

    /// Pops pc.
    fn ret(&mut self, mem: &Memory)
        ensures
            *final(self) == jump(pop16(*old(self), mem@).1, pop16(*old(self), mem@).0),
    {
        let addr = self.pop_word(mem);
        self.reg.pc = addr;
    }

    /// Operand `idx`: a register, or for 6 the byte at the address in HL.
    fn read_operand(&self, mem: &Memory, idx: u8) -> (r: u8)
        requires
            idx < 8,
        ensures
            r == operand(*self, mem@, idx),
    {
        match self.reg.get_by_id(idx) {
            Some(v) => v,
            None => mem.read(self.reg.get_hl()),
        }
    }

    fn write_operand(&mut self, mem: &mut Memory, idx: u8, v: u8)
        requires
            idx < 8,
        ensures
            (*final(self), final(mem)@) == put_operand(*old(self), old(mem)@, idx, v),
    {
        if !self.reg.set_by_id(idx, v) {
            mem.write(self.reg.get_hl(), v);
        }
    }

    /// The 16-bit register `p`: BC, DE, HL, SP.
    fn get_rp(&self, p: u8) -> (r: u16)
        requires
            p < 4,
        ensures
            r == rp(self.reg, p),
    {
        if p == 3 {
            self.reg.sp
        } else {
            match self.reg.get_union_by_id(p) {
                Some(v) => v,
                None => 0,
            }
        }
    }

    fn set_rp(&mut self, p: u8, v: u16)
        requires
            p < 4,
        ensures
            *final(self) == set_reg(*old(self), with_rp(old(self).reg, p, v)),
    {
        if p == 3 {
            self.reg.sp = v;
        } else {
            self.reg.set_union_by_id(p, v);
        }
    }

    /// Condition code `cc`: NZ, Z, NC, C.
    fn condition(&self, cc: u8) -> (r: bool)
        ensures
            r == cond_holds(cc, self.reg.f),
    {
        match cc {
            0 => !self.reg.f.z,
            1 => self.reg.f.z,
            2 => !self.reg.f.c,
            _ => self.reg.f.c,
        }
    }

    /// JR, taken or not.
    fn jr(&mut self, mem: &Memory, take: bool) -> (t: i8)
        ensures
            (*final(self), mem@, t) == jr_spec(*old(self), mem@, take),
    {
        let o = to_signed(self.read_byte(mem));
        if take {
            self.reg.pc = u16_offset(self.reg.pc, o);
            12
        } else {
            8
        }
    }

    /// JP to the address after the opcode, taken or not.
    fn jp(&mut self, mem: &Memory, take: bool) -> (t: i8)
        ensures
            (*final(self), mem@, t) == jp_spec(*old(self), mem@, take),
    {
        let to = self.read_word(mem);
        if take {
            self.reg.pc = to;
            16
        } else {
            12
        }
    }

    /// CALL to the address after the opcode, taken or not.
    fn call_if(&mut self, mem: &mut Memory, take: bool) -> (t: i8)
        ensures
            (*final(self), final(mem)@, t) == call_spec(*old(self), old(mem)@, take),
    {
        let to = self.read_word(mem);
        if take {
            self.call(mem, to);
            24
        } else {
            12
        }
    }

    /// RET, taken or not.
    fn ret_if(&mut self, mem: &Memory, take: bool, cost: i8) -> (t: i8)
        ensures
            (*final(self), mem@, t) == ret_spec(*old(self), mem@, take, cost),
    {
        if take {
            self.ret(mem);
            cost
        } else {
            8
        }
    }

    /// x = 0, z = 0.
    fn exec_misc(&mut self, mem: &mut Memory, y: u8) -> (t: i8)
        requires
            y < 8,
        ensures
            (*final(self), final(mem)@, t) == misc_spec(y, *old(self), old(mem)@),
    {
        match y {
            0 => 4,
            1 => {
                let a = self.read_word(mem);
                let sp = self.reg.sp;
                mem.write(a, (sp % 256) as u8);
                mem.write(a.wrapping_add(1), (sp / 256) as u8);
                20
            },
            2 => {
                self.read_byte(mem);
                self.stopped = true;
                4
            },
            3 => self.jr(mem, true),
            _ => {
                let take = self.condition(y - 4);
                self.jr(mem, take)
            },
        }
    }

    /// x = 0, z = 2.
    fn exec_indirect(&mut self, mem: &mut Memory, p: u8, q: u8) -> (t: i8)
        requires
            p < 4,
            q < 2,
        ensures
            (*final(self), final(mem)@, t) == indirect_spec(p, q, *old(self), old(mem)@),
    {
        let addr = match p {
            0 => self.reg.get_bc(),
            1 => self.reg.get_de(),
            _ => self.reg.get_hl(),
        };
        if q == 0 {
            mem.write(addr, self.reg.a);
        } else {
            self.reg.a = mem.read(addr);
        }
        if p == 2 {
            self.reg.set_hl(addr.wrapping_add(1));
        } else if p == 3 {
            self.reg.set_hl(addr.wrapping_sub(1));
        }
        8
    }

    /// x = 0, z = 7.
    fn exec_acc(&mut self, mem: &Memory, y: u8) -> (t: i8)
        requires
            y < 8,
        ensures
            (*final(self), mem@, t) == acc_spec(y, *old(self), mem@),
    {
        let f = self.reg.f;
        let (a, g) = if y < 4 {
            let (v, g) = rotate(y, self.reg.a, f);
            (v, Flags { z: false, ..g })
        } else if y == 4 {
            daa(self.reg.a, f)
        } else if y == 5 {
            (255 - self.reg.a, Flags { n: true, h: true, ..f })
        } else if y == 6 {
            (self.reg.a, Flags { n: false, h: false, c: true, ..f })
        } else {
            (self.reg.a, Flags { n: false, h: false, c: !f.c, ..f })
        };
        self.reg.a = a;
        self.reg.f = g;
        4
    }

    /// x = 0, z = 1: LD rr,d16 and ADD HL,rr.
    fn exec_ld16_add(&mut self, mem: &Memory, y: u8) -> (t: i8)
        requires
            y < 8,
        ensures
            (*final(self), mem@, t) == ld16_add_spec(y / 2, y % 2, *old(self), mem@),
    {
        let p = y / 2;
        if y % 2 == 0 {
            let v = self.read_word(mem);
            self.set_rp(p, v);
            12
        } else {
            let (v, f) = add16(self.reg.get_hl(), self.get_rp(p), self.reg.f);
            self.reg.f = f;
            self.reg.set_hl(v);
            8
        }
    }

    /// x = 0, z = 3: INC rr and DEC rr.
    fn exec_incdec16(&mut self, mem: &Memory, y: u8) -> (t: i8)
        requires
            y < 8,
        ensures
            (*final(self), mem@, t) == incdec16_spec(y / 2, y % 2, *old(self), mem@),
    {
        let p = y / 2;
        let v = self.get_rp(p);
        if y % 2 == 0 {
            self.set_rp(p, v.wrapping_add(1));
        } else {
            self.set_rp(p, v.wrapping_sub(1));
        }
        8
    }

    /// x = 0, z = 4 or 5: INC r and DEC r.
    fn exec_incdec8(&mut self, mem: &mut Memory, y: u8, z: u8) -> (t: i8)
        requires
            y < 8,
            z == 4 || z == 5,
        ensures
            (*final(self), final(mem)@, t) == incdec8_spec(y, z == 5, *old(self), old(mem)@),
    {
        let v = self.read_operand(mem, y);
        let (x, f) = if z == 4 {
            inc8(v, self.reg.f)
        } else {
            dec8(v, self.reg.f)
        };
        self.reg.f = f;
        self.write_operand(mem, y, x);
        if y == 6 {
            12
        } else {
            4
        }
    }

    /// x = 0, z = 6: LD r,d8.
    fn exec_ld_imm8(&mut self, mem: &mut Memory, y: u8) -> (t: i8)
        requires
            y < 8,
        ensures
            (*final(self), final(mem)@, t) == ld_imm8_spec(y, *old(self), old(mem)@),
    {
        let v = self.read_byte(mem);
        self.write_operand(mem, y, v);
        if y == 6 {
            12
        } else {
            8
        }
    }

    /// Opcodes 0x00 to 0x3F.
    fn exec_block0(&mut self, mem: &mut Memory, y: u8, z: u8) -> (t: i8)
        requires
            y < 8,
            z < 8,
        ensures
            (*final(self), final(mem)@, t) == block0_spec(y, z, *old(self), old(mem)@),
    {
        proof {
            reveal(block0_spec);
        }
        match z {
            0 => self.exec_misc(mem, y),
            1 => self.exec_ld16_add(mem, y),
            2 => self.exec_indirect(mem, y / 2, y % 2),
            3 => self.exec_incdec16(mem, y),
            4 | 5 => self.exec_incdec8(mem, y, z),
            6 => self.exec_ld_imm8(mem, y),
            _ => self.exec_acc(mem, y),
        }
    }

    /// Opcodes 0x40 to 0x7F.
    fn exec_block1(&mut self, mem: &mut Memory, y: u8, z: u8) -> (t: i8)
        requires
            y < 8,
            z < 8,
        ensures
            (*final(self), final(mem)@, t) == block1_spec(y, z, *old(self), old(mem)@),
    {
        if y == 6 && z == 6 {
            self.halted = true;
            4
        } else {
            let v = self.read_operand(mem, z);
            self.write_operand(mem, y, v);
            if y == 6 || z == 6 {
                8
            } else {
                4
            }
        }
    }

    /// Opcodes 0x80 to 0xBF.
    fn exec_block2(&mut self, mem: &Memory, y: u8, z: u8) -> (t: i8)
        requires
            y < 8,
            z < 8,
        ensures
            (*final(self), mem@, t) == block2_spec(y, z, *old(self), mem@),
    {
        let v = self.read_operand(mem, z);
        let (a, f) = alu(y, self.reg.a, v, self.reg.f);
        self.reg.a = a;
        self.reg.f = f;
        if z == 6 {
            8
        } else {
            4
        }
    }
    /// x = 3, z = 0.
    fn exec_ret_io(&mut self, mem: &mut Memory, y: u8) -> (t: i8)
        requires
            y < 8,
        ensures
            (*final(self), final(mem)@, t) == ret_io_spec(y, *old(self), old(mem)@),
    {
        if y < 4 {
            let take = self.condition(y);
            self.ret_if(mem, take, 20)
        } else if y == 4 {
            let n = self.read_byte(mem);
            mem.write(0xFF00 + n as u16, self.reg.a);
            12
        } else if y == 6 {
            let n = self.read_byte(mem);
            self.reg.a = mem.read(0xFF00 + n as u16);
            12
        } else {
            let d = self.read_byte(mem);
            let (v, f) = add_sp(self.reg.sp, d);
            self.reg.f = f;
            if y == 5 {
                self.reg.sp = v;
                16
            } else {
                self.reg.set_hl(v);
                12
            }
        }
    }

    /// x = 3, z = 1.
    fn exec_pop_ret(&mut self, mem: &mut Memory, p: u8, q: u8) -> (t: i8)
        requires
            p < 4,
            q < 2,
        ensures
            (*final(self), final(mem)@, t) == pop_ret_spec(p, q, *old(self), old(mem)@),
    {
        if q == 0 {
            let v = self.pop_word(mem);
            self.reg.set_union_by_id(p, v);
            12
        } else if p == 0 {
            self.ret_if(mem, true, 16)
        } else if p == 1 {
            let t = self.ret_if(mem, true, 16);
            self.ime = true;
            t
        } else if p == 2 {
            self.reg.pc = self.reg.get_hl();
            4
        } else {
            self.reg.sp = self.reg.get_hl();
            8
        }
    }

    /// x = 3, z = 2.
    fn exec_jp_ld(&mut self, mem: &mut Memory, y: u8) -> (t: i8)
        requires
            y < 8,
        ensures
            (*final(self), final(mem)@, t) == jp_ld_spec(y, *old(self), old(mem)@),
    {
        if y < 4 {
            let take = self.condition(y);
            self.jp(mem, take)
        } else if y == 4 {
            mem.write(0xFF00 + self.reg.c as u16, self.reg.a);
            8
        } else if y == 5 {
            let a = self.read_word(mem);
            mem.write(a, self.reg.a);
            16
        } else if y == 6 {
            self.reg.a = mem.read(0xFF00 + self.reg.c as u16);
            8
        } else {
            let a = self.read_word(mem);
            self.reg.a = mem.read(a);
            16
        }
    }

    /// Opcodes 0xC0 to 0xFF, but the prefix and the undefined ones.
    fn exec_block3(&mut self, mem: &mut Memory, y: u8, z: u8) -> (t: i8)
        requires
            y < 8,
            z < 8,
        ensures
            (*final(self), final(mem)@, t) == block3_spec(y, z, *old(self), old(mem)@),
    {
        proof {
            reveal(block3_spec);
        }
        let p = y / 2;
        let q = y % 2;
        match z {
            0 => self.exec_ret_io(mem, y),
            1 => self.exec_pop_ret(mem, p, q),
            2 => self.exec_jp_ld(mem, y),
            3 => {
                if y == 0 {
                    self.jp(mem, true)
                } else {
                    self.ime = y != 6;
                    4
                }
            },
            4 => {
                let take = self.condition(y);
                self.call_if(mem, take)
            },
            5 => {
                if q == 0 {
                    let v = match self.reg.get_union_by_id(p) {
                        Some(v) => v,
                        None => 0,
                    };
                    self.push_word(mem, v);
                    16
                } else {
                    self.call_if(mem, true)
                }
            },
            6 => {
                let v = self.read_byte(mem);
                let (a, f) = alu(y, self.reg.a, v, self.reg.f);
                self.reg.a = a;
                self.reg.f = f;
                8
            },
            _ => {
                self.call(mem, y as u16 * 8);
                16
            },
        }
    }

    /// Executes the defined opcode `op`, other than the prefix; pc is
    /// already past it.
    fn exec(&mut self, op: u8, mem: &mut Memory) -> (t: i8)
        requires
            is_defined(op),
            op != PREFIX_CB,
        ensures
            (*final(self), final(mem)@, t) == exec_spec(op, *old(self), old(mem)@),
    {
        proof {
            reveal(exec_spec);
        }
        let x = op / 64;
        let y = (op / 8) % 8;
        let z = op % 8;
        match x {
            0 => self.exec_block0(mem, y, z),
            1 => self.exec_block1(mem, y, z),
            2 => self.exec_block2(mem, y, z),
            _ => self.exec_block3(mem, y, z),
        }
    }

    /// Executes the extended opcode `op`; pc is already past it.
    fn exec_cb(&mut self, op: u8, mem: &mut Memory) -> (t: i8)
        ensures
            (*final(self), final(mem)@, t) == cb_spec(op, *old(self), old(mem)@),
    {
        proof {
            reveal(cb_spec);
        }
        let x = op / 64;
        let y = (op / 8) % 8;
        let z = op % 8;
        let v = self.read_operand(mem, z);
        if x == 1 {
            self.reg.f = Flags { z: !get_bit(v, y), n: false, h: true, ..self.reg.f };
            if z == 6 {
                12
            } else {
                8
            }
        } else {
            let w = if x == 0 {
                let (w, f) = rotate(y, v, self.reg.f);
                self.reg.f = f;
                w
            } else {
                set_bit(v, y, x == 3)
            };
            self.write_operand(mem, z, w);
            if z == 6 {
                16
            } else {
                8
            }
        }
    }

    /// Executes the instruction at pc. An undefined opcode changes nothing
    /// and is reported with the address it was read from; otherwise the
    /// result is the instruction's cost in clock units.
    pub fn step(&mut self, mem: &mut Memory) -> (r: Result<i8, CpuError>)
        ensures
            (*final(self), final(mem)@, r) == step_spec(*old(self), old(mem)@),
    {
        proof {
            reveal(step_spec);
        }
        let op = mem.read(self.reg.pc);
        if op == PREFIX_CB {
            self.read_byte(mem);
            let cb_op = self.read_byte(mem);
            Ok(self.exec_cb(cb_op, mem))
        } else if !opcode_defined(op) {
            Err(CpuError::IllegalOpcode { opcode: op, address: self.reg.pc })
        } else {
            self.read_byte(mem);
            Ok(self.exec(op, mem))
        }
    }
}

} // verus!
