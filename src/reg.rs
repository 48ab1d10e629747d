//! The register file: seven 8-bit registers, the flags, the program counter
//! and the stack pointer, with 16-bit pair views over the 8-bit registers.
use vstd::prelude::*;
use crate::util::{bit_of, get_bit};

verus! {

/// The four condition flags.
#[derive(Clone, Copy, Debug, PartialEq, Eq, Structural)]
pub struct Flags {
    pub z: bool,
    pub n: bool,
    pub h: bool,
    pub c: bool,
}

#[derive(Clone, Copy, Debug, PartialEq, Eq, Structural)]
pub struct Registers {
    pub a: u8,
    pub b: u8,
    pub c: u8,
    pub d: u8,
    pub e: u8,
    pub f: Flags,
    pub h: u8,
    pub l: u8,
    pub pc: u16,
    pub sp: u16,
}

/// The flags as a byte: z, n, h, c in bits 7 to 4, bits 3 to 0 clear.
pub open spec fn pack_flags(f: Flags) -> u8 {
    ((if f.z { 0x80int } else { 0 }) + (if f.n { 0x40int } else { 0 }) + (if f.h { 0x20int } else { 0 })
        + (if f.c { 0x10int } else { 0 })) as u8
}

/// The flags that a byte holds in bits 7 to 4; bits 3 to 0 are dropped.
pub open spec fn unpack_flags(v: u8) -> Flags {
    Flags { z: bit_of(v, 7), n: bit_of(v, 6), h: bit_of(v, 5), c: bit_of(v, 4) }
}

/// The 16-bit value whose high byte is `hi` and low byte is `lo`.
pub open spec fn word(hi: u8, lo: u8) -> u16 {
    (hi as int * 256 + lo as int) as u16
}

pub open spec fn hi_byte(v: u16) -> u8 {
    (v / 256) as u8
}

pub open spec fn lo_byte(v: u16) -> u8 {
    (v % 256) as u8
}

/// Index of an 8-bit register: B, C, D, E, H, L, (6 is not a register), A.
pub open spec fn is_reg8_id(id: u8) -> bool {
    id < 8 && id != 6
}

/// The state after a reset.
pub open spec fn reset_registers() -> Registers {
    Registers {
        a: 0,
        b: 0,
        c: 0,
        d: 0,
        e: 0,
        f: Flags { z: false, n: false, h: false, c: false },
        h: 0,
        l: 0,
        pc: 0x0100,
        sp: 0xFFFE,
    }
}

impl Registers {
    pub open spec fn af(self) -> u16 {
        word(self.a, pack_flags(self.f))
    }

    pub open spec fn bc(self) -> u16 {
        word(self.b, self.c)
    }

    pub open spec fn de(self) -> u16 {
        word(self.d, self.e)
    }

    pub open spec fn hl(self) -> u16 {
        word(self.h, self.l)
    }

    pub open spec fn with_af(self, v: u16) -> Registers {
        Registers { a: hi_byte(v), f: unpack_flags(lo_byte(v)), ..self }
    }

    pub open spec fn with_bc(self, v: u16) -> Registers {
        Registers { b: hi_byte(v), c: lo_byte(v), ..self }
    }

    pub open spec fn with_de(self, v: u16) -> Registers {
        Registers { d: hi_byte(v), e: lo_byte(v), ..self }
    }

    pub open spec fn with_hl(self, v: u16) -> Registers {
        Registers { h: hi_byte(v), l: lo_byte(v), ..self }
    }

    /// The 8-bit register with index `id` (see `is_reg8_id`).
    pub open spec fn reg8(self, id: u8) -> u8 {
        if id == 0 {
            self.b
        } else if id == 1 {
            self.c
        } else if id == 2 {
            self.d
        } else if id == 3 {
            self.e
        } else if id == 4 {
            self.h
        } else if id == 5 {
            self.l
        } else {
            self.a
        }
    }

    pub open spec fn with_reg8(self, id: u8, v: u8) -> Registers {
        if id == 0 {
            Registers { b: v, ..self }
        } else if id == 1 {
            Registers { c: v, ..self }
        } else if id == 2 {
            Registers { d: v, ..self }
        } else if id == 3 {
            Registers { e: v, ..self }
        } else if id == 4 {
            Registers { h: v, ..self }
        } else if id == 5 {
            Registers { l: v, ..self }
        } else {
            Registers { a: v, ..self }
        }
    }

    /// The register pair with index `id`: BC, DE, HL, AF.
    pub open spec fn pair(self, id: u8) -> u16 {
        if id == 0 {
            self.bc()
        } else if id == 1 {
            self.de()
        } else if id == 2 {
            self.hl()
        } else {
            self.af()
        }
    }

    pub open spec fn with_pair(self, id: u8, v: u16) -> Registers {
        if id == 0 {
            self.with_bc(v)
        } else if id == 1 {
            self.with_de(v)
        } else if id == 2 {
            self.with_hl(v)
        } else {
            self.with_af(v)
        }
    }

    /// Every register zero and every flag clear, but pc = 0x0100 and sp = 0xFFFE.
    pub fn new() -> (r: Registers)
        ensures
            r == reset_registers(),
    {
        Registers {
            a: 0,
            b: 0,
            c: 0,
            d: 0,
            e: 0,
            f: Flags { z: false, n: false, h: false, c: false },
            h: 0,
            l: 0,
            pc: 0x0100,
            sp: 0xFFFE,
        }
    }

    /// Loads the flags from bits 7 to 4 of `value`.
    pub fn set_f(&mut self, value: u8)
        ensures
            *final(self) == (Registers { f: unpack_flags(value), ..*old(self) }),
    {
        self.f.z = get_bit(value, 7);
        self.f.n = get_bit(value, 6);
        self.f.h = get_bit(value, 5);
        self.f.c = get_bit(value, 4);
    }

    /// The flags packed into a byte.
    pub fn get_f(&self) -> (r: u8)
        ensures
            r == pack_flags(self.f),
    {
        let mut value: u8 = 0;
        if self.f.z {
            value = value + 0x80;
        }
        if self.f.n {
            value = value + 0x40;
        }
        if self.f.h {
            value = value + 0x20;
        }
        if self.f.c {
            value = value + 0x10;
        }
        value
    }

    pub fn set_af(&mut self, value: u16)
        ensures
            *final(self) == old(self).with_af(value),
    {
        self.a = (value / 256) as u8;
        self.set_f((value % 256) as u8);
    }

    pub fn set_bc(&mut self, value: u16)
        ensures
            *final(self) == old(self).with_bc(value),
    {
        self.b = (value / 256) as u8;
        self.c = (value % 256) as u8;
    }

    pub fn set_de(&mut self, value: u16)
        ensures
            *final(self) == old(self).with_de(value),
    {
        self.d = (value / 256) as u8;
        self.e = (value % 256) as u8;
    }

    pub fn set_hl(&mut self, value: u16)
        ensures
            *final(self) == old(self).with_hl(value),
    {
        self.h = (value / 256) as u8;
        self.l = (value % 256) as u8;
    }

    pub fn get_af(&self) -> (r: u16)
        ensures
            r == self.af(),
    {
        self.a as u16 * 256 + self.get_f() as u16
    }

    pub fn get_bc(&self) -> (r: u16)
        ensures
            r == self.bc(),
    {
        self.b as u16 * 256 + self.c as u16
    }

    pub fn get_de(&self) -> (r: u16)
        ensures
            r == self.de(),
    {
        self.d as u16 * 256 + self.e as u16
    }

    pub fn get_hl(&self) -> (r: u16)
        ensures
            r == self.hl(),
    {
        self.h as u16 * 256 + self.l as u16
    }

    /// Writes the 8-bit register `id`; returns false, changing nothing, when
    /// `id` names no register (6, or 8 and above).
    pub fn set_by_id(&mut self, id: u8, v: u8) -> (r: bool)
        ensures
            r == is_reg8_id(id),
            *final(self) == if r { old(self).with_reg8(id, v) } else { *old(self) },
    {
        match id {
            0 => {
                self.b = v;
                true
            },
            1 => {
                self.c = v;
                true
            },
            2 => {
                self.d = v;
                true
            },
            3 => {
                self.e = v;
                true
            },
            4 => {
                self.h = v;
                true
            },
            5 => {
                self.l = v;
                true
            },
            7 => {
                self.a = v;
                true
            },
            _ => false,
        }
    }

    /// Reads the 8-bit register `id`; `None` when `id` names no register.
    pub fn get_by_id(&self, id: u8) -> (r: Option<u8>)
        ensures
            r == if is_reg8_id(id) { Some(self.reg8(id)) } else { None },
    {
        match id {
            0 => Some(self.b),
            1 => Some(self.c),
            2 => Some(self.d),
            3 => Some(self.e),
            4 => Some(self.h),
            5 => Some(self.l),
            7 => Some(self.a),
            _ => None,
        }
    }

    /// Writes the pair `id` (BC, DE, HL, AF); returns false, changing
    /// nothing, for `id` of 4 and above.
    pub fn set_union_by_id(&mut self, id: u8, v: u16) -> (r: bool)
        ensures
            r == (id < 4),
            *final(self) == if r { old(self).with_pair(id, v) } else { *old(self) },
    {
        match id {
            0 => {
                self.set_bc(v);
                true
            },
            1 => {
                self.set_de(v);
                true
            },
            2 => {
                self.set_hl(v);
                true
            },
            3 => {
                self.set_af(v);
                true
            },
            _ => false,
        }
    }

    /// Reads the pair `id` (BC, DE, HL, AF); `None` for `id` of 4 and above.
    pub fn get_union_by_id(&self, id: u8) -> (r: Option<u16>)
        ensures
            r == if id < 4 { Some(self.pair(id)) } else { None },
    {
        match id {
            0 => Some(self.get_bc()),
            1 => Some(self.get_de()),
            2 => Some(self.get_hl()),
            3 => Some(self.get_af()),
            _ => None,
        }
    }
}

} // verus!
