//! The memory bus: a flat 16-bit address space backed by four regions.
//!
//! | range         | region                          |
//! |---------------|---------------------------------|
//! | 0x0000–0x7FFF | cartridge ROM (read-only)       |
//! | 0x8000–0x9FFF | video RAM                       |
//! | 0xA000–0xBFFF | work RAM                        |
//! | 0xE000–0xFDFF | mirror of work RAM              |
//! | 0xFF80–0xFFFE | high RAM                        |
//! | elsewhere     | unmapped: reads 0, writes lost  |
use vstd::prelude::*;

verus! {

pub const ROM_SIZE: usize = 0x8000;

pub const VRAM_SIZE: usize = 0x2000;

pub const WRAM_SIZE: usize = 0x2000;

pub const HRAM_SIZE: usize = 0x7F;

/// What a read of an unmapped address returns.
pub const UNMAPPED_BYTE: u8 = 0;

#[derive(Debug)]
pub struct Memory {
    pub rom: [u8; 0x8000],
    pub vram: [u8; 0x2000],
    pub wram: [u8; 0x2000],
    pub hram: [u8; 0x7F],
}

/// The contents of the four regions.
pub struct MemView {
    pub rom: Seq<u8>,
    pub vram: Seq<u8>,
    pub wram: Seq<u8>,
    pub hram: Seq<u8>,
}

impl View for Memory {
    type V = MemView;

    open spec fn view(&self) -> MemView {
        MemView { rom: self.rom@, vram: self.vram@, wram: self.wram@, hram: self.hram@ }
    }
}

/// The address lies in a region that accepts writes.
pub open spec fn writable(addr: u16) -> bool {
    (0x8000 <= addr <= 0xBFFF) || (0xE000 <= addr <= 0xFDFF) || (0xFF80 <= addr <= 0xFFFE)
}

impl MemView {
    /// Each region has its size.
    pub open spec fn wf(self) -> bool {
        &&& self.rom.len() == ROM_SIZE
        &&& self.vram.len() == VRAM_SIZE
        &&& self.wram.len() == WRAM_SIZE
        &&& self.hram.len() == HRAM_SIZE
    }

    /// The byte that a read of `addr` returns.
    pub open spec fn read(self, addr: u16) -> u8 {
        if addr <= 0x7FFF {
            self.rom[addr as int]
        } else if addr <= 0x9FFF {
            self.vram[addr - 0x8000]
        } else if addr <= 0xBFFF {
            self.wram[addr - 0xA000]
        } else if 0xE000 <= addr <= 0xFDFF {
            self.wram[addr - 0xE000]
        } else if 0xFF80 <= addr <= 0xFFFE {
            self.hram[addr - 0xFF80]
        } else {
            UNMAPPED_BYTE
        }
    }

    /// The contents after a write of `v` to `addr`.
    pub open spec fn write(self, addr: u16, v: u8) -> MemView {
        if 0x8000 <= addr <= 0x9FFF {
            MemView { vram: self.vram.update(addr - 0x8000, v), ..self }
        } else if 0xA000 <= addr <= 0xBFFF {
            MemView { wram: self.wram.update(addr - 0xA000, v), ..self }
        } else if 0xE000 <= addr <= 0xFDFF {
            MemView { wram: self.wram.update(addr - 0xE000, v), ..self }
        } else if 0xFF80 <= addr <= 0xFFFE {
            MemView { hram: self.hram.update(addr - 0xFF80, v), ..self }
        } else {
            self
        }
    }
}

impl Memory {
    /// Every region filled with zeros.
    pub fn new() -> (r: Memory)
        ensures
            r@.wf(),
            forall|a: u16| #[trigger] r@.read(a) == 0,
    {
        let r = Memory { rom: [0; 0x8000], vram: [0; 0x2000], wram: [0; 0x2000], hram: [0; 0x7F] };
        assert forall|a: u16| #[trigger] r@.read(a) == 0 by {
            if a <= 0x7FFF {
                assert(r.rom@[a as int] == 0);
            } else if a <= 0x9FFF {
                assert(r.vram@[a - 0x8000] == 0);
            } else if a <= 0xBFFF {
                assert(r.wram@[a - 0xA000] == 0);
            } else if 0xE000 <= a <= 0xFDFF {
                assert(r.wram@[a - 0xE000] == 0);
            } else if 0xFF80 <= a <= 0xFFFE {
                assert(r.hram@[a - 0xFF80] == 0);
            }
        }
        r
    }

    pub fn read(&self, addr: u16) -> (r: u8)
        ensures
            r == self@.read(addr),
    {
        if addr <= 0x7FFF {
            self.rom[addr as usize]
        } else if addr <= 0x9FFF {
            self.vram[(addr - 0x8000) as usize]
        } else if addr <= 0xBFFF {
            self.wram[(addr - 0xA000) as usize]
        } else if 0xE000 <= addr && addr <= 0xFDFF {
            self.wram[(addr - 0xE000) as usize]
        } else if 0xFF80 <= addr && addr <= 0xFFFE {
            self.hram[(addr - 0xFF80) as usize]
        } else {
            UNMAPPED_BYTE
        }
    }

    /// Writes `value` to `addr`; a write to ROM or to an unmapped address is
    /// dropped.
    pub fn write(&mut self, addr: u16, value: u8)
        ensures
            final(self)@ == old(self)@.write(addr, value),
    {
        if 0x8000 <= addr && addr <= 0x9FFF {
            self.vram[(addr - 0x8000) as usize] = value;
        } else if 0xA000 <= addr && addr <= 0xBFFF {
            self.wram[(addr - 0xA000) as usize] = value;
        } else if 0xE000 <= addr && addr <= 0xFDFF {
            self.wram[(addr - 0xE000) as usize] = value;
        } else if 0xFF80 <= addr && addr <= 0xFFFE {
            self.hram[(addr - 0xFF80) as usize] = value;
        }
    }

    /// Copies a cartridge image into ROM: its first `ROM_SIZE` bytes, or all
    /// of it when it is shorter; the rest of ROM keeps its contents.
    pub fn load_rom(&mut self, data: &[u8])
        ensures
            final(self)@.vram == old(self)@.vram,
            final(self)@.wram == old(self)@.wram,
            final(self)@.hram == old(self)@.hram,
            forall|i: int|
                0 <= i < ROM_SIZE ==> #[trigger] final(self)@.rom[i] == if i < data@.len() {
                    data@[i]
                } else {
                    old(self)@.rom[i]
                },
    {
        let n: usize = if data.len() < ROM_SIZE {
            data.len()
        } else {
            ROM_SIZE
        };
        let mut i: usize = 0;
        while i < n
            invariant
                n <= ROM_SIZE,
                n <= data@.len(),
                n == data@.len() || n == ROM_SIZE,
                i <= n,
                self@.vram == old(self)@.vram,
                self@.wram == old(self)@.wram,
                self@.hram == old(self)@.hram,
                forall|j: int|
                    0 <= j < ROM_SIZE ==> #[trigger] self.rom@[j] == if j < i {
                        data@[j]
                    } else {
                        old(self)@.rom[j]
                    },
            decreases n - i,
        {
            self.rom[i] = data[i];
            i = i + 1;
        }
    }
}

/// Writes touch only the addresses that share the written cell.
pub proof fn lemma_read_after_write(m: MemView, addr: u16, v: u8, other: u16)
    requires
        m.wf(),
    ensures
        m.write(addr, v).wf(),
        writable(addr) ==> m.write(addr, v).read(addr) == v,
        !writable(addr) ==> m.write(addr, v) == m,
        other != addr && !mirrors(addr, other) ==> m.write(addr, v).read(other) == m.read(other),
{
}

/// `a` and `b` are different addresses of one work RAM cell.
pub open spec fn mirrors(a: u16, b: u16) -> bool {
    ||| (0xA000 <= a <= 0xBFFF && 0xE000 <= b <= 0xFDFF && b - 0xE000 == a - 0xA000)
    ||| (0xE000 <= a <= 0xFDFF && 0xA000 <= b <= 0xBFFF && a - 0xE000 == b - 0xA000)
}

} // verus!
