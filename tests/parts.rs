use gameboy::mem::Memory;
use gameboy::reg::Registers;
use gameboy::util::{get_bit, set_bit, to_signed, u16_offset};

#[test]
fn memory_regions() {
    let mut m = Memory::new();
    m.write(0x8000, 1);
    m.write(0x9FFF, 2);
    m.write(0xA000, 3);
    m.write(0xFF80, 4);
    m.write(0xFFFE, 5);
    assert_eq!(m.read(0x8000), 1);
    assert_eq!(m.read(0x9FFF), 2);
    assert_eq!(m.read(0xA000), 3);
    assert_eq!(m.read(0xFF80), 4);
    assert_eq!(m.read(0xFFFE), 5);
    assert_eq!(m.hram[0x7E], 5);
}

#[test]
fn echo_mirrors_work_ram() {
    let mut m = Memory::new();
    m.write(0xE010, 0x77);
    assert_eq!(m.read(0xA010), 0x77);
    m.write(0xA020, 0x66);
    assert_eq!(m.read(0xE020), 0x66);
}

#[test]
fn rom_and_unmapped_ignore_writes() {
    let mut m = Memory::new();
    m.rom[0x0150] = 0xAB;
    m.write(0x0150, 0x11);
    assert_eq!(m.read(0x0150), 0xAB);
    for a in [0xC000u16, 0xDFFF, 0xFE00, 0xFF00, 0xFF7F, 0xFFFF] {
        m.write(a, 0x42);
        assert_eq!(m.read(a), 0);
    }
}

#[test]
fn load_rom_copies_image() {
    let mut m = Memory::new();
    m.load_rom(&[1, 2, 3]);
    assert_eq!(m.read(0), 1);
    assert_eq!(m.read(2), 3);
    assert_eq!(m.read(3), 0);
    let big = vec![0x5Au8; 0x9000];
    m.load_rom(&big);
    assert_eq!(m.read(0x7FFF), 0x5A);
    assert_eq!(m.read(0x8000), 0);
}

#[test]
fn registers_by_id() {
    let mut r = Registers::new();
    for id in 0..8u8 {
        let ok = r.set_by_id(id, 0x10 + id);
        assert_eq!(ok, id != 6);
    }
    assert_eq!((r.b, r.c, r.d, r.e, r.h, r.l, r.a), (0x10, 0x11, 0x12, 0x13, 0x14, 0x15, 0x17));
    assert_eq!(r.get_by_id(6), None);
    assert_eq!(r.get_by_id(8), None);
    assert!(!r.set_by_id(9, 1));
    assert_eq!(r.get_by_id(7), Some(0x17));
}

#[test]
fn flags_byte() {
    let mut r = Registers::new();
    r.set_f(0xAF);
    assert!(r.f.z && !r.f.n && r.f.h && !r.f.c);
    assert_eq!(r.get_f(), 0xA0);
    r.set_f(0x5F);
    assert_eq!(r.get_f(), 0x50);
}

#[test]
fn bits() {
    assert!(get_bit(0x80, 7));
    assert!(!get_bit(0x7F, 7));
    assert_eq!(set_bit(0x0F, 3, false), 0x07);
    assert_eq!(set_bit(0x0F, 4, true), 0x1F);
    assert_eq!(set_bit(0x0F, 0, true), 0x0F);
}

#[test]
fn signed_offsets() {
    assert_eq!(to_signed(0x00), 0);
    assert_eq!(to_signed(0x7F), 127);
    assert_eq!(to_signed(0x80), -128);
    assert_eq!(to_signed(0xFE), -2);
    assert_eq!(u16_offset(0x0102, -2), 0x0100);
    assert_eq!(u16_offset(0x0000, -1), 0xFFFF);
    assert_eq!(u16_offset(0xFFFF, 1), 0x0000);
    assert_eq!(u16_offset(0x1000, 127), 0x107F);
}
