use gameboy::reg::Registers;
use gameboy::util::{get_bit, set_bit};
use gameboy::Gameboy;

fn machine(program: &[u8]) -> Gameboy {
    let mut gb = Gameboy::new();
    for (i, b) in program.iter().enumerate() {
        gb.mem.rom[0x0100 + i] = *b;
    }
    gb
}

#[test]
fn push_then_pop_round_trips() {
    // PUSH BC; POP DE
    let mut gb = machine(&[0xC5, 0xD1]);
    gb.cpu.reg.set_bc(0xBEEF);
    gb.cpu.reg.sp = 0xFFFE;
    assert_eq!(gb.step(), Ok(16));
    assert_eq!(gb.cpu.reg.sp, 0xFFFC);
    assert_eq!(gb.mem.read(0xFFFD), 0xBE);
    assert_eq!(gb.mem.read(0xFFFC), 0xEF);
    assert_eq!(gb.step(), Ok(12));
    assert_eq!(gb.cpu.reg.get_de(), 0xBEEF);
    assert_eq!(gb.cpu.reg.sp, 0xFFFE);
}

#[test]
fn call_then_ret_round_trips() {
    // CALL 0x0200 ... RET
    let mut gb = machine(&[0xCD, 0x00, 0x02]);
    gb.mem.rom[0x0200] = 0xC9;
    assert_eq!(gb.step(), Ok(24));
    assert_eq!(gb.cpu.reg.pc, 0x0200);
    assert_eq!(gb.cpu.reg.sp, 0xFFFC);
    assert_eq!(gb.mem.read(0xFFFD), 0x01);
    assert_eq!(gb.mem.read(0xFFFC), 0x03);
    assert_eq!(gb.step(), Ok(16));
    assert_eq!(gb.cpu.reg.pc, 0x0103);
    assert_eq!(gb.cpu.reg.sp, 0xFFFE);
}

#[test]
fn pop_af_masks_low_nibble() {
    // PUSH BC; POP AF
    let mut gb = machine(&[0xC5, 0xF1]);
    gb.cpu.reg.set_bc(0x12FF);
    gb.step().unwrap();
    gb.step().unwrap();
    assert_eq!(gb.cpu.reg.get_af(), 0x12F0);
    assert!(gb.cpu.reg.f.z && gb.cpu.reg.f.n && gb.cpu.reg.f.h && gb.cpu.reg.f.c);
}

#[test]
fn pair_set_then_get() {
    let mut r = Registers::new();
    for v in [0x0000u16, 0x1234, 0xABCD, 0xFFFF, 0x00F7] {
        for id in 0..4u8 {
            assert!(r.set_union_by_id(id, v));
            let expected = if id == 3 { v & 0xFFF0 } else { v };
            assert_eq!(r.get_union_by_id(id), Some(expected));
            assert_eq!(r.get_af() & 0x000F, 0);
        }
    }
    assert!(!r.set_union_by_id(4, 1));
    assert_eq!(r.get_union_by_id(4), None);
}

#[test]
fn pair_halves() {
    let mut r = Registers::new();
    r.set_de(0x5A3C);
    assert_eq!((r.d, r.e), (0x5A, 0x3C));
    r.set_hl(0xC0DE);
    assert_eq!((r.h, r.l), (0xC0, 0xDE));
    r.set_af(0x77B5);
    assert_eq!(r.a, 0x77);
    assert_eq!(r.get_f(), 0xB0);
    assert!(r.f.z && !r.f.n && r.f.h && r.f.c);
}

#[test]
fn inc_then_dec_restores_every_register() {
    for y in [0u8, 1, 2, 3, 4, 5, 7] {
        for v in [0x00u8, 0x0F, 0x7F, 0xFF] {
            for carry in [false, true] {
                let mut gb = machine(&[0x04 + 8 * y, 0x05 + 8 * y, 0x05 + 8 * y, 0x04 + 8 * y]);
                gb.cpu.reg.set_by_id(y, v);
                gb.cpu.reg.f.c = carry;
                assert_eq!(gb.step(), Ok(4));
                assert_eq!(gb.cpu.reg.f.c, carry);
                assert_eq!(gb.step(), Ok(4));
                assert_eq!(gb.cpu.reg.get_by_id(y), Some(v));
                assert_eq!(gb.cpu.reg.f.c, carry);
                gb.step().unwrap();
                gb.step().unwrap();
                assert_eq!(gb.cpu.reg.get_by_id(y), Some(v));
                assert_eq!(gb.cpu.reg.f.c, carry);
            }
        }
    }
}

#[test]
fn half_carry_from_value_before() {
    for v in 0..=255u8 {
        let mut gb = machine(&[0x0C, 0x15]);
        gb.cpu.reg.c = v;
        gb.cpu.reg.d = v;
        gb.step().unwrap();
        assert_eq!(gb.cpu.reg.f.h, v & 0x0F == 0x0F);
        gb.step().unwrap();
        assert_eq!(gb.cpu.reg.f.h, v & 0x0F == 0x00);
    }
}

#[test]
fn inc_hl_memory_operand() {
    // INC (HL) then DEC (HL) on work RAM
    let mut gb = machine(&[0x34, 0x35]);
    gb.cpu.reg.set_hl(0xA000);
    gb.mem.write(0xA000, 0xFF);
    assert_eq!(gb.step(), Ok(12));
    assert_eq!(gb.mem.read(0xA000), 0x00);
    assert!(gb.cpu.reg.f.z && gb.cpu.reg.f.h);
    assert_eq!(gb.step(), Ok(12));
    assert_eq!(gb.mem.read(0xA000), 0xFF);
}

#[test]
fn conditional_costs_follow_flags() {
    // (opcode base, taken, not taken) for JR cc, JP cc, CALL cc, RET cc
    let families = [(0x20u8, 12i8, 8i8), (0xC2, 16, 12), (0xC4, 24, 12), (0xC0, 20, 8)];
    for (base, taken, not_taken) in families {
        for cc in 0..4u8 {
            for z in [false, true] {
                for c in [false, true] {
                    let mut gb = machine(&[base + 8 * cc, 0x00, 0x02]);
                    gb.cpu.reg.f.z = z;
                    gb.cpu.reg.f.c = c;
                    let holds = match cc {
                        0 => !z,
                        1 => z,
                        2 => !c,
                        _ => c,
                    };
                    let expected = if holds { taken } else { not_taken };
                    assert_eq!(gb.step(), Ok(expected));
                }
            }
        }
    }
}

#[test]
fn bit_leaves_operand() {
    // BIT 3,B ; BIT 3,(HL)
    let mut gb = machine(&[0xCB, 0x58, 0xCB, 0x5E]);
    gb.cpu.reg.b = 0x08;
    gb.cpu.reg.set_hl(0x8001);
    gb.mem.write(0x8001, 0xF7);
    gb.cpu.reg.f.c = true;
    assert_eq!(gb.step(), Ok(8));
    assert_eq!(gb.cpu.reg.b, 0x08);
    assert!(!gb.cpu.reg.f.z && !gb.cpu.reg.f.n && gb.cpu.reg.f.h && gb.cpu.reg.f.c);
    assert_eq!(gb.step(), Ok(12));
    assert_eq!(gb.mem.read(0x8001), 0xF7);
    assert!(gb.cpu.reg.f.z);
}

#[test]
fn set_then_res_and_res_then_set() {
    for b in 0..8u8 {
        // SET b,A ; RES b,A ; RES b,(HL) ; SET b,(HL)
        let mut gb = machine(&[0xCB, 0xC7 + 8 * b, 0xCB, 0x87 + 8 * b, 0xCB, 0x86 + 8 * b, 0xCB, 0xC6 + 8 * b]);
        gb.cpu.reg.a = 0x5A;
        gb.cpu.reg.set_hl(0xFF90);
        gb.mem.write(0xFF90, 0xA5);
        assert_eq!(gb.step(), Ok(8));
        assert!(get_bit(gb.cpu.reg.a, b));
        assert_eq!(gb.step(), Ok(8));
        assert!(!get_bit(gb.cpu.reg.a, b));
        assert_eq!(gb.cpu.reg.a, 0x5A & !(1 << b));
        assert_eq!(gb.step(), Ok(16));
        assert!(!get_bit(gb.mem.read(0xFF90), b));
        assert_eq!(gb.step(), Ok(16));
        assert!(get_bit(gb.mem.read(0xFF90), b));
        assert_eq!(gb.mem.read(0xFF90), 0xA5 | (1 << b));
    }
}

#[test]
fn set_bit_values() {
    assert_eq!(set_bit(0x00, 7, true), 0x80);
    assert_eq!(set_bit(0xFF, 0, false), 0xFE);
    assert_eq!(set_bit(set_bit(0x3C, 4, true), 4, false), 0x2C);
    assert!(get_bit(0x10, 4));
    assert!(!get_bit(0x10, 3));
}
