use gameboy::cpu::{Cpu, CpuError};
use gameboy::mem::Memory;
use gameboy::Gameboy;

/// A machine with `program` in ROM at 0x0100, where pc starts.
fn machine(program: &[u8]) -> Gameboy {
    let mut gb = Gameboy::new();
    for (i, b) in program.iter().enumerate() {
        gb.mem.rom[0x0100 + i] = *b;
    }
    gb
}

fn same_except_pc(a: &Cpu, b: &Cpu) -> bool {
    let mut x = *a;
    x.reg.pc = b.reg.pc;
    x == *b
}

#[test]
fn nop_advances_pc_only() {
    let mut gb = machine(&[0x00]);
    gb.cpu.reg.a = 0x12;
    gb.cpu.reg.f.c = true;
    let before = gb.cpu;
    assert_eq!(gb.step(), Ok(4));
    assert_eq!(gb.cpu.reg.pc, 0x0101);
    assert!(same_except_pc(&gb.cpu, &before));
}

#[test]
fn ld_bc_immediate_word() {
    let mut gb = machine(&[0x01, 0x34, 0x12]);
    assert_eq!(gb.step(), Ok(12));
    assert_eq!(gb.cpu.reg.get_bc(), 0x1234);
    assert_eq!(gb.cpu.reg.b, 0x12);
    assert_eq!(gb.cpu.reg.c, 0x34);
    assert_eq!(gb.cpu.reg.pc, 0x0103);
}

#[test]
fn inc_a_sets_half_carry() {
    for carry in [false, true] {
        let mut gb = machine(&[0x3C]);
        gb.cpu.reg.a = 0x0F;
        gb.cpu.reg.f.c = carry;
        assert_eq!(gb.step(), Ok(4));
        assert_eq!(gb.cpu.reg.a, 0x10);
        assert!(!gb.cpu.reg.f.z);
        assert!(!gb.cpu.reg.f.n);
        assert!(gb.cpu.reg.f.h);
        assert_eq!(gb.cpu.reg.f.c, carry);
    }
}

#[test]
fn dec_b_wraps_to_ff() {
    let mut gb = machine(&[0x05]);
    gb.cpu.reg.b = 0x00;
    assert_eq!(gb.step(), Ok(4));
    assert_eq!(gb.cpu.reg.b, 0xFF);
    assert!(!gb.cpu.reg.f.z);
    assert!(gb.cpu.reg.f.n);
    assert!(gb.cpu.reg.f.h);
}

#[test]
fn jr_nz_back_two_when_taken() {
    let mut gb = machine(&[0x20, 0xFE]);
    gb.cpu.reg.f.z = false;
    assert_eq!(gb.step(), Ok(12));
    assert_eq!(gb.cpu.reg.pc, 0x0100);
}

#[test]
fn jr_nz_falls_through_when_zero() {
    let mut gb = machine(&[0x20, 0xFE]);
    gb.cpu.reg.f.z = true;
    assert_eq!(gb.step(), Ok(8));
    assert_eq!(gb.cpu.reg.pc, 0x0102);
}

#[test]
fn undefined_opcode_is_reported() {
    let mut gb = machine(&[0xFD]);
    gb.cpu.reg.a = 0x55;
    gb.cpu.reg.set_hl(0x8000);
    let before = gb.cpu;
    assert_eq!(gb.step(), Err(CpuError::IllegalOpcode { opcode: 0xFD, address: 0x0100 }));
    assert_eq!(gb.cpu, before);
}

#[test]
fn every_undefined_opcode_is_reported() {
    let undefined = [0xD3u8, 0xDB, 0xDD, 0xE3, 0xE4, 0xEB, 0xEC, 0xED, 0xF4, 0xFC, 0xFD];
    for op in 0..=255u8 {
        let mut gb = machine(&[op, 0x00, 0x00]);
        gb.cpu.reg.sp = 0xFFFE;
        let r = gb.step();
        if undefined.contains(&op) {
            assert_eq!(r, Err(CpuError::IllegalOpcode { opcode: op, address: 0x0100 }));
        } else {
            let t = r.unwrap();
            assert!(t >= 4 && t <= 24 && t % 4 == 0, "opcode {:X} cost {}", op, t);
        }
    }
}

#[test]
fn every_extended_opcode_is_defined() {
    for op in 0..=255u8 {
        let mut gb = machine(&[0xCB, op]);
        let t = gb.step().unwrap();
        let expected = if op % 8 != 6 {
            8
        } else if op / 64 == 1 {
            12
        } else {
            16
        };
        assert_eq!(t, expected, "extended opcode {:X}", op);
        assert_eq!(gb.cpu.reg.pc, 0x0102);
    }
}

#[test]
fn new_cpu_is_reset() {
    let cpu = Cpu::new();
    assert_eq!(cpu.reg.pc, 0x0100);
    assert_eq!(cpu.reg.sp, 0xFFFE);
    assert_eq!(cpu.reg.get_af(), 0);
    assert_eq!(cpu.reg.get_bc(), 0);
    assert_eq!(cpu.reg.get_de(), 0);
    assert_eq!(cpu.reg.get_hl(), 0);
    assert!(!cpu.ime && !cpu.halted && !cpu.stopped);
}

#[test]
fn cpu_step_against_memory() {
    let mut cpu = Cpu::new();
    let mut mem = Memory::new();
    mem.rom[0x0100] = 0x3E;
    mem.rom[0x0101] = 0x42;
    assert_eq!(cpu.step(&mut mem), Ok(8));
    assert_eq!(cpu.reg.a, 0x42);
    assert_eq!(cpu.reg.pc, 0x0102);
}
