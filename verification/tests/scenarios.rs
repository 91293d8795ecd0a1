use zx81_emulator::cpu::Cpu;
use zx81_emulator::io::{IoController, Key};
use zx81_emulator::memory::Memory;
use zx81_emulator::tape::Tape;

fn machine(program: &[u8]) -> (Cpu, Memory, IoController) {
    let mut rom = vec![0u8; 0x2000];
    for (i, b) in program.iter().enumerate() {
        rom[i] = *b;
    }
    (Cpu::new(), Memory::new(rom), IoController::new())
}

#[test]
fn arithmetic_and_flags() {
    let (mut cpu, mut mem, mut io) = machine(&[0x3E, 0x0F, 0xC6, 0x01]);
    let tape: Option<Tape> = None;
    cpu.set_af(0x0001);
    let t1 = cpu.step(&mut mem, &mut io, &tape);
    let t2 = cpu.step(&mut mem, &mut io, &tape);
    assert_eq!(cpu.a, 0x10);
    assert!(cpu.get_flag_h());
    assert!(!cpu.get_flag_z());
    assert!(!cpu.get_flag_s());
    assert!(!cpu.get_flag_n());
    assert!(!cpu.get_flag_c());
    assert!(!cpu.get_flag_pv());
    assert_eq!(t1, 7);
    assert_eq!(t2, 7);
    assert_eq!(cpu.pc, 4);
}

#[test]
fn block_copy_with_ldir() {
    let (mut cpu, mut mem, mut io) = machine(&[0xED, 0xB0]);
    let tape: Option<Tape> = None;
    for i in 0..5u16 {
        mem.write(0x4000 + i, (i + 1) as u8);
    }
    cpu.set_hl(0x4000);
    cpu.set_de(0x4100);
    cpu.set_bc(0x0005);
    cpu.f = 0xFF;
    let mut total: u32 = 0;
    let mut steps = 0;
    while cpu.pc != 2 {
        total += cpu.step(&mut mem, &mut io, &tape) as u32;
        steps += 1;
        assert!(steps <= 5);
    }
    assert_eq!(steps, 5);
    for i in 0..5u16 {
        assert_eq!(mem.read(0x4100 + i), (i + 1) as u8);
    }
    assert_eq!(cpu.bc(), 0);
    assert_eq!(cpu.hl(), 0x4005);
    assert_eq!(cpu.de(), 0x4105);
    assert!(!cpu.get_flag_pv());
    assert!(!cpu.get_flag_h());
    assert!(!cpu.get_flag_n());
    assert_eq!(total, 100);
}

#[test]
fn conditional_call_and_return() {
    let mut rom = vec![0u8; 0x2000];
    rom[0] = 0xCC;
    rom[1] = 0x34;
    rom[2] = 0x12;
    rom[0x1234] = 0xC9;
    let mut mem = Memory::new(rom);
    let mut io = IoController::new();
    let mut cpu = Cpu::new();
    let tape: Option<Tape> = None;
    cpu.sp = 0x8000;
    cpu.set_flag_z(true);
    let t = cpu.step(&mut mem, &mut io, &tape);
    assert_eq!(t, 17);
    assert_eq!(cpu.pc, 0x1234);
    assert_eq!(cpu.sp, 0x7FFE);
    assert_eq!(mem.read(0x7FFE), 0x03);
    assert_eq!(mem.read(0x7FFF), 0x00);
    let t = cpu.step(&mut mem, &mut io, &tape);
    assert_eq!(t, 10);
    assert_eq!(cpu.pc, 0x0003);
    assert_eq!(cpu.sp, 0x8000);
}

#[test]
fn conditional_call_not_taken() {
    let (mut cpu, mut mem, mut io) = machine(&[0xCC, 0x34, 0x12]);
    let tape: Option<Tape> = None;
    cpu.sp = 0x8000;
    cpu.set_flag_z(false);
    let t = cpu.step(&mut mem, &mut io, &tape);
    assert_eq!(t, 10);
    assert_eq!(cpu.pc, 3);
    assert_eq!(cpu.sp, 0x8000);
}

#[test]
fn ix_displaced_load() {
    let (mut cpu, mut mem, mut io) = machine(&[0xDD, 0x7E, 0x05]);
    let tape: Option<Tape> = None;
    cpu.ix = 0x4000;
    mem.write(0x4005, 0x7E);
    let t = cpu.step(&mut mem, &mut io, &tape);
    assert_eq!(cpu.a, 0x7E);
    assert_eq!(t, 19);
    assert_eq!(cpu.pc, 3);
}

#[test]
fn bit_test_via_cb() {
    let (mut cpu, mut mem, mut io) = machine(&[0xCB, 0x78]);
    let tape: Option<Tape> = None;
    cpu.b = 0x80;
    let t = cpu.step(&mut mem, &mut io, &tape);
    assert!(!cpu.get_flag_z());
    assert!(cpu.get_flag_s());
    assert!(cpu.get_flag_h());
    assert!(!cpu.get_flag_n());
    assert!(!cpu.get_flag_pv());
    assert_eq!(cpu.b, 0x80);
    assert_eq!(t, 8);
}

#[test]
fn keyboard_read_through_c() {
    let (mut cpu, mut mem, mut io) = machine(&[0xED, 0x78]);
    let tape: Option<Tape> = None;
    io.update_keys(&[Key::A]);
    cpu.set_bc(0xFDFE);
    let t = cpu.step(&mut mem, &mut io, &tape);
    assert_eq!(cpu.a, 0xFE);
    assert_eq!(t, 12);
}

#[test]
fn keyboard_read_immediate_port() {
    let (mut cpu, mut mem, mut io) = machine(&[0xDB, 0xFE]);
    let tape: Option<Tape> = None;
    io.update_keys(&[Key::A]);
    cpu.a = 0xFD;
    let t = cpu.step(&mut mem, &mut io, &tape);
    assert_eq!(cpu.a, 0xFE);
    assert_eq!(t, 11);
}
