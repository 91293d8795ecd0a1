use zx81_emulator::cpu::{Cpu, Index};
use zx81_emulator::io::IoController;
use zx81_emulator::memory::Memory;
use zx81_emulator::tape::Tape;

fn machine(program: &[u8]) -> (Cpu, Memory, IoController) {
    let mut rom = vec![0u8; 0x2000];
    for (i, b) in program.iter().enumerate() {
        rom[i] = *b;
    }
    (Cpu::new(), Memory::new(rom), IoController::new())
}

fn run(cpu: &mut Cpu, mem: &mut Memory, io: &mut IoController) -> u8 {
    let tape: Option<Tape> = None;
    cpu.step(mem, io, &tape)
}

#[test]
fn reset_state() {
    let cpu = Cpu::new();
    assert_eq!(cpu.pc, 0);
    assert_eq!(cpu.sp, 0xFFFF);
    assert_eq!(cpu.af(), 0);
    assert_eq!(cpu.bc(), 0);
    assert_eq!(cpu.de(), 0);
    assert_eq!(cpu.hl(), 0);
    assert!(!cpu.is_halted);
    assert!(!cpu.iff1 && !cpu.iff2);
    assert_eq!(cpu.interrupt_mode, 0);
}

#[test]
fn register_pairs_split_and_join() {
    let mut cpu = Cpu::new();
    cpu.set_af(0x1234);
    cpu.set_bc(0x5678);
    cpu.set_de(0x9ABC);
    cpu.set_hl(0xDEF0);
    assert_eq!((cpu.a, cpu.f), (0x12, 0x34));
    assert_eq!((cpu.b, cpu.c), (0x56, 0x78));
    assert_eq!((cpu.d, cpu.e), (0x9A, 0xBC));
    assert_eq!((cpu.h, cpu.l), (0xDE, 0xF0));
    assert_eq!(cpu.af(), 0x1234);
    assert_eq!(cpu.bc(), 0x5678);
    assert_eq!(cpu.de(), 0x9ABC);
    assert_eq!(cpu.hl(), 0xDEF0);
}

#[test]
fn register_codes_map_to_registers_and_memory() {
    let (mut cpu, mut mem, _io) = machine(&[]);
    cpu.set_hl(0x4000);
    for code in 0..8u8 {
        cpu.write_reg(code, 0x10 + code, &mut mem);
    }
    // writing H and L moved HL before code 6 was written
    assert_eq!(cpu.b, 0x10);
    assert_eq!(cpu.c, 0x11);
    assert_eq!(cpu.d, 0x12);
    assert_eq!(cpu.e, 0x13);
    assert_eq!(cpu.h, 0x14);
    assert_eq!(cpu.l, 0x15);
    assert_eq!(cpu.a, 0x17);
    cpu.set_hl(0x4000);
    cpu.write_reg(6, 0x99, &mut mem);
    assert_eq!(mem.read(0x4000), 0x99);
    assert_eq!(cpu.read_reg(6, &mem), 0x99);
    assert_eq!(cpu.read_reg(0, &mem), 0x10);
    assert_eq!(cpu.read_reg(7, &mem), 0x17);
}

#[test]
fn push_then_pop_is_identity() {
    let (mut cpu, mut mem, _io) = machine(&[]);
    cpu.sp = 0x8000;
    cpu.push(0xBEEF, &mut mem);
    assert_eq!(cpu.sp, 0x7FFE);
    assert_eq!(mem.read(0x7FFE), 0xEF);
    assert_eq!(mem.read(0x7FFF), 0xBE);
    assert_eq!(cpu.pop(&mem), 0xBEEF);
    assert_eq!(cpu.sp, 0x8000);
}

#[test]
fn pop_then_push_is_identity() {
    let (mut cpu, mut mem, _io) = machine(&[]);
    mem.write(0x4100, 0x34);
    mem.write(0x4101, 0x12);
    cpu.sp = 0x4100;
    let v = cpu.pop(&mem);
    assert_eq!(v, 0x1234);
    assert_eq!(cpu.sp, 0x4102);
    cpu.push(v, &mut mem);
    assert_eq!(cpu.sp, 0x4100);
    assert_eq!(mem.read(0x4100), 0x34);
    assert_eq!(mem.read(0x4101), 0x12);
}

#[test]
fn stack_pointer_wraps() {
    let (mut cpu, mut mem, _io) = machine(&[]);
    cpu.sp = 0x0001;
    cpu.push(0x1234, &mut mem);
    assert_eq!(cpu.sp, 0xFFFF);
    let _ = cpu.pop(&mem);
    assert_eq!(cpu.sp, 0x0001);
}

#[test]
fn exchanges_are_involutions() {
    let (mut cpu, mut mem, mut io) = machine(&[0xD9, 0xD9, 0x08, 0x08, 0xEB, 0xEB]);
    cpu.set_af(0x0102);
    cpu.set_bc(0x0304);
    cpu.set_de(0x0506);
    cpu.set_hl(0x0708);
    cpu.af_shadow = 0x1112;
    cpu.bc_shadow = 0x1314;
    cpu.de_shadow = 0x1516;
    cpu.hl_shadow = 0x1718;
    let before = cpu;
    assert_eq!(run(&mut cpu, &mut mem, &mut io), 4);
    assert_eq!(cpu.bc(), 0x1314);
    assert_eq!(cpu.de(), 0x1516);
    assert_eq!(cpu.hl(), 0x1718);
    assert_eq!(cpu.bc_shadow, 0x0304);
    assert_eq!(cpu.af(), 0x0102);
    assert_eq!(run(&mut cpu, &mut mem, &mut io), 4);
    assert_eq!((cpu.bc(), cpu.de(), cpu.hl()), (before.bc(), before.de(), before.hl()));
    assert_eq!(run(&mut cpu, &mut mem, &mut io), 4);
    assert_eq!(cpu.af(), 0x1112);
    assert_eq!(cpu.af_shadow, 0x0102);
    assert_eq!(run(&mut cpu, &mut mem, &mut io), 4);
    assert_eq!(cpu.af(), 0x0102);
    assert_eq!(run(&mut cpu, &mut mem, &mut io), 4);
    assert_eq!(cpu.de(), 0x0708);
    assert_eq!(cpu.hl(), 0x0506);
    assert_eq!(run(&mut cpu, &mut mem, &mut io), 4);
    let mut expected = before;
    expected.pc = 6;
    expected.r = 6;
    assert_eq!(cpu, expected);
}

#[test]
fn loads_and_their_timings() {
    let (mut cpu, mut mem, mut io) = machine(&[
        0x01, 0x34, 0x12, // LD BC,0x1234
        0x21, 0x00, 0x40, // LD HL,0x4000
        0x36, 0x5A, // LD (HL),0x5A
        0x7E, // LD A,(HL)
        0x47, // LD B,A
        0x70, // LD (HL),B
        0x32, 0x10, 0x40, // LD (0x4010),A
        0x3A, 0x10, 0x40, // LD A,(0x4010)
        0x22, 0x20, 0x40, // LD (0x4020),HL
        0x2A, 0x20, 0x40, // LD HL,(0x4020)
        0x02, // LD (BC),A
        0x0A, // LD A,(BC)
        0xF9, // LD SP,HL
        0x06, 0x77, // LD B,0x77
    ]);
    assert_eq!(run(&mut cpu, &mut mem, &mut io), 10);
    assert_eq!(cpu.bc(), 0x1234);
    assert_eq!(run(&mut cpu, &mut mem, &mut io), 10);
    assert_eq!(run(&mut cpu, &mut mem, &mut io), 10);
    assert_eq!(mem.read(0x4000), 0x5A);
    assert_eq!(run(&mut cpu, &mut mem, &mut io), 7);
    assert_eq!(cpu.a, 0x5A);
    assert_eq!(run(&mut cpu, &mut mem, &mut io), 4);
    assert_eq!(cpu.b, 0x5A);
    assert_eq!(run(&mut cpu, &mut mem, &mut io), 7);
    assert_eq!(run(&mut cpu, &mut mem, &mut io), 13);
    assert_eq!(mem.read(0x4010), 0x5A);
    assert_eq!(run(&mut cpu, &mut mem, &mut io), 13);
    assert_eq!(run(&mut cpu, &mut mem, &mut io), 16);
    assert_eq!(mem.read_word(0x4020), 0x4000);
    assert_eq!(run(&mut cpu, &mut mem, &mut io), 16);
    assert_eq!(cpu.hl(), 0x4000);
    cpu.set_bc(0x4030);
    assert_eq!(run(&mut cpu, &mut mem, &mut io), 7);
    assert_eq!(mem.read(0x4030), 0x5A);
    assert_eq!(run(&mut cpu, &mut mem, &mut io), 7);
    assert_eq!(run(&mut cpu, &mut mem, &mut io), 6);
    assert_eq!(cpu.sp, 0x4000);
    assert_eq!(run(&mut cpu, &mut mem, &mut io), 7);
    assert_eq!(cpu.b, 0x77);
}

#[test]
fn increments_and_their_timings() {
    let (mut cpu, mut mem, mut io) = machine(&[0x04, 0x05, 0x34, 0x35, 0x03, 0x0B, 0x33, 0x09]);
    cpu.set_hl(0x4000);
    mem.write(0x4000, 0xFF);
    assert_eq!(run(&mut cpu, &mut mem, &mut io), 4);
    assert_eq!(cpu.b, 1);
    assert_eq!(run(&mut cpu, &mut mem, &mut io), 4);
    assert_eq!(cpu.b, 0);
    assert!(cpu.get_flag_z());
    assert_eq!(run(&mut cpu, &mut mem, &mut io), 11);
    assert_eq!(mem.read(0x4000), 0x00);
    assert_eq!(run(&mut cpu, &mut mem, &mut io), 11);
    assert_eq!(mem.read(0x4000), 0xFF);
    assert_eq!(run(&mut cpu, &mut mem, &mut io), 6);
    assert_eq!(cpu.bc(), 1);
    assert_eq!(run(&mut cpu, &mut mem, &mut io), 6);
    assert_eq!(cpu.bc(), 0);
    assert_eq!(run(&mut cpu, &mut mem, &mut io), 6);
    assert_eq!(cpu.sp, 0x0000);
    cpu.set_bc(0x0001);
    assert_eq!(run(&mut cpu, &mut mem, &mut io), 11);
    assert_eq!(cpu.hl(), 0x4001);
}

#[test]
fn register_alu_timings() {
    let (mut cpu, mut mem, mut io) = machine(&[0x80, 0x86, 0xFE, 0x05]);
    cpu.set_hl(0x4000);
    mem.write(0x4000, 0x03);
    cpu.a = 1;
    cpu.b = 1;
    assert_eq!(run(&mut cpu, &mut mem, &mut io), 4);
    assert_eq!(cpu.a, 2);
    assert_eq!(run(&mut cpu, &mut mem, &mut io), 7);
    assert_eq!(cpu.a, 5);
    assert_eq!(run(&mut cpu, &mut mem, &mut io), 7);
    assert_eq!(cpu.a, 5);
    assert!(cpu.get_flag_z());
}

#[test]
fn jumps_taken_and_not_taken() {
    // JP NZ: 10 T either way
    let (mut cpu, mut mem, mut io) = machine(&[0xC2, 0x00, 0x10]);
    cpu.set_flag_z(true);
    assert_eq!(run(&mut cpu, &mut mem, &mut io), 10);
    assert_eq!(cpu.pc, 3);
    let (mut cpu, mut mem, mut io) = machine(&[0xC2, 0x00, 0x10]);
    assert_eq!(run(&mut cpu, &mut mem, &mut io), 10);
    assert_eq!(cpu.pc, 0x1000);
    // JP nn
    let (mut cpu, mut mem, mut io) = machine(&[0xC3, 0x34, 0x12]);
    assert_eq!(run(&mut cpu, &mut mem, &mut io), 10);
    assert_eq!(cpu.pc, 0x1234);
    // JP (HL)
    let (mut cpu, mut mem, mut io) = machine(&[0xE9]);
    cpu.set_hl(0x4321);
    assert_eq!(run(&mut cpu, &mut mem, &mut io), 4);
    assert_eq!(cpu.pc, 0x4321);
}

#[test]
fn relative_jumps() {
    // JR +2
    let (mut cpu, mut mem, mut io) = machine(&[0x18, 0x02]);
    assert_eq!(run(&mut cpu, &mut mem, &mut io), 12);
    assert_eq!(cpu.pc, 4);
    // JR -2 jumps onto itself
    let (mut cpu, mut mem, mut io) = machine(&[0x18, 0xFE]);
    assert_eq!(run(&mut cpu, &mut mem, &mut io), 12);
    assert_eq!(cpu.pc, 0);
    // JR Z not taken
    let (mut cpu, mut mem, mut io) = machine(&[0x28, 0x10]);
    assert_eq!(run(&mut cpu, &mut mem, &mut io), 7);
    assert_eq!(cpu.pc, 2);
    // JR C taken
    let (mut cpu, mut mem, mut io) = machine(&[0x38, 0x10]);
    cpu.set_flag_c(true);
    assert_eq!(run(&mut cpu, &mut mem, &mut io), 12);
    assert_eq!(cpu.pc, 0x12);
}

#[test]
fn djnz_counts_b_down() {
    let (mut cpu, mut mem, mut io) = machine(&[0x10, 0xFE]);
    cpu.b = 2;
    assert_eq!(run(&mut cpu, &mut mem, &mut io), 13);
    assert_eq!(cpu.pc, 0);
    assert_eq!(cpu.b, 1);
    assert_eq!(run(&mut cpu, &mut mem, &mut io), 8);
    assert_eq!(cpu.pc, 2);
    assert_eq!(cpu.b, 0);
}

#[test]
fn returns_taken_and_not_taken() {
    let (mut cpu, mut mem, mut io) = machine(&[0xC8]);
    cpu.sp = 0x4000;
    assert_eq!(run(&mut cpu, &mut mem, &mut io), 5);
    assert_eq!(cpu.pc, 1);
    assert_eq!(cpu.sp, 0x4000);
    let (mut cpu, mut mem, mut io) = machine(&[0xC8]);
    cpu.sp = 0x4000;
    mem.write_word(0x4000, 0x1234);
    cpu.set_flag_z(true);
    assert_eq!(run(&mut cpu, &mut mem, &mut io), 11);
    assert_eq!(cpu.pc, 0x1234);
    assert_eq!(cpu.sp, 0x4002);
}

#[test]
fn rst_push_pop_and_stack_exchange() {
    let (mut cpu, mut mem, mut io) = machine(&[0xEF]);
    cpu.sp = 0x8000;
    assert_eq!(run(&mut cpu, &mut mem, &mut io), 11);
    assert_eq!(cpu.pc, 0x28);
    assert_eq!(mem.read_word(0x7FFE), 0x0001);
    let (mut cpu, mut mem, mut io) = machine(&[0xF5, 0xC1, 0xE3]);
    cpu.sp = 0x8000;
    cpu.set_af(0xA5C3);
    assert_eq!(run(&mut cpu, &mut mem, &mut io), 11);
    assert_eq!(cpu.sp, 0x7FFE);
    assert_eq!(run(&mut cpu, &mut mem, &mut io), 10);
    assert_eq!(cpu.bc(), 0xA5C3);
    assert_eq!(cpu.sp, 0x8000);
    cpu.sp = 0x7FFE;
    cpu.set_hl(0x1122);
    assert_eq!(run(&mut cpu, &mut mem, &mut io), 19);
    assert_eq!(cpu.hl(), 0xA5C3);
    assert_eq!(mem.read_word(0x7FFE), 0x1122);
}

#[test]
fn interrupt_flags_and_modes() {
    let (mut cpu, mut mem, mut io) = machine(&[0xFB, 0xF3, 0xED, 0x56, 0xED, 0x5E, 0xED, 0x46]);
    assert_eq!(run(&mut cpu, &mut mem, &mut io), 4);
    assert!(cpu.iff1 && cpu.iff2);
    assert_eq!(run(&mut cpu, &mut mem, &mut io), 4);
    assert!(!cpu.iff1 && !cpu.iff2);
    assert_eq!(run(&mut cpu, &mut mem, &mut io), 8);
    assert_eq!(cpu.interrupt_mode, 1);
    assert_eq!(run(&mut cpu, &mut mem, &mut io), 8);
    assert_eq!(cpu.interrupt_mode, 2);
    assert_eq!(run(&mut cpu, &mut mem, &mut io), 8);
    assert_eq!(cpu.interrupt_mode, 0);
}

#[test]
fn halt_holds_the_processor() {
    let (mut cpu, mut mem, mut io) = machine(&[0x76, 0x3C]);
    cpu.a = 5;
    assert_eq!(run(&mut cpu, &mut mem, &mut io), 4);
    assert!(cpu.is_halted);
    assert_eq!(cpu.pc, 1);
    let halted = cpu;
    for _ in 0..10 {
        assert_eq!(run(&mut cpu, &mut mem, &mut io), 4);
        assert_eq!(cpu, halted);
    }
}

#[test]
fn refresh_counts_opcode_fetches() {
    let (mut cpu, mut mem, mut io) = machine(&[0x00, 0xCB, 0x00, 0xDD, 0x00]);
    cpu.r = 0xFF;
    run(&mut cpu, &mut mem, &mut io);
    assert_eq!(cpu.r, 0x80);
    run(&mut cpu, &mut mem, &mut io);
    assert_eq!(cpu.r, 0x82);
    run(&mut cpu, &mut mem, &mut io);
    assert_eq!(cpu.r, 0x84);
}

#[test]
fn prefix_before_an_instruction_without_hl() {
    // DD 04 is INC B with 4 T-states more
    let (mut plain, mut mem1, mut io1) = machine(&[0x04]);
    let (mut prefixed, mut mem2, mut io2) = machine(&[0xDD, 0x04]);
    assert_eq!(run(&mut plain, &mut mem1, &mut io1), 4);
    assert_eq!(run(&mut prefixed, &mut mem2, &mut io2), 8);
    let mut expected = plain;
    expected.pc = 2;
    expected.r = 2;
    assert_eq!(prefixed, expected);
    // FD C3: JP nn
    let (mut prefixed, mut mem2, mut io2) = machine(&[0xFD, 0xC3, 0x00, 0x20]);
    assert_eq!(run(&mut prefixed, &mut mem2, &mut io2), 14);
    assert_eq!(prefixed.pc, 0x2000);
}

#[test]
fn prefix_before_a_prefix_is_a_nop() {
    let (mut cpu, mut mem, mut io) = machine(&[0xDD, 0xFD, 0x21, 0x34, 0x12]);
    assert_eq!(run(&mut cpu, &mut mem, &mut io), 4);
    assert_eq!(cpu.pc, 1);
    assert_eq!(run(&mut cpu, &mut mem, &mut io), 14);
    assert_eq!(cpu.iy, 0x1234);
    assert_eq!(cpu.ix, 0);
    assert_eq!(cpu.pc, 5);
}

#[test]
fn index_register_instructions() {
    let (mut cpu, mut mem, mut io) = machine(&[
        0xDD, 0x21, 0x00, 0x40, // LD IX,0x4000
        0xDD, 0x36, 0x02, 0x99, // LD (IX+2),0x99
        0xDD, 0x34, 0x02, // INC (IX+2)
        0xDD, 0x86, 0x02, // ADD A,(IX+2)
        0xDD, 0x70, 0xFF, // LD (IX-1),B
        0xDD, 0x66, 0x02, // LD H,(IX+2)
        0xDD, 0x23, // INC IX
        0xDD, 0xE5, // PUSH IX
        0xFD, 0xE1, // POP IY
        0xDD, 0x09, // ADD IX,BC
        0xDD, 0x26, 0x12, // LD IXH,0x12
        0xDD, 0x7D, // LD A,IXL
        0xFD, 0xE9, // JP (IY)
    ]);
    cpu.sp = 0x8000;
    cpu.ix = 0x1111;
    assert_eq!(run(&mut cpu, &mut mem, &mut io), 14);
    assert_eq!(cpu.ix, 0x4000);
    assert_eq!(run(&mut cpu, &mut mem, &mut io), 19);
    assert_eq!(mem.read(0x4002), 0x99);
    assert_eq!(run(&mut cpu, &mut mem, &mut io), 23);
    assert_eq!(mem.read(0x4002), 0x9A);
    cpu.a = 1;
    assert_eq!(run(&mut cpu, &mut mem, &mut io), 19);
    assert_eq!(cpu.a, 0x9B);
    cpu.b = 0x42;
    cpu.ix = 0x4001;
    assert_eq!(run(&mut cpu, &mut mem, &mut io), 19);
    assert_eq!(mem.read(0x4000), 0x42);
    assert_eq!(run(&mut cpu, &mut mem, &mut io), 19);
    assert_eq!(cpu.h, mem.read(0x4003));
    assert_eq!(cpu.ix, 0x4001);
    assert_eq!(run(&mut cpu, &mut mem, &mut io), 10);
    assert_eq!(cpu.ix, 0x4002);
    assert_eq!(run(&mut cpu, &mut mem, &mut io), 15);
    assert_eq!(run(&mut cpu, &mut mem, &mut io), 14);
    assert_eq!(cpu.iy, 0x4002);
    cpu.set_bc(0x0010);
    assert_eq!(run(&mut cpu, &mut mem, &mut io), 15);
    assert_eq!(cpu.ix, 0x4012);
    assert_eq!(run(&mut cpu, &mut mem, &mut io), 11);
    assert_eq!(cpu.ix, 0x1212);
    assert_eq!(run(&mut cpu, &mut mem, &mut io), 8);
    assert_eq!(cpu.a, 0x12);
    assert_eq!(run(&mut cpu, &mut mem, &mut io), 8);
    assert_eq!(cpu.pc, 0x4002);
}

#[test]
fn index_helpers() {
    let mut cpu = Cpu::new();
    cpu.set_hl(0x1234);
    cpu.ix = 0x5678;
    cpu.iy = 0x9ABC;
    assert_eq!(cpu.index_reg(Index::HL), 0x1234);
    assert_eq!(cpu.index_reg(Index::IX), 0x5678);
    assert_eq!(cpu.index_reg(Index::IY), 0x9ABC);
    assert_eq!(cpu.read_r(4, Index::IX), 0x56);
    assert_eq!(cpu.read_r(5, Index::IY), 0xBC);
    assert_eq!(cpu.read_r(4, Index::HL), 0x12);
    cpu.write_r(5, Index::IX, 0xFF);
    assert_eq!(cpu.ix, 0x56FF);
    assert_eq!(cpu.l, 0x34);
}

#[test]
fn displaced_bit_operations() {
    let (mut cpu, mut mem, mut io) = machine(&[
        0xDD, 0xCB, 0x01, 0xC6, // SET 0,(IX+1)
        0xDD, 0xCB, 0x01, 0x46, // BIT 0,(IX+1)
        0xDD, 0xCB, 0x01, 0x80, // RES 0,(IX+1) -> B
        0xFD, 0xCB, 0xFF, 0x06, // RLC (IY-1)
    ]);
    cpu.ix = 0x4000;
    cpu.iy = 0x4011;
    mem.write(0x4001, 0x10);
    mem.write(0x4010, 0x81);
    assert_eq!(run(&mut cpu, &mut mem, &mut io), 23);
    assert_eq!(mem.read(0x4001), 0x11);
    assert_eq!(run(&mut cpu, &mut mem, &mut io), 20);
    assert!(!cpu.get_flag_z());
    assert_eq!(run(&mut cpu, &mut mem, &mut io), 23);
    assert_eq!(mem.read(0x4001), 0x10);
    assert_eq!(cpu.b, 0x10);
    assert_eq!(run(&mut cpu, &mut mem, &mut io), 23);
    assert_eq!(mem.read(0x4010), 0x03);
    assert!(cpu.get_flag_c());
    assert_eq!(cpu.pc, 16);
}

#[test]
fn cb_table() {
    let (mut cpu, mut mem, mut io) = machine(&[
        0xCB, 0x00, // RLC B
        0xCB, 0x3E, // SRL (HL)
        0xCB, 0x46, // BIT 0,(HL)
        0xCB, 0xFF, // SET 7,A
        0xCB, 0x86, // RES 0,(HL)
        0xCB, 0x30, // not implemented
    ]);
    cpu.b = 0x80;
    cpu.set_hl(0x4000);
    mem.write(0x4000, 0x03);
    assert_eq!(run(&mut cpu, &mut mem, &mut io), 8);
    assert_eq!(cpu.b, 0x01);
    assert!(cpu.get_flag_c());
    assert_eq!(run(&mut cpu, &mut mem, &mut io), 15);
    assert_eq!(mem.read(0x4000), 0x01);
    assert_eq!(run(&mut cpu, &mut mem, &mut io), 12);
    assert!(!cpu.get_flag_z());
    assert_eq!(run(&mut cpu, &mut mem, &mut io), 8);
    assert_eq!(cpu.a, 0x80);
    assert_eq!(run(&mut cpu, &mut mem, &mut io), 15);
    assert_eq!(mem.read(0x4000), 0x00);
    let before = cpu;
    assert_eq!(run(&mut cpu, &mut mem, &mut io), 4);
    assert_eq!(cpu.b, before.b);
    assert_eq!(cpu.f, before.f);
}

#[test]
fn bit_changes_only_flags() {
    for op in 0x40..0x80u8 {
        let (mut cpu, mut mem, mut io) = machine(&[0xCB, op]);
        cpu.set_af(0xA500);
        cpu.set_bc(0x1234);
        cpu.set_de(0x5678);
        cpu.set_hl(0x4000);
        mem.write(0x4000, 0x5A);
        let before = cpu;
        let t = run(&mut cpu, &mut mem, &mut io);
        assert_eq!(t, if op & 7 == 6 { 12 } else { 8 });
        let mut expected = before;
        expected.f = cpu.f;
        expected.pc = 2;
        expected.r = 2;
        assert_eq!(cpu, expected);
        assert_eq!(mem.read(0x4000), 0x5A);
    }
}

#[test]
fn ed_table() {
    let (mut cpu, mut mem, mut io) = machine(&[
        0xED, 0x47, // LD I,A
        0xED, 0x4F, // LD R,A
        0xED, 0x57, // LD A,I
        0xED, 0x43, 0x00, 0x40, // LD (0x4000),BC
        0xED, 0x5B, 0x00, 0x40, // LD DE,(0x4000)
        0xED, 0x4A, // ADC HL,BC
        0xED, 0x52, // SBC HL,DE
        0xED, 0x41, // OUT (C),B
        0xED, 0x00, // not implemented
    ]);
    cpu.a = 0x80;
    cpu.iff2 = true;
    assert_eq!(run(&mut cpu, &mut mem, &mut io), 9);
    assert_eq!(cpu.i, 0x80);
    assert_eq!(run(&mut cpu, &mut mem, &mut io), 9);
    assert_eq!(cpu.r, 0x80);
    cpu.a = 0;
    assert_eq!(run(&mut cpu, &mut mem, &mut io), 9);
    assert_eq!(cpu.a, 0x80);
    assert!(cpu.get_flag_s());
    assert!(cpu.get_flag_pv());
    cpu.set_bc(0x1234);
    assert_eq!(run(&mut cpu, &mut mem, &mut io), 20);
    assert_eq!(mem.read_word(0x4000), 0x1234);
    assert_eq!(run(&mut cpu, &mut mem, &mut io), 20);
    assert_eq!(cpu.de(), 0x1234);
    cpu.set_hl(0x1000);
    cpu.set_flag_c(true);
    assert_eq!(run(&mut cpu, &mut mem, &mut io), 15);
    assert_eq!(cpu.hl(), 0x2235);
    assert_eq!(run(&mut cpu, &mut mem, &mut io), 15);
    assert_eq!(cpu.hl(), 0x1001);
    assert_eq!(run(&mut cpu, &mut mem, &mut io), 12);
    let before = cpu;
    assert_eq!(run(&mut cpu, &mut mem, &mut io), 4);
    let mut expected = before;
    expected.pc = before.pc + 2;
    expected.r = before.r.wrapping_add(2) & 0x7F | (before.r & 0x80);
    assert_eq!(cpu, expected);
}

#[test]
fn block_moves() {
    // LDI
    let (mut cpu, mut mem, mut io) = machine(&[0xED, 0xA0]);
    mem.write(0x4000, 0x11);
    cpu.set_hl(0x4000);
    cpu.set_de(0x4010);
    cpu.set_bc(2);
    cpu.f = 0xFF;
    assert_eq!(run(&mut cpu, &mut mem, &mut io), 16);
    assert_eq!(mem.read(0x4010), 0x11);
    assert_eq!((cpu.hl(), cpu.de(), cpu.bc()), (0x4001, 0x4011, 1));
    assert!(cpu.get_flag_pv());
    assert!(!cpu.get_flag_h() && !cpu.get_flag_n());
    assert_eq!(cpu.pc, 2);
    // LDD
    let (mut cpu, mut mem, mut io) = machine(&[0xED, 0xA8]);
    mem.write(0x4001, 0x22);
    cpu.set_hl(0x4001);
    cpu.set_de(0x4011);
    cpu.set_bc(1);
    assert_eq!(run(&mut cpu, &mut mem, &mut io), 16);
    assert_eq!(mem.read(0x4011), 0x22);
    assert_eq!((cpu.hl(), cpu.de(), cpu.bc()), (0x4000, 0x4010, 0));
    assert!(!cpu.get_flag_pv());
    // LDDR
    let (mut cpu, mut mem, mut io) = machine(&[0xED, 0xB8]);
    mem.write(0x4000, 1);
    mem.write(0x4001, 2);
    cpu.set_hl(0x4001);
    cpu.set_de(0x4011);
    cpu.set_bc(2);
    assert_eq!(run(&mut cpu, &mut mem, &mut io), 21);
    assert_eq!(cpu.pc, 0);
    assert_eq!(run(&mut cpu, &mut mem, &mut io), 16);
    assert_eq!(cpu.pc, 2);
    assert_eq!(mem.read(0x4010), 1);
    assert_eq!(mem.read(0x4011), 2);
    assert_eq!(cpu.bc(), 0);
}

#[test]
fn block_search() {
    // CPIR finds the third byte
    let (mut cpu, mut mem, mut io) = machine(&[0xED, 0xB1]);
    for (i, b) in [1u8, 2, 3, 4, 5].iter().enumerate() {
        mem.write(0x4000 + i as u16, *b);
    }
    cpu.a = 3;
    cpu.set_hl(0x4000);
    cpu.set_bc(5);
    let mut total = 0u32;
    let mut comparisons = 0;
    while cpu.pc != 2 {
        total += run(&mut cpu, &mut mem, &mut io) as u32;
        comparisons += 1;
    }
    assert_eq!(comparisons, 3);
    assert_eq!(total, 21 * 3 - 5);
    assert!(cpu.get_flag_z());
    assert_eq!(cpu.bc(), 5 - 3);
    assert_eq!(cpu.hl(), 0x4003);
    assert!(cpu.get_flag_pv());
    assert!(cpu.get_flag_n());
    // CPIR runs out of bytes
    let (mut cpu, mut mem, mut io) = machine(&[0xED, 0xB1]);
    cpu.a = 9;
    cpu.set_hl(0x4000);
    cpu.set_bc(4);
    let mut comparisons = 0;
    while cpu.pc != 2 {
        run(&mut cpu, &mut mem, &mut io);
        comparisons += 1;
    }
    assert_eq!(comparisons, 4);
    assert!(!cpu.get_flag_z());
    assert_eq!(cpu.bc(), 0);
    assert!(!cpu.get_flag_pv());
    // CPI and CPD
    let (mut cpu, mut mem, mut io) = machine(&[0xED, 0xA1, 0xED, 0xA9]);
    mem.write(0x4000, 7);
    cpu.a = 7;
    cpu.set_hl(0x4000);
    cpu.set_bc(1);
    assert_eq!(run(&mut cpu, &mut mem, &mut io), 16);
    assert!(cpu.get_flag_z());
    assert_eq!(cpu.hl(), 0x4001);
    assert_eq!(cpu.bc(), 0);
    assert_eq!(run(&mut cpu, &mut mem, &mut io), 16);
    assert_eq!(cpu.hl(), 0x4000);
    assert_eq!(cpu.bc(), 0xFFFF);
    assert!(cpu.get_flag_pv());
}

#[test]
fn every_opcode_takes_between_4_and_23_t_states() {
    for prefix in [None, Some(0xCBu8), Some(0xDD), Some(0xED), Some(0xFD)] {
        for op in 0..=255u8 {
            let program: Vec<u8> = match prefix {
                None => vec![op, 0x10, 0x40, 0x00],
                Some(p) => vec![p, op, 0x10, 0x40, 0x00],
            };
            let (mut cpu, mut mem, mut io) = machine(&program);
            cpu.sp = 0x8000;
            cpu.set_hl(0x4000);
            cpu.set_bc(0x0002);
            let t = run(&mut cpu, &mut mem, &mut io);
            assert!((4..=23).contains(&t));
        }
    }
}
