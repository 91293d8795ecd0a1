use zx81_emulator::cpu::Cpu;
use zx81_emulator::io::IoController;
use zx81_emulator::memory::Memory;
use zx81_emulator::tape::Tape;

// T-states of the primary table with every flag clear and B = 2, so that
// NZ, NC, PO and P hold and DJNZ jumps. 0 marks the four prefixes.
const CLEAR_FLAGS: [u8; 256] = [
    4, 10, 7, 6, 4, 4, 7, 4, 4, 11, 7, 6, 4, 4, 7, 4, // 00
    13, 10, 7, 6, 4, 4, 7, 4, 12, 11, 7, 6, 4, 4, 7, 4, // 10
    12, 10, 16, 6, 4, 4, 7, 4, 7, 11, 16, 6, 4, 4, 7, 4, // 20
    12, 10, 13, 6, 11, 11, 10, 4, 7, 11, 13, 6, 4, 4, 7, 4, // 30
    4, 4, 4, 4, 4, 4, 7, 4, 4, 4, 4, 4, 4, 4, 7, 4, // 40
    4, 4, 4, 4, 4, 4, 7, 4, 4, 4, 4, 4, 4, 4, 7, 4, // 50
    4, 4, 4, 4, 4, 4, 7, 4, 4, 4, 4, 4, 4, 4, 7, 4, // 60
    7, 7, 7, 7, 7, 7, 4, 7, 4, 4, 4, 4, 4, 4, 7, 4, // 70
    4, 4, 4, 4, 4, 4, 7, 4, 4, 4, 4, 4, 4, 4, 7, 4, // 80
    4, 4, 4, 4, 4, 4, 7, 4, 4, 4, 4, 4, 4, 4, 7, 4, // 90
    4, 4, 4, 4, 4, 4, 7, 4, 4, 4, 4, 4, 4, 4, 7, 4, // A0
    4, 4, 4, 4, 4, 4, 7, 4, 4, 4, 4, 4, 4, 4, 7, 4, // B0
    11, 10, 10, 10, 17, 11, 7, 11, 5, 10, 10, 0, 10, 17, 7, 11, // C0
    11, 10, 10, 11, 17, 11, 7, 11, 5, 4, 10, 11, 10, 0, 7, 11, // D0
    11, 10, 10, 19, 17, 11, 7, 11, 5, 4, 10, 4, 10, 0, 7, 11, // E0
    11, 10, 10, 4, 17, 11, 7, 11, 5, 6, 10, 4, 10, 0, 7, 11, // F0
];

// The opcodes whose time changes when every flag is set and B = 1.
const SET_FLAGS: [(u8, u8); 21] = [
    (0x10, 8),
    (0x20, 7),
    (0x28, 12),
    (0x30, 7),
    (0x38, 12),
    (0xC0, 5),
    (0xC8, 11),
    (0xD0, 5),
    (0xD8, 11),
    (0xE0, 5),
    (0xE8, 11),
    (0xF0, 5),
    (0xF8, 11),
    (0xC4, 10),
    (0xCC, 17),
    (0xD4, 10),
    (0xDC, 17),
    (0xE4, 10),
    (0xEC, 17),
    (0xF4, 10),
    (0xFC, 17),
];

fn time_of(program: &[u8], f: u8, b: u8) -> u8 {
    let mut rom = vec![0u8; 0x2000];
    for (i, byte) in program.iter().enumerate() {
        rom[i] = *byte;
    }
    let mut mem = Memory::new(rom);
    let mut io = IoController::new();
    let mut cpu = Cpu::new();
    let tape: Option<Tape> = None;
    cpu.f = f;
    cpu.b = b;
    cpu.sp = 0x8000;
    cpu.set_hl(0x4000);
    cpu.ix = 0x4000;
    cpu.iy = 0x4000;
    cpu.step(&mut mem, &mut io, &tape)
}

#[test]
fn primary_table_timings_with_flags_clear() {
    for op in 0..=255u8 {
        let expected = CLEAR_FLAGS[op as usize];
        if expected != 0 {
            assert_eq!(time_of(&[op, 0x02, 0x40], 0x00, 2), expected);
        }
    }
}

#[test]
fn primary_table_timings_with_flags_set() {
    for op in 0..=255u8 {
        let mut expected = CLEAR_FLAGS[op as usize];
        for (changed, t) in SET_FLAGS.iter() {
            if *changed == op {
                expected = *t;
            }
        }
        if expected != 0 {
            assert_eq!(time_of(&[op, 0x02, 0x40], 0xFF, 1), expected);
        }
    }
}

#[test]
fn cb_table_timings() {
    for op in 0..=255u8 {
        let memory_operand = op & 7 == 6;
        let expected = if (0x30..0x38).contains(&op) {
            4
        } else if !memory_operand {
            8
        } else if (0x40..0x80).contains(&op) {
            12
        } else {
            15
        };
        assert_eq!(time_of(&[0xCB, op], 0x00, 2), expected);
    }
}

#[test]
fn index_prefix_timings() {
    // what the prefix adds to the primary table, by kind of instruction
    for prefix in [0xDDu8, 0xFD] {
        for op in 0..=255u8 {
            if [0xCB, 0xDD, 0xED, 0xFD].contains(&op) {
                continue;
            }
            let plain = CLEAR_FLAGS[op as usize];
            let displaced = match op {
                0x34 | 0x35 => true,
                0x36 => true,
                0x76 => false,
                0x40..=0x7F => op & 7 == 6 || (op >> 3) & 7 == 6,
                0x80..=0xBF => op & 7 == 6,
                _ => false,
            };
            let expected = if op == 0x36 {
                19
            } else if displaced {
                plain + 4 + 8
            } else {
                plain + 4
            };
            assert_eq!(time_of(&[prefix, op, 0x02, 0x40], 0x00, 2), expected);
        }
        // the displaced bit operations
        for op in 0..=255u8 {
            let expected = if (0x30..0x38).contains(&op) {
                4
            } else if (0x40..0x80).contains(&op) {
                20
            } else {
                23
            };
            assert_eq!(time_of(&[prefix, 0xCB, 0x01, op], 0x00, 2), expected);
        }
    }
}

#[test]
fn ed_table_timings() {
    let known: [(u8, u8); 29] = [
        (0x40, 12),
        (0x78, 12),
        (0x41, 12),
        (0x79, 12),
        (0x42, 15),
        (0x52, 15),
        (0x62, 15),
        (0x72, 15),
        (0x4A, 15),
        (0x5A, 15),
        (0x6A, 15),
        (0x7A, 15),
        (0x43, 20),
        (0x53, 20),
        (0x73, 20),
        (0x4B, 20),
        (0x5B, 20),
        (0x7B, 20),
        (0x44, 8),
        (0x46, 8),
        (0x56, 8),
        (0x5E, 8),
        (0x47, 9),
        (0x4F, 9),
        (0x57, 9),
        (0x5F, 9),
        (0xA0, 16),
        (0xA1, 16),
        (0xA8, 16),
    ];
    for (op, t) in known.iter() {
        assert_eq!(time_of(&[0xED, *op, 0x00, 0x40], 0x00, 2), *t);
    }
    // the repeating moves: B = 2, C = 0, so BC is not zero afterwards
    for op in [0xB0u8, 0xB8] {
        assert_eq!(time_of(&[0xED, op], 0x00, 2), 21);
    }
    // the repeating searches end at once: A and (HL) are both zero
    for op in [0xB1u8, 0xB9] {
        assert_eq!(time_of(&[0xED, op], 0x00, 2), 16);
    }
    // the traps
    assert_eq!(time_of(&[0xED, 0xFC], 0x00, 2), 4);
    assert_eq!(time_of(&[0xED, 0xFD], 0x00, 2), 4);
    // what is left out
    for op in [0x00u8, 0x3F, 0x45, 0x4D, 0x67, 0x6F, 0x80, 0xA2, 0xA3, 0xBB, 0xFF] {
        assert_eq!(time_of(&[0xED, op], 0x00, 2), 4);
    }
}
