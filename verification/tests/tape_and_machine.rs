use zx81_emulator::cpu::tape_hooks::{find_d_file, find_vars, instant_load};
use zx81_emulator::cpu::Cpu;
use zx81_emulator::emulator::RomError;
use zx81_emulator::io::{IoController, Key};
use zx81_emulator::memory::Memory;
use zx81_emulator::tape::{program_data, push_bit, push_byte, Tape};
use zx81_emulator::video::display_file::DisplayFile;
use zx81_emulator::Emulator;

fn blank_rom() -> Vec<u8> {
    vec![0u8; 0x2000]
}

#[test]
fn a_bit_is_a_burst_and_a_silence() {
    let mut pulses = Vec::new();
    push_bit(&mut pulses, false);
    assert_eq!(pulses.len(), 9);
    for i in 0..4 {
        assert_eq!(pulses[2 * i], (true, 488));
        assert_eq!(pulses[2 * i + 1], (false, 487));
    }
    assert_eq!(pulses[8], (false, 4225));
    let mut pulses = vec![(true, 1u64)];
    push_bit(&mut pulses, true);
    assert_eq!(pulses.len(), 20);
    assert_eq!(pulses[0], (true, 1));
    assert_eq!(pulses[1], (true, 488));
    assert_eq!(pulses[18], (false, 487));
    assert_eq!(pulses[19], (false, 4225));
}

#[test]
fn a_byte_goes_out_most_significant_bit_first() {
    let mut pulses = Vec::new();
    push_byte(&mut pulses, 0x80);
    // one 1-bit, seven 0-bits
    assert_eq!(pulses.len(), 19 + 7 * 9);
    assert_eq!(pulses[18], (false, 4225));
    assert_eq!(pulses[19 + 8], (false, 4225));
    let mut pulses = Vec::new();
    push_byte(&mut pulses, 0x01);
    assert_eq!(pulses.len(), 7 * 9 + 19);
    assert_eq!(pulses[8], (false, 4225));
    assert_eq!(pulses[7 * 9 + 18], (false, 4225));
    assert_eq!(pulses[7 * 9 + 17], (false, 487));
}

#[test]
fn pulse_train_layout() {
    let tape = Tape::new(vec![0xFF]);
    assert_eq!(tape.data, vec![0xFF]);
    // leader, sync pair, name end 0xA6 (four 1-bits, four 0-bits), one byte
    // of eight 1-bits, end pause
    assert_eq!(tape.pulses.len(), 3 + (4 * 19 + 4 * 9) + 8 * 19 + 1);
    assert_eq!(tape.pulses[0], (false, 16_250_000));
    assert_eq!(tape.pulses[1], (true, 488));
    assert_eq!(tape.pulses[2], (false, 974));
    // 0xA6 starts with a 1-bit: nine pulses, then silence
    assert_eq!(tape.pulses[3], (true, 488));
    assert_eq!(tape.pulses[4], (false, 487));
    assert_eq!(tape.pulses[3 + 18], (false, 4225));
    // then a 0-bit: four pulses, then silence
    assert_eq!(tape.pulses[3 + 19 + 8], (false, 4225));
    assert_eq!(*tape.pulses.last().unwrap(), (false, 3_250_000));
    assert!(!tape.is_playing());
    assert!(!tape.get_level());
    assert_eq!(tape.current_index, 0);
    assert_eq!(tape.remaining, 0);
    let empty = Tape::new(vec![]);
    assert_eq!(empty.pulses.len(), 3 + 112 + 1);
    assert_eq!(Tape::generate_pulses(&vec![0x00, 0x00]).len(), 3 + 112 + 2 * 72 + 1);
}

#[test]
fn header_is_skipped() {
    let mut file = vec![0u8; 128];
    file.extend_from_slice(&[1, 2, 3]);
    assert_eq!(program_data(&file), vec![1, 2, 3]);
    assert_eq!(Tape::new(file).data, vec![1, 2, 3]);
    // exactly 128 bytes: no header
    let file = vec![0u8; 128];
    assert_eq!(program_data(&file), file);
    // does not start with zero: no header
    let mut file = vec![7u8; 200];
    file[1] = 0;
    assert_eq!(program_data(&file), file);
    assert_eq!(program_data(&vec![]), Vec::<u8>::new());
}

#[test]
fn playback_moves_through_the_pulses() {
    let mut tape = Tape::new(vec![0x00]);
    tape.advance(1000);
    assert!(!tape.is_playing());
    assert_eq!(tape.current_index, 0);
    tape.start_playing();
    assert!(tape.is_playing());
    assert_eq!(tape.current_index, 0);
    assert_eq!(tape.remaining, 16_250_000);
    assert!(!tape.get_level());
    tape.advance(0);
    assert_eq!(tape.remaining, 16_250_000);
    tape.advance(250_000);
    assert_eq!(tape.remaining, 16_000_000);
    assert_eq!(tape.current_index, 0);
    // exactly to the end of the leader
    tape.advance(16_000_000);
    assert_eq!(tape.current_index, 1);
    assert_eq!(tape.remaining, 488);
    assert!(tape.get_level());
    // across the sync pair into the first pulse of the name
    tape.advance(488 + 974 + 8);
    assert_eq!(tape.current_index, 3);
    assert_eq!(tape.remaining, 480);
    assert!(tape.get_level());
    tape.advance(480);
    assert_eq!(tape.current_index, 4);
    assert!(!tape.get_level());
    assert_eq!(tape.remaining, 487);
}

#[test]
fn playback_ends_low() {
    let mut tape = Tape::new(vec![]);
    let count = tape.pulses.len();
    tape.start_playing();
    tape.advance(u64::MAX);
    assert!(!tape.is_playing());
    assert!(!tape.get_level());
    assert_eq!(tape.current_index, count);
    tape.advance(10);
    assert_eq!(tape.current_index, count);
    tape.start_playing();
    assert!(tape.is_playing());
    assert_eq!(tape.current_index, 0);
    tape.stop_playing();
    assert!(!tape.is_playing());
    assert_eq!(tape.remaining, 0);
}

#[test]
fn playback_time_adds_up() {
    for (a, b) in [(0u64, 5u64), (5, 0), (100, 388), (16_250_000, 488), (16_250_487, 2), (1, 17_000_000)] {
        let mut one = Tape::new(vec![0x5A]);
        let mut two = Tape::new(vec![0x5A]);
        one.start_playing();
        two.start_playing();
        one.advance(a);
        one.advance(b);
        two.advance(a + b);
        assert_eq!(one.is_playing(), two.is_playing());
        assert_eq!(one.current_index, two.current_index);
        assert_eq!(one.get_level(), two.get_level());
        assert_eq!(one.remaining, two.remaining);
    }
}

fn image_with_display() -> Vec<u8> {
    let mut data = vec![0x01u8; 40];
    data.extend_from_slice(&[0x76; 25]);
    data.extend_from_slice(&[0x02; 5]);
    data
}

#[test]
fn display_file_is_the_first_run_of_24_line_ends() {
    let mut mem = Memory::new(blank_rom());
    let data = image_with_display();
    let end = mem.copy_image(&data, 0);
    assert_eq!(end, 0x4009 + 70);
    assert_eq!(find_d_file(&mem, end), Some(0x4009 + 40));
    assert_eq!(find_vars(&mem, 0x4009 + 40, end), 0x4009 + 65);
    // a run of 23 is not enough
    let mut mem = Memory::new(blank_rom());
    let mut short = vec![0x76u8; 23];
    short.push(0x00);
    short.extend_from_slice(&[0x76; 23]);
    let end = mem.copy_image(&short, 0);
    assert_eq!(find_d_file(&mem, end), None);
    // a run at the very start counts
    let mut mem = Memory::new(blank_rom());
    let end = mem.copy_image(&[0x76u8; 30], 0);
    assert_eq!(find_d_file(&mem, end), Some(0x4009));
    assert_eq!(find_vars(&mem, 0x4009, end), 0x4009 + 25);
    assert_eq!(find_d_file(&mem, 0x4009), None);
}

#[test]
fn instant_load_stores_the_system_variables() {
    let mut mem = Memory::new(blank_rom());
    instant_load(&mut mem, &image_with_display());
    assert_eq!(mem.read_word(0x4014), 0x4030);
    assert_eq!(mem.read_word(0x400C), 0x4031);
    assert_eq!(mem.read_word(0x4010), 0x404A);
    assert_eq!(mem.read_word(0x4016), 0x404A);
    assert_eq!(mem.read_word(0x401A), 0x404F);
    assert_eq!(mem.read_word(0x401C), 0x404F);
    assert_eq!(mem.read(0x4009), 0x01);
    assert_eq!(mem.read(0x4031), 0x76);
    assert_eq!(mem.read(0x404E), 0x02);
    assert_eq!(mem.read(0x404F), 0x00);
}

#[test]
fn instant_load_without_a_display_file() {
    let mut mem = Memory::new(blank_rom());
    instant_load(&mut mem, &vec![0x01u8; 40]);
    // end is 0x4031, the display file is guessed 32 bytes before it
    assert_eq!(mem.read_word(0x400C), 0x4011);
    assert_eq!(mem.read_word(0x4014), 0x4010);
    assert_eq!(mem.read_word(0x4010), 0x4031);
    assert_eq!(mem.read_word(0x401A), 0x4031);
}

#[test]
fn load_trap_through_the_processor() {
    let mut rom = blank_rom();
    rom[0] = 0xED;
    rom[1] = 0xFC;
    rom[2] = 0xED;
    rom[3] = 0xFC;
    rom[4] = 0xED;
    rom[5] = 0xFD;
    let mut mem = Memory::new(rom);
    let mut io = IoController::new();
    let mut cpu = Cpu::new();
    let tape = Some(Tape::new(image_with_display()));
    cpu.set_flag_c(true);
    assert_eq!(cpu.step(&mut mem, &mut io, &tape), 4);
    assert!(!cpu.get_flag_c());
    assert_eq!(mem.read_word(0x400C), 0x4031);
    assert_eq!(cpu.pc, 2);
    let none: Option<Tape> = None;
    assert_eq!(cpu.step(&mut mem, &mut io, &none), 4);
    assert!(cpu.get_flag_c());
    assert_eq!(cpu.step(&mut mem, &mut io, &none), 4);
    assert!(!cpu.get_flag_c());
    assert_eq!(cpu.pc, 6);
}

#[test]
fn patched_rom_reaches_the_load_trap() {
    let mut rom = blank_rom();
    rom[0] = 0xC3;
    rom[1] = 0x47;
    rom[2] = 0x03;
    let mut emu = Emulator::new(rom).unwrap();
    emu.load_tape(Tape::new(image_with_display()));
    assert_eq!(emu.step(), 10);
    assert_eq!(emu.cpu().pc, 0x0347);
    assert_eq!(emu.step(), 4);
    assert_eq!(emu.memory().read_word(0x400C), 0x4031);
    assert_eq!(emu.step(), 10);
    assert_eq!(emu.cpu().pc, 0x0207);
    assert_eq!(emu.total_cycles(), 24);
}

#[test]
fn machine_refuses_a_rom_of_the_wrong_size() {
    assert!(matches!(Emulator::new(vec![0u8; 8191]), Err(RomError::WrongSize)));
    assert!(matches!(Emulator::new(vec![0u8; 8193]), Err(RomError::WrongSize)));
    assert!(matches!(Emulator::new(vec![]), Err(RomError::WrongSize)));
    assert!(Emulator::new(vec![0u8; 8192]).is_ok());
}

#[test]
fn machine_steps_count_time_and_move_the_tape() {
    let mut rom = blank_rom();
    rom[0] = 0x3E;
    rom[1] = 0x12;
    rom[2] = 0x76;
    let mut emu = Emulator::new(rom).unwrap();
    assert_eq!(emu.total_cycles(), 0);
    assert!(!emu.is_halted());
    assert!(emu.tape.is_none());
    emu.start_tape();
    emu.load_tape(Tape::new(vec![0x01]));
    emu.start_tape();
    assert_eq!(emu.step(), 7);
    assert_eq!(emu.cpu().a, 0x12);
    assert_eq!(emu.total_cycles(), 7);
    assert_eq!(emu.tape.as_ref().unwrap().remaining, 16_250_000 - 7);
    assert_eq!(emu.step(), 4);
    assert!(emu.is_halted());
    assert_eq!(emu.step(), 4);
    assert_eq!(emu.total_cycles(), 15);
    assert_eq!(emu.tape.as_ref().unwrap().remaining, 16_250_000 - 15);
    assert_eq!(emu.cpu().pc, 3);
    emu.stop_tape();
    assert!(!emu.tape.as_ref().unwrap().is_playing());
    assert_eq!(emu.step(), 4);
    assert_eq!(emu.tape.as_ref().unwrap().remaining, 0);
}

#[test]
fn display_file_reads_24_lines_of_32() {
    let mut mem = Memory::new(blank_rom());
    mem.write_word(0x400C, 0x4100);
    for row in 0..24u16 {
        for col in 0..32u16 {
            mem.write(0x4100 + row * 33 + col, (row as u8) << 3 ^ col as u8);
        }
        mem.write(0x4100 + row * 33 + 32, 0x76);
    }
    mem.write(0x4100 + 33 + 2, 0xA6);
    let mut display = DisplayFile::new();
    assert_eq!(display.get_char(23, 31), 0);
    display.parse(&mem);
    for row in 0..24usize {
        for col in 0..32usize {
            if (row, col) != (1, 2) {
                let code = (row as u8) << 3 ^ col as u8;
                assert_eq!(display.get_char(row, col), code & 0x3F);
                assert_eq!(display.get_char_index(row, col), (code & 0x3F) as usize);
                assert_eq!(display.is_inverse(row, col), code & 0x80 != 0);
            }
        }
    }
    // glyphs come from the character set at 0x1E00
    let mut rom = blank_rom();
    rom[0x1E00 + 0x26 * 8 + 3] = 0x3C;
    rom[0x1E00 + 1 * 8 + 7] = 0x81;
    assert_eq!(display.glyph_line(&rom, 1, 2, 3), 0xC3);
    assert_eq!(display.glyph_line(&rom, 1, 2, 4), 0xFF);
    assert_eq!(display.glyph_line(&rom, 0, 1, 7), 0x81);
    assert_eq!(display.glyph_line(&rom, 0, 1, 0), 0x00);
    assert_eq!(display.get_char(1, 2), 0x26);
    assert_eq!(display.get_char_index(1, 2), 0x26);
    assert!(display.is_inverse(1, 2));
    assert!(!display.is_inverse(0, 0));
}

#[test]
fn machine_keyboard_reaches_the_port() {
    let mut rom = blank_rom();
    rom[0] = 0xED;
    rom[1] = 0x78;
    let mut emu = Emulator::new(rom).unwrap();
    emu.update_keyboard(&[Key::Q, Key::T]);
    emu.cpu_mut().set_bc(0xFBFE);
    assert_eq!(emu.step(), 12);
    assert_eq!(emu.cpu().a, 0xEE);
}
