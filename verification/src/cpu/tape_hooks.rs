//! The tape traps: `ED FC` loads the program image straight into RAM and
//! rebuilds the system variables that BASIC needs; `ED FD` stands in for
//! SAVE.

use vstd::prelude::*;
use crate::cpu::flags::{with_flag, FLAG_C};
use crate::cpu::{outcome, Cpu, Next};
use crate::memory::{add16, image_end, load_image, Memory, MemoryView, IMAGE_BASE};
use crate::tape::Tape;

verus! {

/// The byte that ends a display line.
pub const NEWLINE: u8 = 0x76;

/// Length of the run of line ends that marks the display file.
pub const DISPLAY_LINES: u8 = 24;

/// Line ends from the start of the display file to the variables.
pub const VARS_LINES: u8 = 25;

/// The byte at address `a`.
pub open spec fn byte_at(mem: MemoryView, a: int) -> u8 {
    mem.read(a as u16)
}

/// Scans `addr..end` for the first place where 24 line ends in a row are
/// complete, `run` of them already seen, and gives the start of that run.
pub open spec fn scan_d_file(mem: MemoryView, addr: int, end: int, run: int) -> Option<int>
    decreases end - addr,
{
    if addr >= end {
        None
    } else if byte_at(mem, addr) != NEWLINE {
        scan_d_file(mem, addr + 1, end, 0)
    } else if run + 1 >= DISPLAY_LINES {
        Some(addr - 23)
    } else {
        scan_d_file(mem, addr + 1, end, run + 1)
    }
}

/// Scans `addr..end` until 25 line ends have been seen, `seen` of them
/// already, and gives the address behind the last byte scanned.
pub open spec fn scan_vars(mem: MemoryView, addr: int, end: int, seen: int) -> int
    decreases end - addr,
{
    if addr >= end || seen >= VARS_LINES {
        addr
    } else if byte_at(mem, addr) == NEWLINE {
        scan_vars(mem, addr + 1, end, seen + 1)
    } else {
        scan_vars(mem, addr + 1, end, seen)
    }
}

/// The display file of the loaded region: the start of the first run of 24
/// line ends, or 32 bytes before the end if there is none.
pub open spec fn d_file_spec(mem: MemoryView, end: int) -> int {
    match scan_d_file(mem, IMAGE_BASE as int, end, 0) {
        Some(a) => a,
        None => end - 32,
    }
}

/// The bus with the recovered system variables stored: `E_LINE` at
/// `0x4014`, `D_FILE` at `0x400C`, `VARS` at `0x4010` and `0x4016`, and the
/// end of the image at `0x401A` and `0x401C`.
pub open spec fn store_sysvars(mem: MemoryView, d_file: u16, vars: u16, end: u16) -> MemoryView {
    mem.write_word(0x4014, add16(d_file, -1)).write_word(0x400C, d_file).write_word(
        0x4010,
        vars,
    ).write_word(0x4016, vars).write_word(0x401A, end).write_word(0x401C, end)
}

/// The bus after an instant load of `data`.
pub open spec fn loaded_spec(mem: MemoryView, data: Seq<u8>) -> MemoryView {
    let image = load_image(mem, data, 0);
    let end = image_end(data);
    let d_file = d_file_spec(image, end);
    store_sysvars(image, d_file as u16, scan_vars(image, d_file, end, 0) as u16, end as u16)
}

/// Finds the display file in `0x4009..end`: the start of the first run of
/// 24 line ends.
pub fn find_d_file(memory: &Memory, end: u16) -> (found: Option<u16>)
    requires
        memory@.wf(),
        IMAGE_BASE <= end,
    ensures
        match found {
            Some(a) => {
                &&& scan_d_file(memory@, IMAGE_BASE as int, end as int, 0) == Some(a as int)
                &&& IMAGE_BASE <= a
                &&& a + DISPLAY_LINES <= end
                &&& run_at(memory@, a as int)
                &&& forall|c: int| IMAGE_BASE <= c < a ==> !#[trigger] run_at(memory@, c)
            },
            None => {
                &&& scan_d_file(memory@, IMAGE_BASE as int, end as int, 0).is_none()
                &&& forall|c: int|
                    IMAGE_BASE <= c && c + DISPLAY_LINES <= end ==> !#[trigger] run_at(memory@, c)
            },
        },
{
    let mut addr: u16 = IMAGE_BASE;
    let mut run: u8 = 0;
    while addr < end
        invariant
            memory@.wf(),
            IMAGE_BASE <= addr <= end,
            run < DISPLAY_LINES,
            scan_d_file(memory@, IMAGE_BASE as int, end as int, 0) == scan_d_file(
                memory@,
                addr as int,
                end as int,
                run as int,
            ),
        decreases end - addr,
    {
        if memory.read(addr) == NEWLINE {
            run += 1;
            if run >= DISPLAY_LINES {
                proof {
                    lemma_d_file_is_first_run(memory@, end as int);
                }
                return Some(addr - 23);
            }
        } else {
            run = 0;
        }
        addr += 1;
    }
    proof {
        lemma_d_file_is_first_run(memory@, end as int);
    }
    None
}

/// Finds the variables: scans from `d_file` until 25 line ends have gone by
/// or `end` is reached.
pub fn find_vars(memory: &Memory, d_file: u16, end: u16) -> (vars: u16)
    requires
        memory@.wf(),
    ensures
        vars == scan_vars(memory@, d_file as int, end as int, 0),
{
    let mut addr: u16 = d_file;
    let mut seen: u8 = 0;
    while addr < end && seen < VARS_LINES
        invariant
            memory@.wf(),
            seen <= VARS_LINES,
            scan_vars(memory@, d_file as int, end as int, 0) == scan_vars(
                memory@,
                addr as int,
                end as int,
                seen as int,
            ),
        decreases end - addr,
    {
        if memory.read(addr) == NEWLINE {
            seen += 1;
        }
        addr += 1;
    }
    addr
}

/// Loads the image into RAM and stores the recovered system variables.
pub fn instant_load(memory: &mut Memory, data: &Vec<u8>)
    requires
        old(memory)@.wf(),
    ensures
        final(memory)@.wf(),
        final(memory)@ == loaded_spec(old(memory)@, data@),
{
    let end = memory.copy_image(data.as_slice(), 0);
    let d_file = match find_d_file(memory, end) {
        Some(a) => a,
        None => end - 32,
    };
    let vars = find_vars(memory, d_file, end);
    memory.write_word(0x4014, d_file.wrapping_sub(1));
    memory.write_word(0x400C, d_file);
    memory.write_word(0x4010, vars);
    memory.write_word(0x4016, vars);
    memory.write_word(0x401A, end);
    memory.write_word(0x401C, end);
}

/// Whether the 24 bytes from `a` on are all line ends.
pub open spec fn run_at(mem: MemoryView, a: int) -> bool {
    forall|b: int| a <= b < a + DISPLAY_LINES ==> #[trigger] byte_at(mem, b) == NEWLINE
}

/// Whether one of the 24 bytes from `c` on lies before `addr` and is no
/// line end.
pub open spec fn broken_before(mem: MemoryView, c: int, addr: int) -> bool {
    exists|b: int| c <= b < c + DISPLAY_LINES && b < addr && #[trigger] byte_at(mem, b) != NEWLINE
}

/// The scan from `addr` on with `run` line ends just seen, given that no
/// run of 24 was complete before: where it finds a place, 24 line ends
/// start there and fit before `end`, and every earlier start from `start`
/// on is broken; where it finds none, every start from `start` on is broken
/// or leaves no room for 24 bytes before `end`.
#[verifier::rlimit(40)]
proof fn lemma_scan_d_file(mem: MemoryView, start: int, addr: int, end: int, run: int)
    requires
        0 <= run < DISPLAY_LINES,
        start <= addr - run,
        forall|b: int| addr - run <= b < addr ==> #[trigger] byte_at(mem, b) == NEWLINE,
        forall|c: int| start <= c < addr - run ==> #[trigger] broken_before(mem, c, addr),
    ensures
        match scan_d_file(mem, addr, end, run) {
            Some(a) => {
                &&& start <= a
                &&& a + DISPLAY_LINES <= end
                &&& run_at(mem, a)
                &&& forall|c: int| start <= c < a ==> !#[trigger] run_at(mem, c)
            },
            None => forall|c: int| start <= c && c + DISPLAY_LINES <= end ==> !#[trigger] run_at(
                mem,
                c,
            ),
        },
    decreases end - addr,
{
    if addr >= end {
        assert forall|c: int| start <= c && c + DISPLAY_LINES <= end implies !#[trigger] run_at(
            mem,
            c,
        ) by {
            assert(c < addr - run);
            lemma_broken_is_no_run(mem, c, addr);
        }
    } else if byte_at(mem, addr) != NEWLINE {
        assert forall|c: int| start <= c < addr + 1 implies #[trigger] broken_before(
            mem,
            c,
            addr + 1,
        ) by {
            if c < addr - run {
                assert(broken_before(mem, c, addr));
                let b = choose|b: int|
                    c <= b < c + DISPLAY_LINES && b < addr && #[trigger] byte_at(mem, b) != NEWLINE;
                assert(c <= b < c + DISPLAY_LINES && b < addr + 1 && byte_at(mem, b) != NEWLINE);
            } else {
                assert(c <= addr < c + DISPLAY_LINES && addr < addr + 1 && byte_at(mem, addr)
                    != NEWLINE);
            }
        }
        lemma_scan_d_file(mem, start, addr + 1, end, 0);
    } else if run + 1 >= DISPLAY_LINES {
        let a = addr - 23;
        assert(run_at(mem, a));
        assert forall|c: int| start <= c < a implies !#[trigger] run_at(mem, c) by {
            lemma_broken_is_no_run(mem, c, addr);
        }
    } else {
        assert forall|c: int| start <= c < addr + 1 - (run + 1) implies #[trigger] broken_before(
            mem,
            c,
            addr + 1,
        ) by {
            assert(broken_before(mem, c, addr));
            let b = choose|b: int|
                c <= b < c + DISPLAY_LINES && b < addr && #[trigger] byte_at(mem, b) != NEWLINE;
            assert(c <= b < c + DISPLAY_LINES && b < addr + 1 && byte_at(mem, b) != NEWLINE);
        }
        lemma_scan_d_file(mem, start, addr + 1, end, run + 1);
    }
}

/// A start whose 24 bytes hold a byte that is no line end starts no run.
proof fn lemma_broken_is_no_run(mem: MemoryView, c: int, addr: int)
    requires
        broken_before(mem, c, addr),
    ensures
        !run_at(mem, c),
{
    let b = choose|b: int|
        c <= b < c + DISPLAY_LINES && b < addr && #[trigger] byte_at(mem, b) != NEWLINE;
    assert(byte_at(mem, b) != NEWLINE);
}

/// The display file that the scan finds is the start of the first run of 24
/// line ends that lies wholly in `0x4009..end`; the scan finds none exactly
/// if there is no such run.
pub proof fn lemma_d_file_is_first_run(mem: MemoryView, end: int)
    ensures
        match scan_d_file(mem, IMAGE_BASE as int, end, 0) {
            Some(a) => {
                &&& IMAGE_BASE <= a
                &&& a + DISPLAY_LINES <= end
                &&& run_at(mem, a)
                &&& forall|c: int| IMAGE_BASE <= c < a ==> !#[trigger] run_at(mem, c)
            },
            None => forall|c: int|
                IMAGE_BASE <= c && c + DISPLAY_LINES <= end ==> !#[trigger] run_at(mem, c),
        },
{
    lemma_scan_d_file(mem, IMAGE_BASE as int, IMAGE_BASE as int, end, 0);
}

impl Cpu {
    /// The LOAD trap: with a tape the image is loaded and `C` cleared;
    /// without one `C` is set. 4 T-states either way.
    pub open spec fn load_hook_spec(self, mem: MemoryView, tape: Option<Tape>) -> Next {
        match tape {
            Some(t) => Next {
                cpu: self.with_f(with_flag(self.f, FLAG_C, false)),
                mem: loaded_spec(mem, t.data@),
                cycles: 4,
            },
            None => Next { cpu: self.with_f(with_flag(self.f, FLAG_C, true)), mem, cycles: 4 },
        }
    }

    /// The SAVE trap: `C` is cleared, nothing is saved.
    pub open spec fn save_hook_spec(self, mem: MemoryView) -> Next {
        Next { cpu: self.with_f(with_flag(self.f, FLAG_C, false)), mem, cycles: 4 }
    }

    /// The LOAD trap.
    pub fn load_hook(&mut self, memory: &mut Memory, tape: &Option<Tape>) -> (cycles: u8)
        requires
            old(memory)@.wf(),
        ensures
            final(memory)@.wf(),
            outcome(*final(self), final(memory)@, cycles) == old(self).load_hook_spec(
                old(memory)@,
                *tape,
            ),
    {
        match tape {
            Some(t) => {
                instant_load(memory, &t.data);
                self.set_flag_c(false);
            },
            None => {
                self.set_flag_c(true);
            },
        }
        4
    }

    /// The SAVE trap.
    pub fn save_hook(&mut self, memory: &Memory) -> (cycles: u8)
        ensures
            outcome(*final(self), memory@, cycles) == old(self).save_hook_spec(memory@),
    {
        self.set_flag_c(false);
        4
    }
}

} // verus!
