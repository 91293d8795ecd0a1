//! The machine as the driver sees it: processor, bus, keyboard, tape and a
//! count of the T-states gone by.

use vstd::prelude::*;
use crate::cpu::{Cpu, Next};
use crate::io::{IoController, Key};
use crate::memory::{with_traps, Memory, MemoryView, RAM_MAX, ROM_SIZE};
use crate::tape::{advance_spec, Cursor, Tape};

verus! {

/// Why the machine was not built.
#[derive(Clone, Copy, Debug, PartialEq, Eq, Structural)]
pub enum RomError {
    /// The ROM image does not hold exactly 8192 bytes.
    WrongSize,
}

/// A ZX81.
pub struct Emulator {
    cpu: Cpu,
    memory: Memory,
    io: IoController,
    cycles: u64,
    pub tape: Option<Tape>,
}

/// The T-state count after `cycles` more, held at the largest value that
/// fits.
pub open spec fn add_cycles(total: u64, cycles: u8) -> u64 {
    if total + cycles > u64::MAX {
        u64::MAX
    } else {
        (total + cycles) as u64
    }
}

/// The tape after `cycles` more T-states.
pub open spec fn tape_after(tape: Option<Tape>, cycles: u8) -> Option<Cursor> {
    match tape {
        Some(t) => Some(advance_spec(t.pulses@, t.cursor(), cycles as u64)),
        None => None,
    }
}

/// The cursor of a tape, if there is one.
pub open spec fn cursor_of(tape: Option<Tape>) -> Option<Cursor> {
    match tape {
        Some(t) => Some(t.cursor()),
        None => None,
    }
}

/// The image and the pulse train of a tape, if there is one.
pub open spec fn recording_of(tape: Option<Tape>) -> Option<(Seq<u8>, Seq<(bool, u64)>)> {
    match tape {
        Some(t) => Some((t.data@, t.pulses@)),
        None => None,
    }
}

impl Emulator {
    /// The registers.
    pub closed spec fn cpu_spec(&self) -> Cpu {
        self.cpu
    }

    /// The bus.
    pub closed spec fn memory_spec(&self) -> MemoryView {
        self.memory@
    }

    /// The keyboard.
    pub closed spec fn io_spec(&self) -> IoController {
        self.io
    }

    /// The tape in the machine, if there is one.
    pub closed spec fn tape_spec(&self) -> Option<Tape> {
        self.tape
    }

    /// The T-states gone by.
    pub closed spec fn cycles_spec(&self) -> u64 {
        self.cycles
    }

    /// The parts are well formed; the tape is, if there is one.
    pub open spec fn wf(&self) -> bool {
        &&& self.memory_spec().wf()
        &&& self.io_spec().wf()
        &&& match self.tape_spec() {
            Some(t) => t.wf(),
            None => true,
        }
    }

    /// What one step makes of registers and bus.
    pub open spec fn step_spec(&self) -> Next {
        self.cpu_spec().step_spec(self.memory_spec(), self.io_spec(), self.tape_spec())
    }

    /// A machine at power-on with the given ROM, both tape traps injected,
    /// 16 KiB of RAM and no tape. A ROM of any size but 8192 bytes is
    /// refused.
    pub fn new(rom: Vec<u8>) -> (res: Result<Emulator, RomError>)
        ensures
            res.is_ok() <==> rom.len() == ROM_SIZE,
            match res {
                Ok(emu) => {
                    &&& emu.wf()
                    &&& emu.cpu_spec() == Cpu::reset_spec()
                    &&& emu.memory_spec().rom == with_traps(rom@)
                    &&& emu.memory_spec().ram == Seq::new(RAM_MAX as nat, |i: int| 0u8)
                    &&& emu.cycles_spec() == 0
                    &&& emu.tape_spec().is_none()
                    &&& forall|row: int, col: int|
                        0 <= row < 8 && 0 <= col < 5 ==> !emu.io_spec().pressed(row, col)
                },
                Err(e) => e == RomError::WrongSize,
            },
    {
        if rom.len() != ROM_SIZE {
            return Err(RomError::WrongSize);
        }
        Ok(
            Emulator {
                cpu: Cpu::new(),
                memory: Memory::new(rom),
                io: IoController::new(),
                cycles: 0,
                tape: None,
            },
        )
    }

    /// Puts a tape into the machine.
    pub fn load_tape(&mut self, tape: Tape)
        ensures
            final(self).tape_spec() == Some(tape),
            final(self).cpu_spec() == old(self).cpu_spec(),
            final(self).memory_spec() == old(self).memory_spec(),
            final(self).io_spec() == old(self).io_spec(),
            final(self).cycles_spec() == old(self).cycles_spec(),
    {
        self.tape = Some(tape);
    }

    /// Executes one instruction, moves the tape on by the T-states it took
    /// and adds them to the total.
    pub fn step(&mut self) -> (cycles: u8)
        requires
            old(self).wf(),
        ensures
            final(self).wf(),
            final(self).cpu_spec() == old(self).step_spec().cpu,
            final(self).memory_spec() == old(self).step_spec().mem,
            cycles == old(self).step_spec().cycles,
            4 <= cycles <= 23,
            final(self).io_spec() == old(self).io_spec(),
            final(self).cycles_spec() == add_cycles(old(self).cycles_spec(), cycles),
            recording_of(final(self).tape_spec()) == recording_of(old(self).tape_spec()),
            cursor_of(final(self).tape_spec()) == tape_after(old(self).tape_spec(), cycles),
    {
        let cycles = self.cpu.step(&mut self.memory, &mut self.io, &self.tape);
        match &mut self.tape {
            Some(t) => {
                t.advance(cycles as u64);
            },
            None => {},
        }
        self.cycles = self.cycles.saturating_add(cycles as u64);
        cycles
    }

    /// The registers.
    pub fn cpu(&self) -> (cpu: &Cpu)
        ensures
            *cpu == self.cpu_spec(),
    {
        &self.cpu
    }

    /// The registers, to be changed in place.
    pub fn cpu_mut(&mut self) -> (cpu: &mut Cpu)
        ensures
            *cpu == old(self).cpu_spec(),
            final(self).cpu_spec() == *final(cpu),
            final(self).memory_spec() == old(self).memory_spec(),
            final(self).io_spec() == old(self).io_spec(),
            final(self).cycles_spec() == old(self).cycles_spec(),
            final(self).tape_spec() == old(self).tape_spec(),
    {
        &mut self.cpu
    }

    /// The bus, for whoever draws the screen.
    pub fn memory(&self) -> (memory: &Memory)
        ensures
            memory@ == self.memory_spec(),
    {
        &self.memory
    }

    /// Whether the processor is halted.
    pub fn is_halted(&self) -> (halted: bool)
        ensures
            halted == self.cpu_spec().is_halted,
    {
        self.cpu.is_halted
    }

    /// The T-states gone by since power-on.
    pub fn total_cycles(&self) -> (total: u64)
        ensures
            total == self.cycles_spec(),
    {
        self.cycles
    }

    /// Reports the keys that are held down.
    pub fn update_keyboard(&mut self, keys: &[Key])
        ensures
            final(self).io_spec().wf(),
            forall|row: int, col: int|
                0 <= row < 8 && 0 <= col < 5 ==> (#[trigger] final(self).io_spec().pressed(row, col)
                    <==> keys@.contains(crate::io::key_at(row, col))),
            final(self).cpu_spec() == old(self).cpu_spec(),
            final(self).memory_spec() == old(self).memory_spec(),
            final(self).cycles_spec() == old(self).cycles_spec(),
            final(self).tape_spec() == old(self).tape_spec(),
    {
        self.io.update_keys(keys);
    }

    /// Starts the tape, if there is one.
    pub fn start_tape(&mut self)
        requires
            old(self).wf(),
        ensures
            final(self).wf(),
            final(self).cpu_spec() == old(self).cpu_spec(),
            final(self).memory_spec() == old(self).memory_spec(),
            final(self).io_spec() == old(self).io_spec(),
            final(self).cycles_spec() == old(self).cycles_spec(),
            recording_of(final(self).tape_spec()) == recording_of(old(self).tape_spec()),
            match old(self).tape_spec() {
                Some(t) => cursor_of(final(self).tape_spec()) == Some(
                    if t.pulses.len() > 0 {
                        Cursor {
                            playing: true,
                            index: 0,
                            remaining: t.pulses[0].1,
                            level: t.pulses[0].0,
                        }
                    } else {
                        t.cursor()
                    },
                ),
                None => final(self).tape_spec().is_none(),
            },
    {
        match &mut self.tape {
            Some(t) => {
                t.start_playing();
            },
            None => {},
        }
    }

    /// Stops and rewinds the tape, if there is one.
    pub fn stop_tape(&mut self)
        requires
            old(self).wf(),
        ensures
            final(self).wf(),
            final(self).cpu_spec() == old(self).cpu_spec(),
            final(self).memory_spec() == old(self).memory_spec(),
            final(self).io_spec() == old(self).io_spec(),
            final(self).cycles_spec() == old(self).cycles_spec(),
            recording_of(final(self).tape_spec()) == recording_of(old(self).tape_spec()),
            match old(self).tape_spec() {
                Some(t) => cursor_of(final(self).tape_spec()) == Some(
                    Cursor { playing: false, index: 0, remaining: 0, level: t.level },
                ),
                None => final(self).tape_spec().is_none(),
            },
    {
        match &mut self.tape {
            Some(t) => {
                t.stop_playing();
            },
            None => {},
        }
    }
}

} // verus!
