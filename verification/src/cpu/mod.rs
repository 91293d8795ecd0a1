//! The Z80 register file and the instruction interpreter.

use vstd::prelude::*;
use crate::io::IoController;
use crate::memory::{add16, make_word, pair, Memory, MemoryView};
use crate::tape::Tape;

pub mod alu;
pub mod cb_instructions;
pub mod dd_instructions;
pub mod ed_instructions;
pub mod fd_instructions;
pub mod flags;
pub mod instructions;
pub mod laws;
pub mod registers;
pub mod tape_hooks;

verus! {

/// The Z80 register file.
#[derive(Clone, Copy, Debug, PartialEq, Eq, Structural)]
pub struct Cpu {
    pub a: u8,
    pub f: u8,
    pub b: u8,
    pub c: u8,
    pub d: u8,
    pub e: u8,
    pub h: u8,
    pub l: u8,
    /// Shadow pairs, exchanged by `EX AF,AF'` and `EXX`.
    pub af_shadow: u16,
    pub bc_shadow: u16,
    pub de_shadow: u16,
    pub hl_shadow: u16,
    pub ix: u16,
    pub iy: u16,
    pub i: u8,
    pub r: u8,
    pub iff1: bool,
    pub iff2: bool,
    /// Interrupt mode: 0, 1 or 2.
    pub interrupt_mode: u8,
    pub sp: u16,
    pub pc: u16,
    pub is_halted: bool,
}

/// Which 16-bit register stands for `HL` in the instruction at hand: `HL`
/// itself, or `IX` / `IY` behind a `DD` / `FD` prefix.
#[derive(Clone, Copy, Debug, PartialEq, Eq, Structural)]
pub enum Index {
    HL,
    IX,
    IY,
}

/// The machine after an instruction: registers, bus, and the T-states that
/// the instruction took.
pub struct Next {
    pub cpu: Cpu,
    pub mem: MemoryView,
    pub cycles: u8,
}

/// The machine with the given registers and bus after `cycles` T-states.
pub open spec fn outcome(cpu: Cpu, mem: MemoryView, cycles: u8) -> Next {
    Next { cpu, mem, cycles }
}

/// A displacement byte read as a signed number.
pub open spec fn sext(d: u8) -> int {
    if d < 128 {
        d as int
    } else {
        d - 256
    }
}

/// `base` moved by the signed displacement `d`, modulo 2^16.
pub fn displaced(base: u16, d: u8) -> (addr: u16)
    ensures
        addr == add16(base, sext(d)),
{
    if d < 128 {
        base.wrapping_add(d as u16)
    } else {
        base.wrapping_sub(256 - d as u16)
    }
}

impl Cpu {
    /// The register file at power-on: everything clear, `SP` at the top.
    pub open spec fn reset_spec() -> Cpu {
        Cpu {
            a: 0,
            f: 0,
            b: 0,
            c: 0,
            d: 0,
            e: 0,
            h: 0,
            l: 0,
            af_shadow: 0,
            bc_shadow: 0,
            de_shadow: 0,
            hl_shadow: 0,
            ix: 0,
            iy: 0,
            i: 0,
            r: 0,
            iff1: false,
            iff2: false,
            interrupt_mode: 0,
            sp: 0xFFFF,
            pc: 0x0000,
            is_halted: false,
        }
    }

    /// The register file with `PC` moved on by `n`.
    pub open spec fn skip(self, n: int) -> Cpu {
        Cpu { pc: add16(self.pc, n), ..self }
    }

    /// The register file with `PC` replaced.
    pub open spec fn jump(self, pc: u16) -> Cpu {
        Cpu { pc, ..self }
    }

    /// The register file after an opcode fetch has refreshed memory: the low
    /// seven bits of `R` count up, bit 7 stays.
    pub open spec fn bump_r(self) -> Cpu {
        Cpu { r: ((self.r / 128) * 128 + (self.r % 128 + 1) % 128) as u8, ..self }
    }

    /// The byte `k` places behind `PC`.
    pub open spec fn imm8(self, mem: MemoryView, k: int) -> u8 {
        mem.read(add16(self.pc, k))
    }

    /// The little-endian word `k` places behind `PC`.
    pub open spec fn imm16(self, mem: MemoryView, k: int) -> u16 {
        pair(self.imm8(mem, k + 1), self.imm8(mem, k))
    }

    /// One instruction: a halted processor idles for 4 T-states; otherwise
    /// the opcode at `PC` is fetched and executed.
    #[verifier::opaque]
    pub open spec fn step_spec(self, mem: MemoryView, io: IoController, tape: Option<Tape>) -> Next {
        if self.is_halted {
            Next { cpu: self, mem, cycles: 4 }
        } else {
            self.skip(1).bump_r().instruction_spec(mem, self.imm8(mem, 0), io, tape)
        }
    }

    /// The register file at power-on.
    pub fn new() -> (cpu: Cpu)
        ensures
            cpu == Cpu::reset_spec(),
    {
        Cpu {
            a: 0,
            f: 0,
            b: 0,
            c: 0,
            d: 0,
            e: 0,
            h: 0,
            l: 0,
            af_shadow: 0,
            bc_shadow: 0,
            de_shadow: 0,
            hl_shadow: 0,
            ix: 0,
            iy: 0,
            i: 0,
            r: 0,
            iff1: false,
            iff2: false,
            interrupt_mode: 0,
            sp: 0xFFFF,
            pc: 0x0000,
            is_halted: false,
        }
    }

    /// Reads the byte at `PC` and moves `PC` on.
    pub fn fetch_byte(&mut self, memory: &Memory) -> (v: u8)
        requires
            memory@.wf(),
        ensures
            v == old(self).imm8(memory@, 0),
            *final(self) == old(self).skip(1),
    {
        let byte = memory.read(self.pc);
        self.pc = self.pc.wrapping_add(1);
        byte
    }

    /// Reads the little-endian word at `PC` and moves `PC` on.
    pub fn fetch_word(&mut self, memory: &Memory) -> (v: u16)
        requires
            memory@.wf(),
        ensures
            v == old(self).imm16(memory@, 0),
            *final(self) == old(self).skip(2),
    {
        let lo = self.fetch_byte(memory);
        let hi = self.fetch_byte(memory);
        make_word(hi, lo)
    }

    /// Counts an opcode fetch in `R`.
    pub fn refresh(&mut self)
        ensures
            *final(self) == old(self).bump_r(),
    {
        self.r = (self.r / 128) * 128 + (self.r % 128 + 1) % 128;
    }

    /// Executes one instruction and returns the T-states it took.
    pub fn step(&mut self, memory: &mut Memory, io: &mut IoController, tape: &Option<Tape>) -> (cycles: u8)
        requires
            old(memory)@.wf(),
            old(io).wf(),
        ensures
            final(memory)@.wf(),
            *final(io) == *old(io),
            outcome(*final(self), final(memory)@, cycles) == old(self).step_spec(
                old(memory)@,
                *old(io),
                *tape,
            ),
            4 <= cycles <= 23,
    {
        reveal(Cpu::step_spec);
        if self.is_halted {
            return 4;
        }
        let opcode = self.fetch_byte(memory);
        self.refresh();
        self.execute(opcode, memory, io, tape)
    }

    /// Executes the instruction whose first byte, `opcode`, has been fetched.
    pub fn execute(&mut self, opcode: u8, memory: &mut Memory, io: &mut IoController, tape: &Option<Tape>) -> (cycles: u8)
        requires
            old(memory)@.wf(),
            old(io).wf(),
        ensures
            final(memory)@.wf(),
            *final(io) == *old(io),
            outcome(*final(self), final(memory)@, cycles) == old(self).instruction_spec(
                old(memory)@,
                opcode,
                *old(io),
                *tape,
            ),
            4 <= cycles <= 23,
    {
        self.execute_instruction(opcode, memory, io, tape)
    }
}

} // verus!
