//! The `DD` and `FD` prefixes: the primary table with `IX` or `IY` in place
//! of `HL`, and the displaced bit operations behind `DD CB` / `FD CB`.

use vstd::prelude::*;
use crate::cpu::alu::{bit_flags, bit_flags_spec, rot8, rot8_spec};
use crate::cpu::{displaced, outcome, sext, Cpu, Index, Next};
use crate::io::IoController;
use crate::memory::{add16, Memory, MemoryView};
use crate::tape::Tape;

verus! {

impl Cpu {
    /// A displaced bit operation. The displacement stands at `PC`, the
    /// operation behind it. The result goes to memory and, unless the low
    /// three bits of the operation are 6, to the register that they name.
    /// 23 T-states in all, 20 for `BIT`.
    pub open spec fn index_cb_spec(self, mem: MemoryView, idx: Index) -> Next {
        let addr = add16(self.index_spec(idx), sext(self.imm8(mem, 0)));
        let op = self.imm8(mem, 1);
        let v = mem.read(addr);
        let cpu = self.skip(2);
        if op < 0x40 {
            let out = rot8_spec(op / 8, v, self.f);
            if op / 8 == 6 {
                cpu.unimplemented_spec(mem)
            } else {
                Next {
                    cpu: cpu.with_f(out.flags).with_reg(op % 8, out.value),
                    mem: mem.write(addr, out.value),
                    cycles: 23,
                }
            }
        } else if op < 0x80 {
            Next { cpu: cpu.with_f(bit_flags_spec((op / 8) % 8, v, self.f)), mem, cycles: 20 }
        } else {
            let r = Cpu::res_set_value(op, v);
            Next { cpu: cpu.with_reg(op % 8, r), mem: mem.write(addr, r), cycles: 23 }
        }
    }

    /// What follows a `DD` or `FD` prefix. Before another prefix the first
    /// one does nothing and takes 4 T-states. Otherwise the instruction is
    /// that of the primary table with the index register in place of `HL`,
    /// and the prefix adds 4 T-states and one refresh.
    #[verifier::opaque]
    pub open spec fn prefixed_spec(
        self,
        mem: MemoryView,
        idx: Index,
        io: IoController,
        tape: Option<Tape>,
    ) -> Next {
        let op = self.imm8(mem, 0);
        let inner = self.skip(1).bump_r().main_spec(mem, op, idx, io, tape);
        if op == 0xDD || op == 0xED || op == 0xFD {
            Next { cpu: self, mem, cycles: 4 }
        } else if op == 0xCB {
            self.skip(1).bump_r().index_cb_spec(mem, idx)
        } else {
            Next { cpu: inner.cpu, mem: inner.mem, cycles: (inner.cycles + 4) as u8 }
        }
    }

    /// A bit operation on `(IX+d)` or `(IY+d)`.
    #[verifier::rlimit(40)]
    fn execute_index_cb(&mut self, idx: Index, memory: &mut Memory) -> (cycles: u8)
        requires
            old(memory)@.wf(),
        ensures
            final(memory)@.wf(),
            outcome(*final(self), final(memory)@, cycles) == old(self).index_cb_spec(
                old(memory)@,
                idx,
            ),
            4 <= cycles <= 23,
    {
        let base = self.index_reg(idx);
        let d = self.fetch_byte(memory);
        let opcode = self.fetch_byte(memory);
        let addr = displaced(base, d);
        let val = memory.read(addr);
        if opcode < 0x40 {
            if opcode / 8 == 6 {
                return 4;
            }
            let out = rot8(opcode / 8, val, self.f);
            self.f = out.flags;
            memory.write(addr, out.value);
            self.write_r(opcode % 8, Index::HL, out.value);
            23
        } else if opcode < 0x80 {
            self.f = bit_flags((opcode / 8) % 8, val, self.f);
            20
        } else {
            let r = Cpu::res_set(opcode, val);
            memory.write(addr, r);
            self.write_r(opcode % 8, Index::HL, r);
            23
        }
    }

    /// Executes what follows a `DD` or `FD` prefix.
    #[verifier::rlimit(40)]
    pub fn execute_prefixed(
        &mut self,
        idx: Index,
        memory: &mut Memory,
        io: &mut IoController,
        tape: &Option<Tape>,
    ) -> (cycles: u8)
        requires
            old(memory)@.wf(),
            old(io).wf(),
        ensures
            final(memory)@.wf(),
            *final(io) == *old(io),
            outcome(*final(self), final(memory)@, cycles) == old(self).prefixed_spec(
                old(memory)@,
                idx,
                *old(io),
                *tape,
            ),
            4 <= cycles <= 23,
    {
        reveal(Cpu::prefixed_spec);
        let opcode = memory.read(self.pc);
        if opcode == 0xDD || opcode == 0xED || opcode == 0xFD {
            return 4;
        }
        self.fetch_byte(memory);
        self.refresh();
        if opcode == 0xCB {
            self.execute_index_cb(idx, memory)
        } else {
            let cycles = self.execute_main(opcode, idx, memory, io, tape);
            cycles + 4
        }
    }

    /// Executes what follows a `DD` prefix.
    pub fn execute_dd_instruction(
        &mut self,
        memory: &mut Memory,
        io: &mut IoController,
        tape: &Option<Tape>,
    ) -> (cycles: u8)
        requires
            old(memory)@.wf(),
            old(io).wf(),
        ensures
            final(memory)@.wf(),
            *final(io) == *old(io),
            outcome(*final(self), final(memory)@, cycles) == old(self).prefixed_spec(
                old(memory)@,
                Index::IX,
                *old(io),
                *tape,
            ),
            4 <= cycles <= 23,
    {
        self.execute_prefixed(Index::IX, memory, io, tape)
    }
}

} // verus!
