//! The `CB` table: rotates, shifts and single-bit operations on a register
//! or on `(HL)`.

use vstd::prelude::*;
use crate::cpu::alu::{bit_flags, bit_flags_spec, bit_mask, mask_of, rot8, rot8_spec};
use crate::cpu::{outcome, Cpu, Next};
use crate::memory::{Memory, MemoryView};

verus! {

impl Cpu {
    /// The bus after a write of `v` through register code `code`.
    pub open spec fn store_spec(self, code: u8, v: u8, mem: MemoryView) -> MemoryView {
        if code == 6 {
            mem.write(self.hl_spec(), v)
        } else {
            mem
        }
    }

    /// What `RES` or `SET` makes of `v`: bit `(op / 8) % 8` cleared in the
    /// third quarter of the table, set in the fourth.
    pub open spec fn res_set_value(op: u8, v: u8) -> u8 {
        if op < 0xC0 {
            v & !bit_mask((op / 8) % 8)
        } else {
            v | bit_mask((op / 8) % 8)
        }
    }

    /// A rotate or shift of the `CB` table: 8 T-states, 15 on `(HL)`. The
    /// shift with code 6 is not implemented.
    pub open spec fn rot_r_spec(self, mem: MemoryView, op: u8) -> Next {
        let z = op % 8;
        let out = rot8_spec(op / 8, self.reg_spec(z, mem), self.f);
        if op / 8 == 6 {
            self.unimplemented_spec(mem)
        } else {
            Next {
                cpu: self.with_f(out.flags).with_reg(z, out.value),
                mem: self.store_spec(z, out.value, mem),
                cycles: if z == 6 { 15 } else { 8 },
            }
        }
    }

    /// `BIT n,r`: only `F` changes; 8 T-states, 12 on `(HL)`.
    pub open spec fn bit_n_r_spec(self, mem: MemoryView, op: u8) -> Next {
        let z = op % 8;
        Next {
            cpu: self.with_f(bit_flags_spec((op / 8) % 8, self.reg_spec(z, mem), self.f)),
            mem,
            cycles: if z == 6 { 12 } else { 8 },
        }
    }

    /// `RES n,r` and `SET n,r`: no flag changes; 8 T-states, 15 on `(HL)`.
    pub open spec fn res_set_spec(self, mem: MemoryView, op: u8) -> Next {
        let z = op % 8;
        let r = Cpu::res_set_value(op, self.reg_spec(z, mem));
        Next {
            cpu: self.with_reg(z, r),
            mem: self.store_spec(z, r, mem),
            cycles: if z == 6 { 15 } else { 8 },
        }
    }

    /// The `CB` table.
    #[verifier::opaque]
    pub open spec fn cb_spec(self, mem: MemoryView, op: u8) -> Next {
        if op < 0x40 {
            self.rot_r_spec(mem, op)
        } else if op < 0x80 {
            self.bit_n_r_spec(mem, op)
        } else {
            self.res_set_spec(mem, op)
        }
    }

    /// Clears or sets bit `(opcode / 8) % 8` of `v`.
    pub fn res_set(opcode: u8, v: u8) -> (r: u8)
        ensures
            r == Cpu::res_set_value(opcode, v),
    {
        let mask = mask_of((opcode / 8) % 8);
        if opcode < 0xC0 {
            v & !mask
        } else {
            v | mask
        }
    }

    /// A rotate or shift of a register or `(HL)`.
    fn rot_r(&mut self, opcode: u8, memory: &mut Memory) -> (cycles: u8)
        requires
            old(memory)@.wf(),
            opcode < 0x40,
        ensures
            final(memory)@.wf(),
            outcome(*final(self), final(memory)@, cycles) == old(self).rot_r_spec(
                old(memory)@,
                opcode,
            ),
    {
        let reg = opcode % 8;
        if opcode / 8 == 6 {
            return 4;
        }
        let val = self.read_reg(reg, memory);
        let out = rot8(opcode / 8, val, self.f);
        self.f = out.flags;
        self.write_reg(reg, out.value, memory);
        if reg == 6 {
            15
        } else {
            8
        }
    }

    /// `BIT n,r`.
    fn bit_n_r(&mut self, opcode: u8, memory: &Memory) -> (cycles: u8)
        requires
            memory@.wf(),
        ensures
            outcome(*final(self), memory@, cycles) == old(self).bit_n_r_spec(memory@, opcode),
    {
        let reg = opcode % 8;
        let val = self.read_reg(reg, memory);
        self.f = bit_flags((opcode / 8) % 8, val, self.f);
        if reg == 6 {
            12
        } else {
            8
        }
    }

    /// `RES n,r` and `SET n,r`.
    fn res_set_n_r(&mut self, opcode: u8, memory: &mut Memory) -> (cycles: u8)
        requires
            old(memory)@.wf(),
        ensures
            final(memory)@.wf(),
            outcome(*final(self), final(memory)@, cycles) == old(self).res_set_spec(
                old(memory)@,
                opcode,
            ),
    {
        let reg = opcode % 8;
        let val = self.read_reg(reg, memory);
        self.write_reg(reg, Cpu::res_set(opcode, val), memory);
        if reg == 6 {
            15
        } else {
            8
        }
    }

    /// Executes opcode `opcode` of the `CB` table.
    pub fn execute_cb_instruction(&mut self, opcode: u8, memory: &mut Memory) -> (cycles: u8)
        requires
            old(memory)@.wf(),
        ensures
            final(memory)@.wf(),
            outcome(*final(self), final(memory)@, cycles) == old(self).cb_spec(old(memory)@, opcode),
            4 <= cycles <= 15,
    {
        reveal(Cpu::cb_spec);
        if opcode < 0x40 {
            self.rot_r(opcode, memory)
        } else if opcode < 0x80 {
            self.bit_n_r(opcode, &*memory)
        } else {
            self.res_set_n_r(opcode, memory)
        }
    }
}

} // verus!
