//! The `ED` table: 16-bit arithmetic, interrupt registers, port access
//! through `C`, and the block instructions.

use vstd::prelude::*;
use crate::cpu::alu::{
    adc16, adc16_spec, block_compare, block_compare_spec, load_flags, load_flags_spec, sbc16,
    sbc16_spec, sub8, sub8_spec,
};
use crate::cpu::flags::{
    flag, has_even_parity, pack, pack_flags, parity_even, FLAG_C, FLAG_S, FLAG_X, FLAG_Y, FLAG_Z,
};
use crate::cpu::{outcome, Cpu, Index, Next};
use crate::io::IoController;
use crate::memory::{add16, Memory, MemoryView};
use crate::tape::Tape;

verus! {

impl Cpu {
    /// `IN r,(C)`: the port is `C`, the upper address lines carry `B`. With
    /// register code 6 only the flags change.
    pub open spec fn in_r_c_spec(self, mem: MemoryView, op: u8, io: IoController, tape: Option<Tape>) -> Next {
        let v = io.port_spec(self.c, self.b, tape);
        Next {
            cpu: self.with_f(load_flags_spec(v, parity_even(v), self.f)).with_reg((op / 8) % 8, v),
            mem,
            cycles: 12,
        }
    }

    /// `SBC HL,rr` and `ADC HL,rr`.
    pub open spec fn adc_sbc_hl_spec(self, mem: MemoryView, op: u8) -> Next {
        let rr = self.rp_spec((op / 16) % 4, Index::HL);
        let out = if op % 16 == 2 {
            sbc16_spec(self.hl_spec(), rr, flag(self.f, FLAG_C))
        } else {
            adc16_spec(self.hl_spec(), rr, flag(self.f, FLAG_C))
        };
        Next { cpu: self.with_hl(out.value).with_f(out.flags), mem, cycles: 15 }
    }

    /// `LD (nn),rr` and `LD rr,(nn)`.
    pub open spec fn ld_nn_rr_spec(self, mem: MemoryView, op: u8) -> Next {
        let p = (op / 16) % 4;
        let nn = self.imm16(mem, 0);
        if op % 16 == 3 {
            Next {
                cpu: self.skip(2),
                mem: mem.write_word(nn, self.rp_spec(p, Index::HL)),
                cycles: 20,
            }
        } else {
            Next { cpu: self.skip(2).with_rp(p, Index::HL, mem.read_word(nn)), mem, cycles: 20 }
        }
    }

    /// `NEG`: `A` becomes `0 - A`, with the flags of that subtraction.
    pub open spec fn neg_spec(self) -> Cpu {
        let out = sub8_spec(0, self.a, false);
        Cpu { a: out.value, f: out.flags, ..self }
    }

    /// `LD A,I` and `LD A,R`: `P/V` reports `IFF2`.
    pub open spec fn ld_a_ir_spec(self, v: u8) -> Cpu {
        Cpu { a: v, f: load_flags_spec(v, self.iff2, self.f), ..self }
    }

    /// The rest of the second quarter of the table: `NEG`, `IM 0/1/2`, and
    /// the loads between `A` and `I` or `R`.
    pub open spec fn ed_misc_spec(self, mem: MemoryView, op: u8) -> Next {
        if op == 0x44 {
            Next { cpu: self.neg_spec(), mem, cycles: 8 }
        } else if op == 0x46 {
            Next { cpu: Cpu { interrupt_mode: 0, ..self }, mem, cycles: 8 }
        } else if op == 0x56 {
            Next { cpu: Cpu { interrupt_mode: 1, ..self }, mem, cycles: 8 }
        } else if op == 0x5E {
            Next { cpu: Cpu { interrupt_mode: 2, ..self }, mem, cycles: 8 }
        } else if op == 0x47 {
            Next { cpu: Cpu { i: self.a, ..self }, mem, cycles: 9 }
        } else if op == 0x4F {
            Next { cpu: Cpu { r: self.a, ..self }, mem, cycles: 9 }
        } else if op == 0x57 {
            Next { cpu: self.ld_a_ir_spec(self.i), mem, cycles: 9 }
        } else if op == 0x5F {
            Next { cpu: self.ld_a_ir_spec(self.r), mem, cycles: 9 }
        } else {
            self.unimplemented_spec(mem)
        }
    }

    /// The direction of a block instruction: up for `0xA0`, `0xA1`, `0xB0`,
    /// `0xB1`, down for the others.
    pub open spec fn block_dir(op: u8) -> int {
        if op % 16 < 8 {
            1
        } else {
            -1
        }
    }

    /// The registers after one move of `LDI`, `LDD`, `LDIR` or `LDDR`,
    /// before any repeat: `HL` and `DE` move on, `BC` counts down, `H` and
    /// `N` are clear and `P/V` says whether `BC` is not yet zero.
    pub open spec fn block_copy_regs(self, op: u8) -> Cpu {
        let bc = add16(self.bc_spec(), -1);
        self.with_hl(add16(self.hl_spec(), Cpu::block_dir(op))).with_de(
            add16(self.de_spec(), Cpu::block_dir(op)),
        ).with_bc(bc).with_f(
            pack(
                flag(self.f, FLAG_S),
                flag(self.f, FLAG_Z),
                flag(self.f, FLAG_Y),
                false,
                flag(self.f, FLAG_X),
                bc != 0,
                false,
                flag(self.f, FLAG_C),
            ),
        )
    }

    /// `LDI`, `LDD`, `LDIR`, `LDDR`: one byte goes from `(HL)` to `(DE)`.
    /// The repeating forms step `PC` back onto themselves while `BC` is not
    /// zero, at 21 T-states; otherwise 16.
    pub open spec fn block_copy_spec(self, mem: MemoryView, op: u8) -> Next {
        let cpu = self.block_copy_regs(op);
        let mem2 = mem.write(self.de_spec(), mem.read(self.hl_spec()));
        if op >= 0xB0 && add16(self.bc_spec(), -1) != 0 {
            Next { cpu: cpu.skip(-2), mem: mem2, cycles: 21 }
        } else {
            Next { cpu, mem: mem2, cycles: 16 }
        }
    }

    /// The registers after one comparison of `CPI`, `CPD`, `CPIR` or `CPDR`,
    /// before any repeat.
    pub open spec fn block_compare_regs(self, mem: MemoryView, op: u8) -> Cpu {
        let bc = add16(self.bc_spec(), -1);
        self.with_hl(add16(self.hl_spec(), Cpu::block_dir(op))).with_bc(bc).with_f(
            block_compare_spec(self.a, mem.read(self.hl_spec()), bc != 0, self.f),
        )
    }

    /// `CPI`, `CPD`, `CPIR`, `CPDR`: `A` is compared with `(HL)`. The
    /// repeating forms step `PC` back onto themselves while `BC` is not zero
    /// and the bytes differ, at 21 T-states; otherwise 16.
    pub open spec fn block_search_spec(self, mem: MemoryView, op: u8) -> Next {
        let cpu = self.block_compare_regs(mem, op);
        if op >= 0xB0 && add16(self.bc_spec(), -1) != 0 && self.a != mem.read(self.hl_spec()) {
            Next { cpu: cpu.skip(-2), mem, cycles: 21 }
        } else {
            Next { cpu, mem, cycles: 16 }
        }
    }

    /// Whether `op` is one of the eight block instructions.
    pub open spec fn is_block_op(op: u8) -> bool {
        0xA0 <= op < 0xC0 && op % 8 < 2
    }

    /// `IN r,(C)`.
    fn in_r_c(&mut self, opcode: u8, memory: &Memory, io: &IoController, tape: &Option<Tape>) -> (cycles: u8)
        requires
            io.wf(),
        ensures
            outcome(*final(self), memory@, cycles) == old(self).in_r_c_spec(
                memory@,
                opcode,
                *io,
                *tape,
            ),
    {
        let v = io.read_port(self.c, self.b, tape);
        self.f = load_flags(v, has_even_parity(v), self.f);
        self.write_r((opcode / 8) % 8, Index::HL, v);
        12
    }

    /// `SBC HL,rr`.
    fn sbc_hl_rr(&mut self, opcode: u8, memory: &Memory) -> (cycles: u8)
        requires
            opcode % 16 == 2,
        ensures
            outcome(*final(self), memory@, cycles) == old(self).adc_sbc_hl_spec(memory@, opcode),
    {
        let operand = self.rp((opcode / 16) % 4, Index::HL);
        let out = sbc16(self.hl(), operand, self.get_flag_c());
        self.set_hl(out.value);
        self.f = out.flags;
        15
    }

    /// `ADC HL,rr`.
    fn adc_hl_rr(&mut self, opcode: u8, memory: &Memory) -> (cycles: u8)
        requires
            opcode % 16 != 2,
        ensures
            outcome(*final(self), memory@, cycles) == old(self).adc_sbc_hl_spec(memory@, opcode),
    {
        let operand = self.rp((opcode / 16) % 4, Index::HL);
        let out = adc16(self.hl(), operand, self.get_flag_c());
        self.set_hl(out.value);
        self.f = out.flags;
        15
    }

    /// `LD (nn),rr` and `LD rr,(nn)`.
    fn ld_nn_rr(&mut self, opcode: u8, memory: &mut Memory) -> (cycles: u8)
        requires
            old(memory)@.wf(),
        ensures
            final(memory)@.wf(),
            outcome(*final(self), final(memory)@, cycles) == old(self).ld_nn_rr_spec(
                old(memory)@,
                opcode,
            ),
    {
        let p = (opcode / 16) % 4;
        let addr = self.fetch_word(memory);
        if opcode % 16 == 3 {
            memory.write_word(addr, self.rp(p, Index::HL));
        } else {
            let val = memory.read_word(addr);
            self.set_rp(p, Index::HL, val);
        }
        20
    }

    /// `NEG`.
    fn neg(&mut self) -> (cycles: u8)
        ensures
            *final(self) == old(self).neg_spec(),
            cycles == 8,
    {
        let out = sub8(0, self.a, false);
        self.a = out.value;
        self.f = out.flags;
        8
    }

    /// `LD A,I` and `LD A,R`.
    fn ld_a_ir(&mut self, v: u8) -> (cycles: u8)
        ensures
            *final(self) == old(self).ld_a_ir_spec(v),
            cycles == 9,
    {
        self.f = load_flags(v, self.iff2, self.f);
        self.a = v;
        9
    }

    /// `NEG`, `IM 0/1/2` and the loads between `A` and `I` or `R`.
    fn ed_misc(&mut self, opcode: u8, memory: &Memory) -> (cycles: u8)
        ensures
            outcome(*final(self), memory@, cycles) == old(self).ed_misc_spec(memory@, opcode),
    {
        match opcode {
            0x44 => self.neg(),
            0x46 => {
                self.interrupt_mode = 0;
                8
            },
            0x56 => {
                self.interrupt_mode = 1;
                8
            },
            0x5E => {
                self.interrupt_mode = 2;
                8
            },
            0x47 => {
                self.i = self.a;
                9
            },
            0x4F => {
                self.r = self.a;
                9
            },
            0x57 => self.ld_a_ir(self.i),
            0x5F => self.ld_a_ir(self.r),
            _ => 4,
        }
    }

    /// Moves a block pointer one place in the direction of `opcode`.
    fn block_step(opcode: u8, v: u16) -> (r: u16)
        ensures
            r == add16(v, Cpu::block_dir(opcode)),
    {
        if opcode % 16 < 8 {
            v.wrapping_add(1)
        } else {
            v.wrapping_sub(1)
        }
    }

    /// Moves the block registers on after one byte has been copied, and
    /// tells whether `BC` is not yet zero.
    #[verifier::rlimit(40)]
    fn block_copy_step(&mut self, opcode: u8) -> (more: bool)
        ensures
            *final(self) == old(self).block_copy_regs(opcode),
            more == (add16(old(self).bc_spec(), -1) != 0),
    {
        let hl = Cpu::block_step(opcode, self.hl());
        let de = Cpu::block_step(opcode, self.de());
        let bc = self.bc().wrapping_sub(1);
        let f = pack_flags(
            self.get_flag_s(),
            self.get_flag_z(),
            self.get_flag_y(),
            false,
            self.get_flag_x(),
            bc != 0,
            false,
            self.get_flag_c(),
        );
        self.set_hl(hl);
        self.set_de(de);
        self.set_bc(bc);
        self.f = f;
        bc != 0
    }

    /// Steps `PC` back onto a repeating block instruction if it is to run
    /// again.
    fn block_repeat(&mut self, again: bool) -> (cycles: u8)
        ensures
            *final(self) == (if again {
                old(self).skip(-2)
            } else {
                *old(self)
            }),
            cycles == (if again {
                21u8
            } else {
                16u8
            }),
    {
        if again {
            self.pc = self.pc.wrapping_sub(2);
            21
        } else {
            16
        }
    }

    /// `LDI`, `LDD`, `LDIR`, `LDDR`.
    #[verifier::rlimit(40)]
    fn block_copy(&mut self, opcode: u8, memory: &mut Memory) -> (cycles: u8)
        requires
            old(memory)@.wf(),
        ensures
            final(memory)@.wf(),
            outcome(*final(self), final(memory)@, cycles) == old(self).block_copy_spec(
                old(memory)@,
                opcode,
            ),
    {
        let byte = memory.read(self.hl());
        memory.write(self.de(), byte);
        let more = self.block_copy_step(opcode);
        self.block_repeat(opcode >= 0xB0 && more)
    }

    /// Moves the block registers on after one comparison, and tells whether
    /// `BC` is not yet zero.
    #[verifier::rlimit(40)]
    fn block_compare_step(&mut self, opcode: u8, val: u8) -> (more: bool)
        ensures
            *final(self) == old(self).with_hl(
                add16(old(self).hl_spec(), Cpu::block_dir(opcode)),
            ).with_bc(add16(old(self).bc_spec(), -1)).with_f(
                block_compare_spec(old(self).a, val, add16(old(self).bc_spec(), -1) != 0, old(self).f),
            ),
            more == (add16(old(self).bc_spec(), -1) != 0),
    {
        let hl = Cpu::block_step(opcode, self.hl());
        let bc = self.bc().wrapping_sub(1);
        let f = block_compare(self.a, val, bc != 0, self.f);
        self.set_hl(hl);
        self.set_bc(bc);
        self.f = f;
        bc != 0
    }

    /// `CPI`, `CPD`, `CPIR`, `CPDR`.
    #[verifier::rlimit(40)]
    fn block_search(&mut self, opcode: u8, memory: &Memory) -> (cycles: u8)
        requires
            memory@.wf(),
        ensures
            outcome(*final(self), memory@, cycles) == old(self).block_search_spec(memory@, opcode),
    {
        let val = memory.read(self.hl());
        let found = self.a == val;
        let more = self.block_compare_step(opcode, val);
        self.block_repeat(opcode >= 0xB0 && more && !found)
    }

    /// The `ED` table. What is not implemented takes 4 T-states and changes
    /// nothing.
    #[verifier::opaque]
    pub open spec fn ed_spec(self, mem: MemoryView, op: u8, io: IoController, tape: Option<Tape>) -> Next {
        let z = op % 8;
        if 0x40 <= op < 0x80 {
            if z == 0 {
                self.in_r_c_spec(mem, op, io, tape)
            } else if z == 1 {
                Next { cpu: self, mem, cycles: 12 }
            } else if z == 2 {
                self.adc_sbc_hl_spec(mem, op)
            } else if z == 3 {
                self.ld_nn_rr_spec(mem, op)
            } else {
                self.ed_misc_spec(mem, op)
            }
        } else if Cpu::is_block_op(op) {
            if z == 0 {
                self.block_copy_spec(mem, op)
            } else {
                self.block_search_spec(mem, op)
            }
        } else if op == 0xFC {
            self.load_hook_spec(mem, tape)
        } else if op == 0xFD {
            self.save_hook_spec(mem)
        } else {
            self.unimplemented_spec(mem)
        }
    }

    /// Executes opcode `opcode` of the `ED` table.
    pub fn execute_ed_instruction(
        &mut self,
        opcode: u8,
        memory: &mut Memory,
        io: &mut IoController,
        tape: &Option<Tape>,
    ) -> (cycles: u8)
        requires
            old(memory)@.wf(),
            old(io).wf(),
        ensures
            final(memory)@.wf(),
            *final(io) == *old(io),
            outcome(*final(self), final(memory)@, cycles) == old(self).ed_spec(
                old(memory)@,
                opcode,
                *old(io),
                *tape,
            ),
            4 <= cycles <= 21,
    {
        reveal(Cpu::ed_spec);
        let z = opcode % 8;
        if 0x40 <= opcode && opcode < 0x80 {
            if z == 0 {
                self.in_r_c(opcode, &*memory, &*io, tape)
            } else if z == 1 {
                let v = self.read_r((opcode / 8) % 8, Index::HL);
                io.write_port(self.c, v);
                12
            } else if z == 2 {
                if opcode % 16 == 2 {
                    self.sbc_hl_rr(opcode, &*memory)
                } else {
                    self.adc_hl_rr(opcode, &*memory)
                }
            } else if z == 3 {
                self.ld_nn_rr(opcode, memory)
            } else {
                self.ed_misc(opcode, &*memory)
            }
        } else if 0xA0 <= opcode && opcode < 0xC0 && z < 2 {
            if z == 0 {
                self.block_copy(opcode, memory)
            } else {
                self.block_search(opcode, &*memory)
            }
        } else if opcode == 0xFC {
            self.load_hook(memory, tape)
        } else if opcode == 0xFD {
            self.save_hook(&*memory)
        } else {
            4
        }
    }
}

} // verus!
