//! The primary opcode table, with `HL`, `IX` or `IY` as the index register
//! in effect.

use vstd::prelude::*;
use crate::cpu::alu::{
    add16_flags, add16_spec, alu8, alu8_spec, dec8, dec8_spec, inc8, inc8_spec, rot_a, rot_a_spec,
};
use crate::cpu::flags::{flag, pack, pack_flags, FLAG_C, FLAG_PV, FLAG_S, FLAG_Z};
use crate::cpu::{displaced, outcome, sext, Cpu, Index, Next};
use crate::io::IoController;
use crate::memory::{add16, hi_byte, high_byte, lo_byte, low_byte, make_word, pair, Memory, MemoryView};
use crate::tape::Tape;

verus! {

/// Bytes of displacement that an operand with register code `code` takes.
pub open spec fn disp_len(code: u8, idx: Index) -> int {
    if code == 6 && idx != Index::HL {
        1
    } else {
        0
    }
}

/// T-states that a displaced operand adds to the plain `(HL)` form.
pub open spec fn disp_cost(code: u8, idx: Index) -> u8 {
    if code == 6 && idx != Index::HL {
        8
    } else {
        0
    }
}

/// T-states that a displaced operand adds to the plain `(HL)` form.
pub fn displacement_cost(code: u8, idx: Index) -> (t: u8)
    ensures
        t == disp_cost(code, idx),
{
    if code == 6 && idx != Index::HL {
        8
    } else {
        0
    }
}

impl Cpu {
    /// The index register in effect.
    pub open spec fn index_spec(self, idx: Index) -> u16 {
        match idx {
            Index::HL => self.hl_spec(),
            Index::IX => self.ix,
            Index::IY => self.iy,
        }
    }

    /// The register file with the index register in effect replaced.
    pub open spec fn with_index(self, idx: Index, v: u16) -> Cpu {
        match idx {
            Index::HL => self.with_hl(v),
            Index::IX => Cpu { ix: v, ..self },
            Index::IY => Cpu { iy: v, ..self },
        }
    }

    /// What register code `code` reads when no memory operand is involved:
    /// codes 4 and 5 are the halves of the index register in effect.
    pub open spec fn reg_ix(self, code: u8, idx: Index) -> u8 {
        if code == 4 && idx != Index::HL {
            hi_byte(self.index_spec(idx))
        } else if code == 5 && idx != Index::HL {
            lo_byte(self.index_spec(idx))
        } else if code == 0 {
            self.b
        } else if code == 1 {
            self.c
        } else if code == 2 {
            self.d
        } else if code == 3 {
            self.e
        } else if code == 4 {
            self.h
        } else if code == 5 {
            self.l
        } else {
            self.a
        }
    }

    /// The register file after a write through register code `code` when no
    /// memory operand is involved.
    pub open spec fn with_reg_ix(self, code: u8, idx: Index, v: u8) -> Cpu {
        if code == 4 && idx != Index::HL {
            self.with_index(idx, pair(v, lo_byte(self.index_spec(idx))))
        } else if code == 5 && idx != Index::HL {
            self.with_index(idx, pair(hi_byte(self.index_spec(idx)), v))
        } else {
            self.with_reg(code, v)
        }
    }

    /// The address of the memory operand: `HL`, or the index register moved
    /// by the displacement byte at `PC`.
    pub open spec fn operand_addr(self, idx: Index, mem: MemoryView) -> u16 {
        match idx {
            Index::HL => self.hl_spec(),
            Index::IX => add16(self.ix, sext(self.imm8(mem, 0))),
            Index::IY => add16(self.iy, sext(self.imm8(mem, 0))),
        }
    }

    /// What an 8-bit operand with register code `code` reads.
    pub open spec fn operand_spec(self, code: u8, idx: Index, mem: MemoryView) -> u8 {
        if code == 6 {
            mem.read(self.operand_addr(idx, mem))
        } else {
            self.reg_ix(code, idx)
        }
    }

    /// Register pair `p` of `BC, DE, HL, SP`, with the index register in
    /// effect for `HL`.
    pub open spec fn rp_spec(self, p: u8, idx: Index) -> u16 {
        if p == 0 {
            self.bc_spec()
        } else if p == 1 {
            self.de_spec()
        } else if p == 2 {
            self.index_spec(idx)
        } else {
            self.sp
        }
    }

    /// The register file with pair `p` of `BC, DE, HL, SP` replaced.
    pub open spec fn with_rp(self, p: u8, idx: Index, v: u16) -> Cpu {
        if p == 0 {
            self.with_bc(v)
        } else if p == 1 {
            self.with_de(v)
        } else if p == 2 {
            self.with_index(idx, v)
        } else {
            Cpu { sp: v, ..self }
        }
    }

    /// Register pair `p` of `BC, DE, HL, AF`.
    pub open spec fn rp2_spec(self, p: u8, idx: Index) -> u16 {
        if p == 3 {
            self.af_spec()
        } else {
            self.rp_spec(p, idx)
        }
    }

    /// The register file with pair `p` of `BC, DE, HL, AF` replaced.
    pub open spec fn with_rp2(self, p: u8, idx: Index, v: u16) -> Cpu {
        if p == 3 {
            self.with_af(v)
        } else {
            self.with_rp(p, idx, v)
        }
    }

    /// Condition `cc` of `NZ, Z, NC, C, PO, PE, P, M`.
    pub open spec fn cond_spec(self, cc: u8) -> bool {
        if cc == 0 {
            !flag(self.f, FLAG_Z)
        } else if cc == 1 {
            flag(self.f, FLAG_Z)
        } else if cc == 2 {
            !flag(self.f, FLAG_C)
        } else if cc == 3 {
            flag(self.f, FLAG_C)
        } else if cc == 4 {
            !flag(self.f, FLAG_PV)
        } else if cc == 5 {
            flag(self.f, FLAG_PV)
        } else if cc == 6 {
            !flag(self.f, FLAG_S)
        } else {
            flag(self.f, FLAG_S)
        }
    }

    /// An opcode that is not implemented: nothing changes, 4 T-states pass.
    pub open spec fn unimplemented_spec(self, mem: MemoryView) -> Next {
        Next { cpu: self, mem, cycles: 4 }
    }

    /// `HALT`: the halt latch is set.
    pub open spec fn halt_spec(self, mem: MemoryView) -> Next {
        Next { cpu: Cpu { is_halted: true, ..self }, mem, cycles: 4 }
    }

    /// `LD r,r'`: 7 T-states with a memory operand, 4 without.
    pub open spec fn ld_r_r_spec(self, mem: MemoryView, op: u8, idx: Index) -> Next {
        let dst = (op / 8) % 8;
        let src = op % 8;
        if src == 6 {
            Next {
                cpu: self.skip(disp_len(6, idx)).with_reg(dst, mem.read(self.operand_addr(idx, mem))),
                mem,
                cycles: (7 + disp_cost(6, idx)) as u8,
            }
        } else if dst == 6 {
            Next {
                cpu: self.skip(disp_len(6, idx)),
                mem: mem.write(self.operand_addr(idx, mem), self.reg_ix(src, Index::HL)),
                cycles: (7 + disp_cost(6, idx)) as u8,
            }
        } else {
            Next { cpu: self.with_reg_ix(dst, idx, self.reg_ix(src, idx)), mem, cycles: 4 }
        }
    }

    /// `LD r,n`: 7 T-states; `LD (HL),n` 10; `LD (IX+d),n` 15 behind its
    /// prefix.
    pub open spec fn ld_r_n_spec(self, mem: MemoryView, op: u8, idx: Index) -> Next {
        let dst = (op / 8) % 8;
        if dst == 6 {
            Next {
                cpu: self.skip(disp_len(6, idx) + 1),
                mem: mem.write(self.operand_addr(idx, mem), self.imm8(mem, disp_len(6, idx))),
                cycles: if idx == Index::HL { 10 } else { 15 },
            }
        } else {
            Next { cpu: self.skip(1).with_reg_ix(dst, idx, self.imm8(mem, 0)), mem, cycles: 7 }
        }
    }

    /// `LD rr,nn`.
    pub open spec fn ld_rr_nn_spec(self, mem: MemoryView, op: u8, idx: Index) -> Next {
        Next { cpu: self.skip(2).with_rp(op / 16, idx, self.imm16(mem, 0)), mem, cycles: 10 }
    }

    /// The eight loads between `A` or `HL` and memory at `(BC)`, `(DE)` or
    /// `(nn)`.
    pub open spec fn ld_indirect_spec(self, mem: MemoryView, op: u8, idx: Index) -> Next {
        let p = op / 16;
        let nn = self.imm16(mem, 0);
        if op % 16 == 2 {
            if p == 0 {
                Next { cpu: self, mem: mem.write(self.bc_spec(), self.a), cycles: 7 }
            } else if p == 1 {
                Next { cpu: self, mem: mem.write(self.de_spec(), self.a), cycles: 7 }
            } else if p == 2 {
                Next { cpu: self.skip(2), mem: mem.write_word(nn, self.index_spec(idx)), cycles: 16 }
            } else {
                Next { cpu: self.skip(2), mem: mem.write(nn, self.a), cycles: 13 }
            }
        } else {
            if p == 0 {
                Next { cpu: Cpu { a: mem.read(self.bc_spec()), ..self }, mem, cycles: 7 }
            } else if p == 1 {
                Next { cpu: Cpu { a: mem.read(self.de_spec()), ..self }, mem, cycles: 7 }
            } else if p == 2 {
                Next { cpu: self.skip(2).with_index(idx, mem.read_word(nn)), mem, cycles: 16 }
            } else {
                Next { cpu: Cpu { a: mem.read(nn), ..self.skip(2) }, mem, cycles: 13 }
            }
        }
    }

    /// `INC r` and `DEC r`: 4 T-states; on `(HL)` 11.
    pub open spec fn inc_dec_r_spec(self, mem: MemoryView, op: u8, idx: Index) -> Next {
        let code = (op / 8) % 8;
        let v = self.operand_spec(code, idx, mem);
        let out = if op % 8 == 4 {
            inc8_spec(v, self.f)
        } else {
            dec8_spec(v, self.f)
        };
        let cpu = self.skip(disp_len(code, idx)).with_f(out.flags);
        if code == 6 {
            Next {
                cpu,
                mem: mem.write(self.operand_addr(idx, mem), out.value),
                cycles: (11 + disp_cost(6, idx)) as u8,
            }
        } else {
            Next { cpu: cpu.with_reg_ix(code, idx, out.value), mem, cycles: 4 }
        }
    }

    /// `INC rr` and `DEC rr`: no flag changes.
    pub open spec fn inc_dec_rr_spec(self, mem: MemoryView, op: u8, idx: Index) -> Next {
        let p = op / 16;
        let d: int = if op % 16 == 3 {
            1
        } else {
            -1
        };
        Next { cpu: self.with_rp(p, idx, add16(self.rp_spec(p, idx), d)), mem, cycles: 6 }
    }

    /// `ADD HL,rr`.
    pub open spec fn add_hl_rr_spec(self, mem: MemoryView, op: u8, idx: Index) -> Next {
        let out = add16_spec(self.index_spec(idx), self.rp_spec(op / 16, idx), self.f);
        Next { cpu: self.with_index(idx, out.value).with_f(out.flags), mem, cycles: 11 }
    }

    /// The accumulator operation `(op / 8) % 8` on `A` and `x`.
    pub open spec fn alu_a_spec(self, op: u8, x: u8) -> Cpu {
        let out = alu8_spec((op / 8) % 8, self.a, x, self.f);
        Cpu { a: out.value, f: out.flags, ..self }
    }

    /// `ADD/ADC/SUB/SBC/AND/XOR/OR/CP A,r`: 4 T-states; with `(HL)` 7.
    pub open spec fn alu_a_r_spec(self, mem: MemoryView, op: u8, idx: Index) -> Next {
        let code = op % 8;
        Next {
            cpu: self.skip(disp_len(code, idx)).alu_a_spec(op, self.operand_spec(code, idx, mem)),
            mem,
            cycles: (if code == 6 { 7 + disp_cost(6, idx) } else { 4 }) as u8,
        }
    }

    /// `ADD/ADC/SUB/SBC/AND/XOR/OR/CP A,n`.
    pub open spec fn alu_a_n_spec(self, mem: MemoryView, op: u8) -> Next {
        Next { cpu: self.skip(1).alu_a_spec(op, self.imm8(mem, 0)), mem, cycles: 7 }
    }

    /// `RLCA, RRCA, RLA, RRA`, the unimplemented `DAA`, `CPL, SCF, CCF`.
    pub open spec fn accumulator_spec(self, mem: MemoryView, op: u8) -> Next {
        let y = op / 8;
        let s = flag(self.f, FLAG_S);
        let z = flag(self.f, FLAG_Z);
        let pv = flag(self.f, FLAG_PV);
        let c = flag(self.f, FLAG_C);
        let a = self.a;
        let na = !self.a;
        if y < 4 {
            let out = rot_a_spec(y, self.a, self.f);
            Next { cpu: Cpu { a: out.value, f: out.flags, ..self }, mem, cycles: 4 }
        } else if y == 4 {
            self.unimplemented_spec(mem)
        } else if y == 5 {
            Next {
                cpu: Cpu {
                    a: na,
                    f: pack(s, z, na & 0x20 != 0, true, na & 0x08 != 0, pv, true, c),
                    ..self
                },
                mem,
                cycles: 4,
            }
        } else if y == 6 {
            Next {
                cpu: self.with_f(pack(s, z, a & 0x20 != 0, false, a & 0x08 != 0, pv, false, true)),
                mem,
                cycles: 4,
            }
        } else {
            Next {
                cpu: self.with_f(pack(s, z, a & 0x20 != 0, c, a & 0x08 != 0, pv, false, !c)),
                mem,
                cycles: 4,
            }
        }
    }

    /// `DJNZ d`, `JR d` and `JR cc,d`.
    pub open spec fn jr_spec(self, mem: MemoryView, op: u8) -> Next {
        let y = op / 8;
        let target = add16(self.skip(1).pc, sext(self.imm8(mem, 0)));
        if y == 2 {
            let b = ((self.b - 1) % 256) as u8;
            if b != 0 {
                Next { cpu: Cpu { b, pc: target, ..self }, mem, cycles: 13 }
            } else {
                Next { cpu: Cpu { b, ..self.skip(1) }, mem, cycles: 8 }
            }
        } else if y == 3 || self.cond_spec((y - 4) as u8) {
            Next { cpu: self.jump(target), mem, cycles: 12 }
        } else {
            Next { cpu: self.skip(1), mem, cycles: 7 }
        }
    }

    /// `JP nn` and `JP cc,nn`: 10 T-states, taken or not.
    pub open spec fn jp_cc_nn_spec(self, mem: MemoryView, op: u8) -> Next {
        if op == 0xC3 || self.cond_spec((op / 8) % 8) {
            Next { cpu: self.jump(self.imm16(mem, 0)), mem, cycles: 10 }
        } else {
            Next { cpu: self.skip(2), mem, cycles: 10 }
        }
    }

    /// `CALL nn` and `CALL cc,nn`: 17 T-states when taken, 10 when not.
    pub open spec fn call_cc_nn_spec(self, mem: MemoryView, op: u8) -> Next {
        let ret = self.skip(2);
        if op == 0xCD || self.cond_spec((op / 8) % 8) {
            Next {
                cpu: ret.after_push().jump(self.imm16(mem, 0)),
                mem: ret.push_mem(ret.pc, mem),
                cycles: 17,
            }
        } else {
            Next { cpu: ret, mem, cycles: 10 }
        }
    }

    /// `RET` (10 T-states) and `RET cc` (11 when taken, 5 when not).
    pub open spec fn ret_cc_spec(self, mem: MemoryView, op: u8) -> Next {
        if op == 0xC9 {
            Next { cpu: self.after_pop().jump(mem.read_word(self.sp)), mem, cycles: 10 }
        } else if self.cond_spec((op / 8) % 8) {
            Next { cpu: self.after_pop().jump(mem.read_word(self.sp)), mem, cycles: 11 }
        } else {
            Next { cpu: self, mem, cycles: 5 }
        }
    }

    /// `RST p`: a call to `op & 0x38`.
    pub open spec fn rst_spec(self, mem: MemoryView, op: u8) -> Next {
        Next {
            cpu: self.after_push().jump((((op / 8) % 8) * 8) as u16),
            mem: self.push_mem(self.pc, mem),
            cycles: 11,
        }
    }

    /// `PUSH rr`.
    pub open spec fn push_rr_spec(self, mem: MemoryView, op: u8, idx: Index) -> Next {
        Next {
            cpu: self.after_push(),
            mem: self.push_mem(self.rp2_spec((op / 16) % 4, idx), mem),
            cycles: 11,
        }
    }

    /// `POP rr`.
    pub open spec fn pop_rr_spec(self, mem: MemoryView, op: u8, idx: Index) -> Next {
        Next {
            cpu: self.after_pop().with_rp2((op / 16) % 4, idx, mem.read_word(self.sp)),
            mem,
            cycles: 10,
        }
    }

    /// `EX AF,AF'`.
    pub open spec fn ex_af_spec(self) -> Cpu {
        Cpu { af_shadow: self.af_spec(), ..self.with_af(self.af_shadow) }
    }

    /// `EXX`.
    pub open spec fn exx_spec(self) -> Cpu {
        Cpu {
            bc_shadow: self.bc_spec(),
            de_shadow: self.de_spec(),
            hl_shadow: self.hl_spec(),
            ..self.with_bc(self.bc_shadow).with_de(self.de_shadow).with_hl(self.hl_shadow)
        }
    }

    /// `EX DE,HL`.
    pub open spec fn ex_de_hl_spec(self) -> Cpu {
        self.with_de(self.hl_spec()).with_hl(self.de_spec())
    }

    /// `EX (SP),HL`.
    pub open spec fn ex_sp_hl_spec(self, mem: MemoryView, idx: Index) -> Next {
        Next {
            cpu: self.with_index(idx, mem.read_word(self.sp)),
            mem: mem.write_word(self.sp, self.index_spec(idx)),
            cycles: 19,
        }
    }

    /// `IN A,(n)`: the port is `n`, the upper address lines carry `A`.
    pub open spec fn in_a_n_spec(self, mem: MemoryView, io: IoController, tape: Option<Tape>) -> Next {
        Next {
            cpu: Cpu { a: io.port_spec(self.imm8(mem, 0), self.a, tape), ..self.skip(1) },
            mem,
            cycles: 11,
        }
    }

    /// The instructions of the last quarter of the table whose low three
    /// bits are 1: `POP rr`, `RET`, `EXX`, `JP (HL)`, `LD SP,HL`.
    pub open spec fn misc_c1_spec(self, mem: MemoryView, op: u8, idx: Index) -> Next {
        let y = (op / 8) % 8;
        if y % 2 == 0 {
            self.pop_rr_spec(mem, op, idx)
        } else if y == 1 {
            self.ret_cc_spec(mem, op)
        } else if y == 3 {
            Next { cpu: self.exx_spec(), mem, cycles: 4 }
        } else if y == 5 {
            Next { cpu: self.jump(self.index_spec(idx)), mem, cycles: 4 }
        } else {
            Next { cpu: Cpu { sp: self.index_spec(idx), ..self }, mem, cycles: 6 }
        }
    }

    /// The instructions of the last quarter of the table whose low three
    /// bits are 3: `JP nn`, `OUT (n),A`, `IN A,(n)`, `EX (SP),HL`,
    /// `EX DE,HL`, `DI`, `EI`.
    pub open spec fn misc_c3_spec(
        self,
        mem: MemoryView,
        op: u8,
        idx: Index,
        io: IoController,
        tape: Option<Tape>,
    ) -> Next {
        let y = (op / 8) % 8;
        if y == 0 {
            self.jp_cc_nn_spec(mem, op)
        } else if y == 2 {
            Next { cpu: self.skip(1), mem, cycles: 11 }
        } else if y == 3 {
            self.in_a_n_spec(mem, io, tape)
        } else if y == 4 {
            self.ex_sp_hl_spec(mem, idx)
        } else if y == 5 {
            Next { cpu: self.ex_de_hl_spec(), mem, cycles: 4 }
        } else if y == 6 {
            Next { cpu: Cpu { iff1: false, iff2: false, ..self }, mem, cycles: 4 }
        } else if y == 7 {
            Next { cpu: Cpu { iff1: true, iff2: true, ..self }, mem, cycles: 4 }
        } else {
            self.unimplemented_spec(mem)
        }
    }

    /// The first quarter of the table, opcodes `0x00..=0x3F`.
    pub open spec fn quarter0_spec(self, mem: MemoryView, op: u8, idx: Index) -> Next {
        let z = op % 8;
        if z == 0 {
            if op == 0x00 {
                Next { cpu: self, mem, cycles: 4 }
            } else if op == 0x08 {
                Next { cpu: self.ex_af_spec(), mem, cycles: 4 }
            } else {
                self.jr_spec(mem, op)
            }
        } else if z == 1 {
            if op % 16 == 1 {
                self.ld_rr_nn_spec(mem, op, idx)
            } else {
                self.add_hl_rr_spec(mem, op, idx)
            }
        } else if z == 2 {
            self.ld_indirect_spec(mem, op, idx)
        } else if z == 3 {
            self.inc_dec_rr_spec(mem, op, idx)
        } else if z == 4 || z == 5 {
            self.inc_dec_r_spec(mem, op, idx)
        } else if z == 6 {
            self.ld_r_n_spec(mem, op, idx)
        } else {
            self.accumulator_spec(mem, op)
        }
    }

    /// The last quarter of the table, opcodes `0xC0..=0xFF`.
    pub open spec fn quarter3_spec(
        self,
        mem: MemoryView,
        op: u8,
        idx: Index,
        io: IoController,
        tape: Option<Tape>,
    ) -> Next {
        let z = op % 8;
        if z == 0 {
            self.ret_cc_spec(mem, op)
        } else if z == 1 {
            self.misc_c1_spec(mem, op, idx)
        } else if z == 2 {
            self.jp_cc_nn_spec(mem, op)
        } else if z == 3 {
            self.misc_c3_spec(mem, op, idx, io, tape)
        } else if z == 4 {
            self.call_cc_nn_spec(mem, op)
        } else if z == 5 {
            if op % 16 == 5 {
                self.push_rr_spec(mem, op, idx)
            } else if op == 0xCD {
                self.call_cc_nn_spec(mem, op)
            } else {
                self.unimplemented_spec(mem)
            }
        } else if z == 6 {
            self.alu_a_n_spec(mem, op)
        } else {
            self.rst_spec(mem, op)
        }
    }

    /// The primary table: what opcode `op` does once it has been fetched,
    /// with `idx` standing for `HL`. The prefix bytes themselves are not
    /// instructions of this table.
    #[verifier::opaque]
    pub open spec fn main_spec(
        self,
        mem: MemoryView,
        op: u8,
        idx: Index,
        io: IoController,
        tape: Option<Tape>,
    ) -> Next {
        if op < 0x40 {
            self.quarter0_spec(mem, op, idx)
        } else if op == 0x76 {
            self.halt_spec(mem)
        } else if op < 0x80 {
            self.ld_r_r_spec(mem, op, idx)
        } else if op < 0xC0 {
            self.alu_a_r_spec(mem, op, idx)
        } else {
            self.quarter3_spec(mem, op, idx, io, tape)
        }
    }
}

impl Cpu {
    /// The index register in effect.
    pub fn index_reg(&self, idx: Index) -> (v: u16)
        ensures
            v == self.index_spec(idx),
    {
        match idx {
            Index::HL => self.hl(),
            Index::IX => self.ix,
            Index::IY => self.iy,
        }
    }

    /// Replaces the index register in effect.
    pub fn set_index_reg(&mut self, idx: Index, v: u16)
        ensures
            *final(self) == old(self).with_index(idx, v),
    {
        match idx {
            Index::HL => self.set_hl(v),
            Index::IX => self.ix = v,
            Index::IY => self.iy = v,
        }
    }

    /// Reads a register through its code when no memory operand is involved.
    pub fn read_r(&self, code: u8, idx: Index) -> (v: u8)
        ensures
            v == self.reg_ix(code, idx),
    {
        if code == 4 && idx != Index::HL {
            high_byte(self.index_reg(idx))
        } else if code == 5 && idx != Index::HL {
            low_byte(self.index_reg(idx))
        } else {
            match code {
                0 => self.b,
                1 => self.c,
                2 => self.d,
                3 => self.e,
                4 => self.h,
                5 => self.l,
                _ => self.a,
            }
        }
    }

    /// Writes a register through its code when no memory operand is
    /// involved; code 6 writes nothing.
    pub fn write_r(&mut self, code: u8, idx: Index, v: u8)
        ensures
            *final(self) == old(self).with_reg_ix(code, idx, v),
    {
        if code == 4 && idx != Index::HL {
            let lo = low_byte(self.index_reg(idx));
            self.set_index_reg(idx, make_word(v, lo));
        } else if code == 5 && idx != Index::HL {
            let hi = high_byte(self.index_reg(idx));
            self.set_index_reg(idx, make_word(hi, v));
        } else {
            match code {
                0 => self.b = v,
                1 => self.c = v,
                2 => self.d = v,
                3 => self.e = v,
                4 => self.h = v,
                5 => self.l = v,
                6 => {},
                _ => self.a = v,
            }
        }
    }

    /// The address of the memory operand; behind a prefix this takes the
    /// displacement byte at `PC`.
    pub fn fetch_operand_addr(&mut self, idx: Index, memory: &Memory) -> (addr: u16)
        requires
            memory@.wf(),
        ensures
            addr == old(self).operand_addr(idx, memory@),
            *final(self) == old(self).skip(disp_len(6, idx)),
    {
        match idx {
            Index::HL => self.hl(),
            Index::IX => {
                let d = self.fetch_byte(memory);
                displaced(self.ix, d)
            },
            Index::IY => {
                let d = self.fetch_byte(memory);
                displaced(self.iy, d)
            },
        }
    }

    /// Reads an 8-bit operand through its register code.
    pub fn fetch_operand(&mut self, code: u8, idx: Index, memory: &Memory) -> (v: u8)
        requires
            memory@.wf(),
        ensures
            v == old(self).operand_spec(code, idx, memory@),
            *final(self) == old(self).skip(disp_len(code, idx)),
    {
        if code == 6 {
            let addr = self.fetch_operand_addr(idx, memory);
            memory.read(addr)
        } else {
            self.read_r(code, idx)
        }
    }

    /// Register pair `p` of `BC, DE, HL, SP`.
    pub fn rp(&self, p: u8, idx: Index) -> (v: u16)
        ensures
            v == self.rp_spec(p, idx),
    {
        match p {
            0 => self.bc(),
            1 => self.de(),
            2 => self.index_reg(idx),
            _ => self.sp,
        }
    }

    /// Replaces register pair `p` of `BC, DE, HL, SP`.
    pub fn set_rp(&mut self, p: u8, idx: Index, v: u16)
        ensures
            *final(self) == old(self).with_rp(p, idx, v),
    {
        match p {
            0 => self.set_bc(v),
            1 => self.set_de(v),
            2 => self.set_index_reg(idx, v),
            _ => self.sp = v,
        }
    }

    /// Whether condition `cc` of `NZ, Z, NC, C, PO, PE, P, M` holds.
    pub fn condition(&self, cc: u8) -> (taken: bool)
        ensures
            taken == self.cond_spec(cc),
    {
        match cc {
            0 => !self.get_flag_z(),
            1 => self.get_flag_z(),
            2 => !self.get_flag_c(),
            3 => self.get_flag_c(),
            4 => !self.get_flag_pv(),
            5 => self.get_flag_pv(),
            6 => !self.get_flag_s(),
            _ => self.get_flag_s(),
        }
    }

    /// `HALT`.
    fn halt(&mut self) -> (cycles: u8)
        ensures
            *final(self) == (Cpu { is_halted: true, ..*old(self) }),
            cycles == 4,
    {
        self.is_halted = true;
        4
    }

    /// `LD r,r'`.
    fn ld_r_r(&mut self, opcode: u8, idx: Index, memory: &mut Memory) -> (cycles: u8)
        requires
            old(memory)@.wf(),
        ensures
            final(memory)@.wf(),
            outcome(*final(self), final(memory)@, cycles) == old(self).ld_r_r_spec(
                old(memory)@,
                opcode,
                idx,
            ),
    {
        let dst = (opcode / 8) % 8;
        let src = opcode % 8;
        if src == 6 {
            let addr = self.fetch_operand_addr(idx, memory);
            let v = memory.read(addr);
            self.write_r(dst, Index::HL, v);
            7 + displacement_cost(6, idx)
        } else if dst == 6 {
            let v = self.read_r(src, Index::HL);
            let addr = self.fetch_operand_addr(idx, memory);
            memory.write(addr, v);
            7 + displacement_cost(6, idx)
        } else {
            let v = self.read_r(src, idx);
            self.write_r(dst, idx, v);
            4
        }
    }

    /// `LD r,n`.
    fn ld_r_n(&mut self, opcode: u8, idx: Index, memory: &mut Memory) -> (cycles: u8)
        requires
            old(memory)@.wf(),
        ensures
            final(memory)@.wf(),
            outcome(*final(self), final(memory)@, cycles) == old(self).ld_r_n_spec(
                old(memory)@,
                opcode,
                idx,
            ),
    {
        let dst = (opcode / 8) % 8;
        if dst == 6 {
            let addr = self.fetch_operand_addr(idx, memory);
            let n = self.fetch_byte(memory);
            memory.write(addr, n);
            if idx == Index::HL {
                10
            } else {
                15
            }
        } else {
            let n = self.fetch_byte(memory);
            self.write_r(dst, idx, n);
            7
        }
    }

    /// `LD rr,nn`.
    fn ld_rr_nn(&mut self, opcode: u8, idx: Index, memory: &Memory) -> (cycles: u8)
        requires
            memory@.wf(),
        ensures
            outcome(*final(self), memory@, cycles) == old(self).ld_rr_nn_spec(
                memory@,
                opcode,
                idx,
            ),
    {
        let val = self.fetch_word(memory);
        self.set_rp(opcode / 16, idx, val);
        10
    }

    /// The loads between `A` or `HL` and `(BC)`, `(DE)` or `(nn)`.
    fn ld_indirect(&mut self, opcode: u8, idx: Index, memory: &mut Memory) -> (cycles: u8)
        requires
            old(memory)@.wf(),
        ensures
            final(memory)@.wf(),
            outcome(*final(self), final(memory)@, cycles) == old(self).ld_indirect_spec(
                old(memory)@,
                opcode,
                idx,
            ),
    {
        let p = opcode / 16;
        if opcode % 16 == 2 {
            if p == 0 {
                memory.write(self.bc(), self.a);
                7
            } else if p == 1 {
                memory.write(self.de(), self.a);
                7
            } else if p == 2 {
                let addr = self.fetch_word(memory);
                memory.write_word(addr, self.index_reg(idx));
                16
            } else {
                let addr = self.fetch_word(memory);
                memory.write(addr, self.a);
                13
            }
        } else {
            if p == 0 {
                self.a = memory.read(self.bc());
                7
            } else if p == 1 {
                self.a = memory.read(self.de());
                7
            } else if p == 2 {
                let addr = self.fetch_word(memory);
                let val = memory.read_word(addr);
                self.set_index_reg(idx, val);
                16
            } else {
                let addr = self.fetch_word(memory);
                self.a = memory.read(addr);
                13
            }
        }
    }

    /// `INC r` and `DEC r`.
    fn inc_dec_r(&mut self, opcode: u8, idx: Index, memory: &mut Memory) -> (cycles: u8)
        requires
            old(memory)@.wf(),
        ensures
            final(memory)@.wf(),
            outcome(*final(self), final(memory)@, cycles) == old(self).inc_dec_r_spec(
                old(memory)@,
                opcode,
                idx,
            ),
    {
        let code = (opcode / 8) % 8;
        if code == 6 {
            let addr = self.fetch_operand_addr(idx, memory);
            let v = memory.read(addr);
            let out = if opcode % 8 == 4 {
                inc8(v, self.f)
            } else {
                dec8(v, self.f)
            };
            memory.write(addr, out.value);
            self.f = out.flags;
            11 + displacement_cost(6, idx)
        } else {
            let v = self.read_r(code, idx);
            let out = if opcode % 8 == 4 {
                inc8(v, self.f)
            } else {
                dec8(v, self.f)
            };
            self.f = out.flags;
            self.write_r(code, idx, out.value);
            4
        }
    }

    /// `INC rr` and `DEC rr`.
    fn inc_dec_rr(&mut self, opcode: u8, idx: Index, memory: &Memory) -> (cycles: u8)
        ensures
            outcome(*final(self), memory@, cycles) == old(self).inc_dec_rr_spec(
                memory@,
                opcode,
                idx,
            ),
    {
        let p = opcode / 16;
        let v = self.rp(p, idx);
        if opcode % 16 == 3 {
            self.set_rp(p, idx, v.wrapping_add(1));
        } else {
            self.set_rp(p, idx, v.wrapping_sub(1));
        }
        6
    }

    /// `ADD HL,rr`.
    fn add_hl_rr(&mut self, opcode: u8, idx: Index, memory: &Memory) -> (cycles: u8)
        ensures
            outcome(*final(self), memory@, cycles) == old(self).add_hl_rr_spec(
                memory@,
                opcode,
                idx,
            ),
    {
        let out = add16_flags(self.index_reg(idx), self.rp(opcode / 16, idx), self.f);
        self.set_index_reg(idx, out.value);
        self.f = out.flags;
        11
    }

    /// Applies the accumulator operation `(opcode / 8) % 8` to `A` and `x`.
    fn alu_a(&mut self, opcode: u8, x: u8)
        ensures
            *final(self) == old(self).alu_a_spec(opcode, x),
    {
        let out = alu8((opcode / 8) % 8, self.a, x, self.f);
        self.a = out.value;
        self.f = out.flags;
    }

    /// An accumulator operation on a register or `(HL)`.
    fn alu_a_r(&mut self, opcode: u8, idx: Index, memory: &Memory) -> (cycles: u8)
        requires
            memory@.wf(),
        ensures
            outcome(*final(self), memory@, cycles) == old(self).alu_a_r_spec(
                memory@,
                opcode,
                idx,
            ),
    {
        let code = opcode % 8;
        let x = self.fetch_operand(code, idx, memory);
        self.alu_a(opcode, x);
        if code == 6 {
            7 + displacement_cost(6, idx)
        } else {
            4
        }
    }

    /// An accumulator operation on an immediate byte.
    fn alu_a_n(&mut self, opcode: u8, memory: &Memory) -> (cycles: u8)
        requires
            memory@.wf(),
        ensures
            outcome(*final(self), memory@, cycles) == old(self).alu_a_n_spec(
                memory@,
                opcode,
            ),
    {
        let x = self.fetch_byte(memory);
        self.alu_a(opcode, x);
        7
    }

    /// `RLCA`, `RRCA`, `RLA`, `RRA`, `CPL`, `SCF`, `CCF`.
    fn accumulator_op(&mut self, opcode: u8, memory: &Memory) -> (cycles: u8)
        ensures
            outcome(*final(self), memory@, cycles) == old(self).accumulator_spec(
                memory@,
                opcode,
            ),
    {
        let y = opcode / 8;
        let s = self.get_flag_s();
        let z = self.get_flag_z();
        let pv = self.get_flag_pv();
        let c = self.get_flag_c();
        if y < 4 {
            let out = rot_a(y, self.a, self.f);
            self.a = out.value;
            self.f = out.flags;
        } else if y == 4 {
        } else if y == 5 {
            self.a = !self.a;
            self.f = pack_flags(s, z, self.a & 0x20 != 0, true, self.a & 0x08 != 0, pv, true, c);
        } else if y == 6 {
            self.f = pack_flags(s, z, self.a & 0x20 != 0, false, self.a & 0x08 != 0, pv, false, true);
        } else {
            self.f = pack_flags(s, z, self.a & 0x20 != 0, c, self.a & 0x08 != 0, pv, false, !c);
        }
        4
    }

    /// `DJNZ d`, `JR d` and `JR cc,d`.
    fn jr_cc_e(&mut self, opcode: u8, memory: &Memory) -> (cycles: u8)
        requires
            memory@.wf(),
            0x10 <= opcode < 0x40,
        ensures
            outcome(*final(self), memory@, cycles) == old(self).jr_spec(memory@, opcode),
    {
        let y = opcode / 8;
        let d = self.fetch_byte(memory);
        if y == 2 {
            self.b = self.b.wrapping_sub(1);
            if self.b != 0 {
                self.pc = displaced(self.pc, d);
                13
            } else {
                8
            }
        } else if y == 3 || self.condition(y - 4) {
            self.pc = displaced(self.pc, d);
            12
        } else {
            7
        }
    }

    /// `JP nn` and `JP cc,nn`.
    fn jp_cc_nn(&mut self, opcode: u8, memory: &Memory) -> (cycles: u8)
        requires
            memory@.wf(),
        ensures
            outcome(*final(self), memory@, cycles) == old(self).jp_cc_nn_spec(
                memory@,
                opcode,
            ),
    {
        let addr = self.fetch_word(memory);
        if opcode == 0xC3 || self.condition((opcode / 8) % 8) {
            self.pc = addr;
        }
        10
    }

    /// `CALL nn` and `CALL cc,nn`.
    fn call_cc_nn(&mut self, opcode: u8, memory: &mut Memory) -> (cycles: u8)
        requires
            old(memory)@.wf(),
        ensures
            final(memory)@.wf(),
            outcome(*final(self), final(memory)@, cycles) == old(self).call_cc_nn_spec(
                old(memory)@,
                opcode,
            ),
    {
        let addr = self.fetch_word(memory);
        if opcode == 0xCD || self.condition((opcode / 8) % 8) {
            let ret = self.pc;
            self.push(ret, memory);
            self.pc = addr;
            17
        } else {
            10
        }
    }

    /// `RET` and `RET cc`.
    fn ret_cc(&mut self, opcode: u8, memory: &Memory) -> (cycles: u8)
        requires
            memory@.wf(),
        ensures
            outcome(*final(self), memory@, cycles) == old(self).ret_cc_spec(
                memory@,
                opcode,
            ),
    {
        if opcode == 0xC9 {
            self.pc = self.pop(memory);
            10
        } else if self.condition((opcode / 8) % 8) {
            self.pc = self.pop(memory);
            11
        } else {
            5
        }
    }

    /// `RST p`.
    fn rst_nn(&mut self, opcode: u8, memory: &mut Memory) -> (cycles: u8)
        requires
            old(memory)@.wf(),
        ensures
            final(memory)@.wf(),
            outcome(*final(self), final(memory)@, cycles) == old(self).rst_spec(
                old(memory)@,
                opcode,
            ),
    {
        let ret = self.pc;
        self.push(ret, memory);
        self.pc = (((opcode / 8) % 8) * 8) as u16;
        11
    }

    /// `PUSH rr`.
    fn push_rr(&mut self, opcode: u8, idx: Index, memory: &mut Memory) -> (cycles: u8)
        requires
            old(memory)@.wf(),
        ensures
            final(memory)@.wf(),
            outcome(*final(self), final(memory)@, cycles) == old(self).push_rr_spec(
                old(memory)@,
                opcode,
                idx,
            ),
    {
        let p = (opcode / 16) % 4;
        let val = if p == 3 {
            self.af()
        } else {
            self.rp(p, idx)
        };
        self.push(val, memory);
        11
    }

    /// `POP rr`.
    fn pop_rr(&mut self, opcode: u8, idx: Index, memory: &Memory) -> (cycles: u8)
        requires
            memory@.wf(),
        ensures
            outcome(*final(self), memory@, cycles) == old(self).pop_rr_spec(
                memory@,
                opcode,
                idx,
            ),
    {
        let p = (opcode / 16) % 4;
        let val = self.pop(memory);
        if p == 3 {
            self.set_af(val);
        } else {
            self.set_rp(p, idx, val);
        }
        10
    }

    /// `EX AF,AF'`.
    fn ex_af_af_prime(&mut self) -> (cycles: u8)
        ensures
            *final(self) == old(self).ex_af_spec(),
            cycles == 4,
    {
        let temp = self.af();
        self.set_af(self.af_shadow);
        self.af_shadow = temp;
        4
    }

    /// `EXX`.
    fn exx(&mut self) -> (cycles: u8)
        ensures
            *final(self) == old(self).exx_spec(),
            cycles == 4,
    {
        let temp_bc = self.bc();
        let temp_de = self.de();
        let temp_hl = self.hl();
        self.set_bc(self.bc_shadow);
        self.set_de(self.de_shadow);
        self.set_hl(self.hl_shadow);
        self.bc_shadow = temp_bc;
        self.de_shadow = temp_de;
        self.hl_shadow = temp_hl;
        4
    }

    /// `EX DE,HL`.
    fn ex_de_hl(&mut self) -> (cycles: u8)
        ensures
            *final(self) == old(self).ex_de_hl_spec(),
            cycles == 4,
    {
        let temp = self.de();
        self.set_de(self.hl());
        self.set_hl(temp);
        4
    }

    /// `EX (SP),HL`.
    fn ex_sp_hl(&mut self, idx: Index, memory: &mut Memory) -> (cycles: u8)
        requires
            old(memory)@.wf(),
        ensures
            final(memory)@.wf(),
            outcome(*final(self), final(memory)@, cycles) == old(self).ex_sp_hl_spec(
                old(memory)@,
                idx,
            ),
    {
        let from_stack = memory.read_word(self.sp);
        memory.write_word(self.sp, self.index_reg(idx));
        self.set_index_reg(idx, from_stack);
        19
    }

    /// `OUT (n),A`.
    fn out_n_a(&mut self, memory: &Memory, io: &mut IoController) -> (cycles: u8)
        requires
            memory@.wf(),
        ensures
            *final(self) == old(self).skip(1),
            *final(io) == *old(io),
            cycles == 11,
    {
        let port = self.fetch_byte(memory);
        io.write_port(port, self.a);
        11
    }

    /// `IN A,(n)`.
    fn in_a_n(&mut self, memory: &Memory, io: &IoController, tape: &Option<Tape>) -> (cycles: u8)
        requires
            memory@.wf(),
            io.wf(),
        ensures
            outcome(*final(self), memory@, cycles) == old(self).in_a_n_spec(
                memory@,
                *io,
                *tape,
            ),
    {
        let port = self.fetch_byte(memory);
        self.a = io.read_port(port, self.a, tape);
        11
    }

    /// `POP rr`, `RET`, `EXX`, `JP (HL)`, `LD SP,HL`.
    fn misc_c1(&mut self, opcode: u8, idx: Index, memory: &Memory) -> (cycles: u8)
        requires
            memory@.wf(),
        ensures
            outcome(*final(self), memory@, cycles) == old(self).misc_c1_spec(
                memory@,
                opcode,
                idx,
            ),
    {
        let y = (opcode / 8) % 8;
        if y % 2 == 0 {
            self.pop_rr(opcode, idx, memory)
        } else if y == 1 {
            self.ret_cc(opcode, memory)
        } else if y == 3 {
            self.exx()
        } else if y == 5 {
            self.pc = self.index_reg(idx);
            4
        } else {
            self.sp = self.index_reg(idx);
            6
        }
    }

    /// `JP nn`, `OUT (n),A`, `IN A,(n)`, `EX (SP),HL`, `EX DE,HL`, `DI`, `EI`.
    #[verifier::rlimit(40)]
    fn misc_c3(
        &mut self,
        opcode: u8,
        idx: Index,
        memory: &mut Memory,
        io: &mut IoController,
        tape: &Option<Tape>,
    ) -> (cycles: u8)
        requires
            old(memory)@.wf(),
            old(io).wf(),
        ensures
            final(memory)@.wf(),
            *final(io) == *old(io),
            outcome(*final(self), final(memory)@, cycles) == old(self).misc_c3_spec(
                old(memory)@,
                opcode,
                idx,
                *old(io),
                *tape,
            ),
    {
        let y = (opcode / 8) % 8;
        if y == 0 {
            self.jp_cc_nn(opcode, &*memory)
        } else if y == 2 {
            self.out_n_a(&*memory, io)
        } else if y == 3 {
            self.in_a_n(&*memory, &*io, tape)
        } else if y == 4 {
            self.ex_sp_hl(idx, memory)
        } else if y == 5 {
            self.ex_de_hl()
        } else if y == 6 {
            self.iff1 = false;
            self.iff2 = false;
            4
        } else if y == 7 {
            self.iff1 = true;
            self.iff2 = true;
            4
        } else {
            4
        }
    }

    /// Opcodes `0x00..=0x3F`.
    #[verifier::rlimit(40)]
    fn quarter0(&mut self, opcode: u8, idx: Index, memory: &mut Memory) -> (cycles: u8)
        requires
            old(memory)@.wf(),
            opcode < 0x40,
        ensures
            final(memory)@.wf(),
            outcome(*final(self), final(memory)@, cycles) == old(self).quarter0_spec(
                old(memory)@,
                opcode,
                idx,
            ),
    {
        let z = opcode % 8;
        if z == 0 {
            if opcode == 0x00 {
                4
            } else if opcode == 0x08 {
                self.ex_af_af_prime()
            } else {
                self.jr_cc_e(opcode, &*memory)
            }
        } else if z == 1 {
            if opcode % 16 == 1 {
                self.ld_rr_nn(opcode, idx, &*memory)
            } else {
                self.add_hl_rr(opcode, idx, &*memory)
            }
        } else if z == 2 {
            self.ld_indirect(opcode, idx, memory)
        } else if z == 3 {
            self.inc_dec_rr(opcode, idx, &*memory)
        } else if z == 4 || z == 5 {
            self.inc_dec_r(opcode, idx, memory)
        } else if z == 6 {
            self.ld_r_n(opcode, idx, memory)
        } else {
            self.accumulator_op(opcode, &*memory)
        }
    }

    /// Opcodes `0xC0..=0xFF`.
    #[verifier::rlimit(40)]
    fn quarter3(
        &mut self,
        opcode: u8,
        idx: Index,
        memory: &mut Memory,
        io: &mut IoController,
        tape: &Option<Tape>,
    ) -> (cycles: u8)
        requires
            old(memory)@.wf(),
            old(io).wf(),
        ensures
            final(memory)@.wf(),
            *final(io) == *old(io),
            outcome(*final(self), final(memory)@, cycles) == old(self).quarter3_spec(
                old(memory)@,
                opcode,
                idx,
                *old(io),
                *tape,
            ),
    {
        let z = opcode % 8;
        if z == 0 {
            self.ret_cc(opcode, &*memory)
        } else if z == 1 {
            self.misc_c1(opcode, idx, &*memory)
        } else if z == 2 {
            self.jp_cc_nn(opcode, &*memory)
        } else if z == 3 {
            self.misc_c3(opcode, idx, memory, io, tape)
        } else if z == 4 {
            self.call_cc_nn(opcode, memory)
        } else if z == 5 {
            if opcode % 16 == 5 {
                self.push_rr(opcode, idx, memory)
            } else if opcode == 0xCD {
                self.call_cc_nn(opcode, memory)
            } else {
                4
            }
        } else if z == 6 {
            self.alu_a_n(opcode, &*memory)
        } else {
            self.rst_nn(opcode, memory)
        }
    }

    /// Executes opcode `opcode` of the primary table, with `idx` standing
    /// for `HL`.
    #[verifier::rlimit(40)]
    pub fn execute_main(
        &mut self,
        opcode: u8,
        idx: Index,
        memory: &mut Memory,
        io: &mut IoController,
        tape: &Option<Tape>,
    ) -> (cycles: u8)
        requires
            old(memory)@.wf(),
            old(io).wf(),
        ensures
            final(memory)@.wf(),
            *final(io) == *old(io),
            outcome(*final(self), final(memory)@, cycles) == old(self).main_spec(
                old(memory)@,
                opcode,
                idx,
                *old(io),
                *tape,
            ),
            4 <= cycles <= 19,
    {
        reveal(Cpu::main_spec);
        if opcode < 0x40 {
            self.quarter0(opcode, idx, memory)
        } else if opcode == 0x76 {
            self.halt()
        } else if opcode < 0x80 {
            self.ld_r_r(opcode, idx, memory)
        } else if opcode < 0xC0 {
            self.alu_a_r(opcode, idx, &*memory)
        } else {
            self.quarter3(opcode, idx, memory, io, tape)
        }
    }

    /// What opcode `op` does once it has been fetched: the four prefixes
    /// lead to their tables, everything else is the primary table on `HL`.
    #[verifier::opaque]
    pub open spec fn instruction_spec(
        self,
        mem: MemoryView,
        op: u8,
        io: IoController,
        tape: Option<Tape>,
    ) -> Next {
        if op == 0xCB {
            self.skip(1).bump_r().cb_spec(mem, self.imm8(mem, 0))
        } else if op == 0xED {
            self.skip(1).bump_r().ed_spec(mem, self.imm8(mem, 0), io, tape)
        } else if op == 0xDD {
            self.prefixed_spec(mem, Index::IX, io, tape)
        } else if op == 0xFD {
            self.prefixed_spec(mem, Index::IY, io, tape)
        } else {
            self.main_spec(mem, op, Index::HL, io, tape)
        }
    }

    /// Executes the instruction whose first byte, `opcode`, has been
    /// fetched.
    pub fn execute_instruction(
        &mut self,
        opcode: u8,
        memory: &mut Memory,
        io: &mut IoController,
        tape: &Option<Tape>,
    ) -> (cycles: u8)
        requires
            old(memory)@.wf(),
            old(io).wf(),
        ensures
            final(memory)@.wf(),
            *final(io) == *old(io),
            outcome(*final(self), final(memory)@, cycles) == old(self).instruction_spec(
                old(memory)@,
                opcode,
                *old(io),
                *tape,
            ),
            4 <= cycles <= 23,
    {
        reveal(Cpu::instruction_spec);
        match opcode {
            0xCB => {
                let sub_opcode = self.fetch_byte(memory);
                self.refresh();
                self.execute_cb_instruction(sub_opcode, memory)
            },
            0xED => {
                let sub_opcode = self.fetch_byte(memory);
                self.refresh();
                self.execute_ed_instruction(sub_opcode, memory, io, tape)
            },
            0xDD => self.execute_dd_instruction(memory, io, tape),
            0xFD => self.execute_fd_instruction(memory, io, tape),
            _ => self.execute_main(opcode, Index::HL, memory, io, tape),
        }
    }
}

} // verus!
