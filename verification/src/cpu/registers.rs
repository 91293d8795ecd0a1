//! Flag accessors, register pairs, the register-code decoder and the stack.

use vstd::prelude::*;
use crate::cpu::flags::{
    flag, with_flag, FLAG_C, FLAG_H, FLAG_N, FLAG_PV, FLAG_S, FLAG_X, FLAG_Y, FLAG_Z,
};
use crate::cpu::Cpu;
use crate::memory::{
    add16, hi_byte, high_byte, lo_byte, low_byte, make_word, pair, Memory, MemoryView,
};

verus! {

impl Cpu {
    /// The register file with `F` replaced.
    pub open spec fn with_f(self, f: u8) -> Cpu {
        Cpu { f, ..self }
    }

    /// `AF` as a word.
    pub open spec fn af_spec(self) -> u16 {
        pair(self.a, self.f)
    }

    /// `BC` as a word.
    pub open spec fn bc_spec(self) -> u16 {
        pair(self.b, self.c)
    }

    /// `DE` as a word.
    pub open spec fn de_spec(self) -> u16 {
        pair(self.d, self.e)
    }

    /// `HL` as a word.
    pub open spec fn hl_spec(self) -> u16 {
        pair(self.h, self.l)
    }

    /// The register file with `AF` replaced.
    pub open spec fn with_af(self, v: u16) -> Cpu {
        Cpu { a: hi_byte(v), f: lo_byte(v), ..self }
    }

    /// The register file with `BC` replaced.
    pub open spec fn with_bc(self, v: u16) -> Cpu {
        Cpu { b: hi_byte(v), c: lo_byte(v), ..self }
    }

    /// The register file with `DE` replaced.
    pub open spec fn with_de(self, v: u16) -> Cpu {
        Cpu { d: hi_byte(v), e: lo_byte(v), ..self }
    }

    /// The register file with `HL` replaced.
    pub open spec fn with_hl(self, v: u16) -> Cpu {
        Cpu { h: hi_byte(v), l: lo_byte(v), ..self }
    }

    /// What register code `code` reads: `B,C,D,E,H,L,(HL),A` for `0..=7`.
    pub open spec fn reg_spec(self, code: u8, mem: MemoryView) -> u8 {
        if code == 0 {
            self.b
        } else if code == 1 {
            self.c
        } else if code == 2 {
            self.d
        } else if code == 3 {
            self.e
        } else if code == 4 {
            self.h
        } else if code == 5 {
            self.l
        } else if code == 6 {
            mem.read(self.hl_spec())
        } else {
            self.a
        }
    }

    /// The register file after a write of `v` through register code `code`;
    /// code 6 changes no register.
    pub open spec fn with_reg(self, code: u8, v: u8) -> Cpu {
        if code == 0 {
            Cpu { b: v, ..self }
        } else if code == 1 {
            Cpu { c: v, ..self }
        } else if code == 2 {
            Cpu { d: v, ..self }
        } else if code == 3 {
            Cpu { e: v, ..self }
        } else if code == 4 {
            Cpu { h: v, ..self }
        } else if code == 5 {
            Cpu { l: v, ..self }
        } else if code == 6 {
            self
        } else {
            Cpu { a: v, ..self }
        }
    }

    /// The register file after a push: `SP` lowered by two.
    pub open spec fn after_push(self) -> Cpu {
        Cpu { sp: add16(self.sp, -2), ..self }
    }

    /// The bus after a push of `v`: the word stored at the lowered `SP`.
    pub open spec fn push_mem(self, v: u16, mem: MemoryView) -> MemoryView {
        mem.write_word(add16(self.sp, -2), v)
    }

    /// The register file after a pop: `SP` raised by two.
    pub open spec fn after_pop(self) -> Cpu {
        Cpu { sp: add16(self.sp, 2), ..self }
    }

    /// Sets or clears `C`, bit 0 of `F`.
    pub fn set_flag_c(&mut self, val: bool)
        ensures
            *final(self) == old(self).with_f(with_flag(old(self).f, FLAG_C, val)),
    {
        if val {
            self.f = self.f | 0x01;
        } else {
            self.f = self.f & !0x01u8;
        }
    }

    /// Sets or clears `N`, bit 1 of `F`.
    pub fn set_flag_n(&mut self, val: bool)
        ensures
            *final(self) == old(self).with_f(with_flag(old(self).f, FLAG_N, val)),
    {
        if val {
            self.f = self.f | 0x02;
        } else {
            self.f = self.f & !0x02u8;
        }
    }

    /// Sets or clears `P/V`, bit 2 of `F`.
    pub fn set_flag_pv(&mut self, val: bool)
        ensures
            *final(self) == old(self).with_f(with_flag(old(self).f, FLAG_PV, val)),
    {
        if val {
            self.f = self.f | 0x04;
        } else {
            self.f = self.f & !0x04u8;
        }
    }

    /// Sets or clears `X`, bit 3 of `F`.
    pub fn set_flag_x(&mut self, val: bool)
        ensures
            *final(self) == old(self).with_f(with_flag(old(self).f, FLAG_X, val)),
    {
        if val {
            self.f = self.f | 0x08;
        } else {
            self.f = self.f & !0x08u8;
        }
    }

    /// Sets or clears `H`, bit 4 of `F`.
    pub fn set_flag_h(&mut self, val: bool)
        ensures
            *final(self) == old(self).with_f(with_flag(old(self).f, FLAG_H, val)),
    {
        if val {
            self.f = self.f | 0x10;
        } else {
            self.f = self.f & !0x10u8;
        }
    }

    /// Sets or clears `Y`, bit 5 of `F`.
    pub fn set_flag_y(&mut self, val: bool)
        ensures
            *final(self) == old(self).with_f(with_flag(old(self).f, FLAG_Y, val)),
    {
        if val {
            self.f = self.f | 0x20;
        } else {
            self.f = self.f & !0x20u8;
        }
    }

    /// Sets or clears `Z`, bit 6 of `F`.
    pub fn set_flag_z(&mut self, val: bool)
        ensures
            *final(self) == old(self).with_f(with_flag(old(self).f, FLAG_Z, val)),
    {
        if val {
            self.f = self.f | 0x40;
        } else {
            self.f = self.f & !0x40u8;
        }
    }

    /// Sets or clears `S`, bit 7 of `F`.
    pub fn set_flag_s(&mut self, val: bool)
        ensures
            *final(self) == old(self).with_f(with_flag(old(self).f, FLAG_S, val)),
    {
        if val {
            self.f = self.f | 0x80;
        } else {
            self.f = self.f & !0x80u8;
        }
    }

    /// `C`, bit 0 of `F`.
    pub fn get_flag_c(&self) -> (v: bool)
        ensures
            v == flag(self.f, FLAG_C),
    {
        (self.f & 0x01) != 0
    }

    /// `N`, bit 1 of `F`.
    pub fn get_flag_n(&self) -> (v: bool)
        ensures
            v == flag(self.f, FLAG_N),
    {
        (self.f & 0x02) != 0
    }

    /// `P/V`, bit 2 of `F`.
    pub fn get_flag_pv(&self) -> (v: bool)
        ensures
            v == flag(self.f, FLAG_PV),
    {
        (self.f & 0x04) != 0
    }

    /// `X`, bit 3 of `F`.
    pub fn get_flag_x(&self) -> (v: bool)
        ensures
            v == flag(self.f, FLAG_X),
    {
        (self.f & 0x08) != 0
    }

    /// `H`, bit 4 of `F`.
    pub fn get_flag_h(&self) -> (v: bool)
        ensures
            v == flag(self.f, FLAG_H),
    {
        (self.f & 0x10) != 0
    }

    /// `Y`, bit 5 of `F`.
    pub fn get_flag_y(&self) -> (v: bool)
        ensures
            v == flag(self.f, FLAG_Y),
    {
        (self.f & 0x20) != 0
    }

    /// `Z`, bit 6 of `F`.
    pub fn get_flag_z(&self) -> (v: bool)
        ensures
            v == flag(self.f, FLAG_Z),
    {
        (self.f & 0x40) != 0
    }

    /// `S`, bit 7 of `F`.
    pub fn get_flag_s(&self) -> (v: bool)
        ensures
            v == flag(self.f, FLAG_S),
    {
        (self.f & 0x80) != 0
    }

    /// `AF` as a word.
    pub fn af(&self) -> (v: u16)
        ensures
            v == self.af_spec(),
    {
        make_word(self.a, self.f)
    }

    /// Replaces `AF`.
    pub fn set_af(&mut self, val: u16)
        ensures
            *final(self) == old(self).with_af(val),
    {
        self.a = high_byte(val);
        self.f = low_byte(val);
    }

    /// `BC` as a word.
    pub fn bc(&self) -> (v: u16)
        ensures
            v == self.bc_spec(),
    {
        make_word(self.b, self.c)
    }

    /// Replaces `BC`.
    pub fn set_bc(&mut self, val: u16)
        ensures
            *final(self) == old(self).with_bc(val),
    {
        self.b = high_byte(val);
        self.c = low_byte(val);
    }

    /// `DE` as a word.
    pub fn de(&self) -> (v: u16)
        ensures
            v == self.de_spec(),
    {
        make_word(self.d, self.e)
    }

    /// Replaces `DE`.
    pub fn set_de(&mut self, val: u16)
        ensures
            *final(self) == old(self).with_de(val),
    {
        self.d = high_byte(val);
        self.e = low_byte(val);
    }

    /// `HL` as a word.
    pub fn hl(&self) -> (v: u16)
        ensures
            v == self.hl_spec(),
    {
        make_word(self.h, self.l)
    }

    /// Replaces `HL`.
    pub fn set_hl(&mut self, val: u16)
        ensures
            *final(self) == old(self).with_hl(val),
    {
        self.h = high_byte(val);
        self.l = low_byte(val);
    }

    /// Reads through a register code: `B,C,D,E,H,L,(HL),A` for `0..=7`.
    pub fn read_reg(&self, reg_code: u8, memory: &Memory) -> (v: u8)
        requires
            reg_code < 8,
            memory@.wf(),
        ensures
            v == self.reg_spec(reg_code, memory@),
    {
        match reg_code {
            0 => self.b,
            1 => self.c,
            2 => self.d,
            3 => self.e,
            4 => self.h,
            5 => self.l,
            6 => memory.read(self.hl()),
            _ => self.a,
        }
    }

    /// Writes through a register code: `B,C,D,E,H,L,(HL),A` for `0..=7`.
    pub fn write_reg(&mut self, reg_code: u8, val: u8, memory: &mut Memory)
        requires
            reg_code < 8,
            old(memory)@.wf(),
        ensures
            final(memory)@.wf(),
            *final(self) == old(self).with_reg(reg_code, val),
            final(memory)@ == (if reg_code == 6 {
                old(memory)@.write(old(self).hl_spec(), val)
            } else {
                old(memory)@
            }),
    {
        match reg_code {
            0 => self.b = val,
            1 => self.c = val,
            2 => self.d = val,
            3 => self.e = val,
            4 => self.h = val,
            5 => self.l = val,
            6 => memory.write(self.hl(), val),
            _ => self.a = val,
        }
    }

    /// Lowers `SP` by two, then stores `val` little-endian at the new `SP`.
    pub fn push(&mut self, val: u16, memory: &mut Memory)
        requires
            old(memory)@.wf(),
        ensures
            final(memory)@.wf(),
            *final(self) == old(self).after_push(),
            final(memory)@ == old(self).push_mem(val, old(memory)@),
    {
        self.sp = self.sp.wrapping_sub(2);
        memory.write_word(self.sp, val);
    }

    /// Reads a little-endian word at `SP`, then raises `SP` by two.
    pub fn pop(&mut self, memory: &Memory) -> (val: u16)
        requires
            memory@.wf(),
        ensures
            *final(self) == old(self).after_pop(),
            val == memory@.read_word(old(self).sp),
    {
        let val = memory.read_word(self.sp);
        self.sp = self.sp.wrapping_add(2);
        val
    }
}

} // verus!
