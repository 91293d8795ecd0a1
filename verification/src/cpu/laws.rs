//! Laws of the instruction set, stated over the functions that the
//! interpreter's contracts are written in.

use vstd::prelude::*;
use crate::cpu::alu::{
    adc16_spec, add16_spec, add8_spec, alu8_result, alu8_spec, dec8_spec, inc8_spec, logic_spec,
    rot8_spec, rot_a_spec, rot_value, sbc16_spec, sub8_spec,
};
use crate::cpu::flags::{
    flag, lemma_pack, parity_even, FLAG_C, FLAG_PV, FLAG_S, FLAG_X, FLAG_Y, FLAG_Z,
};
use crate::cpu::{sext, Cpu, Index, Next};
use crate::io::IoController;
use crate::memory::{add16, hi_byte, MemoryView};
use crate::tape::Tape;

verus! {

/// Whether bits 3 and 5 of `f` are those of `r`.
pub open spec fn copies_xy(f: u8, r: u8) -> bool {
    flag(f, FLAG_X) == flag(r, FLAG_X) && flag(f, FLAG_Y) == flag(r, FLAG_Y)
}

/// After an addition or a subtraction, `X` and `Y` are bits 3 and 5 of the
/// result.
pub proof fn lemma_arithmetic_copies_result_bits(a: u8, x: u8, cin: bool)
    ensures
        copies_xy(add8_spec(a, x, cin).flags, add8_spec(a, x, cin).value),
        copies_xy(sub8_spec(a, x, cin).flags, sub8_spec(a, x, cin).value),
{
    let c: int = if cin { 1 } else { 0 };
    let r = add8_spec(a, x, cin).value;
    lemma_pack(
        r & 0x80 != 0,
        r == 0,
        r & 0x20 != 0,
        a % 16 + x % 16 + c > 15,
        r & 0x08 != 0,
        ((a ^ !x) & (a ^ r)) & 0x80 != 0,
        false,
        a + x + c > 255,
    );
    let d = sub8_spec(a, x, cin).value;
    lemma_pack(
        d & 0x80 != 0,
        d == 0,
        d & 0x20 != 0,
        a % 16 < x % 16 + c,
        d & 0x08 != 0,
        ((a ^ x) & (a ^ d)) & 0x80 != 0,
        true,
        a < x + c,
    );
}

/// After a logical operation, `X` and `Y` are bits 3 and 5 of the result.
pub proof fn lemma_logic_copies_result_bits(r: u8, h: bool)
    ensures
        copies_xy(logic_spec(r, h).flags, r),
{
    lemma_pack(r & 0x80 != 0, r == 0, r & 0x20 != 0, h, r & 0x08 != 0, parity_even(r), false, false);
}

/// After any of the eight accumulator operations, `X` and `Y` are bits 3 and
/// 5 of the result; for `CP` that is the difference, which is not stored.
pub proof fn lemma_alu8_copies_result_bits(kind: u8, a: u8, x: u8, f: u8)
    ensures
        copies_xy(alu8_spec(kind, a, x, f).flags, alu8_result(kind, a, x, f)),
{
    if kind == 1 || kind == 3 {
        lemma_arithmetic_copies_result_bits(a, x, flag(f, FLAG_C));
    } else if kind == 4 {
        lemma_logic_copies_result_bits(a & x, true);
    } else if kind == 5 {
        lemma_logic_copies_result_bits(a ^ x, false);
    } else if kind == 6 {
        lemma_logic_copies_result_bits(a | x, false);
    } else {
        lemma_arithmetic_copies_result_bits(a, x, false);
    }
}

/// After `INC r` and `DEC r`, `X` and `Y` are bits 3 and 5 of the result.
pub proof fn lemma_inc_dec_copy_result_bits(v: u8, f: u8)
    ensures
        copies_xy(inc8_spec(v, f).flags, inc8_spec(v, f).value),
        copies_xy(dec8_spec(v, f).flags, dec8_spec(v, f).value),
{
    let r = inc8_spec(v, f).value;
    lemma_pack(
        r & 0x80 != 0,
        r == 0,
        r & 0x20 != 0,
        v % 16 == 15,
        r & 0x08 != 0,
        v == 0x7F,
        false,
        flag(f, FLAG_C),
    );
    let d = dec8_spec(v, f).value;
    lemma_pack(
        d & 0x80 != 0,
        d == 0,
        d & 0x20 != 0,
        v % 16 == 0,
        d & 0x08 != 0,
        v == 0x80,
        true,
        flag(f, FLAG_C),
    );
}

/// After a rotate or shift, of the `CB` table or on the accumulator, `X` and
/// `Y` are bits 3 and 5 of the result.
pub proof fn lemma_rotate_copies_result_bits(kind: u8, v: u8, f: u8)
    ensures
        copies_xy(rot8_spec(kind, v, f).flags, rot8_spec(kind, v, f).value),
        copies_xy(rot_a_spec(kind, v, f).flags, rot_a_spec(kind, v, f).value),
{
    let r = rot_value(kind, v, flag(f, FLAG_C));
    let c = crate::cpu::alu::rot_carry(kind, v);
    lemma_pack(r & 0x80 != 0, r == 0, r & 0x20 != 0, false, r & 0x08 != 0, parity_even(r), false, c);
    lemma_pack(
        flag(f, FLAG_S),
        flag(f, FLAG_Z),
        r & 0x20 != 0,
        false,
        r & 0x08 != 0,
        flag(f, FLAG_PV),
        false,
        c,
    );
}

/// After `ADD HL,rr`, `ADC HL,rr` and `SBC HL,rr`, `X` and `Y` are bits 3
/// and 5 of the high byte of the result.
pub proof fn lemma_alu16_copies_high_byte_bits(hl: u16, rr: u16, f: u8, cin: bool)
    ensures
        copies_xy(add16_spec(hl, rr, f).flags, hi_byte(add16_spec(hl, rr, f).value)),
        copies_xy(adc16_spec(hl, rr, cin).flags, hi_byte(adc16_spec(hl, rr, cin).value)),
        copies_xy(sbc16_spec(hl, rr, cin).flags, hi_byte(sbc16_spec(hl, rr, cin).value)),
{
    let c: int = if cin { 1 } else { 0 };
    let r = add16_spec(hl, rr, f).value;
    lemma_pack(
        flag(f, FLAG_S),
        flag(f, FLAG_Z),
        hi_byte(r) & 0x20 != 0,
        hl % 4096 + rr % 4096 > 4095,
        hi_byte(r) & 0x08 != 0,
        flag(f, FLAG_PV),
        false,
        hl + rr > 0xFFFF,
    );
    let s = adc16_spec(hl, rr, cin).value;
    lemma_pack(
        s & 0x8000 != 0,
        s == 0,
        hi_byte(s) & 0x20 != 0,
        hl % 4096 + rr % 4096 + c > 4095,
        hi_byte(s) & 0x08 != 0,
        ((hl ^ !rr) & (hl ^ s)) & 0x8000 != 0,
        false,
        hl + rr + c > 0xFFFF,
    );
    let d = sbc16_spec(hl, rr, cin).value;
    lemma_pack(
        d & 0x8000 != 0,
        d == 0,
        hi_byte(d) & 0x20 != 0,
        hl % 4096 < rr % 4096 + c,
        hi_byte(d) & 0x08 != 0,
        ((hl ^ rr) & (hl ^ d)) & 0x8000 != 0,
        true,
        hl < rr + c,
    );
}

/// A push followed by a pop gives back the value pushed and the old `SP`,
/// provided the two bytes below `SP` are RAM.
pub proof fn lemma_push_then_pop(cpu: Cpu, mem: MemoryView, v: u16)
    requires
        mem.wf(),
        mem.in_ram(add16(cpu.sp, -2)),
        mem.in_ram(add16(cpu.sp, -1)),
    ensures
        cpu.push_mem(v, mem).read_word(cpu.after_push().sp) == v,
        cpu.after_push().after_pop() == cpu,
{
}

/// A pop followed by a push of the value popped gives back the old `SP` and
/// leaves the bus as it was.
pub proof fn lemma_pop_then_push(cpu: Cpu, mem: MemoryView)
    requires
        mem.wf(),
    ensures
        cpu.after_pop().after_push() == cpu,
        cpu.after_pop().push_mem(mem.read_word(cpu.sp), mem) == mem,
{
    let after = cpu.after_pop().push_mem(mem.read_word(cpu.sp), mem);
    assert(after.ram =~= mem.ram);
}

/// `EXX`, `EX AF,AF'` and `EX DE,HL` each undo themselves.
pub proof fn lemma_exchanges_are_involutions(cpu: Cpu)
    ensures
        cpu.exx_spec().exx_spec() == cpu,
        cpu.ex_af_spec().ex_af_spec() == cpu,
        cpu.ex_de_hl_spec().ex_de_hl_spec() == cpu,
{
}

/// `BIT n,r` changes no register but `F`, and not the bus.
pub proof fn lemma_bit_changes_only_flags(cpu: Cpu, mem: MemoryView, op: u8)
    requires
        0x40 <= op < 0x80,
    ensures
        cpu.cb_spec(mem, op).mem == mem,
        cpu.cb_spec(mem, op).cpu == cpu.with_f(cpu.cb_spec(mem, op).cpu.f),
{
    reveal(Cpu::cb_spec);
}

/// The machine after `k` steps, and the T-states they took.
pub open spec fn run_spec(
    cpu: Cpu,
    mem: MemoryView,
    io: IoController,
    tape: Option<Tape>,
    k: nat,
) -> (Cpu, MemoryView, int)
    decreases k,
{
    if k == 0 {
        (cpu, mem, 0)
    } else {
        let first = cpu.step_spec(mem, io, tape);
        let rest = run_spec(first.cpu, first.mem, io, tape, (k - 1) as nat);
        (rest.0, rest.1, first.cycles + rest.2)
    }
}

/// `HALT` sets the halt latch and leaves `PC` behind itself; but for `R`
/// nothing else changes.
pub proof fn lemma_halt_step(cpu: Cpu, mem: MemoryView, io: IoController, tape: Option<Tape>)
    requires
        !cpu.is_halted,
        mem.read(cpu.pc) == 0x76,
    ensures
        cpu.step_spec(mem, io, tape).mem == mem,
        cpu.step_spec(mem, io, tape).cycles == 4,
        cpu.step_spec(mem, io, tape).cpu == (Cpu {
            is_halted: true,
            pc: add16(cpu.pc, 1),
            r: cpu.bump_r().r,
            ..cpu
        }),
{
    reveal(Cpu::step_spec);
    reveal(Cpu::instruction_spec);
    reveal(Cpu::main_spec);
}

/// A halted processor stays as it is, registers and bus, however many steps
/// are taken; each step takes 4 T-states.
pub proof fn lemma_halted_stays(
    cpu: Cpu,
    mem: MemoryView,
    io: IoController,
    tape: Option<Tape>,
    k: nat,
)
    requires
        cpu.is_halted,
    ensures
        run_spec(cpu, mem, io, tape, k) == (cpu, mem, 4 * (k as int)),
    decreases k,
{
    reveal(Cpu::step_spec);
    if k > 0 {
        lemma_halted_stays(cpu, mem, io, tape, (k - 1) as nat);
    }
}

/// Whether opcode `op` of the primary table names `H`, `L`, `HL` or `(HL)`.
pub open spec fn references_hl(op: u8) -> bool {
    let y = (op / 8) % 8;
    let z = op % 8;
    if op < 0x40 {
        (z == 1 && (y == 4 || y % 2 == 1)) || ((z == 2 || z == 3) && (y == 4 || y == 5)) || (4 <= z
            <= 6 && 4 <= y <= 6)
    } else if op < 0x80 {
        op != 0x76 && (4 <= y <= 6 || 4 <= z <= 6)
    } else if op < 0xC0 {
        4 <= z <= 6
    } else {
        op == 0xE1 || op == 0xE3 || op == 0xE5 || op == 0xE9 || op == 0xEB || op == 0xF9
    }
}

/// Whether `op` is one of the four prefix bytes.
pub open spec fn is_prefix(op: u8) -> bool {
    op == 0xCB || op == 0xDD || op == 0xED || op == 0xFD
}

/// The first quarter of the table without `H`, `L`, `HL` or `(HL)`.
#[verifier::rlimit(40)]
proof fn lemma_quarter0_index(cpu: Cpu, mem: MemoryView, op: u8, idx: Index)
    requires
        op < 0x40,
        !references_hl(op),
    ensures
        cpu.quarter0_spec(mem, op, idx) == cpu.quarter0_spec(mem, op, Index::HL),
{
    let y = (op / 8) % 8;
    let z = op % 8;
    assert(op / 16 == y / 2);
    assert(op % 16 == (y % 2) * 8 + z);
    if z == 1 {
        assert(cpu.ld_rr_nn_spec(mem, op, idx) == cpu.ld_rr_nn_spec(mem, op, Index::HL));
    } else if z == 2 {
        assert(cpu.ld_indirect_spec(mem, op, idx) == cpu.ld_indirect_spec(mem, op, Index::HL));
    } else if z == 3 {
        assert(cpu.inc_dec_rr_spec(mem, op, idx) == cpu.inc_dec_rr_spec(mem, op, Index::HL));
    } else if z == 4 || z == 5 {
        assert(cpu.inc_dec_r_spec(mem, op, idx) == cpu.inc_dec_r_spec(mem, op, Index::HL));
    } else if z == 6 {
        assert(cpu.ld_r_n_spec(mem, op, idx) == cpu.ld_r_n_spec(mem, op, Index::HL));
    }
}

/// The last quarter of the table without `H`, `L`, `HL` or `(HL)`.
#[verifier::rlimit(40)]
proof fn lemma_quarter3_index(
    cpu: Cpu,
    mem: MemoryView,
    op: u8,
    idx: Index,
    io: IoController,
    tape: Option<Tape>,
)
    requires
        op >= 0xC0,
        !references_hl(op),
    ensures
        cpu.quarter3_spec(mem, op, idx, io, tape) == cpu.quarter3_spec(
            mem,
            op,
            Index::HL,
            io,
            tape,
        ),
{
    let y = (op / 8) % 8;
    let z = op % 8;
    assert((op / 16) % 4 == y / 2);
    assert(op % 16 == (y % 2) * 8 + z);
    if z == 1 {
        if y % 2 == 0 {
            assert(y != 4);
            assert(cpu.pop_rr_spec(mem, op, idx) == cpu.pop_rr_spec(mem, op, Index::HL));
        }
        assert(cpu.misc_c1_spec(mem, op, idx) == cpu.misc_c1_spec(mem, op, Index::HL));
    } else if z == 3 {
        assert(cpu.misc_c3_spec(mem, op, idx, io, tape) == cpu.misc_c3_spec(
            mem,
            op,
            Index::HL,
            io,
            tape,
        ));
    } else if z == 5 {
        if op % 16 == 5 {
            assert(y != 4);
            assert(cpu.push_rr_spec(mem, op, idx) == cpu.push_rr_spec(mem, op, Index::HL));
        }
    }
}

/// An instruction of the primary table that does not name `H`, `L`, `HL` or
/// `(HL)` does the same whichever index register is in effect.
#[verifier::rlimit(40)]
pub proof fn lemma_index_without_effect(
    cpu: Cpu,
    mem: MemoryView,
    op: u8,
    idx: Index,
    io: IoController,
    tape: Option<Tape>,
)
    requires
        !references_hl(op),
    ensures
        cpu.main_spec(mem, op, idx, io, tape) == cpu.main_spec(mem, op, Index::HL, io, tape),
{
    reveal(Cpu::main_spec);
    if op < 0x40 {
        lemma_quarter0_index(cpu, mem, op, idx);
    } else if op == 0x76 {
    } else if op < 0x80 {
        assert(cpu.ld_r_r_spec(mem, op, idx) == cpu.ld_r_r_spec(mem, op, Index::HL));
    } else if op < 0xC0 {
        assert(cpu.alu_a_r_spec(mem, op, idx) == cpu.alu_a_r_spec(mem, op, Index::HL));
    } else {
        lemma_quarter3_index(cpu, mem, op, idx, io, tape);
    }
}

/// A `DD` or `FD` prefix before an instruction that is no prefix and does
/// not name `H`, `L`, `HL` or `(HL)`: the step does what a step from the
/// instruction itself does, with the prefix's refresh counted, and takes 4
/// T-states more.
#[verifier::rlimit(40)]
pub proof fn lemma_prefix_is_nop(cpu: Cpu, mem: MemoryView, io: IoController, tape: Option<Tape>)
    requires
        !cpu.is_halted,
        mem.read(cpu.pc) == 0xDD || mem.read(cpu.pc) == 0xFD,
        !is_prefix(mem.read(add16(cpu.pc, 1))),
        !references_hl(mem.read(add16(cpu.pc, 1))),
    ensures
        cpu.step_spec(mem, io, tape).cpu == cpu.skip(1).bump_r().step_spec(mem, io, tape).cpu,
        cpu.step_spec(mem, io, tape).mem == cpu.skip(1).bump_r().step_spec(mem, io, tape).mem,
        cpu.step_spec(mem, io, tape).cycles == cpu.skip(1).bump_r().step_spec(mem, io, tape).cycles
            + 4,
{
    reveal(Cpu::step_spec);
    reveal(Cpu::instruction_spec);
    reveal(Cpu::prefixed_spec);
    let op = mem.read(add16(cpu.pc, 1));
    let inner = cpu.skip(1).bump_r();
    assert(inner.imm8(mem, 0) == op);
    let at = inner.skip(1).bump_r();
    lemma_index_without_effect(at, mem, op, Index::IX, io, tape);
    lemma_index_without_effect(at, mem, op, Index::IY, io, tape);
    lemma_main_cycles(at, mem, op, io, tape);
}

/// An instruction of the primary table takes between 4 and 19 T-states.
pub proof fn lemma_main_cycles(cpu: Cpu, mem: MemoryView, op: u8, io: IoController, tape: Option<Tape>)
    ensures
        4 <= cpu.main_spec(mem, op, Index::HL, io, tape).cycles <= 19,
{
    reveal(Cpu::main_spec);
    if op < 0x40 {
        assert(4 <= cpu.quarter0_spec(mem, op, Index::HL).cycles <= 19);
    } else if op < 0x80 {
    } else if op < 0xC0 {
    } else {
        assert(4 <= cpu.quarter3_spec(mem, op, Index::HL, io, tape).cycles <= 19);
    }
}

/// What a block move makes of the registers, pair by pair.
proof fn lemma_block_copy_regs(cpu: Cpu, op: u8)
    ensures
        ({
            let next = cpu.block_copy_regs(op);
            &&& next.hl_spec() == add16(cpu.hl_spec(), Cpu::block_dir(op))
            &&& next.de_spec() == add16(cpu.de_spec(), Cpu::block_dir(op))
            &&& next.bc_spec() == add16(cpu.bc_spec(), -1)
            &&& next.is_halted == cpu.is_halted
            &&& next.pc == cpu.pc
            &&& flag(next.f, FLAG_PV) == (add16(cpu.bc_spec(), -1) != 0)
        }),
{
    let bc = add16(cpu.bc_spec(), -1);
    lemma_pack(
        flag(cpu.f, FLAG_S),
        flag(cpu.f, FLAG_Z),
        flag(cpu.f, FLAG_Y),
        false,
        flag(cpu.f, FLAG_X),
        bc != 0,
        false,
        flag(cpu.f, FLAG_C),
    );
}

/// What a block comparison makes of the registers, pair by pair.
proof fn lemma_block_compare_regs(cpu: Cpu, mem: MemoryView, op: u8)
    ensures
        ({
            let next = cpu.block_compare_regs(mem, op);
            &&& next.hl_spec() == add16(cpu.hl_spec(), Cpu::block_dir(op))
            &&& next.bc_spec() == add16(cpu.bc_spec(), -1)
            &&& next.is_halted == cpu.is_halted
            &&& next.pc == cpu.pc
            &&& next.a == cpu.a
            &&& flag(next.f, FLAG_Z) == (cpu.a == mem.read(cpu.hl_spec()))
            &&& flag(next.f, FLAG_PV) == (add16(cpu.bc_spec(), -1) != 0)
        }),
{
    let v = mem.read(cpu.hl_spec());
    let r = ((cpu.a - v) % 256) as u8;
    lemma_pack(
        r & 0x80 != 0,
        cpu.a == v,
        r & 0x20 != 0,
        cpu.a % 16 < v % 16,
        r & 0x08 != 0,
        add16(cpu.bc_spec(), -1) != 0,
        true,
        flag(cpu.f, FLAG_C),
    );
}

/// One step of `LDIR`: a byte goes from `(HL)` to `(DE)`, both pointers move
/// up, `BC` counts down and `P/V` says whether it is not yet zero. While it
/// is not, `PC` stays on the instruction and the step takes 21 T-states;
/// the last step takes 16 and leaves `PC` behind the instruction.
#[verifier::rlimit(40)]
pub proof fn lemma_ldir_step(cpu: Cpu, mem: MemoryView, io: IoController, tape: Option<Tape>)
    requires
        !cpu.is_halted,
        mem.read(cpu.pc) == 0xED,
        mem.read(add16(cpu.pc, 1)) == 0xB0,
    ensures
        ({
            let next = cpu.step_spec(mem, io, tape);
            let more = add16(cpu.bc_spec(), -1) != 0;
            &&& next.mem == mem.write(cpu.de_spec(), mem.read(cpu.hl_spec()))
            &&& next.cpu.hl_spec() == add16(cpu.hl_spec(), 1)
            &&& next.cpu.de_spec() == add16(cpu.de_spec(), 1)
            &&& next.cpu.bc_spec() == add16(cpu.bc_spec(), -1)
            &&& !next.cpu.is_halted
            &&& flag(next.cpu.f, FLAG_PV) == more
            &&& next.cpu.pc == (if more { cpu.pc } else { add16(cpu.pc, 2) })
            &&& next.cycles == (if more { 21u8 } else { 16u8 })
        }),
{
    reveal(Cpu::step_spec);
    reveal(Cpu::instruction_spec);
    reveal(Cpu::ed_spec);
    let at = cpu.skip(1).bump_r().skip(1).bump_r();
    assert(cpu.skip(1).bump_r().imm8(mem, 0) == 0xB0);
    assert(Cpu::is_block_op(0xB0));
    assert(cpu.step_spec(mem, io, tape) == at.block_copy_spec(mem, 0xB0));
    lemma_block_copy_regs(at, 0xB0);
    assert(at.hl_spec() == cpu.hl_spec() && at.de_spec() == cpu.de_spec() && at.bc_spec()
        == cpu.bc_spec());
    assert(add16(at.pc, -2) == cpu.pc);
    assert(at.pc == add16(cpu.pc, 2));
}

/// Whether none of the `n` bytes from `de` on is one of the two bytes of the
/// instruction at `pc`.
pub open spec fn clear_of_instruction(de: u16, n: nat, pc: u16) -> bool {
    forall|j: int| 0 <= j < n ==> #[trigger] add16(de, j) != pc && add16(de, j) != add16(pc, 1)
}

/// Whether the `n` bytes from `hl` on and the `n` bytes from `de` on have no
/// address in common.
pub open spec fn disjoint(hl: u16, de: u16, n: nat) -> bool {
    forall|i: int, j: int|
        0 <= i < n && 0 <= j < n ==> #[trigger] add16(hl, i) != #[trigger] add16(de, j)
}

/// The registers and the time after an `LDIR` with `BC = n`.
#[verifier::rlimit(40)]
proof fn lemma_ldir_registers(cpu: Cpu, mem: MemoryView, io: IoController, tape: Option<Tape>, n: nat)
    requires
        !cpu.is_halted,
        mem.read(cpu.pc) == 0xED,
        mem.read(add16(cpu.pc, 1)) == 0xB0,
        1 <= n <= 0xFFFF,
        cpu.bc_spec() == n,
        clear_of_instruction(cpu.de_spec(), n, cpu.pc),
    ensures
        ({
            let end = run_spec(cpu, mem, io, tape, n);
            &&& end.2 == 21 * n - 5
            &&& end.0.bc_spec() == 0
            &&& !flag(end.0.f, FLAG_PV)
            &&& end.0.pc == add16(cpu.pc, 2)
            &&& end.0.hl_spec() == add16(cpu.hl_spec(), n as int)
            &&& end.0.de_spec() == add16(cpu.de_spec(), n as int)
        }),
    decreases n,
{
    let de = cpu.de_spec();
    let first = cpu.step_spec(mem, io, tape);
    lemma_ldir_step(cpu, mem, io, tape);
    assert(add16(de, 0) == de);
    if n > 1 {
        let m = (n - 1) as nat;
        let de1 = first.cpu.de_spec();
        assert forall|j: int| 0 <= j < m implies #[trigger] add16(de1, j) != first.cpu.pc && add16(
            de1,
            j,
        ) != add16(first.cpu.pc, 1) by {
            assert(add16(de1, j) == add16(de, j + 1));
        }
        lemma_ldir_registers(first.cpu, first.mem, io, tape, m);
        let rest = run_spec(first.cpu, first.mem, io, tape, m);
        assert(run_spec(cpu, mem, io, tape, n) == (rest.0, rest.1, first.cycles + rest.2));
        assert(add16(first.cpu.hl_spec(), m as int) == add16(cpu.hl_spec(), n as int));
        assert(add16(de1, m as int) == add16(de, n as int));
    } else {
        assert(run_spec(first.cpu, first.mem, io, tape, 0) == (first.cpu, first.mem, 0int));
        assert(run_spec(cpu, mem, io, tape, n) == (first.cpu, first.mem, first.cycles + 0));
    }
}

/// `add16` moves on step by step, and comes back to where it started only
/// after 2^16 steps.
proof fn lemma_add16_next(a: u16, j: int)
    requires
        0 <= j < 0xFFFF,
    ensures
        add16(add16(a, 1), j) == add16(a, j + 1),
        add16(a, j + 1) != a,
        add16(a, 0) == a,
{
}

/// An address outside the destination of an `LDIR` keeps its byte.
#[verifier::rlimit(40)]
proof fn lemma_ldir_frame(
    cpu: Cpu,
    mem: MemoryView,
    io: IoController,
    tape: Option<Tape>,
    n: nat,
    a: u16,
)
    requires
        !cpu.is_halted,
        mem.read(cpu.pc) == 0xED,
        mem.read(add16(cpu.pc, 1)) == 0xB0,
        1 <= n <= 0xFFFF,
        cpu.bc_spec() == n,
        clear_of_instruction(cpu.de_spec(), n, cpu.pc),
        forall|j: int| 0 <= j < n ==> a != #[trigger] add16(cpu.de_spec(), j),
    ensures
        run_spec(cpu, mem, io, tape, n).1.read(a) == mem.read(a),
    decreases n,
{
    let de = cpu.de_spec();
    let first = cpu.step_spec(mem, io, tape);
    lemma_ldir_step(cpu, mem, io, tape);
    lemma_add16_next(de, 0);
    assert(a != add16(de, 0));
    if n > 1 {
        let m = (n - 1) as nat;
        let de1 = first.cpu.de_spec();
        assert forall|j: int| 0 <= j < m implies #[trigger] add16(de1, j) != first.cpu.pc && add16(
            de1,
            j,
        ) != add16(first.cpu.pc, 1) && a != add16(de1, j) by {
            lemma_add16_next(de, j);
            assert(add16(de, j + 1) != cpu.pc);
        }
        lemma_ldir_frame(first.cpu, first.mem, io, tape, m, a);
        let rest = run_spec(first.cpu, first.mem, io, tape, m);
        assert(run_spec(cpu, mem, io, tape, n) == (rest.0, rest.1, first.cycles + rest.2));
    } else {
        assert(run_spec(first.cpu, first.mem, io, tape, 0) == (first.cpu, first.mem, 0int));
        assert(run_spec(cpu, mem, io, tape, n) == (first.cpu, first.mem, first.cycles + 0));
    }
}

/// A destination byte of an `LDIR` that lies in RAM holds its source byte.
#[verifier::rlimit(40)]
proof fn lemma_ldir_dest(
    cpu: Cpu,
    mem: MemoryView,
    io: IoController,
    tape: Option<Tape>,
    n: nat,
    j: int,
)
    requires
        !cpu.is_halted,
        mem.read(cpu.pc) == 0xED,
        mem.read(add16(cpu.pc, 1)) == 0xB0,
        1 <= n <= 0xFFFF,
        cpu.bc_spec() == n,
        clear_of_instruction(cpu.de_spec(), n, cpu.pc),
        disjoint(cpu.hl_spec(), cpu.de_spec(), n),
        0 <= j < n,
        mem.in_ram(add16(cpu.de_spec(), j)),
    ensures
        run_spec(cpu, mem, io, tape, n).1.read(add16(cpu.de_spec(), j)) == mem.read(
            add16(cpu.hl_spec(), j),
        ),
    decreases n,
{
    let hl = cpu.hl_spec();
    let de = cpu.de_spec();
    let first = cpu.step_spec(mem, io, tape);
    lemma_ldir_step(cpu, mem, io, tape);
    lemma_add16_next(de, 0);
    lemma_add16_next(hl, 0);
    if n > 1 {
        let m = (n - 1) as nat;
        let hl1 = first.cpu.hl_spec();
        let de1 = first.cpu.de_spec();
        let rest = run_spec(first.cpu, first.mem, io, tape, m);
        assert(run_spec(cpu, mem, io, tape, n) == (rest.0, rest.1, first.cycles + rest.2));
        assert forall|k: int| 0 <= k < m implies #[trigger] add16(de1, k) != first.cpu.pc && add16(
            de1,
            k,
        ) != add16(first.cpu.pc, 1) && de != add16(de1, k) by {
            lemma_add16_next(de, k);
            assert(add16(de, k + 1) != cpu.pc);
        }
        if j == 0 {
            lemma_ldir_frame(first.cpu, first.mem, io, tape, m, de);
        } else {
            assert forall|i: int, k: int| 0 <= i < m && 0 <= k < m implies #[trigger] add16(hl1, i)
                != #[trigger] add16(de1, k) by {
                lemma_add16_next(de, k);
                lemma_add16_next(hl, i);
                assert(add16(hl, i + 1) != add16(de, k + 1));
            }
            lemma_add16_next(de, j - 1);
            lemma_add16_next(hl, j - 1);
            assert(first.mem.in_ram(add16(de1, j - 1)));
            lemma_ldir_dest(first.cpu, first.mem, io, tape, m, j - 1);
            assert(add16(hl, j) != add16(de, 0));
        }
    } else {
        assert(run_spec(first.cpu, first.mem, io, tape, 0) == (first.cpu, first.mem, 0int));
        assert(run_spec(cpu, mem, io, tape, n) == (first.cpu, first.mem, first.cycles + 0));
    }
}

/// `LDIR` with `BC = n`: after `n` steps `n` bytes have been copied, `BC` is
/// zero, `P/V` is clear, `PC` stands behind the instruction and `21n - 5`
/// T-states have gone by. Every destination byte in RAM holds its source
/// byte, and nothing outside the destination has changed. The destination
/// must not overlap the source or the instruction itself.
#[verifier::rlimit(40)]
pub proof fn lemma_ldir(cpu: Cpu, mem: MemoryView, io: IoController, tape: Option<Tape>, n: nat)
    requires
        !cpu.is_halted,
        mem.read(cpu.pc) == 0xED,
        mem.read(add16(cpu.pc, 1)) == 0xB0,
        1 <= n <= 0xFFFF,
        cpu.bc_spec() == n,
        clear_of_instruction(cpu.de_spec(), n, cpu.pc),
        disjoint(cpu.hl_spec(), cpu.de_spec(), n),
    ensures
        ({
            let end = run_spec(cpu, mem, io, tape, n);
            &&& end.2 == 21 * n - 5
            &&& end.0.bc_spec() == 0
            &&& !flag(end.0.f, FLAG_PV)
            &&& end.0.pc == add16(cpu.pc, 2)
            &&& end.0.hl_spec() == add16(cpu.hl_spec(), n as int)
            &&& end.0.de_spec() == add16(cpu.de_spec(), n as int)
            &&& forall|j: int|
                0 <= j < n && mem.in_ram(#[trigger] add16(cpu.de_spec(), j)) ==> end.1.read(
                    add16(cpu.de_spec(), j),
                ) == mem.read(add16(cpu.hl_spec(), j))
            &&& forall|a: u16|
                (forall|j: int| 0 <= j < n ==> a != #[trigger] add16(cpu.de_spec(), j))
                    ==> #[trigger] end.1.read(a) == mem.read(a)
        }),
{
    lemma_ldir_registers(cpu, mem, io, tape, n);
    let end = run_spec(cpu, mem, io, tape, n);
    assert forall|j: int| 0 <= j < n && mem.in_ram(#[trigger] add16(cpu.de_spec(), j)) implies end.1.read(
        add16(cpu.de_spec(), j),
    ) == mem.read(add16(cpu.hl_spec(), j)) by {
        lemma_ldir_dest(cpu, mem, io, tape, n, j);
    }
    assert forall|a: u16|
        (forall|j: int| 0 <= j < n ==> a != #[trigger] add16(cpu.de_spec(), j)) implies #[trigger] end.1.read(
        a,
    ) == mem.read(a) by {
        lemma_ldir_frame(cpu, mem, io, tape, n, a);
    }
}

/// One step of `CPIR`: `A` is compared with `(HL)`, `Z` tells whether they
/// are equal, `HL` moves up and `BC` counts down; the bus and `A` stay as
/// they are. While `BC` is not zero and the bytes differ, `PC` stays on the
/// instruction and the step takes 21 T-states; otherwise the instruction
/// ends, at 16 T-states, with `PC` behind it.
#[verifier::rlimit(40)]
pub proof fn lemma_cpir_step(cpu: Cpu, mem: MemoryView, io: IoController, tape: Option<Tape>)
    requires
        !cpu.is_halted,
        mem.read(cpu.pc) == 0xED,
        mem.read(add16(cpu.pc, 1)) == 0xB1,
    ensures
        ({
            let next = cpu.step_spec(mem, io, tape);
            let again = add16(cpu.bc_spec(), -1) != 0 && cpu.a != mem.read(cpu.hl_spec());
            &&& next.mem == mem
            &&& next.cpu.a == cpu.a
            &&& next.cpu.hl_spec() == add16(cpu.hl_spec(), 1)
            &&& next.cpu.bc_spec() == add16(cpu.bc_spec(), -1)
            &&& !next.cpu.is_halted
            &&& flag(next.cpu.f, FLAG_Z) == (cpu.a == mem.read(cpu.hl_spec()))
            &&& flag(next.cpu.f, FLAG_PV) == (add16(cpu.bc_spec(), -1) != 0)
            &&& next.cpu.pc == (if again { cpu.pc } else { add16(cpu.pc, 2) })
            &&& next.cycles == (if again { 21u8 } else { 16u8 })
        }),
{
    reveal(Cpu::step_spec);
    reveal(Cpu::instruction_spec);
    reveal(Cpu::ed_spec);
    let at = cpu.skip(1).bump_r().skip(1).bump_r();
    assert(cpu.skip(1).bump_r().imm8(mem, 0) == 0xB1);
    assert(Cpu::is_block_op(0xB1));
    assert(cpu.step_spec(mem, io, tape) == at.block_search_spec(mem, 0xB1));
    lemma_block_compare_regs(at, mem, 0xB1);
    assert(at.hl_spec() == cpu.hl_spec() && at.bc_spec() == cpu.bc_spec() && at.a == cpu.a);
    assert(add16(at.pc, -2) == cpu.pc);
    assert(at.pc == add16(cpu.pc, 2));
}

/// `CPIR` with `BC = n` that ends at its `k`-th comparison, because that one
/// finds `A` or because `BC` has run out: after `k` steps `BC` is `n - k`,
/// `HL` has moved up by `k`, `Z` tells whether the last byte compared was
/// `A`, `PC` stands behind the instruction, the bus is as it was and
/// `21k - 5` T-states have gone by.
#[verifier::rlimit(40)]
pub proof fn lemma_cpir(
    cpu: Cpu,
    mem: MemoryView,
    io: IoController,
    tape: Option<Tape>,
    n: nat,
    k: nat,
)
    requires
        !cpu.is_halted,
        mem.read(cpu.pc) == 0xED,
        mem.read(add16(cpu.pc, 1)) == 0xB1,
        1 <= k <= n <= 0xFFFF,
        cpu.bc_spec() == n,
        forall|i: int| 0 <= i < k - 1 ==> mem.read(#[trigger] add16(cpu.hl_spec(), i)) != cpu.a,
        k == n || mem.read(add16(cpu.hl_spec(), k - 1)) == cpu.a,
    ensures
        ({
            let end = run_spec(cpu, mem, io, tape, k);
            &&& end.2 == 21 * k - 5
            &&& end.1 == mem
            &&& end.0.bc_spec() == n - k
            &&& end.0.hl_spec() == add16(cpu.hl_spec(), k as int)
            &&& end.0.pc == add16(cpu.pc, 2)
            &&& flag(end.0.f, FLAG_Z) == (mem.read(add16(cpu.hl_spec(), k - 1)) == cpu.a)
        }),
    decreases k,
{
    let hl = cpu.hl_spec();
    let first = cpu.step_spec(mem, io, tape);
    lemma_cpir_step(cpu, mem, io, tape);
    assert(add16(hl, 0) == hl);
    if k > 1 {
        let hl1 = first.cpu.hl_spec();
        assert(mem.read(add16(hl, 0)) != cpu.a);
        assert forall|i: int| 0 <= i < k - 2 implies mem.read(#[trigger] add16(hl1, i))
            != first.cpu.a by {
            assert(add16(hl1, i) == add16(hl, i + 1));
        }
        assert(add16(hl1, k - 2) == add16(hl, k - 1));
        lemma_cpir(first.cpu, mem, io, tape, (n - 1) as nat, (k - 1) as nat);
        let rest = run_spec(first.cpu, first.mem, io, tape, (k - 1) as nat);
        assert(run_spec(cpu, mem, io, tape, k) == (rest.0, rest.1, first.cycles + rest.2));
        assert(add16(hl1, (k - 1) as int) == add16(hl, k as int));
    } else {
        assert(run_spec(first.cpu, first.mem, io, tape, 0) == (first.cpu, first.mem, 0int));
        assert(run_spec(cpu, mem, io, tape, k) == (first.cpu, first.mem, first.cycles + 0));
    }
}

/// The conditional instructions take their published times: `JR cc` 12
/// T-states when taken and 7 when not, `DJNZ` 13 and 8, `JP cc` 10 either
/// way, `CALL cc` 17 and 10, `RET cc` 11 and 5; the unconditional `JR`,
/// `CALL` and `RET` take 12, 17 and 10.
pub proof fn lemma_conditional_timing(cpu: Cpu, mem: MemoryView, cc: u8)
    requires
        cc < 8,
    ensures
        cc < 4 ==> cpu.jr_spec(mem, (0x20 + cc * 8) as u8).cycles == (if cpu.cond_spec(cc) {
            12u8
        } else {
            7u8
        }),
        cpu.jr_spec(mem, 0x18).cycles == 12,
        cpu.jr_spec(mem, 0x10).cycles == (if cpu.b != 1 {
            13u8
        } else {
            8u8
        }),
        cpu.jp_cc_nn_spec(mem, (0xC2 + cc * 8) as u8).cycles == 10,
        cpu.call_cc_nn_spec(mem, (0xC4 + cc * 8) as u8).cycles == (if cpu.cond_spec(cc) {
            17u8
        } else {
            10u8
        }),
        cpu.call_cc_nn_spec(mem, 0xCD).cycles == 17,
        cpu.ret_cc_spec(mem, (0xC0 + cc * 8) as u8).cycles == (if cpu.cond_spec(cc) {
            11u8
        } else {
            5u8
        }),
        cpu.ret_cc_spec(mem, 0xC9).cycles == 10,
{
}

/// `HALT` and any number of steps after it: the halt latch is set, `PC`
/// stands behind the `HALT`, `R` has counted one fetch, and nothing else has
/// changed, registers or bus. Every step takes 4 T-states.
pub proof fn lemma_halt_then_steps(
    cpu: Cpu,
    mem: MemoryView,
    io: IoController,
    tape: Option<Tape>,
    k: nat,
)
    requires
        !cpu.is_halted,
        mem.read(cpu.pc) == 0x76,
    ensures
        run_spec(cpu, mem, io, tape, k + 1) == (
            Cpu { is_halted: true, pc: add16(cpu.pc, 1), r: cpu.bump_r().r, ..cpu },
            mem,
            4 * (k as int + 1),
        ),
{
    lemma_halt_step(cpu, mem, io, tape);
    let first = cpu.step_spec(mem, io, tape);
    lemma_halted_stays(first.cpu, first.mem, io, tape, k);
}

/// Whether `op` is an opcode of the `ED` table that the processor executes.
pub open spec fn ed_implemented(op: u8) -> bool {
    ||| (0x40 <= op < 0x80 && op % 8 < 4)
    ||| op == 0x44
    ||| op == 0x46
    ||| op == 0x56
    ||| op == 0x5E
    ||| op == 0x47
    ||| op == 0x4F
    ||| op == 0x57
    ||| op == 0x5F
    ||| Cpu::is_block_op(op)
    ||| op == 0xFC
    ||| op == 0xFD
}

/// An opcode that is not implemented (`DAA`, the `CB` shift with code 6,
/// and what the `ED` table leaves out) takes 4 T-states and changes nothing
/// but `PC`, which moves behind it, and `R`, which counts its fetches.
pub proof fn lemma_unimplemented_opcodes(
    cpu: Cpu,
    mem: MemoryView,
    io: IoController,
    tape: Option<Tape>,
)
    requires
        !cpu.is_halted,
    ensures
        mem.read(cpu.pc) == 0x27 ==> cpu.step_spec(mem, io, tape) == (Next {
            cpu: cpu.skip(1).bump_r(),
            mem,
            cycles: 4,
        }),
        mem.read(cpu.pc) == 0xCB && 0x30 <= mem.read(add16(cpu.pc, 1)) < 0x38 ==> cpu.step_spec(
            mem,
            io,
            tape,
        ) == (Next { cpu: cpu.skip(1).bump_r().skip(1).bump_r(), mem, cycles: 4 }),
        mem.read(cpu.pc) == 0xED && !ed_implemented(mem.read(add16(cpu.pc, 1))) ==> cpu.step_spec(
            mem,
            io,
            tape,
        ) == (Next { cpu: cpu.skip(1).bump_r().skip(1).bump_r(), mem, cycles: 4 }),
{
    reveal(Cpu::step_spec);
    reveal(Cpu::instruction_spec);
    let inner = cpu.skip(1).bump_r();
    assert(inner.imm8(mem, 0) == mem.read(add16(cpu.pc, 1)));
    if mem.read(cpu.pc) == 0x27 {
        reveal(Cpu::main_spec);
    } else if mem.read(cpu.pc) == 0xCB {
        reveal(Cpu::cb_spec);
    } else if mem.read(cpu.pc) == 0xED {
        reveal(Cpu::ed_spec);
    }
}

/// The sign pattern of a signed overflow: the operands of a sum agree in
/// sign and the result does not; the operands of a difference differ in sign
/// and the result differs from the first.
proof fn lemma_sign_patterns(a: u8, x: u8, c: int)
    requires
        0 <= c <= 1,
    ensures
        ({
            let r = ((a + x + c) % 256) as u8;
            let d = ((a - x - c) % 256) as u8;
            &&& ((a < 128) == (x < 128) && (a < 128) != (r < 128)) == !(-128 <= sext(a) + sext(x)
                + c <= 127)
            &&& ((a < 128) != (x < 128) && (a < 128) != (d < 128)) == !(-128 <= sext(a) - sext(x)
                - c <= 127)
        }),
{
    let s = a + x + c;
    let r = (s % 256) as u8;
    assert(r == if s >= 256 { s - 256 } else { s });
    let t = a - x - c;
    let d = (t % 256) as u8;
    assert(d == if t < 0 { t + 256 } else { t });
}

/// After an addition or a subtraction, `S` says that the result is negative
/// as a signed number, and `P/V` says that the true signed sum or difference
/// does not fit a byte.
pub proof fn lemma_overflow_is_signed_overflow(a: u8, x: u8, cin: bool)
    ensures
        ({
            let c: int = if cin { 1 } else { 0 };
            &&& flag(add8_spec(a, x, cin).flags, FLAG_PV) == !(-128 <= sext(a) + sext(x) + c
                <= 127)
            &&& flag(sub8_spec(a, x, cin).flags, FLAG_PV) == !(-128 <= sext(a) - sext(x) - c
                <= 127)
            &&& flag(add8_spec(a, x, cin).flags, FLAG_S) == (sext(add8_spec(a, x, cin).value) < 0)
            &&& flag(sub8_spec(a, x, cin).flags, FLAG_S) == (sext(sub8_spec(a, x, cin).value) < 0)
        }),
{
    let c: int = if cin { 1 } else { 0 };
    let r = add8_spec(a, x, cin).value;
    let d = sub8_spec(a, x, cin).value;
    let add_over = ((a ^ !x) & (a ^ r)) & 0x80 != 0;
    let sub_over = ((a ^ x) & (a ^ d)) & 0x80 != 0;
    lemma_pack(
        r & 0x80 != 0,
        r == 0,
        r & 0x20 != 0,
        a % 16 + x % 16 + c > 15,
        r & 0x08 != 0,
        add_over,
        false,
        a + x + c > 255,
    );
    lemma_pack(
        d & 0x80 != 0,
        d == 0,
        d & 0x20 != 0,
        a % 16 < x % 16 + c,
        d & 0x08 != 0,
        sub_over,
        true,
        a < x + c,
    );
    assert((((a ^ !x) & (a ^ r)) & 0x80 != 0) == ((a < 128) == (x < 128) && (a < 128) != (r < 128)))
        by (bit_vector);
    assert((((a ^ x) & (a ^ d)) & 0x80 != 0) == ((a < 128) != (x < 128) && (a < 128) != (d < 128)))
        by (bit_vector);
    assert((r & 0x80 != 0) == (r >= 128)) by (bit_vector);
    assert((d & 0x80 != 0) == (d >= 128)) by (bit_vector);
    lemma_sign_patterns(a, x, c);
}

} // verus!
