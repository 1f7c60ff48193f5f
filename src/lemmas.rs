//! Facts about executing instructions and short programs, proved from the
//! instruction semantics.
use vstd::prelude::*;
use vstd::arithmetic::div_mod::lemma_add_mod_noop;
use crate::instr::{spec_decode, Instr, Mode, Op};
use crate::reg::{carry_in, Registers, StatusRegister};
use crate::semantics::{
    arg, branch_taken, is_branch, next_state, operand_addr, popped, pushed, run_state, sets_pc,
    sign_extend, step_state, top, State,
};

verus! {

/// Program addresses wrap at the top of the address space.
proof fn lemma_wrap(pc: int, a: int, b: int)
    requires
        0 <= pc < 0x10000,
        0 <= a,
        0 <= b,
    ensures
        ((pc + a) % 0x10000 + b) % 0x10000 == (pc + a + b) % 0x10000,
{
    lemma_add_mod_noop(pc + a, b, 0x10000);
    assert(b % 0x10000 + 0 == b % 0x10000);
    lemma_add_mod_noop((pc + a) % 0x10000, b, 0x10000);
    vstd::arithmetic::div_mod::lemma_mod_twice(pc + a, 0x10000);
}

/// One step at a state whose opcode decodes to `i` (not BRK) is `i`'s effect.
proof fn lemma_step_is(s: State, i: Instr)
    requires
        spec_decode(s.1[s.0.pc as int]) == Some(i),
        i.op != Op::Brk,
    ensures
        step_state(s) == Some(next_state(i, s.0, s.1)),
{
}

/// A pull right after a push reads the pushed byte and restores SP (to its
/// low byte).
proof fn lemma_push_then_pull(reg: Registers, mem: Seq<u8>, v: u8)
    requires
        mem.len() == 0x10000,
    ensures
        ({
            let (r1, m1) = pushed(reg, mem, v);
            &&& top(r1, m1) == v
            &&& popped(r1).sp == reg.sp % 256
            &&& r1.sp < 256
            &&& m1 == mem.update(0x100 + (reg.sp % 256 + 255) % 256, v)
        }),
{
    let x = reg.sp % 256;
    let s1 = (x + 255) % 256;
    if x == 0 {
        assert(s1 == 255);
    } else {
        assert(s1 == x - 1);
    }
}

/// An instruction that does not set PC itself (every one but jumps, calls,
/// returns and taken branches) moves PC past exactly its own 1, 2 or 3
/// bytes.
pub proof fn lemma_pc_advances(reg: Registers, mem: Seq<u8>)
    requires
        mem.len() == 0x10000,
        step_state((reg, mem)) is Some,
        !sets_pc(spec_decode(mem[reg.pc as int])->0, reg),
    ensures
        ({
            let t = step_state((reg, mem))->0;
            let len = spec_decode(mem[reg.pc as int])->0.mode.length();
            &&& t.0.pc == (reg.pc + len) % 0x10000
            &&& 1 <= len <= 3
        }),
{
    reveal(next_state);
}

/// A taken branch moves PC to the branch's address plus 2 plus its signed
/// offset; an untaken one moves PC past its 2 bytes.
pub proof fn lemma_branch_target(reg: Registers, mem: Seq<u8>)
    requires
        mem.len() == 0x10000,
        spec_decode(mem[reg.pc as int]) is Some,
        is_branch(spec_decode(mem[reg.pc as int])->0.op),
    ensures
        ({
            let t = step_state((reg, mem))->0;
            let taken = branch_taken(spec_decode(mem[reg.pc as int])->0.op, reg.sr);
            &&& taken ==> t.0.pc == (reg.pc + 2 + sign_extend(arg(reg, mem, 1))) % 0x10000
            &&& !taken ==> t.0.pc == (reg.pc + 2) % 0x10000
            &&& t.1 == mem
        }),
{
    reveal(next_state);
}

/// ASL then LSR on the accumulator clears its top bit, whatever the carry:
/// the result is `v & 0x7F`. It equals `v & 0xFE` exactly when bits 0 and 7
/// of `v` are both clear.
pub proof fn lemma_asl_lsr(reg: Registers, mem: Seq<u8>)
    ensures
        ({
            let r1 = next_state(Instr { op: Op::Asl, mode: Mode::Accumulator }, reg, mem).0;
            let r2 = next_state(Instr { op: Op::Lsr, mode: Mode::Accumulator }, r1, mem).0;
            &&& r2.a == reg.a & 0x7f
            &&& (r2.a == reg.a & 0xfe) <==> (reg.a & 0x81 == 0)
        }),
{
    reveal(next_state);
    let v = reg.a;
    assert(((v << 1u8) >> 1u8) == v & 0x7f) by (bit_vector);
    assert((v & 0x7f == v & 0xfe) <==> (v & 0x81 == 0)) by (bit_vector);
}

/// LSR then ASL on the accumulator clears its bottom bit: the result is
/// `v & 0xFE`.
pub proof fn lemma_lsr_asl(reg: Registers, mem: Seq<u8>)
    ensures
        ({
            let r1 = next_state(Instr { op: Op::Lsr, mode: Mode::Accumulator }, reg, mem).0;
            let r2 = next_state(Instr { op: Op::Asl, mode: Mode::Accumulator }, r1, mem).0;
            r2.a == reg.a & 0xfe
        }),
{
    reveal(next_state);
    let v = reg.a;
    assert(((v >> 1u8) << 1u8) == v & 0xfe) by (bit_vector);
}

/// ROL then ROR on the accumulator gives back both the accumulator and the
/// carry.
pub proof fn lemma_rol_ror(reg: Registers, mem: Seq<u8>)
    ensures
        ({
            let r1 = next_state(Instr { op: Op::Rol, mode: Mode::Accumulator }, reg, mem).0;
            let r2 = next_state(Instr { op: Op::Ror, mode: Mode::Accumulator }, r1, mem).0;
            r2.a == reg.a && r2.sr.c == reg.sr.c
        }),
{
    reveal(next_state);
    let v = reg.a;
    if reg.sr.c {
        assert((((v << 1u8) | 1u8) >> 1u8) | (if v & 0x80u8 == 0x80u8 {
            0x80u8
        } else {
            0u8
        }) == v) by (bit_vector);
        assert(((v << 1u8) | 1u8) & 1u8 == 1u8) by (bit_vector);
    } else {
        assert((((v << 1u8) | 0u8) >> 1u8) | (if v & 0x80u8 == 0x80u8 {
            0x80u8
        } else {
            0u8
        }) == v) by (bit_vector);
        assert(((v << 1u8) | 0u8) & 1u8 != 1u8) by (bit_vector);
    }
}

/// Zero-page indexed addressing wraps within page zero: with X = $FF,
/// `$02,X` addresses $01.
pub proof fn lemma_zero_page_x_wraps(reg: Registers, mem: Seq<u8>)
    requires
        reg.x == 0xff,
        arg(reg, mem, 1) == 0x02,
    ensures
        operand_addr(Mode::ZeroPageX, reg, mem) == 0x01,
{
}


/// `CLC` or `SEC`, then `LDA #a; ADC #m`: A = (a + m + C) mod 256, C is set
/// exactly when a + m + C >= 256, Z when A = 0, N from bit 7 of A, and V
/// when `(a ^ A) & (m ^ A) & $80` is non-zero.
pub proof fn lemma_adc_program(reg: Registers, mem: Seq<u8>, a: u8, m: u8, c: bool)
    requires
        mem.len() == 0x10000,
        mem[reg.pc as int] == (if c {
            0x38u8
        } else {
            0x18u8
        }),
        arg(reg, mem, 1) == 0xa9,
        arg(reg, mem, 2) == a,
        arg(reg, mem, 3) == 0x69,
        arg(reg, mem, 4) == m,
    ensures
        ({
            let t = run_state((reg, mem), 3).0;
            let sum = a + m + carry_in(c);
            &&& t.a == sum % 256
            &&& t.sr.c == (sum >= 256)
            &&& t.sr.z == (t.a == 0)
            &&& t.sr.n == (t.a >= 0x80)
            &&& t.sr.v == (((a ^ t.a) & (m ^ t.a) & 0x80u8) != 0)
            &&& t.pc == (reg.pc + 5) % 0x10000
        }),
{
    let pc = reg.pc as int;
    lemma_wrap(pc, 1, 0);
    lemma_wrap(pc, 1, 1);
    lemma_wrap(pc, 1, 2);
    lemma_wrap(pc, 3, 0);
    lemma_wrap(pc, 3, 1);
    lemma_wrap(pc, 3, 2);
    lemma_wrap(pc, 0, 1);
    let s0 = (reg, mem);
    let flag = Instr { op: if c {
        Op::Sec
    } else {
        Op::Clc
    }, mode: Mode::Implied };
    lemma_step_is(s0, flag);
    let s1 = next_state(flag, reg, mem);
    lemma_carry_effect(reg, mem, c);
    let lda = Instr { op: Op::Lda, mode: Mode::Immediate };
    lemma_step_is(s1, lda);
    let s2 = next_state(lda, s1.0, s1.1);
    lemma_immediate_effect(Op::Lda, s1.0, s1.1);
    assert(s2.0.pc == (pc + 3) % 0x10000);
    let adc = Instr { op: Op::Adc, mode: Mode::Immediate };
    lemma_step_is(s2, adc);
    let s3 = next_state(adc, s2.0, s2.1);
    lemma_immediate_effect(Op::Adc, s2.0, s2.1);
    assert(run_state(s0, 3) == s3) by {
        reveal_with_fuel(run_state, 4);
    }
}


/// `LDX #$FF; LDA $02,X` loads A from address $01: the zero-page index wraps
/// within page zero instead of reaching $0101.
pub proof fn lemma_ldx_lda_zero_page_x(reg: Registers, mem: Seq<u8>)
    requires
        mem.len() == 0x10000,
        mem[reg.pc as int] == 0xa2,
        arg(reg, mem, 1) == 0xff,
        arg(reg, mem, 2) == 0xb5,
        arg(reg, mem, 3) == 0x02,
    ensures
        ({
            let t = run_state((reg, mem), 2).0;
            &&& t.a == mem[0x01]
            &&& t.x == 0xff
        }),
{
    let pc = reg.pc as int;
    lemma_wrap(pc, 2, 0);
    lemma_wrap(pc, 2, 1);
    let s0 = (reg, mem);
    let ldx = Instr { op: Op::Ldx, mode: Mode::Immediate };
    lemma_step_is(s0, ldx);
    let s1 = next_state(ldx, reg, mem);
    lemma_immediate_effect(Op::Ldx, reg, mem);
    assert(s1.0.pc == (pc + 2) % 0x10000);
    let lda = Instr { op: Op::Lda, mode: Mode::ZeroPageX };
    lemma_step_is(s1, lda);
    let s2 = next_state(lda, s1.0, s1.1);
    lemma_lda_zero_page_x_effect(s1.0, s1.1);
    assert(run_state(s0, 2) == s2) by {
        reveal_with_fuel(run_state, 3);
    }
}

/// CLC or SEC sets the carry to `c`.
proof fn lemma_carry_effect(reg: Registers, mem: Seq<u8>, c: bool)
    ensures
        ({
            let op = if c {
                Op::Sec
            } else {
                Op::Clc
            };
            let s = next_state(Instr { op: op, mode: Mode::Implied }, reg, mem);
            &&& s.0 == Registers {
                pc: ((reg.pc + 1) % 0x10000) as u16,
                sr: StatusRegister { c: c, ..reg.sr },
                ..reg
            }
            &&& s.1 == mem
        }),
{
    reveal(next_state);
}

/// LDA, LDX or ADC with an immediate operand.
proof fn lemma_immediate_effect(op: Op, reg: Registers, mem: Seq<u8>)
    requires
        op == Op::Lda || op == Op::Ldx || op == Op::Adc,
    ensures
        ({
            let s = next_state(Instr { op: op, mode: Mode::Immediate }, reg, mem);
            let m = arg(reg, mem, 1);
            let r = Registers { pc: ((reg.pc + 2) % 0x10000) as u16, ..reg };
            &&& op == Op::Lda ==> s.0 == r.with_a(m)
            &&& op == Op::Ldx ==> s.0 == Registers { x: m, sr: reg.sr.with_nz(m), ..r }
            &&& op == Op::Adc ==> s.0 == r.spec_adc(m)
            &&& s.1 == mem
        }),
{
    reveal(next_state);
}

/// LDA with a zero-page,X operand.
proof fn lemma_lda_zero_page_x_effect(reg: Registers, mem: Seq<u8>)
    ensures
        ({
            let s = next_state(Instr { op: Op::Lda, mode: Mode::ZeroPageX }, reg, mem);
            &&& s.0.a == mem[operand_addr(Mode::ZeroPageX, reg, mem)]
            &&& s.0.x == reg.x
            &&& s.1 == mem
        }),
{
    reveal(next_state);
}

/// JSR pushes the address of its last byte, high byte first, and jumps.
proof fn lemma_jsr_effect(reg: Registers, mem: Seq<u8>)
    requires
        mem.len() == 0x10000,
        reg.sp < 256,
    ensures
        ({
            let s = next_state(Instr { op: Op::Jsr, mode: Mode::Absolute }, reg, mem);
            let ret = (reg.pc + 2) % 0x10000;
            &&& s.0 == Registers {
                pc: operand_addr(Mode::Absolute, reg, mem) as u16,
                sp: ((reg.sp + 254) % 256) as u16,
                ..reg
            }
            &&& s.1 == mem.update(0x100 + (reg.sp + 255) % 256, (ret / 256) as u8).update(
                0x100 + (reg.sp + 254) % 256,
                (ret % 256) as u8,
            )
        }),
{
    reveal(next_state);
    let ret = (reg.pc + 2) % 0x10000;
    let (r1, m1) = pushed(reg, mem, (ret / 256) as u8);
    lemma_push_then_pull(reg, mem, (ret / 256) as u8);
    lemma_push_then_pull(r1, m1, (ret % 256) as u8);
    let slot_hi = (reg.sp + 255) % 256;
    assert((slot_hi + 255) % 256 == (reg.sp + 254) % 256);
}

/// RTS pulls a word, low byte first, and goes to the address after it.
proof fn lemma_rts_effect(reg: Registers, mem: Seq<u8>)
    requires
        mem.len() == 0x10000,
        reg.sp < 256,
    ensures
        ({
            let s = next_state(Instr { op: Op::Rts, mode: Mode::Implied }, reg, mem);
            let lo = mem[0x100 + reg.sp];
            let hi = mem[0x100 + (reg.sp + 1) % 256];
            &&& s.0 == Registers {
                pc: ((lo + 256 * hi + 1) % 0x10000) as u16,
                sp: ((reg.sp + 2) % 256) as u16,
                ..reg
            }
            &&& s.1 == mem
        }),
{
    reveal(next_state);
    let r1 = popped(reg);
    assert(r1.sp == (reg.sp + 1) % 256);
    assert(popped(r1).sp == (reg.sp + 2) % 256);
}

/// `JSR L` followed by `RTS` at L returns to the address after the JSR with
/// SP, the flags and A, X, Y as they were. The two bytes JSR pushes must not
/// overwrite the RTS at L.
pub proof fn lemma_jsr_rts(reg: Registers, mem: Seq<u8>, target: u16)
    requires
        mem.len() == 0x10000,
        reg.sp < 256,
        mem[reg.pc as int] == 0x20,
        arg(reg, mem, 1) == target % 256,
        arg(reg, mem, 2) == target / 256,
        mem[target as int] == 0x60,
        target != 0x100 + (reg.sp + 255) % 256,
        target != 0x100 + (reg.sp + 254) % 256,
    ensures
        ({
            let t = run_state((reg, mem), 2).0;
            &&& t.pc == (reg.pc + 3) % 0x10000
            &&& t.sp == reg.sp
            &&& t.sr == reg.sr
            &&& t.a == reg.a
            &&& t.x == reg.x
            &&& t.y == reg.y
        }),
{
    let pc = reg.pc as int;
    let s0 = (reg, mem);
    let jsr = Instr { op: Op::Jsr, mode: Mode::Absolute };
    lemma_step_is(s0, jsr);
    let s1 = next_state(jsr, reg, mem);
    lemma_jsr_effect(reg, mem);
    assert(operand_addr(Mode::Absolute, reg, mem) == target);
    let ret = (pc + 2) % 0x10000;
    let slot_hi = (reg.sp + 255) % 256;
    let slot_lo = (reg.sp + 254) % 256;
    assert(s1.1[target as int] == 0x60);
    let rts = Instr { op: Op::Rts, mode: Mode::Implied };
    lemma_step_is(s1, rts);
    let s2 = next_state(rts, s1.0, s1.1);
    lemma_rts_effect(s1.0, s1.1);
    assert((slot_lo + 1) % 256 == slot_hi);
    assert(s1.1[0x100 + slot_lo] == ret % 256);
    assert(s1.1[0x100 + slot_hi] == ret / 256);
    assert((ret % 256) + 256 * (ret / 256) == ret);
    lemma_wrap(pc, 2, 1);
    assert(s2.0.pc == (pc + 3) % 0x10000);
    assert((slot_lo + 2) % 256 == reg.sp);
    assert(run_state(s0, 2) == s2) by {
        reveal_with_fuel(run_state, 3);
    }
}

/// PHA pushes A.
proof fn lemma_pha_effect(reg: Registers, mem: Seq<u8>)
    requires
        mem.len() == 0x10000,
    ensures
        ({
            let s = next_state(Instr { op: Op::Pha, mode: Mode::Implied }, reg, mem);
            let slot = (reg.sp % 256 + 255) % 256;
            &&& s.0 == Registers { pc: ((reg.pc + 1) % 0x10000) as u16, sp: slot as u16, ..reg }
            &&& s.1 == mem.update(0x100 + slot, reg.a)
        }),
{
    reveal(next_state);
}

/// PLA pulls A and sets N and Z from it.
proof fn lemma_pla_effect(reg: Registers, mem: Seq<u8>)
    requires
        mem.len() == 0x10000,
    ensures
        ({
            let s = next_state(Instr { op: Op::Pla, mode: Mode::Implied }, reg, mem);
            let v = mem[0x100 + reg.sp % 256];
            &&& s.0.a == v
            &&& s.0.sr == reg.sr.with_nz(v)
            &&& s.0.sp == (reg.sp % 256 + 1) % 256
            &&& s.0.pc == (reg.pc + 1) % 0x10000
            &&& s.1 == mem
        }),
{
    reveal(next_state);
}

/// After a push and a pull of the accumulator around `LDA #0`, A holds the
/// byte it held before, and N and Z reflect it: running `LDA #m; PHA;
/// LDA #0; PLA` leaves A = m. The byte that PHA writes on the stack must not
/// overwrite the program's last three bytes.
pub proof fn lemma_push_pull_a(reg: Registers, mem: Seq<u8>, m: u8)
    requires
        mem.len() == 0x10000,
        mem[reg.pc as int] == 0xa9,
        arg(reg, mem, 1) == m,
        arg(reg, mem, 2) == 0x48,
        arg(reg, mem, 3) == 0xa9,
        arg(reg, mem, 4) == 0x00,
        arg(reg, mem, 5) == 0x68,
        (reg.pc + 3) % 0x10000 != 0x100 + (reg.sp % 256 + 255) % 256,
        (reg.pc + 4) % 0x10000 != 0x100 + (reg.sp % 256 + 255) % 256,
        (reg.pc + 5) % 0x10000 != 0x100 + (reg.sp % 256 + 255) % 256,
    ensures
        ({
            let t = run_state((reg, mem), 4).0;
            &&& t.a == m
            &&& t.sr.n == (m >= 0x80)
            &&& t.sr.z == (m == 0)
            &&& t.sp == reg.sp % 256
            &&& t.pc == (reg.pc + 6) % 0x10000
        }),
{
    let pc = reg.pc as int;
    let slot = (reg.sp % 256 + 255) % 256;
    let lda = Instr { op: Op::Lda, mode: Mode::Immediate };
    let s0 = (reg, mem);
    lemma_step_is(s0, lda);
    let s1 = next_state(lda, reg, mem);
    lemma_immediate_effect(Op::Lda, reg, mem);
    lemma_wrap(pc, 0, 2);
    assert(s1.0.pc == (pc + 2) % 0x10000);
    let pha = Instr { op: Op::Pha, mode: Mode::Implied };
    lemma_step_is(s1, pha);
    let s2 = next_state(pha, s1.0, s1.1);
    lemma_pha_effect(s1.0, s1.1);
    lemma_wrap(pc, 2, 1);
    assert(s2.0.pc == (pc + 3) % 0x10000);
    assert(s2.1 == mem.update(0x100 + slot, m));
    lemma_wrap(pc, 3, 1);
    lemma_wrap(pc, 3, 2);
    lemma_wrap(pc, 0, 3);
    lemma_wrap(pc, 0, 4);
    lemma_wrap(pc, 0, 5);
    assert(s2.1[(pc + 3) % 0x10000] == 0xa9);
    assert(s2.1[(pc + 4) % 0x10000] == 0x00);
    assert(s2.1[(pc + 5) % 0x10000] == 0x68);
    lemma_step_is(s2, lda);
    let s3 = next_state(lda, s2.0, s2.1);
    lemma_immediate_effect(Op::Lda, s2.0, s2.1);
    assert(s3.0.pc == (pc + 5) % 0x10000);
    let pla = Instr { op: Op::Pla, mode: Mode::Implied };
    lemma_step_is(s3, pla);
    let s4 = next_state(pla, s3.0, s3.1);
    lemma_pla_effect(s3.0, s3.1);
    assert(s4.0.a == m);
    lemma_push_then_pull(reg, mem, m);
    lemma_wrap(pc, 5, 1);
    assert(run_state(s0, 4) == s4) by {
        reveal_with_fuel(run_state, 5);
    }
}

} // verus!
