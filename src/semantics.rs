//! The meaning of each instruction, as a function from the machine state
//! (registers and the 64 KiB of memory) to the next state.
use vstd::prelude::*;
use crate::instr::{Instr, Mode, Op, spec_decode};
use crate::mem::word;
use crate::reg::{Registers, StatusRegister};

verus! {

/// The machine state: registers and the byte at each address.
pub type State = (Registers, Seq<u8>);

/// The byte `k` places after the opcode at PC.
pub open spec fn arg(reg: Registers, mem: Seq<u8>, k: int) -> u8 {
    mem[(reg.pc + k) % 0x10000]
}

/// A branch offset byte as a signed number.
pub open spec fn sign_extend(b: u8) -> int {
    if b >= 0x80 {
        b - 256
    } else {
        b as int
    }
}

/// The word at zero-page address `p`, its high byte read with wrap-around
/// inside page zero.
pub open spec fn zp_word(mem: Seq<u8>, p: int) -> int {
    word(mem[p % 256], mem[(p + 1) % 256])
}

/// The effective address of an instruction's operand. For an immediate
/// operand this is the address of the byte after the opcode; modes without a
/// memory operand give 0.
pub open spec fn operand_addr(mode: Mode, reg: Registers, mem: Seq<u8>) -> int {
    let a1 = arg(reg, mem, 1);
    let a2 = arg(reg, mem, 2);
    match mode {
        Mode::Immediate => (reg.pc + 1) % 0x10000,
        Mode::ZeroPage => a1 as int,
        Mode::ZeroPageX => (a1 + reg.x) % 256,
        Mode::ZeroPageY => (a1 + reg.y) % 256,
        Mode::Absolute => word(a1, a2),
        Mode::AbsoluteX => (word(a1, a2) + reg.x) % 0x10000,
        Mode::AbsoluteY => (word(a1, a2) + reg.y) % 0x10000,
        Mode::IndirectX => zp_word(mem, a1 + reg.x),
        Mode::IndirectY => (zp_word(mem, a1 as int) + reg.y) % 0x10000,
        Mode::Indirect => {
            // The high byte is read from the same page as the low byte.
            let p = word(a1, a2);
            word(mem[p], mem[p - p % 256 + (p % 256 + 1) % 256])
        },
        _ => 0,
    }
}

/// Where a taken branch at PC goes.
pub open spec fn branch_target(reg: Registers, mem: Seq<u8>) -> int {
    (reg.pc + 2 + sign_extend(arg(reg, mem, 1))) % 0x10000
}

/// The state after pushing `v`: SP is decremented (modulo 256), then `v` is
/// written at $0100 + SP.
pub open spec fn pushed(reg: Registers, mem: Seq<u8>, v: u8) -> State {
    let s = (reg.sp % 256 + 255) % 256;
    (Registers { sp: s as u16, ..reg }, mem.update(0x100 + s, v))
}

/// The byte a pull reads: the one at $0100 + SP.
pub open spec fn top(reg: Registers, mem: Seq<u8>) -> u8 {
    mem[0x100 + reg.sp % 256]
}

/// The registers after a pull: SP incremented modulo 256.
pub open spec fn popped(reg: Registers) -> Registers {
    Registers { sp: ((reg.sp % 256 + 1) % 256) as u16, ..reg }
}

/// The result of the shift or rotate `op` on `v` with carry-in `c`.
pub open spec fn shifted(op: Op, v: u8, c: bool) -> u8 {
    match op {
        Op::Asl => v << 1,
        Op::Lsr => v >> 1,
        Op::Rol => (v << 1) | (if c {
            1u8
        } else {
            0u8
        }),
        _ => (v >> 1) | (if c {
            0x80u8
        } else {
            0u8
        }),
    }
}

/// The bit that the shift or rotate `op` moves into the carry.
pub open spec fn shifted_out(op: Op, v: u8) -> bool {
    match op {
        Op::Asl | Op::Rol => v & 0x80 == 0x80,
        _ => v & 1 == 1,
    }
}

/// Whether the conditional branch `op` is taken under the flags `sr`.
pub open spec fn branch_taken(op: Op, sr: StatusRegister) -> bool {
    match op {
        Op::Bpl => !sr.n,
        Op::Bmi => sr.n,
        Op::Bvc => !sr.v,
        Op::Bvs => sr.v,
        Op::Bcc => !sr.c,
        Op::Bcs => sr.c,
        Op::Bne => !sr.z,
        _ => sr.z,
    }
}

/// Operations that read an operand and change only registers.
pub open spec fn is_read(op: Op) -> bool {
    match op {
        Op::Adc | Op::Sbc | Op::And | Op::Ora | Op::Eor | Op::Cmp | Op::Cpx | Op::Cpy | Op::Bit
        | Op::Lda | Op::Ldx | Op::Ldy => true,
        _ => false,
    }
}

/// Operations that store a register.
pub open spec fn is_store(op: Op) -> bool {
    match op {
        Op::Sta | Op::Stx | Op::Sty => true,
        _ => false,
    }
}

/// The conditional branches.
pub open spec fn is_branch(op: Op) -> bool {
    match op {
        Op::Bpl | Op::Bmi | Op::Bvc | Op::Bvs | Op::Bcc | Op::Bcs | Op::Bne | Op::Beq => true,
        _ => false,
    }
}

/// Jumps, subroutine calls and returns.
pub open spec fn is_jump(op: Op) -> bool {
    match op {
        Op::Jmp | Op::Jsr | Op::Rts | Op::Rti => true,
        _ => false,
    }
}

/// Pushes and pulls of A and P.
pub open spec fn is_stack(op: Op) -> bool {
    match op {
        Op::Pha | Op::Php | Op::Pla | Op::Plp => true,
        _ => false,
    }
}

/// Whether executing `i` sets PC itself rather than stepping past the
/// instruction: jumps, calls, returns, and taken branches.
pub open spec fn sets_pc(i: Instr, reg: Registers) -> bool {
    is_jump(i.op) || (is_branch(i.op) && branch_taken(i.op, reg.sr))
}

/// The state after executing `i` (which is not BRK) at PC.
#[verifier::opaque]
pub open spec fn next_state(i: Instr, reg: Registers, mem: Seq<u8>) -> State {
    let ea = operand_addr(i.mode, reg, mem);
    let m = mem[ea];
    // the registers with PC moved past the instruction
    let r = Registers { pc: ((reg.pc + i.mode.length()) % 0x10000) as u16, ..reg };
    match i.op {
        Op::Adc => (r.spec_adc(m), mem),
        Op::Sbc => (r.spec_adc(!m), mem),
        Op::And => (r.with_a(reg.a & m), mem),
        Op::Ora => (r.with_a(reg.a | m), mem),
        Op::Eor => (r.with_a(reg.a ^ m), mem),
        Op::Cmp => (r.spec_cmp(reg.a, m), mem),
        Op::Cpx => (r.spec_cmp(reg.x, m), mem),
        Op::Cpy => (r.spec_cmp(reg.y, m), mem),
        Op::Bit => (
            Registers {
                sr: StatusRegister {
                    n: m & 0x80 != 0,
                    v: m & 0x40 != 0,
                    z: reg.a & m == 0,
                    ..reg.sr
                },
                ..r
            },
            mem,
        ),
        Op::Lda => (r.with_a(m), mem),
        Op::Ldx => (Registers { x: m, sr: reg.sr.with_nz(m), ..r }, mem),
        Op::Ldy => (Registers { y: m, sr: reg.sr.with_nz(m), ..r }, mem),
        Op::Sta => (r, mem.update(ea, reg.a)),
        Op::Stx => (r, mem.update(ea, reg.x)),
        Op::Sty => (r, mem.update(ea, reg.y)),
        Op::Inc => {
            let v = ((m + 1) % 256) as u8;
            (Registers { sr: reg.sr.with_nz(v), ..r }, mem.update(ea, v))
        },
        Op::Dec => {
            let v = ((m + 255) % 256) as u8;
            (Registers { sr: reg.sr.with_nz(v), ..r }, mem.update(ea, v))
        },
        Op::Asl | Op::Lsr | Op::Rol | Op::Ror => {
            if i.mode == Mode::Accumulator {
                let v = shifted(i.op, reg.a, reg.sr.c);
                (Registers { a: v, ..r.after_shift(shifted_out(i.op, reg.a), v) }, mem)
            } else {
                let v = shifted(i.op, m, reg.sr.c);
                (r.after_shift(shifted_out(i.op, m), v), mem.update(ea, v))
            }
        },
        Op::Bpl | Op::Bmi | Op::Bvc | Op::Bvs | Op::Bcc | Op::Bcs | Op::Bne | Op::Beq => {
            if branch_taken(i.op, reg.sr) {
                (Registers { pc: branch_target(reg, mem) as u16, ..reg }, mem)
            } else {
                (r, mem)
            }
        },
        Op::Jmp => (Registers { pc: ea as u16, ..reg }, mem),
        Op::Jsr => {
            // pushes the address of the instruction's last byte, high byte first
            let ret = (reg.pc + 2) % 0x10000;
            let (r1, m1) = pushed(reg, mem, (ret / 256) as u8);
            let (r2, m2) = pushed(r1, m1, (ret % 256) as u8);
            (Registers { pc: ea as u16, ..r2 }, m2)
        },
        Op::Rts => {
            let lo = top(reg, mem);
            let hi = top(popped(reg), mem);
            (
                Registers { pc: ((word(lo, hi) + 1) % 0x10000) as u16, ..popped(popped(reg)) },
                mem,
            )
        },
        Op::Rti => {
            let p = top(reg, mem);
            let lo = top(popped(reg), mem);
            let hi = top(popped(popped(reg)), mem);
            (
                Registers {
                    pc: word(lo, hi) as u16,
                    sr: reg.sr.unpacked(p),
                    ..popped(popped(popped(reg)))
                },
                mem,
            )
        },
        Op::Pha => pushed(r, mem, reg.a),
        Op::Php => pushed(r, mem, (StatusRegister { b: true, ..reg.sr }).packed()),
        Op::Pla => (popped(r).with_a(top(reg, mem)), mem),
        Op::Plp => (Registers { sr: reg.sr.unpacked(top(reg, mem)), ..popped(r) }, mem),
        Op::Tax => (Registers { x: reg.a, sr: reg.sr.with_nz(reg.a), ..r }, mem),
        Op::Tay => (Registers { y: reg.a, sr: reg.sr.with_nz(reg.a), ..r }, mem),
        Op::Txa => (r.with_a(reg.x), mem),
        Op::Tya => (r.with_a(reg.y), mem),
        Op::Tsx => {
            let v = (reg.sp % 256) as u8;
            (Registers { x: v, sr: reg.sr.with_nz(v), ..r }, mem)
        },
        Op::Txs => (Registers { sp: reg.x as u16, ..r }, mem),
        Op::Inx => {
            let v = ((reg.x + 1) % 256) as u8;
            (Registers { x: v, sr: reg.sr.with_nz(v), ..r }, mem)
        },
        Op::Iny => {
            let v = ((reg.y + 1) % 256) as u8;
            (Registers { y: v, sr: reg.sr.with_nz(v), ..r }, mem)
        },
        Op::Dex => {
            let v = ((reg.x + 255) % 256) as u8;
            (Registers { x: v, sr: reg.sr.with_nz(v), ..r }, mem)
        },
        Op::Dey => {
            let v = ((reg.y + 255) % 256) as u8;
            (Registers { y: v, sr: reg.sr.with_nz(v), ..r }, mem)
        },
        Op::Clc => (Registers { sr: StatusRegister { c: false, ..reg.sr }, ..r }, mem),
        Op::Sec => (Registers { sr: StatusRegister { c: true, ..reg.sr }, ..r }, mem),
        Op::Cli => (Registers { sr: StatusRegister { i: false, ..reg.sr }, ..r }, mem),
        Op::Sei => (Registers { sr: StatusRegister { i: true, ..reg.sr }, ..r }, mem),
        Op::Clv => (Registers { sr: StatusRegister { v: false, ..reg.sr }, ..r }, mem),
        Op::Cld => (Registers { sr: StatusRegister { d: false, ..reg.sr }, ..r }, mem),
        Op::Sed => (Registers { sr: StatusRegister { d: true, ..reg.sr }, ..r }, mem),
        Op::Nop => (r, mem),
        Op::Brk => (reg, mem),
    }
}

/// One instruction at PC: the next state, or `None` where execution halts
/// (BRK, or an opcode outside the documented set).
pub open spec fn step_state(s: State) -> Option<State> {
    match spec_decode(s.1[s.0.pc as int]) {
        Some(i) => if i.op == Op::Brk {
            None
        } else {
            Some(next_state(i, s.0, s.1))
        },
        None => None,
    }
}

/// The state after `n` instructions, or at the halt reached before them.
pub open spec fn run_state(s: State, n: nat) -> State
    decreases n,
{
    if n == 0 {
        s
    } else {
        match step_state(s) {
            Some(t) => run_state(t, (n - 1) as nat),
            None => s,
        }
    }
}

/// A halted state stays as it is.
pub proof fn lemma_run_halted(s: State, k: nat)
    requires
        step_state(s) is None,
    ensures
        run_state(s, k) == s,
{
}

/// Running `n` then `k` instructions is running `n + k`.
pub proof fn lemma_run_split(s: State, n: nat, k: nat)
    ensures
        run_state(s, n + k) == run_state(run_state(s, n), k),
    decreases n,
{
    if n > 0 {
        match step_state(s) {
            Some(t) => {
                lemma_run_split(t, (n - 1) as nat, k);
                assert((n + k - 1) as nat == (n - 1) as nat + k);
            },
            None => {
                lemma_run_halted(s, k);
            },
        }
    }
}

/// One more instruction after `n`.
pub proof fn lemma_run_next(s: State, n: nat)
    ensures
        step_state(run_state(s, n)) is Some ==> run_state(s, n + 1) == step_state(
            run_state(s, n),
        )->0,
{
    lemma_run_split(s, n, 1);
    let x = run_state(s, n);
    if step_state(x) is Some {
        assert(run_state(step_state(x)->0, 0) == step_state(x)->0);
    }
}

/// Once a run has halted, running longer changes nothing: a bound past
/// the halt gives the same state.
pub proof fn lemma_run_settles(s: State, n: nat, m: nat)
    requires
        n <= m,
        step_state(run_state(s, n)) is None,
    ensures
        run_state(s, m) == run_state(s, n),
{
    lemma_run_split(s, n, (m - n) as nat);
    lemma_run_halted(run_state(s, n), (m - n) as nat);
}

} // verus!
