//! The interpreter: fetch, decode and execute, one instruction at a time.
use vstd::prelude::*;
use crate::dbg::Dbg;
use crate::hexdump::{self, dump_text};
use crate::instr::{decode, spec_decode, Instr, Mode, Op};
use crate::mem::{word, Memory};
use crate::reg::{Registers, StatusRegister};
use crate::semantics::{
    arg, branch_target, is_branch, is_read, is_stack, is_store, next_state,
    operand_addr, popped, pushed, step_state, top, State, run_state, lemma_run_split,
    lemma_run_halted, lemma_run_next,
};

verus! {

/// Why execution stopped.
#[derive(Clone, Copy, Debug, PartialEq, Eq, Structural)]
pub enum Halt {
    /// BRK ($00) was reached; PC still points at it.
    Break,
    /// The probe asked to stop before the instruction at PC.
    Probe,
    /// The opcode at `pc` is not a documented instruction.
    Unsupported { opcode: u8, pc: u16 },
    /// The instruction budget given to the run was used up.
    Limit,
}

/// A 6502 processor together with the memory it owns.
pub struct Cpu {
    reg: Registers,
    mem: Memory,
}

impl View for Cpu {
    type V = State;

    /// The registers and the byte at each address.
    closed spec fn view(&self) -> State {
        (self.reg, self.mem@)
    }
}

impl Default for Cpu {
    /// A processor in its reset state with memory that reads zero everywhere.
    fn default() -> (r: Self)
        ensures
            r@.0 == Registers::reset(),
            forall|i: int| 0 <= i < 0x10000 ==> #[trigger] r@.1[i] == 0u8,
    {
        Cpu::new(Memory::default())
    }
}

impl Cpu {
    /// A processor in its reset state that owns `mem`.
    pub fn new(mem: Memory) -> (r: Self)
        ensures
            r@.0 == Registers::reset(),
            r@.1 == mem@,
    {
        Self { mem, reg: Registers::default() }
    }

    /// Sets the program counter.
    pub fn set_pc(&mut self, pc: u16)
        ensures
            final(self)@ == (Registers { pc: pc, ..old(self)@.0 }, old(self)@.1),
    {
        self.reg.pc = pc;
    }

    /// The memory.
    pub fn get_mem(&self) -> (r: &Memory)
        ensures
            r@ == self@.1,
    {
        &self.mem
    }

    /// The memory dump text: a line `XXXX: bb bb ...` for each 16-byte
    /// chunk of memory that is not all zero.
    pub fn dump_mem(&self) -> (r: Vec<u8>)
        ensures
            r@ == dump_text(self@.1, 0),
    {
        hexdump::dump(self.get_mem().get())
    }

    /// The registers.
    pub fn get_reg(&self) -> (r: &Registers)
        ensures
            *r == self@.0,
    {
        &self.reg
    }

    /// The byte `k` places after the opcode at PC.
    fn arg(&self, k: u16) -> (r: u8)
        ensures
            r == arg(self@.0, self@.1, k as int),
    {
        self.mem.load(self.reg.pc.wrapping_add(k))
    }

    /// The byte after the opcode.
    fn load_immediate(&self) -> (r: u8)
        ensures
            r == arg(self@.0, self@.1, 1),
    {
        self.arg(1)
    }

    fn addr_zeropage(&self) -> (r: u8)
        ensures
            r == operand_addr(Mode::ZeroPage, self@.0, self@.1),
    {
        self.load_immediate()
    }

    fn addr_zeropage_x(&self) -> (r: u8)
        ensures
            r == operand_addr(Mode::ZeroPageX, self@.0, self@.1),
    {
        self.load_immediate().wrapping_add(self.reg.x)
    }

    fn addr_zeropage_y(&self) -> (r: u8)
        ensures
            r == operand_addr(Mode::ZeroPageY, self@.0, self@.1),
    {
        self.load_immediate().wrapping_add(self.reg.y)
    }

    fn addr_absolute(&self) -> (r: u16)
        ensures
            r == operand_addr(Mode::Absolute, self@.0, self@.1),
    {
        let lo = self.arg(1) as u16;
        let hi = self.arg(2) as u16;
        lo + hi * 256
    }

    fn addr_absolute_x(&self) -> (r: u16)
        ensures
            r == operand_addr(Mode::AbsoluteX, self@.0, self@.1),
    {
        self.addr_absolute().wrapping_add(self.reg.x as u16)
    }

    fn addr_absolute_y(&self) -> (r: u16)
        ensures
            r == operand_addr(Mode::AbsoluteY, self@.0, self@.1),
    {
        self.addr_absolute().wrapping_add(self.reg.y as u16)
    }

    /// The word at zero-page address `p`, wrapping within page zero.
    fn load_zp16(&self, p: u8) -> (r: u16)
        ensures
            r == crate::semantics::zp_word(self@.1, p as int),
    {
        let lo = self.mem.load(p as u16) as u16;
        let hi = self.mem.load(p.wrapping_add(1) as u16) as u16;
        lo + hi * 256
    }

    fn addr_indirect_x(&self) -> (r: u16)
        ensures
            r == operand_addr(Mode::IndirectX, self@.0, self@.1),
    {
        let p = self.load_immediate().wrapping_add(self.reg.x);
        let r = self.load_zp16(p);
        assert(crate::semantics::zp_word(self@.1, p as int) == crate::semantics::zp_word(
            self@.1,
            arg(self@.0, self@.1, 1) + self.reg.x,
        ));
        r
    }

    fn addr_indirect_y(&self) -> (r: u16)
        ensures
            r == operand_addr(Mode::IndirectY, self@.0, self@.1),
    {
        let p = self.load_immediate();
        self.load_zp16(p).wrapping_add(self.reg.y as u16)
    }

    /// JMP's indirect target: the high byte is read from the same page as
    /// the low byte.
    fn addr_indirect(&self) -> (r: u16)
        ensures
            r == operand_addr(Mode::Indirect, self@.0, self@.1),
    {
        let p = self.addr_absolute();
        let hi_addr = p - p % 256 + (p % 256 + 1) % 256;
        let lo = self.mem.load(p) as u16;
        let hi = self.mem.load(hi_addr) as u16;
        lo + hi * 256
    }

    /// The effective address of the operand in `mode`.
    fn effective_addr(&self, mode: Mode) -> (r: u16)
        ensures
            r == operand_addr(mode, self@.0, self@.1),
    {
        match mode {
            Mode::Immediate => self.reg.pc.wrapping_add(1),
            Mode::ZeroPage => self.addr_zeropage() as u16,
            Mode::ZeroPageX => self.addr_zeropage_x() as u16,
            Mode::ZeroPageY => self.addr_zeropage_y() as u16,
            Mode::Absolute => self.addr_absolute(),
            Mode::AbsoluteX => self.addr_absolute_x(),
            Mode::AbsoluteY => self.addr_absolute_y(),
            Mode::IndirectX => self.addr_indirect_x(),
            Mode::IndirectY => self.addr_indirect_y(),
            Mode::Indirect => self.addr_indirect(),
            _ => 0,
        }
    }

    /// Pushes `v` onto the stack.
    fn push_stack(&mut self, v: u8)
        ensures
            final(self)@ == pushed(old(self)@.0, old(self)@.1, v),
    {
        let cur = (self.reg.sp % 256) as u8;
        let s = cur.wrapping_sub(1);
        self.reg.sp = s as u16;
        self.mem.store(0x100 + s as u16, v);
    }

    /// Pulls a byte from the stack.
    fn pop_stack(&mut self) -> (r: u8)
        ensures
            r == top(old(self)@.0, old(self)@.1),
            final(self)@ == (popped(old(self)@.0), old(self)@.1),
    {
        let cur = self.reg.sp % 256;
        let ret = self.mem.load(0x100 + cur);
        self.reg.sp = (cur + 1) % 256;
        ret
    }

    /// Pushes a word, high byte first.
    fn push_stack16(&mut self, w: u16)
        ensures
            final(self)@ == ({
                let (r1, m1) = pushed(old(self)@.0, old(self)@.1, (w / 256) as u8);
                pushed(r1, m1, (w % 256) as u8)
            }),
    {
        self.push_stack((w / 256) as u8);
        self.push_stack((w % 256) as u8);
    }

    /// Pulls a word, low byte first.
    fn pop_stack16(&mut self) -> (r: u16)
        ensures
            r == word(top(old(self)@.0, old(self)@.1), top(popped(old(self)@.0), old(self)@.1)),
            final(self)@ == (popped(popped(old(self)@.0)), old(self)@.1),
    {
        let lo = self.pop_stack() as u16;
        let hi = self.pop_stack() as u16;
        lo + hi * 256
    }

    /// Moves PC past an instruction in `mode`.
    fn advance(&mut self, mode: Mode)
        ensures
            final(self)@ == (
                Registers { pc: ((old(self)@.0.pc + mode.length()) % 0x10000) as u16, ..old(self)@.0 },
                old(self)@.1,
            ),
    {
        self.reg.pc = self.reg.pc.wrapping_add(mode.len());
    }

    /// Executes an instruction that reads an operand into the ALU.
    fn exec_read(&mut self, i: Instr)
        requires
            is_read(i.op),
        ensures
            final(self)@ == next_state(i, old(self)@.0, old(self)@.1),
    {
        proof {
            reveal(next_state);
        }
        let ea = self.effective_addr(i.mode);
        let m = self.mem.load(ea);
        match i.op {
            Op::Adc => self.reg.adc(m),
            Op::Sbc => self.reg.sbc(m),
            Op::And => self.reg.and(m),
            Op::Ora => self.reg.ora(m),
            Op::Eor => self.reg.eor(m),
            Op::Cmp => {
                let a = self.reg.a;
                self.reg.cmp(a, m)
            },
            Op::Cpx => {
                let x = self.reg.x;
                self.reg.cmp(x, m)
            },
            Op::Cpy => {
                let y = self.reg.y;
                self.reg.cmp(y, m)
            },
            Op::Bit => self.reg.bit(m),
            Op::Lda => self.reg.lda(m),
            Op::Ldx => self.reg.ldx(m),
            _ => self.reg.ldy(m),
        }
        self.advance(i.mode);
    }

    /// Executes STA, STX or STY.
    fn exec_store(&mut self, i: Instr)
        requires
            is_store(i.op),
        ensures
            final(self)@ == next_state(i, old(self)@.0, old(self)@.1),
    {
        proof {
            reveal(next_state);
        }
        let ea = self.effective_addr(i.mode);
        let v = match i.op {
            Op::Sta => self.reg.a,
            Op::Stx => self.reg.x,
            _ => self.reg.y,
        };
        self.mem.store(ea, v);
        self.advance(i.mode);
    }

    /// Executes INC or DEC on the operand in memory.
    fn exec_inc_dec(&mut self, i: Instr)
        requires
            i.op == Op::Inc || i.op == Op::Dec,
        ensures
            final(self)@ == next_state(i, old(self)@.0, old(self)@.1),
    {
        proof {
            reveal(next_state);
        }
        let ea = self.effective_addr(i.mode);
        let v = self.mem.load(ea);
        let r = if i.op == Op::Inc {
            ((v as u16 + 1) % 256) as u8
        } else {
            ((v as u16 + 255) % 256) as u8
        };
        self.reg.sr.update_nz(r);
        self.mem.store(ea, r);
        self.advance(i.mode);
    }

    /// Executes a shift or rotate, on A in accumulator mode and on the
    /// operand in memory otherwise.
    fn exec_shift(&mut self, i: Instr)
        requires
            i.op == Op::Asl || i.op == Op::Lsr || i.op == Op::Rol || i.op == Op::Ror,
        ensures
            final(self)@ == next_state(i, old(self)@.0, old(self)@.1),
    {
        proof {
            reveal(next_state);
        }
        let ea = self.effective_addr(i.mode);
        let acc = i.mode == Mode::Accumulator;
        let v = if acc {
            self.reg.a
        } else {
            self.mem.load(ea)
        };
        let r = match i.op {
            Op::Asl => self.reg.asl(v),
            Op::Lsr => self.reg.lsr(v),
            Op::Rol => self.reg.rol(v),
            _ => self.reg.ror(v),
        };
        if acc {
            self.reg.a = r;
        } else {
            self.mem.store(ea, r);
        }
        self.advance(i.mode);
    }

    /// PC <- PC + 2 + the signed offset after the opcode.
    fn branch_relative(&mut self)
        ensures
            final(self)@ == (
                Registers { pc: branch_target(old(self)@.0, old(self)@.1) as u16, ..old(self)@.0 },
                old(self)@.1,
            ),
    {
        let offs = self.load_immediate();
        let next = self.reg.pc.wrapping_add(2);
        if offs >= 0x80 {
            self.reg.pc = next.wrapping_add(offs as u16).wrapping_sub(0x100);
        } else {
            self.reg.pc = next.wrapping_add(offs as u16);
        }
    }

    /// Executes a conditional branch.
    fn exec_branch(&mut self, i: Instr)
        requires
            is_branch(i.op),
        ensures
            final(self)@ == next_state(i, old(self)@.0, old(self)@.1),
    {
        proof {
            reveal(next_state);
        }
        let sr = self.reg.sr;
        let taken = match i.op {
            Op::Bpl => !sr.n,
            Op::Bmi => sr.n,
            Op::Bvc => !sr.v,
            Op::Bvs => sr.v,
            Op::Bcc => !sr.c,
            Op::Bcs => sr.c,
            Op::Bne => !sr.z,
            _ => sr.z,
        };
        if taken {
            self.branch_relative();
        } else {
            self.advance(i.mode);
        }
    }

    /// Executes JMP or JSR.
    fn exec_jump(&mut self, i: Instr)
        requires
            i.op == Op::Jmp || i.op == Op::Jsr,
        ensures
            final(self)@ == next_state(i, old(self)@.0, old(self)@.1),
    {
        proof {
            reveal(next_state);
        }
        let target = self.effective_addr(i.mode);
        if i.op == Op::Jsr {
            let ret = ((self.reg.pc as u32 + 2) % 0x10000) as u16;
            self.push_stack16(ret);
        }
        self.reg.pc = target;
    }

    /// Executes RTS or RTI.
    fn exec_return(&mut self, i: Instr)
        requires
            i.op == Op::Rts || i.op == Op::Rti,
        ensures
            final(self)@ == next_state(i, old(self)@.0, old(self)@.1),
    {
        proof {
            reveal(next_state);
        }
        if i.op == Op::Rts {
            let w = self.pop_stack16();
            self.reg.pc = ((w as u32 + 1) % 0x10000) as u16;
        } else {
            let p = self.pop_stack();
            self.reg.sr.set_from_u8(p);
            self.reg.pc = self.pop_stack16();
        }
    }

    /// Executes PHA, PHP, PLA or PLP.
    fn exec_stack(&mut self, i: Instr)
        requires
            is_stack(i.op),
        ensures
            final(self)@ == next_state(i, old(self)@.0, old(self)@.1),
    {
        proof {
            reveal(next_state);
        }
        self.advance(i.mode);
        match i.op {
            Op::Pha => {
                let a = self.reg.a;
                self.push_stack(a);
            },
            Op::Php => {
                let p = StatusRegister { b: true, ..self.reg.sr }.to_u8();
                self.push_stack(p);
            },
            Op::Pla => {
                let v = self.pop_stack();
                self.reg.lda(v);
            },
            _ => {
                let v = self.pop_stack();
                self.reg.sr.set_from_u8(v);
            },
        }
    }

    /// Executes a register transfer.
    fn exec_transfer(&mut self, i: Instr)
        requires
            i.op == Op::Tax || i.op == Op::Tay || i.op == Op::Txa || i.op == Op::Tya || i.op
                == Op::Tsx || i.op == Op::Txs,
        ensures
            final(self)@ == next_state(i, old(self)@.0, old(self)@.1),
    {
        proof {
            reveal(next_state);
        }
        match i.op {
            Op::Tax => {
                self.reg.x = self.reg.a;
                self.reg.sr.update_nz(self.reg.x);
            },
            Op::Tay => {
                self.reg.y = self.reg.a;
                self.reg.sr.update_nz(self.reg.y);
            },
            Op::Txa => {
                self.reg.a = self.reg.x;
                self.reg.sr.update_nz(self.reg.a);
            },
            Op::Tya => {
                self.reg.a = self.reg.y;
                self.reg.sr.update_nz(self.reg.a);
            },
            Op::Tsx => {
                self.reg.x = (self.reg.sp % 256) as u8;
                self.reg.sr.update_nz(self.reg.x);
            },
            _ => {
                self.reg.sp = self.reg.x as u16;
            },
        }
        self.advance(i.mode);
    }

    /// Executes INX, INY, DEX or DEY.
    fn exec_count(&mut self, i: Instr)
        requires
            i.op == Op::Inx || i.op == Op::Iny || i.op == Op::Dex || i.op == Op::Dey,
        ensures
            final(self)@ == next_state(i, old(self)@.0, old(self)@.1),
    {
        proof {
            reveal(next_state);
        }
        match i.op {
            Op::Inx => {
                self.reg.x = ((self.reg.x as u16 + 1) % 256) as u8;
                self.reg.sr.update_nz(self.reg.x);
            },
            Op::Iny => {
                self.reg.y = ((self.reg.y as u16 + 1) % 256) as u8;
                self.reg.sr.update_nz(self.reg.y);
            },
            Op::Dex => {
                self.reg.x = ((self.reg.x as u16 + 255) % 256) as u8;
                self.reg.sr.update_nz(self.reg.x);
            },
            _ => {
                self.reg.y = ((self.reg.y as u16 + 255) % 256) as u8;
                self.reg.sr.update_nz(self.reg.y);
            },
        }
        self.advance(i.mode);
    }

    /// Executes a flag set or clear, or NOP.
    fn exec_flag(&mut self, i: Instr)
        requires
            i.op == Op::Clc || i.op == Op::Sec || i.op == Op::Cli || i.op == Op::Sei || i.op
                == Op::Clv || i.op == Op::Cld || i.op == Op::Sed || i.op == Op::Nop,
        ensures
            final(self)@ == next_state(i, old(self)@.0, old(self)@.1),
    {
        proof {
            reveal(next_state);
        }
        match i.op {
            Op::Clc => {
                self.reg.sr.c = false;
            },
            Op::Sec => {
                self.reg.sr.c = true;
            },
            Op::Cli => {
                self.reg.sr.i = false;
            },
            Op::Sei => {
                self.reg.sr.i = true;
            },
            Op::Clv => {
                self.reg.sr.v = false;
            },
            Op::Cld => {
                self.reg.sr.d = false;
            },
            Op::Sed => {
                self.reg.sr.d = true;
            },
            _ => {},
        }
        self.advance(i.mode);
    }

    /// Executes the instruction `opc`, the opcode at PC. BRK ($00) and
    /// opcodes outside the documented set change nothing and report why
    /// execution stops.
    fn dispatch_opcode(&mut self, opc: u8) -> (r: Option<Halt>)
        requires
            opc == old(self)@.1[old(self)@.0.pc as int],
        ensures
            r == match spec_decode(opc) {
                Some(i) => if i.op == Op::Brk {
                    Some(Halt::Break)
                } else {
                    None
                },
                None => Some(Halt::Unsupported { opcode: opc, pc: old(self)@.0.pc }),
            },
            r is None ==> step_state(old(self)@) == Some(final(self)@),
            r is Some ==> step_state(old(self)@) is None && final(self)@ == old(self)@,
    {
        let i = match decode(opc) {
            Some(i) => i,
            None => {
                return Some(Halt::Unsupported { opcode: opc, pc: self.reg.pc });
            },
        };
        match i.op {
            Op::Brk => {
                // BRK halts the run here; a hardware BRK would instead push
                // PC + 2 and P (with B set), set I, and jump through $FFFE.
                return Some(Halt::Break);
            },
            Op::Adc | Op::Sbc | Op::And | Op::Ora | Op::Eor | Op::Cmp | Op::Cpx | Op::Cpy
            | Op::Bit | Op::Lda | Op::Ldx | Op::Ldy => self.exec_read(i),
            Op::Sta | Op::Stx | Op::Sty => self.exec_store(i),
            Op::Inc | Op::Dec => self.exec_inc_dec(i),
            Op::Asl | Op::Lsr | Op::Rol | Op::Ror => self.exec_shift(i),
            Op::Bpl | Op::Bmi | Op::Bvc | Op::Bvs | Op::Bcc | Op::Bcs | Op::Bne | Op::Beq => {
                self.exec_branch(i)
            },
            Op::Jmp | Op::Jsr => self.exec_jump(i),
            Op::Rts | Op::Rti => self.exec_return(i),
            Op::Pha | Op::Php | Op::Pla | Op::Plp => self.exec_stack(i),
            Op::Tax | Op::Tay | Op::Txa | Op::Tya | Op::Tsx | Op::Txs => self.exec_transfer(i),
            Op::Inx | Op::Iny | Op::Dex | Op::Dey => self.exec_count(i),
            _ => self.exec_flag(i),
        }
        None
    }

    /// Executes the instruction at PC. Returns `None` when execution can go
    /// on, and the reason when it halts (BRK, or an undocumented opcode), in
    /// which case nothing changed.
    pub fn execute(&mut self) -> (r: Option<Halt>)
        ensures
            r is None <==> step_state(old(self)@) is Some,
            r is None ==> step_state(old(self)@) == Some(final(self)@),
            r is Some ==> final(self)@ == old(self)@,
            r == Some(Halt::Break) <==> spec_decode(old(self)@.1[old(self)@.0.pc as int])
                == Some(Instr { op: Op::Brk, mode: Mode::Implied }),
            r == Some(Halt::Unsupported { opcode: old(self)@.1[old(self)@.0.pc as int], pc: old(self)@.0.pc })
                <==> spec_decode(old(self)@.1[old(self)@.0.pc as int]) is None,
            r is Some ==> r == Some(Halt::Break) || r matches Some(Halt::Unsupported { .. }),
    {
        let opc = self.mem.load(self.reg.pc);
        self.dispatch_opcode(opc)
    }

    /// One step of a run: the probe first, then the instruction at PC unless
    /// the probe asked to stop. Returns the reason to stop, if any.
    pub fn step<D: Dbg>(&mut self, probe: &mut D) -> (r: Option<Halt>)
        ensures
            r != Some(Halt::Probe) ==> exists|s: State|
                {
                    &&& r is None ==> step_state(s) == Some(final(self)@)
                    &&& r is Some ==> step_state(s) is None && final(self)@ == s
                    &&& r == Some(Halt::Break) ==> spec_decode(s.1[s.0.pc as int]) == Some(
                        Instr { op: Op::Brk, mode: Mode::Implied },
                    )
                    &&& r matches Some(Halt::Unsupported { opcode, pc }) ==> pc == s.0.pc
                        && opcode == s.1[pc as int] && spec_decode(opcode) is None
                },
            r != Some(Halt::Limit),
            old(probe).passive() ==> {
                &&& r != Some(Halt::Probe)
                &&& final(probe).passive()
                &&& r is None ==> step_state(old(self)@) == Some(final(self)@)
                &&& r is Some ==> step_state(old(self)@) is None && final(self)@ == old(self)@
            },
    {
        if probe.step(&mut self.reg, &mut self.mem) {
            return Some(Halt::Probe);
        }
        let ghost s = self@;
        let r = self.execute();
        assert(r != Some(Halt::Probe) ==> {
            &&& r is None ==> step_state(s) == Some(self@)
            &&& r is Some ==> step_state(s) is None && self@ == s
            &&& r == Some(Halt::Break) ==> spec_decode(s.1[s.0.pc as int]) == Some(
                Instr { op: Op::Brk, mode: Mode::Implied },
            )
            &&& r matches Some(Halt::Unsupported { opcode, pc }) ==> pc == s.0.pc && opcode
                == s.1[pc as int] && spec_decode(opcode) is None
        });
        r
    }

    /// Runs at most `max` steps (probe, then instruction). Returns why the
    /// run stopped; `Halt::Limit` when all `max` steps ran. With a probe that
    /// leaves the machine alone, the run is exactly `run_state`: it ends in
    /// the state reached after `max` instructions, or at the first halt
    /// (BRK or an undocumented opcode) before that.
    pub fn run_for<D: Dbg>(&mut self, probe: &mut D, max: u64) -> (r: Halt)
        ensures
            r == Halt::Break ==> spec_decode(final(self)@.1[final(self)@.0.pc as int]) == Some(
                Instr { op: Op::Brk, mode: Mode::Implied },
            ),
            r matches Halt::Unsupported { opcode, pc } ==> pc == final(self)@.0.pc && opcode
                == final(self)@.1[pc as int] && spec_decode(opcode) is None,
            old(probe).passive() ==> r != Halt::Probe,
            old(probe).passive() ==> final(probe).passive(),
            old(probe).passive() ==> final(self)@ == run_state(old(self)@, max as nat),
            old(probe).passive() ==> exists|n: nat|
                n <= max && final(self)@ == #[trigger] run_state(old(self)@, n) && (r
                    != Halt::Limit ==> step_state(final(self)@) is None),
            old(probe).passive() && r == Halt::Limit ==> forall|k: nat|
                k < max ==> (#[trigger] step_state(run_state(old(self)@, k))) is Some,
    {
        let ghost s0 = self@;
        let mut n: u64 = 0;
        while n < max
            invariant
                n <= max,
                s0 == old(self)@,
                old(probe).passive() ==> probe.passive() && self@ == run_state(s0, n as nat),
                old(probe).passive() ==> forall|k: nat|
                    k < n ==> (#[trigger] step_state(run_state(s0, k))) is Some,
            decreases max - n,
        {
            let ghost before = self@;
            let res = self.step(probe);
            match res {
                Some(h) => {
                    proof {
                        if old(probe).passive() {
                            lemma_run_split(s0, n as nat, (max - n) as nat);
                            lemma_run_halted(before, (max - n) as nat);
                            assert(n as nat + (max - n) as nat == max as nat);
                            assert(run_state(s0, max as nat) == self@);
                            assert(run_state(s0, n as nat) == self@);
                            let w = n as nat;
                            assert(w <= max && self@ == run_state(s0, w) && (h != Halt::Limit
                                ==> step_state(self@) is None));
                        }
                    }
                    return h;
                },
                None => {},
            }
            proof {
                if old(probe).passive() {
                    lemma_run_next(s0, n as nat);
                    assert(step_state(run_state(s0, n as nat)) is Some);
                }
            }
            n = n + 1;
        }
        proof {
            if old(probe).passive() {
                assert(run_state(s0, max as nat) == self@);
            }
        }
        Halt::Limit
    }

    /// Runs until BRK, an undocumented opcode, or the probe's request to
    /// stop. The run is cut off after `u64::MAX` steps, which no program
    /// reaches in practice. With a probe that leaves the machine alone, the
    /// run is exactly `run_state`.
    pub fn run<D: Dbg>(&mut self, probe: &mut D) -> (r: Halt)
        ensures
            r == Halt::Break ==> spec_decode(final(self)@.1[final(self)@.0.pc as int]) == Some(
                Instr { op: Op::Brk, mode: Mode::Implied },
            ),
            r matches Halt::Unsupported { opcode, pc } ==> pc == final(self)@.0.pc && opcode
                == final(self)@.1[pc as int] && spec_decode(opcode) is None,
            old(probe).passive() ==> r != Halt::Probe,
            old(probe).passive() ==> final(probe).passive(),
            old(probe).passive() ==> final(self)@ == run_state(old(self)@, u64::MAX as nat),
            old(probe).passive() ==> exists|n: nat|
                n <= u64::MAX && final(self)@ == #[trigger] run_state(old(self)@, n) && (r
                    != Halt::Limit ==> step_state(final(self)@) is None),
            old(probe).passive() && r == Halt::Limit ==> forall|k: nat|
                k < u64::MAX ==> (#[trigger] step_state(run_state(old(self)@, k))) is Some,
    {
        self.run_for(probe, u64::MAX)
    }
}

} // verus!
