//! The instruction set: operations, addressing modes, and the opcode table
//! of the documented NMOS 6502 instructions.
use vstd::prelude::*;

verus! {

/// An operation, named by its assembler mnemonic.
#[derive(Clone, Copy, Debug, PartialEq, Eq, Structural)]
pub enum Op {
    Adc,
    And,
    Asl,
    Bcc,
    Bcs,
    Beq,
    Bit,
    Bmi,
    Bne,
    Bpl,
    Brk,
    Bvc,
    Bvs,
    Clc,
    Cld,
    Cli,
    Clv,
    Cmp,
    Cpx,
    Cpy,
    Dec,
    Dex,
    Dey,
    Eor,
    Inc,
    Inx,
    Iny,
    Jmp,
    Jsr,
    Lda,
    Ldx,
    Ldy,
    Lsr,
    Nop,
    Ora,
    Pha,
    Php,
    Pla,
    Plp,
    Rol,
    Ror,
    Rti,
    Rts,
    Sbc,
    Sec,
    Sed,
    Sei,
    Sta,
    Stx,
    Sty,
    Tax,
    Tay,
    Tsx,
    Txa,
    Txs,
    Tya,
}

/// How an instruction finds its operand.
#[derive(Clone, Copy, Debug, PartialEq, Eq, Structural)]
pub enum Mode {
    /// No operand.
    Implied,
    /// The accumulator.
    Accumulator,
    /// The byte after the opcode.
    Immediate,
    /// A zero-page address.
    ZeroPage,
    /// A zero-page address plus X, wrapping within page zero.
    ZeroPageX,
    /// A zero-page address plus Y, wrapping within page zero.
    ZeroPageY,
    /// A 16-bit address.
    Absolute,
    /// A 16-bit address plus X.
    AbsoluteX,
    /// A 16-bit address plus Y.
    AbsoluteY,
    /// The word at a zero-page address plus X.
    IndirectX,
    /// The word at a zero-page address, plus Y.
    IndirectY,
    /// A signed branch offset.
    Relative,
    /// The word at a 16-bit address (JMP only).
    Indirect,
}

/// A decoded instruction.
#[derive(Clone, Copy, Debug, PartialEq, Eq, Structural)]
pub struct Instr {
    pub op: Op,
    pub mode: Mode,
}

impl Mode {
    /// The length in bytes of an instruction in this mode.
    pub open spec fn length(self) -> nat {
        match self {
            Mode::Implied | Mode::Accumulator => 1,
            Mode::Absolute | Mode::AbsoluteX | Mode::AbsoluteY | Mode::Indirect => 3,
            _ => 2,
        }
    }

    /// The length in bytes of an instruction in this mode.
    pub fn len(self) -> (r: u16)
        ensures
            r == self.length(),
    {
        match self {
            Mode::Implied | Mode::Accumulator => 1,
            Mode::Absolute | Mode::AbsoluteX | Mode::AbsoluteY | Mode::Indirect => 3,
            _ => 2,
        }
    }
}

/// The instruction that opcode `opc` stands for, if it is a documented one.
pub open spec fn spec_decode(opc: u8) -> Option<Instr> {
    match opc {
        0x00 => Some(Instr { op: Op::Brk, mode: Mode::Implied }),
        0x01 => Some(Instr { op: Op::Ora, mode: Mode::IndirectX }),
        0x05 => Some(Instr { op: Op::Ora, mode: Mode::ZeroPage }),
        0x06 => Some(Instr { op: Op::Asl, mode: Mode::ZeroPage }),
        0x08 => Some(Instr { op: Op::Php, mode: Mode::Implied }),
        0x09 => Some(Instr { op: Op::Ora, mode: Mode::Immediate }),
        0x0a => Some(Instr { op: Op::Asl, mode: Mode::Accumulator }),
        0x0d => Some(Instr { op: Op::Ora, mode: Mode::Absolute }),
        0x0e => Some(Instr { op: Op::Asl, mode: Mode::Absolute }),
        0x10 => Some(Instr { op: Op::Bpl, mode: Mode::Relative }),
        0x11 => Some(Instr { op: Op::Ora, mode: Mode::IndirectY }),
        0x15 => Some(Instr { op: Op::Ora, mode: Mode::ZeroPageX }),
        0x16 => Some(Instr { op: Op::Asl, mode: Mode::ZeroPageX }),
        0x18 => Some(Instr { op: Op::Clc, mode: Mode::Implied }),
        0x19 => Some(Instr { op: Op::Ora, mode: Mode::AbsoluteY }),
        0x1d => Some(Instr { op: Op::Ora, mode: Mode::AbsoluteX }),
        0x1e => Some(Instr { op: Op::Asl, mode: Mode::AbsoluteX }),
        0x20 => Some(Instr { op: Op::Jsr, mode: Mode::Absolute }),
        0x21 => Some(Instr { op: Op::And, mode: Mode::IndirectX }),
        0x24 => Some(Instr { op: Op::Bit, mode: Mode::ZeroPage }),
        0x25 => Some(Instr { op: Op::And, mode: Mode::ZeroPage }),
        0x26 => Some(Instr { op: Op::Rol, mode: Mode::ZeroPage }),
        0x28 => Some(Instr { op: Op::Plp, mode: Mode::Implied }),
        0x29 => Some(Instr { op: Op::And, mode: Mode::Immediate }),
        0x2a => Some(Instr { op: Op::Rol, mode: Mode::Accumulator }),
        0x2c => Some(Instr { op: Op::Bit, mode: Mode::Absolute }),
        0x2d => Some(Instr { op: Op::And, mode: Mode::Absolute }),
        0x2e => Some(Instr { op: Op::Rol, mode: Mode::Absolute }),
        0x30 => Some(Instr { op: Op::Bmi, mode: Mode::Relative }),
        0x31 => Some(Instr { op: Op::And, mode: Mode::IndirectY }),
        0x35 => Some(Instr { op: Op::And, mode: Mode::ZeroPageX }),
        0x36 => Some(Instr { op: Op::Rol, mode: Mode::ZeroPageX }),
        0x38 => Some(Instr { op: Op::Sec, mode: Mode::Implied }),
        0x39 => Some(Instr { op: Op::And, mode: Mode::AbsoluteY }),
        0x3d => Some(Instr { op: Op::And, mode: Mode::AbsoluteX }),
        0x3e => Some(Instr { op: Op::Rol, mode: Mode::AbsoluteX }),
        0x40 => Some(Instr { op: Op::Rti, mode: Mode::Implied }),
        0x41 => Some(Instr { op: Op::Eor, mode: Mode::IndirectX }),
        0x45 => Some(Instr { op: Op::Eor, mode: Mode::ZeroPage }),
        0x46 => Some(Instr { op: Op::Lsr, mode: Mode::ZeroPage }),
        0x48 => Some(Instr { op: Op::Pha, mode: Mode::Implied }),
        0x49 => Some(Instr { op: Op::Eor, mode: Mode::Immediate }),
        0x4a => Some(Instr { op: Op::Lsr, mode: Mode::Accumulator }),
        0x4c => Some(Instr { op: Op::Jmp, mode: Mode::Absolute }),
        0x4d => Some(Instr { op: Op::Eor, mode: Mode::Absolute }),
        0x4e => Some(Instr { op: Op::Lsr, mode: Mode::Absolute }),
        0x50 => Some(Instr { op: Op::Bvc, mode: Mode::Relative }),
        0x51 => Some(Instr { op: Op::Eor, mode: Mode::IndirectY }),
        0x55 => Some(Instr { op: Op::Eor, mode: Mode::ZeroPageX }),
        0x56 => Some(Instr { op: Op::Lsr, mode: Mode::ZeroPageX }),
        0x58 => Some(Instr { op: Op::Cli, mode: Mode::Implied }),
        0x59 => Some(Instr { op: Op::Eor, mode: Mode::AbsoluteY }),
        0x5d => Some(Instr { op: Op::Eor, mode: Mode::AbsoluteX }),
        0x5e => Some(Instr { op: Op::Lsr, mode: Mode::AbsoluteX }),
        0x60 => Some(Instr { op: Op::Rts, mode: Mode::Implied }),
        0x61 => Some(Instr { op: Op::Adc, mode: Mode::IndirectX }),
        0x65 => Some(Instr { op: Op::Adc, mode: Mode::ZeroPage }),
        0x66 => Some(Instr { op: Op::Ror, mode: Mode::ZeroPage }),
        0x68 => Some(Instr { op: Op::Pla, mode: Mode::Implied }),
        0x69 => Some(Instr { op: Op::Adc, mode: Mode::Immediate }),
        0x6a => Some(Instr { op: Op::Ror, mode: Mode::Accumulator }),
        0x6c => Some(Instr { op: Op::Jmp, mode: Mode::Indirect }),
        0x6d => Some(Instr { op: Op::Adc, mode: Mode::Absolute }),
        0x6e => Some(Instr { op: Op::Ror, mode: Mode::Absolute }),
        0x70 => Some(Instr { op: Op::Bvs, mode: Mode::Relative }),
        0x71 => Some(Instr { op: Op::Adc, mode: Mode::IndirectY }),
        0x75 => Some(Instr { op: Op::Adc, mode: Mode::ZeroPageX }),
        0x76 => Some(Instr { op: Op::Ror, mode: Mode::ZeroPageX }),
        0x78 => Some(Instr { op: Op::Sei, mode: Mode::Implied }),
        0x79 => Some(Instr { op: Op::Adc, mode: Mode::AbsoluteY }),
        0x7d => Some(Instr { op: Op::Adc, mode: Mode::AbsoluteX }),
        0x7e => Some(Instr { op: Op::Ror, mode: Mode::AbsoluteX }),
        0x81 => Some(Instr { op: Op::Sta, mode: Mode::IndirectX }),
        0x84 => Some(Instr { op: Op::Sty, mode: Mode::ZeroPage }),
        0x85 => Some(Instr { op: Op::Sta, mode: Mode::ZeroPage }),
        0x86 => Some(Instr { op: Op::Stx, mode: Mode::ZeroPage }),
        0x88 => Some(Instr { op: Op::Dey, mode: Mode::Implied }),
        0x8a => Some(Instr { op: Op::Txa, mode: Mode::Implied }),
        0x8c => Some(Instr { op: Op::Sty, mode: Mode::Absolute }),
        0x8d => Some(Instr { op: Op::Sta, mode: Mode::Absolute }),
        0x8e => Some(Instr { op: Op::Stx, mode: Mode::Absolute }),
        0x90 => Some(Instr { op: Op::Bcc, mode: Mode::Relative }),
        0x91 => Some(Instr { op: Op::Sta, mode: Mode::IndirectY }),
        0x94 => Some(Instr { op: Op::Sty, mode: Mode::ZeroPageX }),
        0x95 => Some(Instr { op: Op::Sta, mode: Mode::ZeroPageX }),
        0x96 => Some(Instr { op: Op::Stx, mode: Mode::ZeroPageY }),
        0x98 => Some(Instr { op: Op::Tya, mode: Mode::Implied }),
        0x99 => Some(Instr { op: Op::Sta, mode: Mode::AbsoluteY }),
        0x9a => Some(Instr { op: Op::Txs, mode: Mode::Implied }),
        0x9d => Some(Instr { op: Op::Sta, mode: Mode::AbsoluteX }),
        0xa0 => Some(Instr { op: Op::Ldy, mode: Mode::Immediate }),
        0xa1 => Some(Instr { op: Op::Lda, mode: Mode::IndirectX }),
        0xa2 => Some(Instr { op: Op::Ldx, mode: Mode::Immediate }),
        0xa4 => Some(Instr { op: Op::Ldy, mode: Mode::ZeroPage }),
        0xa5 => Some(Instr { op: Op::Lda, mode: Mode::ZeroPage }),
        0xa6 => Some(Instr { op: Op::Ldx, mode: Mode::ZeroPage }),
        0xa8 => Some(Instr { op: Op::Tay, mode: Mode::Implied }),
        0xa9 => Some(Instr { op: Op::Lda, mode: Mode::Immediate }),
        0xaa => Some(Instr { op: Op::Tax, mode: Mode::Implied }),
        0xac => Some(Instr { op: Op::Ldy, mode: Mode::Absolute }),
        0xad => Some(Instr { op: Op::Lda, mode: Mode::Absolute }),
        0xae => Some(Instr { op: Op::Ldx, mode: Mode::Absolute }),
        0xb0 => Some(Instr { op: Op::Bcs, mode: Mode::Relative }),
        0xb1 => Some(Instr { op: Op::Lda, mode: Mode::IndirectY }),
        0xb4 => Some(Instr { op: Op::Ldy, mode: Mode::ZeroPageX }),
        0xb5 => Some(Instr { op: Op::Lda, mode: Mode::ZeroPageX }),
        0xb6 => Some(Instr { op: Op::Ldx, mode: Mode::ZeroPageY }),
        0xb8 => Some(Instr { op: Op::Clv, mode: Mode::Implied }),
        0xb9 => Some(Instr { op: Op::Lda, mode: Mode::AbsoluteY }),
        0xba => Some(Instr { op: Op::Tsx, mode: Mode::Implied }),
        0xbc => Some(Instr { op: Op::Ldy, mode: Mode::AbsoluteX }),
        0xbd => Some(Instr { op: Op::Lda, mode: Mode::AbsoluteX }),
        0xbe => Some(Instr { op: Op::Ldx, mode: Mode::AbsoluteY }),
        0xc0 => Some(Instr { op: Op::Cpy, mode: Mode::Immediate }),
        0xc1 => Some(Instr { op: Op::Cmp, mode: Mode::IndirectX }),
        0xc4 => Some(Instr { op: Op::Cpy, mode: Mode::ZeroPage }),
        0xc5 => Some(Instr { op: Op::Cmp, mode: Mode::ZeroPage }),
        0xc6 => Some(Instr { op: Op::Dec, mode: Mode::ZeroPage }),
        0xc8 => Some(Instr { op: Op::Iny, mode: Mode::Implied }),
        0xc9 => Some(Instr { op: Op::Cmp, mode: Mode::Immediate }),
        0xca => Some(Instr { op: Op::Dex, mode: Mode::Implied }),
        0xcc => Some(Instr { op: Op::Cpy, mode: Mode::Absolute }),
        0xcd => Some(Instr { op: Op::Cmp, mode: Mode::Absolute }),
        0xce => Some(Instr { op: Op::Dec, mode: Mode::Absolute }),
        0xd0 => Some(Instr { op: Op::Bne, mode: Mode::Relative }),
        0xd1 => Some(Instr { op: Op::Cmp, mode: Mode::IndirectY }),
        0xd5 => Some(Instr { op: Op::Cmp, mode: Mode::ZeroPageX }),
        0xd6 => Some(Instr { op: Op::Dec, mode: Mode::ZeroPageX }),
        0xd8 => Some(Instr { op: Op::Cld, mode: Mode::Implied }),
        0xd9 => Some(Instr { op: Op::Cmp, mode: Mode::AbsoluteY }),
        0xdd => Some(Instr { op: Op::Cmp, mode: Mode::AbsoluteX }),
        0xde => Some(Instr { op: Op::Dec, mode: Mode::AbsoluteX }),
        0xe0 => Some(Instr { op: Op::Cpx, mode: Mode::Immediate }),
        0xe1 => Some(Instr { op: Op::Sbc, mode: Mode::IndirectX }),
        0xe4 => Some(Instr { op: Op::Cpx, mode: Mode::ZeroPage }),
        0xe5 => Some(Instr { op: Op::Sbc, mode: Mode::ZeroPage }),
        0xe6 => Some(Instr { op: Op::Inc, mode: Mode::ZeroPage }),
        0xe8 => Some(Instr { op: Op::Inx, mode: Mode::Implied }),
        0xe9 => Some(Instr { op: Op::Sbc, mode: Mode::Immediate }),
        0xea => Some(Instr { op: Op::Nop, mode: Mode::Implied }),
        0xec => Some(Instr { op: Op::Cpx, mode: Mode::Absolute }),
        0xed => Some(Instr { op: Op::Sbc, mode: Mode::Absolute }),
        0xee => Some(Instr { op: Op::Inc, mode: Mode::Absolute }),
        0xf0 => Some(Instr { op: Op::Beq, mode: Mode::Relative }),
        0xf1 => Some(Instr { op: Op::Sbc, mode: Mode::IndirectY }),
        0xf5 => Some(Instr { op: Op::Sbc, mode: Mode::ZeroPageX }),
        0xf6 => Some(Instr { op: Op::Inc, mode: Mode::ZeroPageX }),
        0xf8 => Some(Instr { op: Op::Sed, mode: Mode::Implied }),
        0xf9 => Some(Instr { op: Op::Sbc, mode: Mode::AbsoluteY }),
        0xfd => Some(Instr { op: Op::Sbc, mode: Mode::AbsoluteX }),
        0xfe => Some(Instr { op: Op::Inc, mode: Mode::AbsoluteX }),
        _ => None,
    }
}

/// Decodes an opcode; `None` for an opcode outside the documented set.
pub fn decode(opc: u8) -> (r: Option<Instr>)
    ensures
        r == spec_decode(opc),
{
    match opc {
        0x00 => Some(Instr { op: Op::Brk, mode: Mode::Implied }),
        0x01 => Some(Instr { op: Op::Ora, mode: Mode::IndirectX }),
        0x05 => Some(Instr { op: Op::Ora, mode: Mode::ZeroPage }),
        0x06 => Some(Instr { op: Op::Asl, mode: Mode::ZeroPage }),
        0x08 => Some(Instr { op: Op::Php, mode: Mode::Implied }),
        0x09 => Some(Instr { op: Op::Ora, mode: Mode::Immediate }),
        0x0a => Some(Instr { op: Op::Asl, mode: Mode::Accumulator }),
        0x0d => Some(Instr { op: Op::Ora, mode: Mode::Absolute }),
        0x0e => Some(Instr { op: Op::Asl, mode: Mode::Absolute }),
        0x10 => Some(Instr { op: Op::Bpl, mode: Mode::Relative }),
        0x11 => Some(Instr { op: Op::Ora, mode: Mode::IndirectY }),
        0x15 => Some(Instr { op: Op::Ora, mode: Mode::ZeroPageX }),
        0x16 => Some(Instr { op: Op::Asl, mode: Mode::ZeroPageX }),
        0x18 => Some(Instr { op: Op::Clc, mode: Mode::Implied }),
        0x19 => Some(Instr { op: Op::Ora, mode: Mode::AbsoluteY }),
        0x1d => Some(Instr { op: Op::Ora, mode: Mode::AbsoluteX }),
        0x1e => Some(Instr { op: Op::Asl, mode: Mode::AbsoluteX }),
        0x20 => Some(Instr { op: Op::Jsr, mode: Mode::Absolute }),
        0x21 => Some(Instr { op: Op::And, mode: Mode::IndirectX }),
        0x24 => Some(Instr { op: Op::Bit, mode: Mode::ZeroPage }),
        0x25 => Some(Instr { op: Op::And, mode: Mode::ZeroPage }),
        0x26 => Some(Instr { op: Op::Rol, mode: Mode::ZeroPage }),
        0x28 => Some(Instr { op: Op::Plp, mode: Mode::Implied }),
        0x29 => Some(Instr { op: Op::And, mode: Mode::Immediate }),
        0x2a => Some(Instr { op: Op::Rol, mode: Mode::Accumulator }),
        0x2c => Some(Instr { op: Op::Bit, mode: Mode::Absolute }),
        0x2d => Some(Instr { op: Op::And, mode: Mode::Absolute }),
        0x2e => Some(Instr { op: Op::Rol, mode: Mode::Absolute }),
        0x30 => Some(Instr { op: Op::Bmi, mode: Mode::Relative }),
        0x31 => Some(Instr { op: Op::And, mode: Mode::IndirectY }),
        0x35 => Some(Instr { op: Op::And, mode: Mode::ZeroPageX }),
        0x36 => Some(Instr { op: Op::Rol, mode: Mode::ZeroPageX }),
        0x38 => Some(Instr { op: Op::Sec, mode: Mode::Implied }),
        0x39 => Some(Instr { op: Op::And, mode: Mode::AbsoluteY }),
        0x3d => Some(Instr { op: Op::And, mode: Mode::AbsoluteX }),
        0x3e => Some(Instr { op: Op::Rol, mode: Mode::AbsoluteX }),
        0x40 => Some(Instr { op: Op::Rti, mode: Mode::Implied }),
        0x41 => Some(Instr { op: Op::Eor, mode: Mode::IndirectX }),
        0x45 => Some(Instr { op: Op::Eor, mode: Mode::ZeroPage }),
        0x46 => Some(Instr { op: Op::Lsr, mode: Mode::ZeroPage }),
        0x48 => Some(Instr { op: Op::Pha, mode: Mode::Implied }),
        0x49 => Some(Instr { op: Op::Eor, mode: Mode::Immediate }),
        0x4a => Some(Instr { op: Op::Lsr, mode: Mode::Accumulator }),
        0x4c => Some(Instr { op: Op::Jmp, mode: Mode::Absolute }),
        0x4d => Some(Instr { op: Op::Eor, mode: Mode::Absolute }),
        0x4e => Some(Instr { op: Op::Lsr, mode: Mode::Absolute }),
        0x50 => Some(Instr { op: Op::Bvc, mode: Mode::Relative }),
        0x51 => Some(Instr { op: Op::Eor, mode: Mode::IndirectY }),
        0x55 => Some(Instr { op: Op::Eor, mode: Mode::ZeroPageX }),
        0x56 => Some(Instr { op: Op::Lsr, mode: Mode::ZeroPageX }),
        0x58 => Some(Instr { op: Op::Cli, mode: Mode::Implied }),
        0x59 => Some(Instr { op: Op::Eor, mode: Mode::AbsoluteY }),
        0x5d => Some(Instr { op: Op::Eor, mode: Mode::AbsoluteX }),
        0x5e => Some(Instr { op: Op::Lsr, mode: Mode::AbsoluteX }),
        0x60 => Some(Instr { op: Op::Rts, mode: Mode::Implied }),
        0x61 => Some(Instr { op: Op::Adc, mode: Mode::IndirectX }),
        0x65 => Some(Instr { op: Op::Adc, mode: Mode::ZeroPage }),
        0x66 => Some(Instr { op: Op::Ror, mode: Mode::ZeroPage }),
        0x68 => Some(Instr { op: Op::Pla, mode: Mode::Implied }),
        0x69 => Some(Instr { op: Op::Adc, mode: Mode::Immediate }),
        0x6a => Some(Instr { op: Op::Ror, mode: Mode::Accumulator }),
        0x6c => Some(Instr { op: Op::Jmp, mode: Mode::Indirect }),
        0x6d => Some(Instr { op: Op::Adc, mode: Mode::Absolute }),
        0x6e => Some(Instr { op: Op::Ror, mode: Mode::Absolute }),
        0x70 => Some(Instr { op: Op::Bvs, mode: Mode::Relative }),
        0x71 => Some(Instr { op: Op::Adc, mode: Mode::IndirectY }),
        0x75 => Some(Instr { op: Op::Adc, mode: Mode::ZeroPageX }),
        0x76 => Some(Instr { op: Op::Ror, mode: Mode::ZeroPageX }),
        0x78 => Some(Instr { op: Op::Sei, mode: Mode::Implied }),
        0x79 => Some(Instr { op: Op::Adc, mode: Mode::AbsoluteY }),
        0x7d => Some(Instr { op: Op::Adc, mode: Mode::AbsoluteX }),
        0x7e => Some(Instr { op: Op::Ror, mode: Mode::AbsoluteX }),
        0x81 => Some(Instr { op: Op::Sta, mode: Mode::IndirectX }),
        0x84 => Some(Instr { op: Op::Sty, mode: Mode::ZeroPage }),
        0x85 => Some(Instr { op: Op::Sta, mode: Mode::ZeroPage }),
        0x86 => Some(Instr { op: Op::Stx, mode: Mode::ZeroPage }),
        0x88 => Some(Instr { op: Op::Dey, mode: Mode::Implied }),
        0x8a => Some(Instr { op: Op::Txa, mode: Mode::Implied }),
        0x8c => Some(Instr { op: Op::Sty, mode: Mode::Absolute }),
        0x8d => Some(Instr { op: Op::Sta, mode: Mode::Absolute }),
        0x8e => Some(Instr { op: Op::Stx, mode: Mode::Absolute }),
        0x90 => Some(Instr { op: Op::Bcc, mode: Mode::Relative }),
        0x91 => Some(Instr { op: Op::Sta, mode: Mode::IndirectY }),
        0x94 => Some(Instr { op: Op::Sty, mode: Mode::ZeroPageX }),
        0x95 => Some(Instr { op: Op::Sta, mode: Mode::ZeroPageX }),
        0x96 => Some(Instr { op: Op::Stx, mode: Mode::ZeroPageY }),
        0x98 => Some(Instr { op: Op::Tya, mode: Mode::Implied }),
        0x99 => Some(Instr { op: Op::Sta, mode: Mode::AbsoluteY }),
        0x9a => Some(Instr { op: Op::Txs, mode: Mode::Implied }),
        0x9d => Some(Instr { op: Op::Sta, mode: Mode::AbsoluteX }),
        0xa0 => Some(Instr { op: Op::Ldy, mode: Mode::Immediate }),
        0xa1 => Some(Instr { op: Op::Lda, mode: Mode::IndirectX }),
        0xa2 => Some(Instr { op: Op::Ldx, mode: Mode::Immediate }),
        0xa4 => Some(Instr { op: Op::Ldy, mode: Mode::ZeroPage }),
        0xa5 => Some(Instr { op: Op::Lda, mode: Mode::ZeroPage }),
        0xa6 => Some(Instr { op: Op::Ldx, mode: Mode::ZeroPage }),
        0xa8 => Some(Instr { op: Op::Tay, mode: Mode::Implied }),
        0xa9 => Some(Instr { op: Op::Lda, mode: Mode::Immediate }),
        0xaa => Some(Instr { op: Op::Tax, mode: Mode::Implied }),
        0xac => Some(Instr { op: Op::Ldy, mode: Mode::Absolute }),
        0xad => Some(Instr { op: Op::Lda, mode: Mode::Absolute }),
        0xae => Some(Instr { op: Op::Ldx, mode: Mode::Absolute }),
        0xb0 => Some(Instr { op: Op::Bcs, mode: Mode::Relative }),
        0xb1 => Some(Instr { op: Op::Lda, mode: Mode::IndirectY }),
        0xb4 => Some(Instr { op: Op::Ldy, mode: Mode::ZeroPageX }),
        0xb5 => Some(Instr { op: Op::Lda, mode: Mode::ZeroPageX }),
        0xb6 => Some(Instr { op: Op::Ldx, mode: Mode::ZeroPageY }),
        0xb8 => Some(Instr { op: Op::Clv, mode: Mode::Implied }),
        0xb9 => Some(Instr { op: Op::Lda, mode: Mode::AbsoluteY }),
        0xba => Some(Instr { op: Op::Tsx, mode: Mode::Implied }),
        0xbc => Some(Instr { op: Op::Ldy, mode: Mode::AbsoluteX }),
        0xbd => Some(Instr { op: Op::Lda, mode: Mode::AbsoluteX }),
        0xbe => Some(Instr { op: Op::Ldx, mode: Mode::AbsoluteY }),
        0xc0 => Some(Instr { op: Op::Cpy, mode: Mode::Immediate }),
        0xc1 => Some(Instr { op: Op::Cmp, mode: Mode::IndirectX }),
        0xc4 => Some(Instr { op: Op::Cpy, mode: Mode::ZeroPage }),
        0xc5 => Some(Instr { op: Op::Cmp, mode: Mode::ZeroPage }),
        0xc6 => Some(Instr { op: Op::Dec, mode: Mode::ZeroPage }),
        0xc8 => Some(Instr { op: Op::Iny, mode: Mode::Implied }),
        0xc9 => Some(Instr { op: Op::Cmp, mode: Mode::Immediate }),
        0xca => Some(Instr { op: Op::Dex, mode: Mode::Implied }),
        0xcc => Some(Instr { op: Op::Cpy, mode: Mode::Absolute }),
        0xcd => Some(Instr { op: Op::Cmp, mode: Mode::Absolute }),
        0xce => Some(Instr { op: Op::Dec, mode: Mode::Absolute }),
        0xd0 => Some(Instr { op: Op::Bne, mode: Mode::Relative }),
        0xd1 => Some(Instr { op: Op::Cmp, mode: Mode::IndirectY }),
        0xd5 => Some(Instr { op: Op::Cmp, mode: Mode::ZeroPageX }),
        0xd6 => Some(Instr { op: Op::Dec, mode: Mode::ZeroPageX }),
        0xd8 => Some(Instr { op: Op::Cld, mode: Mode::Implied }),
        0xd9 => Some(Instr { op: Op::Cmp, mode: Mode::AbsoluteY }),
        0xdd => Some(Instr { op: Op::Cmp, mode: Mode::AbsoluteX }),
        0xde => Some(Instr { op: Op::Dec, mode: Mode::AbsoluteX }),
        0xe0 => Some(Instr { op: Op::Cpx, mode: Mode::Immediate }),
        0xe1 => Some(Instr { op: Op::Sbc, mode: Mode::IndirectX }),
        0xe4 => Some(Instr { op: Op::Cpx, mode: Mode::ZeroPage }),
        0xe5 => Some(Instr { op: Op::Sbc, mode: Mode::ZeroPage }),
        0xe6 => Some(Instr { op: Op::Inc, mode: Mode::ZeroPage }),
        0xe8 => Some(Instr { op: Op::Inx, mode: Mode::Implied }),
        0xe9 => Some(Instr { op: Op::Sbc, mode: Mode::Immediate }),
        0xea => Some(Instr { op: Op::Nop, mode: Mode::Implied }),
        0xec => Some(Instr { op: Op::Cpx, mode: Mode::Absolute }),
        0xed => Some(Instr { op: Op::Sbc, mode: Mode::Absolute }),
        0xee => Some(Instr { op: Op::Inc, mode: Mode::Absolute }),
        0xf0 => Some(Instr { op: Op::Beq, mode: Mode::Relative }),
        0xf1 => Some(Instr { op: Op::Sbc, mode: Mode::IndirectY }),
        0xf5 => Some(Instr { op: Op::Sbc, mode: Mode::ZeroPageX }),
        0xf6 => Some(Instr { op: Op::Inc, mode: Mode::ZeroPageX }),
        0xf8 => Some(Instr { op: Op::Sed, mode: Mode::Implied }),
        0xf9 => Some(Instr { op: Op::Sbc, mode: Mode::AbsoluteY }),
        0xfd => Some(Instr { op: Op::Sbc, mode: Mode::AbsoluteX }),
        0xfe => Some(Instr { op: Op::Inc, mode: Mode::AbsoluteX }),
        _ => None,
    }
}

} // verus!
