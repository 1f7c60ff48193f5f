//! Processor registers, the status register, and the arithmetic/logic
//! operations that act on them.
use vstd::prelude::*;

verus! {

/// The value a flag contributes to the packed status byte.
pub open spec fn flag_bit(f: bool, mask: int) -> int {
    if f {
        mask
    } else {
        0
    }
}

/// The carry flag as the integer 0 or 1.
pub open spec fn carry_in(c: bool) -> int {
    if c {
        1
    } else {
        0
    }
}

/// Signed overflow of an addition `a + m (+ carry)` that produced `r`: both
/// operands have the same sign and the result's sign differs from it.
pub open spec fn overflow(a: u8, m: u8, r: u8) -> bool {
    ((a ^ r) & (m ^ r) & 0x80u8) != 0
}

/// The seven individually addressable processor flags.
#[derive(Clone, Copy, Debug, PartialEq, Eq, Structural)]
pub struct StatusRegister {
    pub n: bool,
    pub v: bool,
    pub b: bool,
    pub i: bool,
    pub d: bool,
    pub z: bool,
    pub c: bool,
}

impl StatusRegister {
    /// These flags with N and Z set from `v`.
    pub open spec fn with_nz(self, v: u8) -> StatusRegister {
        StatusRegister { n: v >= 0x80, z: v == 0, ..self }
    }

    /// The packed byte `N V 1 B D I Z C` (bit 7 to bit 0).
    pub open spec fn packed(self) -> u8 {
        (0x20 + flag_bit(self.n, 0x80) + flag_bit(self.v, 0x40) + flag_bit(self.b, 0x10)
            + flag_bit(self.d, 0x08) + flag_bit(self.i, 0x04) + flag_bit(self.z, 0x02)
            + flag_bit(self.c, 0x01)) as u8
    }

    /// These flags loaded from the packed byte `v`; B is not restored.
    pub open spec fn unpacked(self, v: u8) -> StatusRegister {
        StatusRegister {
            n: v & 0x80 != 0,
            v: v & 0x40 != 0,
            b: self.b,
            d: v & 0x08 != 0,
            i: v & 0x04 != 0,
            z: v & 0x02 != 0,
            c: v & 0x01 != 0,
        }
    }

    /// N <- bit 7 of `v`; Z <- `v` is zero.
    pub fn update_nz(&mut self, v: u8)
        ensures
            *final(self) == old(self).with_nz(v),
    {
        self.n = v >= 0x80;
        self.z = v == 0x0;
    }

    /// N and Z from the low byte of `v`; C and V both <- `v` exceeds a byte.
    pub fn update_nvzc(&mut self, v: u16)
        ensures
            *final(self) == (StatusRegister {
                c: v > 0xff,
                v: v > 0xff,
                ..old(self).with_nz((v % 256) as u8)
            }),
    {
        self.update_nz((v % 256) as u8);
        self.c = v > 0xff;
        self.v = self.c;
    }

    /// The carry flag as 0 or 1.
    pub fn carry(&self) -> (r: u16)
        ensures
            r == carry_in(self.c),
    {
        if self.c {
            1
        } else {
            0
        }
    }

    /// The inverted carry flag (the borrow) as 0 or 1.
    pub fn inv_carry(&self) -> (r: u16)
        ensures
            r == 1 - carry_in(self.c),
    {
        if !self.c {
            1
        } else {
            0
        }
    }

    /// The packed status byte, with bit 5 always set.
    pub fn to_u8(&self) -> (r: u8)
        ensures
            r == self.packed(),
    {
        let mut ret: u8 = 0x20;
        if self.c {
            ret = ret + 0x01;
        }
        if self.z {
            ret = ret + 0x02;
        }
        if self.i {
            ret = ret + 0x04;
        }
        if self.d {
            ret = ret + 0x08;
        }
        if self.b {
            ret = ret + 0x10;
        }
        if self.v {
            ret = ret + 0x40;
        }
        if self.n {
            ret = ret + 0x80;
        }
        ret
    }

    /// Loads every flag but B from the packed byte `v`.
    pub fn set_from_u8(&mut self, v: u8)
        ensures
            *final(self) == old(self).unpacked(v),
    {
        self.c = (v & 0x01) != 0;
        self.z = (v & 0x02) != 0;
        self.i = (v & 0x04) != 0;
        self.d = (v & 0x08) != 0;
        self.v = (v & 0x40) != 0;
        self.n = (v & 0x80) != 0;
    }
}

impl Default for StatusRegister {
    /// Every flag clear but B.
    fn default() -> (r: Self)
        ensures
            r == (StatusRegister { n: false, v: false, b: true, i: false, d: false, z: false, c: false }),
    {
        StatusRegister { n: false, v: false, b: true, i: false, d: false, z: false, c: false }
    }
}

/// The sign bit of a byte.
fn sign(v: u8) -> (r: bool)
    ensures
        r == (v >= 0x80),
{
    v > 0x7f
}

/// The xor rule for signed overflow agrees with the rule on signs.
proof fn lemma_overflow_signs(a: u8, m: u8, r: u8)
    ensures
        overflow(a, m, r) == ((a >= 0x80) == (m >= 0x80) && (a >= 0x80) != (r >= 0x80)),
{
    assert((((a ^ r) & (m ^ r) & 0x80u8) != 0) == ((a >= 0x80) == (m >= 0x80) && (a >= 0x80) != (
    r >= 0x80))) by (bit_vector);
}

/// The processor's registers: program counter, stack pointer, status
/// register, accumulator and the two index registers.
///
/// The stack pointer is held in 16 bits; only its low byte is observable, and
/// stack operations keep it within a byte.
#[derive(Clone, Copy, Debug, PartialEq, Eq, Structural)]
pub struct Registers {
    pub pc: u16,
    pub sp: u16,
    pub sr: StatusRegister,
    pub a: u8,
    pub x: u8,
    pub y: u8,
}

impl Registers {
    /// The reset state: PC at $0600, SP at $FF, A = X = Y = 0, every flag
    /// clear but B.
    pub open spec fn reset() -> Registers {
        Registers {
            pc: 0x600,
            sp: 0xff,
            sr: StatusRegister { n: false, v: false, b: true, i: false, d: false, z: false, c: false },
            a: 0,
            x: 0,
            y: 0,
        }
    }

    /// `A + m + C` as a mathematical integer.
    pub open spec fn adc_sum(self, m: u8) -> int {
        self.a + m + carry_in(self.sr.c)
    }

    /// The registers after ADC with operand `m`.
    pub open spec fn spec_adc(self, m: u8) -> Registers {
        let r = (self.adc_sum(m) % 256) as u8;
        Registers {
            a: r,
            sr: StatusRegister {
                c: self.adc_sum(m) >= 256,
                v: overflow(self.a, m, r),
                ..self.sr.with_nz(r)
            },
            ..self
        }
    }

    /// The registers after a comparison of `reg` with `m`.
    pub open spec fn spec_cmp(self, reg: u8, m: u8) -> Registers {
        Registers {
            sr: StatusRegister { c: reg >= m, ..self.sr.with_nz(((reg - m) % 256) as u8) },
            ..self
        }
    }

    /// The registers with the accumulator set to `v` and N, Z from it.
    pub open spec fn with_a(self, v: u8) -> Registers {
        Registers { a: v, sr: self.sr.with_nz(v), ..self }
    }

    /// The registers with carry `c` and N, Z from the result `r` of a shift.
    pub open spec fn after_shift(self, c: bool, r: u8) -> Registers {
        Registers { sr: StatusRegister { c: c, ..self.sr.with_nz(r) }, ..self }
    }

    /// ADC: A <- A + m + C modulo 256, with carry out, signed overflow, N and Z.
    /// Decimal mode is not modelled.
    pub fn adc(&mut self, oper: u8)
        ensures
            *final(self) == old(self).spec_adc(oper),
    {
        let res: u16 = self.a as u16 + oper as u16 + self.sr.carry();
        let r = (res % 256) as u8;
        self.sr.update_nz(r);
        self.sr.c = res > 0xff;
        proof {
            lemma_overflow_signs(self.a, oper, r);
        }
        self.sr.v = sign(self.a) == sign(oper) && sign(self.a) != sign(r);
        self.a = r;
    }

    /// SBC: ADC of the complemented operand, that is A <- A - m - (1 - C)
    /// modulo 256, with C set when no borrow occurred.
    pub fn sbc(&mut self, oper: u8)
        ensures
            *final(self) == old(self).spec_adc(!oper),
            final(self).a == (old(self).a - oper - (1 - carry_in(old(self).sr.c))) % 256,
            final(self).sr.c == (old(self).a - oper - (1 - carry_in(old(self).sr.c)) >= 0),
    {
        assert(!oper == 255 - oper) by (bit_vector);
        self.adc(!oper);
    }

    /// CMP/CPX/CPY: N, Z from `a - b` modulo 256; C <- `a >= b`.
    pub fn cmp(&mut self, a: u8, b: u8)
        ensures
            *final(self) == old(self).spec_cmp(a, b),
    {
        let res = a.wrapping_sub(b);
        self.sr.update_nz(res);
        self.sr.c = a >= b;
    }

    /// ORA: A <- A | m.
    pub fn ora(&mut self, oper: u8)
        ensures
            *final(self) == old(self).with_a(old(self).a | oper),
    {
        self.a = self.a | oper;
        self.sr.update_nz(self.a);
    }

    /// EOR: A <- A ^ m.
    pub fn eor(&mut self, oper: u8)
        ensures
            *final(self) == old(self).with_a(old(self).a ^ oper),
    {
        self.a = self.a ^ oper;
        self.sr.update_nz(self.a);
    }

    /// LDA: A <- m.
    pub fn lda(&mut self, a: u8)
        ensures
            *final(self) == old(self).with_a(a),
    {
        self.sr.update_nz(a);
        self.a = a;
    }

    /// LDX: X <- m.
    pub fn ldx(&mut self, x: u8)
        ensures
            *final(self) == (Registers { x: x, sr: old(self).sr.with_nz(x), ..*old(self) }),
    {
        self.sr.update_nz(x);
        self.x = x;
    }

    /// LDY: Y <- m.
    pub fn ldy(&mut self, y: u8)
        ensures
            *final(self) == (Registers { y: y, sr: old(self).sr.with_nz(y), ..*old(self) }),
    {
        self.sr.update_nz(y);
        self.y = y;
    }

    /// AND: A <- A & m.
    pub fn and(&mut self, a: u8)
        ensures
            *final(self) == old(self).with_a(old(self).a & a),
    {
        self.a = self.a & a;
        self.sr.update_nz(self.a);
    }

    /// LSR: returns `v >> 1`; C <- bit 0 of `v`.
    pub fn lsr(&mut self, v: u8) -> (r: u8)
        ensures
            r == v >> 1,
            *final(self) == old(self).after_shift(v & 1 == 1, r),
    {
        self.sr.c = (v & 0x1) == 0x1;
        let res = v >> 1;
        self.sr.update_nz(res);
        res
    }

    /// ASL: returns `v << 1` within a byte; C <- bit 7 of `v`.
    pub fn asl(&mut self, v: u8) -> (r: u8)
        ensures
            r == v << 1,
            *final(self) == old(self).after_shift(v & 0x80 == 0x80, r),
    {
        self.sr.c = (v & 0x80) == 0x80;
        let res = v << 1;
        self.sr.update_nz(res);
        res
    }

    /// ROR: returns `v >> 1` with the old carry in bit 7; C <- bit 0 of `v`.
    pub fn ror(&mut self, v: u8) -> (r: u8)
        ensures
            r == (v >> 1) | (if old(self).sr.c { 0x80u8 } else { 0u8 }),
            *final(self) == old(self).after_shift(v & 1 == 1, r),
    {
        let oldc: u8 = if self.sr.c { 0x80 } else { 0 };
        self.sr.c = (v & 0x1) == 0x1;
        let res = (v >> 1) | oldc;
        self.sr.update_nz(res);
        res
    }

    /// ROL: returns `v << 1` within a byte with the old carry in bit 0;
    /// C <- bit 7 of `v`.
    pub fn rol(&mut self, v: u8) -> (r: u8)
        ensures
            r == (v << 1) | (if old(self).sr.c { 1u8 } else { 0u8 }),
            *final(self) == old(self).after_shift(v & 0x80 == 0x80, r),
    {
        let oldc: u8 = if self.sr.c { 0x1 } else { 0 };
        self.sr.c = (v & 0x80) == 0x80;
        let res = (v << 1) | oldc;
        self.sr.update_nz(res);
        res
    }

    /// BIT: N <- bit 7 of `v`; V <- bit 6 of `v`; Z <- `A & v` is zero.
    pub fn bit(&mut self, v: u8)
        ensures
            *final(self) == (Registers {
                sr: StatusRegister {
                    n: v & 0x80 != 0,
                    v: v & 0x40 != 0,
                    z: old(self).a & v == 0,
                    ..old(self).sr
                },
                ..*old(self)
            }),
    {
        self.sr.n = (v & 0x80) != 0;
        self.sr.v = (v & 0x40) != 0;
        self.sr.z = (self.a & v) == 0;
    }
}

impl Default for Registers {
    /// The reset state.
    fn default() -> (r: Self)
        ensures
            r == Registers::reset(),
    {
        Registers { pc: 0x600, a: 0, x: 0, y: 0, sr: StatusRegister::default(), sp: 0xff }
    }
}

} // verus!
