use mos6502::dbg::{Apple1Pia, CycleDetect, Dbg, DbgNop, TEXT_COLS, TEXT_ROWS};
use mos6502::instr::{decode, Instr, Mode, Op};
use mos6502::mem::Memory;
use mos6502::reg::{Registers, StatusRegister};

#[test]
fn registers_reset_state() {
    let r = Registers::default();
    assert_eq!(r.pc, 0x600);
    assert_eq!(r.sp, 0xff);
    assert_eq!((r.a, r.x, r.y), (0, 0, 0));
    assert!(r.sr.b);
    assert!(!r.sr.c && !r.sr.z && !r.sr.n && !r.sr.v && !r.sr.i && !r.sr.d);
}

#[test]
fn adc_sets_overflow_by_sign_rule() {
    let mut r = Registers::default();
    r.a = 0x50;
    r.adc(0x50);
    assert_eq!(r.a, 0xa0);
    assert!(r.sr.v);
    assert!(r.sr.n);
    assert!(!r.sr.c);
    let mut r = Registers::default();
    r.a = 0xd0;
    r.adc(0x90);
    assert_eq!(r.a, 0x60);
    assert!(r.sr.v);
    assert!(r.sr.c);
}

#[test]
fn sbc_borrows() {
    let mut r = Registers::default();
    r.sr.c = true;
    r.a = 0x05;
    r.sbc(0x03);
    assert_eq!(r.a, 0x02);
    assert!(r.sr.c);
    let mut r = Registers::default();
    r.sr.c = true;
    r.a = 0x03;
    r.sbc(0x05);
    assert_eq!(r.a, 0xfe);
    assert!(!r.sr.c);
    assert!(r.sr.n);
    let mut r = Registers::default();
    r.sr.c = false;
    r.a = 0x05;
    r.sbc(0x03);
    assert_eq!(r.a, 0x01);
    assert!(r.sr.c);
    let mut r = Registers::default();
    r.sr.c = true;
    r.a = 0x80;
    r.sbc(0x01);
    assert_eq!(r.a, 0x7f);
    assert!(r.sr.v);
}

#[test]
fn cmp_sets_carry_when_not_less() {
    let mut r = Registers::default();
    r.cmp(0x10, 0x10);
    assert!(r.sr.c && r.sr.z && !r.sr.n);
    r.cmp(0x10, 0x20);
    assert!(!r.sr.c && !r.sr.z && r.sr.n);
    r.cmp(0x20, 0x10);
    assert!(r.sr.c && !r.sr.z && !r.sr.n);
}

#[test]
fn logic_and_loads() {
    let mut r = Registers::default();
    r.lda(0xf0);
    assert!(r.sr.n);
    r.and(0x0f);
    assert_eq!(r.a, 0);
    assert!(r.sr.z);
    r.ora(0x81);
    assert_eq!(r.a, 0x81);
    r.eor(0xff);
    assert_eq!(r.a, 0x7e);
    assert!(!r.sr.n && !r.sr.z);
    r.ldx(0);
    assert!(r.sr.z);
    r.ldy(0x90);
    assert_eq!(r.y, 0x90);
    assert!(r.sr.n);
}

#[test]
fn shifts_and_rotates() {
    let mut r = Registers::default();
    assert_eq!(r.asl(0x81), 0x02);
    assert!(r.sr.c);
    assert_eq!(r.lsr(0x01), 0x00);
    assert!(r.sr.c && r.sr.z);
    r.sr.c = true;
    assert_eq!(r.rol(0x40), 0x81);
    assert!(!r.sr.c);
    assert!(r.sr.n);
    r.sr.c = true;
    assert_eq!(r.ror(0x02), 0x81);
    assert!(!r.sr.c);
    let v = 0x5a;
    r.sr.c = false;
    let x = r.rol(v);
    assert_eq!(r.ror(x), v);
    assert!(!r.sr.c);
}

#[test]
fn bit_takes_n_and_v_from_operand() {
    let mut r = Registers::default();
    r.a = 0x01;
    r.bit(0xc0);
    assert!(r.sr.n);
    assert!(r.sr.v);
    assert!(r.sr.z);
    r.bit(0x41);
    assert!(!r.sr.n);
    assert!(r.sr.v);
    assert!(!r.sr.z);
}

#[test]
fn status_byte_packs_and_unpacks() {
    let mut sr = StatusRegister::default();
    assert_eq!(sr.to_u8(), 0x30);
    sr.n = true;
    sr.c = true;
    assert_eq!(sr.to_u8(), 0xb1);
    let mut other = StatusRegister::default();
    other.b = false;
    other.set_from_u8(0xff);
    assert!(other.n && other.v && other.d && other.i && other.z && other.c);
    assert!(!other.b);
    other.set_from_u8(0x00);
    assert!(!other.n && !other.c);
    assert_eq!(sr.carry(), 1);
    assert_eq!(sr.inv_carry(), 0);
}

#[test]
fn update_helpers() {
    let mut sr = StatusRegister::default();
    sr.update_nz(0x80);
    assert!(sr.n && !sr.z);
    sr.update_nz(0);
    assert!(!sr.n && sr.z);
    sr.update_nvzc(0x100);
    assert!(sr.c && sr.v && sr.z);
    sr.update_nvzc(0x7f);
    assert!(!sr.c && !sr.v && !sr.z && !sr.n);
}

#[test]
fn memory_words_wrap_at_top() {
    let mut m = Memory::default();
    m.store(0xffff, 0x34);
    m.store(0x0000, 0x12);
    assert_eq!(m.load16(0xffff), 0x1234);
    m.store16(0x2000, 0xbeef);
    assert_eq!(m.load(0x2000), 0xef);
    assert_eq!(m.load(0x2001), 0xbe);
    assert_eq!(m.load16(0x2000), 0xbeef);
    assert_eq!(m.get().len(), 0x10000);
}

#[test]
fn memory_new_pads_and_truncates() {
    let m = Memory::new(vec![1, 2, 3]);
    assert_eq!(m.load(0), 1);
    assert_eq!(m.load(2), 3);
    assert_eq!(m.load(3), 0);
    assert_eq!(m.load(0xffff), 0);
    let big = vec![7u8; 0x10010];
    let m = Memory::new(big);
    assert_eq!(m.get().len(), 0x10000);
    assert_eq!(m.load(0xffff), 7);
}

#[test]
fn decode_table() {
    assert_eq!(decode(0xa9), Some(Instr { op: Op::Lda, mode: Mode::Immediate }));
    assert_eq!(decode(0x6c), Some(Instr { op: Op::Jmp, mode: Mode::Indirect }));
    assert_eq!(decode(0x96), Some(Instr { op: Op::Stx, mode: Mode::ZeroPageY }));
    assert_eq!(decode(0x00), Some(Instr { op: Op::Brk, mode: Mode::Implied }));
    assert_eq!(decode(0x02), None);
    assert_eq!(decode(0xff), None);
    assert_eq!(Mode::Implied.len(), 1);
    assert_eq!(Mode::IndirectY.len(), 2);
    assert_eq!(Mode::AbsoluteX.len(), 3);
    let documented = (0u16..=255).filter(|c| decode(*c as u8).is_some()).count();
    assert_eq!(documented, 151);
}

#[test]
fn null_probe_changes_nothing() {
    let mut reg = Registers::default();
    let mut mem = Memory::default();
    assert!(!DbgNop.step(&mut reg, &mut mem));
    assert_eq!(reg, Registers::default());
}

#[test]
fn cycle_detector_counts_visits() {
    let mut probe = CycleDetect::new();
    let mut reg = Registers::default();
    let mut mem = Memory::default();
    assert!(!probe.step(&mut reg, &mut mem));
    assert!(!probe.step(&mut reg, &mut mem));
    assert!(probe.step(&mut reg, &mut mem));
    reg.pc = 0xffff;
    assert!(!probe.step(&mut reg, &mut mem));
}

#[test]
fn pia_delivers_keys_with_strobe() {
    let mut pia = Apple1Pia::new();
    let mut reg = Registers::default();
    let mut mem = Memory::default();
    pia.feed(b'A');
    assert!(!pia.step(&mut reg, &mut mem));
    assert_eq!(mem.load(0xd010), 0xc1);
    assert_eq!(mem.load(0xd011) & 0x80, 0x80);
    assert!(!pia.step(&mut reg, &mut mem));
    assert_eq!(mem.load(0xd011) & 0x80, 0x80);
    assert!(!pia.step(&mut reg, &mut mem));
    assert_eq!(mem.load(0xd011) & 0x80, 0);
    pia.feed(0x1b);
    assert!(pia.step(&mut reg, &mut mem));
}

#[test]
fn pia_display_wraps_and_scrolls() {
    let mut pia = Apple1Pia::new();
    for _ in 0..TEXT_COLS {
        pia.putc(b'x');
    }
    pia.putc(b'y');
    assert_eq!(pia.get_text()[TEXT_COLS], b'y');
    for _ in 0..TEXT_ROWS {
        pia.putc(0x0a);
    }
    let text = pia.get_text();
    assert_eq!(text.len(), TEXT_ROWS * TEXT_COLS);
    // after scrolling, the first row of x's is gone
    assert_ne!(text[0], b'x');
    pia.mark_drawn();
    assert!(!pia.is_dirty());
}
