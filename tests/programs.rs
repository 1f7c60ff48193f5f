use mos6502::cpu::{Cpu, Halt};
use mos6502::dbg::{Apple1Pia, CycleDetect, DbgNop};
use mos6502::mem::Memory;

fn memory_with(at: u16, bytes: &[u8]) -> Memory {
    let mut mem = Memory::default();
    for (k, b) in bytes.iter().enumerate() {
        mem.store(at + k as u16, *b);
    }
    mem
}

fn cpu_at(at: u16, bytes: &[u8]) -> Cpu {
    let mut cpu = Cpu::new(memory_with(at, bytes));
    cpu.set_pc(at);
    cpu
}

#[test]
fn adc_immediate_no_carry() {
    let mut cpu = cpu_at(0x0600, &[0xa9, 0x05, 0x69, 0x03, 0x00]);
    assert_eq!(cpu.run(&mut DbgNop), Halt::Break);
    let r = cpu.get_reg();
    assert_eq!(r.a, 0x08);
    assert!(!r.sr.c);
    assert!(!r.sr.z);
    assert!(!r.sr.n);
    assert!(!r.sr.v);
    assert_eq!(r.pc, 0x0604);
}

#[test]
fn adc_wrap_and_carry() {
    let mut cpu = cpu_at(0x0600, &[0xa9, 0xff, 0x69, 0x02, 0x00]);
    assert_eq!(cpu.run(&mut DbgNop), Halt::Break);
    let r = cpu.get_reg();
    assert_eq!(r.a, 0x01);
    assert!(r.sr.c);
    assert!(!r.sr.z);
    assert!(!r.sr.n);
    assert!(!r.sr.v);
}

#[test]
fn jsr_rts_program() {
    let mut cpu = cpu_at(
        0x0600,
        &[0x20, 0x09, 0x06, 0xa9, 0x42, 0x00, 0x00, 0x00, 0x00, 0xa9, 0x11, 0x60],
    );
    assert_eq!(cpu.run(&mut DbgNop), Halt::Break);
    let r = cpu.get_reg();
    assert_eq!(r.a, 0x42);
    assert_eq!(r.pc, 0x0605);
    assert_eq!(r.sp, 0xff);
}

#[test]
fn branch_taken_backward() {
    let mut cpu = cpu_at(0x0600, &[0xa2, 0x03, 0xca, 0xd0, 0xfd, 0x00]);
    assert_eq!(cpu.run(&mut DbgNop), Halt::Break);
    let r = cpu.get_reg();
    assert_eq!(r.x, 0);
    assert!(r.sr.z);
    assert!(!r.sr.n);
    assert_eq!(r.pc, 0x0605);
}

#[test]
fn indirect_y_load() {
    let mut mem = memory_with(0x0600, &[0xa0, 0x05, 0xb1, 0x10, 0x00]);
    mem.store(0x10, 0x00);
    mem.store(0x11, 0x80);
    mem.store(0x8005, 0xab);
    let mut cpu = Cpu::new(mem);
    cpu.set_pc(0x0600);
    assert_eq!(cpu.run(&mut DbgNop), Halt::Break);
    assert_eq!(cpu.get_reg().a, 0xab);
    assert_eq!(cpu.get_reg().y, 0x05);
}

#[test]
fn apple1_display_echo() {
    let mut cpu = cpu_at(0x0600, &[0xa9, 0xc1, 0x8d, 0x12, 0xd0, 0x00]);
    let mut pia = Apple1Pia::new();
    assert_eq!(cpu.run(&mut pia), Halt::Break);
    assert_eq!(pia.get_text()[0], b'A');
    assert_eq!(pia.get_text()[1], b' ');
    assert_eq!(cpu.get_mem().load(0xd012), 0);
    assert!(pia.is_dirty());
}

#[test]
fn push_pull_accumulator() {
    for m in [0x00u8, 0x01, 0x7f, 0x80, 0xff] {
        let mut cpu = cpu_at(0x0600, &[0xa9, m, 0x48, 0xa9, 0x00, 0x68, 0x00]);
        assert_eq!(cpu.run(&mut DbgNop), Halt::Break);
        let r = cpu.get_reg();
        assert_eq!(r.a, m);
        assert_eq!(r.sr.n, m >= 0x80);
        assert_eq!(r.sr.z, m == 0);
        assert_eq!(r.sp, 0xff);
    }
}

#[test]
fn sec_lda_adc_sets_flags() {
    // SEC; LDA #$7F; ADC #$00 -> $80 with signed overflow
    let mut cpu = cpu_at(0x0600, &[0x38, 0xa9, 0x7f, 0x69, 0x00, 0x00]);
    assert_eq!(cpu.run(&mut DbgNop), Halt::Break);
    let r = cpu.get_reg();
    assert_eq!(r.a, 0x80);
    assert!(!r.sr.c);
    assert!(r.sr.n);
    assert!(r.sr.v);
    assert!(!r.sr.z);
}

#[test]
fn clc_lda_adc_to_zero() {
    // CLC; LDA #$80; ADC #$80 -> $00, carry and overflow
    let mut cpu = cpu_at(0x0600, &[0x18, 0xa9, 0x80, 0x69, 0x80, 0x00]);
    assert_eq!(cpu.run(&mut DbgNop), Halt::Break);
    let r = cpu.get_reg();
    assert_eq!(r.a, 0x00);
    assert!(r.sr.c);
    assert!(r.sr.z);
    assert!(r.sr.v);
    assert!(!r.sr.n);
}

#[test]
fn asl_lsr_and_rol_ror_on_accumulator() {
    // LDA #$81; ASL A; LSR A -> $01 (the top bit is lost)
    let mut cpu = cpu_at(0x0600, &[0xa9, 0x81, 0x0a, 0x4a, 0x00]);
    cpu.run(&mut DbgNop);
    assert_eq!(cpu.get_reg().a, 0x01);
    // LDA #$40; ASL A; LSR A -> $40 (bits 0 and 7 clear: v & $FE)
    let mut cpu = cpu_at(0x0600, &[0xa9, 0x40, 0x0a, 0x4a, 0x00]);
    cpu.run(&mut DbgNop);
    assert_eq!(cpu.get_reg().a, 0x40 & 0xfe);
    // SEC; LDA #$A5; ROL A; ROR A -> $A5 and carry set again
    let mut cpu = cpu_at(0x0600, &[0x38, 0xa9, 0xa5, 0x2a, 0x6a, 0x00]);
    cpu.run(&mut DbgNop);
    assert_eq!(cpu.get_reg().a, 0xa5);
    assert!(cpu.get_reg().sr.c);
}

#[test]
fn jsr_rts_keeps_flags_and_stack() {
    // SEC; SED; JSR $0610; BRK ... at $0610: RTS
    let mut mem = memory_with(0x0600, &[0x38, 0xf8, 0x20, 0x10, 0x06, 0x00]);
    mem.store(0x0610, 0x60);
    let mut cpu = Cpu::new(mem);
    cpu.set_pc(0x0600);
    assert_eq!(cpu.run(&mut DbgNop), Halt::Break);
    let r = cpu.get_reg();
    assert_eq!(r.pc, 0x0605);
    assert_eq!(r.sp, 0xff);
    assert!(r.sr.c);
    assert!(r.sr.d);
    // the return address pushed was $0604, high byte first
    assert_eq!(cpu.get_mem().load(0x01fe), 0x06);
    assert_eq!(cpu.get_mem().load(0x01fd), 0x04);
}

#[test]
fn branch_offsets_forward_and_backward() {
    // LDA #0 sets Z; BEQ +2 skips LDA #1; then BRK
    let mut cpu = cpu_at(0x0600, &[0xa9, 0x00, 0xf0, 0x02, 0xa9, 0x01, 0x00]);
    assert_eq!(cpu.run(&mut DbgNop), Halt::Break);
    assert_eq!(cpu.get_reg().pc, 0x0606);
    assert_eq!(cpu.get_reg().a, 0x00);
    // untaken BNE moves on by 2
    let mut cpu = cpu_at(0x0600, &[0xa9, 0x00, 0xd0, 0x10, 0x00]);
    assert_eq!(cpu.run(&mut DbgNop), Halt::Break);
    assert_eq!(cpu.get_reg().pc, 0x0604);
}

#[test]
fn zero_page_x_wraps() {
    let mut mem = memory_with(0x0600, &[0xa2, 0xff, 0xb5, 0x02, 0x00]);
    mem.store(0x01, 0x11);
    mem.store(0x0101, 0x22);
    let mut cpu = Cpu::new(mem);
    cpu.set_pc(0x0600);
    assert_eq!(cpu.run(&mut DbgNop), Halt::Break);
    assert_eq!(cpu.get_reg().a, 0x11);
}

#[test]
fn unsupported_opcode_halts() {
    let mut cpu = cpu_at(0x0600, &[0xea, 0x02]);
    assert_eq!(cpu.run(&mut DbgNop), Halt::Unsupported { opcode: 0x02, pc: 0x0601 });
    assert_eq!(cpu.get_reg().pc, 0x0601);
}

#[test]
fn cycle_detector_stops_spin_loop() {
    // JMP $0600 forever
    let mut cpu = cpu_at(0x0600, &[0x4c, 0x00, 0x06]);
    let mut probe = CycleDetect::new();
    assert_eq!(cpu.run(&mut probe), Halt::Probe);
    assert_eq!(cpu.get_reg().pc, 0x0600);
}

#[test]
fn run_for_stops_at_limit() {
    let mut cpu = cpu_at(0x0600, &[0x4c, 0x00, 0x06]);
    assert_eq!(cpu.run_for(&mut DbgNop, 10), Halt::Limit);
}

#[test]
fn jmp_indirect_page_bug() {
    // JMP ($10FF): low byte from $10FF, high byte from $1000
    let mut mem = memory_with(0x0600, &[0x6c, 0xff, 0x10]);
    mem.store(0x10ff, 0x34);
    mem.store(0x1000, 0x12);
    mem.store(0x1100, 0x56);
    let mut cpu = Cpu::new(mem);
    cpu.set_pc(0x0600);
    assert_eq!(cpu.execute(), None);
    assert_eq!(cpu.get_reg().pc, 0x1234);
}

#[test]
fn indirect_x_wraps_in_zero_page() {
    // LDX #$01; LDA ($FE,X): pointer at $FF/$00
    let mut mem = memory_with(0x0600, &[0xa2, 0x01, 0xa1, 0xfe, 0x00]);
    mem.store(0xff, 0x00);
    mem.store(0x00, 0x30);
    mem.store(0x3000, 0x77);
    let mut cpu = Cpu::new(mem);
    cpu.set_pc(0x0600);
    assert_eq!(cpu.run(&mut DbgNop), Halt::Break);
    assert_eq!(cpu.get_reg().a, 0x77);
}

#[test]
fn store_increment_and_compare() {
    // LDA #$10; STA $20; INC $20; LDX $20; CPX #$11; BRK
    let mut cpu = cpu_at(0x0600, &[0xa9, 0x10, 0x85, 0x20, 0xe6, 0x20, 0xa6, 0x20, 0xe0, 0x11, 0x00]);
    assert_eq!(cpu.run(&mut DbgNop), Halt::Break);
    assert_eq!(cpu.get_mem().load(0x20), 0x11);
    assert_eq!(cpu.get_reg().x, 0x11);
    assert!(cpu.get_reg().sr.z);
    assert!(cpu.get_reg().sr.c);
}

#[test]
fn php_plp_and_transfers() {
    // SEC; PHP; CLC; PLP; TSX; BRK
    let mut cpu = cpu_at(0x0600, &[0x38, 0x08, 0x18, 0x28, 0xba, 0x00]);
    assert_eq!(cpu.run(&mut DbgNop), Halt::Break);
    assert!(cpu.get_reg().sr.c);
    assert_eq!(cpu.get_reg().x, 0xff);
    // pushed P has bits 5 and 4 set
    assert_eq!(cpu.get_mem().load(0x01fe), 0x31);
}

#[test]
fn stack_pointer_wraps() {
    // LDX #$00; TXS; PHA; BRK -> SP wraps to $FF, byte at $01FF
    let mut cpu = cpu_at(0x0600, &[0xa9, 0x5a, 0xa2, 0x00, 0x9a, 0x48, 0x00]);
    assert_eq!(cpu.run(&mut DbgNop), Halt::Break);
    assert_eq!(cpu.get_reg().sp, 0xff);
    assert_eq!(cpu.get_mem().load(0x01ff), 0x5a);
}

#[test]
fn escape_key_stops_the_run() {
    // a spin loop that only the probe can end
    let mut cpu = cpu_at(0x0600, &[0x4c, 0x00, 0x06]);
    let mut pia = Apple1Pia::default();
    pia.feed(b'x');
    pia.feed(0x1b);
    assert_eq!(cpu.run(&mut pia), Halt::Probe);
    assert_eq!(cpu.get_mem().load(0xd010), b'x' | 0x80);
}

#[test]
fn default_cpu_is_reset() {
    let cpu = Cpu::default();
    assert_eq!(cpu.get_reg().pc, 0x0600);
    assert_eq!(cpu.get_reg().sp, 0xff);
    assert_eq!(cpu.get_mem().load(0x1234), 0);
    let mut probe = CycleDetect::default();
    let mut cpu = cpu_at(0x0600, &[0xea, 0x4c, 0x00, 0x06]);
    assert_eq!(cpu.run(&mut probe), Halt::Probe);
}

#[test]
fn pc_advances_by_instruction_length() {
    // NOP (1 byte), LDA #$01 (2 bytes), LDA $1234 (3 bytes), ASL A (1 byte)
    let mut cpu = cpu_at(0x0600, &[0xea, 0xa9, 0x01, 0xad, 0x34, 0x12, 0x0a, 0x00]);
    let mut pcs = Vec::new();
    while cpu.execute().is_none() {
        pcs.push(cpu.get_reg().pc);
    }
    assert_eq!(pcs, vec![0x0601, 0x0603, 0x0606, 0x0607]);
}

#[test]
fn absolute_x_wraps_at_top_of_memory() {
    // LDX #$01; LDA $FFFF,X reads $0000
    let mut mem = memory_with(0x0600, &[0xa2, 0x01, 0xbd, 0xff, 0xff, 0x00]);
    mem.store(0x0000, 0x42);
    let mut cpu = Cpu::new(mem);
    cpu.set_pc(0x0600);
    assert_eq!(cpu.run(&mut DbgNop), Halt::Break);
    assert_eq!(cpu.get_reg().a, 0x42);
}

struct StopAfter {
    calls: u32,
    stop_at: u32,
}

impl mos6502::dbg::Dbg for StopAfter {
    fn step(&mut self, _reg: &mut mos6502::reg::Registers, _mem: &mut Memory) -> bool {
        self.calls += 1;
        self.calls == self.stop_at
    }
}

#[test]
fn probe_runs_once_before_each_instruction() {
    // INX four times, then BRK
    let mut cpu = cpu_at(0x0600, &[0xe8, 0xe8, 0xe8, 0xe8, 0x00]);
    let mut probe = StopAfter { calls: 0, stop_at: 3 };
    assert_eq!(cpu.run(&mut probe), Halt::Probe);
    assert_eq!(probe.calls, 3);
    assert_eq!(cpu.get_reg().x, 2);
    assert_eq!(cpu.get_reg().pc, 0x0602);
    let mut cpu = cpu_at(0x0600, &[0xe8, 0xe8, 0xe8, 0xe8, 0x00]);
    let mut probe = StopAfter { calls: 0, stop_at: 100 };
    assert_eq!(cpu.run(&mut probe), Halt::Break);
    assert_eq!(probe.calls, 5);
    assert_eq!(cpu.get_reg().x, 4);
}
