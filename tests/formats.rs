use mos6502::dbg::{Dbg, DumpScreen, KEY_ADDR, RANDOM_ADDR};
use mos6502::hexdump::{dump, format_line, hex_value, load_line, monitor_rows, place, FormatError};
use mos6502::mem::Memory;
use mos6502::reg::Registers;

#[test]
fn hex_digits() {
    assert_eq!(hex_value(b'0'), Some(0));
    assert_eq!(hex_value(b'9'), Some(9));
    assert_eq!(hex_value(b'a'), Some(10));
    assert_eq!(hex_value(b'F'), Some(15));
    assert_eq!(hex_value(b'g'), None);
    assert_eq!(hex_value(b' '), None);
}

#[test]
fn load_line_places_bytes() {
    let mut image = Vec::new();
    assert_eq!(load_line(b"0600: a9 05 69 03 00", &mut image), Ok(()));
    assert_eq!(image.len(), 0x605);
    assert_eq!(&image[0x600..], &[0xa9, 0x05, 0x69, 0x03, 0x00]);
    assert_eq!(image[0x5ff], 0);
    // blanks between bytes are skipped; one-digit bytes are accepted
    assert_eq!(load_line(b"0010:  1  FF", &mut image), Ok(()));
    assert_eq!(image[0x10], 0x01);
    assert_eq!(image[0x11], 0xff);
    assert_eq!(image.len(), 0x605);
    // an address line without bytes changes nothing
    assert_eq!(load_line(b"8000:", &mut image), Ok(()));
    assert_eq!(image.len(), 0x605);
}

#[test]
fn load_line_rejects_malformed_lines() {
    let mut image = vec![1, 2, 3];
    assert_eq!(load_line(b"0600 a9", &mut image), Err(FormatError::MissingColon));
    assert_eq!(load_line(b"06", &mut image), Err(FormatError::MissingColon));
    assert_eq!(load_line(b"", &mut image), Err(FormatError::MissingColon));
    assert_eq!(load_line(b"06x0: a9", &mut image), Err(FormatError::BadAddress));
    assert_eq!(load_line(b"0000: a9 zz", &mut image), Err(FormatError::BadByte));
    assert_eq!(load_line(b"0000: 123", &mut image), Err(FormatError::BadByte));
    assert_eq!(image, vec![1, 2, 3]);
}

#[test]
fn place_grows_with_zeros() {
    let mut image = Vec::new();
    place(&mut image, 4, &[9, 8]);
    assert_eq!(image, vec![0, 0, 0, 0, 9, 8]);
    place(&mut image, 1, &[7]);
    assert_eq!(image, vec![0, 7, 0, 0, 9, 8]);
}

#[test]
fn format_and_dump() {
    assert_eq!(format_line(0x0600, &[0xa9, 0x05, 0x00]), b"0600: a9 05 00".to_vec());
    assert_eq!(format_line(0xfff0, &[]), b"fff0: ".to_vec());
    let mut data = vec![0u8; 48];
    data[17] = 0xab;
    data[47] = 0x01;
    let text = String::from_utf8(dump(&data)).unwrap();
    assert_eq!(
        text,
        "0010: 00 ab 00 00 00 00 00 00 00 00 00 00 00 00 00 00\n\
         0020: 00 00 00 00 00 00 00 00 00 00 00 00 00 00 00 01\n"
    );
    assert_eq!(dump(&[0, 0, 0]), Vec::<u8>::new());
    assert_eq!(dump(&[0, 5]), b"0000: 00 05\n".to_vec());
}

#[test]
fn dump_of_memory_lists_program() {
    let mut mem = Memory::default();
    mem.store(0x0600, 0xa9);
    let text = String::from_utf8(dump(mem.get())).unwrap();
    assert_eq!(text, "0600: a9 00 00 00 00 00 00 00 00 00 00 00 00 00 00 00\n");
}

#[test]
fn dump_screen_feeds_keys() {
    let mut probe = DumpScreen::new(0x734);
    assert_eq!(probe.trigger_pc(), 0x734);
    let mut reg = Registers::default();
    let mut mem = Memory::default();
    probe.feed(b'w');
    probe.feed(0xc8);
    probe.feed(b'd');
    assert!(!probe.step(&mut reg, &mut mem));
    assert_eq!(mem.load(KEY_ADDR), b'd');
    probe.feed(0x90);
    assert!(!probe.step(&mut reg, &mut mem));
    assert_eq!(mem.load(KEY_ADDR), b'd');
    let _ = mem.load(RANDOM_ADDR);
    assert_eq!(reg, Registers::default());
}

#[test]
fn cpu_dump_mem_lists_memory() {
    let mut mem = Memory::default();
    mem.store(0xfff0, 0x12);
    let cpu = mos6502::cpu::Cpu::new(mem);
    let text = String::from_utf8(cpu.dump_mem()).unwrap();
    assert_eq!(text, "fff0: 12 00 00 00 00 00 00 00 00 00 00 00 00 00 00 00\n");
}

#[test]
fn monitor_rows_skip_blank_chunks_and_stop_at_height() {
    let mut data = vec![0u8; 0x100];
    data[0x05] = 1;
    data[0x31] = 2;
    data[0x42] = 3;
    data[0xff] = 4;
    assert_eq!(monitor_rows(&data, 10, 100), vec![(10, 0x00), (11, 0x30), (12, 0x40), (13, 0xf0)]);
    assert_eq!(monitor_rows(&data, 10, 12), vec![(10, 0x00), (11, 0x30)]);
    assert_eq!(monitor_rows(&data, 5, 5), vec![]);
    assert_eq!(monitor_rows(&[0u8; 40], 1, 50), vec![]);
}
