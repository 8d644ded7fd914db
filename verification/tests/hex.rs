use retroshield_z80_workbench::{CodeGen, RomConfig};

fn hex_value(c: u8) -> u32 {
    match c {
        b'0'..=b'9' => (c - b'0') as u32,
        b'A'..=b'F' => (c - b'A') as u32 + 10,
        _ => panic!("not an upper-case hex digit: {}", c as char),
    }
}

fn record_bytes(line: &str) -> Vec<u32> {
    let text = line.as_bytes();
    assert_eq!(text[0], b':');
    assert_eq!((text.len() - 1) % 2, 0);
    let mut out = Vec::new();
    let mut i = 1;
    while i < text.len() {
        out.push(16 * hex_value(text[i]) + hex_value(text[i + 1]));
        i += 2;
    }
    out
}

#[test]
fn empty_image_is_only_the_end_record() {
    let cg = CodeGen::new();
    assert_eq!(cg.intel_hex(), ":00000001FF\n");
}

#[test]
fn one_full_record() {
    let config = RomConfig { org: 0x0100, stack_top: 0x3FFF, ram_start: 0x2000 };
    let mut cg = CodeGen::with_config(config);
    cg.emit(&[
        0x21, 0x46, 0x01, 0x36, 0x01, 0x21, 0x47, 0x01, 0x36, 0x00, 0x7E, 0xFE, 0x09, 0xD2, 0x19,
        0x01,
    ]);
    assert_eq!(
        cg.intel_hex(),
        ":10010000214601360121470136007EFE09D2190140\n:00000001FF\n"
    );
}

#[test]
fn short_last_record() {
    let mut cg = CodeGen::new();
    cg.emit(&[0xC3, 0x04, 0x00, 0x00, 0xC9]);
    assert_eq!(cg.intel_hex(), ":05000000C3040000C96B\n:00000001FF\n");
}

#[test]
fn records_hold_sixteen_bytes_each() {
    let config = RomConfig { org: 0x7FF8, stack_top: 0x3FFF, ram_start: 0x2000 };
    let mut cg = CodeGen::with_config(config);
    for i in 0..35u8 {
        cg.emit_byte(i);
    }
    let text = cg.intel_hex();
    let lines: Vec<&str> = text.lines().collect();
    assert_eq!(lines.len(), 4);
    assert_eq!(lines[0], ":107FF800000102030405060708090A0B0C0D0E0F01");
    assert_eq!(lines[1], ":10800800101112131415161718191A1B1C1D1E1FF0");
    assert_eq!(lines[2], ":0380180020212202");
    assert_eq!(lines[3], ":00000001FF");
    assert!(text.ends_with('\n'));
}

#[test]
fn record_addresses_wrap() {
    let config = RomConfig { org: 0xFFF8, stack_top: 0x3FFF, ram_start: 0x2000 };
    let mut cg = CodeGen::with_config(config);
    cg.emit(&[0xFF; 17]);
    let text = cg.intel_hex();
    let lines: Vec<&str> = text.lines().collect();
    assert_eq!(lines.len(), 3);
    assert_eq!(&lines[0][..9], ":10FFF800");
    assert_eq!(lines[1], ":01000800FFF8");
}

#[test]
fn every_record_sums_to_zero() {
    let config = RomConfig { org: 0x1234, stack_top: 0x3FFF, ram_start: 0x2000 };
    let mut cg = CodeGen::with_config(config);
    for i in 0..1000u32 {
        cg.emit_byte((i * 37 + 11) as u8);
    }
    let text = cg.intel_hex();
    let lines: Vec<&str> = text.lines().collect();
    assert_eq!(lines.len(), 1000 / 16 + 1 + 1);
    assert_eq!(*lines.last().unwrap(), ":00000001FF");
    let mut k = 0usize;
    for line in &lines[..lines.len() - 1] {
        let bytes = record_bytes(line);
        let len = bytes[0] as usize;
        assert_eq!(bytes.len(), len + 5);
        assert_eq!(len, if k < 62 { 16 } else { 8 });
        let addr = bytes[1] * 256 + bytes[2];
        assert_eq!(addr as usize, 0x1234 + 16 * k);
        assert_eq!(bytes[3], 0);
        for j in 0..len {
            assert_eq!(bytes[4 + j], cg.rom()[16 * k + j] as u32);
        }
        assert_eq!(bytes.iter().sum::<u32>() % 256, 0);
        k += 1;
    }
}

#[test]
fn hex_does_not_change_the_session() {
    let mut cg = CodeGen::new();
    cg.emit(&[1, 2, 3]);
    let first = cg.intel_hex();
    let second = cg.intel_hex();
    assert_eq!(first, second);
    assert_eq!(cg.rom(), &[1, 2, 3]);
}
