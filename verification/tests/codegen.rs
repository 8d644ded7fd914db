use retroshield_z80_workbench::{CodeGen, ResolveError, RomConfig};

#[test]
fn test_emit_basic() {
    let mut cg = CodeGen::new();
    cg.emit(&[0x00, 0x01, 0x02]);
    assert_eq!(cg.size(), 3);
    assert_eq!(cg.rom(), &[0x00, 0x01, 0x02]);
}

#[test]
fn test_emit_word() {
    let mut cg = CodeGen::new();
    cg.emit_word(0x1234);
    assert_eq!(cg.rom(), &[0x34, 0x12]); // Little-endian
}

#[test]
fn test_labels_and_fixups() {
    let mut cg = CodeGen::new();
    cg.emit(&[0xC3]); // JP
    cg.fixup("target");
    cg.emit(&[0x00]); // NOP
    cg.label("target");
    cg.emit(&[0xC9]); // RET
    cg.resolve_fixups().unwrap();

    // JP should point to address 4 (org=0, JP=1, addr=2, NOP=1, target=4)
    assert_eq!(cg.rom()[1], 0x04);
    assert_eq!(cg.rom()[2], 0x00);
}

#[test]
fn test_unique_label() {
    let mut cg = CodeGen::new();
    let l1 = cg.unique_label("loop");
    let l2 = cg.unique_label("loop");
    assert_ne!(l1, l2);
}

#[test]
fn default_config_values() {
    let config = RomConfig::default();
    assert_eq!(config.org, 0x0000);
    assert_eq!(config.stack_top, 0x3FFF);
    assert_eq!(config.ram_start, 0x2000);
    let cg = CodeGen::new();
    assert_eq!(*cg.config(), config);
    assert_eq!(cg.size(), 0);
    assert_eq!(cg.pos(), 0);
    assert!(cg.rom().is_empty());
}

#[test]
fn with_config_keeps_the_layout() {
    let config = RomConfig { org: 0x8000, stack_top: 0xFFFF, ram_start: 0xC000 };
    let cg = CodeGen::with_config(config);
    assert_eq!(cg.config().org, 0x8000);
    assert_eq!(cg.config().stack_top, 0xFFFF);
    assert_eq!(cg.config().ram_start, 0xC000);
    assert_eq!(cg.pos(), 0x8000);
}

#[test]
fn appends_concatenate_in_call_order() {
    let mut cg = CodeGen::new();
    cg.emit(&[1, 2, 3]);
    cg.emit(&[]);
    cg.emit_byte(4);
    cg.emit(&[5, 6]);
    assert_eq!(cg.rom(), &[1, 2, 3, 4, 5, 6]);
    assert_eq!(cg.size(), 6);
    assert_eq!(cg.pos(), 6);
}

#[test]
fn emit_word_round_trips_every_word() {
    for n in 0..=0xFFFFu16 {
        let mut cg = CodeGen::new();
        cg.emit_word(n);
        let rom = cg.rom();
        assert_eq!(rom.len(), 2);
        assert_eq!(rom[0], (n & 0xFF) as u8);
        assert_eq!(rom[1], ((n >> 8) & 0xFF) as u8);
        assert_eq!(u16::from_le_bytes([rom[0], rom[1]]), n);
    }
}

#[test]
fn emit_string_appends_a_terminator() {
    let mut cg = CodeGen::new();
    cg.emit_string("Hi!");
    assert_eq!(cg.rom(), &[0x48, 0x69, 0x21, 0x00]);
    cg.emit_string("");
    assert_eq!(cg.rom(), &[0x48, 0x69, 0x21, 0x00, 0x00]);
}

#[test]
fn emit_string_raw_has_no_terminator() {
    let mut cg = CodeGen::new();
    cg.emit_string_raw("Hi!");
    assert_eq!(cg.rom(), &[0x48, 0x69, 0x21]);
    cg.emit_string_raw("");
    assert_eq!(cg.size(), 3);
}

#[test]
fn emit_string_writes_utf8_bytes() {
    let mut cg = CodeGen::new();
    cg.emit_string("\u{e9}");
    assert_eq!(cg.rom(), &[0xC3, 0xA9, 0x00]);
}

#[test]
fn label_denotes_origin_plus_length() {
    let config = RomConfig { org: 0x8000, stack_top: 0xFFFF, ram_start: 0xC000 };
    let mut cg = CodeGen::with_config(config);
    cg.emit(&[0; 37]);
    cg.label("here");
    cg.emit(&[1, 2, 3]);
    assert!(cg.has_label("here"));
    assert_eq!(cg.get_label("here"), Some(0x8000 + 37));
    assert_eq!(cg.pos(), 0x8000 + 40);
}

#[test]
fn unknown_label_is_absent() {
    let mut cg = CodeGen::new();
    cg.label("known");
    assert!(!cg.has_label("unknown"));
    assert_eq!(cg.get_label("unknown"), None);
    assert!(!cg.has_label("know"));
}

#[test]
fn redefining_a_label_overwrites_it() {
    let mut cg = CodeGen::new();
    cg.label("again");
    cg.emit(&[0, 0, 0]);
    assert_eq!(cg.get_label("again"), Some(0));
    cg.label("again");
    assert_eq!(cg.get_label("again"), Some(3));
}

#[test]
fn position_wraps_at_the_end_of_the_address_space() {
    let config = RomConfig { org: 0xFFFF, stack_top: 0x3FFF, ram_start: 0x2000 };
    let mut cg = CodeGen::with_config(config);
    assert_eq!(cg.pos(), 0xFFFF);
    cg.emit(&[0, 0]);
    assert_eq!(cg.pos(), 0x0001);
    cg.label("wrapped");
    assert_eq!(cg.get_label("wrapped"), Some(0x0001));
}

#[test]
fn fixup_appends_two_zero_bytes() {
    let mut cg = CodeGen::new();
    cg.emit_byte(0xCD);
    cg.fixup("later");
    assert_eq!(cg.rom(), &[0xCD, 0x00, 0x00]);
    assert_eq!(cg.size(), 3);
}

#[test]
fn forward_reference_scenario() {
    let mut cg = CodeGen::with_config(RomConfig { org: 0, stack_top: 0x3FFF, ram_start: 0x2000 });
    cg.emit_byte(0xC3);
    cg.fixup("target");
    cg.emit_byte(0x00);
    cg.label("target");
    cg.emit_byte(0xC9);
    assert_eq!(cg.resolve_fixups(), Ok(()));
    assert_eq!(cg.rom(), &[0xC3, 0x04, 0x00, 0x00, 0xC9]);
}

#[test]
fn backward_reference_resolves_too() {
    let config = RomConfig { org: 0x1234, stack_top: 0x3FFF, ram_start: 0x2000 };
    let mut cg = CodeGen::with_config(config);
    cg.emit(&[0xAA, 0xBB]);
    cg.label("back");
    cg.emit(&[0xCC]);
    cg.fixup("back");
    cg.emit(&[0xDD]);
    cg.fixup("front");
    cg.label("front");
    assert_eq!(cg.resolve_fixups(), Ok(()));
    // back = 0x1236, front = 0x1234 + 8
    assert_eq!(cg.rom(), &[0xAA, 0xBB, 0xCC, 0x36, 0x12, 0xDD, 0x3C, 0x12]);
}

#[test]
fn resolution_uses_the_last_definition() {
    let mut cg = CodeGen::new();
    cg.label("twice");
    cg.fixup("twice");
    cg.label("twice");
    assert_eq!(cg.resolve_fixups(), Ok(()));
    assert_eq!(cg.rom(), &[0x02, 0x00]);
}

#[test]
fn resolution_without_slots_changes_nothing() {
    let mut cg = CodeGen::new();
    cg.emit(&[1, 2, 3]);
    assert_eq!(cg.resolve_fixups(), Ok(()));
    assert_eq!(cg.rom(), &[1, 2, 3]);
}

#[test]
fn undefined_symbol_is_reported_by_name() {
    let mut cg = CodeGen::new();
    cg.emit_byte(0xC3);
    cg.fixup("nowhere");
    let r = cg.resolve_fixups();
    assert_eq!(r, Err(ResolveError::UndefinedSymbol("nowhere".to_string())));
    assert_eq!(r.unwrap_err().message(), "Undefined label: nowhere");
}

#[test]
fn first_undefined_symbol_stops_the_pass() {
    let mut cg = CodeGen::new();
    cg.emit(&[0x11, 0x22, 0x33]);
    cg.label("ok");
    cg.fixup("ok");
    cg.fixup("missing_one");
    cg.fixup("ok");
    cg.fixup("missing_two");
    let r = cg.resolve_fixups();
    assert_eq!(r, Err(ResolveError::UndefinedSymbol("missing_one".to_string())));
    // The slot before the undefined one is filled, the ones after are not.
    assert_eq!(
        cg.rom(),
        &[0x11, 0x22, 0x33, 0x03, 0x00, 0x00, 0x00, 0x00, 0x00, 0x00, 0x00]
    );
}

#[test]
fn backward_relative_branch_scenario() {
    let mut cg = CodeGen::new();
    cg.label("loop");
    cg.emit_byte(0x00);
    cg.emit_byte(0x00);
    cg.emit_byte(0x18);
    cg.emit_relative("loop");
    assert_eq!(cg.rom(), &[0x00, 0x00, 0x18, 0xFC]);
}

#[test]
fn relative_displacement_decodes_to_the_distance() {
    let config = RomConfig { org: 0x4000, stack_top: 0x3FFF, ram_start: 0x2000 };
    for gap in 0usize..=127 {
        let mut cg = CodeGen::with_config(config);
        cg.label("t");
        for _ in 0..gap {
            cg.emit_byte(0);
        }
        let p = cg.pos() as i32;
        cg.emit_relative("t");
        let d = cg.rom()[gap] as i8 as i32;
        assert_eq!(cg.get_label("t").unwrap() as i32, p + 1 + d);
        assert_eq!(d, -(gap as i32) - 1);
    }
}

#[test]
fn relative_displacement_out_of_range_wraps() {
    let mut cg = CodeGen::new();
    cg.label("far");
    cg.emit(&[0; 200]);
    cg.emit_relative("far");
    // 0 - 201 = -201, whose low eight bits are 0x37.
    assert_eq!(cg.rom()[200], 0x37);
}

#[test]
fn unique_labels_count_from_one() {
    let mut cg = CodeGen::new();
    assert_eq!(cg.unique_label("loop"), "loop_1");
    assert_eq!(cg.unique_label("loop"), "loop_2");
    assert_eq!(cg.unique_label("end"), "end_3");
    for _ in 0..6 {
        cg.unique_label("x");
    }
    assert_eq!(cg.unique_label(""), "_10");
    for _ in 0..89 {
        cg.unique_label("x");
    }
    assert_eq!(cg.unique_label("n"), "n_100");
    assert_eq!(cg.size(), 0);
}

#[test]
fn rom_mut_patches_the_image() {
    let mut cg = CodeGen::new();
    cg.emit(&[1, 2, 3]);
    cg.rom_mut()[1] = 0x7F;
    assert_eq!(cg.rom(), &[1, 0x7F, 3]);
    cg.rom_mut().push(9);
    assert_eq!(cg.size(), 4);
    assert_eq!(cg.pos(), 4);
}
