use retroshield_z80_workbench::prelude::{CodeGen, ResolveError, RomConfig};

#[test]
fn test_basic_program() {
    let mut rom = CodeGen::new();

    rom.emit_startup(0x3FFF);
    rom.label("main");
    rom.halt();

    rom.resolve_fixups().unwrap();
    assert!(rom.size() > 0);
}

#[test]
fn test_with_stdlib() {
    let mut rom = CodeGen::new();

    rom.emit_startup(0x3FFF);

    // Main code
    rom.label("main");
    rom.call("clear_screen");
    rom.ld_hl_label("msg");
    rom.call("print_string");
    rom.jp("main");

    // Data
    rom.string_const("msg", "Hello!\r\n");

    // The routines come after the main code, so that it is not disturbed.
    rom.include_stdlib();

    rom.resolve_fixups().unwrap();
    println!("ROM size: {} bytes", rom.size());
}

#[test]
fn startup_sequence_bytes() {
    let mut rom = CodeGen::new();
    rom.emit_startup(0x3FFF);
    assert_eq!(rom.get_label("_start"), Some(0));
    assert_eq!(rom.rom(), &[0xF3, 0x31, 0xFF, 0x3F]);
}

#[test]
fn label_loads_record_slots() {
    let mut rom = CodeGen::with_config(RomConfig { org: 0x0100, stack_top: 0, ram_start: 0 });
    rom.ld_hl_label("data");
    rom.ld_de_label("data");
    rom.ld_bc_label("data");
    assert_eq!(rom.rom(), &[0x21, 0, 0, 0x11, 0, 0, 0x01, 0, 0]);
    rom.string_const("data", "ok");
    assert_eq!(rom.resolve_fixups(), Ok(()));
    assert_eq!(
        rom.rom(),
        &[0x21, 0x09, 0x01, 0x11, 0x09, 0x01, 0x01, 0x09, 0x01, 0x6F, 0x6B, 0x00]
    );
}

#[test]
fn string_const_defines_its_label() {
    let mut rom = CodeGen::new();
    rom.nop();
    rom.string_const("msg", "A");
    assert_eq!(rom.get_label("msg"), Some(1));
    assert_eq!(rom.rom(), &[0x00, 0x41, 0x00]);
}

#[test]
fn stdlib_needs_nothing_else_to_resolve() {
    let mut rom = CodeGen::new();
    rom.include_stdlib();
    assert_eq!(rom.resolve_fixups(), Ok(()));
    for name in [
        "getchar", "putchar", "putchar_wait", "newline", "print_string", "print_string_loop",
        "clear_screen", "cursor_home", "cursor_pos", "clear_to_eol", "cursor_hide",
        "cursor_show", "print_byte_dec", "div16", "div16_loop", "div16_done", "negate_hl",
    ] {
        assert!(rom.has_label(name));
    }
    assert!(!rom.has_label("mul8"));
    // The four inner labels of print_byte_dec took the first four names.
    assert_eq!(rom.unique_label("next"), "next_5");
}

#[test]
fn terminal_routines_alone_lack_print_byte_dec() {
    let mut rom = CodeGen::new();
    rom.emit_putchar();
    rom.emit_terminal_routines();
    assert_eq!(
        rom.resolve_fixups(),
        Err(ResolveError::UndefinedSymbol("print_byte_dec".to_string()))
    );
}
