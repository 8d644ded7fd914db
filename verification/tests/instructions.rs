use retroshield_z80_workbench::CodeGen;

#[test]
fn test_ld_a() {
    let mut cg = CodeGen::new();
    cg.ld_a(0x42);
    assert_eq!(cg.rom(), &[0x3E, 0x42]);
}

#[test]
fn test_ld_hl() {
    let mut cg = CodeGen::new();
    cg.ld_hl(0x1234);
    assert_eq!(cg.rom(), &[0x21, 0x34, 0x12]);
}

#[test]
fn test_call_and_ret() {
    let mut cg = CodeGen::new();
    cg.label("start");
    cg.call("func");
    cg.halt();
    cg.label("func");
    cg.ret();
    cg.resolve_fixups().unwrap();

    // CALL should point to func at offset 4
    assert_eq!(cg.rom()[0], 0xCD);
    assert_eq!(cg.rom()[1], 0x04);
    assert_eq!(cg.rom()[2], 0x00);
}

#[test]
fn test_8bit_loads() {
    let mut cg = CodeGen::new();
    cg.ld_b(0x10);
    cg.ld_c(0x20);
    cg.ld_d(0x30);
    cg.ld_e(0x40);
    assert_eq!(cg.rom(), &[0x06, 0x10, 0x0E, 0x20, 0x16, 0x30, 0x1E, 0x40]);
}

#[test]
fn test_16bit_loads() {
    let mut cg = CodeGen::new();
    cg.ld_bc(0x1234);
    cg.ld_de(0x5678);
    cg.ld_sp(0x3FFF);
    assert_eq!(cg.rom(), &[
        0x01, 0x34, 0x12,  // LD BC, 0x1234
        0x11, 0x78, 0x56,  // LD DE, 0x5678
        0x31, 0xFF, 0x3F,  // LD SP, 0x3FFF
    ]);
}

#[test]
fn test_register_transfers() {
    let mut cg = CodeGen::new();
    cg.ld_a_b();
    cg.ld_a_c();
    cg.ld_b_a();
    cg.ld_c_a();
    assert_eq!(cg.rom(), &[0x78, 0x79, 0x47, 0x4F]);
}

#[test]
fn test_memory_access() {
    let mut cg = CodeGen::new();
    cg.ld_a_hl_ind();
    cg.ld_hl_ind_a();
    cg.ld_a_addr(0x3000);
    cg.ld_addr_a(0x3000);
    assert_eq!(cg.rom(), &[
        0x7E,              // LD A, (HL)
        0x77,              // LD (HL), A
        0x3A, 0x00, 0x30,  // LD A, (0x3000)
        0x32, 0x00, 0x30,  // LD (0x3000), A
    ]);
}

#[test]
fn test_stack_operations() {
    let mut cg = CodeGen::new();
    cg.push_af();
    cg.push_bc();
    cg.push_de();
    cg.push_hl();
    cg.pop_hl();
    cg.pop_de();
    cg.pop_bc();
    cg.pop_af();
    assert_eq!(cg.rom(), &[0xF5, 0xC5, 0xD5, 0xE5, 0xE1, 0xD1, 0xC1, 0xF1]);
}

#[test]
fn test_arithmetic() {
    let mut cg = CodeGen::new();
    cg.add_a(5);
    cg.sub_a(3);
    cg.inc_a();
    cg.dec_a();
    cg.inc_hl();
    cg.dec_de();
    assert_eq!(cg.rom(), &[
        0xC6, 0x05,  // ADD A, 5
        0xD6, 0x03,  // SUB 3
        0x3C,        // INC A
        0x3D,        // DEC A
        0x23,        // INC HL
        0x1B,        // DEC DE
    ]);
}

#[test]
fn test_16bit_arithmetic() {
    let mut cg = CodeGen::new();
    cg.add_hl_bc();
    cg.add_hl_de();
    cg.add_hl_hl();
    cg.sbc_hl_de();
    assert_eq!(cg.rom(), &[
        0x09,        // ADD HL, BC
        0x19,        // ADD HL, DE
        0x29,        // ADD HL, HL
        0xED, 0x52,  // SBC HL, DE
    ]);
}

#[test]
fn test_logic() {
    let mut cg = CodeGen::new();
    cg.and_a(0x0F);
    cg.or_a(0xF0);
    cg.xor_a();
    cg.cp(0x0D);
    cg.cpl();
    assert_eq!(cg.rom(), &[
        0xE6, 0x0F,  // AND 0x0F
        0xF6, 0xF0,  // OR 0xF0
        0xAF,        // XOR A
        0xFE, 0x0D,  // CP 0x0D
        0x2F,        // CPL
    ]);
}

#[test]
fn test_jumps() {
    let mut cg = CodeGen::new();
    cg.label("target");
    cg.nop();
    cg.jp("target");
    cg.jp_z("target");
    cg.jp_nz("target");
    cg.jp_c("target");
    cg.jp_nc("target");
    cg.resolve_fixups().unwrap();

    assert_eq!(cg.rom()[0], 0x00);  // NOP
    assert_eq!(cg.rom()[1], 0xC3);  // JP
    assert_eq!(cg.rom()[4], 0xCA);  // JP Z
    assert_eq!(cg.rom()[7], 0xC2);  // JP NZ
    assert_eq!(cg.rom()[10], 0xDA); // JP C
    assert_eq!(cg.rom()[13], 0xD2); // JP NC
}

#[test]
fn test_relative_jumps() {
    let mut cg = CodeGen::new();
    cg.label("loop");
    cg.nop();
    cg.nop();
    cg.jr("loop");

    // JR offset should be -4 (back 4 bytes from after the JR instruction)
    assert_eq!(cg.rom(), &[0x00, 0x00, 0x18, 0xFC]); // 0xFC = -4 signed
}

#[test]
fn test_djnz() {
    let mut cg = CodeGen::new();
    cg.ld_b(10);
    cg.label("loop");
    cg.dec_a();
    cg.djnz("loop");

    assert_eq!(cg.rom(), &[
        0x06, 0x0A,  // LD B, 10
        0x3D,        // DEC A
        0x10, 0xFD,  // DJNZ loop (-3)
    ]);
}

#[test]
fn test_io() {
    let mut cg = CodeGen::new();
    cg.in_a(0x80);
    cg.out_a(0x81);
    assert_eq!(cg.rom(), &[0xDB, 0x80, 0xD3, 0x81]);
}

#[test]
fn test_misc() {
    let mut cg = CodeGen::new();
    cg.nop();
    cg.halt();
    cg.di();
    cg.ei();
    cg.ex_de_hl();
    assert_eq!(cg.rom(), &[0x00, 0x76, 0xF3, 0xFB, 0xEB]);
}

#[test]
fn test_conditional_returns() {
    let mut cg = CodeGen::new();
    cg.ret();
    cg.ret_z();
    cg.ret_nz();
    cg.ret_c();
    cg.ret_nc();
    assert_eq!(cg.rom(), &[0xC9, 0xC8, 0xC0, 0xD8, 0xD0]);
}

#[test]
fn test_bit_operations() {
    let mut cg = CodeGen::new();
    cg.bit_a(0);
    cg.bit_a(7);
    cg.set_a(3);
    cg.res_a(5);
    assert_eq!(cg.rom(), &[
        0xCB, 0x47,  // BIT 0, A
        0xCB, 0x7F,  // BIT 7, A
        0xCB, 0xDF,  // SET 3, A
        0xCB, 0xAF,  // RES 5, A
    ]);
}

#[test]
fn test_rotates() {
    let mut cg = CodeGen::new();
    cg.rla();
    cg.rra();
    cg.rlca();
    cg.rrca();
    assert_eq!(cg.rom(), &[0x17, 0x1F, 0x07, 0x0F]);
}

#[test]
fn relative_jumps_share_one_encoding() {
    let mut cg = CodeGen::new();
    cg.label("top");
    cg.jr("top");
    cg.jr_z("top");
    cg.jr_nz("top");
    cg.jr_c("top");
    cg.jr_nc("top");
    cg.djnz("top");
    assert_eq!(
        cg.rom(),
        &[0x18, 0xFE, 0x28, 0xFC, 0x20, 0xFA, 0x38, 0xF8, 0x30, 0xF6, 0x10, 0xF4]
    );
}

#[test]
fn label_operands_become_resolved_addresses() {
    let mut cg = CodeGen::new();
    cg.call("f");
    cg.call_z("f");
    cg.call_nz("f");
    cg.jp_p("f");
    cg.jp_m("f");
    cg.label("f");
    cg.ret();
    cg.resolve_fixups().unwrap();
    assert_eq!(
        cg.rom(),
        &[
            0xCD, 0x0F, 0x00, 0xCC, 0x0F, 0x00, 0xC4, 0x0F, 0x00, 0xF2, 0x0F, 0x00, 0xFA, 0x0F,
            0x00, 0xC9,
        ]
    );
}

#[test]
fn absolute_operands_are_little_endian() {
    let mut cg = CodeGen::new();
    cg.jp_addr(0x1234);
    cg.call_addr(0xABCD);
    cg.ld_hl_addr(0x2000);
    cg.ld_addr_hl(0x2002);
    cg.ld_de_addr(0x2004);
    cg.ld_addr_de(0x2006);
    assert_eq!(
        cg.rom(),
        &[
            0xC3, 0x34, 0x12, 0xCD, 0xCD, 0xAB, 0x2A, 0x00, 0x20, 0x22, 0x02, 0x20, 0xED, 0x5B,
            0x04, 0x20, 0xED, 0x53, 0x06, 0x20,
        ]
    );
}

#[test]
fn bit_numbers_land_in_bits_three_to_five() {
    for bit in 0..8u8 {
        let mut cg = CodeGen::new();
        cg.bit_a(bit);
        cg.set_a(bit);
        cg.res_a(bit);
        assert_eq!(
            cg.rom(),
            &[0xCB, 0x47 + 8 * bit, 0xCB, 0xC7 + 8 * bit, 0xCB, 0x87 + 8 * bit]
        );
    }
}

#[test]
fn remaining_single_byte_instructions() {
    let mut cg = CodeGen::new();
    cg.ld_h(1);
    cg.ld_l(2);
    cg.ld_a_d();
    cg.ld_a_e();
    cg.ld_d_a();
    cg.ld_e_a();
    cg.ld_sp_hl();
    cg.ex_af();
    cg.exx();
    cg.add_a_b();
    cg.add_a_hl_ind();
    cg.sub_b();
    cg.inc_b();
    cg.inc_c();
    cg.dec_b();
    cg.dec_c();
    cg.inc_de();
    cg.inc_bc();
    cg.dec_hl();
    cg.dec_bc();
    cg.sbc_hl_bc();
    cg.or_a_a();
    cg.or_b();
    cg.or_l();
    cg.xor_n(0x55);
    cg.cp_b();
    cg.cp_hl_ind();
    cg.jp_hl();
    cg.scf();
    cg.ccf();
    cg.sla_a();
    cg.sra_a();
    cg.srl_a();
    assert_eq!(
        cg.rom(),
        &[
            0x26, 0x01, 0x2E, 0x02, 0x7A, 0x7B, 0x57, 0x5F, 0xF9, 0x08, 0xD9, 0x80, 0x86, 0x90,
            0x04, 0x0C, 0x05, 0x0D, 0x13, 0x03, 0x2B, 0x0B, 0xED, 0x42, 0xB7, 0xB0, 0xB5, 0xEE,
            0x55, 0xB8, 0xBE, 0xE9, 0x37, 0x3F, 0xCB, 0x27, 0xCB, 0x2F, 0xCB, 0x3F,
        ]
    );
}
