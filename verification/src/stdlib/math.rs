//! Number routines: decimal printing, division, multiplication, negation.

use vstd::prelude::*;
use crate::codegen::CodeGen;
use crate::model::{unique_name, Session};

verus! {

impl Session {
    /// The session after the `print_byte_dec` routine was generated. Its
    /// four inner labels are the next four unique names: the loop that
    /// extracts a digit, the loop that divides by ten, the end of that
    /// division, and the loop that prints the digits from the stack.
    pub open spec fn print_byte_dec_routine(self) -> Session {
        let extract = unique_name("pbd_ext"@, self.counter + 1);
        let divide = unique_name("pbd_div"@, self.counter + 2);
        let divided = unique_name("pbd_ddone"@, self.counter + 3);
        let print = unique_name("pbd_print"@, self.counter + 4);
        let code = self.label("print_byte_dec"@)
            .emit(seq![0x0Eu8, 0x00])            // LD C, 0
            .label(extract)
            .emit(seq![0x06u8, 0x00])            // LD B, 0
            .label(divide)
            .emit(seq![0xFEu8, 10, 0xDA]).fixup(divided)  // CP 10; JP C, divided
            .emit(seq![0xD6u8, 10, 0x04, 0xC3]).fixup(divide)  // SUB 10; INC B; JP divide
            .label(divided)
            .emit(seq![0xC6u8, 0x30, 0xF5, 0x0C, 0x78, 0xB7, 0xC2]).fixup(extract)
            .label(print)
            .emit(seq![0xF1u8, 0xCD]).fixup("putchar"@)   // POP AF; CALL putchar
            .emit(seq![0x0Du8, 0xC2]).fixup(print)        // DEC C; JP NZ, print
            .emit(seq![0xC9u8]);
        Session { counter: self.counter + 4, ..code }
    }

    /// The session after the `div16` routine was generated, with its labels
    /// `div16`, `div16_loop` and `div16_done`.
    pub open spec fn div16_routine(self) -> Session {
        self.label("div16"@)
            .emit(seq![0x01u8]).emit_word(0)     // LD BC, 0
            .label("div16_loop"@)
            .emit(seq![0xB7u8, 0xED, 0x52, 0xDA]).fixup("div16_done"@)
            .emit(seq![0x03u8, 0xC3]).fixup("div16_loop"@)
            .label("div16_done"@)
            .emit(seq![0x19u8, 0xEB, 0x60, 0x69, 0xC9])
    }

    /// The session after the `mul8` routine was generated, with its labels
    /// `mul8` and `mul8_loop`. The branch that closes the loop is relative.
    pub open spec fn mul8_routine(self) -> Session {
        self.label("mul8"@)
            .emit(seq![0x21u8]).emit_word(0)     // LD HL, 0
            .emit(seq![0xB7u8, 0xC8, 0x4F, 0x78, 0xB7, 0xC8])
            .label("mul8_loop"@)
            .emit(seq![0x79u8, 0x85, 0x6F, 0x30, 0x01, 0x24, 0x10])
            .emit_relative("mul8_loop"@)
            .emit(seq![0xC9u8])
    }

    /// The session after the `negate_hl` routine was generated.
    pub open spec fn negate_hl_routine(self) -> Session {
        self.label("negate_hl"@).emit(seq![0x7Cu8, 0x2F, 0x67, 0x7D, 0x2F, 0x6F, 0x23, 0xC9])
    }

    /// The session after the math routines of the standard bundle were
    /// generated: `print_byte_dec`, `div16` and `negate_hl`.
    pub open spec fn math_routines(self) -> Session {
        self.print_byte_dec_routine().div16_routine().negate_hl_routine()
    }
}

impl CodeGen {
    /// Generates the `print_byte_dec` routine, which prints A in decimal
    /// without leading zeros. It takes four unique names for its inner
    /// labels and calls `putchar`.
    pub fn emit_print_byte_dec(&mut self)
        requires
            old(self)@.counter + 4 <= u32::MAX,
        ensures
            final(self)@ == old(self)@.print_byte_dec_routine(),
    {
        self.label("print_byte_dec");
        self.ld_c(0);

        let extract_loop: String = self.unique_label("pbd_ext");
        self.label(extract_loop.as_str());
        self.ld_b(0);
        let div_loop: String = self.unique_label("pbd_div");
        self.label(div_loop.as_str());
        self.cp(10);
        let div_done: String = self.unique_label("pbd_ddone");
        self.jp_c(div_done.as_str());
        self.sub_a(10);
        self.inc_b();
        self.jp(div_loop.as_str());

        self.label(div_done.as_str());
        self.add_a(0x30);  // '0'
        self.push_af();
        self.inc_c();
        self.ld_a_b();
        self.or_a_a();
        self.jp_nz(extract_loop.as_str());

        let print_loop: String = self.unique_label("pbd_print");
        self.label(print_loop.as_str());
        self.pop_af();
        self.call("putchar");
        self.dec_c();
        self.jp_nz(print_loop.as_str());
        self.ret();
    }

    /// Generates the `div16` routine: HL divided by DE, quotient in HL,
    /// remainder in DE.
    pub fn emit_div16(&mut self)
        ensures
            final(self)@ == old(self)@.div16_routine(),
    {
        self.label("div16");
        self.ld_bc(0);

        self.label("div16_loop");
        self.or_a_a();
        self.sbc_hl_de();
        self.jp_c("div16_done");
        self.inc_bc();
        self.jp("div16_loop");

        self.label("div16_done");
        self.add_hl_de();
        self.ex_de_hl();
        self.emit_byte(0x60);  // LD H, B
        self.emit_byte(0x69);  // LD L, C
        self.ret();
    }

    /// Generates the `mul8` routine: A times B, product in HL.
    pub fn emit_mul8(&mut self)
        ensures
            final(self)@ == old(self)@.mul8_routine(),
    {
        self.label("mul8");
        self.ld_hl(0);
        self.or_a_a();
        self.ret_z();

        self.ld_c_a();
        self.ld_a_b();
        self.or_a_a();
        self.ret_z();

        self.label("mul8_loop");
        self.emit_byte(0x79);  // LD A, C
        self.emit_byte(0x85);  // ADD A, L
        self.emit_byte(0x6F);  // LD L, A
        self.emit(&[0x30, 0x01]);  // JR NC, +1
        self.emit_byte(0x24);  // INC H
        self.djnz("mul8_loop");
        self.ret();
    }

    /// Generates the `negate_hl` routine: the two's complement of HL.
    pub fn emit_negate_hl(&mut self)
        ensures
            final(self)@ == old(self)@.negate_hl_routine(),
    {
        self.label("negate_hl");
        self.emit_byte(0x7C);  // LD A, H
        self.cpl();
        self.emit_byte(0x67);  // LD H, A
        self.emit_byte(0x7D);  // LD A, L
        self.cpl();
        self.emit_byte(0x6F);  // LD L, A
        self.inc_hl();
        self.ret();
    }

    /// Generates the math routines of the standard bundle:
    /// `print_byte_dec`, `div16` and `negate_hl`.
    pub fn emit_math_routines(&mut self)
        requires
            old(self)@.counter + 4 <= u32::MAX,
        ensures
            final(self)@ == old(self)@.math_routines(),
    {
        self.emit_print_byte_dec();
        self.emit_div16();
        self.emit_negate_hl();
    }
}

} // verus!
