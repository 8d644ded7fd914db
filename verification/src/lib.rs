//! A workbench for building Z80 ROM images.
//!
//! A [`CodeGen`] session appends bytes to an image, binds label names to
//! addresses, and records two-byte address slots for labels that may be
//! defined later. When everything has been generated, one resolution pass
//! fills the slots, and the image can be read as raw bytes or as Intel HEX
//! text.
//!
//! - `model`: the mathematical model that the contracts speak of
//! - `codegen`: the emit / label / fixup engine
//! - `hex`: the Intel HEX text of an image
//! - `instructions`: one call for each Z80 instruction
//! - `stdlib`: ready-made serial I/O, terminal and number routines
//! - `laws`: what holds of every session

use vstd::prelude::*;
use vstd::string::StringSliceAdditionalSpecFns;

pub mod digits;
pub mod model;
pub mod codegen;
pub mod hex;
pub mod instructions;
pub mod laws;
pub mod prelude;
pub mod stdlib;

pub use codegen::{CodeGen, ResolveError, RomConfig};
use model::Session;

verus! {

impl Session {
    /// The session after the start-up sequence was generated: the label
    /// `_start`, a DI, and a load of `stack_top` into SP.
    pub open spec fn startup(self, stack_top: u16) -> Session {
        self.label("_start"@).emit(seq![0xF3u8]).emit(seq![0x31u8]).emit_word(stack_top)
    }

    /// The session after a load of a label's address into a register pair
    /// was generated: the opcode, then a slot for the label.
    pub open spec fn load_label(self, opcode: u8, name: Seq<char>) -> Session {
        self.emit(seq![opcode]).fixup(name)
    }

    /// The session after all routines of the standard bundle were
    /// generated: I/O, then terminal, then math.
    pub open spec fn stdlib(self) -> Session {
        self.io_routines().terminal_routines().math_routines()
    }
}

impl CodeGen {
    /// Generates the start-up sequence: defines `_start`, disables
    /// interrupts and sets the stack pointer to `stack_top`.
    pub fn emit_startup(&mut self, stack_top: u16)
        ensures
            final(self)@ == old(self)@.startup(stack_top),
    {
        self.label("_start");
        self.di();
        self.ld_sp(stack_top);
    }

    /// LD HL, nn with the address of a label, by a recorded slot.
    pub fn ld_hl_label(&mut self, label: &str)
        ensures
            final(self)@ == old(self)@.load_label(0x21, label@),
    {
        self.emit_byte(0x21);
        self.fixup(label);
    }

    /// LD DE, nn with the address of a label, by a recorded slot.
    pub fn ld_de_label(&mut self, label: &str)
        ensures
            final(self)@ == old(self)@.load_label(0x11, label@),
    {
        self.emit_byte(0x11);
        self.fixup(label);
    }

    /// LD BC, nn with the address of a label, by a recorded slot.
    pub fn ld_bc_label(&mut self, label: &str)
        ensures
            final(self)@ == old(self)@.load_label(0x01, label@),
    {
        self.emit_byte(0x01);
        self.fixup(label);
    }

    /// Defines `label` and appends `s` as a zero-terminated string.
    pub fn string_const(&mut self, label: &str, s: &str)
        ensures
            final(self)@ == old(self)@.label(label@).emit_string(s.spec_bytes()),
    {
        self.label(label);
        self.emit_string(s);
    }

    /// Generates all routines of the standard bundle: the I/O routines
    /// (`getchar`, `putchar`, `newline`, `print_string`), the terminal
    /// routines (`clear_screen`, `cursor_pos` and others) and the math
    /// routines (`print_byte_dec`, `div16`, `negate_hl`).
    pub fn include_stdlib(&mut self)
        requires
            old(self)@.counter + 4 <= u32::MAX,
        ensures
            final(self)@ == old(self)@.stdlib(),
    {
        self.emit_io_routines();
        self.emit_terminal_routines();
        self.emit_math_routines();
    }
}

} // verus!
