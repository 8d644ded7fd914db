//! VT100 / ANSI terminal control routines.
//!
//! Each routine sends one escape sequence through `putchar`, byte by byte.

use vstd::prelude::*;
use crate::codegen::CodeGen;
use crate::model::Session;

verus! {

/// The escape character.
pub const ESC: u8 = 0x1B;

impl Session {
    /// The session after code that sends `byte` was generated: a load of
    /// `byte` into A and a call of `putchar`.
    pub open spec fn send(self, byte: u8) -> Session {
        self.emit(seq![0x3Eu8, byte, 0xCD]).fixup("putchar"@)
    }

    /// The session after code that sends the sequence introducer, `ESC [`,
    /// was generated.
    pub open spec fn csi(self) -> Session {
        self.send(0x1B).send(0x5B)
    }

    /// `clear_screen`: sends `ESC [ 2 J` and falls through to what follows.
    pub open spec fn clear_screen_routine(self) -> Session {
        self.label("clear_screen"@).csi().send(0x32).send(0x4A)
    }

    /// `cursor_home`: sends `ESC [ H`.
    pub open spec fn cursor_home_routine(self) -> Session {
        self.label("cursor_home"@).csi().send(0x48).emit(seq![0xC9u8])
    }

    /// `cursor_pos`: sends `ESC [ row ; col H`, with the row taken from B and
    /// the column from C, both printed by `print_byte_dec`.
    pub open spec fn cursor_pos_routine(self) -> Session {
        self.label("cursor_pos"@).csi()
            .emit(seq![0x78u8, 0xCD]).fixup("print_byte_dec"@)
            .send(0x3B)
            .emit(seq![0x79u8, 0xCD]).fixup("print_byte_dec"@)
            .send(0x48)
            .emit(seq![0xC9u8])
    }

    /// `clear_to_eol`: sends `ESC [ K`.
    pub open spec fn clear_to_eol_routine(self) -> Session {
        self.label("clear_to_eol"@).csi().send(0x4B).emit(seq![0xC9u8])
    }

    /// `clear_to_eos`: sends `ESC [ J`.
    pub open spec fn clear_to_eos_routine(self) -> Session {
        self.label("clear_to_eos"@).csi().send(0x4A).emit(seq![0xC9u8])
    }

    /// `cursor_hide`: sends `ESC [ ? 2 5 l`.
    pub open spec fn cursor_hide_routine(self) -> Session {
        self.label("cursor_hide"@).csi().send(0x3F).send(0x32).send(0x35).send(0x6C).emit(
            seq![0xC9u8],
        )
    }

    /// `cursor_show`: sends `ESC [ ? 2 5 h`.
    pub open spec fn cursor_show_routine(self) -> Session {
        self.label("cursor_show"@).csi().send(0x3F).send(0x32).send(0x35).send(0x68).emit(
            seq![0xC9u8],
        )
    }

    /// `cursor_up`: sends `ESC [ A`.
    pub open spec fn cursor_up_routine(self) -> Session {
        self.label("cursor_up"@).csi().send(0x41).emit(seq![0xC9u8])
    }

    /// `cursor_down`: sends `ESC [ B`.
    pub open spec fn cursor_down_routine(self) -> Session {
        self.label("cursor_down"@).csi().send(0x42).emit(seq![0xC9u8])
    }

    /// `cursor_right`: sends `ESC [ C`.
    pub open spec fn cursor_right_routine(self) -> Session {
        self.label("cursor_right"@).csi().send(0x43).emit(seq![0xC9u8])
    }

    /// `cursor_left`: sends `ESC [ D`.
    pub open spec fn cursor_left_routine(self) -> Session {
        self.label("cursor_left"@).csi().send(0x44).emit(seq![0xC9u8])
    }

    /// `reset_attrs`: sends `ESC [ 0 m`.
    pub open spec fn reset_attrs_routine(self) -> Session {
        self.label("reset_attrs"@).csi().send(0x30).send(0x6D).emit(seq![0xC9u8])
    }

    /// `reverse_video`: sends `ESC [ 7 m`.
    pub open spec fn reverse_video_routine(self) -> Session {
        self.label("reverse_video"@).csi().send(0x37).send(0x6D).emit(seq![0xC9u8])
    }

    /// The session after the terminal routines of the standard bundle were
    /// generated: `clear_screen`, `cursor_home`, `cursor_pos`,
    /// `clear_to_eol`, `cursor_hide` and `cursor_show`.
    pub open spec fn terminal_routines(self) -> Session {
        self.clear_screen_routine()
            .cursor_home_routine()
            .cursor_pos_routine()
            .clear_to_eol_routine()
            .cursor_hide_routine()
            .cursor_show_routine()
    }
}

impl CodeGen {
    /// Generates code that sends `ESC [`, the start of most sequences.
    fn emit_csi(&mut self)
        ensures
            final(self)@ == old(self)@.csi(),
    {
        self.ld_a(ESC);
        self.call("putchar");
        self.ld_a(0x5B);  // '['
        self.call("putchar");
    }

    // Screen control

    /// Generates the `clear_screen` routine (`ESC [ 2 J`). It has no return:
    /// it falls through to the code generated next. It calls `putchar`.
    pub fn emit_clear_screen(&mut self)
        ensures
            final(self)@ == old(self)@.clear_screen_routine(),
    {
        self.label("clear_screen");
        self.emit_csi();
        self.ld_a(0x32);  // '2'
        self.call("putchar");
        self.ld_a(0x4A);  // 'J'
        self.call("putchar");
    }

    /// Generates the `cursor_home` routine (`ESC [ H`). It calls `putchar`.
    pub fn emit_cursor_home(&mut self)
        ensures
            final(self)@ == old(self)@.cursor_home_routine(),
    {
        self.label("cursor_home");
        self.emit_csi();
        self.ld_a(0x48);  // 'H'
        self.call("putchar");
        self.ret();
    }

    /// Generates `clear_screen` followed by `cursor_home`, so that clearing
    /// the screen also homes the cursor.
    pub fn emit_clear_screen_and_home(&mut self)
        ensures
            final(self)@ == old(self)@.clear_screen_routine().cursor_home_routine(),
    {
        self.emit_clear_screen();
        self.emit_cursor_home();
    }

    /// Generates the `cursor_pos` routine (`ESC [ row ; col H`), which takes
    /// the row in B and the column in C, both counted from 1. It calls
    /// `putchar` and `print_byte_dec`.
    pub fn emit_cursor_pos(&mut self)
        ensures
            final(self)@ == old(self)@.cursor_pos_routine(),
    {
        self.label("cursor_pos");
        self.emit_csi();
        self.ld_a_b();
        self.call("print_byte_dec");
        self.ld_a(0x3B);  // ';'
        self.call("putchar");
        self.ld_a_c();
        self.call("print_byte_dec");
        self.ld_a(0x48);  // 'H'
        self.call("putchar");
        self.ret();
    }

    /// Generates the `clear_to_eol` routine (`ESC [ K`). It calls `putchar`.
    pub fn emit_clear_to_eol(&mut self)
        ensures
            final(self)@ == old(self)@.clear_to_eol_routine(),
    {
        self.label("clear_to_eol");
        self.emit_csi();
        self.ld_a(0x4B);  // 'K'
        self.call("putchar");
        self.ret();
    }

    /// Generates the `clear_to_eos` routine (`ESC [ J`), which clears from
    /// the cursor to the end of the screen. It calls `putchar`.
    pub fn emit_clear_to_eos(&mut self)
        ensures
            final(self)@ == old(self)@.clear_to_eos_routine(),
    {
        self.label("clear_to_eos");
        self.emit_csi();
        self.ld_a(0x4A);  // 'J'
        self.call("putchar");
        self.ret();
    }

    // Cursor visibility

    /// Generates the `cursor_hide` routine (`ESC [ ? 2 5 l`). It calls
    /// `putchar`.
    pub fn emit_cursor_hide(&mut self)
        ensures
            final(self)@ == old(self)@.cursor_hide_routine(),
    {
        self.label("cursor_hide");
        self.emit_csi();
        self.ld_a(0x3F);  // '?'
        self.call("putchar");
        self.ld_a(0x32);  // '2'
        self.call("putchar");
        self.ld_a(0x35);  // '5'
        self.call("putchar");
        self.ld_a(0x6C);  // 'l'
        self.call("putchar");
        self.ret();
    }

    /// Generates the `cursor_show` routine (`ESC [ ? 2 5 h`). It calls
    /// `putchar`.
    pub fn emit_cursor_show(&mut self)
        ensures
            final(self)@ == old(self)@.cursor_show_routine(),
    {
        self.label("cursor_show");
        self.emit_csi();
        self.ld_a(0x3F);  // '?'
        self.call("putchar");
        self.ld_a(0x32);  // '2'
        self.call("putchar");
        self.ld_a(0x35);  // '5'
        self.call("putchar");
        self.ld_a(0x68);  // 'h'
        self.call("putchar");
        self.ret();
    }

    // Cursor movement

    /// Generates the `cursor_up` routine (`ESC [ A`). It calls `putchar`.
    pub fn emit_cursor_up(&mut self)
        ensures
            final(self)@ == old(self)@.cursor_up_routine(),
    {
        self.label("cursor_up");
        self.emit_csi();
        self.ld_a(0x41);  // 'A'
        self.call("putchar");
        self.ret();
    }

    /// Generates the `cursor_down` routine (`ESC [ B`). It calls `putchar`.
    pub fn emit_cursor_down(&mut self)
        ensures
            final(self)@ == old(self)@.cursor_down_routine(),
    {
        self.label("cursor_down");
        self.emit_csi();
        self.ld_a(0x42);  // 'B'
        self.call("putchar");
        self.ret();
    }

    /// Generates the `cursor_right` routine (`ESC [ C`). It calls `putchar`.
    pub fn emit_cursor_right(&mut self)
        ensures
            final(self)@ == old(self)@.cursor_right_routine(),
    {
        self.label("cursor_right");
        self.emit_csi();
        self.ld_a(0x43);  // 'C'
        self.call("putchar");
        self.ret();
    }

    /// Generates the `cursor_left` routine (`ESC [ D`). It calls `putchar`.
    pub fn emit_cursor_left(&mut self)
        ensures
            final(self)@ == old(self)@.cursor_left_routine(),
    {
        self.label("cursor_left");
        self.emit_csi();
        self.ld_a(0x44);  // 'D'
        self.call("putchar");
        self.ret();
    }

    // Text attributes

    /// Generates the `reset_attrs` routine (`ESC [ 0 m`), which resets all
    /// text attributes. It calls `putchar`.
    pub fn emit_reset_attrs(&mut self)
        ensures
            final(self)@ == old(self)@.reset_attrs_routine(),
    {
        self.label("reset_attrs");
        self.emit_csi();
        self.ld_a(0x30);  // '0'
        self.call("putchar");
        self.ld_a(0x6D);  // 'm'
        self.call("putchar");
        self.ret();
    }

    /// Generates the `reverse_video` routine (`ESC [ 7 m`). It calls
    /// `putchar`.
    pub fn emit_reverse_video(&mut self)
        ensures
            final(self)@ == old(self)@.reverse_video_routine(),
    {
        self.label("reverse_video");
        self.emit_csi();
        self.ld_a(0x37);  // '7'
        self.call("putchar");
        self.ld_a(0x6D);  // 'm'
        self.call("putchar");
        self.ret();
    }

    // Bundle

    /// Generates the terminal routines of the standard bundle:
    /// `clear_screen`, `cursor_home`, `cursor_pos`, `clear_to_eol`,
    /// `cursor_hide` and `cursor_show`. They call `putchar` and
    /// `print_byte_dec`.
    pub fn emit_terminal_routines(&mut self)
        ensures
            final(self)@ == old(self)@.terminal_routines(),
    {
        self.emit_clear_screen_and_home();
        self.emit_cursor_pos();
        self.emit_clear_to_eol();
        self.emit_cursor_hide();
        self.emit_cursor_show();
    }
}

} // verus!
