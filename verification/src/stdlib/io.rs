//! Serial I/O routines for the MC6850 ACIA.
//!
//! The standard ports: status at 0x80, data at 0x81; bit 0 of the status
//! byte says that a byte was received, bit 1 that one can be sent.

use vstd::prelude::*;
use crate::codegen::CodeGen;
use crate::model::Session;

verus! {

/// The ports and status bits of an MC6850.
#[derive(Clone, Copy, Debug, PartialEq, Eq, Structural)]
pub struct MC6850Config {
    /// Port of the status register.
    pub status_port: u8,
    /// Port of the data register.
    pub data_port: u8,
    /// Mask of the status bit that says a byte was received.
    pub rx_ready_bit: u8,
    /// Mask of the status bit that says a byte can be sent.
    pub tx_ready_bit: u8,
}

impl MC6850Config {
    /// The standard configuration.
    pub open spec fn standard() -> MC6850Config {
        MC6850Config { status_port: 0x80, data_port: 0x81, rx_ready_bit: 0x01, tx_ready_bit: 0x02 }
    }
}

impl Default for MC6850Config {
    fn default() -> (config: Self)
        ensures
            config == MC6850Config::standard(),
    {
        MC6850Config { status_port: 0x80, data_port: 0x81, rx_ready_bit: 0x01, tx_ready_bit: 0x02 }
    }
}

impl Session {
    /// The session after the `getchar` routine was generated: the label
    /// `getchar`, then code that polls the status port until a byte was
    /// received, reads it into A and returns.
    pub open spec fn getchar_routine(self, config: MC6850Config) -> Session {
        self.label("getchar"@).emit(
            seq![
                0xDBu8, config.status_port,  // IN A, (status)
                0xE6, config.rx_ready_bit,   // AND rx
                0x28, 0xFA,                  // JR Z, getchar
                0xDB, config.data_port,      // IN A, (data)
                0xC9,                        // RET
            ],
        )
    }

    /// The session after the `putchar` routine was generated: the label
    /// `putchar`, a push of A, the label `putchar_wait`, then code that
    /// polls the status port until a byte can be sent, sends A and returns.
    pub open spec fn putchar_routine(self, config: MC6850Config) -> Session {
        self.label("putchar"@).emit(seq![0xF5u8]).label("putchar_wait"@).emit(
            seq![
                0xDBu8, config.status_port,  // IN A, (status)
                0xE6, config.tx_ready_bit,   // AND tx
                0x28, 0xFA,                  // JR Z, putchar_wait
                0xF1,                        // POP AF
                0xD3, config.data_port,      // OUT (data), A
                0xC9,                        // RET
            ],
        )
    }

    /// The session after the `newline` routine was generated: the label
    /// `newline`, then code that sends CR and LF through `putchar`.
    pub open spec fn newline_routine(self) -> Session {
        self.label("newline"@)
            .emit(seq![0x3Eu8, 0x0D, 0xCD]).fixup("putchar"@)
            .emit(seq![0x3Eu8, 0x0A, 0xCD]).fixup("putchar"@)
            .emit(seq![0xC9u8])
    }

    /// The session after the `print_string` routine was generated: the
    /// labels `print_string` and `print_string_loop`, then code that sends
    /// the bytes at HL through `putchar` up to a zero byte.
    pub open spec fn print_string_routine(self) -> Session {
        self.label("print_string"@).label("print_string_loop"@)
            .emit(seq![0x7Eu8, 0xB7, 0xC8, 0xCD]).fixup("putchar"@)
            .emit(seq![0x23u8, 0xC3]).fixup("print_string_loop"@)
    }

    /// The session after the four I/O routines were generated, with the
    /// standard configuration.
    pub open spec fn io_routines(self) -> Session {
        self.getchar_routine(MC6850Config::standard())
            .putchar_routine(MC6850Config::standard())
            .newline_routine()
            .print_string_routine()
    }
}

impl CodeGen {
    /// Generates the `getchar` routine (blocking read, the byte comes back
    /// in A) for the standard ports.
    pub fn emit_getchar(&mut self)
        ensures
            final(self)@ == old(self)@.getchar_routine(MC6850Config::standard()),
    {
        self.emit_getchar_config(&MC6850Config::default());
    }

    /// Generates the `getchar` routine for the given ports.
    pub fn emit_getchar_config(&mut self, config: &MC6850Config)
        ensures
            final(self)@ == old(self)@.getchar_routine(*config),
    {
        self.label("getchar");
        self.in_a(config.status_port);
        self.and_a(config.rx_ready_bit);
        self.emit(&[0x28, 0xFA]);
        self.in_a(config.data_port);
        self.ret();
    }

    /// Generates the `putchar` routine (blocking write of the byte in A)
    /// for the standard ports.
    pub fn emit_putchar(&mut self)
        ensures
            final(self)@ == old(self)@.putchar_routine(MC6850Config::standard()),
    {
        self.emit_putchar_config(&MC6850Config::default());
    }

    /// Generates the `putchar` routine for the given ports.
    pub fn emit_putchar_config(&mut self, config: &MC6850Config)
        ensures
            final(self)@ == old(self)@.putchar_routine(*config),
    {
        self.label("putchar");
        self.push_af();
        self.label("putchar_wait");
        self.in_a(config.status_port);
        self.and_a(config.tx_ready_bit);
        self.emit(&[0x28, 0xFA]);
        self.pop_af();
        self.out_a(config.data_port);
        self.ret();
    }

    /// Generates the `newline` routine, which sends CR and LF. It calls
    /// `putchar`.
    pub fn emit_newline(&mut self)
        ensures
            final(self)@ == old(self)@.newline_routine(),
    {
        self.label("newline");
        self.ld_a(0x0D);
        self.call("putchar");
        self.ld_a(0x0A);
        self.call("putchar");
        self.ret();
    }

    /// Generates the `print_string` routine, which sends the zero-terminated
    /// string at HL. It calls `putchar`.
    pub fn emit_print_string(&mut self)
        ensures
            final(self)@ == old(self)@.print_string_routine(),
    {
        self.label("print_string");
        self.label("print_string_loop");
        self.ld_a_hl_ind();
        self.or_a_a();
        self.ret_z();
        self.call("putchar");
        self.inc_hl();
        self.jp("print_string_loop");
    }

    /// Generates all four I/O routines: `getchar`, `putchar`, `newline` and
    /// `print_string`.
    pub fn emit_io_routines(&mut self)
        ensures
            final(self)@ == old(self)@.io_routines(),
    {
        self.emit_getchar();
        self.emit_putchar();
        self.emit_newline();
        self.emit_print_string();
    }
}

} // verus!
