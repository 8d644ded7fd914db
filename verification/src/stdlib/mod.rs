//! Ready-made routines that a ROM can include: serial I/O, terminal
//! control sequences and number routines.

pub mod io;
pub mod terminal;
pub mod math;
