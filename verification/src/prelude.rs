//! The types that most users need, for one `use` item.

pub use crate::codegen::{CodeGen, ResolveError, RomConfig};
