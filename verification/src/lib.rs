//! A general-purpose-register file in the x86-64 style: eight independent
//! 64-bit storage cells, each addressable through overlapping 64-, 32-, 16-
//! and 8-bit views. Narrow writes are read-modify-write: every bit of the
//! owning cell outside the written range is preserved.

pub mod laws;
pub mod registers;

pub use registers::CPURegisters;
pub use registers::RegisterIdentifier16Bit;
pub use registers::RegisterIdentifier32Bit;
pub use registers::RegisterIdentifier64Bit;
pub use registers::RegisterIdentifier8Bit;
