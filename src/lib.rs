//! A small virtual CPU for a CHIP-8 style instruction set: sixteen 8-bit
//! registers, 4 KiB of memory, a 16-entry call stack and a
//! fetch-decode-execute cycle whose behaviour is stated as a model.

pub mod instruction;
pub mod machine;
pub mod laws;
