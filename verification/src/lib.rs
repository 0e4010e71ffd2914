#![allow(non_camel_case_types)]

//! Decoder and formatter for AArch64 (A64) machine code.

pub mod decoder;
mod enums;
pub mod formatter;
mod helpers;
mod instruction;
pub mod laws;
mod mnemonic;

pub use decoder::{decode_raw, Decoder};
pub use enums::{Arrangement, Code, Condition, ExtendKind, MemMode, OpKind, Register, ShiftKind};
pub use formatter::{FmtWrite, Formatter, SymbolResolver};
pub use helpers::{bit, bits, decode_bitmask, sign_extend};
pub use instruction::Instruction;
pub use mnemonic::Mnemonic;
