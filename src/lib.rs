//! Typed x86-64 operands rendered as AT&T-syntax assembly text.
//!
//! Operands are built as values (`register`, `label`, `args`), and
//! `writer::AsmWriter` appends one line of assembly per emission call. Every
//! rule an instruction shape must follow is checked and reported as an
//! `error::AsmError`.
pub mod args;
pub mod decimal;
pub mod error;
pub mod label;
pub mod register;
pub mod writer;
