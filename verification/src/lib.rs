//! A verified decoder and miniature executor for a subset of 16-bit x86
//! (8086) machine code.
//!
//! The crate classifies opcodes with a bit-pattern trie, resolves
//! addressing modes and operand lengths for variable-length instructions,
//! and applies MOV / ADD / SUB / CMP and conditional-jump semantics to a
//! simulated register file with byte/word aliasing.

pub mod decoder;
pub mod executor;
pub mod opcodes;
pub mod registers;
pub mod render;
pub mod values;
