//! A decoder for 32-bit MIPS machine-code words.
//!
//! A word is classified by its opcode field into one of three encoding
//! formats, its fields are extracted into an [`Instruction`], and the
//! instruction is rendered as a line of assembly text.
#![allow(non_snake_case)]

pub mod funct;
pub mod opcode;
pub mod error;
pub mod mnemonic;

pub use error::DecodeError;
pub use mnemonic::{functToString, opcodeToString};
pub mod instruction;
pub use instruction::{intToIType, intToJType, intToRType, Instruction};
pub mod render;
pub mod stream;
pub use stream::{decode_words, disassemble, disassemble_word, words_from_bytes};

pub mod laws;
