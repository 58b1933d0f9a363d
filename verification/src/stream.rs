//! From a stream of bytes to words, instructions and lines of text.
//!
//! A stream holds little-endian words of four bytes each, in order. Where its
//! length is no multiple of four, the last word is completed with zero bytes.
//! Every word is decoded by itself: a word that cannot be decoded gives an
//! error in its own place and leaves the others as they are.
use vstd::prelude::*;
use byteorder::{ByteOrder, LittleEndian};
use crate::error::DecodeError;
use crate::instruction::{decode_spec, Instruction};
use crate::render::render_spec;

verus! {

/// The number that the first four bytes stand for, least significant byte
/// first.
pub open spec fn le_word(bytes: Seq<u8>) -> int
    recommends
        bytes.len() >= 4,
{
    bytes[0] + 0x100 * bytes[1] + 0x1_0000 * bytes[2] + 0x100_0000 * bytes[3]
}

/// The four bytes that start at `start`, with zero for each byte past the
/// end of the stream.
pub open spec fn padded_chunk(bytes: Seq<u8>, start: int) -> Seq<u8> {
    Seq::new(
        4,
        |j: int|
            if start + j < bytes.len() {
                bytes[start + j]
            } else {
                0u8
            },
    )
}

/// How many words a stream of `len` bytes holds.
pub open spec fn word_count(len: nat) -> nat {
    (len + 3) / 4
}

/// The `k`-th word of the stream.
pub open spec fn stream_word(bytes: Seq<u8>, k: int) -> u32 {
    le_word(padded_chunk(bytes, 4 * k)) as u32
}

/// The line that a word gives: the text of the instruction that it decodes
/// to, or the error.
pub open spec fn disassemble_spec(word: u32) -> Result<Seq<char>, DecodeError> {
    match decode_spec(word) {
        Ok(instruction) => match render_spec(instruction) {
            Some(text) => Ok(text),
            None => Err(DecodeError::UnsupportedRenderForm),
        },
        Err(e) => Err(e),
    }
}

/// A line with its text as a sequence of characters.
pub open spec fn line_view(line: Result<String, DecodeError>) -> Result<Seq<char>, DecodeError> {
    match line {
        Ok(text) => Ok(text@),
        Err(e) => Err(e),
    }
}

/// `byteorder::LittleEndian::read_u32` (trait `ByteOrder`): the unsigned
/// number held in the first four bytes of `buf`, least significant byte
/// first. It panics on a shorter buffer, which the precondition leaves out.
#[verifier::external_body]
fn read_le_u32(buf: &[u8]) -> (word: u32)
    requires
        buf@.len() >= 4,
    ensures
        word as int == le_word(buf@),
{
    LittleEndian::read_u32(buf)
}

/// The word that starts at byte `start`.
fn word_at(bytes: &[u8], start: usize) -> (word: u32)
    requires
        start < bytes@.len(),
    ensures
        word as int == le_word(padded_chunk(bytes@, start as int)),
{
    let avail: usize = bytes.len() - start;
    let b0: u8 = bytes[start];
    let b1: u8 = if avail > 1 {
        bytes[start + 1]
    } else {
        0
    };
    let b2: u8 = if avail > 2 {
        bytes[start + 2]
    } else {
        0
    };
    let b3: u8 = if avail > 3 {
        bytes[start + 3]
    } else {
        0
    };
    let buf: [u8; 4] = [b0, b1, b2, b3];
    assert(buf@ =~= padded_chunk(bytes@, start as int));
    read_le_u32(buf.as_slice())
}

/// Splits a stream of bytes into its words.
pub fn words_from_bytes(bytes: &[u8]) -> (words: Vec<u32>)
    ensures
        words@.len() == word_count(bytes@.len()),
        forall|k: int| 0 <= k < words@.len() ==> words@[k] == stream_word(bytes@, k),
{
    let len: usize = bytes.len();
    let count: usize = if len % 4 == 0 {
        len / 4
    } else {
        len / 4 + 1
    };
    let mut words: Vec<u32> = Vec::new();
    let mut k: usize = 0;
    while k < count
        invariant
            len == bytes@.len(),
            count == word_count(len as nat),
            k <= count,
            words@.len() == k,
            forall|t: int| 0 <= t < k ==> words@[t] == stream_word(bytes@, t),
        decreases count - k,
    {
        let word: u32 = word_at(bytes, 4 * k);
        words.push(word);
        k += 1;
    }
    words
}

/// Decodes every word of a sequence, each by itself.
pub fn decode_words(words: &[u32]) -> (results: Vec<Result<Instruction, DecodeError>>)
    ensures
        results@.len() == words@.len(),
        forall|k: int| 0 <= k < words@.len() ==> results@[k] == decode_spec(words@[k]),
{
    let mut results: Vec<Result<Instruction, DecodeError>> = Vec::new();
    let mut k: usize = 0;
    while k < words.len()
        invariant
            k <= words@.len(),
            results@.len() == k,
            forall|t: int| 0 <= t < k ==> results@[t] == decode_spec(words@[t]),
        decreases words@.len() - k,
    {
        results.push(Instruction::new(words[k]));
        k += 1;
    }
    results
}

/// Decodes one word and renders the instruction.
pub fn disassemble_word(word: u32) -> (line: Result<String, DecodeError>)
    ensures
        line_view(line) == disassemble_spec(word),
{
    match Instruction::new(word) {
        Ok(instruction) => instruction.render(),
        Err(e) => Err(e),
    }
}

/// Disassembles a stream of bytes: one line, or one error, for each word.
pub fn disassemble(bytes: &[u8]) -> (lines: Vec<Result<String, DecodeError>>)
    ensures
        lines@.len() == word_count(bytes@.len()),
        forall|k: int|
            0 <= k < lines@.len() ==> line_view(lines@[k]) == disassemble_spec(
                stream_word(bytes@, k),
            ),
{
    let words: Vec<u32> = words_from_bytes(bytes);
    let mut lines: Vec<Result<String, DecodeError>> = Vec::new();
    let mut k: usize = 0;
    while k < words.len()
        invariant
            k <= words@.len(),
            lines@.len() == k,
            words@.len() == word_count(bytes@.len()),
            forall|t: int| 0 <= t < words@.len() ==> words@[t] == stream_word(bytes@, t),
            forall|t: int|
                0 <= t < k ==> line_view(lines@[t]) == disassemble_spec(stream_word(bytes@, t)),
        decreases words@.len() - k,
    {
        lines.push(disassemble_word(words[k]));
        k += 1;
    }
    lines
}

} // verus!
