//! The instruction model and the decoder.
//!
//! A word is laid out, from bit 31 down to bit 0, in one of three ways:
//!
//! | format    | fields                                                    |
//! |-----------|-----------------------------------------------------------|
//! | register  | opcode 6, source 5, target 5, dest 5, shift amount 5, function 6 |
//! | immediate | opcode 6, source 5, target 5, immediate 16 (signed)       |
//! | jump      | opcode 6, target 26 (unsigned)                            |
use vstd::prelude::*;
use crate::error::DecodeError;
use crate::mnemonic::{is_funct, is_immediate_opcode, is_jump_opcode};
use crate::mnemonic::{functToString, opcodeToString};
use crate::opcode;

verus! {

/// One decoded instruction.
#[derive(Clone, Copy, Debug, PartialEq, Eq, Structural)]
pub enum Instruction {
    /// Immediate format: opcode, source register, target register, immediate.
    IType(u8, u8, u8, i16),
    /// Jump format: opcode, target.
    JType(u8, u32),
    /// Register format: opcode, source register, target register,
    /// destination register, shift amount, function code.
    RType(u8, u8, u8, u8, u8, u8),
}

/// Bits [31:26].
pub open spec fn opcode_of(word: u32) -> u8 {
    ((word >> 26) & 0x3F) as u8
}

/// Bits [25:21].
pub open spec fn rs_of(word: u32) -> u8 {
    ((word >> 21) & 0x1F) as u8
}

/// Bits [20:16].
pub open spec fn rt_of(word: u32) -> u8 {
    ((word >> 16) & 0x1F) as u8
}

/// Bits [15:11].
pub open spec fn rd_of(word: u32) -> u8 {
    ((word >> 11) & 0x1F) as u8
}

/// Bits [10:6].
pub open spec fn shamt_of(word: u32) -> u8 {
    ((word >> 6) & 0x1F) as u8
}

/// Bits [5:0].
pub open spec fn funct_of(word: u32) -> u8 {
    (word & 0x3F) as u8
}

/// The number that sixteen bits stand for in two's complement.
pub open spec fn sign_extend_16(bits: u32) -> int {
    if bits < 0x8000 {
        bits as int
    } else {
        bits - 0x1_0000
    }
}

/// Bits [15:0], read as a signed number.
pub open spec fn immediate_of(word: u32) -> i16 {
    sign_extend_16(word & 0xFFFF) as i16
}

/// Bits [25:0], read as an unsigned number.
pub open spec fn target_of(word: u32) -> u32 {
    word & 0x3FF_FFFF
}

/// The fields of `word` in the register format.
pub open spec fn register_form(word: u32) -> Instruction {
    Instruction::RType(
        opcode_of(word),
        rs_of(word),
        rt_of(word),
        rd_of(word),
        shamt_of(word),
        funct_of(word),
    )
}

/// The fields of `word` in the immediate format.
pub open spec fn immediate_form(word: u32) -> Instruction {
    Instruction::IType(opcode_of(word), rs_of(word), rt_of(word), immediate_of(word))
}

/// The fields of `word` in the jump format.
pub open spec fn jump_form(word: u32) -> Instruction {
    Instruction::JType(opcode_of(word), target_of(word))
}

/// What decoding `word` gives. The opcode alone picks the format; under
/// `SPECIAL` the function code must be declared as well.
pub open spec fn decode_spec(word: u32) -> Result<Instruction, DecodeError> {
    let op = opcode_of(word);
    if op == opcode::SPECIAL {
        if is_funct(funct_of(word)) {
            Ok(register_form(word))
        } else {
            Err(DecodeError::UnrecognizedFunction(funct_of(word)))
        }
    } else if is_jump_opcode(op) {
        Ok(jump_form(word))
    } else if is_immediate_opcode(op) {
        Ok(immediate_form(word))
    } else {
        Err(DecodeError::UnrecognizedOpcode(op))
    }
}

/// The bits of `field` under `mask`, moved up to start at bit `low`.
pub open spec fn placed(field: u32, mask: u32, low: u32) -> u32 {
    (field & mask) << low
}

/// The word whose fields are those of `instruction`. Each field is cut to
/// its width, so the function is total.
pub open spec fn encode_spec(instruction: Instruction) -> u32 {
    match instruction {
        Instruction::RType(op, rs, rt, rd, shamt, funct) => {
            placed(op as u32, 0x3F, 26) | placed(rs as u32, 0x1F, 21) | placed(rt as u32, 0x1F, 16)
                | placed(rd as u32, 0x1F, 11) | placed(shamt as u32, 0x1F, 6) | placed(
                funct as u32,
                0x3F,
                0,
            )
        },
        Instruction::IType(op, rs, rt, immediate) => {
            placed(op as u32, 0x3F, 26) | placed(rs as u32, 0x1F, 21) | placed(rt as u32, 0x1F, 16)
                | placed(immediate as u16 as u32, 0xFFFF, 0)
        },
        Instruction::JType(op, target) => {
            placed(op as u32, 0x3F, 26) | placed(target, 0x3FF_FFFF, 0)
        },
    }
}

/// Extracts bits [31:26].
fn opcode_field(word: u32) -> (op: u8)
    ensures
        op == opcode_of(word),
        op < 64,
{
    assert(((word >> 26) & 0x3F) < 64) by (bit_vector);
    ((word >> 26) & 0x3F) as u8
}

/// Extracts the five bits that start at bit `low`.
fn register_field(word: u32, low: u32) -> (r: u8)
    requires
        low < 32,
    ensures
        r == ((word >> low) & 0x1F) as u8,
        r < 32,
{
    assert(((word >> low) & 0x1F) < 32) by (bit_vector);
    ((word >> low) & 0x1F) as u8
}

/// Extracts bits [5:0].
fn funct_field(word: u32) -> (f: u8)
    ensures
        f == funct_of(word),
        f < 64,
{
    assert((word & 0x3F) < 64) by (bit_vector);
    (word & 0x3F) as u8
}

/// Cuts `field` to the bits under `mask` and moves them up to bit `low`.
fn place(field: u32, mask: u32, low: u32) -> (r: u32)
    requires
        low < 32,
    ensures
        r == placed(field, mask, low),
{
    (field & mask) << low
}

/// Reads `instr` in the immediate format, whatever its opcode.
pub fn intToIType(instr: u32) -> (r: Instruction)
    ensures
        r == immediate_form(instr),
        r.wf(),
{
    let opcode: u8 = opcode_field(instr);
    let rs: u8 = register_field(instr, 21);
    let rt: u8 = register_field(instr, 16);
    let low: u32 = instr & 0xFFFF;
    assert(low < 0x1_0000) by (bit_vector)
        requires
            low == instr & 0xFFFF,
    ;
    let immediate: i16 = if low < 0x8000 {
        low as i16
    } else {
        (low as i32 - 0x1_0000) as i16
    };
    Instruction::IType(opcode, rs, rt, immediate)
}

/// Reads `instr` in the jump format, whatever its opcode.
pub fn intToJType(instr: u32) -> (r: Instruction)
    ensures
        r == jump_form(instr),
        r.wf(),
{
    let opcode: u8 = opcode_field(instr);
    let target: u32 = instr & 0x3FF_FFFF;
    assert(target <= 0x3FF_FFFF) by (bit_vector)
        requires
            target == instr & 0x3FF_FFFF,
    ;
    Instruction::JType(opcode, target)
}

/// Reads `instr` in the register format, whatever its opcode.
pub fn intToRType(instr: u32) -> (r: Instruction)
    ensures
        r == register_form(instr),
        r.wf(),
{
    let opcode: u8 = opcode_field(instr);
    let rs: u8 = register_field(instr, 21);
    let rt: u8 = register_field(instr, 16);
    let rd: u8 = register_field(instr, 11);
    let shamt: u8 = register_field(instr, 6);
    let funct: u8 = funct_field(instr);
    Instruction::RType(opcode, rs, rt, rd, shamt, funct)
}

impl Instruction {
    /// The opcode, whatever the format.
    pub open spec fn opcode(self) -> u8 {
        match self {
            Instruction::IType(op, _, _, _) => op,
            Instruction::JType(op, _) => op,
            Instruction::RType(op, _, _, _, _, _) => op,
        }
    }

    /// Every field lies within its width.
    pub open spec fn wf(self) -> bool {
        match self {
            Instruction::RType(op, rs, rt, rd, shamt, funct) => {
                op < 64 && rs < 32 && rt < 32 && rd < 32 && shamt < 32 && funct < 64
            },
            Instruction::IType(op, rs, rt, _) => op < 64 && rs < 32 && rt < 32,
            Instruction::JType(op, target) => op < 64 && target <= 0x3FF_FFFF,
        }
    }

    /// The opcode belongs to the format, and under `SPECIAL` the function
    /// code is declared.
    pub open spec fn has_declared_codes(self) -> bool {
        match self {
            Instruction::RType(op, _, _, _, _, funct) => op == opcode::SPECIAL && is_funct(funct),
            Instruction::IType(op, _, _, _) => is_immediate_opcode(op),
            Instruction::JType(op, _) => is_jump_opcode(op),
        }
    }

    /// The instruction is one that some word decodes to.
    pub open spec fn valid(self) -> bool {
        self.wf() && self.has_declared_codes()
    }

    /// Decodes one word. Under `SPECIAL` the word is read in the register
    /// format, and an undeclared function code is an error; under `J` and
    /// `JAL` it is read in the jump format; under every other declared
    /// opcode in the immediate format; an undeclared opcode is an error.
    pub fn new(instr: u32) -> (r: Result<Instruction, DecodeError>)
        ensures
            r == decode_spec(instr),
            r matches Ok(i) ==> i.valid(),
    {
        let op: u8 = opcode_field(instr);
        if op == opcode::SPECIAL {
            let funct: u8 = funct_field(instr);
            match functToString(funct) {
                Ok(_) => Ok(intToRType(instr)),
                Err(e) => Err(e),
            }
        } else if op == opcode::J || op == opcode::JAL {
            Ok(intToJType(instr))
        } else {
            match opcodeToString(op) {
                Ok(_) => Ok(intToIType(instr)),
                Err(e) => Err(e),
            }
        }
    }

    /// Packs the fields back into a word, each cut to its width.
    pub fn encode(&self) -> (word: u32)
        ensures
            word == encode_spec(*self),
    {
        match *self {
            Instruction::RType(op, rs, rt, rd, shamt, funct) => {
                place(op as u32, 0x3F, 26) | place(rs as u32, 0x1F, 21) | place(
                    rt as u32,
                    0x1F,
                    16,
                ) | place(rd as u32, 0x1F, 11) | place(shamt as u32, 0x1F, 6) | place(
                    funct as u32,
                    0x3F,
                    0,
                )
            },
            Instruction::IType(op, rs, rt, immediate) => {
                place(op as u32, 0x3F, 26) | place(rs as u32, 0x1F, 21) | place(
                    rt as u32,
                    0x1F,
                    16,
                ) | place(immediate as u16 as u32, 0xFFFF, 0)
            },
            Instruction::JType(op, target) => {
                place(op as u32, 0x3F, 26) | place(target, 0x3FF_FFFF, 0)
            },
        }
    }
}

} // verus!
