//! The two mnemonic tables. Opcodes and function codes share numeric values
//! (`0x2B` is `SW` as an opcode and `SLTU` as a function code), so each field
//! has a table of its own.
use vstd::prelude::*;
use crate::error::DecodeError;
use crate::funct;
use crate::opcode;

verus! {

/// The mnemonic of a function code, or `None` where the code is not declared.
pub open spec fn funct_name(code: u8) -> Option<Seq<char>> {
    if code == funct::ADD {
        Some("ADD"@)
    } else if code == funct::ADDU {
        Some("ADDU"@)
    } else if code == funct::AND {
        Some("AND"@)
    } else if code == funct::BREAK {
        Some("BREAK"@)
    } else if code == funct::DIV {
        Some("DIV"@)
    } else if code == funct::DIVU {
        Some("DIVU"@)
    } else if code == funct::JALR {
        Some("JALR"@)
    } else if code == funct::JR {
        Some("JR"@)
    } else if code == funct::MFHI {
        Some("MFHI"@)
    } else if code == funct::MFLO {
        Some("MFLO"@)
    } else if code == funct::MTHI {
        Some("MTHI"@)
    } else if code == funct::MTLO {
        Some("MTLO"@)
    } else if code == funct::MULT {
        Some("MULT"@)
    } else if code == funct::MULTU {
        Some("MULTU"@)
    } else if code == funct::NOR {
        Some("NOR"@)
    } else if code == funct::OR {
        Some("OR"@)
    } else if code == funct::SLL {
        Some("SLL"@)
    } else if code == funct::SLLV {
        Some("SLLV"@)
    } else if code == funct::SLT {
        Some("SLT"@)
    } else if code == funct::SLTU {
        Some("SLTU"@)
    } else if code == funct::SRA {
        Some("SRA"@)
    } else if code == funct::SRAV {
        Some("SRAV"@)
    } else if code == funct::SRL {
        Some("SRL"@)
    } else if code == funct::SRLV {
        Some("SRLV"@)
    } else if code == funct::SUB {
        Some("SUB"@)
    } else if code == funct::SUBU {
        Some("SUBU"@)
    } else if code == funct::SYSCALL {
        Some("SYSCALL"@)
    } else if code == funct::XOR {
        Some("XOR"@)
    } else {
        None
    }
}

/// The mnemonic of an opcode, or `None` where the code is not declared.
pub open spec fn opcode_name(code: u8) -> Option<Seq<char>> {
    if code == opcode::ADDI {
        Some("ADDI"@)
    } else if code == opcode::ADDIU {
        Some("ADDIU"@)
    } else if code == opcode::ANDI {
        Some("ANDI"@)
    } else if code == opcode::BEQ {
        Some("BEQ"@)
    } else if code == opcode::BGTZ {
        Some("BGTZ"@)
    } else if code == opcode::BLEZ {
        Some("BLEZ"@)
    } else if code == opcode::BNE {
        Some("BNE"@)
    } else if code == opcode::REGIMM {
        Some("REGIMM"@)
    } else if code == opcode::J {
        Some("J"@)
    } else if code == opcode::JAL {
        Some("JAL"@)
    } else if code == opcode::LB {
        Some("LB"@)
    } else if code == opcode::LBU {
        Some("LBU"@)
    } else if code == opcode::LH {
        Some("LH"@)
    } else if code == opcode::LHU {
        Some("LHU"@)
    } else if code == opcode::LUI {
        Some("LUI"@)
    } else if code == opcode::LW {
        Some("LW"@)
    } else if code == opcode::LWL {
        Some("LWL"@)
    } else if code == opcode::LWR {
        Some("LWR"@)
    } else if code == opcode::ORI {
        Some("ORI"@)
    } else if code == opcode::SB {
        Some("SB"@)
    } else if code == opcode::SH {
        Some("SH"@)
    } else if code == opcode::SLTI {
        Some("SLTI"@)
    } else if code == opcode::SLTIU {
        Some("SLTIU"@)
    } else if code == opcode::SPECIAL {
        Some("SPECIAL"@)
    } else if code == opcode::SW {
        Some("SW"@)
    } else if code == opcode::SWL {
        Some("SWL"@)
    } else if code == opcode::SWR {
        Some("SWR"@)
    } else if code == opcode::XORI {
        Some("XORI"@)
    } else {
        None
    }
}

/// Whether `code` is a declared function code.
pub open spec fn is_funct(code: u8) -> bool {
    funct_name(code) is Some
}

/// Whether `code` is a declared opcode.
pub open spec fn is_opcode(code: u8) -> bool {
    opcode_name(code) is Some
}

/// Whether `code` is an opcode of the jump format.
pub open spec fn is_jump_opcode(code: u8) -> bool {
    code == opcode::J || code == opcode::JAL
}

/// Whether `code` is an opcode of the immediate format: every declared
/// opcode but `SPECIAL` and the two jumps.
pub open spec fn is_immediate_opcode(code: u8) -> bool {
    is_opcode(code) && code != opcode::SPECIAL && !is_jump_opcode(code)
}

/// Looks a function code up in its table.
pub fn functToString(funct: u8) -> (r: Result<&'static str, DecodeError>)
    ensures
        match r {
            Ok(name) => funct_name(funct) == Some(name@),
            Err(e) => funct_name(funct) is None && e == DecodeError::UnrecognizedFunction(funct),
        },
{
    match funct {
        funct::ADD => Ok("ADD"),
        funct::ADDU => Ok("ADDU"),
        funct::AND => Ok("AND"),
        funct::BREAK => Ok("BREAK"),
        funct::DIV => Ok("DIV"),
        funct::DIVU => Ok("DIVU"),
        funct::JALR => Ok("JALR"),
        funct::JR => Ok("JR"),
        funct::MFHI => Ok("MFHI"),
        funct::MFLO => Ok("MFLO"),
        funct::MTHI => Ok("MTHI"),
        funct::MTLO => Ok("MTLO"),
        funct::MULT => Ok("MULT"),
        funct::MULTU => Ok("MULTU"),
        funct::NOR => Ok("NOR"),
        funct::OR => Ok("OR"),
        funct::SLL => Ok("SLL"),
        funct::SLLV => Ok("SLLV"),
        funct::SLT => Ok("SLT"),
        funct::SLTU => Ok("SLTU"),
        funct::SRA => Ok("SRA"),
        funct::SRAV => Ok("SRAV"),
        funct::SRL => Ok("SRL"),
        funct::SRLV => Ok("SRLV"),
        funct::SUB => Ok("SUB"),
        funct::SUBU => Ok("SUBU"),
        funct::SYSCALL => Ok("SYSCALL"),
        funct::XOR => Ok("XOR"),
        _ => Err(DecodeError::UnrecognizedFunction(funct)),
    }
}

/// Looks an opcode up in its table.
pub fn opcodeToString(opcode: u8) -> (r: Result<&'static str, DecodeError>)
    ensures
        match r {
            Ok(name) => opcode_name(opcode) == Some(name@),
            Err(e) => opcode_name(opcode) is None && e == DecodeError::UnrecognizedOpcode(opcode),
        },
{
    match opcode {
        opcode::ADDI => Ok("ADDI"),
        opcode::ADDIU => Ok("ADDIU"),
        opcode::ANDI => Ok("ANDI"),
        opcode::BEQ => Ok("BEQ"),
        opcode::BGTZ => Ok("BGTZ"),
        opcode::BLEZ => Ok("BLEZ"),
        opcode::BNE => Ok("BNE"),
        opcode::REGIMM => Ok("REGIMM"),
        opcode::J => Ok("J"),
        opcode::JAL => Ok("JAL"),
        opcode::LB => Ok("LB"),
        opcode::LBU => Ok("LBU"),
        opcode::LH => Ok("LH"),
        opcode::LHU => Ok("LHU"),
        opcode::LUI => Ok("LUI"),
        opcode::LW => Ok("LW"),
        opcode::LWL => Ok("LWL"),
        opcode::LWR => Ok("LWR"),
        opcode::ORI => Ok("ORI"),
        opcode::SB => Ok("SB"),
        opcode::SH => Ok("SH"),
        opcode::SLTI => Ok("SLTI"),
        opcode::SLTIU => Ok("SLTIU"),
        opcode::SPECIAL => Ok("SPECIAL"),
        opcode::SW => Ok("SW"),
        opcode::SWL => Ok("SWL"),
        opcode::SWR => Ok("SWR"),
        opcode::XORI => Ok("XORI"),
        _ => Err(DecodeError::UnrecognizedOpcode(opcode)),
    }
}

} // verus!
