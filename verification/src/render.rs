//! The textual form of an instruction: the mnemonic, then the operands that
//! its class takes. Registers are written `$n`, numbers in decimal.
//!
//! | class                          | operands                     |
//! |--------------------------------|------------------------------|
//! | `SYSCALL`, `BREAK`             | none                         |
//! | `JR`, `MTHI`, `MTLO`           | `$source`                    |
//! | `MFHI`, `MFLO`                 | `$dest`                      |
//! | `SLL`, `SRL`, `SRA`            | `$dest, $target, shift`      |
//! | every other function code      | `$source, $target, $dest`    |
//! | immediate format               | `$source, $target, immediate`|
//! | jump format                    | `target`                     |
use vstd::prelude::*;
use vstd::string::*;
use crate::error::DecodeError;
use crate::funct;
use crate::instruction::Instruction;
use crate::mnemonic::{funct_name, is_funct, is_immediate_opcode, is_jump_opcode, opcode_name};
use crate::mnemonic::{functToString, opcodeToString};
use crate::opcode;

verus! {

/// The character that stands for one decimal digit.
pub open spec fn digit_char(d: int) -> char {
    if d == 0 {
        '0'
    } else if d == 1 {
        '1'
    } else if d == 2 {
        '2'
    } else if d == 3 {
        '3'
    } else if d == 4 {
        '4'
    } else if d == 5 {
        '5'
    } else if d == 6 {
        '6'
    } else if d == 7 {
        '7'
    } else if d == 8 {
        '8'
    } else {
        '9'
    }
}

/// The decimal numeral of `n`, without leading zeros.
pub open spec fn decimal(n: nat) -> Seq<char>
    decreases n,
{
    if n < 10 {
        seq![digit_char(n as int)]
    } else {
        decimal(n / 10) + seq![digit_char((n % 10) as int)]
    }
}

/// The decimal numeral of `v`, with a minus sign where it is negative.
pub open spec fn signed_decimal(v: int) -> Seq<char> {
    if v < 0 {
        seq!['-'] + decimal((-v) as nat)
    } else {
        decimal(v as nat)
    }
}

/// A register operand: `$` and the register's number.
pub open spec fn register_text(r: u8) -> Seq<char> {
    seq!['$'] + decimal(r as nat)
}

/// What stands between the mnemonic and the first operand.
pub open spec fn gap() -> Seq<char> {
    seq![' ']
}

/// What stands between two operands.
pub open spec fn separator() -> Seq<char> {
    seq![',', ' ']
}

/// The operands of a register-format instruction, with the gap before them.
pub open spec fn register_operands(funct: u8, rs: u8, rt: u8, rd: u8, shamt: u8) -> Seq<char> {
    if funct == funct::SYSCALL || funct == funct::BREAK {
        Seq::empty()
    } else if funct == funct::JR || funct == funct::MTHI || funct == funct::MTLO {
        gap() + register_text(rs)
    } else if funct == funct::MFHI || funct == funct::MFLO {
        gap() + register_text(rd)
    } else if funct == funct::SLL || funct == funct::SRL || funct == funct::SRA {
        gap() + register_text(rd) + separator() + register_text(rt) + separator() + decimal(
            shamt as nat,
        )
    } else {
        gap() + register_text(rs) + separator() + register_text(rt) + separator()
            + register_text(rd)
    }
}

/// The operands of an immediate-format instruction, with the gap before them.
pub open spec fn immediate_operands(rs: u8, rt: u8, immediate: i16) -> Seq<char> {
    gap() + register_text(rs) + separator() + register_text(rt) + separator() + signed_decimal(
        immediate as int,
    )
}

/// The operand of a jump-format instruction, with the gap before it.
pub open spec fn jump_operands(target: u32) -> Seq<char> {
    gap() + decimal(target as nat)
}

/// The text of `instruction`, or `None` where it has none: where the opcode
/// does not belong to the format, or the function code is not declared.
pub open spec fn render_spec(instruction: Instruction) -> Option<Seq<char>> {
    match instruction {
        Instruction::RType(op, rs, rt, rd, shamt, funct) => {
            if op == opcode::SPECIAL && is_funct(funct) {
                Some(funct_name(funct)->0 + register_operands(funct, rs, rt, rd, shamt))
            } else {
                None
            }
        },
        Instruction::IType(op, rs, rt, immediate) => {
            if is_immediate_opcode(op) {
                Some(opcode_name(op)->0 + immediate_operands(rs, rt, immediate))
            } else {
                None
            }
        },
        Instruction::JType(op, target) => {
            if is_jump_opcode(op) {
                Some(opcode_name(op)->0 + jump_operands(target))
            } else {
                None
            }
        },
    }
}

/// The diagnostic for `error`: the offending code in decimal and the bits of
/// the word that hold it.
pub open spec fn describe_spec(error: DecodeError) -> Seq<char> {
    match error {
        DecodeError::UnrecognizedOpcode(code) => {
            "unrecognized opcode "@ + decimal(code as nat) + " in bits [31:26]"@
        },
        DecodeError::UnrecognizedFunction(code) => {
            "unrecognized function code "@ + decimal(code as nat) + " in bits [5:0]"@
        },
        DecodeError::UnsupportedRenderForm => "instruction has no textual form"@,
    }
}

/// The one-character string of a decimal digit.
fn digit_str(d: u32) -> (s: &'static str)
    requires
        d < 10,
    ensures
        s@ =~= seq![digit_char(d as int)],
{
    proof {
        reveal_strlit("0");
        reveal_strlit("1");
        reveal_strlit("2");
        reveal_strlit("3");
        reveal_strlit("4");
        reveal_strlit("5");
        reveal_strlit("6");
        reveal_strlit("7");
        reveal_strlit("8");
        reveal_strlit("9");
    }
    match d {
        0 => "0",
        1 => "1",
        2 => "2",
        3 => "3",
        4 => "4",
        5 => "5",
        6 => "6",
        7 => "7",
        8 => "8",
        _ => "9",
    }
}

/// Appends the decimal numeral of `n`.
fn push_decimal(text: &mut String, n: u32)
    ensures
        final(text)@ =~= old(text)@ + decimal(n as nat),
    decreases n,
{
    if n >= 10 {
        push_decimal(text, n / 10);
    }
    text.append(digit_str(n % 10));
}

/// Appends the decimal numeral of `v`, with its sign.
fn push_signed_decimal(text: &mut String, v: i16)
    ensures
        final(text)@ =~= old(text)@ + signed_decimal(v as int),
{
    if v < 0 {
        proof {
            reveal_strlit("-");
        }
        text.append("-");
        push_decimal(text, (-(v as i32)) as u32);
    } else {
        push_decimal(text, v as u32);
    }
}

/// Appends a register operand.
fn push_register(text: &mut String, r: u8)
    ensures
        final(text)@ =~= old(text)@ + register_text(r),
{
    proof {
        reveal_strlit("$");
    }
    text.append("$");
    push_decimal(text, r as u32);
}

/// Appends the gap that follows the mnemonic.
fn push_gap(text: &mut String)
    ensures
        final(text)@ =~= old(text)@ + gap(),
{
    proof {
        reveal_strlit(" ");
    }
    text.append(" ");
}

/// Appends the separator of two operands.
fn push_separator(text: &mut String)
    ensures
        final(text)@ =~= old(text)@ + separator(),
{
    proof {
        reveal_strlit(", ");
    }
    text.append(", ");
}

/// Appends the operands of a register-format instruction.
fn push_register_operands(text: &mut String, funct: u8, rs: u8, rt: u8, rd: u8, shamt: u8)
    ensures
        final(text)@ =~= old(text)@ + register_operands(funct, rs, rt, rd, shamt),
{
    if funct == funct::SYSCALL || funct == funct::BREAK {
    } else if funct == funct::JR || funct == funct::MTHI || funct == funct::MTLO {
        push_gap(text);
        push_register(text, rs);
    } else if funct == funct::MFHI || funct == funct::MFLO {
        push_gap(text);
        push_register(text, rd);
    } else if funct == funct::SLL || funct == funct::SRL || funct == funct::SRA {
        push_gap(text);
        push_register(text, rd);
        push_separator(text);
        push_register(text, rt);
        push_separator(text);
        push_decimal(text, shamt as u32);
    } else {
        push_gap(text);
        push_register(text, rs);
        push_separator(text);
        push_register(text, rt);
        push_separator(text);
        push_register(text, rd);
    }
}

/// Appends the operands of an immediate-format instruction.
fn push_immediate_operands(text: &mut String, rs: u8, rt: u8, immediate: i16)
    ensures
        final(text)@ =~= old(text)@ + immediate_operands(rs, rt, immediate),
{
    push_gap(text);
    push_register(text, rs);
    push_separator(text);
    push_register(text, rt);
    push_separator(text);
    push_signed_decimal(text, immediate);
}

impl Instruction {
    /// Renders the instruction as a line of assembly text.
    pub fn render(&self) -> (r: Result<String, DecodeError>)
        ensures
            match r {
                Ok(text) => render_spec(*self) == Some(text@),
                Err(e) => render_spec(*self) is None && e == DecodeError::UnsupportedRenderForm,
            },
    {
        match *self {
            Instruction::RType(op, rs, rt, rd, shamt, funct) => {
                if op != opcode::SPECIAL {
                    return Err(DecodeError::UnsupportedRenderForm);
                }
                match functToString(funct) {
                    Ok(name) => {
                        let mut text = String::from_str(name);
                        push_register_operands(&mut text, funct, rs, rt, rd, shamt);
                        Ok(text)
                    },
                    Err(_) => Err(DecodeError::UnsupportedRenderForm),
                }
            },
            Instruction::IType(op, rs, rt, immediate) => {
                if op == opcode::SPECIAL || op == opcode::J || op == opcode::JAL {
                    return Err(DecodeError::UnsupportedRenderForm);
                }
                match opcodeToString(op) {
                    Ok(name) => {
                        let mut text = String::from_str(name);
                        push_immediate_operands(&mut text, rs, rt, immediate);
                        Ok(text)
                    },
                    Err(_) => Err(DecodeError::UnsupportedRenderForm),
                }
            },
            Instruction::JType(op, target) => {
                if op != opcode::J && op != opcode::JAL {
                    return Err(DecodeError::UnsupportedRenderForm);
                }
                match opcodeToString(op) {
                    Ok(name) => {
                        let mut text = String::from_str(name);
                        push_gap(&mut text);
                        push_decimal(&mut text, target);
                        Ok(text)
                    },
                    Err(_) => Err(DecodeError::UnsupportedRenderForm),
                }
            },
        }
    }
}

impl DecodeError {
    /// The diagnostic for this error, as a string.
    pub fn describe(&self) -> (text: String)
        ensures
            text@ == describe_spec(*self),
    {
        match *self {
            DecodeError::UnrecognizedOpcode(code) => {
                let mut text = String::from_str("unrecognized opcode ");
                push_decimal(&mut text, code as u32);
                text.append(" in bits [31:26]");
                text
            },
            DecodeError::UnrecognizedFunction(code) => {
                let mut text = String::from_str("unrecognized function code ");
                push_decimal(&mut text, code as u32);
                text.append(" in bits [5:0]");
                text
            },
            DecodeError::UnsupportedRenderForm => {
                String::from_str("instruction has no textual form")
            },
        }
    }
}

} // verus!
