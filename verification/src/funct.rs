//! Function codes: the values of bits [5:0] that select the operation of a
//! register-format instruction.
use vstd::prelude::*;

verus! {

pub const ADD: u8 = 0x20;
pub const ADDU: u8 = 0x21;
pub const AND: u8 = 0x24;
pub const BREAK: u8 = 0x0D;
pub const DIV: u8 = 0x1A;
pub const DIVU: u8 = 0x1B;
pub const JALR: u8 = 0x09;
pub const JR: u8 = 0x08;
pub const MFHI: u8 = 0x10;
pub const MFLO: u8 = 0x12;
pub const MTHI: u8 = 0x11;
pub const MTLO: u8 = 0x13;
pub const MULT: u8 = 0x18;
pub const MULTU: u8 = 0x19;
pub const NOR: u8 = 0x27;
pub const OR: u8 = 0x25;
pub const SLL: u8 = 0x00;
pub const SLLV: u8 = 0x04;
pub const SLT: u8 = 0x0A;
pub const SLTU: u8 = 0x2B;
pub const SRA: u8 = 0x03;
pub const SRAV: u8 = 0x07;
pub const SRL: u8 = 0x02;
pub const SRLV: u8 = 0x06;
pub const SUB: u8 = 0x22;
pub const SUBU: u8 = 0x23;
pub const SYSCALL: u8 = 0x0C;
pub const XOR: u8 = 0x26;

} // verus!
