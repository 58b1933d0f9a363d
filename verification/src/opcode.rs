//! Opcodes: the values of bits [31:26], which select the encoding format.
use vstd::prelude::*;

verus! {

pub const ADDI: u8 = 0x08;
pub const ADDIU: u8 = 0x09;
pub const ANDI: u8 = 0x0C;
pub const BEQ: u8 = 0x04;
pub const BGTZ: u8 = 0x07;
pub const BLEZ: u8 = 0x06;
pub const BNE: u8 = 0x05;
pub const J: u8 = 0x02;
pub const JAL: u8 = 0x03;
pub const LB: u8 = 0x20;
pub const LBU: u8 = 0x24;
pub const LH: u8 = 0x21;
pub const LHU: u8 = 0x25;
pub const LUI: u8 = 0x0F;
pub const LW: u8 = 0x23;
pub const LWL: u8 = 0x22;
pub const LWR: u8 = 0x26;
pub const ORI: u8 = 0x0D;
pub const REGIMM: u8 = 0x01;
pub const SB: u8 = 0x28;
pub const SH: u8 = 0x29;
pub const SLTI: u8 = 0x0A;
pub const SLTIU: u8 = 0x0B;
pub const SPECIAL: u8 = 0x00;
pub const SW: u8 = 0x2B;
pub const SWL: u8 = 0x2A;
pub const SWR: u8 = 0x2E;
pub const XORI: u8 = 0x0E;

} // verus!
