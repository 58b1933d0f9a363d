use mips_disasm::funct;
use mips_disasm::opcode;
use mips_disasm::{functToString, intToIType, intToJType, intToRType, opcodeToString};
use mips_disasm::{DecodeError, Instruction};

const FUNCTS: [(u8, &str); 28] = [
    (0x20, "ADD"),
    (0x21, "ADDU"),
    (0x24, "AND"),
    (0x0D, "BREAK"),
    (0x1A, "DIV"),
    (0x1B, "DIVU"),
    (0x09, "JALR"),
    (0x08, "JR"),
    (0x10, "MFHI"),
    (0x12, "MFLO"),
    (0x11, "MTHI"),
    (0x13, "MTLO"),
    (0x18, "MULT"),
    (0x19, "MULTU"),
    (0x27, "NOR"),
    (0x25, "OR"),
    (0x00, "SLL"),
    (0x04, "SLLV"),
    (0x0A, "SLT"),
    (0x2B, "SLTU"),
    (0x03, "SRA"),
    (0x07, "SRAV"),
    (0x02, "SRL"),
    (0x06, "SRLV"),
    (0x22, "SUB"),
    (0x23, "SUBU"),
    (0x0C, "SYSCALL"),
    (0x26, "XOR"),
];

const OPCODES: [(u8, &str); 28] = [
    (0x08, "ADDI"),
    (0x09, "ADDIU"),
    (0x0C, "ANDI"),
    (0x04, "BEQ"),
    (0x07, "BGTZ"),
    (0x06, "BLEZ"),
    (0x05, "BNE"),
    (0x02, "J"),
    (0x03, "JAL"),
    (0x20, "LB"),
    (0x24, "LBU"),
    (0x21, "LH"),
    (0x25, "LHU"),
    (0x0F, "LUI"),
    (0x23, "LW"),
    (0x22, "LWL"),
    (0x26, "LWR"),
    (0x0D, "ORI"),
    (0x01, "REGIMM"),
    (0x28, "SB"),
    (0x29, "SH"),
    (0x0A, "SLTI"),
    (0x0B, "SLTIU"),
    (0x00, "SPECIAL"),
    (0x2B, "SW"),
    (0x2A, "SWL"),
    (0x2E, "SWR"),
    (0x0E, "XORI"),
];

fn funct_in_table(code: u8) -> Option<&'static str> {
    FUNCTS.iter().find(|entry| entry.0 == code).map(|entry| entry.1)
}

fn opcode_in_table(code: u8) -> Option<&'static str> {
    OPCODES.iter().find(|entry| entry.0 == code).map(|entry| entry.1)
}

#[test]
fn funct_table_has_every_declared_code() {
    for entry in FUNCTS.iter() {
        assert_eq!(functToString(entry.0), Ok(entry.1));
    }
}

#[test]
fn opcode_table_has_every_declared_code() {
    for entry in OPCODES.iter() {
        assert_eq!(opcodeToString(entry.0), Ok(entry.1));
    }
}

#[test]
fn funct_table_rejects_every_other_code() {
    for code in 0u8..=255u8 {
        if funct_in_table(code).is_none() {
            assert_eq!(functToString(code), Err(DecodeError::UnrecognizedFunction(code)));
        }
    }
}

#[test]
fn opcode_table_rejects_every_other_code() {
    for code in 0u8..=255u8 {
        if opcode_in_table(code).is_none() {
            assert_eq!(opcodeToString(code), Err(DecodeError::UnrecognizedOpcode(code)));
        }
    }
}

#[test]
fn tables_keep_shared_values_apart() {
    assert_eq!(functToString(0x2B), Ok("SLTU"));
    assert_eq!(opcodeToString(0x2B), Ok("SW"));
    assert_eq!(functToString(0x08), Ok("JR"));
    assert_eq!(opcodeToString(0x08), Ok("ADDI"));
}

#[test]
fn named_constants_match_the_tables() {
    assert_eq!(funct::ADD, 0x20);
    assert_eq!(funct::SLTU, 0x2B);
    assert_eq!(funct::SYSCALL, 0x0C);
    assert_eq!(opcode::SPECIAL, 0x00);
    assert_eq!(opcode::SW, 0x2B);
    assert_eq!(opcode::SWR, 0x2E);
    assert_eq!(opcode::XORI, 0x0E);
}

#[test]
fn undeclared_opcodes_are_rejected() {
    for op in 0u8..64u8 {
        let word: u32 = ((op as u32) << 26) | 0x0123_4567 & 0x03FF_FFC0 | 0x20;
        let result = Instruction::new(word);
        match opcode_in_table(op) {
            None => assert_eq!(result, Err(DecodeError::UnrecognizedOpcode(op))),
            Some(_) => assert!(result.is_ok()),
        }
    }
}

#[test]
fn undeclared_functs_are_rejected_under_special() {
    for code in 0u8..64u8 {
        let word: u32 = (4u32 << 21) | (5u32 << 16) | (6u32 << 11) | (code as u32);
        let result = Instruction::new(word);
        match funct_in_table(code) {
            None => assert_eq!(result, Err(DecodeError::UnrecognizedFunction(code))),
            Some(_) => assert_eq!(result, Ok(Instruction::RType(0, 4, 5, 6, 0, code))),
        }
    }
}

#[test]
fn opcode_picks_the_format() {
    for op in 0u8..64u8 {
        let word: u32 = ((op as u32) << 26) | 0x20;
        match Instruction::new(word) {
            Ok(Instruction::RType(..)) => assert_eq!(op, 0),
            Ok(Instruction::JType(..)) => assert!(op == 2 || op == 3),
            Ok(Instruction::IType(..)) => {
                assert!(op != 0 && op != 2 && op != 3);
                assert!(opcode_in_table(op).is_some());
            }
            Err(e) => assert_eq!(e, DecodeError::UnrecognizedOpcode(op)),
        }
    }
}

#[test]
fn function_code_is_not_looked_at_outside_special() {
    let word: u32 = (0x08u32 << 26) | 0x3F;
    assert_eq!(Instruction::new(word), Ok(Instruction::IType(0x08, 0, 0, 0x3F)));
}

#[test]
fn xori_is_an_immediate_opcode() {
    let word: u32 = (0x0Eu32 << 26) | (1u32 << 21) | (2u32 << 16) | 0x00F0;
    assert_eq!(Instruction::new(word), Ok(Instruction::IType(0x0E, 1, 2, 0xF0)));
}

#[test]
fn regimm_is_an_immediate_opcode() {
    let word: u32 = (0x01u32 << 26) | (9u32 << 21) | (1u32 << 16) | 0x0004;
    assert_eq!(Instruction::new(word), Ok(Instruction::IType(0x01, 9, 1, 4)));
}

#[test]
fn add_word_decodes_to_register_fields() {
    let word: u32 = 0b00000000100001010011000000100000;
    assert_eq!(word, 0x0085_3020);
    assert_eq!(Instruction::new(word), Ok(Instruction::RType(0, 4, 5, 6, 0, 0x20)));
}

#[test]
fn addi_word_decodes_to_immediate_fields() {
    let word: u32 = (0x08u32 << 26) | (3u32 << 21) | (7u32 << 16) | 0x00FF;
    assert_eq!(Instruction::new(word), Ok(Instruction::IType(0x08, 3, 7, 255)));
}

#[test]
fn jump_word_decodes_to_jump_fields() {
    let word: u32 = (0x02u32 << 26) | 0x000_0010;
    assert_eq!(Instruction::new(word), Ok(Instruction::JType(0x02, 16)));
}

#[test]
fn immediate_is_sign_extended() {
    let base: u32 = (0x08u32 << 26) | (3u32 << 21) | (7u32 << 16);
    assert_eq!(Instruction::new(base | 0xFFFF), Ok(Instruction::IType(0x08, 3, 7, -1)));
    assert_eq!(Instruction::new(base | 0x7FFF), Ok(Instruction::IType(0x08, 3, 7, 32767)));
    assert_eq!(Instruction::new(base | 0x8000), Ok(Instruction::IType(0x08, 3, 7, -32768)));
    assert_eq!(Instruction::new(base), Ok(Instruction::IType(0x08, 3, 7, 0)));
}

#[test]
fn jump_target_is_zero_extended() {
    let word: u32 = (0x03u32 << 26) | 0x03FF_FFFF;
    assert_eq!(Instruction::new(word), Ok(Instruction::JType(0x03, 0x03FF_FFFF)));
    let high_bit_only: u32 = (0x02u32 << 26) | 0x0200_0000;
    assert_eq!(Instruction::new(high_bit_only), Ok(Instruction::JType(0x02, 0x0200_0000)));
}

#[test]
fn every_field_at_its_largest() {
    assert_eq!(
        Instruction::new(0x03FF_FFE7),
        Ok(Instruction::RType(0, 31, 31, 31, 31, 0x27))
    );
    assert_eq!(Instruction::new(0xBBFF_FFFF), Ok(Instruction::IType(0x2E, 31, 31, -1)));
    assert_eq!(Instruction::new(0xFFFF_FFFF), Err(DecodeError::UnrecognizedOpcode(0x3F)));
    assert_eq!(Instruction::new(0x0000_003F), Err(DecodeError::UnrecognizedFunction(0x3F)));
    assert_eq!(Instruction::new(0), Ok(Instruction::RType(0, 0, 0, 0, 0, 0)));
}

#[test]
fn each_field_comes_from_its_own_bits() {
    assert_eq!(Instruction::new(0x20 | (1 << 21)), Ok(Instruction::RType(0, 1, 0, 0, 0, 0x20)));
    assert_eq!(Instruction::new(0x20 | (1 << 16)), Ok(Instruction::RType(0, 0, 1, 0, 0, 0x20)));
    assert_eq!(Instruction::new(0x20 | (1 << 11)), Ok(Instruction::RType(0, 0, 0, 1, 0, 0x20)));
    assert_eq!(Instruction::new(0x20 | (1 << 6)), Ok(Instruction::RType(0, 0, 0, 0, 1, 0x20)));
    assert_eq!(Instruction::new(0x20 | (16 << 21)), Ok(Instruction::RType(0, 16, 0, 0, 0, 0x20)));
    assert_eq!(Instruction::new(0x20 | (16 << 6)), Ok(Instruction::RType(0, 0, 0, 0, 16, 0x20)));
}

#[test]
fn format_readers_ignore_the_opcode() {
    let word: u32 = 0xFC85_3021;
    assert_eq!(intToRType(word), Instruction::RType(0x3F, 4, 5, 6, 0, 0x21));
    assert_eq!(intToIType(word), Instruction::IType(0x3F, 4, 5, 0x3021));
    assert_eq!(intToJType(word), Instruction::JType(0x3F, 0x0085_3021));
    assert_eq!(intToIType(0x2085_FFFE), Instruction::IType(0x08, 4, 5, -2));
}

#[test]
fn decoding_twice_gives_equal_results() {
    let words: [u32; 6] = [0x0085_3020, 0x2067_00FF, 0x0800_0010, 0xFFFF_FFFF, 0x0000_003F, 0];
    for word in words.iter() {
        assert_eq!(Instruction::new(*word), Instruction::new(*word));
    }
}

#[test]
fn encode_packs_the_fields() {
    assert_eq!(Instruction::RType(0, 4, 5, 6, 0, 0x20).encode(), 0x0085_3020);
    assert_eq!(Instruction::IType(0x08, 3, 7, 255).encode(), 0x2067_00FF);
    assert_eq!(Instruction::IType(0x08, 3, 7, -1).encode(), 0x2067_FFFF);
    assert_eq!(Instruction::JType(0x02, 16).encode(), 0x0800_0010);
    assert_eq!(Instruction::RType(0, 0, 0, 0, 31, 0).encode(), 0x0000_07C0);
}

#[test]
fn encode_cuts_each_field_to_its_width() {
    assert_eq!(Instruction::RType(0x40, 0x24, 0x25, 0x26, 0x20, 0x60).encode(), 0x0085_3020);
    assert_eq!(Instruction::JType(0x42, 0xFC00_0010).encode(), 0x0800_0010);
    assert_eq!(Instruction::IType(0x48, 0x23, 0x27, 255).encode(), 0x2067_00FF);
}

#[test]
fn encode_then_decode_gives_the_fields_back() {
    for entry in FUNCTS.iter() {
        for r in [0u8, 1, 15, 16, 31].iter() {
            let i = Instruction::RType(0, *r, 31 - *r, *r / 2, 31 - *r / 3, entry.0);
            assert_eq!(Instruction::new(i.encode()), Ok(i));
        }
    }
    for entry in OPCODES.iter() {
        if entry.0 == 0 {
            continue;
        }
        if entry.0 == 2 || entry.0 == 3 {
            for target in [0u32, 1, 16, 0x0200_0000, 0x03FF_FFFF].iter() {
                let i = Instruction::JType(entry.0, *target);
                assert_eq!(Instruction::new(i.encode()), Ok(i));
            }
        } else {
            for imm in [0i16, 1, -1, 255, 32767, -32768, -255].iter() {
                let i = Instruction::IType(entry.0, 3, 30, *imm);
                assert_eq!(Instruction::new(i.encode()), Ok(i));
            }
        }
    }
}

#[test]
fn decode_then_encode_gives_the_word_back() {
    let mut word: u32 = 0x0085_3020;
    for _ in 0..20000 {
        if let Ok(i) = Instruction::new(word) {
            assert_eq!(i.encode(), word);
        }
        word = word.wrapping_mul(1_664_525).wrapping_add(1_013_904_223);
    }
}

#[test]
fn no_two_codes_share_a_mnemonic() {
    for a in 0u8..=255u8 {
        for b in 0u8..=255u8 {
            if a != b {
                if let (Ok(first), Ok(second)) = (functToString(a), functToString(b)) {
                    assert_ne!(first, second);
                }
                if let (Ok(first), Ok(second)) = (opcodeToString(a), opcodeToString(b)) {
                    assert_ne!(first, second);
                }
            }
        }
    }
}

#[test]
fn fields_tile_the_word() {
    let mut word: u32 = 0x0085_3020;
    for _ in 0..20000 {
        match intToRType(word) {
            Instruction::RType(op, rs, rt, rd, shamt, funct) => {
                let sum: u64 = (op as u64) * 0x400_0000
                    + (rs as u64) * 0x20_0000
                    + (rt as u64) * 0x1_0000
                    + (rd as u64) * 0x800
                    + (shamt as u64) * 0x40
                    + (funct as u64);
                assert_eq!(sum, word as u64);
                assert!(op < 64 && rs < 32 && rt < 32 && rd < 32 && shamt < 32 && funct < 64);
            }
            _ => panic!("register format expected"),
        }
        match intToIType(word) {
            Instruction::IType(op, rs, rt, immediate) => {
                let low: u64 = (immediate as u16) as u64;
                let sum: u64 =
                    (op as u64) * 0x400_0000 + (rs as u64) * 0x20_0000 + (rt as u64) * 0x1_0000 + low;
                assert_eq!(sum, word as u64);
            }
            _ => panic!("immediate format expected"),
        }
        match intToJType(word) {
            Instruction::JType(op, target) => {
                assert_eq!((op as u64) * 0x400_0000 + target as u64, word as u64);
                assert!(target <= 0x03FF_FFFF);
            }
            _ => panic!("jump format expected"),
        }
        word = word.wrapping_mul(1_664_525).wrapping_add(1_013_904_223);
    }
}
