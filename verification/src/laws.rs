//! What holds of decoding, encoding and rendering together.
use vstd::prelude::*;
use crate::error::DecodeError;
use crate::instruction::{
    decode_spec, encode_spec, funct_of, immediate_of, opcode_of, placed, rd_of, rs_of, rt_of,
    shamt_of, sign_extend_16, target_of, Instruction,
};
use crate::mnemonic::{
    funct_name, is_funct, is_immediate_opcode, is_jump_opcode, is_opcode, opcode_name,
};
use crate::opcode;
use crate::render::render_spec;
use crate::stream::disassemble_spec;

verus! {

/// The mnemonic that the text of a word begins with: that of the function
/// code under `SPECIAL`, that of the opcode otherwise.
pub open spec fn mnemonic_of(word: u32) -> Option<Seq<char>> {
    if opcode_of(word) == opcode::SPECIAL {
        funct_name(funct_of(word))
    } else {
        opcode_name(opcode_of(word))
    }
}

/// The fields of a word lie within their widths.
pub proof fn lemma_field_ranges(word: u32)
    ensures
        opcode_of(word) < 64,
        rs_of(word) < 32,
        rt_of(word) < 32,
        rd_of(word) < 32,
        shamt_of(word) < 32,
        funct_of(word) < 64,
        target_of(word) <= 0x3FF_FFFF,
        -0x8000 <= sign_extend_16(word & 0xFFFF) <= 0x7FFF,
        immediate_of(word) == sign_extend_16(word & 0xFFFF),
{
    assert(((word >> 26) & 0x3F) < 64) by (bit_vector);
    assert(((word >> 21) & 0x1F) < 32) by (bit_vector);
    assert(((word >> 16) & 0x1F) < 32) by (bit_vector);
    assert(((word >> 11) & 0x1F) < 32) by (bit_vector);
    assert(((word >> 6) & 0x1F) < 32) by (bit_vector);
    assert((word & 0x3F) < 64) by (bit_vector);
    assert((word & 0x3FF_FFFF) <= 0x3FF_FFFF) by (bit_vector);
    assert((word & 0xFFFF) <= 0xFFFF) by (bit_vector);
}

/// A word is rejected exactly where its codes are not declared: with
/// `UnrecognizedOpcode` where the opcode is not declared, with
/// `UnrecognizedFunction` where the opcode is `SPECIAL` and the function
/// code is not declared, and in no other case.
pub proof fn lemma_rejected_words(word: u32)
    ensures
        !is_opcode(opcode_of(word)) <==> decode_spec(word) == Err::<Instruction, DecodeError>(
            DecodeError::UnrecognizedOpcode(opcode_of(word)),
        ),
        opcode_of(word) == opcode::SPECIAL && !is_funct(funct_of(word)) <==> decode_spec(word)
            == Err::<Instruction, DecodeError>(
            DecodeError::UnrecognizedFunction(funct_of(word)),
        ),
        decode_spec(word) is Err <==> mnemonic_of(word) is None,
        decode_spec(word) matches Ok(instruction) ==> instruction.valid(),
{
    lemma_field_ranges(word);
}

/// Decoding is a function of the word alone: equal words decode alike.
pub proof fn lemma_decode_deterministic(first: u32, second: u32)
    requires
        first == second,
    ensures
        decode_spec(first) == decode_spec(second),
{
}

/// A word whose codes are declared decodes to an instruction that has a
/// text, and the text is the mnemonic of its code followed by the operands.
pub proof fn lemma_decode_then_render(word: u32)
    requires
        mnemonic_of(word) is Some,
    ensures
        decode_spec(word) is Ok,
        render_spec(decode_spec(word)->Ok_0) is Some,
        disassemble_spec(word) == Ok::<Seq<char>, DecodeError>(
            render_spec(decode_spec(word)->Ok_0)->0,
        ),
        mnemonic_of(word)->0.is_prefix_of(render_spec(decode_spec(word)->Ok_0)->0),
{
    lemma_field_ranges(word);
    let name = mnemonic_of(word)->0;
    let text = render_spec(decode_spec(word)->Ok_0)->0;
    assert(text.subrange(0, name.len() as int) =~= name);
}

/// An instruction that has a text is one whose codes are declared, and
/// every instruction that a word decodes to is such a one.
pub proof fn lemma_rendered_forms(instruction: Instruction)
    ensures
        render_spec(instruction) is Some <==> instruction.has_declared_codes(),
        instruction.valid() ==> render_spec(instruction) is Some,
{
}

/// Packing the fields of a valid instruction into a word and decoding that
/// word gives the instruction back, field by field.
pub proof fn lemma_encode_then_decode(instruction: Instruction)
    requires
        instruction.valid(),
    ensures
        decode_spec(encode_spec(instruction)) == Ok::<Instruction, DecodeError>(instruction),
{
    let word = encode_spec(instruction);
    match instruction {
        Instruction::RType(op, rs, rt, rd, shamt, funct) => {
            assert(opcode_of(word) == op && rs_of(word) == rs && rt_of(word) == rt && rd_of(word)
                == rd && shamt_of(word) == shamt && funct_of(word) == funct) by (bit_vector)
                requires
                    word == placed(op as u32, 0x3F, 26) | placed(rs as u32, 0x1F, 21) | placed(
                        rt as u32,
                        0x1F,
                        16,
                    ) | placed(rd as u32, 0x1F, 11) | placed(shamt as u32, 0x1F, 6) | placed(
                        funct as u32,
                        0x3F,
                        0,
                    ),
                    op < 64,
                    rs < 32,
                    rt < 32,
                    rd < 32,
                    shamt < 32,
                    funct < 64,
            ;
        },
        Instruction::IType(op, rs, rt, imm) => {
            let low = word & 0xFFFF;
            assert(opcode_of(word) == op && rs_of(word) == rs && rt_of(word) == rt && low == (
            imm as u16 as u32)) by (bit_vector)
                requires
                    word == placed(op as u32, 0x3F, 26) | placed(rs as u32, 0x1F, 21) | placed(
                        rt as u32,
                        0x1F,
                        16,
                    ) | placed(imm as u16 as u32, 0xFFFF, 0),
                    low == word & 0xFFFF,
                    op < 64,
                    rs < 32,
                    rt < 32,
            ;
            assert(sign_extend_16(low) == imm) by (bit_vector)
                requires
                    low == (imm as u16 as u32),
            ;
        },
        Instruction::JType(op, target) => {
            assert(opcode_of(word) == op && target_of(word) == target) by (bit_vector)
                requires
                    word == placed(op as u32, 0x3F, 26) | placed(target, 0x3FF_FFFF, 0),
                    op < 64,
                    target <= 0x3FF_FFFF,
            ;
        },
    }
}

/// Decoding a word and packing the fields of the instruction gives the word
/// back: no two words decode to one instruction.
pub proof fn lemma_decode_then_encode(word: u32)
    requires
        decode_spec(word) is Ok,
    ensures
        encode_spec(decode_spec(word)->Ok_0) == word,
{
    let op = (word >> 26) & 0x3F;
    let rs = (word >> 21) & 0x1F;
    let rt = (word >> 16) & 0x1F;
    let rd = (word >> 11) & 0x1F;
    let shamt = (word >> 6) & 0x1F;
    let funct = word & 0x3F;
    let low = word & 0xFFFF;
    let target = word & 0x3FF_FFFF;
    match decode_spec(word)->Ok_0 {
        Instruction::RType(..) => {
            assert(word == placed(op as u8 as u32, 0x3F, 26) | placed(rs as u8 as u32, 0x1F, 21)
                | placed(rt as u8 as u32, 0x1F, 16) | placed(rd as u8 as u32, 0x1F, 11) | placed(
                shamt as u8 as u32,
                0x1F,
                6,
            ) | placed(funct as u8 as u32, 0x3F, 0)) by (bit_vector)
                requires
                    op == (word >> 26) & 0x3F,
                    rs == (word >> 21) & 0x1F,
                    rt == (word >> 16) & 0x1F,
                    rd == (word >> 11) & 0x1F,
                    shamt == (word >> 6) & 0x1F,
                    funct == word & 0x3F,
            ;
        },
        Instruction::IType(_, _, _, immediate) => {
            assert(low <= 0xFFFF) by (bit_vector)
                requires
                    low == word & 0xFFFF,
            ;
            assert(immediate as u16 as u32 == low) by (bit_vector)
                requires
                    low <= 0xFFFF,
                    immediate == sign_extend_16(low) as i16,
            ;
            assert(word == placed(op as u8 as u32, 0x3F, 26) | placed(rs as u8 as u32, 0x1F, 21)
                | placed(rt as u8 as u32, 0x1F, 16) | placed(low, 0xFFFF, 0)) by (bit_vector)
                requires
                    op == (word >> 26) & 0x3F,
                    rs == (word >> 21) & 0x1F,
                    rt == (word >> 16) & 0x1F,
                    low == word & 0xFFFF,
            ;
        },
        Instruction::JType(..) => {
            assert(word == placed(op as u8 as u32, 0x3F, 26) | placed(target, 0x3FF_FFFF, 0))
                by (bit_vector)
                requires
                    op == (word >> 26) & 0x3F,
                    target == word & 0x3FF_FFFF,
            ;
        },
    }
}

/// The fields of each format tile the word: every bit belongs to exactly one
/// field, and each field is the number that its bits stand for.
pub proof fn lemma_fields_tile_the_word(word: u32)
    ensures
        opcode_of(word) == word / 0x400_0000,
        rs_of(word) == (word / 0x20_0000) % 32,
        rt_of(word) == (word / 0x1_0000) % 32,
        rd_of(word) == (word / 0x800) % 32,
        shamt_of(word) == (word / 0x40) % 32,
        funct_of(word) == word % 64,
        target_of(word) == word % 0x400_0000,
        word & 0xFFFF == word % 0x1_0000,
        word == opcode_of(word) * 0x400_0000 + rs_of(word) * 0x20_0000 + rt_of(word) * 0x1_0000
            + rd_of(word) * 0x800 + shamt_of(word) * 0x40 + funct_of(word),
        word == opcode_of(word) * 0x400_0000 + rs_of(word) * 0x20_0000 + rt_of(word) * 0x1_0000
            + (word & 0xFFFF),
        word == opcode_of(word) * 0x400_0000 + target_of(word),
{
    lemma_field_ranges(word);
    assert((word >> 26) & 0x3F == word / 0x400_0000) by (bit_vector);
    assert((word >> 21) & 0x1F == (word / 0x20_0000) % 32) by (bit_vector);
    assert((word >> 16) & 0x1F == (word / 0x1_0000) % 32) by (bit_vector);
    assert((word >> 11) & 0x1F == (word / 0x800) % 32) by (bit_vector);
    assert((word >> 6) & 0x1F == (word / 0x40) % 32) by (bit_vector);
    assert(word & 0x3F == word % 64) by (bit_vector);
    assert(word & 0x3FF_FFFF == word % 0x400_0000) by (bit_vector);
    assert(word & 0xFFFF == word % 0x1_0000) by (bit_vector);
    assert(word == ((word >> 26) & 0x3F) * 0x400_0000 + ((word >> 21) & 0x1F) * 0x20_0000 + ((word
        >> 16) & 0x1F) * 0x1_0000 + ((word >> 11) & 0x1F) * 0x800 + ((word >> 6) & 0x1F) * 0x40
        + (word & 0x3F)) by (bit_vector);
    assert(word == ((word >> 26) & 0x3F) * 0x400_0000 + ((word >> 21) & 0x1F) * 0x20_0000 + ((word
        >> 16) & 0x1F) * 0x1_0000 + (word & 0xFFFF)) by (bit_vector);
    assert(word == ((word >> 26) & 0x3F) * 0x400_0000 + (word & 0x3FF_FFFF)) by (bit_vector);
}

/// The format of the decoded instruction is a function of the opcode, and
/// of the function code under `SPECIAL`.
pub proof fn lemma_format_by_opcode(word: u32)
    ensures
        decode_spec(word) matches Ok(Instruction::RType(..)) <==> opcode_of(word)
            == opcode::SPECIAL && is_funct(funct_of(word)),
        decode_spec(word) matches Ok(Instruction::JType(..)) <==> is_jump_opcode(opcode_of(word)),
        decode_spec(word) matches Ok(Instruction::IType(..)) <==> is_immediate_opcode(
            opcode_of(word),
        ),
        decode_spec(word) matches Ok(instruction) ==> instruction.opcode() == opcode_of(word),
{
}

/// The length of a name and its first five characters, which tell any two
/// mnemonics of one table apart.
spec fn name_sketch(name: Seq<char>) -> (nat, char, char, char, char, char) {
    (name.len(), name[0], name[1], name[2], name[3], name[4])
}

/// No two function codes share a mnemonic.
pub proof fn lemma_funct_names_distinct(first: u8, second: u8)
    requires
        is_funct(first),
        funct_name(first) == funct_name(second),
    ensures
        first == second,
{
    reveal_strlit("ADD");
    reveal_strlit("ADDU");
    reveal_strlit("AND");
    reveal_strlit("BREAK");
    reveal_strlit("DIV");
    reveal_strlit("DIVU");
    reveal_strlit("JALR");
    reveal_strlit("JR");
    reveal_strlit("MFHI");
    reveal_strlit("MFLO");
    reveal_strlit("MTHI");
    reveal_strlit("MTLO");
    reveal_strlit("MULT");
    reveal_strlit("MULTU");
    reveal_strlit("NOR");
    reveal_strlit("OR");
    reveal_strlit("SLL");
    reveal_strlit("SLLV");
    reveal_strlit("SLT");
    reveal_strlit("SLTU");
    reveal_strlit("SRA");
    reveal_strlit("SRAV");
    reveal_strlit("SRL");
    reveal_strlit("SRLV");
    reveal_strlit("SUB");
    reveal_strlit("SUBU");
    reveal_strlit("SYSCALL");
    reveal_strlit("XOR");
    assert(name_sketch(funct_name(first)->0) == name_sketch(funct_name(second)->0));
}

/// No two opcodes share a mnemonic.
pub proof fn lemma_opcode_names_distinct(first: u8, second: u8)
    requires
        is_opcode(first),
        opcode_name(first) == opcode_name(second),
    ensures
        first == second,
{
    reveal_strlit("ADDI");
    reveal_strlit("ADDIU");
    reveal_strlit("ANDI");
    reveal_strlit("BEQ");
    reveal_strlit("BGTZ");
    reveal_strlit("BLEZ");
    reveal_strlit("BNE");
    reveal_strlit("REGIMM");
    reveal_strlit("J");
    reveal_strlit("JAL");
    reveal_strlit("LB");
    reveal_strlit("LBU");
    reveal_strlit("LH");
    reveal_strlit("LHU");
    reveal_strlit("LUI");
    reveal_strlit("LW");
    reveal_strlit("LWL");
    reveal_strlit("LWR");
    reveal_strlit("ORI");
    reveal_strlit("SB");
    reveal_strlit("SH");
    reveal_strlit("SLTI");
    reveal_strlit("SLTIU");
    reveal_strlit("SPECIAL");
    reveal_strlit("SW");
    reveal_strlit("SWL");
    reveal_strlit("SWR");
    reveal_strlit("XORI");
    assert(name_sketch(opcode_name(first)->0) == name_sketch(opcode_name(second)->0));
}

} // verus!
